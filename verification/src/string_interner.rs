//! Interning of the property keys that recur in every symbol.
//!
//! A key of the fixed list below is represented by the one shared constant
//! for it; any other key gets a string of its own. Either way the result
//! holds the characters of the key: interning saves allocation and changes
//! nothing that can be read from a value.

use crate::text::str_eq;
use std::borrow::Cow;
use vstd::prelude::*;
use vstd::std_specs::convert::FromSpecImpl;
use vstd::string::StringExecFns;

verus! {

/// A string that is either a shared constant or owned.
#[derive(Debug, PartialEq, Eq, Hash)]
pub struct InternedString(pub Cow<'static, str>);

impl View for InternedString {
    type V = Seq<char>;

    open spec fn view(&self) -> Seq<char> {
        self.0@
    }
}

impl Clone for InternedString {
    fn clone(&self) -> (r: Self)
        ensures
            r@ == self@,
            r.is_shared() == self.is_shared(),
    {
        match &self.0 {
            Cow::Borrowed(s) => InternedString(Cow::Borrowed(*s)),
            Cow::Owned(s) => InternedString(Cow::Owned(s.clone())),
        }
    }
}

impl InternedString {
    /// Whether the string is a shared constant rather than a string of its
    /// own.
    pub open spec fn is_shared(&self) -> bool {
        self.0 is Borrowed
    }

    /// The string `s`, shared or owned as `s` is.
    pub fn new(s: Cow<'static, str>) -> (r: Self)
        ensures
            r.0 == s,
    {
        InternedString(s)
    }

    /// The characters of the string.
    pub fn as_str(&self) -> (r: &str)
        ensures
            r@ == self@,
    {
        match &self.0 {
            Cow::Borrowed(s) => s,
            Cow::Owned(s) => s.as_str(),
        }
    }

    /// The shared constant `s`.
    pub fn from_static(s: &'static str) -> (r: Self)
        ensures
            r == InternedString(Cow::Borrowed(s)),
            r@ == s@,
            r.is_shared(),
    {
        InternedString(Cow::Borrowed(s))
    }

    /// The owned string `s`.
    pub fn from_string(s: String) -> (r: Self)
        ensures
            r == InternedString(Cow::Owned(s)),
            r@ == s@,
            !r.is_shared(),
    {
        InternedString(Cow::Owned(s))
    }
}

impl std::ops::Deref for InternedString {
    type Target = str;

    fn deref(&self) -> (r: &str)
        ensures
            r@ == self@,
    {
        self.as_str()
    }
}

impl From<&'static str> for InternedString {
    fn from(s: &'static str) -> (r: Self) {
        Self::from_static(s)
    }
}

impl FromSpecImpl<&'static str> for InternedString {
    open spec fn obeys_from_spec() -> bool {
        true
    }

    open spec fn from_spec(s: &'static str) -> Self {
        InternedString(Cow::Borrowed(s))
    }
}

impl From<String> for InternedString {
    fn from(s: String) -> (r: Self) {
        Self::from_string(s)
    }
}

impl FromSpecImpl<String> for InternedString {
    open spec fn obeys_from_spec() -> bool {
        true
    }

    open spec fn from_spec(s: String) -> Self {
        InternedString(Cow::Owned(s))
    }
}

/// The keys that are interned, in the order of the table.
pub open spec fn known_keys() -> Seq<Seq<char>> {
    seq![
        "Value"@,
        "Reference"@,
        "Footprint"@,
        "Datasheet"@,
        "ki_keywords"@,
        "ki_description"@,
        "ki_fp_filters"@,
        "D"@,
        "in_bom"@,
        "on_board"@,
        "pin_numbers"@,
        "power"@,
        "extends"@,
    ]
}

/// Whether `key` is one of the interned keys.
pub open spec fn is_known_key(key: Seq<char>) -> bool {
    known_keys().contains(key)
}

/// Whether `r` is an interned form of `key`: it holds the characters of
/// `key`, and it is a shared constant exactly where `key` is in the table.
pub open spec fn interns(r: InternedString, key: Seq<char>) -> bool {
    r@ == key && r.is_shared() == is_known_key(key)
}

/// Interning is idempotent, and the same key is always interned alike: two
/// interned forms of one key hold the same characters and are both shared
/// or both owned, and so does an interned form of what an interned form
/// holds.
pub proof fn lemma_interning_is_idempotent(
    first: InternedString,
    second: InternedString,
    again: InternedString,
    key: Seq<char>,
)
    requires
        interns(first, key),
        interns(second, key),
        interns(again, first@),
    ensures
        first@ == second@,
        first.is_shared() == second.is_shared(),
        again@ == first@,
        again.is_shared() == first.is_shared(),
{
}

/// The table of interned keys.
pub fn init_property_keys() -> (keys: [&'static str; 13])
    ensures
        keys@.len() == known_keys().len(),
        forall|i: int| 0 <= i < keys@.len() ==> keys@[i]@ == known_keys()[i],
{
    [
        "Value",
        "Reference",
        "Footprint",
        "Datasheet",
        "ki_keywords",
        "ki_description",
        "ki_fp_filters",
        "D",
        "in_bom",
        "on_board",
        "pin_numbers",
        "power",
        "extends",
    ]
}

/// The interned form of `key`: the shared constant where `key` is in the
/// table, a string of its own otherwise.
pub fn intern_property_key(key: &str) -> (r: InternedString)
    ensures
        interns(r, key@),
{
    let keys = init_property_keys();
    let mut i: usize = 0;
    while i < keys.len()
        invariant
            i <= keys.len(),
            keys@.len() == known_keys().len(),
            forall|j: int| 0 <= j < keys@.len() ==> keys@[j]@ == known_keys()[j],
            forall|j: int| 0 <= j < i ==> known_keys()[j] != key@,
        decreases keys.len() - i,
    {
        if str_eq(keys[i], key) {
            assert(known_keys()[i as int] == key@);
            return InternedString::from_static(keys[i]);
        }
        i = i + 1;
    }
    InternedString::from_string(String::from_str(key))
}

} // verus!

//! The token tree: symbols, quoted strings, numbers and nested lists.
//!
//! A tree is produced by a reader of the textual notation and is only read
//! here. Its mathematical model is [`SexprView`]; every contract of the
//! crate speaks of trees through that model.

use crate::number::Number;
use crate::text::str_eq;
use vstd::prelude::*;
use vstd::string::StringExecFns;

verus! {

broadcast use vstd::std_specs::vec::group_vec_axioms;

/// The four token kinds.
#[derive(Debug, Clone, Copy, PartialEq, Eq, Structural)]
pub enum SexprKind {
    Symbol,
    String,
    Number,
    List,
}

/// The mathematical model of a token tree.
pub enum SexprView {
    Symbol(Seq<char>),
    String(Seq<char>),
    Number(Number),
    List(Seq<SexprView>),
}

/// A token tree.
#[derive(Debug, PartialEq)]
pub enum Sexpr {
    Symbol(String),
    String(String),
    Number(Number),
    List(Vec<Sexpr>),
}

/// The sibling tokens at one nesting level.
pub type SexprList = Vec<Sexpr>;

/// The models of a sequence of values, in order.
pub open spec fn seq_view<T: View>(items: Seq<T>) -> Seq<T::V> {
    Seq::new(items.len(), |i: int| items[i]@)
}

/// The model of an optional value.
pub open spec fn opt_view<T: View>(value: Option<T>) -> Option<T::V> {
    match value {
        Some(v) => Some(v@),
        None => None,
    }
}

/// The model of a tree: that of each atom, and for a list the models of its
/// children in order.
pub open spec fn tree_view(tree: Sexpr) -> SexprView
    decreases tree,
{
    match tree {
        Sexpr::Symbol(s) => SexprView::Symbol(s@),
        Sexpr::String(s) => SexprView::String(s@),
        Sexpr::Number(n) => SexprView::Number(n),
        Sexpr::List(items) => SexprView::List(
            Seq::new(
                items@.len(),
                |i: int|
                    if 0 <= i < items@.len() {
                        tree_view(items@[i])
                    } else {
                        SexprView::List(Seq::empty())
                    },
            ),
        ),
    }
}

impl View for Sexpr {
    type V = SexprView;

    open spec fn view(&self) -> SexprView {
        tree_view(*self)
    }
}

/// The model of a list is the list of its children's models.
pub broadcast proof fn lemma_list_view(items: Vec<Sexpr>)
    ensures
        #[trigger] Sexpr::List(items)@ == SexprView::List(seq_view(items@)),
{
    assert(Sexpr::List(items)@->List_0 =~= seq_view(items@));
}

impl SexprView {
    /// The kind of the token.
    pub open spec fn kind(self) -> SexprKind {
        match self {
            SexprView::Symbol(_) => SexprKind::Symbol,
            SexprView::String(_) => SexprKind::String,
            SexprView::Number(_) => SexprKind::Number,
            SexprView::List(_) => SexprKind::List,
        }
    }

    /// Whether the token is a list whose first child is the symbol `name`.
    pub open spec fn is_list_named(self, name: Seq<char>) -> bool {
        self is List && first_symbol_is(self->List_0, name)
    }

    /// The list `(name child...)`.
    pub open spec fn named(name: Seq<char>, children: Seq<SexprView>) -> SexprView {
        SexprView::List(seq![SexprView::Symbol(name)] + children)
    }

    /// The spelling of a truth value: `yes` or `no`.
    pub open spec fn yes_no(value: bool) -> SexprView {
        SexprView::Symbol(
            if value {
                "yes"@
            } else {
                "no"@
            },
        )
    }
}

/// Whether the first token of `items` is the symbol `name`.
pub open spec fn first_symbol_is(items: Seq<SexprView>, name: Seq<char>) -> bool {
    items.len() > 0 && items[0] == SexprView::Symbol(name)
}

impl Clone for Sexpr {
    fn clone(&self) -> (r: Self)
        ensures
            r@ == self@,
        decreases self,
    {
        match self {
            Sexpr::Symbol(s) => Sexpr::Symbol(s.clone()),
            Sexpr::String(s) => Sexpr::String(s.clone()),
            Sexpr::Number(n) => Sexpr::Number(*n),
            Sexpr::List(items) => {
                let mut out: Vec<Sexpr> = Vec::new();
                let mut i: usize = 0;
                while i < items.len()
                    invariant
                        i <= items.len(),
                        *self == Sexpr::List(*items),
                        out@.len() == i,
                        forall|j: int| 0 <= j < i ==> out@[j]@ == items@[j]@,
                    decreases items.len() - i,
                {
                    proof {
                        assert(self->List_0 == *items);
                        assert(decreases_to!(*self => self->List_0));
                        assert(decreases_to!(*items => items[i as int]));
                    }
                    out.push(items[i].clone());
                    i = i + 1;
                }
                let r = Sexpr::List(out);
                assert(r@->List_0 =~= self@->List_0);
                r
            },
        }
    }
}

/// A copy of every tree of `items`, in order.
pub fn clone_list(items: &Vec<Sexpr>) -> (r: Vec<Sexpr>)
    ensures
        seq_view(r@) == seq_view(items@),
{
    let mut out: Vec<Sexpr> = Vec::new();
    let mut i: usize = 0;
    while i < items.len()
        invariant
            i <= items.len(),
            out@.len() == i,
            forall|j: int| 0 <= j < i ==> out@[j]@ == items@[j]@,
        decreases items.len() - i,
    {
        out.push(items[i].clone());
        i = i + 1;
    }
    assert(seq_view(out@) =~= seq_view(items@));
    out
}

impl Sexpr {
    /// The symbol token spelled `name`.
    pub fn symbol(name: &str) -> (r: Sexpr)
        ensures
            r@ == SexprView::Symbol(name@),
    {
        Sexpr::Symbol(String::from_str(name))
    }

    /// The quoted-string token holding `value`.
    pub fn string(value: &str) -> (r: Sexpr)
        ensures
            r@ == SexprView::String(value@),
    {
        Sexpr::String(String::from_str(value))
    }

    /// The number token holding `value`.
    pub fn number(value: Number) -> (r: Sexpr)
        ensures
            r@ == SexprView::Number(value),
    {
        Sexpr::Number(value)
    }

    /// The list token holding `items`.
    pub fn list(items: Vec<Sexpr>) -> (r: Sexpr)
        ensures
            r@ == SexprView::List(seq_view(items@)),
    {
        broadcast use lemma_list_view;

        Sexpr::List(items)
    }

    /// The list `(name item...)`.
    pub fn list_with_name(name: &str, items: Vec<Sexpr>) -> (r: Sexpr)
        ensures
            r@ == SexprView::named(name@, seq_view(items@)),
    {
        broadcast use lemma_list_view;

        let ghost children = seq_view(items@);
        let mut items = items;
        items.insert(0, Sexpr::symbol(name));
        assert(seq_view(items@) =~= seq![SexprView::Symbol(name@)] + children);
        Sexpr::List(items)
    }

    /// The list `(name)`.
    pub fn flag(name: &str) -> (r: Sexpr)
        ensures
            r@ == SexprView::named(name@, Seq::empty()),
    {
        broadcast use lemma_list_view;

        let items: Vec<Sexpr> = vec![Sexpr::symbol(name)];
        assert(seq_view(items@) =~= seq![SexprView::Symbol(name@)] + Seq::<SexprView>::empty());
        Sexpr::List(items)
    }

    /// The list `(name "value")`.
    pub fn string_with_name(name: &str, value: &str) -> (r: Sexpr)
        ensures
            r@ == SexprView::named(name@, seq![SexprView::String(value@)]),
    {
        broadcast use lemma_list_view;

        let items: Vec<Sexpr> = vec![Sexpr::symbol(name), Sexpr::string(value)];
        assert(seq_view(items@) =~= seq![SexprView::Symbol(name@)] + seq![
            SexprView::String(value@),
        ]);
        Sexpr::List(items)
    }

    /// The list `(name value)` with `value` as a bare symbol.
    pub fn symbol_with_name(name: &str, value: &str) -> (r: Sexpr)
        ensures
            r@ == SexprView::named(name@, seq![SexprView::Symbol(value@)]),
    {
        broadcast use lemma_list_view;

        let items: Vec<Sexpr> = vec![Sexpr::symbol(name), Sexpr::symbol(value)];
        assert(seq_view(items@) =~= seq![SexprView::Symbol(name@)] + seq![
            SexprView::Symbol(value@),
        ]);
        Sexpr::List(items)
    }

    /// The list `(name value)` with `value` as a number.
    pub fn number_with_name(name: &str, value: Number) -> (r: Sexpr)
        ensures
            r@ == SexprView::named(name@, seq![SexprView::Number(value)]),
    {
        broadcast use lemma_list_view;

        let items: Vec<Sexpr> = vec![Sexpr::symbol(name), Sexpr::number(value)];
        assert(seq_view(items@) =~= seq![SexprView::Symbol(name@)] + seq![
            SexprView::Number(value),
        ]);
        Sexpr::List(items)
    }

    /// The list `(name yes)` or `(name no)`.
    pub fn bool_with_name(name: &str, value: bool) -> (r: Sexpr)
        ensures
            r@ == SexprView::named(name@, seq![SexprView::yes_no(value)]),
    {
        if value {
            Sexpr::symbol_with_name(name, "yes")
        } else {
            Sexpr::symbol_with_name(name, "no")
        }
    }

    /// The children, where the token is a list.
    pub fn as_list(&self) -> (r: Option<&Vec<Sexpr>>)
        ensures
            match r {
                Some(items) => self@ == SexprView::List(seq_view(items@)),
                None => !(self@ is List),
            },
    {
        broadcast use lemma_list_view;

        match self {
            Sexpr::List(items) => Some(items),
            _ => None,
        }
    }

    /// The spelling, where the token is a symbol.
    pub fn as_symbol(&self) -> (r: Option<&str>)
        ensures
            match r {
                Some(s) => self@ == SexprView::Symbol(s@),
                None => !(self@ is Symbol),
            },
    {
        match self {
            Sexpr::Symbol(s) => Some(s.as_str()),
            _ => None,
        }
    }

    /// The kind of the token.
    pub fn kind(&self) -> (r: SexprKind)
        ensures
            r == self@.kind(),
    {
        match self {
            Sexpr::Symbol(_) => SexprKind::Symbol,
            Sexpr::String(_) => SexprKind::String,
            Sexpr::Number(_) => SexprKind::Number,
            Sexpr::List(_) => SexprKind::List,
        }
    }
}

/// The spelling of the first token of `items`, where that token is a symbol.
pub fn first_symbol(items: &Vec<Sexpr>) -> (r: Option<&str>)
    ensures
        match r {
            Some(s) => first_symbol_is(seq_view(items@), s@),
            None => items@.len() == 0 || !(items@[0]@ is Symbol),
        },
{
    if items.len() == 0 {
        None
    } else {
        items[0].as_symbol()
    }
}

/// Whether the first token of `items` is the symbol `name`.
pub fn starts_with_symbol(items: &Vec<Sexpr>, name: &str) -> (r: bool)
    ensures
        r == first_symbol_is(seq_view(items@), name@),
{
    match first_symbol(items) {
        Some(s) => str_eq(s, name),
        None => false,
    }
}

} // verus!

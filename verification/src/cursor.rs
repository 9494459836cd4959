//! What a cursor does, as mathematics.
//!
//! A cursor stands at some point of the sibling tokens of one nesting level;
//! its model is the sequence of tokens still ahead of it. Each operation is a
//! function from that sequence to an outcome and to the sequence left ahead
//! afterwards. The owning and the borrowing cursor are both specified by the
//! functions of this module, so they agree on every input.

use crate::error::KiCadParseErrorView;
use crate::number::Number;
use crate::sexpr::{SexprKind, SexprView};
use vstd::prelude::*;

verus! {

/// The tokens still ahead of a cursor.
pub type Tokens = Seq<SexprView>;

/// An entity of the format: a list node that begins with a keyword, together
/// with the grammar of its children and the way it is written back.
pub trait SexprEntity: View + Sized {
    /// Whether a list with these children is a node of this entity. The
    /// decision looks at the head of the list only.
    spec fn present_spec(children: Tokens) -> bool;

    /// What reading the children of a node of this entity yields.
    spec fn parse_spec(children: Tokens) -> Result<Self::V, KiCadParseErrorView>;

    /// Whether the children are spelled as this entity is written: every
    /// number that is read as an integer is a whole number in range, and
    /// every required truth value is spelled `yes` or `no`, not `true` or
    /// `false`. Nothing else is asked: older and newer spellings are legal
    /// alike. A legal node that is read is written back as it was.
    spec fn legal_spec(children: Tokens) -> bool;

    /// The node that a value of this entity is written as.
    spec fn sexpr_spec(value: Self::V) -> SexprView;
}

/// The error for a token of another kind than `expected`.
pub open spec fn wrong_kind(expected: SexprKind) -> KiCadParseErrorView {
    KiCadParseErrorView::UnexpectedSexprType { expected }
}

/// The next token, if there is one. Nothing is consumed.
pub open spec fn peek(t: Tokens) -> Option<SexprView> {
    if t.len() > 0 {
        Some(t[0])
    } else {
        None
    }
}

/// Consumes the next token.
pub open spec fn next_token(t: Tokens) -> (Result<SexprView, KiCadParseErrorView>, Tokens) {
    if t.len() > 0 {
        (Ok(t[0]), t.skip(1))
    } else {
        (Err(KiCadParseErrorView::UnexpectedEndOfList), t)
    }
}

/// Consumes the next token, which must be a list, and yields its children.
pub open spec fn list_token(t: Tokens) -> (Result<Tokens, KiCadParseErrorView>, Tokens) {
    match next_token(t) {
        (Ok(SexprView::List(children)), rest) => (Ok(children), rest),
        (Ok(_), rest) => (Err(wrong_kind(SexprKind::List)), rest),
        (Err(e), rest) => (Err(e), rest),
    }
}

/// Consumes the next token, which must be a symbol, and yields its spelling.
pub open spec fn symbol_token(t: Tokens) -> (Result<Seq<char>, KiCadParseErrorView>, Tokens) {
    match next_token(t) {
        (Ok(SexprView::Symbol(s)), rest) => (Ok(s), rest),
        (Ok(_), rest) => (Err(wrong_kind(SexprKind::Symbol)), rest),
        (Err(e), rest) => (Err(e), rest),
    }
}

/// Consumes the next token, which must be a quoted string, and yields its
/// content.
pub open spec fn string_token(t: Tokens) -> (Result<Seq<char>, KiCadParseErrorView>, Tokens) {
    match next_token(t) {
        (Ok(SexprView::String(s)), rest) => (Ok(s), rest),
        (Ok(_), rest) => (Err(wrong_kind(SexprKind::String)), rest),
        (Err(e), rest) => (Err(e), rest),
    }
}

/// Consumes the next token, which must be a number, and yields its value.
pub open spec fn number_token(t: Tokens) -> (Result<Number, KiCadParseErrorView>, Tokens) {
    match next_token(t) {
        (Ok(SexprView::Number(n)), rest) => (Ok(n), rest),
        (Ok(_), rest) => (Err(wrong_kind(SexprKind::Number)), rest),
        (Err(e), rest) => (Err(e), rest),
    }
}

/// Consumes the next token, which must be the symbol `expected`.
pub open spec fn symbol_matching(t: Tokens, expected: Seq<char>) -> (
    Result<(), KiCadParseErrorView>,
    Tokens,
) {
    match symbol_token(t) {
        (Ok(found), rest) => if found == expected {
            (Ok(()), rest)
        } else {
            (Err(KiCadParseErrorView::NonMatchingSymbol { found, expected }), rest)
        },
        (Err(e), rest) => (Err(e), rest),
    }
}

/// Consumes the next token, which must be a list that begins with the symbol
/// `name`, and yields the children after that symbol.
pub open spec fn list_with_name(t: Tokens, name: Seq<char>) -> (
    Result<Tokens, KiCadParseErrorView>,
    Tokens,
) {
    match list_token(t) {
        (Ok(children), rest) => match symbol_matching(children, name) {
            (Ok(_), inner) => (Ok(inner), rest),
            (Err(e), _) => (Err(e), rest),
        },
        (Err(e), rest) => (Err(e), rest),
    }
}

/// Whether the next token is a list that begins with the symbol `name`.
pub open spec fn at_list_named(t: Tokens, name: Seq<char>) -> bool {
    t.len() > 0 && t[0].is_list_named(name)
}

/// Where the next token is a list that begins with the symbol `name`,
/// consumes it and yields the children after that symbol; otherwise consumes
/// nothing.
pub open spec fn maybe_list_with_name(t: Tokens, name: Seq<char>) -> (Option<Tokens>, Tokens) {
    if at_list_named(t, name) {
        (Some(t[0]->List_0.skip(1)), t.skip(1))
    } else {
        (None, t)
    }
}

/// Requires that no token is left.
pub open spec fn end_of_list(t: Tokens) -> Result<(), KiCadParseErrorView> {
    if t.len() > 0 {
        Err(KiCadParseErrorView::ExpectedEndOfList { found: t[0] })
    } else {
        Ok(())
    }
}

/// The truth value spelled by a symbol: `yes`, `no`, `true` or `false`.
pub open spec fn bool_of(s: Seq<char>) -> Result<bool, KiCadParseErrorView> {
    if s == "yes"@ || s == "true"@ {
        Ok(true)
    } else if s == "no"@ || s == "false"@ {
        Ok(false)
    } else {
        Err(KiCadParseErrorView::InvalidEnumValue { value: s, enum_name: "bool"@ })
    }
}

/// The truth value spelled by a symbol, in the narrow vocabulary: `yes` or
/// `no`.
pub open spec fn yes_no_of(s: Seq<char>) -> Result<bool, KiCadParseErrorView> {
    if s == "yes"@ {
        Ok(true)
    } else if s == "no"@ {
        Ok(false)
    } else {
        Err(KiCadParseErrorView::InvalidEnumValue { value: s, enum_name: "bool"@ })
    }
}

/// Consumes a list `(name "value" ...)` and yields the string. What follows
/// the string inside the list is not looked at.
pub open spec fn string_with_name(t: Tokens, name: Seq<char>) -> (
    Result<Seq<char>, KiCadParseErrorView>,
    Tokens,
) {
    match list_with_name(t, name) {
        (Ok(inner), rest) => (string_token(inner).0, rest),
        (Err(e), rest) => (Err(e), rest),
    }
}

/// Consumes a list `(name value ...)` and yields the symbol.
pub open spec fn symbol_with_name(t: Tokens, name: Seq<char>) -> (
    Result<Seq<char>, KiCadParseErrorView>,
    Tokens,
) {
    match list_with_name(t, name) {
        (Ok(inner), rest) => (symbol_token(inner).0, rest),
        (Err(e), rest) => (Err(e), rest),
    }
}

/// Consumes a list `(name value ...)` and yields the number.
pub open spec fn number_with_name(t: Tokens, name: Seq<char>) -> (
    Result<Number, KiCadParseErrorView>,
    Tokens,
) {
    match list_with_name(t, name) {
        (Ok(inner), rest) => (number_token(inner).0, rest),
        (Err(e), rest) => (Err(e), rest),
    }
}

/// Consumes a list `(name value ...)` and yields the truth value that the
/// symbol spells.
pub open spec fn bool_with_name(t: Tokens, name: Seq<char>) -> (
    Result<bool, KiCadParseErrorView>,
    Tokens,
) {
    match symbol_with_name(t, name) {
        (Ok(s), rest) => (bool_of(s), rest),
        (Err(e), rest) => (Err(e), rest),
    }
}

/// Where a list named `name` comes next, consumes it and yields its string,
/// or nothing where its first child is no string.
pub open spec fn maybe_string_with_name(t: Tokens, name: Seq<char>) -> (Option<Seq<char>>, Tokens) {
    match maybe_list_with_name(t, name) {
        (Some(inner), rest) => (
            match string_token(inner).0 {
                Ok(s) => Some(s),
                Err(_) => None,
            },
            rest,
        ),
        (None, rest) => (None, rest),
    }
}

/// Where a list named `name` comes next, consumes it and yields its number,
/// or nothing where its first child is no number.
pub open spec fn maybe_number_with_name(t: Tokens, name: Seq<char>) -> (Option<Number>, Tokens) {
    match maybe_list_with_name(t, name) {
        (Some(inner), rest) => (
            match number_token(inner).0 {
                Ok(n) => Some(n),
                Err(_) => None,
            },
            rest,
        ),
        (None, rest) => (None, rest),
    }
}

/// Where a list named `name` comes next, consumes it and tells whether it
/// holds nothing but the name.
pub open spec fn maybe_empty_list_with_name(t: Tokens, name: Seq<char>) -> (bool, Tokens) {
    match maybe_list_with_name(t, name) {
        (Some(inner), rest) => (inner.len() == 0, rest),
        (None, rest) => (false, rest),
    }
}

/// Where a list named `name` comes next, consumes it and yields the truth
/// value that its symbol spells in the narrow vocabulary.
pub open spec fn maybe_bool_with_name(t: Tokens, name: Seq<char>) -> (
    Result<Option<bool>, KiCadParseErrorView>,
    Tokens,
) {
    match maybe_list_with_name(t, name) {
        (Some(inner), rest) => (
            match symbol_token(inner).0 {
                Ok(s) => match yes_no_of(s) {
                    Ok(b) => Ok(Some(b)),
                    Err(e) => Err(e),
                },
                Err(e) => Err(e),
            },
            rest,
        ),
        (None, rest) => (Ok(None), rest),
    }
}

/// Where a number comes next, consumes and yields it.
pub open spec fn maybe_number(t: Tokens) -> (Option<Number>, Tokens) {
    if t.len() > 0 && t[0] is Number {
        (Some(t[0]->Number_0), t.skip(1))
    } else {
        (None, t)
    }
}

/// Where the symbol `expected` comes next, consumes it.
pub open spec fn maybe_symbol_matching(t: Tokens, expected: Seq<char>) -> (bool, Tokens) {
    if t.len() > 0 && t[0] == SexprView::Symbol(expected) {
        (true, t.skip(1))
    } else {
        (false, t)
    }
}

/// The field `(name "value")`, which must hold the string and nothing more.
pub open spec fn string_field(t: Tokens, name: Seq<char>) -> (
    Result<Seq<char>, KiCadParseErrorView>,
    Tokens,
) {
    match list_with_name(t, name) {
        (Ok(inner), rest) => match string_token(inner) {
            (Ok(s), after) => match end_of_list(after) {
                Ok(_) => (Ok(s), rest),
                Err(e) => (Err(e), rest),
            },
            (Err(e), _) => (Err(e), rest),
        },
        (Err(e), rest) => (Err(e), rest),
    }
}

/// The field `(name value)`, which must hold the number and nothing more.
pub open spec fn number_field(t: Tokens, name: Seq<char>) -> (
    Result<Number, KiCadParseErrorView>,
    Tokens,
) {
    match list_with_name(t, name) {
        (Ok(inner), rest) => match number_token(inner) {
            (Ok(n), after) => match end_of_list(after) {
                Ok(_) => (Ok(n), rest),
                Err(e) => (Err(e), rest),
            },
            (Err(e), _) => (Err(e), rest),
        },
        (Err(e), rest) => (Err(e), rest),
    }
}

/// The field `(name yes)`, with a truth value in the wide vocabulary and
/// nothing more.
pub open spec fn bool_field(t: Tokens, name: Seq<char>) -> (
    Result<bool, KiCadParseErrorView>,
    Tokens,
) {
    match list_with_name(t, name) {
        (Ok(inner), rest) => match symbol_token(inner) {
            (Ok(s), after) => match bool_of(s) {
                Ok(b) => match end_of_list(after) {
                    Ok(_) => (Ok(b), rest),
                    Err(e) => (Err(e), rest),
                },
                Err(e) => (Err(e), rest),
            },
            (Err(e), _) => (Err(e), rest),
        },
        (Err(e), rest) => (Err(e), rest),
    }
}

/// The field `(name "value")` where a list named `name` comes next, and
/// nothing, with nothing consumed, where none does.
pub open spec fn optional_string_field(t: Tokens, name: Seq<char>) -> (
    Result<Option<Seq<char>>, KiCadParseErrorView>,
    Tokens,
) {
    if at_list_named(t, name) {
        match string_field(t, name) {
            (Ok(s), rest) => (Ok(Some(s)), rest),
            (Err(e), rest) => (Err(e), rest),
        }
    } else {
        (Ok(None), t)
    }
}

/// The field `(name value)` where a list named `name` comes next, and
/// nothing, with nothing consumed, where none does.
pub open spec fn optional_number_field(t: Tokens, name: Seq<char>) -> (
    Result<Option<Number>, KiCadParseErrorView>,
    Tokens,
) {
    if at_list_named(t, name) {
        match number_field(t, name) {
            (Ok(n), rest) => (Ok(Some(n)), rest),
            (Err(e), rest) => (Err(e), rest),
        }
    } else {
        (Ok(None), t)
    }
}

/// The field `(name yes)` or `(name no)` where a list named `name` comes
/// next, and nothing, with nothing consumed, where none does.
pub open spec fn optional_bool_field(t: Tokens, name: Seq<char>) -> (
    Result<Option<bool>, KiCadParseErrorView>,
    Tokens,
) {
    match maybe_list_with_name(t, name) {
        (Some(inner), rest) => match symbol_token(inner) {
            (Ok(s), after) => match yes_no_of(s) {
                Ok(b) => match end_of_list(after) {
                    Ok(_) => (Ok(Some(b)), rest),
                    Err(e) => (Err(e), rest),
                },
                Err(e) => (Err(e), rest),
            },
            (Err(e), _) => (Err(e), rest),
        },
        (None, rest) => (Ok(None), rest),
    }
}

/// The flag `(name)`: present where a list named `name` comes next, which
/// must then hold nothing but the name.
pub open spec fn flag_field(t: Tokens, name: Seq<char>) -> (
    Result<bool, KiCadParseErrorView>,
    Tokens,
) {
    match maybe_list_with_name(t, name) {
        (Some(inner), rest) => match end_of_list(inner) {
            Ok(_) => (Ok(true), rest),
            Err(e) => (Err(e), rest),
        },
        (None, rest) => (Ok(false), rest),
    }
}

/// Reads one required node of the entity `T`.
pub open spec fn entity<T: SexprEntity>(t: Tokens) -> (
    Result<T::V, KiCadParseErrorView>,
    Tokens,
) {
    match list_token(t) {
        (Ok(children), rest) => (T::parse_spec(children), rest),
        (Err(e), rest) => (Err(e), rest),
    }
}

/// Whether the next token is a list that the entity `T` takes for its own.
pub open spec fn at_entity<T: SexprEntity>(t: Tokens) -> bool {
    t.len() > 0 && t[0] is List && T::present_spec(t[0]->List_0)
}

/// Whether the list that comes next, if one does, is legal as a node of the
/// entity `T`.
pub open spec fn entity_legal<T: SexprEntity>(t: Tokens) -> bool {
    t.len() > 0 && t[0] is List ==> T::legal_spec(t[0]->List_0)
}

/// Whether every node of the entity `T` at the front of `t` is legal.
pub open spec fn many_legal<T: SexprEntity>(t: Tokens) -> bool
    decreases t.len(),
{
    if at_entity::<T>(t) {
        T::legal_spec(t[0]->List_0) && many_legal::<T>(t.skip(1))
    } else {
        true
    }
}

/// Whether the value of the field `(name value)` that comes next, if such a
/// field does, is the symbol `yes` or the symbol `no`.
pub open spec fn spelled_yes_no(t: Tokens) -> bool {
    t.len() > 0 && t[0] is List && t[0]->List_0.len() > 1 ==> t[0]->List_0[1] == SexprView::Symbol(
        "yes"@,
    ) || t[0]->List_0[1] == SexprView::Symbol("no"@)
}

/// Reads one node of the entity `T` where one comes next, and nothing, with
/// nothing consumed, where none does. A node that the entity takes for its
/// own and cannot read is an error.
pub open spec fn maybe_entity<T: SexprEntity>(t: Tokens) -> (
    Result<Option<T::V>, KiCadParseErrorView>,
    Tokens,
) {
    if at_entity::<T>(t) {
        match T::parse_spec(t[0]->List_0) {
            Ok(v) => (Ok(Some(v)), t.skip(1)),
            Err(e) => (Err(e), t.skip(1)),
        }
    } else {
        (Ok(None), t)
    }
}

/// Reads nodes of the entity `T` for as long as one comes next.
pub open spec fn many<T: SexprEntity>(t: Tokens) -> (
    Result<Seq<T::V>, KiCadParseErrorView>,
    Tokens,
)
    decreases t.len(),
{
    if at_entity::<T>(t) {
        match T::parse_spec(t[0]->List_0) {
            Ok(v) => match many::<T>(t.skip(1)) {
                (Ok(more), rest) => (Ok(seq![v] + more), rest),
                (Err(e), rest) => (Err(e), rest),
            },
            Err(e) => (Err(e), t.skip(1)),
        }
    } else {
        (Ok(Seq::empty()), t)
    }
}

/// The outcome of [`many`] on the tokens after `done` nodes were read.
pub open spec fn many_after<V>(
    done: Seq<V>,
    more: (Result<Seq<V>, KiCadParseErrorView>, Tokens),
) -> (Result<Seq<V>, KiCadParseErrorView>, Tokens) {
    match more {
        (Ok(vs), rest) => (Ok(done + vs), rest),
        (Err(e), rest) => (Err(e), rest),
    }
}

/// Reading one node more, then the rest, is reading them all.
pub proof fn lemma_many_step<T: SexprEntity>(done: Seq<T::V>, t: Tokens)
    requires
        at_entity::<T>(t),
        T::parse_spec(t[0]->List_0) is Ok,
    ensures
        many_after(done, many::<T>(t)) == many_after(
            done.push(T::parse_spec(t[0]->List_0)->Ok_0),
            many::<T>(t.skip(1)),
        ),
{
    let v = T::parse_spec(t[0]->List_0)->Ok_0;
    match many::<T>(t.skip(1)) {
        (Ok(more), rest) => {
            assert(done + (seq![v] + more) =~= done.push(v) + more);
        },
        (Err(e), rest) => {},
    }
}

/// Whether `rest` is what is left of `t` after some tokens at its front were
/// consumed.
pub open spec fn is_rest_of(rest: Tokens, t: Tokens) -> bool {
    exists|k: int| 0 <= k <= t.len() && rest == #[trigger] t.skip(k)
}

/// A cursor only moves forward: whatever a step yields, it leaves behind the
/// tokens it was given or those after the first of them.
pub proof fn lemma_steps_only_advance(t: Tokens, name: Seq<char>)
    ensures
        is_rest_of(next_token(t).1, t),
        is_rest_of(list_token(t).1, t),
        is_rest_of(symbol_token(t).1, t),
        is_rest_of(string_token(t).1, t),
        is_rest_of(number_token(t).1, t),
        is_rest_of(symbol_matching(t, name).1, t),
        is_rest_of(list_with_name(t, name).1, t),
        is_rest_of(maybe_list_with_name(t, name).1, t),
        is_rest_of(string_with_name(t, name).1, t),
        is_rest_of(symbol_with_name(t, name).1, t),
        is_rest_of(number_with_name(t, name).1, t),
        is_rest_of(bool_with_name(t, name).1, t),
        is_rest_of(maybe_string_with_name(t, name).1, t),
        is_rest_of(maybe_number_with_name(t, name).1, t),
        is_rest_of(maybe_empty_list_with_name(t, name).1, t),
        is_rest_of(maybe_bool_with_name(t, name).1, t),
        is_rest_of(maybe_number(t).1, t),
        is_rest_of(maybe_symbol_matching(t, name).1, t),
        is_rest_of(string_field(t, name).1, t),
        is_rest_of(number_field(t, name).1, t),
        is_rest_of(bool_field(t, name).1, t),
        is_rest_of(optional_string_field(t, name).1, t),
        is_rest_of(optional_number_field(t, name).1, t),
        is_rest_of(optional_bool_field(t, name).1, t),
        is_rest_of(flag_field(t, name).1, t),
{
    assert(t.skip(0) =~= t);
    if t.len() > 0 {
        assert(t.skip(1) == t.skip(1));
    }
}

/// A sequence of nodes is read from the front: what reading it leaves
/// behind is what is left of the tokens it was given.
pub proof fn lemma_many_only_advances<T: SexprEntity>(t: Tokens)
    ensures
        is_rest_of(entity::<T>(t).1, t),
        is_rest_of(maybe_entity::<T>(t).1, t),
        is_rest_of(many::<T>(t).1, t),
    decreases t.len(),
{
    assert(t.skip(0) =~= t);
    if t.len() > 0 {
        assert(t.skip(1) == t.skip(1));
    }
    if at_entity::<T>(t) && T::parse_spec(t[0]->List_0) is Ok {
        lemma_many_only_advances::<T>(t.skip(1));
        let rest = many::<T>(t.skip(1)).1;
        let k = choose|k: int| 0 <= k <= t.skip(1).len() && rest == #[trigger] t.skip(1).skip(k);
        assert(t.skip(1).skip(k) =~= t.skip(k + 1));
    }
}

/// Two entities with the same presence test and the same grammar read the
/// same sequences.
pub proof fn lemma_many_agree<A: SexprEntity, B: SexprEntity + View<V = <A as View>::V>>(t: Tokens)
    requires
        forall|c: Tokens| #[trigger] A::present_spec(c) == B::present_spec(c),
        forall|c: Tokens| #[trigger] A::parse_spec(c) == B::parse_spec(c),
    ensures
        many::<A>(t) == many::<B>(t),
    decreases t.len(),
{
    if at_entity::<A>(t) {
        lemma_many_agree::<A, B>(t.skip(1));
    }
}

} // verus!

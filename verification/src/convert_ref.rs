//! The borrowing cursor: reading entities without copying the tokens.
//!
//! Everything the cursor hands out borrows from the token tree it was made
//! over. What each operation does is stated by the function of the same
//! purpose in [`crate::cursor`].

use crate::cursor::{
    at_list_named, bool_field, bool_of, bool_with_name, end_of_list, entity, flag_field,
    lemma_many_step, list_token, list_with_name, many, many_after, maybe_bool_with_name,
    maybe_empty_list_with_name, maybe_entity, maybe_list_with_name, maybe_number,
    maybe_number_with_name, maybe_string_with_name, maybe_symbol_matching, next_token, number_field,
    number_token, number_with_name, optional_bool_field, optional_number_field,
    optional_string_field, peek, string_field, string_token, string_with_name, symbol_matching,
    symbol_token, symbol_with_name, yes_no_of, SexprEntity,
};
use crate::error::{parsed, parsed_opt, parsed_seq, KiCadParseError};
use crate::number::Number;
use crate::sexpr::{lemma_list_view, opt_view, seq_view, Sexpr, SexprKind, SexprList, SexprView};
use crate::text::str_eq;
use vstd::prelude::*;
use vstd::string::StringExecFns;

verus! {

broadcast use lemma_list_view;

/// An entity that can be read through a borrowing cursor.
pub trait FromSexprRef<'a>: SexprEntity {
    /// Reads a value from the children of its node.
    fn from_sexpr_ref(parser: ParserRef<'a>) -> (r: Result<Self, KiCadParseError>)
        ensures
            parsed(r) == Self::parse_spec(parser@),
    ;
}

/// An entity whose nodes can be told from others by a look at the list.
pub trait MaybeFromSexprRef<'a>: SexprEntity {
    /// Whether the list is a node of this entity.
    fn is_present_ref(sexpr: &'a SexprList) -> (r: bool)
        ensures
            r == Self::present_spec(seq_view(sexpr@)),
    ;
}

/// A cursor over borrowed sibling tokens. It only moves forward; to look
/// ahead and come back, work on a copy.
#[derive(Debug, Clone, Copy)]
pub struct ParserRef<'a> {
    items: &'a Vec<Sexpr>,
    position: usize,
}

impl<'a> View for ParserRef<'a> {
    type V = Seq<SexprView>;

    /// The tokens still ahead.
    closed spec fn view(&self) -> Seq<SexprView> {
        if self.position <= self.items@.len() {
            seq_view(self.items@).skip(self.position as int)
        } else {
            Seq::empty()
        }
    }
}

/// The truth value spelled by `symbol` in the wide vocabulary.
pub fn bool_from_symbol(symbol: &str) -> (r: Result<bool, KiCadParseError>)
    ensures
        parsed(r) == bool_of(symbol@),
{
    if str_eq(symbol, "yes") || str_eq(symbol, "true") {
        Ok(true)
    } else if str_eq(symbol, "no") || str_eq(symbol, "false") {
        Ok(false)
    } else {
        Err(KiCadParseError::InvalidEnumValue { value: String::from_str(symbol), enum_name: "bool" })
    }
}

/// The truth value spelled by `symbol` in the narrow vocabulary.
pub fn yes_no_from_symbol(symbol: &str) -> (r: Result<bool, KiCadParseError>)
    ensures
        parsed(r) == yes_no_of(symbol@),
{
    if str_eq(symbol, "yes") {
        Ok(true)
    } else if str_eq(symbol, "no") {
        Ok(false)
    } else {
        Err(KiCadParseError::InvalidEnumValue { value: String::from_str(symbol), enum_name: "bool" })
    }
}

impl<'a> ParserRef<'a> {
    /// A cursor at the start of `inner`.
    pub fn new(inner: &'a SexprList) -> (r: Self)
        ensures
            r@ == seq_view(inner@),
    {
        let r = ParserRef { items: inner, position: 0 };
        assert(r@ =~= seq_view(inner@));
        r
    }

    /// A copy of the tokens still ahead, in order.
    pub fn rest(&self) -> (r: Vec<Sexpr>)
        ensures
            seq_view(r@) == self@,
    {
        let mut rest: Vec<Sexpr> = Vec::new();
        let mut i: usize = self.position;
        while i < self.items.len()
            invariant
                self.position <= i,
                i <= self.items.len() || rest@.len() == 0,
                rest@.len() == i - self.position,
                forall|j: int| 0 <= j < rest@.len() ==> rest@[j]@ == self.items@[self.position + j]@,
            decreases self.items.len() - i,
        {
            rest.push(self.items[i].clone());
            i = i + 1;
        }
        assert(seq_view(rest@) =~= self@);
        rest
    }

    /// Consumes the next token and hands it out.
    pub fn expect_next(&mut self) -> (r: Result<&'a Sexpr, KiCadParseError>)
        ensures
            (parsed(r), final(self)@) == next_token(old(self)@),
    {
        if self.position < self.items.len() {
            let next = &self.items[self.position];
            self.position = self.position + 1;
            assert(self@ =~= old(self)@.skip(1));
            Ok(next)
        } else {
            Err(KiCadParseError::UnexpectedEndOfList)
        }
    }

    /// The next token, if there is one. Nothing is consumed.
    pub fn peek_next(&self) -> (r: Option<&'a Sexpr>)
        ensures
            opt_tree(r) == peek(self@),
    {
        if self.position < self.items.len() {
            Some(&self.items[self.position])
        } else {
            None
        }
    }

    /// Consumes the next token, which must be a list, and hands out a cursor over
    /// its children.
    pub fn expect_list(&mut self) -> (r: Result<ParserRef<'a>, KiCadParseError>)
        ensures
            (parsed(r), final(self)@) == list_token(old(self)@),
    {
        let next = self.expect_next()?;
        match next {
            Sexpr::List(list) => Ok(ParserRef::new(list)),
            _ => Err(KiCadParseError::UnexpectedSexprType { expected: SexprKind::List }),
        }
    }

    /// Consumes the next token, which must be a list that begins with the symbol
    /// `name`, and hands out a cursor over what follows the name.
    pub fn expect_list_with_name(&mut self, name: &str) -> (r: Result<
        ParserRef<'a>,
        KiCadParseError,
    >)
        ensures
            (parsed(r), final(self)@) == list_with_name(old(self)@, name@),
    {
        let mut list = self.expect_list()?;
        list.expect_symbol_matching(name)?;
        Ok(list)
    }

    /// Where the next token is a list that begins with the symbol `name`, consumes
    /// it and hands out a cursor over what follows the name; otherwise consumes
    /// nothing.
    pub fn maybe_list_with_name(&mut self, name: &str) -> (r: Option<ParserRef<'a>>)
        ensures
            (opt_tokens(r), final(self)@) == maybe_list_with_name(old(self)@, name@),
    {
        if self.at_list_with_name(name) {
            match self.expect_list_with_name(name) {
                Ok(list) => Some(list),
                Err(_) => None,
            }
        } else {
            None
        }
    }

    /// Whether the next token is a list that begins with the symbol `name`.
    /// Nothing is consumed.
    pub fn at_list_with_name(&self, name: &str) -> (r: bool)
        ensures
            r == at_list_named(self@, name@),
    {
        match self.peek_next() {
            Some(Sexpr::List(list)) => {
                if list.len() == 0 {
                    false
                } else {
                    match &list[0] {
                        Sexpr::Symbol(first) => str_eq(first.as_str(), name),
                        _ => false,
                    }
                }
            },
            _ => false,
        }
    }

    /// Consumes the next token, which must be a symbol, and hands out its spelling.
    pub fn expect_symbol(&mut self) -> (r: Result<&'a str, KiCadParseError>)
        ensures
            (parsed(r), final(self)@) == symbol_token(old(self)@),
    {
        let next = self.expect_next()?;
        match next {
            Sexpr::Symbol(symbol) => Ok(symbol.as_str()),
            _ => Err(KiCadParseError::UnexpectedSexprType { expected: SexprKind::Symbol }),
        }
    }

    /// Consumes the next token, which must be the symbol `expected`.
    pub fn expect_symbol_matching(&mut self, expected: &str) -> (r: Result<(), KiCadParseError>)
        ensures
            (parsed(r), final(self)@) == symbol_matching(old(self)@, expected@),
    {
        let symbol = self.expect_symbol()?;
        if !str_eq(symbol, expected) {
            return Err(
                KiCadParseError::NonMatchingSymbol {
                    found: String::from_str(symbol),
                    expected: String::from_str(expected),
                },
            );
        }
        Ok(())
    }

    /// Consumes the next token, which must be a quoted string, and hands out its
    /// content.
    pub fn expect_string(&mut self) -> (r: Result<&'a str, KiCadParseError>)
        ensures
            (parsed(r), final(self)@) == string_token(old(self)@),
    {
        let next = self.expect_next()?;
        match next {
            Sexpr::String(string) => Ok(string.as_str()),
            _ => Err(KiCadParseError::UnexpectedSexprType { expected: SexprKind::String }),
        }
    }

    /// Consumes a list `(name "value" ...)` and hands out the string. What follows
    /// the string inside the list is not looked at.
    pub fn expect_string_with_name(&mut self, name: &str) -> (r: Result<&'a str, KiCadParseError>)
        ensures
            (parsed(r), final(self)@) == string_with_name(old(self)@, name@),
    {
        let mut list = self.expect_list_with_name(name)?;
        list.expect_string()
    }

    /// Where a list named `name` comes next, consumes it and hands out its string,
    /// or nothing where its first child is no string.
    pub fn maybe_string_with_name(&mut self, name: &str) -> (r: Option<&'a str>)
        ensures
            (opt_view(r), final(self)@) == maybe_string_with_name(old(self)@, name@),
    {
        match self.maybe_list_with_name(name) {
            Some(mut list) => match list.expect_string() {
                Ok(s) => Some(s),
                Err(_) => None,
            },
            None => None,
        }
    }

    /// Consumes the next token, which must be a number, and hands out its value.
    pub fn expect_number(&mut self) -> (r: Result<Number, KiCadParseError>)
        ensures
            (parsed(r), final(self)@) == number_token(old(self)@),
    {
        let next = self.expect_next()?;
        match next {
            Sexpr::Number(number) => Ok(*number),
            _ => Err(KiCadParseError::UnexpectedSexprType { expected: SexprKind::Number }),
        }
    }

    /// Consumes a list `(name value ...)` and hands out the truth value that the
    /// symbol spells: `yes`, `no`, `true` or `false`.
    pub fn expect_bool_with_name(&mut self, name: &str) -> (r: Result<bool, KiCadParseError>)
        ensures
            (parsed(r), final(self)@) == bool_with_name(old(self)@, name@),
    {
        let mut list = self.expect_list_with_name(name)?;
        let result = list.expect_symbol()?;
        bool_from_symbol(result)
    }

    /// Where a list named `name` comes next, consumes it and tells whether it
    /// holds nothing but the name.
    pub fn maybe_empty_list_with_name(&mut self, name: &str) -> (r: bool)
        ensures
            (r, final(self)@) == maybe_empty_list_with_name(old(self)@, name@),
    {
        match self.maybe_list_with_name(name) {
            Some(list) => list.expect_end().is_ok(),
            None => false,
        }
    }

    /// Requires that no token is left. The cursor is used up either way.
    pub fn expect_end(self) -> (r: Result<(), KiCadParseError>)
        ensures
            parsed(r) == end_of_list(self@),
    {
        match self.peek_next() {
            Some(next) => Err(KiCadParseError::ExpectedEndOfList { found: next.clone() }),
            None => Ok(()),
        }
    }

    /// Consumes a list `(name value ...)` and hands out the number.
    pub fn expect_number_with_name(&mut self, name: &str) -> (r: Result<Number, KiCadParseError>)
        ensures
            (parsed(r), final(self)@) == number_with_name(old(self)@, name@),
    {
        let mut list = self.expect_list_with_name(name)?;
        list.expect_number()
    }

    /// Where a number comes next, consumes it and hands it out.
    pub fn maybe_number(&mut self) -> (r: Option<Number>)
        ensures
            (r, final(self)@) == maybe_number(old(self)@),
    {
        match self.peek_next() {
            Some(Sexpr::Number(n)) => {
                let _ = self.expect_next();
                Some(*n)
            },
            _ => None,
        }
    }

    /// Consumes a list `(name value ...)` and hands out the symbol.
    pub fn expect_symbol_with_name(&mut self, name: &str) -> (r: Result<&'a str, KiCadParseError>)
        ensures
            (parsed(r), final(self)@) == symbol_with_name(old(self)@, name@),
    {
        let mut list = self.expect_list_with_name(name)?;
        list.expect_symbol()
    }

    /// Where a list named `name` comes next, consumes it and hands out the truth
    /// value that its symbol spells: `yes` or `no`.
    pub fn maybe_bool_with_name(&mut self, name: &str) -> (r: Result<Option<bool>, KiCadParseError>)
        ensures
            (parsed_opt(r), final(self)@) == maybe_bool_with_name(old(self)@, name@),
    {
        match self.maybe_list_with_name(name) {
            Some(mut list) => {
                let result = list.expect_symbol()?;
                let value = yes_no_from_symbol(result)?;
                Ok(Some(value))
            },
            None => Ok(None),
        }
    }

    /// Where a list named `name` comes next, consumes it and hands out its number,
    /// or nothing where its first child is no number.
    pub fn maybe_number_with_name(&mut self, name: &str) -> (r: Option<Number>)
        ensures
            (r, final(self)@) == maybe_number_with_name(old(self)@, name@),
    {
        match self.maybe_list_with_name(name) {
            Some(mut list) => match list.expect_number() {
                Ok(n) => Some(n),
                Err(_) => None,
            },
            None => None,
        }
    }

    /// Where the symbol `expected` comes next, consumes it.
    pub fn maybe_symbol_matching(&mut self, expected: &str) -> (r: bool)
        ensures
            (r, final(self)@) == maybe_symbol_matching(old(self)@, expected@),
    {
        match self.peek_next() {
            Some(Sexpr::Symbol(symbol)) => {
                if str_eq(symbol.as_str(), expected) {
                    let _ = self.expect_next();
                    true
                } else {
                    false
                }
            },
            _ => false,
        }
    }

    /// Reads the field `(name "value")`.
    pub fn string_field(&mut self, name: &str) -> (r: Result<&'a str, KiCadParseError>)
        ensures
            (parsed(r), final(self)@) == string_field(old(self)@, name@),
    {
        let mut list = self.expect_list_with_name(name)?;
        let value = list.expect_string()?;
        list.expect_end()?;
        Ok(value)
    }

    /// Reads the field `(name value)` with a number for its value.
    pub fn number_field(&mut self, name: &str) -> (r: Result<Number, KiCadParseError>)
        ensures
            (parsed(r), final(self)@) == number_field(old(self)@, name@),
    {
        let mut list = self.expect_list_with_name(name)?;
        let value = list.expect_number()?;
        list.expect_end()?;
        Ok(value)
    }

    /// Reads the field `(name yes)`, in the wide vocabulary.
    pub fn bool_field(&mut self, name: &str) -> (r: Result<bool, KiCadParseError>)
        ensures
            (parsed(r), final(self)@) == bool_field(old(self)@, name@),
    {
        let mut list = self.expect_list_with_name(name)?;
        let symbol = list.expect_symbol()?;
        let value = bool_from_symbol(symbol)?;
        list.expect_end()?;
        Ok(value)
    }

    /// Reads the field `(name "value")` where it comes next.
    pub fn optional_string_field(&mut self, name: &str) -> (r: Result<
        Option<&'a str>,
        KiCadParseError,
    >)
        ensures
            (parsed_opt(r), final(self)@) == optional_string_field(old(self)@, name@),
    {
        if self.at_list_with_name(name) {
            let value = self.string_field(name)?;
            Ok(Some(value))
        } else {
            Ok(None)
        }
    }

    /// Reads the field `(name value)`, with a number for its value, where it
    /// comes next.
    pub fn optional_number_field(&mut self, name: &str) -> (r: Result<
        Option<Number>,
        KiCadParseError,
    >)
        ensures
            (parsed_opt(r), final(self)@) == optional_number_field(old(self)@, name@),
    {
        if self.at_list_with_name(name) {
            let value = self.number_field(name)?;
            Ok(Some(value))
        } else {
            Ok(None)
        }
    }

    /// Reads the field `(name yes)` or `(name no)` where it comes next.
    pub fn optional_bool_field(&mut self, name: &str) -> (r: Result<Option<bool>, KiCadParseError>)
        ensures
            (parsed_opt(r), final(self)@) == optional_bool_field(old(self)@, name@),
    {
        match self.maybe_list_with_name(name) {
            Some(mut list) => {
                let symbol = list.expect_symbol()?;
                let value = yes_no_from_symbol(symbol)?;
                list.expect_end()?;
                Ok(Some(value))
            },
            None => Ok(None),
        }
    }

    /// Reads the flag `(name)` where it comes next.
    pub fn flag_field(&mut self, name: &str) -> (r: Result<bool, KiCadParseError>)
        ensures
            (parsed(r), final(self)@) == flag_field(old(self)@, name@),
    {
        match self.maybe_list_with_name(name) {
            Some(list) => {
                list.expect_end()?;
                Ok(true)
            },
            None => Ok(false),
        }
    }

    /// Reads one required node of the entity `T`.
    pub fn expect<T: FromSexprRef<'a>>(&mut self) -> (r: Result<T, KiCadParseError>)
        ensures
            (parsed(r), final(self)@) == entity::<T>(old(self)@),
    {
        let list = self.expect_list()?;
        T::from_sexpr_ref(list)
    }

    /// Reads one node of the entity `T` where one comes next, and nothing, with
    /// nothing consumed, where none does.
    pub fn maybe<T: FromSexprRef<'a> + MaybeFromSexprRef<'a>>(&mut self) -> (r: Result<
        Option<T>,
        KiCadParseError,
    >)
        ensures
            (parsed_opt(r), final(self)@) == maybe_entity::<T>(old(self)@),
    {
        match self.peek_next() {
            Some(Sexpr::List(list)) => {
                if T::is_present_ref(list) {
                    let value = self.expect::<T>()?;
                    Ok(Some(value))
                } else {
                    Ok(None)
                }
            },
            _ => Ok(None),
        }
    }

    /// Reads nodes of the entity `T` for as long as one comes next. A node that
    /// the entity takes for its own and cannot read is an error: it does not end
    /// the sequence.
    pub fn expect_many<T: FromSexprRef<'a> + MaybeFromSexprRef<'a>>(&mut self) -> (r: Result<
        Vec<T>,
        KiCadParseError,
    >)
        ensures
            (parsed_seq(r), final(self)@) == many::<T>(old(self)@),
    {
        let mut result: Vec<T> = Vec::new();
        assert(seq_view(result@) =~= Seq::<T::V>::empty());
        assert(many::<T>(self@) == many_after(seq_view(result@), many::<T>(self@))) by {
            let m = many::<T>(self@);
            if m.0 is Ok {
                assert(Seq::<T::V>::empty() + m.0->Ok_0 =~= m.0->Ok_0);
            }
        }
        loop
            invariant
                many::<T>(old(self)@) == many_after(seq_view(result@), many::<T>(self@)),
            decreases self@.len(),
        {
            let ghost before = self@;
            let ghost done = seq_view(result@);
            match self.maybe::<T>() {
                Ok(Some(item)) => {
                    proof {
                        lemma_many_step::<T>(done, before);
                    }
                    result.push(item);
                    assert(seq_view(result@) =~= done.push(item@));
                },
                Ok(None) => {
                    assert(done + Seq::<T::V>::empty() =~= done);
                    return Ok(result);
                },
                Err(e) => {
                    return Err(e);
                },
            }
        }
    }
}

/// The model of an optional borrowed tree.
pub open spec fn opt_tree(r: Option<&Sexpr>) -> Option<SexprView> {
    match r {
        Some(s) => Some(s@),
        None => None,
    }
}

/// The tokens ahead of an optional cursor.
pub open spec fn opt_tokens(r: Option<ParserRef<'_>>) -> Option<Seq<SexprView>> {
    match r {
        Some(p) => Some(p@),
        None => None,
    }
}

} // verus!

//! The owning cursor, and the traits by which entities are read and written.
//!
//! The owning cursor consumes a list of tokens it owns and hands each token
//! out by value. What each operation does is stated by the function of the
//! same purpose in [`crate::cursor`], exactly as for the borrowing cursor.

use crate::cursor::{
    at_list_named, bool_field, bool_with_name, end_of_list, entity, flag_field, lemma_many_step,
    list_token, list_with_name, many, many_after, maybe_entity, maybe_list_with_name, next_token,
    number_field, number_token, optional_bool_field, optional_number_field, optional_string_field,
    peek, string_field, string_token, symbol_matching, symbol_token, SexprEntity,
};
use crate::convert_ref::{bool_from_symbol, yes_no_from_symbol};
use crate::error::{parsed, parsed_opt, parsed_seq, KiCadParseError};
use crate::number::Number;
use crate::sexpr::{lemma_list_view, opt_view, seq_view, Sexpr, SexprKind, SexprList, SexprView};
use crate::text::str_eq;
use vstd::prelude::*;
use vstd::string::StringExecFns;

verus! {

broadcast use lemma_list_view;

/// An entity that can be read through an owning cursor.
pub trait FromSexpr: SexprEntity {
    /// Reads a value from the children of its node.
    fn from_sexpr(parser: Parser) -> (r: Result<Self, KiCadParseError>)
        ensures
            parsed(r) == Self::parse_spec(parser@),
    ;
}

/// An entity whose nodes can be told from others by a look at the list.
pub trait MaybeFromSexpr: SexprEntity {
    /// Whether the list is a node of this entity.
    fn is_present(sexpr: &SexprList) -> (r: bool)
        ensures
            r == Self::present_spec(seq_view(sexpr@)),
    ;
}

/// An entity that can be written back as a token tree.
pub trait ToSexpr: SexprEntity {
    /// The node for this value.
    fn to_sexpr(&self) -> (r: Sexpr)
        ensures
            r@ == Self::sexpr_spec(self@),
    ;
}

/// The nodes that a sequence of values is written as, in order.
pub open spec fn sexprs_of<T: SexprEntity>(values: Seq<T::V>) -> Seq<SexprView> {
    Seq::new(values.len(), |i: int| T::sexpr_spec(values[i]))
}

/// Appends the node of every value of `values` to `out`, in order.
pub fn push_all<T: ToSexpr>(out: &mut Vec<Sexpr>, values: &Vec<T>)
    ensures
        seq_view(final(out)@) == seq_view(old(out)@) + sexprs_of::<T>(seq_view(values@)),
{
    let ghost start = seq_view(out@);
    let mut i: usize = 0;
    assert(seq_view(out@) =~= start + sexprs_of::<T>(seq_view(values@)).take(0));
    while i < values.len()
        invariant
            i <= values.len(),
            seq_view(out@) == start + sexprs_of::<T>(seq_view(values@)).take(i as int),
        decreases values.len() - i,
    {
        let ghost before = seq_view(out@);
        let node = values[i].to_sexpr();
        out.push(node);
        assert(seq_view(out@) =~= before.push(node@));
        assert(before.push(node@) =~= start + sexprs_of::<T>(seq_view(values@)).take(i + 1));
        i = i + 1;
    }
    assert(sexprs_of::<T>(seq_view(values@)).take(i as int) =~= sexprs_of::<T>(
        seq_view(values@),
    ));
}

/// A cursor over sibling tokens that it owns. It only moves forward; to look
/// ahead and come back, work on a copy made with `clone`.
#[derive(Debug)]
pub struct Parser {
    /// The tokens still ahead, the next one last.
    stack: Vec<Sexpr>,
}

impl View for Parser {
    type V = Seq<SexprView>;

    /// The tokens still ahead.
    closed spec fn view(&self) -> Seq<SexprView> {
        Seq::new(self.stack@.len(), |i: int| self.stack@[self.stack@.len() - 1 - i]@)
    }
}

impl Clone for Parser {
    /// An independent cursor at the same point.
    fn clone(&self) -> (r: Self)
        ensures
            r@ == self@,
    {
        let mut stack: Vec<Sexpr> = Vec::new();
        let mut i: usize = 0;
        while i < self.stack.len()
            invariant
                i <= self.stack.len(),
                stack@.len() == i,
                forall|j: int| 0 <= j < i ==> stack@[j]@ == self.stack@[j]@,
            decreases self.stack.len() - i,
        {
            stack.push(self.stack[i].clone());
            i = i + 1;
        }
        let r = Parser { stack };
        assert(r@ =~= self@);
        r
    }
}

impl Parser {
    /// A cursor at the start of `inner`.
    pub fn new(inner: SexprList) -> (r: Self)
        ensures
            r@ == seq_view(inner@),
    {
        let ghost tokens = seq_view(inner@);
        let mut source = inner;
        let mut stack: Vec<Sexpr> = Vec::new();
        loop
            invariant
                tokens == seq_view(inner@),
                stack@.len() + source@.len() == tokens.len(),
                forall|j: int| 0 <= j < source@.len() ==> source@[j]@ == tokens[j],
                forall|j: int|
                    0 <= j < stack@.len() ==> stack@[j]@ == tokens[tokens.len() - 1 - j],
            decreases source@.len(),
        {
            match source.pop() {
                Some(token) => {
                    stack.push(token);
                },
                None => {
                    let r = Parser { stack };
                    assert(r@ =~= tokens);
                    return r;
                },
            }
        }
    }

    /// The tokens still ahead, in order. The cursor is used up.
    pub fn take_rest(self) -> (r: Vec<Sexpr>)
        ensures
            seq_view(r@) == self@,
    {
        let ghost tokens = self@;
        let mut source = self.stack;
        let mut rest: Vec<Sexpr> = Vec::new();
        loop
            invariant
                tokens == self@,
                rest@.len() + source@.len() == tokens.len(),
                forall|j: int|
                    0 <= j < source@.len() ==> source@[j]@ == tokens[tokens.len() - 1 - j],
                forall|j: int| 0 <= j < rest@.len() ==> rest@[j]@ == tokens[j],
            decreases source@.len(),
        {
            match source.pop() {
                Some(token) => {
                    rest.push(token);
                },
                None => {
                    assert(seq_view(rest@) =~= tokens);
                    return rest;
                },
            }
        }
    }

    /// The next token, if there is one. Nothing is consumed.
    pub fn peek_next(&self) -> (r: Option<&Sexpr>)
        ensures
            opt_view(r) == peek(self@),
    {
        let n = self.stack.len();
        if n > 0 {
            Some(&self.stack[n - 1])
        } else {
            None
        }
    }

    /// Consumes the next token and hands it out.
    pub fn expect_next(&mut self) -> (r: Result<Sexpr, KiCadParseError>)
        ensures
            (parsed(r), final(self)@) == next_token(old(self)@),
    {
        match self.stack.pop() {
            Some(token) => {
                assert(self@ =~= old(self)@.skip(1));
                Ok(token)
            },
            None => {
                assert(self@ =~= old(self)@);
                Err(KiCadParseError::UnexpectedEndOfList)
            },
        }
    }

    /// Consumes the next token, which must be a list, and hands out a cursor over
    /// its children.
    pub fn expect_list(&mut self) -> (r: Result<Parser, KiCadParseError>)
        ensures
            (parsed(r), final(self)@) == list_token(old(self)@),
    {
        match self.expect_next()? {
            Sexpr::List(list) => Ok(Parser::new(list)),
            _ => Err(KiCadParseError::UnexpectedSexprType { expected: SexprKind::List }),
        }
    }

    /// Consumes the next token, which must be a list that begins with the symbol
    /// `name`, and hands out a cursor over what follows the name.
    pub fn expect_list_with_name(&mut self, name: &str) -> (r: Result<Parser, KiCadParseError>)
        ensures
            (parsed(r), final(self)@) == list_with_name(old(self)@, name@),
    {
        let mut list = self.expect_list()?;
        list.expect_symbol_matching(name)?;
        Ok(list)
    }

    /// Whether the next token is a list that begins with the symbol `name`.
    /// Nothing is consumed.
    pub fn at_list_with_name(&self, name: &str) -> (r: bool)
        ensures
            r == at_list_named(self@, name@),
    {
        match self.peek_next() {
            Some(Sexpr::List(list)) => {
                if list.len() == 0 {
                    false
                } else {
                    match &list[0] {
                        Sexpr::Symbol(first) => str_eq(first.as_str(), name),
                        _ => false,
                    }
                }
            },
            _ => false,
        }
    }

    /// Where the next token is a list that begins with the symbol `name`, consumes
    /// it and hands out a cursor over what follows the name; otherwise consumes
    /// nothing.
    pub fn maybe_list_with_name(&mut self, name: &str) -> (r: Option<Parser>)
        ensures
            (opt_view(r), final(self)@) == maybe_list_with_name(old(self)@, name@),
    {
        if self.at_list_with_name(name) {
            match self.expect_list_with_name(name) {
                Ok(list) => Some(list),
                Err(_) => None,
            }
        } else {
            None
        }
    }

    /// Consumes the next token, which must be a symbol, and hands out its spelling.
    pub fn expect_symbol(&mut self) -> (r: Result<String, KiCadParseError>)
        ensures
            (parsed(r), final(self)@) == symbol_token(old(self)@),
    {
        match self.expect_next()? {
            Sexpr::Symbol(symbol) => Ok(symbol),
            _ => Err(KiCadParseError::UnexpectedSexprType { expected: SexprKind::Symbol }),
        }
    }

    /// Consumes the next token, which must be a quoted string, and hands out its
    /// content.
    pub fn expect_string(&mut self) -> (r: Result<String, KiCadParseError>)
        ensures
            (parsed(r), final(self)@) == string_token(old(self)@),
    {
        match self.expect_next()? {
            Sexpr::String(string) => Ok(string),
            _ => Err(KiCadParseError::UnexpectedSexprType { expected: SexprKind::String }),
        }
    }

    /// Consumes the next token, which must be a number, and hands out its value.
    pub fn expect_number(&mut self) -> (r: Result<Number, KiCadParseError>)
        ensures
            (parsed(r), final(self)@) == number_token(old(self)@),
    {
        match self.expect_next()? {
            Sexpr::Number(number) => Ok(number),
            _ => Err(KiCadParseError::UnexpectedSexprType { expected: SexprKind::Number }),
        }
    }

    /// Consumes the next token, which must be the symbol `expected`.
    pub fn expect_symbol_matching(&mut self, expected: &str) -> (r: Result<(), KiCadParseError>)
        ensures
            (parsed(r), final(self)@) == symbol_matching(old(self)@, expected@),
    {
        let symbol = self.expect_symbol()?;
        if !str_eq(symbol.as_str(), expected) {
            return Err(
                KiCadParseError::NonMatchingSymbol {
                    found: symbol,
                    expected: String::from_str(expected),
                },
            );
        }
        Ok(())
    }

    /// Consumes a list `(name value ...)` and hands out the truth value that the
    /// symbol spells: `yes`, `no`, `true` or `false`.
    pub fn expect_bool_with_name(&mut self, name: &str) -> (r: Result<bool, KiCadParseError>)
        ensures
            (parsed(r), final(self)@) == bool_with_name(old(self)@, name@),
    {
        let mut list = self.expect_list_with_name(name)?;
        let symbol = list.expect_symbol()?;
        bool_from_symbol(symbol.as_str())
    }

    /// Requires that no token is left. The cursor is used up either way.
    pub fn expect_end(self) -> (r: Result<(), KiCadParseError>)
        ensures
            parsed(r) == end_of_list(self@),
    {
        let mut rest = self;
        match rest.stack.pop() {
            Some(found) => Err(KiCadParseError::ExpectedEndOfList { found }),
            None => Ok(()),
        }
    }

    /// Reads the field `(name "value")`.
    pub fn string_field(&mut self, name: &str) -> (r: Result<String, KiCadParseError>)
        ensures
            (parsed(r), final(self)@) == string_field(old(self)@, name@),
    {
        let mut list = self.expect_list_with_name(name)?;
        let value = list.expect_string()?;
        list.expect_end()?;
        Ok(value)
    }

    /// Reads the field `(name value)` with a number for its value.
    pub fn number_field(&mut self, name: &str) -> (r: Result<Number, KiCadParseError>)
        ensures
            (parsed(r), final(self)@) == number_field(old(self)@, name@),
    {
        let mut list = self.expect_list_with_name(name)?;
        let value = list.expect_number()?;
        list.expect_end()?;
        Ok(value)
    }

    /// Reads the field `(name yes)`, in the wide vocabulary.
    pub fn bool_field(&mut self, name: &str) -> (r: Result<bool, KiCadParseError>)
        ensures
            (parsed(r), final(self)@) == bool_field(old(self)@, name@),
    {
        let mut list = self.expect_list_with_name(name)?;
        let symbol = list.expect_symbol()?;
        let value = bool_from_symbol(symbol.as_str())?;
        list.expect_end()?;
        Ok(value)
    }

    /// Reads the field `(name "value")` where it comes next.
    pub fn optional_string_field(&mut self, name: &str) -> (r: Result<
        Option<String>,
        KiCadParseError,
    >)
        ensures
            (parsed_opt(r), final(self)@) == optional_string_field(old(self)@, name@),
    {
        if self.at_list_with_name(name) {
            let value = self.string_field(name)?;
            Ok(Some(value))
        } else {
            Ok(None)
        }
    }

    /// Reads the field `(name value)`, with a number for its value, where it
    /// comes next.
    pub fn optional_number_field(&mut self, name: &str) -> (r: Result<
        Option<Number>,
        KiCadParseError,
    >)
        ensures
            (parsed_opt(r), final(self)@) == optional_number_field(old(self)@, name@),
    {
        if self.at_list_with_name(name) {
            let value = self.number_field(name)?;
            Ok(Some(value))
        } else {
            Ok(None)
        }
    }

    /// Reads the field `(name yes)` or `(name no)` where it comes next.
    pub fn optional_bool_field(&mut self, name: &str) -> (r: Result<Option<bool>, KiCadParseError>)
        ensures
            (parsed_opt(r), final(self)@) == optional_bool_field(old(self)@, name@),
    {
        match self.maybe_list_with_name(name) {
            Some(mut list) => {
                let symbol = list.expect_symbol()?;
                let value = yes_no_from_symbol(symbol.as_str())?;
                list.expect_end()?;
                Ok(Some(value))
            },
            None => Ok(None),
        }
    }

    /// Reads the flag `(name)` where it comes next.
    pub fn flag_field(&mut self, name: &str) -> (r: Result<bool, KiCadParseError>)
        ensures
            (parsed(r), final(self)@) == flag_field(old(self)@, name@),
    {
        match self.maybe_list_with_name(name) {
            Some(list) => {
                list.expect_end()?;
                Ok(true)
            },
            None => Ok(false),
        }
    }

    /// Reads one required node of the entity `T`.
    pub fn expect<T: FromSexpr>(&mut self) -> (r: Result<T, KiCadParseError>)
        ensures
            (parsed(r), final(self)@) == entity::<T>(old(self)@),
    {
        let list = self.expect_list()?;
        T::from_sexpr(list)
    }

    /// Reads one node of the entity `T` where one comes next, and nothing, with
    /// nothing consumed, where none does.
    pub fn maybe<T: FromSexpr + MaybeFromSexpr>(&mut self) -> (r: Result<
        Option<T>,
        KiCadParseError,
    >)
        ensures
            (parsed_opt(r), final(self)@) == maybe_entity::<T>(old(self)@),
    {
        let present = match self.peek_next() {
            Some(Sexpr::List(list)) => T::is_present(list),
            _ => false,
        };
        if present {
            let value = self.expect::<T>()?;
            Ok(Some(value))
        } else {
            Ok(None)
        }
    }

    /// Reads nodes of the entity `T` for as long as one comes next. A node that
    /// the entity takes for its own and cannot read is an error: it does not end
    /// the sequence.
    pub fn expect_many<T: FromSexpr + MaybeFromSexpr>(&mut self) -> (r: Result<
        Vec<T>,
        KiCadParseError,
    >)
        ensures
            (parsed_seq(r), final(self)@) == many::<T>(old(self)@),
    {
        let mut result: Vec<T> = Vec::new();
        assert(seq_view(result@) =~= Seq::<T::V>::empty());
        assert(many::<T>(self@) == many_after(seq_view(result@), many::<T>(self@))) by {
            let m = many::<T>(self@);
            if m.0 is Ok {
                assert(Seq::<T::V>::empty() + m.0->Ok_0 =~= m.0->Ok_0);
            }
        }
        loop
            invariant
                many::<T>(old(self)@) == many_after(seq_view(result@), many::<T>(self@)),
            decreases self@.len(),
        {
            let ghost before = self@;
            let ghost done = seq_view(result@);
            match self.maybe::<T>() {
                Ok(Some(item)) => {
                    proof {
                        lemma_many_step::<T>(done, before);
                    }
                    result.push(item);
                    assert(seq_view(result@) =~= done.push(item@));
                },
                Ok(None) => {
                    assert(done + Seq::<T::V>::empty() =~= done);
                    return Ok(result);
                },
                Err(e) => {
                    return Err(e);
                },
            }
        }
    }
}

} // verus!

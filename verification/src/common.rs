//! Entities shared by several file formats.
//!
//! ```text
//! position = (at NUMBER NUMBER [NUMBER])
//! effects  = (effects ...)
//! ```

pub mod symbol;

use crate::convert::{FromSexpr, MaybeFromSexpr, Parser, ToSexpr};
use crate::convert_ref::{FromSexprRef, MaybeFromSexprRef, ParserRef};
use crate::cursor::{end_of_list, maybe_number, number_token, symbol_matching, SexprEntity, Tokens};
use crate::error::{KiCadParseError, KiCadParseErrorView};
use crate::number::Number;
use crate::sexpr::{
    first_symbol_is, lemma_list_view, seq_view, starts_with_symbol, Sexpr, SexprList, SexprView,
};
use vstd::prelude::*;

verus! {

broadcast use lemma_list_view;

/// Where an item stands and how it is turned: `(at x y)` or `(at x y angle)`.
#[derive(Debug, Clone, Copy, PartialEq)]
pub struct Position {
    pub x: Number,
    pub y: Number,
    /// The rotation in whole degrees, where one is written.
    pub angle: Option<i16>,
}

impl View for Position {
    type V = Position;

    open spec fn view(&self) -> Position {
        *self
    }
}

impl Position {
    /// The children of the node of `value`, keyword included.
    pub open spec fn children_spec(value: Position) -> Tokens {
        seq![SexprView::Symbol("at"@), SexprView::Number(value.x), SexprView::Number(value.y)] + (
        match value.angle {
            Some(a) => seq![SexprView::Number(Number::spec_from_int(a as int))],
            None => Seq::empty(),
        })
    }
}

impl SexprEntity for Position {
    open spec fn present_spec(children: Tokens) -> bool {
        first_symbol_is(children, "at"@)
    }

    open spec fn parse_spec(children: Tokens) -> Result<Position, KiCadParseErrorView> {
        let keyword = symbol_matching(children, "at"@);
        let x = number_token(keyword.1);
        let y = number_token(x.1);
        let angle = maybe_number(y.1);
        let end = end_of_list(angle.1);
        if keyword.0 is Err {
            Err(keyword.0->Err_0)
        } else if x.0 is Err {
            Err(x.0->Err_0)
        } else if y.0 is Err {
            Err(y.0->Err_0)
        } else if end is Err {
            Err(end->Err_0)
        } else {
            Ok(
                Position {
                    x: x.0->Ok_0,
                    y: y.0->Ok_0,
                    angle: match angle.0 {
                        Some(a) => Some(a.spec_as_i16()),
                        None => None,
                    },
                },
            )
        }
    }

    open spec fn legal_spec(children: Tokens) -> bool {
        let keyword = symbol_matching(children, "at"@);
        let x = number_token(keyword.1);
        let y = number_token(x.1);
        let angle = maybe_number(y.1);
        angle.0 is Some ==> angle.0->Some_0.is_whole_i16()
    }

    open spec fn sexpr_spec(value: Position) -> SexprView {
        SexprView::List(Position::children_spec(value))
    }
}

impl FromSexpr for Position {
    fn from_sexpr(parser: Parser) -> (r: Result<Self, KiCadParseError>) {
        let mut parser = parser;
        parser.expect_symbol_matching("at")?;
        let x = parser.expect_number()?;
        let y = parser.expect_number()?;
        let angle = match parser.peek_next() {
            Some(Sexpr::Number(a)) => {
                let a = *a;
                let _ = parser.expect_next();
                Some(a.as_i16())
            },
            _ => None,
        };
        parser.expect_end()?;
        Ok(Position { x, y, angle })
    }
}

impl MaybeFromSexpr for Position {
    fn is_present(sexpr: &SexprList) -> (r: bool) {
        starts_with_symbol(sexpr, "at")
    }
}

impl<'a> FromSexprRef<'a> for Position {
    fn from_sexpr_ref(parser: ParserRef<'a>) -> (r: Result<Self, KiCadParseError>) {
        let mut parser = parser;
        parser.expect_symbol_matching("at")?;
        let x = parser.expect_number()?;
        let y = parser.expect_number()?;
        let angle = match parser.maybe_number() {
            Some(a) => Some(a.as_i16()),
            None => None,
        };
        parser.expect_end()?;
        Ok(Position { x, y, angle })
    }
}

impl<'a> MaybeFromSexprRef<'a> for Position {
    fn is_present_ref(sexpr: &'a SexprList) -> (r: bool) {
        starts_with_symbol(sexpr, "at")
    }
}

impl ToSexpr for Position {
    fn to_sexpr(&self) -> (r: Sexpr) {
        let mut items: Vec<Sexpr> = vec![
            Sexpr::symbol("at"),
            Sexpr::number(self.x),
            Sexpr::number(self.y),
        ];
        match self.angle {
            Some(a) => {
                items.push(Sexpr::number(Number::from_i16(a)));
            },
            None => {},
        }
        assert(seq_view(items@) =~= Position::children_spec(*self));
        Sexpr::List(items)
    }
}

/// The way a text is drawn: `(effects ...)`. The node is kept as it was
/// written and written back unchanged; what stands inside is not interpreted.
#[derive(Debug, PartialEq)]
pub struct TextEffects {
    /// The children of the node after the keyword.
    pub items: Vec<Sexpr>,
}

/// The mathematical model of a [`TextEffects`].
pub struct TextEffectsView {
    pub items: Tokens,
}

impl View for TextEffects {
    type V = TextEffectsView;

    open spec fn view(&self) -> TextEffectsView {
        TextEffectsView { items: seq_view(self.items@) }
    }
}

impl Clone for TextEffects {
    fn clone(&self) -> (r: Self)
        ensures
            r@ == self@,
    {
        TextEffects { items: crate::sexpr::clone_list(&self.items) }
    }
}

impl TextEffects {
    /// The effects that say nothing but the size of the font:
    /// `(effects (font (size height width)))`.
    pub fn from_size(height: Number, width: Number) -> (r: TextEffects)
        ensures
            r@.items == seq![
                SexprView::named(
                    "font"@,
                    seq![
                        SexprView::named(
                            "size"@,
                            seq![SexprView::Number(height), SexprView::Number(width)],
                        ),
                    ],
                ),
            ],
    {
        let size_items: Vec<Sexpr> = vec![Sexpr::number(height), Sexpr::number(width)];
        assert(seq_view(size_items@) =~= seq![
            SexprView::Number(height),
            SexprView::Number(width),
        ]);
        let size = Sexpr::list_with_name("size", size_items);
        let ghost size_view = size@;
        let font_items: Vec<Sexpr> = vec![size];
        assert(seq_view(font_items@) =~= seq![size_view]);
        let font = Sexpr::list_with_name("font", font_items);
        let ghost font_view = font@;
        let items: Vec<Sexpr> = vec![font];
        assert(seq_view(items@) =~= seq![font_view]);
        TextEffects { items }
    }
}

impl SexprEntity for TextEffects {
    open spec fn present_spec(children: Tokens) -> bool {
        first_symbol_is(children, "effects"@)
    }

    open spec fn parse_spec(children: Tokens) -> Result<TextEffectsView, KiCadParseErrorView> {
        let keyword = symbol_matching(children, "effects"@);
        if keyword.0 is Err {
            Err(keyword.0->Err_0)
        } else {
            Ok(TextEffectsView { items: keyword.1 })
        }
    }

    open spec fn legal_spec(children: Tokens) -> bool {
        true
    }

    open spec fn sexpr_spec(value: TextEffectsView) -> SexprView {
        SexprView::named("effects"@, value.items)
    }
}

impl FromSexpr for TextEffects {
    fn from_sexpr(parser: Parser) -> (r: Result<Self, KiCadParseError>) {
        let mut parser = parser;
        parser.expect_symbol_matching("effects")?;
        Ok(TextEffects { items: parser.take_rest() })
    }
}

impl MaybeFromSexpr for TextEffects {
    fn is_present(sexpr: &SexprList) -> (r: bool) {
        starts_with_symbol(sexpr, "effects")
    }
}

impl<'a> FromSexprRef<'a> for TextEffects {
    fn from_sexpr_ref(parser: ParserRef<'a>) -> (r: Result<Self, KiCadParseError>) {
        let mut parser = parser;
        parser.expect_symbol_matching("effects")?;
        Ok(TextEffects { items: parser.rest() })
    }
}

impl<'a> MaybeFromSexprRef<'a> for TextEffects {
    fn is_present_ref(sexpr: &'a SexprList) -> (r: bool) {
        starts_with_symbol(sexpr, "effects")
    }
}

impl ToSexpr for TextEffects {
    fn to_sexpr(&self) -> (r: Sexpr) {
        Sexpr::list_with_name("effects", crate::sexpr::clone_list(&self.items))
    }
}

} // verus!

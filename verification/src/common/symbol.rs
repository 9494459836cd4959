//! The entities of a symbol definition.
//!
//! ```text
//! root      = (symbol STRING [(power)] [(pin_numbers hide)] [pin_names]
//!                 [(exclude_from_sim yes|no)] (in_bom BOOL) (on_board BOOL)
//!                 property* shape* pin* unit* [(embedded_fonts yes|no)])
//! pin_names = (pin_names [(offset NUMBER)] [hide | (hide yes) | (hide no)])
//! property  = (property STRING STRING [(id NUMBER)] position
//!                 [(show_name)] [(do_not_autoplace)] effects)
//! unit      = (symbol STRING [(unit_name STRING)] shape* pin*)
//! shape     = (arc ...) | (bezier ...) | (circle ...) | (polyline ...)
//!           | (rectangle ...) | (text ...)
//! pin       = (pin ...)
//! BOOL      = yes | no | true | false
//! ```
//!
//! The name of a root symbol has the form `library:name`. Hidden pin names
//! are written as the bare symbol `hide` in older files and as `(hide yes)`
//! in newer ones, which may also write `(hide no)`; the node `(id N)` of a
//! property is written by older files only. All of this is recorded and
//! written back as it was. Shapes and pins are kept as the nodes they are.

use crate::common::{Position, TextEffects, TextEffectsView};
use crate::convert::{push_all, sexprs_of, FromSexpr, MaybeFromSexpr, Parser, ToSexpr};
use crate::convert_ref::{FromSexprRef, MaybeFromSexprRef, ParserRef};
use crate::cursor::{
    bool_field, end_of_list, entity, entity_legal, flag_field, many, many_legal, maybe_entity,
    maybe_list_with_name, maybe_symbol_matching, optional_bool_field, optional_number_field,
    optional_string_field, spelled_yes_no, string_token, symbol_matching, symbol_token, SexprEntity,
    Tokens,
};
use crate::error::{KiCadParseError, KiCadParseErrorView, LibraryIdParseError};
use crate::number::Number;
use crate::sexpr::{
    clone_list, first_symbol, first_symbol_is, lemma_list_view, opt_view, seq_view,
    starts_with_symbol, Sexpr, SexprList, SexprView,
};
use crate::text::str_eq;
use vstd::prelude::*;
use vstd::string::{StrSliceExecFns, StringExecFns};

verus! {

broadcast use lemma_list_view;

/// The name of an entry of a library: `library:name`.
#[derive(Debug, Clone, PartialEq)]
pub struct LibraryId {
    /// What stands before the first colon.
    pub library: String,
    /// What stands after the first colon.
    pub name: String,
}

/// The mathematical model of a [`LibraryId`].
pub struct LibraryIdView {
    pub library: Seq<char>,
    pub name: Seq<char>,
}

impl View for LibraryId {
    type V = LibraryIdView;

    open spec fn view(&self) -> LibraryIdView {
        LibraryIdView { library: self.library@, name: self.name@ }
    }
}

/// The index of the first colon of `s` at or after `from`, or the length of
/// `s` where there is none.
pub open spec fn colon_index(s: Seq<char>, from: int) -> int
    decreases s.len() - from,
{
    if from < 0 || from >= s.len() {
        s.len() as int
    } else if s[from] == ':' {
        from
    } else {
        colon_index(s, from + 1)
    }
}

impl LibraryIdView {
    /// What reading `s` as an identifier yields. A well-formed identifier has
    /// a colon, something before its first colon and something after it.
    pub open spec fn parse(s: Seq<char>) -> Result<LibraryIdView, KiCadParseErrorView> {
        let i = colon_index(s, 0);
        if 0 < i && i + 1 < s.len() {
            Ok(LibraryIdView { library: s.take(i), name: s.skip(i + 1) })
        } else {
            Err(KiCadParseErrorView::InvalidLibraryId { input: s })
        }
    }

    /// The identifier as it is written.
    pub open spec fn text(self) -> Seq<char> {
        self.library + seq![':'] + self.name
    }

    /// Whether the two parts are such as reading an identifier yields: both
    /// are non-empty and the library holds no colon.
    pub open spec fn wf(self) -> bool {
        &&& self.library.len() > 0
        &&& self.name.len() > 0
        &&& forall|i: int| 0 <= i < self.library.len() ==> self.library[i] != ':'
    }
}

impl LibraryId {
    /// Reads an identifier of the form `library:name`.
    pub fn from_str(s: &str) -> (r: Result<LibraryId, LibraryIdParseError>)
        ensures
            match r {
                Ok(id) => LibraryIdView::parse(s@) == Ok::<LibraryIdView, KiCadParseErrorView>(id@),
                Err(e) => LibraryIdView::parse(s@) is Err && e.input@ == s@,
            },
    {
        let ascii = s.is_ascii();
        let n = s.unicode_len();
        let mut i: usize = 0;
        if ascii {
            while i < n && s.get_ascii(i) != 58
                invariant
                    i <= n,
                    n == s@.len(),
                    vstd::string::is_ascii(s),
                    colon_index(s@, 0) == colon_index(s@, i as int),
                decreases n - i,
            {
                assert(s@[i as int] != ':');
                i = i + 1;
            }
            assert(i < n ==> s@[i as int] == ':') by {
                if i < n {
                    let c = s@[i as int];
                    assert('\0' <= c <= '\u{7f}');
                    assert(c as u8 == 58);
                    assert(c as u32 == 58);
                }
            }
        } else {
            while i < n && s.get_char(i) != ':'
                invariant
                    i <= n,
                    n == s@.len(),
                    colon_index(s@, 0) == colon_index(s@, i as int),
                decreases n - i,
            {
                i = i + 1;
            }
        }
        if 0 < i && i < n - 1 {
            let (library, name) = if ascii {
                (s.substring_ascii(0, i), s.substring_ascii(i + 1, n))
            } else {
                (s.substring_char(0, i), s.substring_char(i + 1, n))
            };
            Ok(LibraryId { library: String::from_str(library), name: String::from_str(name) })
        } else {
            Err(LibraryIdParseError { input: String::from_str(s) })
        }
    }

    /// Reads an identifier and, where that fails, wraps the failure.
    pub fn parse(s: &str) -> (r: Result<LibraryId, KiCadParseError>)
        ensures
            crate::error::parsed(r) == LibraryIdView::parse(s@),
    {
        match LibraryId::from_str(s) {
            Ok(id) => Ok(id),
            Err(e) => Err(KiCadParseError::from(e)),
        }
    }

    /// The identifier as it is written.
    pub fn text(&self) -> (r: String)
        ensures
            r@ == self@.text(),
    {
        proof {
            reveal_strlit(":");
            assert(":"@ =~= seq![':']);
        }
        let mut text = self.library.clone();
        text.append(":");
        text.append(self.name.as_str());
        text
    }

    /// The quoted string that the identifier is written as.
    pub fn to_sexpr(&self) -> (r: Sexpr)
        ensures
            r@ == SexprView::String(self@.text()),
    {
        Sexpr::String(self.text())
    }
}

impl std::str::FromStr for LibraryId {
    type Err = LibraryIdParseError;

    fn from_str(s: &str) -> (r: Result<Self, Self::Err>)
        ensures
            match r {
                Ok(id) => LibraryIdView::parse(s@) == Ok::<LibraryIdView, KiCadParseErrorView>(id@),
                Err(e) => LibraryIdView::parse(s@) is Err && e.input@ == s@,
            },
    {
        LibraryId::from_str(s)
    }
}

/// The name of a sub-unit of a symbol, kept as it was written.
#[derive(Debug, Clone, PartialEq)]
pub struct UnitId {
    pub name: String,
}

impl View for UnitId {
    type V = Seq<char>;

    open spec fn view(&self) -> Seq<char> {
        self.name@
    }
}

impl UnitId {
    /// The name `s`, as it is.
    pub fn from_str(s: &str) -> (r: UnitId)
        ensures
            r@ == s@,
    {
        UnitId { name: String::from_str(s) }
    }

    /// The quoted string that the name is written as.
    pub fn to_sexpr(&self) -> (r: Sexpr)
        ensures
            r@ == SexprView::String(self@),
    {
        Sexpr::String(self.name.clone())
    }
}

/// A pin of a symbol: `(pin ...)`. The node is kept as it was written and
/// written back unchanged; what stands inside is not interpreted.
#[derive(Debug, Clone, PartialEq)]
pub struct Pin {
    /// The children of the node after the keyword.
    pub items: Vec<Sexpr>,
}

/// The mathematical model of a [`Pin`].
pub struct PinView {
    pub items: Tokens,
}

impl View for Pin {
    type V = PinView;

    open spec fn view(&self) -> PinView {
        PinView { items: seq_view(self.items@) }
    }
}

impl SexprEntity for Pin {
    open spec fn present_spec(children: Tokens) -> bool {
        first_symbol_is(children, "pin"@)
    }

    open spec fn parse_spec(children: Tokens) -> Result<PinView, KiCadParseErrorView> {
        let keyword = symbol_matching(children, "pin"@);
        if keyword.0 is Err {
            Err(keyword.0->Err_0)
        } else {
            Ok(PinView { items: keyword.1 })
        }
    }

    open spec fn legal_spec(children: Tokens) -> bool {
        true
    }

    open spec fn sexpr_spec(value: PinView) -> SexprView {
        SexprView::named("pin"@, value.items)
    }
}

impl FromSexpr for Pin {
    fn from_sexpr(parser: Parser) -> (r: Result<Self, KiCadParseError>) {
        let mut parser = parser;
        parser.expect_symbol_matching("pin")?;
        Ok(Pin { items: parser.take_rest() })
    }
}

impl MaybeFromSexpr for Pin {
    fn is_present(sexpr: &SexprList) -> (r: bool) {
        starts_with_symbol(sexpr, "pin")
    }
}

impl<'a> FromSexprRef<'a> for Pin {
    fn from_sexpr_ref(parser: ParserRef<'a>) -> (r: Result<Self, KiCadParseError>) {
        let mut parser = parser;
        parser.expect_symbol_matching("pin")?;
        Ok(Pin { items: parser.rest() })
    }
}

impl<'a> MaybeFromSexprRef<'a> for Pin {
    fn is_present_ref(sexpr: &'a SexprList) -> (r: bool) {
        starts_with_symbol(sexpr, "pin")
    }
}

impl ToSexpr for Pin {
    fn to_sexpr(&self) -> (r: Sexpr) {
        Sexpr::list_with_name("pin", clone_list(&self.items))
    }
}

/// The shapes a symbol is drawn with.
#[derive(Debug, Clone, Copy, PartialEq, Eq, Structural)]
pub enum GraphicsKind {
    Arc,
    Bezier,
    Circle,
    PolyLine,
    Rectangle,
    Text,
}

impl GraphicsKind {
    /// The keyword that a node of this shape begins with.
    pub open spec fn keyword_spec(self) -> Seq<char> {
        match self {
            GraphicsKind::Arc => "arc"@,
            GraphicsKind::Bezier => "bezier"@,
            GraphicsKind::Circle => "circle"@,
            GraphicsKind::PolyLine => "polyline"@,
            GraphicsKind::Rectangle => "rectangle"@,
            GraphicsKind::Text => "text"@,
        }
    }

    /// The shape that `keyword` announces, if it announces one.
    pub open spec fn of_keyword(keyword: Seq<char>) -> Option<GraphicsKind> {
        if keyword == "arc"@ {
            Some(GraphicsKind::Arc)
        } else if keyword == "bezier"@ {
            Some(GraphicsKind::Bezier)
        } else if keyword == "circle"@ {
            Some(GraphicsKind::Circle)
        } else if keyword == "polyline"@ {
            Some(GraphicsKind::PolyLine)
        } else if keyword == "rectangle"@ {
            Some(GraphicsKind::Rectangle)
        } else if keyword == "text"@ {
            Some(GraphicsKind::Text)
        } else {
            None
        }
    }

    /// The keyword that a node of this shape begins with.
    pub fn keyword(self) -> (r: &'static str)
        ensures
            r@ == self.keyword_spec(),
    {
        match self {
            GraphicsKind::Arc => "arc",
            GraphicsKind::Bezier => "bezier",
            GraphicsKind::Circle => "circle",
            GraphicsKind::PolyLine => "polyline",
            GraphicsKind::Rectangle => "rectangle",
            GraphicsKind::Text => "text",
        }
    }

    /// The shape that `keyword` announces, if it announces one.
    pub fn from_keyword(keyword: &str) -> (r: Option<GraphicsKind>)
        ensures
            r == Self::of_keyword(keyword@),
    {
        if str_eq(keyword, "arc") {
            Some(GraphicsKind::Arc)
        } else if str_eq(keyword, "bezier") {
            Some(GraphicsKind::Bezier)
        } else if str_eq(keyword, "circle") {
            Some(GraphicsKind::Circle)
        } else if str_eq(keyword, "polyline") {
            Some(GraphicsKind::PolyLine)
        } else if str_eq(keyword, "rectangle") {
            Some(GraphicsKind::Rectangle)
        } else if str_eq(keyword, "text") {
            Some(GraphicsKind::Text)
        } else {
            None
        }
    }
}

/// A shape of a symbol's drawing: a node that begins with the keyword of a
/// [`GraphicsKind`]. The node is kept as it was written and written back
/// unchanged; what stands inside is not interpreted.
#[derive(Debug, Clone, PartialEq)]
pub struct LibSymbolGraphicsItem {
    pub kind: GraphicsKind,
    /// The children of the node after the keyword.
    pub items: Vec<Sexpr>,
}

/// The mathematical model of a [`LibSymbolGraphicsItem`].
pub struct LibSymbolGraphicsItemView {
    pub kind: GraphicsKind,
    pub items: Tokens,
}

impl View for LibSymbolGraphicsItem {
    type V = LibSymbolGraphicsItemView;

    open spec fn view(&self) -> LibSymbolGraphicsItemView {
        LibSymbolGraphicsItemView { kind: self.kind, items: seq_view(self.items@) }
    }
}

impl SexprEntity for LibSymbolGraphicsItem {
    open spec fn present_spec(children: Tokens) -> bool {
        children.len() > 0 && children[0] is Symbol && GraphicsKind::of_keyword(
            children[0]->Symbol_0,
        ) is Some
    }

    open spec fn parse_spec(children: Tokens) -> Result<
        LibSymbolGraphicsItemView,
        KiCadParseErrorView,
    > {
        let keyword = symbol_token(children);
        if keyword.0 is Err {
            Err(keyword.0->Err_0)
        } else {
            match GraphicsKind::of_keyword(keyword.0->Ok_0) {
                Some(kind) => Ok(LibSymbolGraphicsItemView { kind, items: keyword.1 }),
                None => Err(
                    KiCadParseErrorView::InvalidEnumValue {
                        value: keyword.0->Ok_0,
                        enum_name: "graphics item"@,
                    },
                ),
            }
        }
    }

    open spec fn legal_spec(children: Tokens) -> bool {
        true
    }

    open spec fn sexpr_spec(value: LibSymbolGraphicsItemView) -> SexprView {
        SexprView::named(value.kind.keyword_spec(), value.items)
    }
}

impl FromSexpr for LibSymbolGraphicsItem {
    fn from_sexpr(parser: Parser) -> (r: Result<Self, KiCadParseError>) {
        let mut parser = parser;
        let keyword = parser.expect_symbol()?;
        match GraphicsKind::from_keyword(keyword.as_str()) {
            Some(kind) => Ok(LibSymbolGraphicsItem { kind, items: parser.take_rest() }),
            None => Err(
                KiCadParseError::InvalidEnumValue { value: keyword, enum_name: "graphics item" },
            ),
        }
    }
}

impl MaybeFromSexpr for LibSymbolGraphicsItem {
    fn is_present(sexpr: &SexprList) -> (r: bool) {
        match first_symbol(sexpr) {
            Some(keyword) => GraphicsKind::from_keyword(keyword).is_some(),
            None => false,
        }
    }
}

impl<'a> FromSexprRef<'a> for LibSymbolGraphicsItem {
    fn from_sexpr_ref(parser: ParserRef<'a>) -> (r: Result<Self, KiCadParseError>) {
        let mut parser = parser;
        let keyword = parser.expect_symbol()?;
        match GraphicsKind::from_keyword(keyword) {
            Some(kind) => Ok(LibSymbolGraphicsItem { kind, items: parser.rest() }),
            None => Err(
                KiCadParseError::InvalidEnumValue {
                    value: String::from_str(keyword),
                    enum_name: "graphics item",
                },
            ),
        }
    }
}

impl<'a> MaybeFromSexprRef<'a> for LibSymbolGraphicsItem {
    fn is_present_ref(sexpr: &'a SexprList) -> (r: bool) {
        match first_symbol(sexpr) {
            Some(keyword) => GraphicsKind::from_keyword(keyword).is_some(),
            None => false,
        }
    }
}

impl ToSexpr for LibSymbolGraphicsItem {
    fn to_sexpr(&self) -> (r: Sexpr) {
        Sexpr::list_with_name(self.kind.keyword(), clone_list(&self.items))
    }
}

/// How the names of the pins of a symbol are shown: `(pin_names ...)`.
#[derive(Debug, Clone, Copy, PartialEq)]
pub struct PinNames {
    /// The distance of the names from the pins, where one is written.
    pub offset: Option<Number>,
    /// Whether the names are hidden.
    pub hide: bool,
    /// Whether hiding was written as the bare symbol `hide`, as older files
    /// do.
    pub hide_legacy_format: bool,
    /// Whether a list `(hide yes)` or `(hide no)` was written. Names that are
    /// shown may come with `(hide no)` or with nothing at all; which it was
    /// is recorded here and written back.
    pub hide_as_list: bool,
}

impl View for PinNames {
    type V = PinNames;

    open spec fn view(&self) -> PinNames {
        *self
    }
}

impl PinNames {
    /// What is written for the hiding of the names: the bare symbol `hide`
    /// where they are hidden in the old spelling, `(hide yes)` where they are
    /// hidden otherwise, `(hide no)` where they are shown and a list was
    /// recorded, and nothing where they are shown and none was.
    pub open spec fn hide_nodes(value: PinNames) -> Tokens {
        if value.hide && value.hide_legacy_format {
            seq![SexprView::Symbol("hide"@)]
        } else if value.hide {
            seq![SexprView::named("hide"@, seq![SexprView::yes_no(true)])]
        } else if value.hide_as_list {
            seq![SexprView::named("hide"@, seq![SexprView::yes_no(false)])]
        } else {
            Seq::empty()
        }
    }

    /// The children of the node of `value`, keyword included.
    pub open spec fn children_spec(value: PinNames) -> Tokens {
        seq![SexprView::Symbol("pin_names"@)] + (match value.offset {
            Some(o) => seq![SexprView::named("offset"@, seq![SexprView::Number(o)])],
            None => Seq::empty(),
        }) + PinNames::hide_nodes(value)
    }
}

impl SexprEntity for PinNames {
    open spec fn present_spec(children: Tokens) -> bool {
        first_symbol_is(children, "pin_names"@)
    }

    open spec fn parse_spec(children: Tokens) -> Result<PinNames, KiCadParseErrorView> {
        let keyword = symbol_matching(children, "pin_names"@);
        let offset = optional_number_field(keyword.1, "offset"@);
        let bare = maybe_symbol_matching(offset.1, "hide"@);
        let named = optional_bool_field(bare.1, "hide"@);
        let end = end_of_list(
            if bare.0 {
                bare.1
            } else {
                named.1
            },
        );
        if keyword.0 is Err {
            Err(keyword.0->Err_0)
        } else if offset.0 is Err {
            Err(offset.0->Err_0)
        } else if !bare.0 && named.0 is Err {
            Err(named.0->Err_0)
        } else if end is Err {
            Err(end->Err_0)
        } else {
            Ok(
                PinNames {
                    offset: offset.0->Ok_0,
                    hide: bare.0 || named.0->Ok_0 == Some(true),
                    hide_legacy_format: bare.0,
                    hide_as_list: !bare.0 && named.0->Ok_0 is Some,
                },
            )
        }
    }

    open spec fn legal_spec(children: Tokens) -> bool {
        true
    }

    open spec fn sexpr_spec(value: PinNames) -> SexprView {
        SexprView::List(PinNames::children_spec(value))
    }
}

impl FromSexpr for PinNames {
    fn from_sexpr(parser: Parser) -> (r: Result<Self, KiCadParseError>) {
        let mut parser = parser;
        parser.expect_symbol_matching("pin_names")?;
        let offset = parser.optional_number_field("offset")?;
        let bare = match parser.peek_next() {
            Some(Sexpr::Symbol(s)) => str_eq(s.as_str(), "hide"),
            _ => false,
        };
        let (hide, hide_legacy_format, hide_as_list) = if bare {
            let _ = parser.expect_next();
            (true, true, false)
        } else {
            match parser.optional_bool_field("hide")? {
                Some(value) => (value, false, true),
                None => (false, false, false),
            }
        };
        parser.expect_end()?;
        Ok(PinNames { offset, hide, hide_legacy_format, hide_as_list })
    }
}

impl MaybeFromSexpr for PinNames {
    fn is_present(sexpr: &SexprList) -> (r: bool) {
        starts_with_symbol(sexpr, "pin_names")
    }
}

impl ToSexpr for PinNames {
    fn to_sexpr(&self) -> (r: Sexpr) {
        let mut items: Vec<Sexpr> = vec![Sexpr::symbol("pin_names")];
        match self.offset {
            Some(o) => {
                items.push(Sexpr::number_with_name("offset", o));
            },
            None => {},
        }
        if self.hide && self.hide_legacy_format {
            items.push(Sexpr::symbol("hide"));
        } else if self.hide {
            items.push(Sexpr::bool_with_name("hide", true));
        } else if self.hide_as_list {
            items.push(Sexpr::bool_with_name("hide", false));
        }
        assert(seq_view(items@) =~= PinNames::children_spec(*self));
        Sexpr::List(items)
    }
}

/// A named value attached to a symbol: `(property "key" "value" ...)`.
#[derive(Debug, Clone, PartialEq)]
pub struct SymbolProperty {
    pub key: String,
    pub value: String,
    pub position: Position,
    pub show_name: bool,
    pub do_not_autoplace: bool,
    pub effects: TextEffects,
    /// The number of the node `(id N)` that older files write before the
    /// position. It is kept and written back, and means nothing here.
    pub legacy_id: Option<i32>,
}

/// The mathematical model of a property.
pub struct SymbolPropertyView {
    pub key: Seq<char>,
    pub value: Seq<char>,
    pub position: Position,
    pub show_name: bool,
    pub do_not_autoplace: bool,
    pub effects: TextEffectsView,
    pub legacy_id: Option<i32>,
}

impl View for SymbolProperty {
    type V = SymbolPropertyView;

    open spec fn view(&self) -> SymbolPropertyView {
        SymbolPropertyView {
            key: self.key@,
            value: self.value@,
            position: self.position,
            show_name: self.show_name,
            do_not_autoplace: self.do_not_autoplace,
            effects: self.effects@,
            legacy_id: self.legacy_id,
        }
    }
}

/// The node `(name)` where `present`, and nothing where not.
pub open spec fn flag_node(name: Seq<char>, present: bool) -> Tokens {
    if present {
        seq![SexprView::named(name, Seq::empty())]
    } else {
        Seq::empty()
    }
}

/// The node `(name yes)` or `(name no)` where a value is given, and nothing
/// where none is.
pub open spec fn optional_bool_node(name: Seq<char>, value: Option<bool>) -> Tokens {
    match value {
        Some(b) => seq![SexprView::named(name, seq![SexprView::yes_no(b)])],
        None => Seq::empty(),
    }
}

/// The node `(name "value")` where a value is given, and nothing where none
/// is.
pub open spec fn optional_string_node(name: Seq<char>, value: Option<Seq<char>>) -> Tokens {
    match value {
        Some(s) => seq![SexprView::named(name, seq![SexprView::String(s)])],
        None => Seq::empty(),
    }
}

impl SymbolPropertyView {
    /// The children of the node of `self`, keyword included.
    pub open spec fn children(self) -> Tokens {
        seq![
            SexprView::Symbol("property"@),
            SexprView::String(self.key),
            SexprView::String(self.value),
        ] + (match self.legacy_id {
            Some(id) => seq![
                SexprView::named("id"@, seq![SexprView::Number(Number::spec_from_int(id as int))]),
            ],
            None => Seq::empty(),
        }) + seq![Position::sexpr_spec(self.position)] + flag_node("show_name"@, self.show_name)
            + flag_node("do_not_autoplace"@, self.do_not_autoplace) + seq![
            TextEffects::sexpr_spec(self.effects),
        ]
    }
}

impl SexprEntity for SymbolProperty {
    open spec fn present_spec(children: Tokens) -> bool {
        first_symbol_is(children, "property"@)
    }

    open spec fn parse_spec(children: Tokens) -> Result<SymbolPropertyView, KiCadParseErrorView> {
        let keyword = symbol_matching(children, "property"@);
        let key = string_token(keyword.1);
        let value = string_token(key.1);
        let legacy_id = optional_number_field(value.1, "id"@);
        let position = entity::<Position>(legacy_id.1);
        let show_name = flag_field(position.1, "show_name"@);
        let do_not_autoplace = flag_field(show_name.1, "do_not_autoplace"@);
        let effects = entity::<TextEffects>(do_not_autoplace.1);
        let end = end_of_list(effects.1);
        if keyword.0 is Err {
            Err(keyword.0->Err_0)
        } else if key.0 is Err {
            Err(key.0->Err_0)
        } else if value.0 is Err {
            Err(value.0->Err_0)
        } else if legacy_id.0 is Err {
            Err(legacy_id.0->Err_0)
        } else if position.0 is Err {
            Err(position.0->Err_0)
        } else if show_name.0 is Err {
            Err(show_name.0->Err_0)
        } else if do_not_autoplace.0 is Err {
            Err(do_not_autoplace.0->Err_0)
        } else if effects.0 is Err {
            Err(effects.0->Err_0)
        } else if end is Err {
            Err(end->Err_0)
        } else {
            Ok(
                SymbolPropertyView {
                    key: key.0->Ok_0,
                    value: value.0->Ok_0,
                    position: position.0->Ok_0,
                    show_name: show_name.0->Ok_0,
                    do_not_autoplace: do_not_autoplace.0->Ok_0,
                    effects: effects.0->Ok_0,
                    legacy_id: match legacy_id.0->Ok_0 {
                        Some(n) => Some(n.spec_as_i32()),
                        None => None,
                    },
                },
            )
        }
    }

    open spec fn legal_spec(children: Tokens) -> bool {
        let keyword = symbol_matching(children, "property"@);
        let key = string_token(keyword.1);
        let value = string_token(key.1);
        let legacy_id = optional_number_field(value.1, "id"@);
        &&& legacy_id.0 is Ok && legacy_id.0->Ok_0 is Some
            ==> legacy_id.0->Ok_0->Some_0.is_whole_i32()
        &&& entity_legal::<Position>(legacy_id.1)
    }

    open spec fn sexpr_spec(value: SymbolPropertyView) -> SexprView {
        SexprView::List(value.children())
    }
}

impl FromSexpr for SymbolProperty {
    fn from_sexpr(parser: Parser) -> (r: Result<Self, KiCadParseError>) {
        let mut parser = parser;
        parser.expect_symbol_matching("property")?;
        let key = parser.expect_string()?;
        let value = parser.expect_string()?;
        let legacy_id = match parser.optional_number_field("id")? {
            Some(n) => Some(n.as_i32()),
            None => None,
        };
        let position = parser.expect::<Position>()?;
        let show_name = parser.flag_field("show_name")?;
        let do_not_autoplace = parser.flag_field("do_not_autoplace")?;
        let effects = parser.expect::<TextEffects>()?;
        parser.expect_end()?;
        Ok(SymbolProperty { key, value, position, show_name, do_not_autoplace, effects, legacy_id })
    }
}

impl MaybeFromSexpr for SymbolProperty {
    fn is_present(sexpr: &SexprList) -> (r: bool) {
        starts_with_symbol(sexpr, "property")
    }
}

/// The node of a property with the given fields.
pub fn property_to_sexpr(
    key: &str,
    value: &str,
    legacy_id: Option<i32>,
    position: &Position,
    show_name: bool,
    do_not_autoplace: bool,
    effects: &TextEffects,
) -> (r: Sexpr)
    ensures
        r@ == SexprView::List(
            (SymbolPropertyView {
                key: key@,
                value: value@,
                position: *position,
                show_name,
                do_not_autoplace,
                effects: effects@,
                legacy_id,
            }).children(),
        ),
{
    let ghost model = SymbolPropertyView {
        key: key@,
        value: value@,
        position: *position,
        show_name,
        do_not_autoplace,
        effects: effects@,
        legacy_id,
    };
    let mut items: Vec<Sexpr> = vec![
        Sexpr::symbol("property"),
        Sexpr::string(key),
        Sexpr::string(value),
    ];
    match legacy_id {
        Some(id) => {
            items.push(Sexpr::number_with_name("id", Number::from_i32(id)));
        },
        None => {},
    }
    items.push(position.to_sexpr());
    if show_name {
        items.push(Sexpr::flag("show_name"));
    }
    if do_not_autoplace {
        items.push(Sexpr::flag("do_not_autoplace"));
    }
    items.push(effects.to_sexpr());
    assert(seq_view(items@) =~= model.children());
    Sexpr::List(items)
}

impl ToSexpr for SymbolProperty {
    fn to_sexpr(&self) -> (r: Sexpr) {
        property_to_sexpr(
            self.key.as_str(),
            self.value.as_str(),
            self.legacy_id,
            &self.position,
            self.show_name,
            self.do_not_autoplace,
            &self.effects,
        )
    }
}

/// One of the units that a symbol is drawn in: `(symbol "NAME" ...)` inside a
/// symbol.
#[derive(Debug, Clone, PartialEq)]
pub struct LibSymbolSubUnit {
    pub id: UnitId,
    pub unit_name: Option<String>,
    pub graphic_items: Vec<LibSymbolGraphicsItem>,
    pub pins: Vec<Pin>,
}

/// The mathematical model of a sub-unit.
pub struct LibSymbolSubUnitView {
    pub id: Seq<char>,
    pub unit_name: Option<Seq<char>>,
    pub graphic_items: Seq<LibSymbolGraphicsItemView>,
    pub pins: Seq<PinView>,
}

impl View for LibSymbolSubUnit {
    type V = LibSymbolSubUnitView;

    open spec fn view(&self) -> LibSymbolSubUnitView {
        LibSymbolSubUnitView {
            id: self.id@,
            unit_name: opt_view(self.unit_name),
            graphic_items: seq_view(self.graphic_items@),
            pins: seq_view(self.pins@),
        }
    }
}

impl LibSymbolSubUnitView {
    /// The children of the node of `self`, keyword included.
    pub open spec fn children(self) -> Tokens {
        seq![SexprView::Symbol("symbol"@), SexprView::String(self.id)] + optional_string_node(
            "unit_name"@,
            self.unit_name,
        ) + sexprs_of::<LibSymbolGraphicsItem>(self.graphic_items) + sexprs_of::<Pin>(self.pins)
    }
}

impl SexprEntity for LibSymbolSubUnit {
    open spec fn present_spec(children: Tokens) -> bool {
        first_symbol_is(children, "symbol"@)
    }

    open spec fn parse_spec(children: Tokens) -> Result<LibSymbolSubUnitView, KiCadParseErrorView> {
        let keyword = symbol_matching(children, "symbol"@);
        let id = string_token(keyword.1);
        let unit_name = optional_string_field(id.1, "unit_name"@);
        let graphic_items = many::<LibSymbolGraphicsItem>(unit_name.1);
        let pins = many::<Pin>(graphic_items.1);
        let end = end_of_list(pins.1);
        if keyword.0 is Err {
            Err(keyword.0->Err_0)
        } else if id.0 is Err {
            Err(id.0->Err_0)
        } else if unit_name.0 is Err {
            Err(unit_name.0->Err_0)
        } else if graphic_items.0 is Err {
            Err(graphic_items.0->Err_0)
        } else if pins.0 is Err {
            Err(pins.0->Err_0)
        } else if end is Err {
            Err(end->Err_0)
        } else {
            Ok(
                LibSymbolSubUnitView {
                    id: id.0->Ok_0,
                    unit_name: unit_name.0->Ok_0,
                    graphic_items: graphic_items.0->Ok_0,
                    pins: pins.0->Ok_0,
                },
            )
        }
    }

    open spec fn legal_spec(children: Tokens) -> bool {
        true
    }

    open spec fn sexpr_spec(value: LibSymbolSubUnitView) -> SexprView {
        SexprView::List(value.children())
    }
}

impl FromSexpr for LibSymbolSubUnit {
    fn from_sexpr(parser: Parser) -> (r: Result<Self, KiCadParseError>) {
        let mut parser = parser;
        parser.expect_symbol_matching("symbol")?;
        let id = UnitId { name: parser.expect_string()? };
        let unit_name = parser.optional_string_field("unit_name")?;
        let graphic_items = parser.expect_many::<LibSymbolGraphicsItem>()?;
        let pins = parser.expect_many::<Pin>()?;
        parser.expect_end()?;
        Ok(LibSymbolSubUnit { id, unit_name, graphic_items, pins })
    }
}

impl MaybeFromSexpr for LibSymbolSubUnit {
    fn is_present(sexpr: &SexprList) -> (r: bool) {
        starts_with_symbol(sexpr, "symbol")
    }
}

/// The node of a sub-unit with the given fields.
pub fn sub_unit_to_sexpr(
    id: &UnitId,
    unit_name: &Option<String>,
    graphic_items: &Vec<LibSymbolGraphicsItem>,
    pins: &Vec<Pin>,
) -> (r: Sexpr)
    ensures
        r@ == SexprView::List(
            (LibSymbolSubUnitView {
                id: id@,
                unit_name: opt_view(*unit_name),
                graphic_items: seq_view(graphic_items@),
                pins: seq_view(pins@),
            }).children(),
        ),
{
    let mut items: Vec<Sexpr> = vec![Sexpr::symbol("symbol"), id.to_sexpr()];
    match unit_name {
        Some(name) => {
            items.push(Sexpr::string_with_name("unit_name", name.as_str()));
        },
        None => {},
    }
    let ghost head = seq_view(items@);
    assert(head =~= seq![SexprView::Symbol("symbol"@), SexprView::String(id@)]
        + optional_string_node("unit_name"@, opt_view(*unit_name)));
    push_all(&mut items, graphic_items);
    push_all(&mut items, pins);
    Sexpr::List(items)
}

impl ToSexpr for LibSymbolSubUnit {
    fn to_sexpr(&self) -> (r: Sexpr) {
        sub_unit_to_sexpr(&self.id, &self.unit_name, &self.graphic_items, &self.pins)
    }
}

/// A symbol that stands on its own: `(symbol "library:name" ...)` without an
/// `extends` node.
#[derive(Debug, Clone, PartialEq)]
pub struct LibSymbol {
    pub id: LibraryId,
    pub power: bool,
    pub hide_pin_numbers: bool,
    pub pin_names: Option<PinNames>,
    pub exclude_from_sim: Option<bool>,
    pub in_bom: bool,
    pub on_board: bool,
    pub properties: Vec<SymbolProperty>,
    pub graphic_items: Vec<LibSymbolGraphicsItem>,
    pub pins: Vec<Pin>,
    pub units: Vec<LibSymbolSubUnit>,
    pub embedded_fonts: Option<bool>,
}

/// The mathematical model of a root symbol.
pub struct LibSymbolView {
    pub id: LibraryIdView,
    pub power: bool,
    pub hide_pin_numbers: bool,
    pub pin_names: Option<PinNames>,
    pub exclude_from_sim: Option<bool>,
    pub in_bom: bool,
    pub on_board: bool,
    pub properties: Seq<SymbolPropertyView>,
    pub graphic_items: Seq<LibSymbolGraphicsItemView>,
    pub pins: Seq<PinView>,
    pub units: Seq<LibSymbolSubUnitView>,
    pub embedded_fonts: Option<bool>,
}

impl View for LibSymbol {
    type V = LibSymbolView;

    open spec fn view(&self) -> LibSymbolView {
        LibSymbolView {
            id: self.id@,
            power: self.power,
            hide_pin_numbers: self.hide_pin_numbers,
            pin_names: self.pin_names,
            exclude_from_sim: self.exclude_from_sim,
            in_bom: self.in_bom,
            on_board: self.on_board,
            properties: seq_view(self.properties@),
            graphic_items: seq_view(self.graphic_items@),
            pins: seq_view(self.pins@),
            units: seq_view(self.units@),
            embedded_fonts: self.embedded_fonts,
        }
    }
}

/// Reads keyword and name of a `symbol` node: the symbol `symbol`, then a
/// quoted string of the form `library:name`.
pub open spec fn symbol_prefix(children: Tokens) -> (
    Result<LibraryIdView, KiCadParseErrorView>,
    Tokens,
) {
    let keyword = symbol_matching(children, "symbol"@);
    let name = string_token(keyword.1);
    if keyword.0 is Err {
        (Err(keyword.0->Err_0), keyword.1)
    } else if name.0 is Err {
        (Err(name.0->Err_0), name.1)
    } else {
        (LibraryIdView::parse(name.0->Ok_0), name.1)
    }
}

/// Reads the node `(pin_numbers hide)` where a list named `pin_numbers`
/// comes next.
pub open spec fn pin_numbers_field(t: Tokens) -> (Result<bool, KiCadParseErrorView>, Tokens) {
    match maybe_list_with_name(t, "pin_numbers"@) {
        (Some(inner), rest) => {
            let hide = symbol_matching(inner, "hide"@);
            let end = end_of_list(hide.1);
            if hide.0 is Err {
                (Err(hide.0->Err_0), rest)
            } else if end is Err {
                (Err(end->Err_0), rest)
            } else {
                (Ok(true), rest)
            }
        },
        (None, rest) => (Ok(false), rest),
    }
}

/// The nodes of a root symbol that stand before its properties: keyword and
/// name, then each optional field that is present, then the two required
/// truth values.
pub open spec fn head_nodes(
    id: LibraryIdView,
    power: bool,
    hide_pin_numbers: bool,
    pin_names: Option<PinNames>,
    exclude_from_sim: Option<bool>,
    in_bom: bool,
    on_board: bool,
) -> Tokens {
    seq![SexprView::Symbol("symbol"@), SexprView::String(id.text())] + flag_node("power"@, power)
        + (if hide_pin_numbers {
        seq![SexprView::named("pin_numbers"@, seq![SexprView::Symbol("hide"@)])]
    } else {
        Seq::empty()
    }) + (match pin_names {
        Some(p) => seq![PinNames::sexpr_spec(p)],
        None => Seq::empty(),
    }) + optional_bool_node("exclude_from_sim"@, exclude_from_sim) + seq![
        SexprView::named("in_bom"@, seq![SexprView::yes_no(in_bom)]),
        SexprView::named("on_board"@, seq![SexprView::yes_no(on_board)]),
    ]
}

impl LibSymbolView {
    /// The nodes of the fields that stand before the properties.
    pub open spec fn head(self) -> Tokens {
        head_nodes(
            self.id,
            self.power,
            self.hide_pin_numbers,
            self.pin_names,
            self.exclude_from_sim,
            self.in_bom,
            self.on_board,
        )
    }

    /// What reading the children of a root symbol after keyword and name
    /// yields, the name having been read as `id`.
    pub open spec fn parse_body(id: LibraryIdView, t: Tokens) -> Result<
        LibSymbolView,
        KiCadParseErrorView,
    > {
        let power = flag_field(t, "power"@);
        let hide_pin_numbers = pin_numbers_field(power.1);
        let pin_names = maybe_entity::<PinNames>(hide_pin_numbers.1);
        let exclude_from_sim = optional_bool_field(pin_names.1, "exclude_from_sim"@);
        let in_bom = bool_field(exclude_from_sim.1, "in_bom"@);
        let on_board = bool_field(in_bom.1, "on_board"@);
        let properties = many::<SymbolProperty>(on_board.1);
        let graphic_items = many::<LibSymbolGraphicsItem>(properties.1);
        let pins = many::<Pin>(graphic_items.1);
        let units = many::<LibSymbolSubUnit>(pins.1);
        let embedded_fonts = optional_bool_field(units.1, "embedded_fonts"@);
        let end = end_of_list(embedded_fonts.1);
        if power.0 is Err {
            Err(power.0->Err_0)
        } else if hide_pin_numbers.0 is Err {
            Err(hide_pin_numbers.0->Err_0)
        } else if pin_names.0 is Err {
            Err(pin_names.0->Err_0)
        } else if exclude_from_sim.0 is Err {
            Err(exclude_from_sim.0->Err_0)
        } else if in_bom.0 is Err {
            Err(in_bom.0->Err_0)
        } else if on_board.0 is Err {
            Err(on_board.0->Err_0)
        } else if properties.0 is Err {
            Err(properties.0->Err_0)
        } else if graphic_items.0 is Err {
            Err(graphic_items.0->Err_0)
        } else if pins.0 is Err {
            Err(pins.0->Err_0)
        } else if units.0 is Err {
            Err(units.0->Err_0)
        } else if embedded_fonts.0 is Err {
            Err(embedded_fonts.0->Err_0)
        } else if end is Err {
            Err(end->Err_0)
        } else {
            Ok(
                LibSymbolView {
                    id,
                    power: power.0->Ok_0,
                    hide_pin_numbers: hide_pin_numbers.0->Ok_0,
                    pin_names: pin_names.0->Ok_0,
                    exclude_from_sim: exclude_from_sim.0->Ok_0,
                    in_bom: in_bom.0->Ok_0,
                    on_board: on_board.0->Ok_0,
                    properties: properties.0->Ok_0,
                    graphic_items: graphic_items.0->Ok_0,
                    pins: pins.0->Ok_0,
                    units: units.0->Ok_0,
                    embedded_fonts: embedded_fonts.0->Ok_0,
                },
            )
        }
    }

    /// Whether what follows keyword and name of a root symbol is legal: the
    /// two required truth values are spelled `yes` or `no`, and the
    /// properties are legal.
    pub open spec fn legal_body(t: Tokens) -> bool {
        let power = flag_field(t, "power"@);
        let hide_pin_numbers = pin_numbers_field(power.1);
        let pin_names = maybe_entity::<PinNames>(hide_pin_numbers.1);
        let exclude_from_sim = optional_bool_field(pin_names.1, "exclude_from_sim"@);
        let in_bom = bool_field(exclude_from_sim.1, "in_bom"@);
        let on_board = bool_field(in_bom.1, "on_board"@);
        &&& spelled_yes_no(exclude_from_sim.1)
        &&& spelled_yes_no(in_bom.1)
        &&& many_legal::<SymbolProperty>(on_board.1)
    }

    /// The children of the node of `self`, keyword included.
    pub open spec fn children(self) -> Tokens {
        self.head() + sexprs_of::<SymbolProperty>(self.properties) + sexprs_of::<
            LibSymbolGraphicsItem,
        >(self.graphic_items) + sexprs_of::<Pin>(self.pins) + sexprs_of::<LibSymbolSubUnit>(
            self.units,
        ) + optional_bool_node("embedded_fonts"@, self.embedded_fonts)
    }
}

impl SexprEntity for LibSymbol {
    open spec fn present_spec(children: Tokens) -> bool {
        first_symbol_is(children, "symbol"@)
    }

    open spec fn parse_spec(children: Tokens) -> Result<LibSymbolView, KiCadParseErrorView> {
        match symbol_prefix(children) {
            (Ok(id), rest) => LibSymbolView::parse_body(id, rest),
            (Err(e), _) => Err(e),
        }
    }

    open spec fn legal_spec(children: Tokens) -> bool {
        LibSymbolView::legal_body(symbol_prefix(children).1)
    }

    open spec fn sexpr_spec(value: LibSymbolView) -> SexprView {
        SexprView::List(value.children())
    }
}

impl LibSymbol {
    /// Reads keyword and name of a `symbol` node.
    pub fn read_prefix(parser: &mut Parser) -> (r: Result<LibraryId, KiCadParseError>)
        ensures
            (crate::error::parsed(r), final(parser)@) == symbol_prefix(old(parser)@),
    {
        parser.expect_symbol_matching("symbol")?;
        let name = parser.expect_string()?;
        LibraryId::parse(name.as_str())
    }

    /// Reads keyword and name of a `symbol` node through a borrowing cursor.
    pub fn read_prefix_ref(parser: &mut ParserRef<'_>) -> (r: Result<LibraryId, KiCadParseError>)
        ensures
            (crate::error::parsed(r), final(parser)@) == symbol_prefix(old(parser)@),
    {
        parser.expect_symbol_matching("symbol")?;
        let name = parser.expect_string()?;
        LibraryId::parse(name)
    }

    /// Reads the children of a root symbol that follow keyword and name.
    pub fn read_body(parser: Parser, id: LibraryId) -> (r: Result<LibSymbol, KiCadParseError>)
        ensures
            crate::error::parsed(r) == LibSymbolView::parse_body(id@, parser@),
    {
        let mut parser = parser;
        let power = parser.flag_field("power")?;
        let hide_pin_numbers = match parser.maybe_list_with_name("pin_numbers") {
            Some(mut p) => {
                p.expect_symbol_matching("hide")?;
                p.expect_end()?;
                true
            },
            None => false,
        };
        let pin_names = parser.maybe::<PinNames>()?;
        let exclude_from_sim = parser.optional_bool_field("exclude_from_sim")?;
        let in_bom = parser.bool_field("in_bom")?;
        let on_board = parser.bool_field("on_board")?;
        let properties = parser.expect_many::<SymbolProperty>()?;
        let graphic_items = parser.expect_many::<LibSymbolGraphicsItem>()?;
        let pins = parser.expect_many::<Pin>()?;
        let units = parser.expect_many::<LibSymbolSubUnit>()?;
        let embedded_fonts = parser.optional_bool_field("embedded_fonts")?;
        parser.expect_end()?;
        Ok(
            LibSymbol {
                id,
                power,
                hide_pin_numbers,
                pin_names,
                exclude_from_sim,
                in_bom,
                on_board,
                properties,
                graphic_items,
                pins,
                units,
                embedded_fonts,
            },
        )
    }
}

impl FromSexpr for LibSymbol {
    fn from_sexpr(parser: Parser) -> (r: Result<Self, KiCadParseError>) {
        let mut parser = parser;
        let id = LibSymbol::read_prefix(&mut parser)?;
        LibSymbol::read_body(parser, id)
    }
}

impl MaybeFromSexpr for LibSymbol {
    fn is_present(sexpr: &SexprList) -> (r: bool) {
        starts_with_symbol(sexpr, "symbol")
    }
}

/// The nodes of the fields of a root symbol that stand before its
/// properties.
pub fn symbol_head(
    id: &LibraryId,
    power: bool,
    hide_pin_numbers: bool,
    pin_names: &Option<PinNames>,
    exclude_from_sim: Option<bool>,
    in_bom: bool,
    on_board: bool,
) -> (items: Vec<Sexpr>)
    ensures
        seq_view(items@) == head_nodes(
            id@,
            power,
            hide_pin_numbers,
            *pin_names,
            exclude_from_sim,
            in_bom,
            on_board,
        ),
{
    let mut items: Vec<Sexpr> = vec![Sexpr::symbol("symbol"), id.to_sexpr()];
    if power {
        items.push(Sexpr::flag("power"));
    }
    if hide_pin_numbers {
        items.push(Sexpr::symbol_with_name("pin_numbers", "hide"));
    }
    match pin_names {
        Some(p) => {
            items.push(p.to_sexpr());
        },
        None => {},
    }
    match exclude_from_sim {
        Some(v) => {
            items.push(Sexpr::bool_with_name("exclude_from_sim", v));
        },
        None => {},
    }
    items.push(Sexpr::bool_with_name("in_bom", in_bom));
    items.push(Sexpr::bool_with_name("on_board", on_board));
    assert(seq_view(items@) =~= head_nodes(
        id@,
        power,
        hide_pin_numbers,
        *pin_names,
        exclude_from_sim,
        in_bom,
        on_board,
    ));
    items
}

impl ToSexpr for LibSymbol {
    fn to_sexpr(&self) -> (r: Sexpr) {
        let mut items = symbol_head(
            &self.id,
            self.power,
            self.hide_pin_numbers,
            &self.pin_names,
            self.exclude_from_sim,
            self.in_bom,
            self.on_board,
        );
        assert(seq_view(items@) == self@.head());
        push_all(&mut items, &self.properties);
        push_all(&mut items, &self.graphic_items);
        push_all(&mut items, &self.pins);
        push_all(&mut items, &self.units);
        let ghost body = seq_view(items@);
        match self.embedded_fonts {
            Some(v) => {
                items.push(Sexpr::bool_with_name("embedded_fonts", v));
            },
            None => {},
        }
        assert(seq_view(items@) =~= body + optional_bool_node(
            "embedded_fonts"@,
            self.embedded_fonts,
        ));
        Sexpr::List(items)
    }
}

} // verus!

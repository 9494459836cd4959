//! The symbol library format, read through the borrowing cursor.
//!
//! The types of this module mirror those of [`crate::symbol_library`] and
//! [`crate::common::symbol`]. They are read without copying the tokens, with
//! the property keys interned, and by the same grammar: every entity here
//! has the model of its counterpart and is specified by its counterpart's
//! functions.

use crate::common::symbol::{
    optional_bool_node, property_to_sexpr, sub_unit_to_sexpr, symbol_head, LibSymbol,
    LibSymbolGraphicsItem, LibSymbolSubUnit, LibSymbolSubUnitView, LibSymbolView, LibraryId, Pin,
    PinNames, SymbolProperty, SymbolPropertyView, UnitId,
};
use crate::common::{Position, TextEffects};
use crate::convert::{push_all, sexprs_of, ToSexpr};
use crate::convert_ref::{FromSexprRef, MaybeFromSexprRef, ParserRef};
use crate::cursor::{lemma_many_agree, SexprEntity, Tokens};
use crate::error::{parsed, KiCadParseError, KiCadParseErrorView};
use crate::sexpr::{
    lemma_list_view, opt_view, seq_view, starts_with_symbol, Sexpr, SexprKind, SexprList, SexprView,
};
use crate::string_interner::{intern_property_key, InternedString};
use crate::symbol_library::{
    derived_head, library_head, parse_document, DerivedLibSymbol, DerivedLibSymbolView,
    SymbolDefinition, SymbolDefinitionView, SymbolLibraryFile, SymbolLibraryFileView,
};
use vstd::prelude::*;
use vstd::std_specs::convert::FromSpecImpl;
use vstd::string::StringExecFns;

verus! {

broadcast use lemma_list_view;

/// A value read through the borrowing cursor, which has a counterpart with
/// the same model among the types read through the owning cursor.
pub trait IntoRegular: View + Sized {
    /// The counterpart.
    type Regular: View<V = Self::V>;

    /// The counterpart with the same content.
    fn into_regular(self) -> (r: Self::Regular)
        ensures
            r@ == self@,
    ;
}

/// The counterparts of the values of `items`, in order.
pub fn regular_all<T: IntoRegular>(items: Vec<T>) -> (r: Vec<T::Regular>)
    ensures
        seq_view(r@) == seq_view(items@),
{
    let ghost models = seq_view(items@);
    let mut source = items;
    let mut stack: Vec<T> = Vec::new();
    while source.len() > 0
        invariant
            models == seq_view(items@),
            stack@.len() + source@.len() == models.len(),
            forall|j: int| 0 <= j < source@.len() ==> source@[j]@ == models[j],
            forall|j: int| 0 <= j < stack@.len() ==> stack@[j]@ == models[models.len() - 1 - j],
        decreases source@.len(),
    {
        match source.pop() {
            Some(item) => {
                stack.push(item);
            },
            None => {},
        }
    }
    let mut result: Vec<T::Regular> = Vec::new();
    loop
        invariant
            models == seq_view(items@),
            stack@.len() + result@.len() == models.len(),
            forall|j: int| 0 <= j < stack@.len() ==> stack@[j]@ == models[models.len() - 1 - j],
            forall|j: int| 0 <= j < result@.len() ==> result@[j]@ == models[j],
        decreases stack@.len(),
    {
        match stack.pop() {
            Some(item) => {
                result.push(item.into_regular());
            },
            None => {
                assert(seq_view(result@) =~= models);
                return result;
            },
        }
    }
}

/// The borrowing path's symbol library.
#[derive(Debug, Clone, PartialEq)]
pub struct SymbolLibraryFileFast {
    pub version: u32,
    pub generator: String,
    pub generator_is_string: bool,
    pub generator_version: Option<String>,
    pub symbols: Vec<SymbolDefinitionFast>,
}

impl View for SymbolLibraryFileFast {
    type V = SymbolLibraryFileView;

    open spec fn view(&self) -> SymbolLibraryFileView {
        SymbolLibraryFileView {
            version: self.version,
            generator: self.generator@,
            generator_is_string: self.generator_is_string,
            generator_version: opt_view(self.generator_version),
            symbols: seq_view(self.symbols@),
        }
    }
}

impl SexprEntity for SymbolLibraryFileFast {
    open spec fn present_spec(children: Tokens) -> bool {
        SymbolLibraryFile::present_spec(children)
    }

    open spec fn parse_spec(children: Tokens) -> Result<SymbolLibraryFileView, KiCadParseErrorView> {
        SymbolLibraryFile::parse_spec(children)
    }

    open spec fn legal_spec(children: Tokens) -> bool {
        SymbolLibraryFile::legal_spec(children)
    }

    open spec fn sexpr_spec(value: SymbolLibraryFileView) -> SexprView {
        SymbolLibraryFile::sexpr_spec(value)
    }
}

impl<'a> FromSexprRef<'a> for SymbolLibraryFileFast {
    fn from_sexpr_ref(parser: ParserRef<'a>) -> (r: Result<Self, KiCadParseError>) {
        let mut parser = parser;
        parser.expect_symbol_matching("kicad_symbol_lib")?;
        let version = parser.number_field("version")?.as_u32();
        let mut gen_parser = parser.expect_list_with_name("generator")?;
        let (generator, generator_is_string) = match gen_parser.peek_next() {
            Some(Sexpr::String(_)) => {
                let s = String::from_str(gen_parser.expect_string()?);
                gen_parser.expect_end()?;
                (s, true)
            },
            Some(Sexpr::Symbol(_)) => {
                let s = String::from_str(gen_parser.expect_symbol()?);
                gen_parser.expect_end()?;
                (s, false)
            },
            Some(_) => {
                return Err(KiCadParseError::UnexpectedSexprType { expected: SexprKind::String });
            },
            None => {
                return Err(KiCadParseError::UnexpectedEndOfList);
            },
        };
        let generator_version = match parser.optional_string_field("generator_version")? {
            Some(s) => Some(String::from_str(s)),
            None => None,
        };
        proof {
            lemma_many_agree::<SymbolDefinitionFast, SymbolDefinition>(parser@);
        }
        let symbols = parser.expect_many::<SymbolDefinitionFast>()?;
        parser.expect_end()?;
        Ok(
            SymbolLibraryFileFast {
                version,
                generator,
                generator_is_string,
                generator_version,
                symbols,
            },
        )
    }
}

impl ToSexpr for SymbolLibraryFileFast {
    fn to_sexpr(&self) -> (r: Sexpr) {
        let mut items = library_head(
            self.version,
            self.generator.as_str(),
            self.generator_is_string,
            &self.generator_version,
        );
        push_all(&mut items, &self.symbols);
        assert(sexprs_of::<SymbolDefinitionFast>(self@.symbols) =~= sexprs_of::<SymbolDefinition>(
            self@.symbols,
        ));
        assert(seq_view(items@) == self@.children());
        Sexpr::List(items)
    }
}

impl IntoRegular for SymbolLibraryFileFast {
    type Regular = SymbolLibraryFile;

    fn into_regular(self) -> (r: SymbolLibraryFile) {
        SymbolLibraryFile {
            version: self.version,
            generator: self.generator,
            generator_is_string: self.generator_is_string,
            generator_version: self.generator_version,
            symbols: regular_all(self.symbols),
        }
    }
}

/// The borrowing path's symbol definition.
#[derive(Debug, Clone, PartialEq)]
pub enum SymbolDefinitionFast {
    RootSymbol(LibSymbolFast),
    DerivedSymbol(DerivedLibSymbolFast),
}

impl View for SymbolDefinitionFast {
    type V = SymbolDefinitionView;

    open spec fn view(&self) -> SymbolDefinitionView {
        match self {
            SymbolDefinitionFast::RootSymbol(s) => SymbolDefinitionView::RootSymbol(s@),
            SymbolDefinitionFast::DerivedSymbol(s) => SymbolDefinitionView::DerivedSymbol(s@),
        }
    }
}

impl SexprEntity for SymbolDefinitionFast {
    open spec fn present_spec(children: Tokens) -> bool {
        SymbolDefinition::present_spec(children)
    }

    open spec fn parse_spec(children: Tokens) -> Result<SymbolDefinitionView, KiCadParseErrorView> {
        SymbolDefinition::parse_spec(children)
    }

    open spec fn legal_spec(children: Tokens) -> bool {
        SymbolDefinition::legal_spec(children)
    }

    open spec fn sexpr_spec(value: SymbolDefinitionView) -> SexprView {
        SymbolDefinition::sexpr_spec(value)
    }
}

impl<'a> FromSexprRef<'a> for SymbolDefinitionFast {
    /// Root and derived symbols begin alike. After keyword and name the
    /// token tree itself is looked at: a list that begins with `extends`
    /// makes a derived symbol, anything else a root symbol. The cursor then
    /// goes on; nothing is read twice.
    fn from_sexpr_ref(parser: ParserRef<'a>) -> (r: Result<Self, KiCadParseError>) {
        let mut parser = parser;
        let id = LibSymbol::read_prefix_ref(&mut parser)?;
        let is_derived = parser.at_list_with_name("extends");
        if is_derived {
            let derived = DerivedLibSymbolFast::read_body(parser, id)?;
            Ok(SymbolDefinitionFast::DerivedSymbol(derived))
        } else {
            let root = LibSymbolFast::read_body(parser, id)?;
            Ok(SymbolDefinitionFast::RootSymbol(root))
        }
    }
}

impl<'a> MaybeFromSexprRef<'a> for SymbolDefinitionFast {
    fn is_present_ref(sexpr: &'a SexprList) -> (r: bool) {
        starts_with_symbol(sexpr, "symbol")
    }
}

impl ToSexpr for SymbolDefinitionFast {
    fn to_sexpr(&self) -> (r: Sexpr) {
        match self {
            SymbolDefinitionFast::RootSymbol(symbol) => symbol.to_sexpr(),
            SymbolDefinitionFast::DerivedSymbol(symbol) => symbol.to_sexpr(),
        }
    }
}

impl IntoRegular for SymbolDefinitionFast {
    type Regular = SymbolDefinition;

    fn into_regular(self) -> (r: SymbolDefinition) {
        match self {
            SymbolDefinitionFast::RootSymbol(s) => SymbolDefinition::RootSymbol(s.into_regular()),
            SymbolDefinitionFast::DerivedSymbol(s) => SymbolDefinition::DerivedSymbol(
                s.into_regular(),
            ),
        }
    }
}

/// The borrowing path's root symbol.
#[derive(Debug, Clone, PartialEq)]
pub struct LibSymbolFast {
    pub id: LibraryId,
    pub power: bool,
    pub hide_pin_numbers: bool,
    pub pin_names: Option<PinNamesFast>,
    pub exclude_from_sim: Option<bool>,
    pub in_bom: bool,
    pub on_board: bool,
    pub properties: Vec<SymbolPropertyFast>,
    pub graphic_items: Vec<LibSymbolGraphicsItem>,
    pub pins: Vec<Pin>,
    pub units: Vec<LibSymbolSubUnitFast>,
    pub embedded_fonts: Option<bool>,
}

impl View for LibSymbolFast {
    type V = LibSymbolView;

    open spec fn view(&self) -> LibSymbolView {
        LibSymbolView {
            id: self.id@,
            power: self.power,
            hide_pin_numbers: self.hide_pin_numbers,
            pin_names: opt_view(self.pin_names),
            exclude_from_sim: self.exclude_from_sim,
            in_bom: self.in_bom,
            on_board: self.on_board,
            properties: seq_view(self.properties@),
            graphic_items: seq_view(self.graphic_items@),
            pins: seq_view(self.pins@),
            units: seq_view(self.units@),
            embedded_fonts: self.embedded_fonts,
        }
    }
}

impl SexprEntity for LibSymbolFast {
    open spec fn present_spec(children: Tokens) -> bool {
        LibSymbol::present_spec(children)
    }

    open spec fn parse_spec(children: Tokens) -> Result<LibSymbolView, KiCadParseErrorView> {
        LibSymbol::parse_spec(children)
    }

    open spec fn legal_spec(children: Tokens) -> bool {
        LibSymbol::legal_spec(children)
    }

    open spec fn sexpr_spec(value: LibSymbolView) -> SexprView {
        LibSymbol::sexpr_spec(value)
    }
}

impl LibSymbolFast {
    /// Reads the children of a root symbol that follow keyword and name.
    pub fn read_body(parser: ParserRef<'_>, id: LibraryId) -> (r: Result<
        LibSymbolFast,
        KiCadParseError,
    >)
        ensures
            parsed(r) == LibSymbolView::parse_body(id@, parser@),
    {
        let mut parser = parser;
        let power = parser.flag_field("power")?;
        let hide_pin_numbers = match parser.maybe_list_with_name("pin_numbers") {
            Some(mut p) => {
                p.expect_symbol_matching("hide")?;
                p.expect_end()?;
                true
            },
            None => false,
        };
        let pin_names = parser.maybe::<PinNamesFast>()?;
        let exclude_from_sim = parser.optional_bool_field("exclude_from_sim")?;
        let in_bom = parser.bool_field("in_bom")?;
        let on_board = parser.bool_field("on_board")?;
        proof {
            lemma_many_agree::<SymbolPropertyFast, SymbolProperty>(parser@);
        }
        let properties = parser.expect_many::<SymbolPropertyFast>()?;
        let graphic_items = parser.expect_many::<LibSymbolGraphicsItem>()?;
        let pins = parser.expect_many::<Pin>()?;
        proof {
            lemma_many_agree::<LibSymbolSubUnitFast, LibSymbolSubUnit>(parser@);
        }
        let units = parser.expect_many::<LibSymbolSubUnitFast>()?;
        let embedded_fonts = parser.optional_bool_field("embedded_fonts")?;
        parser.expect_end()?;
        Ok(
            LibSymbolFast {
                id,
                power,
                hide_pin_numbers,
                pin_names,
                exclude_from_sim,
                in_bom,
                on_board,
                properties,
                graphic_items,
                pins,
                units,
                embedded_fonts,
            },
        )
    }
}

impl<'a> FromSexprRef<'a> for LibSymbolFast {
    fn from_sexpr_ref(parser: ParserRef<'a>) -> (r: Result<Self, KiCadParseError>) {
        let mut parser = parser;
        let id = LibSymbol::read_prefix_ref(&mut parser)?;
        LibSymbolFast::read_body(parser, id)
    }
}

impl<'a> MaybeFromSexprRef<'a> for LibSymbolFast {
    fn is_present_ref(sexpr: &'a SexprList) -> (r: bool) {
        starts_with_symbol(sexpr, "symbol")
    }
}

impl ToSexpr for LibSymbolFast {
    fn to_sexpr(&self) -> (r: Sexpr) {
        let pin_names = match &self.pin_names {
            Some(p) => Some(p.into_regular()),
            None => None,
        };
        let mut items = symbol_head(
            &self.id,
            self.power,
            self.hide_pin_numbers,
            &pin_names,
            self.exclude_from_sim,
            self.in_bom,
            self.on_board,
        );
        assert(seq_view(items@) == self@.head());
        push_all(&mut items, &self.properties);
        push_all(&mut items, &self.graphic_items);
        push_all(&mut items, &self.pins);
        push_all(&mut items, &self.units);
        let ghost body = seq_view(items@);
        match self.embedded_fonts {
            Some(v) => {
                items.push(Sexpr::bool_with_name("embedded_fonts", v));
            },
            None => {},
        }
        assert(seq_view(items@) =~= body + optional_bool_node(
            "embedded_fonts"@,
            self.embedded_fonts,
        ));
        assert(sexprs_of::<SymbolPropertyFast>(self@.properties) =~= sexprs_of::<SymbolProperty>(
            self@.properties,
        ));
        assert(sexprs_of::<LibSymbolSubUnitFast>(self@.units) =~= sexprs_of::<LibSymbolSubUnit>(
            self@.units,
        ));
        Sexpr::List(items)
    }
}

impl IntoRegular for LibSymbolFast {
    type Regular = LibSymbol;

    fn into_regular(self) -> (r: LibSymbol) {
        LibSymbol {
            id: self.id,
            power: self.power,
            hide_pin_numbers: self.hide_pin_numbers,
            pin_names: match self.pin_names {
                Some(p) => Some(p.into_regular()),
                None => None,
            },
            exclude_from_sim: self.exclude_from_sim,
            in_bom: self.in_bom,
            on_board: self.on_board,
            properties: regular_all(self.properties),
            graphic_items: self.graphic_items,
            pins: self.pins,
            units: regular_all(self.units),
            embedded_fonts: self.embedded_fonts,
        }
    }
}

/// The borrowing path's derived symbol.
#[derive(Debug, Clone, PartialEq)]
pub struct DerivedLibSymbolFast {
    pub id: LibraryId,
    pub extends: String,
    pub properties: Vec<SymbolPropertyFast>,
}

impl View for DerivedLibSymbolFast {
    type V = DerivedLibSymbolView;

    open spec fn view(&self) -> DerivedLibSymbolView {
        DerivedLibSymbolView {
            id: self.id@,
            extends: self.extends@,
            properties: seq_view(self.properties@),
        }
    }
}

impl SexprEntity for DerivedLibSymbolFast {
    open spec fn present_spec(children: Tokens) -> bool {
        DerivedLibSymbol::present_spec(children)
    }

    open spec fn parse_spec(children: Tokens) -> Result<DerivedLibSymbolView, KiCadParseErrorView> {
        DerivedLibSymbol::parse_spec(children)
    }

    open spec fn legal_spec(children: Tokens) -> bool {
        DerivedLibSymbol::legal_spec(children)
    }

    open spec fn sexpr_spec(value: DerivedLibSymbolView) -> SexprView {
        DerivedLibSymbol::sexpr_spec(value)
    }
}

impl DerivedLibSymbolFast {
    /// Reads the children of a derived symbol that follow keyword and name.
    pub fn read_body(parser: ParserRef<'_>, id: LibraryId) -> (r: Result<
        DerivedLibSymbolFast,
        KiCadParseError,
    >)
        ensures
            parsed(r) == DerivedLibSymbolView::parse_body(id@, parser@),
    {
        let mut parser = parser;
        let extends = String::from_str(parser.string_field("extends")?);
        proof {
            lemma_many_agree::<SymbolPropertyFast, SymbolProperty>(parser@);
        }
        let properties = parser.expect_many::<SymbolPropertyFast>()?;
        parser.expect_end()?;
        Ok(DerivedLibSymbolFast { id, extends, properties })
    }
}

impl<'a> FromSexprRef<'a> for DerivedLibSymbolFast {
    fn from_sexpr_ref(parser: ParserRef<'a>) -> (r: Result<Self, KiCadParseError>) {
        let mut parser = parser;
        let id = LibSymbol::read_prefix_ref(&mut parser)?;
        DerivedLibSymbolFast::read_body(parser, id)
    }
}

impl ToSexpr for DerivedLibSymbolFast {
    fn to_sexpr(&self) -> (r: Sexpr) {
        let mut items = derived_head(&self.id, self.extends.as_str());
        push_all(&mut items, &self.properties);
        assert(sexprs_of::<SymbolPropertyFast>(self@.properties) =~= sexprs_of::<SymbolProperty>(
            self@.properties,
        ));
        Sexpr::List(items)
    }
}

impl IntoRegular for DerivedLibSymbolFast {
    type Regular = DerivedLibSymbol;

    fn into_regular(self) -> (r: DerivedLibSymbol) {
        DerivedLibSymbol {
            id: self.id,
            extends: self.extends,
            properties: regular_all(self.properties),
        }
    }
}

/// The borrowing path's property, with its key interned.
#[derive(Debug, Clone, PartialEq)]
pub struct SymbolPropertyFast {
    pub key: InternedString,
    pub value: String,
    pub position: Position,
    pub show_name: bool,
    pub do_not_autoplace: bool,
    pub effects: TextEffects,
    pub legacy_id: Option<i32>,
}

impl View for SymbolPropertyFast {
    type V = SymbolPropertyView;

    open spec fn view(&self) -> SymbolPropertyView {
        SymbolPropertyView {
            key: self.key@,
            value: self.value@,
            position: self.position,
            show_name: self.show_name,
            do_not_autoplace: self.do_not_autoplace,
            effects: self.effects@,
            legacy_id: self.legacy_id,
        }
    }
}

impl SexprEntity for SymbolPropertyFast {
    open spec fn present_spec(children: Tokens) -> bool {
        SymbolProperty::present_spec(children)
    }

    open spec fn parse_spec(children: Tokens) -> Result<SymbolPropertyView, KiCadParseErrorView> {
        SymbolProperty::parse_spec(children)
    }

    open spec fn legal_spec(children: Tokens) -> bool {
        SymbolProperty::legal_spec(children)
    }

    open spec fn sexpr_spec(value: SymbolPropertyView) -> SexprView {
        SymbolProperty::sexpr_spec(value)
    }
}

impl<'a> FromSexprRef<'a> for SymbolPropertyFast {
    fn from_sexpr_ref(parser: ParserRef<'a>) -> (r: Result<Self, KiCadParseError>) {
        let mut parser = parser;
        parser.expect_symbol_matching("property")?;
        let key = intern_property_key(parser.expect_string()?);
        let value = String::from_str(parser.expect_string()?);
        let legacy_id = match parser.optional_number_field("id")? {
            Some(n) => Some(n.as_i32()),
            None => None,
        };
        let position = parser.expect::<Position>()?;
        let show_name = parser.flag_field("show_name")?;
        let do_not_autoplace = parser.flag_field("do_not_autoplace")?;
        let effects = parser.expect::<TextEffects>()?;
        parser.expect_end()?;
        Ok(
            SymbolPropertyFast {
                key,
                value,
                position,
                show_name,
                do_not_autoplace,
                effects,
                legacy_id,
            },
        )
    }
}

impl<'a> MaybeFromSexprRef<'a> for SymbolPropertyFast {
    fn is_present_ref(sexpr: &'a SexprList) -> (r: bool) {
        starts_with_symbol(sexpr, "property")
    }
}

impl ToSexpr for SymbolPropertyFast {
    fn to_sexpr(&self) -> (r: Sexpr) {
        property_to_sexpr(
            self.key.as_str(),
            self.value.as_str(),
            self.legacy_id,
            &self.position,
            self.show_name,
            self.do_not_autoplace,
            &self.effects,
        )
    }
}

impl IntoRegular for SymbolPropertyFast {
    type Regular = SymbolProperty;

    fn into_regular(self) -> (r: SymbolProperty) {
        SymbolProperty {
            key: String::from_str(self.key.as_str()),
            value: self.value,
            position: self.position,
            show_name: self.show_name,
            do_not_autoplace: self.do_not_autoplace,
            effects: self.effects,
            legacy_id: self.legacy_id,
        }
    }
}

/// The borrowing path's pin names.
#[derive(Debug, Clone, Copy, PartialEq)]
pub struct PinNamesFast {
    pub offset: Option<crate::number::Number>,
    pub hide: bool,
    pub hide_legacy_format: bool,
    pub hide_as_list: bool,
}

impl View for PinNamesFast {
    type V = PinNames;

    open spec fn view(&self) -> PinNames {
        PinNames {
            offset: self.offset,
            hide: self.hide,
            hide_legacy_format: self.hide_legacy_format,
            hide_as_list: self.hide_as_list,
        }
    }
}

impl SexprEntity for PinNamesFast {
    open spec fn present_spec(children: Tokens) -> bool {
        PinNames::present_spec(children)
    }

    open spec fn parse_spec(children: Tokens) -> Result<PinNames, KiCadParseErrorView> {
        PinNames::parse_spec(children)
    }

    open spec fn legal_spec(children: Tokens) -> bool {
        PinNames::legal_spec(children)
    }

    open spec fn sexpr_spec(value: PinNames) -> SexprView {
        PinNames::sexpr_spec(value)
    }
}

impl<'a> FromSexprRef<'a> for PinNamesFast {
    fn from_sexpr_ref(parser: ParserRef<'a>) -> (r: Result<Self, KiCadParseError>) {
        let mut parser = parser;
        parser.expect_symbol_matching("pin_names")?;
        let offset = parser.optional_number_field("offset")?;
        let (hide, hide_legacy_format, hide_as_list) = if parser.maybe_symbol_matching("hide") {
            (true, true, false)
        } else {
            match parser.optional_bool_field("hide")? {
                Some(hide_value) => (hide_value, false, true),
                None => (false, false, false),
            }
        };
        parser.expect_end()?;
        Ok(PinNamesFast { offset, hide, hide_legacy_format, hide_as_list })
    }
}

impl<'a> MaybeFromSexprRef<'a> for PinNamesFast {
    fn is_present_ref(sexpr: &'a SexprList) -> (r: bool) {
        starts_with_symbol(sexpr, "pin_names")
    }
}

impl ToSexpr for PinNamesFast {
    fn to_sexpr(&self) -> (r: Sexpr) {
        self.into_regular().to_sexpr()
    }
}

impl IntoRegular for PinNamesFast {
    type Regular = PinNames;

    fn into_regular(self) -> (r: PinNames) {
        PinNames {
            offset: self.offset,
            hide: self.hide,
            hide_legacy_format: self.hide_legacy_format,
            hide_as_list: self.hide_as_list,
        }
    }
}

/// The borrowing path's sub-unit.
#[derive(Debug, Clone, PartialEq)]
pub struct LibSymbolSubUnitFast {
    pub id: UnitId,
    pub unit_name: Option<String>,
    pub graphic_items: Vec<LibSymbolGraphicsItem>,
    pub pins: Vec<Pin>,
}

impl View for LibSymbolSubUnitFast {
    type V = LibSymbolSubUnitView;

    open spec fn view(&self) -> LibSymbolSubUnitView {
        LibSymbolSubUnitView {
            id: self.id@,
            unit_name: opt_view(self.unit_name),
            graphic_items: seq_view(self.graphic_items@),
            pins: seq_view(self.pins@),
        }
    }
}

impl SexprEntity for LibSymbolSubUnitFast {
    open spec fn present_spec(children: Tokens) -> bool {
        LibSymbolSubUnit::present_spec(children)
    }

    open spec fn parse_spec(children: Tokens) -> Result<LibSymbolSubUnitView, KiCadParseErrorView> {
        LibSymbolSubUnit::parse_spec(children)
    }

    open spec fn legal_spec(children: Tokens) -> bool {
        LibSymbolSubUnit::legal_spec(children)
    }

    open spec fn sexpr_spec(value: LibSymbolSubUnitView) -> SexprView {
        LibSymbolSubUnit::sexpr_spec(value)
    }
}

impl<'a> FromSexprRef<'a> for LibSymbolSubUnitFast {
    fn from_sexpr_ref(parser: ParserRef<'a>) -> (r: Result<Self, KiCadParseError>) {
        let mut parser = parser;
        parser.expect_symbol_matching("symbol")?;
        let id_str = parser.expect_string()?;
        let id = UnitId::from_str(id_str);
        let unit_name = match parser.optional_string_field("unit_name")? {
            Some(s) => Some(String::from_str(s)),
            None => None,
        };
        let graphic_items = parser.expect_many::<LibSymbolGraphicsItem>()?;
        let pins = parser.expect_many::<Pin>()?;
        parser.expect_end()?;
        Ok(LibSymbolSubUnitFast { id, unit_name, graphic_items, pins })
    }
}

impl<'a> MaybeFromSexprRef<'a> for LibSymbolSubUnitFast {
    fn is_present_ref(sexpr: &'a SexprList) -> (r: bool) {
        starts_with_symbol(sexpr, "symbol")
    }
}

impl ToSexpr for LibSymbolSubUnitFast {
    fn to_sexpr(&self) -> (r: Sexpr) {
        sub_unit_to_sexpr(&self.id, &self.unit_name, &self.graphic_items, &self.pins)
    }
}

impl IntoRegular for LibSymbolSubUnitFast {
    type Regular = LibSymbolSubUnit;

    fn into_regular(self) -> (r: LibSymbolSubUnit) {
        LibSymbolSubUnit {
            id: self.id,
            unit_name: self.unit_name,
            graphic_items: self.graphic_items,
            pins: self.pins,
        }
    }
}

/// Each value read through the borrowing cursor converts to its counterpart
/// with the same model; which value of the counterpart type it is, beyond
/// its model, is left open.
impl From<SymbolLibraryFileFast> for SymbolLibraryFile {
    fn from(fast: SymbolLibraryFileFast) -> (r: Self)
        ensures
            r@ == fast@,
    {
        fast.into_regular()
    }
}

impl FromSpecImpl<SymbolLibraryFileFast> for SymbolLibraryFile {
    open spec fn obeys_from_spec() -> bool {
        false
    }

    open spec fn from_spec(v: SymbolLibraryFileFast) -> Self {
        arbitrary()
    }
}

impl From<SymbolDefinitionFast> for SymbolDefinition {
    fn from(fast: SymbolDefinitionFast) -> (r: Self)
        ensures
            r@ == fast@,
    {
        fast.into_regular()
    }
}

impl FromSpecImpl<SymbolDefinitionFast> for SymbolDefinition {
    open spec fn obeys_from_spec() -> bool {
        false
    }

    open spec fn from_spec(v: SymbolDefinitionFast) -> Self {
        arbitrary()
    }
}

impl From<LibSymbolFast> for LibSymbol {
    fn from(fast: LibSymbolFast) -> (r: Self)
        ensures
            r@ == fast@,
    {
        fast.into_regular()
    }
}

impl FromSpecImpl<LibSymbolFast> for LibSymbol {
    open spec fn obeys_from_spec() -> bool {
        false
    }

    open spec fn from_spec(v: LibSymbolFast) -> Self {
        arbitrary()
    }
}

impl From<DerivedLibSymbolFast> for DerivedLibSymbol {
    fn from(fast: DerivedLibSymbolFast) -> (r: Self)
        ensures
            r@ == fast@,
    {
        fast.into_regular()
    }
}

impl FromSpecImpl<DerivedLibSymbolFast> for DerivedLibSymbol {
    open spec fn obeys_from_spec() -> bool {
        false
    }

    open spec fn from_spec(v: DerivedLibSymbolFast) -> Self {
        arbitrary()
    }
}

impl From<SymbolPropertyFast> for SymbolProperty {
    fn from(fast: SymbolPropertyFast) -> (r: Self)
        ensures
            r@ == fast@,
    {
        fast.into_regular()
    }
}

impl FromSpecImpl<SymbolPropertyFast> for SymbolProperty {
    open spec fn obeys_from_spec() -> bool {
        false
    }

    open spec fn from_spec(v: SymbolPropertyFast) -> Self {
        arbitrary()
    }
}

impl From<PinNamesFast> for PinNames {
    fn from(fast: PinNamesFast) -> (r: Self)
        ensures
            r@ == fast@,
    {
        fast.into_regular()
    }
}

impl FromSpecImpl<PinNamesFast> for PinNames {
    open spec fn obeys_from_spec() -> bool {
        false
    }

    open spec fn from_spec(v: PinNamesFast) -> Self {
        arbitrary()
    }
}

impl From<LibSymbolSubUnitFast> for LibSymbolSubUnit {
    fn from(fast: LibSymbolSubUnitFast) -> (r: Self)
        ensures
            r@ == fast@,
    {
        fast.into_regular()
    }
}

impl FromSpecImpl<LibSymbolSubUnitFast> for LibSymbolSubUnit {
    open spec fn obeys_from_spec() -> bool {
        false
    }

    open spec fn from_spec(v: LibSymbolSubUnitFast) -> Self {
        arbitrary()
    }
}

/// Reads a symbol library from the token tree of a document, through the
/// borrowing cursor.
pub fn parse_symbol_library_file_fast(sexpr: &Sexpr) -> (r: Result<
    SymbolLibraryFileFast,
    KiCadParseError,
>)
    ensures
        parsed(r) == parse_document(sexpr@),
{
    match sexpr.as_list() {
        Some(list) => SymbolLibraryFileFast::from_sexpr_ref(ParserRef::new(list)),
        None => Err(KiCadParseError::UnexpectedSexprType { expected: SexprKind::List }),
    }
}

} // verus!

//! The symbol library format: `(kicad_symbol_lib ...)`.
//!
//! ```text
//! library = (kicad_symbol_lib (version NUMBER) (generator SYMBOL | STRING)
//!               [(generator_version STRING)] symbol*)
//! symbol  = root | derived
//! derived = (symbol STRING (extends STRING) property*)
//! ```
//!
//! The name of the generator is a bare symbol in older files and a quoted
//! string in newer ones; which it was is recorded and written back. A
//! `symbol` node is a derived symbol where a list named `extends` follows
//! its name, and a root symbol otherwise. The grammar of root symbols and of
//! what they hold is in [`crate::common::symbol`].

use crate::common::symbol::{
    optional_string_node, symbol_prefix, LibSymbol, LibSymbolView, LibraryId, LibraryIdView,
    SymbolProperty, SymbolPropertyView,
};
use crate::convert::{push_all, sexprs_of, FromSexpr, MaybeFromSexpr, Parser, ToSexpr};
use crate::cursor::{
    end_of_list, list_with_name, many, many_legal, number_field, optional_string_field,
    string_field, symbol_matching, wrong_kind, SexprEntity, Tokens,
};
use crate::error::{parsed, KiCadParseError, KiCadParseErrorView};
use crate::number::Number;
use crate::sexpr::{
    first_symbol_is, lemma_list_view, opt_view, seq_view, starts_with_symbol, Sexpr, SexprKind,
    SexprList, SexprView,
};
use vstd::prelude::*;

verus! {

broadcast use lemma_list_view;

/// A symbol library: its format version, the program that wrote it, and its
/// symbols.
#[derive(Debug, Clone, PartialEq)]
pub struct SymbolLibraryFile {
    /// The version of the format, a date written as one number.
    pub version: u32,
    /// The name of the program that wrote the file.
    pub generator: String,
    /// Whether the name of the generator was written as a quoted string, as
    /// newer files do, rather than as a bare symbol.
    pub generator_is_string: bool,
    /// The version of the generator, where newer files give one.
    pub generator_version: Option<String>,
    pub symbols: Vec<SymbolDefinition>,
}

/// The mathematical model of a symbol library.
pub struct SymbolLibraryFileView {
    pub version: u32,
    pub generator: Seq<char>,
    pub generator_is_string: bool,
    pub generator_version: Option<Seq<char>>,
    pub symbols: Seq<SymbolDefinitionView>,
}

impl View for SymbolLibraryFile {
    type V = SymbolLibraryFileView;

    open spec fn view(&self) -> SymbolLibraryFileView {
        SymbolLibraryFileView {
            version: self.version,
            generator: self.generator@,
            generator_is_string: self.generator_is_string,
            generator_version: opt_view(self.generator_version),
            symbols: seq_view(self.symbols@),
        }
    }
}

/// Reads the field `(generator NAME)`, where the name is a quoted string or
/// a bare symbol, and tells which of the two it was.
pub open spec fn generator_field(t: Tokens) -> (
    Result<(Seq<char>, bool), KiCadParseErrorView>,
    Tokens,
) {
    match list_with_name(t, "generator"@) {
        (Ok(inner), rest) => (
            if inner.len() == 0 {
                Err(KiCadParseErrorView::UnexpectedEndOfList)
            } else {
                match inner[0] {
                    SexprView::String(s) => match end_of_list(inner.skip(1)) {
                        Ok(_) => Ok((s, true)),
                        Err(e) => Err(e),
                    },
                    SexprView::Symbol(s) => match end_of_list(inner.skip(1)) {
                        Ok(_) => Ok((s, false)),
                        Err(e) => Err(e),
                    },
                    _ => Err(wrong_kind(SexprKind::String)),
                }
            },
            rest,
        ),
        (Err(e), rest) => (Err(e), rest),
    }
}

impl SymbolLibraryFileView {
    /// The node `(generator NAME)` in the spelling that was read.
    pub open spec fn generator_node(self) -> SexprView {
        generator_node(self.generator, self.generator_is_string)
    }

    /// The children of the node of `self`, keyword included.
    pub open spec fn children(self) -> Tokens {
        library_head_nodes(
            self.version,
            self.generator,
            self.generator_is_string,
            self.generator_version,
        ) + sexprs_of::<SymbolDefinition>(self.symbols)
    }
}

impl SexprEntity for SymbolLibraryFile {
    open spec fn present_spec(children: Tokens) -> bool {
        first_symbol_is(children, "kicad_symbol_lib"@)
    }

    open spec fn parse_spec(children: Tokens) -> Result<SymbolLibraryFileView, KiCadParseErrorView> {
        let keyword = symbol_matching(children, "kicad_symbol_lib"@);
        let version = number_field(keyword.1, "version"@);
        let generator = generator_field(version.1);
        let generator_version = optional_string_field(generator.1, "generator_version"@);
        let symbols = many::<SymbolDefinition>(generator_version.1);
        let end = end_of_list(symbols.1);
        if keyword.0 is Err {
            Err(keyword.0->Err_0)
        } else if version.0 is Err {
            Err(version.0->Err_0)
        } else if generator.0 is Err {
            Err(generator.0->Err_0)
        } else if generator_version.0 is Err {
            Err(generator_version.0->Err_0)
        } else if symbols.0 is Err {
            Err(symbols.0->Err_0)
        } else if end is Err {
            Err(end->Err_0)
        } else {
            Ok(
                SymbolLibraryFileView {
                    version: version.0->Ok_0.spec_as_u32(),
                    generator: generator.0->Ok_0.0,
                    generator_is_string: generator.0->Ok_0.1,
                    generator_version: generator_version.0->Ok_0,
                    symbols: symbols.0->Ok_0,
                },
            )
        }
    }

    open spec fn legal_spec(children: Tokens) -> bool {
        let keyword = symbol_matching(children, "kicad_symbol_lib"@);
        let version = number_field(keyword.1, "version"@);
        let generator = generator_field(version.1);
        let generator_version = optional_string_field(generator.1, "generator_version"@);
        &&& version.0 is Ok ==> version.0->Ok_0.is_whole_u32()
        &&& many_legal::<SymbolDefinition>(generator_version.1)
    }

    open spec fn sexpr_spec(value: SymbolLibraryFileView) -> SexprView {
        SexprView::List(value.children())
    }
}

impl FromSexpr for SymbolLibraryFile {
    fn from_sexpr(parser: Parser) -> (r: Result<Self, KiCadParseError>) {
        let mut parser = parser;
        parser.expect_symbol_matching("kicad_symbol_lib")?;
        let version = parser.number_field("version")?.as_u32();
        let mut gen_parser = parser.expect_list_with_name("generator")?;
        let kind = match gen_parser.peek_next() {
            Some(sexpr) => sexpr.kind(),
            None => {
                return Err(KiCadParseError::UnexpectedEndOfList);
            },
        };
        let (generator, generator_is_string) = match kind {
            SexprKind::String => {
                let s = gen_parser.expect_string()?;
                gen_parser.expect_end()?;
                (s, true)
            },
            SexprKind::Symbol => {
                let s = gen_parser.expect_symbol()?;
                gen_parser.expect_end()?;
                (s, false)
            },
            _ => {
                return Err(KiCadParseError::UnexpectedSexprType { expected: SexprKind::String });
            },
        };
        let generator_version = parser.optional_string_field("generator_version")?;
        let symbols = parser.expect_many::<SymbolDefinition>()?;
        parser.expect_end()?;
        Ok(
            SymbolLibraryFile {
                version,
                generator,
                generator_is_string,
                generator_version,
                symbols,
            },
        )
    }
}

/// The first nodes of a library with the given fields: keyword, version,
/// generator in the spelling that was recorded and, where there is one, the
/// generator's version.
pub open spec fn library_head_nodes(
    version: u32,
    generator: Seq<char>,
    generator_is_string: bool,
    generator_version: Option<Seq<char>>,
) -> Tokens {
    seq![
        SexprView::Symbol("kicad_symbol_lib"@),
        SexprView::named(
            "version"@,
            seq![SexprView::Number(Number::spec_from_int(version as int))],
        ),
        generator_node(generator, generator_is_string),
    ] + optional_string_node("generator_version"@, generator_version)
}

/// The node `(generator NAME)` with the name as a quoted string or as a bare
/// symbol.
pub open spec fn generator_node(generator: Seq<char>, generator_is_string: bool) -> SexprView {
    SexprView::named(
        "generator"@,
        seq![
            if generator_is_string {
                SexprView::String(generator)
            } else {
                SexprView::Symbol(generator)
            },
        ],
    )
}

/// The first nodes of a library with the given fields.
pub fn library_head(
    version: u32,
    generator: &str,
    generator_is_string: bool,
    generator_version: &Option<String>,
) -> (items: Vec<Sexpr>)
    ensures
        seq_view(items@) == library_head_nodes(
            version,
            generator@,
            generator_is_string,
            opt_view(*generator_version),
        ),
{
    let mut items: Vec<Sexpr> = vec![
        Sexpr::symbol("kicad_symbol_lib"),
        Sexpr::number_with_name("version", Number::from_u32(version)),
        if generator_is_string {
            Sexpr::string_with_name("generator", generator)
        } else {
            Sexpr::symbol_with_name("generator", generator)
        },
    ];
    match generator_version {
        Some(v) => {
            items.push(Sexpr::string_with_name("generator_version", v.as_str()));
        },
        None => {},
    }
    assert(seq_view(items@) =~= library_head_nodes(
        version,
        generator@,
        generator_is_string,
        opt_view(*generator_version),
    ));
    items
}

impl ToSexpr for SymbolLibraryFile {
    fn to_sexpr(&self) -> (r: Sexpr) {
        let mut items = library_head(
            self.version,
            self.generator.as_str(),
            self.generator_is_string,
            &self.generator_version,
        );
        push_all(&mut items, &self.symbols);
        assert(seq_view(items@) == self@.children());
        Sexpr::List(items)
    }
}

/// A symbol of a library: one that stands on its own, or one derived from
/// another.
#[derive(Debug, Clone, PartialEq)]
pub enum SymbolDefinition {
    RootSymbol(LibSymbol),
    DerivedSymbol(DerivedLibSymbol),
}

/// The mathematical model of a symbol definition.
pub enum SymbolDefinitionView {
    RootSymbol(LibSymbolView),
    DerivedSymbol(DerivedLibSymbolView),
}

impl View for SymbolDefinition {
    type V = SymbolDefinitionView;

    open spec fn view(&self) -> SymbolDefinitionView {
        match self {
            SymbolDefinition::RootSymbol(s) => SymbolDefinitionView::RootSymbol(s@),
            SymbolDefinition::DerivedSymbol(s) => SymbolDefinitionView::DerivedSymbol(s@),
        }
    }
}

/// Whether the children of a `symbol` node are those of a derived symbol:
/// whether a list named `extends` stands right after keyword and name.
pub open spec fn is_derived(children: Tokens) -> bool {
    children.len() > 2 && children[2].is_list_named("extends"@)
}

impl SexprEntity for SymbolDefinition {
    open spec fn present_spec(children: Tokens) -> bool {
        first_symbol_is(children, "symbol"@)
    }

    open spec fn parse_spec(children: Tokens) -> Result<SymbolDefinitionView, KiCadParseErrorView> {
        if is_derived(children) {
            match DerivedLibSymbol::parse_spec(children) {
                Ok(s) => Ok(SymbolDefinitionView::DerivedSymbol(s)),
                Err(e) => Err(e),
            }
        } else {
            match LibSymbol::parse_spec(children) {
                Ok(s) => Ok(SymbolDefinitionView::RootSymbol(s)),
                Err(e) => Err(e),
            }
        }
    }

    open spec fn legal_spec(children: Tokens) -> bool {
        if is_derived(children) {
            DerivedLibSymbol::legal_spec(children)
        } else {
            LibSymbol::legal_spec(children)
        }
    }

    open spec fn sexpr_spec(value: SymbolDefinitionView) -> SexprView {
        match value {
            SymbolDefinitionView::RootSymbol(s) => LibSymbol::sexpr_spec(s),
            SymbolDefinitionView::DerivedSymbol(s) => DerivedLibSymbol::sexpr_spec(s),
        }
    }
}

impl FromSexpr for SymbolDefinition {
    /// Root and derived symbols begin alike. The cursor is copied first;
    /// keyword and name are read from the live cursor and the `extends` node
    /// is looked for. Where it is there, the live cursor goes on as a
    /// derived symbol; where it is not, the copy is read from its start as a
    /// root symbol.
    fn from_sexpr(parser: Parser) -> (r: Result<Self, KiCadParseError>) {
        let snapshot = parser.clone();
        let mut parser = parser;
        let id = LibSymbol::read_prefix(&mut parser)?;
        if parser.at_list_with_name("extends") {
            let derived = DerivedLibSymbol::read_body(parser, id)?;
            Ok(SymbolDefinition::DerivedSymbol(derived))
        } else {
            let root = LibSymbol::from_sexpr(snapshot)?;
            Ok(SymbolDefinition::RootSymbol(root))
        }
    }
}

impl MaybeFromSexpr for SymbolDefinition {
    fn is_present(sexpr: &SexprList) -> (r: bool) {
        starts_with_symbol(sexpr, "symbol")
    }
}

impl ToSexpr for SymbolDefinition {
    fn to_sexpr(&self) -> (r: Sexpr) {
        match self {
            SymbolDefinition::RootSymbol(symbol) => symbol.to_sexpr(),
            SymbolDefinition::DerivedSymbol(symbol) => symbol.to_sexpr(),
        }
    }
}

/// A symbol derived from another symbol of the library, which it names and
/// whose properties it overrides. The name is kept as a name: which symbol
/// it refers to is for others to find out.
#[derive(Debug, Clone, PartialEq)]
pub struct DerivedLibSymbol {
    pub id: LibraryId,
    pub extends: String,
    pub properties: Vec<SymbolProperty>,
}

/// The mathematical model of a derived symbol.
pub struct DerivedLibSymbolView {
    pub id: LibraryIdView,
    pub extends: Seq<char>,
    pub properties: Seq<SymbolPropertyView>,
}

impl View for DerivedLibSymbol {
    type V = DerivedLibSymbolView;

    open spec fn view(&self) -> DerivedLibSymbolView {
        DerivedLibSymbolView {
            id: self.id@,
            extends: self.extends@,
            properties: seq_view(self.properties@),
        }
    }
}

impl DerivedLibSymbolView {
    /// What reading the children of a derived symbol after keyword and name
    /// yields, the name having been read as `id`.
    pub open spec fn parse_body(id: LibraryIdView, t: Tokens) -> Result<
        DerivedLibSymbolView,
        KiCadParseErrorView,
    > {
        let extends = string_field(t, "extends"@);
        let properties = many::<SymbolProperty>(extends.1);
        let end = end_of_list(properties.1);
        if extends.0 is Err {
            Err(extends.0->Err_0)
        } else if properties.0 is Err {
            Err(properties.0->Err_0)
        } else if end is Err {
            Err(end->Err_0)
        } else {
            Ok(
                DerivedLibSymbolView {
                    id,
                    extends: extends.0->Ok_0,
                    properties: properties.0->Ok_0,
                },
            )
        }
    }

    /// The children of the node of `self`, keyword included.
    pub open spec fn children(self) -> Tokens {
        seq![
            SexprView::Symbol("symbol"@),
            SexprView::String(self.id.text()),
            SexprView::named("extends"@, seq![SexprView::String(self.extends)]),
        ] + sexprs_of::<SymbolProperty>(self.properties)
    }
}

impl SexprEntity for DerivedLibSymbol {
    open spec fn present_spec(children: Tokens) -> bool {
        first_symbol_is(children, "symbol"@)
    }

    open spec fn parse_spec(children: Tokens) -> Result<DerivedLibSymbolView, KiCadParseErrorView> {
        match symbol_prefix(children) {
            (Ok(id), rest) => DerivedLibSymbolView::parse_body(id, rest),
            (Err(e), _) => Err(e),
        }
    }

    open spec fn legal_spec(children: Tokens) -> bool {
        let extends = string_field(symbol_prefix(children).1, "extends"@);
        many_legal::<SymbolProperty>(extends.1)
    }

    open spec fn sexpr_spec(value: DerivedLibSymbolView) -> SexprView {
        SexprView::List(value.children())
    }
}

impl DerivedLibSymbol {
    /// Reads the children of a derived symbol that follow keyword and name.
    pub fn read_body(parser: Parser, id: LibraryId) -> (r: Result<
        DerivedLibSymbol,
        KiCadParseError,
    >)
        ensures
            parsed(r) == DerivedLibSymbolView::parse_body(id@, parser@),
    {
        let mut parser = parser;
        let extends = parser.string_field("extends")?;
        let properties = parser.expect_many::<SymbolProperty>()?;
        parser.expect_end()?;
        Ok(DerivedLibSymbol { id, extends, properties })
    }
}

impl FromSexpr for DerivedLibSymbol {
    fn from_sexpr(parser: Parser) -> (r: Result<Self, KiCadParseError>) {
        let mut parser = parser;
        let id = LibSymbol::read_prefix(&mut parser)?;
        DerivedLibSymbol::read_body(parser, id)
    }
}

/// The first nodes of a derived symbol: keyword, name and `extends`.
pub fn derived_head(id: &LibraryId, extends: &str) -> (items: Vec<Sexpr>)
    ensures
        seq_view(items@) == seq![
            SexprView::Symbol("symbol"@),
            SexprView::String(id@.text()),
            SexprView::named("extends"@, seq![SexprView::String(extends@)]),
        ],
{
    let items: Vec<Sexpr> = vec![
        Sexpr::symbol("symbol"),
        id.to_sexpr(),
        Sexpr::string_with_name("extends", extends),
    ];
    assert(seq_view(items@) =~= seq![
        SexprView::Symbol("symbol"@),
        SexprView::String(id@.text()),
        SexprView::named("extends"@, seq![SexprView::String(extends@)]),
    ]);
    items
}

impl ToSexpr for DerivedLibSymbol {
    fn to_sexpr(&self) -> (r: Sexpr) {
        let mut items = derived_head(&self.id, self.extends.as_str());
        push_all(&mut items, &self.properties);
        Sexpr::List(items)
    }
}

/// What reading a whole document yields: the tree must be a list, and its
/// children are read as a symbol library.
pub open spec fn parse_document(tree: SexprView) -> Result<
    SymbolLibraryFileView,
    KiCadParseErrorView,
> {
    match tree {
        SexprView::List(children) => SymbolLibraryFile::parse_spec(children),
        _ => Err(wrong_kind(SexprKind::List)),
    }
}

/// Reads a symbol library from the token tree of a document, through the
/// owning cursor.
pub fn parse_symbol_library_file(sexpr: Sexpr) -> (r: Result<SymbolLibraryFile, KiCadParseError>)
    ensures
        parsed(r) == parse_document(sexpr@),
{
    match sexpr {
        Sexpr::List(list) => SymbolLibraryFile::from_sexpr(Parser::new(list)),
        _ => Err(KiCadParseError::UnexpectedSexprType { expected: SexprKind::List }),
    }
}

} // verus!

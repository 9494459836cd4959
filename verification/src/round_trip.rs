//! What is written is read back: the laws that tie the serializer to the
//! grammar.
//!
//! The first part states, for each way of reading a field, that it reads back
//! what the matching way of writing produced, whatever follows. The second
//! part puts these together entity by entity, up to the whole library.

use crate::common::symbol::{
    colon_index, flag_node, optional_bool_node, optional_string_node, pin_numbers_field,
    symbol_prefix, GraphicsKind, LibSymbol, LibSymbolGraphicsItem, LibSymbolGraphicsItemView,
    LibSymbolSubUnit, LibSymbolSubUnitView, LibSymbolView, LibraryIdView, Pin, PinNames, PinView,
    SymbolProperty, SymbolPropertyView,
};
use crate::common::{Position, TextEffects, TextEffectsView};
use crate::convert::sexprs_of;
use crate::cursor::{
    at_entity, at_list_named, bool_field, bool_of, entity, flag_field, list_with_name, many,
    maybe_entity, maybe_list_with_name, next_token, number_field, optional_bool_field,
    optional_number_field, optional_string_field, string_field, string_token, symbol_matching,
    yes_no_of, SexprEntity, Tokens,
};
use crate::error::KiCadParseErrorView;
use crate::number::{
    lemma_as_i32_is_stable, lemma_as_u32_is_stable, lemma_small_integers_are_exact, Number,
};
use crate::sexpr::SexprView;
use crate::symbol_library::{
    generator_field, is_derived, parse_document, DerivedLibSymbol, DerivedLibSymbolView,
    SymbolDefinition, SymbolDefinitionView, SymbolLibraryFile, SymbolLibraryFileView,
};
use crate::symbol_library_fast::{SymbolDefinitionFast, SymbolLibraryFileFast};
use vstd::prelude::*;

verus! {

/// The node `(name value)` where a number is given, and nothing where none
/// is.
pub open spec fn optional_number_node(name: Seq<char>, value: Option<Number>) -> Tokens {
    match value {
        Some(n) => seq![SexprView::named(name, seq![SexprView::Number(n)])],
        None => Seq::empty(),
    }
}

/// Whether reading the node of `value` yields `value` again, and the node is
/// one that the entity takes for its own.
pub open spec fn reads_back<T: SexprEntity>(value: T::V) -> bool {
    &&& T::sexpr_spec(value) is List
    &&& T::present_spec(T::sexpr_spec(value)->List_0)
    &&& T::parse_spec(T::sexpr_spec(value)->List_0) == Ok::<T::V, KiCadParseErrorView>(value)
}

/// A token put before others is the next token, and the others follow it.
pub proof fn lemma_first(x: SexprView, tail: Tokens)
    ensures
        (seq![x] + tail).len() > 0,
        (seq![x] + tail)[0] == x,
        (seq![x] + tail).skip(1) == tail,
        next_token(seq![x] + tail) == (Ok::<SexprView, KiCadParseErrorView>(x), tail),
{
    assert((seq![x] + tail).skip(1) =~= tail);
}

/// The list `(name child...)` is a list named `name`, and of no other name;
/// after the name come its children.
pub proof fn lemma_named(name: Seq<char>, children: Tokens, tail: Tokens)
    ensures
        SexprView::named(name, children) is List,
        forall|other: Seq<char>| #[trigger]
            SexprView::named(name, children).is_list_named(other) == (other == name),
        forall|other: Seq<char>| #[trigger]
            at_list_named(seq![SexprView::named(name, children)] + tail, other) == (other == name),
        list_with_name(seq![SexprView::named(name, children)] + tail, name) == (
            Ok::<Tokens, KiCadParseErrorView>(children),
            tail,
        ),
        maybe_list_with_name(seq![SexprView::named(name, children)] + tail, name) == (
            Some(children),
            tail,
        ),
{
    let node = SexprView::named(name, children);
    lemma_first(node, tail);
    lemma_first(SexprView::Symbol(name), children);
    assert(node->List_0 == seq![SexprView::Symbol(name)] + children);
    assert forall|other: Seq<char>| #[trigger] node.is_list_named(other) == (other == name) by {}
}

/// A flag that was written is read as present, and one that was not, as
/// absent, provided that what follows is no list of the flag's name.
pub proof fn lemma_flag_field(name: Seq<char>, present: bool, tail: Tokens)
    requires
        !present ==> !at_list_named(tail, name),
    ensures
        flag_field(flag_node(name, present) + tail, name) == (
            Ok::<bool, KiCadParseErrorView>(present),
            tail,
        ),
{
    if present {
        lemma_named(name, Seq::empty(), tail);
    } else {
        assert(flag_node(name, present) + tail =~= tail);
    }
}

/// The field `(name "value")` is read back.
pub proof fn lemma_string_field(name: Seq<char>, value: Seq<char>, tail: Tokens)
    ensures
        string_field(seq![SexprView::named(name, seq![SexprView::String(value)])] + tail, name)
            == (Ok::<Seq<char>, KiCadParseErrorView>(value), tail),
{
    let inner = seq![SexprView::String(value)];
    lemma_named(name, inner, tail);
    assert(inner.skip(1) =~= Seq::<SexprView>::empty());
}

/// An optional field `(name "value")` is read back, provided that, where it
/// is absent, what follows is no list of its name.
pub proof fn lemma_optional_string_field(name: Seq<char>, value: Option<Seq<char>>, tail: Tokens)
    requires
        value is None ==> !at_list_named(tail, name),
    ensures
        optional_string_field(optional_string_node(name, value) + tail, name) == (
            Ok::<Option<Seq<char>>, KiCadParseErrorView>(value),
            tail,
        ),
{
    match value {
        Some(s) => {
            lemma_string_field(name, s, tail);
            lemma_named(name, seq![SexprView::String(s)], tail);
        },
        None => {
            assert(optional_string_node(name, value) + tail =~= tail);
        },
    }
}

/// The field `(name value)` with a number for its value is read back.
pub proof fn lemma_number_field(name: Seq<char>, value: Number, tail: Tokens)
    ensures
        number_field(seq![SexprView::named(name, seq![SexprView::Number(value)])] + tail, name)
            == (Ok::<Number, KiCadParseErrorView>(value), tail),
{
    let inner = seq![SexprView::Number(value)];
    lemma_named(name, inner, tail);
    assert(inner.skip(1) =~= Seq::<SexprView>::empty());
}

/// An optional field `(name value)` with a number for its value is read
/// back, provided that, where it is absent, what follows is no list of its
/// name.
pub proof fn lemma_optional_number_field(name: Seq<char>, value: Option<Number>, tail: Tokens)
    requires
        value is None ==> !at_list_named(tail, name),
    ensures
        optional_number_field(optional_number_node(name, value) + tail, name) == (
            Ok::<Option<Number>, KiCadParseErrorView>(value),
            tail,
        ),
{
    match value {
        Some(n) => {
            lemma_number_field(name, n, tail);
            lemma_named(name, seq![SexprView::Number(n)], tail);
        },
        None => {
            assert(optional_number_node(name, value) + tail =~= tail);
        },
    }
}

/// `yes` and `no` spell the two truth values, in the wide vocabulary and in
/// the narrow one.
pub proof fn lemma_yes_no(value: bool)
    ensures
        SexprView::yes_no(value) is Symbol,
        bool_of(SexprView::yes_no(value)->Symbol_0) == Ok::<bool, KiCadParseErrorView>(value),
        yes_no_of(SexprView::yes_no(value)->Symbol_0) == Ok::<bool, KiCadParseErrorView>(value),
{
    lemma_keywords();
}

/// The field `(name yes)` or `(name no)` is read back.
pub proof fn lemma_bool_field(name: Seq<char>, value: bool, tail: Tokens)
    ensures
        bool_field(seq![SexprView::named(name, seq![SexprView::yes_no(value)])] + tail, name) == (
            Ok::<bool, KiCadParseErrorView>(value),
            tail,
        ),
{
    let inner = seq![SexprView::yes_no(value)];
    lemma_named(name, inner, tail);
    lemma_yes_no(value);
    assert(inner.skip(1) =~= Seq::<SexprView>::empty());
}

/// An optional field `(name yes)` or `(name no)` is read back, provided
/// that, where it is absent, what follows is no list of its name.
pub proof fn lemma_optional_bool_field(name: Seq<char>, value: Option<bool>, tail: Tokens)
    requires
        value is None ==> !at_list_named(tail, name),
    ensures
        optional_bool_field(optional_bool_node(name, value) + tail, name) == (
            Ok::<Option<bool>, KiCadParseErrorView>(value),
            tail,
        ),
{
    match value {
        Some(b) => {
            let inner = seq![SexprView::yes_no(b)];
            lemma_named(name, inner, tail);
            lemma_yes_no(b);
            assert(inner.skip(1) =~= Seq::<SexprView>::empty());
        },
        None => {
            assert(optional_bool_node(name, value) + tail =~= tail);
        },
    }
}

/// A node that reads back is read back whatever follows it.
pub proof fn lemma_entity<T: SexprEntity>(value: T::V, tail: Tokens)
    requires
        reads_back::<T>(value),
    ensures
        entity::<T>(seq![T::sexpr_spec(value)] + tail) == (
            Ok::<T::V, KiCadParseErrorView>(value),
            tail,
        ),
        maybe_entity::<T>(seq![T::sexpr_spec(value)] + tail) == (
            Ok::<Option<T::V>, KiCadParseErrorView>(Some(value)),
            tail,
        ),
        at_entity::<T>(seq![T::sexpr_spec(value)] + tail),
{
    lemma_first(T::sexpr_spec(value), tail);
}

/// Nodes that read back are read back as a sequence, provided that what
/// follows them is no node of the same entity.
pub proof fn lemma_many<T: SexprEntity>(values: Seq<T::V>, tail: Tokens)
    requires
        forall|i: int| 0 <= i < values.len() ==> reads_back::<T>(#[trigger] values[i]),
        !at_entity::<T>(tail),
    ensures
        many::<T>(sexprs_of::<T>(values) + tail) == (
            Ok::<Seq<T::V>, KiCadParseErrorView>(values),
            tail,
        ),
    decreases values.len(),
{
    let t = sexprs_of::<T>(values) + tail;
    if values.len() == 0 {
        assert(t =~= tail);
        assert(values =~= Seq::<T::V>::empty());
    } else {
        let first = values[0];
        let rest = values.skip(1);
        assert(reads_back::<T>(first));
        assert(t =~= seq![T::sexpr_spec(first)] + (sexprs_of::<T>(rest) + tail));
        lemma_entity::<T>(first, sexprs_of::<T>(rest) + tail);
        assert forall|i: int| 0 <= i < rest.len() implies reads_back::<T>(#[trigger] rest[i]) by {
            assert(rest[i] == values[i + 1]);
        }
        lemma_many::<T>(rest, tail);
        assert(seq![first] + rest =~= values);
    }
}

/// Whether `s` has the given length and first two characters.
pub open spec fn spelled(s: Seq<char>, len: nat, first: char, second: char) -> bool {
    s.len() == len && s[0] == first && s[1] == second
}

/// The length and the first two characters of each keyword of the format.
/// No two keywords agree in all three, so they are all different words.
pub proof fn lemma_keywords()
    ensures
        spelled("symbol"@, 6, 's', 'y'),
        spelled("property"@, 8, 'p', 'r'),
        spelled("pin"@, 3, 'p', 'i'),
        spelled("pin_names"@, 9, 'p', 'i'),
        spelled("pin_numbers"@, 11, 'p', 'i'),
        spelled("power"@, 5, 'p', 'o'),
        spelled("exclude_from_sim"@, 16, 'e', 'x'),
        spelled("in_bom"@, 6, 'i', 'n'),
        spelled("on_board"@, 8, 'o', 'n'),
        spelled("embedded_fonts"@, 14, 'e', 'm'),
        spelled("extends"@, 7, 'e', 'x'),
        spelled("unit_name"@, 9, 'u', 'n'),
        spelled("id"@, 2, 'i', 'd'),
        spelled("at"@, 2, 'a', 't'),
        spelled("show_name"@, 9, 's', 'h'),
        spelled("do_not_autoplace"@, 16, 'd', 'o'),
        spelled("effects"@, 7, 'e', 'f'),
        spelled("offset"@, 6, 'o', 'f'),
        spelled("hide"@, 4, 'h', 'i'),
        spelled("yes"@, 3, 'y', 'e'),
        spelled("no"@, 2, 'n', 'o'),
        spelled("true"@, 4, 't', 'r'),
        spelled("false"@, 5, 'f', 'a'),
        spelled("version"@, 7, 'v', 'e'),
        spelled("generator"@, 9, 'g', 'e'),
        spelled("generator_version"@, 17, 'g', 'e'),
        spelled("kicad_symbol_lib"@, 16, 'k', 'i'),
        spelled("arc"@, 3, 'a', 'r'),
        spelled("bezier"@, 6, 'b', 'e'),
        spelled("circle"@, 6, 'c', 'i'),
        spelled("polyline"@, 8, 'p', 'o'),
        spelled("rectangle"@, 9, 'r', 'e'),
        spelled("text"@, 4, 't', 'e'),
{
    reveal_strlit("symbol");
    reveal_strlit("property");
    reveal_strlit("pin");
    reveal_strlit("pin_names");
    reveal_strlit("pin_numbers");
    reveal_strlit("power");
    reveal_strlit("exclude_from_sim");
    reveal_strlit("in_bom");
    reveal_strlit("on_board");
    reveal_strlit("embedded_fonts");
    reveal_strlit("extends");
    reveal_strlit("unit_name");
    reveal_strlit("id");
    reveal_strlit("at");
    reveal_strlit("show_name");
    reveal_strlit("do_not_autoplace");
    reveal_strlit("effects");
    reveal_strlit("offset");
    reveal_strlit("hide");
    reveal_strlit("yes");
    reveal_strlit("no");
    reveal_strlit("true");
    reveal_strlit("false");
    reveal_strlit("version");
    reveal_strlit("generator");
    reveal_strlit("generator_version");
    reveal_strlit("kicad_symbol_lib");
    reveal_strlit("arc");
    reveal_strlit("bezier");
    reveal_strlit("circle");
    reveal_strlit("polyline");
    reveal_strlit("rectangle");
    reveal_strlit("text");
}

/// A position is read back.
pub proof fn lemma_position(value: Position)
    ensures
        reads_back::<Position>(value),
{
    let c = Position::children_spec(value);
    match value.angle {
        Some(a) => {
            lemma_small_integers_are_exact(a as int);
            assert(c =~= seq![
                SexprView::Symbol("at"@),
                SexprView::Number(value.x),
                SexprView::Number(value.y),
                SexprView::Number(Number::spec_from_int(a as int)),
            ]);
            assert(c.skip(1).skip(1).skip(1).skip(1) =~= Seq::<SexprView>::empty());
        },
        None => {
            assert(c =~= seq![
                SexprView::Symbol("at"@),
                SexprView::Number(value.x),
                SexprView::Number(value.y),
            ]);
            assert(c.skip(1).skip(1).skip(1) =~= Seq::<SexprView>::empty());
        },
    }
}

/// Text effects are read back.
pub proof fn lemma_text_effects(value: TextEffectsView)
    ensures
        reads_back::<TextEffects>(value),
{
    lemma_first(SexprView::Symbol("effects"@), value.items);
}

/// A pin is read back.
pub proof fn lemma_pin(value: PinView)
    ensures
        reads_back::<Pin>(value),
{
    lemma_first(SexprView::Symbol("pin"@), value.items);
}

/// The keywords of the shapes are six different words, and none of them is
/// another keyword of a symbol.
pub proof fn lemma_graphics_keywords(kind: GraphicsKind)
    ensures
        GraphicsKind::of_keyword(kind.keyword_spec()) == Some(kind),
        GraphicsKind::of_keyword("pin"@) is None,
        GraphicsKind::of_keyword("symbol"@) is None,
        GraphicsKind::of_keyword("embedded_fonts"@) is None,
        kind.keyword_spec() != "pin"@,
        kind.keyword_spec() != "symbol"@,
        kind.keyword_spec() != "property"@,
        kind.keyword_spec() != "unit_name"@,
        kind.keyword_spec() != "embedded_fonts"@,
{
    lemma_keywords();
}

/// A shape is read back.
pub proof fn lemma_graphics_item(value: LibSymbolGraphicsItemView)
    ensures
        reads_back::<LibSymbolGraphicsItem>(value),
{
    lemma_graphics_keywords(value.kind);
    lemma_first(SexprView::Symbol(value.kind.keyword_spec()), value.items);
}

impl PinNames {
    /// Whether the value is one that reading yields. The names are hidden in
    /// the old spelling by the bare symbol, and then no list was written;
    /// they are hidden otherwise by a list; and shown they come with a list
    /// or without one.
    pub open spec fn wf(self) -> bool {
        &&& self.hide_legacy_format ==> self.hide && !self.hide_as_list
        &&& self.hide && !self.hide_legacy_format ==> self.hide_as_list
    }
}

/// Pin names are read back, in the spelling that was recorded: hidden by the
/// bare symbol, hidden by `(hide yes)`, shown with `(hide no)`, or shown with
/// nothing said.
pub proof fn lemma_pin_names(value: PinNames)
    requires
        value.wf(),
    ensures
        reads_back::<PinNames>(value),
{
    lemma_keywords();
    let c = PinNames::children_spec(value);
    let hide_part = PinNames::hide_nodes(value);
    let after_keyword = optional_number_node("offset"@, value.offset) + hide_part;
    assert(c =~= seq![SexprView::Symbol("pin_names"@)] + after_keyword);
    lemma_first(SexprView::Symbol("pin_names"@), after_keyword);
    assert(value.offset is None ==> !at_list_named(hide_part, "offset"@));
    lemma_optional_number_field("offset"@, value.offset, hide_part);
    if value.hide_legacy_format {
        assert(hide_part.skip(1) =~= Seq::<SexprView>::empty());
    } else if value.hide_as_list {
        assert(hide_part =~= optional_bool_node("hide"@, Some(value.hide)) + Seq::<
            SexprView,
        >::empty());
        lemma_optional_bool_field("hide"@, Some(value.hide), Seq::empty());
    } else {
        lemma_optional_bool_field("hide"@, None, Seq::empty());
        assert(hide_part =~= optional_bool_node("hide"@, None) + Seq::<SexprView>::empty());
    }
}

impl SymbolPropertyView {
    /// Whether the value is one that reading yields: the old numeric id, if
    /// there is one, is what the number written for it converts back to.
    pub open spec fn wf(self) -> bool {
        self.legacy_id is Some ==> Number::spec_from_int(
            self.legacy_id->Some_0 as int,
        ).spec_as_i32() == self.legacy_id->Some_0
    }
}

/// A property is read back, with or without the old numeric id.
pub proof fn lemma_property(value: SymbolPropertyView)
    requires
        value.wf(),
    ensures
        reads_back::<SymbolProperty>(value),
{
    lemma_keywords();
    let id_number: Option<Number> = match value.legacy_id {
        Some(id) => Some(Number::spec_from_int(id as int)),
        None => None,
    };
    let t_effects = seq![TextEffects::sexpr_spec(value.effects)] + Seq::<SexprView>::empty();
    let t_autoplace = flag_node("do_not_autoplace"@, value.do_not_autoplace) + t_effects;
    let t_show = flag_node("show_name"@, value.show_name) + t_autoplace;
    let t_position = seq![Position::sexpr_spec(value.position)] + t_show;
    let t_id = optional_number_node("id"@, id_number) + t_position;
    let t_value = seq![SexprView::String(value.value)] + t_id;
    let t_key = seq![SexprView::String(value.key)] + t_value;
    let c = value.children();
    assert(c =~= seq![SexprView::Symbol("property"@)] + t_key);
    lemma_first(SexprView::Symbol("property"@), t_key);
    lemma_first(SexprView::String(value.key), t_value);
    lemma_first(SexprView::String(value.value), t_id);
    lemma_first(Position::sexpr_spec(value.position), t_show);
    assert(!at_list_named(t_position, "id"@));
    lemma_optional_number_field("id"@, id_number, t_position);
    lemma_position(value.position);
    lemma_entity::<Position>(value.position, t_show);
    lemma_first(TextEffects::sexpr_spec(value.effects), Seq::empty());
    assert(!at_list_named(t_effects, "do_not_autoplace"@));
    assert(!at_list_named(t_effects, "show_name"@));
    assert(!value.do_not_autoplace ==> t_autoplace =~= t_effects);
    assert(value.do_not_autoplace ==> t_autoplace[0] == SexprView::named(
        "do_not_autoplace"@,
        Seq::empty(),
    ));
    assert(!at_list_named(t_autoplace, "show_name"@));
    lemma_flag_field("show_name"@, value.show_name, t_autoplace);
    lemma_flag_field("do_not_autoplace"@, value.do_not_autoplace, t_effects);
    lemma_text_effects(value.effects);
    lemma_entity::<TextEffects>(value.effects, Seq::empty());
}

/// The name of the list that `t` begins with, where it begins with a list
/// that begins with a symbol.
pub open spec fn head_name(t: Tokens) -> Option<Seq<char>> {
    if t.len() > 0 && t[0] is List && t[0]->List_0.len() > 0 && t[0]->List_0[0] is Symbol {
        Some(t[0]->List_0[0]->Symbol_0)
    } else {
        None
    }
}

/// What the nodes of a sequence of values, followed by `tail`, begin with:
/// the node of the first value, or `tail` itself where there is no value.
pub proof fn lemma_sexprs_head<T: SexprEntity>(values: Seq<T::V>, tail: Tokens)
    ensures
        values.len() > 0 ==> (sexprs_of::<T>(values) + tail).len() > 0 && (sexprs_of::<T>(values)
            + tail)[0] == T::sexpr_spec(values[0]),
        values.len() == 0 ==> sexprs_of::<T>(values) + tail == tail,
{
    if values.len() == 0 {
        assert(sexprs_of::<T>(values) + tail =~= tail);
    }
}

/// An identifier of two well-formed parts is read back from its text.
pub proof fn lemma_library_id(id: LibraryIdView)
    requires
        id.wf(),
    ensures
        LibraryIdView::parse(id.text()) == Ok::<LibraryIdView, KiCadParseErrorView>(id),
{
    let text = id.text();
    let n = id.library.len() as int;
    assert(text.len() == n + 1 + id.name.len());
    assert(text[n] == ':');
    lemma_colon_index(text, n, 0);
    assert(text.take(n) =~= id.library);
    assert(text.skip(n + 1) =~= id.name);
}

/// Where no colon stands before index `at`, and one stands at it, the first
/// colon at or after any earlier index is the one at `at`.
pub proof fn lemma_colon_index(s: Seq<char>, at: int, from: int)
    requires
        0 <= from <= at < s.len(),
        s[at] == ':',
        forall|j: int| 0 <= j < at ==> s[j] != ':',
    ensures
        colon_index(s, from) == at,
    decreases at - from,
{
    if from < at {
        lemma_colon_index(s, at, from + 1);
    }
}

/// A sub-unit is read back.
pub proof fn lemma_sub_unit(value: LibSymbolSubUnitView)
    ensures
        reads_back::<LibSymbolSubUnit>(value),
{
    lemma_keywords();
    let t_pins = sexprs_of::<Pin>(value.pins) + Seq::<SexprView>::empty();
    let t_graphics = sexprs_of::<LibSymbolGraphicsItem>(value.graphic_items) + t_pins;
    let t_name = optional_string_node("unit_name"@, value.unit_name) + t_graphics;
    let t_id = seq![SexprView::String(value.id)] + t_name;
    let c = value.children();
    assert(c =~= seq![SexprView::Symbol("symbol"@)] + t_id);
    lemma_first(SexprView::Symbol("symbol"@), t_id);
    lemma_first(SexprView::String(value.id), t_name);
    lemma_sexprs_head::<Pin>(value.pins, Seq::empty());
    lemma_sexprs_head::<LibSymbolGraphicsItem>(value.graphic_items, t_pins);
    if value.graphic_items.len() > 0 {
        lemma_graphics_keywords(value.graphic_items[0].kind);
    }
    lemma_graphics_keywords(GraphicsKind::Arc);
    assert(!at_list_named(t_graphics, "unit_name"@));
    lemma_optional_string_field("unit_name"@, value.unit_name, t_graphics);
    assert(!at_entity::<LibSymbolGraphicsItem>(t_pins));
    assert forall|i: int| 0 <= i < value.graphic_items.len() implies reads_back::<
        LibSymbolGraphicsItem,
    >(#[trigger] value.graphic_items[i]) by {
        lemma_graphics_item(value.graphic_items[i]);
    }
    lemma_many::<LibSymbolGraphicsItem>(value.graphic_items, t_pins);
    assert forall|i: int| 0 <= i < value.pins.len() implies reads_back::<Pin>(
        #[trigger] value.pins[i],
    ) by {
        lemma_pin(value.pins[i]);
    }
    lemma_many::<Pin>(value.pins, Seq::empty());
}

impl LibSymbolView {
    /// Whether the value is one that reading yields: its name has two
    /// well-formed parts, and its pin names and properties are such values
    /// themselves.
    pub open spec fn wf(self) -> bool {
        &&& self.id.wf()
        &&& self.pin_names is Some ==> self.pin_names->Some_0.wf()
        &&& forall|i: int| 0 <= i < self.properties.len() ==> (#[trigger] self.properties[i]).wf()
    }

    /// The nodes of `self` that follow keyword and name.
    pub open spec fn body(self) -> Tokens {
        self.children().skip(2)
    }
}

/// The nodes `(pin_numbers hide)`, where the numbers are hidden, are read
/// back, provided that, where they are not hidden, what follows is no list
/// named `pin_numbers`.
pub proof fn lemma_pin_numbers_field(hidden: bool, tail: Tokens)
    requires
        !hidden ==> !at_list_named(tail, "pin_numbers"@),
    ensures
        pin_numbers_field(
            (if hidden {
                seq![SexprView::named("pin_numbers"@, seq![SexprView::Symbol("hide"@)])]
            } else {
                Seq::empty()
            }) + tail,
        ) == (Ok::<bool, KiCadParseErrorView>(hidden), tail),
{
    if hidden {
        let inner = seq![SexprView::Symbol("hide"@)];
        lemma_named("pin_numbers"@, inner, tail);
        assert(inner.skip(1) =~= Seq::<SexprView>::empty());
    } else {
        assert(Seq::<SexprView>::empty() + tail =~= tail);
    }
}

/// The nodes of a root symbol from its properties on.
#[verifier::opaque]
pub open spec fn root_items(value: LibSymbolView) -> Tokens {
    sexprs_of::<SymbolProperty>(value.properties) + root_after_properties(value)
}

/// The nodes of a root symbol that follow its properties.
#[verifier::opaque]
pub open spec fn root_after_properties(value: LibSymbolView) -> Tokens {
    sexprs_of::<LibSymbolGraphicsItem>(value.graphic_items) + root_after_graphics(value)
}

/// The nodes of a root symbol that follow its shapes.
#[verifier::opaque]
pub open spec fn root_after_graphics(value: LibSymbolView) -> Tokens {
    sexprs_of::<Pin>(value.pins) + root_after_pins(value)
}

/// The nodes of a root symbol that follow its pins.
#[verifier::opaque]
pub open spec fn root_after_pins(value: LibSymbolView) -> Tokens {
    sexprs_of::<LibSymbolSubUnit>(value.units) + root_after_units(value)
}

/// The nodes of a root symbol that follow its units.
pub open spec fn root_after_units(value: LibSymbolView) -> Tokens {
    optional_bool_node("embedded_fonts"@, value.embedded_fonts) + Seq::<SexprView>::empty()
}

/// The node `(in_bom ...)` and what follows it.
#[verifier::opaque]
pub open spec fn root_from_in_bom(value: LibSymbolView) -> Tokens {
    seq![SexprView::named("in_bom"@, seq![SexprView::yes_no(value.in_bom)])] + (seq![
        SexprView::named("on_board"@, seq![SexprView::yes_no(value.on_board)]),
    ] + root_items(value))
}

/// The nodes of a root symbol from `exclude_from_sim` on.
pub open spec fn root_from_exclude(value: LibSymbolView) -> Tokens {
    optional_bool_node("exclude_from_sim"@, value.exclude_from_sim) + root_from_in_bom(value)
}

/// The nodes of a root symbol from `pin_names` on.
pub open spec fn root_from_names(value: LibSymbolView) -> Tokens {
    (match value.pin_names {
        Some(p) => seq![PinNames::sexpr_spec(p)],
        None => Seq::empty(),
    }) + root_from_exclude(value)
}

/// The nodes of a root symbol from `pin_numbers` on.
pub open spec fn root_from_numbers(value: LibSymbolView) -> Tokens {
    (if value.hide_pin_numbers {
        seq![SexprView::named("pin_numbers"@, seq![SexprView::Symbol("hide"@)])]
    } else {
        Seq::empty()
    }) + root_from_names(value)
}

/// The nodes of a root symbol from `power` on: all that follow keyword and
/// name.
pub open spec fn root_from_power(value: LibSymbolView) -> Tokens {
    flag_node("power"@, value.power) + root_from_numbers(value)
}

/// Putting sequences one after the other does not depend on the grouping.
pub proof fn lemma_assoc(a: Tokens, b: Tokens, c: Tokens)
    ensures
        (a + b) + c == a + (b + c),
{
    assert((a + b) + c =~= a + (b + c));
}

/// The nodes of a root symbol from its properties on, one after the other.
pub proof fn lemma_root_items_nodes(value: LibSymbolView, before: Tokens)
    ensures
        before + sexprs_of::<SymbolProperty>(value.properties) + sexprs_of::<
            LibSymbolGraphicsItem,
        >(value.graphic_items) + sexprs_of::<Pin>(value.pins) + sexprs_of::<LibSymbolSubUnit>(
            value.units,
        ) + optional_bool_node("embedded_fonts"@, value.embedded_fonts) == before + root_items(
            value,
        ),
{
    reveal(root_items);
    reveal(root_after_properties);
    reveal(root_after_graphics);
    reveal(root_after_pins);
    let p = sexprs_of::<SymbolProperty>(value.properties);
    let g = sexprs_of::<LibSymbolGraphicsItem>(value.graphic_items);
    let n = sexprs_of::<Pin>(value.pins);
    let u = sexprs_of::<LibSymbolSubUnit>(value.units);
    let f = optional_bool_node("embedded_fonts"@, value.embedded_fonts);
    assert(f + Seq::<SexprView>::empty() =~= f);
    lemma_assoc(before + p + g + n, u, f);
    lemma_assoc(before + p + g, n, u + f);
    lemma_assoc(before + p, g, n + (u + f));
    lemma_assoc(before, p, g + (n + (u + f)));
}

/// The nodes that follow keyword and name of a root symbol are the nodes of
/// its fields one after the other.
pub proof fn lemma_root_nodes(value: LibSymbolView)
    ensures
        value.children() == seq![
            SexprView::Symbol("symbol"@),
            SexprView::String(value.id.text()),
        ] + root_from_power(value),
        value.body() == root_from_power(value),
{
    let start = seq![SexprView::Symbol("symbol"@), SexprView::String(value.id.text())];
    let power = flag_node("power"@, value.power);
    let numbers: Tokens = if value.hide_pin_numbers {
        seq![SexprView::named("pin_numbers"@, seq![SexprView::Symbol("hide"@)])]
    } else {
        Seq::empty()
    };
    let names: Tokens = match value.pin_names {
        Some(p) => seq![PinNames::sexpr_spec(p)],
        None => Seq::empty(),
    };
    let exclude = optional_bool_node("exclude_from_sim"@, value.exclude_from_sim);
    let in_bom = seq![SexprView::named("in_bom"@, seq![SexprView::yes_no(value.in_bom)])];
    let on_board = seq![SexprView::named("on_board"@, seq![SexprView::yes_no(value.on_board)])];
    let both = seq![
        SexprView::named("in_bom"@, seq![SexprView::yes_no(value.in_bom)]),
        SexprView::named("on_board"@, seq![SexprView::yes_no(value.on_board)]),
    ];
    assert(both =~= in_bom + on_board);
    assert(value.head() == start + power + numbers + names + exclude + both);
    lemma_root_items_nodes(value, value.head());
    assert(value.children() == value.head() + root_items(value));
    let items = root_items(value);
    assert(root_from_in_bom(value) == in_bom + (on_board + items)) by {
        reveal(root_from_in_bom);
    }
    lemma_assoc(start + power + numbers + names + exclude, in_bom + on_board, items);
    lemma_assoc(in_bom, on_board, items);
    lemma_assoc(start + power + numbers + names, exclude, in_bom + (on_board + items));
    lemma_assoc(start + power + numbers, names, root_from_exclude(value));
    lemma_assoc(start + power, numbers, root_from_names(value));
    lemma_assoc(start, power, root_from_numbers(value));
    assert(value.children() == start + root_from_power(value));
    assert((start + root_from_power(value)).skip(2) =~= root_from_power(value));
}

/// The sequences of a root symbol are read back one after the other, and
/// then the list ends.
pub proof fn lemma_root_items(value: LibSymbolView)
    requires
        value.wf(),
    ensures
        !at_list_named(root_items(value), "on_board"@),
        !at_entity::<SymbolProperty>(root_after_properties(value)),
        many::<SymbolProperty>(root_items(value)) == (
            Ok::<Seq<SymbolPropertyView>, KiCadParseErrorView>(value.properties),
            root_after_properties(value),
        ),
        many::<LibSymbolGraphicsItem>(root_after_properties(value)) == (
            Ok::<Seq<LibSymbolGraphicsItemView>, KiCadParseErrorView>(value.graphic_items),
            root_after_graphics(value),
        ),
        many::<Pin>(root_after_graphics(value)) == (
            Ok::<Seq<PinView>, KiCadParseErrorView>(value.pins),
            root_after_pins(value),
        ),
        many::<LibSymbolSubUnit>(root_after_pins(value)) == (
            Ok::<Seq<LibSymbolSubUnitView>, KiCadParseErrorView>(value.units),
            root_after_units(value),
        ),
        optional_bool_field(root_after_units(value), "embedded_fonts"@) == (
            Ok::<Option<bool>, KiCadParseErrorView>(value.embedded_fonts),
            Seq::<SexprView>::empty(),
        ),
{
    lemma_keywords();
    lemma_graphics_keywords(GraphicsKind::Arc);
    let empty = Seq::<SexprView>::empty();
    let t_fonts = root_after_units(value);
    let t_units = root_after_pins(value);
    let t_pins = root_after_graphics(value);
    let t_graphics = root_after_properties(value);
    lemma_optional_bool_field("embedded_fonts"@, value.embedded_fonts, empty);
    assert(t_fonts.len() == 0 || head_name(t_fonts) == Some("embedded_fonts"@));
    assert(!at_entity::<LibSymbolSubUnit>(t_fonts));

    assert(t_units.len() == 0 || head_name(t_units) == Some("embedded_fonts"@) || head_name(
        t_units,
    ) == Some("symbol"@)) by {
        reveal(root_after_pins);
        lemma_sexprs_head::<LibSymbolSubUnit>(value.units, t_fonts);
    }
    assert(many::<LibSymbolSubUnit>(t_units) == (
        Ok::<Seq<LibSymbolSubUnitView>, KiCadParseErrorView>(value.units),
        t_fonts,
    )) by {
        reveal(root_after_pins);
        assert forall|i: int| 0 <= i < value.units.len() implies reads_back::<LibSymbolSubUnit>(
            #[trigger] value.units[i],
        ) by {
            lemma_sub_unit(value.units[i]);
        }
        lemma_many::<LibSymbolSubUnit>(value.units, t_fonts);
    }
    assert(!at_entity::<Pin>(t_units));

    assert(t_pins.len() == 0 || head_name(t_pins) == Some("embedded_fonts"@) || head_name(t_pins)
        == Some("symbol"@) || head_name(t_pins) == Some("pin"@)) by {
        reveal(root_after_graphics);
        lemma_sexprs_head::<Pin>(value.pins, t_units);
    }
    assert(many::<Pin>(t_pins) == (Ok::<Seq<PinView>, KiCadParseErrorView>(value.pins), t_units))
        by {
        reveal(root_after_graphics);
        assert forall|i: int| 0 <= i < value.pins.len() implies reads_back::<Pin>(
            #[trigger] value.pins[i],
        ) by {
            lemma_pin(value.pins[i]);
        }
        lemma_many::<Pin>(value.pins, t_units);
    }
    assert(!at_entity::<LibSymbolGraphicsItem>(t_pins));

    assert(t_graphics.len() == 0 || (head_name(t_graphics) is Some && head_name(t_graphics)
        != Some("property"@) && head_name(t_graphics) != Some("on_board"@))) by {
        reveal(root_after_properties);
        lemma_sexprs_head::<LibSymbolGraphicsItem>(value.graphic_items, t_pins);
        if value.graphic_items.len() > 0 {
            lemma_graphics_keywords(value.graphic_items[0].kind);
            lemma_first(
                SexprView::Symbol(value.graphic_items[0].kind.keyword_spec()),
                value.graphic_items[0].items,
            );
        }
    }
    assert(many::<LibSymbolGraphicsItem>(t_graphics) == (
        Ok::<Seq<LibSymbolGraphicsItemView>, KiCadParseErrorView>(value.graphic_items),
        t_pins,
    )) by {
        reveal(root_after_properties);
        assert forall|i: int| 0 <= i < value.graphic_items.len() implies reads_back::<
            LibSymbolGraphicsItem,
        >(#[trigger] value.graphic_items[i]) by {
            lemma_graphics_item(value.graphic_items[i]);
        }
        lemma_many::<LibSymbolGraphicsItem>(value.graphic_items, t_pins);
    }
    assert(!at_entity::<SymbolProperty>(t_graphics));

    assert(many::<SymbolProperty>(root_items(value)) == (
        Ok::<Seq<SymbolPropertyView>, KiCadParseErrorView>(value.properties),
        t_graphics,
    )) by {
        reveal(root_items);
        assert forall|i: int| 0 <= i < value.properties.len() implies reads_back::<SymbolProperty>(
            #[trigger] value.properties[i],
        ) by {
            lemma_property(value.properties[i]);
        }
        lemma_many::<SymbolProperty>(value.properties, t_graphics);
    }
    assert(!at_list_named(root_items(value), "on_board"@)) by {
        reveal(root_items);
        lemma_sexprs_head::<SymbolProperty>(value.properties, t_graphics);
    }
}

/// The fields of a root symbol that stand before its properties are read
/// back one after the other.
pub proof fn lemma_root_fields(value: LibSymbolView)
    requires
        value.wf(),
    ensures
        !at_list_named(root_from_power(value), "extends"@),
        flag_field(root_from_power(value), "power"@) == (
            Ok::<bool, KiCadParseErrorView>(value.power),
            root_from_numbers(value),
        ),
        pin_numbers_field(root_from_numbers(value)) == (
            Ok::<bool, KiCadParseErrorView>(value.hide_pin_numbers),
            root_from_names(value),
        ),
        maybe_entity::<PinNames>(root_from_names(value)) == (
            Ok::<Option<PinNames>, KiCadParseErrorView>(value.pin_names),
            root_from_exclude(value),
        ),
        optional_bool_field(root_from_exclude(value), "exclude_from_sim"@) == (
            Ok::<Option<bool>, KiCadParseErrorView>(value.exclude_from_sim),
            root_from_in_bom(value),
        ),
{
    lemma_keywords();
    let t_in_bom = root_from_in_bom(value);
    let t_excl = root_from_exclude(value);
    let t_names = root_from_names(value);
    let t_numbers = root_from_numbers(value);
    let t_power = root_from_power(value);
    assert(head_name(t_in_bom) == Some("in_bom"@)) by {
        reveal(root_from_in_bom);
    }
    assert(value.exclude_from_sim is None ==> t_excl =~= t_in_bom);
    assert(head_name(t_excl) == Some("in_bom"@) || head_name(t_excl) == Some(
        "exclude_from_sim"@,
    ));
    assert(value.pin_names is None ==> t_names =~= t_excl);
    assert(head_name(t_names) == Some("pin_names"@) || head_name(t_names) == head_name(t_excl));
    assert(!value.hide_pin_numbers ==> t_numbers =~= t_names);
    assert(head_name(t_numbers) == Some("pin_numbers"@) || head_name(t_numbers) == head_name(
        t_names,
    ));
    assert(!value.power ==> t_power =~= t_numbers);
    assert(head_name(t_power) == Some("power"@) || head_name(t_power) == head_name(t_numbers));
    assert(!at_list_named(t_power, "extends"@));
    assert(!value.power ==> !at_list_named(t_numbers, "power"@));
    lemma_flag_field("power"@, value.power, t_numbers);
    assert(!value.hide_pin_numbers ==> !at_list_named(t_names, "pin_numbers"@));
    lemma_pin_numbers_field(value.hide_pin_numbers, t_names);
    match value.pin_names {
        Some(p) => {
            lemma_pin_names(p);
            lemma_entity::<PinNames>(p, t_excl);
        },
        None => {
            assert(!at_entity::<PinNames>(t_excl));
        },
    }
    assert(value.exclude_from_sim is None ==> !at_list_named(t_in_bom, "exclude_from_sim"@));
    lemma_optional_bool_field("exclude_from_sim"@, value.exclude_from_sim, t_in_bom);
}

/// The two required truth values of a root symbol are read back.
pub proof fn lemma_root_required(value: LibSymbolView)
    ensures
        bool_field(root_from_in_bom(value), "in_bom"@).0 == Ok::<bool, KiCadParseErrorView>(
            value.in_bom,
        ),
        bool_field(bool_field(root_from_in_bom(value), "in_bom"@).1, "on_board"@) == (
            Ok::<bool, KiCadParseErrorView>(value.on_board),
            root_items(value),
        ),
{
    reveal(root_from_in_bom);
    let t_on_board = seq![
        SexprView::named("on_board"@, seq![SexprView::yes_no(value.on_board)]),
    ] + root_items(value);
    lemma_bool_field("in_bom"@, value.in_bom, t_on_board);
    lemma_bool_field("on_board"@, value.on_board, root_items(value));
}

/// What follows keyword and name of a root symbol is read back.
pub proof fn lemma_root_body(value: LibSymbolView)
    requires
        value.wf(),
    ensures
        LibSymbolView::parse_body(value.id, value.body()) == Ok::<
            LibSymbolView,
            KiCadParseErrorView,
        >(value),
        !at_list_named(value.body(), "extends"@),
{
    lemma_root_nodes(value);
    lemma_root_fields(value);
    lemma_root_required(value);
    lemma_root_items(value);
}

/// Keyword and name of a symbol are read back, whatever follows.
pub proof fn lemma_symbol_prefix(id: LibraryIdView, tail: Tokens)
    requires
        id.wf(),
    ensures
        symbol_prefix(
            seq![SexprView::Symbol("symbol"@), SexprView::String(id.text())] + tail,
        ) == (Ok::<LibraryIdView, KiCadParseErrorView>(id), tail),
{
    let t_name = seq![SexprView::String(id.text())] + tail;
    assert(seq![SexprView::Symbol("symbol"@), SexprView::String(id.text())] + tail =~= seq![
        SexprView::Symbol("symbol"@),
    ] + t_name);
    lemma_first(SexprView::Symbol("symbol"@), t_name);
    lemma_first(SexprView::String(id.text()), tail);
    lemma_library_id(id);
}

/// A root symbol is read back.
pub proof fn lemma_root(value: LibSymbolView)
    requires
        value.wf(),
    ensures
        reads_back::<LibSymbol>(value),
        !is_derived(value.children()),
{
    lemma_root_nodes(value);
    lemma_root_body(value);
    lemma_symbol_prefix(value.id, root_from_power(value));
    let c = value.children();
    assert(c[0] == SexprView::Symbol("symbol"@));
    if c.len() > 2 {
        assert(c[2] == c.skip(2)[0]);
    }
}

impl DerivedLibSymbolView {
    /// Whether the value is one that reading yields: its name has two
    /// well-formed parts, and its properties are such values themselves.
    pub open spec fn wf(self) -> bool {
        &&& self.id.wf()
        &&& forall|i: int| 0 <= i < self.properties.len() ==> (#[trigger] self.properties[i]).wf()
    }
}

/// A derived symbol is read back.
pub proof fn lemma_derived(value: DerivedLibSymbolView)
    requires
        value.wf(),
    ensures
        reads_back::<DerivedLibSymbol>(value),
        is_derived(value.children()),
{
    lemma_keywords();
    let empty = Seq::<SexprView>::empty();
    let t_props = sexprs_of::<SymbolProperty>(value.properties) + empty;
    let extends = SexprView::named("extends"@, seq![SexprView::String(value.extends)]);
    let t_extends = seq![extends] + t_props;
    let c = value.children();
    assert(c =~= seq![SexprView::Symbol("symbol"@), SexprView::String(value.id.text())]
        + t_extends);
    lemma_symbol_prefix(value.id, t_extends);
    lemma_string_field("extends"@, value.extends, t_props);
    assert forall|i: int| 0 <= i < value.properties.len() implies reads_back::<SymbolProperty>(
        #[trigger] value.properties[i],
    ) by {
        lemma_property(value.properties[i]);
    }
    lemma_many::<SymbolProperty>(value.properties, empty);
    lemma_named("extends"@, seq![SexprView::String(value.extends)], t_props);
    assert(c[2] == extends);
    assert(c[0] == SexprView::Symbol("symbol"@));
}

impl SymbolDefinitionView {
    /// Whether the value is one that reading yields.
    pub open spec fn wf(self) -> bool {
        match self {
            SymbolDefinitionView::RootSymbol(s) => s.wf(),
            SymbolDefinitionView::DerivedSymbol(s) => s.wf(),
        }
    }
}

/// A symbol definition is read back as what it was: a root symbol as a root
/// symbol, a derived symbol as a derived symbol.
pub proof fn lemma_symbol_definition(value: SymbolDefinitionView)
    requires
        value.wf(),
    ensures
        reads_back::<SymbolDefinition>(value),
{
    match value {
        SymbolDefinitionView::RootSymbol(s) => {
            lemma_root(s);
        },
        SymbolDefinitionView::DerivedSymbol(s) => {
            lemma_derived(s);
        },
    }
}

impl SymbolLibraryFileView {
    /// Whether the value is one that reading yields: the version is what
    /// the number written for it converts back to, and the symbols are such
    /// values themselves.
    pub open spec fn wf(self) -> bool {
        &&& Number::spec_from_int(self.version as int).spec_as_u32() == self.version
        &&& forall|i: int| 0 <= i < self.symbols.len() ==> (#[trigger] self.symbols[i]).wf()
    }
}

/// The name of the generator is read back in either spelling: written as a
/// bare symbol it is read as a name that was no string, written as a quoted
/// string it is read as the same name that was a string.
pub proof fn lemma_generator_spellings(name: Seq<char>, tail: Tokens)
    ensures
        generator_field(
            seq![SexprView::named("generator"@, seq![SexprView::Symbol(name)])] + tail,
        ) == (Ok::<(Seq<char>, bool), KiCadParseErrorView>((name, false)), tail),
        generator_field(
            seq![SexprView::named("generator"@, seq![SexprView::String(name)])] + tail,
        ) == (Ok::<(Seq<char>, bool), KiCadParseErrorView>((name, true)), tail),
{
    let bare = seq![SexprView::Symbol(name)];
    let quoted = seq![SexprView::String(name)];
    lemma_named("generator"@, bare, tail);
    lemma_named("generator"@, quoted, tail);
    assert(bare.skip(1) =~= Seq::<SexprView>::empty());
    assert(quoted.skip(1) =~= Seq::<SexprView>::empty());
}

/// A library is read back: reading the children of the node that a library
/// is written as yields that library, with every recorded spelling.
pub proof fn lemma_library(value: SymbolLibraryFileView)
    requires
        value.wf(),
    ensures
        reads_back::<SymbolLibraryFile>(value),
{
    lemma_keywords();
    let empty = Seq::<SexprView>::empty();
    let t_symbols = sexprs_of::<SymbolDefinition>(value.symbols) + empty;
    let t_gen_version = optional_string_node("generator_version"@, value.generator_version)
        + t_symbols;
    let t_generator = seq![value.generator_node()] + t_gen_version;
    let number = Number::spec_from_int(value.version as int);
    let version = SexprView::named("version"@, seq![SexprView::Number(number)]);
    let t_version = seq![version] + t_generator;
    let c = value.children();
    assert(c =~= seq![SexprView::Symbol("kicad_symbol_lib"@)] + t_version);
    lemma_first(SexprView::Symbol("kicad_symbol_lib"@), t_version);
    lemma_number_field("version"@, number, t_generator);
    assert(number.spec_as_u32() == value.version);
    lemma_generator_spellings(value.generator, t_gen_version);
    assert forall|i: int| 0 <= i < value.symbols.len() implies reads_back::<SymbolDefinition>(
        #[trigger] value.symbols[i],
    ) by {
        lemma_symbol_definition(value.symbols[i]);
    }
    lemma_sexprs_head::<SymbolDefinition>(value.symbols, empty);
    if value.symbols.len() > 0 {
        let first = value.symbols[0];
        lemma_symbol_definition(first);
        assert(SymbolDefinition::sexpr_spec(first)->List_0[0] == SexprView::Symbol("symbol"@));
    }
    assert(!at_list_named(t_symbols, "generator_version"@));
    lemma_optional_string_field("generator_version"@, value.generator_version, t_symbols);
    lemma_many::<SymbolDefinition>(value.symbols, empty);
}

/// The round trip. Let a document be what a library is written as. Then the
/// document is read as that library; writing what was read gives the
/// document again; and reading what was written gives what was read.
pub proof fn lemma_round_trip(document: SexprView, library: SymbolLibraryFileView)
    requires
        library.wf(),
        document == SymbolLibraryFile::sexpr_spec(library),
    ensures
        parse_document(document) == Ok::<SymbolLibraryFileView, KiCadParseErrorView>(library),
        SymbolLibraryFile::sexpr_spec(parse_document(document)->Ok_0) == document,
        parse_document(SymbolLibraryFile::sexpr_spec(parse_document(document)->Ok_0))
            == parse_document(document),
{
    lemma_library(library);
}

/// The two ways of reading agree: on every input, the borrowing path and the
/// owning path yield the same library or the same error.
pub proof fn lemma_paths_agree(children: Tokens)
    ensures
        SymbolLibraryFileFast::parse_spec(children) == SymbolLibraryFile::parse_spec(children),
        SymbolDefinitionFast::parse_spec(children) == SymbolDefinition::parse_spec(children),
        forall|value: SymbolLibraryFileView|
            SymbolLibraryFileFast::sexpr_spec(value) == SymbolLibraryFile::sexpr_spec(value),
{
}

/// The two ways of telling a derived symbol from a root symbol agree: a look
/// at the third token of the node decides as reading keyword and name and
/// then looking for `extends` does.
pub proof fn lemma_disambiguation_agrees(children: Tokens)
    requires
        symbol_prefix(children).0 is Ok,
    ensures
        is_derived(children) == at_list_named(symbol_prefix(children).1, "extends"@),
{
    assert(children.len() >= 2);
    assert(symbol_prefix(children).1 == children.skip(1).skip(1));
    if children.len() > 2 {
        assert(children.skip(1).skip(1)[0] == children[2]);
    }
}

/// The first colon at or after `from` is a colon, and no colon stands
/// between `from` and it.
pub proof fn lemma_colon_index_is_first(s: Seq<char>, from: int)
    requires
        0 <= from <= s.len(),
    ensures
        from <= colon_index(s, from) <= s.len(),
        colon_index(s, from) < s.len() ==> s[colon_index(s, from)] == ':',
        forall|j: int| from <= j < colon_index(s, from) ==> s[j] != ':',
    decreases s.len() - from,
{
    if from < s.len() && s[from] != ':' {
        lemma_colon_index_is_first(s, from + 1);
    }
}

/// An identifier that was read is written as the string it was read from.
pub proof fn lemma_library_id_text(s: Seq<char>)
    requires
        LibraryIdView::parse(s) is Ok,
    ensures
        LibraryIdView::parse(s)->Ok_0.text() == s,
{
    lemma_colon_index_is_first(s, 0);
    assert(LibraryIdView::parse(s)->Ok_0.text() =~= s);
}

/// An identifier that was read has two well-formed parts.
pub proof fn lemma_library_id_parsed(s: Seq<char>)
    ensures
        LibraryIdView::parse(s) is Ok ==> LibraryIdView::parse(s)->Ok_0.wf(),
{
    lemma_colon_index_is_first(s, 0);
}

/// A property that was read is one that is read back.
pub proof fn lemma_property_parsed(children: Tokens)
    ensures
        SymbolProperty::parse_spec(children) is Ok ==> SymbolProperty::parse_spec(
            children,
        )->Ok_0.wf(),
{
    let keyword = symbol_matching(children, "property"@);
    let key = string_token(keyword.1);
    let value = string_token(key.1);
    let legacy_id = optional_number_field(value.1, "id"@);
    if legacy_id.0 is Ok && legacy_id.0->Ok_0 is Some {
        lemma_as_i32_is_stable(legacy_id.0->Ok_0->Some_0);
    }
}

/// Where every value that the entity `T` reads is good, so is every value of
/// a sequence that it reads.
pub proof fn lemma_many_parsed<T: SexprEntity>(t: Tokens, good: spec_fn(T::V) -> bool)
    requires
        forall|c: Tokens| #[trigger] T::parse_spec(c) is Ok ==> good(T::parse_spec(c)->Ok_0),
    ensures
        many::<T>(t).0 is Ok ==> forall|i: int|
            0 <= i < many::<T>(t).0->Ok_0.len() ==> good(#[trigger] many::<T>(t).0->Ok_0[i]),
    decreases t.len(),
{
    if at_entity::<T>(t) {
        lemma_many_parsed::<T>(t.skip(1), good);
    }
}

/// The properties that were read are such as are read back.
pub proof fn lemma_properties_parsed(t: Tokens)
    ensures
        many::<SymbolProperty>(t).0 is Ok ==> forall|i: int|
            0 <= i < many::<SymbolProperty>(t).0->Ok_0.len() ==> (#[trigger] many::<
                SymbolProperty,
            >(t).0->Ok_0[i]).wf(),
{
    assert forall|c: Tokens| #[trigger]
        SymbolProperty::parse_spec(c) is Ok implies SymbolProperty::parse_spec(c)->Ok_0.wf() by {
        lemma_property_parsed(c);
    }
    lemma_many_parsed::<SymbolProperty>(t, |v: SymbolPropertyView| v.wf());
}

/// A root symbol that was read is one that is read back.
pub proof fn lemma_root_parsed(children: Tokens)
    ensures
        LibSymbol::parse_spec(children) is Ok ==> LibSymbol::parse_spec(children)->Ok_0.wf(),
{
    let prefix = symbol_prefix(children);
    if prefix.0 is Ok {
        let keyword = symbol_matching(children, "symbol"@);
        let name = string_token(keyword.1);
        lemma_library_id_parsed(name.0->Ok_0);
        let t = prefix.1;
        let power = flag_field(t, "power"@);
        let hide_pin_numbers = pin_numbers_field(power.1);
        let pin_names = maybe_entity::<PinNames>(hide_pin_numbers.1);
        let exclude_from_sim = optional_bool_field(pin_names.1, "exclude_from_sim"@);
        let in_bom = bool_field(exclude_from_sim.1, "in_bom"@);
        let on_board = bool_field(in_bom.1, "on_board"@);
        lemma_properties_parsed(on_board.1);
    }
}

/// A derived symbol that was read is one that is read back.
pub proof fn lemma_derived_parsed(children: Tokens)
    ensures
        DerivedLibSymbol::parse_spec(children) is Ok ==> DerivedLibSymbol::parse_spec(
            children,
        )->Ok_0.wf(),
{
    let prefix = symbol_prefix(children);
    if prefix.0 is Ok {
        let keyword = symbol_matching(children, "symbol"@);
        let name = string_token(keyword.1);
        lemma_library_id_parsed(name.0->Ok_0);
        let extends = string_field(prefix.1, "extends"@);
        lemma_properties_parsed(extends.1);
    }
}

/// A symbol definition that was read is one that is read back.
pub proof fn lemma_symbol_definition_parsed(children: Tokens)
    ensures
        SymbolDefinition::parse_spec(children) is Ok ==> SymbolDefinition::parse_spec(
            children,
        )->Ok_0.wf(),
{
    lemma_root_parsed(children);
    lemma_derived_parsed(children);
}

/// A library that was read is one that is read back.
pub proof fn lemma_library_parsed(children: Tokens)
    ensures
        SymbolLibraryFile::parse_spec(children) is Ok ==> SymbolLibraryFile::parse_spec(
            children,
        )->Ok_0.wf(),
{
    let keyword = symbol_matching(children, "kicad_symbol_lib"@);
    let version = number_field(keyword.1, "version"@);
    let generator = generator_field(version.1);
    let generator_version = optional_string_field(generator.1, "generator_version"@);
    if version.0 is Ok {
        lemma_as_u32_is_stable(version.0->Ok_0);
    }
    assert forall|c: Tokens| #[trigger]
        SymbolDefinition::parse_spec(c) is Ok implies SymbolDefinition::parse_spec(c)->Ok_0.wf() by {
        lemma_symbol_definition_parsed(c);
    }
    lemma_many_parsed::<SymbolDefinition>(generator_version.1, |v: SymbolDefinitionView| v.wf());
}

/// Reading is stable. Let a document be read as a library, in whatever
/// spelling it is written. Then what the library is written as is read as
/// the same library again: nothing that was read is lost in writing.
pub proof fn lemma_reading_is_stable(document: SexprView)
    requires
        parse_document(document) is Ok,
    ensures
        parse_document(SymbolLibraryFile::sexpr_spec(parse_document(document)->Ok_0))
            == parse_document(document),
{
    lemma_library_parsed(document->List_0);
    lemma_library(parse_document(document)->Ok_0);
}

/// The presence test of an entity agrees with its grammar: what is read as
/// a value of the entity is a node that the entity takes for its own.
pub proof fn lemma_parsed_is_present(children: Tokens)
    ensures
        Position::parse_spec(children) is Ok ==> Position::present_spec(children),
        TextEffects::parse_spec(children) is Ok ==> TextEffects::present_spec(children),
        Pin::parse_spec(children) is Ok ==> Pin::present_spec(children),
        LibSymbolGraphicsItem::parse_spec(children) is Ok ==> LibSymbolGraphicsItem::present_spec(
            children,
        ),
        PinNames::parse_spec(children) is Ok ==> PinNames::present_spec(children),
        SymbolProperty::parse_spec(children) is Ok ==> SymbolProperty::present_spec(children),
        LibSymbolSubUnit::parse_spec(children) is Ok ==> LibSymbolSubUnit::present_spec(children),
        LibSymbol::parse_spec(children) is Ok ==> LibSymbol::present_spec(children),
        DerivedLibSymbol::parse_spec(children) is Ok ==> DerivedLibSymbol::present_spec(children),
        SymbolDefinition::parse_spec(children) is Ok ==> SymbolDefinition::present_spec(children),
        SymbolLibraryFile::parse_spec(children) is Ok ==> SymbolLibraryFile::present_spec(
            children,
        ),
{
}

} // verus!

//! What is read is written back: the laws that tie the grammar to the
//! serializer, for documents as they are found.
//!
//! A document is legal where every number that is read as an integer is a
//! whole number in range and every required truth value is spelled `yes` or
//! `no`. The spellings `true` and `false`, which are read, and numbers with a
//! fraction, which are read and rounded, are not legal: they are not what is
//! written. Every other choice of spelling is legal, old or new. The law of
//! this module is that a legal document that is read as a library is what
//! that library is written as.
//!
//! The first part states, for each way of reading a field, what the tokens
//! that were read must have been. The second part puts these together entity
//! by entity, up to the whole library. The last part shows that nothing is
//! asked in vain: every document that is written is legal.

use crate::common::symbol::{
    flag_node, optional_bool_node, optional_string_node, pin_numbers_field, symbol_prefix,
    LibSymbol, LibSymbolGraphicsItem, LibSymbolSubUnit, LibSymbolView, LibraryIdView, Pin, PinNames,
    SymbolProperty, SymbolPropertyView,
};
use crate::common::{Position, TextEffects};
use crate::convert::sexprs_of;
use crate::cursor::{
    at_entity, at_list_named, bool_field, entity, entity_legal, flag_field, list_with_name, many,
    many_legal, maybe_entity, maybe_list_with_name, maybe_symbol_matching, number_field,
    optional_bool_field, optional_number_field, optional_string_field, spelled_yes_no, string_field,
    string_token, symbol_matching, symbol_token, SexprEntity, Tokens,
};
use crate::number::{lemma_small_integers_are_exact, Number};
use crate::round_trip::{
    lemma_bool_field, lemma_derived, lemma_first, lemma_generator_spellings, lemma_keywords,
    lemma_library_id_text, lemma_number_field, lemma_optional_number_field,
    lemma_optional_string_field, lemma_property, lemma_root, lemma_root_fields, lemma_root_items,
    lemma_root_nodes, lemma_root_required, lemma_sexprs_head, lemma_string_field,
    lemma_symbol_definition, lemma_symbol_prefix, optional_number_node, reads_back,
    root_after_graphics, root_after_pins, root_after_properties, root_after_units,
    root_from_exclude, root_from_in_bom, root_from_names, root_from_numbers, root_from_power,
    root_items,
};
use crate::sexpr::SexprView;
use crate::symbol_library::{
    generator_field, generator_node, is_derived, parse_document, DerivedLibSymbol,
    DerivedLibSymbolView, SymbolDefinition, SymbolDefinitionView, SymbolLibraryFile,
    SymbolLibraryFileView,
};
use crate::symbol_library_fast::SymbolLibraryFileFast;
use vstd::prelude::*;

verus! {

/// Whether a list with these children, where it is legal and is read as a
/// value of the entity `T`, is what that value is written as.
pub open spec fn writes_back<T: SexprEntity>(children: Tokens) -> bool {
    T::parse_spec(children) is Ok && T::legal_spec(children) ==> T::sexpr_spec(
        T::parse_spec(children)->Ok_0,
    ) == SexprView::List(children)
}

/// Whether a document is legal: it is a list, and its children are legal as
/// those of a symbol library.
pub open spec fn legal_document(document: SexprView) -> bool {
    document is List && SymbolLibraryFile::legal_spec(document->List_0)
}

/// Tokens that are not empty are their first token and what follows it.
pub proof fn lemma_took_first(t: Tokens)
    requires
        t.len() > 0,
    ensures
        t == seq![t[0]] + t.skip(1),
{
    assert(t =~= seq![t[0]] + t.skip(1));
}

/// Where the symbol `name` was read, it stood at the front.
pub proof fn lemma_took_symbol(t: Tokens, name: Seq<char>)
    requires
        symbol_matching(t, name).0 is Ok,
    ensures
        t == seq![SexprView::Symbol(name)] + symbol_matching(t, name).1,
{
    lemma_took_first(t);
}

/// Where a string was read, it stood at the front.
pub proof fn lemma_took_string(t: Tokens)
    requires
        string_token(t).0 is Ok,
    ensures
        t == seq![SexprView::String(string_token(t).0->Ok_0)] + string_token(t).1,
{
    lemma_took_first(t);
}

/// Where a list named `name` stands at the front, it is the list of that
/// name and of the children after the name.
pub proof fn lemma_took_list(t: Tokens, name: Seq<char>)
    requires
        at_list_named(t, name),
    ensures
        t == seq![SexprView::named(name, t[0]->List_0.skip(1))] + t.skip(1),
        list_with_name(t, name).0 == Ok::<Tokens, crate::error::KiCadParseErrorView>(
            t[0]->List_0.skip(1),
        ),
        list_with_name(t, name).1 == t.skip(1),
        maybe_list_with_name(t, name) == (Some(t[0]->List_0.skip(1)), t.skip(1)),
{
    lemma_took_first(t);
    lemma_took_first(t[0]->List_0);
}

/// Where a list named `name` was read, it stood at the front.
pub proof fn lemma_took_list_with_name(t: Tokens, name: Seq<char>)
    requires
        list_with_name(t, name).0 is Ok,
    ensures
        at_list_named(t, name),
        list_with_name(t, name).0->Ok_0 == t[0]->List_0.skip(1),
        list_with_name(t, name).1 == t.skip(1),
{
}

/// A sequence of one token that was read, with nothing after it, is that
/// token.
pub proof fn lemma_single(inner: Tokens, x: SexprView)
    requires
        inner.len() > 0,
        inner[0] == x,
        inner.skip(1).len() == 0,
    ensures
        inner == seq![x],
{
    assert(inner =~= seq![x]);
}

/// Where the field `(name "value")` was read, it stood at the front.
pub proof fn lemma_took_string_field(t: Tokens, name: Seq<char>)
    requires
        string_field(t, name).0 is Ok,
    ensures
        t == seq![
            SexprView::named(name, seq![SexprView::String(string_field(t, name).0->Ok_0)]),
        ] + string_field(t, name).1,
{
    lemma_took_list_with_name(t, name);
    lemma_took_list(t, name);
    let inner = t[0]->List_0.skip(1);
    lemma_single(inner, SexprView::String(string_field(t, name).0->Ok_0));
}

/// Where the field `(name value)` with a number was read, it stood at the
/// front.
pub proof fn lemma_took_number_field(t: Tokens, name: Seq<char>)
    requires
        number_field(t, name).0 is Ok,
    ensures
        t == seq![
            SexprView::named(name, seq![SexprView::Number(number_field(t, name).0->Ok_0)]),
        ] + number_field(t, name).1,
{
    lemma_took_list_with_name(t, name);
    lemma_took_list(t, name);
    let inner = t[0]->List_0.skip(1);
    lemma_single(inner, SexprView::Number(number_field(t, name).0->Ok_0));
}

/// Where an optional field `(name "value")` was read, present or absent,
/// what stood at the front was its node or nothing.
pub proof fn lemma_took_optional_string_field(t: Tokens, name: Seq<char>)
    requires
        optional_string_field(t, name).0 is Ok,
    ensures
        t == optional_string_node(name, optional_string_field(t, name).0->Ok_0)
            + optional_string_field(t, name).1,
{
    if at_list_named(t, name) {
        lemma_took_string_field(t, name);
    } else {
        assert(t =~= Seq::<SexprView>::empty() + t);
    }
}

/// Where an optional field `(name value)` with a number was read, present or
/// absent, what stood at the front was its node or nothing.
pub proof fn lemma_took_optional_number_field(t: Tokens, name: Seq<char>)
    requires
        optional_number_field(t, name).0 is Ok,
    ensures
        t == optional_number_node(name, optional_number_field(t, name).0->Ok_0)
            + optional_number_field(t, name).1,
{
    if at_list_named(t, name) {
        lemma_took_number_field(t, name);
    } else {
        assert(t =~= Seq::<SexprView>::empty() + t);
    }
}

/// Where an optional field `(name yes)` or `(name no)` was read, present or
/// absent, what stood at the front was its node or nothing.
pub proof fn lemma_took_optional_bool_field(t: Tokens, name: Seq<char>)
    requires
        optional_bool_field(t, name).0 is Ok,
    ensures
        t == optional_bool_node(name, optional_bool_field(t, name).0->Ok_0) + optional_bool_field(
            t,
            name,
        ).1,
{
    if at_list_named(t, name) {
        lemma_took_list(t, name);
        let inner = t[0]->List_0.skip(1);
        let value = optional_bool_field(t, name).0->Ok_0->Some_0;
        lemma_single(inner, SexprView::yes_no(value));
    } else {
        assert(t =~= Seq::<SexprView>::empty() + t);
    }
}

/// Where a flag `(name)` was read, present or absent, what stood at the front
/// was its node or nothing.
pub proof fn lemma_took_flag_field(t: Tokens, name: Seq<char>)
    requires
        flag_field(t, name).0 is Ok,
    ensures
        t == flag_node(name, flag_field(t, name).0->Ok_0) + flag_field(t, name).1,
{
    if at_list_named(t, name) {
        lemma_took_list(t, name);
        assert(t[0]->List_0.skip(1) =~= Seq::<SexprView>::empty());
    } else {
        assert(t =~= Seq::<SexprView>::empty() + t);
    }
}

/// Where a required truth value was read from a field that spells it `yes`
/// or `no`, that field stood at the front.
pub proof fn lemma_took_bool_field(t: Tokens, name: Seq<char>)
    requires
        bool_field(t, name).0 is Ok,
        spelled_yes_no(t),
    ensures
        t == seq![
            SexprView::named(name, seq![SexprView::yes_no(bool_field(t, name).0->Ok_0)]),
        ] + bool_field(t, name).1,
{
    lemma_keywords();
    lemma_took_list_with_name(t, name);
    lemma_took_list(t, name);
    let inner = t[0]->List_0.skip(1);
    assert(inner[0] == t[0]->List_0[1]);
    lemma_single(inner, SexprView::yes_no(bool_field(t, name).0->Ok_0));
}

/// Where the node `(pin_numbers hide)` was read, present or absent, what
/// stood at the front was that node or nothing.
pub proof fn lemma_took_pin_numbers_field(t: Tokens)
    requires
        pin_numbers_field(t).0 is Ok,
    ensures
        t == (if pin_numbers_field(t).0->Ok_0 {
            seq![SexprView::named("pin_numbers"@, seq![SexprView::Symbol("hide"@)])]
        } else {
            Seq::empty()
        }) + pin_numbers_field(t).1,
{
    if at_list_named(t, "pin_numbers"@) {
        lemma_took_list(t, "pin_numbers"@);
        let inner = t[0]->List_0.skip(1);
        lemma_single(inner, SexprView::Symbol("hide"@));
    } else {
        assert(t =~= Seq::<SexprView>::empty() + t);
    }
}

/// Where the name of the generator was read, the node that stood at the
/// front held it in the spelling that was recorded.
pub proof fn lemma_took_generator_field(t: Tokens)
    requires
        generator_field(t).0 is Ok,
    ensures
        t == seq![generator_node(generator_field(t).0->Ok_0.0, generator_field(t).0->Ok_0.1)]
            + generator_field(t).1,
{
    lemma_took_list_with_name(t, "generator"@);
    lemma_took_list(t, "generator"@);
    let inner = t[0]->List_0.skip(1);
    lemma_single(inner, inner[0]);
}

/// Where a node of the entity `T` was read, and it was legal, and legal
/// nodes of `T` are written back, the node of what was read stood at the
/// front.
pub proof fn lemma_took_entity<T: SexprEntity>(t: Tokens)
    requires
        entity::<T>(t).0 is Ok,
        entity_legal::<T>(t),
        writes_back::<T>(t[0]->List_0),
    ensures
        t == seq![T::sexpr_spec(entity::<T>(t).0->Ok_0)] + entity::<T>(t).1,
{
    lemma_took_first(t);
}

/// Where nodes of the entity `T` were read as a sequence, and they were
/// legal, and legal nodes of `T` are written back, the nodes of what was
/// read stood at the front.
pub proof fn lemma_took_many<T: SexprEntity>(t: Tokens)
    requires
        many::<T>(t).0 is Ok,
        many_legal::<T>(t),
        forall|c: Tokens| #[trigger] writes_back::<T>(c),
    ensures
        t == sexprs_of::<T>(many::<T>(t).0->Ok_0) + many::<T>(t).1,
    decreases t.len(),
{
    if at_entity::<T>(t) {
        let v = T::parse_spec(t[0]->List_0)->Ok_0;
        let more = many::<T>(t.skip(1)).0->Ok_0;
        let rest = many::<T>(t.skip(1)).1;
        lemma_took_many::<T>(t.skip(1));
        assert(writes_back::<T>(t[0]->List_0));
        lemma_took_first(t);
        assert(t[0] == T::sexpr_spec(v));
        assert(sexprs_of::<T>(seq![v] + more) =~= seq![T::sexpr_spec(v)] + sexprs_of::<T>(more));
        assert(seq![t[0]] + (sexprs_of::<T>(more) + rest) =~= sexprs_of::<T>(seq![v] + more)
            + rest);
    } else {
        assert(sexprs_of::<T>(Seq::<T::V>::empty()) + t =~= t);
    }
}

/// Where every node is legal for the entity `T`, so is every sequence of
/// nodes.
pub proof fn lemma_many_legal<T: SexprEntity>(t: Tokens)
    requires
        forall|c: Tokens| #[trigger] T::legal_spec(c),
    ensures
        many_legal::<T>(t),
    decreases t.len(),
{
    if at_entity::<T>(t) {
        lemma_many_legal::<T>(t.skip(1));
    }
}

/// A legal position that is read is written back as it was.
pub proof fn lemma_position_written_back(children: Tokens)
    ensures
        writes_back::<Position>(children),
{
    if Position::parse_spec(children) is Ok && Position::legal_spec(children) {
        let v = Position::parse_spec(children)->Ok_0;
        assert(children =~= Position::children_spec(v));
    }
}

/// Text effects that are read are written back as they were.
pub proof fn lemma_text_effects_written_back(children: Tokens)
    ensures
        writes_back::<TextEffects>(children),
{
    if TextEffects::parse_spec(children) is Ok {
        lemma_took_symbol(children, "effects"@);
    }
}

/// A pin that is read is written back as it was.
pub proof fn lemma_pin_written_back(children: Tokens)
    ensures
        writes_back::<Pin>(children),
{
    if Pin::parse_spec(children) is Ok {
        lemma_took_symbol(children, "pin"@);
    }
}

/// A shape that is read is written back as it was.
pub proof fn lemma_graphics_item_written_back(children: Tokens)
    ensures
        writes_back::<LibSymbolGraphicsItem>(children),
{
    if LibSymbolGraphicsItem::parse_spec(children) is Ok {
        lemma_took_first(children);
        let kind = LibSymbolGraphicsItem::parse_spec(children)->Ok_0.kind;
        assert(kind.keyword_spec() == symbol_token(children).0->Ok_0);
    }
}

/// Pin names that are read are written back as they were, in each of the
/// four spellings: nothing said, the bare symbol `hide`, `(hide yes)` and
/// `(hide no)`.
pub proof fn lemma_pin_names_written_back(children: Tokens)
    ensures
        writes_back::<PinNames>(children),
{
    if PinNames::parse_spec(children) is Ok {
        let v = PinNames::parse_spec(children)->Ok_0;
        let keyword = symbol_matching(children, "pin_names"@);
        let offset = optional_number_field(keyword.1, "offset"@);
        let bare = maybe_symbol_matching(offset.1, "hide"@);
        lemma_took_symbol(children, "pin_names"@);
        lemma_took_optional_number_field(keyword.1, "offset"@);
        if bare.0 {
            lemma_single(offset.1, SexprView::Symbol("hide"@));
        } else {
            lemma_took_optional_bool_field(offset.1, "hide"@);
            let named = optional_bool_field(offset.1, "hide"@);
            assert(named.1 =~= Seq::<SexprView>::empty());
            assert(offset.1 =~= optional_bool_node("hide"@, named.0->Ok_0));
        }
        assert(offset.1 == PinNames::hide_nodes(v));
        assert(optional_number_node("offset"@, v.offset) == (match v.offset {
            Some(o) => seq![SexprView::named("offset"@, seq![SexprView::Number(o)])],
            None => Seq::<SexprView>::empty(),
        }));
        assert(children =~= PinNames::children_spec(v));
    }
}

/// A legal property that is read is written back as it was, with or without
/// the old numeric id.
pub proof fn lemma_property_written_back(children: Tokens)
    ensures
        writes_back::<SymbolProperty>(children),
{
    if SymbolProperty::parse_spec(children) is Ok && SymbolProperty::legal_spec(children) {
        let v = SymbolProperty::parse_spec(children)->Ok_0;
        let keyword = symbol_matching(children, "property"@);
        let key = string_token(keyword.1);
        let value = string_token(key.1);
        let legacy_id = optional_number_field(value.1, "id"@);
        let position = entity::<Position>(legacy_id.1);
        let show_name = flag_field(position.1, "show_name"@);
        let do_not_autoplace = flag_field(show_name.1, "do_not_autoplace"@);
        let effects = entity::<TextEffects>(do_not_autoplace.1);
        lemma_took_symbol(children, "property"@);
        lemma_took_string(keyword.1);
        lemma_took_string(key.1);
        lemma_took_optional_number_field(value.1, "id"@);
        lemma_position_written_back(legacy_id.1[0]->List_0);
        lemma_took_entity::<Position>(legacy_id.1);
        lemma_took_flag_field(position.1, "show_name"@);
        lemma_took_flag_field(show_name.1, "do_not_autoplace"@);
        lemma_text_effects_written_back(do_not_autoplace.1[0]->List_0);
        lemma_took_entity::<TextEffects>(do_not_autoplace.1);
        assert(effects.1 =~= Seq::<SexprView>::empty());
        let id_node = optional_number_node("id"@, legacy_id.0->Ok_0);
        assert(id_node == (match v.legacy_id {
            Some(id) => seq![
                SexprView::named("id"@, seq![SexprView::Number(Number::spec_from_int(id as int))]),
            ],
            None => Seq::<SexprView>::empty(),
        }));
        assert(children =~= v.children());
    }
}

/// A sub-unit that is read is written back as it was.
pub proof fn lemma_sub_unit_written_back(children: Tokens)
    ensures
        writes_back::<LibSymbolSubUnit>(children),
{
    if LibSymbolSubUnit::parse_spec(children) is Ok {
        let v = LibSymbolSubUnit::parse_spec(children)->Ok_0;
        let keyword = symbol_matching(children, "symbol"@);
        let id = string_token(keyword.1);
        let unit_name = optional_string_field(id.1, "unit_name"@);
        let graphic_items = many::<LibSymbolGraphicsItem>(unit_name.1);
        let pins = many::<Pin>(graphic_items.1);
        lemma_took_symbol(children, "symbol"@);
        lemma_took_string(keyword.1);
        lemma_took_optional_string_field(id.1, "unit_name"@);
        lemma_shapes_and_pins_written_back();
        lemma_many_legal::<LibSymbolGraphicsItem>(unit_name.1);
        lemma_took_many::<LibSymbolGraphicsItem>(unit_name.1);
        lemma_many_legal::<Pin>(graphic_items.1);
        lemma_took_many::<Pin>(graphic_items.1);
        assert(pins.1 =~= Seq::<SexprView>::empty());
        assert(children =~= v.children());
    }
}

/// Every shape, pin and sub-unit that is read is written back as it was.
pub proof fn lemma_shapes_and_pins_written_back()
    ensures
        forall|c: Tokens| #[trigger] writes_back::<LibSymbolGraphicsItem>(c),
        forall|c: Tokens| #[trigger] writes_back::<Pin>(c),
        forall|c: Tokens| #[trigger] LibSymbolGraphicsItem::legal_spec(c),
        forall|c: Tokens| #[trigger] Pin::legal_spec(c),
{
    assert forall|c: Tokens| #[trigger] writes_back::<LibSymbolGraphicsItem>(c) by {
        lemma_graphics_item_written_back(c);
    }
    assert forall|c: Tokens| #[trigger] writes_back::<Pin>(c) by {
        lemma_pin_written_back(c);
    }
}

/// Every legal property that is read is written back as it was.
pub proof fn lemma_properties_written_back()
    ensures
        forall|c: Tokens| #[trigger] writes_back::<SymbolProperty>(c),
{
    assert forall|c: Tokens| #[trigger] writes_back::<SymbolProperty>(c) by {
        lemma_property_written_back(c);
    }
}

/// What was read as the sequences of a root symbol, and then ended, is the
/// nodes of those sequences.
pub proof fn lemma_root_items_written_back(id: LibraryIdView, t: Tokens, items: Tokens)
    requires
        LibSymbolView::parse_body(id, t) is Ok,
        LibSymbolView::legal_body(t),
        items == bool_field(
            bool_field(
                optional_bool_field(
                    maybe_entity::<PinNames>(
                        pin_numbers_field(flag_field(t, "power"@).1).1,
                    ).1,
                    "exclude_from_sim"@,
                ).1,
                "in_bom"@,
            ).1,
            "on_board"@,
        ).1,
    ensures
        items == root_items(LibSymbolView::parse_body(id, t)->Ok_0),
{
    let v = LibSymbolView::parse_body(id, t)->Ok_0;
    let properties = many::<SymbolProperty>(items);
    let graphic_items = many::<LibSymbolGraphicsItem>(properties.1);
    let pins = many::<Pin>(graphic_items.1);
    let units = many::<LibSymbolSubUnit>(pins.1);
    let embedded_fonts = optional_bool_field(units.1, "embedded_fonts"@);
    lemma_properties_written_back();
    lemma_shapes_and_pins_written_back();
    assert forall|c: Tokens| #[trigger] writes_back::<LibSymbolSubUnit>(c) by {
        lemma_sub_unit_written_back(c);
    }
    assert forall|c: Tokens| #[trigger] LibSymbolSubUnit::legal_spec(c) by {}
    lemma_took_many::<SymbolProperty>(items);
    lemma_many_legal::<LibSymbolGraphicsItem>(properties.1);
    lemma_took_many::<LibSymbolGraphicsItem>(properties.1);
    lemma_many_legal::<Pin>(graphic_items.1);
    lemma_took_many::<Pin>(graphic_items.1);
    lemma_many_legal::<LibSymbolSubUnit>(pins.1);
    lemma_took_many::<LibSymbolSubUnit>(pins.1);
    lemma_took_optional_bool_field(units.1, "embedded_fonts"@);
    assert(embedded_fonts.1 =~= Seq::<SexprView>::empty());
    assert(units.1 == root_after_units(v));
    assert(pins.1 == root_after_pins(v)) by {
        reveal(root_after_pins);
    }
    assert(graphic_items.1 == root_after_graphics(v)) by {
        reveal(root_after_graphics);
    }
    assert(properties.1 == root_after_properties(v)) by {
        reveal(root_after_properties);
    }
    assert(items == root_items(v)) by {
        reveal(root_items);
    }
}

/// What was read as a legal root symbol after keyword and name is the nodes
/// of its fields one after the other.
pub proof fn lemma_root_body_written_back(id: LibraryIdView, t: Tokens)
    requires
        LibSymbolView::parse_body(id, t) is Ok,
        LibSymbolView::legal_body(t),
    ensures
        t == root_from_power(LibSymbolView::parse_body(id, t)->Ok_0),
{
    let v = LibSymbolView::parse_body(id, t)->Ok_0;
    let power = flag_field(t, "power"@);
    let hide_pin_numbers = pin_numbers_field(power.1);
    let pin_names = maybe_entity::<PinNames>(hide_pin_numbers.1);
    let exclude_from_sim = optional_bool_field(pin_names.1, "exclude_from_sim"@);
    let in_bom = bool_field(exclude_from_sim.1, "in_bom"@);
    let on_board = bool_field(in_bom.1, "on_board"@);
    lemma_root_items_written_back(id, t, on_board.1);
    lemma_took_bool_field(in_bom.1, "on_board"@);
    lemma_took_bool_field(exclude_from_sim.1, "in_bom"@);
    assert(exclude_from_sim.1 == root_from_in_bom(v)) by {
        reveal(root_from_in_bom);
    }
    lemma_took_optional_bool_field(pin_names.1, "exclude_from_sim"@);
    assert(pin_names.1 == root_from_exclude(v));
    if at_entity::<PinNames>(hide_pin_numbers.1) {
        lemma_pin_names_written_back(hide_pin_numbers.1[0]->List_0);
        lemma_took_first(hide_pin_numbers.1);
    } else {
        assert(hide_pin_numbers.1 =~= Seq::<SexprView>::empty() + hide_pin_numbers.1);
    }
    assert(hide_pin_numbers.1 == root_from_names(v));
    lemma_took_pin_numbers_field(power.1);
    assert(power.1 == root_from_numbers(v));
    lemma_took_flag_field(t, "power"@);
}

/// Where keyword and name of a symbol were read, they stood at the front,
/// the name as the text of the identifier that was read.
pub proof fn lemma_took_symbol_prefix(children: Tokens)
    requires
        symbol_prefix(children).0 is Ok,
    ensures
        children == seq![
            SexprView::Symbol("symbol"@),
            SexprView::String(symbol_prefix(children).0->Ok_0.text()),
        ] + symbol_prefix(children).1,
{
    let keyword = symbol_matching(children, "symbol"@);
    let name = string_token(keyword.1);
    lemma_took_symbol(children, "symbol"@);
    lemma_took_string(keyword.1);
    lemma_library_id_text(name.0->Ok_0);
    assert(children =~= seq![
        SexprView::Symbol("symbol"@),
        SexprView::String(symbol_prefix(children).0->Ok_0.text()),
    ] + name.1);
}

/// A legal root symbol that is read is written back as it was.
pub proof fn lemma_root_written_back(children: Tokens)
    ensures
        writes_back::<LibSymbol>(children),
{
    if LibSymbol::parse_spec(children) is Ok && LibSymbol::legal_spec(children) {
        let v = LibSymbol::parse_spec(children)->Ok_0;
        let prefix = symbol_prefix(children);
        lemma_took_symbol_prefix(children);
        lemma_root_body_written_back(prefix.0->Ok_0, prefix.1);
        lemma_root_nodes(v);
    }
}

/// A legal derived symbol that is read is written back as it was.
pub proof fn lemma_derived_written_back(children: Tokens)
    ensures
        writes_back::<DerivedLibSymbol>(children),
{
    if DerivedLibSymbol::parse_spec(children) is Ok && DerivedLibSymbol::legal_spec(children) {
        let v = DerivedLibSymbol::parse_spec(children)->Ok_0;
        let prefix = symbol_prefix(children);
        let extends = string_field(prefix.1, "extends"@);
        let properties = many::<SymbolProperty>(extends.1);
        lemma_took_symbol_prefix(children);
        lemma_took_string_field(prefix.1, "extends"@);
        lemma_properties_written_back();
        lemma_took_many::<SymbolProperty>(extends.1);
        assert(properties.1 =~= Seq::<SexprView>::empty());
        assert(children =~= v.children());
    }
}

/// A legal symbol definition that is read is written back as it was.
pub proof fn lemma_symbol_definition_written_back(children: Tokens)
    ensures
        writes_back::<SymbolDefinition>(children),
{
    if is_derived(children) {
        lemma_derived_written_back(children);
    } else {
        lemma_root_written_back(children);
    }
}

/// A legal library that is read is written back as it was.
pub proof fn lemma_library_written_back(children: Tokens)
    ensures
        writes_back::<SymbolLibraryFile>(children),
        writes_back::<SymbolLibraryFileFast>(children),
{
    if SymbolLibraryFile::parse_spec(children) is Ok && SymbolLibraryFile::legal_spec(children) {
        let v = SymbolLibraryFile::parse_spec(children)->Ok_0;
        let keyword = symbol_matching(children, "kicad_symbol_lib"@);
        let version = number_field(keyword.1, "version"@);
        let generator = generator_field(version.1);
        let generator_version = optional_string_field(generator.1, "generator_version"@);
        let symbols = many::<SymbolDefinition>(generator_version.1);
        lemma_took_symbol(children, "kicad_symbol_lib"@);
        lemma_took_number_field(keyword.1, "version"@);
        lemma_took_generator_field(version.1);
        lemma_took_optional_string_field(generator.1, "generator_version"@);
        assert forall|c: Tokens| #[trigger] writes_back::<SymbolDefinition>(c) by {
            lemma_symbol_definition_written_back(c);
        }
        lemma_took_many::<SymbolDefinition>(generator_version.1);
        assert(symbols.1 =~= Seq::<SexprView>::empty());
        assert(children =~= v.children());
    }
}

/// The round trip of documents as they are found. A legal document that is
/// read as a library is what that library is written as: nothing that was
/// read was canonicalized, added or dropped.
pub proof fn lemma_legal_document_is_written_back(document: SexprView)
    requires
        legal_document(document),
        parse_document(document) is Ok,
    ensures
        SymbolLibraryFile::sexpr_spec(parse_document(document)->Ok_0) == document,
        SymbolLibraryFileFast::sexpr_spec(parse_document(document)->Ok_0) == document,
{
    lemma_library_written_back(document->List_0);
}

/// Whether the node that `value` is written as is legal.
pub open spec fn written_legal<T: SexprEntity>(value: T::V) -> bool {
    T::legal_spec(T::sexpr_spec(value)->List_0)
}

/// Nodes that are written for values whose nodes are legal and read back
/// are legal as a sequence, provided that what follows them is no node of
/// the same entity.
pub proof fn lemma_many_written_legal<T: SexprEntity>(values: Seq<T::V>, tail: Tokens)
    requires
        forall|i: int| 0 <= i < values.len() ==> reads_back::<T>(#[trigger] values[i]),
        forall|i: int| 0 <= i < values.len() ==> written_legal::<T>(#[trigger] values[i]),
        !at_entity::<T>(tail),
    ensures
        many_legal::<T>(sexprs_of::<T>(values) + tail),
    decreases values.len(),
{
    let t = sexprs_of::<T>(values) + tail;
    if values.len() == 0 {
        assert(t =~= tail);
    } else {
        let first = values[0];
        let rest = values.skip(1);
        assert(reads_back::<T>(first));
        assert(written_legal::<T>(first));
        assert(t =~= seq![T::sexpr_spec(first)] + (sexprs_of::<T>(rest) + tail));
        lemma_first(T::sexpr_spec(first), sexprs_of::<T>(rest) + tail);
        assert forall|i: int| 0 <= i < rest.len() implies reads_back::<T>(#[trigger] rest[i]) by {
            assert(rest[i] == values[i + 1]);
        }
        assert forall|i: int| 0 <= i < rest.len() implies written_legal::<T>(
            #[trigger] rest[i],
        ) by {
            assert(rest[i] == values[i + 1]);
        }
        lemma_many_written_legal::<T>(rest, tail);
    }
}

/// What a position is written as is legal.
pub proof fn lemma_position_written_legal(value: Position)
    ensures
        written_legal::<Position>(value),
{
    let c = Position::children_spec(value);
    match value.angle {
        Some(a) => {
            lemma_small_integers_are_exact(a as int);
            assert(c =~= seq![
                SexprView::Symbol("at"@),
                SexprView::Number(value.x),
                SexprView::Number(value.y),
                SexprView::Number(Number::spec_from_int(a as int)),
            ]);
        },
        None => {
            assert(c =~= seq![
                SexprView::Symbol("at"@),
                SexprView::Number(value.x),
                SexprView::Number(value.y),
            ]);
            assert(c.skip(1).skip(1).skip(1) =~= Seq::<SexprView>::empty());
        },
    }
}

/// What a property that reading yields is written as is legal.
pub proof fn lemma_property_written_legal(value: SymbolPropertyView)
    requires
        value.wf(),
    ensures
        written_legal::<SymbolProperty>(value),
{
    lemma_keywords();
    let id_number: Option<Number> = match value.legacy_id {
        Some(id) => Some(Number::spec_from_int(id as int)),
        None => None,
    };
    let t_effects = seq![TextEffects::sexpr_spec(value.effects)] + Seq::<SexprView>::empty();
    let t_autoplace = flag_node("do_not_autoplace"@, value.do_not_autoplace) + t_effects;
    let t_show = flag_node("show_name"@, value.show_name) + t_autoplace;
    let t_position = seq![Position::sexpr_spec(value.position)] + t_show;
    let t_id = optional_number_node("id"@, id_number) + t_position;
    let t_value = seq![SexprView::String(value.value)] + t_id;
    let t_key = seq![SexprView::String(value.key)] + t_value;
    let c = value.children();
    assert(c =~= seq![SexprView::Symbol("property"@)] + t_key);
    lemma_first(SexprView::Symbol("property"@), t_key);
    lemma_first(SexprView::String(value.key), t_value);
    lemma_first(SexprView::String(value.value), t_id);
    lemma_first(Position::sexpr_spec(value.position), t_show);
    assert(!at_list_named(t_position, "id"@));
    lemma_optional_number_field("id"@, id_number, t_position);
    lemma_position_written_legal(value.position);
}

/// What a root symbol that reading yields is written as is legal.
pub proof fn lemma_root_written_legal(value: LibSymbolView)
    requires
        value.wf(),
    ensures
        written_legal::<LibSymbol>(value),
{
    lemma_root_nodes(value);
    lemma_root_fields(value);
    lemma_root_required(value);
    lemma_root_items(value);
    lemma_symbol_prefix(value.id, root_from_power(value));
    let in_bom = SexprView::named("in_bom"@, seq![SexprView::yes_no(value.in_bom)]);
    let on_board = SexprView::named("on_board"@, seq![SexprView::yes_no(value.on_board)]);
    let t_on_board = seq![on_board] + root_items(value);
    assert(root_from_in_bom(value) == seq![in_bom] + t_on_board) by {
        reveal(root_from_in_bom);
    }
    lemma_first(in_bom, t_on_board);
    lemma_first(on_board, root_items(value));
    lemma_bool_field("in_bom"@, value.in_bom, t_on_board);
    lemma_bool_field("on_board"@, value.on_board, root_items(value));
    assert(in_bom->List_0 =~= seq![SexprView::Symbol("in_bom"@), SexprView::yes_no(value.in_bom)]);
    assert(on_board->List_0 =~= seq![
        SexprView::Symbol("on_board"@),
        SexprView::yes_no(value.on_board),
    ]);
    assert(spelled_yes_no(root_from_in_bom(value)));
    assert(spelled_yes_no(t_on_board));
    assert forall|i: int| 0 <= i < value.properties.len() implies reads_back::<SymbolProperty>(
        #[trigger] value.properties[i],
    ) by {
        lemma_property(value.properties[i]);
    }
    assert forall|i: int| 0 <= i < value.properties.len() implies written_legal::<
        SymbolProperty,
    >(#[trigger] value.properties[i]) by {
        lemma_property_written_legal(value.properties[i]);
    }
    lemma_many_written_legal::<SymbolProperty>(value.properties, root_after_properties(value));
    assert(many_legal::<SymbolProperty>(root_items(value))) by {
        reveal(root_items);
    }
    assert(LibSymbolView::legal_body(root_from_power(value)));
}

/// What a derived symbol that reading yields is written as is legal.
pub proof fn lemma_derived_written_legal(value: DerivedLibSymbolView)
    requires
        value.wf(),
    ensures
        written_legal::<DerivedLibSymbol>(value),
{
    let empty = Seq::<SexprView>::empty();
    let t_props = sexprs_of::<SymbolProperty>(value.properties) + empty;
    let extends = SexprView::named("extends"@, seq![SexprView::String(value.extends)]);
    let t_extends = seq![extends] + t_props;
    let c = value.children();
    assert(c =~= seq![SexprView::Symbol("symbol"@), SexprView::String(value.id.text())]
        + t_extends);
    lemma_symbol_prefix(value.id, t_extends);
    lemma_string_field("extends"@, value.extends, t_props);
    assert forall|i: int| 0 <= i < value.properties.len() implies reads_back::<SymbolProperty>(
        #[trigger] value.properties[i],
    ) by {
        lemma_property(value.properties[i]);
    }
    assert forall|i: int| 0 <= i < value.properties.len() implies written_legal::<
        SymbolProperty,
    >(#[trigger] value.properties[i]) by {
        lemma_property_written_legal(value.properties[i]);
    }
    lemma_many_written_legal::<SymbolProperty>(value.properties, empty);
}

/// What a symbol definition that reading yields is written as is legal.
pub proof fn lemma_symbol_definition_written_legal(value: SymbolDefinitionView)
    requires
        value.wf(),
    ensures
        written_legal::<SymbolDefinition>(value),
{
    match value {
        SymbolDefinitionView::RootSymbol(s) => {
            lemma_root(s);
            lemma_root_written_legal(s);
        },
        SymbolDefinitionView::DerivedSymbol(s) => {
            lemma_derived(s);
            lemma_derived_written_legal(s);
        },
    }
}

/// Every document that is written is legal: what a library that reading
/// yields is written as is a legal document. So the legal documents that are
/// read are the documents that are written, and no others.
pub proof fn lemma_written_document_is_legal(library: SymbolLibraryFileView)
    requires
        library.wf(),
    ensures
        legal_document(SymbolLibraryFile::sexpr_spec(library)),
{
    lemma_keywords();
    let empty = Seq::<SexprView>::empty();
    let t_symbols = sexprs_of::<SymbolDefinition>(library.symbols) + empty;
    let t_gen_version = optional_string_node("generator_version"@, library.generator_version)
        + t_symbols;
    let t_generator = seq![library.generator_node()] + t_gen_version;
    let number = Number::spec_from_int(library.version as int);
    let version = SexprView::named("version"@, seq![SexprView::Number(number)]);
    let t_version = seq![version] + t_generator;
    let c = library.children();
    assert(c =~= seq![SexprView::Symbol("kicad_symbol_lib"@)] + t_version);
    lemma_first(SexprView::Symbol("kicad_symbol_lib"@), t_version);
    lemma_number_field("version"@, number, t_generator);
    lemma_generator_spellings(library.generator, t_gen_version);
    assert forall|i: int| 0 <= i < library.symbols.len() implies reads_back::<SymbolDefinition>(
        #[trigger] library.symbols[i],
    ) by {
        lemma_symbol_definition(library.symbols[i]);
    }
    assert forall|i: int| 0 <= i < library.symbols.len() implies written_legal::<
        SymbolDefinition,
    >(#[trigger] library.symbols[i]) by {
        lemma_symbol_definition_written_legal(library.symbols[i]);
    }
    lemma_sexprs_head::<SymbolDefinition>(library.symbols, empty);
    if library.symbols.len() > 0 {
        let first = library.symbols[0];
        lemma_symbol_definition(first);
        assert(SymbolDefinition::sexpr_spec(first)->List_0[0] == SexprView::Symbol("symbol"@));
    }
    assert(!at_list_named(t_symbols, "generator_version"@));
    lemma_optional_string_field("generator_version"@, library.generator_version, t_symbols);
    lemma_many_written_legal::<SymbolDefinition>(library.symbols, empty);
}

} // verus!

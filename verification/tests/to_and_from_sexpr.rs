use kicad_format::common::symbol::{
    GraphicsKind, LibSymbol, LibSymbolGraphicsItem, LibSymbolSubUnit, LibraryId, Pin, PinNames,
    SymbolProperty, UnitId,
};
use kicad_format::common::{Position, TextEffects};
use kicad_format::convert::{FromSexpr, MaybeFromSexpr, Parser, ToSexpr};
use kicad_format::convert_ref::{FromSexprRef, MaybeFromSexprRef, ParserRef};
use kicad_format::error::LibraryIdParseError;
use kicad_format::number::Number;
use kicad_format::sexpr::{Sexpr, SexprList};
use kicad_format::string_interner::{init_property_keys, intern_property_key, InternedString};
use kicad_format::symbol_library::{
    parse_symbol_library_file, DerivedLibSymbol, SymbolDefinition, SymbolLibraryFile,
};
use kicad_format::symbol_library_fast::{
    parse_symbol_library_file_fast, DerivedLibSymbolFast, IntoRegular, LibSymbolFast,
    LibSymbolSubUnitFast, PinNamesFast, SymbolDefinitionFast, SymbolLibraryFileFast,
    SymbolPropertyFast,
};
use kicad_format::{KiCadParseError, SexprKind};
use std::borrow::Cow;

// A reader of the textual notation, for writing the inputs of the tests as
// text: parentheses nest, double quotes delimit strings, a bare word that
// reads as a number is a number and any other bare word is a symbol.

fn read_tokens(chars: &[char], at: &mut usize) -> Vec<Sexpr> {
    let mut items = Vec::new();
    while *at < chars.len() {
        let c = chars[*at];
        if c.is_whitespace() {
            *at += 1;
        } else if c == ')' {
            *at += 1;
            return items;
        } else if c == '(' {
            *at += 1;
            items.push(Sexpr::List(read_tokens(chars, at)));
        } else if c == '"' {
            *at += 1;
            let mut text = String::new();
            while chars[*at] != '"' {
                if chars[*at] == '\\' {
                    *at += 1;
                }
                text.push(chars[*at]);
                *at += 1;
            }
            *at += 1;
            items.push(Sexpr::String(text));
        } else {
            let mut word = String::new();
            while *at < chars.len()
                && !chars[*at].is_whitespace()
                && chars[*at] != '('
                && chars[*at] != ')'
            {
                word.push(chars[*at]);
                *at += 1;
            }
            match word.parse::<f32>() {
                Ok(v) => items.push(Sexpr::Number(Number::from_bits(v.to_bits()))),
                Err(_) => items.push(Sexpr::Symbol(word)),
            }
        }
    }
    items
}

fn read(text: &str) -> Sexpr {
    let chars: Vec<char> = text.chars().collect();
    let mut at = 0;
    let mut items = read_tokens(&chars, &mut at);
    assert_eq!(items.len(), 1, "one tree per text");
    items.remove(0)
}

fn children(tree: &Sexpr) -> SexprList {
    tree.as_list().expect("a list").clone()
}

fn num(v: f32) -> Number {
    Number::from_bits(v.to_bits())
}

fn sym(s: &str) -> Sexpr {
    Sexpr::Symbol(s.to_string())
}

fn text(s: &str) -> Sexpr {
    Sexpr::String(s.to_string())
}

fn id(library: &str, name: &str) -> LibraryId {
    LibraryId { library: library.to_string(), name: name.to_string() }
}

fn parse_owning<T: FromSexpr>(input: &str) -> Result<T, KiCadParseError> {
    T::from_sexpr(Parser::new(children(&read(input))))
}

fn parse_borrowing<T: for<'a> FromSexprRef<'a>>(input: &str) -> Result<T, KiCadParseError> {
    let tree = read(input);
    let list = tree.as_list().expect("a list");
    T::from_sexpr_ref(ParserRef::new(list))
}

fn assert_round_trip<T: FromSexpr + ToSexpr>(input: &str) {
    let tree = read(input);
    let value = T::from_sexpr(Parser::new(children(&tree))).expect("the input parses");
    assert_eq!(tree, value.to_sexpr());
    let again = T::from_sexpr(Parser::new(children(&value.to_sexpr()))).expect("parses again");
    assert_eq!(value.to_sexpr(), again.to_sexpr());
}

fn assert_round_trip_borrowing<T: for<'a> FromSexprRef<'a> + ToSexpr>(input: &str) {
    let tree = read(input);
    let value = {
        let list = tree.as_list().expect("a list");
        T::from_sexpr_ref(ParserRef::new(list)).expect("the input parses")
    };
    assert_eq!(tree, value.to_sexpr());
}

const SCENARIO: &str = "(kicad_symbol_lib (version 20211014) (generator kicad_symbol_editor) \
    (symbol \"Device:R\" (in_bom yes) (on_board yes)))";

const LEGACY_LIBRARY: &str = r#"(kicad_symbol_lib (version 20211014) (generator kicad_symbol_editor)
  (symbol "Sensor:MP34DT06JTR" (pin_names (offset 1.016) hide) (in_bom yes) (on_board yes)
    (property "Reference" "MK" (id 0) (at -6.35 5.08 0)
      (effects (font (size 1.27 1.27)) (justify left))
    )
    (property "Value" "MP34DT06JTR" (id 1) (at 0 -7.62 0)
      (effects (font (size 1.27 1.27)))
    )
    (property "ki_keywords" "microphone MEMS" (id 4) (at 0 0 0)
      (effects (font (size 1.27 1.27)) hide)
    )
    (symbol "MP34DT06JTR_0_1"
      (rectangle (start -5.08 3.81) (end 5.08 -6.35)
        (stroke (width 0.254) (type default) (color 0 0 0 0))
        (fill (type background))
      )
    )
    (symbol "MP34DT06JTR_1_1"
      (pin power_in line (at 0 7.62 270) (length 3.81)
        (name "VDD" (effects (font (size 1.27 1.27))))
        (number "1" (effects (font (size 1.27 1.27))))
      )
      (pin output line (at 7.62 0 180) (length 2.54) hide
        (name "DOUT" (effects (font (size 1.27 1.27))))
        (number "4" (effects (font (size 1.27 1.27))))
      )
    )
  )
  (symbol "Sensor:MP34DT06" (extends "MP34DT06JTR")
    (property "Reference" "MK" (id 0) (at -6.35 5.08 0)
      (effects (font (size 1.27 1.27)) (justify left))
    )
  )
)"#;

const NEWER_LIBRARY: &str = r#"(kicad_symbol_lib
  (version 20231120)
  (generator "kicad_symbol_editor")
  (generator_version "8.0")
  (symbol "Regulator_Current:CL220K4-G"
    (power)
    (pin_numbers hide)
    (pin_names (offset 0) (hide yes))
    (exclude_from_sim no)
    (in_bom yes)
    (on_board yes)
    (property "Reference" "U" (at -3.81 3.175 0) (show_name) (do_not_autoplace)
      (effects (font (size 1.27 1.27)))
    )
    (property "Footprint" "Package_TO_SOT_SMD:TO-252-2" (at 0 -3.81 0)
      (effects (font (size 1.27 1.27) (italic yes)) (hide yes))
    )
    (arc (start 0 1) (mid 1 0) (end 0 -1) (stroke (width 0)) (fill (type none)))
    (pin passive line (at -7.62 0 0) (length 2.54)
      (name "A" (effects (font (size 1.27 1.27))))
      (number "1" (effects (font (size 1.27 1.27))))
    )
    (symbol "CL220K4-G_0_1" (unit_name "Regulator")
      (polyline (pts (xy -1 1) (xy 1 1)) (stroke (width 0)) (fill (type none)))
      (circle (center 0 0) (radius 0.5) (stroke (width 0)) (fill (type none)))
      (text "I" (at 0 0 0) (effects (font (size 1.27 1.27))))
      (bezier (pts (xy 0 0) (xy 1 1) (xy 2 1) (xy 3 0)) (stroke (width 0)) (fill (type none)))
    )
    (embedded_fonts no)
  )
)"#;

// ---------------------------------------------------------------------------
// The round trip of whole libraries.

#[test]
fn test_symbol_library() {
    for input in [SCENARIO, LEGACY_LIBRARY, NEWER_LIBRARY] {
        assert_round_trip::<SymbolLibraryFile>(input);
    }
}

#[test]
fn borrowing_path_round_trips_libraries() {
    for input in [SCENARIO, LEGACY_LIBRARY, NEWER_LIBRARY] {
        assert_round_trip_borrowing::<SymbolLibraryFileFast>(input);
    }
}

#[test]
fn scenario_parses_to_the_stated_model() {
    let library = parse_owning::<SymbolLibraryFile>(SCENARIO).unwrap();
    let expected = SymbolLibraryFile {
        version: 20211014,
        generator: "kicad_symbol_editor".to_string(),
        generator_is_string: false,
        generator_version: None,
        symbols: vec![SymbolDefinition::RootSymbol(LibSymbol {
            id: id("Device", "R"),
            power: false,
            hide_pin_numbers: false,
            pin_names: None,
            exclude_from_sim: None,
            in_bom: true,
            on_board: true,
            properties: vec![],
            graphic_items: vec![],
            pins: vec![],
            units: vec![],
            embedded_fonts: None,
        })],
    };
    assert_eq!(library, expected);
    assert_eq!(library.to_sexpr(), read(SCENARIO));
}

#[test]
fn scenario_through_the_borrowing_path() {
    let tree = read(SCENARIO);
    let library = parse_symbol_library_file_fast(&tree).unwrap();
    assert_eq!(library.version, 20211014);
    assert_eq!(library.generator, "kicad_symbol_editor");
    assert!(!library.generator_is_string);
    assert_eq!(library.symbols.len(), 1);
    assert_eq!(library.to_sexpr(), tree);
    let regular: SymbolLibraryFile = library.into();
    assert_eq!(regular, parse_owning::<SymbolLibraryFile>(SCENARIO).unwrap());
}

#[test]
fn whole_documents_through_the_owning_path() {
    let library = parse_symbol_library_file(read(NEWER_LIBRARY)).unwrap();
    assert_eq!(library, parse_owning::<SymbolLibraryFile>(NEWER_LIBRARY).unwrap());
    assert_eq!(library.version, 20231120);
    assert_eq!(library.generator_version, Some("8.0".to_string()));
    assert_eq!(
        parse_symbol_library_file(text("kicad_symbol_lib")).unwrap_err(),
        KiCadParseError::UnexpectedSexprType { expected: SexprKind::List }
    );
    let error = parse_symbol_library_file(read("(kicad_symbol_lib)")).unwrap_err();
    assert_eq!(error.clone(), KiCadParseError::UnexpectedEndOfList);
}

#[test]
fn the_two_paths_agree() {
    for input in [SCENARIO, LEGACY_LIBRARY, NEWER_LIBRARY] {
        let owning = parse_owning::<SymbolLibraryFile>(input).unwrap();
        let borrowing = parse_borrowing::<SymbolLibraryFileFast>(input).unwrap();
        assert_eq!(owning.to_sexpr(), borrowing.to_sexpr());
        assert_eq!(owning, borrowing.into_regular());
    }
}

#[test]
fn the_two_paths_agree_on_errors() {
    let inputs = [
        "(kicad_symbol_lib)",
        "(kicad_symbol_lib (version x) (generator g))",
        "(kicad_symbol_lib (version 1) (generator))",
        "(kicad_symbol_lib (version 1) (generator 5))",
        "(kicad_symbol_lib (version 1) (generator g) (generator_version 5))",
        "(kicad_symbol_lib (version 1) (generator g) (symbol \"R\" (in_bom yes) (on_board yes)))",
        "(kicad_symbol_lib (version 1) (generator g) (symbol \"a:R\" (on_board yes)))",
        "(kicad_symbol_lib (version 1) (generator g) (symbol \"a:R\" (extends 5)))",
        "(kicad_symbol_lib (version 1) (generator g) (symbol \"a:R\" (extends \"B\") junk))",
        "(kicad_symbol_lib (version 1) (generator g) (symbol \"a:R\" (in_bom maybe) (on_board yes)))",
        "(kicad_symbol_lib (version 1) (generator g) (symbol \"a:R\" (power x) (in_bom yes) (on_board yes)))",
        "(kicad_symbol_lib (version 1) (generator g) junk)",
        "(other (version 1) (generator g))",
    ];
    for input in inputs {
        let owning = parse_owning::<SymbolLibraryFile>(input).unwrap_err();
        let borrowing = parse_borrowing::<SymbolLibraryFileFast>(input).unwrap_err();
        assert_eq!(owning, borrowing, "input {input}");
    }
}

// ---------------------------------------------------------------------------
// Boundaries.

#[test]
fn a_library_without_symbols() {
    let input = "(kicad_symbol_lib (version 20211014) (generator \"x\"))";
    let library = parse_owning::<SymbolLibraryFile>(input).unwrap();
    assert_eq!(library.symbols.len(), 0);
    assert!(library.generator_is_string);
    assert_eq!(library.generator, "x");
    assert_round_trip::<SymbolLibraryFile>(input);
    assert_round_trip_borrowing::<SymbolLibraryFileFast>(input);
}

#[test]
fn a_root_symbol_without_properties_and_units() {
    let input = "(symbol \"Device:R\" (in_bom yes) (on_board no))";
    let symbol = parse_owning::<SymbolDefinition>(input).unwrap();
    match &symbol {
        SymbolDefinition::RootSymbol(root) => {
            assert!(root.properties.is_empty());
            assert!(root.units.is_empty());
            assert!(root.in_bom);
            assert!(!root.on_board);
        }
        SymbolDefinition::DerivedSymbol(_) => panic!("a root symbol"),
    }
    assert_round_trip::<SymbolDefinition>(input);
    assert_round_trip::<LibSymbol>(input);
    assert_round_trip_borrowing::<SymbolDefinitionFast>(input);
    assert_round_trip_borrowing::<LibSymbolFast>(input);
}

// ---------------------------------------------------------------------------
// Telling root symbols from derived ones.

fn property_text(key: &str) -> String {
    format!("(property \"{key}\" \"v\" (at 0 0 0) (effects (font (size 1.27 1.27))))")
}

#[test]
fn extends_makes_a_derived_symbol() {
    for count in 0..4 {
        let mut input = String::from("(symbol \"Device:R\" (extends \"Base\")");
        for i in 0..count {
            input.push_str(&property_text(&format!("K{i}")));
        }
        input.push(')');
        match parse_owning::<SymbolDefinition>(&input).unwrap() {
            SymbolDefinition::DerivedSymbol(derived) => {
                assert_eq!(derived.id, id("Device", "R"));
                assert_eq!(derived.extends, "Base");
                assert_eq!(derived.properties.len(), count);
            }
            SymbolDefinition::RootSymbol(_) => panic!("a derived symbol"),
        }
        match parse_borrowing::<SymbolDefinitionFast>(&input).unwrap() {
            SymbolDefinitionFast::DerivedSymbol(derived) => {
                assert_eq!(derived.properties.len(), count);
            }
            SymbolDefinitionFast::RootSymbol(_) => panic!("a derived symbol"),
        }
        assert_round_trip::<SymbolDefinition>(&input);
        assert_round_trip::<DerivedLibSymbol>(&input);
        assert_round_trip_borrowing::<DerivedLibSymbolFast>(&input);
    }
}

#[test]
fn no_extends_makes_a_root_symbol() {
    for count in 0..4 {
        let mut input = String::from("(symbol \"Device:R\" (in_bom yes) (on_board yes)");
        for i in 0..count {
            input.push_str(&property_text(&format!("K{i}")));
        }
        input.push(')');
        match parse_owning::<SymbolDefinition>(&input).unwrap() {
            SymbolDefinition::RootSymbol(root) => {
                assert_eq!(root.id, id("Device", "R"));
                assert_eq!(root.properties.len(), count);
            }
            SymbolDefinition::DerivedSymbol(_) => panic!("a root symbol"),
        }
        match parse_borrowing::<SymbolDefinitionFast>(&input).unwrap() {
            SymbolDefinitionFast::RootSymbol(root) => assert_eq!(root.properties.len(), count),
            SymbolDefinitionFast::DerivedSymbol(_) => panic!("a root symbol"),
        }
    }
}

#[test]
fn extends_later_in_the_node_is_no_derivation() {
    let input = "(symbol \"Device:R\" (in_bom yes) (on_board yes) (extends \"Base\"))";
    assert_eq!(
        parse_owning::<SymbolDefinition>(input).unwrap_err(),
        KiCadParseError::ExpectedEndOfList { found: read("(extends \"Base\")") }
    );
}

// ---------------------------------------------------------------------------
// Old and new spellings.

#[test]
fn generator_as_symbol_and_as_string() {
    let legacy = "(kicad_symbol_lib (version 20211014) (generator kicad_symbol_editor))";
    let current = "(kicad_symbol_lib (version 20211014) (generator \"kicad_symbol_editor\"))";
    let a = parse_owning::<SymbolLibraryFile>(legacy).unwrap();
    let b = parse_owning::<SymbolLibraryFile>(current).unwrap();
    assert_eq!(a.generator, "kicad_symbol_editor");
    assert_eq!(b.generator, "kicad_symbol_editor");
    assert!(!a.generator_is_string);
    assert!(b.generator_is_string);
    assert_eq!(a, SymbolLibraryFile { generator_is_string: false, ..b.clone() });
    assert_eq!(a.to_sexpr(), read(legacy));
    assert_eq!(b.to_sexpr(), read(current));
    assert_ne!(a.to_sexpr(), b.to_sexpr());
}

#[test]
fn generator_version_is_kept() {
    let input = "(kicad_symbol_lib (version 20231120) (generator \"k\") (generator_version \"8.0\"))";
    let library = parse_owning::<SymbolLibraryFile>(input).unwrap();
    assert_eq!(library.generator_version, Some("8.0".to_string()));
    assert_round_trip::<SymbolLibraryFile>(input);
}

#[test]
fn pin_names_hide_in_both_spellings() {
    let legacy = parse_owning::<PinNames>("(pin_names (offset 1.016) hide)").unwrap();
    assert_eq!(
        legacy,
        PinNames {
            offset: Some(num(1.016)),
            hide: true,
            hide_legacy_format: true,
            hide_as_list: false
        }
    );
    let current = parse_owning::<PinNames>("(pin_names (hide yes))").unwrap();
    assert_eq!(
        current,
        PinNames { offset: None, hide: true, hide_legacy_format: false, hide_as_list: true }
    );
    let shown = parse_owning::<PinNames>("(pin_names (offset 0))").unwrap();
    assert_eq!(
        shown,
        PinNames {
            offset: Some(num(0.0)),
            hide: false,
            hide_legacy_format: false,
            hide_as_list: false
        }
    );
    for input in [
        "(pin_names (offset 1.016) hide)",
        "(pin_names (hide yes))",
        "(pin_names (hide no))",
        "(pin_names (offset 0.5) (hide no))",
        "(pin_names)",
    ] {
        assert_round_trip::<PinNames>(input);
        assert_round_trip_borrowing::<PinNamesFast>(input);
    }
}

#[test]
fn pin_names_written_as_not_hidden_are_written_back() {
    let input = "(pin_names (hide no))";
    let value = parse_owning::<PinNames>(input).unwrap();
    assert_eq!(
        value,
        PinNames { offset: None, hide: false, hide_legacy_format: false, hide_as_list: true }
    );
    assert_eq!(value.to_sexpr(), read(input));
    let fast = parse_borrowing::<PinNamesFast>(input).unwrap();
    assert!(!fast.hide);
    assert!(fast.hide_as_list);
    assert_eq!(fast.to_sexpr(), read(input));
    assert_eq!(PinNames::from(fast), value);
    // Shown names with nothing said stay as they are.
    let silent = parse_owning::<PinNames>("(pin_names)").unwrap();
    assert!(!silent.hide_as_list);
    assert_ne!(silent, value);
    assert_eq!(silent.to_sexpr(), read("(pin_names)"));
}

#[test]
fn pin_names_built_by_hand_are_written() {
    let hidden =
        PinNames { offset: None, hide: true, hide_legacy_format: false, hide_as_list: false };
    assert_eq!(hidden.to_sexpr(), read("(pin_names (hide yes))"));
    let bare = PinNames { offset: None, hide: true, hide_legacy_format: true, hide_as_list: false };
    assert_eq!(bare.to_sexpr(), read("(pin_names hide)"));
    let shown =
        PinNames { offset: None, hide: false, hide_legacy_format: false, hide_as_list: false };
    assert_eq!(shown.to_sexpr(), read("(pin_names)"));
}

#[test]
fn a_library_with_hide_no_round_trips_on_both_paths() {
    let input = "(kicad_symbol_lib (version 20231120) (generator \"k\") \
        (symbol \"Device:R\" (pin_names (hide no)) (in_bom yes) (on_board yes)) \
        (symbol \"Device:C\" (pin_names (offset 0.254) (hide no)) (in_bom no) (on_board yes)) \
        (symbol \"Device:L\" (pin_names) (in_bom yes) (on_board no)))";
    assert_round_trip::<SymbolLibraryFile>(input);
    assert_round_trip_borrowing::<SymbolLibraryFileFast>(input);
    let tree = read(input);
    assert_eq!(parse_symbol_library_file_fast(&tree).unwrap().to_sexpr(), tree);
    assert_eq!(parse_symbol_library_file(read(input)).unwrap().to_sexpr(), tree);
}

#[test]
fn spellings_that_are_read_and_not_written() {
    // Read, and written in the one spelling that is written: these are the
    // documents that are not legal.
    let cases = [
        (
            "(symbol \"a:b\" (in_bom true) (on_board false))",
            "(symbol \"a:b\" (in_bom yes) (on_board no))",
        ),
        (
            "(symbol \"a:b\" (in_bom yes) (on_board yes) \
             (property \"k\" \"v\" (id 1.5) (at 0 0 90.5) (effects)))",
            "(symbol \"a:b\" (in_bom yes) (on_board yes) \
             (property \"k\" \"v\" (id 1) (at 0 0 90) (effects)))",
        ),
    ];
    for (input, written) in cases {
        let symbol = parse_owning::<SymbolDefinition>(input).unwrap();
        assert_eq!(symbol.to_sexpr(), read(written));
        let fast = parse_borrowing::<SymbolDefinitionFast>(input).unwrap();
        assert_eq!(fast.to_sexpr(), read(written));
        // What is written is legal, and is written back as it is.
        assert_round_trip::<SymbolDefinition>(written);
    }
}

#[test]
fn property_legacy_id_is_kept() {
    let with_id = "(property \"Reference\" \"R\" (id 0) (at 2.032 0 90) (effects (font (size 1.27 1.27))))";
    let without = "(property \"Reference\" \"R\" (at 2.032 0 90) (effects (font (size 1.27 1.27))))";
    let a = parse_owning::<SymbolProperty>(with_id).unwrap();
    let b = parse_owning::<SymbolProperty>(without).unwrap();
    assert_eq!(a.legacy_id, Some(0));
    assert_eq!(b.legacy_id, None);
    assert_eq!(a.position, Position { x: num(2.032), y: num(0.0), angle: Some(90) });
    assert_eq!(a.key, "Reference");
    assert_eq!(a.value, "R");
    assert_round_trip::<SymbolProperty>(with_id);
    assert_round_trip::<SymbolProperty>(without);
    assert_round_trip_borrowing::<SymbolPropertyFast>(with_id);
    assert_round_trip_borrowing::<SymbolPropertyFast>(without);
}

// ---------------------------------------------------------------------------
// Single entities.

#[test]
fn test_pin_hide_parsing() {
    let test_pin = r#"(pin no_connect line
        (at -7.62 -5.08 0)
        (length 2.54)
        (hide yes)
        (name "NC"
            (effects
                (font
                    (size 1.27 1.27)
                )
            )
        )
        (number "8"
            (effects
                (font
                    (size 1.27 1.27)
                )
            )
        )
    )"#;

    let sexpr = read(test_pin);
    let list = sexpr.as_list().unwrap();
    let parser = Parser::new(list.clone());

    match Pin::from_sexpr(parser) {
        Ok(pin) => {
            let output_sexpr = pin.to_sexpr();
            assert_eq!(sexpr, output_sexpr, "Round-trip mismatch for Pin with hide");
        }
        Err(e) => panic!("Error parsing Pin with hide: {:?}", e),
    }
}

#[test]
fn test_sensor_property_parsing() {
    let test_property = r#"(property "Footprint" "Package_SO:MSOP-10_3x3mm_P0.5mm"
        (at 5.08 -12.7 0)
        (effects
            (font
                (size 1.27 1.27)
            )
            (justify left)
            (hide yes)
        )
    )"#;

    let sexpr = read(test_property);
    let list = sexpr.as_list().unwrap();
    let parser = Parser::new(list.clone());

    match SymbolProperty::from_sexpr(parser) {
        Ok(prop) => {
            let output_sexpr = prop.to_sexpr();
            assert_eq!(sexpr, output_sexpr, "Round-trip mismatch for SymbolProperty");
        }
        Err(e) => panic!("Error parsing SymbolProperty: {:?}", e),
    }
}

#[test]
fn test_texteffects_hide_no_justify() {
    let test_effects = r#"(effects
        (font
            (size 1.27 1.27)
        )
        (hide yes)
    )"#;

    let sexpr = read(test_effects);
    let list = sexpr.as_list().unwrap();
    let parser = Parser::new(list.clone());

    let effects = TextEffects::from_sexpr(parser).unwrap();

    // Test round-trip
    let output_sexpr = effects.to_sexpr();
    assert_eq!(sexpr, output_sexpr, "Round-trip mismatch for TextEffects without justify");
}

#[test]
fn test_texteffects_hide_yes() {
    let test_effects = r#"(effects
        (font
            (size 1.27 1.27)
        )
        (justify left)
        (hide yes)
    )"#;

    let sexpr = read(test_effects);
    let list = sexpr.as_list().unwrap();
    let parser = Parser::new(list.clone());

    let effects = TextEffects::from_sexpr(parser).unwrap();

    // Test round-trip
    let output_sexpr = effects.to_sexpr();
    assert_eq!(sexpr, output_sexpr, "Round-trip mismatch for TextEffects");
}

#[test]
fn position_with_and_without_angle() {
    let a = parse_owning::<Position>("(at 1.5 -2 270)").unwrap();
    assert_eq!(a, Position { x: num(1.5), y: num(-2.0), angle: Some(270) });
    let b = parse_borrowing::<Position>("(at 1.5 -2)").unwrap();
    assert_eq!(b, Position { x: num(1.5), y: num(-2.0), angle: None });
    assert_round_trip::<Position>("(at 1.5 -2 270)");
    assert_round_trip::<Position>("(at 1.5 -2)");
    assert_eq!(
        parse_owning::<Position>("(at 1.5)").unwrap_err(),
        KiCadParseError::UnexpectedEndOfList
    );
    assert_eq!(
        parse_owning::<Position>("(at 1 2 3 4)").unwrap_err(),
        KiCadParseError::ExpectedEndOfList { found: Sexpr::Number(num(4.0)) }
    );
}

#[test]
fn graphics_items_keep_their_kind_and_content() {
    let item = parse_owning::<LibSymbolGraphicsItem>("(circle (center 0 0) (radius 1))").unwrap();
    assert_eq!(item.kind, GraphicsKind::Circle);
    assert_eq!(item.items, vec![read("(center 0 0)"), read("(radius 1)")]);
    for input in ["(arc)", "(bezier 1)", "(circle x)", "(polyline)", "(rectangle)", "(text \"t\")"] {
        assert_round_trip::<LibSymbolGraphicsItem>(input);
        assert_round_trip_borrowing::<LibSymbolGraphicsItem>(input);
        assert!(LibSymbolGraphicsItem::is_present(&children(&read(input))));
    }
    assert!(!LibSymbolGraphicsItem::is_present(&children(&read("(pin)"))));
    assert!(!LibSymbolGraphicsItem::is_present(&children(&read("(\"arc\")"))));
    assert!(!LibSymbolGraphicsItem::is_present(&vec![]));
    assert_eq!(
        parse_owning::<LibSymbolGraphicsItem>("(ellipse)").unwrap_err(),
        KiCadParseError::InvalidEnumValue {
            value: "ellipse".to_string(),
            enum_name: "graphics item"
        }
    );
}

#[test]
fn sub_units_hold_graphics_then_pins() {
    let input = "(symbol \"R_1_1\" (unit_name \"A\") (rectangle (start 0 0)) (pin passive line))";
    let unit = parse_owning::<LibSymbolSubUnit>(input).unwrap();
    assert_eq!(unit.id, UnitId { name: "R_1_1".to_string() });
    assert_eq!(unit.unit_name, Some("A".to_string()));
    assert_eq!(unit.graphic_items.len(), 1);
    assert_eq!(unit.pins.len(), 1);
    assert_round_trip::<LibSymbolSubUnit>(input);
    assert_round_trip_borrowing::<LibSymbolSubUnitFast>(input);
    // A shape after a pin is out of order.
    assert_eq!(
        parse_owning::<LibSymbolSubUnit>("(symbol \"R_1_1\" (pin) (arc))").unwrap_err(),
        KiCadParseError::ExpectedEndOfList { found: read("(arc)") }
    );
}

#[test]
fn presence_tests_look_at_the_keyword() {
    assert!(SymbolDefinition::is_present(&children(&read("(symbol)"))));
    assert!(!SymbolDefinition::is_present(&children(&read("(property)"))));
    assert!(SymbolProperty::is_present(&children(&read("(property 1 2 3)"))));
    assert!(!SymbolProperty::is_present(&children(&read("(\"property\")"))));
    assert!(PinNames::is_present(&children(&read("(pin_names)"))));
    assert!(Pin::is_present(&children(&read("(pin)"))));
    assert!(TextEffects::is_present(&children(&read("(effects)"))));
    assert!(Position::is_present(&children(&read("(at)"))));
    assert!(LibSymbolSubUnit::is_present(&children(&read("(symbol)"))));
    assert!(LibSymbol::is_present(&children(&read("(symbol)"))));
    let list = children(&read("(symbol \"x\")"));
    assert!(SymbolDefinitionFast::is_present_ref(&list));
    assert!(LibSymbolSubUnitFast::is_present_ref(&list));
    assert!(LibSymbolFast::is_present_ref(&list));
    assert!(!SymbolPropertyFast::is_present_ref(&list));
    assert!(!PinNamesFast::is_present_ref(&list));
    assert!(!Pin::is_present_ref(&list));
    assert!(!TextEffects::is_present_ref(&list));
    assert!(!Position::is_present_ref(&list));
    assert!(!SymbolDefinition::is_present(&vec![]));
}

// ---------------------------------------------------------------------------
// Errors, one for each kind.

#[test]
fn missing_in_bom_is_an_error() {
    let input = "(symbol \"Device:R\" (on_board yes))";
    let expected = KiCadParseError::NonMatchingSymbol {
        found: "on_board".to_string(),
        expected: "in_bom".to_string(),
    };
    assert_eq!(parse_owning::<SymbolDefinition>(input).unwrap_err(), expected);
    assert_eq!(parse_owning::<LibSymbol>(input).unwrap_err(), expected);
    assert_eq!(parse_borrowing::<SymbolDefinitionFast>(input).unwrap_err(), expected);
    let library = format!("(kicad_symbol_lib (version 1) (generator g) {input})");
    assert_eq!(parse_owning::<SymbolLibraryFile>(&library).unwrap_err(), expected);
    assert_eq!(parse_symbol_library_file_fast(&read(&library)).unwrap_err(), expected);
}

#[test]
fn unexpected_end_of_list() {
    assert_eq!(
        parse_owning::<SymbolDefinition>("(symbol \"Device:R\")").unwrap_err(),
        KiCadParseError::UnexpectedEndOfList
    );
    assert_eq!(
        parse_owning::<SymbolLibraryFile>("(kicad_symbol_lib (version 1) (generator))")
            .unwrap_err(),
        KiCadParseError::UnexpectedEndOfList
    );
}

#[test]
fn unexpected_token_kind() {
    assert_eq!(
        parse_owning::<SymbolDefinition>("(symbol Device)").unwrap_err(),
        KiCadParseError::UnexpectedSexprType { expected: SexprKind::String }
    );
    assert_eq!(
        parse_owning::<SymbolLibraryFile>("(kicad_symbol_lib 5)").unwrap_err(),
        KiCadParseError::UnexpectedSexprType { expected: SexprKind::List }
    );
    assert_eq!(
        parse_owning::<SymbolLibraryFile>("(kicad_symbol_lib (version \"1\"))").unwrap_err(),
        KiCadParseError::UnexpectedSexprType { expected: SexprKind::Number }
    );
    assert_eq!(
        parse_owning::<SymbolLibraryFile>("(kicad_symbol_lib (version 1) (generator (g)))")
            .unwrap_err(),
        KiCadParseError::UnexpectedSexprType { expected: SexprKind::String }
    );
    assert_eq!(
        parse_owning::<SymbolLibraryFile>("((kicad_symbol_lib))").unwrap_err(),
        KiCadParseError::UnexpectedSexprType { expected: SexprKind::Symbol }
    );
    assert_eq!(
        parse_symbol_library_file_fast(&sym("kicad_symbol_lib")).unwrap_err(),
        KiCadParseError::UnexpectedSexprType { expected: SexprKind::List }
    );
}

#[test]
fn non_matching_symbol() {
    assert_eq!(
        parse_owning::<SymbolLibraryFile>("(kicad_pcb (version 1))").unwrap_err(),
        KiCadParseError::NonMatchingSymbol {
            found: "kicad_pcb".to_string(),
            expected: "kicad_symbol_lib".to_string()
        }
    );
    assert_eq!(
        parse_owning::<LibSymbol>("(symbol \"a:b\" (pin_numbers show) (in_bom yes) (on_board yes))")
            .unwrap_err(),
        KiCadParseError::NonMatchingSymbol {
            found: "show".to_string(),
            expected: "hide".to_string()
        }
    );
}

#[test]
fn invalid_enum_value() {
    assert_eq!(
        parse_owning::<LibSymbol>("(symbol \"a:b\" (in_bom maybe) (on_board yes))").unwrap_err(),
        KiCadParseError::InvalidEnumValue { value: "maybe".to_string(), enum_name: "bool" }
    );
    // An optional truth value is spelled yes or no only.
    assert_eq!(
        parse_owning::<LibSymbol>("(symbol \"a:b\" (exclude_from_sim true) (in_bom yes) (on_board yes))")
            .unwrap_err(),
        KiCadParseError::InvalidEnumValue { value: "true".to_string(), enum_name: "bool" }
    );
}

#[test]
fn truth_values_have_four_spellings() {
    let root = parse_owning::<LibSymbol>("(symbol \"a:b\" (in_bom true) (on_board false))").unwrap();
    assert!(root.in_bom);
    assert!(!root.on_board);
    assert_eq!(root.to_sexpr(), read("(symbol \"a:b\" (in_bom yes) (on_board no))"));
}

#[test]
fn expected_end_of_list() {
    assert_eq!(
        parse_owning::<SymbolLibraryFile>("(kicad_symbol_lib (version 1) (generator g) 7)")
            .unwrap_err(),
        KiCadParseError::ExpectedEndOfList { found: Sexpr::Number(num(7.0)) }
    );
    assert_eq!(
        parse_owning::<LibSymbol>("(symbol \"a:b\" (power on) (in_bom yes) (on_board yes))")
            .unwrap_err(),
        KiCadParseError::ExpectedEndOfList { found: sym("on") }
    );
    assert_eq!(
        parse_owning::<LibSymbol>("(symbol \"a:b\" (in_bom yes no) (on_board yes))").unwrap_err(),
        KiCadParseError::ExpectedEndOfList { found: sym("no") }
    );
}

#[test]
fn malformed_library_identifier() {
    for bad in ["R", ":R", "Device:", "", ":"] {
        let input = format!("(symbol \"{bad}\" (in_bom yes) (on_board yes))");
        assert_eq!(
            parse_owning::<SymbolDefinition>(&input).unwrap_err(),
            KiCadParseError::InvalidLibraryId(LibraryIdParseError { input: bad.to_string() })
        );
        assert_eq!(
            LibraryId::from_str(bad).unwrap_err(),
            LibraryIdParseError { input: bad.to_string() }
        );
    }
}

#[test]
fn library_identifier_through_the_std_traits() {
    assert_eq!("Device:R".parse::<LibraryId>(), Ok(id("Device", "R")));
    let error = "Device".parse::<LibraryId>().unwrap_err();
    assert_eq!(error, LibraryIdParseError { input: "Device".to_string() });
    assert_eq!(
        KiCadParseError::from(error),
        KiCadParseError::InvalidLibraryId(LibraryIdParseError { input: "Device".to_string() })
    );
}

#[test]
fn library_identifier_splits_at_the_first_colon() {
    assert_eq!(LibraryId::from_str("Device:R").unwrap(), id("Device", "R"));
    assert_eq!(LibraryId::from_str("a:b:c").unwrap(), id("a", "b:c"));
    assert_eq!(LibraryId::from_str("Größe:Ω").unwrap(), id("Größe", "Ω"));
    for input in ["Device:R", "a:b:c", "Größe:Ω", "x:y "] {
        let parsed = LibraryId::from_str(input).unwrap();
        assert_eq!(parsed.text(), input);
        assert_eq!(parsed.to_sexpr(), text(input));
    }
}

// ---------------------------------------------------------------------------
// Numbers that are read as integers.

#[test]
fn version_is_the_number_rounded_toward_zero() {
    let library =
        parse_owning::<SymbolLibraryFile>("(kicad_symbol_lib (version 1.5) (generator g))").unwrap();
    assert_eq!(library.version, 1);
    assert_eq!(
        library.to_sexpr(),
        read("(kicad_symbol_lib (version 1) (generator g))")
    );
    let negative =
        parse_owning::<SymbolLibraryFile>("(kicad_symbol_lib (version -3) (generator g))").unwrap();
    assert_eq!(negative.version, 0);
}

// ---------------------------------------------------------------------------
// The cursors.

#[test]
fn borrowing_cursor_primitives() {
    let list = children(&read("(a \"b\" 3 (c d) (e yes) (f) (g 1 2))"));
    let mut p = ParserRef::new(&list);
    assert_eq!(p.peek_next(), Some(&sym("a")));
    assert_eq!(p.expect_symbol().unwrap(), "a");
    assert_eq!(p.expect_string().unwrap(), "b");
    assert_eq!(p.expect_number().unwrap(), num(3.0));
    let snapshot = p;
    let mut inner = p.expect_list_with_name("c").unwrap();
    assert_eq!(inner.expect_symbol().unwrap(), "d");
    assert_eq!(inner.expect_end(), Ok(()));
    // The snapshot still stands before the list.
    let mut again = snapshot;
    assert_eq!(again.expect_list().unwrap().expect_symbol().unwrap(), "c");
    assert!(p.maybe_list_with_name("x").is_none());
    assert_eq!(p.expect_bool_with_name("e").unwrap(), true);
    assert!(p.maybe_empty_list_with_name("f"));
    assert_eq!(p.rest(), vec![read("(g 1 2)")]);
    assert_eq!(p.expect_number_with_name("g").unwrap(), num(1.0));
    assert_eq!(p.peek_next(), None);
    assert_eq!(p.expect_next().unwrap_err(), KiCadParseError::UnexpectedEndOfList);
    assert_eq!(p.expect_end(), Ok(()));
}

#[test]
fn borrowing_cursor_errors() {
    let list = children(&read("(a \"b\" (c) 4)"));
    let mut p = ParserRef::new(&list);
    assert_eq!(
        p.expect_string().unwrap_err(),
        KiCadParseError::UnexpectedSexprType { expected: SexprKind::String }
    );
    // The token was consumed by the failed read.
    assert_eq!(
        p.expect_symbol_matching("b").unwrap_err(),
        KiCadParseError::UnexpectedSexprType { expected: SexprKind::Symbol }
    );
    assert_eq!(
        p.expect_list_with_name("d").unwrap_err(),
        KiCadParseError::NonMatchingSymbol { found: "c".to_string(), expected: "d".to_string() }
    );
    assert_eq!(
        p.expect_end().unwrap_err(),
        KiCadParseError::ExpectedEndOfList { found: Sexpr::Number(num(4.0)) }
    );
    assert_eq!(
        p.expect_list().unwrap_err(),
        KiCadParseError::UnexpectedSexprType { expected: SexprKind::List }
    );
    assert_eq!(
        p.expect_number().unwrap_err(),
        KiCadParseError::UnexpectedEndOfList
    );
}

#[test]
fn borrowing_cursor_lenient_readers() {
    let list = children(&read("((s \"v\" extra) (s 5) (n 1.5) (n x) (b no) (b nope) (e) (e 1) hide 9)"));
    let mut p = ParserRef::new(&list);
    assert_eq!(p.expect_string_with_name("s").unwrap(), "v");
    // A list of the right name with a wrong value is consumed and yields nothing.
    assert_eq!(p.maybe_string_with_name("s"), None);
    assert_eq!(p.maybe_number_with_name("n"), Some(num(1.5)));
    assert_eq!(p.maybe_number_with_name("n"), None);
    assert_eq!(p.maybe_bool_with_name("b"), Ok(Some(false)));
    assert_eq!(
        p.maybe_bool_with_name("b").unwrap_err(),
        KiCadParseError::InvalidEnumValue { value: "nope".to_string(), enum_name: "bool" }
    );
    assert_eq!(p.maybe_bool_with_name("b"), Ok(None));
    assert!(p.maybe_empty_list_with_name("e"));
    assert!(!p.maybe_empty_list_with_name("e"));
    assert!(!p.maybe_symbol_matching("show"));
    assert!(p.maybe_symbol_matching("hide"));
    assert_eq!(p.maybe_number(), Some(num(9.0)));
    assert_eq!(p.maybe_number(), None);
    assert_eq!(p.maybe_string_with_name("s"), None);
    assert!(!p.maybe_empty_list_with_name("e"));
    let other = children(&read("((k v) (k \"v\"))"));
    let mut q = ParserRef::new(&other);
    assert_eq!(q.expect_symbol_with_name("k").unwrap(), "v");
    assert_eq!(
        q.expect_symbol_with_name("k").unwrap_err(),
        KiCadParseError::UnexpectedSexprType { expected: SexprKind::Symbol }
    );
}

#[test]
fn borrowing_cursor_fields() {
    let list = children(&read("((s \"v\") (n 2) (b true) (f) (o yes) (s \"v\" extra))"));
    let mut p = ParserRef::new(&list);
    assert_eq!(p.optional_string_field("x"), Ok(None));
    assert_eq!(p.optional_string_field("s"), Ok(Some("v")));
    assert_eq!(p.optional_number_field("n"), Ok(Some(num(2.0))));
    assert_eq!(p.bool_field("b"), Ok(true));
    assert_eq!(p.flag_field("f"), Ok(true));
    assert_eq!(p.flag_field("f"), Ok(false));
    assert_eq!(p.optional_bool_field("o"), Ok(Some(true)));
    assert_eq!(
        p.string_field("s").unwrap_err(),
        KiCadParseError::ExpectedEndOfList { found: sym("extra") }
    );
    assert_eq!(p.number_field("n").unwrap_err(), KiCadParseError::UnexpectedEndOfList);
}

#[test]
fn owning_cursor_primitives() {
    let mut p = Parser::new(children(&read("(a \"b\" 3 (c d) (e yes) (f) (g 1 2))")));
    assert_eq!(p.peek_next(), Some(&sym("a")));
    assert_eq!(p.expect_symbol().unwrap(), "a");
    assert_eq!(p.expect_string().unwrap(), "b");
    assert_eq!(p.expect_number().unwrap(), num(3.0));
    let snapshot = p.clone();
    let mut inner = p.expect_list_with_name("c").unwrap();
    assert_eq!(inner.expect_symbol().unwrap(), "d");
    assert_eq!(inner.expect_end(), Ok(()));
    let mut again = snapshot;
    assert_eq!(again.expect_list().unwrap().expect_symbol().unwrap(), "c");
    assert!(p.maybe_list_with_name("x").is_none());
    assert!(p.at_list_with_name("e"));
    assert_eq!(p.expect_bool_with_name("e").unwrap(), true);
    assert_eq!(p.flag_field("f"), Ok(true));
    assert_eq!(p.clone().take_rest(), vec![read("(g 1 2)")]);
    assert_eq!(
        p.number_field("g").unwrap_err(),
        KiCadParseError::ExpectedEndOfList { found: Sexpr::Number(num(2.0)) }
    );
    assert_eq!(p.peek_next(), None);
    assert_eq!(p.expect_next().unwrap_err(), KiCadParseError::UnexpectedEndOfList);
    assert_eq!(p.expect_end(), Ok(()));
}

#[test]
fn owning_cursor_fields() {
    let mut p = Parser::new(children(&read("((s \"v\") (n 2) (b false) (o no) (m x))")));
    assert_eq!(p.optional_string_field("s"), Ok(Some("v".to_string())));
    assert_eq!(p.optional_number_field("x"), Ok(None));
    assert_eq!(p.optional_number_field("n"), Ok(Some(num(2.0))));
    assert_eq!(p.bool_field("b"), Ok(false));
    assert_eq!(p.optional_bool_field("o"), Ok(Some(false)));
    assert_eq!(
        p.expect_symbol_matching("m").unwrap_err(),
        KiCadParseError::UnexpectedSexprType { expected: SexprKind::Symbol }
    );
    assert_eq!(p.expect_end(), Ok(()));
}

#[test]
fn generic_combinators() {
    let list = children(&read(
        "((property \"a\" \"1\" (at 0 0) (effects)) (property \"b\" \"2\" (at 0 0) (effects)) (pin) (property))",
    ));
    let mut p = ParserRef::new(&list);
    assert_eq!(p.maybe::<Pin>(), Ok(None));
    let properties = p.expect_many::<SymbolPropertyFast>().unwrap();
    assert_eq!(properties.len(), 2);
    assert_eq!(properties[1].key.as_str(), "b");
    assert_eq!(p.expect_many::<SymbolPropertyFast>().unwrap().len(), 0);
    assert_eq!(p.expect::<Pin>(), Ok(Pin { items: vec![] }));
    // A node that looks like a property and is none is an error, not the end.
    assert_eq!(
        p.expect_many::<SymbolPropertyFast>().unwrap_err(),
        KiCadParseError::UnexpectedEndOfList
    );

    let mut q = Parser::new(list.clone());
    assert_eq!(q.maybe::<Pin>(), Ok(None));
    assert_eq!(q.expect_many::<SymbolProperty>().unwrap().len(), 2);
    assert_eq!(q.maybe::<Pin>(), Ok(Some(Pin { items: vec![] })));
    assert_eq!(
        q.expect::<Pin>().unwrap_err(),
        KiCadParseError::NonMatchingSymbol { found: "property".to_string(), expected: "pin".to_string() }
    );
}

// ---------------------------------------------------------------------------
// Token trees.

#[test]
fn tree_constructors() {
    assert_eq!(Sexpr::symbol("a"), sym("a"));
    assert_eq!(Sexpr::string("a"), text("a"));
    assert_eq!(Sexpr::number(num(1.0)), Sexpr::Number(num(1.0)));
    assert_eq!(Sexpr::list(vec![sym("a")]), read("(a)"));
    assert_eq!(Sexpr::flag("power"), read("(power)"));
    assert_eq!(Sexpr::list_with_name("n", vec![sym("a"), text("b")]), read("(n a \"b\")"));
    assert_eq!(Sexpr::string_with_name("n", "v"), read("(n \"v\")"));
    assert_eq!(Sexpr::symbol_with_name("n", "v"), read("(n v)"));
    assert_eq!(Sexpr::number_with_name("n", num(2.5)), read("(n 2.5)"));
    assert_eq!(Sexpr::bool_with_name("n", true), read("(n yes)"));
    assert_eq!(Sexpr::bool_with_name("n", false), read("(n no)"));
    let tree = read("(a (b \"c\" 1) d)");
    assert_eq!(tree.clone(), tree);
    assert_eq!(tree.kind(), SexprKind::List);
    assert_eq!(sym("a").as_symbol(), Some("a"));
    assert_eq!(text("a").as_symbol(), None);
    assert_eq!(sym("a").as_list(), None);
    assert_eq!(kicad_format::sexpr::first_symbol(&children(&tree)), Some("a"));
    assert!(kicad_format::sexpr::starts_with_symbol(&children(&tree), "a"));
    assert!(!kicad_format::sexpr::starts_with_symbol(&children(&tree), "b"));
    assert!(kicad_format::text::str_eq("Ω", "Ω"));
    assert!(!kicad_format::text::str_eq("ab", "ac"));
    assert!(!kicad_format::text::str_eq("ab", "abc"));
}

// ---------------------------------------------------------------------------
// Interning.

#[test]
fn interning_twice_gives_equal_results() {
    for key in ["Value", "Reference", "extends", "D", "Custom", "", "value"] {
        let a = intern_property_key(key);
        let b = intern_property_key(key);
        assert_eq!(a, b);
        assert_eq!(a.as_str(), key);
    }
}

#[test]
fn listed_keys_share_one_constant() {
    for key in init_property_keys() {
        let owned = key.to_string();
        let a = intern_property_key(&owned);
        let b = intern_property_key(&owned);
        match (&a.0, &b.0) {
            (Cow::Borrowed(x), Cow::Borrowed(y)) => {
                assert!(std::ptr::eq(*x, *y));
                assert_eq!(*x, key);
            }
            _ => panic!("a listed key is shared"),
        }
    }
    assert_eq!(init_property_keys().len(), 13);
}

#[test]
fn unlisted_keys_get_a_string_of_their_own() {
    for key in ["Custom", "value", "", "Value "] {
        match intern_property_key(key).0 {
            Cow::Owned(s) => assert_eq!(s, key),
            Cow::Borrowed(_) => panic!("an unlisted key is not shared"),
        }
    }
}

#[test]
fn interned_string_constructors() {
    assert_eq!(InternedString::from_static("a"), InternedString::from_string("a".to_string()));
    assert_eq!(InternedString::new(Cow::Borrowed("a")).as_str(), "a");
    assert_eq!(InternedString::from_string("b".to_string()).clone().as_str(), "b");
}

#[test]
fn interned_string_conversions() {
    let shared: InternedString = "Value".into();
    let owned: InternedString = String::from("Value").into();
    assert!(matches!(shared.0, Cow::Borrowed("Value")));
    assert!(matches!(owned.0, Cow::Owned(_)));
    assert_eq!(shared, owned);
    // Through the string slice behind it.
    assert_eq!(shared.len(), 5);
    assert!(owned.starts_with("Val"));
}

#[test]
fn text_effects_of_a_size() {
    let effects = TextEffects::from_size(num(1.0), num(1.0));
    assert_eq!(effects.to_sexpr(), read("(effects (font (size 1 1)))"));
    assert_eq!(parse_owning::<TextEffects>("(effects (font (size 1 1)))").unwrap(), effects);
    assert_eq!(effects.clone(), effects);
}

#[test]
fn interning_does_not_show_in_what_is_written() {
    let listed = "(property \"Value\" \"v\" (at 0 0) (effects))";
    let unlisted = "(property \"Custom\" \"v\" (at 0 0) (effects))";
    for input in [listed, unlisted] {
        let fast = parse_borrowing::<SymbolPropertyFast>(input).unwrap();
        let regular = parse_owning::<SymbolProperty>(input).unwrap();
        assert_eq!(fast.to_sexpr(), regular.to_sexpr());
        assert_eq!(SymbolProperty::from(fast), regular);
    }
}

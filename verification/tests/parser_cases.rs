use memedsn::error::{LexError, ParseError};
use memedsn::lexer::Lexer;
use memedsn::number::DsnNumber;
use memedsn::parser::Parser;
use memedsn::token::{Tok, Token};
use memedsn::types::{
    DsnCircuit, DsnClearanceType, DsnDimensionUnit, DsnKeepoutType, DsnLayerType, DsnLibrary,
    DsnLockType, DsnNetwork, DsnPcb, DsnPinRef, DsnPlacement, DsnRect, DsnResolution, DsnRule,
    DsnShape, DsnSide, DsnStructure, DsnUnit, DsnWiring,
};

fn read(data: &str) -> Result<DsnPcb, ParseError> {
    let tokens = Lexer::new(data).unwrap().lex().unwrap();
    Parser::new(&tokens).parse()
}

fn value(n: &DsnNumber) -> f64 {
    n.as_str().parse().unwrap()
}

fn token(tok: Tok, s: &str) -> Token {
    Token { tok, s: s.to_string() }
}

#[test]
fn minimal_design_has_blank_sections() {
    let pcb = read("(pcb test)").unwrap();
    assert_eq!(pcb.pcb_id, "test");
    assert_eq!(pcb.library, DsnLibrary::default());
    assert_eq!(pcb.network, DsnNetwork::default());
    assert_eq!(pcb.placement, DsnPlacement::default());
    assert_eq!(pcb.resolution, DsnResolution::default());
    assert_eq!(pcb.structure, DsnStructure::default());
    assert_eq!(pcb.unit, DsnUnit::default());
    assert_eq!(pcb.wiring, DsnWiring::default());
    assert_eq!(pcb, DsnPcb { pcb_id: "test".to_string(), ..DsnPcb::default() });
}

#[test]
fn blank_values() {
    let pcb = DsnPcb::default();
    assert_eq!(pcb.pcb_id, "");
    assert!(pcb.library.images.is_empty() && pcb.library.padstacks.is_empty());
    assert!(pcb.network.classes.is_empty() && pcb.network.nets.is_empty());
    assert!(pcb.placement.components.is_empty());
    assert_eq!(pcb.resolution.dimension, DsnDimensionUnit::Inch);
    assert_eq!(pcb.resolution.amount, 0);
    assert_eq!(pcb.unit.dimension, DsnDimensionUnit::Inch);
    assert!(pcb.structure.boundaries.is_empty() && pcb.structure.vias.is_empty());
    assert!(pcb.wiring.wires.is_empty() && pcb.wiring.vias.is_empty());
    assert_eq!(DsnSide::default(), DsnSide::Front);
    assert_eq!(DsnLockType::default(), DsnLockType::Gate);
    assert_eq!(DsnLayerType::default(), DsnLayerType::Signal);
    assert_eq!(DsnKeepoutType::default(), DsnKeepoutType::Keepout);
    assert_eq!(DsnClearanceType::default(), DsnClearanceType::DefaultSmd);
    assert_eq!(DsnShape::default(), DsnShape::Rect(DsnRect::default()));
}

#[test]
fn resolution_unit_and_amount() {
    let pcb = read("(pcb t (resolution mm 1000))").unwrap();
    assert_eq!(pcb.resolution.dimension, DsnDimensionUnit::Mm);
    assert_eq!(pcb.resolution.amount, 1000);
    let pcb = read("(pcb t (resolution um -25))").unwrap();
    assert_eq!(pcb.resolution.dimension, DsnDimensionUnit::Um);
    assert_eq!(pcb.resolution.amount, -25);
}

#[test]
fn boundary_rect_on_layer() {
    let pcb = read("(pcb t (structure (boundary (rect Top 0 0 100 100))))").unwrap();
    assert_eq!(pcb.structure.boundaries.len(), 1);
    match &pcb.structure.boundaries[0] {
        DsnShape::Rect(r) => {
            assert_eq!(r.layer_id, "Top");
            let (a, b) = r.corners();
            assert_eq!((value(&a.x), value(&a.y)), (0.0, 0.0));
            assert_eq!((value(&b.x), value(&b.y)), (100.0, 100.0));
        }
        _ => panic!("Expected rect shape"),
    }
}

#[test]
fn rect_is_the_same_for_either_order_of_its_corners() {
    let first = read("(pcb t (structure (boundary (rect Top 0 0 100 100))))").unwrap();
    let second = read("(pcb t (structure (boundary (rect Top 100 100 0 0))))").unwrap();
    let other_diagonal = read("(pcb t (structure (boundary (rect Top 0 100 100 0))))").unwrap();
    let larger = read("(pcb t (structure (boundary (rect Top 0 0 100 101))))").unwrap();
    let elsewhere = read("(pcb t (structure (boundary (rect Bottom 0 0 100 100))))").unwrap();
    assert_eq!(first.structure.boundaries[0], second.structure.boundaries[0]);
    assert_eq!(first.structure.boundaries[0], other_diagonal.structure.boundaries[0]);
    assert_eq!(first, second);
    assert_ne!(first.structure.boundaries[0], larger.structure.boundaries[0]);
    assert_ne!(first.structure.boundaries[0], elsewhere.structure.boundaries[0]);
    // Both have the same two corners.
    match (&first.structure.boundaries[0], &second.structure.boundaries[0]) {
        (DsnShape::Rect(r), DsnShape::Rect(s)) => {
            let low = |x: &DsnNumber, y: &DsnNumber| value(x).min(value(y));
            let high = |x: &DsnNumber, y: &DsnNumber| value(x).max(value(y));
            for rect in [r, s] {
                let (a, b) = rect.corners();
                assert_eq!((low(&a.x, &b.x), low(&a.y, &b.y)), (0.0, 0.0));
                assert_eq!((high(&a.x, &b.x), high(&a.y, &b.y)), (100.0, 100.0));
            }
        }
        _ => panic!("Expected rect shapes"),
    }
}

#[test]
fn polygon_needs_three_points_and_path_two() {
    let polygon = |pts: &str| read(&format!("(pcb t (structure (boundary (polygon Top 1 {}))))", pts));
    let path = |pts: &str| read(&format!("(pcb t (structure (boundary (path Top 1 {}))))", pts));
    assert_eq!(polygon("").unwrap_err(), ParseError::PolygonTooFewPoints);
    assert_eq!(polygon("0 0").unwrap_err(), ParseError::PolygonTooFewPoints);
    assert_eq!(polygon("0 0 1 1").unwrap_err(), ParseError::PolygonTooFewPoints);
    match &polygon("0 0 1 1 2 2").unwrap().structure.boundaries[0] {
        DsnShape::Polygon(p) => {
            assert_eq!(p.pts.len(), 3);
            assert_eq!((value(&p.pts[2].x), value(&p.pts[2].y)), (2.0, 2.0));
        }
        _ => panic!("Expected polygon shape"),
    }
    assert_eq!(path("").unwrap_err(), ParseError::PathTooFewPoints);
    assert_eq!(path("0 0").unwrap_err(), ParseError::PathTooFewPoints);
    match &path("0 0 1 1").unwrap().structure.boundaries[0] {
        DsnShape::Path(p) => assert_eq!(p.pts.len(), 2),
        _ => panic!("Expected path shape"),
    }
    // A point that lacks a coordinate is met before the points are counted.
    assert_eq!(polygon("0 0 1").unwrap_err(), ParseError::InvalidNumber(")".to_string()));
}

#[test]
fn pin_reference_is_split_at_its_last_hyphen() {
    let split = |s: &str| DsnPinRef::parse(s).map(|p| (p.component_id, p.pin_id));
    assert_eq!(split("R-A-1"), Some(("R-A".to_string(), "1".to_string())));
    assert_eq!(split("R1-1"), Some(("R1".to_string(), "1".to_string())));
    assert_eq!(split("a--b"), Some(("a-".to_string(), "b".to_string())));
    assert_eq!(split("--b"), Some(("-".to_string(), "b".to_string())));
    assert_eq!(split("a-b"), Some(("a".to_string(), "b".to_string())));
    assert_eq!(split("é-ü"), Some(("é".to_string(), "ü".to_string())));
    assert_eq!(split("R1_invalid"), None);
    assert_eq!(split(""), None);
    assert_eq!(
        read("(pcb t (network (net GND (pins R1_invalid))))").unwrap_err(),
        ParseError::InvalidPinReference("R1_invalid".to_string())
    );
}

#[test]
fn pin_reference_needs_a_component_and_a_pin() {
    for text in ["-1", "R1-", "-", "--", "a--", "R-A-"] {
        assert!(DsnPinRef::parse(text).is_none(), "{}", text);
        assert_eq!(
            read(&format!("(pcb t (network (net GND (pins R1-1 {}))))", text)).unwrap_err(),
            ParseError::InvalidPinReference(text.to_string()),
            "{}",
            text
        );
    }
    let parser = Parser::new(&[token(Tok::Literal, "-1")]);
    assert!(parser.parse().is_err());
}

#[test]
fn design_needs_a_name() {
    let tokens = Lexer::new("(string_quote \") (pcb \"\")").unwrap().lex().unwrap();
    assert_eq!(tokens.len(), 4);
    assert_eq!(tokens[2].s, "");
    assert_eq!(Parser::new(&tokens).parse().unwrap_err(), ParseError::EmptyId);
    assert_eq!(
        read("(string_quote \") (pcb \"\" (unit mm))").unwrap_err(),
        ParseError::EmptyId
    );
    assert_eq!(read("(string_quote \") (pcb \" \")").unwrap().pcb_id, " ");
    assert_eq!(read("(pcb )").unwrap_err(), ParseError::UnexpectedEof);
}

#[test]
fn parser_form_changes_nothing() {
    let plain = "(pcb t (resolution mm 10) (structure (layer Top (type power))) (unit cm))";
    let with = [
        "(pcb t (parser (host_cad freeroute)) (resolution mm 10) (structure (layer Top (type power))) (unit cm))",
        "(pcb t (resolution mm 10) (parser (host_cad freeroute)) (structure (layer Top (type power))) (unit cm))",
        "(pcb t (resolution mm 10) (structure (layer Top (type power))) (unit cm) (parser (host_cad freeroute)))",
        "(pcb t (resolution mm 10) (parser) (structure (layer Top (type power))) (parser (a (b (c) d)) e) (unit cm))",
    ];
    for data in with {
        assert_eq!(read(data).unwrap(), read(plain).unwrap());
    }
    assert_eq!(
        read("(pcb t (parser (host_cad freeroute)) (bogus))").unwrap_err(),
        read("(pcb t (bogus))").unwrap_err()
    );
}

#[test]
fn skipped_form_may_begin_with_a_form() {
    let pcb = read("(pcb t (parser ((a) b) (c)) (unit mm))").unwrap();
    assert_eq!(pcb.unit.dimension, DsnDimensionUnit::Mm);
    let pcb = read("(pcb t (structure (layer L (property ((x))) (type mixed))))").unwrap();
    assert_eq!(pcb.structure.layers[0].layer_type, DsnLayerType::Mixed);
}

#[test]
fn skipped_form_must_be_closed() {
    assert_eq!(read("(pcb t (parser (host_cad freeroute)").unwrap_err(), ParseError::UnexpectedEof);
}

#[test]
fn later_section_replaces_the_earlier_one() {
    let pcb = read("(pcb t (unit mm) (library (image a)) (unit cm) (library (image b) (image c)))")
        .unwrap();
    assert_eq!(pcb.unit.dimension, DsnDimensionUnit::Cm);
    assert_eq!(pcb.library.images.len(), 2);
    assert_eq!(pcb.library.images[0].image_id, "b");
}

#[test]
fn rules_and_vias_of_a_structure_add_up() {
    let pcb = read("(pcb t (structure (via a b) (rule (width 1)) (via c) (rule (width 2) (width 3))))")
        .unwrap();
    assert_eq!(pcb.structure.vias, vec!["a", "b", "c"]);
    let widths: Vec<f64> = pcb
        .structure
        .rules
        .iter()
        .map(|r| match r {
            DsnRule::Width(w) => value(w),
            DsnRule::Clearance(_) => panic!("Expected width rule"),
        })
        .collect();
    assert_eq!(widths, vec![1.0, 2.0, 3.0]);
}

#[test]
fn class_holds_nets_circuits_and_rules_in_order() {
    let pcb = read(
        "(pcb t (network (class c n1 (circuit (use_via v1) (use_via v2)) n2 (rule (width 1)) (circuit (use_via v3)) n3)))",
    )
    .unwrap();
    let class = &pcb.network.classes[0];
    assert_eq!(class.class_id, "c");
    assert_eq!(class.net_ids, vec!["n1", "n2", "n3"]);
    assert_eq!(
        class.circuits,
        vec![
            DsnCircuit::UseVia("v1".to_string()),
            DsnCircuit::UseVia("v2".to_string()),
            DsnCircuit::UseVia("v3".to_string())
        ]
    );
    assert_eq!(class.rules.len(), 1);
}

#[test]
fn pins_of_a_net_add_up() {
    let pcb = read("(pcb t (network (net n (pins a-1 b-2) (pins c-3))))").unwrap();
    let pins: Vec<(&str, &str)> = pcb.network.nets[0]
        .pins
        .iter()
        .map(|p| (p.component_id.as_str(), p.pin_id.as_str()))
        .collect();
    assert_eq!(pins, vec![("a", "1"), ("b", "2"), ("c", "3")]);
}

#[test]
fn clearance_without_type_applies_to_all() {
    let types = |data: &str| match &read(data).unwrap().structure.rules[0] {
        DsnRule::Clearance(c) => c.types.clone(),
        DsnRule::Width(_) => panic!("Expected clearance rule"),
    };
    assert_eq!(types("(pcb t (structure (rule (clearance 1))))"), vec![DsnClearanceType::All]);
    assert_eq!(
        types("(pcb t (structure (rule (clearance 1 (type smd_smd) (type default_smd)))))"),
        vec![DsnClearanceType::SmdSmd, DsnClearanceType::DefaultSmd]
    );
}

#[test]
fn stubs_are_recognised_and_hold_nothing() {
    let pcb = read("(pcb t (wiring (wire) (via) (wire)) (structure (plane) (plane)))").unwrap();
    assert_eq!(pcb.wiring.wires.len(), 2);
    assert_eq!(pcb.wiring.vias.len(), 1);
    assert_eq!(pcb.structure.planes.len(), 2);
    assert_eq!(
        read("(pcb t (wiring (wire x)))").unwrap_err(),
        ParseError::UnexpectedToken(token(Tok::Literal, "x"))
    );
}

#[test]
fn keepout_keeps_its_last_shape() {
    let pcb = read("(pcb t (structure (wire_keepout (circle A 1) (circle B 2)) (keepout)))").unwrap();
    assert_eq!(pcb.structure.keepouts[0].keepout_type, DsnKeepoutType::WireKeepout);
    match &pcb.structure.keepouts[0].shape {
        DsnShape::Circle(c) => assert_eq!(c.layer_id, "B"),
        _ => panic!("Expected circle shape"),
    }
    assert_eq!(pcb.structure.keepouts[1].shape, DsnShape::default());
}

#[test]
fn pin_without_rotation_is_not_rotated() {
    let pcb = read("(pcb t (library (image i (pin p 1 2 3) (pin p (rotate -90) 2 4 5))))").unwrap();
    let pins = &pcb.library.images[0].pins;
    assert_eq!(value(&pins[0].rotation), 0.0);
    assert_eq!(pins[0].rotation, DsnNumber::zero());
    assert_eq!((value(&pins[0].p.x), value(&pins[0].p.y)), (2.0, 3.0));
    assert_eq!(value(&pins[1].rotation), -90.0);
    assert_eq!(pins[1].pin_id, "2");
}

#[test]
fn circle_without_centre_sits_on_the_origin() {
    let pcb = read("(pcb t (structure (boundary (circle Top 10))))").unwrap();
    match &pcb.structure.boundaries[0] {
        DsnShape::Circle(c) => {
            assert_eq!((value(&c.p.x), value(&c.p.y)), (0.0, 0.0));
            assert_eq!(value(&c.diameter), 10.0);
        }
        _ => panic!("Expected circle shape"),
    }
}

#[test]
fn numbers_keep_their_spelling() {
    let pcb = read("(pcb t (structure (rule (width 2.5E-1) (width +.5) (width 007))))").unwrap();
    let spelled: Vec<&str> = pcb
        .structure
        .rules
        .iter()
        .map(|r| match r {
            DsnRule::Width(w) => w.as_str(),
            DsnRule::Clearance(_) => panic!("Expected width rule"),
        })
        .collect();
    assert_eq!(spelled, vec!["2.5E-1", "+.5", "007"]);
}

#[test]
fn keyword_where_a_name_is_due_is_a_name() {
    let pcb = read("(pcb net (structure (layer via) (via pcb net)))").unwrap();
    assert_eq!(pcb.pcb_id, "net");
    assert_eq!(pcb.structure.layers[0].layer_name, "via");
    assert_eq!(pcb.structure.vias, vec!["pcb", "net"]);
}

#[test]
fn tokens_after_the_design_are_not_read() {
    let pcb = read("(pcb t) (pcb u) )) junk").unwrap();
    assert_eq!(pcb.pcb_id, "t");
}

#[test]
fn unexpected_eof() {
    for data in [
        "",
        "(",
        "(pcb",
        "(pcb t",
        "(pcb t (",
        "(pcb t (library",
        "(pcb t (library (image",
        "(pcb t (resolution mm",
        "(pcb t (structure (via a",
        "(pcb t (structure (boundary (polygon Top 1 0 0 1",
        "(pcb t (network (class c",
        "(pcb t (network (class c (",
        "(pcb t (library (image i (pin p",
        "(pcb t (structure (boundary (circle Top 1",
        "(pcb t (structure (boundary (",
    ] {
        assert_eq!(read(data).unwrap_err(), ParseError::UnexpectedEof, "{}", data);
    }
}

#[test]
fn unexpected_token() {
    assert_eq!(read("pcb t)").unwrap_err(), ParseError::UnexpectedToken(token(Tok::Pcb, "pcb")));
    assert_eq!(read("(PCB2 t)").unwrap_err(), ParseError::UnexpectedToken(token(Tok::Literal, "PCB2")));
    assert_eq!(
        read("(pcb t (resolution mm 10 20))").unwrap_err(),
        ParseError::UnexpectedToken(token(Tok::Literal, "20"))
    );
    assert_eq!(
        read("(pcb t library)").unwrap_err(),
        ParseError::UnrecognisedToken(token(Tok::Rparen, ")"))
    );
    assert_eq!(
        read("(pcb t x (library))").unwrap_err(),
        ParseError::UnrecognisedToken(token(Tok::Lparen, "("))
    );
    assert_eq!(
        read("(pcb t x library)").unwrap_err(),
        ParseError::UnexpectedToken(token(Tok::Literal, "x"))
    );
    assert_eq!(
        read("(pcb t x parser)").unwrap_err(),
        ParseError::UnexpectedToken(token(Tok::Literal, "x"))
    );
    assert_eq!(
        read("(pcb t (library (image i (pin p (rotate 1 2) 1 0 0))))").unwrap_err(),
        ParseError::UnexpectedToken(token(Tok::Literal, "2"))
    );
}

#[test]
fn unrecognised_token() {
    assert_eq!(
        read("(pcb t (Unknown_Keyword))").unwrap_err(),
        ParseError::UnrecognisedToken(token(Tok::Literal, "Unknown_Keyword"))
    );
    for (data, tok, text) in [
        ("(pcb t (image i))", Tok::Image, "image"),
        ("(pcb t (library (net n)))", Tok::Net, "net"),
        ("(pcb t (network (image i)))", Tok::Image, "image"),
        ("(pcb t (placement (place p)))", Tok::Place, "place"),
        ("(pcb t (structure (wire)))", Tok::Wire, "wire"),
        ("(pcb t (wiring (plane)))", Tok::Plane, "plane"),
        ("(pcb t (structure (layer L (width 1))))", Tok::Width, "width"),
        ("(pcb t (placement (component c (pn x))))", Tok::Pn, "pn"),
        ("(pcb t (placement (component c (place p 0 0 front 0 (type x)))))", Tok::Type, "type"),
        ("(pcb t (library (image i (shape (circle T 1)))))", Tok::Shape, "shape"),
        ("(pcb t (structure (keepout (layer L))))", Tok::Layer, "layer"),
        ("(pcb t (library (padstack p (outline (circle T 1)))))", Tok::Outline, "outline"),
        ("(pcb t (network (class c (net n))))", Tok::Net, "net"),
        ("(pcb t (network (class c (circuit (width 1)))))", Tok::Width, "width"),
        ("(pcb t (network (net n (pin p))))", Tok::Pin, "pin"),
        ("(pcb t (structure (rule (circuit))))", Tok::Circuit, "circuit"),
    ] {
        assert_eq!(read(data).unwrap_err(), ParseError::UnrecognisedToken(token(tok, text)), "{}", data);
    }
}

#[test]
fn unrecognised_enumerators() {
    assert_eq!(
        read("(pcb t (structure (layer L (type copper))))").unwrap_err(),
        ParseError::UnrecognisedLayerType
    );
    assert_eq!(
        read("(pcb t (placement (component c (place p 0 0 front 0 (lock_type none)))))").unwrap_err(),
        ParseError::UnrecognisedLockType
    );
    assert_eq!(
        read("(pcb t (structure (rule (clearance 1 (type all)))))").unwrap_err(),
        ParseError::UnrecognisedClearanceType
    );
    assert_eq!(
        read("(pcb t (structure (boundary (layer L))))").unwrap_err(),
        ParseError::UnrecognisedShapeType
    );
    assert_eq!(
        read("(pcb t (placement (component c (place p 0 0 top 0))))").unwrap_err(),
        ParseError::UnrecognisedSide
    );
    assert_eq!(read("(pcb t (unit furlong))").unwrap_err(), ParseError::UnknownDimensionUnit);
    assert_eq!(read("(pcb t (resolution m 1))").unwrap_err(), ParseError::UnknownDimensionUnit);
    assert_eq!(
        read("(pcb t (library (padstack p (attach yes))))").unwrap_err(),
        ParseError::ExpectedOnOff
    );
}

#[test]
fn invalid_numbers() {
    assert_eq!(
        read("(pcb t (resolution mm 1.5))").unwrap_err(),
        ParseError::InvalidInteger("1.5".to_string())
    );
    assert_eq!(
        read("(pcb t (resolution mm 2147483648))").unwrap_err(),
        ParseError::InvalidInteger("2147483648".to_string())
    );
    assert_eq!(
        read("(pcb t (structure (rule (width 1/2))))").unwrap_err(),
        ParseError::InvalidNumber("1/2".to_string())
    );
    assert_eq!(
        read("(pcb t (structure (boundary (rect T 0 0 1 x))))").unwrap_err(),
        ParseError::InvalidNumber("x".to_string())
    );
}

#[test]
fn parse_error_messages() {
    let t = token(Tok::Net, "NET");
    for (e, m) in [
        (ParseError::UnexpectedEof, "unexpected EOF"),
        (ParseError::UnexpectedToken(t.clone()), "unexpected token Token(net:NET)"),
        (ParseError::UnrecognisedToken(t.clone()), "unrecognised token 'Token(net:NET)'"),
        (ParseError::UnrecognisedLayerType, "unrecognised layer type"),
        (ParseError::UnrecognisedLockType, "unrecognised lock type"),
        (ParseError::UnrecognisedKeepoutType, "unrecognised keepout type"),
        (ParseError::UnrecognisedClearanceType, "unrecognised clearance type"),
        (ParseError::UnrecognisedShapeType, "unrecognised shape type"),
        (ParseError::UnrecognisedSide, "unrecognised side type"),
        (ParseError::UnknownDimensionUnit, "unknown dimension unit"),
        (ParseError::ExpectedOnOff, "expected off or on"),
        (ParseError::InvalidNumber("x".to_string()), "invalid number x"),
        (ParseError::InvalidInteger("y".to_string()), "invalid integer y"),
        (ParseError::PolygonTooFewPoints, "polygon must have at least three points"),
        (ParseError::PathTooFewPoints, "path must have at least two points"),
        (ParseError::InvalidPinReference("z".to_string()), "invalid pin reference z"),
        (ParseError::EmptyId, "the design has no name"),
    ] {
        assert_eq!(e.message(), m);
    }
}

#[test]
fn parser_reads_tokens_that_no_lexer_made() {
    let toks = vec![
        token(Tok::Lparen, "x"),
        token(Tok::Pcb, ""),
        token(Tok::Rparen, "z"),
        token(Tok::Rparen, "y"),
    ];
    let pcb = Parser::new(&toks).parse().unwrap();
    assert_eq!(pcb.pcb_id, "z");
    let toks = vec![
        token(Tok::Lparen, "x"),
        token(Tok::Pcb, ""),
        token(Tok::Rparen, ""),
        token(Tok::Rparen, "y"),
    ];
    assert_eq!(Parser::new(&toks).parse().unwrap_err(), ParseError::EmptyId);
    assert_eq!(Parser::new(&[]).parse().unwrap_err(), ParseError::UnexpectedEof);
}

#[test]
fn lexing_fails_before_parsing() {
    assert_eq!(
        Lexer::new("(pcb t (parser (string_quote q)))").unwrap_err(),
        LexError::UnknownQuote("q".to_string())
    );
}

#[test]
fn placed_component_in_full() {
    let pcb = read(
        "(pcb t (placement (component img (place R1 1.5 -2 back 90 (pn \"x\") (lock_type gate) (lock_type position)))))",
    )
    .unwrap();
    let r = &pcb.placement.components[0].refs[0];
    assert_eq!(r.component_id, "R1");
    assert_eq!((value(&r.p.x), value(&r.p.y)), (1.5, -2.0));
    assert_eq!(r.side, DsnSide::Back);
    assert_eq!(value(&r.rotation), 90.0);
    assert_eq!(r.lock_type, DsnLockType::Position);
    assert_eq!(r.part_number, "\"x\"");
}

#[test]
fn parser_form_is_skipped_only_among_the_sections() {
    // A layer without a name takes the `)` for its name, and the structure
    // goes on into what follows it: there a `parser` form is not expected.
    let pcb = read("(pcb t (structure (layer)) (via (x)))").unwrap();
    assert_eq!(pcb.structure.layers[0].layer_name, ")");
    assert_eq!(pcb.structure.vias, vec!["(", "x"]);
    assert_eq!(
        read("(pcb t (structure (layer)) (parser (host_cad freeroute)) (via (x)))").unwrap_err(),
        ParseError::UnrecognisedToken(token(Tok::Parser, "parser"))
    );
    assert_eq!(
        read("(pcb t (library (parser (host_cad freeroute))))").unwrap_err(),
        ParseError::UnrecognisedToken(token(Tok::Parser, "parser"))
    );
}

#[test]
fn parser_form_behind_a_refusal_changes_nothing() {
    let refused = read("(pcb t (resolution mm 1.5) (unit mm))").unwrap_err();
    assert_eq!(refused, ParseError::InvalidInteger("1.5".to_string()));
    assert_eq!(
        read("(pcb t (resolution mm 1.5) (parser (host_cad freeroute)) (unit mm))").unwrap_err(),
        refused
    );
    assert_eq!(read("(pcb t) (parser (host_cad freeroute))").unwrap(), read("(pcb t)").unwrap());
}

use memedsn::error::{LexError, ParseError};
use memedsn::lexer::Lexer;
use memedsn::number::DsnNumber;
use memedsn::parser::Parser;
use memedsn::types::{
    DsnCircuit, DsnClearanceType, DsnDimensionUnit, DsnKeepoutType, DsnLayerType, DsnLockType,
    DsnPcb, DsnRule, DsnShape, DsnSide,
};

#[derive(Debug)]
enum Failure {
    Lex(LexError),
    Parse(ParseError),
}

fn parse_dsn(data: &str) -> Result<DsnPcb, Failure> {
    let lexer = Lexer::new(data).map_err(Failure::Lex)?;
    let tokens = lexer.lex().map_err(Failure::Lex)?;
    let parser = Parser::new(&tokens);
    parser.parse().map_err(Failure::Parse)
}

fn num(n: &DsnNumber) -> f64 {
    n.as_str().parse().unwrap()
}

#[test]
fn minimal_pcb() {
    let data = "(pcb test)";
    let pcb = parse_dsn(data).unwrap();
    assert_eq!(pcb.pcb_id, "test");
}

#[test]
fn pcb_with_resolution() {
    let data = "(pcb test (resolution mm 1000))";
    let pcb = parse_dsn(data).unwrap();
    assert_eq!(pcb.pcb_id, "test");
    assert_eq!(pcb.resolution.dimension, DsnDimensionUnit::Mm);
    assert_eq!(pcb.resolution.amount, 1000);
}

#[test]
fn pcb_with_unit() {
    let data = "(pcb test (unit mm))";
    let pcb = parse_dsn(data).unwrap();
    assert_eq!(pcb.unit.dimension, DsnDimensionUnit::Mm);
}

#[test]
fn library_with_padstack() {
    let data = "(pcb test (library (padstack pad1 (attach off))))";
    let pcb = parse_dsn(data).unwrap();
    assert_eq!(pcb.library.padstacks.len(), 1);
    assert_eq!(pcb.library.padstacks[0].padstack_id, "pad1");
    assert!(!pcb.library.padstacks[0].attach);
}

#[test]
fn library_with_padstack_attach_on() {
    let data = "(pcb test (library (padstack pad1 (attach on))))";
    let pcb = parse_dsn(data).unwrap();
    assert!(pcb.library.padstacks[0].attach);
}

#[test]
fn library_with_image() {
    let data = "(pcb test (library (image img1)))";
    let pcb = parse_dsn(data).unwrap();
    assert_eq!(pcb.library.images.len(), 1);
    assert_eq!(pcb.library.images[0].image_id, "img1");
}

#[test]
fn image_with_pin() {
    let data = "(pcb test (library (image img1 (pin pad1 1 10.0 20.0))))";
    let pcb = parse_dsn(data).unwrap();
    assert_eq!(pcb.library.images[0].pins.len(), 1);
    assert_eq!(pcb.library.images[0].pins[0].padstack_id, "pad1");
    assert_eq!(pcb.library.images[0].pins[0].pin_id, "1");
}

#[test]
fn image_with_pin_rotation() {
    let data = "(pcb test (library (image img1 (pin pad1 (rotate 90.0) 1 10.0 20.0))))";
    let pcb = parse_dsn(data).unwrap();
    assert_eq!(num(&pcb.library.images[0].pins[0].rotation), 90.0);
}

#[test]
fn network_with_net() {
    let data = "(pcb test (network (net net1)))";
    let pcb = parse_dsn(data).unwrap();
    assert_eq!(pcb.network.nets.len(), 1);
    assert_eq!(pcb.network.nets[0].net_id, "net1");
}

#[test]
fn net_with_pins() {
    let data = "(pcb test (network (net net1 (pins R1-1 R2-2))))";
    let pcb = parse_dsn(data).unwrap();
    assert_eq!(pcb.network.nets[0].pins.len(), 2);
    assert_eq!(pcb.network.nets[0].pins[0].component_id, "R1");
    assert_eq!(pcb.network.nets[0].pins[0].pin_id, "1");
    assert_eq!(pcb.network.nets[0].pins[1].component_id, "R2");
    assert_eq!(pcb.network.nets[0].pins[1].pin_id, "2");
}

#[test]
fn network_with_class() {
    let data = "(pcb test (network (class power GND VCC)))";
    let pcb = parse_dsn(data).unwrap();
    assert_eq!(pcb.network.classes.len(), 1);
    assert_eq!(pcb.network.classes[0].class_id, "power");
    assert_eq!(pcb.network.classes[0].net_ids.len(), 2);
    assert_eq!(pcb.network.classes[0].net_ids[0], "GND");
    assert_eq!(pcb.network.classes[0].net_ids[1], "VCC");
}

#[test]
fn class_with_circuit() {
    let data = "(pcb test (network (class signal (circuit (use_via via1)))))";
    let pcb = parse_dsn(data).unwrap();
    assert_eq!(pcb.network.classes[0].circuits.len(), 1);
    match &pcb.network.classes[0].circuits[0] {
        DsnCircuit::UseVia(s) => assert_eq!(s, "via1"),
    }
}

#[test]
fn class_with_rule_width() {
    let data = "(pcb test (network (class signal (rule (width 0.5)))))";
    let pcb = parse_dsn(data).unwrap();
    assert_eq!(pcb.network.classes[0].rules.len(), 1);
    match &pcb.network.classes[0].rules[0] {
        DsnRule::Width(w) => assert_eq!(num(w), 0.5),
        DsnRule::Clearance(_) => panic!("Expected width rule"),
    }
}

#[test]
fn class_with_rule_clearance() {
    let data = "(pcb test (network (class signal (rule (clearance 0.3)))))";
    let pcb = parse_dsn(data).unwrap();
    assert_eq!(pcb.network.classes[0].rules.len(), 1);
    match &pcb.network.classes[0].rules[0] {
        DsnRule::Clearance(c) => {
            assert_eq!(num(&c.amount), 0.3);
            assert_eq!(c.types.len(), 1);
            match c.types[0] {
                DsnClearanceType::All => (),
                _ => panic!("Expected All clearance type"),
            }
        }
        DsnRule::Width(_) => panic!("Expected clearance rule"),
    }
}

#[test]
fn clearance_with_type() {
    let data = "(pcb test (network (class signal (rule (clearance 0.3 (type smd_smd))))))";
    let pcb = parse_dsn(data).unwrap();
    match &pcb.network.classes[0].rules[0] {
        DsnRule::Clearance(c) => {
            assert_eq!(c.types.len(), 1);
            match c.types[0] {
                DsnClearanceType::SmdSmd => (),
                _ => panic!("Expected SmdSmd clearance type"),
            }
        }
        DsnRule::Width(_) => panic!("Expected clearance rule"),
    }
}

#[test]
fn placement_with_component() {
    let data = "(pcb test (placement (component img1)))";
    let pcb = parse_dsn(data).unwrap();
    assert_eq!(pcb.placement.components.len(), 1);
    assert_eq!(pcb.placement.components[0].image_id, "img1");
}

#[test]
fn component_with_place() {
    let data = "(pcb test (placement (component img1 (place R1 10.0 20.0 front 0.0))))";
    let pcb = parse_dsn(data).unwrap();
    assert_eq!(pcb.placement.components[0].refs.len(), 1);
    assert_eq!(pcb.placement.components[0].refs[0].component_id, "R1");
    assert_eq!(pcb.placement.components[0].refs[0].side, DsnSide::Front);
    assert_eq!(num(&pcb.placement.components[0].refs[0].rotation), 0.0);
}

#[test]
fn place_with_lock_type() {
    let data = "(pcb test (placement (component img1 (place R1 10.0 20.0 front 0.0 (lock_type position)))))";
    let pcb = parse_dsn(data).unwrap();
    assert_eq!(pcb.placement.components[0].refs[0].lock_type, DsnLockType::Position);
}

#[test]
fn place_with_part_number() {
    let data =
        "(pcb test (placement (component img1 (place R1 10.0 20.0 front 0.0 (pn 1234)))))";
    let pcb = parse_dsn(data).unwrap();
    assert_eq!(pcb.placement.components[0].refs[0].part_number, "1234");
}

#[test]
fn layer_types() {
    let data = "(pcb test (structure (layer L1 (type signal)) (layer L2 (type power)) (layer L3 (type mixed)) (layer L4 (type jumper))))";
    let pcb = parse_dsn(data).unwrap();
    assert_eq!(pcb.structure.layers.len(), 4);
    assert_eq!(pcb.structure.layers[0].layer_name, "L1");
    assert_eq!(pcb.structure.layers[0].layer_type, DsnLayerType::Signal);
    assert_eq!(pcb.structure.layers[1].layer_name, "L2");
    assert_eq!(pcb.structure.layers[1].layer_type, DsnLayerType::Power);
    assert_eq!(pcb.structure.layers[2].layer_name, "L3");
    assert_eq!(pcb.structure.layers[2].layer_type, DsnLayerType::Mixed);
    assert_eq!(pcb.structure.layers[3].layer_name, "L4");
    assert_eq!(pcb.structure.layers[3].layer_type, DsnLayerType::Jumper);
}

#[test]
fn structure_with_via() {
    let data = "(pcb test (structure (via via1 via2)))";
    let pcb = parse_dsn(data).unwrap();
    assert_eq!(pcb.structure.vias.len(), 2);
    assert_eq!(pcb.structure.vias[0], "via1");
    assert_eq!(pcb.structure.vias[1], "via2");
}

#[test]
fn rect_shape() {
    let data = "(pcb test (structure (boundary (rect Top 0 0 100 100))))";
    let pcb = parse_dsn(data).unwrap();
    match &pcb.structure.boundaries[0] {
        DsnShape::Rect(r) => {
            assert_eq!(r.layer_id, "Top");
        }
        _ => panic!("Expected rect shape"),
    }
}

#[test]
fn circle_shape() {
    let data = "(pcb test (library (padstack pad1 (shape (circle Top 10.0)))))";
    let pcb = parse_dsn(data).unwrap();
    match &pcb.library.padstacks[0].shapes[0].shape {
        DsnShape::Circle(c) => {
            assert_eq!(c.layer_id, "Top");
            assert_eq!(num(&c.diameter), 10.0);
        }
        _ => panic!("Expected circle shape"),
    }
}

#[test]
fn circle_shape_with_position() {
    let data = "(pcb test (library (padstack pad1 (shape (circle Top 10.0 5.0 5.0)))))";
    let pcb = parse_dsn(data).unwrap();
    match &pcb.library.padstacks[0].shapes[0].shape {
        DsnShape::Circle(c) => {
            assert_eq!(num(&c.p.x), 5.0);
            assert_eq!(num(&c.p.y), 5.0);
        }
        _ => panic!("Expected circle shape"),
    }
}

#[test]
fn polygon_shape() {
    let data = "(pcb test (structure (boundary (polygon Top 1.0 0 0 10 0 10 10 0 10))))";
    let pcb = parse_dsn(data).unwrap();
    match &pcb.structure.boundaries[0] {
        DsnShape::Polygon(p) => {
            assert_eq!(p.layer_id, "Top");
            assert_eq!(num(&p.aperture_width), 1.0);
            assert_eq!(p.pts.len(), 4);
        }
        _ => panic!("Expected polygon shape"),
    }
}

#[test]
fn path_shape() {
    let data = "(pcb test (structure (boundary (path Top 1.0 0 0 10 10 20 20))))";
    let pcb = parse_dsn(data).unwrap();
    match &pcb.structure.boundaries[0] {
        DsnShape::Path(p) => {
            assert_eq!(p.layer_id, "Top");
            assert_eq!(num(&p.aperture_width), 1.0);
            assert_eq!(p.pts.len(), 3);
        }
        _ => panic!("Expected path shape"),
    }
}

#[test]
fn qarc_shape() {
    let data = "(pcb test (structure (boundary (qarc Top 1.0 0 0 10 10 5 5))))";
    let pcb = parse_dsn(data).unwrap();
    match &pcb.structure.boundaries[0] {
        DsnShape::QArc(q) => {
            assert_eq!(q.layer_id, "Top");
            assert_eq!(num(&q.aperture_width), 1.0);
            assert_eq!(num(&q.start.x), 0.0);
            assert_eq!(num(&q.end.x), 10.0);
            assert_eq!(num(&q.center.x), 5.0);
        }
        _ => panic!("Expected qarc shape"),
    }
}

#[test]
fn keepout() {
    let data = "(pcb test (structure (keepout (rect Top 0 0 10 10))))";
    let pcb = parse_dsn(data).unwrap();
    assert_eq!(pcb.structure.keepouts.len(), 1);
    assert_eq!(pcb.structure.keepouts[0].keepout_type, DsnKeepoutType::Keepout);
}

#[test]
fn via_keepout() {
    let data = "(pcb test (structure (via_keepout (rect Top 0 0 10 10))))";
    let pcb = parse_dsn(data).unwrap();
    assert_eq!(pcb.structure.keepouts[0].keepout_type, DsnKeepoutType::ViaKeepout);
}

#[test]
fn wire_keepout() {
    let data = "(pcb test (structure (wire_keepout (rect Top 0 0 10 10))))";
    let pcb = parse_dsn(data).unwrap();
    assert_eq!(pcb.structure.keepouts[0].keepout_type, DsnKeepoutType::WireKeepout);
}

#[test]
fn image_with_keepout() {
    let data = "(pcb test (library (image img1 (keepout (rect Top 0 0 10 10)))))";
    let pcb = parse_dsn(data).unwrap();
    assert_eq!(pcb.library.images[0].keepouts.len(), 1);
}

#[test]
fn image_with_outline() {
    let data = "(pcb test (library (image img1 (outline (rect Top 0 0 10 10)))))";
    let pcb = parse_dsn(data).unwrap();
    assert_eq!(pcb.library.images[0].outlines.len(), 1);
}

#[test]
fn parser_negative_numbers() {
    let data = "(pcb test (placement (component img1 (place R1 -10.5 -20.3 front 0.0))))";
    let pcb = parse_dsn(data).unwrap();
    assert_eq!(num(&pcb.placement.components[0].refs[0].p.x), -10.5);
    assert_eq!(num(&pcb.placement.components[0].refs[0].p.y), -20.3);
}

#[test]
fn decimal_numbers() {
    let data = "(pcb test (resolution mm 1000) (network (class signal (rule (width 0.254)))))";
    let pcb = parse_dsn(data).unwrap();
    match &pcb.network.classes[0].rules[0] {
        DsnRule::Width(w) => assert_eq!(num(w), 0.254),
        DsnRule::Clearance(_) => panic!("Expected width rule"),
    }
}

#[test]
fn multiple_boundaries() {
    let data =
        "(pcb test (structure (boundary (rect Top 0 0 100 100)) (boundary (circle Top 10))))";
    let pcb = parse_dsn(data).unwrap();
    assert_eq!(pcb.structure.boundaries.len(), 2);
}

#[test]
fn multiple_rules() {
    let data = "(pcb test (structure (rule (width 0.5) (clearance 0.3))))";
    let pcb = parse_dsn(data).unwrap();
    assert_eq!(pcb.structure.rules.len(), 2);
}

#[test]
fn padstack_with_multiple_shapes() {
    let data = r"
        (pcb test (library (padstack pad1
            (shape (circle Top 10.0))
            (shape (circle Bottom 8.0))
        )))
    ";
    let pcb = parse_dsn(data).unwrap();
    assert_eq!(pcb.library.padstacks[0].shapes.len(), 2);
}

#[test]
fn error_empty_polygon() {
    let data = "(pcb test (structure (boundary (polygon Top 1.0))))";
    assert!(parse_dsn(data).is_err());
}

#[test]
fn error_polygon_insufficient_points() {
    let data = "(pcb test (structure (boundary (polygon Top 1.0 0 0 10 10))))";
    assert!(parse_dsn(data).is_err());
}

#[test]
fn error_empty_path() {
    let data = "(pcb test (structure (boundary (path Top 1.0))))";
    assert!(parse_dsn(data).is_err());
}

#[test]
fn error_path_insufficient_points() {
    let data = "(pcb test (structure (boundary (path Top 1.0 0 0))))";
    assert!(parse_dsn(data).is_err());
}

#[test]
fn error_on_unexpected_token() {
    let data = "(pcb test (unknown_keyword))";
    assert!(parse_dsn(data).is_err());
}

#[test]
fn error_on_missing_rparen() {
    let data = "(pcb test";
    assert!(parse_dsn(data).is_err());
}

#[test]
fn error_on_unexpected_eof() {
    let data = "(pcb test (library";
    assert!(parse_dsn(data).is_err());
}

#[test]
fn side_variants() {
    let data_front = "(pcb test (placement (component img1 (place R1 0 0 front 0))))";
    let data_back = "(pcb test (placement (component img1 (place R1 0 0 back 0))))";
    let data_both = "(pcb test (placement (component img1 (place R1 0 0 both 0))))";

    let pcb_front = parse_dsn(data_front).unwrap();
    let pcb_back = parse_dsn(data_back).unwrap();
    let pcb_both = parse_dsn(data_both).unwrap();

    assert_eq!(pcb_front.placement.components[0].refs[0].side, DsnSide::Front);
    assert_eq!(pcb_back.placement.components[0].refs[0].side, DsnSide::Back);
    assert_eq!(pcb_both.placement.components[0].refs[0].side, DsnSide::Both);
}

#[test]
fn lock_type_gate() {
    let data =
        "(pcb test (placement (component img1 (place R1 0 0 front 0 (lock_type gate)))))";
    let pcb = parse_dsn(data).unwrap();
    assert_eq!(pcb.placement.components[0].refs[0].lock_type, DsnLockType::Gate);
}

#[test]
fn all_dimension_units() {
    let data_inch = "(pcb test (resolution inch 1000))";
    let data_mil = "(pcb test (resolution mil 1000))";
    let data_cm = "(pcb test (resolution cm 1000))";
    let data_mm = "(pcb test (resolution mm 1000))";
    let data_um = "(pcb test (resolution um 1000))";

    assert_eq!(parse_dsn(data_inch).unwrap().resolution.dimension, DsnDimensionUnit::Inch);
    assert_eq!(parse_dsn(data_mil).unwrap().resolution.dimension, DsnDimensionUnit::Mil);
    assert_eq!(parse_dsn(data_cm).unwrap().resolution.dimension, DsnDimensionUnit::Cm);
    assert_eq!(parse_dsn(data_mm).unwrap().resolution.dimension, DsnDimensionUnit::Mm);
    assert_eq!(parse_dsn(data_um).unwrap().resolution.dimension, DsnDimensionUnit::Um);
}

#[test]
fn parser_directive_ignored() {
    let data = "(pcb test (parser (host_cad freeroute)))";
    let pcb = parse_dsn(data).unwrap();
    assert_eq!(pcb.pcb_id, "test");
}

#[test]
fn layer_with_property_ignored() {
    let data = "(pcb test (structure (layer Top (type signal) (property user_value 123))))";
    let pcb = parse_dsn(data).unwrap();
    assert_eq!(pcb.structure.layers[0].layer_name, "Top");
}

#[test]
fn clearance_with_default_smd() {
    let data = "(pcb test (network (class signal (rule (clearance 0.3 (type default_smd))))))";
    let pcb = parse_dsn(data).unwrap();
    match &pcb.network.classes[0].rules[0] {
        DsnRule::Clearance(c) => {
            assert_eq!(c.types.len(), 1);
            match c.types[0] {
                DsnClearanceType::DefaultSmd => (),
                _ => panic!("Expected DefaultSmd clearance type"),
            }
        }
        DsnRule::Width(_) => panic!("Expected clearance rule"),
    }
}

#[test]
fn clearance_with_multiple_types() {
    let data = "(pcb test (network (class signal (rule (clearance 0.3 (type default_smd) (type smd_smd))))))";
    let pcb = parse_dsn(data).unwrap();
    match &pcb.network.classes[0].rules[0] {
        DsnRule::Clearance(c) => {
            assert_eq!(c.types.len(), 2);
        }
        DsnRule::Width(_) => panic!("Expected clearance rule"),
    }
}

#[test]
fn error_invalid_dimension_unit() {
    let data = "(pcb test (resolution invalid 1000))";
    assert!(parse_dsn(data).is_err());
}

#[test]
fn error_invalid_layer_type() {
    let data = "(pcb test (structure (layer Top (type invalid))))";
    assert!(parse_dsn(data).is_err());
}

#[test]
fn error_invalid_side() {
    let data = "(pcb test (placement (component img1 (place R1 0 0 invalid 0))))";
    assert!(parse_dsn(data).is_err());
}

#[test]
fn error_invalid_number() {
    let data = "(pcb test (resolution mm notanumber))";
    assert!(parse_dsn(data).is_err());
}

#[test]
fn error_missing_required_field() {
    let data = "(pcb test (resolution))";
    assert!(parse_dsn(data).is_err());
}

#[test]
fn pin_reference_parsing() {
    let data = "(pcb test (network (net GND (pins R1-1 C2-2 U3-10 R-A-1 U-1-2))))";
    let pcb = parse_dsn(data).unwrap();
    assert_eq!(pcb.network.nets[0].pins.len(), 5);
    assert_eq!(pcb.network.nets[0].pins[2].component_id, "U3");
    assert_eq!(pcb.network.nets[0].pins[2].pin_id, "10");
    assert_eq!(pcb.network.nets[0].pins[3].component_id, "R-A");
    assert_eq!(pcb.network.nets[0].pins[3].pin_id, "1");
    assert_eq!(pcb.network.nets[0].pins[4].component_id, "U-1");
    assert_eq!(pcb.network.nets[0].pins[4].pin_id, "2");
}

#[test]
fn error_invalid_pin_reference() {
    let data = "(pcb test (network (net GND (pins R1_invalid))))";
    assert!(parse_dsn(data).is_err());
}

#[test]
fn multiple_images_in_library() {
    let data = "(pcb test (library (image img1) (image img2) (image img3)))";
    let pcb = parse_dsn(data).unwrap();
    assert_eq!(pcb.library.images.len(), 3);
}

#[test]
fn multiple_nets_in_network() {
    let data = "(pcb test (network (net GND) (net VCC) (net DATA)))";
    let pcb = parse_dsn(data).unwrap();
    assert_eq!(pcb.network.nets.len(), 3);
}

#[test]
fn empty_sections() {
    let data = "(pcb test (library) (network) (placement) (wiring))";
    let pcb = parse_dsn(data).unwrap();
    assert!(pcb.library.images.is_empty());
    assert!(pcb.library.padstacks.is_empty());
    assert!(pcb.network.nets.is_empty());
    assert!(pcb.network.classes.is_empty());
    assert!(pcb.placement.components.is_empty());
    assert!(pcb.wiring.wires.is_empty());
    assert!(pcb.wiring.vias.is_empty());
}

use memedsn::token::{Tok, Token, UnknownKeyword};

const ALL: [Tok; 70] = [
    Tok::Area,
    Tok::Attach,
    Tok::Back,
    Tok::Both,
    Tok::Boundary,
    Tok::Circle,
    Tok::Circuit,
    Tok::Class,
    Tok::Clearance,
    Tok::Cm,
    Tok::Component,
    Tok::Connect,
    Tok::DefaultSmd,
    Tok::Front,
    Tok::Gate,
    Tok::Image,
    Tok::Inch,
    Tok::Jumper,
    Tok::Keepout,
    Tok::Layer,
    Tok::Library,
    Tok::Literal,
    Tok::LockType,
    Tok::Lparen,
    Tok::Mil,
    Tok::Mixed,
    Tok::Mm,
    Tok::Net,
    Tok::Network,
    Tok::Off,
    Tok::On,
    Tok::Outline,
    Tok::Padstack,
    Tok::Parser,
    Tok::Path,
    Tok::Pcb,
    Tok::Pin,
    Tok::Pins,
    Tok::Place,
    Tok::Placement,
    Tok::Plane,
    Tok::Pn,
    Tok::Polygon,
    Tok::Position,
    Tok::Power,
    Tok::Property,
    Tok::Qarc,
    Tok::Rect,
    Tok::Reduced,
    Tok::Resolution,
    Tok::Rotate,
    Tok::Rparen,
    Tok::Rule,
    Tok::Shape,
    Tok::Signal,
    Tok::Smd,
    Tok::SmdSmd,
    Tok::Structure,
    Tok::Testpoint,
    Tok::Type,
    Tok::Um,
    Tok::Unit,
    Tok::UseVia,
    Tok::ViaKeepout,
    Tok::Via,
    Tok::Width,
    Tok::Window,
    Tok::WireKeepout,
    Tok::Wire,
    Tok::Wiring,
];

#[test]
fn every_tag_is_found_by_its_spelling() {
    for t in ALL {
        assert_eq!(Tok::from_str(t.as_str()), Ok(t));
        assert_eq!(t.to_string(), t.as_str());
    }
}

#[test]
fn spellings_are_snake_case() {
    assert_eq!(Tok::DefaultSmd.as_str(), "default_smd");
    assert_eq!(Tok::LockType.as_str(), "lock_type");
    assert_eq!(Tok::SmdSmd.as_str(), "smd_smd");
    assert_eq!(Tok::UseVia.as_str(), "use_via");
    assert_eq!(Tok::ViaKeepout.as_str(), "via_keepout");
    assert_eq!(Tok::WireKeepout.as_str(), "wire_keepout");
    assert_eq!(Tok::Qarc.as_str(), "qarc");
    assert_eq!(Tok::Lparen.as_str(), "(");
    assert_eq!(Tok::Rparen.as_str(), ")");
    assert_eq!(Tok::Literal.as_str(), "literal");
}

#[test]
fn lookup_is_exact() {
    assert_eq!(Tok::from_str("("), Ok(Tok::Lparen));
    assert_eq!(Tok::from_str(")"), Ok(Tok::Rparen));
    assert_eq!(Tok::from_str("lparen"), Err(UnknownKeyword));
    assert_eq!(Tok::from_str("pcb "), Err(UnknownKeyword));
    assert_eq!(Tok::from_str(" pcb"), Err(UnknownKeyword));
    assert_eq!(Tok::from_str("use-via"), Err(UnknownKeyword));
    assert_eq!(Tok::from_str("UseVia"), Err(UnknownKeyword));
    assert_eq!(Tok::from_str("pc"), Err(UnknownKeyword));
}

#[test]
fn token_new_copies_the_text() {
    let t = Token::new(Tok::Net, "NET");
    assert_eq!(t.tok, Tok::Net);
    assert_eq!(t.s, "NET");
    assert_eq!(t.clone(), t);
    assert_eq!(t.to_string(), "Token(net:NET)");
    assert_eq!(Token::new(Tok::Lparen, "(").to_string(), "Token((:()");
}

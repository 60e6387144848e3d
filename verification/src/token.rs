//! Keyword tags and tokens.
//!
//! A token pairs a tag with the text it was read from. The tag is one of a
//! closed set of reserved words, one of the two parenthesis glyphs, or the
//! generic [`Tok::Literal`].
use vstd::prelude::*;
use vstd::string::StringExecFns;

verus! {

/// The tag of a token: a reserved word, a parenthesis, or `Literal`.
#[must_use]
#[derive(Debug, Copy, Clone, PartialEq, Eq, PartialOrd, Ord, Hash, Structural)]
pub enum Tok {
    Area,
    Attach,
    Back,
    Both,
    Boundary,
    Circle,
    Circuit,
    Class,
    Clearance,
    Cm,
    Component,
    Connect,
    DefaultSmd,
    Front,
    Gate,
    Image,
    Inch,
    Jumper,
    Keepout,
    Layer,
    Library,
    Literal,
    LockType,
    Lparen,
    Mil,
    Mixed,
    Mm,
    Net,
    Network,
    Off,
    On,
    Outline,
    Padstack,
    Parser,
    Path,
    Pcb,
    Pin,
    Pins,
    Place,
    Placement,
    Plane,
    Pn,
    Polygon,
    Position,
    Power,
    Property,
    Qarc,
    Rect,
    Reduced,
    Resolution,
    Rotate,
    Rparen,
    Rule,
    Shape,
    Signal,
    Smd,
    SmdSmd,
    Structure,
    Testpoint,
    Type,
    Um,
    Unit,
    UseVia,
    ViaKeepout,
    Via,
    Width,
    Window,
    WireKeepout,
    Wire,
    Wiring,
}

impl View for Tok {
    type V = Tok;

    open spec fn view(&self) -> Tok {
        *self
    }
}

/// The text that is not the spelling of any tag.
#[derive(Debug, Copy, Clone, PartialEq, Eq, Structural)]
pub struct UnknownKeyword;

impl Tok {
    /// The one spelling of each tag, in lower case with `_` between words.
    pub open spec fn spelling(self) -> Seq<char> {
        match self {
            Tok::Area => "area"@,
            Tok::Attach => "attach"@,
            Tok::Back => "back"@,
            Tok::Both => "both"@,
            Tok::Boundary => "boundary"@,
            Tok::Circle => "circle"@,
            Tok::Circuit => "circuit"@,
            Tok::Class => "class"@,
            Tok::Clearance => "clearance"@,
            Tok::Cm => "cm"@,
            Tok::Component => "component"@,
            Tok::Connect => "connect"@,
            Tok::DefaultSmd => "default_smd"@,
            Tok::Front => "front"@,
            Tok::Gate => "gate"@,
            Tok::Image => "image"@,
            Tok::Inch => "inch"@,
            Tok::Jumper => "jumper"@,
            Tok::Keepout => "keepout"@,
            Tok::Layer => "layer"@,
            Tok::Library => "library"@,
            Tok::Literal => "literal"@,
            Tok::LockType => "lock_type"@,
            Tok::Lparen => "("@,
            Tok::Mil => "mil"@,
            Tok::Mixed => "mixed"@,
            Tok::Mm => "mm"@,
            Tok::Net => "net"@,
            Tok::Network => "network"@,
            Tok::Off => "off"@,
            Tok::On => "on"@,
            Tok::Outline => "outline"@,
            Tok::Padstack => "padstack"@,
            Tok::Parser => "parser"@,
            Tok::Path => "path"@,
            Tok::Pcb => "pcb"@,
            Tok::Pin => "pin"@,
            Tok::Pins => "pins"@,
            Tok::Place => "place"@,
            Tok::Placement => "placement"@,
            Tok::Plane => "plane"@,
            Tok::Pn => "pn"@,
            Tok::Polygon => "polygon"@,
            Tok::Position => "position"@,
            Tok::Power => "power"@,
            Tok::Property => "property"@,
            Tok::Qarc => "qarc"@,
            Tok::Rect => "rect"@,
            Tok::Reduced => "reduced"@,
            Tok::Resolution => "resolution"@,
            Tok::Rotate => "rotate"@,
            Tok::Rparen => ")"@,
            Tok::Rule => "rule"@,
            Tok::Shape => "shape"@,
            Tok::Signal => "signal"@,
            Tok::Smd => "smd"@,
            Tok::SmdSmd => "smd_smd"@,
            Tok::Structure => "structure"@,
            Tok::Testpoint => "testpoint"@,
            Tok::Type => "type"@,
            Tok::Um => "um"@,
            Tok::Unit => "unit"@,
            Tok::UseVia => "use_via"@,
            Tok::ViaKeepout => "via_keepout"@,
            Tok::Via => "via"@,
            Tok::Width => "width"@,
            Tok::Window => "window"@,
            Tok::WireKeepout => "wire_keepout"@,
            Tok::Wire => "wire"@,
            Tok::Wiring => "wiring"@,
        }
    }

    /// The tag spelled exactly `s`, if there is one. The lookup is
    /// case-sensitive: callers that want to ignore case lower the text first.
    pub open spec fn keyword(s: Seq<char>) -> Option<Tok> {
        if s == "area"@ {
            Some(Tok::Area)
        } else if s == "attach"@ {
            Some(Tok::Attach)
        } else if s == "back"@ {
            Some(Tok::Back)
        } else if s == "both"@ {
            Some(Tok::Both)
        } else if s == "boundary"@ {
            Some(Tok::Boundary)
        } else if s == "circle"@ {
            Some(Tok::Circle)
        } else if s == "circuit"@ {
            Some(Tok::Circuit)
        } else if s == "class"@ {
            Some(Tok::Class)
        } else if s == "clearance"@ {
            Some(Tok::Clearance)
        } else if s == "cm"@ {
            Some(Tok::Cm)
        } else if s == "component"@ {
            Some(Tok::Component)
        } else if s == "connect"@ {
            Some(Tok::Connect)
        } else if s == "default_smd"@ {
            Some(Tok::DefaultSmd)
        } else if s == "front"@ {
            Some(Tok::Front)
        } else if s == "gate"@ {
            Some(Tok::Gate)
        } else if s == "image"@ {
            Some(Tok::Image)
        } else if s == "inch"@ {
            Some(Tok::Inch)
        } else if s == "jumper"@ {
            Some(Tok::Jumper)
        } else if s == "keepout"@ {
            Some(Tok::Keepout)
        } else if s == "layer"@ {
            Some(Tok::Layer)
        } else if s == "library"@ {
            Some(Tok::Library)
        } else if s == "literal"@ {
            Some(Tok::Literal)
        } else if s == "lock_type"@ {
            Some(Tok::LockType)
        } else if s == "("@ {
            Some(Tok::Lparen)
        } else if s == "mil"@ {
            Some(Tok::Mil)
        } else if s == "mixed"@ {
            Some(Tok::Mixed)
        } else if s == "mm"@ {
            Some(Tok::Mm)
        } else if s == "net"@ {
            Some(Tok::Net)
        } else if s == "network"@ {
            Some(Tok::Network)
        } else if s == "off"@ {
            Some(Tok::Off)
        } else if s == "on"@ {
            Some(Tok::On)
        } else if s == "outline"@ {
            Some(Tok::Outline)
        } else if s == "padstack"@ {
            Some(Tok::Padstack)
        } else if s == "parser"@ {
            Some(Tok::Parser)
        } else if s == "path"@ {
            Some(Tok::Path)
        } else if s == "pcb"@ {
            Some(Tok::Pcb)
        } else if s == "pin"@ {
            Some(Tok::Pin)
        } else if s == "pins"@ {
            Some(Tok::Pins)
        } else if s == "place"@ {
            Some(Tok::Place)
        } else if s == "placement"@ {
            Some(Tok::Placement)
        } else if s == "plane"@ {
            Some(Tok::Plane)
        } else if s == "pn"@ {
            Some(Tok::Pn)
        } else if s == "polygon"@ {
            Some(Tok::Polygon)
        } else if s == "position"@ {
            Some(Tok::Position)
        } else if s == "power"@ {
            Some(Tok::Power)
        } else if s == "property"@ {
            Some(Tok::Property)
        } else if s == "qarc"@ {
            Some(Tok::Qarc)
        } else if s == "rect"@ {
            Some(Tok::Rect)
        } else if s == "reduced"@ {
            Some(Tok::Reduced)
        } else if s == "resolution"@ {
            Some(Tok::Resolution)
        } else if s == "rotate"@ {
            Some(Tok::Rotate)
        } else if s == ")"@ {
            Some(Tok::Rparen)
        } else if s == "rule"@ {
            Some(Tok::Rule)
        } else if s == "shape"@ {
            Some(Tok::Shape)
        } else if s == "signal"@ {
            Some(Tok::Signal)
        } else if s == "smd"@ {
            Some(Tok::Smd)
        } else if s == "smd_smd"@ {
            Some(Tok::SmdSmd)
        } else if s == "structure"@ {
            Some(Tok::Structure)
        } else if s == "testpoint"@ {
            Some(Tok::Testpoint)
        } else if s == "type"@ {
            Some(Tok::Type)
        } else if s == "um"@ {
            Some(Tok::Um)
        } else if s == "unit"@ {
            Some(Tok::Unit)
        } else if s == "use_via"@ {
            Some(Tok::UseVia)
        } else if s == "via_keepout"@ {
            Some(Tok::ViaKeepout)
        } else if s == "via"@ {
            Some(Tok::Via)
        } else if s == "width"@ {
            Some(Tok::Width)
        } else if s == "window"@ {
            Some(Tok::Window)
        } else if s == "wire_keepout"@ {
            Some(Tok::WireKeepout)
        } else if s == "wire"@ {
            Some(Tok::Wire)
        } else if s == "wiring"@ {
            Some(Tok::Wiring)
        } else {
            None
        }
    }

    /// The spelling of the tag.
    pub fn as_str(&self) -> (r: &'static str)
        ensures
            r@ == self.spelling(),
    {
        match self {
            Tok::Area => "area",
            Tok::Attach => "attach",
            Tok::Back => "back",
            Tok::Both => "both",
            Tok::Boundary => "boundary",
            Tok::Circle => "circle",
            Tok::Circuit => "circuit",
            Tok::Class => "class",
            Tok::Clearance => "clearance",
            Tok::Cm => "cm",
            Tok::Component => "component",
            Tok::Connect => "connect",
            Tok::DefaultSmd => "default_smd",
            Tok::Front => "front",
            Tok::Gate => "gate",
            Tok::Image => "image",
            Tok::Inch => "inch",
            Tok::Jumper => "jumper",
            Tok::Keepout => "keepout",
            Tok::Layer => "layer",
            Tok::Library => "library",
            Tok::Literal => "literal",
            Tok::LockType => "lock_type",
            Tok::Lparen => "(",
            Tok::Mil => "mil",
            Tok::Mixed => "mixed",
            Tok::Mm => "mm",
            Tok::Net => "net",
            Tok::Network => "network",
            Tok::Off => "off",
            Tok::On => "on",
            Tok::Outline => "outline",
            Tok::Padstack => "padstack",
            Tok::Parser => "parser",
            Tok::Path => "path",
            Tok::Pcb => "pcb",
            Tok::Pin => "pin",
            Tok::Pins => "pins",
            Tok::Place => "place",
            Tok::Placement => "placement",
            Tok::Plane => "plane",
            Tok::Pn => "pn",
            Tok::Polygon => "polygon",
            Tok::Position => "position",
            Tok::Power => "power",
            Tok::Property => "property",
            Tok::Qarc => "qarc",
            Tok::Rect => "rect",
            Tok::Reduced => "reduced",
            Tok::Resolution => "resolution",
            Tok::Rotate => "rotate",
            Tok::Rparen => ")",
            Tok::Rule => "rule",
            Tok::Shape => "shape",
            Tok::Signal => "signal",
            Tok::Smd => "smd",
            Tok::SmdSmd => "smd_smd",
            Tok::Structure => "structure",
            Tok::Testpoint => "testpoint",
            Tok::Type => "type",
            Tok::Um => "um",
            Tok::Unit => "unit",
            Tok::UseVia => "use_via",
            Tok::ViaKeepout => "via_keepout",
            Tok::Via => "via",
            Tok::Width => "width",
            Tok::Window => "window",
            Tok::WireKeepout => "wire_keepout",
            Tok::Wire => "wire",
            Tok::Wiring => "wiring",
        }
    }

    /// Looks a spelling up in the keyword table.
    pub fn from_str(s: &str) -> (r: Result<Tok, UnknownKeyword>)
        ensures
            r == match Tok::keyword(s@) {
                Some(t) => Ok::<Tok, UnknownKeyword>(t),
                None => Err(UnknownKeyword),
            },
    {
        if s.eq("area") {
            Ok(Tok::Area)
        } else if s.eq("attach") {
            Ok(Tok::Attach)
        } else if s.eq("back") {
            Ok(Tok::Back)
        } else if s.eq("both") {
            Ok(Tok::Both)
        } else if s.eq("boundary") {
            Ok(Tok::Boundary)
        } else if s.eq("circle") {
            Ok(Tok::Circle)
        } else if s.eq("circuit") {
            Ok(Tok::Circuit)
        } else if s.eq("class") {
            Ok(Tok::Class)
        } else if s.eq("clearance") {
            Ok(Tok::Clearance)
        } else if s.eq("cm") {
            Ok(Tok::Cm)
        } else if s.eq("component") {
            Ok(Tok::Component)
        } else if s.eq("connect") {
            Ok(Tok::Connect)
        } else if s.eq("default_smd") {
            Ok(Tok::DefaultSmd)
        } else if s.eq("front") {
            Ok(Tok::Front)
        } else if s.eq("gate") {
            Ok(Tok::Gate)
        } else if s.eq("image") {
            Ok(Tok::Image)
        } else if s.eq("inch") {
            Ok(Tok::Inch)
        } else if s.eq("jumper") {
            Ok(Tok::Jumper)
        } else if s.eq("keepout") {
            Ok(Tok::Keepout)
        } else if s.eq("layer") {
            Ok(Tok::Layer)
        } else if s.eq("library") {
            Ok(Tok::Library)
        } else if s.eq("literal") {
            Ok(Tok::Literal)
        } else if s.eq("lock_type") {
            Ok(Tok::LockType)
        } else if s.eq("(") {
            Ok(Tok::Lparen)
        } else if s.eq("mil") {
            Ok(Tok::Mil)
        } else if s.eq("mixed") {
            Ok(Tok::Mixed)
        } else if s.eq("mm") {
            Ok(Tok::Mm)
        } else if s.eq("net") {
            Ok(Tok::Net)
        } else if s.eq("network") {
            Ok(Tok::Network)
        } else if s.eq("off") {
            Ok(Tok::Off)
        } else if s.eq("on") {
            Ok(Tok::On)
        } else if s.eq("outline") {
            Ok(Tok::Outline)
        } else if s.eq("padstack") {
            Ok(Tok::Padstack)
        } else if s.eq("parser") {
            Ok(Tok::Parser)
        } else if s.eq("path") {
            Ok(Tok::Path)
        } else if s.eq("pcb") {
            Ok(Tok::Pcb)
        } else if s.eq("pin") {
            Ok(Tok::Pin)
        } else if s.eq("pins") {
            Ok(Tok::Pins)
        } else if s.eq("place") {
            Ok(Tok::Place)
        } else if s.eq("placement") {
            Ok(Tok::Placement)
        } else if s.eq("plane") {
            Ok(Tok::Plane)
        } else if s.eq("pn") {
            Ok(Tok::Pn)
        } else if s.eq("polygon") {
            Ok(Tok::Polygon)
        } else if s.eq("position") {
            Ok(Tok::Position)
        } else if s.eq("power") {
            Ok(Tok::Power)
        } else if s.eq("property") {
            Ok(Tok::Property)
        } else if s.eq("qarc") {
            Ok(Tok::Qarc)
        } else if s.eq("rect") {
            Ok(Tok::Rect)
        } else if s.eq("reduced") {
            Ok(Tok::Reduced)
        } else if s.eq("resolution") {
            Ok(Tok::Resolution)
        } else if s.eq("rotate") {
            Ok(Tok::Rotate)
        } else if s.eq(")") {
            Ok(Tok::Rparen)
        } else if s.eq("rule") {
            Ok(Tok::Rule)
        } else if s.eq("shape") {
            Ok(Tok::Shape)
        } else if s.eq("signal") {
            Ok(Tok::Signal)
        } else if s.eq("smd") {
            Ok(Tok::Smd)
        } else if s.eq("smd_smd") {
            Ok(Tok::SmdSmd)
        } else if s.eq("structure") {
            Ok(Tok::Structure)
        } else if s.eq("testpoint") {
            Ok(Tok::Testpoint)
        } else if s.eq("type") {
            Ok(Tok::Type)
        } else if s.eq("um") {
            Ok(Tok::Um)
        } else if s.eq("unit") {
            Ok(Tok::Unit)
        } else if s.eq("use_via") {
            Ok(Tok::UseVia)
        } else if s.eq("via_keepout") {
            Ok(Tok::ViaKeepout)
        } else if s.eq("via") {
            Ok(Tok::Via)
        } else if s.eq("width") {
            Ok(Tok::Width)
        } else if s.eq("window") {
            Ok(Tok::Window)
        } else if s.eq("wire_keepout") {
            Ok(Tok::WireKeepout)
        } else if s.eq("wire") {
            Ok(Tok::Wire)
        } else if s.eq("wiring") {
            Ok(Tok::Wiring)
        } else {
            Err(UnknownKeyword)
        }
    }

    /// The spelling of the tag, as an owned string.
    pub fn to_string(&self) -> (r: String)
        ensures
            r@ == self.spelling(),
    {
        String::from_str(self.as_str())
    }
}

/// Every tag is found by its spelling, so no two tags are spelled alike.
pub proof fn lemma_spelling_is_found(t: Tok)
    ensures
        Tok::keyword(t.spelling()) == Some(t),
{
    // Of each spelling, its length and the characters in which it differs
    // from the other spellings of that length.
    reveal_strlit("area");
    assert("area"@.len() == 4 && "area"@[0] == 'a' && "area"@[1] == 'r');
    reveal_strlit("attach");
    assert("attach"@.len() == 6 && "attach"@[0] == 'a' && "attach"@[2] == 't');
    reveal_strlit("back");
    assert("back"@.len() == 4 && "back"@[0] == 'b' && "back"@[1] == 'a');
    reveal_strlit("both");
    assert("both"@.len() == 4 && "both"@[0] == 'b' && "both"@[1] == 'o');
    reveal_strlit("boundary");
    assert("boundary"@.len() == 8 && "boundary"@[2] == 'u');
    reveal_strlit("circle");
    assert("circle"@.len() == 6 && "circle"@[0] == 'c' && "circle"@[2] == 'r');
    reveal_strlit("circuit");
    assert("circuit"@.len() == 7 && "circuit"@[0] == 'c' && "circuit"@[3] == 'c');
    reveal_strlit("class");
    assert("class"@.len() == 5 && "class"@[0] == 'c' && "class"@[3] == 's');
    reveal_strlit("clearance");
    assert("clearance"@.len() == 9 && "clearance"@[2] == 'e');
    reveal_strlit("cm");
    assert("cm"@.len() == 2 && "cm"@[0] == 'c');
    reveal_strlit("component");
    assert("component"@.len() == 9 && "component"@[2] == 'm');
    reveal_strlit("connect");
    assert("connect"@.len() == 7 && "connect"@[0] == 'c' && "connect"@[3] == 'n');
    reveal_strlit("default_smd");
    assert("default_smd"@.len() == 11 && "default_smd"@[0] == 'd');
    reveal_strlit("front");
    assert("front"@.len() == 5 && "front"@[0] == 'f' && "front"@[3] == 'n');
    reveal_strlit("gate");
    assert("gate"@.len() == 4 && "gate"@[0] == 'g' && "gate"@[1] == 'a');
    reveal_strlit("image");
    assert("image"@.len() == 5 && "image"@[0] == 'i' && "image"@[3] == 'g');
    reveal_strlit("inch");
    assert("inch"@.len() == 4 && "inch"@[0] == 'i' && "inch"@[1] == 'n');
    reveal_strlit("jumper");
    assert("jumper"@.len() == 6 && "jumper"@[0] == 'j' && "jumper"@[2] == 'm');
    reveal_strlit("keepout");
    assert("keepout"@.len() == 7 && "keepout"@[0] == 'k' && "keepout"@[3] == 'p');
    reveal_strlit("layer");
    assert("layer"@.len() == 5 && "layer"@[0] == 'l' && "layer"@[3] == 'e');
    reveal_strlit("library");
    assert("library"@.len() == 7 && "library"@[0] == 'l' && "library"@[3] == 'r');
    reveal_strlit("literal");
    assert("literal"@.len() == 7 && "literal"@[0] == 'l' && "literal"@[3] == 'e');
    reveal_strlit("lock_type");
    assert("lock_type"@.len() == 9 && "lock_type"@[2] == 'c');
    reveal_strlit("(");
    assert("("@.len() == 1 && "("@[0] == '(');
    reveal_strlit("mil");
    assert("mil"@.len() == 3 && "mil"@[2] == 'l');
    reveal_strlit("mixed");
    assert("mixed"@.len() == 5 && "mixed"@[0] == 'm' && "mixed"@[3] == 'e');
    reveal_strlit("mm");
    assert("mm"@.len() == 2 && "mm"@[0] == 'm');
    reveal_strlit("net");
    assert("net"@.len() == 3 && "net"@[2] == 't');
    reveal_strlit("network");
    assert("network"@.len() == 7 && "network"@[0] == 'n' && "network"@[3] == 'w');
    reveal_strlit("off");
    assert("off"@.len() == 3 && "off"@[2] == 'f');
    reveal_strlit("on");
    assert("on"@.len() == 2 && "on"@[0] == 'o');
    reveal_strlit("outline");
    assert("outline"@.len() == 7 && "outline"@[0] == 'o' && "outline"@[3] == 'l');
    reveal_strlit("padstack");
    assert("padstack"@.len() == 8 && "padstack"@[2] == 'd');
    reveal_strlit("parser");
    assert("parser"@.len() == 6 && "parser"@[0] == 'p' && "parser"@[2] == 'r');
    reveal_strlit("path");
    assert("path"@.len() == 4 && "path"@[0] == 'p' && "path"@[1] == 'a');
    reveal_strlit("pcb");
    assert("pcb"@.len() == 3 && "pcb"@[2] == 'b');
    reveal_strlit("pin");
    assert("pin"@.len() == 3 && "pin"@[2] == 'n');
    reveal_strlit("pins");
    assert("pins"@.len() == 4 && "pins"@[0] == 'p' && "pins"@[1] == 'i');
    reveal_strlit("place");
    assert("place"@.len() == 5 && "place"@[0] == 'p' && "place"@[3] == 'c');
    reveal_strlit("placement");
    assert("placement"@.len() == 9 && "placement"@[2] == 'a');
    reveal_strlit("plane");
    assert("plane"@.len() == 5 && "plane"@[0] == 'p' && "plane"@[3] == 'n');
    reveal_strlit("pn");
    assert("pn"@.len() == 2 && "pn"@[0] == 'p');
    reveal_strlit("polygon");
    assert("polygon"@.len() == 7 && "polygon"@[0] == 'p' && "polygon"@[3] == 'y');
    reveal_strlit("position");
    assert("position"@.len() == 8 && "position"@[2] == 's');
    reveal_strlit("power");
    assert("power"@.len() == 5 && "power"@[0] == 'p' && "power"@[3] == 'e');
    reveal_strlit("property");
    assert("property"@.len() == 8 && "property"@[2] == 'o');
    reveal_strlit("qarc");
    assert("qarc"@.len() == 4 && "qarc"@[0] == 'q' && "qarc"@[1] == 'a');
    reveal_strlit("rect");
    assert("rect"@.len() == 4 && "rect"@[0] == 'r' && "rect"@[1] == 'e');
    reveal_strlit("reduced");
    assert("reduced"@.len() == 7 && "reduced"@[0] == 'r' && "reduced"@[3] == 'u');
    reveal_strlit("resolution");
    assert("resolution"@.len() == 10);
    reveal_strlit("rotate");
    assert("rotate"@.len() == 6 && "rotate"@[0] == 'r' && "rotate"@[2] == 't');
    reveal_strlit(")");
    assert(")"@.len() == 1 && ")"@[0] == ')');
    reveal_strlit("rule");
    assert("rule"@.len() == 4 && "rule"@[0] == 'r' && "rule"@[1] == 'u');
    reveal_strlit("shape");
    assert("shape"@.len() == 5 && "shape"@[0] == 's' && "shape"@[3] == 'p');
    reveal_strlit("signal");
    assert("signal"@.len() == 6 && "signal"@[0] == 's' && "signal"@[2] == 'g');
    reveal_strlit("smd");
    assert("smd"@.len() == 3 && "smd"@[2] == 'd');
    reveal_strlit("smd_smd");
    assert("smd_smd"@.len() == 7 && "smd_smd"@[0] == 's' && "smd_smd"@[3] == '_');
    reveal_strlit("structure");
    assert("structure"@.len() == 9 && "structure"@[2] == 'r');
    reveal_strlit("testpoint");
    assert("testpoint"@.len() == 9 && "testpoint"@[2] == 's');
    reveal_strlit("type");
    assert("type"@.len() == 4 && "type"@[0] == 't' && "type"@[1] == 'y');
    reveal_strlit("um");
    assert("um"@.len() == 2 && "um"@[0] == 'u');
    reveal_strlit("unit");
    assert("unit"@.len() == 4 && "unit"@[0] == 'u' && "unit"@[1] == 'n');
    reveal_strlit("use_via");
    assert("use_via"@.len() == 7 && "use_via"@[0] == 'u' && "use_via"@[3] == '_');
    reveal_strlit("via_keepout");
    assert("via_keepout"@.len() == 11 && "via_keepout"@[0] == 'v');
    reveal_strlit("via");
    assert("via"@.len() == 3 && "via"@[2] == 'a');
    reveal_strlit("width");
    assert("width"@.len() == 5 && "width"@[0] == 'w' && "width"@[3] == 't');
    reveal_strlit("window");
    assert("window"@.len() == 6 && "window"@[0] == 'w' && "window"@[2] == 'n');
    reveal_strlit("wire_keepout");
    assert("wire_keepout"@.len() == 12);
    reveal_strlit("wire");
    assert("wire"@.len() == 4 && "wire"@[0] == 'w' && "wire"@[1] == 'i');
    reveal_strlit("wiring");
    assert("wiring"@.len() == 6 && "wiring"@[0] == 'w' && "wiring"@[2] == 'r');
}

/// A character that a spelling can start or end with: a small letter or a
/// parenthesis.
pub open spec fn is_keyword_end(c: char) -> bool {
    ('a' <= c && c <= 'z') || c == '(' || c == ')'
}

/// Every spelling starts and ends with a small letter or a parenthesis.
pub proof fn lemma_keyword_ends(s: Seq<char>)
    ensures
        Tok::keyword(s) is Some ==> s.len() > 0 && is_keyword_end(s[0]) && is_keyword_end(
            s.last(),
        ),
{
    reveal_strlit("area");
    assert("area"@.len() == 4 && "area"@[0] == 'a' && "area"@[3] == 'a');
    reveal_strlit("attach");
    assert("attach"@.len() == 6 && "attach"@[0] == 'a' && "attach"@[5] == 'h');
    reveal_strlit("back");
    assert("back"@.len() == 4 && "back"@[0] == 'b' && "back"@[3] == 'k');
    reveal_strlit("both");
    assert("both"@.len() == 4 && "both"@[0] == 'b' && "both"@[3] == 'h');
    reveal_strlit("boundary");
    assert("boundary"@.len() == 8 && "boundary"@[0] == 'b' && "boundary"@[7] == 'y');
    reveal_strlit("circle");
    assert("circle"@.len() == 6 && "circle"@[0] == 'c' && "circle"@[5] == 'e');
    reveal_strlit("circuit");
    assert("circuit"@.len() == 7 && "circuit"@[0] == 'c' && "circuit"@[6] == 't');
    reveal_strlit("class");
    assert("class"@.len() == 5 && "class"@[0] == 'c' && "class"@[4] == 's');
    reveal_strlit("clearance");
    assert("clearance"@.len() == 9 && "clearance"@[0] == 'c' && "clearance"@[8] == 'e');
    reveal_strlit("cm");
    assert("cm"@.len() == 2 && "cm"@[0] == 'c' && "cm"@[1] == 'm');
    reveal_strlit("component");
    assert("component"@.len() == 9 && "component"@[0] == 'c' && "component"@[8] == 't');
    reveal_strlit("connect");
    assert("connect"@.len() == 7 && "connect"@[0] == 'c' && "connect"@[6] == 't');
    reveal_strlit("default_smd");
    assert("default_smd"@.len() == 11 && "default_smd"@[0] == 'd' && "default_smd"@[10] == 'd');
    reveal_strlit("front");
    assert("front"@.len() == 5 && "front"@[0] == 'f' && "front"@[4] == 't');
    reveal_strlit("gate");
    assert("gate"@.len() == 4 && "gate"@[0] == 'g' && "gate"@[3] == 'e');
    reveal_strlit("image");
    assert("image"@.len() == 5 && "image"@[0] == 'i' && "image"@[4] == 'e');
    reveal_strlit("inch");
    assert("inch"@.len() == 4 && "inch"@[0] == 'i' && "inch"@[3] == 'h');
    reveal_strlit("jumper");
    assert("jumper"@.len() == 6 && "jumper"@[0] == 'j' && "jumper"@[5] == 'r');
    reveal_strlit("keepout");
    assert("keepout"@.len() == 7 && "keepout"@[0] == 'k' && "keepout"@[6] == 't');
    reveal_strlit("layer");
    assert("layer"@.len() == 5 && "layer"@[0] == 'l' && "layer"@[4] == 'r');
    reveal_strlit("library");
    assert("library"@.len() == 7 && "library"@[0] == 'l' && "library"@[6] == 'y');
    reveal_strlit("literal");
    assert("literal"@.len() == 7 && "literal"@[0] == 'l' && "literal"@[6] == 'l');
    reveal_strlit("lock_type");
    assert("lock_type"@.len() == 9 && "lock_type"@[0] == 'l' && "lock_type"@[8] == 'e');
    reveal_strlit("(");
    assert("("@.len() == 1 && "("@[0] == '(' && "("@[0] == '(');
    reveal_strlit("mil");
    assert("mil"@.len() == 3 && "mil"@[0] == 'm' && "mil"@[2] == 'l');
    reveal_strlit("mixed");
    assert("mixed"@.len() == 5 && "mixed"@[0] == 'm' && "mixed"@[4] == 'd');
    reveal_strlit("mm");
    assert("mm"@.len() == 2 && "mm"@[0] == 'm' && "mm"@[1] == 'm');
    reveal_strlit("net");
    assert("net"@.len() == 3 && "net"@[0] == 'n' && "net"@[2] == 't');
    reveal_strlit("network");
    assert("network"@.len() == 7 && "network"@[0] == 'n' && "network"@[6] == 'k');
    reveal_strlit("off");
    assert("off"@.len() == 3 && "off"@[0] == 'o' && "off"@[2] == 'f');
    reveal_strlit("on");
    assert("on"@.len() == 2 && "on"@[0] == 'o' && "on"@[1] == 'n');
    reveal_strlit("outline");
    assert("outline"@.len() == 7 && "outline"@[0] == 'o' && "outline"@[6] == 'e');
    reveal_strlit("padstack");
    assert("padstack"@.len() == 8 && "padstack"@[0] == 'p' && "padstack"@[7] == 'k');
    reveal_strlit("parser");
    assert("parser"@.len() == 6 && "parser"@[0] == 'p' && "parser"@[5] == 'r');
    reveal_strlit("path");
    assert("path"@.len() == 4 && "path"@[0] == 'p' && "path"@[3] == 'h');
    reveal_strlit("pcb");
    assert("pcb"@.len() == 3 && "pcb"@[0] == 'p' && "pcb"@[2] == 'b');
    reveal_strlit("pin");
    assert("pin"@.len() == 3 && "pin"@[0] == 'p' && "pin"@[2] == 'n');
    reveal_strlit("pins");
    assert("pins"@.len() == 4 && "pins"@[0] == 'p' && "pins"@[3] == 's');
    reveal_strlit("place");
    assert("place"@.len() == 5 && "place"@[0] == 'p' && "place"@[4] == 'e');
    reveal_strlit("placement");
    assert("placement"@.len() == 9 && "placement"@[0] == 'p' && "placement"@[8] == 't');
    reveal_strlit("plane");
    assert("plane"@.len() == 5 && "plane"@[0] == 'p' && "plane"@[4] == 'e');
    reveal_strlit("pn");
    assert("pn"@.len() == 2 && "pn"@[0] == 'p' && "pn"@[1] == 'n');
    reveal_strlit("polygon");
    assert("polygon"@.len() == 7 && "polygon"@[0] == 'p' && "polygon"@[6] == 'n');
    reveal_strlit("position");
    assert("position"@.len() == 8 && "position"@[0] == 'p' && "position"@[7] == 'n');
    reveal_strlit("power");
    assert("power"@.len() == 5 && "power"@[0] == 'p' && "power"@[4] == 'r');
    reveal_strlit("property");
    assert("property"@.len() == 8 && "property"@[0] == 'p' && "property"@[7] == 'y');
    reveal_strlit("qarc");
    assert("qarc"@.len() == 4 && "qarc"@[0] == 'q' && "qarc"@[3] == 'c');
    reveal_strlit("rect");
    assert("rect"@.len() == 4 && "rect"@[0] == 'r' && "rect"@[3] == 't');
    reveal_strlit("reduced");
    assert("reduced"@.len() == 7 && "reduced"@[0] == 'r' && "reduced"@[6] == 'd');
    reveal_strlit("resolution");
    assert("resolution"@.len() == 10 && "resolution"@[0] == 'r' && "resolution"@[9] == 'n');
    reveal_strlit("rotate");
    assert("rotate"@.len() == 6 && "rotate"@[0] == 'r' && "rotate"@[5] == 'e');
    reveal_strlit(")");
    assert(")"@.len() == 1 && ")"@[0] == ')' && ")"@[0] == ')');
    reveal_strlit("rule");
    assert("rule"@.len() == 4 && "rule"@[0] == 'r' && "rule"@[3] == 'e');
    reveal_strlit("shape");
    assert("shape"@.len() == 5 && "shape"@[0] == 's' && "shape"@[4] == 'e');
    reveal_strlit("signal");
    assert("signal"@.len() == 6 && "signal"@[0] == 's' && "signal"@[5] == 'l');
    reveal_strlit("smd");
    assert("smd"@.len() == 3 && "smd"@[0] == 's' && "smd"@[2] == 'd');
    reveal_strlit("smd_smd");
    assert("smd_smd"@.len() == 7 && "smd_smd"@[0] == 's' && "smd_smd"@[6] == 'd');
    reveal_strlit("structure");
    assert("structure"@.len() == 9 && "structure"@[0] == 's' && "structure"@[8] == 'e');
    reveal_strlit("testpoint");
    assert("testpoint"@.len() == 9 && "testpoint"@[0] == 't' && "testpoint"@[8] == 't');
    reveal_strlit("type");
    assert("type"@.len() == 4 && "type"@[0] == 't' && "type"@[3] == 'e');
    reveal_strlit("um");
    assert("um"@.len() == 2 && "um"@[0] == 'u' && "um"@[1] == 'm');
    reveal_strlit("unit");
    assert("unit"@.len() == 4 && "unit"@[0] == 'u' && "unit"@[3] == 't');
    reveal_strlit("use_via");
    assert("use_via"@.len() == 7 && "use_via"@[0] == 'u' && "use_via"@[6] == 'a');
    reveal_strlit("via_keepout");
    assert("via_keepout"@.len() == 11 && "via_keepout"@[0] == 'v' && "via_keepout"@[10] == 't');
    reveal_strlit("via");
    assert("via"@.len() == 3 && "via"@[0] == 'v' && "via"@[2] == 'a');
    reveal_strlit("width");
    assert("width"@.len() == 5 && "width"@[0] == 'w' && "width"@[4] == 'h');
    reveal_strlit("window");
    assert("window"@.len() == 6 && "window"@[0] == 'w' && "window"@[5] == 'w');
    reveal_strlit("wire_keepout");
    assert("wire_keepout"@.len() == 12 && "wire_keepout"@[0] == 'w' && "wire_keepout"@[11] == 't');
    reveal_strlit("wire");
    assert("wire"@.len() == 4 && "wire"@[0] == 'w' && "wire"@[3] == 'e');
    reveal_strlit("wiring");
    assert("wiring"@.len() == 6 && "wiring"@[0] == 'w' && "wiring"@[5] == 'g');
}

/// A token: its tag and the text it was read from, in the case in which it
/// was written.
#[derive(Debug, PartialEq, Eq, PartialOrd, Ord)]
pub struct Token {
    pub tok: Tok,
    pub s: String,
}

/// What a token is to the grammar: its tag and the characters of its text.
pub struct TokenView {
    pub tok: Tok,
    pub s: Seq<char>,
}

impl View for Token {
    type V = TokenView;

    open spec fn view(&self) -> TokenView {
        TokenView { tok: self.tok, s: self.s@ }
    }
}

impl Clone for Token {
    fn clone(&self) -> (r: Token)
        ensures
            r == *self,
    {
        Token { tok: self.tok, s: self.s.clone() }
    }
}

impl TokenView {
    /// The text `Token(<tag>:<text>)` that describes a token.
    pub open spec fn describe(self) -> Seq<char> {
        "Token("@ + self.tok.spelling() + ":"@ + self.s + ")"@
    }
}

impl Token {
    /// A token with the given tag and a copy of the given text.
    pub fn new(tok: Tok, s: &str) -> (r: Token)
        ensures
            r@ == (TokenView { tok, s: s@ }),
    {
        Token { tok, s: String::from_str(s) }
    }

    /// Describes the token as `Token(<tag>:<text>)`.
    pub fn to_string(&self) -> (r: String)
        ensures
            r@ == self@.describe(),
    {
        let mut r = String::from_str("Token(");
        r.append(self.tok.as_str());
        r.append(":");
        r.append(self.s.as_str());
        r.append(")");
        r
    }
}

} // verus!

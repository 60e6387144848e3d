//! The recursive-descent parser: from tokens to a design.
//!
//! Every method reads the rule of the grammar that bears its name, from the
//! tokens that are still to be read, and leaves the parser after what it read.
use crate::error::{ParseError, ParseErrorView};
use crate::grammar;
use crate::grammar::{Ahead, Input, Parsed, Skipped};
use crate::number::{parse_i32, DsnNumber};
use crate::parsing_laws::valid_pcb;
use crate::text::{chars_of, string_of};
use crate::token::{Tok, Token};
use crate::types::{
    lemma_views_add, lemma_views_empty, lemma_views_push, views, DsnCircle, DsnCircuit, DsnClass,
    DsnClearance, DsnClearanceType, DsnComponent, DsnDimensionUnit, DsnImage, DsnKeepout,
    DsnKeepoutType, DsnLayer, DsnLayerType, DsnLibrary, DsnLockType, DsnNet, DsnNetwork,
    DsnPadstack, DsnPadstackShape, DsnPath, DsnPcb, DsnPcbView, DsnPin, DsnPinRef, DsnPlacement,
    DsnPlacementRef, DsnPlane, DsnPoint, DsnPolygon, DsnQArc, DsnRect, DsnResolution, DsnRule,
    DsnShape, DsnSide, DsnStructure, DsnVia, DsnWindow, DsnWire, DsnWiring,
};
use vstd::prelude::*;

verus! {

/// The result `r` of a rule, with the tokens `rest` that it left, is what the
/// grammar gives.
pub open spec fn agrees<T: View>(
    r: Result<T, ParseError>,
    rest: Input,
    expected: Parsed<T::V>,
) -> bool {
    match expected {
        Ok((v, tail)) => r is Ok && r->Ok_0@ == v && rest == tail,
        Err(e) => r is Err && r->Err_0@ == e,
    }
}

/// The same for a rule that gives a list.
pub open spec fn agrees_list<T: View>(
    r: Result<Vec<T>, ParseError>,
    rest: Input,
    expected: Parsed<Seq<T::V>>,
) -> bool {
    match expected {
        Ok((v, tail)) => r is Ok && views(r->Ok_0@) == v && rest == tail,
        Err(e) => r is Err && r->Err_0@ == e,
    }
}

/// The same for a rule that gives no value.
pub open spec fn advances(r: Result<(), ParseError>, rest: Input, expected: Skipped) -> bool {
    match expected {
        Ok(tail) => r is Ok && rest == tail,
        Err(e) => r is Err && r->Err_0@ == e,
    }
}

/// The result of parsing a whole design is what the grammar gives.
pub open spec fn parses_to(
    r: Result<DsnPcb, ParseError>,
    expected: Result<DsnPcbView, ParseErrorView>,
) -> bool {
    match expected {
        Ok(v) => r is Ok && r->Ok_0@ == v,
        Err(e) => r is Err && r->Err_0@ == e,
    }
}

impl DsnPinRef {
    /// Splits `component-pin` at its last hyphen. `None` if there is no
    /// hyphen, or nothing before or nothing behind the last one.
    pub fn parse(text: &str) -> (r: Option<DsnPinRef>)
        ensures
            match grammar::split_pin_ref(text@) {
                Some(v) => r is Some && r->Some_0@ == v,
                None => r is None,
            },
    {
        let v = chars_of(text);
        let mut i: usize = v.len();
        assert(v@.take(i as int) == v@);
        while i > 0 && v[i - 1] != '-'
            invariant
                i <= v.len(),
                grammar::last_hyphen(v@) == grammar::last_hyphen(v@.take(i as int)),
            decreases i,
        {
            assert(v@.take(i as int).drop_last() == v@.take(i - 1));
            i -= 1;
        }
        if i <= 1 || i == v.len() {
            proof {
                if i > 0 {
                    assert(v@.take(i as int).last() == '-');
                }
            }
            None
        } else {
            assert(v@.take(i as int).last() == '-');
            assert(v@.take(i - 1) == v@.subrange(0, i - 1));
            assert(v@.skip(i as int) == v@.subrange(i as int, v.len() as int));
            Some(
                DsnPinRef {
                    component_id: string_of(&v, 0, i - 1),
                    pin_id: string_of(&v, i, v.len()),
                },
            )
        }
    }
}

/// A parser over a sequence of tokens.
#[must_use]
#[derive(Debug, Clone, PartialEq)]
pub struct Parser {
    toks: Vec<Token>,
    idx: usize,
}

impl Parser {
    /// The tokens that the parser has not read yet.
    pub closed spec fn remaining(&self) -> Input {
        if self.idx <= self.toks.len() {
            views(self.toks@).skip(self.idx as int)
        } else {
            Seq::empty()
        }
    }

    spec fn rest(&self) -> Input {
        self.remaining()
    }

    /// A parser that has all of `toks` to read.
    pub fn new(toks: &[Token]) -> (r: Parser)
        ensures
            r.remaining() == views(toks@),
    {
        let mut v: Vec<Token> = Vec::new();
        let mut i: usize = 0;
        while i < toks.len()
            invariant
                i <= toks.len(),
                v@ == toks@.take(i as int),
            decreases toks.len() - i,
        {
            v.push(toks[i].clone());
            assert(v@ =~= toks@.take(i + 1));
            i += 1;
        }
        assert(v@ =~= toks@);
        assert(views(v@).skip(0) =~= views(toks@));
        Parser { toks: v, idx: 0 }
    }

    /// Parses the design that the tokens denote: `(pcb <id> ...)`. Fails on
    /// the first token that the grammar does not allow; tokens after the
    /// design are not read. A design that is returned is valid: it has a
    /// name, its polygons have three points or more, its paths two or more,
    /// its clearances a type, its pin references a component and a pin, and
    /// its numbers are numbers.
    pub fn parse(self) -> (r: Result<DsnPcb, ParseError>)
        ensures
            parses_to(r, grammar::document(self.remaining())),
            r is Ok ==> r->Ok_0@.valid(),
    {
        proof {
            valid_pcb(self.remaining());
        }
        let mut p = self;
        p.pcb()
    }

    /// The token `ahead` places after the next one.
    fn peek(&self, ahead: usize) -> (r: Result<&Token, ParseError>)
        ensures
            match r {
                Ok(t) => ahead < self.rest().len() && t@ == self.rest()[ahead as int],
                Err(e) => ahead >= self.rest().len() && e@ == ParseErrorView::UnexpectedEof,
            },
    {
        if ahead < self.toks.len() && self.idx < self.toks.len() - ahead {
            Ok(&self.toks[self.idx + ahead])
        } else {
            Err(ParseError::UnexpectedEof)
        }
    }

    /// What a repetition of forms sees next: `None` for the closing `)`, else
    /// the keyword after the next token.
    fn ahead(&self) -> (r: Result<Option<Tok>, ParseError>)
        ensures
            match grammar::ahead(self.rest()) {
                Ahead::Eof => r is Err && r->Err_0@ == ParseErrorView::UnexpectedEof,
                Ahead::Close => r is Ok && r->Ok_0 is None,
                Ahead::Head(t) => r is Ok && r->Ok_0 == Some(t.tok),
            },
    {
        if self.peek(0)?.tok == Tok::Rparen {
            Ok(None)
        } else {
            Ok(Some(self.peek(1)?.tok))
        }
    }

    /// Whether the next token is `)`.
    fn at_close(&self) -> (r: Result<bool, ParseError>)
        ensures
            match r {
                Ok(b) => self.rest().len() > 0 && b == (self.rest()[0].tok == Tok::Rparen),
                Err(e) => self.rest().len() == 0 && e@ == ParseErrorView::UnexpectedEof,
            },
    {
        Ok(self.peek(0)?.tok == Tok::Rparen)
    }

    /// The failure on a keyword that heads no form allowed here.
    fn unrecognised(&self) -> (r: ParseError)
        requires
            self.rest().len() >= 2,
        ensures
            r@ == ParseErrorView::UnrecognisedToken(self.rest()[1]),
    {
        match self.peek(1) {
            Ok(t) => ParseError::UnrecognisedToken(t.clone()),
            Err(e) => e,
        }
    }

    /// Reads the next token and gives its tag.
    fn next(&mut self) -> (r: Result<Tok, ParseError>)
        ensures
            agrees(r, final(self).rest(), grammar::next(old(self).rest())),
            r is Ok ==> final(self).idx == old(self).idx + 1,
    {
        if self.idx < self.toks.len() {
            self.idx += 1;
            assert(self.rest() =~= old(self).rest().skip(1));
            Ok(self.toks[self.idx - 1].tok)
        } else {
            Err(ParseError::UnexpectedEof)
        }
    }

    /// Reads the next token, which must have the tag `t`.
    fn expect(&mut self, t: Tok) -> (r: Result<(), ParseError>)
        ensures
            advances(r, final(self).rest(), grammar::expect(old(self).rest(), t)),
    {
        if self.idx < self.toks.len() {
            self.idx += 1;
            assert(self.rest() =~= old(self).rest().skip(1));
            if self.toks[self.idx - 1].tok == t {
                Ok(())
            } else {
                Err(ParseError::UnexpectedToken(self.toks[self.idx - 1].clone()))
            }
        } else {
            Err(ParseError::UnexpectedEof)
        }
    }

    /// Reads the next token and gives its text.
    fn literal(&mut self) -> (r: Result<String, ParseError>)
        ensures
            agrees(r, final(self).rest(), grammar::literal(old(self).rest())),
    {
        if self.idx < self.toks.len() {
            self.idx += 1;
            assert(self.rest() =~= old(self).rest().skip(1));
            Ok(self.toks[self.idx - 1].s.clone())
        } else {
            Err(ParseError::UnexpectedEof)
        }
    }

    /// Skips one whole form, from its `(` to the `)` that matches it.
    fn ignore(&mut self) -> (r: Result<(), ParseError>)
        ensures
            advances(r, final(self).rest(), grammar::ignore(old(self).rest())),
    {
        self.expect(Tok::Lparen)?;
        let mut depth: usize = 0;
        loop
            invariant
                grammar::skip_to_close(self.rest(), depth as nat) == grammar::ignore(
                    old(self).rest(),
                ),
                depth <= self.idx,
            decreases self.rest().len(),
        {
            let t = self.next()?;
            if t == Tok::Rparen {
                if depth == 0 {
                    return Ok(());
                }
                depth -= 1;
            } else if t == Tok::Lparen {
                depth += 1;
            }
        }
    }

    /// The whole design.
    fn pcb(&mut self) -> (r: Result<DsnPcb, ParseError>)
        ensures
            agrees(r, final(self).rest(), grammar::pcb(old(self).rest())),
    {
        let mut v = DsnPcb::default();
        self.expect(Tok::Lparen)?;
        self.expect(Tok::Pcb)?;
        v.pcb_id = self.literal()?;
        if v.pcb_id.as_str().is_empty() {
            return Err(ParseError::EmptyId);
        }
        loop
            invariant
                grammar::pcb_items(self.rest(), v@) == grammar::pcb(old(self).rest()),
            decreases self.rest().len(),
        {
            broadcast use
                grammar::consumes_library,
                grammar::consumes_network,
                grammar::consumes_ignored,
                grammar::consumes_placement,
                grammar::consumes_resolution,
                grammar::consumes_structure,
                grammar::consumes_unit,
                grammar::consumes_wiring,
            ;
            let head = self.ahead()?;
            match head {
                None => {
                    self.expect(Tok::Rparen)?;
                    return Ok(v);
                },
                Some(Tok::Library) => {
                    v.library = self.library()?;
                },
                Some(Tok::Network) => {
                    v.network = self.network()?;
                },
                Some(Tok::Parser) => {
                    self.ignore()?;
                },
                Some(Tok::Placement) => {
                    v.placement = self.placement()?;
                },
                Some(Tok::Resolution) => {
                    v.resolution = self.resolution()?;
                },
                Some(Tok::Structure) => {
                    v.structure = self.structure()?;
                },
                Some(Tok::Unit) => {
                    v.unit.dimension = self.unit()?;
                },
                Some(Tok::Wiring) => {
                    v.wiring = self.wiring()?;
                },
                Some(_) => {
                    return Err(self.unrecognised());
                },
            }
        }
    }

    /// The reusable parts of the design.
    fn library(&mut self) -> (r: Result<DsnLibrary, ParseError>)
        ensures
            agrees(r, final(self).rest(), grammar::library(old(self).rest())),
    {
        let mut v = DsnLibrary::default();
        self.expect(Tok::Lparen)?;
        self.expect(Tok::Library)?;
        loop
            invariant
                grammar::library_items(self.rest(), v@) == grammar::library(old(self).rest()),
            decreases self.rest().len(),
        {
            broadcast use lemma_views_push, grammar::consumes_image, grammar::consumes_padstack;
            let head = self.ahead()?;
            match head {
                None => {
                    self.expect(Tok::Rparen)?;
                    return Ok(v);
                },
                Some(Tok::Image) => {
                    let x = self.image()?;
                    v.images.push(x);
                },
                Some(Tok::Padstack) => {
                    let x = self.padstack()?;
                    v.padstacks.push(x);
                },
                Some(_) => {
                    return Err(self.unrecognised());
                },
            }
        }
    }

    /// The connectivity of the design.
    fn network(&mut self) -> (r: Result<DsnNetwork, ParseError>)
        ensures
            agrees(r, final(self).rest(), grammar::network(old(self).rest())),
    {
        let mut v = DsnNetwork::default();
        self.expect(Tok::Lparen)?;
        self.expect(Tok::Network)?;
        loop
            invariant
                grammar::network_items(self.rest(), v@) == grammar::network(old(self).rest()),
            decreases self.rest().len(),
        {
            broadcast use lemma_views_push, grammar::consumes_class, grammar::consumes_net;
            let head = self.ahead()?;
            match head {
                None => {
                    self.expect(Tok::Rparen)?;
                    return Ok(v);
                },
                Some(Tok::Class) => {
                    let x = self.class()?;
                    v.classes.push(x);
                },
                Some(Tok::Net) => {
                    let x = self.net()?;
                    v.nets.push(x);
                },
                Some(_) => {
                    return Err(self.unrecognised());
                },
            }
        }
    }

    /// The placed components.
    fn placement(&mut self) -> (r: Result<DsnPlacement, ParseError>)
        ensures
            agrees(r, final(self).rest(), grammar::placement(old(self).rest())),
    {
        let mut v = DsnPlacement::default();
        self.expect(Tok::Lparen)?;
        self.expect(Tok::Placement)?;
        loop
            invariant
                grammar::placement_items(self.rest(), v@) == grammar::placement(old(self).rest()),
            decreases self.rest().len(),
        {
            broadcast use lemma_views_push, grammar::consumes_component;
            let head = self.ahead()?;
            match head {
                None => {
                    self.expect(Tok::Rparen)?;
                    return Ok(v);
                },
                Some(Tok::Component) => {
                    let x = self.component()?;
                    v.components.push(x);
                },
                Some(_) => {
                    return Err(self.unrecognised());
                },
            }
        }
    }

    /// The precision of coordinates.
    fn resolution(&mut self) -> (r: Result<DsnResolution, ParseError>)
        ensures
            agrees(r, final(self).rest(), grammar::resolution(old(self).rest())),
    {
        self.expect(Tok::Lparen)?;
        self.expect(Tok::Resolution)?;
        let dimension = self.dimension()?;
        let amount = self.integer()?;
        self.expect(Tok::Rparen)?;
        Ok(DsnResolution { dimension, amount })
    }

    /// The physical structure of the board.
    fn structure(&mut self) -> (r: Result<DsnStructure, ParseError>)
        ensures
            agrees(r, final(self).rest(), grammar::structure(old(self).rest())),
    {
        let mut v = DsnStructure::default();
        self.expect(Tok::Lparen)?;
        self.expect(Tok::Structure)?;
        loop
            invariant
                grammar::structure_items(self.rest(), v@) == grammar::structure(old(self).rest()),
            decreases self.rest().len(),
        {
            broadcast use
                lemma_views_push,
                lemma_views_add,
                grammar::consumes_boundary,
                grammar::consumes_keepout,
                grammar::consumes_layer,
                grammar::consumes_plane,
                grammar::consumes_rule,
                grammar::consumes_via_names_form,
            ;
            let head = self.ahead()?;
            match head {
                None => {
                    self.expect(Tok::Rparen)?;
                    return Ok(v);
                },
                Some(Tok::Boundary) => {
                    self.expect(Tok::Lparen)?;
                    self.expect(Tok::Boundary)?;
                    let x = self.shape()?;
                    self.expect(Tok::Rparen)?;
                    v.boundaries.push(x);
                },
                Some(Tok::Keepout | Tok::ViaKeepout | Tok::WireKeepout) => {
                    let x = self.keepout()?;
                    v.keepouts.push(x);
                },
                Some(Tok::Layer) => {
                    let x = self.layer()?;
                    v.layers.push(x);
                },
                Some(Tok::Plane) => {
                    let x = self.plane()?;
                    v.planes.push(x);
                },
                Some(Tok::Rule) => {
                    let mut x = self.rule()?;
                    v.rules.append(&mut x);
                },
                Some(Tok::Via) => {
                    self.expect(Tok::Lparen)?;
                    self.expect(Tok::Via)?;
                    let mut x = self.names()?;
                    v.vias.append(&mut x);
                },
                Some(_) => {
                    return Err(self.unrecognised());
                },
            }
        }
    }

    /// The routed geometry.
    fn wiring(&mut self) -> (r: Result<DsnWiring, ParseError>)
        ensures
            agrees(r, final(self).rest(), grammar::wiring(old(self).rest())),
    {
        let mut v = DsnWiring::default();
        self.expect(Tok::Lparen)?;
        self.expect(Tok::Wiring)?;
        loop
            invariant
                grammar::wiring_items(self.rest(), v@) == grammar::wiring(old(self).rest()),
            decreases self.rest().len(),
        {
            broadcast use lemma_views_push, grammar::consumes_wire, grammar::consumes_via;
            let head = self.ahead()?;
            match head {
                None => {
                    self.expect(Tok::Rparen)?;
                    return Ok(v);
                },
                Some(Tok::Wire) => {
                    let x = self.wire()?;
                    v.wires.push(x);
                },
                Some(Tok::Via) => {
                    let x = self.via()?;
                    v.vias.push(x);
                },
                Some(_) => {
                    return Err(self.unrecognised());
                },
            }
        }
    }

    /// A routed via: recognised, without fields.
    fn via(&mut self) -> (r: Result<DsnVia, ParseError>)
        ensures
            agrees(r, final(self).rest(), grammar::via(old(self).rest())),
    {
        self.expect(Tok::Lparen)?;
        self.expect(Tok::Via)?;
        self.expect(Tok::Rparen)?;
        Ok(DsnVia {})
    }

    /// A routed wire: recognised, without fields.
    fn wire(&mut self) -> (r: Result<DsnWire, ParseError>)
        ensures
            agrees(r, final(self).rest(), grammar::wire(old(self).rest())),
    {
        self.expect(Tok::Lparen)?;
        self.expect(Tok::Wire)?;
        self.expect(Tok::Rparen)?;
        Ok(DsnWire {})
    }

    /// A layer; its properties are skipped.
    fn layer(&mut self) -> (r: Result<DsnLayer, ParseError>)
        ensures
            agrees(r, final(self).rest(), grammar::layer(old(self).rest())),
    {
        let mut v = DsnLayer::default();
        self.expect(Tok::Lparen)?;
        self.expect(Tok::Layer)?;
        v.layer_name = self.literal()?;
        loop
            invariant
                grammar::layer_items(self.rest(), v@) == grammar::layer(old(self).rest()),
            decreases self.rest().len(),
        {
            broadcast use grammar::consumes_layer_type_form, grammar::consumes_ignored;
            let head = self.ahead()?;
            match head {
                None => {
                    self.expect(Tok::Rparen)?;
                    return Ok(v);
                },
                Some(Tok::Type) => {
                    self.expect(Tok::Lparen)?;
                    self.expect(Tok::Type)?;
                    let x = self.layer_type()?;
                    self.expect(Tok::Rparen)?;
                    v.layer_type = x;
                },
                Some(Tok::Property) => {
                    self.ignore()?;
                },
                Some(_) => {
                    return Err(self.unrecognised());
                },
            }
        }
    }

    /// A plane: recognised, without fields.
    fn plane(&mut self) -> (r: Result<DsnPlane, ParseError>)
        ensures
            agrees(r, final(self).rest(), grammar::plane(old(self).rest())),
    {
        self.expect(Tok::Lparen)?;
        self.expect(Tok::Plane)?;
        self.expect(Tok::Rparen)?;
        Ok(DsnPlane {})
    }

    /// The placed instances of one footprint.
    fn component(&mut self) -> (r: Result<DsnComponent, ParseError>)
        ensures
            agrees(r, final(self).rest(), grammar::component(old(self).rest())),
    {
        let mut v = DsnComponent::default();
        self.expect(Tok::Lparen)?;
        self.expect(Tok::Component)?;
        v.image_id = self.literal()?;
        loop
            invariant
                grammar::component_items(self.rest(), v@) == grammar::component(old(self).rest()),
            decreases self.rest().len(),
        {
            broadcast use lemma_views_push, grammar::consumes_placement_ref;
            let head = self.ahead()?;
            match head {
                None => {
                    self.expect(Tok::Rparen)?;
                    return Ok(v);
                },
                Some(Tok::Place) => {
                    let x = self.placement_ref()?;
                    v.refs.push(x);
                },
                Some(_) => {
                    return Err(self.unrecognised());
                },
            }
        }
    }

    /// One placed instance of a component.
    fn placement_ref(&mut self) -> (r: Result<DsnPlacementRef, ParseError>)
        ensures
            agrees(r, final(self).rest(), grammar::placement_ref(old(self).rest())),
    {
        let mut v = DsnPlacementRef::default();
        self.expect(Tok::Lparen)?;
        self.expect(Tok::Place)?;
        v.component_id = self.literal()?;
        v.p = self.vertex()?;
        v.side = self.side()?;
        v.rotation = self.number()?;
        loop
            invariant
                grammar::placement_ref_items(self.rest(), v@)
                    == grammar::placement_ref(old(self).rest()),
            decreases self.rest().len(),
        {
            broadcast use grammar::consumes_lock_type_form, grammar::consumes_part_number_form;
            let head = self.ahead()?;
            match head {
                None => {
                    self.expect(Tok::Rparen)?;
                    return Ok(v);
                },
                Some(Tok::LockType) => {
                    self.expect(Tok::Lparen)?;
                    self.expect(Tok::LockType)?;
                    let x = self.lock_type()?;
                    self.expect(Tok::Rparen)?;
                    v.lock_type = x;
                },
                Some(Tok::Pn) => {
                    self.expect(Tok::Lparen)?;
                    self.expect(Tok::Pn)?;
                    let x = self.literal()?;
                    self.expect(Tok::Rparen)?;
                    v.part_number = x;
                },
                Some(_) => {
                    return Err(self.unrecognised());
                },
            }
        }
    }

    /// A footprint.
    fn image(&mut self) -> (r: Result<DsnImage, ParseError>)
        ensures
            agrees(r, final(self).rest(), grammar::image(old(self).rest())),
    {
        let mut v = DsnImage::default();
        self.expect(Tok::Lparen)?;
        self.expect(Tok::Image)?;
        v.image_id = self.literal()?;
        loop
            invariant
                grammar::image_items(self.rest(), v@) == grammar::image(old(self).rest()),
            decreases self.rest().len(),
        {
            broadcast use
                lemma_views_push,
                grammar::consumes_outline,
                grammar::consumes_pin,
                grammar::consumes_keepout,
            ;
            let head = self.ahead()?;
            match head {
                None => {
                    self.expect(Tok::Rparen)?;
                    return Ok(v);
                },
                Some(Tok::Outline) => {
                    self.expect(Tok::Lparen)?;
                    self.expect(Tok::Outline)?;
                    let x = self.shape()?;
                    self.expect(Tok::Rparen)?;
                    v.outlines.push(x);
                },
                Some(Tok::Pin) => {
                    let x = self.pin()?;
                    v.pins.push(x);
                },
                Some(Tok::Keepout | Tok::ViaKeepout | Tok::WireKeepout) => {
                    let x = self.keepout()?;
                    v.keepouts.push(x);
                },
                Some(_) => {
                    return Err(self.unrecognised());
                },
            }
        }
    }

    /// A keepout of any of the three kinds.
    fn keepout(&mut self) -> (r: Result<DsnKeepout, ParseError>)
        ensures
            agrees(r, final(self).rest(), grammar::keepout(old(self).rest())),
    {
        let mut v = DsnKeepout::default();
        self.expect(Tok::Lparen)?;
        v.keepout_type = self.keepout_type()?;
        loop
            invariant
                grammar::keepout_items(self.rest(), v@) == grammar::keepout(old(self).rest()),
            decreases self.rest().len(),
        {
            broadcast use grammar::consumes_shape;
            let head = self.ahead()?;
            match head {
                None => {
                    self.expect(Tok::Rparen)?;
                    return Ok(v);
                },
                Some(Tok::Rect | Tok::Circle | Tok::Polygon | Tok::Path | Tok::Qarc) => {
                    v.shape = self.shape()?;
                },
                Some(_) => {
                    return Err(self.unrecognised());
                },
            }
        }
    }

    /// A pin of an image, with or without a rotation.
    fn pin(&mut self) -> (r: Result<DsnPin, ParseError>)
        ensures
            agrees(r, final(self).rest(), grammar::pin(old(self).rest())),
    {
        let mut v = DsnPin::default();
        self.expect(Tok::Lparen)?;
        self.expect(Tok::Pin)?;
        v.padstack_id = self.literal()?;
        if self.peek(0)?.tok == Tok::Lparen {
            self.expect(Tok::Lparen)?;
            self.expect(Tok::Rotate)?;
            v.rotation = self.number()?;
            self.expect(Tok::Rparen)?;
        }
        v.pin_id = self.literal()?;
        v.p = self.vertex()?;
        self.expect(Tok::Rparen)?;
        Ok(v)
    }

    /// A padstack.
    fn padstack(&mut self) -> (r: Result<DsnPadstack, ParseError>)
        ensures
            agrees(r, final(self).rest(), grammar::padstack(old(self).rest())),
    {
        let mut v = DsnPadstack::default();
        self.expect(Tok::Lparen)?;
        self.expect(Tok::Padstack)?;
        v.padstack_id = self.literal()?;
        loop
            invariant
                grammar::padstack_items(self.rest(), v@) == grammar::padstack(old(self).rest()),
            decreases self.rest().len(),
        {
            broadcast use
                lemma_views_push,
                grammar::consumes_attach_form,
                grammar::consumes_padstack_shape,
            ;
            let head = self.ahead()?;
            match head {
                None => {
                    self.expect(Tok::Rparen)?;
                    return Ok(v);
                },
                Some(Tok::Attach) => {
                    self.expect(Tok::Lparen)?;
                    self.expect(Tok::Attach)?;
                    let x = self.onoff()?;
                    self.expect(Tok::Rparen)?;
                    v.attach = x;
                },
                Some(Tok::Shape) => {
                    let x = self.padstack_shape()?;
                    v.shapes.push(x);
                },
                Some(_) => {
                    return Err(self.unrecognised());
                },
            }
        }
    }

    /// One shape of a padstack.
    fn padstack_shape(&mut self) -> (r: Result<DsnPadstackShape, ParseError>)
        ensures
            agrees(r, final(self).rest(), grammar::padstack_shape(old(self).rest())),
    {
        self.expect(Tok::Lparen)?;
        self.expect(Tok::Shape)?;
        let shape = self.shape()?;
        self.expect(Tok::Rparen)?;
        Ok(DsnPadstackShape { shape })
    }

    /// A clearance rule.
    fn clearance(&mut self) -> (r: Result<DsnClearance, ParseError>)
        ensures
            agrees(r, final(self).rest(), grammar::clearance(old(self).rest())),
    {
        self.expect(Tok::Lparen)?;
        self.expect(Tok::Clearance)?;
        let amount = self.number()?;
        let mut types = self.clearance_types()?;
        // A clearance without a type applies to everything.
        if types.len() == 0 {
            types.push(DsnClearanceType::All);
            assert(views(types@) =~= seq![DsnClearanceType::All]);
        }
        Ok(DsnClearance { amount, types })
    }

    /// The types of a clearance, up to and with the `)` that closes it.
    fn clearance_types(&mut self) -> (r: Result<Vec<DsnClearanceType>, ParseError>)
        ensures
            agrees_list(
                r,
                final(self).rest(),
                grammar::clearance_types_items(old(self).rest(), Seq::empty()),
            ),
    {
        broadcast use lemma_views_empty;

        let mut v = Vec::new();
        loop
            invariant
                grammar::clearance_types_items(self.rest(), views(v@))
                    == grammar::clearance_types_items(old(self).rest(), Seq::empty()),
            decreases self.rest().len(),
        {
            broadcast use lemma_views_push, grammar::consumes_clearance_type_form;
            if self.at_close()? {
                self.expect(Tok::Rparen)?;
                return Ok(v);
            }
            self.expect(Tok::Lparen)?;
            self.expect(Tok::Type)?;
            let x = self.clearance_type()?;
            self.expect(Tok::Rparen)?;
            v.push(x);
        }
    }

    /// A window: recognised, without fields.
    #[allow(dead_code)]
    fn window(&mut self) -> (r: Result<DsnWindow, ParseError>)
        ensures
            agrees(r, final(self).rest(), grammar::window(old(self).rest())),
    {
        self.expect(Tok::Lparen)?;
        self.expect(Tok::Window)?;
        self.expect(Tok::Rparen)?;
        Ok(DsnWindow {})
    }

    /// A shape, chosen by its keyword.
    fn shape(&mut self) -> (r: Result<DsnShape, ParseError>)
        ensures
            agrees(r, final(self).rest(), grammar::shape(old(self).rest())),
    {
        match self.peek(1)?.tok {
            Tok::Circle => Ok(DsnShape::Circle(self.circle()?)),
            Tok::Path => Ok(DsnShape::Path(self.path()?)),
            Tok::Polygon => Ok(DsnShape::Polygon(self.polygon()?)),
            Tok::Qarc => Ok(DsnShape::QArc(self.qarc()?)),
            Tok::Rect => Ok(DsnShape::Rect(self.rect()?)),
            _ => Err(ParseError::UnrecognisedShapeType),
        }
    }

    /// A rectangle.
    fn rect(&mut self) -> (r: Result<DsnRect, ParseError>)
        ensures
            agrees(r, final(self).rest(), grammar::rect(old(self).rest())),
    {
        self.expect(Tok::Lparen)?;
        self.expect(Tok::Rect)?;
        let layer_id = self.literal()?;
        // Opposite corners, in either order.
        let a = self.vertex()?;
        let b = self.vertex()?;
        self.expect(Tok::Rparen)?;
        Ok(DsnRect::new(layer_id, a, b))
    }

    /// A circle, centred on the origin unless the form says otherwise.
    fn circle(&mut self) -> (r: Result<DsnCircle, ParseError>)
        ensures
            agrees(r, final(self).rest(), grammar::circle(old(self).rest())),
    {
        let mut v = DsnCircle::default();
        self.expect(Tok::Lparen)?;
        self.expect(Tok::Circle)?;
        v.layer_id = self.literal()?;
        v.diameter = self.number()?;
        if self.peek(0)?.tok != Tok::Rparen {
            v.p = self.vertex()?;
        }
        self.expect(Tok::Rparen)?;
        Ok(v)
    }

    /// A polygon; one with too few points is refused.
    fn polygon(&mut self) -> (r: Result<DsnPolygon, ParseError>)
        ensures
            agrees(r, final(self).rest(), grammar::polygon(old(self).rest())),
    {
        self.expect(Tok::Lparen)?;
        self.expect(Tok::Polygon)?;
        let layer_id = self.literal()?;
        let aperture_width = self.number()?;
        let pts = self.points()?;
        if pts.len() < 3 {
            return Err(ParseError::PolygonTooFewPoints);
        }
        Ok(DsnPolygon { layer_id, aperture_width, pts })
    }

    /// A path; one with too few points is refused.
    fn path(&mut self) -> (r: Result<DsnPath, ParseError>)
        ensures
            agrees(r, final(self).rest(), grammar::path(old(self).rest())),
    {
        self.expect(Tok::Lparen)?;
        self.expect(Tok::Path)?;
        let layer_id = self.literal()?;
        let aperture_width = self.number()?;
        let pts = self.points()?;
        if pts.len() < 2 {
            return Err(ParseError::PathTooFewPoints);
        }
        Ok(DsnPath { layer_id, aperture_width, pts })
    }

    /// The points of a polygon or a path, up to and with the `)` that closes it.
    fn points(&mut self) -> (r: Result<Vec<DsnPoint>, ParseError>)
        ensures
            agrees_list(
                r,
                final(self).rest(),
                grammar::points_items(old(self).rest(), Seq::empty()),
            ),
    {
        broadcast use lemma_views_empty;

        let mut v = Vec::new();
        loop
            invariant
                grammar::points_items(self.rest(), views(v@))
                    == grammar::points_items(old(self).rest(), Seq::empty()),
            decreases self.rest().len(),
        {
            broadcast use lemma_views_push;
            if self.at_close()? {
                self.expect(Tok::Rparen)?;
                return Ok(v);
            }
            let x = self.vertex()?;
            v.push(x);
        }
    }

    /// A quarter arc.
    fn qarc(&mut self) -> (r: Result<DsnQArc, ParseError>)
        ensures
            agrees(r, final(self).rest(), grammar::qarc(old(self).rest())),
    {
        self.expect(Tok::Lparen)?;
        self.expect(Tok::Qarc)?;
        let layer_id = self.literal()?;
        let aperture_width = self.number()?;
        let start = self.vertex()?;
        let end = self.vertex()?;
        let center = self.vertex()?;
        self.expect(Tok::Rparen)?;
        Ok(DsnQArc { layer_id, aperture_width, start, end, center })
    }

    /// A class: the names of its nets, its circuits and its rules.
    fn class(&mut self) -> (r: Result<DsnClass, ParseError>)
        ensures
            agrees(r, final(self).rest(), grammar::class(old(self).rest())),
    {
        let mut v = DsnClass::default();
        self.expect(Tok::Lparen)?;
        self.expect(Tok::Class)?;
        v.class_id = self.literal()?;
        loop
            invariant
                grammar::class_items(self.rest(), v@) == grammar::class(old(self).rest()),
            decreases self.rest().len(),
        {
            broadcast use
                lemma_views_push,
                lemma_views_add,
                grammar::consumes_circuit,
                grammar::consumes_rule,
            ;
            if self.at_close()? {
                self.expect(Tok::Rparen)?;
                return Ok(v);
            }
            if self.peek(0)?.tok == Tok::Lparen {
                match self.peek(1)?.tok {
                    Tok::Circuit => {
                        let mut x = self.circuit()?;
                        v.circuits.append(&mut x);
                    },
                    Tok::Rule => {
                        let mut x = self.rule()?;
                        v.rules.append(&mut x);
                    },
                    _ => {
                        return Err(self.unrecognised());
                    },
                }
            } else {
                let x = self.literal()?;
                v.net_ids.push(x);
            }
        }
    }

    /// The directives of a circuit.
    fn circuit(&mut self) -> (r: Result<Vec<DsnCircuit>, ParseError>)
        ensures
            agrees_list(r, final(self).rest(), grammar::circuit(old(self).rest())),
    {
        broadcast use lemma_views_empty;

        let mut v = Vec::new();
        self.expect(Tok::Lparen)?;
        self.expect(Tok::Circuit)?;
        loop
            invariant
                grammar::circuit_items(self.rest(), views(v@))
                    == grammar::circuit(old(self).rest()),
            decreases self.rest().len(),
        {
            broadcast use lemma_views_push, grammar::consumes_use_via_form;
            let head = self.ahead()?;
            match head {
                None => {
                    self.expect(Tok::Rparen)?;
                    return Ok(v);
                },
                Some(Tok::UseVia) => {
                    self.expect(Tok::Lparen)?;
                    self.expect(Tok::UseVia)?;
                    let x = self.literal()?;
                    self.expect(Tok::Rparen)?;
                    v.push(DsnCircuit::UseVia(x));
                },
                Some(_) => {
                    return Err(self.unrecognised());
                },
            }
        }
    }

    /// A net and its pins.
    fn net(&mut self) -> (r: Result<DsnNet, ParseError>)
        ensures
            agrees(r, final(self).rest(), grammar::net(old(self).rest())),
    {
        let mut v = DsnNet::default();
        self.expect(Tok::Lparen)?;
        self.expect(Tok::Net)?;
        v.net_id = self.literal()?;
        loop
            invariant
                grammar::net_items(self.rest(), v@) == grammar::net(old(self).rest()),
            decreases self.rest().len(),
        {
            broadcast use lemma_views_add, grammar::consumes_pins_form;
            let head = self.ahead()?;
            match head {
                None => {
                    self.expect(Tok::Rparen)?;
                    return Ok(v);
                },
                Some(Tok::Pins) => {
                    self.expect(Tok::Lparen)?;
                    self.expect(Tok::Pins)?;
                    let mut x = self.pin_refs()?;
                    v.pins.append(&mut x);
                },
                Some(_) => {
                    return Err(self.unrecognised());
                },
            }
        }
    }

    /// Pin references, up to and with the `)` that closes the list.
    fn pin_refs(&mut self) -> (r: Result<Vec<DsnPinRef>, ParseError>)
        ensures
            agrees_list(
                r,
                final(self).rest(),
                grammar::pin_refs_items(old(self).rest(), Seq::empty()),
            ),
    {
        broadcast use lemma_views_empty;

        let mut v = Vec::new();
        loop
            invariant
                grammar::pin_refs_items(self.rest(), views(v@))
                    == grammar::pin_refs_items(old(self).rest(), Seq::empty()),
            decreases self.rest().len(),
        {
            broadcast use lemma_views_push;
            if self.at_close()? {
                self.expect(Tok::Rparen)?;
                return Ok(v);
            }
            let x = self.pin_ref()?;
            v.push(x);
        }
    }

    /// The constraints of a rule.
    fn rule(&mut self) -> (r: Result<Vec<DsnRule>, ParseError>)
        ensures
            agrees_list(r, final(self).rest(), grammar::rule(old(self).rest())),
    {
        broadcast use lemma_views_empty;

        let mut v = Vec::new();
        self.expect(Tok::Lparen)?;
        self.expect(Tok::Rule)?;
        loop
            invariant
                grammar::rule_items(self.rest(), views(v@)) == grammar::rule(old(self).rest()),
            decreases self.rest().len(),
        {
            broadcast use
                lemma_views_push,
                grammar::consumes_width_form,
                grammar::consumes_clearance_rule,
            ;
            let head = self.ahead()?;
            match head {
                None => {
                    self.expect(Tok::Rparen)?;
                    return Ok(v);
                },
                Some(Tok::Width) => {
                    self.expect(Tok::Lparen)?;
                    self.expect(Tok::Width)?;
                    let width = self.number()?;
                    self.expect(Tok::Rparen)?;
                    v.push(DsnRule::Width(width));
                },
                Some(Tok::Clearance) => {
                    let x = self.clearance()?;
                    v.push(DsnRule::Clearance(x));
                },
                Some(_) => {
                    return Err(self.unrecognised());
                },
            }
        }
    }

    /// Names, up to and with the `)` that closes the list.
    fn names(&mut self) -> (r: Result<Vec<String>, ParseError>)
        ensures
            agrees_list(
                r,
                final(self).rest(),
                grammar::names_items(old(self).rest(), Seq::empty()),
            ),
    {
        broadcast use lemma_views_empty;

        let mut v = Vec::new();
        loop
            invariant
                grammar::names_items(self.rest(), views(v@))
                    == grammar::names_items(old(self).rest(), Seq::empty()),
            decreases self.rest().len(),
        {
            broadcast use lemma_views_push;
            if self.at_close()? {
                self.expect(Tok::Rparen)?;
                return Ok(v);
            }
            let x = self.literal()?;
            v.push(x);
        }
    }

    /// A point.
    fn vertex(&mut self) -> (r: Result<DsnPoint, ParseError>)
        ensures
            agrees(r, final(self).rest(), grammar::vertex(old(self).rest())),
    {
        let x = self.number()?;
        let y = self.number()?;
        Ok(DsnPoint { x, y })
    }

    /// The unit of the design.
    fn unit(&mut self) -> (r: Result<DsnDimensionUnit, ParseError>)
        ensures
            agrees(r, final(self).rest(), grammar::unit(old(self).rest())),
    {
        self.expect(Tok::Lparen)?;
        self.expect(Tok::Unit)?;
        let v = self.dimension()?;
        self.expect(Tok::Rparen)?;
        Ok(v)
    }

    /// A reference to a pin.
    fn pin_ref(&mut self) -> (r: Result<DsnPinRef, ParseError>)
        ensures
            agrees(r, final(self).rest(), grammar::pin_ref(old(self).rest())),
    {
        let p = self.literal()?;
        match DsnPinRef::parse(p.as_str()) {
            Some(v) => Ok(v),
            None => Err(ParseError::InvalidPinReference(p)),
        }
    }

    /// A switch.
    fn onoff(&mut self) -> (r: Result<bool, ParseError>)
        ensures
            agrees(r, final(self).rest(), grammar::onoff(old(self).rest())),
    {
        match self.next()? {
            Tok::Off => Ok(false),
            Tok::On => Ok(true),
            _ => Err(ParseError::ExpectedOnOff),
        }
    }

    /// A side of the board.
    fn side(&mut self) -> (r: Result<DsnSide, ParseError>)
        ensures
            agrees(r, final(self).rest(), grammar::side(old(self).rest())),
    {
        match self.next()? {
            Tok::Back => Ok(DsnSide::Back),
            Tok::Both => Ok(DsnSide::Both),
            Tok::Front => Ok(DsnSide::Front),
            _ => Err(ParseError::UnrecognisedSide),
        }
    }

    /// A unit of length.
    fn dimension(&mut self) -> (r: Result<DsnDimensionUnit, ParseError>)
        ensures
            agrees(r, final(self).rest(), grammar::dimension(old(self).rest())),
    {
        match self.next()? {
            Tok::Inch => Ok(DsnDimensionUnit::Inch),
            Tok::Mil => Ok(DsnDimensionUnit::Mil),
            Tok::Cm => Ok(DsnDimensionUnit::Cm),
            Tok::Mm => Ok(DsnDimensionUnit::Mm),
            Tok::Um => Ok(DsnDimensionUnit::Um),
            _ => Err(ParseError::UnknownDimensionUnit),
        }
    }

    /// The type of a layer.
    fn layer_type(&mut self) -> (r: Result<DsnLayerType, ParseError>)
        ensures
            agrees(r, final(self).rest(), grammar::layer_type(old(self).rest())),
    {
        match self.next()? {
            Tok::Jumper => Ok(DsnLayerType::Jumper),
            Tok::Mixed => Ok(DsnLayerType::Mixed),
            Tok::Power => Ok(DsnLayerType::Power),
            Tok::Signal => Ok(DsnLayerType::Signal),
            _ => Err(ParseError::UnrecognisedLayerType),
        }
    }

    /// A lock type.
    fn lock_type(&mut self) -> (r: Result<DsnLockType, ParseError>)
        ensures
            agrees(r, final(self).rest(), grammar::lock_type(old(self).rest())),
    {
        match self.next()? {
            Tok::Gate => Ok(DsnLockType::Gate),
            Tok::Position => Ok(DsnLockType::Position),
            _ => Err(ParseError::UnrecognisedLockType),
        }
    }

    /// A clearance type.
    fn clearance_type(&mut self) -> (r: Result<DsnClearanceType, ParseError>)
        ensures
            agrees(r, final(self).rest(), grammar::clearance_type(old(self).rest())),
    {
        match self.next()? {
            Tok::DefaultSmd => Ok(DsnClearanceType::DefaultSmd),
            Tok::SmdSmd => Ok(DsnClearanceType::SmdSmd),
            _ => Err(ParseError::UnrecognisedClearanceType),
        }
    }

    /// The keyword of a keepout.
    fn keepout_type(&mut self) -> (r: Result<DsnKeepoutType, ParseError>)
        ensures
            agrees(r, final(self).rest(), grammar::keepout_type(old(self).rest())),
    {
        match self.next()? {
            Tok::Keepout => Ok(DsnKeepoutType::Keepout),
            Tok::ViaKeepout => Ok(DsnKeepoutType::ViaKeepout),
            Tok::WireKeepout => Ok(DsnKeepoutType::WireKeepout),
            _ => Err(ParseError::UnrecognisedKeepoutType),
        }
    }

    /// A number.
    fn number(&mut self) -> (r: Result<DsnNumber, ParseError>)
        ensures
            agrees(r, final(self).rest(), grammar::number(old(self).rest())),
    {
        let text = self.literal()?;
        match DsnNumber::parse(text.as_str()) {
            Some(v) => Ok(v),
            None => Err(ParseError::InvalidNumber(text)),
        }
    }

    /// An integer.
    fn integer(&mut self) -> (r: Result<i32, ParseError>)
        ensures
            agrees(r, final(self).rest(), grammar::integer(old(self).rest())),
    {
        let text = self.literal()?;
        match parse_i32(text.as_str()) {
            Some(v) => Ok(v),
            None => Err(ParseError::InvalidInteger(text)),
        }
    }
}

} // verus!

//! The grammar of a design, as functions on sequences of tokens.
//!
//! Each rule takes the tokens that are still to be read and gives either the
//! value it recognised together with the tokens that follow it, or the failure
//! on which reading stops. A rule for a parenthesised form expects `(`, then
//! the keyword that names the form, then its fields in a fixed order, then `)`.
//! A repetition reads forms until it meets the `)` that closes the enclosing
//! form, choosing the rule for each by the keyword after the next `(`.
use crate::error::ParseErrorView;
use crate::number::{int_literal, is_float_literal, DsnNumber};
use crate::token::{Tok, TokenView};
use crate::types::{
    DsnCircleView, DsnCircuitView, DsnClassView, DsnClearanceType, DsnClearanceView,
    DsnComponentView, DsnDimensionUnit, DsnImageView, DsnKeepoutType, DsnKeepoutView,
    DsnLayerType, DsnLayerView, DsnLibraryView, DsnLockType, DsnNetView, DsnNetworkView,
    DsnPadstackShapeView, DsnPadstackView, DsnPathView, DsnPcbView, DsnPinRefView, DsnPinView,
    DsnPlacementRefView, DsnPlacementView, DsnPlane, DsnPointView, DsnPolygonView, DsnQArcView,
    span, DsnRectView, DsnResolutionView, DsnRuleView, DsnShapeView, DsnSide,
    DsnStructureView, DsnUnitView, DsnVia, DsnWindow, DsnWire, DsnWiringView,
};
use vstd::prelude::*;

verus! {

/// The tokens that are still to be read.
pub type Input = Seq<TokenView>;

/// What a rule gives: a value and the tokens after it, or a failure.
pub type Parsed<V> = Result<(V, Input), ParseErrorView>;

/// What a rule without a value gives: the tokens after it, or a failure.
pub type Skipped = Result<Input, ParseErrorView>;

/// What one round of a repetition gives.
pub enum Step<A> {
    /// A form was read; the repetition goes on after it.
    More(A, Input),
    /// The closing `)` was read; the repetition is over.
    Done(A, Input),
    Fail(ParseErrorView),
}

/// What a repetition sees before it reads a form.
pub enum Ahead {
    /// There is no next token, or none after it.
    Eof,
    /// The next token is `)`.
    Close,
    /// The token after the next one: the keyword that names the form.
    Head(TokenView),
}

/// The rule read at least one token.
pub open spec fn consumes<V>(p: Parsed<V>, s: Input) -> bool {
    p matches Ok((_, rest)) ==> rest.len() < s.len()
}

/// The rule read at least one token.
pub open spec fn skips(p: Skipped, s: Input) -> bool {
    p matches Ok(rest) ==> rest.len() < s.len()
}

/// The next token, whatever it is.
pub open spec fn next(s: Input) -> Parsed<Tok> {
    if s.len() == 0 {
        Err(ParseErrorView::UnexpectedEof)
    } else {
        Ok((s[0].tok, s.skip(1)))
    }
}

/// The next token, which must have the tag `t`.
pub open spec fn expect(s: Input, t: Tok) -> Skipped {
    if s.len() == 0 {
        Err(ParseErrorView::UnexpectedEof)
    } else if s[0].tok == t {
        Ok(s.skip(1))
    } else {
        Err(ParseErrorView::UnexpectedToken(s[0]))
    }
}

/// `(` and the keyword `head`: the start of a form.
pub open spec fn enter(s: Input, head: Tok) -> Skipped {
    match expect(s, Tok::Lparen) {
        Err(e) => Err(e),
        Ok(s) => expect(s, head),
    }
}

/// `)`: the end of a form.
pub open spec fn leave(s: Input) -> Skipped {
    expect(s, Tok::Rparen)
}

/// The text of the next token, whatever its tag.
pub open spec fn literal(s: Input) -> Parsed<Seq<char>> {
    if s.len() == 0 {
        Err(ParseErrorView::UnexpectedEof)
    } else {
        Ok((s[0].s, s.skip(1)))
    }
}

/// A number: one token whose text is a floating-point literal.
pub open spec fn number(s: Input) -> Parsed<Seq<char>> {
    match literal(s) {
        Err(e) => Err(e),
        Ok((text, s)) => if is_float_literal(text) {
            Ok((text, s))
        } else {
            Err(ParseErrorView::InvalidNumber(text))
        },
    }
}

/// An integer: one token whose text is a 32-bit integer literal.
pub open spec fn integer(s: Input) -> Parsed<i32> {
    match literal(s) {
        Err(e) => Err(e),
        Ok((text, s)) => match int_literal(text) {
            Some(v) => Ok((v as i32, s)),
            None => Err(ParseErrorView::InvalidInteger(text)),
        },
    }
}

/// A point: two numbers.
pub open spec fn vertex(s: Input) -> Parsed<DsnPointView> {
    match number(s) {
        Err(e) => Err(e),
        Ok((x, s)) => match number(s) {
            Err(e) => Err(e),
            Ok((y, s)) => Ok((DsnPointView { x, y }, s)),
        },
    }
}

/// What a repetition of forms sees next.
pub open spec fn ahead(s: Input) -> Ahead {
    if s.len() == 0 {
        Ahead::Eof
    } else if s[0].tok == Tok::Rparen {
        Ahead::Close
    } else if s.len() < 2 {
        Ahead::Eof
    } else {
        Ahead::Head(s[1])
    }
}

/// The tokens after the `)` that closes the form we are `depth` forms deep
/// inside of.
pub open spec fn skip_to_close(s: Input, depth: nat) -> Skipped
    decreases s.len(),
{
    if s.len() == 0 {
        Err(ParseErrorView::UnexpectedEof)
    } else if s[0].tok == Tok::Rparen {
        if depth == 0 {
            Ok(s.skip(1))
        } else {
            skip_to_close(s.skip(1), (depth - 1) as nat)
        }
    } else if s[0].tok == Tok::Lparen {
        skip_to_close(s.skip(1), depth + 1)
    } else {
        skip_to_close(s.skip(1), depth)
    }
}

/// Skips one whole form, with all the forms nested in it: from `(` to the `)`
/// that matches it.
pub open spec fn ignore(s: Input) -> Skipped {
    match expect(s, Tok::Lparen) {
        Err(e) => Err(e),
        Ok(s) => skip_to_close(s, 0),
    }
}

/// The index of the last hyphen of `s`, if it has one.
pub open spec fn last_hyphen(s: Seq<char>) -> Option<int>
    decreases s.len(),
{
    if s.len() == 0 {
        None
    } else if s.last() == '-' {
        Some(s.len() - 1)
    } else {
        last_hyphen(s.drop_last())
    }
}

/// A pin reference `component-pin`, split at its last hyphen, so that the
/// name of the component may itself hold hyphens. Both parts must hold
/// something: a text without a hyphen is no pin reference, nor is one whose
/// last hyphen is its first or its last character.
pub open spec fn split_pin_ref(s: Seq<char>) -> Option<DsnPinRefView> {
    match last_hyphen(s) {
        Some(i) if 0 < i && i + 1 < s.len() => Some(
            DsnPinRefView { component_id: s.take(i), pin_id: s.skip(i + 1) },
        ),
        _ => None,
    }
}

/// A pin reference: one token whose text has a component and a pin with a
/// hyphen between them.
pub open spec fn pin_ref(s: Input) -> Parsed<DsnPinRefView> {
    match literal(s) {
        Err(e) => Err(e),
        Ok((text, s)) => match split_pin_ref(text) {
            Some(v) => Ok((v, s)),
            None => Err(ParseErrorView::InvalidPinReference(text)),
        },
    }
}

/// A unit of length: one of `inch`, `mil`, `cm`, `mm`, `um`.
pub open spec fn dimension(s: Input) -> Parsed<DsnDimensionUnit> {
    match next(s) {
        Err(e) => Err(e),
        Ok((t, s)) => match t {
            Tok::Inch => Ok((DsnDimensionUnit::Inch, s)),
            Tok::Mil => Ok((DsnDimensionUnit::Mil, s)),
            Tok::Cm => Ok((DsnDimensionUnit::Cm, s)),
            Tok::Mm => Ok((DsnDimensionUnit::Mm, s)),
            Tok::Um => Ok((DsnDimensionUnit::Um, s)),
            _ => Err(ParseErrorView::UnknownDimensionUnit),
        },
    }
}

/// A side of the board: one of `back`, `both`, `front`.
pub open spec fn side(s: Input) -> Parsed<DsnSide> {
    match next(s) {
        Err(e) => Err(e),
        Ok((t, s)) => match t {
            Tok::Back => Ok((DsnSide::Back, s)),
            Tok::Both => Ok((DsnSide::Both, s)),
            Tok::Front => Ok((DsnSide::Front, s)),
            _ => Err(ParseErrorView::UnrecognisedSide),
        },
    }
}

/// A switch: `off` or `on`.
pub open spec fn onoff(s: Input) -> Parsed<bool> {
    match next(s) {
        Err(e) => Err(e),
        Ok((t, s)) => match t {
            Tok::Off => Ok((false, s)),
            Tok::On => Ok((true, s)),
            _ => Err(ParseErrorView::ExpectedOnOff),
        },
    }
}

/// The type of a layer: one of `jumper`, `mixed`, `power`, `signal`.
pub open spec fn layer_type(s: Input) -> Parsed<DsnLayerType> {
    match next(s) {
        Err(e) => Err(e),
        Ok((t, s)) => match t {
            Tok::Jumper => Ok((DsnLayerType::Jumper, s)),
            Tok::Mixed => Ok((DsnLayerType::Mixed, s)),
            Tok::Power => Ok((DsnLayerType::Power, s)),
            Tok::Signal => Ok((DsnLayerType::Signal, s)),
            _ => Err(ParseErrorView::UnrecognisedLayerType),
        },
    }
}

/// A lock type: `gate` or `position`.
pub open spec fn lock_type(s: Input) -> Parsed<DsnLockType> {
    match next(s) {
        Err(e) => Err(e),
        Ok((t, s)) => match t {
            Tok::Gate => Ok((DsnLockType::Gate, s)),
            Tok::Position => Ok((DsnLockType::Position, s)),
            _ => Err(ParseErrorView::UnrecognisedLockType),
        },
    }
}

/// A clearance type: `default_smd` or `smd_smd`.
pub open spec fn clearance_type(s: Input) -> Parsed<DsnClearanceType> {
    match next(s) {
        Err(e) => Err(e),
        Ok((t, s)) => match t {
            Tok::DefaultSmd => Ok((DsnClearanceType::DefaultSmd, s)),
            Tok::SmdSmd => Ok((DsnClearanceType::SmdSmd, s)),
            _ => Err(ParseErrorView::UnrecognisedClearanceType),
        },
    }
}

/// The keyword of a keepout: one of `keepout`, `via_keepout`, `wire_keepout`.
pub open spec fn keepout_type(s: Input) -> Parsed<DsnKeepoutType> {
    match next(s) {
        Err(e) => Err(e),
        Ok((t, s)) => match t {
            Tok::Keepout => Ok((DsnKeepoutType::Keepout, s)),
            Tok::ViaKeepout => Ok((DsnKeepoutType::ViaKeepout, s)),
            Tok::WireKeepout => Ok((DsnKeepoutType::WireKeepout, s)),
            _ => Err(ParseErrorView::UnrecognisedKeepoutType),
        },
    }
}

/// `(via)`: a routed via. The form is recognised; it has no fields yet.
pub open spec fn via(s: Input) -> Parsed<DsnVia> {
    match enter(s, Tok::Via) {
        Err(e) => Err(e),
        Ok(s) => match leave(s) {
            Err(e) => Err(e),
            Ok(s) => Ok((DsnVia {}, s)),
        },
    }
}

/// `(wire)`: a routed wire. The form is recognised; it has no fields yet.
pub open spec fn wire(s: Input) -> Parsed<DsnWire> {
    match enter(s, Tok::Wire) {
        Err(e) => Err(e),
        Ok(s) => match leave(s) {
            Err(e) => Err(e),
            Ok(s) => Ok((DsnWire {}, s)),
        },
    }
}

/// `(plane)`: a plane. The form is recognised; it has no fields yet.
pub open spec fn plane(s: Input) -> Parsed<DsnPlane> {
    match enter(s, Tok::Plane) {
        Err(e) => Err(e),
        Ok(s) => match leave(s) {
            Err(e) => Err(e),
            Ok(s) => Ok((DsnPlane {}, s)),
        },
    }
}

/// `(window)`: a window. The form is recognised; it has no fields yet.
pub open spec fn window(s: Input) -> Parsed<DsnWindow> {
    match enter(s, Tok::Window) {
        Err(e) => Err(e),
        Ok(s) => match leave(s) {
            Err(e) => Err(e),
            Ok(s) => Ok((DsnWindow {}, s)),
        },
    }
}

/// `(resolution <unit> <integer>)`
pub open spec fn resolution(s: Input) -> Parsed<DsnResolutionView> {
    match enter(s, Tok::Resolution) {
        Err(e) => Err(e),
        Ok(s) => match dimension(s) {
            Err(e) => Err(e),
            Ok((dimension, s)) => match integer(s) {
                Err(e) => Err(e),
                Ok((amount, s)) => match leave(s) {
                    Err(e) => Err(e),
                    Ok(s) => Ok((DsnResolutionView { dimension, amount }, s)),
                },
            },
        },
    }
}

/// `(unit <unit>)`
pub open spec fn unit(s: Input) -> Parsed<DsnDimensionUnit> {
    match enter(s, Tok::Unit) {
        Err(e) => Err(e),
        Ok(s) => match dimension(s) {
            Err(e) => Err(e),
            Ok((v, s)) => match leave(s) {
                Err(e) => Err(e),
                Ok(s) => Ok((v, s)),
            },
        },
    }
}

/// `(rect <layer> <x> <y> <x> <y>)`: the rectangle that spans between two opposite
/// corners, whichever they are and in whichever order they stand.
pub open spec fn rect(s: Input) -> Parsed<DsnRectView> {
    match enter(s, Tok::Rect) {
        Err(e) => Err(e),
        Ok(s) => match literal(s) {
            Err(e) => Err(e),
            Ok((layer_id, s)) => match vertex(s) {
                Err(e) => Err(e),
                Ok((a, s)) => match vertex(s) {
                    Err(e) => Err(e),
                    Ok((b, s)) => match leave(s) {
                        Err(e) => Err(e),
                        Ok(s) => Ok(
                            (DsnRectView { layer_id, xs: span(a.x, b.x), ys: span(a.y, b.y) }, s),
                        ),
                    },
                },
            },
        },
    }
}

/// The centre of a circle: a point, or nothing, which stands for the origin.
pub open spec fn center(s: Input) -> Parsed<DsnPointView> {
    if s.len() == 0 {
        Err(ParseErrorView::UnexpectedEof)
    } else if s[0].tok == Tok::Rparen {
        Ok((DsnPointView::blank(), s))
    } else {
        vertex(s)
    }
}

/// `(circle <layer> <diameter> [<x> <y>])`
pub open spec fn circle(s: Input) -> Parsed<DsnCircleView> {
    match enter(s, Tok::Circle) {
        Err(e) => Err(e),
        Ok(s) => match literal(s) {
            Err(e) => Err(e),
            Ok((layer_id, s)) => match number(s) {
                Err(e) => Err(e),
                Ok((diameter, s)) => match center(s) {
                    Err(e) => Err(e),
                    Ok((p, s)) => match leave(s) {
                        Err(e) => Err(e),
                        Ok(s) => Ok((DsnCircleView { layer_id, diameter, p }, s)),
                    },
                },
            },
        },
    }
}

/// `(qarc <layer> <width> <start> <end> <center>)`
pub open spec fn qarc(s: Input) -> Parsed<DsnQArcView> {
    match enter(s, Tok::Qarc) {
        Err(e) => Err(e),
        Ok(s) => match literal(s) {
            Err(e) => Err(e),
            Ok((layer_id, s)) => match number(s) {
                Err(e) => Err(e),
                Ok((aperture_width, s)) => match vertex(s) {
                    Err(e) => Err(e),
                    Ok((start, s)) => match vertex(s) {
                        Err(e) => Err(e),
                        Ok((end, s)) => match vertex(s) {
                            Err(e) => Err(e),
                            Ok((center, s)) => match leave(s) {
                                Err(e) => Err(e),
                                Ok(s) => Ok(
                                    (
                                        DsnQArcView {
                                            layer_id,
                                            aperture_width,
                                            start,
                                            end,
                                            center,
                                        },
                                        s,
                                    ),
                                ),
                            },
                        },
                    },
                },
            },
        },
    }
}

/// One round of a list of points.
pub open spec fn points_step(s: Input, acc: Seq<DsnPointView>) -> Step<Seq<DsnPointView>> {
    if s.len() == 0 {
        Step::Fail(ParseErrorView::UnexpectedEof)
    } else if s[0].tok == Tok::Rparen {
        Step::Done(acc, s.skip(1))
    } else {
        match vertex(s) {
            Err(e) => Step::Fail(e),
            Ok((v, s)) => Step::More(acc.push(v), s),
        }
    }
}

/// The points up to the closing `)`, after those in `acc`.
pub open spec fn points_items(s: Input, acc: Seq<DsnPointView>) -> Parsed<Seq<DsnPointView>>
    decreases s.len(),
    via points_items_decreases
{
    match points_step(s, acc) {
        Step::More(acc, rest) => points_items(rest, acc),
        Step::Done(acc, rest) => Ok((acc, rest)),
        Step::Fail(e) => Err(e),
    }
}

/// `(polygon <layer> <width> <x> <y> ...)`, of at least three points. The points are
/// counted once the form is closed.
pub open spec fn polygon(s: Input) -> Parsed<DsnPolygonView> {
    match enter(s, Tok::Polygon) {
        Err(e) => Err(e),
        Ok(s) => match literal(s) {
            Err(e) => Err(e),
            Ok((layer_id, s)) => match number(s) {
                Err(e) => Err(e),
                Ok((aperture_width, s)) => match points_items(s, Seq::empty()) {
                    Err(e) => Err(e),
                    Ok((pts, s)) => if pts.len() < 3 {
                        Err(ParseErrorView::PolygonTooFewPoints)
                    } else {
                        Ok((DsnPolygonView { layer_id, aperture_width, pts }, s))
                    },
                },
            },
        },
    }
}

/// `(path <layer> <width> <x> <y> ...)`, of at least two points. The points are
/// counted once the form is closed.
pub open spec fn path(s: Input) -> Parsed<DsnPathView> {
    match enter(s, Tok::Path) {
        Err(e) => Err(e),
        Ok(s) => match literal(s) {
            Err(e) => Err(e),
            Ok((layer_id, s)) => match number(s) {
                Err(e) => Err(e),
                Ok((aperture_width, s)) => match points_items(s, Seq::empty()) {
                    Err(e) => Err(e),
                    Ok((pts, s)) => if pts.len() < 2 {
                        Err(ParseErrorView::PathTooFewPoints)
                    } else {
                        Ok((DsnPathView { layer_id, aperture_width, pts }, s))
                    },
                },
            },
        },
    }
}

/// A shape: the form named by the keyword after the next `(`.
pub open spec fn shape(s: Input) -> Parsed<DsnShapeView> {
    if s.len() < 2 {
        Err(ParseErrorView::UnexpectedEof)
    } else {
        match s[1].tok {
            Tok::Circle => match circle(s) {
                Err(e) => Err(e),
                Ok((v, s)) => Ok((DsnShapeView::Circle(v), s)),
            },
            Tok::Path => match path(s) {
                Err(e) => Err(e),
                Ok((v, s)) => Ok((DsnShapeView::Path(v), s)),
            },
            Tok::Polygon => match polygon(s) {
                Err(e) => Err(e),
                Ok((v, s)) => Ok((DsnShapeView::Polygon(v), s)),
            },
            Tok::Qarc => match qarc(s) {
                Err(e) => Err(e),
                Ok((v, s)) => Ok((DsnShapeView::QArc(v), s)),
            },
            Tok::Rect => match rect(s) {
                Err(e) => Err(e),
                Ok((v, s)) => Ok((DsnShapeView::Rect(v), s)),
            },
            _ => Err(ParseErrorView::UnrecognisedShapeType),
        }
    }
}

/// `(boundary <shape>)`
pub open spec fn boundary(s: Input) -> Parsed<DsnShapeView> {
    match enter(s, Tok::Boundary) {
        Err(e) => Err(e),
        Ok(s) => match shape(s) {
            Err(e) => Err(e),
            Ok((v, s)) => match leave(s) {
                Err(e) => Err(e),
                Ok(s) => Ok((v, s)),
            },
        },
    }
}

/// `(outline <shape>)`
pub open spec fn outline(s: Input) -> Parsed<DsnShapeView> {
    match enter(s, Tok::Outline) {
        Err(e) => Err(e),
        Ok(s) => match shape(s) {
            Err(e) => Err(e),
            Ok((v, s)) => match leave(s) {
                Err(e) => Err(e),
                Ok(s) => Ok((v, s)),
            },
        },
    }
}

/// `(shape <shape>)`
pub open spec fn padstack_shape(s: Input) -> Parsed<DsnPadstackShapeView> {
    match enter(s, Tok::Shape) {
        Err(e) => Err(e),
        Ok(s) => match shape(s) {
            Err(e) => Err(e),
            Ok((v, s)) => match leave(s) {
                Err(e) => Err(e),
                Ok(s) => Ok((DsnPadstackShapeView { shape: v }, s)),
            },
        },
    }
}

/// One round of the body of a keepout: a shape, which replaces the one before it.
pub open spec fn keepout_step(s: Input, acc: DsnKeepoutView) -> Step<DsnKeepoutView> {
    match ahead(s) {
        Ahead::Eof => Step::Fail(ParseErrorView::UnexpectedEof),
        Ahead::Close => Step::Done(acc, s.skip(1)),
        Ahead::Head(t) => match t.tok {
            Tok::Rect | Tok::Circle | Tok::Polygon | Tok::Path | Tok::Qarc => match shape(s) {
                Err(e) => Step::Fail(e),
                Ok((v, s)) => Step::More(DsnKeepoutView { shape: v, ..acc }, s),
            },
            _ => Step::Fail(ParseErrorView::UnrecognisedToken(t)),
        },
    }
}

/// The body of a keepout up to its closing `)`.
pub open spec fn keepout_items(s: Input, acc: DsnKeepoutView) -> Parsed<DsnKeepoutView>
    decreases s.len(),
    via keepout_items_decreases
{
    match keepout_step(s, acc) {
        Step::More(acc, rest) => keepout_items(rest, acc),
        Step::Done(acc, rest) => Ok((acc, rest)),
        Step::Fail(e) => Err(e),
    }
}

/// `(keepout <shape>)`, `(via_keepout <shape>)` or `(wire_keepout <shape>)`
pub open spec fn keepout(s: Input) -> Parsed<DsnKeepoutView> {
    match expect(s, Tok::Lparen) {
        Err(e) => Err(e),
        Ok(s) => match keepout_type(s) {
            Err(e) => Err(e),
            Ok((keepout_type, s)) => keepout_items(
                s,
                DsnKeepoutView { keepout_type, shape: DsnShapeView::blank() },
            ),
        },
    }
}

/// `(rotate <degrees>)`
pub open spec fn rotate_form(s: Input) -> Parsed<Seq<char>> {
    match enter(s, Tok::Rotate) {
        Err(e) => Err(e),
        Ok(s) => match number(s) {
            Err(e) => Err(e),
            Ok((v, s)) => match leave(s) {
                Err(e) => Err(e),
                Ok(s) => Ok((v, s)),
            },
        },
    }
}

/// The rotation of a pin: `(rotate <degrees>)`, or nothing, which stands for zero.
pub open spec fn rotation(s: Input) -> Parsed<Seq<char>> {
    if s.len() == 0 {
        Err(ParseErrorView::UnexpectedEof)
    } else if s[0].tok == Tok::Lparen {
        rotate_form(s)
    } else {
        Ok((DsnNumber::spec_zero(), s))
    }
}

/// `(pin <padstack> [(rotate <degrees>)] <id> <x> <y>)`
pub open spec fn pin(s: Input) -> Parsed<DsnPinView> {
    match enter(s, Tok::Pin) {
        Err(e) => Err(e),
        Ok(s) => match literal(s) {
            Err(e) => Err(e),
            Ok((padstack_id, s)) => match rotation(s) {
                Err(e) => Err(e),
                Ok((rotation, s)) => match literal(s) {
                    Err(e) => Err(e),
                    Ok((pin_id, s)) => match vertex(s) {
                        Err(e) => Err(e),
                        Ok((p, s)) => match leave(s) {
                            Err(e) => Err(e),
                            Ok(s) => Ok((DsnPinView { padstack_id, rotation, pin_id, p }, s)),
                        },
                    },
                },
            },
        },
    }
}

/// One round of the body of an image: an outline, a pin or a keepout.
pub open spec fn image_step(s: Input, acc: DsnImageView) -> Step<DsnImageView> {
    match ahead(s) {
        Ahead::Eof => Step::Fail(ParseErrorView::UnexpectedEof),
        Ahead::Close => Step::Done(acc, s.skip(1)),
        Ahead::Head(t) => match t.tok {
            Tok::Outline => match outline(s) {
                Err(e) => Step::Fail(e),
                Ok((v, s)) => Step::More(DsnImageView { outlines: acc.outlines.push(v), ..acc }, s),
            },
            Tok::Pin => match pin(s) {
                Err(e) => Step::Fail(e),
                Ok((v, s)) => Step::More(DsnImageView { pins: acc.pins.push(v), ..acc }, s),
            },
            Tok::Keepout | Tok::ViaKeepout | Tok::WireKeepout => match keepout(s) {
                Err(e) => Step::Fail(e),
                Ok((v, s)) => Step::More(DsnImageView { keepouts: acc.keepouts.push(v), ..acc }, s),
            },
            _ => Step::Fail(ParseErrorView::UnrecognisedToken(t)),
        },
    }
}

/// The body of an image up to its closing `)`.
pub open spec fn image_items(s: Input, acc: DsnImageView) -> Parsed<DsnImageView>
    decreases s.len(),
    via image_items_decreases
{
    match image_step(s, acc) {
        Step::More(acc, rest) => image_items(rest, acc),
        Step::Done(acc, rest) => Ok((acc, rest)),
        Step::Fail(e) => Err(e),
    }
}

/// `(image <id> ...)`: a footprint with its outlines, pins and keepouts.
pub open spec fn image(s: Input) -> Parsed<DsnImageView> {
    match enter(s, Tok::Image) {
        Err(e) => Err(e),
        Ok(s) => match literal(s) {
            Err(e) => Err(e),
            Ok((image_id, s)) => image_items(s, DsnImageView { image_id, ..DsnImageView::blank() }),
        },
    }
}

/// `(attach off)` or `(attach on)`
pub open spec fn attach_form(s: Input) -> Parsed<bool> {
    match enter(s, Tok::Attach) {
        Err(e) => Err(e),
        Ok(s) => match onoff(s) {
            Err(e) => Err(e),
            Ok((v, s)) => match leave(s) {
                Err(e) => Err(e),
                Ok(s) => Ok((v, s)),
            },
        },
    }
}

/// One round of the body of a padstack: the attach switch or a shape.
pub open spec fn padstack_step(s: Input, acc: DsnPadstackView) -> Step<DsnPadstackView> {
    match ahead(s) {
        Ahead::Eof => Step::Fail(ParseErrorView::UnexpectedEof),
        Ahead::Close => Step::Done(acc, s.skip(1)),
        Ahead::Head(t) => match t.tok {
            Tok::Attach => match attach_form(s) {
                Err(e) => Step::Fail(e),
                Ok((v, s)) => Step::More(DsnPadstackView { attach: v, ..acc }, s),
            },
            Tok::Shape => match padstack_shape(s) {
                Err(e) => Step::Fail(e),
                Ok((v, s)) => Step::More(DsnPadstackView { shapes: acc.shapes.push(v), ..acc }, s),
            },
            _ => Step::Fail(ParseErrorView::UnrecognisedToken(t)),
        },
    }
}

/// The body of a padstack up to its closing `)`.
pub open spec fn padstack_items(s: Input, acc: DsnPadstackView) -> Parsed<DsnPadstackView>
    decreases s.len(),
    via padstack_items_decreases
{
    match padstack_step(s, acc) {
        Step::More(acc, rest) => padstack_items(rest, acc),
        Step::Done(acc, rest) => Ok((acc, rest)),
        Step::Fail(e) => Err(e),
    }
}

/// `(padstack <id> ...)`
pub open spec fn padstack(s: Input) -> Parsed<DsnPadstackView> {
    match enter(s, Tok::Padstack) {
        Err(e) => Err(e),
        Ok(s) => match literal(s) {
            Err(e) => Err(e),
            Ok((padstack_id, s)) => padstack_items(
                s,
                DsnPadstackView { padstack_id, ..DsnPadstackView::blank() },
            ),
        },
    }
}

/// One round of the library: an image or a padstack.
pub open spec fn library_step(s: Input, acc: DsnLibraryView) -> Step<DsnLibraryView> {
    match ahead(s) {
        Ahead::Eof => Step::Fail(ParseErrorView::UnexpectedEof),
        Ahead::Close => Step::Done(acc, s.skip(1)),
        Ahead::Head(t) => match t.tok {
            Tok::Image => match image(s) {
                Err(e) => Step::Fail(e),
                Ok((v, s)) => Step::More(DsnLibraryView { images: acc.images.push(v), ..acc }, s),
            },
            Tok::Padstack => match padstack(s) {
                Err(e) => Step::Fail(e),
                Ok((v, s)) => Step::More(
                    DsnLibraryView { padstacks: acc.padstacks.push(v), ..acc },
                    s,
                ),
            },
            _ => Step::Fail(ParseErrorView::UnrecognisedToken(t)),
        },
    }
}

/// The library up to its closing `)`.
pub open spec fn library_items(s: Input, acc: DsnLibraryView) -> Parsed<DsnLibraryView>
    decreases s.len(),
    via library_items_decreases
{
    match library_step(s, acc) {
        Step::More(acc, rest) => library_items(rest, acc),
        Step::Done(acc, rest) => Ok((acc, rest)),
        Step::Fail(e) => Err(e),
    }
}

/// `(library ...)`: images and padstacks, each list in the order of the document.
pub open spec fn library(s: Input) -> Parsed<DsnLibraryView> {
    match enter(s, Tok::Library) {
        Err(e) => Err(e),
        Ok(s) => library_items(s, DsnLibraryView::blank()),
    }
}

/// One round of a list of pin references.
pub open spec fn pin_refs_step(s: Input, acc: Seq<DsnPinRefView>) -> Step<Seq<DsnPinRefView>> {
    if s.len() == 0 {
        Step::Fail(ParseErrorView::UnexpectedEof)
    } else if s[0].tok == Tok::Rparen {
        Step::Done(acc, s.skip(1))
    } else {
        match pin_ref(s) {
            Err(e) => Step::Fail(e),
            Ok((v, s)) => Step::More(acc.push(v), s),
        }
    }
}

/// The pin references up to the closing `)`, after those in `acc`.
pub open spec fn pin_refs_items(s: Input, acc: Seq<DsnPinRefView>) -> Parsed<Seq<DsnPinRefView>>
    decreases s.len(),
    via pin_refs_items_decreases
{
    match pin_refs_step(s, acc) {
        Step::More(acc, rest) => pin_refs_items(rest, acc),
        Step::Done(acc, rest) => Ok((acc, rest)),
        Step::Fail(e) => Err(e),
    }
}

/// `(pins <component>-<pin> ...)`
pub open spec fn pins_form(s: Input) -> Parsed<Seq<DsnPinRefView>> {
    match enter(s, Tok::Pins) {
        Err(e) => Err(e),
        Ok(s) => pin_refs_items(s, Seq::empty()),
    }
}

/// One round of the body of a net: a list of pins, added to those before it.
pub open spec fn net_step(s: Input, acc: DsnNetView) -> Step<DsnNetView> {
    match ahead(s) {
        Ahead::Eof => Step::Fail(ParseErrorView::UnexpectedEof),
        Ahead::Close => Step::Done(acc, s.skip(1)),
        Ahead::Head(t) => match t.tok {
            Tok::Pins => match pins_form(s) {
                Err(e) => Step::Fail(e),
                Ok((v, s)) => Step::More(DsnNetView { pins: acc.pins + v, ..acc }, s),
            },
            _ => Step::Fail(ParseErrorView::UnrecognisedToken(t)),
        },
    }
}

/// The body of a net up to its closing `)`.
pub open spec fn net_items(s: Input, acc: DsnNetView) -> Parsed<DsnNetView>
    decreases s.len(),
    via net_items_decreases
{
    match net_step(s, acc) {
        Step::More(acc, rest) => net_items(rest, acc),
        Step::Done(acc, rest) => Ok((acc, rest)),
        Step::Fail(e) => Err(e),
    }
}

/// `(net <id> ...)`
pub open spec fn net(s: Input) -> Parsed<DsnNetView> {
    match enter(s, Tok::Net) {
        Err(e) => Err(e),
        Ok(s) => match literal(s) {
            Err(e) => Err(e),
            Ok((net_id, s)) => net_items(s, DsnNetView { net_id, ..DsnNetView::blank() }),
        },
    }
}

/// `(use_via <id>)`
pub open spec fn use_via_form(s: Input) -> Parsed<DsnCircuitView> {
    match enter(s, Tok::UseVia) {
        Err(e) => Err(e),
        Ok(s) => match literal(s) {
            Err(e) => Err(e),
            Ok((v, s)) => match leave(s) {
                Err(e) => Err(e),
                Ok(s) => Ok((DsnCircuitView::UseVia(v), s)),
            },
        },
    }
}

/// One round of a circuit: a directive.
pub open spec fn circuit_step(s: Input, acc: Seq<DsnCircuitView>) -> Step<Seq<DsnCircuitView>> {
    match ahead(s) {
        Ahead::Eof => Step::Fail(ParseErrorView::UnexpectedEof),
        Ahead::Close => Step::Done(acc, s.skip(1)),
        Ahead::Head(t) => match t.tok {
            Tok::UseVia => match use_via_form(s) {
                Err(e) => Step::Fail(e),
                Ok((v, s)) => Step::More(acc.push(v), s),
            },
            _ => Step::Fail(ParseErrorView::UnrecognisedToken(t)),
        },
    }
}

/// The directives of a circuit up to its closing `)`, after those in `acc`.
pub open spec fn circuit_items(s: Input, acc: Seq<DsnCircuitView>) -> Parsed<Seq<DsnCircuitView>>
    decreases s.len(),
    via circuit_items_decreases
{
    match circuit_step(s, acc) {
        Step::More(acc, rest) => circuit_items(rest, acc),
        Step::Done(acc, rest) => Ok((acc, rest)),
        Step::Fail(e) => Err(e),
    }
}

/// `(circuit ...)`: the directives of a circuit.
pub open spec fn circuit(s: Input) -> Parsed<Seq<DsnCircuitView>> {
    match enter(s, Tok::Circuit) {
        Err(e) => Err(e),
        Ok(s) => circuit_items(s, Seq::empty()),
    }
}

/// `(type default_smd)` or `(type smd_smd)`
pub open spec fn clearance_type_form(s: Input) -> Parsed<DsnClearanceType> {
    match enter(s, Tok::Type) {
        Err(e) => Err(e),
        Ok(s) => match clearance_type(s) {
            Err(e) => Err(e),
            Ok((v, s)) => match leave(s) {
                Err(e) => Err(e),
                Ok(s) => Ok((v, s)),
            },
        },
    }
}

/// One round of the types of a clearance.
pub open spec fn clearance_types_step(
    s: Input,
    acc: Seq<DsnClearanceType>,
) -> Step<Seq<DsnClearanceType>> {
    if s.len() == 0 {
        Step::Fail(ParseErrorView::UnexpectedEof)
    } else if s[0].tok == Tok::Rparen {
        Step::Done(acc, s.skip(1))
    } else {
        match clearance_type_form(s) {
            Err(e) => Step::Fail(e),
            Ok((v, s)) => Step::More(acc.push(v), s),
        }
    }
}

/// The types of a clearance up to its closing `)`, after those in `acc`.
pub open spec fn clearance_types_items(
    s: Input,
    acc: Seq<DsnClearanceType>,
) -> Parsed<Seq<DsnClearanceType>>
    decreases s.len(),
    via clearance_types_items_decreases
{
    match clearance_types_step(s, acc) {
        Step::More(acc, rest) => clearance_types_items(rest, acc),
        Step::Done(acc, rest) => Ok((acc, rest)),
        Step::Fail(e) => Err(e),
    }
}

/// `(clearance <amount> (type ...) ...)`. A clearance that names no type applies to
/// everything.
pub open spec fn clearance(s: Input) -> Parsed<DsnClearanceView> {
    match enter(s, Tok::Clearance) {
        Err(e) => Err(e),
        Ok(s) => match number(s) {
            Err(e) => Err(e),
            Ok((amount, s)) => match clearance_types_items(s, Seq::empty()) {
                Err(e) => Err(e),
                Ok((types, s)) => Ok(
                    (
                        DsnClearanceView {
                            amount,
                            types: if types.len() == 0 {
                                seq![DsnClearanceType::All]
                            } else {
                                types
                            },
                        },
                        s,
                    ),
                ),
            },
        },
    }
}

/// `(width <amount>)`
pub open spec fn width_form(s: Input) -> Parsed<DsnRuleView> {
    match enter(s, Tok::Width) {
        Err(e) => Err(e),
        Ok(s) => match number(s) {
            Err(e) => Err(e),
            Ok((v, s)) => match leave(s) {
                Err(e) => Err(e),
                Ok(s) => Ok((DsnRuleView::Width(v), s)),
            },
        },
    }
}

/// A clearance, as a rule.
pub open spec fn clearance_rule(s: Input) -> Parsed<DsnRuleView> {
    match clearance(s) {
        Err(e) => Err(e),
        Ok((v, s)) => Ok((DsnRuleView::Clearance(v), s)),
    }
}

/// One round of a rule: a width or a clearance.
pub open spec fn rule_step(s: Input, acc: Seq<DsnRuleView>) -> Step<Seq<DsnRuleView>> {
    match ahead(s) {
        Ahead::Eof => Step::Fail(ParseErrorView::UnexpectedEof),
        Ahead::Close => Step::Done(acc, s.skip(1)),
        Ahead::Head(t) => match t.tok {
            Tok::Width => match width_form(s) {
                Err(e) => Step::Fail(e),
                Ok((v, s)) => Step::More(acc.push(v), s),
            },
            Tok::Clearance => match clearance_rule(s) {
                Err(e) => Step::Fail(e),
                Ok((v, s)) => Step::More(acc.push(v), s),
            },
            _ => Step::Fail(ParseErrorView::UnrecognisedToken(t)),
        },
    }
}

/// The constraints of a rule up to its closing `)`, after those in `acc`.
pub open spec fn rule_items(s: Input, acc: Seq<DsnRuleView>) -> Parsed<Seq<DsnRuleView>>
    decreases s.len(),
    via rule_items_decreases
{
    match rule_step(s, acc) {
        Step::More(acc, rest) => rule_items(rest, acc),
        Step::Done(acc, rest) => Ok((acc, rest)),
        Step::Fail(e) => Err(e),
    }
}

/// `(rule ...)`: the constraints of a rule.
pub open spec fn rule(s: Input) -> Parsed<Seq<DsnRuleView>> {
    match enter(s, Tok::Rule) {
        Err(e) => Err(e),
        Ok(s) => rule_items(s, Seq::empty()),
    }
}

/// One round of the body of a class: a circuit or a rule, each added to those before
/// it, or else the name of a net.
pub open spec fn class_step(s: Input, acc: DsnClassView) -> Step<DsnClassView> {
    if s.len() == 0 {
        Step::Fail(ParseErrorView::UnexpectedEof)
    } else if s[0].tok == Tok::Rparen {
        Step::Done(acc, s.skip(1))
    } else if s[0].tok == Tok::Lparen {
        if s.len() < 2 {
            Step::Fail(ParseErrorView::UnexpectedEof)
        } else {
            match s[1].tok {
                Tok::Circuit => match circuit(s) {
                    Err(e) => Step::Fail(e),
                    Ok((v, s)) => Step::More(DsnClassView { circuits: acc.circuits + v, ..acc }, s),
                },
                Tok::Rule => match rule(s) {
                    Err(e) => Step::Fail(e),
                    Ok((v, s)) => Step::More(DsnClassView { rules: acc.rules + v, ..acc }, s),
                },
                _ => Step::Fail(ParseErrorView::UnrecognisedToken(s[1])),
            }
        }
    } else {
        Step::More(DsnClassView { net_ids: acc.net_ids.push(s[0].s), ..acc }, s.skip(1))
    }
}

/// The body of a class up to its closing `)`.
pub open spec fn class_items(s: Input, acc: DsnClassView) -> Parsed<DsnClassView>
    decreases s.len(),
    via class_items_decreases
{
    match class_step(s, acc) {
        Step::More(acc, rest) => class_items(rest, acc),
        Step::Done(acc, rest) => Ok((acc, rest)),
        Step::Fail(e) => Err(e),
    }
}

/// `(class <id> <net> ... (circuit ...) (rule ...))`
pub open spec fn class(s: Input) -> Parsed<DsnClassView> {
    match enter(s, Tok::Class) {
        Err(e) => Err(e),
        Ok(s) => match literal(s) {
            Err(e) => Err(e),
            Ok((class_id, s)) => class_items(s, DsnClassView { class_id, ..DsnClassView::blank() }),
        },
    }
}

/// One round of the network: a class or a net.
pub open spec fn network_step(s: Input, acc: DsnNetworkView) -> Step<DsnNetworkView> {
    match ahead(s) {
        Ahead::Eof => Step::Fail(ParseErrorView::UnexpectedEof),
        Ahead::Close => Step::Done(acc, s.skip(1)),
        Ahead::Head(t) => match t.tok {
            Tok::Class => match class(s) {
                Err(e) => Step::Fail(e),
                Ok((v, s)) => Step::More(DsnNetworkView { classes: acc.classes.push(v), ..acc }, s),
            },
            Tok::Net => match net(s) {
                Err(e) => Step::Fail(e),
                Ok((v, s)) => Step::More(DsnNetworkView { nets: acc.nets.push(v), ..acc }, s),
            },
            _ => Step::Fail(ParseErrorView::UnrecognisedToken(t)),
        },
    }
}

/// The network up to its closing `)`.
pub open spec fn network_items(s: Input, acc: DsnNetworkView) -> Parsed<DsnNetworkView>
    decreases s.len(),
    via network_items_decreases
{
    match network_step(s, acc) {
        Step::More(acc, rest) => network_items(rest, acc),
        Step::Done(acc, rest) => Ok((acc, rest)),
        Step::Fail(e) => Err(e),
    }
}

/// `(network ...)`: classes and nets, each list in the order of the document.
pub open spec fn network(s: Input) -> Parsed<DsnNetworkView> {
    match enter(s, Tok::Network) {
        Err(e) => Err(e),
        Ok(s) => network_items(s, DsnNetworkView::blank()),
    }
}

/// `(lock_type gate)` or `(lock_type position)`
pub open spec fn lock_type_form(s: Input) -> Parsed<DsnLockType> {
    match enter(s, Tok::LockType) {
        Err(e) => Err(e),
        Ok(s) => match lock_type(s) {
            Err(e) => Err(e),
            Ok((v, s)) => match leave(s) {
                Err(e) => Err(e),
                Ok(s) => Ok((v, s)),
            },
        },
    }
}

/// `(pn <part number>)`
pub open spec fn part_number_form(s: Input) -> Parsed<Seq<char>> {
    match enter(s, Tok::Pn) {
        Err(e) => Err(e),
        Ok(s) => match literal(s) {
            Err(e) => Err(e),
            Ok((v, s)) => match leave(s) {
                Err(e) => Err(e),
                Ok(s) => Ok((v, s)),
            },
        },
    }
}

/// One round of the options of a placed component: its lock type or its part number.
pub open spec fn placement_ref_step(
    s: Input,
    acc: DsnPlacementRefView,
) -> Step<DsnPlacementRefView> {
    match ahead(s) {
        Ahead::Eof => Step::Fail(ParseErrorView::UnexpectedEof),
        Ahead::Close => Step::Done(acc, s.skip(1)),
        Ahead::Head(t) => match t.tok {
            Tok::LockType => match lock_type_form(s) {
                Err(e) => Step::Fail(e),
                Ok((v, s)) => Step::More(DsnPlacementRefView { lock_type: v, ..acc }, s),
            },
            Tok::Pn => match part_number_form(s) {
                Err(e) => Step::Fail(e),
                Ok((v, s)) => Step::More(DsnPlacementRefView { part_number: v, ..acc }, s),
            },
            _ => Step::Fail(ParseErrorView::UnrecognisedToken(t)),
        },
    }
}

/// The options of a placed component up to its closing `)`.
pub open spec fn placement_ref_items(
    s: Input,
    acc: DsnPlacementRefView,
) -> Parsed<DsnPlacementRefView>
    decreases s.len(),
    via placement_ref_items_decreases
{
    match placement_ref_step(s, acc) {
        Step::More(acc, rest) => placement_ref_items(rest, acc),
        Step::Done(acc, rest) => Ok((acc, rest)),
        Step::Fail(e) => Err(e),
    }
}

/// `(place <id> <x> <y> <side> <rotation> ...)`
pub open spec fn placement_ref(s: Input) -> Parsed<DsnPlacementRefView> {
    match enter(s, Tok::Place) {
        Err(e) => Err(e),
        Ok(s) => match literal(s) {
            Err(e) => Err(e),
            Ok((component_id, s)) => match vertex(s) {
                Err(e) => Err(e),
                Ok((p, s)) => match side(s) {
                    Err(e) => Err(e),
                    Ok((side, s)) => match number(s) {
                        Err(e) => Err(e),
                        Ok((rotation, s)) => placement_ref_items(
                            s,
                            DsnPlacementRefView {
                                component_id,
                                p,
                                side,
                                rotation,
                                ..DsnPlacementRefView::blank()
                            },
                        ),
                    },
                },
            },
        },
    }
}

/// One round of the body of a component: a placed instance.
pub open spec fn component_step(s: Input, acc: DsnComponentView) -> Step<DsnComponentView> {
    match ahead(s) {
        Ahead::Eof => Step::Fail(ParseErrorView::UnexpectedEof),
        Ahead::Close => Step::Done(acc, s.skip(1)),
        Ahead::Head(t) => match t.tok {
            Tok::Place => match placement_ref(s) {
                Err(e) => Step::Fail(e),
                Ok((v, s)) => Step::More(DsnComponentView { refs: acc.refs.push(v), ..acc }, s),
            },
            _ => Step::Fail(ParseErrorView::UnrecognisedToken(t)),
        },
    }
}

/// The body of a component up to its closing `)`.
pub open spec fn component_items(s: Input, acc: DsnComponentView) -> Parsed<DsnComponentView>
    decreases s.len(),
    via component_items_decreases
{
    match component_step(s, acc) {
        Step::More(acc, rest) => component_items(rest, acc),
        Step::Done(acc, rest) => Ok((acc, rest)),
        Step::Fail(e) => Err(e),
    }
}

/// `(component <image> (place ...) ...)`
pub open spec fn component(s: Input) -> Parsed<DsnComponentView> {
    match enter(s, Tok::Component) {
        Err(e) => Err(e),
        Ok(s) => match literal(s) {
            Err(e) => Err(e),
            Ok((image_id, s)) => component_items(
                s,
                DsnComponentView { image_id, ..DsnComponentView::blank() },
            ),
        },
    }
}

/// One round of the placement: a component.
pub open spec fn placement_step(s: Input, acc: DsnPlacementView) -> Step<DsnPlacementView> {
    match ahead(s) {
        Ahead::Eof => Step::Fail(ParseErrorView::UnexpectedEof),
        Ahead::Close => Step::Done(acc, s.skip(1)),
        Ahead::Head(t) => match t.tok {
            Tok::Component => match component(s) {
                Err(e) => Step::Fail(e),
                Ok((v, s)) => Step::More(
                    DsnPlacementView { components: acc.components.push(v), ..acc },
                    s,
                ),
            },
            _ => Step::Fail(ParseErrorView::UnrecognisedToken(t)),
        },
    }
}

/// The placement up to its closing `)`.
pub open spec fn placement_items(s: Input, acc: DsnPlacementView) -> Parsed<DsnPlacementView>
    decreases s.len(),
    via placement_items_decreases
{
    match placement_step(s, acc) {
        Step::More(acc, rest) => placement_items(rest, acc),
        Step::Done(acc, rest) => Ok((acc, rest)),
        Step::Fail(e) => Err(e),
    }
}

/// `(placement ...)`
pub open spec fn placement(s: Input) -> Parsed<DsnPlacementView> {
    match enter(s, Tok::Placement) {
        Err(e) => Err(e),
        Ok(s) => placement_items(s, DsnPlacementView::blank()),
    }
}

/// `(type <layer type>)`
pub open spec fn layer_type_form(s: Input) -> Parsed<DsnLayerType> {
    match enter(s, Tok::Type) {
        Err(e) => Err(e),
        Ok(s) => match layer_type(s) {
            Err(e) => Err(e),
            Ok((v, s)) => match leave(s) {
                Err(e) => Err(e),
                Ok(s) => Ok((v, s)),
            },
        },
    }
}

/// A form that is skipped, as a round that leaves `acc` as it is.
pub open spec fn ignored<A>(s: Input, acc: A) -> Parsed<A> {
    match ignore(s) {
        Err(e) => Err(e),
        Ok(s) => Ok((acc, s)),
    }
}

/// One round of the body of a layer: its type, or a property, which is skipped.
pub open spec fn layer_step(s: Input, acc: DsnLayerView) -> Step<DsnLayerView> {
    match ahead(s) {
        Ahead::Eof => Step::Fail(ParseErrorView::UnexpectedEof),
        Ahead::Close => Step::Done(acc, s.skip(1)),
        Ahead::Head(t) => match t.tok {
            Tok::Type => match layer_type_form(s) {
                Err(e) => Step::Fail(e),
                Ok((v, s)) => Step::More(DsnLayerView { layer_type: v, ..acc }, s),
            },
            Tok::Property => match ignored(s, acc) {
                Err(e) => Step::Fail(e),
                Ok((acc, s)) => Step::More(acc, s),
            },
            _ => Step::Fail(ParseErrorView::UnrecognisedToken(t)),
        },
    }
}

/// The body of a layer up to its closing `)`.
pub open spec fn layer_items(s: Input, acc: DsnLayerView) -> Parsed<DsnLayerView>
    decreases s.len(),
    via layer_items_decreases
{
    match layer_step(s, acc) {
        Step::More(acc, rest) => layer_items(rest, acc),
        Step::Done(acc, rest) => Ok((acc, rest)),
        Step::Fail(e) => Err(e),
    }
}

/// `(layer <name> (type ...) (property ...))`
pub open spec fn layer(s: Input) -> Parsed<DsnLayerView> {
    match enter(s, Tok::Layer) {
        Err(e) => Err(e),
        Ok(s) => match literal(s) {
            Err(e) => Err(e),
            Ok((layer_name, s)) => layer_items(
                s,
                DsnLayerView { layer_name, ..DsnLayerView::blank() },
            ),
        },
    }
}

/// One round of a list of names.
pub open spec fn names_step(s: Input, acc: Seq<Seq<char>>) -> Step<Seq<Seq<char>>> {
    if s.len() == 0 {
        Step::Fail(ParseErrorView::UnexpectedEof)
    } else if s[0].tok == Tok::Rparen {
        Step::Done(acc, s.skip(1))
    } else {
        Step::More(acc.push(s[0].s), s.skip(1))
    }
}

/// The names up to the closing `)`, after those in `acc`.
pub open spec fn names_items(s: Input, acc: Seq<Seq<char>>) -> Parsed<Seq<Seq<char>>>
    decreases s.len(),
    via names_items_decreases
{
    match names_step(s, acc) {
        Step::More(acc, rest) => names_items(rest, acc),
        Step::Done(acc, rest) => Ok((acc, rest)),
        Step::Fail(e) => Err(e),
    }
}

/// `(via <name> ...)`: the names of the vias that the design may use.
pub open spec fn via_names_form(s: Input) -> Parsed<Seq<Seq<char>>> {
    match enter(s, Tok::Via) {
        Err(e) => Err(e),
        Ok(s) => names_items(s, Seq::empty()),
    }
}

/// One round of the structure: a boundary, a keepout, a layer, a plane, a rule or the
/// names of vias. Rules and names are added to those before them.
pub open spec fn structure_step(s: Input, acc: DsnStructureView) -> Step<DsnStructureView> {
    match ahead(s) {
        Ahead::Eof => Step::Fail(ParseErrorView::UnexpectedEof),
        Ahead::Close => Step::Done(acc, s.skip(1)),
        Ahead::Head(t) => match t.tok {
            Tok::Boundary => match boundary(s) {
                Err(e) => Step::Fail(e),
                Ok((v, s)) => Step::More(
                    DsnStructureView { boundaries: acc.boundaries.push(v), ..acc },
                    s,
                ),
            },
            Tok::Keepout | Tok::ViaKeepout | Tok::WireKeepout => match keepout(s) {
                Err(e) => Step::Fail(e),
                Ok((v, s)) => Step::More(
                    DsnStructureView { keepouts: acc.keepouts.push(v), ..acc },
                    s,
                ),
            },
            Tok::Layer => match layer(s) {
                Err(e) => Step::Fail(e),
                Ok((v, s)) => Step::More(DsnStructureView { layers: acc.layers.push(v), ..acc }, s),
            },
            Tok::Plane => match plane(s) {
                Err(e) => Step::Fail(e),
                Ok((v, s)) => Step::More(DsnStructureView { planes: acc.planes.push(v), ..acc }, s),
            },
            Tok::Rule => match rule(s) {
                Err(e) => Step::Fail(e),
                Ok((v, s)) => Step::More(DsnStructureView { rules: acc.rules + v, ..acc }, s),
            },
            Tok::Via => match via_names_form(s) {
                Err(e) => Step::Fail(e),
                Ok((v, s)) => Step::More(DsnStructureView { vias: acc.vias + v, ..acc }, s),
            },
            _ => Step::Fail(ParseErrorView::UnrecognisedToken(t)),
        },
    }
}

/// The structure up to its closing `)`.
pub open spec fn structure_items(s: Input, acc: DsnStructureView) -> Parsed<DsnStructureView>
    decreases s.len(),
    via structure_items_decreases
{
    match structure_step(s, acc) {
        Step::More(acc, rest) => structure_items(rest, acc),
        Step::Done(acc, rest) => Ok((acc, rest)),
        Step::Fail(e) => Err(e),
    }
}

/// `(structure ...)`
pub open spec fn structure(s: Input) -> Parsed<DsnStructureView> {
    match enter(s, Tok::Structure) {
        Err(e) => Err(e),
        Ok(s) => structure_items(s, DsnStructureView::blank()),
    }
}

/// One round of the wiring: a wire or a via.
pub open spec fn wiring_step(s: Input, acc: DsnWiringView) -> Step<DsnWiringView> {
    match ahead(s) {
        Ahead::Eof => Step::Fail(ParseErrorView::UnexpectedEof),
        Ahead::Close => Step::Done(acc, s.skip(1)),
        Ahead::Head(t) => match t.tok {
            Tok::Wire => match wire(s) {
                Err(e) => Step::Fail(e),
                Ok((v, s)) => Step::More(DsnWiringView { wires: acc.wires.push(v), ..acc }, s),
            },
            Tok::Via => match via(s) {
                Err(e) => Step::Fail(e),
                Ok((v, s)) => Step::More(DsnWiringView { vias: acc.vias.push(v), ..acc }, s),
            },
            _ => Step::Fail(ParseErrorView::UnrecognisedToken(t)),
        },
    }
}

/// The wiring up to its closing `)`.
pub open spec fn wiring_items(s: Input, acc: DsnWiringView) -> Parsed<DsnWiringView>
    decreases s.len(),
    via wiring_items_decreases
{
    match wiring_step(s, acc) {
        Step::More(acc, rest) => wiring_items(rest, acc),
        Step::Done(acc, rest) => Ok((acc, rest)),
        Step::Fail(e) => Err(e),
    }
}

/// `(wiring ...)`
pub open spec fn wiring(s: Input) -> Parsed<DsnWiringView> {
    match enter(s, Tok::Wiring) {
        Err(e) => Err(e),
        Ok(s) => wiring_items(s, DsnWiringView::blank()),
    }
}

/// One round of the design: one of its sections, which replaces the section of the
/// same kind before it, or a `parser` form, which is skipped.
pub open spec fn pcb_step(s: Input, acc: DsnPcbView) -> Step<DsnPcbView> {
    match ahead(s) {
        Ahead::Eof => Step::Fail(ParseErrorView::UnexpectedEof),
        Ahead::Close => Step::Done(acc, s.skip(1)),
        Ahead::Head(t) => match t.tok {
            Tok::Library => match library(s) {
                Err(e) => Step::Fail(e),
                Ok((v, s)) => Step::More(DsnPcbView { library: v, ..acc }, s),
            },
            Tok::Network => match network(s) {
                Err(e) => Step::Fail(e),
                Ok((v, s)) => Step::More(DsnPcbView { network: v, ..acc }, s),
            },
            Tok::Parser => match ignored(s, acc) {
                Err(e) => Step::Fail(e),
                Ok((acc, s)) => Step::More(acc, s),
            },
            Tok::Placement => match placement(s) {
                Err(e) => Step::Fail(e),
                Ok((v, s)) => Step::More(DsnPcbView { placement: v, ..acc }, s),
            },
            Tok::Resolution => match resolution(s) {
                Err(e) => Step::Fail(e),
                Ok((v, s)) => Step::More(DsnPcbView { resolution: v, ..acc }, s),
            },
            Tok::Structure => match structure(s) {
                Err(e) => Step::Fail(e),
                Ok((v, s)) => Step::More(DsnPcbView { structure: v, ..acc }, s),
            },
            Tok::Unit => match unit(s) {
                Err(e) => Step::Fail(e),
                Ok((v, s)) => Step::More(
                    DsnPcbView { unit: DsnUnitView { dimension: v }, ..acc },
                    s,
                ),
            },
            Tok::Wiring => match wiring(s) {
                Err(e) => Step::Fail(e),
                Ok((v, s)) => Step::More(DsnPcbView { wiring: v, ..acc }, s),
            },
            _ => Step::Fail(ParseErrorView::UnrecognisedToken(t)),
        },
    }
}

/// The sections of the design up to its closing `)`.
pub open spec fn pcb_items(s: Input, acc: DsnPcbView) -> Parsed<DsnPcbView>
    decreases s.len(),
    via pcb_items_decreases
{
    match pcb_step(s, acc) {
        Step::More(acc, rest) => pcb_items(rest, acc),
        Step::Done(acc, rest) => Ok((acc, rest)),
        Step::Fail(e) => Err(e),
    }
}

/// `(pcb <id> ...)`: a whole design. Its name is the text of the token after `pcb`,
/// which must not be empty. A section that the document does not hold keeps its
/// blank value.
pub open spec fn pcb(s: Input) -> Parsed<DsnPcbView> {
    match enter(s, Tok::Pcb) {
        Err(e) => Err(e),
        Ok(s) => match literal(s) {
            Err(e) => Err(e),
            Ok((pcb_id, s)) => if pcb_id.len() == 0 {
                Err(ParseErrorView::EmptyId)
            } else {
                pcb_items(s, DsnPcbView { pcb_id, ..DsnPcbView::blank() })
            },
        },
    }
}

/// The design that a sequence of tokens denotes. What follows the design is
/// not read.
pub open spec fn document(s: Input) -> Result<DsnPcbView, ParseErrorView> {
    match pcb(s) {
        Err(e) => Err(e),
        Ok((v, _)) => Ok(v),
    }
}

// Progress: a rule that succeeds has read at least one token. This is what
// makes every repetition end.

/// Looking for the closing `)` reads at least that one.
pub broadcast proof fn consumes_skip_to_close(s: Input, depth: nat)
    ensures
        skips(#[trigger] skip_to_close(s, depth), s),
    decreases s.len(),
{
    if s.len() > 0 {
        consumes_skip_to_close(s.skip(1), depth);
        consumes_skip_to_close(s.skip(1), depth + 1);
        if depth > 0 {
            consumes_skip_to_close(s.skip(1), (depth - 1) as nat);
        }
    }
}

/// Skipping a form reads at least its two parentheses.
pub broadcast proof fn consumes_ignore(s: Input)
    ensures
        skips(#[trigger] ignore(s), s),
{
    broadcast use consumes_skip_to_close;
}

/// [`via`] reads at least one token.
pub broadcast proof fn consumes_via(s: Input)
    ensures
        consumes(#[trigger] via(s), s),
{
}

/// [`wire`] reads at least one token.
pub broadcast proof fn consumes_wire(s: Input)
    ensures
        consumes(#[trigger] wire(s), s),
{
}

/// [`plane`] reads at least one token.
pub broadcast proof fn consumes_plane(s: Input)
    ensures
        consumes(#[trigger] plane(s), s),
{
}

/// [`window`] reads at least one token.
pub broadcast proof fn consumes_window(s: Input)
    ensures
        consumes(#[trigger] window(s), s),
{
}

/// [`resolution`] reads at least one token.
pub broadcast proof fn consumes_resolution(s: Input)
    ensures
        consumes(#[trigger] resolution(s), s),
{
}

/// [`unit`] reads at least one token.
pub broadcast proof fn consumes_unit(s: Input)
    ensures
        consumes(#[trigger] unit(s), s),
{
}

/// [`rect`] reads at least one token.
pub broadcast proof fn consumes_rect(s: Input)
    ensures
        consumes(#[trigger] rect(s), s),
{
}

/// [`circle`] reads at least one token.
pub broadcast proof fn consumes_circle(s: Input)
    ensures
        consumes(#[trigger] circle(s), s),
{
}

/// [`qarc`] reads at least one token.
pub broadcast proof fn consumes_qarc(s: Input)
    ensures
        consumes(#[trigger] qarc(s), s),
{
}

/// A round that goes on has read a token, so the rounds come to an end.
#[via_fn]
proof fn points_items_decreases(s: Input, acc: Seq<DsnPointView>) {
}

/// [`points_items`] reads at least the closing `)`.
pub broadcast proof fn consumes_points_items(s: Input, acc: Seq<DsnPointView>)
    ensures
        consumes(#[trigger] points_items(s, acc), s),
    decreases s.len(),
{

    match points_step(s, acc) {
        Step::More(a, rest) => {
            consumes_points_items(rest, a);
        },
        _ => {},
    }
}

/// [`polygon`] reads at least one token.
pub broadcast proof fn consumes_polygon(s: Input)
    ensures
        consumes(#[trigger] polygon(s), s),
{
    broadcast use consumes_points_items;
}

/// [`path`] reads at least one token.
pub broadcast proof fn consumes_path(s: Input)
    ensures
        consumes(#[trigger] path(s), s),
{
    broadcast use consumes_points_items;
}

/// [`shape`] reads at least one token.
pub broadcast proof fn consumes_shape(s: Input)
    ensures
        consumes(#[trigger] shape(s), s),
{
    broadcast use consumes_circle, consumes_path, consumes_polygon, consumes_qarc, consumes_rect;
}

/// [`boundary`] reads at least one token.
pub broadcast proof fn consumes_boundary(s: Input)
    ensures
        consumes(#[trigger] boundary(s), s),
{
    broadcast use consumes_shape;
}

/// [`outline`] reads at least one token.
pub broadcast proof fn consumes_outline(s: Input)
    ensures
        consumes(#[trigger] outline(s), s),
{
    broadcast use consumes_shape;
}

/// [`padstack_shape`] reads at least one token.
pub broadcast proof fn consumes_padstack_shape(s: Input)
    ensures
        consumes(#[trigger] padstack_shape(s), s),
{
    broadcast use consumes_shape;
}

/// A round that goes on has read a token, so the rounds come to an end.
#[via_fn]
proof fn keepout_items_decreases(s: Input, acc: DsnKeepoutView) {
    broadcast use consumes_shape;
}

/// [`keepout_items`] reads at least the closing `)`.
pub broadcast proof fn consumes_keepout_items(s: Input, acc: DsnKeepoutView)
    ensures
        consumes(#[trigger] keepout_items(s, acc), s),
    decreases s.len(),
{
    broadcast use consumes_shape;

    match keepout_step(s, acc) {
        Step::More(a, rest) => {
            consumes_keepout_items(rest, a);
        },
        _ => {},
    }
}

/// [`keepout`] reads at least one token.
pub broadcast proof fn consumes_keepout(s: Input)
    ensures
        consumes(#[trigger] keepout(s), s),
{
    broadcast use consumes_keepout_items;
}

/// [`rotate_form`] reads at least one token.
pub broadcast proof fn consumes_rotate_form(s: Input)
    ensures
        consumes(#[trigger] rotate_form(s), s),
{
}

/// [`pin`] reads at least one token.
pub broadcast proof fn consumes_pin(s: Input)
    ensures
        consumes(#[trigger] pin(s), s),
{
}

/// A round that goes on has read a token, so the rounds come to an end.
#[via_fn]
proof fn image_items_decreases(s: Input, acc: DsnImageView) {
    broadcast use consumes_outline, consumes_pin, consumes_keepout;
}

/// [`image_items`] reads at least the closing `)`.
pub broadcast proof fn consumes_image_items(s: Input, acc: DsnImageView)
    ensures
        consumes(#[trigger] image_items(s, acc), s),
    decreases s.len(),
{
    broadcast use consumes_outline, consumes_pin, consumes_keepout;

    match image_step(s, acc) {
        Step::More(a, rest) => {
            consumes_image_items(rest, a);
        },
        _ => {},
    }
}

/// [`image`] reads at least one token.
pub broadcast proof fn consumes_image(s: Input)
    ensures
        consumes(#[trigger] image(s), s),
{
    broadcast use consumes_image_items;
}

/// [`attach_form`] reads at least one token.
pub broadcast proof fn consumes_attach_form(s: Input)
    ensures
        consumes(#[trigger] attach_form(s), s),
{
}

/// A round that goes on has read a token, so the rounds come to an end.
#[via_fn]
proof fn padstack_items_decreases(s: Input, acc: DsnPadstackView) {
    broadcast use consumes_attach_form, consumes_padstack_shape;
}

/// [`padstack_items`] reads at least the closing `)`.
pub broadcast proof fn consumes_padstack_items(s: Input, acc: DsnPadstackView)
    ensures
        consumes(#[trigger] padstack_items(s, acc), s),
    decreases s.len(),
{
    broadcast use consumes_attach_form, consumes_padstack_shape;

    match padstack_step(s, acc) {
        Step::More(a, rest) => {
            consumes_padstack_items(rest, a);
        },
        _ => {},
    }
}

/// [`padstack`] reads at least one token.
pub broadcast proof fn consumes_padstack(s: Input)
    ensures
        consumes(#[trigger] padstack(s), s),
{
    broadcast use consumes_padstack_items;
}

/// A round that goes on has read a token, so the rounds come to an end.
#[via_fn]
proof fn library_items_decreases(s: Input, acc: DsnLibraryView) {
    broadcast use consumes_image, consumes_padstack;
}

/// [`library_items`] reads at least the closing `)`.
pub broadcast proof fn consumes_library_items(s: Input, acc: DsnLibraryView)
    ensures
        consumes(#[trigger] library_items(s, acc), s),
    decreases s.len(),
{
    broadcast use consumes_image, consumes_padstack;

    match library_step(s, acc) {
        Step::More(a, rest) => {
            consumes_library_items(rest, a);
        },
        _ => {},
    }
}

/// [`library`] reads at least one token.
pub broadcast proof fn consumes_library(s: Input)
    ensures
        consumes(#[trigger] library(s), s),
{
    broadcast use consumes_library_items;
}

/// A round that goes on has read a token, so the rounds come to an end.
#[via_fn]
proof fn pin_refs_items_decreases(s: Input, acc: Seq<DsnPinRefView>) {
}

/// [`pin_refs_items`] reads at least the closing `)`.
pub broadcast proof fn consumes_pin_refs_items(s: Input, acc: Seq<DsnPinRefView>)
    ensures
        consumes(#[trigger] pin_refs_items(s, acc), s),
    decreases s.len(),
{

    match pin_refs_step(s, acc) {
        Step::More(a, rest) => {
            consumes_pin_refs_items(rest, a);
        },
        _ => {},
    }
}

/// [`pins_form`] reads at least one token.
pub broadcast proof fn consumes_pins_form(s: Input)
    ensures
        consumes(#[trigger] pins_form(s), s),
{
    broadcast use consumes_pin_refs_items;
}

/// A round that goes on has read a token, so the rounds come to an end.
#[via_fn]
proof fn net_items_decreases(s: Input, acc: DsnNetView) {
    broadcast use consumes_pins_form;
}

/// [`net_items`] reads at least the closing `)`.
pub broadcast proof fn consumes_net_items(s: Input, acc: DsnNetView)
    ensures
        consumes(#[trigger] net_items(s, acc), s),
    decreases s.len(),
{
    broadcast use consumes_pins_form;

    match net_step(s, acc) {
        Step::More(a, rest) => {
            consumes_net_items(rest, a);
        },
        _ => {},
    }
}

/// [`net`] reads at least one token.
pub broadcast proof fn consumes_net(s: Input)
    ensures
        consumes(#[trigger] net(s), s),
{
    broadcast use consumes_net_items;
}

/// [`use_via_form`] reads at least one token.
pub broadcast proof fn consumes_use_via_form(s: Input)
    ensures
        consumes(#[trigger] use_via_form(s), s),
{
}

/// A round that goes on has read a token, so the rounds come to an end.
#[via_fn]
proof fn circuit_items_decreases(s: Input, acc: Seq<DsnCircuitView>) {
    broadcast use consumes_use_via_form;
}

/// [`circuit_items`] reads at least the closing `)`.
pub broadcast proof fn consumes_circuit_items(s: Input, acc: Seq<DsnCircuitView>)
    ensures
        consumes(#[trigger] circuit_items(s, acc), s),
    decreases s.len(),
{
    broadcast use consumes_use_via_form;

    match circuit_step(s, acc) {
        Step::More(a, rest) => {
            consumes_circuit_items(rest, a);
        },
        _ => {},
    }
}

/// [`circuit`] reads at least one token.
pub broadcast proof fn consumes_circuit(s: Input)
    ensures
        consumes(#[trigger] circuit(s), s),
{
    broadcast use consumes_circuit_items;
}

/// [`clearance_type_form`] reads at least one token.
pub broadcast proof fn consumes_clearance_type_form(s: Input)
    ensures
        consumes(#[trigger] clearance_type_form(s), s),
{
}

/// A round that goes on has read a token, so the rounds come to an end.
#[via_fn]
proof fn clearance_types_items_decreases(s: Input, acc: Seq<DsnClearanceType>) {
    broadcast use consumes_clearance_type_form;
}

/// [`clearance_types_items`] reads at least the closing `)`.
pub broadcast proof fn consumes_clearance_types_items(s: Input, acc: Seq<DsnClearanceType>)
    ensures
        consumes(#[trigger] clearance_types_items(s, acc), s),
    decreases s.len(),
{
    broadcast use consumes_clearance_type_form;

    match clearance_types_step(s, acc) {
        Step::More(a, rest) => {
            consumes_clearance_types_items(rest, a);
        },
        _ => {},
    }
}

/// [`clearance`] reads at least one token.
pub broadcast proof fn consumes_clearance(s: Input)
    ensures
        consumes(#[trigger] clearance(s), s),
{
    broadcast use consumes_clearance_types_items;
}

/// [`width_form`] reads at least one token.
pub broadcast proof fn consumes_width_form(s: Input)
    ensures
        consumes(#[trigger] width_form(s), s),
{
}

/// [`clearance_rule`] reads at least one token.
pub broadcast proof fn consumes_clearance_rule(s: Input)
    ensures
        consumes(#[trigger] clearance_rule(s), s),
{
    broadcast use consumes_clearance;
}

/// A round that goes on has read a token, so the rounds come to an end.
#[via_fn]
proof fn rule_items_decreases(s: Input, acc: Seq<DsnRuleView>) {
    broadcast use consumes_width_form, consumes_clearance_rule;
}

/// [`rule_items`] reads at least the closing `)`.
pub broadcast proof fn consumes_rule_items(s: Input, acc: Seq<DsnRuleView>)
    ensures
        consumes(#[trigger] rule_items(s, acc), s),
    decreases s.len(),
{
    broadcast use consumes_width_form, consumes_clearance_rule;

    match rule_step(s, acc) {
        Step::More(a, rest) => {
            consumes_rule_items(rest, a);
        },
        _ => {},
    }
}

/// [`rule`] reads at least one token.
pub broadcast proof fn consumes_rule(s: Input)
    ensures
        consumes(#[trigger] rule(s), s),
{
    broadcast use consumes_rule_items;
}

/// A round that goes on has read a token, so the rounds come to an end.
#[via_fn]
proof fn class_items_decreases(s: Input, acc: DsnClassView) {
    broadcast use consumes_circuit, consumes_rule;
}

/// [`class_items`] reads at least the closing `)`.
pub broadcast proof fn consumes_class_items(s: Input, acc: DsnClassView)
    ensures
        consumes(#[trigger] class_items(s, acc), s),
    decreases s.len(),
{
    broadcast use consumes_circuit, consumes_rule;

    match class_step(s, acc) {
        Step::More(a, rest) => {
            consumes_class_items(rest, a);
        },
        _ => {},
    }
}

/// [`class`] reads at least one token.
pub broadcast proof fn consumes_class(s: Input)
    ensures
        consumes(#[trigger] class(s), s),
{
    broadcast use consumes_class_items;
}

/// A round that goes on has read a token, so the rounds come to an end.
#[via_fn]
proof fn network_items_decreases(s: Input, acc: DsnNetworkView) {
    broadcast use consumes_class, consumes_net;
}

/// [`network_items`] reads at least the closing `)`.
pub broadcast proof fn consumes_network_items(s: Input, acc: DsnNetworkView)
    ensures
        consumes(#[trigger] network_items(s, acc), s),
    decreases s.len(),
{
    broadcast use consumes_class, consumes_net;

    match network_step(s, acc) {
        Step::More(a, rest) => {
            consumes_network_items(rest, a);
        },
        _ => {},
    }
}

/// [`network`] reads at least one token.
pub broadcast proof fn consumes_network(s: Input)
    ensures
        consumes(#[trigger] network(s), s),
{
    broadcast use consumes_network_items;
}

/// [`lock_type_form`] reads at least one token.
pub broadcast proof fn consumes_lock_type_form(s: Input)
    ensures
        consumes(#[trigger] lock_type_form(s), s),
{
}

/// [`part_number_form`] reads at least one token.
pub broadcast proof fn consumes_part_number_form(s: Input)
    ensures
        consumes(#[trigger] part_number_form(s), s),
{
}

/// A round that goes on has read a token, so the rounds come to an end.
#[via_fn]
proof fn placement_ref_items_decreases(s: Input, acc: DsnPlacementRefView) {
    broadcast use consumes_lock_type_form, consumes_part_number_form;
}

/// [`placement_ref_items`] reads at least the closing `)`.
pub broadcast proof fn consumes_placement_ref_items(s: Input, acc: DsnPlacementRefView)
    ensures
        consumes(#[trigger] placement_ref_items(s, acc), s),
    decreases s.len(),
{
    broadcast use consumes_lock_type_form, consumes_part_number_form;

    match placement_ref_step(s, acc) {
        Step::More(a, rest) => {
            consumes_placement_ref_items(rest, a);
        },
        _ => {},
    }
}

/// [`placement_ref`] reads at least one token.
pub broadcast proof fn consumes_placement_ref(s: Input)
    ensures
        consumes(#[trigger] placement_ref(s), s),
{
    broadcast use consumes_placement_ref_items;
}

/// A round that goes on has read a token, so the rounds come to an end.
#[via_fn]
proof fn component_items_decreases(s: Input, acc: DsnComponentView) {
    broadcast use consumes_placement_ref;
}

/// [`component_items`] reads at least the closing `)`.
pub broadcast proof fn consumes_component_items(s: Input, acc: DsnComponentView)
    ensures
        consumes(#[trigger] component_items(s, acc), s),
    decreases s.len(),
{
    broadcast use consumes_placement_ref;

    match component_step(s, acc) {
        Step::More(a, rest) => {
            consumes_component_items(rest, a);
        },
        _ => {},
    }
}

/// [`component`] reads at least one token.
pub broadcast proof fn consumes_component(s: Input)
    ensures
        consumes(#[trigger] component(s), s),
{
    broadcast use consumes_component_items;
}

/// A round that goes on has read a token, so the rounds come to an end.
#[via_fn]
proof fn placement_items_decreases(s: Input, acc: DsnPlacementView) {
    broadcast use consumes_component;
}

/// [`placement_items`] reads at least the closing `)`.
pub broadcast proof fn consumes_placement_items(s: Input, acc: DsnPlacementView)
    ensures
        consumes(#[trigger] placement_items(s, acc), s),
    decreases s.len(),
{
    broadcast use consumes_component;

    match placement_step(s, acc) {
        Step::More(a, rest) => {
            consumes_placement_items(rest, a);
        },
        _ => {},
    }
}

/// [`placement`] reads at least one token.
pub broadcast proof fn consumes_placement(s: Input)
    ensures
        consumes(#[trigger] placement(s), s),
{
    broadcast use consumes_placement_items;
}

/// [`layer_type_form`] reads at least one token.
pub broadcast proof fn consumes_layer_type_form(s: Input)
    ensures
        consumes(#[trigger] layer_type_form(s), s),
{
}

/// [`ignored`] reads at least one token.
pub broadcast proof fn consumes_ignored<A>(s: Input, acc: A)
    ensures
        consumes(#[trigger] ignored(s, acc), s),
{
    broadcast use consumes_ignore;
}

/// A round that goes on has read a token, so the rounds come to an end.
#[via_fn]
proof fn layer_items_decreases(s: Input, acc: DsnLayerView) {
    broadcast use consumes_layer_type_form, consumes_ignored;
}

/// [`layer_items`] reads at least the closing `)`.
pub broadcast proof fn consumes_layer_items(s: Input, acc: DsnLayerView)
    ensures
        consumes(#[trigger] layer_items(s, acc), s),
    decreases s.len(),
{
    broadcast use consumes_layer_type_form, consumes_ignored;

    match layer_step(s, acc) {
        Step::More(a, rest) => {
            consumes_layer_items(rest, a);
        },
        _ => {},
    }
}

/// [`layer`] reads at least one token.
pub broadcast proof fn consumes_layer(s: Input)
    ensures
        consumes(#[trigger] layer(s), s),
{
    broadcast use consumes_layer_items;
}

/// A round that goes on has read a token, so the rounds come to an end.
#[via_fn]
proof fn names_items_decreases(s: Input, acc: Seq<Seq<char>>) {
}

/// [`names_items`] reads at least the closing `)`.
pub broadcast proof fn consumes_names_items(s: Input, acc: Seq<Seq<char>>)
    ensures
        consumes(#[trigger] names_items(s, acc), s),
    decreases s.len(),
{

    match names_step(s, acc) {
        Step::More(a, rest) => {
            consumes_names_items(rest, a);
        },
        _ => {},
    }
}

/// [`via_names_form`] reads at least one token.
pub broadcast proof fn consumes_via_names_form(s: Input)
    ensures
        consumes(#[trigger] via_names_form(s), s),
{
    broadcast use consumes_names_items;
}

/// A round that goes on has read a token, so the rounds come to an end.
#[via_fn]
proof fn structure_items_decreases(s: Input, acc: DsnStructureView) {
    broadcast use
        consumes_boundary,
        consumes_keepout,
        consumes_layer,
        consumes_plane,
        consumes_rule,
        consumes_via_names_form,
    ;
}

/// [`structure_items`] reads at least the closing `)`.
pub broadcast proof fn consumes_structure_items(s: Input, acc: DsnStructureView)
    ensures
        consumes(#[trigger] structure_items(s, acc), s),
    decreases s.len(),
{
    broadcast use
        consumes_boundary,
        consumes_keepout,
        consumes_layer,
        consumes_plane,
        consumes_rule,
        consumes_via_names_form,
    ;

    match structure_step(s, acc) {
        Step::More(a, rest) => {
            consumes_structure_items(rest, a);
        },
        _ => {},
    }
}

/// [`structure`] reads at least one token.
pub broadcast proof fn consumes_structure(s: Input)
    ensures
        consumes(#[trigger] structure(s), s),
{
    broadcast use consumes_structure_items;
}

/// A round that goes on has read a token, so the rounds come to an end.
#[via_fn]
proof fn wiring_items_decreases(s: Input, acc: DsnWiringView) {
    broadcast use consumes_wire, consumes_via;
}

/// [`wiring_items`] reads at least the closing `)`.
pub broadcast proof fn consumes_wiring_items(s: Input, acc: DsnWiringView)
    ensures
        consumes(#[trigger] wiring_items(s, acc), s),
    decreases s.len(),
{
    broadcast use consumes_wire, consumes_via;

    match wiring_step(s, acc) {
        Step::More(a, rest) => {
            consumes_wiring_items(rest, a);
        },
        _ => {},
    }
}

/// [`wiring`] reads at least one token.
pub broadcast proof fn consumes_wiring(s: Input)
    ensures
        consumes(#[trigger] wiring(s), s),
{
    broadcast use consumes_wiring_items;
}

/// A round that goes on has read a token, so the rounds come to an end.
#[via_fn]
proof fn pcb_items_decreases(s: Input, acc: DsnPcbView) {
    broadcast use
        consumes_library,
        consumes_network,
        consumes_ignored,
        consumes_placement,
        consumes_resolution,
        consumes_structure,
        consumes_unit,
        consumes_wiring,
    ;
}

/// [`pcb_items`] reads at least the closing `)`.
pub broadcast proof fn consumes_pcb_items(s: Input, acc: DsnPcbView)
    ensures
        consumes(#[trigger] pcb_items(s, acc), s),
    decreases s.len(),
{
    broadcast use
        consumes_library,
        consumes_network,
        consumes_ignored,
        consumes_placement,
        consumes_resolution,
        consumes_structure,
        consumes_unit,
        consumes_wiring,
    ;

    match pcb_step(s, acc) {
        Step::More(a, rest) => {
            consumes_pcb_items(rest, a);
        },
        _ => {},
    }
}

/// [`pcb`] reads at least one token.
pub broadcast proof fn consumes_pcb(s: Input)
    ensures
        consumes(#[trigger] pcb(s), s),
{
    broadcast use consumes_pcb_items;
}

} // verus!

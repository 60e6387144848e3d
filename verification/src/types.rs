//! The document model: the typed tree that parsing a design yields.
//!
//! Every type has a view, its mathematical model: strings and numbers are
//! sequences of characters, lists are sequences of views. Identifiers are plain
//! values; nothing here resolves an identifier to the entity that it names.
use crate::number::{is_float_literal, DsnNumber};
use vstd::prelude::*;
use vstd::std_specs::cmp::PartialEqSpecImpl;

verus! {

/// The views of the items of a list, in order.
pub open spec fn views<T: View>(s: Seq<T>) -> Seq<T::V> {
    s.map_values(|t: T| t@)
}

/// The views of a list that grew by one item are the old views and the view of
/// the new item.
pub broadcast proof fn lemma_views_push<T: View>(s: Seq<T>, x: T)
    ensures
        #[trigger] views(s.push(x)) == views(s).push(x@),
{
    assert(views(s.push(x)) =~= views(s).push(x@));
}

/// The views of two lists put together are their views put together.
pub broadcast proof fn lemma_views_add<T: View>(s: Seq<T>, t: Seq<T>)
    ensures
        #[trigger] views(s + t) == views(s) + views(t),
{
    assert(views(s + t) =~= views(s) + views(t));
}

/// An empty list has no views.
pub broadcast proof fn lemma_views_empty<T: View>(s: Seq<T>)
    requires
        s.len() == 0,
    ensures
        #[trigger] views(s) == Seq::<T::V>::empty(),
{
    assert(views(s) =~= Seq::<T::V>::empty());
}

/// The unit in which coordinates are measured.
#[derive(Debug, Copy, Clone, PartialEq, Eq, Hash, Structural)]
pub enum DsnDimensionUnit {
    Inch,
    Mil,
    Cm,
    Mm,
    Um,
}

impl View for DsnDimensionUnit {
    type V = DsnDimensionUnit;

    open spec fn view(&self) -> DsnDimensionUnit {
        *self
    }
}

impl DsnDimensionUnit {
    /// The value that stands where the document names none.
    pub open spec fn blank() -> DsnDimensionUnit {
        DsnDimensionUnit::Inch
    }
}

impl Default for DsnDimensionUnit {
    fn default() -> (r: DsnDimensionUnit)
        ensures
            r == DsnDimensionUnit::blank(),
    {
        DsnDimensionUnit::Inch
    }
}

/// The side of the board on which a component sits.
#[derive(Debug, Copy, Clone, PartialEq, Eq, Hash, Structural)]
pub enum DsnSide {
    Front,
    Back,
    Both,
}

impl View for DsnSide {
    type V = DsnSide;

    open spec fn view(&self) -> DsnSide {
        *self
    }
}

impl DsnSide {
    /// The value that stands where the document names none.
    pub open spec fn blank() -> DsnSide {
        DsnSide::Front
    }
}

impl Default for DsnSide {
    fn default() -> (r: DsnSide)
        ensures
            r == DsnSide::blank(),
    {
        DsnSide::Front
    }
}

/// What is held in place when a placed component is locked.
#[derive(Debug, Copy, Clone, PartialEq, Eq, Hash, Structural)]
pub enum DsnLockType {
    Gate,
    Position,
}

impl View for DsnLockType {
    type V = DsnLockType;

    open spec fn view(&self) -> DsnLockType {
        *self
    }
}

impl DsnLockType {
    /// The value that stands where the document names none.
    pub open spec fn blank() -> DsnLockType {
        DsnLockType::Gate
    }
}

impl Default for DsnLockType {
    fn default() -> (r: DsnLockType)
        ensures
            r == DsnLockType::blank(),
    {
        DsnLockType::Gate
    }
}

/// What a layer carries.
#[derive(Debug, Copy, Clone, PartialEq, Eq, Hash, Structural)]
pub enum DsnLayerType {
    Signal,
    Power,
    Mixed,
    Jumper,
}

impl View for DsnLayerType {
    type V = DsnLayerType;

    open spec fn view(&self) -> DsnLayerType {
        *self
    }
}

impl DsnLayerType {
    /// The value that stands where the document names none.
    pub open spec fn blank() -> DsnLayerType {
        DsnLayerType::Signal
    }
}

impl Default for DsnLayerType {
    fn default() -> (r: DsnLayerType)
        ensures
            r == DsnLayerType::blank(),
    {
        DsnLayerType::Signal
    }
}

/// What a keepout region keeps out.
#[derive(Debug, Copy, Clone, PartialEq, Eq, Hash, Structural)]
pub enum DsnKeepoutType {
    Keepout,
    ViaKeepout,
    WireKeepout,
}

impl View for DsnKeepoutType {
    type V = DsnKeepoutType;

    open spec fn view(&self) -> DsnKeepoutType {
        *self
    }
}

impl DsnKeepoutType {
    /// The value that stands where the document names none.
    pub open spec fn blank() -> DsnKeepoutType {
        DsnKeepoutType::Keepout
    }
}

impl Default for DsnKeepoutType {
    fn default() -> (r: DsnKeepoutType)
        ensures
            r == DsnKeepoutType::blank(),
    {
        DsnKeepoutType::Keepout
    }
}

/// The pairs of objects between which a clearance applies.
#[derive(Debug, Copy, Clone, PartialEq, Eq, Hash, Structural)]
pub enum DsnClearanceType {
    DefaultSmd,
    SmdSmd,
    All,
}

impl View for DsnClearanceType {
    type V = DsnClearanceType;

    open spec fn view(&self) -> DsnClearanceType {
        *self
    }
}

impl DsnClearanceType {
    /// The value that stands where the document names none.
    pub open spec fn blank() -> DsnClearanceType {
        DsnClearanceType::DefaultSmd
    }
}

impl Default for DsnClearanceType {
    fn default() -> (r: DsnClearanceType)
        ensures
            r == DsnClearanceType::blank(),
    {
        DsnClearanceType::DefaultSmd
    }
}

/// A routed wire. Recognised, not yet modelled: it has no fields.
#[derive(Debug, Copy, Clone, PartialEq, Eq, Structural)]
pub struct DsnWire {}

impl View for DsnWire {
    type V = DsnWire;

    open spec fn view(&self) -> DsnWire {
        *self
    }
}

impl Default for DsnWire {
    fn default() -> (r: DsnWire) {
        DsnWire {}
    }
}

/// A routed via. Recognised, not yet modelled: it has no fields.
#[derive(Debug, Copy, Clone, PartialEq, Eq, Structural)]
pub struct DsnVia {}

impl View for DsnVia {
    type V = DsnVia;

    open spec fn view(&self) -> DsnVia {
        *self
    }
}

impl Default for DsnVia {
    fn default() -> (r: DsnVia) {
        DsnVia {}
    }
}

/// A copper plane. Recognised, not yet modelled: it has no fields.
#[derive(Debug, Copy, Clone, PartialEq, Eq, Structural)]
pub struct DsnPlane {}

impl View for DsnPlane {
    type V = DsnPlane;

    open spec fn view(&self) -> DsnPlane {
        *self
    }
}

impl Default for DsnPlane {
    fn default() -> (r: DsnPlane) {
        DsnPlane {}
    }
}

/// A window in a plane. Recognised, not yet modelled: it has no fields.
#[derive(Debug, Copy, Clone, PartialEq, Eq, Structural)]
pub struct DsnWindow {}

impl View for DsnWindow {
    type V = DsnWindow;

    open spec fn view(&self) -> DsnWindow {
        *self
    }
}

impl Default for DsnWindow {
    fn default() -> (r: DsnWindow) {
        DsnWindow {}
    }
}

/// A point of the plane.
#[derive(Debug, Clone, PartialEq)]
pub struct DsnPoint {
    pub x: DsnNumber,
    pub y: DsnNumber,
}

/// The model of a [`DsnPoint`].
pub struct DsnPointView {
    pub x: Seq<char>,
    pub y: Seq<char>,
}

impl View for DsnPoint {
    type V = DsnPointView;

    open spec fn view(&self) -> DsnPointView {
        DsnPointView {
            x: self.x@,
            y: self.y@,
        }
    }
}

impl DsnPointView {
    /// The value that stands where the document names none.
    pub open spec fn blank() -> DsnPointView {
        DsnPointView {
            x: DsnNumber::spec_zero(),
            y: DsnNumber::spec_zero(),
        }
    }

    /// What holds of every value that the grammar yields: numbers where numbers are due.
    pub open spec fn valid(self) -> bool {
        &&& is_float_literal(self.x)
        &&& is_float_literal(self.y)
    }
}

impl Default for DsnPoint {
    fn default() -> (r: DsnPoint)
        ensures
            r@ == DsnPointView::blank(),
    {
        DsnPoint {
            x: DsnNumber::zero(),
            y: DsnNumber::zero(),
        }
    }
}

/// A circle on a layer, centred on `p`.
#[derive(Debug, Clone, PartialEq)]
pub struct DsnCircle {
    pub layer_id: String,
    pub diameter: DsnNumber,
    pub p: DsnPoint,
}

/// The model of a [`DsnCircle`].
pub struct DsnCircleView {
    pub layer_id: Seq<char>,
    pub diameter: Seq<char>,
    pub p: DsnPointView,
}

impl View for DsnCircle {
    type V = DsnCircleView;

    open spec fn view(&self) -> DsnCircleView {
        DsnCircleView {
            layer_id: self.layer_id@,
            diameter: self.diameter@,
            p: self.p@,
        }
    }
}

impl DsnCircleView {
    /// The value that stands where the document names none.
    pub open spec fn blank() -> DsnCircleView {
        DsnCircleView {
            layer_id: Seq::empty(),
            diameter: DsnNumber::spec_zero(),
            p: DsnPointView::blank(),
        }
    }

    /// What holds of every value that the grammar yields: numbers where numbers are due.
    pub open spec fn valid(self) -> bool {
        &&& is_float_literal(self.diameter)
        &&& self.p.valid()
    }
}

impl Default for DsnCircle {
    fn default() -> (r: DsnCircle)
        ensures
            r@ == DsnCircleView::blank(),
    {
        DsnCircle {
            layer_id: String::new(),
            diameter: DsnNumber::zero(),
            p: DsnPoint::default(),
        }
    }
}

/// An axis-aligned rectangle on a layer: the smallest one that holds two given
/// corners. Either diagonal, in either order, gives the same rectangle, and
/// which one gave it is no part of the rectangle.
#[derive(Debug, Clone)]
pub struct DsnRect {
    pub layer_id: String,
    a: DsnPoint,
    b: DsnPoint,
}

/// The model of a [`DsnRect`]: the rectangle that spans from one of `xs` to the
/// other and from one of `ys` to the other.
pub struct DsnRectView {
    pub layer_id: Seq<char>,
    pub xs: Set<Seq<char>>,
    pub ys: Set<Seq<char>>,
}

/// The two ends of a span, in no order.
pub open spec fn span(a: Seq<char>, b: Seq<char>) -> Set<Seq<char>> {
    set![a, b]
}

/// Two spans are the same where their ends are, one way round or the other.
pub proof fn lemma_same_span(a: Seq<char>, b: Seq<char>, c: Seq<char>, d: Seq<char>)
    ensures
        span(a, b) == span(c, d) <==> (a == c && b == d) || (a == d && b == c),
{
    if span(a, b) == span(c, d) {
        assert(span(a, b).contains(a) && span(a, b).contains(b));
        assert(span(c, d).contains(c) && span(c, d).contains(d));
    }
    if (a == c && b == d) || (a == d && b == c) {
        assert(span(a, b) =~= span(c, d));
    }
}

impl View for DsnRect {
    type V = DsnRectView;

    closed spec fn view(&self) -> DsnRectView {
        DsnRectView {
            layer_id: self.layer_id@,
            xs: span(self.a.x@, self.b.x@),
            ys: span(self.a.y@, self.b.y@),
        }
    }
}

impl DsnRectView {
    /// The value that stands where the document names none.
    pub open spec fn blank() -> DsnRectView {
        DsnRectView {
            layer_id: Seq::empty(),
            xs: span(DsnNumber::spec_zero(), DsnNumber::spec_zero()),
            ys: span(DsnNumber::spec_zero(), DsnNumber::spec_zero()),
        }
    }

    /// What holds of every value that the grammar yields: numbers where
    /// numbers are due.
    pub open spec fn valid(self) -> bool {
        &&& forall|x: Seq<char>| self.xs.contains(x) ==> is_float_literal(x)
        &&& forall|y: Seq<char>| self.ys.contains(y) ==> is_float_literal(y)
    }
}

impl DsnRect {
    /// The rectangle on the layer `layer_id` that has `a` and `b` for opposite
    /// corners.
    pub fn new(layer_id: String, a: DsnPoint, b: DsnPoint) -> (r: DsnRect)
        ensures
            r@ == (DsnRectView {
                layer_id: layer_id@,
                xs: span(a.x@, b.x@),
                ys: span(a.y@, b.y@),
            }),
    {
        DsnRect { layer_id, a, b }
    }

    /// Two opposite corners of the rectangle.
    pub fn corners(&self) -> (r: (&DsnPoint, &DsnPoint))
        ensures
            self@.xs == span(r.0.x@, r.1.x@),
            self@.ys == span(r.0.y@, r.1.y@),
    {
        (&self.a, &self.b)
    }
}

impl Default for DsnRect {
    fn default() -> (r: DsnRect)
        ensures
            r@ == DsnRectView::blank(),
    {
        DsnRect::new(String::new(), DsnPoint::default(), DsnPoint::default())
    }
}

impl PartialEq for DsnRect {
    /// Whether both are the same rectangle on the same layer, whichever
    /// corners they were made of.
    fn eq(&self, other: &DsnRect) -> (r: bool) {
        proof {
            lemma_same_span(self.a.x@, self.b.x@, other.a.x@, other.b.x@);
            lemma_same_span(self.a.y@, self.b.y@, other.a.y@, other.b.y@);
        }
        self.layer_id == other.layer_id && same_ends(&self.a.x, &self.b.x, &other.a.x, &other.b.x)
            && same_ends(&self.a.y, &self.b.y, &other.a.y, &other.b.y)
    }
}

impl PartialEqSpecImpl for DsnRect {
    open spec fn obeys_eq_spec() -> bool {
        true
    }

    open spec fn eq_spec(&self, other: &DsnRect) -> bool {
        self@ == other@
    }
}

/// Whether `a` and `b` are `c` and `d`, one way round or the other.
fn same_ends(a: &DsnNumber, b: &DsnNumber, c: &DsnNumber, d: &DsnNumber) -> (r: bool)
    ensures
        r == ((a@ == c@ && b@ == d@) || (a@ == d@ && b@ == c@)),
{
    (a.as_str().eq(c.as_str()) && b.as_str().eq(d.as_str())) || (a.as_str().eq(d.as_str())
        && b.as_str().eq(c.as_str()))
}

/// A closed polygon on a layer, of at least three points.
#[derive(Debug, Clone, PartialEq)]
pub struct DsnPolygon {
    pub layer_id: String,
    pub aperture_width: DsnNumber,
    pub pts: Vec<DsnPoint>,
}

/// The model of a [`DsnPolygon`].
pub struct DsnPolygonView {
    pub layer_id: Seq<char>,
    pub aperture_width: Seq<char>,
    pub pts: Seq<DsnPointView>,
}

impl View for DsnPolygon {
    type V = DsnPolygonView;

    open spec fn view(&self) -> DsnPolygonView {
        DsnPolygonView {
            layer_id: self.layer_id@,
            aperture_width: self.aperture_width@,
            pts: views(self.pts@),
        }
    }
}

impl DsnPolygonView {
    /// The value that stands where the document names none.
    pub open spec fn blank() -> DsnPolygonView {
        DsnPolygonView {
            layer_id: Seq::empty(),
            aperture_width: DsnNumber::spec_zero(),
            pts: Seq::empty(),
        }
    }

    /// What holds of every value that the grammar yields: at least three
    /// points, and numbers where numbers are due.
    pub open spec fn valid(self) -> bool {
        &&& is_float_literal(self.aperture_width)
        &&& forall|i: int| 0 <= i < self.pts.len() ==> (#[trigger] self.pts[i]).valid()
        &&& self.pts.len() >= 3
    }
}

impl Default for DsnPolygon {
    fn default() -> (r: DsnPolygon)
        ensures
            r@ == DsnPolygonView::blank(),
    {
        broadcast use lemma_views_empty;

        DsnPolygon {
            layer_id: String::new(),
            aperture_width: DsnNumber::zero(),
            pts: Vec::new(),
        }
    }
}

/// An open path on a layer, of at least two points.
#[derive(Debug, Clone, PartialEq)]
pub struct DsnPath {
    pub layer_id: String,
    pub aperture_width: DsnNumber,
    pub pts: Vec<DsnPoint>,
}

/// The model of a [`DsnPath`].
pub struct DsnPathView {
    pub layer_id: Seq<char>,
    pub aperture_width: Seq<char>,
    pub pts: Seq<DsnPointView>,
}

impl View for DsnPath {
    type V = DsnPathView;

    open spec fn view(&self) -> DsnPathView {
        DsnPathView {
            layer_id: self.layer_id@,
            aperture_width: self.aperture_width@,
            pts: views(self.pts@),
        }
    }
}

impl DsnPathView {
    /// The value that stands where the document names none.
    pub open spec fn blank() -> DsnPathView {
        DsnPathView {
            layer_id: Seq::empty(),
            aperture_width: DsnNumber::spec_zero(),
            pts: Seq::empty(),
        }
    }

    /// What holds of every value that the grammar yields: at least two points,
    /// and numbers where numbers are due.
    pub open spec fn valid(self) -> bool {
        &&& is_float_literal(self.aperture_width)
        &&& forall|i: int| 0 <= i < self.pts.len() ==> (#[trigger] self.pts[i]).valid()
        &&& self.pts.len() >= 2
    }
}

impl Default for DsnPath {
    fn default() -> (r: DsnPath)
        ensures
            r@ == DsnPathView::blank(),
    {
        broadcast use lemma_views_empty;

        DsnPath {
            layer_id: String::new(),
            aperture_width: DsnNumber::zero(),
            pts: Vec::new(),
        }
    }
}

/// A quarter arc on a layer.
#[derive(Debug, Clone, PartialEq)]
pub struct DsnQArc {
    pub layer_id: String,
    pub aperture_width: DsnNumber,
    pub start: DsnPoint,
    pub end: DsnPoint,
    pub center: DsnPoint,
}

/// The model of a [`DsnQArc`].
pub struct DsnQArcView {
    pub layer_id: Seq<char>,
    pub aperture_width: Seq<char>,
    pub start: DsnPointView,
    pub end: DsnPointView,
    pub center: DsnPointView,
}

impl View for DsnQArc {
    type V = DsnQArcView;

    open spec fn view(&self) -> DsnQArcView {
        DsnQArcView {
            layer_id: self.layer_id@,
            aperture_width: self.aperture_width@,
            start: self.start@,
            end: self.end@,
            center: self.center@,
        }
    }
}

impl DsnQArcView {
    /// The value that stands where the document names none.
    pub open spec fn blank() -> DsnQArcView {
        DsnQArcView {
            layer_id: Seq::empty(),
            aperture_width: DsnNumber::spec_zero(),
            start: DsnPointView::blank(),
            end: DsnPointView::blank(),
            center: DsnPointView::blank(),
        }
    }

    /// What holds of every value that the grammar yields: numbers where numbers are due.
    pub open spec fn valid(self) -> bool {
        &&& is_float_literal(self.aperture_width)
        &&& self.start.valid()
        &&& self.end.valid()
        &&& self.center.valid()
    }
}

impl Default for DsnQArc {
    fn default() -> (r: DsnQArc)
        ensures
            r@ == DsnQArcView::blank(),
    {
        DsnQArc {
            layer_id: String::new(),
            aperture_width: DsnNumber::zero(),
            start: DsnPoint::default(),
            end: DsnPoint::default(),
            center: DsnPoint::default(),
        }
    }
}

/// A geometric primitive on a layer.
#[derive(Debug, Clone, PartialEq)]
pub enum DsnShape {
    Rect(DsnRect),
    Circle(DsnCircle),
    Polygon(DsnPolygon),
    Path(DsnPath),
    QArc(DsnQArc),
}

/// The model of a [`DsnShape`].
pub enum DsnShapeView {
    Rect(DsnRectView),
    Circle(DsnCircleView),
    Polygon(DsnPolygonView),
    Path(DsnPathView),
    QArc(DsnQArcView),
}

impl View for DsnShape {
    type V = DsnShapeView;

    open spec fn view(&self) -> DsnShapeView {
        match self {
            DsnShape::Rect(x) => DsnShapeView::Rect(x@),
            DsnShape::Circle(x) => DsnShapeView::Circle(x@),
            DsnShape::Polygon(x) => DsnShapeView::Polygon(x@),
            DsnShape::Path(x) => DsnShapeView::Path(x@),
            DsnShape::QArc(x) => DsnShapeView::QArc(x@),
        }
    }
}

impl DsnShapeView {
    /// What holds of every value that the grammar yields.
    pub open spec fn valid(self) -> bool {
        match self {
            DsnShapeView::Rect(x) => x.valid(),
            DsnShapeView::Circle(x) => x.valid(),
            DsnShapeView::Polygon(x) => x.valid(),
            DsnShapeView::Path(x) => x.valid(),
            DsnShapeView::QArc(x) => x.valid(),
        }
    }
}

impl DsnShapeView {
    /// The value that stands where the document names none.
    pub open spec fn blank() -> DsnShapeView {
        DsnShapeView::Rect(DsnRectView::blank())
    }
}

impl Default for DsnShape {
    fn default() -> (r: DsnShape)
        ensures
            r@ == DsnShapeView::blank(),
    {
        DsnShape::Rect(DsnRect::default())
    }
}

/// A region that routing, vias or wires must avoid.
#[derive(Debug, Clone, PartialEq)]
pub struct DsnKeepout {
    pub keepout_type: DsnKeepoutType,
    pub shape: DsnShape,
}

/// The model of a [`DsnKeepout`].
pub struct DsnKeepoutView {
    pub keepout_type: DsnKeepoutType,
    pub shape: DsnShapeView,
}

impl View for DsnKeepout {
    type V = DsnKeepoutView;

    open spec fn view(&self) -> DsnKeepoutView {
        DsnKeepoutView {
            keepout_type: self.keepout_type,
            shape: self.shape@,
        }
    }
}

impl DsnKeepoutView {
    /// The value that stands where the document names none.
    pub open spec fn blank() -> DsnKeepoutView {
        DsnKeepoutView {
            keepout_type: DsnKeepoutType::blank(),
            shape: DsnShapeView::blank(),
        }
    }

    /// What holds of every value that the grammar yields: numbers where numbers
    /// are due, polygons of
    /// at least three points, paths of at least two, clearances of at least one type, pin
    /// references of two parts.
    pub open spec fn valid(self) -> bool {
        &&& self.shape.valid()
    }
}

impl Default for DsnKeepout {
    fn default() -> (r: DsnKeepout)
        ensures
            r@ == DsnKeepoutView::blank(),
    {
        DsnKeepout {
            keepout_type: DsnKeepoutType::default(),
            shape: DsnShape::default(),
        }
    }
}

/// A pin of an image: which padstack it uses and where it sits.
#[derive(Debug, Clone, PartialEq)]
pub struct DsnPin {
    pub padstack_id: String,
    pub rotation: DsnNumber,
    pub pin_id: String,
    pub p: DsnPoint,
}

/// The model of a [`DsnPin`].
pub struct DsnPinView {
    pub padstack_id: Seq<char>,
    pub rotation: Seq<char>,
    pub pin_id: Seq<char>,
    pub p: DsnPointView,
}

impl View for DsnPin {
    type V = DsnPinView;

    open spec fn view(&self) -> DsnPinView {
        DsnPinView {
            padstack_id: self.padstack_id@,
            rotation: self.rotation@,
            pin_id: self.pin_id@,
            p: self.p@,
        }
    }
}

impl DsnPinView {
    /// The value that stands where the document names none.
    pub open spec fn blank() -> DsnPinView {
        DsnPinView {
            padstack_id: Seq::empty(),
            rotation: DsnNumber::spec_zero(),
            pin_id: Seq::empty(),
            p: DsnPointView::blank(),
        }
    }

    /// What holds of every value that the grammar yields: numbers where numbers are due.
    pub open spec fn valid(self) -> bool {
        &&& is_float_literal(self.rotation)
        &&& self.p.valid()
    }
}

impl Default for DsnPin {
    fn default() -> (r: DsnPin)
        ensures
            r@ == DsnPinView::blank(),
    {
        DsnPin {
            padstack_id: String::new(),
            rotation: DsnNumber::zero(),
            pin_id: String::new(),
            p: DsnPoint::default(),
        }
    }
}

/// A component footprint.
#[derive(Debug, Clone, PartialEq)]
pub struct DsnImage {
    pub image_id: String,
    pub outlines: Vec<DsnShape>,
    pub pins: Vec<DsnPin>,
    pub keepouts: Vec<DsnKeepout>,
}

/// The model of a [`DsnImage`].
pub struct DsnImageView {
    pub image_id: Seq<char>,
    pub outlines: Seq<DsnShapeView>,
    pub pins: Seq<DsnPinView>,
    pub keepouts: Seq<DsnKeepoutView>,
}

impl View for DsnImage {
    type V = DsnImageView;

    open spec fn view(&self) -> DsnImageView {
        DsnImageView {
            image_id: self.image_id@,
            outlines: views(self.outlines@),
            pins: views(self.pins@),
            keepouts: views(self.keepouts@),
        }
    }
}

impl DsnImageView {
    /// The value that stands where the document names none.
    pub open spec fn blank() -> DsnImageView {
        DsnImageView {
            image_id: Seq::empty(),
            outlines: Seq::empty(),
            pins: Seq::empty(),
            keepouts: Seq::empty(),
        }
    }

    /// What holds of every value that the grammar yields: numbers where numbers
    /// are due, polygons of
    /// at least three points, paths of at least two, clearances of at least one type, pin
    /// references of two parts.
    pub open spec fn valid(self) -> bool {
        &&& forall|i: int| 0 <= i < self.outlines.len() ==> (#[trigger] self.outlines[i]).valid()
        &&& forall|i: int| 0 <= i < self.pins.len() ==> (#[trigger] self.pins[i]).valid()
        &&& forall|i: int| 0 <= i < self.keepouts.len() ==> (#[trigger] self.keepouts[i]).valid()
    }
}

impl Default for DsnImage {
    fn default() -> (r: DsnImage)
        ensures
            r@ == DsnImageView::blank(),
    {
        broadcast use lemma_views_empty;

        DsnImage {
            image_id: String::new(),
            outlines: Vec::new(),
            pins: Vec::new(),
            keepouts: Vec::new(),
        }
    }
}

/// One shape of a padstack.
#[derive(Debug, Clone, PartialEq)]
pub struct DsnPadstackShape {
    pub shape: DsnShape,
}

/// The model of a [`DsnPadstackShape`].
pub struct DsnPadstackShapeView {
    pub shape: DsnShapeView,
}

impl View for DsnPadstackShape {
    type V = DsnPadstackShapeView;

    open spec fn view(&self) -> DsnPadstackShapeView {
        DsnPadstackShapeView {
            shape: self.shape@,
        }
    }
}

impl DsnPadstackShapeView {
    /// The value that stands where the document names none.
    pub open spec fn blank() -> DsnPadstackShapeView {
        DsnPadstackShapeView {
            shape: DsnShapeView::blank(),
        }
    }

    /// What holds of every value that the grammar yields: numbers where numbers
    /// are due, polygons of
    /// at least three points, paths of at least two, clearances of at least one type, pin
    /// references of two parts.
    pub open spec fn valid(self) -> bool {
        &&& self.shape.valid()
    }
}

impl Default for DsnPadstackShape {
    fn default() -> (r: DsnPadstackShape)
        ensures
            r@ == DsnPadstackShapeView::blank(),
    {
        DsnPadstackShape {
            shape: DsnShape::default(),
        }
    }
}

/// A reusable pad geometry.
#[derive(Debug, Clone, PartialEq)]
pub struct DsnPadstack {
    pub padstack_id: String,
    pub attach: bool,
    pub shapes: Vec<DsnPadstackShape>,
}

/// The model of a [`DsnPadstack`].
pub struct DsnPadstackView {
    pub padstack_id: Seq<char>,
    pub attach: bool,
    pub shapes: Seq<DsnPadstackShapeView>,
}

impl View for DsnPadstack {
    type V = DsnPadstackView;

    open spec fn view(&self) -> DsnPadstackView {
        DsnPadstackView {
            padstack_id: self.padstack_id@,
            attach: self.attach,
            shapes: views(self.shapes@),
        }
    }
}

impl DsnPadstackView {
    /// The value that stands where the document names none.
    pub open spec fn blank() -> DsnPadstackView {
        DsnPadstackView {
            padstack_id: Seq::empty(),
            attach: false,
            shapes: Seq::empty(),
        }
    }

    /// What holds of every value that the grammar yields: numbers where numbers
    /// are due, polygons of
    /// at least three points, paths of at least two, clearances of at least one type, pin
    /// references of two parts.
    pub open spec fn valid(self) -> bool {
        &&& forall|i: int| 0 <= i < self.shapes.len() ==> (#[trigger] self.shapes[i]).valid()
    }
}

impl Default for DsnPadstack {
    fn default() -> (r: DsnPadstack)
        ensures
            r@ == DsnPadstackView::blank(),
    {
        broadcast use lemma_views_empty;

        DsnPadstack {
            padstack_id: String::new(),
            attach: false,
            shapes: Vec::new(),
        }
    }
}

/// The reusable part definitions of a design.
#[derive(Debug, Clone, PartialEq)]
pub struct DsnLibrary {
    pub images: Vec<DsnImage>,
    pub padstacks: Vec<DsnPadstack>,
}

/// The model of a [`DsnLibrary`].
pub struct DsnLibraryView {
    pub images: Seq<DsnImageView>,
    pub padstacks: Seq<DsnPadstackView>,
}

impl View for DsnLibrary {
    type V = DsnLibraryView;

    open spec fn view(&self) -> DsnLibraryView {
        DsnLibraryView {
            images: views(self.images@),
            padstacks: views(self.padstacks@),
        }
    }
}

impl DsnLibraryView {
    /// The value that stands where the document names none.
    pub open spec fn blank() -> DsnLibraryView {
        DsnLibraryView {
            images: Seq::empty(),
            padstacks: Seq::empty(),
        }
    }

    /// What holds of every value that the grammar yields: numbers where numbers
    /// are due, polygons of
    /// at least three points, paths of at least two, clearances of at least one type, pin
    /// references of two parts.
    pub open spec fn valid(self) -> bool {
        &&& forall|i: int| 0 <= i < self.images.len() ==> (#[trigger] self.images[i]).valid()
        &&& forall|i: int| 0 <= i < self.padstacks.len() ==> (#[trigger] self.padstacks[i]).valid()
    }
}

impl Default for DsnLibrary {
    fn default() -> (r: DsnLibrary)
        ensures
            r@ == DsnLibraryView::blank(),
    {
        broadcast use lemma_views_empty;

        DsnLibrary {
            images: Vec::new(),
            padstacks: Vec::new(),
        }
    }
}

/// A reference to one pin of one component.
#[derive(Debug, Clone, PartialEq)]
pub struct DsnPinRef {
    pub component_id: String,
    pub pin_id: String,
}

/// The model of a [`DsnPinRef`].
pub struct DsnPinRefView {
    pub component_id: Seq<char>,
    pub pin_id: Seq<char>,
}

impl View for DsnPinRef {
    type V = DsnPinRefView;

    open spec fn view(&self) -> DsnPinRefView {
        DsnPinRefView {
            component_id: self.component_id@,
            pin_id: self.pin_id@,
        }
    }
}

impl DsnPinRefView {
    /// The value that stands where the document names none.
    pub open spec fn blank() -> DsnPinRefView {
        DsnPinRefView {
            component_id: Seq::empty(),
            pin_id: Seq::empty(),
        }
    }

    /// What holds of every value that the grammar yields: a component and a
    /// pin, neither of them empty.
    pub open spec fn valid(self) -> bool {
        &&& self.component_id.len() > 0
        &&& self.pin_id.len() > 0
    }
}

impl Default for DsnPinRef {
    fn default() -> (r: DsnPinRef)
        ensures
            r@ == DsnPinRefView::blank(),
    {
        DsnPinRef {
            component_id: String::new(),
            pin_id: String::new(),
        }
    }
}

/// A named electrical connection.
#[derive(Debug, Clone, PartialEq)]
pub struct DsnNet {
    pub net_id: String,
    pub pins: Vec<DsnPinRef>,
}

/// The model of a [`DsnNet`].
pub struct DsnNetView {
    pub net_id: Seq<char>,
    pub pins: Seq<DsnPinRefView>,
}

impl View for DsnNet {
    type V = DsnNetView;

    open spec fn view(&self) -> DsnNetView {
        DsnNetView {
            net_id: self.net_id@,
            pins: views(self.pins@),
        }
    }
}

impl DsnNetView {
    /// The value that stands where the document names none.
    pub open spec fn blank() -> DsnNetView {
        DsnNetView {
            net_id: Seq::empty(),
            pins: Seq::empty(),
        }
    }

    /// What holds of every value that the grammar yields: pin references of two
    /// parts, neither of them empty.
    pub open spec fn valid(self) -> bool {
        &&& forall|i: int| 0 <= i < self.pins.len() ==> (#[trigger] self.pins[i]).valid()
    }
}

impl Default for DsnNet {
    fn default() -> (r: DsnNet)
        ensures
            r@ == DsnNetView::blank(),
    {
        broadcast use lemma_views_empty;

        DsnNet {
            net_id: String::new(),
            pins: Vec::new(),
        }
    }
}

/// A directive on how the nets of a class are routed.
#[derive(Debug, Clone, PartialEq)]
pub enum DsnCircuit {
    UseVia(String),
}

/// The model of a [`DsnCircuit`].
pub enum DsnCircuitView {
    UseVia(Seq<char>),
}

impl View for DsnCircuit {
    type V = DsnCircuitView;

    open spec fn view(&self) -> DsnCircuitView {
        match self {
            DsnCircuit::UseVia(x) => DsnCircuitView::UseVia(x@),
        }
    }
}

/// A spacing rule and the object pairs it applies to.
#[derive(Debug, Clone, PartialEq)]
pub struct DsnClearance {
    pub amount: DsnNumber,
    pub types: Vec<DsnClearanceType>,
}

/// The model of a [`DsnClearance`].
pub struct DsnClearanceView {
    pub amount: Seq<char>,
    pub types: Seq<DsnClearanceType>,
}

impl View for DsnClearance {
    type V = DsnClearanceView;

    open spec fn view(&self) -> DsnClearanceView {
        DsnClearanceView {
            amount: self.amount@,
            types: views(self.types@),
        }
    }
}

impl DsnClearanceView {
    /// The value that stands where the document names none.
    pub open spec fn blank() -> DsnClearanceView {
        DsnClearanceView {
            amount: DsnNumber::spec_zero(),
            types: Seq::empty(),
        }
    }

    /// What holds of every value that the grammar yields: at least one type,
    /// and a number for the amount.
    pub open spec fn valid(self) -> bool {
        &&& is_float_literal(self.amount)
        &&& self.types.len() >= 1
    }
}

impl Default for DsnClearance {
    fn default() -> (r: DsnClearance)
        ensures
            r@ == DsnClearanceView::blank(),
    {
        broadcast use lemma_views_empty;

        DsnClearance {
            amount: DsnNumber::zero(),
            types: Vec::new(),
        }
    }
}

/// A design constraint.
#[derive(Debug, Clone, PartialEq)]
pub enum DsnRule {
    Width(DsnNumber),
    Clearance(DsnClearance),
}

/// The model of a [`DsnRule`].
pub enum DsnRuleView {
    Width(Seq<char>),
    Clearance(DsnClearanceView),
}

impl View for DsnRule {
    type V = DsnRuleView;

    open spec fn view(&self) -> DsnRuleView {
        match self {
            DsnRule::Width(x) => DsnRuleView::Width(x@),
            DsnRule::Clearance(x) => DsnRuleView::Clearance(x@),
        }
    }
}

impl DsnRuleView {
    /// What holds of every value that the grammar yields.
    pub open spec fn valid(self) -> bool {
        match self {
            DsnRuleView::Width(x) => is_float_literal(x),
            DsnRuleView::Clearance(x) => x.valid(),
        }
    }
}

/// A named group of nets that share rules.
#[derive(Debug, Clone, PartialEq)]
pub struct DsnClass {
    pub class_id: String,
    pub net_ids: Vec<String>,
    pub circuits: Vec<DsnCircuit>,
    pub rules: Vec<DsnRule>,
}

/// The model of a [`DsnClass`].
pub struct DsnClassView {
    pub class_id: Seq<char>,
    pub net_ids: Seq<Seq<char>>,
    pub circuits: Seq<DsnCircuitView>,
    pub rules: Seq<DsnRuleView>,
}

impl View for DsnClass {
    type V = DsnClassView;

    open spec fn view(&self) -> DsnClassView {
        DsnClassView {
            class_id: self.class_id@,
            net_ids: views(self.net_ids@),
            circuits: views(self.circuits@),
            rules: views(self.rules@),
        }
    }
}

impl DsnClassView {
    /// The value that stands where the document names none.
    pub open spec fn blank() -> DsnClassView {
        DsnClassView {
            class_id: Seq::empty(),
            net_ids: Seq::empty(),
            circuits: Seq::empty(),
            rules: Seq::empty(),
        }
    }

    /// What holds of every value that the grammar yields: numbers where numbers
    /// are due, polygons of
    /// at least three points, paths of at least two, clearances of at least one type, pin
    /// references of two parts.
    pub open spec fn valid(self) -> bool {
        &&& forall|i: int| 0 <= i < self.rules.len() ==> (#[trigger] self.rules[i]).valid()
    }
}

impl Default for DsnClass {
    fn default() -> (r: DsnClass)
        ensures
            r@ == DsnClassView::blank(),
    {
        broadcast use lemma_views_empty;

        DsnClass {
            class_id: String::new(),
            net_ids: Vec::new(),
            circuits: Vec::new(),
            rules: Vec::new(),
        }
    }
}

/// The electrical connectivity of a design.
#[derive(Debug, Clone, PartialEq)]
pub struct DsnNetwork {
    pub classes: Vec<DsnClass>,
    pub nets: Vec<DsnNet>,
}

/// The model of a [`DsnNetwork`].
pub struct DsnNetworkView {
    pub classes: Seq<DsnClassView>,
    pub nets: Seq<DsnNetView>,
}

impl View for DsnNetwork {
    type V = DsnNetworkView;

    open spec fn view(&self) -> DsnNetworkView {
        DsnNetworkView {
            classes: views(self.classes@),
            nets: views(self.nets@),
        }
    }
}

impl DsnNetworkView {
    /// The value that stands where the document names none.
    pub open spec fn blank() -> DsnNetworkView {
        DsnNetworkView {
            classes: Seq::empty(),
            nets: Seq::empty(),
        }
    }

    /// What holds of every value that the grammar yields: numbers where numbers
    /// are due, polygons of
    /// at least three points, paths of at least two, clearances of at least one type, pin
    /// references of two parts.
    pub open spec fn valid(self) -> bool {
        &&& forall|i: int| 0 <= i < self.classes.len() ==> (#[trigger] self.classes[i]).valid()
        &&& forall|i: int| 0 <= i < self.nets.len() ==> (#[trigger] self.nets[i]).valid()
    }
}

impl Default for DsnNetwork {
    fn default() -> (r: DsnNetwork)
        ensures
            r@ == DsnNetworkView::blank(),
    {
        broadcast use lemma_views_empty;

        DsnNetwork {
            classes: Vec::new(),
            nets: Vec::new(),
        }
    }
}

/// One placed instance of a component.
#[derive(Debug, Clone, PartialEq)]
pub struct DsnPlacementRef {
    pub component_id: String,
    pub p: DsnPoint,
    pub side: DsnSide,
    pub rotation: DsnNumber,
    pub lock_type: DsnLockType,
    pub part_number: String,
}

/// The model of a [`DsnPlacementRef`].
pub struct DsnPlacementRefView {
    pub component_id: Seq<char>,
    pub p: DsnPointView,
    pub side: DsnSide,
    pub rotation: Seq<char>,
    pub lock_type: DsnLockType,
    pub part_number: Seq<char>,
}

impl View for DsnPlacementRef {
    type V = DsnPlacementRefView;

    open spec fn view(&self) -> DsnPlacementRefView {
        DsnPlacementRefView {
            component_id: self.component_id@,
            p: self.p@,
            side: self.side,
            rotation: self.rotation@,
            lock_type: self.lock_type,
            part_number: self.part_number@,
        }
    }
}

impl DsnPlacementRefView {
    /// The value that stands where the document names none.
    pub open spec fn blank() -> DsnPlacementRefView {
        DsnPlacementRefView {
            component_id: Seq::empty(),
            p: DsnPointView::blank(),
            side: DsnSide::blank(),
            rotation: DsnNumber::spec_zero(),
            lock_type: DsnLockType::blank(),
            part_number: Seq::empty(),
        }
    }

    /// What holds of every value that the grammar yields: numbers where numbers are due.
    pub open spec fn valid(self) -> bool {
        &&& self.p.valid()
        &&& is_float_literal(self.rotation)
    }
}

impl Default for DsnPlacementRef {
    fn default() -> (r: DsnPlacementRef)
        ensures
            r@ == DsnPlacementRefView::blank(),
    {
        DsnPlacementRef {
            component_id: String::new(),
            p: DsnPoint::default(),
            side: DsnSide::default(),
            rotation: DsnNumber::zero(),
            lock_type: DsnLockType::default(),
            part_number: String::new(),
        }
    }
}

/// The placed instances that share one footprint.
#[derive(Debug, Clone, PartialEq)]
pub struct DsnComponent {
    pub image_id: String,
    pub refs: Vec<DsnPlacementRef>,
}

/// The model of a [`DsnComponent`].
pub struct DsnComponentView {
    pub image_id: Seq<char>,
    pub refs: Seq<DsnPlacementRefView>,
}

impl View for DsnComponent {
    type V = DsnComponentView;

    open spec fn view(&self) -> DsnComponentView {
        DsnComponentView {
            image_id: self.image_id@,
            refs: views(self.refs@),
        }
    }
}

impl DsnComponentView {
    /// The value that stands where the document names none.
    pub open spec fn blank() -> DsnComponentView {
        DsnComponentView {
            image_id: Seq::empty(),
            refs: Seq::empty(),
        }
    }

    /// What holds of every value that the grammar yields: numbers where numbers
    /// are due, polygons of
    /// at least three points, paths of at least two, clearances of at least one type, pin
    /// references of two parts.
    pub open spec fn valid(self) -> bool {
        &&& forall|i: int| 0 <= i < self.refs.len() ==> (#[trigger] self.refs[i]).valid()
    }
}

impl Default for DsnComponent {
    fn default() -> (r: DsnComponent)
        ensures
            r@ == DsnComponentView::blank(),
    {
        broadcast use lemma_views_empty;

        DsnComponent {
            image_id: String::new(),
            refs: Vec::new(),
        }
    }
}

/// The components placed on the board.
#[derive(Debug, Clone, PartialEq)]
pub struct DsnPlacement {
    pub components: Vec<DsnComponent>,
}

/// The model of a [`DsnPlacement`].
pub struct DsnPlacementView {
    pub components: Seq<DsnComponentView>,
}

impl View for DsnPlacement {
    type V = DsnPlacementView;

    open spec fn view(&self) -> DsnPlacementView {
        DsnPlacementView {
            components: views(self.components@),
        }
    }
}

impl DsnPlacementView {
    /// The value that stands where the document names none.
    pub open spec fn blank() -> DsnPlacementView {
        DsnPlacementView {
            components: Seq::empty(),
        }
    }

    /// What holds of every value that the grammar yields: numbers where numbers
    /// are due, polygons of
    /// at least three points, paths of at least two, clearances of at least one type, pin
    /// references of two parts.
    pub open spec fn valid(self) -> bool {
        &&& forall|i: int| 0 <= i < self.components.len() ==> (#[trigger] self.components[i]).valid(
        )
    }
}

impl Default for DsnPlacement {
    fn default() -> (r: DsnPlacement)
        ensures
            r@ == DsnPlacementView::blank(),
    {
        broadcast use lemma_views_empty;

        DsnPlacement {
            components: Vec::new(),
        }
    }
}

/// One layer of the board.
#[derive(Debug, Clone, PartialEq)]
pub struct DsnLayer {
    pub layer_name: String,
    pub layer_type: DsnLayerType,
}

/// The model of a [`DsnLayer`].
pub struct DsnLayerView {
    pub layer_name: Seq<char>,
    pub layer_type: DsnLayerType,
}

impl View for DsnLayer {
    type V = DsnLayerView;

    open spec fn view(&self) -> DsnLayerView {
        DsnLayerView {
            layer_name: self.layer_name@,
            layer_type: self.layer_type,
        }
    }
}

impl DsnLayerView {
    /// The value that stands where the document names none.
    pub open spec fn blank() -> DsnLayerView {
        DsnLayerView {
            layer_name: Seq::empty(),
            layer_type: DsnLayerType::blank(),
        }
    }
}

impl Default for DsnLayer {
    fn default() -> (r: DsnLayer)
        ensures
            r@ == DsnLayerView::blank(),
    {
        DsnLayer {
            layer_name: String::new(),
            layer_type: DsnLayerType::default(),
        }
    }
}

/// The physical structure of the board.
#[derive(Debug, Clone, PartialEq)]
pub struct DsnStructure {
    pub boundaries: Vec<DsnShape>,
    pub keepouts: Vec<DsnKeepout>,
    pub layers: Vec<DsnLayer>,
    pub planes: Vec<DsnPlane>,
    pub rules: Vec<DsnRule>,
    pub vias: Vec<String>,
}

/// The model of a [`DsnStructure`].
pub struct DsnStructureView {
    pub boundaries: Seq<DsnShapeView>,
    pub keepouts: Seq<DsnKeepoutView>,
    pub layers: Seq<DsnLayerView>,
    pub planes: Seq<DsnPlane>,
    pub rules: Seq<DsnRuleView>,
    pub vias: Seq<Seq<char>>,
}

impl View for DsnStructure {
    type V = DsnStructureView;

    open spec fn view(&self) -> DsnStructureView {
        DsnStructureView {
            boundaries: views(self.boundaries@),
            keepouts: views(self.keepouts@),
            layers: views(self.layers@),
            planes: views(self.planes@),
            rules: views(self.rules@),
            vias: views(self.vias@),
        }
    }
}

impl DsnStructureView {
    /// The value that stands where the document names none.
    pub open spec fn blank() -> DsnStructureView {
        DsnStructureView {
            boundaries: Seq::empty(),
            keepouts: Seq::empty(),
            layers: Seq::empty(),
            planes: Seq::empty(),
            rules: Seq::empty(),
            vias: Seq::empty(),
        }
    }

    /// What holds of every value that the grammar yields: numbers where numbers
    /// are due, polygons of
    /// at least three points, paths of at least two, clearances of at least one type, pin
    /// references of two parts.
    pub open spec fn valid(self) -> bool {
        &&& forall|i: int| 0 <= i < self.boundaries.len() ==> (#[trigger] self.boundaries[i]).valid(
        )
        &&& forall|i: int| 0 <= i < self.keepouts.len() ==> (#[trigger] self.keepouts[i]).valid()
        &&& forall|i: int| 0 <= i < self.rules.len() ==> (#[trigger] self.rules[i]).valid()
    }
}

impl Default for DsnStructure {
    fn default() -> (r: DsnStructure)
        ensures
            r@ == DsnStructureView::blank(),
    {
        broadcast use lemma_views_empty;

        DsnStructure {
            boundaries: Vec::new(),
            keepouts: Vec::new(),
            layers: Vec::new(),
            planes: Vec::new(),
            rules: Vec::new(),
            vias: Vec::new(),
        }
    }
}

/// The precision of coordinates: `amount` steps per `dimension`.
#[derive(Debug, Clone, PartialEq)]
pub struct DsnResolution {
    pub dimension: DsnDimensionUnit,
    pub amount: i32,
}

/// The model of a [`DsnResolution`].
pub struct DsnResolutionView {
    pub dimension: DsnDimensionUnit,
    pub amount: i32,
}

impl View for DsnResolution {
    type V = DsnResolutionView;

    open spec fn view(&self) -> DsnResolutionView {
        DsnResolutionView {
            dimension: self.dimension,
            amount: self.amount,
        }
    }
}

impl DsnResolutionView {
    /// The value that stands where the document names none.
    pub open spec fn blank() -> DsnResolutionView {
        DsnResolutionView {
            dimension: DsnDimensionUnit::blank(),
            amount: 0,
        }
    }
}

impl Default for DsnResolution {
    fn default() -> (r: DsnResolution)
        ensures
            r@ == DsnResolutionView::blank(),
    {
        DsnResolution {
            dimension: DsnDimensionUnit::default(),
            amount: 0,
        }
    }
}

/// The unit of the coordinates of a design.
#[derive(Debug, Clone, PartialEq)]
pub struct DsnUnit {
    pub dimension: DsnDimensionUnit,
}

/// The model of a [`DsnUnit`].
pub struct DsnUnitView {
    pub dimension: DsnDimensionUnit,
}

impl View for DsnUnit {
    type V = DsnUnitView;

    open spec fn view(&self) -> DsnUnitView {
        DsnUnitView {
            dimension: self.dimension,
        }
    }
}

impl DsnUnitView {
    /// The value that stands where the document names none.
    pub open spec fn blank() -> DsnUnitView {
        DsnUnitView {
            dimension: DsnDimensionUnit::blank(),
        }
    }
}

impl Default for DsnUnit {
    fn default() -> (r: DsnUnit)
        ensures
            r@ == DsnUnitView::blank(),
    {
        DsnUnit {
            dimension: DsnDimensionUnit::default(),
        }
    }
}

/// The routed geometry of a design.
#[derive(Debug, Clone, PartialEq)]
pub struct DsnWiring {
    pub wires: Vec<DsnWire>,
    pub vias: Vec<DsnVia>,
}

/// The model of a [`DsnWiring`].
pub struct DsnWiringView {
    pub wires: Seq<DsnWire>,
    pub vias: Seq<DsnVia>,
}

impl View for DsnWiring {
    type V = DsnWiringView;

    open spec fn view(&self) -> DsnWiringView {
        DsnWiringView {
            wires: views(self.wires@),
            vias: views(self.vias@),
        }
    }
}

impl DsnWiringView {
    /// The value that stands where the document names none.
    pub open spec fn blank() -> DsnWiringView {
        DsnWiringView {
            wires: Seq::empty(),
            vias: Seq::empty(),
        }
    }
}

impl Default for DsnWiring {
    fn default() -> (r: DsnWiring)
        ensures
            r@ == DsnWiringView::blank(),
    {
        broadcast use lemma_views_empty;

        DsnWiring {
            wires: Vec::new(),
            vias: Vec::new(),
        }
    }
}

/// A whole design: the root of the document.
#[derive(Debug, Clone, PartialEq)]
pub struct DsnPcb {
    pub pcb_id: String,
    pub library: DsnLibrary,
    pub network: DsnNetwork,
    pub placement: DsnPlacement,
    pub resolution: DsnResolution,
    pub structure: DsnStructure,
    pub unit: DsnUnit,
    pub wiring: DsnWiring,
}

/// The model of a [`DsnPcb`].
pub struct DsnPcbView {
    pub pcb_id: Seq<char>,
    pub library: DsnLibraryView,
    pub network: DsnNetworkView,
    pub placement: DsnPlacementView,
    pub resolution: DsnResolutionView,
    pub structure: DsnStructureView,
    pub unit: DsnUnitView,
    pub wiring: DsnWiringView,
}

impl View for DsnPcb {
    type V = DsnPcbView;

    open spec fn view(&self) -> DsnPcbView {
        DsnPcbView {
            pcb_id: self.pcb_id@,
            library: self.library@,
            network: self.network@,
            placement: self.placement@,
            resolution: self.resolution@,
            structure: self.structure@,
            unit: self.unit@,
            wiring: self.wiring@,
        }
    }
}

impl DsnPcbView {
    /// The value that stands where the document names none.
    pub open spec fn blank() -> DsnPcbView {
        DsnPcbView {
            pcb_id: Seq::empty(),
            library: DsnLibraryView::blank(),
            network: DsnNetworkView::blank(),
            placement: DsnPlacementView::blank(),
            resolution: DsnResolutionView::blank(),
            structure: DsnStructureView::blank(),
            unit: DsnUnitView::blank(),
            wiring: DsnWiringView::blank(),
        }
    }

    /// What holds of every value that the grammar yields: a name that is not
    /// empty, and what holds of its sections.
    pub open spec fn valid(self) -> bool {
        &&& self.library.valid()
        &&& self.network.valid()
        &&& self.placement.valid()
        &&& self.structure.valid()
        &&& self.pcb_id.len() > 0
    }
}

impl Default for DsnPcb {
    fn default() -> (r: DsnPcb)
        ensures
            r@ == DsnPcbView::blank(),
    {
        DsnPcb {
            pcb_id: String::new(),
            library: DsnLibrary::default(),
            network: DsnNetwork::default(),
            placement: DsnPlacement::default(),
            resolution: DsnResolution::default(),
            structure: DsnStructure::default(),
            unit: DsnUnit::default(),
            wiring: DsnWiring::default(),
        }
    }
}

} // verus!

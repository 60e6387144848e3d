//! What holds of the grammar on every sequence of tokens.
use crate::error::ParseErrorView;
use crate::grammar::{
    Input, Parsed, Skipped, Step, attach_form, boundary, circle, circuit, circuit_items,
    circuit_step, class, class_items, class_step, clearance, clearance_rule, clearance_type_form,
    clearance_types_items, clearance_types_step, component, component_items, component_step,
    consumes_attach_form, consumes_boundary, consumes_circuit, consumes_class,
    consumes_clearance_rule, consumes_clearance_type_form, consumes_component, consumes_ignored,
    consumes_image, consumes_keepout, consumes_layer, consumes_layer_type_form, consumes_library,
    consumes_lock_type_form, consumes_net, consumes_network, consumes_outline, consumes_padstack,
    consumes_padstack_shape, consumes_part_number_form, consumes_pin, consumes_pins_form,
    consumes_placement, consumes_placement_ref, consumes_plane, consumes_resolution,
    consumes_rule, consumes_shape, consumes_skip_to_close, consumes_structure, consumes_unit,
    consumes_use_via_form, consumes_via, consumes_via_names_form, consumes_width_form,
    consumes_wire, consumes_wiring, document, enter, ignore, ignored, image, image_items,
    image_step, keepout, keepout_items, keepout_step, last_hyphen, layer, layer_items,
    layer_step, layer_type_form, leave, library, library_items, library_step, lock_type_form,
    names_items, names_step, net, net_items, net_step, network, network_items, network_step,
    outline, padstack, padstack_items, padstack_shape, padstack_step, part_number_form, path,
    pcb, pcb_items, pcb_step, pin, pin_refs_items, pin_refs_step, pins_form, placement,
    placement_items, placement_ref, placement_ref_items, placement_ref_step, placement_step,
    plane, points_items, points_step, polygon, qarc, rect, resolution, rotate_form, rule,
    rule_items, rule_step, shape, skip_to_close, split_pin_ref, structure, structure_items,
    structure_step, unit, use_via_form, via_names_form, width_form, window, wire, wiring,
    wiring_items, wiring_step,
};
use crate::number::{is_decimal, is_float_literal, leading_digits, unsigned, DsnNumber};
use crate::token::{Tok, TokenView};
use crate::types::{
    DsnCircuitView, DsnClassView, DsnClearanceType, DsnComponentView, DsnImageView,
    DsnKeepoutView, DsnLayerView, DsnLibraryView, DsnNetView, DsnNetworkView, DsnPadstackView,
    DsnPathView, DsnPcbView, DsnPinRefView, DsnPlacementRefView, DsnPlacementView, DsnPointView,
    DsnPolygonView, DsnRectView, DsnRuleView, DsnStructureView, DsnWiringView, lemma_same_span,
    span,
};
use vstd::prelude::*;

verus! {

// Locality: a rule that succeeds has read only the tokens it took. Whatever
// is put behind them, it yields the same.

/// Tokens put behind the tokens that a rule read do not change what it
/// yields: they are handed on behind what the rule left.
pub open spec fn framed<V>(short: Parsed<V>, long: Parsed<V>, x: Input) -> bool {
    short matches Ok((v, rest)) ==> long == Ok::<(V, Input), ParseErrorView>((v, rest + x))
}

/// The same for a rule that yields no value.
pub open spec fn framed_skip(short: Skipped, long: Skipped, x: Input) -> bool {
    short matches Ok(rest) ==> long == Ok::<Input, ParseErrorView>(rest + x)
}

/// Dropping the first token of `a` and putting `x` behind can be done in
/// either order.
pub broadcast proof fn lemma_skip_concat(a: Input, x: Input)
    requires
        a.len() > 0,
    ensures
        #[trigger] (a + x).skip(1) == a.skip(1) + x,
{
    assert((a + x).skip(1) =~= a.skip(1) + x);
}

/// [`skip_to_close`] reads only the tokens that it takes.
pub broadcast proof fn frame_skip_to_close(a: Input, x: Input, depth: nat)
    ensures
        framed_skip(skip_to_close(a, depth), #[trigger] skip_to_close(a + x, depth), x),
    decreases a.len(),
{
    broadcast use lemma_skip_concat;

    if a.len() > 0 {
        frame_skip_to_close(a.skip(1), x, depth);
        frame_skip_to_close(a.skip(1), x, depth + 1);
        if depth > 0 {
            frame_skip_to_close(a.skip(1), x, (depth - 1) as nat);
        }
    }
}

/// [`ignore`] reads only the tokens that it takes.
pub broadcast proof fn frame_ignore(a: Input, x: Input)
    ensures
        framed_skip(ignore(a), #[trigger] ignore(a + x), x),
{
    broadcast use lemma_skip_concat, frame_skip_to_close;
}

/// [`ignored`] reads only the tokens that it takes.
pub broadcast proof fn frame_ignored<A>(a: Input, x: Input, acc: A)
    ensures
        framed(ignored(a, acc), #[trigger] ignored(a + x, acc), x),
{
    broadcast use frame_ignore;
}

/// [`via`](crate::grammar::via) reads only the tokens that it takes.
pub broadcast proof fn frame_via(a: Input, x: Input)
    ensures
        framed(crate::grammar::via(a), #[trigger] crate::grammar::via(a + x), x),
{
    broadcast use lemma_skip_concat;
}

/// [`wire`] reads only the tokens that it takes.
pub broadcast proof fn frame_wire(a: Input, x: Input)
    ensures
        framed(wire(a), #[trigger] wire(a + x), x),
{
    broadcast use lemma_skip_concat;
}

/// [`plane`] reads only the tokens that it takes.
pub broadcast proof fn frame_plane(a: Input, x: Input)
    ensures
        framed(plane(a), #[trigger] plane(a + x), x),
{
    broadcast use lemma_skip_concat;
}

/// [`window`] reads only the tokens that it takes.
pub broadcast proof fn frame_window(a: Input, x: Input)
    ensures
        framed(window(a), #[trigger] window(a + x), x),
{
    broadcast use lemma_skip_concat;
}

/// [`resolution`] reads only the tokens that it takes.
pub broadcast proof fn frame_resolution(a: Input, x: Input)
    ensures
        framed(resolution(a), #[trigger] resolution(a + x), x),
{
    broadcast use lemma_skip_concat;
}

/// [`unit`] reads only the tokens that it takes.
pub broadcast proof fn frame_unit(a: Input, x: Input)
    ensures
        framed(unit(a), #[trigger] unit(a + x), x),
{
    broadcast use lemma_skip_concat;
}

/// [`rect`] reads only the tokens that it takes.
pub broadcast proof fn frame_rect(a: Input, x: Input)
    ensures
        framed(rect(a), #[trigger] rect(a + x), x),
{
    broadcast use lemma_skip_concat;
}

/// [`circle`] reads only the tokens that it takes.
pub broadcast proof fn frame_circle(a: Input, x: Input)
    ensures
        framed(circle(a), #[trigger] circle(a + x), x),
{
    broadcast use lemma_skip_concat;
}

/// [`qarc`] reads only the tokens that it takes.
pub broadcast proof fn frame_qarc(a: Input, x: Input)
    ensures
        framed(qarc(a), #[trigger] qarc(a + x), x),
{
    broadcast use lemma_skip_concat;
}

/// [`points_items`] reads only the tokens that it takes.
pub broadcast proof fn frame_points_items(a: Input, x: Input, acc: Seq<DsnPointView>)
    ensures
        framed(points_items(a, acc), #[trigger] points_items(a + x, acc), x),
    decreases a.len(),
{
    broadcast use lemma_skip_concat;

    match points_step(a, acc) {
        Step::More(next, rest) => {
            frame_points_items(rest, x, next);
        },
        _ => {},
    }
}

/// [`polygon`] reads only the tokens that it takes.
pub broadcast proof fn frame_polygon(a: Input, x: Input)
    ensures
        framed(polygon(a), #[trigger] polygon(a + x), x),
{
    broadcast use lemma_skip_concat, frame_points_items;
}

/// [`path`] reads only the tokens that it takes.
pub broadcast proof fn frame_path(a: Input, x: Input)
    ensures
        framed(path(a), #[trigger] path(a + x), x),
{
    broadcast use lemma_skip_concat, frame_points_items;
}

/// [`shape`] reads only the tokens that it takes.
pub broadcast proof fn frame_shape(a: Input, x: Input)
    ensures
        framed(shape(a), #[trigger] shape(a + x), x),
{
    broadcast use
        lemma_skip_concat,
        frame_circle,
        frame_path,
        frame_polygon,
        frame_qarc,
        frame_rect,
    ;
}

/// [`boundary`] reads only the tokens that it takes.
pub broadcast proof fn frame_boundary(a: Input, x: Input)
    ensures
        framed(boundary(a), #[trigger] boundary(a + x), x),
{
    broadcast use lemma_skip_concat, frame_shape;
}

/// [`outline`] reads only the tokens that it takes.
pub broadcast proof fn frame_outline(a: Input, x: Input)
    ensures
        framed(outline(a), #[trigger] outline(a + x), x),
{
    broadcast use lemma_skip_concat, frame_shape;
}

/// [`padstack_shape`] reads only the tokens that it takes.
pub broadcast proof fn frame_padstack_shape(a: Input, x: Input)
    ensures
        framed(padstack_shape(a), #[trigger] padstack_shape(a + x), x),
{
    broadcast use lemma_skip_concat, frame_shape;
}

/// [`keepout_items`] reads only the tokens that it takes.
pub broadcast proof fn frame_keepout_items(a: Input, x: Input, acc: DsnKeepoutView)
    ensures
        framed(keepout_items(a, acc), #[trigger] keepout_items(a + x, acc), x),
    decreases a.len(),
{
    broadcast use lemma_skip_concat, frame_shape, consumes_shape;

    match keepout_step(a, acc) {
        Step::More(next, rest) => {
            frame_keepout_items(rest, x, next);
        },
        _ => {},
    }
}

/// [`keepout`] reads only the tokens that it takes.
pub broadcast proof fn frame_keepout(a: Input, x: Input)
    ensures
        framed(keepout(a), #[trigger] keepout(a + x), x),
{
    broadcast use lemma_skip_concat, frame_keepout_items;
}

/// [`rotate_form`] reads only the tokens that it takes.
pub broadcast proof fn frame_rotate_form(a: Input, x: Input)
    ensures
        framed(rotate_form(a), #[trigger] rotate_form(a + x), x),
{
    broadcast use lemma_skip_concat;
}

/// [`pin`] reads only the tokens that it takes.
pub broadcast proof fn frame_pin(a: Input, x: Input)
    ensures
        framed(pin(a), #[trigger] pin(a + x), x),
{
    broadcast use lemma_skip_concat;
}

/// [`image_items`] reads only the tokens that it takes.
pub broadcast proof fn frame_image_items(a: Input, x: Input, acc: DsnImageView)
    ensures
        framed(image_items(a, acc), #[trigger] image_items(a + x, acc), x),
    decreases a.len(),
{
    broadcast use
        lemma_skip_concat,
        frame_outline,
        frame_pin,
        frame_keepout,
        consumes_outline,
        consumes_pin,
        consumes_keepout,
    ;

    match image_step(a, acc) {
        Step::More(next, rest) => {
            frame_image_items(rest, x, next);
        },
        _ => {},
    }
}

/// [`image`] reads only the tokens that it takes.
pub broadcast proof fn frame_image(a: Input, x: Input)
    ensures
        framed(image(a), #[trigger] image(a + x), x),
{
    broadcast use lemma_skip_concat, frame_image_items;
}

/// [`attach_form`] reads only the tokens that it takes.
pub broadcast proof fn frame_attach_form(a: Input, x: Input)
    ensures
        framed(attach_form(a), #[trigger] attach_form(a + x), x),
{
    broadcast use lemma_skip_concat;
}

/// [`padstack_items`] reads only the tokens that it takes.
pub broadcast proof fn frame_padstack_items(a: Input, x: Input, acc: DsnPadstackView)
    ensures
        framed(padstack_items(a, acc), #[trigger] padstack_items(a + x, acc), x),
    decreases a.len(),
{
    broadcast use
        lemma_skip_concat,
        frame_attach_form,
        frame_padstack_shape,
        consumes_attach_form,
        consumes_padstack_shape,
    ;

    match padstack_step(a, acc) {
        Step::More(next, rest) => {
            frame_padstack_items(rest, x, next);
        },
        _ => {},
    }
}

/// [`padstack`] reads only the tokens that it takes.
pub broadcast proof fn frame_padstack(a: Input, x: Input)
    ensures
        framed(padstack(a), #[trigger] padstack(a + x), x),
{
    broadcast use lemma_skip_concat, frame_padstack_items;
}

/// [`library_items`] reads only the tokens that it takes.
pub broadcast proof fn frame_library_items(a: Input, x: Input, acc: DsnLibraryView)
    ensures
        framed(library_items(a, acc), #[trigger] library_items(a + x, acc), x),
    decreases a.len(),
{
    broadcast use lemma_skip_concat, frame_image, frame_padstack, consumes_image, consumes_padstack;

    match library_step(a, acc) {
        Step::More(next, rest) => {
            frame_library_items(rest, x, next);
        },
        _ => {},
    }
}

/// [`library`] reads only the tokens that it takes.
pub broadcast proof fn frame_library(a: Input, x: Input)
    ensures
        framed(library(a), #[trigger] library(a + x), x),
{
    broadcast use lemma_skip_concat, frame_library_items;
}

/// [`pin_refs_items`] reads only the tokens that it takes.
pub broadcast proof fn frame_pin_refs_items(a: Input, x: Input, acc: Seq<DsnPinRefView>)
    ensures
        framed(pin_refs_items(a, acc), #[trigger] pin_refs_items(a + x, acc), x),
    decreases a.len(),
{
    broadcast use lemma_skip_concat;

    match pin_refs_step(a, acc) {
        Step::More(next, rest) => {
            frame_pin_refs_items(rest, x, next);
        },
        _ => {},
    }
}

/// [`pins_form`] reads only the tokens that it takes.
pub broadcast proof fn frame_pins_form(a: Input, x: Input)
    ensures
        framed(pins_form(a), #[trigger] pins_form(a + x), x),
{
    broadcast use lemma_skip_concat, frame_pin_refs_items;
}

/// [`net_items`] reads only the tokens that it takes.
pub broadcast proof fn frame_net_items(a: Input, x: Input, acc: DsnNetView)
    ensures
        framed(net_items(a, acc), #[trigger] net_items(a + x, acc), x),
    decreases a.len(),
{
    broadcast use lemma_skip_concat, frame_pins_form, consumes_pins_form;

    match net_step(a, acc) {
        Step::More(next, rest) => {
            frame_net_items(rest, x, next);
        },
        _ => {},
    }
}

/// [`net`] reads only the tokens that it takes.
pub broadcast proof fn frame_net(a: Input, x: Input)
    ensures
        framed(net(a), #[trigger] net(a + x), x),
{
    broadcast use lemma_skip_concat, frame_net_items;
}

/// [`use_via_form`] reads only the tokens that it takes.
pub broadcast proof fn frame_use_via_form(a: Input, x: Input)
    ensures
        framed(use_via_form(a), #[trigger] use_via_form(a + x), x),
{
    broadcast use lemma_skip_concat;
}

/// [`circuit_items`] reads only the tokens that it takes.
pub broadcast proof fn frame_circuit_items(a: Input, x: Input, acc: Seq<DsnCircuitView>)
    ensures
        framed(circuit_items(a, acc), #[trigger] circuit_items(a + x, acc), x),
    decreases a.len(),
{
    broadcast use lemma_skip_concat, frame_use_via_form, consumes_use_via_form;

    match circuit_step(a, acc) {
        Step::More(next, rest) => {
            frame_circuit_items(rest, x, next);
        },
        _ => {},
    }
}

/// [`circuit`] reads only the tokens that it takes.
pub broadcast proof fn frame_circuit(a: Input, x: Input)
    ensures
        framed(circuit(a), #[trigger] circuit(a + x), x),
{
    broadcast use lemma_skip_concat, frame_circuit_items;
}

/// [`clearance_type_form`] reads only the tokens that it takes.
pub broadcast proof fn frame_clearance_type_form(a: Input, x: Input)
    ensures
        framed(clearance_type_form(a), #[trigger] clearance_type_form(a + x), x),
{
    broadcast use lemma_skip_concat;
}

/// [`clearance_types_items`] reads only the tokens that it takes.
pub broadcast proof fn frame_clearance_types_items(a: Input, x: Input, acc: Seq<DsnClearanceType>)
    ensures
        framed(clearance_types_items(a, acc), #[trigger] clearance_types_items(a + x, acc), x),
    decreases a.len(),
{
    broadcast use lemma_skip_concat, frame_clearance_type_form, consumes_clearance_type_form;

    match clearance_types_step(a, acc) {
        Step::More(next, rest) => {
            frame_clearance_types_items(rest, x, next);
        },
        _ => {},
    }
}

/// [`clearance`] reads only the tokens that it takes.
pub broadcast proof fn frame_clearance(a: Input, x: Input)
    ensures
        framed(clearance(a), #[trigger] clearance(a + x), x),
{
    broadcast use lemma_skip_concat, frame_clearance_types_items;
}

/// [`width_form`] reads only the tokens that it takes.
pub broadcast proof fn frame_width_form(a: Input, x: Input)
    ensures
        framed(width_form(a), #[trigger] width_form(a + x), x),
{
    broadcast use lemma_skip_concat;
}

/// [`clearance_rule`] reads only the tokens that it takes.
pub broadcast proof fn frame_clearance_rule(a: Input, x: Input)
    ensures
        framed(clearance_rule(a), #[trigger] clearance_rule(a + x), x),
{
    broadcast use lemma_skip_concat, frame_clearance;
}

/// [`rule_items`] reads only the tokens that it takes.
pub broadcast proof fn frame_rule_items(a: Input, x: Input, acc: Seq<DsnRuleView>)
    ensures
        framed(rule_items(a, acc), #[trigger] rule_items(a + x, acc), x),
    decreases a.len(),
{
    broadcast use
        lemma_skip_concat,
        frame_width_form,
        frame_clearance_rule,
        consumes_width_form,
        consumes_clearance_rule,
    ;

    match rule_step(a, acc) {
        Step::More(next, rest) => {
            frame_rule_items(rest, x, next);
        },
        _ => {},
    }
}

/// [`rule`] reads only the tokens that it takes.
pub broadcast proof fn frame_rule(a: Input, x: Input)
    ensures
        framed(rule(a), #[trigger] rule(a + x), x),
{
    broadcast use lemma_skip_concat, frame_rule_items;
}

/// [`class_items`] reads only the tokens that it takes.
pub broadcast proof fn frame_class_items(a: Input, x: Input, acc: DsnClassView)
    ensures
        framed(class_items(a, acc), #[trigger] class_items(a + x, acc), x),
    decreases a.len(),
{
    broadcast use lemma_skip_concat, frame_circuit, frame_rule, consumes_circuit, consumes_rule;

    match class_step(a, acc) {
        Step::More(next, rest) => {
            frame_class_items(rest, x, next);
        },
        _ => {},
    }
}

/// [`class`] reads only the tokens that it takes.
pub broadcast proof fn frame_class(a: Input, x: Input)
    ensures
        framed(class(a), #[trigger] class(a + x), x),
{
    broadcast use lemma_skip_concat, frame_class_items;
}

/// [`network_items`] reads only the tokens that it takes.
pub broadcast proof fn frame_network_items(a: Input, x: Input, acc: DsnNetworkView)
    ensures
        framed(network_items(a, acc), #[trigger] network_items(a + x, acc), x),
    decreases a.len(),
{
    broadcast use lemma_skip_concat, frame_class, frame_net, consumes_class, consumes_net;

    match network_step(a, acc) {
        Step::More(next, rest) => {
            frame_network_items(rest, x, next);
        },
        _ => {},
    }
}

/// [`network`] reads only the tokens that it takes.
pub broadcast proof fn frame_network(a: Input, x: Input)
    ensures
        framed(network(a), #[trigger] network(a + x), x),
{
    broadcast use lemma_skip_concat, frame_network_items;
}

/// [`lock_type_form`] reads only the tokens that it takes.
pub broadcast proof fn frame_lock_type_form(a: Input, x: Input)
    ensures
        framed(lock_type_form(a), #[trigger] lock_type_form(a + x), x),
{
    broadcast use lemma_skip_concat;
}

/// [`part_number_form`] reads only the tokens that it takes.
pub broadcast proof fn frame_part_number_form(a: Input, x: Input)
    ensures
        framed(part_number_form(a), #[trigger] part_number_form(a + x), x),
{
    broadcast use lemma_skip_concat;
}

/// [`placement_ref_items`] reads only the tokens that it takes.
pub broadcast proof fn frame_placement_ref_items(a: Input, x: Input, acc: DsnPlacementRefView)
    ensures
        framed(placement_ref_items(a, acc), #[trigger] placement_ref_items(a + x, acc), x),
    decreases a.len(),
{
    broadcast use
        lemma_skip_concat,
        frame_lock_type_form,
        frame_part_number_form,
        consumes_lock_type_form,
        consumes_part_number_form,
    ;

    match placement_ref_step(a, acc) {
        Step::More(next, rest) => {
            frame_placement_ref_items(rest, x, next);
        },
        _ => {},
    }
}

/// [`placement_ref`] reads only the tokens that it takes.
pub broadcast proof fn frame_placement_ref(a: Input, x: Input)
    ensures
        framed(placement_ref(a), #[trigger] placement_ref(a + x), x),
{
    broadcast use lemma_skip_concat, frame_placement_ref_items;
}

/// [`component_items`] reads only the tokens that it takes.
pub broadcast proof fn frame_component_items(a: Input, x: Input, acc: DsnComponentView)
    ensures
        framed(component_items(a, acc), #[trigger] component_items(a + x, acc), x),
    decreases a.len(),
{
    broadcast use lemma_skip_concat, frame_placement_ref, consumes_placement_ref;

    match component_step(a, acc) {
        Step::More(next, rest) => {
            frame_component_items(rest, x, next);
        },
        _ => {},
    }
}

/// [`component`] reads only the tokens that it takes.
pub broadcast proof fn frame_component(a: Input, x: Input)
    ensures
        framed(component(a), #[trigger] component(a + x), x),
{
    broadcast use lemma_skip_concat, frame_component_items;
}

/// [`placement_items`] reads only the tokens that it takes.
pub broadcast proof fn frame_placement_items(a: Input, x: Input, acc: DsnPlacementView)
    ensures
        framed(placement_items(a, acc), #[trigger] placement_items(a + x, acc), x),
    decreases a.len(),
{
    broadcast use lemma_skip_concat, frame_component, consumes_component;

    match placement_step(a, acc) {
        Step::More(next, rest) => {
            frame_placement_items(rest, x, next);
        },
        _ => {},
    }
}

/// [`placement`] reads only the tokens that it takes.
pub broadcast proof fn frame_placement(a: Input, x: Input)
    ensures
        framed(placement(a), #[trigger] placement(a + x), x),
{
    broadcast use lemma_skip_concat, frame_placement_items;
}

/// [`layer_type_form`] reads only the tokens that it takes.
pub broadcast proof fn frame_layer_type_form(a: Input, x: Input)
    ensures
        framed(layer_type_form(a), #[trigger] layer_type_form(a + x), x),
{
    broadcast use lemma_skip_concat;
}

/// [`layer_items`] reads only the tokens that it takes.
pub broadcast proof fn frame_layer_items(a: Input, x: Input, acc: DsnLayerView)
    ensures
        framed(layer_items(a, acc), #[trigger] layer_items(a + x, acc), x),
    decreases a.len(),
{
    broadcast use
        lemma_skip_concat,
        frame_layer_type_form,
        frame_ignored,
        consumes_layer_type_form,
        consumes_ignored,
    ;

    match layer_step(a, acc) {
        Step::More(next, rest) => {
            frame_layer_items(rest, x, next);
        },
        _ => {},
    }
}

/// [`layer`] reads only the tokens that it takes.
pub broadcast proof fn frame_layer(a: Input, x: Input)
    ensures
        framed(layer(a), #[trigger] layer(a + x), x),
{
    broadcast use lemma_skip_concat, frame_layer_items;
}

/// [`names_items`] reads only the tokens that it takes.
pub broadcast proof fn frame_names_items(a: Input, x: Input, acc: Seq<Seq<char>>)
    ensures
        framed(names_items(a, acc), #[trigger] names_items(a + x, acc), x),
    decreases a.len(),
{
    broadcast use lemma_skip_concat;

    match names_step(a, acc) {
        Step::More(next, rest) => {
            frame_names_items(rest, x, next);
        },
        _ => {},
    }
}

/// [`via_names_form`] reads only the tokens that it takes.
pub broadcast proof fn frame_via_names_form(a: Input, x: Input)
    ensures
        framed(via_names_form(a), #[trigger] via_names_form(a + x), x),
{
    broadcast use lemma_skip_concat, frame_names_items;
}

/// [`structure_items`] reads only the tokens that it takes.
pub broadcast proof fn frame_structure_items(a: Input, x: Input, acc: DsnStructureView)
    ensures
        framed(structure_items(a, acc), #[trigger] structure_items(a + x, acc), x),
    decreases a.len(),
{
    broadcast use
        lemma_skip_concat,
        frame_boundary,
        frame_keepout,
        frame_layer,
        frame_plane,
        frame_rule,
        frame_via_names_form,
        consumes_boundary,
        consumes_keepout,
        consumes_layer,
        consumes_plane,
        consumes_rule,
        consumes_via_names_form,
    ;

    match structure_step(a, acc) {
        Step::More(next, rest) => {
            frame_structure_items(rest, x, next);
        },
        _ => {},
    }
}

/// [`structure`] reads only the tokens that it takes.
pub broadcast proof fn frame_structure(a: Input, x: Input)
    ensures
        framed(structure(a), #[trigger] structure(a + x), x),
{
    broadcast use lemma_skip_concat, frame_structure_items;
}

/// [`wiring_items`] reads only the tokens that it takes.
pub broadcast proof fn frame_wiring_items(a: Input, x: Input, acc: DsnWiringView)
    ensures
        framed(wiring_items(a, acc), #[trigger] wiring_items(a + x, acc), x),
    decreases a.len(),
{
    broadcast use lemma_skip_concat, frame_wire, frame_via, consumes_wire, consumes_via;

    match wiring_step(a, acc) {
        Step::More(next, rest) => {
            frame_wiring_items(rest, x, next);
        },
        _ => {},
    }
}

/// [`wiring`] reads only the tokens that it takes.
pub broadcast proof fn frame_wiring(a: Input, x: Input)
    ensures
        framed(wiring(a), #[trigger] wiring(a + x), x),
{
    broadcast use lemma_skip_concat, frame_wiring_items;
}

/// [`pcb_items`] reads only the tokens that it takes.
pub broadcast proof fn frame_pcb_items(a: Input, x: Input, acc: DsnPcbView)
    ensures
        framed(pcb_items(a, acc), #[trigger] pcb_items(a + x, acc), x),
    decreases a.len(),
{
    broadcast use
        lemma_skip_concat,
        frame_library,
        frame_network,
        frame_ignored,
        frame_placement,
        frame_resolution,
        frame_structure,
        frame_unit,
        frame_wiring,
        consumes_library,
        consumes_network,
        consumes_ignored,
        consumes_placement,
        consumes_resolution,
        consumes_structure,
        consumes_unit,
        consumes_wiring,
    ;

    match pcb_step(a, acc) {
        Step::More(next, rest) => {
            frame_pcb_items(rest, x, next);
        },
        _ => {},
    }
}

/// [`pcb`] reads only the tokens that it takes.
pub broadcast proof fn frame_pcb(a: Input, x: Input)
    ensures
        framed(pcb(a), #[trigger] pcb(a + x), x),
{
    broadcast use lemma_skip_concat, frame_pcb_items;
}

// Refusal: a rule that fails for a reason other than the end of the tokens
// has seen the token that it refuses. Whatever is put behind the tokens, it
// fails for the same reason.

/// Where the rule fails on the shorter tokens for a reason other than their
/// end, it fails for that reason on the longer ones.
pub open spec fn refused<V>(short: Parsed<V>, long: Parsed<V>) -> bool {
    short matches Err(e) ==> e != ParseErrorView::UnexpectedEof ==> long == Err::<
        (V, Input),
        ParseErrorView,
    >(e)
}

/// The same for a rule that yields no value.
pub open spec fn refused_skip(short: Skipped, long: Skipped) -> bool {
    short matches Err(e) ==> e != ParseErrorView::UnexpectedEof ==> long == Err::<
        Input,
        ParseErrorView,
    >(e)
}

/// Looking for a closing `)` fails only at the end of the tokens.
pub broadcast proof fn refused_skip_to_close(a: Input, x: Input, depth: nat)
    ensures
        refused_skip(skip_to_close(a, depth), #[trigger] skip_to_close(a + x, depth)),
    decreases a.len(),
{
    broadcast use lemma_skip_concat;

    if a.len() > 0 {
        refused_skip_to_close(a.skip(1), x, depth);
        refused_skip_to_close(a.skip(1), x, depth + 1);
        if depth > 0 {
            refused_skip_to_close(a.skip(1), x, (depth - 1) as nat);
        }
    }
}

/// What [`ignore`] refuses for a reason other than the end of the tokens, it
/// refuses whatever follows.
pub broadcast proof fn refused_ignore(a: Input, x: Input)
    ensures
        refused_skip(ignore(a), #[trigger] ignore(a + x)),
{
    broadcast use lemma_skip_concat, refused_skip_to_close;
}

/// What [`ignored`] refuses for a reason other than the end of the tokens, it
/// refuses whatever follows.
pub broadcast proof fn refused_ignored<A>(a: Input, x: Input, acc: A)
    ensures
        refused(ignored(a, acc), #[trigger] ignored(a + x, acc)),
{
    broadcast use refused_ignore;
}

/// What [`via`](crate::grammar::via) refuses for a reason other than the end of the tokens, it
/// refuses whatever follows.
pub broadcast proof fn refused_via(a: Input, x: Input)
    ensures
        refused(crate::grammar::via(a), #[trigger] crate::grammar::via(a + x)),
{
    broadcast use lemma_skip_concat;
}

/// What [`wire`] refuses for a reason other than the end of the tokens, it
/// refuses whatever follows.
pub broadcast proof fn refused_wire(a: Input, x: Input)
    ensures
        refused(wire(a), #[trigger] wire(a + x)),
{
    broadcast use lemma_skip_concat;
}

/// What [`plane`] refuses for a reason other than the end of the tokens, it
/// refuses whatever follows.
pub broadcast proof fn refused_plane(a: Input, x: Input)
    ensures
        refused(plane(a), #[trigger] plane(a + x)),
{
    broadcast use lemma_skip_concat;
}

/// What [`window`] refuses for a reason other than the end of the tokens, it
/// refuses whatever follows.
pub broadcast proof fn refused_window(a: Input, x: Input)
    ensures
        refused(window(a), #[trigger] window(a + x)),
{
    broadcast use lemma_skip_concat;
}

/// What [`resolution`] refuses for a reason other than the end of the tokens, it
/// refuses whatever follows.
pub broadcast proof fn refused_resolution(a: Input, x: Input)
    ensures
        refused(resolution(a), #[trigger] resolution(a + x)),
{
    broadcast use lemma_skip_concat;
}

/// What [`unit`] refuses for a reason other than the end of the tokens, it
/// refuses whatever follows.
pub broadcast proof fn refused_unit(a: Input, x: Input)
    ensures
        refused(unit(a), #[trigger] unit(a + x)),
{
    broadcast use lemma_skip_concat;
}

/// What [`rect`] refuses for a reason other than the end of the tokens, it
/// refuses whatever follows.
pub broadcast proof fn refused_rect(a: Input, x: Input)
    ensures
        refused(rect(a), #[trigger] rect(a + x)),
{
    broadcast use lemma_skip_concat;
}

/// What [`circle`] refuses for a reason other than the end of the tokens, it
/// refuses whatever follows.
pub broadcast proof fn refused_circle(a: Input, x: Input)
    ensures
        refused(circle(a), #[trigger] circle(a + x)),
{
    broadcast use lemma_skip_concat;
}

/// What [`qarc`] refuses for a reason other than the end of the tokens, it
/// refuses whatever follows.
pub broadcast proof fn refused_qarc(a: Input, x: Input)
    ensures
        refused(qarc(a), #[trigger] qarc(a + x)),
{
    broadcast use lemma_skip_concat;
}

/// What [`points_items`] refuses for a reason other than the end of the tokens, it
/// refuses whatever follows.
pub broadcast proof fn refused_points_items(a: Input, x: Input, acc: Seq<DsnPointView>)
    ensures
        refused(points_items(a, acc), #[trigger] points_items(a + x, acc)),
    decreases a.len(),
{
    broadcast use lemma_skip_concat;

    match points_step(a, acc) {
        Step::More(next, rest) => {
            refused_points_items(rest, x, next);
        },
        _ => {},
    }
}

/// What [`polygon`] refuses for a reason other than the end of the tokens, it
/// refuses whatever follows.
pub broadcast proof fn refused_polygon(a: Input, x: Input)
    ensures
        refused(polygon(a), #[trigger] polygon(a + x)),
{
    broadcast use lemma_skip_concat, frame_points_items, refused_points_items;
}

/// What [`path`] refuses for a reason other than the end of the tokens, it
/// refuses whatever follows.
pub broadcast proof fn refused_path(a: Input, x: Input)
    ensures
        refused(path(a), #[trigger] path(a + x)),
{
    broadcast use lemma_skip_concat, frame_points_items, refused_points_items;
}

/// What [`shape`] refuses for a reason other than the end of the tokens, it
/// refuses whatever follows.
pub broadcast proof fn refused_shape(a: Input, x: Input)
    ensures
        refused(shape(a), #[trigger] shape(a + x)),
{
    broadcast use
        lemma_skip_concat,
        frame_circle,
        frame_path,
        frame_polygon,
        frame_qarc,
        frame_rect,
        refused_circle,
        refused_path,
        refused_polygon,
        refused_qarc,
        refused_rect,
    ;
}

/// What [`boundary`] refuses for a reason other than the end of the tokens, it
/// refuses whatever follows.
pub broadcast proof fn refused_boundary(a: Input, x: Input)
    ensures
        refused(boundary(a), #[trigger] boundary(a + x)),
{
    broadcast use lemma_skip_concat, frame_shape, refused_shape;
}

/// What [`outline`] refuses for a reason other than the end of the tokens, it
/// refuses whatever follows.
pub broadcast proof fn refused_outline(a: Input, x: Input)
    ensures
        refused(outline(a), #[trigger] outline(a + x)),
{
    broadcast use lemma_skip_concat, frame_shape, refused_shape;
}

/// What [`padstack_shape`] refuses for a reason other than the end of the tokens, it
/// refuses whatever follows.
pub broadcast proof fn refused_padstack_shape(a: Input, x: Input)
    ensures
        refused(padstack_shape(a), #[trigger] padstack_shape(a + x)),
{
    broadcast use lemma_skip_concat, frame_shape, refused_shape;
}

/// What [`keepout_items`] refuses for a reason other than the end of the tokens, it
/// refuses whatever follows.
pub broadcast proof fn refused_keepout_items(a: Input, x: Input, acc: DsnKeepoutView)
    ensures
        refused(keepout_items(a, acc), #[trigger] keepout_items(a + x, acc)),
    decreases a.len(),
{
    broadcast use lemma_skip_concat, frame_shape, refused_shape, consumes_shape;

    match keepout_step(a, acc) {
        Step::More(next, rest) => {
            refused_keepout_items(rest, x, next);
        },
        _ => {},
    }
}

/// What [`keepout`] refuses for a reason other than the end of the tokens, it
/// refuses whatever follows.
pub broadcast proof fn refused_keepout(a: Input, x: Input)
    ensures
        refused(keepout(a), #[trigger] keepout(a + x)),
{
    broadcast use lemma_skip_concat, frame_keepout_items, refused_keepout_items;
}

/// What [`rotate_form`] refuses for a reason other than the end of the tokens, it
/// refuses whatever follows.
pub broadcast proof fn refused_rotate_form(a: Input, x: Input)
    ensures
        refused(rotate_form(a), #[trigger] rotate_form(a + x)),
{
    broadcast use lemma_skip_concat;
}

/// What [`pin`] refuses for a reason other than the end of the tokens, it
/// refuses whatever follows.
pub broadcast proof fn refused_pin(a: Input, x: Input)
    ensures
        refused(pin(a), #[trigger] pin(a + x)),
{
    broadcast use lemma_skip_concat;
}

/// What [`image_items`] refuses for a reason other than the end of the tokens, it
/// refuses whatever follows.
pub broadcast proof fn refused_image_items(a: Input, x: Input, acc: DsnImageView)
    ensures
        refused(image_items(a, acc), #[trigger] image_items(a + x, acc)),
    decreases a.len(),
{
    broadcast use
        lemma_skip_concat,
        frame_outline,
        frame_pin,
        frame_keepout,
        refused_outline,
        refused_pin,
        refused_keepout,
        consumes_outline,
        consumes_pin,
        consumes_keepout,
    ;

    match image_step(a, acc) {
        Step::More(next, rest) => {
            refused_image_items(rest, x, next);
        },
        _ => {},
    }
}

/// What [`image`] refuses for a reason other than the end of the tokens, it
/// refuses whatever follows.
pub broadcast proof fn refused_image(a: Input, x: Input)
    ensures
        refused(image(a), #[trigger] image(a + x)),
{
    broadcast use lemma_skip_concat, frame_image_items, refused_image_items;
}

/// What [`attach_form`] refuses for a reason other than the end of the tokens, it
/// refuses whatever follows.
pub broadcast proof fn refused_attach_form(a: Input, x: Input)
    ensures
        refused(attach_form(a), #[trigger] attach_form(a + x)),
{
    broadcast use lemma_skip_concat;
}

/// What [`padstack_items`] refuses for a reason other than the end of the tokens, it
/// refuses whatever follows.
pub broadcast proof fn refused_padstack_items(a: Input, x: Input, acc: DsnPadstackView)
    ensures
        refused(padstack_items(a, acc), #[trigger] padstack_items(a + x, acc)),
    decreases a.len(),
{
    broadcast use
        lemma_skip_concat,
        frame_attach_form,
        frame_padstack_shape,
        refused_attach_form,
        refused_padstack_shape,
        consumes_attach_form,
        consumes_padstack_shape,
    ;

    match padstack_step(a, acc) {
        Step::More(next, rest) => {
            refused_padstack_items(rest, x, next);
        },
        _ => {},
    }
}

/// What [`padstack`] refuses for a reason other than the end of the tokens, it
/// refuses whatever follows.
pub broadcast proof fn refused_padstack(a: Input, x: Input)
    ensures
        refused(padstack(a), #[trigger] padstack(a + x)),
{
    broadcast use lemma_skip_concat, frame_padstack_items, refused_padstack_items;
}

/// What [`library_items`] refuses for a reason other than the end of the tokens, it
/// refuses whatever follows.
pub broadcast proof fn refused_library_items(a: Input, x: Input, acc: DsnLibraryView)
    ensures
        refused(library_items(a, acc), #[trigger] library_items(a + x, acc)),
    decreases a.len(),
{
    broadcast use
        lemma_skip_concat,
        frame_image,
        frame_padstack,
        refused_image,
        refused_padstack,
        consumes_image,
        consumes_padstack,
    ;

    match library_step(a, acc) {
        Step::More(next, rest) => {
            refused_library_items(rest, x, next);
        },
        _ => {},
    }
}

/// What [`library`] refuses for a reason other than the end of the tokens, it
/// refuses whatever follows.
pub broadcast proof fn refused_library(a: Input, x: Input)
    ensures
        refused(library(a), #[trigger] library(a + x)),
{
    broadcast use lemma_skip_concat, frame_library_items, refused_library_items;
}

/// What [`pin_refs_items`] refuses for a reason other than the end of the tokens, it
/// refuses whatever follows.
pub broadcast proof fn refused_pin_refs_items(a: Input, x: Input, acc: Seq<DsnPinRefView>)
    ensures
        refused(pin_refs_items(a, acc), #[trigger] pin_refs_items(a + x, acc)),
    decreases a.len(),
{
    broadcast use lemma_skip_concat;

    match pin_refs_step(a, acc) {
        Step::More(next, rest) => {
            refused_pin_refs_items(rest, x, next);
        },
        _ => {},
    }
}

/// What [`pins_form`] refuses for a reason other than the end of the tokens, it
/// refuses whatever follows.
pub broadcast proof fn refused_pins_form(a: Input, x: Input)
    ensures
        refused(pins_form(a), #[trigger] pins_form(a + x)),
{
    broadcast use lemma_skip_concat, frame_pin_refs_items, refused_pin_refs_items;
}

/// What [`net_items`] refuses for a reason other than the end of the tokens, it
/// refuses whatever follows.
pub broadcast proof fn refused_net_items(a: Input, x: Input, acc: DsnNetView)
    ensures
        refused(net_items(a, acc), #[trigger] net_items(a + x, acc)),
    decreases a.len(),
{
    broadcast use lemma_skip_concat, frame_pins_form, refused_pins_form, consumes_pins_form;

    match net_step(a, acc) {
        Step::More(next, rest) => {
            refused_net_items(rest, x, next);
        },
        _ => {},
    }
}

/// What [`net`] refuses for a reason other than the end of the tokens, it
/// refuses whatever follows.
pub broadcast proof fn refused_net(a: Input, x: Input)
    ensures
        refused(net(a), #[trigger] net(a + x)),
{
    broadcast use lemma_skip_concat, frame_net_items, refused_net_items;
}

/// What [`use_via_form`] refuses for a reason other than the end of the tokens, it
/// refuses whatever follows.
pub broadcast proof fn refused_use_via_form(a: Input, x: Input)
    ensures
        refused(use_via_form(a), #[trigger] use_via_form(a + x)),
{
    broadcast use lemma_skip_concat;
}

/// What [`circuit_items`] refuses for a reason other than the end of the tokens, it
/// refuses whatever follows.
pub broadcast proof fn refused_circuit_items(a: Input, x: Input, acc: Seq<DsnCircuitView>)
    ensures
        refused(circuit_items(a, acc), #[trigger] circuit_items(a + x, acc)),
    decreases a.len(),
{
    broadcast use
        lemma_skip_concat,
        frame_use_via_form,
        refused_use_via_form,
        consumes_use_via_form,
    ;

    match circuit_step(a, acc) {
        Step::More(next, rest) => {
            refused_circuit_items(rest, x, next);
        },
        _ => {},
    }
}

/// What [`circuit`] refuses for a reason other than the end of the tokens, it
/// refuses whatever follows.
pub broadcast proof fn refused_circuit(a: Input, x: Input)
    ensures
        refused(circuit(a), #[trigger] circuit(a + x)),
{
    broadcast use lemma_skip_concat, frame_circuit_items, refused_circuit_items;
}

/// What [`clearance_type_form`] refuses for a reason other than the end of the tokens, it
/// refuses whatever follows.
pub broadcast proof fn refused_clearance_type_form(a: Input, x: Input)
    ensures
        refused(clearance_type_form(a), #[trigger] clearance_type_form(a + x)),
{
    broadcast use lemma_skip_concat;
}

/// What [`clearance_types_items`] refuses for a reason other than the end of the tokens, it
/// refuses whatever follows.
pub broadcast proof fn refused_clearance_types_items(a: Input, x: Input, acc: Seq<DsnClearanceType>)
    ensures
        refused(clearance_types_items(a, acc), #[trigger] clearance_types_items(a + x, acc)),
    decreases a.len(),
{
    broadcast use
        lemma_skip_concat,
        frame_clearance_type_form,
        refused_clearance_type_form,
        consumes_clearance_type_form,
    ;

    match clearance_types_step(a, acc) {
        Step::More(next, rest) => {
            refused_clearance_types_items(rest, x, next);
        },
        _ => {},
    }
}

/// What [`clearance`] refuses for a reason other than the end of the tokens, it
/// refuses whatever follows.
pub broadcast proof fn refused_clearance(a: Input, x: Input)
    ensures
        refused(clearance(a), #[trigger] clearance(a + x)),
{
    broadcast use lemma_skip_concat, frame_clearance_types_items, refused_clearance_types_items;
}

/// What [`width_form`] refuses for a reason other than the end of the tokens, it
/// refuses whatever follows.
pub broadcast proof fn refused_width_form(a: Input, x: Input)
    ensures
        refused(width_form(a), #[trigger] width_form(a + x)),
{
    broadcast use lemma_skip_concat;
}

/// What [`clearance_rule`] refuses for a reason other than the end of the tokens, it
/// refuses whatever follows.
pub broadcast proof fn refused_clearance_rule(a: Input, x: Input)
    ensures
        refused(clearance_rule(a), #[trigger] clearance_rule(a + x)),
{
    broadcast use lemma_skip_concat, frame_clearance, refused_clearance;
}

/// What [`rule_items`] refuses for a reason other than the end of the tokens, it
/// refuses whatever follows.
pub broadcast proof fn refused_rule_items(a: Input, x: Input, acc: Seq<DsnRuleView>)
    ensures
        refused(rule_items(a, acc), #[trigger] rule_items(a + x, acc)),
    decreases a.len(),
{
    broadcast use
        lemma_skip_concat,
        frame_width_form,
        frame_clearance_rule,
        refused_width_form,
        refused_clearance_rule,
        consumes_width_form,
        consumes_clearance_rule,
    ;

    match rule_step(a, acc) {
        Step::More(next, rest) => {
            refused_rule_items(rest, x, next);
        },
        _ => {},
    }
}

/// What [`rule`] refuses for a reason other than the end of the tokens, it
/// refuses whatever follows.
pub broadcast proof fn refused_rule(a: Input, x: Input)
    ensures
        refused(rule(a), #[trigger] rule(a + x)),
{
    broadcast use lemma_skip_concat, frame_rule_items, refused_rule_items;
}

/// What [`class_items`] refuses for a reason other than the end of the tokens, it
/// refuses whatever follows.
pub broadcast proof fn refused_class_items(a: Input, x: Input, acc: DsnClassView)
    ensures
        refused(class_items(a, acc), #[trigger] class_items(a + x, acc)),
    decreases a.len(),
{
    broadcast use
        lemma_skip_concat,
        frame_circuit,
        frame_rule,
        refused_circuit,
        refused_rule,
        consumes_circuit,
        consumes_rule,
    ;

    match class_step(a, acc) {
        Step::More(next, rest) => {
            refused_class_items(rest, x, next);
        },
        _ => {},
    }
}

/// What [`class`] refuses for a reason other than the end of the tokens, it
/// refuses whatever follows.
pub broadcast proof fn refused_class(a: Input, x: Input)
    ensures
        refused(class(a), #[trigger] class(a + x)),
{
    broadcast use lemma_skip_concat, frame_class_items, refused_class_items;
}

/// What [`network_items`] refuses for a reason other than the end of the tokens, it
/// refuses whatever follows.
pub broadcast proof fn refused_network_items(a: Input, x: Input, acc: DsnNetworkView)
    ensures
        refused(network_items(a, acc), #[trigger] network_items(a + x, acc)),
    decreases a.len(),
{
    broadcast use
        lemma_skip_concat,
        frame_class,
        frame_net,
        refused_class,
        refused_net,
        consumes_class,
        consumes_net,
    ;

    match network_step(a, acc) {
        Step::More(next, rest) => {
            refused_network_items(rest, x, next);
        },
        _ => {},
    }
}

/// What [`network`] refuses for a reason other than the end of the tokens, it
/// refuses whatever follows.
pub broadcast proof fn refused_network(a: Input, x: Input)
    ensures
        refused(network(a), #[trigger] network(a + x)),
{
    broadcast use lemma_skip_concat, frame_network_items, refused_network_items;
}

/// What [`lock_type_form`] refuses for a reason other than the end of the tokens, it
/// refuses whatever follows.
pub broadcast proof fn refused_lock_type_form(a: Input, x: Input)
    ensures
        refused(lock_type_form(a), #[trigger] lock_type_form(a + x)),
{
    broadcast use lemma_skip_concat;
}

/// What [`part_number_form`] refuses for a reason other than the end of the tokens, it
/// refuses whatever follows.
pub broadcast proof fn refused_part_number_form(a: Input, x: Input)
    ensures
        refused(part_number_form(a), #[trigger] part_number_form(a + x)),
{
    broadcast use lemma_skip_concat;
}

/// What [`placement_ref_items`] refuses for a reason other than the end of the tokens, it
/// refuses whatever follows.
pub broadcast proof fn refused_placement_ref_items(a: Input, x: Input, acc: DsnPlacementRefView)
    ensures
        refused(placement_ref_items(a, acc), #[trigger] placement_ref_items(a + x, acc)),
    decreases a.len(),
{
    broadcast use
        lemma_skip_concat,
        frame_lock_type_form,
        frame_part_number_form,
        refused_lock_type_form,
        refused_part_number_form,
        consumes_lock_type_form,
        consumes_part_number_form,
    ;

    match placement_ref_step(a, acc) {
        Step::More(next, rest) => {
            refused_placement_ref_items(rest, x, next);
        },
        _ => {},
    }
}

/// What [`placement_ref`] refuses for a reason other than the end of the tokens, it
/// refuses whatever follows.
pub broadcast proof fn refused_placement_ref(a: Input, x: Input)
    ensures
        refused(placement_ref(a), #[trigger] placement_ref(a + x)),
{
    broadcast use lemma_skip_concat, frame_placement_ref_items, refused_placement_ref_items;
}

/// What [`component_items`] refuses for a reason other than the end of the tokens, it
/// refuses whatever follows.
pub broadcast proof fn refused_component_items(a: Input, x: Input, acc: DsnComponentView)
    ensures
        refused(component_items(a, acc), #[trigger] component_items(a + x, acc)),
    decreases a.len(),
{
    broadcast use
        lemma_skip_concat,
        frame_placement_ref,
        refused_placement_ref,
        consumes_placement_ref,
    ;

    match component_step(a, acc) {
        Step::More(next, rest) => {
            refused_component_items(rest, x, next);
        },
        _ => {},
    }
}

/// What [`component`] refuses for a reason other than the end of the tokens, it
/// refuses whatever follows.
pub broadcast proof fn refused_component(a: Input, x: Input)
    ensures
        refused(component(a), #[trigger] component(a + x)),
{
    broadcast use lemma_skip_concat, frame_component_items, refused_component_items;
}

/// What [`placement_items`] refuses for a reason other than the end of the tokens, it
/// refuses whatever follows.
pub broadcast proof fn refused_placement_items(a: Input, x: Input, acc: DsnPlacementView)
    ensures
        refused(placement_items(a, acc), #[trigger] placement_items(a + x, acc)),
    decreases a.len(),
{
    broadcast use lemma_skip_concat, frame_component, refused_component, consumes_component;

    match placement_step(a, acc) {
        Step::More(next, rest) => {
            refused_placement_items(rest, x, next);
        },
        _ => {},
    }
}

/// What [`placement`] refuses for a reason other than the end of the tokens, it
/// refuses whatever follows.
pub broadcast proof fn refused_placement(a: Input, x: Input)
    ensures
        refused(placement(a), #[trigger] placement(a + x)),
{
    broadcast use lemma_skip_concat, frame_placement_items, refused_placement_items;
}

/// What [`layer_type_form`] refuses for a reason other than the end of the tokens, it
/// refuses whatever follows.
pub broadcast proof fn refused_layer_type_form(a: Input, x: Input)
    ensures
        refused(layer_type_form(a), #[trigger] layer_type_form(a + x)),
{
    broadcast use lemma_skip_concat;
}

/// What [`layer_items`] refuses for a reason other than the end of the tokens, it
/// refuses whatever follows.
pub broadcast proof fn refused_layer_items(a: Input, x: Input, acc: DsnLayerView)
    ensures
        refused(layer_items(a, acc), #[trigger] layer_items(a + x, acc)),
    decreases a.len(),
{
    broadcast use
        lemma_skip_concat,
        frame_layer_type_form,
        frame_ignored,
        refused_layer_type_form,
        refused_ignored,
        consumes_layer_type_form,
        consumes_ignored,
    ;

    match layer_step(a, acc) {
        Step::More(next, rest) => {
            refused_layer_items(rest, x, next);
        },
        _ => {},
    }
}

/// What [`layer`] refuses for a reason other than the end of the tokens, it
/// refuses whatever follows.
pub broadcast proof fn refused_layer(a: Input, x: Input)
    ensures
        refused(layer(a), #[trigger] layer(a + x)),
{
    broadcast use lemma_skip_concat, frame_layer_items, refused_layer_items;
}

/// What [`names_items`] refuses for a reason other than the end of the tokens, it
/// refuses whatever follows.
pub broadcast proof fn refused_names_items(a: Input, x: Input, acc: Seq<Seq<char>>)
    ensures
        refused(names_items(a, acc), #[trigger] names_items(a + x, acc)),
    decreases a.len(),
{
    broadcast use lemma_skip_concat;

    match names_step(a, acc) {
        Step::More(next, rest) => {
            refused_names_items(rest, x, next);
        },
        _ => {},
    }
}

/// What [`via_names_form`] refuses for a reason other than the end of the tokens, it
/// refuses whatever follows.
pub broadcast proof fn refused_via_names_form(a: Input, x: Input)
    ensures
        refused(via_names_form(a), #[trigger] via_names_form(a + x)),
{
    broadcast use lemma_skip_concat, frame_names_items, refused_names_items;
}

/// What [`structure_items`] refuses for a reason other than the end of the tokens, it
/// refuses whatever follows.
pub broadcast proof fn refused_structure_items(a: Input, x: Input, acc: DsnStructureView)
    ensures
        refused(structure_items(a, acc), #[trigger] structure_items(a + x, acc)),
    decreases a.len(),
{
    broadcast use
        lemma_skip_concat,
        frame_boundary,
        frame_keepout,
        frame_layer,
        frame_plane,
        frame_rule,
        frame_via_names_form,
        refused_boundary,
        refused_keepout,
        refused_layer,
        refused_plane,
        refused_rule,
        refused_via_names_form,
        consumes_boundary,
        consumes_keepout,
        consumes_layer,
        consumes_plane,
        consumes_rule,
        consumes_via_names_form,
    ;

    match structure_step(a, acc) {
        Step::More(next, rest) => {
            refused_structure_items(rest, x, next);
        },
        _ => {},
    }
}

/// What [`structure`] refuses for a reason other than the end of the tokens, it
/// refuses whatever follows.
pub broadcast proof fn refused_structure(a: Input, x: Input)
    ensures
        refused(structure(a), #[trigger] structure(a + x)),
{
    broadcast use lemma_skip_concat, frame_structure_items, refused_structure_items;
}

/// What [`wiring_items`] refuses for a reason other than the end of the tokens, it
/// refuses whatever follows.
pub broadcast proof fn refused_wiring_items(a: Input, x: Input, acc: DsnWiringView)
    ensures
        refused(wiring_items(a, acc), #[trigger] wiring_items(a + x, acc)),
    decreases a.len(),
{
    broadcast use
        lemma_skip_concat,
        frame_wire,
        frame_via,
        refused_wire,
        refused_via,
        consumes_wire,
        consumes_via,
    ;

    match wiring_step(a, acc) {
        Step::More(next, rest) => {
            refused_wiring_items(rest, x, next);
        },
        _ => {},
    }
}

/// What [`wiring`] refuses for a reason other than the end of the tokens, it
/// refuses whatever follows.
pub broadcast proof fn refused_wiring(a: Input, x: Input)
    ensures
        refused(wiring(a), #[trigger] wiring(a + x)),
{
    broadcast use lemma_skip_concat, frame_wiring_items, refused_wiring_items;
}

/// What [`pcb_items`] refuses for a reason other than the end of the tokens, it
/// refuses whatever follows.
pub broadcast proof fn refused_pcb_items(a: Input, x: Input, acc: DsnPcbView)
    ensures
        refused(pcb_items(a, acc), #[trigger] pcb_items(a + x, acc)),
    decreases a.len(),
{
    broadcast use
        lemma_skip_concat,
        frame_library,
        frame_network,
        frame_ignored,
        frame_placement,
        frame_resolution,
        frame_structure,
        frame_unit,
        frame_wiring,
        refused_library,
        refused_network,
        refused_ignored,
        refused_placement,
        refused_resolution,
        refused_structure,
        refused_unit,
        refused_wiring,
        consumes_library,
        consumes_network,
        consumes_ignored,
        consumes_placement,
        consumes_resolution,
        consumes_structure,
        consumes_unit,
        consumes_wiring,
    ;

    match pcb_step(a, acc) {
        Step::More(next, rest) => {
            refused_pcb_items(rest, x, next);
        },
        _ => {},
    }
}

/// What [`pcb`] refuses for a reason other than the end of the tokens, it
/// refuses whatever follows.
pub broadcast proof fn refused_pcb(a: Input, x: Input)
    ensures
        refused(pcb(a), #[trigger] pcb(a + x)),
{
    broadcast use lemma_skip_concat, frame_pcb_items, refused_pcb_items;
}

// Validity: what the grammar yields is valid. A design has a name, its
// numbers are numbers, its polygons have three points or more, its paths two
// or more, its clearances apply to something, and its pin references name a
// component and a pin.

/// The literal `0`, which stands for a number that the document leaves out,
/// is a number.
pub broadcast proof fn lemma_zero_is_literal()
    ensures
        #[trigger] is_float_literal(DsnNumber::spec_zero()),
{
    let s = DsnNumber::spec_zero();
    assert(unsigned(s) == s);
    assert(s.skip(1).len() == 0);
    assert(leading_digits(s.skip(1)) == 0);
    assert(leading_digits(s) == 1);
    assert(is_decimal(s));
}

/// Every point is valid.
pub open spec fn valid_points(v: Seq<DsnPointView>) -> bool {
    forall|i: int| 0 <= i < v.len() ==> (#[trigger] v[i]).valid()
}

/// Every pin reference is valid.
pub open spec fn valid_pin_refs(v: Seq<DsnPinRefView>) -> bool {
    forall|i: int| 0 <= i < v.len() ==> (#[trigger] v[i]).valid()
}

/// Every rule is valid.
pub open spec fn valid_rules(v: Seq<DsnRuleView>) -> bool {
    forall|i: int| 0 <= i < v.len() ==> (#[trigger] v[i]).valid()
}

/// What [`rect`] yields is valid.
pub broadcast proof fn valid_rect(s: Input)
    ensures
        #[trigger] rect(s) matches Ok((v, _)) ==> v.valid(),
{
    broadcast use lemma_zero_is_literal;
}

/// What [`circle`] yields is valid.
pub broadcast proof fn valid_circle(s: Input)
    ensures
        #[trigger] circle(s) matches Ok((v, _)) ==> v.valid(),
{
    broadcast use lemma_zero_is_literal;
}

/// What [`qarc`] yields is valid.
pub broadcast proof fn valid_qarc(s: Input)
    ensures
        #[trigger] qarc(s) matches Ok((v, _)) ==> v.valid(),
{
    broadcast use lemma_zero_is_literal;
}

/// What [`points_items`] makes of valid values is valid.
pub broadcast proof fn valid_points_items(s: Input, acc: Seq<DsnPointView>)
    requires
        valid_points(acc),
    ensures
        #[trigger] points_items(s, acc) matches Ok((v, _)) ==> valid_points(v),
    decreases s.len(),
{
    broadcast use lemma_zero_is_literal;

    match points_step(s, acc) {
        Step::More(next, rest) => {
            valid_points_items(rest, next);
        },
        _ => {},
    }
}

/// What [`polygon`] yields is valid.
pub broadcast proof fn valid_polygon(s: Input)
    ensures
        #[trigger] polygon(s) matches Ok((v, _)) ==> v.valid(),
{
    broadcast use lemma_zero_is_literal, valid_points_items;
}

/// What [`path`] yields is valid.
pub broadcast proof fn valid_path(s: Input)
    ensures
        #[trigger] path(s) matches Ok((v, _)) ==> v.valid(),
{
    broadcast use lemma_zero_is_literal, valid_points_items;
}

/// What [`shape`] yields is valid.
pub broadcast proof fn valid_shape(s: Input)
    ensures
        #[trigger] shape(s) matches Ok((v, _)) ==> v.valid(),
{
    broadcast use
        lemma_zero_is_literal,
        valid_circle,
        valid_path,
        valid_polygon,
        valid_qarc,
        valid_rect,
    ;
}

/// What [`boundary`] yields is valid.
pub broadcast proof fn valid_boundary(s: Input)
    ensures
        #[trigger] boundary(s) matches Ok((v, _)) ==> v.valid(),
{
    broadcast use lemma_zero_is_literal, valid_shape;
}

/// What [`outline`] yields is valid.
pub broadcast proof fn valid_outline(s: Input)
    ensures
        #[trigger] outline(s) matches Ok((v, _)) ==> v.valid(),
{
    broadcast use lemma_zero_is_literal, valid_shape;
}

/// What [`padstack_shape`] yields is valid.
pub broadcast proof fn valid_padstack_shape(s: Input)
    ensures
        #[trigger] padstack_shape(s) matches Ok((v, _)) ==> v.valid(),
{
    broadcast use lemma_zero_is_literal, valid_shape;
}

/// What [`keepout_items`] makes of valid values is valid.
pub broadcast proof fn valid_keepout_items(s: Input, acc: DsnKeepoutView)
    requires
        acc.valid(),
    ensures
        #[trigger] keepout_items(s, acc) matches Ok((v, _)) ==> v.valid(),
    decreases s.len(),
{
    broadcast use lemma_zero_is_literal, valid_shape, consumes_shape;

    match keepout_step(s, acc) {
        Step::More(next, rest) => {
            valid_keepout_items(rest, next);
        },
        _ => {},
    }
}

/// What [`keepout`] yields is valid.
pub broadcast proof fn valid_keepout(s: Input)
    ensures
        #[trigger] keepout(s) matches Ok((v, _)) ==> v.valid(),
{
    broadcast use lemma_zero_is_literal, valid_keepout_items;
}

/// What [`rotate_form`] yields is valid.
pub broadcast proof fn valid_rotate_form(s: Input)
    ensures
        #[trigger] rotate_form(s) matches Ok((v, _)) ==> is_float_literal(v),
{
    broadcast use lemma_zero_is_literal;
}

/// What [`pin`] yields is valid.
pub broadcast proof fn valid_pin(s: Input)
    ensures
        #[trigger] pin(s) matches Ok((v, _)) ==> v.valid(),
{
    broadcast use lemma_zero_is_literal;
}

/// What [`image_items`] makes of valid values is valid.
pub broadcast proof fn valid_image_items(s: Input, acc: DsnImageView)
    requires
        acc.valid(),
    ensures
        #[trigger] image_items(s, acc) matches Ok((v, _)) ==> v.valid(),
    decreases s.len(),
{
    broadcast use
        lemma_zero_is_literal,
        valid_outline,
        valid_pin,
        valid_keepout,
        consumes_outline,
        consumes_pin,
        consumes_keepout,
    ;

    match image_step(s, acc) {
        Step::More(next, rest) => {
            valid_image_items(rest, next);
        },
        _ => {},
    }
}

/// What [`image`] yields is valid.
pub broadcast proof fn valid_image(s: Input)
    ensures
        #[trigger] image(s) matches Ok((v, _)) ==> v.valid(),
{
    broadcast use lemma_zero_is_literal, valid_image_items;
}

/// What [`padstack_items`] makes of valid values is valid.
pub broadcast proof fn valid_padstack_items(s: Input, acc: DsnPadstackView)
    requires
        acc.valid(),
    ensures
        #[trigger] padstack_items(s, acc) matches Ok((v, _)) ==> v.valid(),
    decreases s.len(),
{
    broadcast use
        lemma_zero_is_literal,
        valid_padstack_shape,
        consumes_attach_form,
        consumes_padstack_shape,
    ;

    match padstack_step(s, acc) {
        Step::More(next, rest) => {
            valid_padstack_items(rest, next);
        },
        _ => {},
    }
}

/// What [`padstack`] yields is valid.
pub broadcast proof fn valid_padstack(s: Input)
    ensures
        #[trigger] padstack(s) matches Ok((v, _)) ==> v.valid(),
{
    broadcast use lemma_zero_is_literal, valid_padstack_items;
}

/// What [`library_items`] makes of valid values is valid.
pub broadcast proof fn valid_library_items(s: Input, acc: DsnLibraryView)
    requires
        acc.valid(),
    ensures
        #[trigger] library_items(s, acc) matches Ok((v, _)) ==> v.valid(),
    decreases s.len(),
{
    broadcast use
        lemma_zero_is_literal,
        valid_image,
        valid_padstack,
        consumes_image,
        consumes_padstack,
    ;

    match library_step(s, acc) {
        Step::More(next, rest) => {
            valid_library_items(rest, next);
        },
        _ => {},
    }
}

/// What [`library`] yields is valid.
pub broadcast proof fn valid_library(s: Input)
    ensures
        #[trigger] library(s) matches Ok((v, _)) ==> v.valid(),
{
    broadcast use lemma_zero_is_literal, valid_library_items;
}

/// What [`pin_refs_items`] makes of valid values is valid.
pub broadcast proof fn valid_pin_refs_items(s: Input, acc: Seq<DsnPinRefView>)
    requires
        valid_pin_refs(acc),
    ensures
        #[trigger] pin_refs_items(s, acc) matches Ok((v, _)) ==> valid_pin_refs(v),
    decreases s.len(),
{
    broadcast use lemma_zero_is_literal;

    match pin_refs_step(s, acc) {
        Step::More(next, rest) => {
            valid_pin_refs_items(rest, next);
        },
        _ => {},
    }
}

/// What [`pins_form`] yields is valid.
pub broadcast proof fn valid_pins_form(s: Input)
    ensures
        #[trigger] pins_form(s) matches Ok((v, _)) ==> valid_pin_refs(v),
{
    broadcast use lemma_zero_is_literal, valid_pin_refs_items;
}

/// What [`net_items`] makes of valid values is valid.
pub broadcast proof fn valid_net_items(s: Input, acc: DsnNetView)
    requires
        acc.valid(),
    ensures
        #[trigger] net_items(s, acc) matches Ok((v, _)) ==> v.valid(),
    decreases s.len(),
{
    broadcast use lemma_zero_is_literal, valid_pins_form, consumes_pins_form;

    match net_step(s, acc) {
        Step::More(next, rest) => {
            valid_net_items(rest, next);
        },
        _ => {},
    }
}

/// What [`net`] yields is valid.
pub broadcast proof fn valid_net(s: Input)
    ensures
        #[trigger] net(s) matches Ok((v, _)) ==> v.valid(),
{
    broadcast use lemma_zero_is_literal, valid_net_items;
}

/// What [`clearance`] yields is valid.
pub broadcast proof fn valid_clearance(s: Input)
    ensures
        #[trigger] clearance(s) matches Ok((v, _)) ==> v.valid(),
{
    broadcast use lemma_zero_is_literal;
}

/// What [`width_form`] yields is valid.
pub broadcast proof fn valid_width_form(s: Input)
    ensures
        #[trigger] width_form(s) matches Ok((v, _)) ==> v.valid(),
{
    broadcast use lemma_zero_is_literal;
}

/// What [`clearance_rule`] yields is valid.
pub broadcast proof fn valid_clearance_rule(s: Input)
    ensures
        #[trigger] clearance_rule(s) matches Ok((v, _)) ==> v.valid(),
{
    broadcast use lemma_zero_is_literal, valid_clearance;
}

/// What [`rule_items`] makes of valid values is valid.
pub broadcast proof fn valid_rule_items(s: Input, acc: Seq<DsnRuleView>)
    requires
        valid_rules(acc),
    ensures
        #[trigger] rule_items(s, acc) matches Ok((v, _)) ==> valid_rules(v),
    decreases s.len(),
{
    broadcast use
        lemma_zero_is_literal,
        valid_width_form,
        valid_clearance_rule,
        consumes_width_form,
        consumes_clearance_rule,
    ;

    match rule_step(s, acc) {
        Step::More(next, rest) => {
            valid_rule_items(rest, next);
        },
        _ => {},
    }
}

/// What [`rule`] yields is valid.
pub broadcast proof fn valid_rule(s: Input)
    ensures
        #[trigger] rule(s) matches Ok((v, _)) ==> valid_rules(v),
{
    broadcast use lemma_zero_is_literal, valid_rule_items;
}

/// What [`class_items`] makes of valid values is valid.
pub broadcast proof fn valid_class_items(s: Input, acc: DsnClassView)
    requires
        acc.valid(),
    ensures
        #[trigger] class_items(s, acc) matches Ok((v, _)) ==> v.valid(),
    decreases s.len(),
{
    broadcast use lemma_zero_is_literal, valid_rule, consumes_circuit, consumes_rule;

    match class_step(s, acc) {
        Step::More(next, rest) => {
            valid_class_items(rest, next);
        },
        _ => {},
    }
}

/// What [`class`] yields is valid.
pub broadcast proof fn valid_class(s: Input)
    ensures
        #[trigger] class(s) matches Ok((v, _)) ==> v.valid(),
{
    broadcast use lemma_zero_is_literal, valid_class_items;
}

/// What [`network_items`] makes of valid values is valid.
pub broadcast proof fn valid_network_items(s: Input, acc: DsnNetworkView)
    requires
        acc.valid(),
    ensures
        #[trigger] network_items(s, acc) matches Ok((v, _)) ==> v.valid(),
    decreases s.len(),
{
    broadcast use lemma_zero_is_literal, valid_class, valid_net, consumes_class, consumes_net;

    match network_step(s, acc) {
        Step::More(next, rest) => {
            valid_network_items(rest, next);
        },
        _ => {},
    }
}

/// What [`network`] yields is valid.
pub broadcast proof fn valid_network(s: Input)
    ensures
        #[trigger] network(s) matches Ok((v, _)) ==> v.valid(),
{
    broadcast use lemma_zero_is_literal, valid_network_items;
}

/// What [`placement_ref_items`] makes of valid values is valid.
pub broadcast proof fn valid_placement_ref_items(s: Input, acc: DsnPlacementRefView)
    requires
        acc.valid(),
    ensures
        #[trigger] placement_ref_items(s, acc) matches Ok((v, _)) ==> v.valid(),
    decreases s.len(),
{
    broadcast use lemma_zero_is_literal, consumes_lock_type_form, consumes_part_number_form;

    match placement_ref_step(s, acc) {
        Step::More(next, rest) => {
            valid_placement_ref_items(rest, next);
        },
        _ => {},
    }
}

/// What [`placement_ref`] yields is valid.
pub broadcast proof fn valid_placement_ref(s: Input)
    ensures
        #[trigger] placement_ref(s) matches Ok((v, _)) ==> v.valid(),
{
    broadcast use lemma_zero_is_literal, valid_placement_ref_items;
}

/// What [`component_items`] makes of valid values is valid.
pub broadcast proof fn valid_component_items(s: Input, acc: DsnComponentView)
    requires
        acc.valid(),
    ensures
        #[trigger] component_items(s, acc) matches Ok((v, _)) ==> v.valid(),
    decreases s.len(),
{
    broadcast use lemma_zero_is_literal, valid_placement_ref, consumes_placement_ref;

    match component_step(s, acc) {
        Step::More(next, rest) => {
            valid_component_items(rest, next);
        },
        _ => {},
    }
}

/// What [`component`] yields is valid.
pub broadcast proof fn valid_component(s: Input)
    ensures
        #[trigger] component(s) matches Ok((v, _)) ==> v.valid(),
{
    broadcast use lemma_zero_is_literal, valid_component_items;
}

/// What [`placement_items`] makes of valid values is valid.
pub broadcast proof fn valid_placement_items(s: Input, acc: DsnPlacementView)
    requires
        acc.valid(),
    ensures
        #[trigger] placement_items(s, acc) matches Ok((v, _)) ==> v.valid(),
    decreases s.len(),
{
    broadcast use lemma_zero_is_literal, valid_component, consumes_component;

    match placement_step(s, acc) {
        Step::More(next, rest) => {
            valid_placement_items(rest, next);
        },
        _ => {},
    }
}

/// What [`placement`] yields is valid.
pub broadcast proof fn valid_placement(s: Input)
    ensures
        #[trigger] placement(s) matches Ok((v, _)) ==> v.valid(),
{
    broadcast use lemma_zero_is_literal, valid_placement_items;
}

/// What [`structure_items`] makes of valid values is valid.
pub broadcast proof fn valid_structure_items(s: Input, acc: DsnStructureView)
    requires
        acc.valid(),
    ensures
        #[trigger] structure_items(s, acc) matches Ok((v, _)) ==> v.valid(),
    decreases s.len(),
{
    broadcast use
        lemma_zero_is_literal,
        valid_boundary,
        valid_keepout,
        valid_rule,
        consumes_boundary,
        consumes_keepout,
        consumes_layer,
        consumes_plane,
        consumes_rule,
        consumes_via_names_form,
    ;

    match structure_step(s, acc) {
        Step::More(next, rest) => {
            valid_structure_items(rest, next);
        },
        _ => {},
    }
}

/// What [`structure`] yields is valid.
pub broadcast proof fn valid_structure(s: Input)
    ensures
        #[trigger] structure(s) matches Ok((v, _)) ==> v.valid(),
{
    broadcast use lemma_zero_is_literal, valid_structure_items;
}

/// What [`pcb_items`] makes of valid values is valid.
pub broadcast proof fn valid_pcb_items(s: Input, acc: DsnPcbView)
    requires
        acc.valid(),
    ensures
        #[trigger] pcb_items(s, acc) matches Ok((v, _)) ==> v.valid(),
    decreases s.len(),
{
    broadcast use
        lemma_zero_is_literal,
        valid_library,
        valid_network,
        valid_placement,
        valid_structure,
        consumes_library,
        consumes_network,
        consumes_ignored,
        consumes_placement,
        consumes_resolution,
        consumes_structure,
        consumes_unit,
        consumes_wiring,
    ;

    match pcb_step(s, acc) {
        Step::More(next, rest) => {
            valid_pcb_items(rest, next);
        },
        _ => {},
    }
}

/// What [`pcb`] yields is valid.
pub broadcast proof fn valid_pcb(s: Input)
    ensures
        #[trigger] pcb(s) matches Ok((v, _)) ==> v.valid(),
{
    broadcast use lemma_zero_is_literal, valid_pcb_items;
}

// Single rules: pin references, polygons and paths, rectangles, and the
// `parser` form.

/// The last hyphen of a text is a hyphen, and none follows it.
proof fn lemma_last_hyphen(s: Seq<char>)
    ensures
        match last_hyphen(s) {
            Some(i) => 0 <= i < s.len() && s[i] == '-' && forall|j: int|
                i < j < s.len() ==> #[trigger] s[j] != '-',
            None => forall|j: int| 0 <= j < s.len() ==> #[trigger] s[j] != '-',
        },
    decreases s.len(),
{
    if s.len() > 0 && s.last() != '-' {
        let t = s.drop_last();
        lemma_last_hyphen(t);
        match last_hyphen(t) {
            Some(i) => {
                assert(s[i] == t[i]);
                assert forall|j: int| i < j < s.len() implies #[trigger] s[j] != '-' by {
                    if j < t.len() {
                        assert(s[j] == t[j]);
                    }
                }
            },
            None => {
                assert forall|j: int| 0 <= j < s.len() implies #[trigger] s[j] != '-' by {
                    if j < t.len() {
                        assert(s[j] == t[j]);
                    }
                }
            },
        }
    }
}

/// A pin reference is split at its last hyphen: the two parts, put together
/// with a hyphen between them, are the text, neither part is empty, and the
/// pin holds no hyphen. A text is refused exactly when it cannot be split so:
/// when it holds no hyphen, or starts with its only hyphen, or ends with a
/// hyphen.
pub proof fn lemma_split_at_last_hyphen(text: Seq<char>)
    ensures
        match split_pin_ref(text) {
            Some(v) => {
                &&& text == v.component_id + seq!['-'] + v.pin_id
                &&& v.component_id.len() > 0
                &&& v.pin_id.len() > 0
                &&& forall|j: int| 0 <= j < v.pin_id.len() ==> #[trigger] v.pin_id[j] != '-'
            },
            None => {
                ||| forall|j: int| 0 <= j < text.len() ==> #[trigger] text[j] != '-'
                ||| text[0]
                    == '-' && forall|j: int| 0 < j < text.len() ==> #[trigger] text[j] != '-'
                ||| text.last() == '-'
            },
        },
        split_pin_ref(text) is Some <==> exists|c: Seq<char>, p: Seq<char>|
            {
                &&& #[trigger] (c + seq!['-'] + p) == text
                &&& c.len() > 0
                &&& p.len() > 0
                &&& forall|j: int| 0 <= j < p.len() ==> #[trigger] p[j] != '-'
            },
{
    lemma_last_hyphen(text);
    match last_hyphen(text) {
        Some(i) => {
            if 0 < i && i + 1 < text.len() {
                let v = split_pin_ref(text)->Some_0;
                assert(text =~= v.component_id + seq!['-'] + v.pin_id);
                assert forall|j: int| 0 <= j < v.pin_id.len() implies #[trigger] v.pin_id[j]
                    != '-' by {
                    assert(v.pin_id[j] == text[i + 1 + j]);
                }
            } else if i + 1 == text.len() {
                assert(text.last() == '-');
            }
        },
        None => {},
    }
    if !(split_pin_ref(text) is Some) {
        assert forall|c: Seq<char>, p: Seq<char>|
            {
                &&& #[trigger] (c + seq!['-'] + p) == text
                &&& c.len() > 0
                &&& p.len() > 0
                &&& forall|j: int| 0 <= j < p.len() ==> #[trigger] p[j] != '-'
            } implies false by {
            let t = c + seq!['-'] + p;
            assert(t[c.len() as int] == '-');
            match last_hyphen(text) {
                Some(i) => {
                    if i > c.len() {
                        assert(t[i] == p[i - c.len() - 1]);
                    }
                },
                None => {},
            }
        }
    }
}

/// Tokens that are the coordinates of points: numbers, two for each point,
/// the first of which is no `)`.
pub open spec fn are_coordinates(nums: Input) -> bool
    decreases nums.len(),
{
    nums.len() > 0 ==> {
        &&& nums.len() >= 2
        &&& nums[0].tok != Tok::Rparen
        &&& is_float_literal(nums[0].s)
        &&& is_float_literal(nums[1].s)
        &&& are_coordinates(nums.skip(2))
    }
}

/// The points that coordinates denote.
pub open spec fn points_of(nums: Input) -> Seq<DsnPointView>
    decreases nums.len(),
{
    if nums.len() < 2 {
        Seq::empty()
    } else {
        seq![DsnPointView { x: nums[0].s, y: nums[1].s }] + points_of(nums.skip(2))
    }
}

/// Coordinates up to a `)` are read as their points, one for every two
/// numbers.
pub proof fn lemma_points_of_coordinates(
    nums: Input,
    close: TokenView,
    rest: Input,
    acc: Seq<DsnPointView>,
)
    requires
        are_coordinates(nums),
        close.tok == Tok::Rparen,
    ensures
        points_items(nums + seq![close] + rest, acc)
            == Ok::<(Seq<DsnPointView>, Input), ParseErrorView>(
            (acc + points_of(nums), rest),
        ),
        2 * points_of(nums).len() == nums.len(),
    decreases nums.len(),
{
    let s = nums + seq![close] + rest;
    if nums.len() == 0 {
        assert(s[0] == close);
        assert(s.skip(1) =~= rest);
        assert(acc + points_of(nums) =~= acc);
    } else {
        let p = DsnPointView { x: nums[0].s, y: nums[1].s };
        assert(s[0] == nums[0]);
        assert(s.skip(1)[0] == nums[1]);
        assert(s.skip(1).skip(1) =~= nums.skip(2) + seq![close] + rest);
        lemma_points_of_coordinates(nums.skip(2), close, rest, acc.push(p));
        assert(acc.push(p) + points_of(nums.skip(2)) =~= acc + points_of(nums));
    }
}

/// The head of a form of points: `(`, the keyword, a layer and a width.
pub open spec fn is_points_head(head: Input, keyword: Tok) -> bool {
    &&& head.len() == 4
    &&& head[0].tok == Tok::Lparen
    &&& head[1].tok == keyword
    &&& is_float_literal(head[3].s)
}

/// A polygon needs three points: one of fewer is refused, one of three or
/// more is read with all its points.
pub proof fn lemma_polygon_needs_three_points(
    head: Input,
    nums: Input,
    close: TokenView,
    rest: Input,
)
    requires
        is_points_head(head, Tok::Polygon),
        are_coordinates(nums),
        close.tok == Tok::Rparen,
    ensures
        polygon(head + nums + seq![close] + rest) == if points_of(nums).len() < 3 {
            Err::<(DsnPolygonView, Input), ParseErrorView>(ParseErrorView::PolygonTooFewPoints)
        } else {
            Ok(
                (
                    DsnPolygonView {
                        layer_id: head[2].s,
                        aperture_width: head[3].s,
                        pts: points_of(nums),
                    },
                    rest,
                ),
            )
        },
{
    let s = head + nums + seq![close] + rest;
    assert(s[0] == head[0] && s[1] == head[1] && s[2] == head[2] && s[3] == head[3]);
    assert(s.skip(1).skip(1).skip(1).skip(1) =~= nums + seq![close] + rest);
    lemma_points_of_coordinates(nums, close, rest, Seq::empty());
    assert(Seq::<DsnPointView>::empty() + points_of(nums) =~= points_of(nums));
}

/// A path needs two points: one of fewer is refused, one of two or more is
/// read with all its points.
pub proof fn lemma_path_needs_two_points(head: Input, nums: Input, close: TokenView, rest: Input)
    requires
        is_points_head(head, Tok::Path),
        are_coordinates(nums),
        close.tok == Tok::Rparen,
    ensures
        path(head + nums + seq![close] + rest) == if points_of(nums).len() < 2 {
            Err::<(DsnPathView, Input), ParseErrorView>(ParseErrorView::PathTooFewPoints)
        } else {
            Ok(
                (
                    DsnPathView {
                        layer_id: head[2].s,
                        aperture_width: head[3].s,
                        pts: points_of(nums),
                    },
                    rest,
                ),
            )
        },
{
    let s = head + nums + seq![close] + rest;
    assert(s[0] == head[0] && s[1] == head[1] && s[2] == head[2] && s[3] == head[3]);
    assert(s.skip(1).skip(1).skip(1).skip(1) =~= nums + seq![close] + rest);
    lemma_points_of_coordinates(nums, close, rest, Seq::empty());
    assert(Seq::<DsnPointView>::empty() + points_of(nums) =~= points_of(nums));
}

/// What a rectangle form with the given coordinates yields. `head` is the
/// three tokens in front of them: `(`, `rect` and the layer.
pub open spec fn rect_of(
    head: Input,
    x1: TokenView,
    y1: TokenView,
    x2: TokenView,
    y2: TokenView,
    rest: Input,
) -> Parsed<DsnRectView> {
    rect(head + seq![x1, y1, x2, y2] + rest)
}

/// A rectangle does not depend on the order of its corners, nor on which of
/// its two diagonals they lie: the same coordinates yield the same rectangle.
pub proof fn lemma_rect_is_order_independent(
    head: Input,
    x1: TokenView,
    y1: TokenView,
    x2: TokenView,
    y2: TokenView,
    rest: Input,
)
    requires
        head.len() == 3,
        is_float_literal(x1.s),
        is_float_literal(y1.s),
        is_float_literal(x2.s),
        is_float_literal(y2.s),
    ensures
        rect_of(head, x1, y1, x2, y2, rest) == rect_of(head, x2, y2, x1, y1, rest),
        rect_of(head, x1, y1, x2, y2, rest) == rect_of(head, x1, y2, x2, y1, rest),
        rect_of(head, x1, y1, x2, y2, rest) == rect_of(head, x2, y1, x1, y2, rest),
{
    lemma_rect_of(head, x1, y1, x2, y2, rest);
    lemma_rect_of(head, x2, y2, x1, y1, rest);
    lemma_rect_of(head, x1, y2, x2, y1, rest);
    lemma_rect_of(head, x2, y1, x1, y2, rest);
    lemma_same_span(x1.s, x2.s, x2.s, x1.s);
    lemma_same_span(y1.s, y2.s, y2.s, y1.s);
}

/// A rectangle form read token by token.
proof fn lemma_rect_of(
    head: Input,
    x1: TokenView,
    y1: TokenView,
    x2: TokenView,
    y2: TokenView,
    rest: Input,
)
    requires
        head.len() == 3,
        is_float_literal(x1.s),
        is_float_literal(y1.s),
        is_float_literal(x2.s),
        is_float_literal(y2.s),
    ensures
        rect_of(head, x1, y1, x2, y2, rest) == match enter(head, Tok::Rect) {
            Err(e) => Err::<(DsnRectView, Input), ParseErrorView>(e),
            Ok(_) => match leave(rest) {
                Err(e) => Err(e),
                Ok(after) => Ok(
                    (
                        DsnRectView {
                            layer_id: head[2].s,
                            xs: span(x1.s, x2.s),
                            ys: span(y1.s, y2.s),
                        },
                        after,
                    ),
                ),
            },
        },
{
    let s = head + seq![x1, y1, x2, y2] + rest;
    assert(s[0] == head[0] && s[1] == head[1] && s[2] == head[2]);
    let s3 = s.skip(1).skip(1).skip(1);
    assert(s3 =~= seq![x1, y1, x2, y2] + rest);
    assert(s3[0] == x1);
    assert(s3.skip(1)[0] == y1);
    assert(s3.skip(1).skip(1)[0] == x2);
    assert(s3.skip(1).skip(1).skip(1)[0] == y2);
    assert(s3.skip(1).skip(1).skip(1).skip(1) =~= rest);
    assert(head.skip(1).skip(1).len() == 1);
}

/// `form` is one whole form: it runs from a `(` to the `)` that matches it.
pub open spec fn is_form(form: Input) -> bool {
    ignore(form) == Ok::<Input, ParseErrorView>(Seq::empty())
}

/// `form` is one whole form with the keyword `head`.
pub open spec fn is_form_of(form: Input, head: Tok) -> bool {
    is_form(form) && form.len() >= 2 && form[1].tok == head
}

/// What the one whole section `sec` makes of `acc`; `None` if `sec` is not
/// exactly one section.
#[verifier::opaque]
pub open spec fn section(sec: Input, acc: DsnPcbView) -> Option<DsnPcbView> {
    match pcb_step(sec, acc) {
        Step::More(next, rest) => if rest.len() == 0 {
            Some(next)
        } else {
            None
        },
        _ => None,
    }
}

/// What the sections `secs`, read one after another, make of `acc`; `None` if
/// one of them is no section.
pub open spec fn after_sections(secs: Seq<Input>, acc: DsnPcbView) -> Option<DsnPcbView>
    decreases secs.len(),
{
    if secs.len() == 0 {
        Some(acc)
    } else {
        match section(secs[0], acc) {
            Some(next) => after_sections(secs.skip(1), next),
            None => None,
        }
    }
}

/// The tokens of the sections, one section after another.
pub open spec fn joined(secs: Seq<Input>) -> Input
    decreases secs.len(),
{
    if secs.len() == 0 {
        Seq::empty()
    } else {
        secs[0] + joined(secs.skip(1))
    }
}

/// The rounds of a design, kept folded while sections are counted off.
#[verifier::opaque]
spec fn rounds(s: Input, acc: DsnPcbView) -> Parsed<DsnPcbView> {
    pcb_items(s, acc)
}

/// One round of the design reads only the section in front of it.
proof fn lemma_section_is_read(sec: Input, rest: Input, acc: DsnPcbView)
    requires
        section(sec, acc) is Some,
    ensures
        rounds(sec + rest, acc) == rounds(rest, section(sec, acc)->Some_0),
{
    broadcast use
        lemma_skip_concat,
        frame_library,
        frame_network,
        frame_ignored,
        frame_placement,
        frame_resolution,
        frame_structure,
        frame_unit,
        frame_wiring,
    ;

    reveal(section);
    reveal(rounds);
    assert(pcb_step(sec + rest, acc) == Step::More(
        section(sec, acc)->Some_0,
        Seq::<TokenView>::empty() + rest,
    ));
    assert(Seq::<TokenView>::empty() + rest =~= rest);
}

/// Whole sections in front of a design are read one by one.
proof fn lemma_sections_are_counted_off(secs: Seq<Input>, rest: Input, acc: DsnPcbView)
    requires
        after_sections(secs, acc) is Some,
    ensures
        rounds(joined(secs) + rest, acc) == rounds(rest, after_sections(secs, acc)->Some_0),
    decreases secs.len(),
{
    if secs.len() == 0 {
        assert(joined(secs) + rest =~= rest);
    } else {
        lemma_section_is_read(secs[0], joined(secs.skip(1)) + rest, acc);
        assert(secs[0] + (joined(secs.skip(1)) + rest) =~= joined(secs) + rest);
        lemma_sections_are_counted_off(secs.skip(1), rest, section(secs[0], acc)->Some_0);
    }
}

/// Whole sections in front of a design are read one by one.
proof fn lemma_sections_are_read(secs: Seq<Input>, rest: Input, acc: DsnPcbView)
    requires
        after_sections(secs, acc) is Some,
    ensures
        pcb_items(joined(secs) + rest, acc) == pcb_items(rest, after_sections(secs, acc)->Some_0),
{
    lemma_sections_are_counted_off(secs, rest, acc);
    reveal(rounds);
}

/// A `parser` form among the sections of a design is skipped: the rounds
/// that start at it yield what the rounds that start behind it yield.
pub proof fn lemma_parser_form_is_skipped(form: Input, rest: Input, acc: DsnPcbView)
    requires
        is_form_of(form, Tok::Parser),
    ensures
        pcb_items(form + rest, acc) == pcb_items(rest, acc),
{
    frame_ignore(form, rest);
    assert(Seq::<TokenView>::empty() + rest =~= rest);
    let s = form + rest;
    assert(s[0] == form[0]);
    assert(s[1] == form[1]);
}

/// A design with a `parser` form behind any number of its sections is the
/// design without that form, and fails as it does. `head` is the three
/// tokens in front of the sections: `(`, `pcb` and the name.
pub proof fn lemma_design_without_parser_form(
    head: Input,
    secs: Seq<Input>,
    form: Input,
    rest: Input,
)
    requires
        head.len() == 3,
        after_sections(secs, DsnPcbView { pcb_id: head[2].s, ..DsnPcbView::blank() }) is Some,
        is_form_of(form, Tok::Parser),
    ensures
        document(head + joined(secs) + form + rest) == document(head + joined(secs) + rest),
{
    let acc = DsnPcbView { pcb_id: head[2].s, ..DsnPcbView::blank() };
    let with = head + joined(secs) + form + rest;
    let without = head + joined(secs) + rest;
    assert(with[0] == head[0] && with[1] == head[1] && with[2] == head[2]);
    assert(without[0] == head[0] && without[1] == head[1] && without[2] == head[2]);
    assert(with.skip(1).skip(1).skip(1) =~= joined(secs) + (form + rest));
    assert(without.skip(1).skip(1).skip(1) =~= joined(secs) + rest);
    lemma_sections_are_read(secs, form + rest, acc);
    lemma_sections_are_read(secs, rest, acc);
    lemma_parser_form_is_skipped(form, rest, after_sections(secs, acc)->Some_0);
}

/// The rounds of a design leave its name as it is.
proof fn lemma_sections_keep_the_name(s: Input, acc: DsnPcbView)
    ensures
        pcb_items(s, acc) matches Ok((v, _)) ==> v.pcb_id == acc.pcb_id,
    decreases s.len(),
{
    broadcast use
        consumes_library,
        consumes_network,
        consumes_ignored,
        consumes_placement,
        consumes_resolution,
        consumes_structure,
        consumes_unit,
        consumes_wiring,
    ;

    match pcb_step(s, acc) {
        Step::More(next, rest) => {
            lemma_sections_keep_the_name(rest, next);
        },
        _ => {},
    }
}

/// A design starts with `(` and `pcb` and is named by the text of its third
/// token, whatever the tag of that token. The name is never empty: tokens
/// whose third has no text are no design.
pub proof fn lemma_design_is_named_by_third_token(s: Input)
    ensures
        document(s) matches Ok(v) ==> {
            &&& s.len() >= 4
            &&& s[0].tok == Tok::Lparen
            &&& s[1].tok == Tok::Pcb
            &&& v.pcb_id == s[2].s
            &&& v.pcb_id.len() > 0
        },
        s.len() >= 3 && s[0].tok == Tok::Lparen && s[1].tok == Tok::Pcb && s[2].s.len() == 0
            ==> document(s) == Err::<DsnPcbView, ParseErrorView>(ParseErrorView::EmptyId),
{
    if s.len() >= 3 {
        let acc = DsnPcbView { pcb_id: s[2].s, ..DsnPcbView::blank() };
        lemma_sections_keep_the_name(s.skip(1).skip(1).skip(1), acc);
    }
}

/// A design that is refused for a reason other than the end of its tokens is
/// refused for that reason whatever is put behind the tokens that were read.
/// A design that is read is the same whatever is put behind it.
pub proof fn lemma_design_reads_only_its_tokens(a: Input, x: Input)
    ensures
        document(a) matches Ok(v) ==> document(a + x) == Ok::<DsnPcbView, ParseErrorView>(v),
        document(a) matches Err(e) ==> e != ParseErrorView::UnexpectedEof ==> document(a + x)
            == Err::<DsnPcbView, ParseErrorView>(e),
{
    frame_pcb(a, x);
    refused_pcb(a, x);
}

/// A `parser` form behind the place where a design is refused, or behind the
/// end of a design, changes nothing. `front` is the tokens in front of the
/// form: they are a whole design, or a design that is refused for a reason
/// other than the end of the tokens.
pub proof fn lemma_parser_form_behind_a_refusal(front: Input, form: Input, rest: Input)
    ensures
        document(front) is Ok || (document(front) matches Err(e) && e
            != ParseErrorView::UnexpectedEof) ==> document(front + form + rest) == document(
            front + rest,
        ),
{
    lemma_design_reads_only_its_tokens(front, form + rest);
    lemma_design_reads_only_its_tokens(front, rest);
    assert(front + (form + rest) =~= front + form + rest);
}

} // verus!

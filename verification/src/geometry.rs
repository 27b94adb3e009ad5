//! Geometry as the draw pass hands it down the tree. Numbers are patterns;
//! their arithmetic is the caller's, handed in as two functions.

use vstd::prelude::*;
use crate::rendering::{RenderNode, RenderNodeView};
use crate::value::{Coefficients, Size};

verus! {

/// Where one occurrence of a node is drawn: its size in pixels and its
/// transform, composed with those above it.
#[derive(Copy, Clone, Debug)]
pub struct Geometry {
    pub size: (u64, u64),
    pub transform: Coefficients,
}

/// `percent_of` is a rule for percentages: it answers for every bound and
/// percentage, and always the same.
pub open spec fn is_percent_rule<P: Fn(u64, u64) -> u64>(percent_of: &P) -> bool {
    &&& forall|bound: u64, percent: u64| call_requires(*percent_of, (bound, percent))
    &&& forall|bound: u64, percent: u64, v1: u64, v2: u64|
        call_ensures(*percent_of, (bound, percent), v1) && call_ensures(
            *percent_of,
            (bound, percent),
            v2,
        ) ==> v1 == v2
}

/// `compose` is a rule for composing an inherited transform with a node's
/// own: it answers for every pair, and always the same.
pub open spec fn is_composition<C: Fn(Coefficients, Coefficients) -> Coefficients>(
    compose: &C,
) -> bool {
    &&& forall|inherited: Coefficients, own: Coefficients|
        call_requires(*compose, (inherited, own))
    &&& forall|inherited: Coefficients, own: Coefficients, t1: Coefficients, t2: Coefficients|
        call_ensures(*compose, (inherited, own), t1) && call_ensures(
            *compose,
            (inherited, own),
            t2,
        ) ==> t1 == t2
}

/// What `percent_of` makes of a bound and a percentage.
pub open spec fn percent_value<P: Fn(u64, u64) -> u64>(
    percent_of: &P,
    bound: u64,
    percent: u64,
) -> u64 {
    choose|v: u64| call_ensures(*percent_of, (bound, percent), v)
}

/// What `compose` makes of an inherited transform and a node's own.
pub open spec fn composed<C: Fn(Coefficients, Coefficients) -> Coefficients>(
    compose: &C,
    inherited: Coefficients,
    own: Coefficients,
) -> Coefficients {
    choose|t: Coefficients| call_ensures(*compose, (inherited, own), t)
}

/// A length of `size` within `bound`, in pixels: pixels are absolute, a
/// percentage is taken of the bound.
pub open spec fn resolved_length<P: Fn(u64, u64) -> u64>(
    percent_of: &P,
    size: Size<u64>,
    bound: u64,
) -> u64 {
    match size {
        Size::Pixel(p) => p,
        Size::Percent(p) => percent_value(percent_of, bound, p),
    }
}

/// The geometry of a node within the geometry it inherits: its size is
/// resolved against the inherited size, axis by axis, and is the inherited
/// size where the node has none of its own; its transform is composed with
/// the inherited transform.
pub open spec fn resolved<P: Fn(u64, u64) -> u64, C: Fn(Coefficients, Coefficients) -> Coefficients>(
    node: RenderNodeView,
    inherited: Geometry,
    percent_of: &P,
    compose: &C,
) -> Geometry {
    Geometry {
        size: match node.size() {
            Some((width, height)) => (
                resolved_length(percent_of, width, inherited.size.0),
                resolved_length(percent_of, height, inherited.size.1),
            ),
            None => inherited.size,
        },
        transform: composed(compose, inherited.transform, node.transform()),
    }
}

/// Resolves the geometry of `node` within the geometry it inherits.
pub fn resolve_geometry<
    P: Fn(u64, u64) -> u64,
    C: Fn(Coefficients, Coefficients) -> Coefficients,
>(node: &RenderNode, inherited: &Geometry, percent_of: &P, compose: &C) -> (geometry: Geometry)
    requires
        is_percent_rule(percent_of),
        is_composition(compose),
    ensures
        geometry == resolved(node@, *inherited, percent_of, compose),
{
    let size: (u64, u64) = node.get_size_calc(inherited.size, percent_of);
    let transform: Coefficients = compose(inherited.transform, node.get_transform());
    Geometry { size, transform }
}

/// The coefficients of a transform as a list.
pub fn coefficient_list(transform: &Coefficients) -> (list: Vec<u64>)
    ensures
        list@ == transform@,
{
    let mut list: Vec<u64> = Vec::new();
    let mut i: usize = 0;
    while i < 6
        invariant
            i <= 6,
            list@ == transform@.take(i as int),
        decreases 6 - i,
    {
        list.push(transform[i]);
        i = i + 1;
    }
    list
}

} // verus!

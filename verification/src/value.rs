//! Equality and copying of values, and the lists of values that the
//! animation properties hold: `SmallVec`s with room for one value inline.
//! A list is read as a slice and built from a `Vec`.

use crate::animation::{Animation, AnimationIterationCount, AnimationName};
use crate::easing::EasingFunction;
use crate::keywords::{AnimationDirection, AnimationFillMode, AnimationPlayState};
use crate::time::Time;
use smallvec::SmallVec;
use vstd::prelude::*;

verus! {

/// A list of values, held in a `SmallVec` with room for one value inline.
#[derive(Debug)]
#[verifier::external_body]
#[verifier::reject_recursive_types(T)]
pub struct CssList<T> {
    items: SmallVec<[T; 1]>,
}

/// A value of a property: it can be compared the way CSS compares it
/// (numbers by their binary32 value) and copied, and lists of it are held
/// in a `SmallVec`.
pub trait CssValue: Sized {
    /// `self` and `other` are equal values.
    spec fn css_eq(&self, other: &Self) -> bool;

    /// The values in a list, in order.
    spec fn items(list: CssList<Self>) -> Seq<Self>;

    /// Whether `self` and `other` are equal values.
    fn equals(&self, other: &Self) -> (r: bool)
        ensures
            r == self.css_eq(other),
    ;

    /// A copy of `self`.
    fn duplicate(&self) -> (r: Self)
        ensures
            r == *self,
    ;

    /// The values in a list.
    fn as_items(list: &CssList<Self>) -> (r: &[Self])
        ensures
            r@ == Self::items(*list),
    ;

    /// The list of the values `v`.
    fn from_items(v: Vec<Self>) -> (r: CssList<Self>)
        ensures
            Self::items(r) == v@,
    ;
}

/// The values in a list of `AnimationName`.
pub uninterp spec fn animation_names_in(list: CssList<AnimationName>) -> Seq<AnimationName>;

/// Calls `SmallVec::as_slice` on the list, which gives its values in order.
#[verifier::external_body]
pub(crate) fn animation_name_slice(list: &CssList<AnimationName>) -> (r: &[AnimationName])
    ensures
        r@ == animation_names_in(*list),
{
    list.items.as_slice()
}

/// Calls `SmallVec::from_vec`, which makes a list of the values of `v`,
/// in order.
#[verifier::external_body]
pub(crate) fn animation_name_list(v: Vec<AnimationName>) -> (r: CssList<AnimationName>)
    ensures
        animation_names_in(r) == v@,
{
    CssList { items: SmallVec::from_vec(v) }
}

/// The values in a list of `Time`.
pub uninterp spec fn times_in(list: CssList<Time>) -> Seq<Time>;

/// Calls `SmallVec::as_slice` on the list, which gives its values in order.
#[verifier::external_body]
pub(crate) fn time_slice(list: &CssList<Time>) -> (r: &[Time])
    ensures
        r@ == times_in(*list),
{
    list.items.as_slice()
}

/// Calls `SmallVec::from_vec`, which makes a list of the values of `v`,
/// in order.
#[verifier::external_body]
pub(crate) fn time_list(v: Vec<Time>) -> (r: CssList<Time>)
    ensures
        times_in(r) == v@,
{
    CssList { items: SmallVec::from_vec(v) }
}

/// The values in a list of `EasingFunction`.
pub uninterp spec fn easing_functions_in(list: CssList<EasingFunction>) -> Seq<EasingFunction>;

/// Calls `SmallVec::as_slice` on the list, which gives its values in order.
#[verifier::external_body]
pub(crate) fn easing_function_slice(list: &CssList<EasingFunction>) -> (r: &[EasingFunction])
    ensures
        r@ == easing_functions_in(*list),
{
    list.items.as_slice()
}

/// Calls `SmallVec::from_vec`, which makes a list of the values of `v`,
/// in order.
#[verifier::external_body]
pub(crate) fn easing_function_list(v: Vec<EasingFunction>) -> (r: CssList<EasingFunction>)
    ensures
        easing_functions_in(r) == v@,
{
    CssList { items: SmallVec::from_vec(v) }
}

/// The values in a list of `AnimationIterationCount`.
pub uninterp spec fn iteration_counts_in(list: CssList<AnimationIterationCount>) -> Seq<AnimationIterationCount>;

/// Calls `SmallVec::as_slice` on the list, which gives its values in order.
#[verifier::external_body]
pub(crate) fn iteration_count_slice(list: &CssList<AnimationIterationCount>) -> (r: &[AnimationIterationCount])
    ensures
        r@ == iteration_counts_in(*list),
{
    list.items.as_slice()
}

/// Calls `SmallVec::from_vec`, which makes a list of the values of `v`,
/// in order.
#[verifier::external_body]
pub(crate) fn iteration_count_list(v: Vec<AnimationIterationCount>) -> (r: CssList<AnimationIterationCount>)
    ensures
        iteration_counts_in(r) == v@,
{
    CssList { items: SmallVec::from_vec(v) }
}

/// The values in a list of `AnimationDirection`.
pub uninterp spec fn directions_in(list: CssList<AnimationDirection>) -> Seq<AnimationDirection>;

/// Calls `SmallVec::as_slice` on the list, which gives its values in order.
#[verifier::external_body]
pub(crate) fn direction_slice(list: &CssList<AnimationDirection>) -> (r: &[AnimationDirection])
    ensures
        r@ == directions_in(*list),
{
    list.items.as_slice()
}

/// Calls `SmallVec::from_vec`, which makes a list of the values of `v`,
/// in order.
#[verifier::external_body]
pub(crate) fn direction_list(v: Vec<AnimationDirection>) -> (r: CssList<AnimationDirection>)
    ensures
        directions_in(r) == v@,
{
    CssList { items: SmallVec::from_vec(v) }
}

/// The values in a list of `AnimationPlayState`.
pub uninterp spec fn play_states_in(list: CssList<AnimationPlayState>) -> Seq<AnimationPlayState>;

/// Calls `SmallVec::as_slice` on the list, which gives its values in order.
#[verifier::external_body]
pub(crate) fn play_state_slice(list: &CssList<AnimationPlayState>) -> (r: &[AnimationPlayState])
    ensures
        r@ == play_states_in(*list),
{
    list.items.as_slice()
}

/// Calls `SmallVec::from_vec`, which makes a list of the values of `v`,
/// in order.
#[verifier::external_body]
pub(crate) fn play_state_list(v: Vec<AnimationPlayState>) -> (r: CssList<AnimationPlayState>)
    ensures
        play_states_in(r) == v@,
{
    CssList { items: SmallVec::from_vec(v) }
}

/// The values in a list of `AnimationFillMode`.
pub uninterp spec fn fill_modes_in(list: CssList<AnimationFillMode>) -> Seq<AnimationFillMode>;

/// Calls `SmallVec::as_slice` on the list, which gives its values in order.
#[verifier::external_body]
pub(crate) fn fill_mode_slice(list: &CssList<AnimationFillMode>) -> (r: &[AnimationFillMode])
    ensures
        r@ == fill_modes_in(*list),
{
    list.items.as_slice()
}

/// Calls `SmallVec::from_vec`, which makes a list of the values of `v`,
/// in order.
#[verifier::external_body]
pub(crate) fn fill_mode_list(v: Vec<AnimationFillMode>) -> (r: CssList<AnimationFillMode>)
    ensures
        fill_modes_in(r) == v@,
{
    CssList { items: SmallVec::from_vec(v) }
}

/// The values in a list of `Animation`.
pub uninterp spec fn animations_in(list: CssList<Animation>) -> Seq<Animation>;

/// Calls `SmallVec::as_slice` on the list, which gives its values in order.
#[verifier::external_body]
pub(crate) fn animation_slice(list: &CssList<Animation>) -> (r: &[Animation])
    ensures
        r@ == animations_in(*list),
{
    list.items.as_slice()
}

/// Calls `SmallVec::from_vec`, which makes a list of the values of `v`,
/// in order.
#[verifier::external_body]
pub(crate) fn animation_list(v: Vec<Animation>) -> (r: CssList<Animation>)
    ensures
        animations_in(r) == v@,
{
    CssList { items: SmallVec::from_vec(v) }
}

/// The two lists have the same length and equal values at each index.
pub open spec fn lists_eq<T: CssValue>(a: Seq<T>, b: Seq<T>) -> bool {
    &&& a.len() == b.len()
    &&& forall|i: int| 0 <= i < a.len() ==> #[trigger] a[i].css_eq(&b[i])
}

/// Whether the two lists hold equal values.
pub fn list_equals<T: CssValue>(a: &[T], b: &[T]) -> (r: bool)
    ensures
        r == lists_eq(a@, b@),
{
    if a.len() != b.len() {
        return false;
    }
    let mut i: usize = 0;
    while i < a.len()
        invariant
            i <= a@.len(),
            a@.len() == b@.len(),
            forall|j: int| 0 <= j < i ==> #[trigger] a@[j].css_eq(&b@[j]),
        decreases a@.len() - i,
    {
        if !a[i].equals(&b[i]) {
            return false;
        }
        i = i + 1;
    }
    true
}

/// A copy of the values.
pub fn list_duplicate<T: CssValue>(v: &[T]) -> (r: Vec<T>)
    ensures
        r@ == v@,
{
    let mut out: Vec<T> = Vec::new();
    let mut i: usize = 0;
    while i < v.len()
        invariant
            i <= v@.len(),
            out@ =~= v@.subrange(0, i as int),
        decreases v@.len() - i,
    {
        out.push(v[i].duplicate());
        i = i + 1;
    }
    out
}

} // verus!

//! The declarations that the animation handler reads and writes.

use crate::animation::{Animation, AnimationIterationCount, AnimationName};
use crate::easing::EasingFunction;
use crate::keywords::{AnimationDirection, AnimationFillMode, AnimationPlayState};
use crate::prefix::{VendorPrefix, PREFIX_NONE};
use crate::time::Time;
use crate::value::{CssList, CssValue};
use vstd::prelude::*;

verus! {

/// The name of a property, with its vendor prefixes.
#[derive(Debug)]
pub enum PropertyId {
    AnimationName(VendorPrefix),
    AnimationDuration(VendorPrefix),
    AnimationTimingFunction(VendorPrefix),
    AnimationIterationCount(VendorPrefix),
    AnimationDirection(VendorPrefix),
    AnimationPlayState(VendorPrefix),
    AnimationDelay(VendorPrefix),
    AnimationFillMode(VendorPrefix),
    Animation(VendorPrefix),
    /// Any other property, by name.
    Other(String),
}

impl PropertyId {
    /// The vendor prefixes of the name; none for another property.
    pub open spec fn spec_prefix(&self) -> VendorPrefix {
        match *self {
            PropertyId::AnimationName(p) => p,
            PropertyId::AnimationDuration(p) => p,
            PropertyId::AnimationTimingFunction(p) => p,
            PropertyId::AnimationIterationCount(p) => p,
            PropertyId::AnimationDirection(p) => p,
            PropertyId::AnimationPlayState(p) => p,
            PropertyId::AnimationDelay(p) => p,
            PropertyId::AnimationFillMode(p) => p,
            PropertyId::Animation(p) => p,
            PropertyId::Other(_) => VendorPrefix { bits: 0 },
        }
    }

    /// The vendor prefixes of the name.
    pub fn prefix(&self) -> (p: VendorPrefix)
        ensures
            p == self.spec_prefix(),
    {
        match self {
            PropertyId::AnimationName(p) => *p,
            PropertyId::AnimationDuration(p) => *p,
            PropertyId::AnimationTimingFunction(p) => *p,
            PropertyId::AnimationIterationCount(p) => *p,
            PropertyId::AnimationDirection(p) => *p,
            PropertyId::AnimationPlayState(p) => *p,
            PropertyId::AnimationDelay(p) => *p,
            PropertyId::AnimationFillMode(p) => *p,
            PropertyId::Animation(p) => *p,
            PropertyId::Other(_) => VendorPrefix { bits: 0 },
        }
    }

    /// The same name with the prefixes `p`; another property is unchanged.
    pub open spec fn spec_with_prefix(&self, p: VendorPrefix) -> PropertyId {
        match *self {
            PropertyId::AnimationName(_) => PropertyId::AnimationName(p),
            PropertyId::AnimationDuration(_) => PropertyId::AnimationDuration(p),
            PropertyId::AnimationTimingFunction(_) => PropertyId::AnimationTimingFunction(p),
            PropertyId::AnimationIterationCount(_) => PropertyId::AnimationIterationCount(p),
            PropertyId::AnimationDirection(_) => PropertyId::AnimationDirection(p),
            PropertyId::AnimationPlayState(_) => PropertyId::AnimationPlayState(p),
            PropertyId::AnimationDelay(_) => PropertyId::AnimationDelay(p),
            PropertyId::AnimationFillMode(_) => PropertyId::AnimationFillMode(p),
            PropertyId::Animation(_) => PropertyId::Animation(p),
            PropertyId::Other(s) => PropertyId::Other(s),
        }
    }

    /// The same name with the prefixes `p`.
    pub fn with_prefix(&self, p: VendorPrefix) -> (r: PropertyId)
        ensures
            r == self.spec_with_prefix(p),
    {
        match self {
            PropertyId::AnimationName(_) => PropertyId::AnimationName(p),
            PropertyId::AnimationDuration(_) => PropertyId::AnimationDuration(p),
            PropertyId::AnimationTimingFunction(_) => PropertyId::AnimationTimingFunction(p),
            PropertyId::AnimationIterationCount(_) => PropertyId::AnimationIterationCount(p),
            PropertyId::AnimationDirection(_) => PropertyId::AnimationDirection(p),
            PropertyId::AnimationPlayState(_) => PropertyId::AnimationPlayState(p),
            PropertyId::AnimationDelay(_) => PropertyId::AnimationDelay(p),
            PropertyId::AnimationFillMode(_) => PropertyId::AnimationFillMode(p),
            PropertyId::Animation(_) => PropertyId::Animation(p),
            PropertyId::Other(s) => PropertyId::Other(s.clone()),
        }
    }

    /// The name is one of the animation properties.
    pub open spec fn spec_is_animation(&self) -> bool {
        !(*self is Other)
    }
}

/// Whether the property is `animation` or one of its longhands.
pub(crate) fn is_animation_property(property_id: &PropertyId) -> (r: bool)
    ensures
        r == property_id.spec_is_animation(),
{
    match property_id {
        PropertyId::AnimationName(_)
        | PropertyId::AnimationDuration(_)
        | PropertyId::AnimationTimingFunction(_)
        | PropertyId::AnimationIterationCount(_)
        | PropertyId::AnimationDirection(_)
        | PropertyId::AnimationPlayState(_)
        | PropertyId::AnimationDelay(_)
        | PropertyId::AnimationFillMode(_)
        | PropertyId::Animation(_) => true,
        _ => false,
    }
}

/// A declaration kept as written, such as one whose value holds `var()`.
#[derive(Debug)]
pub struct UnparsedProperty {
    pub property_id: PropertyId,
    /// The text of the value.
    pub value: String,
}

/// The prefixes to write for a property with the prefixes `p`: those the
/// targets need, when `p` holds the unprefixed name and there are targets.
pub open spec fn prefixes_for_targets(p: VendorPrefix, targets: Option<VendorPrefix>) -> VendorPrefix {
    if p.spec_contains(VendorPrefix { bits: PREFIX_NONE }) {
        match targets {
            Some(t) => t,
            None => p,
        }
    } else {
        p
    }
}

/// The prefixes to write for a property with the prefixes `p`.
pub fn target_prefixes(p: VendorPrefix, targets: Option<VendorPrefix>) -> (r: VendorPrefix)
    ensures
        r == prefixes_for_targets(p, targets),
{
    if p.contains(VendorPrefix::none()) {
        match targets {
            Some(t) => t,
            None => p,
        }
    } else {
        p
    }
}

impl UnparsedProperty {
    /// The declaration with its name given the prefixes the targets need.
    pub open spec fn spec_get_prefixed(self, targets: Option<VendorPrefix>) -> UnparsedProperty {
        UnparsedProperty {
            property_id: self.property_id.spec_with_prefix(
                prefixes_for_targets(self.property_id.spec_prefix(), targets),
            ),
            value: self.value,
        }
    }

    /// The declaration with its name given the prefixes the targets need.
    pub fn get_prefixed(&self, targets: Option<VendorPrefix>) -> (r: UnparsedProperty)
        ensures
            r == self.spec_get_prefixed(targets),
    {
        let p = target_prefixes(self.property_id.prefix(), targets);
        UnparsedProperty { property_id: self.property_id.with_prefix(p), value: self.value.clone() }
    }
}

/// A declaration.
#[derive(Debug)]
pub enum Property {
    AnimationName(CssList<AnimationName>, VendorPrefix),
    AnimationDuration(CssList<Time>, VendorPrefix),
    AnimationTimingFunction(CssList<EasingFunction>, VendorPrefix),
    AnimationIterationCount(CssList<AnimationIterationCount>, VendorPrefix),
    AnimationDirection(CssList<AnimationDirection>, VendorPrefix),
    AnimationPlayState(CssList<AnimationPlayState>, VendorPrefix),
    AnimationDelay(CssList<Time>, VendorPrefix),
    AnimationFillMode(CssList<AnimationFillMode>, VendorPrefix),
    Animation(CssList<Animation>, VendorPrefix),
    Unparsed(UnparsedProperty),
    /// A declaration of another property, by name.
    Other(String),
}

/// A declaration, with its lists of values as sequences.
pub enum PropertyView {
    AnimationName(Seq<AnimationName>, VendorPrefix),
    AnimationDuration(Seq<Time>, VendorPrefix),
    AnimationTimingFunction(Seq<EasingFunction>, VendorPrefix),
    AnimationIterationCount(Seq<AnimationIterationCount>, VendorPrefix),
    AnimationDirection(Seq<AnimationDirection>, VendorPrefix),
    AnimationPlayState(Seq<AnimationPlayState>, VendorPrefix),
    AnimationDelay(Seq<Time>, VendorPrefix),
    AnimationFillMode(Seq<AnimationFillMode>, VendorPrefix),
    Animation(Seq<Animation>, VendorPrefix),
    Unparsed(UnparsedProperty),
    Other(String),
}

impl View for Property {
    type V = PropertyView;

    open spec fn view(&self) -> PropertyView {
        match *self {
            Property::AnimationName(v, p) => PropertyView::AnimationName(AnimationName::items(v), p),
            Property::AnimationDuration(v, p) => PropertyView::AnimationDuration(Time::items(v), p),
            Property::AnimationTimingFunction(v, p) => PropertyView::AnimationTimingFunction(EasingFunction::items(v), p),
            Property::AnimationIterationCount(v, p) => PropertyView::AnimationIterationCount(AnimationIterationCount::items(v), p),
            Property::AnimationDirection(v, p) => PropertyView::AnimationDirection(AnimationDirection::items(v), p),
            Property::AnimationPlayState(v, p) => PropertyView::AnimationPlayState(AnimationPlayState::items(v), p),
            Property::AnimationDelay(v, p) => PropertyView::AnimationDelay(Time::items(v), p),
            Property::AnimationFillMode(v, p) => PropertyView::AnimationFillMode(AnimationFillMode::items(v), p),
            Property::Animation(v, p) => PropertyView::Animation(Animation::items(v), p),
            Property::Unparsed(u) => PropertyView::Unparsed(u),
            Property::Other(s) => PropertyView::Other(s),
        }
    }
}

/// The declarations of a list, as views.
pub open spec fn views(ps: Seq<Property>) -> Seq<PropertyView> {
    ps.map_values(|p: Property| p@)
}

/// `after` is `before` with declarations appended: those of `before` are
/// kept, unchanged and in order, at its start.
pub open spec fn extends(before: Seq<Property>, after: Seq<Property>) -> bool {
    &&& before.len() <= after.len()
    &&& after.subrange(0, before.len() as int) == before
}

/// Every list extends itself.
pub proof fn lemma_extends_refl(a: Seq<Property>)
    ensures
        extends(a, a),
{
    assert(a.subrange(0, a.len() as int) =~= a);
}

/// A list that extends one that extends `a` extends `a`.
pub proof fn lemma_extends_trans(a: Seq<Property>, b: Seq<Property>, c: Seq<Property>)
    requires
        extends(a, b),
        extends(b, c),
    ensures
        extends(a, c),
{
    assert(c.subrange(0, a.len() as int) =~= b.subrange(0, a.len() as int));
}

/// Appends a declaration.
pub(crate) fn push_property(dest: &mut Vec<Property>, p: Property)
    ensures
        final(dest)@ == old(dest)@.push(p),
        views(final(dest)@) == views(old(dest)@).push(p@),
        extends(old(dest)@, final(dest)@),
{
    dest.push(p);
    assert(views(dest@) =~= views(old(dest)@).push(p@));
    assert(dest@.subrange(0, old(dest)@.len() as int) =~= old(dest)@);
}

} // verus!

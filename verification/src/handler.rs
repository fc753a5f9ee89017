//! The handler of animation declarations in a rule: it gathers the
//! `animation` shorthand and its longhands, and writes them back out as
//! the shorthand where all longhands allow it, else as longhands.

use crate::animation::{Animation, AnimationIterationCount, AnimationName};
use crate::easing::EasingFunction;
use crate::keywords::{AnimationDirection, AnimationFillMode, AnimationPlayState};
use crate::prefix::VendorPrefix;
use crate::property::{
    extends, is_animation_property, lemma_extends_refl, lemma_extends_trans, prefixes_for_targets,
    push_property, target_prefixes, views, Property, PropertyView, UnparsedProperty,
};
use crate::time::Time;
use crate::value::{CssList, CssValue, list_duplicate, list_equals, lists_eq};
use vstd::prelude::*;

verus! {

/// The values gathered for one longhand, and the prefixes it was seen with.
pub type Gathered<T> = Option<(CssList<T>, VendorPrefix)>;

/// A gathered longhand, with its list as a sequence.
pub open spec fn gathered_view<T: CssValue>(g: Gathered<T>) -> Option<(Seq<T>, VendorPrefix)> {
    match g {
        Some((v, p)) => Some((T::items(v), p)),
        None => None,
    }
}

/// The list of a gathered longhand; empty if there is none.
pub open spec fn list_of<T>(g: Option<(Seq<T>, VendorPrefix)>) -> Seq<T> {
    match g {
        Some((v, _)) => v,
        None => Seq::empty(),
    }
}

/// The prefixes of a gathered longhand; none if there is none.
pub open spec fn prefix_of<T>(g: Option<(Seq<T>, VendorPrefix)>) -> VendorPrefix {
    match g {
        Some((_, p)) => p,
        None => VendorPrefix { bits: 0 },
    }
}

/// The state of a handler, with its lists as sequences.
pub struct HandlerView {
    pub targets: Option<VendorPrefix>,
    pub names: Option<(Seq<AnimationName>, VendorPrefix)>,
    pub durations: Option<(Seq<Time>, VendorPrefix)>,
    pub timing_functions: Option<(Seq<EasingFunction>, VendorPrefix)>,
    pub iteration_counts: Option<(Seq<AnimationIterationCount>, VendorPrefix)>,
    pub directions: Option<(Seq<AnimationDirection>, VendorPrefix)>,
    pub play_states: Option<(Seq<AnimationPlayState>, VendorPrefix)>,
    pub delays: Option<(Seq<Time>, VendorPrefix)>,
    pub fill_modes: Option<(Seq<AnimationFillMode>, VendorPrefix)>,
    pub has_any: bool,
}

/// The longhand declaration built from `v` and `p`, written with the
/// prefixes the targets need, if `p` is not empty.
pub open spec fn emitted<T>(
    v: Seq<T>,
    p: VendorPrefix,
    targets: Option<VendorPrefix>,
    ctor: spec_fn(Seq<T>, VendorPrefix) -> PropertyView,
) -> Seq<PropertyView> {
    if p.bits != 0 {
        seq![ctor(v, prefixes_for_targets(p, targets))]
    } else {
        seq![]
    }
}

/// What remains of a gathered longhand once the shorthand has been written
/// (if `shorthand`) with the prefixes `common`: its values have gone into
/// the shorthand, and it keeps only its other prefixes.
pub open spec fn leftover<T>(g: Option<(Seq<T>, VendorPrefix)>, shorthand: bool, common: VendorPrefix) -> Option<(Seq<T>, VendorPrefix)> {
    match g {
        Some((v, p)) => if shorthand {
            Some((Seq::empty(), VendorPrefix { bits: p.bits & !common.bits }))
        } else {
            Some((v, p))
        },
        None => None,
    }
}

/// The declaration written for what remains of a gathered longhand.
pub open spec fn longhand_output<T>(
    g: Option<(Seq<T>, VendorPrefix)>,
    shorthand: bool,
    common: VendorPrefix,
    targets: Option<VendorPrefix>,
    ctor: spec_fn(Seq<T>, VendorPrefix) -> PropertyView,
) -> Seq<PropertyView> {
    match leftover(g, shorthand, common) {
        Some((v, p)) => emitted(v, p, targets, ctor),
        None => seq![],
    }
}

impl HandlerView {
    /// Nothing gathered.
    pub open spec fn empty(targets: Option<VendorPrefix>) -> HandlerView {
        HandlerView {
            targets,
            names: None,
            durations: None,
            timing_functions: None,
            iteration_counts: None,
            directions: None,
            play_states: None,
            delays: None,
            fill_modes: None,
            has_any: false,
        }
    }

    /// The handler holds some declaration exactly when it says so.
    pub open spec fn wf(self) -> bool {
        self.has_any == (self.names is Some || self.durations is Some || self.timing_functions is Some
            || self.iteration_counts is Some || self.directions is Some || self.play_states is Some
            || self.delays is Some || self.fill_modes is Some)
    }

    /// Nothing gathered, with the same targets.
    pub open spec fn cleared(self) -> HandlerView {
        HandlerView {
            targets: self.targets,
            names: None,
            durations: None,
            timing_functions: None,
            iteration_counts: None,
            directions: None,
            play_states: None,
            delays: None,
            fill_modes: None,
            has_any: false,
        }
    }

    /// Every longhand has been gathered.
    pub open spec fn all_present(self) -> bool {
        &&& self.names is Some
        &&& self.durations is Some
        &&& self.timing_functions is Some
        &&& self.iteration_counts is Some
        &&& self.directions is Some
        &&& self.play_states is Some
        &&& self.delays is Some
        &&& self.fill_modes is Some
    }

    /// The prefixes common to all gathered longhands (none if one is missing).
    pub open spec fn common_prefix(self) -> VendorPrefix {
        VendorPrefix {
            bits: prefix_of(self.names).bits & prefix_of(self.durations).bits & prefix_of(self.timing_functions).bits
                & prefix_of(self.iteration_counts).bits & prefix_of(self.directions).bits & prefix_of(
                self.play_states,
            ).bits & prefix_of(self.delays).bits & prefix_of(self.fill_modes).bits,
        }
    }

    /// The shorthand can be written: every longhand is there, they share a
    /// prefix, and they list as many animations each.
    pub open spec fn shorthand_applies(self) -> bool {
        let n = list_of(self.names).len();
        &&& self.all_present()
        &&& self.common_prefix().bits != 0
        &&& list_of(self.durations).len() == n
        &&& list_of(self.timing_functions).len() == n
        &&& list_of(self.iteration_counts).len() == n
        &&& list_of(self.directions).len() == n
        &&& list_of(self.play_states).len() == n
        &&& list_of(self.delays).len() == n
        &&& list_of(self.fill_modes).len() == n
    }

    /// The animations of the shorthand: the `i`th one takes the `i`th value
    /// of each longhand.
    pub open spec fn zipped(self) -> Seq<Animation> {
        Seq::new(
            list_of(self.names).len(),
            |i: int|
                Animation {
                    name: list_of(self.names)[i],
                    duration: list_of(self.durations)[i],
                    timing_function: list_of(self.timing_functions)[i],
                    iteration_count: list_of(self.iteration_counts)[i],
                    direction: list_of(self.directions)[i],
                    play_state: list_of(self.play_states)[i],
                    delay: list_of(self.delays)[i],
                    fill_mode: list_of(self.fill_modes)[i],
                },
        )
    }

    /// The declarations written by a flush: the shorthand if it applies,
    /// then each longhand that keeps some prefix, in the order name,
    /// duration, timing function, iteration count, direction, play state,
    /// delay and fill mode.  Nothing if nothing was gathered.
    pub open spec fn flush_output(self) -> Seq<PropertyView> {
        if !self.has_any {
            seq![]
        } else {
            let sh = self.shorthand_applies();
            let c = self.common_prefix();
            let t = self.targets;
            (if sh {
                seq![PropertyView::Animation(self.zipped(), prefixes_for_targets(c, t))]
            } else {
                seq![]
            }) + self.longhands_output(sh, c)
        }
    }

    /// The declarations written for the name, duration, timing function
    /// and iteration count longhands by a flush.
    pub open spec fn first_longhands_output(self, sh: bool, c: VendorPrefix) -> Seq<PropertyView> {
        let t = self.targets;
        longhand_output(self.names, sh, c, t, |v, p| PropertyView::AnimationName(v, p))
            + longhand_output(self.durations, sh, c, t, |v, p| PropertyView::AnimationDuration(v, p))
            + longhand_output(self.timing_functions, sh, c, t, |v, p| PropertyView::AnimationTimingFunction(v, p))
            + longhand_output(self.iteration_counts, sh, c, t, |v, p| PropertyView::AnimationIterationCount(v, p))
    }

    /// The declarations written for the direction, play state, delay and
    /// fill mode longhands by a flush.
    pub open spec fn last_longhands_output(self, sh: bool, c: VendorPrefix) -> Seq<PropertyView> {
        let t = self.targets;
        longhand_output(self.directions, sh, c, t, |v, p| PropertyView::AnimationDirection(v, p))
            + longhand_output(self.play_states, sh, c, t, |v, p| PropertyView::AnimationPlayState(v, p))
            + longhand_output(self.delays, sh, c, t, |v, p| PropertyView::AnimationDelay(v, p))
            + longhand_output(self.fill_modes, sh, c, t, |v, p| PropertyView::AnimationFillMode(v, p))
    }

    /// The longhand declarations written by a flush.
    pub open spec fn longhands_output(self, sh: bool, c: VendorPrefix) -> Seq<PropertyView> {
        self.first_longhands_output(sh, c) + self.last_longhands_output(sh, c)
    }

    /// The state after a flush.
    pub open spec fn flushed(self) -> HandlerView {
        if !self.has_any {
            self
        } else {
            self.cleared()
        }
    }
}

/// The handler of the animation declarations of a rule.
pub struct AnimationHandler {
    /// The prefixes that the target browsers need for the animation
    /// properties, when there are targets.
    pub targets: Option<VendorPrefix>,
    pub names: Gathered<AnimationName>,
    pub durations: Gathered<Time>,
    pub timing_functions: Gathered<EasingFunction>,
    pub iteration_counts: Gathered<AnimationIterationCount>,
    pub directions: Gathered<AnimationDirection>,
    pub play_states: Gathered<AnimationPlayState>,
    pub delays: Gathered<Time>,
    pub fill_modes: Gathered<AnimationFillMode>,
    pub has_any: bool,
}

impl View for AnimationHandler {
    type V = HandlerView;

    open spec fn view(&self) -> HandlerView {
        HandlerView {
            targets: self.targets,
            names: gathered_view(self.names),
            durations: gathered_view(self.durations),
            timing_functions: gathered_view(self.timing_functions),
            iteration_counts: gathered_view(self.iteration_counts),
            directions: gathered_view(self.directions),
            play_states: gathered_view(self.play_states),
            delays: gathered_view(self.delays),
            fill_modes: gathered_view(self.fill_modes),
            has_any: self.has_any,
        }
    }
}

fn gathered_prefix<T: CssValue>(g: &Gathered<T>) -> (p: VendorPrefix)
    ensures
        p == prefix_of(gathered_view(*g)),
{
    match g {
        Some((_, p)) => *p,
        None => VendorPrefix { bits: 0 },
    }
}

fn gathered_len<T: CssValue>(g: &Gathered<T>) -> (n: usize)
    ensures
        n == list_of(gathered_view(*g)).len(),
{
    match g {
        Some((v, _)) => T::as_items(v).len(),
        None => 0,
    }
}

/// What remains of a gathered longhand after the shorthand, with the
/// prefixes to write it with, if it is to be written.
fn leftover_to_write<T: CssValue>(
    g: Gathered<T>,
    shorthand: bool,
    common: VendorPrefix,
    targets: Option<VendorPrefix>,
) -> (r: Option<(CssList<T>, VendorPrefix)>)
    ensures
        match leftover(gathered_view(g), shorthand, common) {
            Some((v, p)) => if p.bits != 0 {
                r matches Some((rv, rp)) && T::items(rv) == v && rp == prefixes_for_targets(p, targets)
            } else {
                r is None
            },
            None => r is None,
        },
{
    match g {
        Some((v, p)) => {
            let (v2, p2) = if shorthand {
                (T::from_items(Vec::new()), p.difference(common))
            } else {
                (v, p)
            };
            if !p2.is_empty() {
                Some((v2, target_prefixes(p2, targets)))
            } else {
                None
            }
        },
        None => None,
    }
}

} // verus!

verus! {


/// Writes what remains of a gathered longhand, as the declaration that
/// `make` builds (whose view `ctor` gives), if it keeps some prefix.
fn emit_longhand<T: CssValue, F: Fn(CssList<T>, VendorPrefix) -> Property>(
    g: Gathered<T>,
    sh: bool,
    c: VendorPrefix,
    targets: Option<VendorPrefix>,
    dest: &mut Vec<Property>,
    make: F,
    Ghost(ctor): Ghost<spec_fn(Seq<T>, VendorPrefix) -> PropertyView>,
)
    requires
        forall|v: CssList<T>, p: VendorPrefix| make.requires((v, p)),
        forall|v: CssList<T>, p: VendorPrefix, r: Property| make.ensures((v, p), r) ==> r@ == ctor(T::items(v), p),
    ensures
        views(final(dest)@) == views(old(dest)@) + longhand_output(gathered_view(g), sh, c, targets, ctor),
        extends(old(dest)@, final(dest)@),
{
    if let Some((v, p)) = leftover_to_write(g, sh, c, targets) {
        let prop = make(v, p);
        push_property(dest, prop);
    } else {
        assert(views(dest@) =~= views(old(dest)@) + longhand_output(gathered_view(g), sh, c, targets, ctor));
        proof {
            lemma_extends_refl(dest@);
        }
    }
}

impl AnimationHandler {
    /// A handler with nothing gathered.  `targets` are the prefixes that
    /// the target browsers need for the animation properties.
    pub fn new(targets: Option<VendorPrefix>) -> (h: AnimationHandler)
        ensures
            h@ == HandlerView::empty(targets),
            h@.wf(),
    {
        AnimationHandler {
            targets,
            names: None,
            durations: None,
            timing_functions: None,
            iteration_counts: None,
            directions: None,
            play_states: None,
            delays: None,
            fill_modes: None,
            has_any: false,
        }
    }

    fn zip_animations(&self) -> (r: CssList<Animation>)
        requires
            self@.shorthand_applies(),
        ensures
            Animation::items(r) == self@.zipped(),
    {
        let mut out: Vec<Animation> = Vec::new();
        match (
            &self.names,
            &self.durations,
            &self.timing_functions,
            &self.iteration_counts,
            &self.directions,
            &self.play_states,
            &self.delays,
            &self.fill_modes,
        ) {
            (
                Some((names, _)),
                Some((durations, _)),
                Some((timing_functions, _)),
                Some((iteration_counts, _)),
                Some((directions, _)),
                Some((play_states, _)),
                Some((delays, _)),
                Some((fill_modes, _)),
            ) => {
                let names = AnimationName::as_items(names);
                let durations = Time::as_items(durations);
                let timing_functions = EasingFunction::as_items(timing_functions);
                let iteration_counts = AnimationIterationCount::as_items(iteration_counts);
                let directions = AnimationDirection::as_items(directions);
                let play_states = AnimationPlayState::as_items(play_states);
                let delays = Time::as_items(delays);
                let fill_modes = AnimationFillMode::as_items(fill_modes);
                let n = names.len();
                let mut i: usize = 0;
                while i < n
                    invariant
                        i <= n,
                        n == names@.len(),
                        self@.shorthand_applies(),
                        list_of(self@.names) == names@,
                        list_of(self@.durations) == durations@,
                        list_of(self@.timing_functions) == timing_functions@,
                        list_of(self@.iteration_counts) == iteration_counts@,
                        list_of(self@.directions) == directions@,
                        list_of(self@.play_states) == play_states@,
                        list_of(self@.delays) == delays@,
                        list_of(self@.fill_modes) == fill_modes@,
                        out@ =~= self@.zipped().subrange(0, i as int),
                    decreases n - i,
                {
                    out.push(
                        Animation {
                            name: names[i].duplicate(),
                            duration: durations[i].duplicate(),
                            timing_function: timing_functions[i].duplicate(),
                            iteration_count: iteration_counts[i].duplicate(),
                            direction: directions[i].duplicate(),
                            play_state: play_states[i].duplicate(),
                            delay: delays[i].duplicate(),
                            fill_mode: fill_modes[i].duplicate(),
                        },
                    );
                    i = i + 1;
                }
            },
            _ => {},
        }
        Animation::from_items(out)
    }

    /// Writes out what has been gathered (see `HandlerView::flush_output`)
    /// and forgets it.
    fn flush(&mut self, dest: &mut Vec<Property>)
        requires
            old(self)@.wf(),
        ensures
            final(self)@ == old(self)@.flushed(),
            final(self)@ == old(self)@.cleared(),
            final(self)@.wf(),
            views(final(dest)@) == views(old(dest)@) + old(self)@.flush_output(),
            extends(old(dest)@, final(dest)@),
    {
        if !self.has_any {
            assert(views(dest@) =~= views(dest@) + old(self)@.flush_output());
            proof {
                lemma_extends_refl(dest@);
            }
            return;
        }
        let ghost h = self@;
        let (shorthand, common) = self.shorthand_plan();
        let ghost out0 = views(dest@);
        if shorthand {
            let animations = self.zip_animations();
            push_property(dest, Property::Animation(animations, target_prefixes(common, self.targets)));
        }
        let ghost out1 = views(dest@);
        let ghost d1 = dest@;
        proof {
            if !shorthand {
                lemma_extends_refl(dest@);
            }
        }
        assert(out1 =~= out0 + (if shorthand {
            seq![PropertyView::Animation(h.zipped(), prefixes_for_targets(common, h.targets))]
        } else {
            seq![]
        }));
        self.has_any = false;
        self.emit_first_longhands(dest, shorthand, common);
        let ghost d2 = dest@;
        self.emit_last_longhands(dest, shorthand, common);
        proof {
            lemma_extends_trans(old(dest)@, d1, d2);
            lemma_extends_trans(old(dest)@, d2, dest@);
        }
        assert(views(dest@) =~= out0 + h.flush_output());
        assert(self@ =~= h.cleared());
    }

    fn shorthand_plan(&self) -> (r: (bool, VendorPrefix))
        ensures
            r.0 == self@.shorthand_applies(),
            r.1 == self@.common_prefix(),
    {
        let all = self.names.is_some() && self.durations.is_some() && self.timing_functions.is_some()
            && self.iteration_counts.is_some() && self.directions.is_some() && self.play_states.is_some()
            && self.delays.is_some() && self.fill_modes.is_some();
        let common = gathered_prefix(&self.names).intersection(gathered_prefix(&self.durations)).intersection(
            gathered_prefix(&self.timing_functions),
        ).intersection(gathered_prefix(&self.iteration_counts)).intersection(
            gathered_prefix(&self.directions),
        ).intersection(gathered_prefix(&self.play_states)).intersection(gathered_prefix(&self.delays)).intersection(
            gathered_prefix(&self.fill_modes),
        );
        let n = gathered_len(&self.names);
        let shorthand = all && !common.is_empty() && gathered_len(&self.durations) == n && gathered_len(
            &self.timing_functions,
        ) == n && gathered_len(&self.iteration_counts) == n && gathered_len(&self.directions) == n
            && gathered_len(&self.play_states) == n && gathered_len(&self.delays) == n && gathered_len(
            &self.fill_modes,
        ) == n;
        (shorthand, common)
    }

    fn emit_first_longhands(&mut self, dest: &mut Vec<Property>, sh: bool, c: VendorPrefix)
        ensures
            final(self)@ == (HandlerView {
                names: None,
                durations: None,
                timing_functions: None,
                iteration_counts: None,
                ..old(self)@
            }),
            views(final(dest)@) == views(old(dest)@) + old(self)@.first_longhands_output(sh, c),
            extends(old(dest)@, final(dest)@),
    {
        let ghost h = self@;
        let targets = self.targets;
        let ghost out0 = views(dest@);
        emit_longhand(
            self.names.take(), sh, c, targets, dest,
            |v: CssList<AnimationName>, p: VendorPrefix| -> (r: Property)
                ensures r@ == PropertyView::AnimationName(AnimationName::items(v), p)
            { Property::AnimationName(v, p) },
            Ghost(|v, p| PropertyView::AnimationName(v, p)),
        );
        let ghost d1 = dest@;
        let ghost w1 = views(dest@);
        emit_longhand(
            self.durations.take(), sh, c, targets, dest,
            |v: CssList<Time>, p: VendorPrefix| -> (r: Property)
                ensures r@ == PropertyView::AnimationDuration(Time::items(v), p)
            { Property::AnimationDuration(v, p) },
            Ghost(|v, p| PropertyView::AnimationDuration(v, p)),
        );
        let ghost d2 = dest@;
        let ghost w2 = views(dest@);
        emit_longhand(
            self.timing_functions.take(), sh, c, targets, dest,
            |v: CssList<EasingFunction>, p: VendorPrefix| -> (r: Property)
                ensures r@ == PropertyView::AnimationTimingFunction(EasingFunction::items(v), p)
            { Property::AnimationTimingFunction(v, p) },
            Ghost(|v, p| PropertyView::AnimationTimingFunction(v, p)),
        );
        let ghost d3 = dest@;
        let ghost w3 = views(dest@);
        emit_longhand(
            self.iteration_counts.take(), sh, c, targets, dest,
            |v: CssList<AnimationIterationCount>, p: VendorPrefix| -> (r: Property)
                ensures r@ == PropertyView::AnimationIterationCount(AnimationIterationCount::items(v), p)
            { Property::AnimationIterationCount(v, p) },
            Ghost(|v, p| PropertyView::AnimationIterationCount(v, p)),
        );
        proof {
            lemma_extends_trans(old(dest)@, d1, d2);
            lemma_extends_trans(old(dest)@, d2, d3);
            lemma_extends_trans(old(dest)@, d3, dest@);
        }
        proof {
            let ghost x1 = longhand_output(h.names, sh, c, targets, |v, p| PropertyView::AnimationName(v, p));
            let ghost x2 = longhand_output(h.durations, sh, c, targets, |v, p| PropertyView::AnimationDuration(v, p));
            let ghost x3 = longhand_output(h.timing_functions, sh, c, targets, |v, p| PropertyView::AnimationTimingFunction(v, p));
            let ghost x4 = longhand_output(h.iteration_counts, sh, c, targets, |v, p| PropertyView::AnimationIterationCount(v, p));
            assert(w1 == out0 + x1);
            assert(w2 == w1 + x2);
            assert(w3 == w2 + x3);
            assert(views(dest@) == w3 + x4);
            assert(h.first_longhands_output(sh, c) == x1 + x2 + x3 + x4);
            assert(views(dest@) =~= out0 + (x1 + x2 + x3 + x4));
        }
    }


    fn emit_last_longhands(&mut self, dest: &mut Vec<Property>, sh: bool, c: VendorPrefix)
        ensures
            final(self)@ == (HandlerView {
                directions: None,
                play_states: None,
                delays: None,
                fill_modes: None,
                ..old(self)@
            }),
            views(final(dest)@) == views(old(dest)@) + old(self)@.last_longhands_output(sh, c),
            extends(old(dest)@, final(dest)@),
    {
        let ghost h = self@;
        let targets = self.targets;
        let ghost out0 = views(dest@);
        emit_longhand(
            self.directions.take(), sh, c, targets, dest,
            |v: CssList<AnimationDirection>, p: VendorPrefix| -> (r: Property)
                ensures r@ == PropertyView::AnimationDirection(AnimationDirection::items(v), p)
            { Property::AnimationDirection(v, p) },
            Ghost(|v, p| PropertyView::AnimationDirection(v, p)),
        );
        let ghost d1 = dest@;
        let ghost w1 = views(dest@);
        emit_longhand(
            self.play_states.take(), sh, c, targets, dest,
            |v: CssList<AnimationPlayState>, p: VendorPrefix| -> (r: Property)
                ensures r@ == PropertyView::AnimationPlayState(AnimationPlayState::items(v), p)
            { Property::AnimationPlayState(v, p) },
            Ghost(|v, p| PropertyView::AnimationPlayState(v, p)),
        );
        let ghost d2 = dest@;
        let ghost w2 = views(dest@);
        emit_longhand(
            self.delays.take(), sh, c, targets, dest,
            |v: CssList<Time>, p: VendorPrefix| -> (r: Property)
                ensures r@ == PropertyView::AnimationDelay(Time::items(v), p)
            { Property::AnimationDelay(v, p) },
            Ghost(|v, p| PropertyView::AnimationDelay(v, p)),
        );
        let ghost d3 = dest@;
        let ghost w3 = views(dest@);
        emit_longhand(
            self.fill_modes.take(), sh, c, targets, dest,
            |v: CssList<AnimationFillMode>, p: VendorPrefix| -> (r: Property)
                ensures r@ == PropertyView::AnimationFillMode(AnimationFillMode::items(v), p)
            { Property::AnimationFillMode(v, p) },
            Ghost(|v, p| PropertyView::AnimationFillMode(v, p)),
        );
        proof {
            lemma_extends_trans(old(dest)@, d1, d2);
            lemma_extends_trans(old(dest)@, d2, d3);
            lemma_extends_trans(old(dest)@, d3, dest@);
        }
        proof {
            let ghost x1 = longhand_output(h.directions, sh, c, targets, |v, p| PropertyView::AnimationDirection(v, p));
            let ghost x2 = longhand_output(h.play_states, sh, c, targets, |v, p| PropertyView::AnimationPlayState(v, p));
            let ghost x3 = longhand_output(h.delays, sh, c, targets, |v, p| PropertyView::AnimationDelay(v, p));
            let ghost x4 = longhand_output(h.fill_modes, sh, c, targets, |v, p| PropertyView::AnimationFillMode(v, p));
            assert(w1 == out0 + x1);
            assert(w2 == w1 + x2);
            assert(w3 == w2 + x3);
            assert(views(dest@) == w3 + x4);
            assert(h.last_longhands_output(sh, c) == x1 + x2 + x3 + x4);
            assert(views(dest@) =~= out0 + (x1 + x2 + x3 + x4));
        }
    }


    /// Writes out what has been gathered, at the end of the rule.
    pub fn finalize(&mut self, dest: &mut Vec<Property>)
        requires
            old(self)@.wf(),
        ensures
            final(self)@ == old(self)@.flushed(),
            final(self)@ == old(self)@.cleared(),
            final(self)@.wf(),
            views(final(dest)@) == views(old(dest)@) + old(self)@.flush_output(),
            extends(old(dest)@, final(dest)@),
    {
        self.flush(dest);
    }
}

} // verus!

verus! {

/// A declaration of a longhand with the values `val` and the prefix `vp`
/// cannot be merged into what was gathered for it: the values differ, and
/// the prefix is a new one.  (The two declarations must then both be kept,
/// in order.)
pub open spec fn conflicts<T: CssValue>(g: Option<(Seq<T>, VendorPrefix)>, val: Seq<T>, vp: VendorPrefix) -> bool {
    match g {
        Some((v, p)) => !lists_eq(v, val) && !p.spec_contains(vp),
        None => false,
    }
}

/// What is gathered for a longhand after a declaration of it with the
/// values `val` and the prefix `vp`: the new values, with the prefixes seen.
pub open spec fn merged<T>(g: Option<(Seq<T>, VendorPrefix)>, val: Seq<T>, vp: VendorPrefix) -> Option<(Seq<T>, VendorPrefix)> {
    match g {
        Some((_, p)) => Some((val, VendorPrefix { bits: p.bits | vp.bits })),
        None => Some((val, vp)),
    }
}

/// The names of a list of animations.
pub open spec fn names_of(list: Seq<Animation>) -> Seq<AnimationName> {
    list.map_values(|a: Animation| a.name)
}

/// The durations of a list of animations.
pub open spec fn durations_of(list: Seq<Animation>) -> Seq<Time> {
    list.map_values(|a: Animation| a.duration)
}

/// The timing functions of a list of animations.
pub open spec fn timing_functions_of(list: Seq<Animation>) -> Seq<EasingFunction> {
    list.map_values(|a: Animation| a.timing_function)
}

/// The iteration counts of a list of animations.
pub open spec fn iteration_counts_of(list: Seq<Animation>) -> Seq<AnimationIterationCount> {
    list.map_values(|a: Animation| a.iteration_count)
}

/// The directions of a list of animations.
pub open spec fn directions_of(list: Seq<Animation>) -> Seq<AnimationDirection> {
    list.map_values(|a: Animation| a.direction)
}

/// The play states of a list of animations.
pub open spec fn play_states_of(list: Seq<Animation>) -> Seq<AnimationPlayState> {
    list.map_values(|a: Animation| a.play_state)
}

/// The delays of a list of animations.
pub open spec fn delays_of(list: Seq<Animation>) -> Seq<Time> {
    list.map_values(|a: Animation| a.delay)
}

/// The fill modes of a list of animations.
pub open spec fn fill_modes_of(list: Seq<Animation>) -> Seq<AnimationFillMode> {
    list.map_values(|a: Animation| a.fill_mode)
}

impl HandlerView {
    /// Flushes first if `conflict`: the state and the declarations written.
    pub open spec fn flushed_if(self, conflict: bool) -> (HandlerView, Seq<PropertyView>) {
        if conflict {
            (self.flushed(), self.flush_output())
        } else {
            (self, seq![])
        }
    }

    /// A declaration of the `animation` shorthand with the animations
    /// `list` conflicts with what is gathered for one of its longhands.
    pub open spec fn shorthand_conflicts(self, list: Seq<Animation>, vp: VendorPrefix) -> bool {
        ||| conflicts(self.names, names_of(list), vp)
        ||| conflicts(self.durations, durations_of(list), vp)
        ||| conflicts(self.timing_functions, timing_functions_of(list), vp)
        ||| conflicts(self.iteration_counts, iteration_counts_of(list), vp)
        ||| conflicts(self.directions, directions_of(list), vp)
        ||| conflicts(self.play_states, play_states_of(list), vp)
        ||| conflicts(self.delays, delays_of(list), vp)
        ||| conflicts(self.fill_modes, fill_modes_of(list), vp)
    }

    /// The state after the shorthand's longhands are merged in.
    pub open spec fn with_shorthand(self, list: Seq<Animation>, vp: VendorPrefix) -> HandlerView {
        HandlerView {
            names: merged(self.names, names_of(list), vp),
            durations: merged(self.durations, durations_of(list), vp),
            timing_functions: merged(self.timing_functions, timing_functions_of(list), vp),
            iteration_counts: merged(self.iteration_counts, iteration_counts_of(list), vp),
            directions: merged(self.directions, directions_of(list), vp),
            play_states: merged(self.play_states, play_states_of(list), vp),
            delays: merged(self.delays, delays_of(list), vp),
            fill_modes: merged(self.fill_modes, fill_modes_of(list), vp),
            has_any: true,
            ..self
        }
    }

    /// The handling of one declaration: the new state, the declarations
    /// written, and whether the declaration was an animation one.
    ///
    /// A longhand first flushes what was gathered if it conflicts with it,
    /// then is merged in; the shorthand does the same for all its longhands
    /// at once.  A declaration kept as written flushes everything gathered
    /// and is written out with the prefixes the targets need.  Any other
    /// declaration is left alone.
    pub open spec fn handled(self, prop: PropertyView) -> (HandlerView, Seq<PropertyView>, bool) {
        match prop {
            PropertyView::AnimationName(val, vp) => {
                let (s, out) = self.flushed_if(conflicts(self.names, val, vp));
                (HandlerView { names: merged(s.names, val, vp), has_any: true, ..s }, out, true)
            },
            PropertyView::AnimationDuration(val, vp) => {
                let (s, out) = self.flushed_if(conflicts(self.durations, val, vp));
                (HandlerView { durations: merged(s.durations, val, vp), has_any: true, ..s }, out, true)
            },
            PropertyView::AnimationTimingFunction(val, vp) => {
                let (s, out) = self.flushed_if(conflicts(self.timing_functions, val, vp));
                (HandlerView { timing_functions: merged(s.timing_functions, val, vp), has_any: true, ..s }, out, true)
            },
            PropertyView::AnimationIterationCount(val, vp) => {
                let (s, out) = self.flushed_if(conflicts(self.iteration_counts, val, vp));
                (HandlerView { iteration_counts: merged(s.iteration_counts, val, vp), has_any: true, ..s }, out, true)
            },
            PropertyView::AnimationDirection(val, vp) => {
                let (s, out) = self.flushed_if(conflicts(self.directions, val, vp));
                (HandlerView { directions: merged(s.directions, val, vp), has_any: true, ..s }, out, true)
            },
            PropertyView::AnimationPlayState(val, vp) => {
                let (s, out) = self.flushed_if(conflicts(self.play_states, val, vp));
                (HandlerView { play_states: merged(s.play_states, val, vp), has_any: true, ..s }, out, true)
            },
            PropertyView::AnimationDelay(val, vp) => {
                let (s, out) = self.flushed_if(conflicts(self.delays, val, vp));
                (HandlerView { delays: merged(s.delays, val, vp), has_any: true, ..s }, out, true)
            },
            PropertyView::AnimationFillMode(val, vp) => {
                let (s, out) = self.flushed_if(conflicts(self.fill_modes, val, vp));
                (HandlerView { fill_modes: merged(s.fill_modes, val, vp), has_any: true, ..s }, out, true)
            },
            PropertyView::Animation(list, vp) => {
                let (s, out) = self.flushed_if(self.shorthand_conflicts(list, vp));
                (s.with_shorthand(list, vp), out, true)
            },
            PropertyView::Unparsed(u) => if u.property_id.spec_is_animation() {
                (
                    self.flushed(),
                    self.flush_output() + seq![PropertyView::Unparsed(u.spec_get_prefixed(self.targets))],
                    true,
                )
            } else {
                (self, seq![], false)
            },
            PropertyView::Other(_) => (self, seq![], false),
        }
    }
}

fn gathered_conflicts<T: CssValue>(g: &Gathered<T>, val: &CssList<T>, vp: VendorPrefix) -> (r: bool)
    ensures
        r == conflicts(gathered_view(*g), T::items(*val), vp),
{
    match g {
        Some((v, p)) => !list_equals(T::as_items(v), T::as_items(val)) && !p.contains(vp),
        None => false,
    }
}

fn merge_gathered<T: CssValue>(g: &mut Gathered<T>, val: &CssList<T>, vp: VendorPrefix) -> (was_none: bool)
    ensures
        gathered_view(*final(g)) == merged(gathered_view(*old(g)), T::items(*val), vp),
        was_none == (*old(g) is None),
{
    let old = g.take();
    match old {
        Some((_, p)) => {
            *g = Some((T::from_items(list_duplicate(T::as_items(val))), p.union(vp)));
            false
        },
        None => {
            *g = Some((T::from_items(list_duplicate(T::as_items(val))), vp));
            true
        },
    }
}

/// The longhand values of a list of animations.
fn columns(list: &CssList<Animation>) -> (r: (
    CssList<AnimationName>,
    CssList<Time>,
    CssList<EasingFunction>,
    CssList<AnimationIterationCount>,
    CssList<AnimationDirection>,
    CssList<AnimationPlayState>,
    CssList<Time>,
    CssList<AnimationFillMode>,
))
    ensures
        AnimationName::items(r.0) == names_of(Animation::items(*list)),
        Time::items(r.1) == durations_of(Animation::items(*list)),
        EasingFunction::items(r.2) == timing_functions_of(Animation::items(*list)),
        AnimationIterationCount::items(r.3) == iteration_counts_of(Animation::items(*list)),
        AnimationDirection::items(r.4) == directions_of(Animation::items(*list)),
        AnimationPlayState::items(r.5) == play_states_of(Animation::items(*list)),
        Time::items(r.6) == delays_of(Animation::items(*list)),
        AnimationFillMode::items(r.7) == fill_modes_of(Animation::items(*list)),
{
    let list = Animation::as_items(list);
    let mut names: Vec<AnimationName> = Vec::new();
    let mut durations: Vec<Time> = Vec::new();
    let mut timing_functions: Vec<EasingFunction> = Vec::new();
    let mut iteration_counts: Vec<AnimationIterationCount> = Vec::new();
    let mut directions: Vec<AnimationDirection> = Vec::new();
    let mut play_states: Vec<AnimationPlayState> = Vec::new();
    let mut delays: Vec<Time> = Vec::new();
    let mut fill_modes: Vec<AnimationFillMode> = Vec::new();
    let mut i: usize = 0;
    while i < list.len()
        invariant
            i <= list@.len(),
            names@ =~= names_of(list@.subrange(0, i as int)),
            durations@ =~= durations_of(list@.subrange(0, i as int)),
            timing_functions@ =~= timing_functions_of(list@.subrange(0, i as int)),
            iteration_counts@ =~= iteration_counts_of(list@.subrange(0, i as int)),
            directions@ =~= directions_of(list@.subrange(0, i as int)),
            play_states@ =~= play_states_of(list@.subrange(0, i as int)),
            delays@ =~= delays_of(list@.subrange(0, i as int)),
            fill_modes@ =~= fill_modes_of(list@.subrange(0, i as int)),
        decreases list@.len() - i,
    {
        let a = &list[i];
        names.push(a.name.duplicate());
        durations.push(a.duration.duplicate());
        timing_functions.push(a.timing_function.duplicate());
        iteration_counts.push(a.iteration_count.duplicate());
        directions.push(a.direction);
        play_states.push(a.play_state);
        delays.push(a.delay.duplicate());
        fill_modes.push(a.fill_mode);
        i = i + 1;
    }
    assert(list@.subrange(0, list@.len() as int) =~= list@);
    (AnimationName::from_items(names), Time::from_items(durations), EasingFunction::from_items(timing_functions), AnimationIterationCount::from_items(iteration_counts), AnimationDirection::from_items(directions), AnimationPlayState::from_items(play_states), Time::from_items(delays), AnimationFillMode::from_items(fill_modes))
}

} // verus!

verus! {

impl AnimationHandler {
    /// Flushes what was gathered if `conflict`, else does nothing.
    fn flush_if(&mut self, conflict: bool, dest: &mut Vec<Property>)
        requires
            old(self)@.wf(),
        ensures
            final(self)@ == old(self)@.flushed_if(conflict).0,
            views(final(dest)@) == views(old(dest)@) + old(self)@.flushed_if(conflict).1,
            extends(old(dest)@, final(dest)@),
            final(self)@.wf(),
    {
        if conflict {
            self.flush(dest);
        } else {
            assert(views(dest@) =~= views(old(dest)@) + Seq::<PropertyView>::empty());
            proof {
                lemma_extends_refl(dest@);
            }
        }
    }

    /// Handles one declaration (see `HandlerView::handled`): returns whether
    /// it is an animation declaration, which the handler then owns.
    pub fn handle_property(&mut self, property: &Property, dest: &mut Vec<Property>) -> (handled: bool)
        requires
            old(self)@.wf(),
        ensures
            final(self)@ == old(self)@.handled(property@).0,
            views(final(dest)@) == views(old(dest)@) + old(self)@.handled(property@).1,
            extends(old(dest)@, final(dest)@),
            handled == old(self)@.handled(property@).2,
            final(self)@.wf(),
    {
        match property {
            Property::AnimationName(val, vp) => {
                let conflict = gathered_conflicts(&self.names, val, *vp);
                self.flush_if(conflict, dest);
                if merge_gathered(&mut self.names, val, *vp) {
                    self.has_any = true;
                }
            },
            Property::AnimationDuration(val, vp) => {
                let conflict = gathered_conflicts(&self.durations, val, *vp);
                self.flush_if(conflict, dest);
                if merge_gathered(&mut self.durations, val, *vp) {
                    self.has_any = true;
                }
            },
            Property::AnimationTimingFunction(val, vp) => {
                let conflict = gathered_conflicts(&self.timing_functions, val, *vp);
                self.flush_if(conflict, dest);
                if merge_gathered(&mut self.timing_functions, val, *vp) {
                    self.has_any = true;
                }
            },
            Property::AnimationIterationCount(val, vp) => {
                let conflict = gathered_conflicts(&self.iteration_counts, val, *vp);
                self.flush_if(conflict, dest);
                if merge_gathered(&mut self.iteration_counts, val, *vp) {
                    self.has_any = true;
                }
            },
            Property::AnimationDirection(val, vp) => {
                let conflict = gathered_conflicts(&self.directions, val, *vp);
                self.flush_if(conflict, dest);
                if merge_gathered(&mut self.directions, val, *vp) {
                    self.has_any = true;
                }
            },
            Property::AnimationPlayState(val, vp) => {
                let conflict = gathered_conflicts(&self.play_states, val, *vp);
                self.flush_if(conflict, dest);
                if merge_gathered(&mut self.play_states, val, *vp) {
                    self.has_any = true;
                }
            },
            Property::AnimationDelay(val, vp) => {
                let conflict = gathered_conflicts(&self.delays, val, *vp);
                self.flush_if(conflict, dest);
                if merge_gathered(&mut self.delays, val, *vp) {
                    self.has_any = true;
                }
            },
            Property::AnimationFillMode(val, vp) => {
                let conflict = gathered_conflicts(&self.fill_modes, val, *vp);
                self.flush_if(conflict, dest);
                if merge_gathered(&mut self.fill_modes, val, *vp) {
                    self.has_any = true;
                }
            },
            Property::Animation(list, vp) => {
                let (names, durations, timing_functions, iteration_counts, directions, play_states, delays, fill_modes) = columns(list);
                let conflict = gathered_conflicts(&self.names, &names, *vp)
                    || gathered_conflicts(&self.durations, &durations, *vp)
                    || gathered_conflicts(&self.timing_functions, &timing_functions, *vp)
                    || gathered_conflicts(&self.iteration_counts, &iteration_counts, *vp)
                    || gathered_conflicts(&self.directions, &directions, *vp)
                    || gathered_conflicts(&self.play_states, &play_states, *vp)
                    || gathered_conflicts(&self.delays, &delays, *vp)
                    || gathered_conflicts(&self.fill_modes, &fill_modes, *vp);
                self.flush_if(conflict, dest);
                if merge_gathered(&mut self.names, &names, *vp) {
                    self.has_any = true;
                }
                if merge_gathered(&mut self.durations, &durations, *vp) {
                    self.has_any = true;
                }
                if merge_gathered(&mut self.timing_functions, &timing_functions, *vp) {
                    self.has_any = true;
                }
                if merge_gathered(&mut self.iteration_counts, &iteration_counts, *vp) {
                    self.has_any = true;
                }
                if merge_gathered(&mut self.directions, &directions, *vp) {
                    self.has_any = true;
                }
                if merge_gathered(&mut self.play_states, &play_states, *vp) {
                    self.has_any = true;
                }
                if merge_gathered(&mut self.delays, &delays, *vp) {
                    self.has_any = true;
                }
                if merge_gathered(&mut self.fill_modes, &fill_modes, *vp) {
                    self.has_any = true;
                }
            },
            Property::Unparsed(val) => {
                if is_animation_property(&val.property_id) {
                    self.flush(dest);
                    let ghost d1 = dest@;
                    push_property(dest, Property::Unparsed(val.get_prefixed(self.targets)));
                    proof {
                        lemma_extends_trans(old(dest)@, d1, dest@);
                    }
                } else {
                    assert(views(dest@) =~= views(old(dest)@) + Seq::<PropertyView>::empty());
                    proof {
                        lemma_extends_refl(dest@);
                    }
                    return false;
                }
            },
            Property::Other(_) => {
                assert(views(dest@) =~= views(old(dest)@) + Seq::<PropertyView>::empty());
                proof {
                    lemma_extends_refl(dest@);
                }
                return false;
            },
        }
        true
    }
}

} // verus!

verus! {

/// The prefixes of a longhand declaration.
pub open spec fn longhand_prefix(prop: PropertyView) -> Option<VendorPrefix> {
    match prop {
        PropertyView::AnimationName(_, p) => Some(p),
        PropertyView::AnimationDuration(_, p) => Some(p),
        PropertyView::AnimationTimingFunction(_, p) => Some(p),
        PropertyView::AnimationIterationCount(_, p) => Some(p),
        PropertyView::AnimationDirection(_, p) => Some(p),
        PropertyView::AnimationPlayState(_, p) => Some(p),
        PropertyView::AnimationDelay(_, p) => Some(p),
        PropertyView::AnimationFillMode(_, p) => Some(p),
        _ => None,
    }
}

/// A longhand declaration with its prefixes replaced by `p`.
pub open spec fn with_longhand_prefix(prop: PropertyView, p: VendorPrefix) -> PropertyView {
    match prop {
        PropertyView::AnimationName(v, _) => PropertyView::AnimationName(v, p),
        PropertyView::AnimationDuration(v, _) => PropertyView::AnimationDuration(v, p),
        PropertyView::AnimationTimingFunction(v, _) => PropertyView::AnimationTimingFunction(v, p),
        PropertyView::AnimationIterationCount(v, _) => PropertyView::AnimationIterationCount(v, p),
        PropertyView::AnimationDirection(v, _) => PropertyView::AnimationDirection(v, p),
        PropertyView::AnimationPlayState(v, _) => PropertyView::AnimationPlayState(v, p),
        PropertyView::AnimationDelay(v, _) => PropertyView::AnimationDelay(v, p),
        PropertyView::AnimationFillMode(v, _) => PropertyView::AnimationFillMode(v, p),
        other => other,
    }
}

proof fn lemma_prefix_bits(b: u8)
    ensures
        b & b == b,
        b & b & b & b & b & b & b & b == b,
        b & !b == 0,
        b | b == b,
{
    assert(b & b == b) by (bit_vector);
    assert(b & b & b & b & b & b & b & b == b) by (bit_vector);
    assert(b & !b == 0) by (bit_vector);
    assert(b | b == b) by (bit_vector);
}

/// Law: a handler that has gathered nothing keeps a lone `animation`
/// declaration without writing anything, and writes it back unchanged when
/// flushed (with the prefixes the targets need).
pub proof fn law_shorthand_written_back(targets: Option<VendorPrefix>, list: Seq<Animation>, vp: VendorPrefix)
    requires
        vp.bits != 0,
    ensures
        HandlerView::empty(targets).handled(PropertyView::Animation(list, vp)).1 == Seq::<PropertyView>::empty(),
        HandlerView::empty(targets).handled(PropertyView::Animation(list, vp)).0.flush_output()
            == seq![PropertyView::Animation(list, prefixes_for_targets(vp, targets))],
{
    let h = HandlerView::empty(targets).handled(PropertyView::Animation(list, vp)).0;
    lemma_prefix_bits(vp.bits);
    assert(h.common_prefix() == vp);
    assert(h.shorthand_applies());
    assert(h.zipped() =~= list);
    assert(h.flush_output() =~= seq![PropertyView::Animation(list, prefixes_for_targets(vp, targets))]);
}

/// Law: a handler that has gathered nothing keeps a lone longhand
/// declaration without writing anything, and writes it back unchanged when
/// flushed (with the prefixes the targets need).
pub proof fn law_longhand_written_back(targets: Option<VendorPrefix>, prop: PropertyView, vp: VendorPrefix)
    requires
        longhand_prefix(prop) == Some(vp),
        vp.bits != 0,
    ensures
        HandlerView::empty(targets).handled(prop).1 == Seq::<PropertyView>::empty(),
        HandlerView::empty(targets).handled(prop).0.flush_output()
            == seq![with_longhand_prefix(prop, prefixes_for_targets(vp, targets))],
{
    let h = HandlerView::empty(targets).handled(prop).0;
    assert(!h.shorthand_applies());
    assert(h.flush_output() =~= seq![with_longhand_prefix(prop, prefixes_for_targets(vp, targets))]);
}

/// The two declarations are of the same longhand.
pub open spec fn same_longhand(a: PropertyView, b: PropertyView) -> bool {
    ||| a is AnimationName && b is AnimationName
    ||| a is AnimationDuration && b is AnimationDuration
    ||| a is AnimationTimingFunction && b is AnimationTimingFunction
    ||| a is AnimationIterationCount && b is AnimationIterationCount
    ||| a is AnimationDirection && b is AnimationDirection
    ||| a is AnimationPlayState && b is AnimationPlayState
    ||| a is AnimationDelay && b is AnimationDelay
    ||| a is AnimationFillMode && b is AnimationFillMode
}

/// Law: when a longhand is declared twice with the same prefixes, the later
/// declaration replaces the earlier one: nothing is written, and a flush
/// writes only the later one.
pub proof fn law_same_prefix_replaces(
    targets: Option<VendorPrefix>,
    first: PropertyView,
    second: PropertyView,
    vp: VendorPrefix,
)
    requires
        same_longhand(first, second),
        longhand_prefix(first) == Some(vp),
        longhand_prefix(second) == Some(vp),
        vp.bits != 0,
    ensures
        HandlerView::empty(targets).handled(first).0.handled(second).1 == Seq::<PropertyView>::empty(),
        HandlerView::empty(targets).handled(first).0.handled(second).0.flush_output()
            == seq![with_longhand_prefix(second, prefixes_for_targets(vp, targets))],
{
    lemma_prefix_bits(vp.bits);
    assert(vp.spec_contains(vp));
    let h1 = HandlerView::empty(targets).handled(first).0;
    let h2 = h1.handled(second).0;
    assert(h1.handled(second).1 =~= Seq::<PropertyView>::empty());
    assert(!h2.shorthand_applies());
    assert(h2.flush_output() =~= seq![with_longhand_prefix(second, prefixes_for_targets(vp, targets))]);
}

/// Law: a longhand declaration that conflicts with what was gathered for it
/// (other values, a new prefix) first writes out everything gathered
/// before it, so that the order of the declarations is kept; afterwards
/// the handler holds only the new declaration.
pub proof fn law_conflict_writes_earlier_first(h: HandlerView, prop: PropertyView, vp: VendorPrefix)
    requires
        h.wf(),
        longhand_prefix(prop) == Some(vp),
        vp.bits != 0,
        match prop {
            PropertyView::AnimationName(v, p) => conflicts(h.names, v, p),
            PropertyView::AnimationDuration(v, p) => conflicts(h.durations, v, p),
            PropertyView::AnimationTimingFunction(v, p) => conflicts(h.timing_functions, v, p),
            PropertyView::AnimationIterationCount(v, p) => conflicts(h.iteration_counts, v, p),
            PropertyView::AnimationDirection(v, p) => conflicts(h.directions, v, p),
            PropertyView::AnimationPlayState(v, p) => conflicts(h.play_states, v, p),
            PropertyView::AnimationDelay(v, p) => conflicts(h.delays, v, p),
            PropertyView::AnimationFillMode(v, p) => conflicts(h.fill_modes, v, p),
            _ => false,
        },
    ensures
        h.handled(prop).1 == h.flush_output(),
        h.handled(prop).0 == HandlerView::empty(h.targets).handled(prop).0,
        h.handled(prop).0.flush_output() == seq![with_longhand_prefix(prop, prefixes_for_targets(vp, h.targets))],
{
    law_longhand_written_back(h.targets, prop, vp);
    assert(h.handled(prop).0 == HandlerView::empty(h.targets).handled(prop).0);
}


/// Law: when all eight longhands have been gathered with the same
/// prefixes and list as many animations each, a flush writes them as one
/// `animation` shorthand and nothing else.
pub proof fn law_matching_longhands_become_shorthand(h: HandlerView, vp: VendorPrefix)
    requires
        h.wf(),
        h.all_present(),
        vp.bits != 0,
        prefix_of(h.names) == vp,
        prefix_of(h.durations) == vp,
        prefix_of(h.timing_functions) == vp,
        prefix_of(h.iteration_counts) == vp,
        prefix_of(h.directions) == vp,
        prefix_of(h.play_states) == vp,
        prefix_of(h.delays) == vp,
        prefix_of(h.fill_modes) == vp,
        list_of(h.durations).len() == list_of(h.names).len(),
        list_of(h.timing_functions).len() == list_of(h.names).len(),
        list_of(h.iteration_counts).len() == list_of(h.names).len(),
        list_of(h.directions).len() == list_of(h.names).len(),
        list_of(h.play_states).len() == list_of(h.names).len(),
        list_of(h.delays).len() == list_of(h.names).len(),
        list_of(h.fill_modes).len() == list_of(h.names).len(),
    ensures
        h.flush_output() == seq![PropertyView::Animation(h.zipped(), prefixes_for_targets(vp, h.targets))],
{
    lemma_prefix_bits(vp.bits);
    assert(h.common_prefix() == vp);
    assert(h.shorthand_applies());
    assert(h.first_longhands_output(true, vp) =~= Seq::<PropertyView>::empty());
    assert(h.last_longhands_output(true, vp) =~= Seq::<PropertyView>::empty());
    assert(h.flush_output() =~= seq![PropertyView::Animation(h.zipped(), prefixes_for_targets(vp, h.targets))]);
}

/// Law: a flush forgets what it writes, so a second flush right after it
/// writes nothing and changes nothing.
pub proof fn law_second_flush_writes_nothing(h: HandlerView)
    requires
        h.wf(),
    ensures
        h.flushed().flush_output() == Seq::<PropertyView>::empty(),
        h.flushed().flushed() == h.flushed(),
{
}

/// Law: a declaration of another property, or one kept as written for a
/// property other than the animation ones, is not handled: the handler is
/// unchanged and writes nothing.
pub proof fn law_other_declarations_pass_through(h: HandlerView, prop: PropertyView)
    requires
        prop is Other || (prop matches PropertyView::Unparsed(u) && !u.property_id.spec_is_animation()),
    ensures
        h.handled(prop) == (h, Seq::<PropertyView>::empty(), false),
{
}

proof fn lemma_union_keeps(a: u8, b: u8)
    ensures
        (a | b) & b == b,
{
    assert((a | b) & b == b) by (bit_vector);
}

/// Law: after an `animation` declaration, whatever was gathered before
/// (and whether or not it had to be flushed first), each longhand holds
/// the shorthand's values for it, one per animation in order, with the
/// shorthand's prefixes among its own: the later declaration wins.
pub proof fn law_shorthand_replaces_every_longhand(h: HandlerView, list: Seq<Animation>, vp: VendorPrefix)
    requires
        h.wf(),
    ensures
        h.handled(PropertyView::Animation(list, vp)).2,
        h.handled(PropertyView::Animation(list, vp)).0.names matches Some((w, q)) && w.len() == list.len()
            && (forall|i: int| 0 <= i < list.len() ==> #[trigger] w[i] == list[i].name) && q.bits & vp.bits == vp.bits,
        h.handled(PropertyView::Animation(list, vp)).0.durations matches Some((w, q)) && w.len() == list.len()
            && (forall|i: int| 0 <= i < list.len() ==> #[trigger] w[i] == list[i].duration) && q.bits & vp.bits == vp.bits,
        h.handled(PropertyView::Animation(list, vp)).0.timing_functions matches Some((w, q)) && w.len() == list.len()
            && (forall|i: int| 0 <= i < list.len() ==> #[trigger] w[i] == list[i].timing_function) && q.bits & vp.bits == vp.bits,
        h.handled(PropertyView::Animation(list, vp)).0.iteration_counts matches Some((w, q)) && w.len() == list.len()
            && (forall|i: int| 0 <= i < list.len() ==> #[trigger] w[i] == list[i].iteration_count) && q.bits & vp.bits == vp.bits,
        h.handled(PropertyView::Animation(list, vp)).0.directions matches Some((w, q)) && w.len() == list.len()
            && (forall|i: int| 0 <= i < list.len() ==> #[trigger] w[i] == list[i].direction) && q.bits & vp.bits == vp.bits,
        h.handled(PropertyView::Animation(list, vp)).0.play_states matches Some((w, q)) && w.len() == list.len()
            && (forall|i: int| 0 <= i < list.len() ==> #[trigger] w[i] == list[i].play_state) && q.bits & vp.bits == vp.bits,
        h.handled(PropertyView::Animation(list, vp)).0.delays matches Some((w, q)) && w.len() == list.len()
            && (forall|i: int| 0 <= i < list.len() ==> #[trigger] w[i] == list[i].delay) && q.bits & vp.bits == vp.bits,
        h.handled(PropertyView::Animation(list, vp)).0.fill_modes matches Some((w, q)) && w.len() == list.len()
            && (forall|i: int| 0 <= i < list.len() ==> #[trigger] w[i] == list[i].fill_mode) && q.bits & vp.bits == vp.bits,
{
    let r = h.handled(PropertyView::Animation(list, vp)).0;
    let s = h.flushed_if(h.shorthand_conflicts(list, vp)).0;
    assert(r == s.with_shorthand(list, vp));
    match s.names {
        Some((_, p)) => lemma_union_keeps(p.bits, vp.bits),
        None => lemma_prefix_bits(vp.bits),
    }
    match s.durations {
        Some((_, p)) => lemma_union_keeps(p.bits, vp.bits),
        None => lemma_prefix_bits(vp.bits),
    }
    match s.timing_functions {
        Some((_, p)) => lemma_union_keeps(p.bits, vp.bits),
        None => lemma_prefix_bits(vp.bits),
    }
    match s.iteration_counts {
        Some((_, p)) => lemma_union_keeps(p.bits, vp.bits),
        None => lemma_prefix_bits(vp.bits),
    }
    match s.directions {
        Some((_, p)) => lemma_union_keeps(p.bits, vp.bits),
        None => lemma_prefix_bits(vp.bits),
    }
    match s.play_states {
        Some((_, p)) => lemma_union_keeps(p.bits, vp.bits),
        None => lemma_prefix_bits(vp.bits),
    }
    match s.delays {
        Some((_, p)) => lemma_union_keeps(p.bits, vp.bits),
        None => lemma_prefix_bits(vp.bits),
    }
    match s.fill_modes {
        Some((_, p)) => lemma_union_keeps(p.bits, vp.bits),
        None => lemma_prefix_bits(vp.bits),
    }
}

/// Law: after a longhand declaration, whatever was gathered before, that
/// longhand holds the declaration's values, with the declaration's
/// prefixes among its own: the later declaration wins.
pub proof fn law_longhand_replaces_its_values(h: HandlerView, prop: PropertyView)
    requires
        h.wf(),
        longhand_prefix(prop) is Some,
    ensures
        h.handled(prop).2,
        match prop {
            PropertyView::AnimationName(v, p) => h.handled(prop).0.names matches Some((w, q)) && w == v && q.bits & p.bits == p.bits,
            PropertyView::AnimationDuration(v, p) => h.handled(prop).0.durations matches Some((w, q)) && w == v && q.bits & p.bits == p.bits,
            PropertyView::AnimationTimingFunction(v, p) => h.handled(prop).0.timing_functions matches Some((w, q)) && w == v && q.bits & p.bits == p.bits,
            PropertyView::AnimationIterationCount(v, p) => h.handled(prop).0.iteration_counts matches Some((w, q)) && w == v && q.bits & p.bits == p.bits,
            PropertyView::AnimationDirection(v, p) => h.handled(prop).0.directions matches Some((w, q)) && w == v && q.bits & p.bits == p.bits,
            PropertyView::AnimationPlayState(v, p) => h.handled(prop).0.play_states matches Some((w, q)) && w == v && q.bits & p.bits == p.bits,
            PropertyView::AnimationDelay(v, p) => h.handled(prop).0.delays matches Some((w, q)) && w == v && q.bits & p.bits == p.bits,
            PropertyView::AnimationFillMode(v, p) => h.handled(prop).0.fill_modes matches Some((w, q)) && w == v && q.bits & p.bits == p.bits,
            _ => false,
        },
{
    match prop {
        PropertyView::AnimationName(v, p) => match h.flushed_if(conflicts(h.names, v, p)).0.names {
            Some((_, q)) => lemma_union_keeps(q.bits, p.bits),
            None => lemma_prefix_bits(p.bits),
        },
        PropertyView::AnimationDuration(v, p) => match h.flushed_if(conflicts(h.durations, v, p)).0.durations {
            Some((_, q)) => lemma_union_keeps(q.bits, p.bits),
            None => lemma_prefix_bits(p.bits),
        },
        PropertyView::AnimationTimingFunction(v, p) => match h.flushed_if(conflicts(h.timing_functions, v, p)).0.timing_functions {
            Some((_, q)) => lemma_union_keeps(q.bits, p.bits),
            None => lemma_prefix_bits(p.bits),
        },
        PropertyView::AnimationIterationCount(v, p) => match h.flushed_if(conflicts(h.iteration_counts, v, p)).0.iteration_counts {
            Some((_, q)) => lemma_union_keeps(q.bits, p.bits),
            None => lemma_prefix_bits(p.bits),
        },
        PropertyView::AnimationDirection(v, p) => match h.flushed_if(conflicts(h.directions, v, p)).0.directions {
            Some((_, q)) => lemma_union_keeps(q.bits, p.bits),
            None => lemma_prefix_bits(p.bits),
        },
        PropertyView::AnimationPlayState(v, p) => match h.flushed_if(conflicts(h.play_states, v, p)).0.play_states {
            Some((_, q)) => lemma_union_keeps(q.bits, p.bits),
            None => lemma_prefix_bits(p.bits),
        },
        PropertyView::AnimationDelay(v, p) => match h.flushed_if(conflicts(h.delays, v, p)).0.delays {
            Some((_, q)) => lemma_union_keeps(q.bits, p.bits),
            None => lemma_prefix_bits(p.bits),
        },
        PropertyView::AnimationFillMode(v, p) => match h.flushed_if(conflicts(h.fill_modes, v, p)).0.fill_modes {
            Some((_, q)) => lemma_union_keeps(q.bits, p.bits),
            None => lemma_prefix_bits(p.bits),
        },
        _ => {},
    }
}

/// Law: a declaration kept as written for `animation` or any of its
/// longhands is handled: what was gathered is written out first, then the
/// declaration itself, with the prefixes the targets need, and the handler
/// is left with nothing gathered.
pub proof fn law_unparsed_animation_declaration_is_handled(h: HandlerView, u: UnparsedProperty)
    requires
        u.property_id is AnimationName || u.property_id is AnimationDuration
            || u.property_id is AnimationTimingFunction || u.property_id is AnimationIterationCount
            || u.property_id is AnimationDirection || u.property_id is AnimationPlayState
            || u.property_id is AnimationDelay || u.property_id is AnimationFillMode
            || u.property_id is Animation,
    ensures
        h.handled(PropertyView::Unparsed(u)) == (
            h.flushed(),
            h.flush_output() + seq![PropertyView::Unparsed(u.spec_get_prefixed(h.targets))],
            true,
        ),
{
}

} // verus!

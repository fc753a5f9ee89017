//! The `animation-name` and `animation-iteration-count` values, and the
//! `animation` shorthand: one animation, parsed from its components in any
//! order and serialized in its shortest unambiguous form.

use crate::easing::EasingFunction;
use crate::keywords::{AnimationDirection, AnimationFillMode, AnimationPlayState};
use crate::number::{is_negative, num_eq, CssNumber, QUARTER_BITS, TENTH_BITS, ONE_BITS};
use crate::printer::{lemma_four_steps, lemma_three_steps, number, text, Chunk, NumberScale, Printer};
use crate::text::{eq_ignore_ascii_case, str_eq, str_eq_ignore_ascii_case};
use crate::time::Time;
use crate::token::{parsed_as, token_at, ParseError, Parser, Token};
use crate::value::{CssList, CssValue, animation_list, animation_name_list, animation_name_slice, animation_names_in, animation_slice, animations_in, iteration_count_list, iteration_count_slice, iteration_counts_in};
use vstd::prelude::*;

verus! {

/// `s` is made of ASCII letters only.
pub open spec fn ascii_letters(s: Seq<char>) -> bool {
    forall|i: int| 0 <= i < s.len() ==> ('a' <= #[trigger] s[i] <= 'z' || 'A' <= s[i] <= 'Z')
}

/// What `cssparser::serialize_identifier` writes for the identifier `s`.
pub uninterp spec fn css_identifier(s: Seq<char>) -> Seq<char>;

/// Calls `cssparser::serialize_identifier`, which writes `s` as a CSS
/// identifier, escaping what needs it.  The contract names the result, and
/// states one plain fact of that function's source: a name made of ASCII
/// letters only is written unchanged.
#[verifier::external_body]
fn identifier_string(s: &str) -> (r: String)
    ensures
        r@ == css_identifier(s@),
        ascii_letters(s@) ==> r@ == s@,
{
    let mut out = String::new();
    let _ = cssparser::serialize_identifier(s, &mut out);
    out
}

/// The text written for the identifier `s`: `s` itself when it is made of
/// ASCII letters only, else what `cssparser` writes for it.
pub open spec fn identifier_text(s: Seq<char>) -> Seq<char> {
    if ascii_letters(s) {
        s
    } else {
        css_identifier(s)
    }
}

/// The name of an animation (`animation-name`).
#[derive(Debug)]
pub enum AnimationName {
    /// `none`: no animation.
    NoAnimation,
    /// The name of a `@keyframes` rule.
    Ident(String),
}

impl AnimationName {
    /// The parse at token `pos`: `none` (in any ASCII case), or any other
    /// identifier or a quoted string, which names the keyframes.
    pub open spec fn spec_parse(tokens: Seq<Token>, pos: int) -> Result<(AnimationName, int), ParseError> {
        match token_at(tokens, pos) {
            None => Err(ParseError::EndOfInput),
            Some(Token::Ident(s)) => if eq_ignore_ascii_case(s@, "none"@) {
                Ok((AnimationName::NoAnimation, pos + 1))
            } else {
                Ok((AnimationName::Ident(s), pos + 1))
            },
            Some(Token::QuotedString(s)) => Ok((AnimationName::Ident(s), pos + 1)),
            Some(_) => Err(ParseError::UnexpectedToken),
        }
    }

    /// Parses an animation name.
    pub fn parse(input: &mut Parser) -> (res: Result<AnimationName, ParseError>)
        ensures
            parsed_as(*old(input), *final(input), res, Self::spec_parse(old(input).tokens@, old(input).pos as int)),
    {
        if input.pos >= input.tokens.len() {
            return Err(ParseError::EndOfInput);
        }
        let r = match &input.tokens[input.pos] {
            Token::Ident(s) => if str_eq_ignore_ascii_case(s.as_str(), "none") {
                Ok((AnimationName::NoAnimation, input.pos + 1))
            } else {
                Ok((AnimationName::Ident(s.clone()), input.pos + 1))
            },
            Token::QuotedString(s) => Ok((AnimationName::Ident(s.clone()), input.pos + 1)),
            _ => Err(ParseError::UnexpectedToken),
        };
        input.commit(r)
    }

    /// The serialization: `none`, or the name as a CSS identifier (a name
    /// of ASCII letters is written as it is).
    pub open spec fn css(self) -> Seq<Chunk> {
        match self {
            AnimationName::NoAnimation => text("none"@),
            AnimationName::Ident(s) => text(identifier_text(s@)),
        }
    }

    /// The names referenced in a CSS module once this name is written: its
    /// identifier is added; `none` references nothing.
    pub open spec fn referenced(self, refs: Option<Seq<String>>) -> Option<Seq<String>> {
        match (refs, self) {
            (Some(r), AnimationName::Ident(s)) => Some(r.push(s)),
            _ => refs,
        }
    }

    /// Writes the name; when the output is a CSS module, the name is first
    /// recorded there as referenced.
    pub fn to_css(&self, dest: &mut Printer)
        ensures
            final(dest).minify == old(dest).minify,
            final(dest).references() == self.referenced(old(dest).references()),
            final(dest).output() == old(dest).output() + self.css(),
    {
        match self {
            AnimationName::NoAnimation => dest.write_str("none"),
            AnimationName::Ident(s) => {
                dest.reference(s);
                dest.write_string(identifier_string(s.as_str()));
            },
        }
    }
}

impl CssValue for AnimationName {
    open spec fn items(list: CssList<Self>) -> Seq<Self> {
        animation_names_in(list)
    }

    open spec fn css_eq(&self, other: &Self) -> bool {
        match (*self, *other) {
            (AnimationName::NoAnimation, AnimationName::NoAnimation) => true,
            (AnimationName::Ident(a), AnimationName::Ident(b)) => a@ == b@,
            _ => false,
        }
    }

    fn equals(&self, other: &Self) -> (r: bool) {
        match (self, other) {
            (AnimationName::NoAnimation, AnimationName::NoAnimation) => true,
            (AnimationName::Ident(a), AnimationName::Ident(b)) => str_eq(a.as_str(), b.as_str()),
            _ => false,
        }
    }

    fn duplicate(&self) -> (r: Self) {
        match self {
            AnimationName::NoAnimation => AnimationName::NoAnimation,
            AnimationName::Ident(s) => AnimationName::Ident(s.clone()),
        }
    }

    fn as_items(list: &CssList<Self>) -> (r: &[Self]) {
        animation_name_slice(list)
    }

    fn from_items(v: Vec<Self>) -> (r: CssList<Self>) {
        animation_name_list(v)
    }
}

/// How many times an animation plays (`animation-iteration-count`).
#[derive(Debug)]
pub enum AnimationIterationCount {
    Number(CssNumber),
    Infinite,
}

impl AnimationIterationCount {
    /// The parse at token `pos`: `infinite` (in any ASCII case) or a number
    /// that is not below zero.
    pub open spec fn spec_parse(tokens: Seq<Token>, pos: int) -> Result<(AnimationIterationCount, int), ParseError> {
        match token_at(tokens, pos) {
            None => Err(ParseError::EndOfInput),
            Some(Token::Ident(s)) => if eq_ignore_ascii_case(s@, "infinite"@) {
                Ok((AnimationIterationCount::Infinite, pos + 1))
            } else {
                Err(ParseError::UnexpectedToken)
            },
            Some(Token::Number { bits, int_value }) => if is_negative(bits) {
                Err(ParseError::UnexpectedToken)
            } else {
                Ok((AnimationIterationCount::Number(CssNumber { bits }), pos + 1))
            },
            Some(_) => Err(ParseError::UnexpectedToken),
        }
    }

    /// Parses an iteration count.
    pub fn parse(input: &mut Parser) -> (res: Result<AnimationIterationCount, ParseError>)
        ensures
            parsed_as(*old(input), *final(input), res, Self::spec_parse(old(input).tokens@, old(input).pos as int)),
    {
        if input.pos >= input.tokens.len() {
            return Err(ParseError::EndOfInput);
        }
        let r = match &input.tokens[input.pos] {
            Token::Ident(s) => if str_eq_ignore_ascii_case(s.as_str(), "infinite") {
                Ok((AnimationIterationCount::Infinite, input.pos + 1))
            } else {
                Err(ParseError::UnexpectedToken)
            },
            Token::Number { bits, int_value } => if CssNumber::from_bits(*bits).is_negative() {
                Err(ParseError::UnexpectedToken)
            } else {
                Ok((AnimationIterationCount::Number(CssNumber { bits: *bits }), input.pos + 1))
            },
            _ => Err(ParseError::UnexpectedToken),
        };
        input.commit(r)
    }

    /// The serialization: the number, or `infinite`.
    pub open spec fn css(self) -> Seq<Chunk> {
        match self {
            AnimationIterationCount::Number(n) => number(n.bits, NumberScale::Unit),
            AnimationIterationCount::Infinite => text("infinite"@),
        }
    }

    /// Writes the iteration count.
    pub fn to_css(&self, dest: &mut Printer)
        ensures
            final(dest).minify == old(dest).minify,
            final(dest).references() == old(dest).references(),
            final(dest).output() == old(dest).output() + self.css(),
    {
        match self {
            AnimationIterationCount::Number(n) => dest.write_number(n.bits, NumberScale::Unit),
            AnimationIterationCount::Infinite => dest.write_str("infinite"),
        }
    }
}

impl CssValue for AnimationIterationCount {
    open spec fn items(list: CssList<Self>) -> Seq<Self> {
        iteration_counts_in(list)
    }

    open spec fn css_eq(&self, other: &Self) -> bool {
        match (*self, *other) {
            (AnimationIterationCount::Number(a), AnimationIterationCount::Number(b)) => num_eq(a.bits, b.bits),
            (AnimationIterationCount::Infinite, AnimationIterationCount::Infinite) => true,
            _ => false,
        }
    }

    fn equals(&self, other: &Self) -> (r: bool) {
        match (self, other) {
            (AnimationIterationCount::Number(a), AnimationIterationCount::Number(b)) => a.num_eq(b),
            (AnimationIterationCount::Infinite, AnimationIterationCount::Infinite) => true,
            _ => false,
        }
    }

    fn duplicate(&self) -> (r: Self) {
        match self {
            AnimationIterationCount::Number(n) => AnimationIterationCount::Number(*n),
            AnimationIterationCount::Infinite => AnimationIterationCount::Infinite,
        }
    }

    fn as_items(list: &CssList<Self>) -> (r: &[Self]) {
        iteration_count_slice(list)
    }

    fn from_items(v: Vec<Self>) -> (r: CssList<Self>) {
        iteration_count_list(v)
    }
}

} // verus!

verus! {

/// The value of `animation-name`: one name per animation.
pub type AnimationNameList = CssList<AnimationName>;

/// The value of the `animation` shorthand: one entry per animation.
pub type AnimationList = CssList<Animation>;

/// One animation of the `animation` shorthand.
#[derive(Debug)]
pub struct Animation {
    pub name: AnimationName,
    pub duration: Time,
    pub timing_function: EasingFunction,
    pub iteration_count: AnimationIterationCount,
    pub direction: AnimationDirection,
    pub play_state: AnimationPlayState,
    pub delay: Time,
    pub fill_mode: AnimationFillMode,
}

/// The components of an animation read so far.
#[derive(Debug)]
pub struct AnimationSlots {
    pub name: Option<AnimationName>,
    pub duration: Option<Time>,
    pub timing_function: Option<EasingFunction>,
    pub iteration_count: Option<AnimationIterationCount>,
    pub direction: Option<AnimationDirection>,
    pub play_state: Option<AnimationPlayState>,
    pub delay: Option<Time>,
    pub fill_mode: Option<AnimationFillMode>,
}

impl AnimationSlots {
    /// No component read.
    pub open spec fn empty() -> AnimationSlots {
        AnimationSlots {
            name: None,
            duration: None,
            timing_function: None,
            iteration_count: None,
            direction: None,
            play_state: None,
            delay: None,
            fill_mode: None,
        }
    }

    /// How many components are still to be read.
    pub open spec fn missing(self) -> nat {
        (if self.name is None { 1nat } else { 0nat }) + (if self.duration is None { 1nat } else { 0nat })
            + (if self.timing_function is None { 1nat } else { 0nat }) + (if self.iteration_count is None { 1nat } else { 0nat })
            + (if self.direction is None { 1nat } else { 0nat }) + (if self.play_state is None { 1nat } else { 0nat })
            + (if self.delay is None { 1nat } else { 0nat }) + (if self.fill_mode is None { 1nat } else { 0nat })
    }

    /// One more component read at token `pos`: the first of duration,
    /// timing function, delay, iteration count, direction, fill mode, play
    /// state and name that is not read yet and parses there.  A first time
    /// is the duration, a second one the delay.
    pub open spec fn step(self, tokens: Seq<Token>, pos: int) -> Option<(AnimationSlots, int)> {
        if self.duration is None && Time::spec_parse(tokens, pos) is Ok {
            let (v, p) = Time::spec_parse(tokens, pos)->Ok_0;
            Some((AnimationSlots { duration: Some(v), ..self }, p))
        } else if self.timing_function is None && EasingFunction::spec_parse(tokens, pos) is Ok {
            let (v, p) = EasingFunction::spec_parse(tokens, pos)->Ok_0;
            Some((AnimationSlots { timing_function: Some(v), ..self }, p))
        } else if self.delay is None && Time::spec_parse(tokens, pos) is Ok {
            let (v, p) = Time::spec_parse(tokens, pos)->Ok_0;
            Some((AnimationSlots { delay: Some(v), ..self }, p))
        } else if self.iteration_count is None && AnimationIterationCount::spec_parse(tokens, pos) is Ok {
            let (v, p) = AnimationIterationCount::spec_parse(tokens, pos)->Ok_0;
            Some((AnimationSlots { iteration_count: Some(v), ..self }, p))
        } else if self.direction is None && AnimationDirection::spec_parse(tokens, pos) is Ok {
            let (v, p) = AnimationDirection::spec_parse(tokens, pos)->Ok_0;
            Some((AnimationSlots { direction: Some(v), ..self }, p))
        } else if self.fill_mode is None && AnimationFillMode::spec_parse(tokens, pos) is Ok {
            let (v, p) = AnimationFillMode::spec_parse(tokens, pos)->Ok_0;
            Some((AnimationSlots { fill_mode: Some(v), ..self }, p))
        } else if self.play_state is None && AnimationPlayState::spec_parse(tokens, pos) is Ok {
            let (v, p) = AnimationPlayState::spec_parse(tokens, pos)->Ok_0;
            Some((AnimationSlots { play_state: Some(v), ..self }, p))
        } else if self.name is None && AnimationName::spec_parse(tokens, pos) is Ok {
            let (v, p) = AnimationName::spec_parse(tokens, pos)->Ok_0;
            Some((AnimationSlots { name: Some(v), ..self }, p))
        } else {
            None
        }
    }

    /// The components read from token `pos` on, one step at a time until
    /// no step applies, and the position where reading stops.
    pub open spec fn read_all(self, tokens: Seq<Token>, pos: int) -> (AnimationSlots, int)
        decreases self.missing(),
    {
        match self.step(tokens, pos) {
            Some((next, p)) => next.read_all(tokens, p),
            None => (self, pos),
        }
    }

    /// The animation with the components read, and defaults for the rest:
    /// `none`, `0s`, `ease`, `1`, `normal`, `running`, `0s` and `none`.
    pub open spec fn with_defaults(self) -> Animation {
        Animation {
            name: match self.name { Some(v) => v, None => AnimationName::NoAnimation },
            duration: match self.duration { Some(v) => v, None => Time::Seconds(CssNumber { bits: 0 }) },
            timing_function: match self.timing_function { Some(v) => v, None => EasingFunction::Ease },
            iteration_count: match self.iteration_count {
                Some(v) => v,
                None => AnimationIterationCount::Number(CssNumber { bits: ONE_BITS }),
            },
            direction: match self.direction { Some(v) => v, None => AnimationDirection::Normal },
            play_state: match self.play_state { Some(v) => v, None => AnimationPlayState::Running },
            delay: match self.delay { Some(v) => v, None => Time::Seconds(CssNumber { bits: 0 }) },
            fill_mode: match self.fill_mode { Some(v) => v, None => AnimationFillMode::NoFill },
        }
    }
}

/// Reads one component into `slots`; false, with nothing changed, if no
/// component applies.
fn parse_step(input: &mut Parser, slots: &mut AnimationSlots) -> (found: bool)
    ensures
        final(input).tokens@ == old(input).tokens@,
        match old(slots).step(old(input).tokens@, old(input).pos as int) {
            Some((next, p)) => found && *final(slots) == next && final(input).pos == p,
            None => !found && *final(slots) == *old(slots) && final(input).pos == old(input).pos,
        },
{
    if slots.duration.is_none() {
        if let Ok(v) = Time::parse(input) {
            slots.duration = Some(v);
            return true;
        }
    }
    if slots.timing_function.is_none() {
        if let Ok(v) = EasingFunction::parse(input) {
            slots.timing_function = Some(v);
            return true;
        }
    }
    if slots.delay.is_none() {
        if let Ok(v) = Time::parse(input) {
            slots.delay = Some(v);
            return true;
        }
    }
    if slots.iteration_count.is_none() {
        if let Ok(v) = AnimationIterationCount::parse(input) {
            slots.iteration_count = Some(v);
            return true;
        }
    }
    if slots.direction.is_none() {
        if let Ok(v) = AnimationDirection::parse(input) {
            slots.direction = Some(v);
            return true;
        }
    }
    if slots.fill_mode.is_none() {
        if let Ok(v) = AnimationFillMode::parse(input) {
            slots.fill_mode = Some(v);
            return true;
        }
    }
    if slots.play_state.is_none() {
        if let Ok(v) = AnimationPlayState::parse(input) {
            slots.play_state = Some(v);
            return true;
        }
    }
    if slots.name.is_none() {
        if let Ok(v) = AnimationName::parse(input) {
            slots.name = Some(v);
            return true;
        }
    }
    false
}

} // verus!

verus! {

fn slots_with_defaults(slots: AnimationSlots) -> (a: Animation)
    ensures
        a == slots.with_defaults(),
{
    Animation {
        name: match slots.name { Some(v) => v, None => AnimationName::NoAnimation },
        duration: match slots.duration { Some(v) => v, None => Time::zero() },
        timing_function: match slots.timing_function { Some(v) => v, None => EasingFunction::Ease },
        iteration_count: match slots.iteration_count {
            Some(v) => v,
            None => AnimationIterationCount::Number(CssNumber { bits: ONE_BITS }),
        },
        direction: match slots.direction { Some(v) => v, None => AnimationDirection::Normal },
        play_state: match slots.play_state { Some(v) => v, None => AnimationPlayState::Running },
        delay: match slots.delay { Some(v) => v, None => Time::zero() },
        fill_mode: match slots.fill_mode { Some(v) => v, None => AnimationFillMode::NoFill },
    }
}

/// `part` with a separating space: after it when the name comes `last`,
/// else before it.
pub open spec fn spaced(part: Seq<Chunk>, last: bool) -> Seq<Chunk> {
    if last {
        part + text(" "@)
    } else {
        text(" "@) + part
    }
}

/// `part` when `cond` holds, else nothing.
pub open spec fn when(cond: bool, part: Seq<Chunk>) -> Seq<Chunk> {
    if cond {
        part
    } else {
        seq![]
    }
}

impl Animation {
    /// The parse at token `pos`: components are read in any order, each at
    /// most once, until none applies; the missing ones take their default
    /// values.  It never fails, and reads nothing where no component applies.
    pub open spec fn spec_parse(tokens: Seq<Token>, pos: int) -> Result<(Animation, int), ParseError> {
        let (slots, p) = AnimationSlots::empty().read_all(tokens, pos);
        Ok((slots.with_defaults(), p))
    }

    /// Parses one animation.
    pub fn parse(input: &mut Parser) -> (res: Result<Animation, ParseError>)
        ensures
            parsed_as(*old(input), *final(input), res, Self::spec_parse(old(input).tokens@, old(input).pos as int)),
    {
        let mut slots = AnimationSlots {
            name: None,
            duration: None,
            timing_function: None,
            iteration_count: None,
            direction: None,
            play_state: None,
            delay: None,
            fill_mode: None,
        };
        let ghost tokens = input.tokens@;
        let ghost start = input.pos as int;
        loop
            invariant
                input.tokens@ == tokens,
                slots.read_all(tokens, input.pos as int) == AnimationSlots::empty().read_all(tokens, start),
            ensures
                input.tokens@ == tokens,
                slots.read_all(tokens, input.pos as int) == (slots, input.pos as int),
                slots.read_all(tokens, input.pos as int) == AnimationSlots::empty().read_all(tokens, start),
            decreases slots.missing(),
        {
            if !parse_step(input, &mut slots) {
                break;
            }
        }
        Ok(slots_with_defaults(slots))
    }

    /// The timing function is the default one, `ease`, whether written as
    /// the keyword or as its cubic Bézier curve.
    pub open spec fn default_timing(tf: EasingFunction) -> bool {
        ||| tf == EasingFunction::Ease
        ||| match tf {
            EasingFunction::CubicBezier(x1, y1, x2, y2) =>
                EasingFunction::bezier_is(x1.bits, y1.bits, x2.bits, y2.bits, QUARTER_BITS, TENTH_BITS, QUARTER_BITS, ONE_BITS),
            _ => false,
        }
    }

    /// The iteration count is the default one, 1.
    pub open spec fn default_count(c: AnimationIterationCount) -> bool {
        match c {
            AnimationIterationCount::Number(n) => num_eq(n.bits, ONE_BITS),
            _ => false,
        }
    }

    /// The name `n` could be read as a value of another component: it is
    /// an easing keyword, `infinite`, or a keyword of the direction, the
    /// fill mode or the play state.
    pub open spec fn name_is_keyword(n: Seq<char>) -> bool {
        ||| EasingFunction::spec_is_ident(n)
        ||| n == "infinite"@
        ||| AnimationDirection::spec_parse_string(n) is Ok
        ||| AnimationFillMode::spec_parse_string(n) is Ok
        ||| AnimationPlayState::spec_parse_string(n) is Ok
    }

    /// The serialization: the name, then the components that differ from
    /// their defaults, each after a space, in the order duration, timing
    /// function, delay, iteration count, direction, fill mode and play
    /// state.  The duration is also written when the delay is, and a
    /// component is also written when the name could be read as one of its
    /// values; such a name is written last instead, each component followed
    /// by a space, so that the component is read first and the name then
    /// reads as the name.  Without a name (`none`) nothing but `none` is
    /// written.
    pub open spec fn css(self, minify: bool) -> Seq<Chunk> {
        match self.name {
            AnimationName::NoAnimation => text("none"@),
            AnimationName::Ident(n) => if Self::name_is_keyword(n@) {
                self.times_css(n@, minify, true) + self.keywords_css(n@, true) + self.name.css()
            } else {
                self.name.css() + self.times_css(n@, minify, false) + self.keywords_css(n@, false)
            },
        }
    }

    /// The duration, timing function and delay parts of the serialization
    /// of an animation named `n`.
    pub open spec fn times_css(self, n: Seq<char>, minify: bool, last: bool) -> Seq<Chunk> {
        when(!self.duration.spec_is_zero() || !self.delay.spec_is_zero(), spaced(self.duration.css(), last))
            + when(!Self::default_timing(self.timing_function) || EasingFunction::spec_is_ident(n),
            spaced(self.timing_function.css(minify), last))
            + when(!self.delay.spec_is_zero(), spaced(self.delay.css(), last))
    }

    /// The iteration count, direction, fill mode and play state parts of
    /// the serialization of an animation named `n`.
    pub open spec fn keywords_css(self, n: Seq<char>, last: bool) -> Seq<Chunk> {
        when(!Self::default_count(self.iteration_count) || n == "infinite"@, spaced(self.iteration_count.css(), last))
            + when(self.direction != AnimationDirection::Normal
            || AnimationDirection::spec_parse_string(n) is Ok, spaced(self.direction.css(), last))
            + when(self.fill_mode != AnimationFillMode::NoFill
            || AnimationFillMode::spec_parse_string(n) is Ok, spaced(self.fill_mode.css(), last))
            + when(self.play_state != AnimationPlayState::Running
            || AnimationPlayState::spec_parse_string(n) is Ok, spaced(self.play_state.css(), last))
    }

    fn write_timing_and_times(&self, name: &String, last: bool, dest: &mut Printer)
        ensures
            final(dest).minify == old(dest).minify,
            final(dest).references() == old(dest).references(),
            final(dest).output() == old(dest).output() + self.times_css(name@, old(dest).minify, last),
    {
        let ghost out0 = dest.output();
        if !self.duration.is_zero() || !self.delay.is_zero() {
            if last {
                self.duration.to_css(dest);
                dest.write_str(" ");
            } else {
                dest.write_str(" ");
                self.duration.to_css(dest);
            }
        }
        let ghost out1 = dest.output();
        assert(out1 =~= out0 + when(!self.duration.spec_is_zero() || !self.delay.spec_is_zero(), spaced(self.duration.css(), last)));
        let default_bezier = EasingFunction::CubicBezier(
            CssNumber { bits: QUARTER_BITS },
            CssNumber { bits: TENTH_BITS },
            CssNumber { bits: QUARTER_BITS },
            CssNumber { bits: ONE_BITS },
        );
        if (!self.timing_function.equals(&EasingFunction::Ease) && !self.timing_function.equals(&default_bezier))
            || EasingFunction::is_ident(name.as_str()) {
            if last {
                self.timing_function.to_css(dest);
                dest.write_str(" ");
            } else {
                dest.write_str(" ");
                self.timing_function.to_css(dest);
            }
        }
        let ghost out2 = dest.output();
        assert(out2 =~= out1 + when(!Self::default_timing(self.timing_function) || EasingFunction::spec_is_ident(name@),
            spaced(self.timing_function.css(old(dest).minify), last)));
        if !self.delay.is_zero() {
            if last {
                self.delay.to_css(dest);
                dest.write_str(" ");
            } else {
                dest.write_str(" ");
                self.delay.to_css(dest);
            }
        }
        assert(dest.output() =~= out2 + when(!self.delay.spec_is_zero(), spaced(self.delay.css(), last)));
        proof {
            lemma_three_steps(
                out0,
                when(!self.duration.spec_is_zero() || !self.delay.spec_is_zero(), spaced(self.duration.css(), last)),
                when(!Self::default_timing(self.timing_function) || EasingFunction::spec_is_ident(name@),
                    spaced(self.timing_function.css(old(dest).minify), last)),
                when(!self.delay.spec_is_zero(), spaced(self.delay.css(), last)),
            );
        }
    }

    fn write_keywords(&self, name: &String, last: bool, dest: &mut Printer)
        ensures
            final(dest).minify == old(dest).minify,
            final(dest).references() == old(dest).references(),
            final(dest).output() == old(dest).output() + self.keywords_css(name@, last),
    {
        self.write_count(name, last, dest);
        self.write_direction(name, last, dest);
        self.write_fill_mode(name, last, dest);
        self.write_play_state(name, last, dest);
        proof {
            lemma_four_steps(
                old(dest).output(),
                when(!Self::default_count(self.iteration_count) || name@ == "infinite"@,
                    spaced(self.iteration_count.css(), last)),
                when(self.direction != AnimationDirection::Normal
                    || AnimationDirection::spec_parse_string(name@) is Ok, spaced(self.direction.css(), last)),
                when(self.fill_mode != AnimationFillMode::NoFill
                    || AnimationFillMode::spec_parse_string(name@) is Ok, spaced(self.fill_mode.css(), last)),
                when(self.play_state != AnimationPlayState::Running
                    || AnimationPlayState::spec_parse_string(name@) is Ok, spaced(self.play_state.css(), last)),
            );
        }
    }

    fn write_count(&self, name: &String, last: bool, dest: &mut Printer)
        ensures
            final(dest).minify == old(dest).minify,
            final(dest).references() == old(dest).references(),
            final(dest).output() == old(dest).output()
                + when(!Self::default_count(self.iteration_count) || name@ == "infinite"@,
                    spaced(self.iteration_count.css(), last)),
    {
        if !self.iteration_count.equals(&AnimationIterationCount::Number(CssNumber { bits: ONE_BITS }))
            || str_eq(name.as_str(), "infinite") {
            if last {
                self.iteration_count.to_css(dest);
                dest.write_str(" ");
            } else {
                dest.write_str(" ");
                self.iteration_count.to_css(dest);
            }
        }
        assert(dest.output() =~= old(dest).output() + when(!Self::default_count(self.iteration_count) || name@ == "infinite"@,
            spaced(self.iteration_count.css(), last)));
    }

    fn write_direction(&self, name: &String, last: bool, dest: &mut Printer)
        ensures
            final(dest).minify == old(dest).minify,
            final(dest).references() == old(dest).references(),
            final(dest).output() == old(dest).output()
                + when(self.direction != AnimationDirection::Normal
                    || AnimationDirection::spec_parse_string(name@) is Ok, spaced(self.direction.css(), last)),
    {
        if self.direction != AnimationDirection::Normal || AnimationDirection::parse_string(name.as_str()).is_ok() {
            if last {
                self.direction.to_css(dest);
                dest.write_str(" ");
            } else {
                dest.write_str(" ");
                self.direction.to_css(dest);
            }
        }
        assert(dest.output() =~= old(dest).output() + when(self.direction != AnimationDirection::Normal
            || AnimationDirection::spec_parse_string(name@) is Ok, spaced(self.direction.css(), last)));
    }

    fn write_fill_mode(&self, name: &String, last: bool, dest: &mut Printer)
        ensures
            final(dest).minify == old(dest).minify,
            final(dest).references() == old(dest).references(),
            final(dest).output() == old(dest).output()
                + when(self.fill_mode != AnimationFillMode::NoFill
                    || AnimationFillMode::spec_parse_string(name@) is Ok, spaced(self.fill_mode.css(), last)),
    {
        if self.fill_mode != AnimationFillMode::NoFill || AnimationFillMode::parse_string(name.as_str()).is_ok() {
            if last {
                self.fill_mode.to_css(dest);
                dest.write_str(" ");
            } else {
                dest.write_str(" ");
                self.fill_mode.to_css(dest);
            }
        }
        assert(dest.output() =~= old(dest).output() + when(self.fill_mode != AnimationFillMode::NoFill
            || AnimationFillMode::spec_parse_string(name@) is Ok, spaced(self.fill_mode.css(), last)));
    }

    fn write_play_state(&self, name: &String, last: bool, dest: &mut Printer)
        ensures
            final(dest).minify == old(dest).minify,
            final(dest).references() == old(dest).references(),
            final(dest).output() == old(dest).output()
                + when(self.play_state != AnimationPlayState::Running
                    || AnimationPlayState::spec_parse_string(name@) is Ok, spaced(self.play_state.css(), last)),
    {
        if self.play_state != AnimationPlayState::Running || AnimationPlayState::parse_string(name.as_str()).is_ok() {
            if last {
                self.play_state.to_css(dest);
                dest.write_str(" ");
            } else {
                dest.write_str(" ");
                self.play_state.to_css(dest);
            }
        }
        assert(dest.output() =~= old(dest).output() + when(self.play_state != AnimationPlayState::Running
            || AnimationPlayState::spec_parse_string(name@) is Ok, spaced(self.play_state.css(), last)));
    }

    /// Whether the name `n` could be read as a value of another component.
    fn name_is_keyword_exec(n: &String) -> (r: bool)
        ensures
            r == Self::name_is_keyword(n@),
    {
        EasingFunction::is_ident(n.as_str()) || str_eq(n.as_str(), "infinite")
            || AnimationDirection::parse_string(n.as_str()).is_ok()
            || AnimationFillMode::parse_string(n.as_str()).is_ok()
            || AnimationPlayState::parse_string(n.as_str()).is_ok()
    }

    /// Writes the animation; its name is referenced as `AnimationName::to_css`
    /// does.
    pub fn to_css(&self, dest: &mut Printer)
        ensures
            final(dest).minify == old(dest).minify,
            final(dest).references() == self.name.referenced(old(dest).references()),
            final(dest).output() == old(dest).output() + self.css(old(dest).minify),
    {
        match &self.name {
            AnimationName::NoAnimation => {
                self.name.to_css(dest);
            },
            AnimationName::Ident(name) => {
                let ghost m = old(dest).minify;
                if Self::name_is_keyword_exec(name) {
                    self.write_timing_and_times(name, true, dest);
                    self.write_keywords(name, true, dest);
                    self.name.to_css(dest);
                    proof {
                        lemma_three_steps(
                            old(dest).output(),
                            self.times_css(name@, m, true),
                            self.keywords_css(name@, true),
                            self.name.css(),
                        );
                    }
                } else {
                    self.name.to_css(dest);
                    self.write_timing_and_times(name, false, dest);
                    self.write_keywords(name, false, dest);
                    proof {
                        lemma_three_steps(
                            old(dest).output(),
                            self.name.css(),
                            self.times_css(name@, m, false),
                            self.keywords_css(name@, false),
                        );
                    }
                }
            },
        }
    }
}

impl CssValue for Animation {
    open spec fn items(list: CssList<Self>) -> Seq<Self> {
        animations_in(list)
    }

    open spec fn css_eq(&self, other: &Self) -> bool {
        &&& self.name.css_eq(&other.name)
        &&& self.duration.css_eq(&other.duration)
        &&& self.timing_function.css_eq(&other.timing_function)
        &&& self.iteration_count.css_eq(&other.iteration_count)
        &&& self.direction == other.direction
        &&& self.play_state == other.play_state
        &&& self.delay.css_eq(&other.delay)
        &&& self.fill_mode == other.fill_mode
    }

    fn equals(&self, other: &Self) -> (r: bool) {
        self.name.equals(&other.name) && self.duration.equals(&other.duration)
            && self.timing_function.equals(&other.timing_function)
            && self.iteration_count.equals(&other.iteration_count) && self.direction == other.direction
            && self.play_state == other.play_state && self.delay.equals(&other.delay)
            && self.fill_mode == other.fill_mode
    }

    fn duplicate(&self) -> (r: Self) {
        Animation {
            name: self.name.duplicate(),
            duration: self.duration.duplicate(),
            timing_function: self.timing_function.duplicate(),
            iteration_count: self.iteration_count.duplicate(),
            direction: self.direction,
            play_state: self.play_state,
            delay: self.delay.duplicate(),
            fill_mode: self.fill_mode,
        }
    }

    fn as_items(list: &CssList<Self>) -> (r: &[Self]) {
        animation_slice(list)
    }

    fn from_items(v: Vec<Self>) -> (r: CssList<Self>) {
        animation_list(v)
    }
}

} // verus!

verus! {

/// Law: a lone identifier that is not `none` and names no value of another
/// component is read as the animation's name, with every other component
/// at its default.
pub proof fn law_lone_identifier_is_the_name(s: String)
    requires
        !eq_ignore_ascii_case(s@, "none"@),
        !eq_ignore_ascii_case(s@, "infinite"@),
        crate::easing::easing_keyword(s@) is None,
        AnimationDirection::from_keyword(s@) is None,
        AnimationFillMode::from_keyword(s@) is None,
        AnimationPlayState::from_keyword(s@) is None,
    ensures
        Animation::spec_parse(seq![Token::Ident(s)], 0) == Ok::<(Animation, int), ParseError>((
            AnimationSlots { name: Some(AnimationName::Ident(s)), ..AnimationSlots::empty() }.with_defaults(),
            1,
        )),
{
    let tokens = seq![Token::Ident(s)];
    let first = AnimationSlots { name: Some(AnimationName::Ident(s)), ..AnimationSlots::empty() };
    assert(AnimationSlots::empty().step(tokens, 0) == Some((first, 1int)));
    assert(first.step(tokens, 1) is None);
    reveal_with_fuel(AnimationSlots::read_all, 3);
}

/// Law: of two times, the first is read as the duration and the second as
/// the delay.
pub proof fn law_first_time_is_the_duration(b1: u32, u1: String, b2: u32, u2: String)
    requires
        eq_ignore_ascii_case(u1@, "s"@),
        eq_ignore_ascii_case(u2@, "s"@),
    ensures
        Animation::spec_parse(seq![Token::Dimension { bits: b1, unit: u1 }, Token::Dimension { bits: b2, unit: u2 }], 0)
            == Ok::<(Animation, int), ParseError>((
            AnimationSlots {
                duration: Some(Time::Seconds(CssNumber { bits: b1 })),
                delay: Some(Time::Seconds(CssNumber { bits: b2 })),
                ..AnimationSlots::empty()
            }.with_defaults(),
            2,
        )),
{
    let tokens = seq![Token::Dimension { bits: b1, unit: u1 }, Token::Dimension { bits: b2, unit: u2 }];
    let first = AnimationSlots { duration: Some(Time::Seconds(CssNumber { bits: b1 })), ..AnimationSlots::empty() };
    let second = AnimationSlots { delay: Some(Time::Seconds(CssNumber { bits: b2 })), ..first };
    assert(AnimationSlots::empty().step(tokens, 0) == Some((first, 1int)));
    assert(first.step(tokens, 1) == Some((second, 2int)));
    assert(second.step(tokens, 2) is None);
    reveal_with_fuel(AnimationSlots::read_all, 4);
}

/// Law: an animation without a name (`none`) is written as `none` alone,
/// whatever its other components.
pub proof fn law_no_name_is_written_alone(a: Animation, minify: bool)
    requires
        a.name is NoAnimation,
    ensures
        a.css(minify) == text("none"@),
{
}

/// Law: components at their default values are left out, so an animation
/// with only a name is written as its name, unless the name could be read
/// as a value of another component.
pub proof fn law_defaults_are_left_out(a: Animation, n: String, minify: bool)
    requires
        a.name == AnimationName::Ident(n),
        a.duration.spec_is_zero(),
        a.delay.spec_is_zero(),
        a.timing_function == EasingFunction::Ease,
        a.iteration_count == AnimationIterationCount::Number(CssNumber { bits: ONE_BITS }),
        a.direction == AnimationDirection::Normal,
        a.fill_mode == AnimationFillMode::NoFill,
        a.play_state == AnimationPlayState::Running,
        !EasingFunction::spec_is_ident(n@),
        n@ != "infinite"@,
        AnimationDirection::spec_parse_string(n@) is Err,
        AnimationFillMode::spec_parse_string(n@) is Err,
        AnimationPlayState::spec_parse_string(n@) is Err,
    ensures
        a.css(minify) == text(identifier_text(n@)),
{
    assert(a.css(minify) =~= text(identifier_text(n@)));
}

/// Law: a name that is also a direction keyword, read after a direction
/// keyword (as the serialization writes it), is read as the name, and the
/// keyword before it as the direction.
pub proof fn law_keyword_name_after_its_component_is_the_name(d: String, n: String)
    requires
        AnimationDirection::from_keyword(d@) is Some,
        AnimationDirection::from_keyword(n@) is Some,
        !eq_ignore_ascii_case(d@, "none"@),
        !eq_ignore_ascii_case(d@, "infinite"@),
        crate::easing::easing_keyword(d@) is None,
        !eq_ignore_ascii_case(n@, "none"@),
        !eq_ignore_ascii_case(n@, "infinite"@),
        crate::easing::easing_keyword(n@) is None,
        AnimationFillMode::from_keyword(n@) is None,
        AnimationPlayState::from_keyword(n@) is None,
    ensures
        Animation::spec_parse(seq![Token::Ident(d), Token::Ident(n)], 0) == Ok::<(Animation, int), ParseError>((
            AnimationSlots {
                direction: AnimationDirection::from_keyword(d@),
                name: Some(AnimationName::Ident(n)),
                ..AnimationSlots::empty()
            }.with_defaults(),
            2,
        )),
{
    let tokens = seq![Token::Ident(d), Token::Ident(n)];
    let first = AnimationSlots { direction: AnimationDirection::from_keyword(d@), ..AnimationSlots::empty() };
    let second = AnimationSlots { name: Some(AnimationName::Ident(n)), ..first };
    assert(AnimationSlots::empty().step(tokens, 0) == Some((first, 1int)));
    assert(first.step(tokens, 1) == Some((second, 2int)));
    assert(second.step(tokens, 2) is None);
    reveal_with_fuel(AnimationSlots::read_all, 4);
}

/// Law: a name reads back from the identifier token it is written as:
/// `none` as no animation, and any other identifier as that name.
pub proof fn law_name_reads_back_from_its_token(s: String)
    ensures
        eq_ignore_ascii_case(s@, "none"@) ==> AnimationName::spec_parse(seq![Token::Ident(s)], 0)
            == Ok::<(AnimationName, int), ParseError>((AnimationName::NoAnimation, 1)),
        !eq_ignore_ascii_case(s@, "none"@) ==> AnimationName::spec_parse(seq![Token::Ident(s)], 0)
            == Ok::<(AnimationName, int), ParseError>((AnimationName::Ident(s), 1)),
{
}

proof fn lemma_name_last_regroup(d: Seq<Chunk>, t: Seq<Chunk>, sp: Seq<Chunk>, dl: Seq<Chunk>, k: Seq<Chunk>, nm: Seq<Chunk>)
    ensures
        (d + (t + sp) + dl) + k + nm == d.add(t).add(sp + dl + k + nm),
{
    assert((d + (t + sp) + dl) + k + nm =~= d.add(t).add(sp + dl + k + nm));
}

proof fn lemma_name_first_regroup(nm: Seq<Chunk>, d: Seq<Chunk>, sp: Seq<Chunk>, t: Seq<Chunk>, dl: Seq<Chunk>, k: Seq<Chunk>)
    ensures
        nm + (d + (sp + t) + dl) + k == (nm + d + sp).add(t).add(dl + k),
{
    assert(nm + (d + (sp + t) + dl) + k =~= (nm + d + sp).add(t).add(dl + k));
}

/// Law: a named animation whose timing function is neither `ease` nor the
/// cubic Bézier curve of `ease`, (0.25, 0.1, 0.25, 1), is written with its
/// timing function: the serialization of the timing function stands, whole,
/// in that of the animation.
pub proof fn law_other_timing_function_is_written(a: Animation, minify: bool)
    requires
        a.name is Ident,
        !(a.timing_function is Ease),
        a.timing_function matches EasingFunction::CubicBezier(x1, y1, x2, y2) ==> (x1.bits != 0x3e80_0000
            || y1.bits != 0x3dcc_cccd || x2.bits != 0x3e80_0000 || y2.bits != 0x3f80_0000),
    ensures
        exists|pre: Seq<Chunk>, post: Seq<Chunk>|
            #[trigger] pre.add(a.timing_function.css(minify)).add(post) == a.css(minify),
{
    let n = a.name->Ident_0;
    let t = a.timing_function.css(minify);
    assert(!Animation::default_timing(a.timing_function));
    let sp = text(" "@);
    if Animation::name_is_keyword(n@) {
        let d = when(!a.duration.spec_is_zero() || !a.delay.spec_is_zero(), spaced(a.duration.css(), true));
        let dl = when(!a.delay.spec_is_zero(), spaced(a.delay.css(), true));
        assert(a.times_css(n@, minify, true) == d + (t + sp) + dl);
        lemma_name_last_regroup(d, t, sp, dl, a.keywords_css(n@, true), a.name.css());
        assert((d).add(t).add(sp + dl + a.keywords_css(n@, true) + a.name.css()) == a.css(minify));
    } else {
        let d = when(!a.duration.spec_is_zero() || !a.delay.spec_is_zero(), spaced(a.duration.css(), false));
        let dl = when(!a.delay.spec_is_zero(), spaced(a.delay.css(), false));
        assert(a.times_css(n@, minify, false) == d + (sp + t) + dl);
        lemma_name_first_regroup(a.name.css(), d, sp, t, dl, a.keywords_css(n@, false));
        assert((a.name.css() + d + sp).add(t).add(dl + a.keywords_css(n@, false)) == a.css(minify));
    }
}

/// Law: `infinite`, in any ASCII case, is read as an endless iteration
/// count, a number that is not below zero as that count, and a number below
/// zero is refused; an endless count is written as `infinite`.
pub proof fn law_iteration_count_reading(s: String, bits: u32, int_value: Option<i32>)
    ensures
        eq_ignore_ascii_case(s@, "infinite"@) ==> AnimationIterationCount::spec_parse(seq![Token::Ident(s)], 0)
            == Ok::<(AnimationIterationCount, int), ParseError>((AnimationIterationCount::Infinite, 1)),
        !is_negative(bits) ==> AnimationIterationCount::spec_parse(seq![Token::Number { bits, int_value }], 0)
            == Ok::<(AnimationIterationCount, int), ParseError>((AnimationIterationCount::Number(CssNumber { bits }), 1)),
        is_negative(bits) ==> AnimationIterationCount::spec_parse(seq![Token::Number { bits, int_value }], 0)
            == Err::<(AnimationIterationCount, int), ParseError>(ParseError::UnexpectedToken),
        AnimationIterationCount::Infinite.css() == text("infinite"@),
{
}

/// Law: where no component can be read, the animation has every
/// component at its initial value: no name, `0s`, `ease`, one iteration,
/// `normal`, `running`, `0s` and no fill mode.
pub proof fn law_nothing_read_gives_initial_values(tokens: Seq<Token>, pos: int)
    requires
        token_at(tokens, pos) is None,
    ensures
        Animation::spec_parse(tokens, pos) == Ok::<(Animation, int), ParseError>((
            Animation {
                name: AnimationName::NoAnimation,
                duration: Time::Seconds(CssNumber { bits: 0 }),
                timing_function: EasingFunction::Ease,
                iteration_count: AnimationIterationCount::Number(CssNumber { bits: 0x3f80_0000 }),
                direction: AnimationDirection::Normal,
                play_state: AnimationPlayState::Running,
                delay: Time::Seconds(CssNumber { bits: 0 }),
                fill_mode: AnimationFillMode::NoFill,
            },
            pos,
        )),
{
    assert(AnimationSlots::empty().step(tokens, pos) is None);
    reveal_with_fuel(AnimationSlots::read_all, 2);
}

} // verus!

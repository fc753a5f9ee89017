//! CSS easing functions (`animation-timing-function` values).

use crate::number::{num_eq, CssNumber, ONE_BITS, POINT_42_BITS, POINT_58_BITS, QUARTER_BITS, TENTH_BITS};
use crate::printer::{decimal_text, number, text, Chunk, NumberScale, Printer};
use crate::text::{eq_ignore_ascii_case, lemma_case_distinct, str_eq, str_eq_ignore_ascii_case};
use crate::token::{
    arg_comma, arg_number, arg_token_at, close_args, same_parse, spec_arg_comma, spec_arg_number,
    spec_close_args, token_at, parsed_as, ParseError, Parser, Token,
};
use crate::value::{CssList, CssValue, easing_function_list, easing_function_slice, easing_functions_in};
use vstd::prelude::*;

verus! {

/// Where the jumps of a `steps()` function are.
#[derive(Clone, Copy, Debug, PartialEq, Eq, Structural)]
pub enum StepPosition {
    Start,
    End,
    JumpNone,
    JumpBoth,
}

/// The step position that an identifier names, up to ASCII case.
pub open spec fn step_position_of(ident: Seq<char>) -> Option<StepPosition> {
    if eq_ignore_ascii_case(ident, "start"@) {
        Some(StepPosition::Start)
    } else if eq_ignore_ascii_case(ident, "end"@) {
        Some(StepPosition::End)
    } else if eq_ignore_ascii_case(ident, "jump-start"@) {
        Some(StepPosition::Start)
    } else if eq_ignore_ascii_case(ident, "jump-end"@) {
        Some(StepPosition::End)
    } else if eq_ignore_ascii_case(ident, "jump-none"@) {
        Some(StepPosition::JumpNone)
    } else if eq_ignore_ascii_case(ident, "jump-both"@) {
        Some(StepPosition::JumpBoth)
    } else {
        None
    }
}

fn step_position_from(ident: &str) -> (r: Option<StepPosition>)
    ensures
        r == step_position_of(ident@),
{
    if str_eq_ignore_ascii_case(ident, "start") {
        Some(StepPosition::Start)
    } else if str_eq_ignore_ascii_case(ident, "end") {
        Some(StepPosition::End)
    } else if str_eq_ignore_ascii_case(ident, "jump-start") {
        Some(StepPosition::Start)
    } else if str_eq_ignore_ascii_case(ident, "jump-end") {
        Some(StepPosition::End)
    } else if str_eq_ignore_ascii_case(ident, "jump-none") {
        Some(StepPosition::JumpNone)
    } else if str_eq_ignore_ascii_case(ident, "jump-both") {
        Some(StepPosition::JumpBoth)
    } else {
        None
    }
}

impl StepPosition {
    /// The keyword of the position.
    pub open spec fn keyword(self) -> Seq<char> {
        match self {
            StepPosition::Start => "start"@,
            StepPosition::End => "end"@,
            StepPosition::JumpNone => "jump-none"@,
            StepPosition::JumpBoth => "jump-both"@,
        }
    }

    /// Writes the keyword of the position.
    pub fn to_css(&self, dest: &mut Printer)
        ensures
            final(dest).minify == old(dest).minify,
            final(dest).references() == old(dest).references(),
            final(dest).output() == old(dest).output() + text(self.keyword()),
    {
        match self {
            StepPosition::Start => dest.write_str("start"),
            StepPosition::End => dest.write_str("end"),
            StepPosition::JumpNone => dest.write_str("jump-none"),
            StepPosition::JumpBoth => dest.write_str("jump-both"),
        }
    }
}

/// An easing function.
#[derive(Debug)]
pub enum EasingFunction {
    Linear,
    Ease,
    EaseIn,
    EaseOut,
    EaseInOut,
    CubicBezier(CssNumber, CssNumber, CssNumber, CssNumber),
    Steps(i32, StepPosition),
}

/// The easing function that a keyword names, up to ASCII case.
pub open spec fn easing_keyword(ident: Seq<char>) -> Option<EasingFunction> {
    if eq_ignore_ascii_case(ident, "linear"@) {
        Some(EasingFunction::Linear)
    } else if eq_ignore_ascii_case(ident, "ease"@) {
        Some(EasingFunction::Ease)
    } else if eq_ignore_ascii_case(ident, "ease-in"@) {
        Some(EasingFunction::EaseIn)
    } else if eq_ignore_ascii_case(ident, "ease-out"@) {
        Some(EasingFunction::EaseOut)
    } else if eq_ignore_ascii_case(ident, "ease-in-out"@) {
        Some(EasingFunction::EaseInOut)
    } else if eq_ignore_ascii_case(ident, "step-start"@) {
        Some(EasingFunction::Steps(1, StepPosition::Start))
    } else if eq_ignore_ascii_case(ident, "step-end"@) {
        Some(EasingFunction::Steps(1, StepPosition::End))
    } else {
        None
    }
}

fn easing_from_keyword(ident: &str) -> (r: Option<EasingFunction>)
    ensures
        r == easing_keyword(ident@),
{
    if str_eq_ignore_ascii_case(ident, "linear") {
        Some(EasingFunction::Linear)
    } else if str_eq_ignore_ascii_case(ident, "ease") {
        Some(EasingFunction::Ease)
    } else if str_eq_ignore_ascii_case(ident, "ease-in") {
        Some(EasingFunction::EaseIn)
    } else if str_eq_ignore_ascii_case(ident, "ease-out") {
        Some(EasingFunction::EaseOut)
    } else if str_eq_ignore_ascii_case(ident, "ease-in-out") {
        Some(EasingFunction::EaseInOut)
    } else if str_eq_ignore_ascii_case(ident, "step-start") {
        Some(EasingFunction::Steps(1, StepPosition::Start))
    } else if str_eq_ignore_ascii_case(ident, "step-end") {
        Some(EasingFunction::Steps(1, StepPosition::End))
    } else {
        None
    }
}

/// The arguments of `cubic-bezier(` at `i`: four numbers separated by
/// commas, then the end of the arguments.
pub open spec fn spec_cubic_bezier_args(tokens: Seq<Token>, i: int) -> Result<(EasingFunction, int), ParseError> {
    match spec_arg_number(tokens, i) {
        Err(e) => Err(e),
        Ok((x1, i1)) => match spec_arg_comma(tokens, i1) {
            Err(e) => Err(e),
            Ok((_, i2)) => match spec_arg_number(tokens, i2) {
                Err(e) => Err(e),
                Ok((y1, i3)) => match spec_arg_comma(tokens, i3) {
                    Err(e) => Err(e),
                    Ok((_, i4)) => match spec_arg_number(tokens, i4) {
                        Err(e) => Err(e),
                        Ok((x2, i5)) => match spec_arg_comma(tokens, i5) {
                            Err(e) => Err(e),
                            Ok((_, i6)) => match spec_arg_number(tokens, i6) {
                                Err(e) => Err(e),
                                Ok((y2, i7)) => spec_close_args(
                                    tokens,
                                    i7,
                                    EasingFunction::CubicBezier(
                                        CssNumber { bits: x1 },
                                        CssNumber { bits: y1 },
                                        CssNumber { bits: x2 },
                                        CssNumber { bits: y2 },
                                    ),
                                ),
                            },
                        },
                    },
                },
            },
        },
    }
}

fn cubic_bezier_args(tokens: &Vec<Token>, i: usize) -> (res: Result<(EasingFunction, usize), ParseError>)
    requires
        i <= tokens@.len(),
    ensures
        same_parse(res, spec_cubic_bezier_args(tokens@, i as int)),
{
    let (x1, i1) = match arg_number(tokens, i) {
        Ok(r) => r,
        Err(e) => return Err(e),
    };
    let (_, i2) = match arg_comma(tokens, i1) {
        Ok(r) => r,
        Err(e) => return Err(e),
    };
    let (y1, i3) = match arg_number(tokens, i2) {
        Ok(r) => r,
        Err(e) => return Err(e),
    };
    let (_, i4) = match arg_comma(tokens, i3) {
        Ok(r) => r,
        Err(e) => return Err(e),
    };
    let (x2, i5) = match arg_number(tokens, i4) {
        Ok(r) => r,
        Err(e) => return Err(e),
    };
    let (_, i6) = match arg_comma(tokens, i5) {
        Ok(r) => r,
        Err(e) => return Err(e),
    };
    let (y2, i7) = match arg_number(tokens, i6) {
        Ok(r) => r,
        Err(e) => return Err(e),
    };
    close_args(
        tokens,
        i7,
        EasingFunction::CubicBezier(
            CssNumber { bits: x1 },
            CssNumber { bits: y1 },
            CssNumber { bits: x2 },
            CssNumber { bits: y2 },
        ),
    )
}

/// After the step count at `i`: a `,` and a step position, if they are
/// there, else the default position, `end`.
pub open spec fn spec_step_position_at(tokens: Seq<Token>, i: int) -> (StepPosition, int) {
    match (arg_token_at(tokens, i), arg_token_at(tokens, i + 1)) {
        (Some(Token::Comma), Some(Token::Ident(s))) => match step_position_of(s@) {
            Some(p) => (p, i + 2),
            None => (StepPosition::End, i),
        },
        _ => (StepPosition::End, i),
    }
}

/// The arguments of `steps(` at `i`: an integer, then optionally a `,`
/// and a step position, then the end of the arguments.
pub open spec fn spec_steps_args(tokens: Seq<Token>, i: int) -> Result<(EasingFunction, int), ParseError> {
    match arg_token_at(tokens, i) {
        None => Err(ParseError::EndOfInput),
        Some(Token::Number { bits, int_value: Some(n) }) => {
            let (p, j) = spec_step_position_at(tokens, i + 1);
            spec_close_args(tokens, j, EasingFunction::Steps(n, p))
        },
        Some(_) => Err(ParseError::UnexpectedToken),
    }
}

fn step_position_at(tokens: &Vec<Token>, i: usize) -> (r: (StepPosition, usize))
    requires
        i <= tokens@.len(),
    ensures
        r.0 == spec_step_position_at(tokens@, i as int).0,
        r.1 == spec_step_position_at(tokens@, i as int).1,
        r.1 <= tokens@.len(),
{
    if i >= tokens.len() || i + 1 >= tokens.len() {
        return (StepPosition::End, i);
    }
    match (&tokens[i], &tokens[i + 1]) {
        (Token::Comma, Token::Ident(s)) => match step_position_from(s.as_str()) {
            Some(p) => (p, i + 2),
            None => (StepPosition::End, i),
        },
        _ => (StepPosition::End, i),
    }
}

fn steps_args(tokens: &Vec<Token>, i: usize) -> (res: Result<(EasingFunction, usize), ParseError>)
    requires
        i <= tokens@.len(),
    ensures
        same_parse(res, spec_steps_args(tokens@, i as int)),
{
    if i >= tokens.len() {
        return Err(ParseError::EndOfInput);
    }
    match &tokens[i] {
        Token::CloseParenthesis => Err(ParseError::EndOfInput),
        Token::Number { bits, int_value: Some(n) } => {
            let n = *n;
            let (p, j) = step_position_at(tokens, i + 1);
            close_args(tokens, j, EasingFunction::Steps(n, p))
        },
        _ => Err(ParseError::UnexpectedToken),
    }
}

impl EasingFunction {
    /// The parse of an easing function at token `pos`: one of its keywords,
    /// or a `cubic-bezier()` or `steps()` function (names up to ASCII case).
    pub open spec fn spec_parse(tokens: Seq<Token>, pos: int) -> Result<(EasingFunction, int), ParseError> {
        match token_at(tokens, pos) {
            None => Err(ParseError::EndOfInput),
            Some(Token::Ident(s)) => match easing_keyword(s@) {
                Some(k) => Ok((k, pos + 1)),
                None => Err(ParseError::UnexpectedToken),
            },
            Some(Token::Function(name)) => if eq_ignore_ascii_case(name@, "cubic-bezier"@) {
                spec_cubic_bezier_args(tokens, pos + 1)
            } else if eq_ignore_ascii_case(name@, "steps"@) {
                spec_steps_args(tokens, pos + 1)
            } else {
                Err(ParseError::UnexpectedToken)
            },
            Some(_) => Err(ParseError::UnexpectedToken),
        }
    }

    /// Parses an easing function.
    pub fn parse(input: &mut Parser) -> (res: Result<EasingFunction, ParseError>)
        ensures
            parsed_as(*old(input), *final(input), res, Self::spec_parse(old(input).tokens@, old(input).pos as int)),
    {
        let r = Self::parse_at(&input.tokens, input.pos);
        input.commit(r)
    }

    fn parse_at(tokens: &Vec<Token>, pos: usize) -> (res: Result<(EasingFunction, usize), ParseError>)
        ensures
            same_parse(res, Self::spec_parse(tokens@, pos as int)),
    {
        if pos >= tokens.len() {
            return Err(ParseError::EndOfInput);
        }
        match &tokens[pos] {
            Token::Ident(s) => match easing_from_keyword(s.as_str()) {
                Some(k) => Ok((k, pos + 1)),
                None => Err(ParseError::UnexpectedToken),
            },
            Token::Function(name) => {
                if str_eq_ignore_ascii_case(name.as_str(), "cubic-bezier") {
                    cubic_bezier_args(tokens, pos + 1)
                } else if str_eq_ignore_ascii_case(name.as_str(), "steps") {
                    steps_args(tokens, pos + 1)
                } else {
                    Err(ParseError::UnexpectedToken)
                }
            },
            _ => Err(ParseError::UnexpectedToken),
        }
    }

    /// `s` is, exactly, one of the easing keywords.
    pub open spec fn spec_is_ident(s: Seq<char>) -> bool {
        ||| s == "linear"@
        ||| s == "ease"@
        ||| s == "ease-in"@
        ||| s == "ease-out"@
        ||| s == "ease-in-out"@
        ||| s == "step-start"@
        ||| s == "step-end"@
    }

    /// Whether `s` is, exactly, one of the easing keywords.
    pub fn is_ident(s: &str) -> (r: bool)
        ensures
            r == Self::spec_is_ident(s@),
    {
        str_eq(s, "linear") || str_eq(s, "ease") || str_eq(s, "ease-in") || str_eq(s, "ease-out")
            || str_eq(s, "ease-in-out") || str_eq(s, "step-start") || str_eq(s, "step-end")
    }

    /// The cubic Bézier curve has the control points `(x1, y1, x2, y2)`.
    pub open spec fn bezier_is(x1: u32, y1: u32, x2: u32, y2: u32, a: u32, b: u32, c: u32, d: u32) -> bool {
        num_eq(x1, a) && num_eq(y1, b) && num_eq(x2, c) && num_eq(y2, d)
    }

    /// The serialization of a cubic Bézier curve: the keyword whose curve it
    /// is, else the `cubic-bezier()` function.
    pub open spec fn cubic_bezier_css(x1: u32, y1: u32, x2: u32, y2: u32, minify: bool) -> Seq<Chunk> {
        if Self::bezier_is(x1, y1, x2, y2, QUARTER_BITS, TENTH_BITS, QUARTER_BITS, ONE_BITS) {
            text("ease"@)
        } else if Self::bezier_is(x1, y1, x2, y2, POINT_42_BITS, 0, ONE_BITS, ONE_BITS) {
            text("ease-in"@)
        } else if Self::bezier_is(x1, y1, x2, y2, 0, 0, POINT_58_BITS, ONE_BITS) {
            text("ease-out"@)
        } else if Self::bezier_is(x1, y1, x2, y2, POINT_42_BITS, 0, POINT_58_BITS, ONE_BITS) {
            text("ease-in-out"@)
        } else {
            text("cubic-bezier("@) + number(x1, NumberScale::Unit) + text(Printer::comma_text(minify))
                + number(y1, NumberScale::Unit) + text(Printer::comma_text(minify))
                + number(x2, NumberScale::Unit) + text(Printer::comma_text(minify))
                + number(y2, NumberScale::Unit) + text(")"@)
        }
    }

    /// The serialization of `steps(n, p)`: `step-start` and `step-end` for
    /// one step, else the function, without the default position `end`.
    pub open spec fn steps_css(n: i32, p: StepPosition, minify: bool) -> Seq<Chunk> {
        if n == 1 && p == StepPosition::Start {
            text("step-start"@)
        } else if n == 1 && p == StepPosition::End {
            text("step-end"@)
        } else if p == StepPosition::End {
            text("steps("@) + text(decimal_text(n as int)) + text(")"@)
        } else {
            text("steps("@) + text(decimal_text(n as int)) + text(Printer::comma_text(minify))
                + text(p.keyword()) + text(")"@)
        }
    }

    /// The serialization of the easing function.
    pub open spec fn css(self, minify: bool) -> Seq<Chunk> {
        match self {
            EasingFunction::Linear => text("linear"@),
            EasingFunction::Ease => text("ease"@),
            EasingFunction::EaseIn => text("ease-in"@),
            EasingFunction::EaseOut => text("ease-out"@),
            EasingFunction::EaseInOut => text("ease-in-out"@),
            EasingFunction::CubicBezier(x1, y1, x2, y2) => Self::cubic_bezier_css(x1.bits, y1.bits, x2.bits, y2.bits, minify),
            EasingFunction::Steps(n, p) => Self::steps_css(n, p, minify),
        }
    }

    fn write_cubic_bezier(x1: &CssNumber, y1: &CssNumber, x2: &CssNumber, y2: &CssNumber, dest: &mut Printer)
        ensures
            final(dest).minify == old(dest).minify,
            final(dest).references() == old(dest).references(),
            final(dest).output() == old(dest).output() + Self::cubic_bezier_css(x1.bits, y1.bits, x2.bits, y2.bits, old(dest).minify),
    {
        if x1.equals_bits(QUARTER_BITS) && y1.equals_bits(TENTH_BITS) && x2.equals_bits(QUARTER_BITS)
            && y2.equals_bits(ONE_BITS) {
            dest.write_str("ease");
        } else if x1.equals_bits(POINT_42_BITS) && y1.equals_bits(0) && x2.equals_bits(ONE_BITS)
            && y2.equals_bits(ONE_BITS) {
            dest.write_str("ease-in");
        } else if x1.equals_bits(0) && y1.equals_bits(0) && x2.equals_bits(POINT_58_BITS)
            && y2.equals_bits(ONE_BITS) {
            dest.write_str("ease-out");
        } else if x1.equals_bits(POINT_42_BITS) && y1.equals_bits(0) && x2.equals_bits(POINT_58_BITS)
            && y2.equals_bits(ONE_BITS) {
            dest.write_str("ease-in-out");
        } else {
            dest.write_str("cubic-bezier(");
            dest.write_number(x1.bits, NumberScale::Unit);
            dest.comma();
            dest.write_number(y1.bits, NumberScale::Unit);
            dest.comma();
            dest.write_number(x2.bits, NumberScale::Unit);
            dest.comma();
            dest.write_number(y2.bits, NumberScale::Unit);
            dest.write_str(")");
            assert(final(dest).output() =~= old(dest).output() + Self::cubic_bezier_css(x1.bits, y1.bits, x2.bits, y2.bits, old(dest).minify));
        }
    }

    fn write_steps(n: i32, p: StepPosition, dest: &mut Printer)
        ensures
            final(dest).minify == old(dest).minify,
            final(dest).references() == old(dest).references(),
            final(dest).output() == old(dest).output() + Self::steps_css(n, p, old(dest).minify),
    {
        if n == 1 && p == StepPosition::Start {
            dest.write_str("step-start");
        } else if n == 1 && p == StepPosition::End {
            dest.write_str("step-end");
        } else {
            dest.write_str("steps(");
            dest.write_integer(n);
            if p != StepPosition::End {
                dest.comma();
                p.to_css(dest);
            }
            dest.write_str(")");
            assert(final(dest).output() =~= old(dest).output() + Self::steps_css(n, p, old(dest).minify));
        }
    }

    /// Writes the easing function.
    pub fn to_css(&self, dest: &mut Printer)
        ensures
            final(dest).minify == old(dest).minify,
            final(dest).references() == old(dest).references(),
            final(dest).output() == old(dest).output() + self.css(old(dest).minify),
    {
        match self {
            EasingFunction::Linear => dest.write_str("linear"),
            EasingFunction::Ease => dest.write_str("ease"),
            EasingFunction::EaseIn => dest.write_str("ease-in"),
            EasingFunction::EaseOut => dest.write_str("ease-out"),
            EasingFunction::EaseInOut => dest.write_str("ease-in-out"),
            EasingFunction::CubicBezier(x1, y1, x2, y2) => Self::write_cubic_bezier(x1, y1, x2, y2, dest),
            EasingFunction::Steps(n, p) => Self::write_steps(*n, *p, dest),
        }
    }
}

impl CssValue for EasingFunction {
    open spec fn items(list: CssList<Self>) -> Seq<Self> {
        easing_functions_in(list)
    }

    open spec fn css_eq(&self, other: &Self) -> bool {
        match (*self, *other) {
            (EasingFunction::Linear, EasingFunction::Linear) => true,
            (EasingFunction::Ease, EasingFunction::Ease) => true,
            (EasingFunction::EaseIn, EasingFunction::EaseIn) => true,
            (EasingFunction::EaseOut, EasingFunction::EaseOut) => true,
            (EasingFunction::EaseInOut, EasingFunction::EaseInOut) => true,
            (EasingFunction::CubicBezier(a1, b1, c1, d1), EasingFunction::CubicBezier(a2, b2, c2, d2)) =>
                num_eq(a1.bits, a2.bits) && num_eq(b1.bits, b2.bits) && num_eq(c1.bits, c2.bits) && num_eq(d1.bits, d2.bits),
            (EasingFunction::Steps(n1, p1), EasingFunction::Steps(n2, p2)) => n1 == n2 && p1 == p2,
            _ => false,
        }
    }

    fn equals(&self, other: &Self) -> (r: bool) {
        match (self, other) {
            (EasingFunction::Linear, EasingFunction::Linear) => true,
            (EasingFunction::Ease, EasingFunction::Ease) => true,
            (EasingFunction::EaseIn, EasingFunction::EaseIn) => true,
            (EasingFunction::EaseOut, EasingFunction::EaseOut) => true,
            (EasingFunction::EaseInOut, EasingFunction::EaseInOut) => true,
            (EasingFunction::CubicBezier(a1, b1, c1, d1), EasingFunction::CubicBezier(a2, b2, c2, d2)) =>
                a1.num_eq(a2) && b1.num_eq(b2) && c1.num_eq(c2) && d1.num_eq(d2),
            (EasingFunction::Steps(n1, p1), EasingFunction::Steps(n2, p2)) => *n1 == *n2 && *p1 == *p2,
            _ => false,
        }
    }

    fn duplicate(&self) -> (r: Self) {
        match self {
            EasingFunction::Linear => EasingFunction::Linear,
            EasingFunction::Ease => EasingFunction::Ease,
            EasingFunction::EaseIn => EasingFunction::EaseIn,
            EasingFunction::EaseOut => EasingFunction::EaseOut,
            EasingFunction::EaseInOut => EasingFunction::EaseInOut,
            EasingFunction::CubicBezier(a, b, c, d) => EasingFunction::CubicBezier(*a, *b, *c, *d),
            EasingFunction::Steps(n, p) => EasingFunction::Steps(*n, *p),
        }
    }

    fn as_items(list: &CssList<Self>) -> (r: &[Self]) {
        easing_function_slice(list)
    }

    fn from_items(v: Vec<Self>) -> (r: CssList<Self>) {
        easing_function_list(v)
    }
}

/// Law: each easing keyword, in any ASCII case, is read as the easing
/// function it names, and that function is written as the keyword.
pub proof fn law_easing_keywords_name_their_functions(s: String, minify: bool)
    ensures
        eq_ignore_ascii_case(s@, "linear"@) ==> EasingFunction::spec_parse(seq![Token::Ident(s)], 0)
            == Ok::<(EasingFunction, int), ParseError>((EasingFunction::Linear, 1)),
        eq_ignore_ascii_case(s@, "ease"@) ==> EasingFunction::spec_parse(seq![Token::Ident(s)], 0)
            == Ok::<(EasingFunction, int), ParseError>((EasingFunction::Ease, 1)),
        eq_ignore_ascii_case(s@, "ease-in"@) ==> EasingFunction::spec_parse(seq![Token::Ident(s)], 0)
            == Ok::<(EasingFunction, int), ParseError>((EasingFunction::EaseIn, 1)),
        eq_ignore_ascii_case(s@, "ease-out"@) ==> EasingFunction::spec_parse(seq![Token::Ident(s)], 0)
            == Ok::<(EasingFunction, int), ParseError>((EasingFunction::EaseOut, 1)),
        eq_ignore_ascii_case(s@, "ease-in-out"@) ==> EasingFunction::spec_parse(seq![Token::Ident(s)], 0)
            == Ok::<(EasingFunction, int), ParseError>((EasingFunction::EaseInOut, 1)),
        eq_ignore_ascii_case(s@, "step-start"@) ==> EasingFunction::spec_parse(seq![Token::Ident(s)], 0)
            == Ok::<(EasingFunction, int), ParseError>((EasingFunction::Steps(1, StepPosition::Start), 1)),
        eq_ignore_ascii_case(s@, "step-end"@) ==> EasingFunction::spec_parse(seq![Token::Ident(s)], 0)
            == Ok::<(EasingFunction, int), ParseError>((EasingFunction::Steps(1, StepPosition::End), 1)),
        (EasingFunction::Linear).css(minify) == text("linear"@),
        (EasingFunction::Ease).css(minify) == text("ease"@),
        (EasingFunction::EaseIn).css(minify) == text("ease-in"@),
        (EasingFunction::EaseOut).css(minify) == text("ease-out"@),
        (EasingFunction::EaseInOut).css(minify) == text("ease-in-out"@),
        (EasingFunction::Steps(1, StepPosition::Start)).css(minify) == text("step-start"@),
        (EasingFunction::Steps(1, StepPosition::End)).css(minify) == text("step-end"@),
{
    reveal_strlit("linear");
    reveal_strlit("ease");
    reveal_strlit("ease-in");
    reveal_strlit("ease-out");
    reveal_strlit("ease-in-out");
    reveal_strlit("step-start");
    reveal_strlit("step-end");
    if eq_ignore_ascii_case(s@, "step-end"@) {
        lemma_case_distinct(s@, "step-end"@, "ease-out"@, 0);
    }
}

} // verus!

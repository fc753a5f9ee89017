//! Comma-separated lists of values, as the animation properties take them.

use crate::animation::{Animation, AnimationIterationCount, AnimationName};
use crate::easing::EasingFunction;
use crate::keywords::{AnimationDirection, AnimationFillMode, AnimationPlayState};
use crate::time::Time;
use crate::token::{parsed_as, token_at, tokenize, ParseError, Parser, Token};
use crate::value::{CssList, CssValue};
use vstd::prelude::*;

verus! {

/// A value that can be read from tokens.
pub trait ParseValue: Sized {
    /// The parse at token `pos`: the value and the position after it.
    spec fn spec_parse_value(tokens: Seq<Token>, pos: int) -> Result<(Self, int), ParseError>;

    /// Parses a value; on failure the position is left where it was.
    fn parse_value(input: &mut Parser) -> (res: Result<Self, ParseError>)
        ensures
            parsed_as(*old(input), *final(input), res, Self::spec_parse_value(old(input).tokens@, old(input).pos as int)),
    ;
}

/// The parse of a list at token `pos`, with the values `acc` read before:
/// a value, then either the end of the input, or a `,` and the rest of
/// the list.  Any other token after a value is an error.
pub open spec fn spec_parse_list_from<T: ParseValue>(tokens: Seq<Token>, pos: int, acc: Seq<T>) -> Result<Seq<T>, ParseError>
    decreases tokens.len() - pos,
{
    match T::spec_parse_value(tokens, pos) {
        Err(e) => Err(e),
        Ok((v, p)) => match token_at(tokens, p) {
            None => Ok(acc.push(v)),
            Some(Token::Comma) => if pos < p + 1 <= tokens.len() {
                spec_parse_list_from(tokens, p + 1, acc.push(v))
            } else {
                Err(ParseError::UnexpectedToken)
            },
            Some(_) => Err(ParseError::UnexpectedToken),
        },
    }
}

/// The parse of a whole string as a comma-separated list of values.
pub open spec fn spec_parse_list<T: ParseValue>(s: Seq<char>) -> Result<Seq<T>, ParseError> {
    spec_parse_list_from(tokenize(s, s.len()), 0, Seq::empty())
}

/// Parses a whole string as a comma-separated list of values.
pub fn parse_list<T: ParseValue + CssValue>(s: &str) -> (res: Result<CssList<T>, ParseError>)
    ensures
        match (res, spec_parse_list::<T>(s@)) {
            (Ok(v), Ok(w)) => T::items(v) == w,
            (Err(e), Err(f)) => e == f,
            _ => false,
        },
{
    let mut input = Parser::new(s);
    let mut out: Vec<T> = Vec::new();
    let ghost tokens = input.tokens@;
    loop
        invariant
            input.tokens@ == tokens,
            tokens == tokenize(s@, s@.len()),
            input.pos <= tokens.len(),
            spec_parse_list_from(tokens, input.pos as int, out@) == spec_parse_list_from(tokens, 0, Seq::<T>::empty()),
        decreases tokens.len() - input.pos,
    {
        let start = input.pos;
        let ghost before = out@;
        let ghost whole = spec_parse_list_from(tokens, 0, Seq::<T>::empty());
        assert(spec_parse_list_from(tokens, start as int, before) == whole);
        let v = match T::parse_value(&mut input) {
            Ok(v) => v,
            Err(e) => {
                assert(T::spec_parse_value(tokens, start as int) == Err::<(T, int), ParseError>(e));
                assert(whole == Err::<Seq<T>, ParseError>(e));
                return Err(e);
            },
        };
        assert(T::spec_parse_value(tokens, start as int) == Ok::<(T, int), ParseError>((v, input.pos as int)));
        out.push(v);
        if input.pos >= input.tokens.len() {
            assert(whole == Ok::<Seq<T>, ParseError>(before.push(v)));
            return Ok(T::from_items(out));
        }
        let is_comma = match &input.tokens[input.pos] {
            Token::Comma => true,
            _ => false,
        };
        if !is_comma || input.pos < start {
            return Err(ParseError::UnexpectedToken);
        }
        input.pos = input.pos + 1;
    }
}

impl ParseValue for AnimationName {
    open spec fn spec_parse_value(tokens: Seq<Token>, pos: int) -> Result<(Self, int), ParseError> {
        AnimationName::spec_parse(tokens, pos)
    }

    fn parse_value(input: &mut Parser) -> (res: Result<Self, ParseError>) {
        AnimationName::parse(input)
    }
}

impl ParseValue for Time {
    open spec fn spec_parse_value(tokens: Seq<Token>, pos: int) -> Result<(Self, int), ParseError> {
        Time::spec_parse(tokens, pos)
    }

    fn parse_value(input: &mut Parser) -> (res: Result<Self, ParseError>) {
        Time::parse(input)
    }
}

impl ParseValue for EasingFunction {
    open spec fn spec_parse_value(tokens: Seq<Token>, pos: int) -> Result<(Self, int), ParseError> {
        EasingFunction::spec_parse(tokens, pos)
    }

    fn parse_value(input: &mut Parser) -> (res: Result<Self, ParseError>) {
        EasingFunction::parse(input)
    }
}

impl ParseValue for AnimationIterationCount {
    open spec fn spec_parse_value(tokens: Seq<Token>, pos: int) -> Result<(Self, int), ParseError> {
        AnimationIterationCount::spec_parse(tokens, pos)
    }

    fn parse_value(input: &mut Parser) -> (res: Result<Self, ParseError>) {
        AnimationIterationCount::parse(input)
    }
}

impl ParseValue for AnimationDirection {
    open spec fn spec_parse_value(tokens: Seq<Token>, pos: int) -> Result<(Self, int), ParseError> {
        AnimationDirection::spec_parse(tokens, pos)
    }

    fn parse_value(input: &mut Parser) -> (res: Result<Self, ParseError>) {
        AnimationDirection::parse(input)
    }
}

impl ParseValue for AnimationPlayState {
    open spec fn spec_parse_value(tokens: Seq<Token>, pos: int) -> Result<(Self, int), ParseError> {
        AnimationPlayState::spec_parse(tokens, pos)
    }

    fn parse_value(input: &mut Parser) -> (res: Result<Self, ParseError>) {
        AnimationPlayState::parse(input)
    }
}

impl ParseValue for AnimationFillMode {
    open spec fn spec_parse_value(tokens: Seq<Token>, pos: int) -> Result<(Self, int), ParseError> {
        AnimationFillMode::spec_parse(tokens, pos)
    }

    fn parse_value(input: &mut Parser) -> (res: Result<Self, ParseError>) {
        AnimationFillMode::parse(input)
    }
}

impl ParseValue for Animation {
    open spec fn spec_parse_value(tokens: Seq<Token>, pos: int) -> Result<(Self, int), ParseError> {
        Animation::spec_parse(tokens, pos)
    }

    fn parse_value(input: &mut Parser) -> (res: Result<Self, ParseError>) {
        Animation::parse(input)
    }
}

} // verus!

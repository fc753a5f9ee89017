//! CSS `<time>` values.

use crate::number::{
    at_least_hundred, between_zero_and_tenth, is_zero, num_eq, CssNumber, HUNDRED_BITS,
    INFINITY_BITS, TENTH_BITS,
};
use crate::printer::{number, text, Chunk, NumberScale, Printer};
use crate::text::{eq_ignore_ascii_case, str_eq_ignore_ascii_case};
use crate::token::{parsed_as, token_at, ParseError, Parser, Token};
use crate::value::{CssList, CssValue, time_list, time_slice, times_in};
use vstd::prelude::*;

verus! {

/// A `<time>`: a number of seconds or of milliseconds.
#[derive(Debug)]
pub enum Time {
    Seconds(CssNumber),
    Milliseconds(CssNumber),
}

impl Time {
    /// The number, whatever the unit.
    pub open spec fn value_bits(self) -> u32 {
        match self {
            Time::Seconds(n) => n.bits,
            Time::Milliseconds(n) => n.bits,
        }
    }

    /// The time is zero (`time == 0.0` in either unit).
    pub open spec fn spec_is_zero(self) -> bool {
        is_zero(self.value_bits())
    }

    /// Whether the time is zero.
    pub fn is_zero(&self) -> (r: bool)
        ensures
            r == self.spec_is_zero(),
    {
        match self {
            Time::Seconds(n) => n.is_zero(),
            Time::Milliseconds(n) => n.is_zero(),
        }
    }

    /// Zero seconds.
    pub fn zero() -> (t: Time)
        ensures
            t == Time::Seconds(CssNumber { bits: 0 }),
    {
        Time::Seconds(CssNumber { bits: 0 })
    }

    /// The parse of a time at token `pos`: a dimension whose unit is `s`
    /// or `ms`, in any ASCII case.
    pub open spec fn spec_parse(tokens: Seq<Token>, pos: int) -> Result<(Time, int), ParseError> {
        match token_at(tokens, pos) {
            None => Err(ParseError::EndOfInput),
            Some(Token::Dimension { bits, unit }) => {
                if eq_ignore_ascii_case(unit@, "s"@) {
                    Ok((Time::Seconds(CssNumber { bits }), pos + 1))
                } else if eq_ignore_ascii_case(unit@, "ms"@) {
                    Ok((Time::Milliseconds(CssNumber { bits }), pos + 1))
                } else {
                    Err(ParseError::UnexpectedToken)
                }
            },
            Some(_) => Err(ParseError::UnexpectedToken),
        }
    }

    /// Parses a time.
    pub fn parse(input: &mut Parser) -> (res: Result<Time, ParseError>)
        ensures
            parsed_as(*old(input), *final(input), res, Self::spec_parse(old(input).tokens@, old(input).pos as int)),
    {
        if input.pos >= input.tokens.len() {
            return Err(ParseError::EndOfInput);
        }
        let res = match &input.tokens[input.pos] {
            Token::Dimension { bits, unit } => {
                if str_eq_ignore_ascii_case(unit.as_str(), "s") {
                    Ok(Time::Seconds(CssNumber { bits: *bits }))
                } else if str_eq_ignore_ascii_case(unit.as_str(), "ms") {
                    Ok(Time::Milliseconds(CssNumber { bits: *bits }))
                } else {
                    Err(ParseError::UnexpectedToken)
                }
            },
            _ => Err(ParseError::UnexpectedToken),
        };
        if res.is_ok() {
            input.pos = input.pos + 1;
        }
        res
    }

    /// The serialization: a time between 0 and 0.1 seconds is written in
    /// milliseconds, and one of 0, or of 100 milliseconds or more, in seconds.
    pub open spec fn css(self) -> Seq<Chunk> {
        match self {
            Time::Seconds(s) => if between_zero_and_tenth(s.bits) {
                number(s.bits, NumberScale::Thousandfold) + text("ms"@)
            } else {
                number(s.bits, NumberScale::Unit) + text("s"@)
            },
            Time::Milliseconds(ms) => if is_zero(ms.bits) || at_least_hundred(ms.bits) {
                number(ms.bits, NumberScale::Thousandth) + text("s"@)
            } else {
                number(ms.bits, NumberScale::Unit) + text("ms"@)
            },
        }
    }

    /// Writes the time.
    pub fn to_css(&self, dest: &mut Printer)
        ensures
            final(dest).minify == old(dest).minify,
            final(dest).references() == old(dest).references(),
            final(dest).output() == old(dest).output() + self.css(),
    {
        match self {
            Time::Seconds(s) => {
                if 0 < s.bits && s.bits < TENTH_BITS {
                    dest.write_number(s.bits, NumberScale::Thousandfold);
                    dest.write_str("ms");
                } else {
                    dest.write_number(s.bits, NumberScale::Unit);
                    dest.write_str("s");
                }
            },
            Time::Milliseconds(ms) => {
                if ms.is_zero() || (HUNDRED_BITS <= ms.bits && ms.bits <= INFINITY_BITS) {
                    dest.write_number(ms.bits, NumberScale::Thousandth);
                    dest.write_str("s");
                } else {
                    dest.write_number(ms.bits, NumberScale::Unit);
                    dest.write_str("ms");
                }
            },
        }
        assert(final(dest).output() =~= old(dest).output() + self.css());
    }
}

impl CssValue for Time {
    open spec fn items(list: CssList<Self>) -> Seq<Self> {
        times_in(list)
    }

    open spec fn css_eq(&self, other: &Self) -> bool {
        match (*self, *other) {
            (Time::Seconds(a), Time::Seconds(b)) => num_eq(a.bits, b.bits),
            (Time::Milliseconds(a), Time::Milliseconds(b)) => num_eq(a.bits, b.bits),
            _ => false,
        }
    }

    fn equals(&self, other: &Self) -> (r: bool) {
        match (self, other) {
            (Time::Seconds(a), Time::Seconds(b)) => a.num_eq(b),
            (Time::Milliseconds(a), Time::Milliseconds(b)) => a.num_eq(b),
            _ => false,
        }
    }

    fn duplicate(&self) -> (r: Self) {
        match self {
            Time::Seconds(n) => Time::Seconds(*n),
            Time::Milliseconds(n) => Time::Milliseconds(*n),
        }
    }

    fn as_items(list: &CssList<Self>) -> (r: &[Self]) {
        time_slice(list)
    }

    fn from_items(v: Vec<Self>) -> (r: CssList<Self>) {
        time_list(v)
    }
}

/// Law: a dimension whose unit is `s`, in any ASCII case, is read as that
/// many seconds, one whose unit is `ms` as that many milliseconds, and any
/// other unit is refused.
pub proof fn law_time_units(bits: u32, unit: String)
    ensures
        eq_ignore_ascii_case(unit@, "s"@) ==> Time::spec_parse(seq![Token::Dimension { bits, unit }], 0)
            == Ok::<(Time, int), ParseError>((Time::Seconds(CssNumber { bits }), 1)),
        eq_ignore_ascii_case(unit@, "ms"@) ==> Time::spec_parse(seq![Token::Dimension { bits, unit }], 0)
            == Ok::<(Time, int), ParseError>((Time::Milliseconds(CssNumber { bits }), 1)),
        !eq_ignore_ascii_case(unit@, "s"@) && !eq_ignore_ascii_case(unit@, "ms"@) ==> Time::spec_parse(
            seq![Token::Dimension { bits, unit }],
            0,
        ) == Err::<(Time, int), ParseError>(ParseError::UnexpectedToken),
{
    reveal_strlit("s");
    reveal_strlit("ms");
}

/// Law: a time is written with the unit `s` or `ms` after its number.
pub proof fn law_time_written_with_its_unit(t: Time)
    ensures
        t.css() == number(t.value_bits(), NumberScale::Unit) + text("s"@)
            || t.css() == number(t.value_bits(), NumberScale::Thousandfold) + text("ms"@)
            || t.css() == number(t.value_bits(), NumberScale::Thousandth) + text("s"@)
            || t.css() == number(t.value_bits(), NumberScale::Unit) + text("ms"@),
        (t is Seconds && !crate::number::between_zero_and_tenth(t.value_bits())) ==> t.css() == number(
            t.value_bits(),
            NumberScale::Unit,
        ) + text("s"@),
        (t is Milliseconds && !is_zero(t.value_bits()) && !at_least_hundred(t.value_bits())) ==> t.css()
            == number(t.value_bits(), NumberScale::Unit) + text("ms"@),
{
}

} // verus!

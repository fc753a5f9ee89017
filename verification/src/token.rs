//! The tokens of a CSS value, as the logic of this crate reads them, and
//! a parser state over them.  Tokenization itself is done by `cssparser`.

use cssparser::Parser as RawParser;
use cssparser::ParserInput;
use cssparser::Token as RawToken;
use vstd::prelude::*;

verus! {

/// One token of a component value.  A function's arguments follow its
/// `Function` token as ordinary tokens, closed by `CloseParenthesis`.
#[derive(Debug)]
pub enum Token {
    /// An identifier, such as `ease` or `slide-in`.
    Ident(String),
    /// A quoted string, without its quotes and escapes.
    QuotedString(String),
    /// A function name followed by `(`, such as `cubic-bezier(`.
    Function(String),
    /// A number; `int_value` is set when it was written as an integer.
    Number { bits: u32, int_value: Option<i32> },
    /// A number with a unit, such as `2s`.
    Dimension { bits: u32, unit: String },
    /// `,`
    Comma,
    /// `)`
    CloseParenthesis,
    /// Any other token.
    Other,
}

/// What `cssparser` yields as the first token of `input` (whitespace and
/// comments skipped), with the text that follows it; `None` at the end.
pub uninterp spec fn css_next_token(input: Seq<char>) -> Option<(Token, Seq<char>)>;

/// Calls `cssparser::Parser::next` on a parser over `input` and converts
/// the token it returns into a `Token`; the remaining text is the input
/// after the parser's position.  The contract claims only that the result
/// is `css_next_token` of the input: what that is, `cssparser` decides.
#[verifier::external_body]
fn next_css_token(input: &str) -> (res: Option<(Token, &str)>)
    ensures
        match res {
            Some((t, rest)) => css_next_token(input@) == Some((t, rest@)),
            None => css_next_token(input@) is None,
        },
{
    let mut raw = ParserInput::new(input);
    let mut parser = RawParser::new(&mut raw);
    let t = match parser.next().ok()? {
        RawToken::Ident(s) => Token::Ident(s.to_string()),
        RawToken::QuotedString(s) => Token::QuotedString(s.to_string()),
        RawToken::Function(s) => Token::Function(s.to_string()),
        RawToken::Number { value, int_value, .. } => Token::Number { bits: value.to_bits(), int_value: *int_value },
        RawToken::Dimension { value, unit, .. } => Token::Dimension { bits: value.to_bits(), unit: unit.to_string() },
        RawToken::Comma => Token::Comma,
        RawToken::CloseParenthesis => Token::CloseParenthesis,
        _ => Token::Other,
    };
    Some((t, &input[parser.position().byte_index()..]))
}

/// The tokens of `input`, reading at most `fuel` of them.
pub open spec fn tokenize(input: Seq<char>, fuel: nat) -> Seq<Token>
    decreases fuel,
{
    if fuel == 0 {
        seq![]
    } else {
        match css_next_token(input) {
            None => seq![],
            Some((t, rest)) => seq![t] + tokenize(rest, (fuel - 1) as nat),
        }
    }
}

/// The token at `i`, if any.
pub open spec fn token_at(tokens: Seq<Token>, i: int) -> Option<Token> {
    if 0 <= i < tokens.len() {
        Some(tokens[i])
    } else {
        None
    }
}

/// A position in a list of tokens.
pub struct Parser {
    pub tokens: Vec<Token>,
    pub pos: usize,
}

impl Parser {
    /// A parser at the start of the tokens of `input`.  A token is at
    /// least one character long, so `input@.len()` tokens are all of them.
    pub fn new(input: &str) -> (p: Parser)
        ensures
            p.tokens@ == tokenize(input@, input@.len()),
            p.pos == 0,
    {
        let n = input.unicode_len();
        let mut tokens: Vec<Token> = Vec::new();
        let mut rest: &str = input;
        let mut i: usize = 0;
        while i < n
            invariant
                i <= n,
                n == input@.len(),
                tokens@ + tokenize(rest@, (n - i) as nat) == tokenize(input@, n as nat),
            decreases n - i,
        {
            match next_css_token(rest) {
                None => {
                    assert(tokenize(rest@, (n - i) as nat) == Seq::<Token>::empty());
                    assert(tokens@ + Seq::<Token>::empty() == tokens@);
                    return Parser { tokens, pos: 0 };
                },
                Some((t, r)) => {
                    proof {
                        let old_tokens = tokens@;
                        assert(tokenize(rest@, (n - i) as nat) == seq![t] + tokenize(
                            r@,
                            (n - i - 1) as nat,
                        ));
                        assert(old_tokens + (seq![t] + tokenize(r@, (n - i - 1) as nat)) =~= (
                        old_tokens.push(t)) + tokenize(r@, (n - i - 1) as nat));
                    }
                    tokens.push(t);
                    rest = r;
                },
            }
            i = i + 1;
        }
        assert(tokenize(rest@, 0) == Seq::<Token>::empty());
        assert(tokens@ + Seq::<Token>::empty() == tokens@);
        Parser { tokens, pos: 0 }
    }

    /// Whether every token has been read.
    pub fn is_exhausted(&self) -> (r: bool)
        ensures
            r == (self.pos >= self.tokens@.len()),
    {
        self.pos >= self.tokens.len()
    }
}

} // verus!

verus! {

/// Why a value could not be parsed.
#[derive(Clone, Copy, Debug, PartialEq, Eq, Structural)]
pub enum ParseError {
    /// The input (or the function block being read) ended.
    EndOfInput,
    /// A token that the grammar does not allow here.
    UnexpectedToken,
}

/// A parse that read the value `v` and stopped before token `p`, or failed
/// with `e`; on failure the position is left where it was.
pub open spec fn parsed_as<T>(
    before: Parser,
    after: Parser,
    res: Result<T, ParseError>,
    expected: Result<(T, int), ParseError>,
) -> bool {
    &&& after.tokens@ == before.tokens@
    &&& match expected {
        Ok((v, p)) => res == Ok::<T, ParseError>(v) && after.pos == p,
        Err(e) => res == Err::<T, ParseError>(e) && after.pos == before.pos,
    }
}

/// The token at `i` inside a function's arguments: `None` at the end of
/// the input or at the `)` that closes the arguments.
pub open spec fn arg_token_at(tokens: Seq<Token>, i: int) -> Option<Token> {
    match token_at(tokens, i) {
        Some(Token::CloseParenthesis) => None,
        t => t,
    }
}

/// The position after the end of a function's arguments at `i`: past the
/// closing `)` if there is one.
pub open spec fn after_block_end(tokens: Seq<Token>, i: int) -> int {
    match token_at(tokens, i) {
        Some(Token::CloseParenthesis) => i + 1,
        _ => i,
    }
}

} // verus!

verus! {

/// An executable parse at a position agrees with its specification.
pub open spec fn same_parse<T>(
    res: Result<(T, usize), ParseError>,
    expected: Result<(T, int), ParseError>,
) -> bool {
    match (res, expected) {
        (Ok((v, p)), Ok((w, q))) => v == w && p == q,
        (Err(e), Err(f)) => e == f,
        _ => false,
    }
}

impl Parser {
    /// Moves past a successful parse; leaves the position on a failed one.
    pub(crate) fn commit<T>(&mut self, r: Result<(T, usize), ParseError>) -> (res: Result<T, ParseError>)
        ensures
            final(self).tokens@ == old(self).tokens@,
            match r {
                Ok((v, p)) => res == Ok::<T, ParseError>(v) && final(self).pos == p,
                Err(e) => res == Err::<T, ParseError>(e) && final(self).pos == old(self).pos,
            },
    {
        match r {
            Ok((v, p)) => {
                self.pos = p;
                Ok(v)
            },
            Err(e) => Err(e),
        }
    }
}

/// The token at `i` is a `,` inside a function's arguments.
pub open spec fn spec_arg_comma(tokens: Seq<Token>, i: int) -> Result<((), int), ParseError> {
    match arg_token_at(tokens, i) {
        None => Err(ParseError::EndOfInput),
        Some(Token::Comma) => Ok(((), i + 1)),
        Some(_) => Err(ParseError::UnexpectedToken),
    }
}

/// Reads a `,` inside a function's arguments.
pub(crate) fn arg_comma(tokens: &Vec<Token>, i: usize) -> (res: Result<((), usize), ParseError>)
    ensures
        same_parse(res, spec_arg_comma(tokens@, i as int)),
{
    if i >= tokens.len() {
        return Err(ParseError::EndOfInput);
    }
    match &tokens[i] {
        Token::CloseParenthesis => Err(ParseError::EndOfInput),
        Token::Comma => Ok(((), i + 1)),
        _ => Err(ParseError::UnexpectedToken),
    }
}

/// The token at `i` is a number inside a function's arguments.
pub open spec fn spec_arg_number(tokens: Seq<Token>, i: int) -> Result<(u32, int), ParseError> {
    match arg_token_at(tokens, i) {
        None => Err(ParseError::EndOfInput),
        Some(Token::Number { bits, int_value }) => Ok((bits, i + 1)),
        Some(_) => Err(ParseError::UnexpectedToken),
    }
}

/// Reads a number inside a function's arguments.
pub(crate) fn arg_number(tokens: &Vec<Token>, i: usize) -> (res: Result<(u32, usize), ParseError>)
    ensures
        same_parse(res, spec_arg_number(tokens@, i as int)),
{
    if i >= tokens.len() {
        return Err(ParseError::EndOfInput);
    }
    match &tokens[i] {
        Token::CloseParenthesis => Err(ParseError::EndOfInput),
        Token::Number { bits, int_value } => Ok((*bits, i + 1)),
        _ => Err(ParseError::UnexpectedToken),
    }
}

/// The arguments of a function end at `i`: `v` is their value, and the
/// parse goes on after the closing `)`.
pub open spec fn spec_close_args<T>(tokens: Seq<Token>, i: int, v: T) -> Result<(T, int), ParseError> {
    if arg_token_at(tokens, i) is Some {
        Err(ParseError::UnexpectedToken)
    } else {
        Ok((v, after_block_end(tokens, i)))
    }
}

/// Checks that the arguments of a function end at `i`.
pub(crate) fn close_args<T>(tokens: &Vec<Token>, i: usize, v: T) -> (res: Result<(T, usize), ParseError>)
    requires
        i <= tokens@.len(),
    ensures
        same_parse(res, spec_close_args(tokens@, i as int, v)),
{
    if i >= tokens.len() {
        return Ok((v, i));
    }
    match &tokens[i] {
        Token::CloseParenthesis => Ok((v, i + 1)),
        _ => Err(ParseError::UnexpectedToken),
    }
}

} // verus!

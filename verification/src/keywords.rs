//! The keyword values of `animation-direction`, `animation-play-state`
//! and `animation-fill-mode`.

use crate::printer::{text, Chunk, Printer};
use crate::text::{ascii_lower, eq_ignore_ascii_case, lemma_case_distinct, str_eq_ignore_ascii_case};
use crate::token::{parsed_as, token_at, tokenize, ParseError, Parser, Token};
use crate::value::{CssList, CssValue, direction_list, direction_slice, directions_in, fill_mode_list, fill_mode_slice, fill_modes_in, play_state_list, play_state_slice, play_states_in};
use vstd::prelude::*;

verus! {

/// The direction in which an animation plays (`animation-direction`).
#[derive(Clone, Copy, Debug, PartialEq, Eq, Structural)]
pub enum AnimationDirection {
    Normal,
    Reverse,
    Alternate,
    AlternateReverse,
}

impl AnimationDirection {
    /// The value that `ident` names, up to ASCII case.
    pub open spec fn from_keyword(ident: Seq<char>) -> Option<AnimationDirection> {
        if eq_ignore_ascii_case(ident, "normal"@) {
            Some(AnimationDirection::Normal)
        } else if eq_ignore_ascii_case(ident, "reverse"@) {
            Some(AnimationDirection::Reverse)
        } else if eq_ignore_ascii_case(ident, "alternate"@) {
            Some(AnimationDirection::Alternate)
        } else if eq_ignore_ascii_case(ident, "alternate-reverse"@) {
            Some(AnimationDirection::AlternateReverse)
        } else {
            None
        }
    }

    /// The value that `ident` names, up to ASCII case.
    pub fn keyword_value(ident: &str) -> (r: Option<AnimationDirection>)
        ensures
            r == Self::from_keyword(ident@),
    {
        if str_eq_ignore_ascii_case(ident, "normal") {
            Some(AnimationDirection::Normal)
        } else if str_eq_ignore_ascii_case(ident, "reverse") {
            Some(AnimationDirection::Reverse)
        } else if str_eq_ignore_ascii_case(ident, "alternate") {
            Some(AnimationDirection::Alternate)
        } else if str_eq_ignore_ascii_case(ident, "alternate-reverse") {
            Some(AnimationDirection::AlternateReverse)
        } else {
            None
        }
    }

    /// The keyword of the value.
    pub open spec fn keyword(self) -> Seq<char> {
        match self {
            AnimationDirection::Normal => "normal"@,
            AnimationDirection::Reverse => "reverse"@,
            AnimationDirection::Alternate => "alternate"@,
            AnimationDirection::AlternateReverse => "alternate-reverse"@,
        }
    }

    /// The keyword of the value.
    pub fn as_str(&self) -> (r: &'static str)
        ensures
            r@ == self.keyword(),
    {
        match self {
            AnimationDirection::Normal => "normal",
            AnimationDirection::Reverse => "reverse",
            AnimationDirection::Alternate => "alternate",
            AnimationDirection::AlternateReverse => "alternate-reverse",
        }
    }

    /// The parse at token `pos`: an identifier naming a value.
    pub open spec fn spec_parse(tokens: Seq<Token>, pos: int) -> Result<(AnimationDirection, int), ParseError> {
        match token_at(tokens, pos) {
            None => Err(ParseError::EndOfInput),
            Some(Token::Ident(s)) => match Self::from_keyword(s@) {
                Some(v) => Ok((v, pos + 1)),
                None => Err(ParseError::UnexpectedToken),
            },
            Some(_) => Err(ParseError::UnexpectedToken),
        }
    }

    /// Parses the keyword.
    pub fn parse(input: &mut Parser) -> (res: Result<AnimationDirection, ParseError>)
        ensures
            parsed_as(*old(input), *final(input), res, Self::spec_parse(old(input).tokens@, old(input).pos as int)),
    {
        if input.pos >= input.tokens.len() {
            return Err(ParseError::EndOfInput);
        }
        let r = match &input.tokens[input.pos] {
            Token::Ident(s) => match Self::keyword_value(s.as_str()) {
                Some(v) => Ok((v, input.pos + 1)),
                None => Err(ParseError::UnexpectedToken),
            },
            _ => Err(ParseError::UnexpectedToken),
        };
        input.commit(r)
    }

    /// The parse of a whole string: its tokens must be exactly one keyword.
    #[verifier::opaque]
    pub open spec fn spec_parse_string(s: Seq<char>) -> Result<AnimationDirection, ParseError> {
        let tokens = tokenize(s, s.len());
        match Self::spec_parse(tokens, 0) {
            Ok((v, p)) => if p >= tokens.len() {
                Ok(v)
            } else {
                Err(ParseError::UnexpectedToken)
            },
            Err(e) => Err(e),
        }
    }

    /// Parses a whole string as the keyword.
    pub fn parse_string(s: &str) -> (res: Result<AnimationDirection, ParseError>)
        ensures
            res == Self::spec_parse_string(s@),
    {
        reveal(AnimationDirection::spec_parse_string);
        let mut input = Parser::new(s);
        match Self::parse(&mut input) {
            Ok(v) => if input.is_exhausted() {
                Ok(v)
            } else {
                Err(ParseError::UnexpectedToken)
            },
            Err(e) => Err(e),
        }
    }

    /// The serialization: the keyword.
    pub open spec fn css(self) -> Seq<Chunk> {
        text(self.keyword())
    }

    /// Writes the keyword.
    pub fn to_css(&self, dest: &mut Printer)
        ensures
            final(dest).minify == old(dest).minify,
            final(dest).references() == old(dest).references(),
            final(dest).output() == old(dest).output() + self.css(),
    {
        dest.write_str(self.as_str());
    }
}

impl CssValue for AnimationDirection {
    open spec fn items(list: CssList<Self>) -> Seq<Self> {
        directions_in(list)
    }

    open spec fn css_eq(&self, other: &Self) -> bool {
        *self == *other
    }

    fn equals(&self, other: &Self) -> (r: bool) {
        *self == *other
    }

    fn duplicate(&self) -> (r: Self) {
        *self
    }

    fn as_items(list: &CssList<Self>) -> (r: &[Self]) {
        direction_slice(list)
    }

    fn from_items(v: Vec<Self>) -> (r: CssList<Self>) {
        direction_list(v)
    }
}

/// Whether an animation runs (`animation-play-state`).
#[derive(Clone, Copy, Debug, PartialEq, Eq, Structural)]
pub enum AnimationPlayState {
    Running,
    Paused,
}

impl AnimationPlayState {
    /// The value that `ident` names, up to ASCII case.
    pub open spec fn from_keyword(ident: Seq<char>) -> Option<AnimationPlayState> {
        if eq_ignore_ascii_case(ident, "running"@) {
            Some(AnimationPlayState::Running)
        } else if eq_ignore_ascii_case(ident, "paused"@) {
            Some(AnimationPlayState::Paused)
        } else {
            None
        }
    }

    /// The value that `ident` names, up to ASCII case.
    pub fn keyword_value(ident: &str) -> (r: Option<AnimationPlayState>)
        ensures
            r == Self::from_keyword(ident@),
    {
        if str_eq_ignore_ascii_case(ident, "running") {
            Some(AnimationPlayState::Running)
        } else if str_eq_ignore_ascii_case(ident, "paused") {
            Some(AnimationPlayState::Paused)
        } else {
            None
        }
    }

    /// The keyword of the value.
    pub open spec fn keyword(self) -> Seq<char> {
        match self {
            AnimationPlayState::Running => "running"@,
            AnimationPlayState::Paused => "paused"@,
        }
    }

    /// The keyword of the value.
    pub fn as_str(&self) -> (r: &'static str)
        ensures
            r@ == self.keyword(),
    {
        match self {
            AnimationPlayState::Running => "running",
            AnimationPlayState::Paused => "paused",
        }
    }

    /// The parse at token `pos`: an identifier naming a value.
    pub open spec fn spec_parse(tokens: Seq<Token>, pos: int) -> Result<(AnimationPlayState, int), ParseError> {
        match token_at(tokens, pos) {
            None => Err(ParseError::EndOfInput),
            Some(Token::Ident(s)) => match Self::from_keyword(s@) {
                Some(v) => Ok((v, pos + 1)),
                None => Err(ParseError::UnexpectedToken),
            },
            Some(_) => Err(ParseError::UnexpectedToken),
        }
    }

    /// Parses the keyword.
    pub fn parse(input: &mut Parser) -> (res: Result<AnimationPlayState, ParseError>)
        ensures
            parsed_as(*old(input), *final(input), res, Self::spec_parse(old(input).tokens@, old(input).pos as int)),
    {
        if input.pos >= input.tokens.len() {
            return Err(ParseError::EndOfInput);
        }
        let r = match &input.tokens[input.pos] {
            Token::Ident(s) => match Self::keyword_value(s.as_str()) {
                Some(v) => Ok((v, input.pos + 1)),
                None => Err(ParseError::UnexpectedToken),
            },
            _ => Err(ParseError::UnexpectedToken),
        };
        input.commit(r)
    }

    /// The parse of a whole string: its tokens must be exactly one keyword.
    #[verifier::opaque]
    pub open spec fn spec_parse_string(s: Seq<char>) -> Result<AnimationPlayState, ParseError> {
        let tokens = tokenize(s, s.len());
        match Self::spec_parse(tokens, 0) {
            Ok((v, p)) => if p >= tokens.len() {
                Ok(v)
            } else {
                Err(ParseError::UnexpectedToken)
            },
            Err(e) => Err(e),
        }
    }

    /// Parses a whole string as the keyword.
    pub fn parse_string(s: &str) -> (res: Result<AnimationPlayState, ParseError>)
        ensures
            res == Self::spec_parse_string(s@),
    {
        reveal(AnimationPlayState::spec_parse_string);
        let mut input = Parser::new(s);
        match Self::parse(&mut input) {
            Ok(v) => if input.is_exhausted() {
                Ok(v)
            } else {
                Err(ParseError::UnexpectedToken)
            },
            Err(e) => Err(e),
        }
    }

    /// The serialization: the keyword.
    pub open spec fn css(self) -> Seq<Chunk> {
        text(self.keyword())
    }

    /// Writes the keyword.
    pub fn to_css(&self, dest: &mut Printer)
        ensures
            final(dest).minify == old(dest).minify,
            final(dest).references() == old(dest).references(),
            final(dest).output() == old(dest).output() + self.css(),
    {
        dest.write_str(self.as_str());
    }
}

impl CssValue for AnimationPlayState {
    open spec fn items(list: CssList<Self>) -> Seq<Self> {
        play_states_in(list)
    }

    open spec fn css_eq(&self, other: &Self) -> bool {
        *self == *other
    }

    fn equals(&self, other: &Self) -> (r: bool) {
        *self == *other
    }

    fn duplicate(&self) -> (r: Self) {
        *self
    }

    fn as_items(list: &CssList<Self>) -> (r: &[Self]) {
        play_state_slice(list)
    }

    fn from_items(v: Vec<Self>) -> (r: CssList<Self>) {
        play_state_list(v)
    }
}

/// What an animation applies before and after it runs (`animation-fill-mode`).
#[derive(Clone, Copy, Debug, PartialEq, Eq, Structural)]
pub enum AnimationFillMode {
    NoFill,
    Forwards,
    Backwards,
    Both,
}

impl AnimationFillMode {
    /// The value that `ident` names, up to ASCII case.
    pub open spec fn from_keyword(ident: Seq<char>) -> Option<AnimationFillMode> {
        if eq_ignore_ascii_case(ident, "none"@) {
            Some(AnimationFillMode::NoFill)
        } else if eq_ignore_ascii_case(ident, "forwards"@) {
            Some(AnimationFillMode::Forwards)
        } else if eq_ignore_ascii_case(ident, "backwards"@) {
            Some(AnimationFillMode::Backwards)
        } else if eq_ignore_ascii_case(ident, "both"@) {
            Some(AnimationFillMode::Both)
        } else {
            None
        }
    }

    /// The value that `ident` names, up to ASCII case.
    pub fn keyword_value(ident: &str) -> (r: Option<AnimationFillMode>)
        ensures
            r == Self::from_keyword(ident@),
    {
        if str_eq_ignore_ascii_case(ident, "none") {
            Some(AnimationFillMode::NoFill)
        } else if str_eq_ignore_ascii_case(ident, "forwards") {
            Some(AnimationFillMode::Forwards)
        } else if str_eq_ignore_ascii_case(ident, "backwards") {
            Some(AnimationFillMode::Backwards)
        } else if str_eq_ignore_ascii_case(ident, "both") {
            Some(AnimationFillMode::Both)
        } else {
            None
        }
    }

    /// The keyword of the value.
    pub open spec fn keyword(self) -> Seq<char> {
        match self {
            AnimationFillMode::NoFill => "none"@,
            AnimationFillMode::Forwards => "forwards"@,
            AnimationFillMode::Backwards => "backwards"@,
            AnimationFillMode::Both => "both"@,
        }
    }

    /// The keyword of the value.
    pub fn as_str(&self) -> (r: &'static str)
        ensures
            r@ == self.keyword(),
    {
        match self {
            AnimationFillMode::NoFill => "none",
            AnimationFillMode::Forwards => "forwards",
            AnimationFillMode::Backwards => "backwards",
            AnimationFillMode::Both => "both",
        }
    }

    /// The parse at token `pos`: an identifier naming a value.
    pub open spec fn spec_parse(tokens: Seq<Token>, pos: int) -> Result<(AnimationFillMode, int), ParseError> {
        match token_at(tokens, pos) {
            None => Err(ParseError::EndOfInput),
            Some(Token::Ident(s)) => match Self::from_keyword(s@) {
                Some(v) => Ok((v, pos + 1)),
                None => Err(ParseError::UnexpectedToken),
            },
            Some(_) => Err(ParseError::UnexpectedToken),
        }
    }

    /// Parses the keyword.
    pub fn parse(input: &mut Parser) -> (res: Result<AnimationFillMode, ParseError>)
        ensures
            parsed_as(*old(input), *final(input), res, Self::spec_parse(old(input).tokens@, old(input).pos as int)),
    {
        if input.pos >= input.tokens.len() {
            return Err(ParseError::EndOfInput);
        }
        let r = match &input.tokens[input.pos] {
            Token::Ident(s) => match Self::keyword_value(s.as_str()) {
                Some(v) => Ok((v, input.pos + 1)),
                None => Err(ParseError::UnexpectedToken),
            },
            _ => Err(ParseError::UnexpectedToken),
        };
        input.commit(r)
    }

    /// The parse of a whole string: its tokens must be exactly one keyword.
    #[verifier::opaque]
    pub open spec fn spec_parse_string(s: Seq<char>) -> Result<AnimationFillMode, ParseError> {
        let tokens = tokenize(s, s.len());
        match Self::spec_parse(tokens, 0) {
            Ok((v, p)) => if p >= tokens.len() {
                Ok(v)
            } else {
                Err(ParseError::UnexpectedToken)
            },
            Err(e) => Err(e),
        }
    }

    /// Parses a whole string as the keyword.
    pub fn parse_string(s: &str) -> (res: Result<AnimationFillMode, ParseError>)
        ensures
            res == Self::spec_parse_string(s@),
    {
        reveal(AnimationFillMode::spec_parse_string);
        let mut input = Parser::new(s);
        match Self::parse(&mut input) {
            Ok(v) => if input.is_exhausted() {
                Ok(v)
            } else {
                Err(ParseError::UnexpectedToken)
            },
            Err(e) => Err(e),
        }
    }

    /// The serialization: the keyword.
    pub open spec fn css(self) -> Seq<Chunk> {
        text(self.keyword())
    }

    /// Writes the keyword.
    pub fn to_css(&self, dest: &mut Printer)
        ensures
            final(dest).minify == old(dest).minify,
            final(dest).references() == old(dest).references(),
            final(dest).output() == old(dest).output() + self.css(),
    {
        dest.write_str(self.as_str());
    }
}

impl CssValue for AnimationFillMode {
    open spec fn items(list: CssList<Self>) -> Seq<Self> {
        fill_modes_in(list)
    }

    open spec fn css_eq(&self, other: &Self) -> bool {
        *self == *other
    }

    fn equals(&self, other: &Self) -> (r: bool) {
        *self == *other
    }

    fn duplicate(&self) -> (r: Self) {
        *self
    }

    fn as_items(list: &CssList<Self>) -> (r: &[Self]) {
        fill_mode_slice(list)
    }

    fn from_items(v: Vec<Self>) -> (r: CssList<Self>) {
        fill_mode_list(v)
    }
}

} // verus!

verus! {

/// Law: the keyword written for a value of `AnimationDirection` reads back as that
/// value.
pub proof fn law_animation_direction_keyword_read_back(v: AnimationDirection, s: String)
    requires
        s@ == v.keyword(),
    ensures
        AnimationDirection::spec_parse(seq![Token::Ident(s)], 0) == Ok::<(AnimationDirection, int), ParseError>((v, 1)),
{
    reveal_strlit("normal");
    reveal_strlit("reverse");
    reveal_strlit("alternate");
    reveal_strlit("alternate-reverse");
    assert(AnimationDirection::from_keyword(v.keyword()) == Some(v));
}

/// Law: the keyword written for a value of `AnimationPlayState` reads back as that
/// value.
pub proof fn law_animation_play_state_keyword_read_back(v: AnimationPlayState, s: String)
    requires
        s@ == v.keyword(),
    ensures
        AnimationPlayState::spec_parse(seq![Token::Ident(s)], 0) == Ok::<(AnimationPlayState, int), ParseError>((v, 1)),
{
    reveal_strlit("running");
    reveal_strlit("paused");
    assert(AnimationPlayState::from_keyword(v.keyword()) == Some(v));
}

/// Law: the keyword written for a value of `AnimationFillMode` reads back as that
/// value.
pub proof fn law_animation_fill_mode_keyword_read_back(v: AnimationFillMode, s: String)
    requires
        s@ == v.keyword(),
    ensures
        AnimationFillMode::spec_parse(seq![Token::Ident(s)], 0) == Ok::<(AnimationFillMode, int), ParseError>((v, 1)),
{
    reveal_strlit("none");
    reveal_strlit("forwards");
    reveal_strlit("backwards");
    reveal_strlit("both");
    assert(ascii_lower("both"@[0]) != ascii_lower("none"@[0]));
    assert(!eq_ignore_ascii_case("both"@, "none"@));
    assert(AnimationFillMode::from_keyword(v.keyword()) == Some(v));
}

/// Law: each keyword of `AnimationDirection`, in any ASCII case, is read as its own
/// value, and each value is written as its own keyword.
pub proof fn law_direction_keywords_name_their_values(s: String)
    ensures
        eq_ignore_ascii_case(s@, "normal"@) ==> AnimationDirection::spec_parse(seq![Token::Ident(s)], 0)
            == Ok::<(AnimationDirection, int), ParseError>((AnimationDirection::Normal, 1)),
        eq_ignore_ascii_case(s@, "reverse"@) ==> AnimationDirection::spec_parse(seq![Token::Ident(s)], 0)
            == Ok::<(AnimationDirection, int), ParseError>((AnimationDirection::Reverse, 1)),
        eq_ignore_ascii_case(s@, "alternate"@) ==> AnimationDirection::spec_parse(seq![Token::Ident(s)], 0)
            == Ok::<(AnimationDirection, int), ParseError>((AnimationDirection::Alternate, 1)),
        eq_ignore_ascii_case(s@, "alternate-reverse"@) ==> AnimationDirection::spec_parse(seq![Token::Ident(s)], 0)
            == Ok::<(AnimationDirection, int), ParseError>((AnimationDirection::AlternateReverse, 1)),
        AnimationDirection::Normal.css() == text("normal"@),
        AnimationDirection::Reverse.css() == text("reverse"@),
        AnimationDirection::Alternate.css() == text("alternate"@),
        AnimationDirection::AlternateReverse.css() == text("alternate-reverse"@),
{
    reveal_strlit("normal");
    reveal_strlit("reverse");
    reveal_strlit("alternate");
    reveal_strlit("alternate-reverse");

}

/// Law: each keyword of `AnimationPlayState`, in any ASCII case, is read as its own
/// value, and each value is written as its own keyword.
pub proof fn law_play_state_keywords_name_their_values(s: String)
    ensures
        eq_ignore_ascii_case(s@, "running"@) ==> AnimationPlayState::spec_parse(seq![Token::Ident(s)], 0)
            == Ok::<(AnimationPlayState, int), ParseError>((AnimationPlayState::Running, 1)),
        eq_ignore_ascii_case(s@, "paused"@) ==> AnimationPlayState::spec_parse(seq![Token::Ident(s)], 0)
            == Ok::<(AnimationPlayState, int), ParseError>((AnimationPlayState::Paused, 1)),
        AnimationPlayState::Running.css() == text("running"@),
        AnimationPlayState::Paused.css() == text("paused"@),
{
    reveal_strlit("running");
    reveal_strlit("paused");

}

/// Law: each keyword of `AnimationFillMode`, in any ASCII case, is read as its own
/// value, and each value is written as its own keyword.
pub proof fn law_fill_mode_keywords_name_their_values(s: String)
    ensures
        eq_ignore_ascii_case(s@, "none"@) ==> AnimationFillMode::spec_parse(seq![Token::Ident(s)], 0)
            == Ok::<(AnimationFillMode, int), ParseError>((AnimationFillMode::NoFill, 1)),
        eq_ignore_ascii_case(s@, "forwards"@) ==> AnimationFillMode::spec_parse(seq![Token::Ident(s)], 0)
            == Ok::<(AnimationFillMode, int), ParseError>((AnimationFillMode::Forwards, 1)),
        eq_ignore_ascii_case(s@, "backwards"@) ==> AnimationFillMode::spec_parse(seq![Token::Ident(s)], 0)
            == Ok::<(AnimationFillMode, int), ParseError>((AnimationFillMode::Backwards, 1)),
        eq_ignore_ascii_case(s@, "both"@) ==> AnimationFillMode::spec_parse(seq![Token::Ident(s)], 0)
            == Ok::<(AnimationFillMode, int), ParseError>((AnimationFillMode::Both, 1)),
        AnimationFillMode::NoFill.css() == text("none"@),
        AnimationFillMode::Forwards.css() == text("forwards"@),
        AnimationFillMode::Backwards.css() == text("backwards"@),
        AnimationFillMode::Both.css() == text("both"@),
{
    reveal_strlit("none");
    reveal_strlit("forwards");
    reveal_strlit("backwards");
    reveal_strlit("both");
    if eq_ignore_ascii_case(s@, "both"@) {
        lemma_case_distinct(s@, "both"@, "none"@, 0);
    }
}

} // verus!

//! The output of serialization.  Text is kept as text; a number is kept as
//! the encoding of its value and is written out by the caller, which is
//! where floating-point formatting happens.

use vstd::prelude::*;

verus! {

/// How a number is to be scaled when it is written out.
#[derive(Clone, Copy, Debug, PartialEq, Eq, Structural)]
pub enum NumberScale {
    /// Written as it is.
    Unit,
    /// Multiplied by 1000 first.
    Thousandfold,
    /// Divided by 1000 first.
    Thousandth,
}

/// A piece of serialized output.
#[derive(Debug)]
pub enum Piece {
    /// Literal CSS text.
    Text(String),
    /// A number, written as a CSS `<number>` after scaling.
    Number { bits: u32, scale: NumberScale },
}

/// One unit of output: a character, or a number still to be written.
pub enum Chunk {
    Char(char),
    Number(u32, NumberScale),
}

/// The chunks of the text `s`.
pub open spec fn text(s: Seq<char>) -> Seq<Chunk> {
    s.map_values(|c: char| Chunk::Char(c))
}

/// The chunk of a number.
pub open spec fn number(bits: u32, scale: NumberScale) -> Seq<Chunk> {
    seq![Chunk::Number(bits, scale)]
}

/// The chunks of one piece.
pub open spec fn piece_chunks(p: Piece) -> Seq<Chunk> {
    match p {
        Piece::Text(s) => text(s@),
        Piece::Number { bits, scale } => number(bits, scale),
    }
}

/// The chunks of a list of pieces, in order.
pub open spec fn render(pieces: Seq<Piece>) -> Seq<Chunk>
    decreases pieces.len(),
{
    if pieces.len() == 0 {
        seq![]
    } else {
        render(pieces.drop_last()) + piece_chunks(pieces.last())
    }
}

/// Serialized output, with the `minify` option of the serializer.
pub struct Printer {
    pub minify: bool,
    /// When the output is a CSS module: the names referenced so far, in
    /// the order in which they were referenced.
    pub css_module: Option<Vec<String>>,
    pub pieces: Vec<Piece>,
}

/// Output written in three steps is the output before followed by the
/// three parts together.
pub proof fn lemma_three_steps(o: Seq<Chunk>, a: Seq<Chunk>, b: Seq<Chunk>, c: Seq<Chunk>)
    ensures
        o + a + b + c == o + (a + b + c),
{
    assert(o + a + b + c =~= o + (a + b + c));
}

/// Output written in four steps is the output before followed by the four
/// parts together.
pub proof fn lemma_four_steps(o: Seq<Chunk>, a: Seq<Chunk>, b: Seq<Chunk>, c: Seq<Chunk>, d: Seq<Chunk>)
    ensures
        o + a + b + c + d == o + (a + b + c + d),
{
    assert(o + a + b + c + d =~= o + (a + b + c + d));
}

impl Printer {
    /// What has been written so far.
    pub open spec fn output(&self) -> Seq<Chunk> {
        render(self.pieces@)
    }

    /// The names referenced so far, when the output is a CSS module.
    pub open spec fn references(&self) -> Option<Seq<String>> {
        match self.css_module {
            Some(v) => Some(v@),
            None => None,
        }
    }

    /// An empty output, not a CSS module.
    pub fn new(minify: bool) -> (p: Printer)
        ensures
            p.minify == minify,
            p.references() is None,
            p.output() == Seq::<Chunk>::empty(),
    {
        Printer { minify, css_module: None, pieces: Vec::new() }
    }

    /// An empty output of a CSS module, with no name referenced yet.
    pub fn for_css_module(minify: bool) -> (p: Printer)
        ensures
            p.minify == minify,
            p.references() == Some(Seq::<String>::empty()),
            p.output() == Seq::<Chunk>::empty(),
    {
        Printer { minify, css_module: Some(Vec::new()), pieces: Vec::new() }
    }

    /// Records that `name` is referenced, when the output is a CSS module.
    pub fn reference(&mut self, name: &String)
        ensures
            final(self).minify == old(self).minify,
            final(self).output() == old(self).output(),
            final(self).references() == match old(self).references() {
                Some(r) => Some(r.push(*name)),
                None => None::<Seq<String>>,
            },
    {
        match self.css_module.take() {
            Some(mut v) => {
                v.push(name.clone());
                self.css_module = Some(v);
            },
            None => {},
        }
    }

    fn push_piece(&mut self, p: Piece)
        ensures
            final(self).minify == old(self).minify,
            final(self).references() == old(self).references(),
            final(self).output() == old(self).output() + piece_chunks(p),
    {
        let ghost before = self.pieces@;
        self.pieces.push(p);
        assert(self.pieces@.drop_last() =~= before);
    }

    /// Writes the text `s`.
    pub fn write_str(&mut self, s: &str)
        ensures
            final(self).minify == old(self).minify,
            final(self).references() == old(self).references(),
            final(self).output() == old(self).output() + text(s@),
    {
        self.push_piece(Piece::Text(String::from_str(s)));
    }

    /// Writes the text `s`.
    pub fn write_string(&mut self, s: String)
        ensures
            final(self).minify == old(self).minify,
            final(self).references() == old(self).references(),
            final(self).output() == old(self).output() + text(s@),
    {
        self.push_piece(Piece::Text(s));
    }

    /// Writes a number.
    pub fn write_number(&mut self, bits: u32, scale: NumberScale)
        ensures
            final(self).minify == old(self).minify,
            final(self).references() == old(self).references(),
            final(self).output() == old(self).output() + number(bits, scale),
    {
        self.push_piece(Piece::Number { bits, scale });
    }

    /// The text of a `,` delimiter: followed by a space unless minifying.
    pub open spec fn comma_text(minify: bool) -> Seq<char> {
        if minify {
            ","@
        } else {
            ", "@
        }
    }

    /// Writes a `,` delimiter.
    pub fn comma(&mut self)
        ensures
            final(self).minify == old(self).minify,
            final(self).references() == old(self).references(),
            final(self).output() == old(self).output() + text(Self::comma_text(old(self).minify)),
    {
        if self.minify {
            self.write_str(",");
        } else {
            self.write_str(", ");
        }
    }
}

} // verus!

verus! {

/// The decimal digit `d` as a character.
pub open spec fn digit_char(d: int) -> char {
    (48 + d) as char
}

/// The decimal digits of `n`, without leading zeros.
pub open spec fn decimal_digits(n: nat) -> Seq<char>
    decreases n,
{
    if n < 10 {
        seq![digit_char(n as int)]
    } else {
        decimal_digits(n / 10) + seq![digit_char((n % 10) as int)]
    }
}

/// The decimal text of `i`, with a `-` before a negative one.
pub open spec fn decimal_text(i: int) -> Seq<char> {
    if i < 0 {
        seq!['-'] + decimal_digits((-i) as nat)
    } else {
        decimal_digits(i as nat)
    }
}

/// The text of the decimal digit `d`.
fn digit_str(d: u32) -> (s: &'static str)
    requires
        d < 10,
    ensures
        s@ == seq![digit_char(d as int)],
{
    proof {
        reveal_strlit("0");
        reveal_strlit("1");
        reveal_strlit("2");
        reveal_strlit("3");
        reveal_strlit("4");
        reveal_strlit("5");
        reveal_strlit("6");
        reveal_strlit("7");
        reveal_strlit("8");
        reveal_strlit("9");
    }
    match d {
        0 => "0",
        1 => "1",
        2 => "2",
        3 => "3",
        4 => "4",
        5 => "5",
        6 => "6",
        7 => "7",
        8 => "8",
        _ => "9",
    }
}

/// The decimal text of `i`.
fn integer_string(i: i32) -> (r: String)
    ensures
        r@ == decimal_text(i as int),
{
    let neg = i < 0;
    let wide: i64 = i as i64;
    let abs: i64 = if neg { -wide } else { wide };
    let mut m: u32 = abs as u32;
    let ghost n: nat = m as nat;
    assert(n == if i < 0 { -(i as int) } else { i as int });
    let mut acc = String::from_str(digit_str(m % 10));
    m = m / 10;
    while m > 0
        invariant
            m == 0 ==> acc@ == decimal_digits(n),
            m > 0 ==> decimal_digits(n) == decimal_digits(m as nat) + acc@,
        decreases m,
    {
        let d = String::from_str(digit_str(m % 10));
        let ghost before = acc@;
        acc = d.concat(acc.as_str());
        assert(decimal_digits(m as nat) =~= if m < 10 {
            seq![digit_char(m as int)]
        } else {
            decimal_digits((m / 10) as nat) + seq![digit_char((m % 10) as int)]
        });
        if m < 10 {
            assert(acc@ =~= decimal_digits(m as nat) + before);
        } else {
            assert(decimal_digits((m / 10) as nat) + acc@ =~= decimal_digits(m as nat) + before);
        }
        m = m / 10;
    }
    if neg {
        proof {
            reveal_strlit("-");
        }
        let r = String::from_str("-").concat(acc.as_str());
        assert(r@ =~= decimal_text(i as int));
        r
    } else {
        acc
    }
}

impl Printer {
    /// Writes an integer in decimal.
    pub fn write_integer(&mut self, i: i32)
        ensures
            final(self).minify == old(self).minify,
            final(self).references() == old(self).references(),
            final(self).output() == old(self).output() + text(decimal_text(i as int)),
    {
        self.write_string(integer_string(i));
    }
}

} // verus!

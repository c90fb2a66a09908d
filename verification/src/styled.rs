//! Lines of text with tones, as they are printed and drawn.

use vstd::prelude::*;
use vstd::string::*;

verus! {

/// How a piece of text is printed.
#[derive(Clone, Copy, PartialEq, Eq, Structural, Debug)]
pub enum Tone {
    Plain,
    Bold,
    BrightBlack,
    Blue,
    Cyan,
    Green,
    GreenBold,
    MagentaBold,
    Red,
    RedBold,
    Yellow,
    YellowBold,
    DarkGray,
    White,
    /// Black on yellow, for the cell under the cursor.
    Cursor,
}

/// A piece of text.
pub struct Piece {
    pub tone: Tone,
    pub text: String,
}

/// The model of a line: its pieces.
pub type LineModel = Seq<(Tone, Seq<char>)>;

/// The pieces of a line.
pub open spec fn pieces_of(line: Seq<Piece>) -> LineModel {
    line.map_values(|p: Piece| (p.tone, p.text@))
}

/// The models of lines.
pub open spec fn lines_of(lines: Seq<Vec<Piece>>) -> Seq<LineModel> {
    lines.map_values(|l: Vec<Piece>| pieces_of(l@))
}

/// Adds a piece to a line.
pub fn add_piece(line: &mut Vec<Piece>, tone: Tone, text: &str)
    ensures
        pieces_of(final(line)@) == pieces_of(old(line)@).push((tone, text@)),
{
    line.push(Piece { tone, text: text.to_string() });
    assert(pieces_of(line@) =~= pieces_of(old(line)@).push((tone, text@)));
}

/// An empty line.
pub fn no_pieces() -> (r: Vec<Piece>)
    ensures
        pieces_of(r@) == LineModel::empty(),
{
    let line: Vec<Piece> = Vec::new();
    assert(pieces_of(line@) =~= Seq::empty());
    line
}

/// A line of one piece.
pub fn one_piece(tone: Tone, text: &str) -> (r: Vec<Piece>)
    ensures
        pieces_of(r@) == seq![(tone, text@)],
{
    let mut line: Vec<Piece> = no_pieces();
    add_piece(&mut line, tone, text);
    assert(pieces_of(line@) =~= seq![(tone, text@)]);
    line
}

/// A line of two pieces.
pub fn two_pieces(t1: Tone, s1: &str, t2: Tone, s2: &str) -> (r: Vec<Piece>)
    ensures
        pieces_of(r@) == seq![(t1, s1@), (t2, s2@)],
{
    let mut line: Vec<Piece> = one_piece(t1, s1);
    add_piece(&mut line, t2, s2);
    assert(pieces_of(line@) =~= seq![(t1, s1@), (t2, s2@)]);
    line
}

/// A line of three pieces.
pub fn three_pieces(t1: Tone, s1: &str, t2: Tone, s2: &str, t3: Tone, s3: &str) -> (r: Vec<Piece>)
    ensures
        pieces_of(r@) == seq![(t1, s1@), (t2, s2@), (t3, s3@)],
{
    let mut line: Vec<Piece> = two_pieces(t1, s1, t2, s2);
    add_piece(&mut line, t3, s3);
    assert(pieces_of(line@) =~= seq![(t1, s1@), (t2, s2@), (t3, s3@)]);
    line
}

/// Adds a line to lines.
pub fn add_line(lines: &mut Vec<Vec<Piece>>, line: Vec<Piece>)
    ensures
        lines_of(final(lines)@) == lines_of(old(lines)@).push(pieces_of(line@)),
{
    let ghost added = pieces_of(line@);
    lines.push(line);
    assert(lines_of(lines@) =~= lines_of(old(lines)@).push(added));
}

} // verus!

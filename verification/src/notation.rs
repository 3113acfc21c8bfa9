//! Squares and moves as the engine writes them.
//!
//! A square is a number from 0 to 63: a1 is 0, b1 is 1, h1 is 7, a2 is 8 and
//! h8 is 63. In text a square is its file letter and its rank digit.

use crate::config::PromotionChoice;
use crate::text::{chars_of, digit_str};
use vstd::prelude::*;

verus! {

/// A square of the board, 0 to 63, files running fastest.
pub type Square = usize;

/// A move as the engine names it.
#[derive(Clone, Copy, Debug, PartialEq, Eq, Structural)]
pub struct EngineMove {
    pub from: Square,
    pub to: Square,
    pub promotion: Option<PromotionChoice>,
}

/// Whether `s` names a square: a file letter `a` to `h`, then a rank digit `1` to `8`.
pub open spec fn is_algebraic(s: Seq<char>) -> bool {
    &&& s.len() == 2
    &&& 'a' <= s[0] <= 'h'
    &&& '1' <= s[1] <= '8'
}

/// The square that `s` names, if it names one.
pub open spec fn square_of(s: Seq<char>) -> Option<Square> {
    if is_algebraic(s) {
        Some(((s[1] as u32 - 49) * 8 + (s[0] as u32 - 97)) as usize)
    } else {
        None
    }
}

/// The name of square `q`, if `q` is on the board.
pub open spec fn name_of(q: Square) -> Option<Seq<char>> {
    if q < 64 {
        Some(seq![(q % 8 + 97) as u8 as char, (q / 8 + 49) as u8 as char])
    } else {
        None
    }
}

/// The piece that a promotion letter stands for.
pub open spec fn promotion_of(c: char) -> Option<PromotionChoice> {
    if c == 'q' {
        Some(PromotionChoice::Queen)
    } else if c == 'r' {
        Some(PromotionChoice::Rook)
    } else if c == 'b' {
        Some(PromotionChoice::Bishop)
    } else if c == 'n' {
        Some(PromotionChoice::Knight)
    } else {
        None
    }
}

/// The move that `text` writes: origin, destination and, where a fifth
/// character follows, the promotion piece. What follows the fifth character
/// is not read.
pub open spec fn move_of(text: Seq<char>) -> Option<EngineMove> {
    if text.len() < 4 {
        None
    } else {
        match (square_of(text.subrange(0, 2)), square_of(text.subrange(2, 4))) {
            (Some(from), Some(to)) => if text.len() == 4 {
                Some(EngineMove { from, to, promotion: None })
            } else {
                match promotion_of(text[4]) {
                    Some(piece) => Some(EngineMove { from, to, promotion: Some(piece) }),
                    None => None,
                }
            },
            _ => None,
        }
    }
}

/// Naming the square that a name stands for gives the name back.
pub proof fn lemma_algebraic_round_trip(s: Seq<char>)
    requires
        is_algebraic(s),
    ensures
        square_of(s) is Some,
        square_of(s)->0 < 64,
        name_of(square_of(s)->0) == Some(s),
{
    let q = square_of(s)->0;
    assert(name_of(q)->0 =~= s);
}

/// The name of a square on the board stands for that square.
pub proof fn lemma_index_round_trip(q: Square)
    requires
        q < 64,
    ensures
        name_of(q) is Some,
        is_algebraic(name_of(q)->0),
        square_of(name_of(q)->0) == Some(q),
{
}

/// Squares off the board have no name, and only names stand for squares.
pub proof fn lemma_out_of_range_rejected(q: Square, s: Seq<char>)
    ensures
        q >= 64 ==> name_of(q) is None,
        !is_algebraic(s) ==> square_of(s) is None,
        square_of(s) is Some ==> square_of(s)->0 < 64,
{
}

/// The square named by the two characters of `chars` at `at`.
pub fn square_at(chars: &[char], at: usize) -> (square: Option<Square>)
    requires
        at + 2 <= chars@.len(),
    ensures
        square == square_of(chars@.subrange(at as int, at + 2)),
        square matches Some(q) ==> q < 64,
{
    let file = chars[at];
    let rank = chars[at + 1];
    let ghost name = chars@.subrange(at as int, at + 2);
    assert(name[0] == file && name[1] == rank);
    if 'a' <= file && file <= 'h' && '1' <= rank && rank <= '8' {
        let f: usize = (file as u32 - 97) as usize;
        let r: usize = (rank as u32 - 49) as usize;
        Some(r * 8 + f)
    } else {
        None
    }
}

/// The square that `name` stands for; `None` unless it is a file letter
/// followed by a rank digit.
pub fn algebraic_to_index(name: &str) -> (square: Option<Square>)
    ensures
        square == square_of(name@),
        square matches Some(q) ==> q < 64,
{
    let chars = chars_of(name);
    if chars.len() != 2 {
        return None;
    }
    assert(chars@.subrange(0, 2) =~= name@);
    square_at(chars.as_slice(), 0)
}

/// The text of a file letter.
fn file_str(file: usize) -> (s: &'static str)
    requires
        file < 8,
    ensures
        s@ == seq![(file + 97) as u8 as char],
{
    proof {
        reveal_strlit("a");
        reveal_strlit("b");
        reveal_strlit("c");
        reveal_strlit("d");
        reveal_strlit("e");
        reveal_strlit("f");
        reveal_strlit("g");
        reveal_strlit("h");
    }
    let s = match file {
        0 => "a",
        1 => "b",
        2 => "c",
        3 => "d",
        4 => "e",
        5 => "f",
        6 => "g",
        _ => "h",
    };
    assert(s@ =~= seq![(file + 97) as u8 as char]);
    s
}

/// The name of `square`; `None` if it is not on the board.
pub fn index_to_algebraic(square: Square) -> (name: Option<String>)
    ensures
        match name {
            Some(text) => name_of(square) == Some(text@),
            None => name_of(square) is None,
        },
{
    if square >= 64 {
        return None;
    }
    let mut text = String::from_str(file_str(square % 8));
    text.append(digit_str((square / 8 + 1) as u8));
    assert(text@ =~= name_of(square)->0);
    Some(text)
}

/// The piece that the promotion letter `c` stands for.
pub fn promotion_from_letter(c: char) -> (piece: Option<PromotionChoice>)
    ensures
        piece == promotion_of(c),
{
    if c == 'q' {
        Some(PromotionChoice::Queen)
    } else if c == 'r' {
        Some(PromotionChoice::Rook)
    } else if c == 'b' {
        Some(PromotionChoice::Bishop)
    } else if c == 'n' {
        Some(PromotionChoice::Knight)
    } else {
        None
    }
}

/// The move written by the characters of `chars` from `from` to `to`.
pub fn move_at(chars: &[char], from: usize, to: usize) -> (parsed: Option<EngineMove>)
    requires
        from <= to <= chars@.len(),
    ensures
        parsed == move_of(chars@.subrange(from as int, to as int)),
        parsed matches Some(m) ==> m.from < 64 && m.to < 64,
{
    let ghost text = chars@.subrange(from as int, to as int);
    if to - from < 4 {
        return None;
    }
    assert(text.subrange(0, 2) =~= chars@.subrange(from as int, from + 2));
    assert(text.subrange(2, 4) =~= chars@.subrange(from + 2, from + 4));
    let origin = square_at(chars, from);
    let target = square_at(chars, from + 2);
    match (origin, target) {
        (Some(a), Some(b)) => {
            if to - from == 4 {
                Some(EngineMove { from: a, to: b, promotion: None })
            } else {
                assert(text[4] == chars@[from + 4]);
                match promotion_from_letter(chars[from + 4]) {
                    Some(piece) => Some(EngineMove { from: a, to: b, promotion: Some(piece) }),
                    None => None,
                }
            }
        },
        _ => None,
    }
}

/// The move that `text` writes, if it writes one.
pub fn parse_move(text: &str) -> (parsed: Option<EngineMove>)
    ensures
        parsed == move_of(text@),
        parsed matches Some(m) ==> m.from < 64 && m.to < 64,
{
    let chars = chars_of(text);
    assert(chars@.subrange(0, chars@.len() as int) =~= text@);
    move_at(chars.as_slice(), 0, chars.len())
}

} // verus!

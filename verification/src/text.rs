//! The grid written out as text.

use crate::grid::{raw_cell, Grid};
use crate::world::{CoordinateFrame, PixelType, Point, World};
use vstd::prelude::*;

verus! {

/// The letter that stands for a material.
pub open spec fn letter(t: PixelType) -> char {
    match t {
        PixelType::Solid => 'S',
        PixelType::Sand => 's',
        PixelType::Water => 'W',
        PixelType::Air => 'A',
        PixelType::OutOfBounds => 'O',
    }
}

/// The character for a single decimal digit.
pub open spec fn digit(d: int) -> char {
    if d == 0 {
        '0'
    } else if d == 1 {
        '1'
    } else if d == 2 {
        '2'
    } else if d == 3 {
        '3'
    } else if d == 4 {
        '4'
    } else if d == 5 {
        '5'
    } else if d == 6 {
        '6'
    } else if d == 7 {
        '7'
    } else if d == 8 {
        '8'
    } else {
        '9'
    }
}

/// A number written in decimal, without padding.
pub open spec fn decimal(n: nat) -> Seq<char>
    decreases n,
{
    if n < 10 {
        seq![digit(n as int)]
    } else {
        decimal(n / 10) + seq![digit((n % 10) as int)]
    }
}

/// One cell as text: its row and column as stored and the letter of its
/// material, as in `(0,3 : W) `.
pub open spec fn cell_text(row: int, col: int, t: PixelType) -> Seq<char> {
    seq!['('] + decimal(row as nat) + seq![','] + decimal(col as nat) + seq![' ', ':', ' ']
        + seq![letter(t)] + seq![')', ' ']
}

/// The first `width` cells of a stored row as text.
pub open spec fn row_text(g: Grid, row: int, width: int) -> Seq<char>
    decreases width,
{
    if width <= 0 {
        Seq::empty()
    } else {
        row_text(g, row, width - 1) + cell_text(row, width - 1, raw_cell(g, row, width - 1))
    }
}

/// The first `height` stored rows as text, each row ended by a newline.
pub open spec fn rows_text(g: Grid, height: int) -> Seq<char>
    decreases height,
{
    if height <= 0 {
        Seq::empty()
    } else {
        rows_text(g, height - 1) + row_text(g, height - 1, g.len() as int) + seq!['\n']
    }
}

/// The grid as text: one line for each stored row, from the top down.
pub open spec fn grid_text(g: Grid) -> Seq<char> {
    rows_text(g, g.len() as int)
}

fn letter_text(t: PixelType) -> (s: &'static str)
    ensures
        s@ == seq![letter(t)],
{
    proof {
        reveal_strlit("S");
        reveal_strlit("s");
        reveal_strlit("W");
        reveal_strlit("A");
        reveal_strlit("O");
    }
    let s = match t {
        PixelType::Solid => "S",
        PixelType::Sand => "s",
        PixelType::Water => "W",
        PixelType::Air => "A",
        PixelType::OutOfBounds => "O",
    };
    assert(s@ =~= seq![letter(t)]);
    s
}

fn digit_text(d: usize) -> (s: &'static str)
    requires
        d < 10,
    ensures
        s@ == seq![digit(d as int)],
{
    proof {
        reveal_strlit("0");
        reveal_strlit("1");
        reveal_strlit("2");
        reveal_strlit("3");
        reveal_strlit("4");
        reveal_strlit("5");
        reveal_strlit("6");
        reveal_strlit("7");
        reveal_strlit("8");
        reveal_strlit("9");
    }
    let s = if d == 0 {
        "0"
    } else if d == 1 {
        "1"
    } else if d == 2 {
        "2"
    } else if d == 3 {
        "3"
    } else if d == 4 {
        "4"
    } else if d == 5 {
        "5"
    } else if d == 6 {
        "6"
    } else if d == 7 {
        "7"
    } else if d == 8 {
        "8"
    } else {
        "9"
    };
    assert(s@ =~= seq![digit(d as int)]);
    s
}

fn append_decimal(text: &mut String, n: usize)
    ensures
        final(text)@ == old(text)@ + decimal(n as nat),
    decreases n,
{
    if n >= 10 {
        append_decimal(text, n / 10);
    }
    text.append(digit_text(n % 10));
}

fn append_cell(text: &mut String, row: usize, col: usize, t: PixelType)
    ensures
        final(text)@ == old(text)@ + cell_text(row as int, col as int, t),
{
    proof {
        reveal_strlit("(");
        reveal_strlit(",");
        reveal_strlit(" : ");
        reveal_strlit(") ");
    }
    text.append("(");
    append_decimal(text, row);
    text.append(",");
    append_decimal(text, col);
    text.append(" : ");
    text.append(letter_text(t));
    text.append(") ");
    assert(text@ =~= old(text)@ + cell_text(row as int, col as int, t));
}

impl World {
    /// The grid as text, for a person to read: each cell with the place
    /// where it is stored and the letter of its material, one line for each
    /// stored row.
    pub fn to_text(&self) -> (text: String)
        ensures
            text@ == grid_text(self@),
    {
        let size = self.size();
        let mut text = String::new();
        let mut row: usize = 0;
        while row < size
            invariant
                row <= size,
                size == self@.len(),
                text@ == rows_text(self@, row as int),
            decreases size - row,
        {
            let mut col: usize = 0;
            while col < size
                invariant
                    row < size,
                    col <= size,
                    size == self@.len(),
                    text@ == rows_text(self@, row as int) + row_text(
                        self@,
                        row as int,
                        col as int,
                    ),
                decreases size - col,
            {
                let t = self.get_pixel_type_in(CoordinateFrame::Raw, Point::new(row, col));
                append_cell(&mut text, row, col, t);
                assert(text@ =~= rows_text(self@, row as int) + row_text(
                    self@,
                    row as int,
                    col + 1,
                ));
                col += 1;
            }
            proof {
                reveal_strlit("\n");
            }
            text.append("\n");
            assert(text@ =~= rows_text(self@, row + 1));
            row += 1;
        }
        text
    }
}

} // verus!

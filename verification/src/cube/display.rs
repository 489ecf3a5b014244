//! A state written out as text: the six faces laid flat, in letters or in
//! coloured blocks.

use vstd::prelude::*;
use vstd::string::StringExecFns;
use super::state::{CubeState, Facelets};

verus! {

/// The letter of a colour: white, orange, green, red, blue, yellow.  A value
/// that is no colour gets a question mark.
pub open spec fn color_letter(color: u8) -> Seq<char> {
    if color == 0 {
        "W"@
    } else if color == 1 {
        "O"@
    } else if color == 2 {
        "G"@
    } else if color == 3 {
        "R"@
    } else if color == 4 {
        "B"@
    } else if color == 5 {
        "Y"@
    } else {
        "?"@
    }
}

/// The block of a colour: a square of that colour.  A value that is no
/// colour gets a black square.
pub open spec fn color_square(color: u8) -> Seq<char> {
    if color == 0 {
        "\u{2B1C}"@
    } else if color == 1 {
        "\u{1F7E7}"@
    } else if color == 2 {
        "\u{1F7E9}"@
    } else if color == 3 {
        "\u{1F7E5}"@
    } else if color == 4 {
        "\u{1F7E6}"@
    } else if color == 5 {
        "\u{1F7E8}"@
    } else {
        "\u{2B1B}"@
    }
}

/// The three letters of row `row` of a face.
#[verifier::opaque]
pub open spec fn letter_row(face: Seq<u8>, row: int) -> Seq<char> {
    color_letter(face[3 * row]) + color_letter(face[3 * row + 1]) + color_letter(face[3 * row + 2])
}

/// The three blocks of row `row` of a face.
#[verifier::opaque]
pub open spec fn square_row(face: Seq<u8>, row: int) -> Seq<char> {
    color_square(face[3 * row]) + color_square(face[3 * row + 1]) + color_square(face[3 * row + 2])
}

/// A line with one row of a face, set under the front face.
#[verifier::opaque]
pub open spec fn letter_line(face: Seq<u8>, row: int) -> Seq<char> {
    "   "@ + letter_row(face, row) + "\n"@
}

/// A line with one row of the left, front and right faces side by side.
#[verifier::opaque]
pub open spec fn letter_band(s: Facelets, row: int) -> Seq<char> {
    letter_row(s[1], row) + letter_row(s[2], row) + letter_row(s[3], row) + "\n"@
}

/// The three lines of a face set under the front face.
#[verifier::opaque]
pub open spec fn letter_block(face: Seq<u8>) -> Seq<char> {
    letter_line(face, 0) + letter_line(face, 1) + letter_line(face, 2)
}

/// The cube in letters: the up face, then left, front and right side by
/// side, then the down face and, below it, the back face.
pub open spec fn letter_text(s: Facelets) -> Seq<char> {
    letter_block(s[0]) + (letter_band(s, 0) + letter_band(s, 1) + letter_band(s, 2)) + letter_block(
        s[5],
    ) + letter_block(s[4])
}

/// A line with one row of a face in blocks, set over the front face: six
/// spaces, three wide spaces in place of the left face, and a gap.
#[verifier::opaque]
pub open spec fn square_line(face: Seq<u8>, row: int) -> Seq<char> {
    "      "@ + "\u{3000}\u{3000}\u{3000}"@ + " "@ + square_row(face, row) + "\n"@
}

/// A line with one row of the left, front, right and back faces in blocks.
#[verifier::opaque]
pub open spec fn square_band(s: Facelets, row: int) -> Seq<char> {
    "      "@ + square_row(s[1], row) + " "@ + square_row(s[2], row) + " "@ + square_row(s[3], row)
        + " "@ + square_row(s[4], row) + "\n"@
}

/// The three lines of a face in blocks.
#[verifier::opaque]
pub open spec fn square_block(face: Seq<u8>) -> Seq<char> {
    square_line(face, 0) + square_line(face, 1) + square_line(face, 2)
}

/// The cube in coloured blocks: the up face, then left, front, right and
/// back side by side, then the down face.
pub open spec fn square_text(s: Facelets) -> Seq<char> {
    square_block(s[0]) + (square_band(s, 0) + square_band(s, 1) + square_band(s, 2)) + square_block(
        s[5],
    )
}

impl CubeState {
    /// The letter that stands for a colour.
    pub fn color_name(color: u8) -> (name: &'static str)
        ensures
            name@ == color_letter(color),
    {
        match color {
            0 => "W",
            1 => "O",
            2 => "G",
            3 => "R",
            4 => "B",
            5 => "Y",
            _ => "?",
        }
    }

    /// The coloured block that stands for a colour.
    pub fn color_block(color: u8) -> (block: &'static str)
        ensures
            block@ == color_square(color),
    {
        match color {
            0 => "\u{2B1C}",
            1 => "\u{1F7E7}",
            2 => "\u{1F7E9}",
            3 => "\u{1F7E5}",
            4 => "\u{1F7E6}",
            5 => "\u{1F7E8}",
            _ => "\u{2B1B}",
        }
    }

    /// Appends the letters of one row of a face.
    fn push_letter_row(&self, text: &mut String, face: usize, row: usize)
        requires
            face < 6,
            row < 3,
        ensures
            final(text)@ == old(text)@ + letter_row(self@[face as int], row as int),
    {
        reveal(letter_row);
        let ghost start = text@;
        text.append(Self::color_name(self.faces[face][row * 3]));
        text.append(Self::color_name(self.faces[face][row * 3 + 1]));
        text.append(Self::color_name(self.faces[face][row * 3 + 2]));
        assert(text@ =~= start + letter_row(self@[face as int], row as int));
    }

    /// Appends the blocks of one row of a face.
    fn push_square_row(&self, text: &mut String, face: usize, row: usize)
        requires
            face < 6,
            row < 3,
        ensures
            final(text)@ == old(text)@ + square_row(self@[face as int], row as int),
    {
        reveal(square_row);
        let ghost start = text@;
        text.append(Self::color_block(self.faces[face][row * 3]));
        text.append(Self::color_block(self.faces[face][row * 3 + 1]));
        text.append(Self::color_block(self.faces[face][row * 3 + 2]));
        assert(text@ =~= start + square_row(self@[face as int], row as int));
    }

    /// Appends one row of a face in letters, as a line of its own.
    fn push_letter_line(&self, text: &mut String, face: usize, row: usize)
        requires
            face < 6,
            row < 3,
        ensures
            final(text)@ == old(text)@ + letter_line(self@[face as int], row as int),
    {
        reveal(letter_line);
        let ghost start = text@;
        text.append("   ");
        self.push_letter_row(text, face, row);
        text.append("\n");
        assert(text@ =~= start + letter_line(self@[face as int], row as int));
    }

    /// Appends one row of the left, front and right faces in letters.
    fn push_letter_band(&self, text: &mut String, row: usize)
        requires
            row < 3,
        ensures
            final(text)@ == old(text)@ + letter_band(self@, row as int),
    {
        reveal(letter_band);
        let ghost start = text@;
        self.push_letter_row(text, 1, row);
        self.push_letter_row(text, 2, row);
        self.push_letter_row(text, 3, row);
        text.append("\n");
        assert(text@ =~= start + letter_band(self@, row as int));
    }

    /// Appends the three lines of a face in letters.
    fn push_letter_block(&self, text: &mut String, face: usize)
        requires
            face < 6,
        ensures
            final(text)@ == old(text)@ + letter_block(self@[face as int]),
    {
        reveal(letter_block);
        let ghost start = text@;
        let mut row: usize = 0;
        while row < 3
            invariant
                row <= 3,
                face < 6,
                row == 0 ==> text@ == start,
                row == 1 ==> text@ == start + letter_line(self@[face as int], 0),
                row == 2 ==> text@ == start + letter_line(self@[face as int], 0) + letter_line(
                    self@[face as int],
                    1,
                ),
                row == 3 ==> text@ == start + letter_block(self@[face as int]),
            decreases 3 - row,
        {
            self.push_letter_line(text, face, row);
            proof {
                reveal(letter_block);
                let line0 = letter_line(self@[face as int], 0);
                let line1 = letter_line(self@[face as int], 1);
                let line2 = letter_line(self@[face as int], 2);
                assert(start + line0 + line1 + line2 =~= start + (line0 + line1 + line2));
            }
            row += 1;
        }
    }

    /// Appends one row of a face in blocks, as a line of its own.
    fn push_square_line(&self, text: &mut String, face: usize, row: usize)
        requires
            face < 6,
            row < 3,
        ensures
            final(text)@ == old(text)@ + square_line(self@[face as int], row as int),
    {
        reveal(square_line);
        let ghost start = text@;
        text.append("      ");
        text.append("\u{3000}\u{3000}\u{3000}");
        text.append(" ");
        self.push_square_row(text, face, row);
        text.append("\n");
        assert(text@ =~= start + square_line(self@[face as int], row as int));
    }

    /// Appends the left half of a band in blocks: the left and front faces.
    fn push_square_band_left(&self, text: &mut String, row: usize)
        requires
            row < 3,
        ensures
            final(text)@ == old(text)@ + ("      "@ + square_row(self@[1], row as int) + " "@
                + square_row(self@[2], row as int)),
    {
        let ghost start = text@;
        text.append("      ");
        self.push_square_row(text, 1, row);
        text.append(" ");
        self.push_square_row(text, 2, row);
        assert(text@ =~= start + ("      "@ + square_row(self@[1], row as int) + " "@ + square_row(
            self@[2],
            row as int,
        )));
    }

    /// Appends one row of the left, front, right and back faces in blocks.
    fn push_square_band(&self, text: &mut String, row: usize)
        requires
            row < 3,
        ensures
            final(text)@ == old(text)@ + square_band(self@, row as int),
    {
        reveal(square_band);
        let ghost start = text@;
        self.push_square_band_left(text, row);
        text.append(" ");
        self.push_square_row(text, 3, row);
        text.append(" ");
        self.push_square_row(text, 4, row);
        text.append("\n");
        assert(text@ =~= start + square_band(self@, row as int));
    }

    /// Appends the three lines of a face in blocks.
    fn push_square_block(&self, text: &mut String, face: usize)
        requires
            face < 6,
        ensures
            final(text)@ == old(text)@ + square_block(self@[face as int]),
    {
        reveal(square_block);
        let ghost start = text@;
        let mut row: usize = 0;
        while row < 3
            invariant
                row <= 3,
                face < 6,
                row == 0 ==> text@ == start,
                row == 1 ==> text@ == start + square_line(self@[face as int], 0),
                row == 2 ==> text@ == start + square_line(self@[face as int], 0) + square_line(
                    self@[face as int],
                    1,
                ),
                row == 3 ==> text@ == start + square_block(self@[face as int]),
            decreases 3 - row,
        {
            self.push_square_line(text, face, row);
            proof {
                reveal(square_block);
                let line0 = square_line(self@[face as int], 0);
                let line1 = square_line(self@[face as int], 1);
                let line2 = square_line(self@[face as int], 2);
                assert(start + line0 + line1 + line2 =~= start + (line0 + line1 + line2));
            }
            row += 1;
        }
    }

    /// The cube in coloured blocks, laid flat.
    pub fn format_colored(&self) -> (text: String)
        ensures
            text@ == square_text(self@),
    {
        let mut result = String::new();
        self.push_square_block(&mut result, 0);
        let ghost top = result@;
        let mut row: usize = 0;
        while row < 3
            invariant
                row <= 3,
                row == 0 ==> result@ == top,
                row == 1 ==> result@ == top + square_band(self@, 0),
                row == 2 ==> result@ == top + square_band(self@, 0) + square_band(self@, 1),
                row == 3 ==> result@ == top + (square_band(self@, 0) + square_band(self@, 1)
                    + square_band(self@, 2)),
            decreases 3 - row,
        {
            self.push_square_band(&mut result, row);
            proof {
                let band0 = square_band(self@, 0);
                let band1 = square_band(self@, 1);
                let band2 = square_band(self@, 2);
                assert(top + band0 + band1 + band2 =~= top + (band0 + band1 + band2));
            }
            row += 1;
        }
        self.push_square_block(&mut result, 5);
        assert(result@ =~= square_text(self@));
        result
    }

    /// The cube in letters, laid flat.
    pub fn to_text(&self) -> (text: String)
        ensures
            text@ == letter_text(self@),
    {
        let mut result = String::new();
        self.push_letter_block(&mut result, 0);
        let ghost top = result@;
        let mut row: usize = 0;
        while row < 3
            invariant
                row <= 3,
                row == 0 ==> result@ == top,
                row == 1 ==> result@ == top + letter_band(self@, 0),
                row == 2 ==> result@ == top + letter_band(self@, 0) + letter_band(self@, 1),
                row == 3 ==> result@ == top + (letter_band(self@, 0) + letter_band(self@, 1)
                    + letter_band(self@, 2)),
            decreases 3 - row,
        {
            self.push_letter_band(&mut result, row);
            proof {
                let band0 = letter_band(self@, 0);
                let band1 = letter_band(self@, 1);
                let band2 = letter_band(self@, 2);
                assert(top + band0 + band1 + band2 =~= top + (band0 + band1 + band2));
            }
            row += 1;
        }
        self.push_letter_block(&mut result, 5);
        self.push_letter_block(&mut result, 4);
        assert(result@ =~= letter_text(self@));
        result
    }
}

} // verus!

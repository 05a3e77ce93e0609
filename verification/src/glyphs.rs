//! The fixed palette of glyphs that trail heads draw from.

use crate::GLYPH_COUNT;
use vstd::prelude::*;

verus! {

/// The glyph at a given position of the fixed 80-character palette: the
/// lower-case letters, the upper-case letters, then a fixed run of
/// punctuation.  Positions outside the palette map to a blank.
pub open spec fn glyph_spec(i: int) -> char {
    if i == 0 { 'a' }
    else if i == 1 { 'b' }
    else if i == 2 { 'c' }
    else if i == 3 { 'd' }
    else if i == 4 { 'e' }
    else if i == 5 { 'f' }
    else if i == 6 { 'g' }
    else if i == 7 { 'h' }
    else if i == 8 { 'i' }
    else if i == 9 { 'j' }
    else if i == 10 { 'k' }
    else if i == 11 { 'l' }
    else if i == 12 { 'm' }
    else if i == 13 { 'n' }
    else if i == 14 { 'o' }
    else if i == 15 { 'p' }
    else if i == 16 { 'q' }
    else if i == 17 { 'r' }
    else if i == 18 { 's' }
    else if i == 19 { 't' }
    else if i == 20 { 'u' }
    else if i == 21 { 'v' }
    else if i == 22 { 'w' }
    else if i == 23 { 'x' }
    else if i == 24 { 'y' }
    else if i == 25 { 'z' }
    else if i == 26 { 'A' }
    else if i == 27 { 'B' }
    else if i == 28 { 'C' }
    else if i == 29 { 'D' }
    else if i == 30 { 'E' }
    else if i == 31 { 'F' }
    else if i == 32 { 'G' }
    else if i == 33 { 'H' }
    else if i == 34 { 'I' }
    else if i == 35 { 'J' }
    else if i == 36 { 'K' }
    else if i == 37 { 'L' }
    else if i == 38 { 'M' }
    else if i == 39 { 'N' }
    else if i == 40 { 'O' }
    else if i == 41 { 'P' }
    else if i == 42 { 'Q' }
    else if i == 43 { 'R' }
    else if i == 44 { 'S' }
    else if i == 45 { 'T' }
    else if i == 46 { 'U' }
    else if i == 47 { 'V' }
    else if i == 48 { 'W' }
    else if i == 49 { 'X' }
    else if i == 50 { 'Y' }
    else if i == 51 { 'Z' }
    else if i == 52 { '!' }
    else if i == 53 { '@' }
    else if i == 54 { '#' }
    else if i == 55 { '$' }
    else if i == 56 { '%' }
    else if i == 57 { '^' }
    else if i == 58 { '&' }
    else if i == 59 { '*' }
    else if i == 60 { '(' }
    else if i == 61 { ')' }
    else if i == 62 { '-' }
    else if i == 63 { '_' }
    else if i == 64 { '+' }
    else if i == 65 { '=' }
    else if i == 66 { '{' }
    else if i == 67 { '[' }
    else if i == 68 { '}' }
    else if i == 69 { ']' }
    else if i == 70 { '|' }
    else if i == 71 { '\\' }
    else if i == 72 { '<' }
    else if i == 73 { ',' }
    else if i == 74 { '>' }
    else if i == 75 { '.' }
    else if i == 76 { '?' }
    else if i == 77 { '/' }
    else if i == 78 { '"' }
    else { '\'' }
}

/// The whole palette as a sequence.
pub open spec fn glyph_palette() -> Seq<char> {
    Seq::new(GLYPH_COUNT as nat, |i: int| glyph_spec(i))
}

/// The glyph stored at position `i` of the palette.
pub fn glyph_at(i: u16) -> (c: char)
    requires
        i < GLYPH_COUNT,
    ensures
        c == glyph_palette()[i as int],
{
    let c = match i {
            0 => 'a',
            1 => 'b',
            2 => 'c',
            3 => 'd',
            4 => 'e',
            5 => 'f',
            6 => 'g',
            7 => 'h',
            8 => 'i',
            9 => 'j',
            10 => 'k',
            11 => 'l',
            12 => 'm',
            13 => 'n',
            14 => 'o',
            15 => 'p',
            16 => 'q',
            17 => 'r',
            18 => 's',
            19 => 't',
            20 => 'u',
            21 => 'v',
            22 => 'w',
            23 => 'x',
            24 => 'y',
            25 => 'z',
            26 => 'A',
            27 => 'B',
            28 => 'C',
            29 => 'D',
            30 => 'E',
            31 => 'F',
            32 => 'G',
            33 => 'H',
            34 => 'I',
            35 => 'J',
            36 => 'K',
            37 => 'L',
            38 => 'M',
            39 => 'N',
            40 => 'O',
            41 => 'P',
            42 => 'Q',
            43 => 'R',
            44 => 'S',
            45 => 'T',
            46 => 'U',
            47 => 'V',
            48 => 'W',
            49 => 'X',
            50 => 'Y',
            51 => 'Z',
            52 => '!',
            53 => '@',
            54 => '#',
            55 => '$',
            56 => '%',
            57 => '^',
            58 => '&',
            59 => '*',
            60 => '(',
            61 => ')',
            62 => '-',
            63 => '_',
            64 => '+',
            65 => '=',
            66 => '{',
            67 => '[',
            68 => '}',
            69 => ']',
            70 => '|',
            71 => '\\',
            72 => '<',
            73 => ',',
            74 => '>',
            75 => '.',
            76 => '?',
            77 => '/',
            78 => '"',
            79 => '\'',
            _ => ' ',
        };
    proof {
        assert(glyph_palette()[i as int] == glyph_spec(i as int));
    }
    c
}

} // verus!

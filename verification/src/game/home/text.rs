//! Text on an overlay layer: the character set, boxes and strings.

use vstd::prelude::*;
use vstd::string::StrSliceExecFns;
use crate::gpu::layer::{cell_index, Layer, LayerModel};

verus! {

/// The tile of the cursor that marks the selected item.
pub const SELECTED_ITEM: u8 = 0xED;

/// The blank tile.
pub const EMPTY: u8 = 0x7F;

pub const BOX_TOP_LEFT: u8 = 0x79;

pub const BOX_HORIZONTAL: u8 = 0x7A;

pub const BOX_TOP_RIGHT: u8 = 0x7B;

pub const BOX_VERTICAL: u8 = 0x7C;

pub const BOX_BOTTOM_LEFT: u8 = 0x7D;

pub const BOX_BOTTOM_RIGHT: u8 = 0x7E;

/// Why a string was not placed.
#[derive(Clone, Copy, Debug, PartialEq, Eq, Structural)]
pub enum TextError {
    /// The string does not fit between its first cell and the right edge,
    /// or its row is not on the layer.
    OutOfBounds,
    /// The character set has no tile for this character.
    NoTile(char),
}

/// The tile that shows `c`, where the character set has one: capital
/// letters from 0x80, small letters from 0xA0, digits from 0xF6, and a
/// few signs.
pub open spec fn tile_of(c: char) -> Option<u8> {
    if 'A' <= c && c <= 'Z' {
        Some((0x80 + (c as u32 - 'A' as u32)) as u8)
    } else if 'a' <= c && c <= 'z' {
        Some((0xA0 + (c as u32 - 'a' as u32)) as u8)
    } else if '0' <= c && c <= '9' {
        Some((0xF6 + (c as u32 - '0' as u32)) as u8)
    } else if c == ' ' {
        Some(0x7Fu8)
    } else if c == '(' {
        Some(0x9Au8)
    } else if c == ')' {
        Some(0x9Bu8)
    } else if c == ':' {
        Some(0x9Cu8)
    } else if c == ';' {
        Some(0x9Du8)
    } else if c == '[' {
        Some(0x9Eu8)
    } else if c == ']' {
        Some(0x9Fu8)
    } else if c == '\u{e9}' {
        Some(0xBAu8)
    } else if c == '\'' {
        Some(0xE0u8)
    } else if c == '-' {
        Some(0xE3u8)
    } else if c == '?' {
        Some(0xE6u8)
    } else if c == '!' {
        Some(0xE7u8)
    } else if c == '.' {
        Some(0xE8u8)
    } else if c == '/' {
        Some(0xF3u8)
    } else if c == ',' {
        Some(0xF4u8)
    } else {
        None
    }
}

/// The letter or digit that a byte of a name stands for, if it is one.
pub open spec fn name_char_of(byte: u8) -> Option<char> {
    if 0x80 <= byte <= 0x99 {
        Some(('A' as u8 + (byte - 0x80)) as char)
    } else if 0xA0 <= byte <= 0xB9 {
        Some(('a' as u8 + (byte - 0xA0)) as char)
    } else if 0xF6 <= byte {
        Some(('0' as u8 + (byte - 0xF6)) as char)
    } else {
        None
    }
}

/// The tile of a letter or digit stands for that letter or digit.
pub proof fn lemma_name_chars_round_trip(c: char)
    requires
        ('A' <= c && c <= 'Z') || ('a' <= c && c <= 'z') || ('0' <= c && c <= '9'),
    ensures
        tile_of(c) matches Some(tile) && name_char_of(tile) == Some(c),
{
}

/// The tile that shows `c`.
pub fn tile_for(c: char) -> (out: Option<u8>)
    ensures
        out == tile_of(c),
{
    if 'A' <= c && c <= 'Z' {
        Some((0x80 + (c as u32 - 'A' as u32)) as u8)
    } else if 'a' <= c && c <= 'z' {
        Some((0xA0 + (c as u32 - 'a' as u32)) as u8)
    } else if '0' <= c && c <= '9' {
        Some((0xF6 + (c as u32 - '0' as u32)) as u8)
    } else if c == ' ' {
        Some(0x7F)
    } else if c == '(' {
        Some(0x9A)
    } else if c == ')' {
        Some(0x9B)
    } else if c == ':' {
        Some(0x9C)
    } else if c == ';' {
        Some(0x9D)
    } else if c == '[' {
        Some(0x9E)
    } else if c == ']' {
        Some(0x9F)
    } else if c == '\u{e9}' {
        Some(0xBA)
    } else if c == '\'' {
        Some(0xE0)
    } else if c == '-' {
        Some(0xE3)
    } else if c == '?' {
        Some(0xE6)
    } else if c == '!' {
        Some(0xE7)
    } else if c == '.' {
        Some(0xE8)
    } else if c == '/' {
        Some(0xF3)
    } else if c == ',' {
        Some(0xF4)
    } else {
        None
    }
}

/// The letter or digit that a byte of a name stands for.
pub fn name_char(byte: u8) -> (out: Option<char>)
    ensures
        out == name_char_of(byte),
{
    if 0x80 <= byte && byte <= 0x99 {
        Some(('A' as u8 + (byte - 0x80)) as char)
    } else if 0xA0 <= byte && byte <= 0xB9 {
        Some(('a' as u8 + (byte - 0xA0)) as char)
    } else if 0xF6 <= byte {
        Some(('0' as u8 + (byte - 0xF6)) as char)
    } else {
        None
    }
}

/// `String::push` of std: the string grows by the one character.
#[verifier::external_body]
pub(crate) fn push_char(s: &mut String, c: char)
    ensures
        final(s)@ == old(s)@.push(c),
{
    s.push(c);
}

/// The tile that a box of `w` by `h` inner cells, with its top left corner
/// at (`x`, `y`), puts at cell (`cx`, `cy`): corners, edges, and blanks
/// inside; nothing outside the box.
pub open spec fn box_tile(x: int, y: int, w: int, h: int, cx: int, cy: int) -> Option<u8> {
    if x <= cx <= x + w + 1 && y <= cy <= y + h + 1 {
        let left = cx == x;
        let right = cx == x + w + 1;
        Some(
            if cy == y {
                if left {
                    BOX_TOP_LEFT
                } else if right {
                    BOX_TOP_RIGHT
                } else {
                    BOX_HORIZONTAL
                }
            } else if cy == y + h + 1 {
                if left {
                    BOX_BOTTOM_LEFT
                } else if right {
                    BOX_BOTTOM_RIGHT
                } else {
                    BOX_HORIZONTAL
                }
            } else if left || right {
                BOX_VERTICAL
            } else {
                EMPTY
            },
        )
    } else {
        None
    }
}

/// The layer with a box drawn on it.
pub open spec fn with_box(l: LayerModel, x: int, y: int, w: int, h: int) -> LayerModel {
    LayerModel {
        cells: Seq::new(
            360,
            |i: int|
                match box_tile(x, y, w, h, i % 20, i / 20) {
                    Some(tile) => Some(tile),
                    None => l.cells[i],
                },
        ),
    }
}

/// Whether a box of `w` by `h` inner cells at (`x`, `y`) lies on the
/// layer.
pub open spec fn box_fits(x: int, y: int, w: int, h: int) -> bool {
    0 <= x && 0 <= y && 0 <= w && 0 <= h && x + w + 2 <= 20 && y + h + 2 <= 18
}

/// Draws a box with `w` by `h` inner cells, its top left corner at
/// (`x`, `y`). The inside is blanked.
pub fn text_box_border(layer: &mut Layer, x: usize, y: usize, w: usize, h: usize)
    requires
        old(layer)@.wf(),
        box_fits(x as int, y as int, w as int, h as int),
    ensures
        final(layer)@ == with_box(old(layer)@, x as int, y as int, w as int, h as int),
        final(layer)@.wf(),
{
    let mut cy: usize = y;
    while cy < y + h + 2
        invariant
            box_fits(x as int, y as int, w as int, h as int),
            y <= cy <= y + h + 2,
            layer@.wf(),
            forall|i: int|
                0 <= i < 360 ==> #[trigger] layer@.cells[i] == if i / 20 < cy {
                    with_box(old(layer)@, x as int, y as int, w as int, h as int).cells[i]
                } else {
                    old(layer)@.cells[i]
                },
        decreases y + h + 2 - cy,
    {
        let mut cx: usize = x;
        while cx < x + w + 2
            invariant
                box_fits(x as int, y as int, w as int, h as int),
                y <= cy < y + h + 2,
                x <= cx <= x + w + 2,
                layer@.wf(),
                forall|i: int|
                    0 <= i < 360 ==> #[trigger] layer@.cells[i] == if i / 20 < cy || (i / 20 == cy
                        && i % 20 < cx) {
                        with_box(old(layer)@, x as int, y as int, w as int, h as int).cells[i]
                    } else {
                        old(layer)@.cells[i]
                    },
            decreases x + w + 2 - cx,
        {
            let left: bool = cx == x;
            let right: bool = cx == x + w + 1;
            let tile: u8 = if cy == y {
                if left {
                    BOX_TOP_LEFT
                } else if right {
                    BOX_TOP_RIGHT
                } else {
                    BOX_HORIZONTAL
                }
            } else if cy == y + h + 1 {
                if left {
                    BOX_BOTTOM_LEFT
                } else if right {
                    BOX_BOTTOM_RIGHT
                } else {
                    BOX_HORIZONTAL
                }
            } else if left || right {
                BOX_VERTICAL
            } else {
                EMPTY
            };
            layer.set_background(cx, cy, tile);
            proof {
                assert(cell_index(cx as int, cy as int) == cy * 20 + cx);
                assert forall|i: int| 0 <= i < 360 implies #[trigger] layer@.cells[i] == if i / 20
                    < cy || (i / 20 == cy && i % 20 < cx + 1) {
                    with_box(old(layer)@, x as int, y as int, w as int, h as int).cells[i]
                } else {
                    old(layer)@.cells[i]
                } by {
                    if i == cy * 20 + cx {
                        assert(i / 20 == cy && i % 20 == cx);
                    } else {
                        assert(!(i / 20 == cy && i % 20 == cx));
                    }
                }
            }
            cx += 1;
        }
        proof {
            assert forall|i: int| 0 <= i < 360 implies #[trigger] layer@.cells[i] == if i / 20 < cy
                + 1 {
                with_box(old(layer)@, x as int, y as int, w as int, h as int).cells[i]
            } else {
                old(layer)@.cells[i]
            } by {
                if i / 20 == cy && !(i % 20 < x + w + 2) {
                    assert(box_tile(x as int, y as int, w as int, h as int, i % 20, i / 20).is_none());
                }
            }
        }
        cy += 1;
    }
    assert(layer@.cells =~= with_box(old(layer)@, x as int, y as int, w as int, h as int).cells);
}

/// The tiles of the characters of `text`, where each has one.
pub open spec fn tiles_of(text: Seq<char>) -> Option<Seq<u8>>
    decreases text.len(),
{
    if text.len() == 0 {
        Some(Seq::empty())
    } else {
        match (tiles_of(text.drop_last()), tile_of(text.last())) {
            (Some(tiles), Some(tile)) => Some(tiles.push(tile)),
            _ => None,
        }
    }
}

/// The first character of `text` that has no tile, if there is one.
pub open spec fn first_without_tile(text: Seq<char>) -> Option<char>
    decreases text.len(),
{
    if text.len() == 0 {
        None
    } else {
        match first_without_tile(text.drop_last()) {
            Some(c) => Some(c),
            None => if tile_of(text.last()).is_none() {
                Some(text.last())
            } else {
                None
            },
        }
    }
}

/// The layer with the tiles `tiles` in row `y`, the first at column `x`.
pub open spec fn with_tiles(l: LayerModel, x: int, y: int, tiles: Seq<u8>) -> LayerModel {
    LayerModel {
        cells: Seq::new(
            360,
            |i: int|
                if i / 20 == y && x <= i % 20 < x + tiles.len() {
                    Some(tiles[i % 20 - x])
                } else {
                    l.cells[i]
                },
        ),
    }
}

/// Why `text` cannot be placed at (`x`, `y`), if it cannot.
pub open spec fn text_fault(x: int, y: int, text: Seq<char>) -> Option<TextError> {
    if !(0 <= y < 18 && 0 <= x && x + text.len() <= 20) {
        Some(TextError::OutOfBounds)
    } else {
        match first_without_tile(text) {
            Some(c) => Some(TextError::NoTile(c)),
            None => None,
        }
    }
}

/// A text has tiles exactly if none of its characters lacks one, and then
/// as many as it has characters.
pub proof fn lemma_tiles_of(text: Seq<char>)
    ensures
        tiles_of(text).is_some() == first_without_tile(text).is_none(),
        tiles_of(text) matches Some(tiles) ==> tiles.len() == text.len() && forall|i: int|
            0 <= i < text.len() ==> tile_of(text[i]) == Some(#[trigger] tiles[i]),
    decreases text.len(),
{
    if text.len() > 0 {
        lemma_tiles_of(text.drop_last());
    }
}

/// Writes `text` into row `y`, its first character at column `x`. Where
/// the text does not fit or a character has no tile the layer stays as it
/// is.
pub fn place_string(layer: &mut Layer, x: usize, y: usize, text: &str) -> (out: Result<
    (),
    TextError,
>)
    requires
        old(layer)@.wf(),
    ensures
        match text_fault(x as int, y as int, text@) {
            Some(e) => out == Err::<(), TextError>(e) && final(layer)@ == old(layer)@,
            None => out.is_ok() && final(layer)@ == with_tiles(
                old(layer)@,
                x as int,
                y as int,
                tiles_of(text@).unwrap(),
            ),
        },
        final(layer)@.wf(),
{
    let len: usize = text.unicode_len();
    if y >= 18 || x > 20 || len > 20 - x {
        return Err(TextError::OutOfBounds);
    }
    let mut tiles: Vec<u8> = Vec::new();
    let mut i: usize = 0;
    while i < len
        invariant
            len == text@.len(),
            i <= len,
            y < 18,
            x + len <= 20,
            layer@ == old(layer)@,
            layer@.wf(),
            first_without_tile(text@.take(i as int)).is_none(),
            tiles_of(text@.take(i as int)) == Some(tiles@),
        decreases len - i,
    {
        let c: char = text.get_char(i);
        proof {
            assert(text@.take(i + 1).drop_last() =~= text@.take(i as int));
            assert(text@.take(i + 1).last() == c);
        }
        match tile_for(c) {
            Some(tile) => {
                tiles.push(tile);
            },
            None => {
                proof {
                    assert(first_without_tile(text@.take(i + 1)) == Some(c));
                    lemma_first_without_tile_extends(text@, (i + 1) as int);
                }
                return Err(TextError::NoTile(c));
            },
        }
        i += 1;
    }
    proof {
        assert(text@.take(len as int) =~= text@);
        lemma_tiles_of(text@);
    }
    let mut k: usize = 0;
    while k < len
        invariant
            layer@.wf(),
            old(layer)@.wf(),
            y < 18,
            x + len <= 20,
            k <= len,
            tiles@.len() == len,
            forall|i: int|
                0 <= i < 360 ==> #[trigger] layer@.cells[i] == if i / 20 == y && x <= i % 20 < x
                    + k {
                    Some(tiles@[i % 20 - x])
                } else {
                    old(layer)@.cells[i]
                },
        decreases len - k,
    {
        layer.set_background(x + k, y, tiles[k]);
        proof {
            assert(cell_index((x + k) as int, y as int) == y * 20 + x + k);
            assert forall|i: int| 0 <= i < 360 implies #[trigger] layer@.cells[i] == if i / 20 == y
                && x <= i % 20 < x + k + 1 {
                Some(tiles@[i % 20 - x])
            } else {
                old(layer)@.cells[i]
            } by {
                if i == y * 20 + x + k {
                    assert(i / 20 == y && i % 20 == x + k);
                } else {
                    assert(!(i / 20 == y && i % 20 == x + k));
                }
            }
        }
        k += 1;
    }
    assert(layer@.cells =~= with_tiles(old(layer)@, x as int, y as int, tiles@).cells);
    Ok(())
}

/// The first character without a tile in a prefix is the first one in the
/// whole text.
pub proof fn lemma_first_without_tile_extends(text: Seq<char>, n: int)
    requires
        0 <= n <= text.len(),
        first_without_tile(text.take(n)).is_some(),
    ensures
        first_without_tile(text) == first_without_tile(text.take(n)),
    decreases text.len() - n,
{
    if n < text.len() {
        assert(text.take(n + 1).drop_last() =~= text.take(n));
        lemma_first_without_tile_extends(text, n + 1);
    } else {
        assert(text.take(n) =~= text);
    }
}

} // verus!

//! A bitmap font: where each glyph lies on the sheet, and where the cursor
//! stands after a text was laid out.

use vstd::prelude::*;
use vstd::string::*;

verus! {

/// How the glyphs are arranged on the sheet.
#[derive(PartialEq, Eq, Debug)]
pub enum FontArrangment {
    /// One glyph for each code of the code page, in the order of the codes.
    ASCII,
}

/// A font whose glyphs all have the size `glyph_size` (width, height) and lie
/// on a sheet that is `sheet_width` wide.
#[derive(Debug)]
pub struct Font {
    pub arrangment: FontArrangment,
    pub glyph_size: (usize, usize),
    pub sheet_width: usize,
}

impl Font {
    /// Where the cursor stands after the one character `c` was laid out from
    /// `pos`. A newline starts a new line at `origin`; a tab moves four glyphs
    /// to the right, any other character one glyph. Where no further glyph
    /// fits left of `right_bound` after that, a new line is started.
    pub open spec fn advance(self, origin: int, right_bound: int, pos: (int, int), c: char) -> (
        int,
        int,
    ) {
        let moved = self.moved(origin, pos, c);
        if moved.0 + self.glyph_size.0 > right_bound {
            (origin, moved.1 + self.glyph_size.1)
        } else {
            moved
        }
    }

    /// Where the one character `c` moves the cursor from `pos`, before it is
    /// seen whether a further glyph fits on the line.
    pub open spec fn moved(self, origin: int, pos: (int, int), c: char) -> (int, int) {
        if c == '\n' {
            (origin, pos.1 + self.glyph_size.1)
        } else if c == '\t' {
            (pos.0 + self.glyph_size.0 * 4, pos.1)
        } else {
            (pos.0 + self.glyph_size.0, pos.1)
        }
    }

    /// Whether a glyph is drawn for `c`: none is drawn for a carriage return,
    /// a newline or a tab.
    pub open spec fn draws(c: char) -> bool {
        c != '\r' && c != '\n' && c != '\t'
    }

    /// Where drawing `c` moves the cursor from `pos`, before it is seen
    /// whether a further glyph fits on the line. It is where laying out `c`
    /// moves it, but that a carriage return moves nothing.
    pub open spec fn drawn_move(self, origin: int, pos: (int, int), c: char) -> (int, int) {
        if c == '\r' {
            pos
        } else {
            self.moved(origin, pos, c)
        }
    }

    /// Where the cursor stands after `c` was drawn at `pos`.
    pub open spec fn drawn_advance(self, origin: int, right_bound: int, pos: (int, int), c: char) -> (
        int,
        int,
    ) {
        let moved = self.drawn_move(origin, pos, c);
        if moved.0 + self.glyph_size.0 > right_bound {
            (origin, moved.1 + self.glyph_size.1)
        } else {
            moved
        }
    }

    /// Whether the cursor can be moved over `c` from `pos` in 32-bit
    /// arithmetic while `c` is drawn.
    pub open spec fn draw_fits(self, origin: int, right_bound: int, pos: (int, int), c: char) -> bool {
        let moved = self.drawn_move(origin, pos, c);
        let end = self.drawn_advance(origin, right_bound, pos, c);
        &&& self.glyph_size.0 <= i32::MAX
        &&& self.glyph_size.1 <= i32::MAX
        &&& c == '\t' ==> self.glyph_size.0 * 4 <= i32::MAX
        &&& i32::MIN <= moved.0 <= i32::MAX
        &&& i32::MIN <= moved.1 <= i32::MAX
        &&& i32::MIN <= moved.0 + self.glyph_size.0 <= i32::MAX
        &&& i32::MIN <= end.1 <= i32::MAX
    }

    /// Where the cursor stands after `text` was laid out from `(x, y)`, with
    /// lines that start at `x` and end at `right_bound`.
    pub open spec fn layout(self, x: int, y: int, right_bound: int, text: Seq<char>) -> (int, int)
        decreases text.len(),
    {
        if text.len() == 0 {
            (x, y)
        } else {
            self.advance(x, right_bound, self.layout(x, y, right_bound, text.drop_last()), text.last())
        }
    }

    /// Whether the cursor can be moved over `c` from `pos` in 32-bit
    /// arithmetic: the size of a glyph, each sum that is formed on the way and
    /// the place that is reached are in the range of `i32`.
    pub open spec fn step_fits(self, origin: int, right_bound: int, pos: (int, int), c: char) -> bool {
        let moved = self.moved(origin, pos, c);
        let end = self.advance(origin, right_bound, pos, c);
        &&& self.glyph_size.0 <= i32::MAX
        &&& self.glyph_size.1 <= i32::MAX
        &&& c == '\t' ==> self.glyph_size.0 * 4 <= i32::MAX
        &&& i32::MIN <= moved.0 <= i32::MAX
        &&& i32::MIN <= moved.1 <= i32::MAX
        &&& i32::MIN <= moved.0 + self.glyph_size.0 <= i32::MAX
        &&& i32::MIN <= end.1 <= i32::MAX
    }

    /// Whether `text` can be laid out from `(x, y)` in 32-bit arithmetic.
    pub open spec fn layout_fits(self, x: int, y: int, right_bound: int, text: Seq<char>) -> bool {
        forall|k: int|
            0 <= k < text.len() ==> self.step_fits(
                x,
                right_bound,
                #[trigger] self.layout(x, y, right_bound, text.take(k)),
                text[k],
            )
    }

    /// Where on the sheet the glyph number `offset` lies.
    pub open spec fn offset_of(self, offset: int) -> (int, int) {
        (
            (offset * self.glyph_size.0) % (self.sheet_width + 1),
            ((offset * self.glyph_size.0) / (self.sheet_width as int)) * self.glyph_size.1,
        )
    }

    /// Whether the place of the glyph number `offset` can be computed: the
    /// sheet has a width, and no product leaves the range of `usize`.
    pub open spec fn offset_fits(self, offset: int) -> bool {
        &&& 0 < self.sheet_width < usize::MAX
        &&& offset * self.glyph_size.0 <= usize::MAX
        &&& ((offset * self.glyph_size.0) / (self.sheet_width as int)) * self.glyph_size.1
            <= usize::MAX
    }

    /// Lays out `string` from `(x, y)`, with lines that start at `x` and end
    /// at `right_bound`, and returns where the cursor stands after it.
    pub fn get_size_from_string(&self, x: i32, y: i32, right_bound: i32, string: &str) -> (end: (
        i32,
        i32,
    ))
        requires
            self.layout_fits(x as int, y as int, right_bound as int, string@),
        ensures
            (end.0 as int, end.1 as int) == self.layout(
                x as int,
                y as int,
                right_bound as int,
                string@,
            ),
    {
        let width = #[verifier::truncate] (self.glyph_size.0 as i32);
        let height = #[verifier::truncate] (self.glyph_size.1 as i32);
        proof {
            if string@.len() > 0 {
                let start = self.layout(x as int, y as int, right_bound as int, string@.take(0));
                assert(self.step_fits(x as int, right_bound as int, start, string@[0]));
            }
        }
        let mut mutx = x;
        let mut muty = y;
        for chr in it: string.chars()
            invariant
                it.seq() == string@,
                string@.len() > 0 ==> width == self.glyph_size.0 && height == self.glyph_size.1,
                self.layout_fits(x as int, y as int, right_bound as int, string@),
                (mutx as int, muty as int) == self.layout(
                    x as int,
                    y as int,
                    right_bound as int,
                    string@.take(it.index() as int),
                ),
        {
            proof {
                let k = it.index() as int;
                let before = self.layout(x as int, y as int, right_bound as int, string@.take(k));
                assert(self.step_fits(x as int, right_bound as int, before, string@[k]));
                assert(string@.take(k + 1).drop_last() =~= string@.take(k));
                assert(string@.take(k + 1).last() == string@[k]);
            }
            if chr == '\n' {
                muty = muty + height;
                mutx = x;
            } else if chr == '\t' {
                mutx = mutx + width * 4;
            } else {
                mutx = mutx + width;
            }
            if mutx + width > right_bound {
                muty = muty + height;
                mutx = x;
            }
        }
        assert(string@.take(string@.len() as int) =~= string@);
        (mutx, muty)
    }

    /// Lays out `string` as [`Font::get_size_from_string`] does, if that can
    /// be done in 32-bit arithmetic, and tells so if not.
    pub fn checked_size_from_string(&self, x: i32, y: i32, right_bound: i32, string: &str) -> (end:
        Option<(i32, i32)>)
        ensures
            end is Some <==> self.layout_fits(x as int, y as int, right_bound as int, string@),
            end matches Some(e) ==> (e.0 as int, e.1 as int) == self.layout(
                x as int,
                y as int,
                right_bound as int,
                string@,
            ),
    {
        let mut mutx = x;
        let mut muty = y;
        for chr in it: string.chars()
            invariant
                it.seq() == string@,
                forall|k: int|
                    0 <= k < it.index() ==> self.step_fits(
                        x as int,
                        right_bound as int,
                        #[trigger] self.layout(
                            x as int,
                            y as int,
                            right_bound as int,
                            string@.take(k),
                        ),
                        string@[k],
                    ),
                (mutx as int, muty as int) == self.layout(
                    x as int,
                    y as int,
                    right_bound as int,
                    string@.take(it.index() as int),
                ),
        {
            let ghost k = it.index() as int;
            let ghost before = self.layout(x as int, y as int, right_bound as int, string@.take(k));
            proof {
                assert(string@.take(k + 1).drop_last() =~= string@.take(k));
                assert(string@.take(k + 1).last() == string@[k]);
            }
            if self.glyph_size.0 > 0x7fff_ffff || self.glyph_size.1 > 0x7fff_ffff {
                assert(!self.step_fits(x as int, right_bound as int, before, string@[k]));
                return None;
            }
            let width = self.glyph_size.0 as i64;
            let height = self.glyph_size.1 as i64;
            let moved: (i64, i64) = if chr == '\n' {
                (x as i64, muty as i64 + height)
            } else if chr == '\t' {
                (mutx as i64 + width * 4, muty as i64)
            } else {
                (mutx as i64 + width, muty as i64)
            };
            let end: (i64, i64) = if moved.0 + width > right_bound as i64 {
                (x as i64, moved.1 + height)
            } else {
                moved
            };
            if (chr == '\t' && width * 4 > 0x7fff_ffff) || moved.0 > 0x7fff_ffff || moved.1
                > 0x7fff_ffff || moved.0 + width > 0x7fff_ffff || end.1 > 0x7fff_ffff {
                assert(!self.step_fits(x as int, right_bound as int, before, string@[k]));
                return None;
            }
            assert(self.step_fits(x as int, right_bound as int, before, string@[k]));
            mutx = end.0 as i32;
            muty = end.1 as i32;
        }
        assert(string@.take(string@.len() as int) =~= string@);
        Some((mutx, muty))
    }

    /// One step of drawing a text: tells whether a glyph is to be drawn for
    /// `chr` at `pos`, and where the cursor stands after it, in lines that
    /// start at `x` and end at `right_bound`. Returns nothing where the step
    /// cannot be taken in 32-bit arithmetic.
    pub fn draw_step(&self, x: i32, right_bound: i32, pos: (i32, i32), chr: char) -> (step: Option<
        (bool, (i32, i32)),
    >)
        ensures
            step is Some <==> self.draw_fits(
                x as int,
                right_bound as int,
                (pos.0 as int, pos.1 as int),
                chr,
            ),
            step matches Some(s) ==> s.0 == Self::draws(chr) && (s.1.0 as int, s.1.1 as int)
                == self.drawn_advance(
                x as int,
                right_bound as int,
                (pos.0 as int, pos.1 as int),
                chr,
            ),
    {
        if self.glyph_size.0 > 0x7fff_ffff || self.glyph_size.1 > 0x7fff_ffff {
            return None;
        }
        let width = self.glyph_size.0 as i64;
        let height = self.glyph_size.1 as i64;
        let moved: (i64, i64) = if chr == '\r' {
            (pos.0 as i64, pos.1 as i64)
        } else if chr == '\n' {
            (x as i64, pos.1 as i64 + height)
        } else if chr == '\t' {
            (pos.0 as i64 + width * 4, pos.1 as i64)
        } else {
            (pos.0 as i64 + width, pos.1 as i64)
        };
        let end: (i64, i64) = if moved.0 + width > right_bound as i64 {
            (x as i64, moved.1 + height)
        } else {
            moved
        };
        if (chr == '\t' && width * 4 > 0x7fff_ffff) || moved.0 > 0x7fff_ffff || moved.1
            > 0x7fff_ffff || moved.0 + width > 0x7fff_ffff || end.1 > 0x7fff_ffff {
            return None;
        }
        Some((chr != '\r' && chr != '\n' && chr != '\t', (end.0 as i32, end.1 as i32)))
    }

    /// The place that [`Font::get_offset`] returns if it can be computed, and
    /// nothing if not.
    pub fn checked_offset(&self, offset: usize) -> (place: Option<(usize, usize)>)
        ensures
            place is Some <==> self.offset_fits(offset as int),
            place matches Some(p) ==> (p.0 as int, p.1 as int) == self.offset_of(offset as int),
    {
        if self.sheet_width == 0 || self.sheet_width == usize::MAX {
            return None;
        }
        assert(offset * self.glyph_size.0 <= 0xffff_ffff_ffff_ffff * 0xffff_ffff_ffff_ffff)
            by (nonlinear_arith)
            requires
                0 <= offset <= 0xffff_ffff_ffff_ffff,
                0 <= self.glyph_size.0 <= 0xffff_ffff_ffff_ffff,
        ;
        let across = offset as u128 * self.glyph_size.0 as u128;
        if across > usize::MAX as u128 {
            return None;
        }
        let rows = across / self.sheet_width as u128;
        assert(rows * self.glyph_size.1 <= 0xffff_ffff_ffff_ffff * 0xffff_ffff_ffff_ffff)
            by (nonlinear_arith)
            requires
                0 <= rows <= 0xffff_ffff_ffff_ffff,
                0 <= self.glyph_size.1 <= 0xffff_ffff_ffff_ffff,
        ;
        if rows * self.glyph_size.1 as u128 > usize::MAX as u128 {
            return None;
        }
        Some(self.get_offset(offset))
    }

    /// The rectangle that [`Font::get_glyph_rect`] returns if its place can
    /// be computed, and nothing if not.
    pub fn checked_glyph_rect(&self, code: u8) -> (rect: Option<(usize, usize, usize, usize)>)
        ensures
            rect is Some <==> self.offset_fits(code as int),
            rect matches Some(r) ==> (r.0 as int, r.1 as int) == self.offset_of(code as int)
                && r.2 == self.glyph_size.0 && r.3 == self.glyph_size.1,
    {
        match self.checked_offset(code as usize) {
            Some(_) => Some(self.get_glyph_rect(code)),
            None => None,
        }
    }

    /// Where on the sheet the glyph number `offset` lies.
    pub fn get_offset(&self, offset: usize) -> (place: (usize, usize))
        requires
            self.offset_fits(offset as int),
        ensures
            (place.0 as int, place.1 as int) == self.offset_of(offset as int),
    {
        let across = offset * self.glyph_size.0;
        (across % (self.sheet_width + 1), (across / self.sheet_width) * self.glyph_size.1)
    }

    /// The rectangle on the sheet that holds the glyph with the code `code`:
    /// where it lies, and its width and height.
    pub fn get_glyph_rect(&self, code: u8) -> (rect: (usize, usize, usize, usize))
        requires
            self.offset_fits(code as int),
        ensures
            (rect.0 as int, rect.1 as int) == self.offset_of(code as int),
            rect.2 == self.glyph_size.0,
            rect.3 == self.glyph_size.1,
    {
        match self.arrangment {
            FontArrangment::ASCII => {
                let a = self.get_offset(code as usize);
                let b = self.glyph_size;
                (a.0, a.1, b.0, b.1)
            },
        }
    }
}

} // verus!

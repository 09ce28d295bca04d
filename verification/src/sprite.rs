//! A sprite sheet and an animation played from it, one frame per tick.
//!
//! Both are generic over the type of the sheet's image, which they only carry:
//! the game stores a texture there, and nothing here looks inside it.

use vstd::prelude::*;

use crate::animation::{animation_frames, sprite_animation, Frame};

verus! {

/// An image cut into a grid of `rows` cells across and `cols` cells down.
#[derive(Clone)]
pub struct SpriteSheet<I> {
    pub image: I,
    pub rows: i32,
    pub cols: i32,
}

impl<I> SpriteSheet<I> {
    /// Builds a sheet from its image and its grid.
    pub fn new(image: I, rows: i32, cols: i32) -> (sheet: Self)
        ensures
            sheet.image == image,
            sheet.rows == rows,
            sheet.cols == cols,
    {
        SpriteSheet { image, rows, cols }
    }
}

/// An animation over the cells `first_frame .. last_frame` of one strip of a
/// sprite sheet, with a tick counter that selects the frame on show.
#[derive(Clone)]
pub struct AnimatedSprite<I> {
    anim: Vec<Frame>,
    sprite_sheet: SpriteSheet<I>,
    column: i32,
    first_frame: i32,
    last_frame: i32,
    tick: i32,
}

/// The tick that follows `tick`; after the greatest `i32` the count wraps
/// round to the least one.
pub open spec fn next_tick(tick: i32) -> i32 {
    if tick == i32::MAX {
        i32::MIN
    } else {
        (tick + 1) as i32
    }
}

/// The position, among `len` frames, of the frame shown at tick `tick`: the
/// tick, read as a `usize`, modulo `len`.
pub open spec fn frame_index(tick: i32, len: nat) -> int {
    (tick as usize) as int % (len as int)
}

impl<I> AnimatedSprite<I> {
    /// The frames of the animation, in the order they are shown.
    pub closed spec fn frames(self) -> Seq<Frame> {
        self.anim@
    }

    /// The tick counter.
    pub closed spec fn tick(self) -> i32 {
        self.tick
    }

    /// The sheet the frames are cut from.
    pub closed spec fn sheet(self) -> SpriteSheet<I> {
        self.sprite_sheet
    }

    /// The strip of the sheet that the animation plays.
    pub closed spec fn column(self) -> i32 {
        self.column
    }

    /// The bounds `first .. last` of the animation's range of cells.
    pub closed spec fn bounds(self) -> (i32, i32) {
        (self.first_frame, self.last_frame)
    }

    /// The frame on show, if the animation has any frame.
    pub open spec fn shown_frame(self) -> Option<Frame> {
        if self.frames().len() == 0 {
            None
        } else {
            Some(self.frames()[frame_index(self.tick(), self.frames().len())])
        }
    }

    /// Starts the animation of the cells `first .. last` of strip `column` of
    /// `sprite_sheet`, at tick 0.
    pub fn new(sprite_sheet: SpriteSheet<I>, column: i32, first: i32, last: i32) -> (s: Self)
        ensures
            s.frames() == animation_frames(
                sprite_sheet.rows,
                sprite_sheet.cols,
                first,
                last,
                column,
            ),
            s.tick() == 0,
            s.sheet() == sprite_sheet,
            s.column() == column,
            s.bounds() == (first, last),
    {
        let anim = sprite_animation(sprite_sheet.rows, sprite_sheet.cols, (first, last), column);
        AnimatedSprite {
            anim,
            sprite_sheet,
            column,
            first_frame: first,
            last_frame: last,
            tick: 0,
        }
    }

    /// Returns a clone of the sheet's image.
    pub fn sprite_sheet(&self) -> (image: I)
        where I: Clone
        ensures
            vstd::pervasive::strictly_cloned(self.sheet().image, image),
    {
        self.sprite_sheet.image.clone()
    }

    /// Returns the frames of the animation, in the order they are shown.
    pub fn get_frames(&self) -> (frames: Vec<Frame>)
        ensures
            frames@ == self.frames(),
    {
        let mut out: Vec<Frame> = Vec::new();
        let n = self.anim.len();
        let mut i: usize = 0;
        while i < n
            invariant
                n == self.anim@.len(),
                i <= n,
                out@ == self.anim@.subrange(0, i as int),
            decreases n - i,
        {
            out.push(self.anim[i]);
            i = i + 1;
            assert(out@ == self.anim@.subrange(0, i as int));
        }
        assert(self.anim@.subrange(0, n as int) == self.anim@);
        out
    }

    /// Takes one answer of the game's update timer: when an update is `due`,
    /// the tick counter moves on by one; otherwise nothing changes.
    ///
    /// Returns whether to ask the timer again, which is the case exactly when
    /// an update was due: the game keeps asking until no update is left.
    pub fn update(&mut self, due: bool) -> (ask_again: bool)
        ensures
            ask_again == due,
            final(self).tick() == if due { next_tick(old(self).tick()) } else { old(self).tick() },
            final(self).frames() == old(self).frames(),
            final(self).sheet() == old(self).sheet(),
            final(self).column() == old(self).column(),
            final(self).bounds() == old(self).bounds(),
    {
        if due {
            if self.tick == i32::MAX {
                self.tick = i32::MIN;
            } else {
                self.tick = self.tick + 1;
            }
        }
        due
    }

    /// The frame to draw now: the frame at position `tick mod n` of the `n`
    /// frames, the tick read as a `usize`; `None` when there is no frame.
    pub fn current_frame(&self) -> (frame: Option<Frame>)
        ensures
            frame == self.shown_frame(),
    {
        let n = self.anim.len();
        if n == 0 {
            None
        } else {
            let i = (self.tick as usize) % n;
            Some(self.anim[i])
        }
    }
}

/// A due update shows the next frame of the animation, and after the last
/// frame the first one again (while the tick counter is not negative and has
/// not reached its greatest value).
pub proof fn law_update_shows_next_frame<I>(before: AnimatedSprite<I>, after: AnimatedSprite<I>)
    requires
        before.frames().len() > 0,
        0 <= before.tick() < i32::MAX,
        after.frames() == before.frames(),
        after.tick() == next_tick(before.tick()),
    ensures
        frame_index(after.tick(), after.frames().len()) == (frame_index(
            before.tick(),
            before.frames().len(),
        ) + 1) % (before.frames().len() as int),
        after.shown_frame() == Some(
            before.frames()[(frame_index(before.tick(), before.frames().len()) + 1) % (
            before.frames().len() as int)],
        ),
{
    let n = before.frames().len() as int;
    let t = before.tick() as int;
    assert((t + 1) % n == (t % n + 1) % n) by {
        vstd::arithmetic::div_mod::lemma_add_mod_noop(t, 1, n);
        if n > 1 {
            vstd::arithmetic::div_mod::lemma_small_mod(1, n as nat);
        } else {
            assert(t % n == 0 && (t + 1) % n == 0 && (t % n + 1) % n == 0);
        }
    }
}

/// The frames repeat: `n` ticks later the same frame of `n` is on show (while
/// the tick counter stays between 0 and its greatest value).
pub proof fn law_frames_repeat(tick: i32, n: nat)
    requires
        n > 0,
        0 <= tick,
        tick + n <= i32::MAX,
    ensures
        frame_index((tick + n) as i32, n) == frame_index(tick, n),
{
    let t = tick as int;
    assert((t + n) % (n as int) == t % (n as int)) by {
        vstd::arithmetic::div_mod::lemma_mod_add_multiples_vanish(t, n as int);
    }
}

/// At tick `k` (not negative) an animation of the cells `first .. last`
/// shows cell `first + k mod (last - first)`; at tick 0, the cell `first`.
pub proof fn law_shown_cell<I>(s: AnimatedSprite<I>, first: i32, last: i32)
    requires
        first < last,
        s.frames() == animation_frames(s.sheet().rows, s.sheet().cols, first, last, s.column()),
        0 <= s.tick(),
    ensures
        s.shown_frame() == Some(
            Frame {
                index: (first + (s.tick() as int) % (last - first)) as i32,
                column: s.column(),
                rows: s.sheet().rows,
                cols: s.sheet().cols,
            },
        ),
        s.tick() == 0 ==> s.shown_frame() == Some(
            Frame { index: first, column: s.column(), rows: s.sheet().rows, cols: s.sheet().cols },
        ),
{
    let n = (last - first) as int;
    let t = s.tick() as int;
    assert(0 <= t % n < n) by {
        vstd::arithmetic::div_mod::lemma_mod_bound(t, n);
    }
    if t == 0 {
        vstd::arithmetic::div_mod::lemma_small_mod(0, n as nat);
    }
}

} // verus!

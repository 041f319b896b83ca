//! The scrolling window: which contiguous run of rendered lines is on screen.

use vstd::prelude::*;
use crate::path::{position_rank, rank_of, views};

verus! {

/// Lines taken by the top and bottom borders of the list panel.
pub const Y_PADDING: u16 = 2;

/// Inclusive bounds `[min, max]` of the visible line offsets, the number of
/// visible lines `size`, and the absolute index `pos` of the cursor.
#[derive(Clone, Copy, Debug, PartialEq, Eq, Structural)]
pub struct WindowBufferBounds {
    pub size: u16,
    pub min: u16,
    pub max: u16,
    pub pos: u16,
}

impl WindowBufferBounds {
    /// The window after taking the panel height: the size is the height
    /// without the borders, and a window that was never sized starts at the top.
    pub open spec fn sized(self, height: u16) -> WindowBufferBounds {
        let size = (height - Y_PADDING) as u16;
        if size > 0 && self.max == 0 {
            WindowBufferBounds { size, min: 0, max: (size - 1) as u16, pos: self.pos }
        } else {
            WindowBufferBounds { size, min: self.min, max: self.max, pos: self.pos }
        }
    }

    /// The cursor index that a recompute takes: zero on the first draw, the
    /// rank of the cursor otherwise.
    pub open spec fn target_pos(initial: bool, rank: int) -> int {
        if initial { 0 } else { rank }
    }

    /// The window with the cursor index replaced.
    pub open spec fn placed(self, pos: u16) -> WindowBufferBounds {
        WindowBufferBounds { size: self.size, min: self.min, max: self.max, pos }
    }

    /// Whether sliding the window to its cursor stays within `u16`.
    pub open spec fn slide_in_range(self) -> bool {
        if self.pos >= self.max {
            self.size >= 1 && self.pos >= self.size - 1
        } else if self.pos < self.min {
            self.size >= 1 && self.pos + (self.size - 1) <= u16::MAX
        } else {
            true
        }
    }

    /// The window slid by the least amount that shows the cursor: forward so
    /// that the cursor is the last line, or backward so that it is the first.
    pub open spec fn slid(self) -> WindowBufferBounds {
        if self.pos >= self.max {
            WindowBufferBounds {
                size: self.size,
                min: (self.pos - (self.size - 1)) as u16,
                max: self.pos,
                pos: self.pos,
            }
        } else if self.pos < self.min {
            WindowBufferBounds {
                size: self.size,
                min: self.pos,
                max: (self.pos + (self.size - 1)) as u16,
                pos: self.pos,
            }
        } else {
            self
        }
    }

    /// Whether a recompute with this height and cursor rank stays within `u16`.
    pub open spec fn can_set_size(self, height: u16, rank: int, initial: bool) -> bool {
        &&& height >= Y_PADDING
        &&& 0 <= Self::target_pos(initial, rank) <= u16::MAX
        &&& self.sized(height).placed(Self::target_pos(initial, rank) as u16).slide_in_range()
    }

    /// The window after a recompute with this height and cursor rank.
    pub open spec fn after_set_size(self, height: u16, rank: int, initial: bool) -> WindowBufferBounds {
        self.sized(height).placed(Self::target_pos(initial, rank) as u16).slid()
    }

    /// The cursor lies inside the window and the window is `size` lines long.
    pub open spec fn in_bounds(self) -> bool {
        self.min <= self.pos <= self.max && self.max - self.min + 1 == self.size
    }

    /// Whether a recompute leaves in place a window that was sized before and
    /// whose length is not the new size: a window is only ever replaced by
    /// its first sizing or by a slide.
    pub open spec fn keeps_stale_window(self, height: u16, rank: int, initial: bool) -> bool {
        let next = self.after_set_size(height, rank, initial);
        &&& self.max != 0
        &&& next.min == self.min
        &&& next.max == self.max
        &&& self.max - self.min + 1 != height - Y_PADDING
    }

    /// Windowing invariant: after a recompute that gives a size above zero,
    /// the cursor lies inside the window and the window is as long as the
    /// size, unless the recompute kept a window of another length in place;
    /// in that one case the window is not as long as the size.
    pub proof fn lemma_set_size_in_bounds(self, height: u16, rank: int, initial: bool)
        requires
            self.can_set_size(height, rank, initial),
            self.after_set_size(height, rank, initial).size > 0,
        ensures
            self.after_set_size(height, rank, initial).in_bounds() <==> !self.keeps_stale_window(
                height,
                rank,
                initial,
            ),
    {
    }

    /// A window that was never sized.
    pub fn init() -> (bounds: Self)
        ensures
            bounds == (WindowBufferBounds { size: 0, min: 0, max: 0, pos: 0 }),
    {
        WindowBufferBounds { size: 0, min: 0, max: 0, pos: 0 }
    }

    /// Recomputes the window for a panel of `size` rows and the cursor `pos`
    /// among `valid_pos`; `initial` forces the cursor index to zero. Returns
    /// whether any field changed.
    pub fn set_size(
        &mut self,
        size: u16,
        pos: &Vec<usize>,
        valid_pos: &Vec<Vec<usize>>,
        initial: bool,
    ) -> (changed: bool)
        requires
            old(self).can_set_size(size, rank_of(views(valid_pos@), pos@), initial),
        ensures
            *final(self) == old(self).after_set_size(size, rank_of(views(valid_pos@), pos@), initial),
            changed == (*final(self) != *old(self)),
            final(self).size > 0 && !old(self).keeps_stale_window(
                size,
                rank_of(views(valid_pos@), pos@),
                initial,
            ) ==> final(self).in_bounds(),
    {
        let before: WindowBufferBounds = *self;
        self.size = size - Y_PADDING;
        if self.size > 0 && self.max == 0 {
            self.min = 0;
            self.max = self.size - 1;
        }
        if initial {
            self.pos = 0;
        } else {
            let rank: usize = position_rank(valid_pos, pos);
            self.pos = rank as u16;
        }
        if self.pos >= self.max {
            self.max = self.pos;
            self.min = self.max - (self.size - 1);
        } else if self.pos < self.min {
            self.min = self.pos;
            self.max = self.min + (self.size - 1);
        }
        before.size != self.size || before.min != self.min || before.max != self.max || before.pos
            != self.pos
    }

    /// Whether `set_size` may be called with these arguments: whether its
    /// arithmetic stays within `u16`.
    pub fn fits(
        &self,
        size: u16,
        pos: &Vec<usize>,
        valid_pos: &Vec<Vec<usize>>,
        initial: bool,
    ) -> (ok: bool)
        ensures
            ok == self.can_set_size(size, rank_of(views(valid_pos@), pos@), initial),
    {
        if size < Y_PADDING {
            return false;
        }
        let new_size: u16 = size - Y_PADDING;
        let mut low: u16 = self.min;
        let mut high: u16 = self.max;
        if new_size > 0 && self.max == 0 {
            low = 0;
            high = new_size - 1;
        }
        let mut at: u16 = 0;
        if !initial {
            let rank: usize = position_rank(valid_pos, pos);
            if rank > 65535 {
                return false;
            }
            at = rank as u16;
        }
        if at >= high {
            new_size >= 1 && at >= new_size - 1
        } else if at < low {
            new_size >= 1 && new_size - 1 <= 65535 - at
        } else {
            true
        }
    }

    /// Whether the rendered line with 1-based number `line` is on screen.
    pub fn is_in_view(&self, line: u16) -> (visible: bool)
        ensures
            visible == (self.min < line && line <= self.max + 1),
    {
        line > self.min && line - 1 <= self.max
    }
}

} // verus!

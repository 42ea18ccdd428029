//! The arithmetic of cursor and scroll offset.
//!
//! A pane shows a window of `height + 1` rows of its listing. `scroll` is the
//! place in the listing of the window's first row, `cursor` the row of the
//! window that is selected; their sum is the selected place in the listing.

use vstd::prelude::*;

verus! {

/// The rows by which the window is shifted when the cursor would leave it.
pub const PAGE: usize = 10;

/// Where a pane looks: the selected row of the window and the window's start.
pub struct Place {
    pub cursor: int,
    pub scroll: int,
}

/// A movement of the cursor.
pub enum Move {
    Up(usize),
    Down(usize),
}

impl Place {
    /// The selected place in the listing.
    pub open spec fn absolute(self) -> int {
        self.scroll + self.cursor
    }

    /// Neither part is negative.
    pub open spec fn natural(self) -> bool {
        self.cursor >= 0 && self.scroll >= 0
    }

    /// The place selects an entry of a listing of `len` entries, through a
    /// window of `height + 1` rows.
    pub open spec fn valid(self, height: int, len: int) -> bool {
        self.natural() && self.cursor <= height && self.absolute() < len
    }

    /// Brings a place back into the listing: the window starts no later than
    /// at the last entry, and the cursor stays inside the window and selects
    /// nothing behind the last entry.
    pub open spec fn settled(self, height: int, len: int) -> Place {
        let last = last_index(len);
        let scroll = if self.scroll < last {
            self.scroll
        } else {
            last
        };
        let room = if height < last - scroll {
            height
        } else {
            last - scroll
        };
        Place {
            cursor: if self.cursor < room {
                self.cursor
            } else {
                room
            },
            scroll,
        }
    }

    /// The place after a movement down by `amount`: the cursor moves while it
    /// stays inside the window; else the window is shifted down by a page and
    /// the cursor up by as much, as far as it goes. Either way the place is
    /// then brought back into the listing.
    pub open spec fn down(self, amount: int, height: int, len: int) -> Place {
        if self.cursor + amount > height {
            Place {
                cursor: if self.cursor < PAGE {
                    0
                } else {
                    self.cursor - PAGE
                },
                scroll: self.scroll + PAGE,
            }.settled(height, len)
        } else {
            Place { cursor: self.cursor + amount, scroll: self.scroll }.settled(height, len)
        }
    }

    /// The place after a movement up by `amount`: the cursor moves while it
    /// stays inside the window, and stops at the first row where the window
    /// is at the top of the listing; else the window is shifted up by a page,
    /// as far as it goes, and the cursor down by a page. Either way the place
    /// is then brought back into the listing.
    pub open spec fn up(self, amount: int, height: int, len: int) -> Place {
        if self.cursor < amount && self.scroll > 0 {
            Place {
                cursor: self.cursor + PAGE,
                scroll: if self.scroll < PAGE {
                    0
                } else {
                    self.scroll - PAGE
                },
            }.settled(height, len)
        } else {
            Place {
                cursor: if self.cursor < amount {
                    0
                } else {
                    self.cursor - amount
                },
                scroll: self.scroll,
            }.settled(height, len)
        }
    }

    /// The place after one movement.
    pub open spec fn moved(self, step: Move, height: int, len: int) -> Place {
        match step {
            Move::Up(amount) => self.up(amount as int, height, len),
            Move::Down(amount) => self.down(amount as int, height, len),
        }
    }

    /// The place after a sequence of movements, first to last.
    pub open spec fn travelled(self, steps: Seq<Move>, height: int, len: int) -> Place
        decreases steps.len(),
    {
        if steps.len() == 0 {
            self
        } else {
            self.travelled(steps.drop_last(), height, len).moved(steps.last(), height, len)
        }
    }

    /// The place after a pane has made sure that it selects an entry: a place
    /// that selects one stays; any other becomes the last row that the window
    /// shows from the top of the listing, the first row where there is none.
    pub open spec fn clamped(self, height: int, len: int) -> Place {
        if 0 <= self.absolute() < len {
            self
        } else {
            Place {
                cursor: if height < last_index(len) {
                    height
                } else {
                    last_index(len)
                },
                scroll: 0,
            }
        }
    }
}

/// The place of the last entry in a listing of `len` entries, and 0 for the
/// empty listing.
pub open spec fn last_index(len: int) -> int {
    if len <= 0 {
        0
    } else {
        len - 1
    }
}

/// A settled place lies inside the listing.
pub proof fn lemma_settled_bounds(place: Place, height: int, len: int)
    requires
        place.natural(),
        height >= 0,
        len >= 0,
    ensures
        place.settled(height, len).natural(),
        place.settled(height, len).cursor <= height,
        place.settled(height, len).absolute() <= last_index(len),
        place.valid(height, len) ==> place.settled(height, len) == place,
{
}

/// Cursor bounds: after a movement the selected place is not negative and not
/// behind the last entry, whatever the place was before.
pub proof fn lemma_moved_bounds(place: Place, step: Move, height: int, len: int)
    requires
        place.natural(),
        height >= 0,
        len >= 0,
    ensures
        place.moved(step, height, len).natural(),
        place.moved(step, height, len).cursor <= height,
        0 <= place.moved(step, height, len).absolute() <= last_index(len),
        len > 0 ==> place.moved(step, height, len).valid(height, len),
{
}

/// Cursor bounds, for every sequence of movements: at its end the selected
/// place is not negative, and after at least one movement it is not behind
/// the last entry either.
pub proof fn lemma_travelled_bounds(place: Place, steps: Seq<Move>, height: int, len: int)
    requires
        place.natural(),
        height >= 0,
        len >= 0,
    ensures
        place.travelled(steps, height, len).natural(),
        0 <= place.travelled(steps, height, len).absolute(),
        steps.len() > 0 ==> place.travelled(steps, height, len).absolute() <= last_index(len),
        steps.len() > 0 && len > 0 ==> place.travelled(steps, height, len).valid(height, len),
    decreases steps.len(),
{
    if steps.len() > 0 {
        lemma_travelled_bounds(place, steps.drop_last(), height, len);
        lemma_moved_bounds(
            place.travelled(steps.drop_last(), height, len),
            steps.last(),
            height,
            len,
        );
    }
}

/// Moving up at the very top changes nothing.
pub proof fn lemma_up_at_top(place: Place, amount: int, height: int, len: int)
    requires
        place.cursor == 0,
        place.scroll == 0,
        amount >= 0,
        height >= 0,
        len >= 0,
    ensures
        place.up(amount, height, len) == place,
{
}

/// Moving down at the very bottom leaves the last entry selected.
pub proof fn lemma_down_at_bottom(place: Place, amount: int, height: int, len: int)
    requires
        place.valid(height, len),
        place.absolute() == len - 1,
        amount >= 0,
    ensures
        place.down(amount, height, len).absolute() == len - 1,
        place.cursor + amount <= height ==> place.down(amount, height, len) == place,
{
}

/// Clamp idempotence: clamping twice is clamping once.
pub proof fn lemma_clamped_twice(place: Place, height: int, len: int)
    requires
        height >= 0,
        len >= 0,
    ensures
        place.clamped(height, len).clamped(height, len) == place.clamped(height, len),
        len > 0 ==> 0 <= place.clamped(height, len).absolute() < len,
{
}

} // verus!

use vstd::prelude::*;

verus! {

/// Scroll state for one list: the index of the first visible row, and the
/// cached number of rows the last render had room for. Both stages of the
/// selection flow keep one of these, so the windowing rule lives here once.
pub struct ScrollState {
    pub offset: usize,
    pub capacity: usize,
}

/// The row capacity actually used for windowing: at least one row, so the
/// window never degenerates when the terminal is extremely small.
pub open spec fn effective_capacity(capacity: nat) -> nat {
    if capacity == 0 {
        1
    } else {
        capacity
    }
}

/// The minimal-movement "keep the selection in view" rule. A list that fits
/// entirely is never scrolled. Otherwise the previous offset is clamped to
/// the valid range and then nudged just far enough to bring the selected row
/// back inside the window; an offset that already shows the selection is
/// kept as it is.
pub open spec fn adjusted_offset(prev: nat, len: nat, capacity: nat, selected: nat) -> nat {
    let vis = effective_capacity(capacity);
    if len <= vis {
        0
    } else {
        let clamped = if prev > len - vis {
            (len - vis) as nat
        } else {
            prev
        };
        if selected < clamped {
            selected
        } else if selected >= clamped + vis {
            (selected + 1 - vis) as nat
        } else {
            clamped
        }
    }
}

/// The window invariant: the selected row lies inside the visible window,
/// and the window never hangs past the end of the list; a list that fits
/// entirely is not scrolled at all.
pub open spec fn window_ok(s: ScrollState, len: nat, selected: nat) -> bool {
    let vis = effective_capacity(s.capacity as nat);
    if len <= vis {
        s.offset == 0
    } else {
        &&& s.offset + vis <= len
        &&& s.offset <= selected
        &&& selected < s.offset + vis
    }
}

/// For every selected index inside the list, the adjusted offset satisfies
/// the window invariant: the offset stays within `[0, len - capacity]` and
/// the window `[offset, offset + capacity)` contains the selection.
pub proof fn lemma_adjusted_offset_in_window(prev: nat, len: nat, capacity: nat, selected: nat)
    requires
        selected < len,
    ensures
        ({
            let off = adjusted_offset(prev, len, capacity, selected);
            let vis = effective_capacity(capacity);
            if len <= vis {
                off == 0
            } else {
                off + vis <= len && off <= selected && selected < off + vis
            }
        }),
{
}

/// Reconciling the window is idempotent: adjusting an offset that was just
/// adjusted for the same list, capacity and selection changes nothing. A
/// render pass may therefore reconcile freely without moving the window.
pub proof fn lemma_adjusted_offset_idempotent(prev: nat, len: nat, capacity: nat, selected: nat)
    requires
        selected < len,
    ensures
        adjusted_offset(adjusted_offset(prev, len, capacity, selected), len, capacity, selected)
            == adjusted_offset(prev, len, capacity, selected),
{
}

impl ScrollState {
    /// A fresh scroll state: top of the list, one visible row assumed until
    /// a render reports the real height.
    pub fn new() -> (s: ScrollState)
        ensures
            s.offset == 0,
            s.capacity == 1,
    {
        ScrollState { offset: 0, capacity: 1 }
    }

    /// Record the row capacity that a render actually had available.
    pub fn set_capacity(&mut self, capacity: usize)
        ensures
            final(self).capacity == capacity,
            final(self).offset == old(self).offset,
    {
        self.capacity = capacity;
    }

    /// Recompute the offset after the selection (or the capacity) changed,
    /// following the minimal-movement rule.
    pub fn adjust(&mut self, len: usize, selected: usize)
        ensures
            final(self).capacity == old(self).capacity,
            final(self).offset as nat == adjusted_offset(
                old(self).offset as nat,
                len as nat,
                old(self).capacity as nat,
                selected as nat,
            ),
            selected < len ==> window_ok(*final(self), len as nat, selected as nat),
    {
        let visible: usize = if self.capacity == 0 {
            1
        } else {
            self.capacity
        };
        if len <= visible {
            self.offset = 0;
            return;
        }
        let max_offset = len - visible;
        let mut offset = if self.offset > max_offset {
            max_offset
        } else {
            self.offset
        };
        if selected < offset {
            offset = selected;
        } else if selected >= offset + visible {
            offset = selected - visible + 1;
        }
        self.offset = offset;
    }
}

} // verus!

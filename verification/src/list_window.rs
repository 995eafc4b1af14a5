//! The scrolling window of the selector lists (headers, files, project
//! variables, syntax themes): a cursor, the indexes of the first and last
//! rows shown, and how many rows fit.
//!
//! The indexes are bytes, as the selectors keep them; the last index of a
//! list is taken as a byte too, so lists longer than 256 entries wrap.

use vstd::prelude::*;

verus! {

/// Cursor and visible range of a selector list.
#[derive(Debug, Clone, Copy, PartialEq, Eq, Structural)]
pub struct ListCursor {
    pub cursor: u8,
    pub first: u8,
    pub last: u8,
    pub visible_rows: u8,
}

/// The last index of a list of `len` entries, as a byte (0 for an empty list).
pub open spec fn list_last(len: nat) -> u8 {
    (if len == 0 {
        0
    } else {
        len - 1
    }) as u8
}

/// The cursor a move down leads to.
pub open spec fn down_target(c: ListCursor, len: nat) -> u8 {
    if c.cursor + 1 <= list_last(len) {
        (c.cursor + 1) as u8
    } else {
        list_last(len)
    }
}

/// The cursor a move up leads to.
pub open spec fn up_target(c: ListCursor) -> u8 {
    if c.cursor == 0 {
        0
    } else {
        (c.cursor - 1) as u8
    }
}

/// A move down stays within byte arithmetic: the cursor is not at the top of
/// the byte range, and when the window has to follow the cursor, it has room
/// for a full window below it.
pub open spec fn can_move_down(c: ListCursor, len: nat) -> bool {
    &&& c.cursor < 255
    &&& down_target(c, len) > c.last ==> 1 <= c.visible_rows && c.visible_rows - 1
        <= down_target(c, len)
}

/// A move up stays within byte arithmetic: when the window has to follow the
/// cursor, a full window fits below it.
pub open spec fn can_move_up(c: ListCursor) -> bool {
    up_target(c) < c.first ==> 1 <= c.visible_rows && up_target(c) + c.visible_rows - 1 <= 255
}

/// The state after a move down.
pub open spec fn moved_down(c: ListCursor, len: nat) -> ListCursor {
    let t = down_target(c, len);
    if t > c.last {
        ListCursor {
            cursor: t,
            first: (t - (c.visible_rows - 1)) as u8,
            last: t,
            visible_rows: c.visible_rows,
        }
    } else {
        ListCursor { cursor: t, ..c }
    }
}

/// The state after a move up.
pub open spec fn moved_up(c: ListCursor) -> ListCursor {
    let t = up_target(c);
    if t < c.first {
        ListCursor {
            cursor: t,
            first: t,
            last: (t + c.visible_rows - 1) as u8,
            visible_rows: c.visible_rows,
        }
    } else {
        ListCursor { cursor: t, ..c }
    }
}

/// The cursor is shown: it lies between the first and the last visible row.
pub open spec fn cursor_visible(c: ListCursor) -> bool {
    c.first <= c.cursor <= c.last
}

impl ListCursor {
    /// The state a selector starts in: five rows, the first five shown.
    pub fn initial() -> (r: ListCursor)
        ensures
            r == (ListCursor { cursor: 0, first: 0, last: 4, visible_rows: 5 }),
    {
        ListCursor { cursor: 0, first: 0, last: 4, visible_rows: 5 }
    }

    /// Moves the cursor one entry down a list of `list_len` entries, the
    /// window following it when it leaves the bottom.
    pub fn move_down(&mut self, list_len: usize)
        requires
            can_move_down(*old(self), list_len as nat),
        ensures
            *final(self) == moved_down(*old(self), list_len as nat),
    {
        let last_complete_list_index = list_len.saturating_sub(1) as u8;
        let next = self.cursor + 1;
        let new_cursor = if next < last_complete_list_index {
            next
        } else {
            last_complete_list_index
        };
        self.cursor = new_cursor;
        if new_cursor > self.last {
            self.last = new_cursor;
            self.first = new_cursor - (self.visible_rows - 1);
        }
    }

    /// Moves the cursor one entry up, the window following it when it leaves
    /// the top.
    pub fn move_up(&mut self)
        requires
            can_move_up(*old(self)),
        ensures
            *final(self) == moved_up(*old(self)),
    {
        let new_cursor = self.cursor.saturating_sub(1);
        self.cursor = new_cursor;
        if new_cursor < self.first {
            self.first = new_cursor;
            self.last = new_cursor + (self.visible_rows - 1);
        }
    }

    /// Puts the cursor on the first of `list_len` entries, showing as many as
    /// fit (the headers and syntax themes selectors, when their list is set).
    pub fn reset_for(&mut self, list_len: usize)
        ensures
            final(self).cursor == 0,
            final(self).first == 0,
            final(self).last == if old(self).visible_rows <= (list_len as u8) {
                if old(self).visible_rows == 0 { 0 } else { (old(self).visible_rows - 1) as u8 }
            } else {
                if (list_len as u8) == 0 { 0 } else { ((list_len as u8) - 1) as u8 }
            },
            final(self).visible_rows == old(self).visible_rows,
    {
        let len8 = list_len as u8;
        let shown = if self.visible_rows < len8 {
            self.visible_rows
        } else {
            len8
        };
        self.cursor = 0;
        self.first = 0;
        self.last = shown.saturating_sub(1);
    }

    /// Puts the cursor on the first entry and shows a full window (the file
    /// selector, when it reads a directory).
    pub fn reset_full(&mut self)
        ensures
            final(self).cursor == 0,
            final(self).first == 0,
            final(self).last == if old(self).visible_rows == 0 {
                0
            } else {
                (old(self).visible_rows - 1) as u8
            },
            final(self).visible_rows == old(self).visible_rows,
    {
        self.cursor = 0;
        self.first = 0;
        self.last = self.visible_rows.saturating_sub(1);
    }
}

/// A row of a selector window: the list entry it shows, and whether it is
/// the highlighted one.
#[derive(Debug, Clone, Copy, PartialEq, Eq, Structural)]
pub struct WindowRow {
    pub index: usize,
    pub highlighted: bool,
}

/// The row shown at position `k` of a window starting at entry `from`, with
/// `selected` highlighted relative to `anchor`.
pub open spec fn row_at(from: int, k: int, selected: int, anchor: int) -> WindowRow {
    WindowRow {
        index: (from + k) as usize,
        highlighted: k == (if selected <= anchor {
            0
        } else {
            selected - anchor
        }),
    }
}

/// Rows for entries `from..=to`; the row at position `selected - anchor`
/// (0 when `selected <= anchor`) is highlighted.
pub open spec fn rows_spec(from: int, to: int, selected: int, anchor: int) -> Seq<WindowRow> {
    Seq::new((to - from + 1) as nat, |k: int| row_at(from, k, selected, anchor))
}

fn rows(from: usize, to: usize, selected: usize, anchor: usize) -> (r: Vec<WindowRow>)
    requires
        from <= to < usize::MAX,
    ensures
        r@ == rows_spec(from as int, to as int, selected as int, anchor as int),
{
    let visible_index = selected.saturating_sub(anchor);
    let mut r: Vec<WindowRow> = Vec::new();
    let mut i = from;
    while i <= to
        invariant
            from <= i <= to + 1,
            to < usize::MAX,
            visible_index == (if selected <= anchor {
                0
            } else {
                selected - anchor
            }),
            r@ == rows_spec(from as int, i as int - 1, selected as int, anchor as int),
        decreases to + 1 - i,
    {
        r.push(WindowRow { index: i, highlighted: i - from == visible_index });
        assert(r@ =~= rows_spec(from as int, i as int, selected as int, anchor as int));
        i += 1;
    }
    r
}

/// The last entry shown when the window asks for `last` but the list ends
/// earlier.
pub open spec fn clamped_end(last: nat, len: nat) -> nat {
    if last > len - 1 {
        (len - 1) as nat
    } else {
        last
    }
}

/// The rows of the headers and file selectors: entries `first..=last`, the
/// end cut at the list's last entry; none for an empty list.
pub fn clamped_window(first: usize, last: usize, selected: usize, list_len: usize) -> (r: Vec<
    WindowRow,
>)
    requires
        list_len > 0 ==> first <= clamped_end(last as nat, list_len as nat),
    ensures
        list_len == 0 ==> r@.len() == 0,
        list_len > 0 ==> r@ == rows_spec(
            first as int,
            clamped_end(last as nat, list_len as nat) as int,
            selected as int,
            first as int,
        ),
{
    if list_len == 0 {
        return Vec::new();
    }
    let actual_last_index = list_len - 1;
    let range_end = if last > actual_last_index {
        actual_last_index
    } else {
        last
    };
    rows(first, range_end, selected, first)
}

/// The rows of the syntax theme selector: entries `first..=last`, which the
/// list must hold.
pub fn full_window(first: usize, last: usize, selected: usize, list_len: usize) -> (r: Vec<
    WindowRow,
>)
    requires
        first <= last < list_len,
    ensures
        r@ == rows_spec(first as int, last as int, selected as int, first as int),
{
    rows(first, last, selected, first)
}

/// The range of entries the project variables window shows for a requested
/// `first..=last` in a list of `len` entries: a first index past the end
/// becomes 0; a last index past the end becomes the last entry, and one past
/// the first becomes the first.
pub open spec fn variable_bounds(first: nat, last: nat, len: nat) -> (nat, nat) {
    let last_poss = (len - 1) as nat;
    let f = if first > last_poss {
        0
    } else {
        first
    };
    let l = if last > last_poss {
        last_poss
    } else if last > f {
        f
    } else {
        last
    };
    (f, l)
}

/// The rows of the project variables window, highlighted relative to the
/// requested first index; none for an empty list.
pub fn variables_window(first: usize, last: usize, selected: usize, list_len: usize) -> (r: Vec<
    WindowRow,
>)
    requires
        list_len > 0 ==> variable_bounds(first as nat, last as nat, list_len as nat).0
            <= variable_bounds(first as nat, last as nat, list_len as nat).1,
    ensures
        list_len == 0 ==> r@.len() == 0,
        list_len > 0 ==> r@ == rows_spec(
            variable_bounds(first as nat, last as nat, list_len as nat).0 as int,
            variable_bounds(first as nat, last as nat, list_len as nat).1 as int,
            selected as int,
            first as int,
        ),
{
    if list_len == 0 {
        return Vec::new();
    }
    let last_poss = list_len - 1;
    let f = if first > last_poss {
        0
    } else {
        first
    };
    let l = if last > last_poss {
        last_poss
    } else if last > f {
        f
    } else {
        last
    };
    rows(f, l, selected, first)
}

/// The window of a selector whose end is cut at the list's end (headers,
/// files, project variables): its first row comes at or before its last, and
/// lies in the list.
pub open spec fn window_ok(c: ListCursor, len: nat) -> bool {
    &&& c.first <= c.last
    &&& len > 0 ==> c.first < len
}

/// The window of a selector that shows whole windows (syntax themes): it
/// lies in the list, and once it has scrolled it is full.
pub open spec fn full_window_ok(c: ListCursor, len: nat) -> bool {
    &&& c.first <= c.last < len
    &&& c.first == 0 || c.last - c.first + 1 == c.visible_rows
}

impl ListCursor {
    /// Whether a move down over `list_len` entries stays within byte
    /// arithmetic.
    pub fn down_is_safe(&self, list_len: usize) -> (r: bool)
        ensures
            r == can_move_down(*self, list_len as nat),
    {
        if self.cursor == 255 {
            return false;
        }
        let last_complete_list_index = list_len.saturating_sub(1) as u8;
        let next = self.cursor + 1;
        let target = if next < last_complete_list_index {
            next
        } else {
            last_complete_list_index
        };
        target <= self.last || (1 <= self.visible_rows && self.visible_rows - 1 <= target)
    }

    /// Whether a move up stays within byte arithmetic.
    pub fn up_is_safe(&self) -> (r: bool)
        ensures
            r == can_move_up(*self),
    {
        let target = self.cursor.saturating_sub(1);
        target >= self.first || (1 <= self.visible_rows && (target as u16) + (self.visible_rows as u16)
            - 1 <= 255)
    }

    /// Whether the window fits a list of `list_len` entries, as the selectors
    /// that cut their window at the list's end need.
    pub fn fits(&self, list_len: usize) -> (r: bool)
        ensures
            r == window_ok(*self, list_len as nat),
    {
        self.first <= self.last && (list_len == 0 || (self.first as usize) < list_len)
    }

    /// Whether the window fits a list of `list_len` entries, as the selector
    /// that shows whole windows needs.
    pub fn fits_fully(&self, list_len: usize) -> (r: bool)
        ensures
            r == full_window_ok(*self, list_len as nat),
    {
        self.first <= self.last && (self.last as usize) < list_len && (self.first == 0 || (self.last
            - self.first) as u16 + 1 == self.visible_rows as u16)
    }
}

// ---------------------------------------------------------------------------
// Laws
// ---------------------------------------------------------------------------
/// The last index of a non-empty list lies in it.
pub proof fn lemma_list_last(len: nat)
    requires
        len > 0,
    ensures
        list_last(len) < len,
{
    if len <= 256 {
        assert(list_last(len) == len - 1);
    }
}

/// Moves keep a cut window fitting its list, so it can always be drawn.
pub proof fn law_moves_keep_window(c: ListCursor, len: nat)
    requires
        window_ok(c, len),
    ensures
        can_move_down(c, len) ==> window_ok(moved_down(c, len), len),
        can_move_up(c) ==> window_ok(moved_up(c), len),
{
    if len > 0 {
        lemma_list_last(len);
    }
}

/// Moves keep a whole window fitting its list, so it can always be drawn.
pub proof fn law_moves_keep_full_window(c: ListCursor, len: nat)
    requires
        full_window_ok(c, len),
    ensures
        can_move_down(c, len) ==> full_window_ok(moved_down(c, len), len),
        can_move_up(c) ==> full_window_ok(moved_up(c), len),
{
    lemma_list_last(len);
}
/// Moving down keeps the cursor within the list and on a visible row.
pub proof fn law_move_down_keeps_cursor_shown(c: ListCursor, len: nat)
    requires
        can_move_down(c, len),
        cursor_visible(c),
        c.cursor <= list_last(len),
    ensures
        cursor_visible(moved_down(c, len)),
        moved_down(c, len).cursor <= list_last(len),
{
}

/// Moving up keeps the cursor on a visible row.
pub proof fn law_move_up_keeps_cursor_shown(c: ListCursor)
    requires
        can_move_up(c),
        cursor_visible(c),
    ensures
        cursor_visible(moved_up(c)),
        moved_up(c).cursor <= c.cursor,
{
}

/// A move down undoes a move up: from any entry but the first, the cursor
/// comes back to where it was.
pub proof fn law_down_undoes_up(c: ListCursor, len: nat)
    requires
        0 < c.cursor <= list_last(len),
        can_move_up(c),
    ensures
        moved_down(moved_up(c), len).cursor == c.cursor,
{
}

/// Every window shows consecutive entries starting at its first index and
/// highlights exactly one row when the selection lies in it.
pub proof fn law_window_rows(from: int, to: int, selected: int)
    requires
        0 <= from <= selected <= to <= usize::MAX,
    ensures
        rows_spec(from, to, selected, from).len() == to - from + 1,
        forall|k: int|
            0 <= k < to - from + 1 ==> #[trigger] rows_spec(from, to, selected, from)[k].index
                == from + k,
        forall|k: int|
            0 <= k < to - from + 1 ==> (#[trigger] rows_spec(from, to, selected, from)[k].highlighted
                <==> from + k == selected),
{
}

} // verus!

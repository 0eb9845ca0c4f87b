use vstd::prelude::*;

verus! {

/// `pancurses::OK`, the status that curses calls return on success. The
/// crate defines it as the constant 0, and that value is all this claims.
#[verifier::external_body]
fn curses_ok() -> (ok: i32)
    ensures
        ok == 0,
{
    pancurses::OK
}

/// Converts a curses status into `true` when it is `OK` (0), and into
/// `false` for every other value.
pub fn to_bool(curses_bool: i32) -> (success: bool)
    ensures
        success == (curses_bool == 0),
{
    if curses_bool == curses_ok() {
        true
    } else {
        false
    }
}

/// The three options for the visibility of the cursor.
///
/// Note that not all terminals support all visibility modes.
#[derive(Debug, PartialEq, Eq, Clone, Copy, Structural)]
pub enum CursorVisibility {
    /// Makes the cursor invisible. Supported on most terminals.
    Invisible,
    /// Makes the cursor visible in the normal way. The Default.
    Visible,
    /// Makes the cursor "highly" visible in some way. Not supported on all terminals.
    HighlyVisible,
}

impl Default for CursorVisibility {
    fn default() -> (vis: Self)
        ensures
            vis == CursorVisibility::Visible,
    {
        CursorVisibility::Visible
    }
}

/// The number that curses' `curs_set` uses for a visibility.
pub open spec fn visibility_number(vis: CursorVisibility) -> int {
    match vis {
        CursorVisibility::Invisible => 0,
        CursorVisibility::Visible => 1,
        CursorVisibility::HighlyVisible => 2,
    }
}

/// The visibility that curses number `n` stands for, if any.
pub open spec fn visibility_with_number(n: int) -> Option<CursorVisibility> {
    if n == 0 {
        Some(CursorVisibility::Invisible)
    } else if n == 1 {
        Some(CursorVisibility::Visible)
    } else if n == 2 {
        Some(CursorVisibility::HighlyVisible)
    } else {
        None
    }
}

impl CursorVisibility {
    /// The number handed to curses' `curs_set` to ask for this visibility.
    pub fn curses_code(self) -> (code: i32)
        ensures
            code == visibility_number(self),
    {
        match self {
            CursorVisibility::Invisible => 0,
            CursorVisibility::Visible => 1,
            CursorVisibility::HighlyVisible => 2,
        }
    }

    /// The visibility that a number returned by curses' `curs_set` reports:
    /// `Some` of the old setting for 0, 1 and 2, `None` for anything else
    /// (such as `ERR`, when the request failed).
    pub fn from_curses_code(code: i32) -> (vis: Option<CursorVisibility>)
        ensures
            vis == visibility_with_number(code as int),
    {
        match code {
            0 => Some(CursorVisibility::Invisible),
            1 => Some(CursorVisibility::Visible),
            2 => Some(CursorVisibility::HighlyVisible),
            _ => None,
        }
    }
}

/// Reading back the code of a visibility gives that visibility, and the
/// codes that name a visibility are exactly 0, 1 and 2.
pub proof fn lemma_visibility_round_trip(vis: CursorVisibility, n: int)
    ensures
        visibility_with_number(visibility_number(vis)) == Some(vis),
        visibility_with_number(n) is Some <==> 0 <= n <= 2,
        visibility_with_number(n) matches Some(v) ==> visibility_number(v) == n,
{
}

/// The input modes allowed: how reading input waits for it.
#[derive(Debug, PartialEq, Eq, Clone, Copy, Structural)]
pub enum InputMode {
    /// Reading input blocks indefinitely. This is the default.
    Blocking,
    /// Reading input returns immediately. If no input is in the queue there is
    /// nothing to read.
    NonBlocking,
    /// Reading input waits up to the number of milliseconds specified. If any
    /// value less than 1 is given, 1 is used instead.
    TimeLimit(i32),
}

impl Default for InputMode {
    /// The default input mode is Blocking.
    fn default() -> (mode: Self)
        ensures
            mode == InputMode::Blocking,
    {
        InputMode::Blocking
    }
}

/// The curses timeout, in milliseconds, that puts the window in `mode`:
/// -1 waits forever, 0 does not wait, and a time limit below 1 becomes 1.
pub open spec fn timeout_of(mode: InputMode) -> int {
    match mode {
        InputMode::Blocking => -1,
        InputMode::NonBlocking => 0,
        InputMode::TimeLimit(time) => if time < 1 {
            1
        } else {
            time as int
        },
    }
}

impl InputMode {
    /// The number handed to curses' window `timeout` to put input in this mode.
    pub fn timeout_millis(self) -> (millis: i32)
        ensures
            millis == timeout_of(self),
            self == InputMode::Blocking ==> millis == -1,
            self == InputMode::NonBlocking ==> millis == 0,
            self matches InputMode::TimeLimit(time) ==> millis >= 1 && millis >= time && (millis == 1
                || millis == time),
    {
        match self {
            InputMode::Blocking => -1,
            InputMode::NonBlocking => 0,
            InputMode::TimeLimit(time) => if time < 1 {
                1
            } else {
                time
            },
        }
    }
}

/// A time limit never asks curses to wait forever nor to skip waiting: it
/// becomes the larger of the limit and one millisecond, so limits below one
/// millisecond wait exactly one and limits of one millisecond or more are
/// kept as they are.
pub proof fn lemma_time_limit_waits(time: i32)
    ensures
        timeout_of(InputMode::TimeLimit(time)) >= 1,
        timeout_of(InputMode::TimeLimit(time)) >= time,
        timeout_of(InputMode::TimeLimit(time)) == 1 || timeout_of(InputMode::TimeLimit(time))
            == time,
        time < 1 ==> timeout_of(InputMode::TimeLimit(time)) == 1,
        time >= 1 ==> timeout_of(InputMode::TimeLimit(time)) == time,
        timeout_of(InputMode::TimeLimit(time)) != timeout_of(InputMode::Blocking),
        timeout_of(InputMode::TimeLimit(time)) != timeout_of(InputMode::NonBlocking),
{
}

/// The row, counted from the top of a window with `row_count` rows, of the
/// line at height `y` counted from the bottom: `row_count - (y + 1)`.
pub open spec fn row_of_height(row_count: int, y: int) -> int {
    row_count - (y + 1)
}

/// Converts a height `y` counted from the bottom of a window with
/// `row_count` rows into a row counted from the top. `None` when `y + 1` or
/// the difference does not fit an `i32` (where plain `i32` arithmetic would
/// overflow).
pub fn cartesian_row(row_count: i32, y: i32) -> (row: Option<i32>)
    ensures
        row is None <==> (y == i32::MAX || row_of_height(row_count as int, y as int) < i32::MIN
            || row_of_height(row_count as int, y as int) > i32::MAX),
        row matches Some(r) ==> r == row_of_height(row_count as int, y as int),
{
    if y == i32::MAX {
        return None;
    }
    let above: i32 = y + 1;
    let diff: i64 = row_count as i64 - above as i64;
    if diff < i32::MIN as i64 || diff > i32::MAX as i64 {
        None
    } else {
        Some(row_count - above)
    }
}

/// Moving to height `y` and reading the row back: the row and the height
/// together with the line itself span the whole window.
pub proof fn lemma_row_and_height_span_window(row_count: int, y: int)
    ensures
        row_of_height(row_count, y) + y + 1 == row_count,
        row_of_height(row_count, row_of_height(row_count, y)) == y,
{
}

} // verus!

use vstd::prelude::*;

verus! {

/// The curses color constants.
///
/// Curses supports eight different colors. Each character cell has one "color
/// pair" set which is a foreground and background pairing. Note that a cell can
/// also be "bold", which might display as different colors on some terminals.
#[derive(Debug, PartialEq, Eq, Clone, Copy, Structural)]
pub enum Color {
    Black,
    Red,
    Green,
    Yellow,
    Blue,
    Magenta,
    Cyan,
    White,
}

/// The curses number of a color: its place in the order
/// black, red, green, yellow, blue, magenta, cyan, white.
pub open spec fn color_number(color: Color) -> int {
    match color {
        Color::Black => 0,
        Color::Red => 1,
        Color::Green => 2,
        Color::Yellow => 3,
        Color::Blue => 4,
        Color::Magenta => 5,
        Color::Cyan => 6,
        Color::White => 7,
    }
}

/// The color with curses number `n`, if `n` is one of the eight numbers.
pub open spec fn color_with_number(n: int) -> Option<Color> {
    if n == 0 {
        Some(Color::Black)
    } else if n == 1 {
        Some(Color::Red)
    } else if n == 2 {
        Some(Color::Green)
    } else if n == 3 {
        Some(Color::Yellow)
    } else if n == 4 {
        Some(Color::Blue)
    } else if n == 5 {
        Some(Color::Magenta)
    } else if n == 6 {
        Some(Color::Cyan)
    } else if n == 7 {
        Some(Color::White)
    } else {
        None
    }
}

/// All eight colors, in curses number order.
pub open spec fn all_colors() -> Seq<Color> {
    seq![
        Color::Black,
        Color::Red,
        Color::Green,
        Color::Yellow,
        Color::Blue,
        Color::Magenta,
        Color::Cyan,
        Color::White,
    ]
}

impl Color {
    /// All of the Color values, in curses number order.
    pub fn color_iterator() -> (colors: Vec<Color>)
        ensures
            colors@ == all_colors(),
    {
        vec![
            Color::Black,
            Color::Red,
            Color::Green,
            Color::Yellow,
            Color::Blue,
            Color::Magenta,
            Color::Cyan,
            Color::White,
        ]
    }
}

/// Converts a `Color` to the `i16` associated with it.
pub fn color_to_i16(color: Color) -> (n: i16)
    ensures
        n == color_number(color),
{
    match color {
        Color::Black => 0,
        Color::Red => 1,
        Color::Green => 2,
        Color::Yellow => 3,
        Color::Blue => 4,
        Color::Magenta => 5,
        Color::Cyan => 6,
        Color::White => 7,
    }
}

/// Converts an `i16` to the `Color` associated with it. Fails if the input is
/// outside the range 0 to 7 (inclusive).
pub fn i16_to_color(val: i16) -> (color: Option<Color>)
    ensures
        color == color_with_number(val as int),
{
    match val {
        0 => Some(Color::Black),
        1 => Some(Color::Red),
        2 => Some(Color::Green),
        3 => Some(Color::Yellow),
        4 => Some(Color::Blue),
        5 => Some(Color::Magenta),
        6 => Some(Color::Cyan),
        7 => Some(Color::White),
        _ => None,
    }
}

/// Converting a color to its number and back gives the same color, and the
/// numbers that name a color are exactly 0 through 7, each naming the color
/// whose number it is.
pub proof fn lemma_color_number_round_trip(color: Color, n: int)
    ensures
        color_with_number(color_number(color)) == Some(color),
        0 <= color_number(color) <= 7,
        color_with_number(n) is Some <==> 0 <= n <= 7,
        color_with_number(n) matches Some(c) ==> color_number(c) == n,
{
}

/// The list of all colors holds every color exactly once, each at the place
/// given by its number.
pub proof fn lemma_all_colors_in_number_order(color: Color)
    ensures
        all_colors().len() == 8,
        all_colors()[color_number(color)] == color,
        forall|i: int| 0 <= i < 8 ==> color_number(#[trigger] all_colors()[i]) == i,
{
}

/// Two colors with the same number are the same color.
pub proof fn lemma_color_number_injective(a: Color, b: Color)
    ensures
        color_number(a) == color_number(b) ==> a == b,
{
}

/// A color pair for a character cell on the screen: the pair's curses
/// number, which stands for one foreground and one background color.
#[derive(Debug, PartialEq, Eq, Clone, Copy, Structural)]
pub struct ColorPair(i16);

impl View for ColorPair {
    type V = int;

    closed spec fn view(&self) -> int {
        self.0 as int
    }
}

/// A color pair is its pair number: two pairs with the same number are the
/// same pair.
pub proof fn lemma_color_pair_is_its_number(a: ColorPair, b: ColorPair)
    ensures
        a@ == b@ <==> a == b,
{
}

/// The curses pair number given to foreground color number `fg` on
/// background color number `bg`. Pair 0 is white on black but cannot be
/// assigned to, so numbering starts at 1.
pub open spec fn pair_number_of(fg: int, bg: int) -> int {
    1 + (8 * fg + bg)
}

/// The pair number of a foreground and a background color.
pub open spec fn color_pair_number(fg: Color, bg: Color) -> int {
    pair_number_of(color_number(fg), color_number(bg))
}

impl ColorPair {
    /// Creates a new `ColorPair` given a foreground and background.
    pub fn new(fg: Color, bg: Color) -> (pair: Self)
        ensures
            pair@ == color_pair_number(fg, bg),
    {
        let fgi: i16 = color_to_i16(fg);
        let bgi: i16 = color_to_i16(bg);
        ColorPair(fgbg_pairid(fgi, bgi))
    }

    /// The curses number of this pair, as handed to curses when the pair is
    /// made the window's current pair.
    pub fn pair_number(&self) -> (n: i16)
        ensures
            n == self@,
    {
        self.0
    }
}

impl Default for ColorPair {
    /// The "default" color pair is White text on a Black background.
    fn default() -> (pair: Self)
        ensures
            pair@ == color_pair_number(Color::White, Color::Black),
    {
        Self::new(Color::White, Color::Black)
    }
}

/// The "low level" conversion using i16 values. Color pair 0 is white on
/// black but we can't assign to it. Only color pairs 0 through 63 are sure to
/// be available, but usually there are more, so the pairs are numbered from
/// 1 upwards on the bet that at least one more bit is available.
pub fn fgbg_pairid(fg: i16, bg: i16) -> (pair: i16)
    requires
        i16::MIN <= 8 * fg <= i16::MAX,
        i16::MIN <= 8 * fg + bg <= i16::MAX,
        i16::MIN <= 1 + (8 * fg + bg) <= i16::MAX,
    ensures
        pair == pair_number_of(fg as int, bg as int),
        pair == 1 + 8 * fg + bg,
{
    1 + (8 * fg + bg)
}

/// Distinct foreground and background colors give distinct pair numbers, and
/// every pair number of two colors lies in 1 through 64, so none of them is
/// the reserved pair 0.
pub proof fn lemma_pair_numbers_distinct(fg1: Color, bg1: Color, fg2: Color, bg2: Color)
    ensures
        1 <= color_pair_number(fg1, bg1) <= 64,
        color_pair_number(fg1, bg1) == color_pair_number(fg2, bg2) ==> fg1 == fg2 && bg1 == bg2,
{
}

/// One call of curses' `init_pair` made when curses starts: pair number
/// `pair` is set to show foreground color `fg` on background color `bg`.
#[derive(Debug, PartialEq, Eq, Clone, Copy, Structural)]
pub struct PairInit {
    pub pair: i16,
    pub fg: i16,
    pub bg: i16,
}

impl View for PairInit {
    type V = (int, int, int);

    open spec fn view(&self) -> (int, int, int) {
        (self.pair as int, self.fg as int, self.bg as int)
    }
}

/// The `i`-th pair set up when curses starts: foreground colors in the outer
/// loop, background colors in the inner one, both in color number order.
pub open spec fn planned_pair(i: int) -> (int, int, int) {
    (pair_number_of(i / 8, i % 8), i / 8, i % 8)
}

/// The pairs that are set up when curses starts with colors: one for every
/// foreground and background color, foreground in the outer loop.
pub fn color_pair_plan() -> (plan: Vec<PairInit>)
    ensures
        plan.len() == 64,
        forall|i: int|
            0 <= i < 64 ==> #[trigger] plan@[i]@ == planned_pair(i),
{
    let mut plan: Vec<PairInit> = Vec::new();
    let mut fg: i16 = 0;
    while fg < 8
        invariant
            0 <= fg <= 8,
            plan.len() == 8 * fg,
            forall|i: int|
                0 <= i < plan.len() ==> #[trigger] plan@[i]@
                    == planned_pair(i),
        decreases 8 - fg,
    {
        let mut bg: i16 = 0;
        while bg < 8
            invariant
                0 <= fg < 8,
                0 <= bg <= 8,
                plan.len() == 8 * fg + bg,
                forall|i: int|
                    0 <= i < plan.len() ==> #[trigger] plan@[i]@
                        == planned_pair(i),
            decreases 8 - bg,
        {
            let pair: i16 = fgbg_pairid(fg, bg);
            let ghost k: int = plan.len() as int;
            assert(k / 8 == fg && k % 8 == bg);
            plan.push(PairInit { pair, fg, bg });
            bg = bg + 1;
        }
        fg = fg + 1;
    }
    plan
}

/// Every foreground and background color gets its pair set up: the planned
/// entry at place `8 * fg + bg` is the pair of those two colors.
pub proof fn lemma_plan_covers_every_pair(fg: Color, bg: Color)
    ensures
        ({
            let i = 8 * color_number(fg) + color_number(bg);
            &&& 0 <= i < 64
            &&& planned_pair(i) == (color_pair_number(fg, bg), color_number(fg), color_number(bg))
        }),
{
    let i = 8 * color_number(fg) + color_number(bg);
    assert(i / 8 == color_number(fg) && i % 8 == color_number(bg));
}

/// Whether a terminal with `color_count` colors and `pair_count` color pairs
/// can take a planned pair: curses numbers colors from 0 to `color_count - 1`
/// and pairs from 0 to `pair_count - 1`, so both colors and the pair number
/// must lie in those ranges.
pub open spec fn pair_fits_terminal(init: (int, int, int), color_count: int, pair_count: int) -> bool {
    &&& 0 <= init.1 < color_count
    &&& 0 <= init.2 < color_count
    &&& 0 <= init.0 < pair_count
}

/// Whether a planned pair fits what the terminal offers: its colors are
/// valid color numbers and its pair number a valid pair number there.
pub fn pair_init_fits(init: PairInit, color_count: i32, pair_count: i32) -> (fits: bool)
    ensures
        fits == pair_fits_terminal(init@, color_count as int, pair_count as int),
        fits == (0 <= init.fg < color_count && 0 <= init.bg < color_count && 0 <= init.pair
            < pair_count),
{
    let fg: i32 = init.fg as i32;
    let bg: i32 = init.bg as i32;
    let pair: i32 = init.pair as i32;
    0 <= fg && fg < color_count && 0 <= bg && bg < color_count && 0 <= pair && pair < pair_count
}

/// Whether one entry fits depends on that entry and the two counts alone:
/// its colors must be valid color numbers (0 to `color_count - 1`) and its
/// pair a valid pair number (0 to `pair_count - 1`). An entry that fits a
/// terminal also fits any terminal with at least as many colors and pairs.
pub proof fn lemma_pair_fit_is_per_entry(
    init: (int, int, int),
    color_count: int,
    pair_count: int,
    more_colors: int,
    more_pairs: int,
)
    ensures
        pair_fits_terminal(init, color_count, pair_count) <==> (0 <= init.1 < color_count && 0
            <= init.2 < color_count && 0 <= init.0 < pair_count),
        pair_fits_terminal(init, color_count, pair_count) && color_count <= more_colors
            && pair_count <= more_pairs ==> pair_fits_terminal(init, more_colors, more_pairs),
{
}

/// On a terminal with at least 8 colors and more than 64 pairs, every planned
/// pair fits; with fewer colors, or 64 pairs or fewer, some planned pair does
/// not.
pub proof fn lemma_plan_fits_exactly_large_terminals(color_count: int, pair_count: int)
    ensures
        (forall|i: int| 0 <= i < 64 ==> #[trigger] pair_fits_terminal(planned_pair(i), color_count, pair_count))
            <==> (color_count >= 8 && pair_count >= 65),
{
    if color_count >= 8 && pair_count >= 65 {
        assert forall|i: int| 0 <= i < 64 implies #[trigger] pair_fits_terminal(
            planned_pair(i),
            color_count,
            pair_count,
        ) by {
            assert(0 <= i / 8 < 8 && 0 <= i % 8 < 8);
        }
    } else {
        assert(63int / 8 == 7 && 63int % 8 == 7);
        assert(!pair_fits_terminal(planned_pair(63), color_count, pair_count));
    }
}

/// Starts colors when, and only when, the terminal has them: calls
/// `start_color` (curses' `start_color`, handed in by the caller) if
/// `has_colors` holds and gives back its status, and gives `None` without
/// calling it otherwise. The caller vouches for `start_color` only on a
/// terminal with colors, so a call without colors could not be proved.
pub fn start_color_if_supported<F: FnOnce() -> i32>(has_colors: bool, start_color: F) -> (start_status: Option<i32>)
    requires
        has_colors ==> call_requires(start_color, ()),
    ensures
        start_status is Some <==> has_colors,
        start_status matches Some(status) ==> call_ensures(start_color, (), status),
{
    if has_colors {
        Some(start_color())
    } else {
        None
    }
}

/// Whether curses runs with colors: the terminal must have colors, and
/// `start_color` (called only then) must report `OK` (0). `start_status` is
/// the status `start_color` returned, or `None` when it was not called.
pub fn color_support(has_colors: bool, start_status: Option<i32>) -> (on: bool)
    ensures
        on == (has_colors && start_status == Some(0i32)),
{
    if has_colors {
        match start_status {
            Some(status) => crate::terminal::to_bool(status),
            None => false,
        }
    } else {
        false
    }
}

} // verus!

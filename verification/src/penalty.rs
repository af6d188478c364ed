//! The penalty of a grid: how much it shows of what makes a symbol hard to
//! read. The encoder takes the mask with the lowest penalty.

use vstd::prelude::*;

verus! {

/// The largest number of modules along one side of a grid that is scored.
pub const MAX_SIDE: usize = 177;

/// The points for the fifth module of a run of alike modules.
pub const RUN_POINTS: u32 = 3;

/// The points for each further module of a run of alike modules.
pub const LONGER_RUN_POINTS: u32 = 1;

/// The points for a block of two by two alike modules.
pub const BLOCK_POINTS: u32 = 3;

/// The points for a stretch that looks like a finder pattern.
pub const FINDER_POINTS: u32 = 40;

/// The most points that one place of a grid can have.
pub const MAX_PLACE_POINTS: u32 = 89;

/// Whether the module in column `x` of row `y` is dark.
pub open spec fn module_at(modules: Seq<bool>, side: int, x: int, y: int) -> bool {
    modules[y * side + x]
}

/// Whether module `at` of a line is dark: of row `line` where `across`, of
/// column `line` where not.
pub open spec fn line_at(modules: Seq<bool>, side: int, across: bool, line: int, at: int) -> bool {
    if across {
        module_at(modules, side, at, line)
    } else {
        module_at(modules, side, line, at)
    }
}

/// Whether the five modules of a line that end at `end` are alike.
pub open spec fn five_alike(modules: Seq<bool>, side: int, across: bool, line: int, end: int) -> bool {
    let last = line_at(modules, side, across, line, end);
    &&& 4 <= end < side
    &&& line_at(modules, side, across, line, end - 1) == last
    &&& line_at(modules, side, across, line, end - 2) == last
    &&& line_at(modules, side, across, line, end - 3) == last
    &&& line_at(modules, side, across, line, end - 4) == last
}

/// The points of a line for runs, counted at the module where they fall
/// due: a run of five or more alike modules has three points at its fifth
/// module and one at each further one, so that a run of `n` modules has
/// `n - 2` in all.
pub open spec fn run_points(modules: Seq<bool>, side: int, across: bool, line: int, end: int) -> int {
    if !five_alike(modules, side, across, line, end) {
        0
    } else if end >= 5 && line_at(modules, side, across, line, end - 5) == line_at(
        modules,
        side,
        across,
        line,
        end,
    ) {
        LONGER_RUN_POINTS as int
    } else {
        RUN_POINTS as int
    }
}

/// The points for the block of two by two modules whose top left module is
/// in column `x` of row `y`: three where the four are alike.
pub open spec fn block_points(modules: Seq<bool>, side: int, x: int, y: int) -> int {
    let first = module_at(modules, side, x, y);
    if x + 1 < side && y + 1 < side && module_at(modules, side, x + 1, y) == first && module_at(
        modules,
        side,
        x,
        y + 1,
    ) == first && module_at(modules, side, x + 1, y + 1) == first {
        BLOCK_POINTS as int
    } else {
        0
    }
}

/// Whether module `at` of a line is light or lies outside the grid.
pub open spec fn light_or_outside(
    modules: Seq<bool>,
    side: int,
    across: bool,
    line: int,
    at: int,
) -> bool {
    at < 0 || at >= side || !line_at(modules, side, across, line, at)
}

/// Whether the seven modules of a line from `start` on are dark, light,
/// three dark, light, dark: the widths 1:1:3:1:1 of a finder pattern.
pub open spec fn finder_like(
    modules: Seq<bool>,
    side: int,
    across: bool,
    line: int,
    start: int,
) -> bool {
    &&& 0 <= start
    &&& start + 7 <= side
    &&& line_at(modules, side, across, line, start)
    &&& !line_at(modules, side, across, line, start + 1)
    &&& line_at(modules, side, across, line, start + 2)
    &&& line_at(modules, side, across, line, start + 3)
    &&& line_at(modules, side, across, line, start + 4)
    &&& !line_at(modules, side, across, line, start + 5)
    &&& line_at(modules, side, across, line, start + 6)
}

/// Whether the four modules of a line from `start` on are light or outside
/// the grid.
pub open spec fn four_light(
    modules: Seq<bool>,
    side: int,
    across: bool,
    line: int,
    start: int,
) -> bool {
    &&& light_or_outside(modules, side, across, line, start)
    &&& light_or_outside(modules, side, across, line, start + 1)
    &&& light_or_outside(modules, side, across, line, start + 2)
    &&& light_or_outside(modules, side, across, line, start + 3)
}

/// The points for a false finder pattern that starts at module `start` of a
/// line: forty where seven modules have the widths of a finder pattern and
/// the four before them or the four after them are light.
pub open spec fn finder_points(
    modules: Seq<bool>,
    side: int,
    across: bool,
    line: int,
    start: int,
) -> int {
    if finder_like(modules, side, across, line, start) && (four_light(
        modules,
        side,
        across,
        line,
        start - 4,
    ) || four_light(modules, side, across, line, start + 7)) {
        FINDER_POINTS as int
    } else {
        0
    }
}

/// All points that are counted at the place in column `x` of row `y`: for
/// runs that reach it along its row and its column, for the block whose top
/// left module it is, and for false finder patterns that start there
/// along its row and its column.
pub open spec fn place_points(modules: Seq<bool>, side: int, x: int, y: int) -> int {
    run_points(modules, side, true, y, x) + run_points(modules, side, false, x, y) + block_points(
        modules,
        side,
        x,
        y,
    ) + finder_points(modules, side, true, y, x) + finder_points(modules, side, false, x, y)
}

/// The points of the first `count` places of row `y`.
pub open spec fn row_points(modules: Seq<bool>, side: int, y: int, count: int) -> int
    decreases count,
{
    if count <= 0 {
        0
    } else {
        row_points(modules, side, y, count - 1) + place_points(modules, side, count - 1, y)
    }
}

/// The points of the first `count` rows.
pub open spec fn rows_points(modules: Seq<bool>, side: int, count: int) -> int
    decreases count,
{
    if count <= 0 {
        0
    } else {
        rows_points(modules, side, count - 1) + row_points(modules, side, count - 1, side)
    }
}

/// The number of dark modules among the first `count`.
pub open spec fn dark_count(modules: Seq<bool>, count: int) -> int
    decreases count,
{
    if count <= 0 {
        0
    } else {
        dark_count(modules, count - 1) + if modules[count - 1] {
            1int
        } else {
            0int
        }
    }
}

/// The points for the balance of dark and light: how far the share of dark
/// modules, in two hundredths of the whole, is from one hundred.
pub open spec fn balance_points(modules: Seq<bool>) -> int {
    let share = dark_count(modules, modules.len() as int) * 200 / (modules.len() as int);
    if share >= 100 {
        share - 100
    } else {
        100 - share
    }
}

/// The penalty of a grid of `side` modules a side: the points of all its
/// places and the points for its balance.
pub open spec fn penalty_score(modules: Seq<bool>, side: int) -> int {
    rows_points(modules, side, side) + balance_points(modules)
}

/// Whether the module in column `x` of row `y` is dark.
fn dark_at(modules: &Vec<bool>, side: usize, x: usize, y: usize) -> (dark: bool)
    requires
        modules.len() == side * side,
        side <= MAX_SIDE,
        x < side,
        y < side,
    ensures
        dark == module_at(modules@, side as int, x as int, y as int),
{
    assert(y * side + x < side * side && y * side <= MAX_SIDE * MAX_SIDE) by (nonlinear_arith)
        requires
            x < side,
            y < side,
            side <= MAX_SIDE,
    ;
    modules[y * side + x]
}

/// Whether module `at` of a line is dark.
fn dark_along(modules: &Vec<bool>, side: usize, across: bool, line: usize, at: usize) -> (dark: bool)
    requires
        modules.len() == side * side,
        side <= MAX_SIDE,
        line < side,
        at < side,
    ensures
        dark == line_at(modules@, side as int, across, line as int, at as int),
{
    if across {
        dark_at(modules, side, at, line)
    } else {
        dark_at(modules, side, line, at)
    }
}

/// The points of a line for runs at the module `end`.
fn run_points_at(
    modules: &Vec<bool>,
    side: usize,
    across: bool,
    line: usize,
    end: usize,
) -> (points: u32)
    requires
        modules.len() == side * side,
        side <= MAX_SIDE,
        line < side,
        end < side,
    ensures
        points == run_points(modules@, side as int, across, line as int, end as int),
{
    if end < 4 {
        return 0;
    }
    let last = dark_along(modules, side, across, line, end);
    if dark_along(modules, side, across, line, end - 1) != last || dark_along(
        modules,
        side,
        across,
        line,
        end - 2,
    ) != last || dark_along(modules, side, across, line, end - 3) != last || dark_along(
        modules,
        side,
        across,
        line,
        end - 4,
    ) != last {
        return 0;
    }
    if end >= 5 && dark_along(modules, side, across, line, end - 5) == last {
        LONGER_RUN_POINTS
    } else {
        RUN_POINTS
    }
}

/// The points for the block whose top left module is in column `x` of row
/// `y`.
fn block_points_at(modules: &Vec<bool>, side: usize, x: usize, y: usize) -> (points: u32)
    requires
        modules.len() == side * side,
        side <= MAX_SIDE,
        x < side,
        y < side,
    ensures
        points == block_points(modules@, side as int, x as int, y as int),
{
    if x + 1 >= side || y + 1 >= side {
        return 0;
    }
    let first = dark_at(modules, side, x, y);
    if dark_at(modules, side, x + 1, y) == first && dark_at(modules, side, x, y + 1) == first
        && dark_at(modules, side, x + 1, y + 1) == first {
        BLOCK_POINTS
    } else {
        0
    }
}

/// Whether a module of a line is light or lies outside the grid; its place
/// is given four too large, so that it can lie before the line.
fn light_along(
    modules: &Vec<bool>,
    side: usize,
    across: bool,
    line: usize,
    place_and_four: usize,
) -> (light: bool)
    requires
        modules.len() == side * side,
        side <= MAX_SIDE,
        line < side,
    ensures
        light == light_or_outside(modules@, side as int, across, line as int, place_and_four - 4),
{
    if place_and_four < 4 || place_and_four - 4 >= side {
        true
    } else {
        !dark_along(modules, side, across, line, place_and_four - 4)
    }
}

/// Whether the four modules of a line from `start` on are light or outside
/// the grid; `start` is given four too large, so that it can lie before the
/// line.
fn four_light_from(
    modules: &Vec<bool>,
    side: usize,
    across: bool,
    line: usize,
    start_and_four: usize,
) -> (light: bool)
    requires
        modules.len() == side * side,
        side <= MAX_SIDE,
        line < side,
        start_and_four <= 2 * MAX_SIDE,
    ensures
        light == four_light(modules@, side as int, across, line as int, start_and_four - 4),
{
    light_along(modules, side, across, line, start_and_four) && light_along(
        modules,
        side,
        across,
        line,
        start_and_four + 1,
    ) && light_along(modules, side, across, line, start_and_four + 2) && light_along(
        modules,
        side,
        across,
        line,
        start_and_four + 3,
    )
}

/// The points for a false finder pattern that starts at module `start` of a
/// line.
fn finder_points_at(
    modules: &Vec<bool>,
    side: usize,
    across: bool,
    line: usize,
    start: usize,
) -> (points: u32)
    requires
        modules.len() == side * side,
        side <= MAX_SIDE,
        line < side,
        start < side,
    ensures
        points == finder_points(modules@, side as int, across, line as int, start as int),
{
    if start + 7 > side {
        return 0;
    }
    if !dark_along(modules, side, across, line, start) || dark_along(
        modules,
        side,
        across,
        line,
        start + 1,
    ) || !dark_along(modules, side, across, line, start + 2) || !dark_along(
        modules,
        side,
        across,
        line,
        start + 3,
    ) || !dark_along(modules, side, across, line, start + 4) || dark_along(
        modules,
        side,
        across,
        line,
        start + 5,
    ) || !dark_along(modules, side, across, line, start + 6) {
        return 0;
    }
    if four_light_from(modules, side, across, line, start) || four_light_from(
        modules,
        side,
        across,
        line,
        start + 11,
    ) {
        FINDER_POINTS
    } else {
        0
    }
}

/// All points that are counted at the place in column `x` of row `y`.
fn place_points_at(modules: &Vec<bool>, side: usize, x: usize, y: usize) -> (points: u32)
    requires
        modules.len() == side * side,
        side <= MAX_SIDE,
        x < side,
        y < side,
    ensures
        points == place_points(modules@, side as int, x as int, y as int),
        points <= MAX_PLACE_POINTS,
{
    let runs = run_points_at(modules, side, true, y, x) + run_points_at(modules, side, false, x, y);
    let block = block_points_at(modules, side, x, y);
    let finders = finder_points_at(modules, side, true, y, x) + finder_points_at(
        modules,
        side,
        false,
        x,
        y,
    );
    runs + block + finders
}

/// Counts the dark modules.
fn count_dark(modules: &Vec<bool>) -> (dark: usize)
    ensures
        dark == dark_count(modules@, modules.len() as int),
        dark <= modules.len(),
{
    let mut dark: usize = 0;
    let mut seen: usize = 0;
    while seen < modules.len()
        invariant
            seen <= modules.len(),
            dark == dark_count(modules@, seen as int),
            dark <= seen,
        decreases modules.len() - seen,
    {
        if modules[seen] {
            dark += 1;
        }
        seen += 1;
    }
    dark
}

/// The penalty of a grid of `side` modules a side: the lower, the easier
/// the grid is to read.
pub fn penalty(modules: &Vec<bool>, side: usize) -> (score: u32)
    requires
        modules.len() == side * side,
        0 < side <= MAX_SIDE,
    ensures
        score == penalty_score(modules@, side as int),
{
    let mut total: u32 = 0;
    let mut y: usize = 0;
    while y < side
        invariant
            y <= side,
            modules.len() == side * side,
            0 < side <= MAX_SIDE,
            total == rows_points(modules@, side as int, y as int),
            total <= MAX_PLACE_POINTS * side * y,
        decreases side - y,
    {
        let mut row: u32 = 0;
        let mut x: usize = 0;
        while x < side
            invariant
                x <= side,
                y < side,
                modules.len() == side * side,
                0 < side <= MAX_SIDE,
                row == row_points(modules@, side as int, y as int, x as int),
                row <= MAX_PLACE_POINTS * x,
            decreases side - x,
        {
            row += place_points_at(modules, side, x, y);
            x += 1;
        }
        assert(total + row <= MAX_PLACE_POINTS * side * (y + 1) && MAX_PLACE_POINTS * side * (y + 1)
            <= MAX_PLACE_POINTS * MAX_SIDE * MAX_SIDE) by (nonlinear_arith)
            requires
                total <= MAX_PLACE_POINTS * side * y,
                row <= MAX_PLACE_POINTS * side,
                y < side,
                side <= MAX_SIDE,
        ;
        total += row;
        y += 1;
    }
    let dark = count_dark(modules);
    assert(side * side <= MAX_SIDE * MAX_SIDE && side * side > 0 && MAX_PLACE_POINTS * side * side
        <= MAX_PLACE_POINTS * MAX_SIDE * MAX_SIDE) by (nonlinear_arith)
        requires
            0 < side <= MAX_SIDE,
    ;
    let count = modules.len();
    let share = dark * 200 / count;
    assert(share <= 200) by (nonlinear_arith)
        requires
            share == (dark * 200) / (count as int),
            dark <= count,
            count > 0,
    ;
    let balance = if share >= 100 {
        share - 100
    } else {
        100 - share
    };
    total + balance as u32
}

} // verus!

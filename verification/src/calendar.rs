//! The month on display, the selected day, and the six-week grid of a month.

use crate::date::{days_in_month, month_after, month_before, valid_ymd, weekday_from_sunday};
use crate::date::{lemma_month_length, Date, MAX_YEAR, MIN_YEAR};
use crate::datetime::DateTime;
use vstd::prelude::*;
use vstd::set_lib::{lemma_int_range, set_int_range};

verus! {

/// The number of weeks that a month grid shows.
pub const GRID_ROWS: usize = 6;

/// The number of days in each week of a month grid.
pub const GRID_COLS: usize = 7;

/// A step of the selection inside the month grid.
#[derive(Clone, Copy, Debug, PartialEq, Eq, Structural)]
pub enum Direction {
    Left,
    Right,
    Up,
    Down,
}

/// The weekday on which a month begins, from 0 for Sunday to 6 for Saturday.
pub open spec fn first_weekday(year: int, month: int) -> int {
    weekday_from_sunday(year, month, 1)
}

/// What the grid of a month shows in a cell: the days are numbered from 1
/// along the rows, the first of them in row 0 under its weekday, and the
/// cells before the first day and after the last are empty.
pub open spec fn grid_cell(first_weekday: int, days: int, row: int, col: int) -> Option<u32> {
    let n = row * 7 + col - first_weekday + 1;
    if 1 <= n <= days {
        Some(n as u32)
    } else {
        None
    }
}

/// Whether `grid` is the grid of a month that begins on `first_weekday` and
/// has `days` days: six rows of seven cells, each as `grid_cell` says.
pub open spec fn is_month_grid(grid: Seq<Vec<Option<u32>>>, first_weekday: int, days: int) -> bool {
    &&& grid.len() == GRID_ROWS
    &&& forall|row: int| 0 <= row < GRID_ROWS ==> (#[trigger] grid[row]).len() == GRID_COLS
    &&& forall|row: int, col: int|
        0 <= row < GRID_ROWS && 0 <= col < GRID_COLS ==> #[trigger] grid[row][col] == grid_cell(
            first_weekday,
            days,
            row,
            col,
        )
}

/// Lays out the grid of a month from the weekday of its first day and the
/// number of its days.
pub fn build_month_grid(first_weekday: u32, days: u32) -> (grid: Vec<Vec<Option<u32>>>)
    requires
        first_weekday < 7,
    ensures
        is_month_grid(grid@, first_weekday as int, days as int),
{
    let mut grid: Vec<Vec<Option<u32>>> = Vec::new();
    let mut current_day: u32 = 1;
    let mut week: usize = 0;
    while week < GRID_ROWS
        invariant
            first_weekday < 7,
            week <= GRID_ROWS,
            grid.len() == week,
            1 <= current_day <= week * 7 + 1,
            week * 7 <= first_weekday ==> current_day == 1,
            week * 7 > first_weekday && week * 7 - first_weekday <= days ==> current_day == week * 7
                - first_weekday + 1,
            week * 7 > first_weekday && week * 7 - first_weekday > days ==> current_day == days + 1,
            forall|row: int| 0 <= row < week ==> (#[trigger] grid[row]).len() == GRID_COLS,
            forall|row: int, col: int|
                0 <= row < week && 0 <= col < GRID_COLS ==> #[trigger] grid[row][col] == grid_cell(
                    first_weekday as int,
                    days as int,
                    row,
                    col,
                ),
        decreases GRID_ROWS - week,
    {
        let mut cells: Vec<Option<u32>> = Vec::new();
        let mut day: usize = 0;
        while day < GRID_COLS
            invariant
                first_weekday < 7,
                week < GRID_ROWS,
                day <= GRID_COLS,
                cells.len() == day,
                1 <= current_day <= week * 7 + day + 1,
                week * 7 + day <= first_weekday ==> current_day == 1,
                week * 7 + day > first_weekday && week * 7 + day - first_weekday <= days
                    ==> current_day == week * 7 + day - first_weekday + 1,
                week * 7 + day > first_weekday && week * 7 + day - first_weekday > days
                    ==> current_day == days + 1,
                forall|col: int|
                    0 <= col < day ==> #[trigger] cells[col] == grid_cell(
                        first_weekday as int,
                        days as int,
                        week as int,
                        col,
                    ),
            decreases GRID_COLS - day,
        {
            if week == 0 && day < first_weekday as usize {
                cells.push(None);
            } else if current_day <= days {
                cells.push(Some(current_day));
                current_day += 1;
            } else {
                cells.push(None);
            }
            day += 1;
        }
        grid.push(cells);
        week += 1;
    }
    grid
}

/// The cells of a grid that hold a day, each named by its place in reading
/// order: the cell in `row` and `col` has place `row * 7 + col`.
pub open spec fn filled_cells(grid: Seq<Vec<Option<u32>>>) -> Set<int> {
    Set::new(|place: int| 0 <= place < GRID_ROWS * GRID_COLS && grid[place / 7][place % 7] is Some)
}

/// The grid of a month holds each day of the month once and nothing else.
/// The first day stands in row 0 under the weekday on which the month
/// begins, the days follow it cell by cell in reading order, and the cells
/// that hold a day are exactly as many as the month has days.
pub proof fn lemma_month_grid_layout(calendar: Calendar, grid: Seq<Vec<Option<u32>>>)
    requires
        calendar.wf(),
        is_month_grid(grid, calendar.first_weekday(), calendar.days_in_month()),
    ensures
        grid[0][calendar.first_weekday()] == Some(1u32),
        forall|row: int, col: int|
            0 <= row < GRID_ROWS && 0 <= col < GRID_COLS ==> (#[trigger] grid[row][col] is Some
                <==> calendar.first_weekday() <= row * 7 + col < calendar.first_weekday()
                + calendar.days_in_month()),
        forall|row: int, col: int|
            0 <= row < GRID_ROWS && 0 <= col < GRID_COLS && #[trigger] grid[row][col] is Some
                ==> grid[row][col].unwrap() == row * 7 + col - calendar.first_weekday() + 1,
        calendar.first_weekday() + calendar.days_in_month() <= GRID_ROWS * GRID_COLS,
        filled_cells(grid).finite(),
        filled_cells(grid).len() == calendar.days_in_month(),
{
    let first = calendar.first_weekday();
    let days = calendar.days_in_month();
    assert(filled_cells(grid) =~= set_int_range(first, first + days));
    lemma_int_range(first, first + days);
}

/// Whether the cell of `grid` at `row` and `col` exists and holds `day`.
pub open spec fn holds_day(grid: Seq<Vec<Option<u32>>>, row: int, col: int, day: u32) -> bool {
    0 <= row < grid.len() && 0 <= col < grid[row].len() && grid[row][col] == Some(day)
}

/// Whether the first cell is read before the second: rows from the top,
/// and each row from the left.
pub open spec fn reads_before(row: int, col: int, other_row: int, other_col: int) -> bool {
    row < other_row || (row == other_row && col < other_col)
}

/// The row and column of the first cell, in reading order, that holds `day`;
/// row 0 and column 0 where no cell holds it.
pub fn find_day(grid: &Vec<Vec<Option<u32>>>, day: u32) -> (cell: (usize, usize))
    ensures
        holds_day(grid@, cell.0 as int, cell.1 as int, day) || cell == (0usize, 0usize),
        forall|row: int, col: int| #[trigger]
            holds_day(grid@, row, col, day) ==> holds_day(grid@, cell.0 as int, cell.1 as int, day)
                && !reads_before(row, col, cell.0 as int, cell.1 as int),
{
    let mut week_idx: usize = 0;
    while week_idx < grid.len()
        invariant
            week_idx <= grid.len(),
            forall|row: int, col: int|
                0 <= row < week_idx ==> !#[trigger] holds_day(grid@, row, col, day),
        decreases grid.len() - week_idx,
    {
        let week = &grid[week_idx];
        let mut day_idx: usize = 0;
        while day_idx < week.len()
            invariant
                week_idx < grid.len(),
                *week == grid@[week_idx as int],
                day_idx <= week.len(),
                forall|row: int, col: int|
                    0 <= row < week_idx ==> !#[trigger] holds_day(grid@, row, col, day),
                forall|col: int|
                    0 <= col < day_idx ==> !#[trigger] holds_day(grid@, week_idx as int, col, day),
            decreases week.len() - day_idx,
        {
            match week[day_idx] {
                Some(d) => {
                    if d == day {
                        return (week_idx, day_idx);
                    }
                },
                None => {},
            }
            day_idx += 1;
        }
        week_idx += 1;
    }
    (0, 0)
}

/// Whether the cell of `grid` at `row` and `col` exists and holds a day.
pub open spec fn is_filled(grid: Seq<Vec<Option<u32>>>, row: int, col: int) -> bool {
    0 <= row < grid.len() && 0 <= col < grid[row].len() && grid[row][col] is Some
}

/// The first cell of the grid, in reading order, that holds a day, if any
/// cell does.
pub fn first_filled_cell(grid: &Vec<Vec<Option<u32>>>) -> (cell: Option<(usize, usize)>)
    ensures
        match cell {
            Some((row, col)) => is_filled(grid@, row as int, col as int) && forall|
                other_row: int,
                other_col: int,
            | #[trigger]
                is_filled(grid@, other_row, other_col) ==> !reads_before(
                    other_row,
                    other_col,
                    row as int,
                    col as int,
                ),
            None => forall|row: int, col: int| !#[trigger] is_filled(grid@, row, col),
        },
{
    let mut week_idx: usize = 0;
    while week_idx < grid.len()
        invariant
            week_idx <= grid.len(),
            forall|row: int, col: int| 0 <= row < week_idx ==> !#[trigger] is_filled(grid@, row, col),
        decreases grid.len() - week_idx,
    {
        let week = &grid[week_idx];
        let mut day_idx: usize = 0;
        while day_idx < week.len()
            invariant
                week_idx < grid.len(),
                *week == grid@[week_idx as int],
                day_idx <= week.len(),
                forall|row: int, col: int|
                    0 <= row < week_idx ==> !#[trigger] is_filled(grid@, row, col),
                forall|col: int|
                    0 <= col < day_idx ==> !#[trigger] is_filled(grid@, week_idx as int, col),
            decreases week.len() - day_idx,
        {
            if week[day_idx].is_some() {
                return Some((week_idx, day_idx));
            }
            day_idx += 1;
        }
        week_idx += 1;
    }
    None
}

/// The last cell of the grid, in reading order, that holds a day, if any
/// cell does.
pub fn last_filled_cell(grid: &Vec<Vec<Option<u32>>>) -> (cell: Option<(usize, usize)>)
    ensures
        match cell {
            Some((row, col)) => is_filled(grid@, row as int, col as int) && forall|
                other_row: int,
                other_col: int,
            | #[trigger]
                is_filled(grid@, other_row, other_col) ==> !reads_before(
                    row as int,
                    col as int,
                    other_row,
                    other_col,
                ),
            None => forall|row: int, col: int| !#[trigger] is_filled(grid@, row, col),
        },
{
    let mut weeks_left: usize = grid.len();
    while weeks_left > 0
        invariant
            weeks_left <= grid.len(),
            forall|row: int, col: int| weeks_left <= row ==> !#[trigger] is_filled(grid@, row, col),
        decreases weeks_left,
    {
        let week_idx = weeks_left - 1;
        let week = &grid[week_idx];
        let mut days_left: usize = week.len();
        while days_left > 0
            invariant
                week_idx < grid.len(),
                week_idx == weeks_left - 1,
                *week == grid@[week_idx as int],
                days_left <= week.len(),
                forall|row: int, col: int|
                    weeks_left <= row ==> !#[trigger] is_filled(grid@, row, col),
                forall|col: int|
                    days_left <= col ==> !#[trigger] is_filled(grid@, week_idx as int, col),
            decreases days_left,
        {
            let day_idx = days_left - 1;
            if week[day_idx].is_some() {
                return Some((week_idx, day_idx));
            }
            days_left = day_idx;
        }
        weeks_left = week_idx;
    }
    None
}

/// In the grid of a month the first cell that holds a day holds the first
/// day, and the last cell that holds a day holds the last day of the month.
pub proof fn lemma_first_and_last_day(
    grid: Seq<Vec<Option<u32>>>,
    first_weekday: int,
    days: int,
    row: int,
    col: int,
)
    requires
        0 <= first_weekday < 7,
        1 <= days <= 31,
        is_month_grid(grid, first_weekday, days),
        is_filled(grid, row, col),
    ensures
        (forall|other_row: int, other_col: int| #[trigger]
            is_filled(grid, other_row, other_col) ==> !reads_before(other_row, other_col, row, col))
            ==> grid[row][col] == Some(1u32),
        (forall|other_row: int, other_col: int| #[trigger]
            is_filled(grid, other_row, other_col) ==> !reads_before(row, col, other_row, other_col))
            ==> grid[row][col] == Some(days as u32),
{
    let first = selection_cell(first_weekday, days, 1);
    let last = selection_cell(first_weekday, days, days);
    assert(is_filled(grid, first.0, first.1));
    assert(is_filled(grid, last.0, last.1));
}

/// The cell in which the grid of a month shows `day`; row 0 and column 0
/// where the month has no such day.
pub open spec fn selection_cell(first_weekday: int, days: int, day: int) -> (int, int) {
    if 1 <= day <= days {
        ((first_weekday + day - 1) / 7, (first_weekday + day - 1) % 7)
    } else {
        (0, 0)
    }
}

/// The cell one step away from the given cell; it may lie outside the grid.
pub open spec fn neighbour(cell: (int, int), direction: Direction) -> (int, int) {
    match direction {
        Direction::Left => (cell.0, cell.1 - 1),
        Direction::Right => (cell.0, cell.1 + 1),
        Direction::Up => (cell.0 - 1, cell.1),
        Direction::Down => (cell.0 + 1, cell.1),
    }
}

/// The day shown one step away from the cell of `day`, if that step stays
/// inside the grid and ends on a cell that shows a day.
pub open spec fn neighbour_day(first_weekday: int, days: int, day: int, direction: Direction)
    -> Option<u32> {
    let target = neighbour(selection_cell(first_weekday, days, day), direction);
    if 0 <= target.0 < GRID_ROWS && 0 <= target.1 < GRID_COLS {
        grid_cell(first_weekday, days, target.0, target.1)
    } else {
        None
    }
}

/// In the grid of a month each day stands in one cell only, the cell that
/// `selection_cell` names.
pub proof fn lemma_day_cell(
    grid: Seq<Vec<Option<u32>>>,
    first_weekday: int,
    days: int,
    day: u32,
    row: int,
    col: int,
)
    requires
        0 <= first_weekday < 7,
        days <= 31,
        is_month_grid(grid, first_weekday, days),
    ensures
        holds_day(grid, row, col, day) <==> 1 <= day <= days && (row, col) == selection_cell(
            first_weekday,
            days,
            day as int,
        ),
{
}

/// The month on display and the selected day.
#[derive(Clone, Copy, Debug)]
pub struct Calendar {
    /// A day of the month on display; only its year and month count.
    pub current_date: Date,
    /// The selected day.
    pub selected_date: Date,
}

impl Calendar {
    /// Whether both dates are days of the calendar.
    pub open spec fn wf(self) -> bool {
        self.current_date.wf() && self.selected_date.wf()
    }

    /// Whether a month follows the month on display.
    pub open spec fn has_next_month(self) -> bool {
        self.current_date.year < MAX_YEAR || self.current_date.month < 12
    }

    /// Whether a month precedes the month on display.
    pub open spec fn has_prev_month(self) -> bool {
        self.current_date.year > MIN_YEAR || self.current_date.month > 1
    }

    /// The calendar with the first day of the following month on display.
    pub open spec fn after_next_month(self) -> Calendar {
        let month = month_after(self.current_date.year as int, self.current_date.month as int);
        Calendar {
            current_date: Date { year: month.0 as i32, month: month.1 as u32, day: 1 },
            selected_date: self.selected_date,
        }
    }

    /// The calendar with the first day of the preceding month on display.
    pub open spec fn after_prev_month(self) -> Calendar {
        let month = month_before(self.current_date.year as int, self.current_date.month as int);
        Calendar {
            current_date: Date { year: month.0 as i32, month: month.1 as u32, day: 1 },
            selected_date: self.selected_date,
        }
    }

    /// From every month that has a following month, the step to that month
    /// and then the step back put the same year and month on display again,
    /// from December over the new year too, and leave the selected day as
    /// it was.
    pub proof fn lemma_next_then_prev_month(self)
        requires
            self.wf(),
            self.has_next_month(),
        ensures
            self.after_next_month().wf(),
            self.after_next_month().has_prev_month(),
            self.after_next_month().after_prev_month().current_date.year == self.current_date.year,
            self.after_next_month().after_prev_month().current_date.month
                == self.current_date.month,
            self.after_next_month().after_prev_month().selected_date == self.selected_date,
    {
    }

    /// From every month that has a preceding month, the step to that month
    /// and then the step forward put the same year and month on display
    /// again, and leave the selected day as it was.
    pub proof fn lemma_prev_then_next_month(self)
        requires
            self.wf(),
            self.has_prev_month(),
        ensures
            self.after_prev_month().wf(),
            self.after_prev_month().has_next_month(),
            self.after_prev_month().after_next_month().current_date.year == self.current_date.year,
            self.after_prev_month().after_next_month().current_date.month
                == self.current_date.month,
            self.after_prev_month().after_next_month().selected_date == self.selected_date,
    {
    }

    /// The weekday on which the month on display begins.
    pub open spec fn first_weekday(self) -> int {
        first_weekday(self.current_date.year as int, self.current_date.month as int)
    }

    /// The number of days of the month on display.
    pub open spec fn days_in_month(self) -> int {
        days_in_month(self.current_date.year as int, self.current_date.month as int)
    }

    /// A calendar that shows the month of `date` with `date` selected.
    pub fn starting_at(date: Date) -> (calendar: Calendar)
        ensures
            calendar.current_date == date,
            calendar.selected_date == date,
    {
        Calendar { current_date: date, selected_date: date }
    }

    /// A calendar that shows the month of the day on the system clock, with
    /// that day selected.
    pub fn new() -> (calendar: Calendar)
        ensures
            calendar.wf(),
            calendar.current_date == calendar.selected_date,
    {
        Calendar::starting_at(DateTime::now().date)
    }

    /// Whether the cell of the grid that holds `day` stands for `date`:
    /// whether `date` is that day of the month on display.
    pub fn shows(&self, day: u32, date: Date) -> (shown: bool)
        ensures
            shown == (date.day == day && date.month == self.current_date.month && date.year
                == self.current_date.year),
    {
        date.day == day && date.month == self.current_date.month && date.year
            == self.current_date.year
    }

    /// Puts the first day of the following month on display. The selected
    /// day stays as it is.
    pub fn next_month(&mut self)
        requires
            old(self).wf(),
            old(self).has_next_month(),
        ensures
            final(self).wf(),
            final(self).has_prev_month(),
            *final(self) == old(self).after_next_month(),
    {
        let year = self.current_date.year;
        let month = self.current_date.month;
        let next_month = if month == 12 {
            Date::from_ymd_opt(year + 1, 1, 1)
        } else {
            Date::from_ymd_opt(year, month + 1, 1)
        };
        self.current_date = next_month.unwrap();
    }

    /// Puts the first day of the preceding month on display. The selected
    /// day stays as it is.
    pub fn prev_month(&mut self)
        requires
            old(self).wf(),
            old(self).has_prev_month(),
        ensures
            final(self).wf(),
            final(self).has_next_month(),
            *final(self) == old(self).after_prev_month(),
    {
        let year = self.current_date.year;
        let month = self.current_date.month;
        let prev_month = if month == 1 {
            Date::from_ymd_opt(year - 1, 12, 1)
        } else {
            Date::from_ymd_opt(year, month - 1, 1)
        };
        self.current_date = prev_month.unwrap();
    }

    /// The grid of the month on display: six weeks of seven days from
    /// Sunday to Saturday, each cell empty or holding a day of the month.
    pub fn get_month_grid(&self) -> (grid: Vec<Vec<Option<u32>>>)
        requires
            self.wf(),
        ensures
            is_month_grid(grid@, self.first_weekday(), self.days_in_month()),
    {
        let year = self.current_date.year;
        let month = self.current_date.month;
        let first_day = Date::from_ymd_opt(year, month, 1).unwrap();
        let next_first_day = if month == 12 {
            Date::from_ymd_opt(year + 1, 1, 1)
        } else {
            Date::from_ymd_opt(year, month + 1, 1)
        };
        proof {
            lemma_month_length(year as int, month as int);
        }
        let days_in_month: u32 = match next_first_day {
            Some(next) => first_day.days_until(next) as u32,
            // Nothing follows the December of the last year, and a December
            // has 31 days.
            None => 31,
        };
        let first_weekday = first_day.weekday();
        build_month_grid(first_weekday, days_in_month)
    }

    /// The day on which one step from the selected day ends: the day that
    /// the grid of the month on display shows next to it, given the year
    /// and month of the selected day. None where the step leaves the grid
    /// or ends on an empty cell, or where the month of the selected day has
    /// no such day.
    pub open spec fn selection_target(self, direction: Direction) -> Option<Date> {
        match neighbour_day(
            self.first_weekday(),
            self.days_in_month(),
            self.selected_date.day as int,
            direction,
        ) {
            Some(day) => if valid_ymd(
                self.selected_date.year as int,
                self.selected_date.month as int,
                day as int,
            ) {
                Some(
                    Date { year: self.selected_date.year, month: self.selected_date.month, day },
                )
            } else {
                None
            },
            None => None,
        }
    }

    /// Moves the selection one step inside the grid of the month on
    /// display, and says whether it moved.
    pub fn move_selection(&mut self, direction: Direction) -> (moved: bool)
        requires
            old(self).wf(),
        ensures
            final(self).wf(),
            final(self).current_date == old(self).current_date,
            moved == old(self).selection_target(direction) is Some,
            final(self).selected_date == match old(self).selection_target(direction) {
                Some(date) => date,
                None => old(self).selected_date,
            },
    {
        let current_grid = self.get_month_grid();
        let current_day = self.selected_date.day;
        let (current_week, current_pos) = find_day(&current_grid, current_day);
        proof {
            let cell = selection_cell(
                self.first_weekday(),
                self.days_in_month(),
                current_day as int,
            );
            lemma_day_cell(
                current_grid@,
                self.first_weekday(),
                self.days_in_month(),
                current_day,
                current_week as int,
                current_pos as int,
            );
            lemma_day_cell(
                current_grid@,
                self.first_weekday(),
                self.days_in_month(),
                current_day,
                cell.0,
                cell.1,
            );
        }
        let target: Option<(usize, usize)> = match direction {
            Direction::Left => if current_pos > 0 {
                Some((current_week, current_pos - 1))
            } else {
                None
            },
            Direction::Right => if current_pos < 6 {
                Some((current_week, current_pos + 1))
            } else {
                None
            },
            Direction::Up => if current_week > 0 {
                Some((current_week - 1, current_pos))
            } else {
                None
            },
            Direction::Down => if current_week < 5 {
                Some((current_week + 1, current_pos))
            } else {
                None
            },
        };
        match target {
            Some((week, pos)) => match current_grid[week][pos] {
                Some(new_day) => match self.selected_date.with_day(new_day) {
                    Some(date) => {
                        self.selected_date = date;
                        true
                    },
                    None => false,
                },
                None => false,
            },
            None => false,
        }
    }
}

} // verus!

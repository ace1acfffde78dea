//! What the interface shows and how each key changes it.

use crate::calendar::{first_filled_cell, is_filled, last_filled_cell, selection_cell};
use crate::calendar::{lemma_first_and_last_day, Calendar, Direction};
use crate::date::{days_in_month, month_after, month_before, Date, MAX_YEAR, MIN_YEAR};
use crate::datetime::DateTime;
use crate::events::{with_event, Event, EventError, EventManager};
use vstd::prelude::*;

verus! {

/// The furthest that the week view and the day view scroll down.
pub const MAX_SCROLL: usize = 16;

/// The number of fields of the form for a new event.
pub const POPUP_FIELDS: usize = 4;

/// `String::push` appends the character to the end of the string.
pub assume_specification[ String::push ](text: &mut String, ch: char)
    ensures
        final(text)@ == old(text)@.push(ch),
;

/// `String::pop` takes the last character off the string and returns it;
/// of an empty string it returns nothing and leaves it empty.
pub assume_specification[ String::pop ](text: &mut String) -> (ch: Option<char>)
    ensures
        old(text)@.len() > 0 ==> ch == Some(old(text)@.last()) && final(text)@ == old(
            text,
        )@.drop_last(),
        old(text)@.len() == 0 ==> ch is None && final(text)@ == old(text)@,
;

/// How much of the calendar the main panel shows.
#[derive(Clone, Copy, Debug, PartialEq, Eq, Structural)]
pub enum ViewMode {
    Month,
    Week,
    Day,
}

/// The panel that takes the arrow keys.
#[derive(Clone, Copy, Debug, PartialEq, Eq, Structural)]
pub enum FocusedPanel {
    Calendar,
    WeekView,
    Events,
}

/// The form for a new event, while it is open.
#[derive(Clone, Debug, PartialEq)]
pub enum PopupState {
    Hidden,
    CreateEvent {
        title: String,
        description: String,
        start_time: DateTime,
        end_time: DateTime,
        focused_field: usize,
    },
}

/// A key of the keyboard.
#[derive(Clone, Copy, Debug, PartialEq, Eq, Structural)]
pub enum Key {
    Char(char),
    Up,
    Down,
    Left,
    Right,
    Tab,
    Enter,
    Esc,
    Backspace,
    Other,
}

/// The form for a new event as its contents: the two texts as sequences of
/// characters.
pub struct Draft {
    pub title: Seq<char>,
    pub description: Seq<char>,
    pub start_time: DateTime,
    pub end_time: DateTime,
    pub focused_field: usize,
}

impl View for PopupState {
    type V = Option<Draft>;

    /// The contents of the form, or nothing while it is hidden.
    open spec fn view(&self) -> Option<Draft> {
        match *self {
            PopupState::Hidden => None,
            PopupState::CreateEvent { title, description, start_time, end_time, focused_field } => {
                Some(
                    Draft {
                        title: title@,
                        description: description@,
                        start_time,
                        end_time,
                        focused_field,
                    },
                )
            },
        }
    }
}

impl PopupState {
    /// Whether the field in focus is one of the fields of the form.
    pub open spec fn wf(self) -> bool {
        match self@ {
            Some(draft) => draft.focused_field < POPUP_FIELDS,
            None => true,
        }
    }

    /// The event that the form describes, under the given identifier.
    pub open spec fn drafted_event(self, id: u128) -> Event {
        match self {
            PopupState::Hidden => arbitrary(),
            PopupState::CreateEvent { title, description, start_time, end_time, focused_field } => {
                Event { id, title, description: Some(description), start_time, end_time }
            },
        }
    }
}

/// What a key makes of the form while it is open: the arrows and the
/// tabulator move the focus, a character goes to the end of the title or of
/// the description, whichever is in focus, the backspace key takes the last
/// character off it, and escape closes the form. Enter closes it where its
/// end lies after its start; where not, the form stays as it is, for the
/// user to mend.
pub open spec fn draft_after_key(draft: Draft, key: Key) -> Option<Draft> {
    match key {
        Key::Up => Some(
            Draft {
                focused_field: if draft.focused_field > 0 {
                    (draft.focused_field - 1) as usize
                } else {
                    draft.focused_field
                },
                ..draft
            },
        ),
        Key::Down => Some(
            Draft {
                focused_field: if draft.focused_field < POPUP_FIELDS - 1 {
                    (draft.focused_field + 1) as usize
                } else {
                    draft.focused_field
                },
                ..draft
            },
        ),
        Key::Tab => Some(
            Draft { focused_field: ((draft.focused_field + 1) % 4) as usize, ..draft },
        ),
        Key::Char(c) => Some(
            if draft.focused_field == 0 {
                Draft { title: draft.title.push(c), ..draft }
            } else if draft.focused_field == 1 {
                Draft { description: draft.description.push(c), ..draft }
            } else {
                draft
            },
        ),
        Key::Backspace => Some(
            if draft.focused_field == 0 && draft.title.len() > 0 {
                Draft { title: draft.title.drop_last(), ..draft }
            } else if draft.focused_field == 1 && draft.description.len() > 0 {
                Draft { description: draft.description.drop_last(), ..draft }
            } else {
                draft
            },
        ),
        Key::Esc => None,
        Key::Enter => if draft.start_time.precedes(draft.end_time) {
            None
        } else {
            Some(draft)
        },
        _ => Some(draft),
    }
}

/// The form as it opens for the selected day: both texts empty, the title
/// in focus, the start on the selected day at the time of day of `now`, and
/// the end one hour later. Nothing where the calendar does not reach one
/// hour further.
pub open spec fn opening_draft(selected: Date, now: DateTime) -> Option<Draft> {
    let start_time = DateTime { date: selected, secs: now.secs, nanos: now.nanos };
    match start_time.plus_one_hour() {
        Some(end_time) => Some(
            Draft {
                title: Seq::empty(),
                description: Seq::empty(),
                start_time,
                end_time,
                focused_field: 0,
            },
        ),
        None => None,
    }
}

/// The calendar after a step of the selection that stays inside the grid:
/// where the step has no day to end on, nothing changes.
pub open spec fn stepped(calendar: Calendar, direction: Direction) -> Calendar {
    match calendar.selection_target(direction) {
        Some(date) => Calendar { selected_date: date, ..calendar },
        None => calendar,
    }
}

/// The calendar after a step to the left: where the grid has no day to the
/// left of the selected one, the preceding month goes on display with its
/// last day selected, if there is such a month.
pub open spec fn stepped_left(calendar: Calendar) -> Calendar {
    if calendar.selection_target(Direction::Left) is Some || !calendar.has_prev_month() {
        stepped(calendar, Direction::Left)
    } else {
        let month = month_before(
            calendar.current_date.year as int,
            calendar.current_date.month as int,
        );
        Calendar {
            current_date: Date { year: month.0 as i32, month: month.1 as u32, day: 1 },
            selected_date: Date {
                year: month.0 as i32,
                month: month.1 as u32,
                day: days_in_month(month.0, month.1) as u32,
            },
        }
    }
}

/// The calendar after a step to the right: where the grid has no day to the
/// right of the selected one, the following month goes on display with its
/// first day selected, if there is such a month.
pub open spec fn stepped_right(calendar: Calendar) -> Calendar {
    if calendar.selection_target(Direction::Right) is Some || !calendar.has_next_month() {
        stepped(calendar, Direction::Right)
    } else {
        let month = month_after(
            calendar.current_date.year as int,
            calendar.current_date.month as int,
        );
        Calendar {
            current_date: Date { year: month.0 as i32, month: month.1 as u32, day: 1 },
            selected_date: Date { year: month.0 as i32, month: month.1 as u32, day: 1 },
        }
    }
}

/// Moves the selection one day to the left; from the left end of a row of
/// the grid it goes to the last day of the preceding month, which goes on
/// display.
pub fn step_left(calendar: &mut Calendar)
    requires
        old(calendar).wf(),
    ensures
        final(calendar).wf(),
        *final(calendar) == stepped_left(*old(calendar)),
{
    if !calendar.move_selection(Direction::Left) {
        if calendar.current_date.year > MIN_YEAR || calendar.current_date.month > 1 {
            calendar.prev_month();
            let grid = calendar.get_month_grid();
            proof {
                let shown = selection_cell(calendar.first_weekday(), calendar.days_in_month(), 1);
                assert(is_filled(grid@, shown.0, shown.1));
            }
            match last_filled_cell(&grid) {
                Some((week, pos)) => {
                    proof {
                        lemma_first_and_last_day(
                            grid@,
                            calendar.first_weekday(),
                            calendar.days_in_month(),
                            week as int,
                            pos as int,
                        );
                    }
                    match grid[week][pos] {
                        Some(last_day) => match calendar.current_date.with_day(last_day) {
                            Some(date) => {
                                calendar.selected_date = date;
                            },
                            None => {},
                        },
                        None => {},
                    }
                },
                None => {},
            }
        }
    }
}

/// Moves the selection one day to the right; from the right end of a row
/// of the grid it goes to the first day of the following month, which goes
/// on display.
pub fn step_right(calendar: &mut Calendar)
    requires
        old(calendar).wf(),
    ensures
        final(calendar).wf(),
        *final(calendar) == stepped_right(*old(calendar)),
{
    if !calendar.move_selection(Direction::Right) {
        if calendar.current_date.year < MAX_YEAR || calendar.current_date.month < 12 {
            calendar.next_month();
            let grid = calendar.get_month_grid();
            proof {
                let shown = selection_cell(calendar.first_weekday(), calendar.days_in_month(), 1);
                assert(is_filled(grid@, shown.0, shown.1));
            }
            match first_filled_cell(&grid) {
                Some((week, pos)) => {
                    proof {
                        lemma_first_and_last_day(
                            grid@,
                            calendar.first_weekday(),
                            calendar.days_in_month(),
                            week as int,
                            pos as int,
                        );
                    }
                    match grid[week][pos] {
                        Some(first_day) => match calendar.current_date.with_day(first_day) {
                            Some(date) => {
                                calendar.selected_date = date;
                            },
                            None => {},
                        },
                        None => {},
                    }
                },
                None => {},
            }
        }
    }
}

/// Everything that the interface shows.
#[derive(Debug)]
pub struct App {
    pub calendar: Calendar,
    pub event_manager: EventManager,
    pub view_mode: ViewMode,
    pub week_scroll: usize,
    pub day_scroll: usize,
    pub focused_panel: FocusedPanel,
    pub popup: PopupState,
    /// Why the last key was refused, if it was, for the user to read.
    pub refusal: Option<EventError>,
}

impl App {
    /// Whether the parts are well formed and neither view is scrolled
    /// further than it goes.
    pub open spec fn wf(self) -> bool {
        &&& self.calendar.wf()
        &&& self.event_manager.wf()
        &&& self.popup.wf()
        &&& self.week_scroll <= MAX_SCROLL
        &&& self.day_scroll <= MAX_SCROLL
    }

    /// Whether the up and down keys scroll the week view.
    pub open spec fn scrolls_week(self) -> bool {
        self.focused_panel == FocusedPanel::WeekView && self.view_mode == ViewMode::Week
    }

    /// Whether the up and down keys scroll the day view.
    pub open spec fn scrolls_day(self) -> bool {
        self.focused_panel == FocusedPanel::WeekView && self.view_mode == ViewMode::Day
    }

    /// Whether the key ends the session: `q`, while the form is hidden.
    pub open spec fn quits_on(self, key: Key) -> bool {
        self.popup@ is None && key == Key::Char('q')
    }

    /// The view after the key: `m`, `w` and `d` choose the month, the week
    /// and the day view while the form is hidden.
    pub open spec fn view_mode_after(self, key: Key) -> ViewMode {
        if self.popup@ is Some {
            self.view_mode
        } else if key == Key::Char('m') {
            ViewMode::Month
        } else if key == Key::Char('w') {
            ViewMode::Week
        } else if key == Key::Char('d') {
            ViewMode::Day
        } else {
            self.view_mode
        }
    }

    /// The panel in focus after the key: the tabulator passes the focus on
    /// while the form is hidden.
    pub open spec fn focused_panel_after(self, key: Key) -> FocusedPanel {
        if self.popup@ is None && key == Key::Tab {
            match self.focused_panel {
                FocusedPanel::Calendar => FocusedPanel::WeekView,
                FocusedPanel::WeekView => FocusedPanel::Events,
                FocusedPanel::Events => FocusedPanel::Calendar,
            }
        } else {
            self.focused_panel
        }
    }

    /// Where a view stands after the key, if the up and down keys scroll it.
    pub open spec fn scrolled(scroll: usize, key: Key) -> usize {
        match key {
            Key::Up => if scroll > 0 {
                (scroll - 1) as usize
            } else {
                scroll
            },
            Key::Down => if scroll < MAX_SCROLL {
                (scroll + 1) as usize
            } else {
                scroll
            },
            _ => scroll,
        }
    }

    /// Where the week view stands after the key.
    pub open spec fn week_scroll_after(self, key: Key) -> usize {
        if self.popup@ is None && self.scrolls_week() {
            Self::scrolled(self.week_scroll, key)
        } else {
            self.week_scroll
        }
    }

    /// Where the day view stands after the key.
    pub open spec fn day_scroll_after(self, key: Key) -> usize {
        if self.popup@ is None && self.scrolls_day() {
            Self::scrolled(self.day_scroll, key)
        } else {
            self.day_scroll
        }
    }

    /// The calendar after the key: while the form is hidden the arrows move
    /// the selection, left and right into the neighbouring month where the
    /// grid ends, up and down unless they scroll a view.
    pub open spec fn calendar_after(self, key: Key) -> Calendar {
        if self.popup@ is Some {
            self.calendar
        } else {
            match key {
                Key::Left => stepped_left(self.calendar),
                Key::Right => stepped_right(self.calendar),
                Key::Up => if self.scrolls_week() || self.scrolls_day() {
                    self.calendar
                } else {
                    stepped(self.calendar, Direction::Up)
                },
                Key::Down => if self.scrolls_week() || self.scrolls_day() {
                    self.calendar
                } else {
                    stepped(self.calendar, Direction::Down)
                },
                _ => self.calendar,
            }
        }
    }

    /// The form after the key: an open form takes the key; a hidden one
    /// opens on `a` while the list of events is in focus.
    pub open spec fn popup_after(self, key: Key, now: DateTime) -> Option<Draft> {
        match self.popup@ {
            Some(draft) => draft_after_key(draft, key),
            None => if key == Key::Char('a') && self.focused_panel == FocusedPanel::Events {
                opening_draft(self.calendar.selected_date, now)
            } else {
                None
            },
        }
    }

    /// Why the key is refused, if it is: enter, while the form is open and
    /// its end does not lie after its start, is refused with
    /// `InvalidTimeRange`. Every other key clears an earlier refusal.
    pub open spec fn refusal_after(self, key: Key) -> Option<EventError> {
        match self.popup@ {
            Some(draft) => if key == Key::Enter && !draft.start_time.precedes(draft.end_time) {
                Some(EventError::InvalidTimeRange)
            } else {
                None
            },
            None => None,
        }
    }

    /// Whether the key adds the event of the form to the store: enter,
    /// while the form is open and its end lies after its start.
    pub open spec fn saves_on(self, key: Key) -> bool {
        match self.popup@ {
            Some(draft) => key == Key::Enter && draft.start_time.precedes(draft.end_time),
            None => false,
        }
    }

    /// The interface as it starts on the given day: the month view of that
    /// day's month with the day selected, no events, the calendar in focus
    /// and the form hidden.
    pub fn starting_at(date: Date) -> (app: App)
        ensures
            app.calendar.current_date == date,
            app.calendar.selected_date == date,
            app.event_manager@ == Map::<u128, Event>::empty(),
            app.view_mode == ViewMode::Month,
            app.week_scroll == 0,
            app.day_scroll == 0,
            app.focused_panel == FocusedPanel::Calendar,
            app.popup@ is None,
            app.refusal is None,
            date.wf() ==> app.wf(),
    {
        App {
            calendar: Calendar::starting_at(date),
            event_manager: EventManager::new(),
            view_mode: ViewMode::Month,
            week_scroll: 0,
            day_scroll: 0,
            focused_panel: FocusedPanel::Calendar,
            popup: PopupState::Hidden,
            refusal: None,
        }
    }

    /// Hands a key to the open form.
    fn popup_key(&mut self, key: Key)
        requires
            old(self).wf(),
            old(self).popup@ is Some,
        ensures
            final(self).wf(),
            final(self).calendar == old(self).calendar,
            final(self).view_mode == old(self).view_mode,
            final(self).week_scroll == old(self).week_scroll,
            final(self).day_scroll == old(self).day_scroll,
            final(self).focused_panel == old(self).focused_panel,
            final(self).popup@ == draft_after_key(old(self).popup@.unwrap(), key),
            final(self).refusal == old(self).refusal_after(key),
            old(self).saves_on(key) ==> exists|id: u128|
                final(self).event_manager@ == with_event(
                    old(self).event_manager@,
                    #[trigger] old(self).popup.drafted_event(id),
                ),
            !old(self).saves_on(key) ==> final(self).event_manager@ == old(self).event_manager@,
    {
        self.refusal = None;
        let mut popup = PopupState::Hidden;
        core::mem::swap(&mut self.popup, &mut popup);
        match popup {
            PopupState::CreateEvent { title, description, start_time, end_time, focused_field } => {
                match key {
                    Key::Up => {
                        let focused_field = if focused_field > 0 {
                            focused_field - 1
                        } else {
                            focused_field
                        };
                        self.popup =
                        PopupState::CreateEvent {
                            title,
                            description,
                            start_time,
                            end_time,
                            focused_field,
                        };
                    },
                    Key::Down => {
                        let focused_field = if focused_field < 3 {
                            focused_field + 1
                        } else {
                            focused_field
                        };
                        self.popup =
                        PopupState::CreateEvent {
                            title,
                            description,
                            start_time,
                            end_time,
                            focused_field,
                        };
                    },
                    Key::Tab => {
                        let focused_field = (focused_field + 1) % 4;
                        self.popup =
                        PopupState::CreateEvent {
                            title,
                            description,
                            start_time,
                            end_time,
                            focused_field,
                        };
                    },
                    Key::Char(c) => {
                        let mut title = title;
                        let mut description = description;
                        if focused_field == 0 {
                            title.push(c);
                        } else if focused_field == 1 {
                            description.push(c);
                        }
                        self.popup =
                        PopupState::CreateEvent {
                            title,
                            description,
                            start_time,
                            end_time,
                            focused_field,
                        };
                    },
                    Key::Backspace => {
                        let mut title = title;
                        let mut description = description;
                        if focused_field == 0 {
                            title.pop();
                        } else if focused_field == 1 {
                            description.pop();
                        }
                        self.popup =
                        PopupState::CreateEvent {
                            title,
                            description,
                            start_time,
                            end_time,
                            focused_field,
                        };
                    },
                    Key::Esc => {},
                    Key::Enter => {
                        if start_time.is_before(&end_time) {
                            match Event::new(title, Some(description), start_time, end_time) {
                                Ok(event) => {
                                    assert(event == old(self).popup.drafted_event(event.id));
                                    let _ = self.event_manager.add_event(event);
                                },
                                Err(_) => {
                                    // The range was tested above.
                                    assert(false);
                                },
                            }
                        } else {
                            self.refusal = Some(EventError::InvalidTimeRange);
                            self.popup =
                            PopupState::CreateEvent {
                                title,
                                description,
                                start_time,
                                end_time,
                                focused_field,
                            };
                        }
                    },
                    _ => {
                        self.popup =
                        PopupState::CreateEvent {
                            title,
                            description,
                            start_time,
                            end_time,
                            focused_field,
                        };
                    },
                }
            },
            PopupState::Hidden => {},
        }
    }

    /// Hands a key to the panels while the form is hidden, and says
    /// whether the key ends the session.
    fn browse_key(&mut self, key: Key, now: DateTime) -> (quit: bool)
        requires
            old(self).wf(),
            old(self).popup@ is None,
            now.wf(),
        ensures
            final(self).wf(),
            quit == old(self).quits_on(key),
            final(self).calendar == old(self).calendar_after(key),
            final(self).view_mode == old(self).view_mode_after(key),
            final(self).week_scroll == old(self).week_scroll_after(key),
            final(self).day_scroll == old(self).day_scroll_after(key),
            final(self).focused_panel == old(self).focused_panel_after(key),
            final(self).popup@ == old(self).popup_after(key, now),
            final(self).refusal is None,
            final(self).event_manager@ == old(self).event_manager@,
    {
        self.refusal = None;
        match key {
            Key::Char(c) => {
                if c == 'q' {
                    return true;
                } else if c == 'm' {
                    self.view_mode = ViewMode::Month;
                } else if c == 'w' {
                    self.view_mode = ViewMode::Week;
                } else if c == 'd' {
                    self.view_mode = ViewMode::Day;
                } else if c == 'a' && self.focused_panel == FocusedPanel::Events {
                    let start_time = DateTime {
                        date: self.calendar.selected_date,
                        secs: now.secs,
                        nanos: now.nanos,
                    };
                    match start_time.one_hour_later() {
                        Some(end_time) => {
                            self.popup =
                            PopupState::CreateEvent {
                                title: String::new(),
                                description: String::new(),
                                start_time,
                                end_time,
                                focused_field: 0,
                            };
                        },
                        None => {},
                    }
                }
            },
            Key::Left => {
                step_left(&mut self.calendar);
            },
            Key::Right => {
                step_right(&mut self.calendar);
            },
            Key::Up => {
                if self.focused_panel == FocusedPanel::WeekView && self.view_mode == ViewMode::Week {
                    if self.week_scroll > 0 {
                        self.week_scroll -= 1;
                    }
                } else if self.focused_panel == FocusedPanel::WeekView && self.view_mode
                    == ViewMode::Day {
                    if self.day_scroll > 0 {
                        self.day_scroll -= 1;
                    }
                } else {
                    self.calendar.move_selection(Direction::Up);
                }
            },
            Key::Down => {
                if self.focused_panel == FocusedPanel::WeekView && self.view_mode == ViewMode::Week {
                    if self.week_scroll < MAX_SCROLL {
                        self.week_scroll += 1;
                    }
                } else if self.focused_panel == FocusedPanel::WeekView && self.view_mode
                    == ViewMode::Day {
                    if self.day_scroll < MAX_SCROLL {
                        self.day_scroll += 1;
                    }
                } else {
                    self.calendar.move_selection(Direction::Down);
                }
            },
            Key::Tab => {
                self.focused_panel =
                match self.focused_panel {
                    FocusedPanel::Calendar => FocusedPanel::WeekView,
                    FocusedPanel::WeekView => FocusedPanel::Events,
                    FocusedPanel::Events => FocusedPanel::Calendar,
                };
            },
            _ => {},
        }
        false
    }

    /// Takes a key: the open form gets it, and else the panels do. `now` is
    /// the time at which the key came. Says whether the key ends the
    /// session. Where the key asks for an event that cannot be made, the
    /// form stays open with its fields and `refusal` says why.
    pub fn handle_key(&mut self, key: Key, now: DateTime) -> (quit: bool)
        requires
            old(self).wf(),
            now.wf(),
        ensures
            final(self).wf(),
            quit == old(self).quits_on(key),
            final(self).calendar == old(self).calendar_after(key),
            final(self).view_mode == old(self).view_mode_after(key),
            final(self).week_scroll == old(self).week_scroll_after(key),
            final(self).day_scroll == old(self).day_scroll_after(key),
            final(self).focused_panel == old(self).focused_panel_after(key),
            final(self).popup@ == old(self).popup_after(key, now),
            final(self).refusal == old(self).refusal_after(key),
            old(self).saves_on(key) ==> exists|id: u128|
                final(self).event_manager@ == with_event(
                    old(self).event_manager@,
                    #[trigger] old(self).popup.drafted_event(id),
                ),
            !old(self).saves_on(key) ==> final(self).event_manager@ == old(self).event_manager@,
    {
        if matches!(self.popup, PopupState::CreateEvent { .. }) {
            self.popup_key(key);
            false
        } else {
            self.browse_key(key, now)
        }
    }

    /// The interface as it starts on the day of the system clock.
    pub fn new() -> (app: App)
        ensures
            app.wf(),
            app.calendar.current_date == app.calendar.selected_date,
            app.event_manager@ == Map::<u128, Event>::empty(),
            app.view_mode == ViewMode::Month,
            app.week_scroll == 0,
            app.day_scroll == 0,
            app.focused_panel == FocusedPanel::Calendar,
            app.popup@ is None,
            app.refusal is None,
    {
        App::starting_at(DateTime::now().date)
    }
}

} // verus!

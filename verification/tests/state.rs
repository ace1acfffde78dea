use cal::calendar::{build_month_grid, first_filled_cell, last_filled_cell, Calendar};
use cal::date::Date;
use cal::datetime::DateTime;
use cal::events::{Event, EventError, EventManager};
use cal::state::{step_left, step_right, App, FocusedPanel, Key, PopupState, ViewMode};

fn date(year: i32, month: u32, day: u32) -> Date {
    Date::from_ymd_opt(year, month, day).unwrap()
}

fn at(year: i32, month: u32, day: u32, hour: u32, minute: u32) -> DateTime {
    DateTime::new(date(year, month, day), hour, minute, 0).unwrap()
}

fn noon() -> DateTime {
    at(2021, 6, 1, 12, 0)
}

fn type_text(app: &mut App, text: &str) {
    for c in text.chars() {
        assert!(!app.handle_key(Key::Char(c), noon()));
    }
}

fn open_form(app: &mut App, now: DateTime) {
    app.focused_panel = FocusedPanel::Events;
    assert!(!app.handle_key(Key::Char('a'), now));
}

#[test]
fn app_starts_on_the_month_view() {
    let app = App::new();
    assert_eq!(app.calendar.current_date, app.calendar.selected_date);
    assert_eq!(app.view_mode, ViewMode::Month);
    assert_eq!(app.week_scroll, 0);
    assert_eq!(app.day_scroll, 0);
    assert_eq!(app.focused_panel, FocusedPanel::Calendar);
    assert_eq!(app.popup, PopupState::Hidden);
    assert_eq!(app.refusal, None);
    assert!(app.event_manager.list_events().is_empty());

    let fixed = App::starting_at(date(2021, 10, 10));
    assert_eq!(fixed.calendar.current_date, date(2021, 10, 10));
    assert_eq!(fixed.calendar.selected_date, date(2021, 10, 10));
}

#[test]
fn first_and_last_filled_cell_of_a_grid() {
    let grid = build_month_grid(5, 31);
    assert_eq!(first_filled_cell(&grid), Some((0, 5)));
    assert_eq!(last_filled_cell(&grid), Some((5, 0)));
    let short = build_month_grid(0, 28);
    assert_eq!(first_filled_cell(&short), Some((0, 0)));
    assert_eq!(last_filled_cell(&short), Some((3, 6)));
    let empty = build_month_grid(2, 0);
    assert_eq!(first_filled_cell(&empty), None);
    assert_eq!(last_filled_cell(&empty), None);
    let ragged = vec![vec![], vec![None, Some(4)], vec![None]];
    assert_eq!(first_filled_cell(&ragged), Some((1, 1)));
    assert_eq!(last_filled_cell(&ragged), Some((1, 1)));
}

#[test]
fn step_right_leaves_october_for_the_first_of_november() {
    let mut calendar = Calendar::starting_at(date(2021, 10, 10));
    calendar.selected_date = date(2021, 10, 31);
    step_right(&mut calendar);
    assert_eq!(calendar.current_date, date(2021, 11, 1));
    assert_eq!(calendar.selected_date, date(2021, 11, 1));
}

#[test]
fn step_left_leaves_a_month_for_the_last_day_before() {
    let mut calendar = Calendar::starting_at(date(2021, 10, 1));
    step_left(&mut calendar);
    assert_eq!(calendar.current_date, date(2021, 9, 1));
    assert_eq!(calendar.selected_date, date(2021, 9, 30));

    let mut march = Calendar::starting_at(date(2024, 3, 3));
    step_left(&mut march);
    assert_eq!(march.current_date, date(2024, 2, 1));
    assert_eq!(march.selected_date, date(2024, 2, 29));

    let mut january = Calendar::starting_at(date(2022, 1, 2));
    step_left(&mut january);
    assert_eq!(january.current_date, date(2021, 12, 1));
    assert_eq!(january.selected_date, date(2021, 12, 31));
}

#[test]
fn steps_inside_a_row_keep_the_month() {
    let mut calendar = Calendar::starting_at(date(2021, 10, 13));
    step_left(&mut calendar);
    assert_eq!(calendar.selected_date, date(2021, 10, 12));
    assert_eq!(calendar.current_date, date(2021, 10, 13));
    step_right(&mut calendar);
    step_right(&mut calendar);
    assert_eq!(calendar.selected_date, date(2021, 10, 14));
    assert_eq!(calendar.current_date, date(2021, 10, 13));
}

#[test]
fn steps_at_the_ends_of_the_calendar_stay() {
    let mut last = Calendar::starting_at(date(262142, 12, 31));
    step_right(&mut last);
    assert_eq!(last.current_date, date(262142, 12, 31));
    assert_eq!(last.selected_date, date(262142, 12, 31));

    let mut first = Calendar::starting_at(date(-262143, 1, 1));
    step_left(&mut first);
    assert_eq!(first.current_date, date(-262143, 1, 1));
    assert_eq!(first.selected_date, date(-262143, 1, 1));
}

#[test]
fn arrow_keys_move_the_selection() {
    let mut app = App::starting_at(date(2021, 10, 13));
    assert!(!app.handle_key(Key::Left, noon()));
    assert_eq!(app.calendar.selected_date, date(2021, 10, 12));
    app.handle_key(Key::Up, noon());
    assert_eq!(app.calendar.selected_date, date(2021, 10, 5));
    app.handle_key(Key::Down, noon());
    app.handle_key(Key::Down, noon());
    assert_eq!(app.calendar.selected_date, date(2021, 10, 19));
    app.handle_key(Key::Right, noon());
    assert_eq!(app.calendar.selected_date, date(2021, 10, 20));
    assert_eq!(app.calendar.current_date, date(2021, 10, 13));
}

#[test]
fn up_and_down_stop_at_the_edge_of_the_month() {
    let mut app = App::starting_at(date(2021, 10, 2));
    app.handle_key(Key::Up, noon());
    assert_eq!(app.calendar.selected_date, date(2021, 10, 2));
    assert_eq!(app.calendar.current_date, date(2021, 10, 2));
    app.calendar.selected_date = date(2021, 10, 30);
    app.handle_key(Key::Down, noon());
    assert_eq!(app.calendar.selected_date, date(2021, 10, 30));
    assert_eq!(app.calendar.current_date, date(2021, 10, 2));
}

#[test]
fn right_key_at_the_end_of_the_month_goes_to_the_next() {
    let mut app = App::starting_at(date(2021, 10, 10));
    app.calendar.selected_date = date(2021, 10, 31);
    app.handle_key(Key::Right, noon());
    assert_eq!(app.calendar.current_date, date(2021, 11, 1));
    assert_eq!(app.calendar.selected_date, date(2021, 11, 1));
    app.handle_key(Key::Left, noon());
    assert_eq!(app.calendar.current_date, date(2021, 10, 1));
    assert_eq!(app.calendar.selected_date, date(2021, 10, 31));
}

#[test]
fn view_keys_choose_the_view() {
    let mut app = App::starting_at(date(2021, 10, 10));
    app.handle_key(Key::Char('w'), noon());
    assert_eq!(app.view_mode, ViewMode::Week);
    app.handle_key(Key::Char('d'), noon());
    assert_eq!(app.view_mode, ViewMode::Day);
    app.handle_key(Key::Char('m'), noon());
    assert_eq!(app.view_mode, ViewMode::Month);
    app.handle_key(Key::Char('x'), noon());
    app.handle_key(Key::Other, noon());
    app.handle_key(Key::Enter, noon());
    app.handle_key(Key::Esc, noon());
    app.handle_key(Key::Backspace, noon());
    assert_eq!(app.view_mode, ViewMode::Month);
    assert_eq!(app.popup, PopupState::Hidden);
    assert_eq!(app.calendar.selected_date, date(2021, 10, 10));
}

#[test]
fn tab_passes_the_focus_round() {
    let mut app = App::starting_at(date(2021, 10, 10));
    app.handle_key(Key::Tab, noon());
    assert_eq!(app.focused_panel, FocusedPanel::WeekView);
    app.handle_key(Key::Tab, noon());
    assert_eq!(app.focused_panel, FocusedPanel::Events);
    app.handle_key(Key::Tab, noon());
    assert_eq!(app.focused_panel, FocusedPanel::Calendar);
}

#[test]
fn up_and_down_scroll_the_week_and_the_day_view() {
    let mut app = App::starting_at(date(2021, 10, 13));
    app.handle_key(Key::Tab, noon());
    // In the month view the arrows still move the selection.
    app.handle_key(Key::Down, noon());
    assert_eq!(app.calendar.selected_date, date(2021, 10, 20));
    assert_eq!(app.week_scroll, 0);

    app.handle_key(Key::Char('w'), noon());
    app.handle_key(Key::Up, noon());
    assert_eq!(app.week_scroll, 0);
    for _ in 0..20 {
        app.handle_key(Key::Down, noon());
    }
    assert_eq!(app.week_scroll, 16);
    assert_eq!(app.day_scroll, 0);
    app.handle_key(Key::Up, noon());
    assert_eq!(app.week_scroll, 15);

    app.handle_key(Key::Char('d'), noon());
    app.handle_key(Key::Down, noon());
    app.handle_key(Key::Down, noon());
    app.handle_key(Key::Up, noon());
    assert_eq!(app.day_scroll, 1);
    assert_eq!(app.week_scroll, 15);
    assert_eq!(app.calendar.selected_date, date(2021, 10, 20));

    // With another panel in focus the arrows move the selection again.
    app.handle_key(Key::Tab, noon());
    app.handle_key(Key::Up, noon());
    assert_eq!(app.calendar.selected_date, date(2021, 10, 13));
    assert_eq!(app.day_scroll, 1);
}

#[test]
fn q_ends_the_session_and_changes_nothing() {
    let mut app = App::starting_at(date(2021, 10, 10));
    assert!(app.handle_key(Key::Char('q'), noon()));
    assert_eq!(app.view_mode, ViewMode::Month);
    assert_eq!(app.focused_panel, FocusedPanel::Calendar);
    assert_eq!(app.calendar.selected_date, date(2021, 10, 10));
}

#[test]
fn a_opens_the_form_for_the_selected_day() {
    let mut app = App::starting_at(date(2021, 10, 10));
    // Not while another panel is in focus.
    app.handle_key(Key::Char('a'), noon());
    assert_eq!(app.popup, PopupState::Hidden);

    open_form(&mut app, at(2021, 6, 1, 14, 30));
    assert_eq!(
        app.popup,
        PopupState::CreateEvent {
            title: String::new(),
            description: String::new(),
            start_time: at(2021, 10, 10, 14, 30),
            end_time: at(2021, 10, 10, 15, 30),
            focused_field: 0,
        }
    );
}

#[test]
fn form_that_opens_late_ends_on_the_next_day() {
    let mut app = App::starting_at(date(2021, 12, 31));
    open_form(&mut app, at(2021, 6, 1, 23, 15));
    match &app.popup {
        PopupState::CreateEvent { start_time, end_time, .. } => {
            assert_eq!(*start_time, at(2021, 12, 31, 23, 15));
            assert_eq!(*end_time, at(2022, 1, 1, 0, 15));
        }
        PopupState::Hidden => panic!("the form is hidden"),
    }
}

#[test]
fn form_stays_hidden_where_the_calendar_ends() {
    let mut app = App::starting_at(date(262142, 12, 31));
    open_form(&mut app, at(2021, 6, 1, 23, 15));
    assert_eq!(app.popup, PopupState::Hidden);
}

#[test]
fn form_takes_text_into_the_field_in_focus() {
    let mut app = App::starting_at(date(2021, 10, 10));
    open_form(&mut app, noon());
    type_text(&mut app, "Teaq");
    app.handle_key(Key::Backspace, noon());
    app.handle_key(Key::Down, noon());
    type_text(&mut app, "with milk");
    app.handle_key(Key::Down, noon());
    type_text(&mut app, "ignored");
    app.handle_key(Key::Backspace, noon());
    match &app.popup {
        PopupState::CreateEvent { title, description, focused_field, .. } => {
            assert_eq!(title, "Tea");
            assert_eq!(description, "with milk");
            assert_eq!(*focused_field, 2);
        }
        PopupState::Hidden => panic!("the form is hidden"),
    }
    // The keys of the panels do nothing while the form is open.
    assert_eq!(app.view_mode, ViewMode::Month);
    assert_eq!(app.focused_panel, FocusedPanel::Events);
    assert_eq!(app.calendar.selected_date, date(2021, 10, 10));
}

#[test]
fn backspace_on_an_empty_field_leaves_it_empty() {
    let mut app = App::starting_at(date(2021, 10, 10));
    open_form(&mut app, noon());
    app.handle_key(Key::Backspace, noon());
    app.handle_key(Key::Tab, noon());
    app.handle_key(Key::Backspace, noon());
    match &app.popup {
        PopupState::CreateEvent { title, description, focused_field, .. } => {
            assert_eq!(title, "");
            assert_eq!(description, "");
            assert_eq!(*focused_field, 1);
        }
        PopupState::Hidden => panic!("the form is hidden"),
    }
}

#[test]
fn focus_moves_through_the_fields_of_the_form() {
    let mut app = App::starting_at(date(2021, 10, 10));
    open_form(&mut app, noon());
    let field = |app: &App| match &app.popup {
        PopupState::CreateEvent { focused_field, .. } => *focused_field,
        PopupState::Hidden => panic!("the form is hidden"),
    };
    app.handle_key(Key::Up, noon());
    assert_eq!(field(&app), 0);
    for expected in [1, 2, 3, 3] {
        app.handle_key(Key::Down, noon());
        assert_eq!(field(&app), expected);
    }
    app.handle_key(Key::Tab, noon());
    assert_eq!(field(&app), 0);
    for expected in [1, 2, 3, 0] {
        app.handle_key(Key::Tab, noon());
        assert_eq!(field(&app), expected);
    }
    app.handle_key(Key::Down, noon());
    app.handle_key(Key::Up, noon());
    assert_eq!(field(&app), 0);
    app.handle_key(Key::Left, noon());
    app.handle_key(Key::Right, noon());
    app.handle_key(Key::Other, noon());
    assert_eq!(field(&app), 0);
    assert_eq!(app.calendar.selected_date, date(2021, 10, 10));
}

#[test]
fn escape_closes_the_form_without_an_event() {
    let mut app = App::starting_at(date(2021, 10, 10));
    open_form(&mut app, noon());
    type_text(&mut app, "Tea");
    assert!(!app.handle_key(Key::Esc, noon()));
    assert_eq!(app.popup, PopupState::Hidden);
    assert!(app.event_manager.list_events().is_empty());
}

#[test]
fn enter_saves_the_event_of_the_form() {
    let mut app = App::starting_at(date(2021, 10, 10));
    open_form(&mut app, at(2021, 6, 1, 9, 0));
    type_text(&mut app, "Tea");
    app.handle_key(Key::Tab, noon());
    type_text(&mut app, "q");
    assert!(!app.handle_key(Key::Enter, noon()));
    assert_eq!(app.popup, PopupState::Hidden);
    assert_eq!(app.refusal, None);

    let events = app.event_manager.list_events_for_day(date(2021, 10, 10));
    assert_eq!(events.len(), 1);
    assert_eq!(events[0].title, "Tea");
    assert_eq!(events[0].description.as_deref(), Some("q"));
    assert_eq!(events[0].start_time, at(2021, 10, 10, 9, 0));
    assert_eq!(events[0].end_time, at(2021, 10, 10, 10, 0));
    let id = events[0].id;
    assert_eq!(app.event_manager.get_event(id).unwrap().id, id);
    assert_eq!(app.event_manager.list_events().len(), 1);
}

#[test]
fn enter_keeps_a_form_whose_event_is_refused() {
    let mut app = App::starting_at(date(2021, 10, 10));
    let form = PopupState::CreateEvent {
        title: "Backwards".to_string(),
        description: "to mend".to_string(),
        start_time: at(2021, 10, 10, 10, 0),
        end_time: at(2021, 10, 10, 9, 0),
        focused_field: 1,
    };
    app.popup = form.clone();
    assert!(!app.handle_key(Key::Enter, noon()));
    assert_eq!(app.popup, form);
    assert_eq!(app.refusal, Some(EventError::InvalidTimeRange));
    assert!(app.event_manager.list_events().is_empty());

    // The next key clears the refusal and goes to the form as before.
    assert!(!app.handle_key(Key::Char('!'), noon()));
    assert_eq!(app.refusal, None);
    match &app.popup {
        PopupState::CreateEvent { title, description, focused_field, .. } => {
            assert_eq!(title, "Backwards");
            assert_eq!(description, "to mend!");
            assert_eq!(*focused_field, 1);
        }
        PopupState::Hidden => panic!("the form is hidden"),
    }

    // Once the times are in order the same key saves the event.
    if let PopupState::CreateEvent { end_time, .. } = &mut app.popup {
        *end_time = at(2021, 10, 10, 11, 0);
    }
    assert!(!app.handle_key(Key::Enter, noon()));
    assert_eq!(app.popup, PopupState::Hidden);
    assert_eq!(app.refusal, None);
    let events = app.event_manager.list_events();
    assert_eq!(events.len(), 1);
    assert_eq!(events[0].title, "Backwards");
    assert_eq!(events[0].description.as_deref(), Some("to mend!"));
}

#[test]
fn enter_keeps_a_form_that_ends_when_it_starts() {
    let mut app = App::starting_at(date(2021, 10, 10));
    let form = PopupState::CreateEvent {
        title: String::new(),
        description: String::new(),
        start_time: at(2021, 10, 10, 10, 0),
        end_time: at(2021, 10, 10, 10, 0),
        focused_field: 0,
    };
    app.popup = form.clone();
    assert!(!app.handle_key(Key::Enter, noon()));
    assert_eq!(app.popup, form);
    assert_eq!(app.refusal, Some(EventError::InvalidTimeRange));
    assert!(!app.handle_key(Key::Esc, noon()));
    assert_eq!(app.popup, PopupState::Hidden);
    assert_eq!(app.refusal, None);
    assert!(app.event_manager.list_events().is_empty());
}

#[test]
fn error_messages_name_the_refusal() {
    assert_eq!(EventError::InvalidTimeRange.message(), "End time must be after start time");
    assert_eq!(EventError::NotFound.message(), "Event not found");
}

#[test]
fn default_store_is_empty() {
    let mut manager = EventManager::default();
    assert!(manager.list_events().is_empty());
    let made = Event::with_id(
        1,
        String::new(),
        None,
        at(2021, 10, 10, 9, 0),
        at(2021, 10, 10, 10, 0),
    )
    .unwrap();
    assert_eq!(manager.add_event(made), Ok(1));
    assert_eq!(manager.list_events().len(), 1);
}

#[test]
fn calendar_shows_a_date_in_its_cell() {
    let calendar = Calendar::starting_at(date(2021, 10, 10));
    assert!(calendar.shows(10, date(2021, 10, 10)));
    assert!(!calendar.shows(11, date(2021, 10, 10)));
    assert!(!calendar.shows(10, date(2021, 11, 10)));
    assert!(!calendar.shows(10, date(2020, 10, 10)));
}

#[test]
fn date_time_tells_the_clock() {
    let time = DateTime::new(date(2021, 10, 10), 13, 7, 59).unwrap();
    assert_eq!((time.hour(), time.minute(), time.second()), (13, 7, 59));
    let midnight = DateTime::new(date(2021, 10, 10), 0, 0, 0).unwrap();
    assert_eq!((midnight.hour(), midnight.minute(), midnight.second()), (0, 0, 0));
    let now = DateTime::now();
    assert!(now.secs < 86400);
    assert!(now.nanos < 1_000_000_000);
    assert!(Date::from_ymd_opt(now.date.year, now.date.month, now.date.day).is_some());
}

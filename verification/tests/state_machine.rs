use rustylock::app::state::{AppData, AppState, ListState, StatefulList};
use rustylock::app::{App, AppReturn, InputMode};
use rustylock::app::actions::confirmation_actions::ConfirmationAction;
use rustylock::app::actions::editing_actions::EditingAction;
use rustylock::app::actions::Action;
use rustylock::config::{Config, PasswordOptions};
use rustylock::inputs::key::Key;
use rustylock::io::IoEvent;
use rustylock::models::clock::Timestamp;
use rustylock::models::key::Key as Record;

fn at(secs: i64) -> Timestamp {
    Timestamp { secs, nanos: 0 }
}

fn record(id: u128, name: &str) -> Record {
    Record::from_db(id, name.to_string(), format!("secret-{id}"), at(100), at(100), at(100), at(100))
}

fn ready_with(names: &[&str]) -> App {
    let mut app = App::new();
    app.initialized();
    let mut keys = Vec::new();
    for (i, name) in names.iter().enumerate() {
        keys.push(record(i as u128 + 1, name));
    }
    app.load_key_list(keys);
    app
}

fn typed(app: &mut App, text: &str) {
    for c in text.chars() {
        assert_eq!(app.do_action(Key::Char(c)), AppReturn::Continue);
    }
}

#[test]
fn session_starts_closed_in_normal_mode() {
    let app = App::new();
    assert_eq!(*app.state(), AppState::Init);
    assert_eq!(app.input_mode(), InputMode::Normal);
    assert_eq!(app.get_input_buffer(), "");
    assert!(!app.is_loading());
    assert_eq!(app.pending_delete(), None);
    assert_eq!(app.actions().actions(), [Action::Quit].as_slice());
    assert_eq!(app.data().keys.items.len(), 0);
    assert_eq!(app.data().keys.state.selected(), None);
    assert_eq!(*app.config(), Config::default());
}

#[test]
fn create_key_does_nothing_before_the_vault_is_open() {
    let mut app = App::new();
    assert_eq!(app.do_action(Key::Char('c')), AppReturn::Continue);
    assert_eq!(app.input_mode(), InputMode::Normal);
    assert_eq!(*app.state(), AppState::Init);
    assert_eq!(app.get_input_buffer(), "");
    assert!(!app.is_loading());
    assert_eq!(app.take_events().len(), 0);
    for key in [Key::Char('?'), Key::Char('j'), Key::Char('k'), Key::Char('d'), Key::Char('y')] {
        assert_eq!(app.do_action(key), AppReturn::Continue);
    }
    assert_eq!(*app.state(), AppState::Init);
    assert_eq!(app.data().keys.state.selected(), None);
    assert_eq!(app.take_events().len(), 0);
}

#[test]
fn create_key_opens_the_empty_form_once_the_vault_is_open() {
    let mut app = ready_with(&[]);
    assert_eq!(app.actions().actions().len(), 7);
    assert_eq!(app.do_action(Key::Char('c')), AppReturn::Continue);
    assert_eq!(app.input_mode(), InputMode::Editing);
    assert_eq!(app.get_input_buffer(), "");
    assert!(app.state().is_creation_popup());
    assert_eq!(
        *app.state(),
        AppState::Initialized {
            counter_tick: 0,
            show_help: false,
            show_creation_popup: true,
            show_confirmation_popup: false,
        }
    );
    assert_eq!(app.take_events().len(), 0);
}

#[test]
fn cursor_moves_over_three_records_and_wraps() {
    let mut app = ready_with(&["a", "b", "c"]);
    assert_eq!(app.data().keys.state.selected(), None);
    assert_eq!(app.do_action(Key::Char('j')), AppReturn::Continue);
    assert_eq!(app.data().keys.state.selected(), Some(0));
    app.do_action(Key::Char('j'));
    assert_eq!(app.data().keys.state.selected(), Some(1));
    app.do_action(Key::Char('j'));
    assert_eq!(app.data().keys.state.selected(), Some(2));
    app.do_action(Key::Char('j'));
    assert_eq!(app.data().keys.state.selected(), Some(0));
    assert_eq!(app.do_action(Key::Char('k')), AppReturn::Continue);
    assert_eq!(app.data().keys.state.selected(), Some(2));
    app.do_action(Key::Char('k'));
    assert_eq!(app.data().keys.state.selected(), Some(1));
    assert_eq!(app.data().keys.items.len(), 3);
    assert_eq!(app.input_mode(), InputMode::Normal);
}

#[test]
fn remove_char_takes_the_last_character_and_stops_at_empty() {
    let mut app = ready_with(&[]);
    app.do_action(Key::Char('c'));
    typed(&mut app, "abc");
    assert_eq!(app.get_input_buffer(), "abc");
    assert_eq!(app.do_action(Key::Backspace), AppReturn::Continue);
    assert_eq!(app.get_input_buffer(), "ab");
    app.do_action(Key::Backspace);
    app.do_action(Key::Backspace);
    assert_eq!(app.get_input_buffer(), "");
    assert_eq!(app.do_action(Key::Backspace), AppReturn::Continue);
    assert_eq!(app.get_input_buffer(), "");
    assert_eq!(app.input_mode(), InputMode::Editing);
}

#[test]
fn typing_writes_plain_characters_only() {
    let mut app = ready_with(&[]);
    app.do_action(Key::Char('c'));
    typed(&mut app, "q?é ");
    assert_eq!(app.get_input_buffer(), "q?é ");
    for key in [Key::Left, Key::Tab, Key::Ctrl('a'), Key::Alt('b'), Key::Null, Key::Delete] {
        assert_eq!(app.do_action(key), AppReturn::Continue);
    }
    assert_eq!(app.get_input_buffer(), "q?é ");
    assert_eq!(app.take_events().len(), 0);
}

#[test]
fn dismiss_leaves_the_form_and_forgets_the_text() {
    let mut app = ready_with(&[]);
    app.do_action(Key::Char('c'));
    typed(&mut app, "half");
    assert_eq!(app.do_action(Key::Esc), AppReturn::Continue);
    assert_eq!(app.input_mode(), InputMode::Normal);
    assert_eq!(app.get_input_buffer(), "");
    assert!(!app.state().is_creation_popup());
    assert_eq!(app.take_events().len(), 0);
    app.do_action(Key::Char('c'));
    assert_eq!(app.get_input_buffer(), "");
}

#[test]
fn validate_registers_a_record_under_the_typed_label() {
    let mut app = ready_with(&[]);
    app.do_action(Key::Char('c'));
    typed(&mut app, "email");
    assert_eq!(app.do_action(Key::Enter), AppReturn::Continue);
    assert_eq!(app.input_mode(), InputMode::Normal);
    assert_eq!(app.get_input_buffer(), "");
    assert!(!app.state().is_creation_popup());
    assert!(app.is_loading());
    let events = app.take_events();
    assert_eq!(events.len(), 2);
    match &events[0] {
        IoEvent::RegisterKey(key) => {
            assert_eq!(key.name(), "email");
            assert_eq!(key.password().chars().count(), 32);
            assert_eq!(key.times().0, key.times().3);
        }
        other => panic!("unexpected request {other:?}"),
    }
    assert!(matches!(events[1], IoEvent::Refresh));
    assert_eq!(app.take_events().len(), 0);
    assert_eq!(app.data().keys.items.len(), 0);
}

#[test]
fn validate_before_the_vault_is_open_sends_the_passphrase() {
    let mut app = App::new();
    app.ask_passphrase();
    assert_eq!(app.input_mode(), InputMode::Editing);
    typed(&mut app, "pw");
    assert_eq!(app.do_action(Key::Enter), AppReturn::Continue);
    assert_eq!(app.input_mode(), InputMode::Normal);
    assert_eq!(app.get_input_buffer(), "pw");
    assert_eq!(*app.state(), AppState::Init);
    assert!(app.is_loading());
    let events = app.take_events();
    assert_eq!(events.len(), 1);
    assert!(matches!(&events[0], IoEvent::Initialize(passphrase) if passphrase == "pw"));
}

#[test]
fn delete_asks_for_confirmation_and_confirm_sends_the_request() {
    let mut app = ready_with(&["a", "b", "c"]);
    assert_eq!(app.do_action(Key::Char('d')), AppReturn::Continue);
    assert_eq!(app.input_mode(), InputMode::Normal);
    assert_eq!(app.pending_delete(), None);
    app.do_action(Key::Char('j'));
    app.do_action(Key::Char('j'));
    assert_eq!(app.do_action(Key::Char('d')), AppReturn::Continue);
    assert_eq!(app.input_mode(), InputMode::Confirmation);
    assert_eq!(app.pending_delete(), Some(2));
    assert!(app.state().is_confirmation_popup());
    assert_eq!(app.do_action(Key::Char('x')), AppReturn::Continue);
    assert_eq!(app.input_mode(), InputMode::Confirmation);
    assert_eq!(app.do_action(Key::Char('y')), AppReturn::Continue);
    assert_eq!(app.input_mode(), InputMode::Normal);
    assert_eq!(app.pending_delete(), None);
    assert!(!app.state().is_confirmation_popup());
    let events = app.take_events();
    assert_eq!(events.len(), 2);
    assert!(matches!(events[0], IoEvent::Delete(2)));
    assert!(matches!(events[1], IoEvent::Refresh));
}

#[test]
fn cancel_forgets_the_deletion() {
    let mut app = ready_with(&["a"]);
    app.do_action(Key::Char('j'));
    app.do_action(Key::Char('d'));
    assert_eq!(app.pending_delete(), Some(1));
    assert_eq!(app.do_action(Key::Esc), AppReturn::Continue);
    assert_eq!(app.input_mode(), InputMode::Normal);
    assert_eq!(app.pending_delete(), None);
    assert!(!app.state().is_confirmation_popup());
    assert!(!app.is_loading());
    assert_eq!(app.take_events().len(), 0);
    assert_eq!(app.data().keys.items.len(), 1);
}

#[test]
fn copy_touches_the_record_and_sends_it() {
    let mut app = ready_with(&["a", "b"]);
    assert_eq!(app.apply(Key::Char('y'), at(500), None), AppReturn::Continue);
    assert_eq!(app.take_events().len(), 0);
    app.apply(Key::Char('j'), at(500), None);
    app.apply(Key::Char('j'), at(500), None);
    assert_eq!(app.apply(Key::Char('y'), at(500), None), AppReturn::Continue);
    assert_eq!(app.data().keys.items[1].times(), (at(100), at(100), at(500), at(100)));
    assert_eq!(app.data().keys.items[0].times(), (at(100), at(100), at(100), at(100)));
    assert_eq!(app.data().keys.state.selected(), Some(1));
    assert!(app.is_loading());
    let events = app.take_events();
    assert_eq!(events.len(), 1);
    match &events[0] {
        IoEvent::Copy(key) => {
            assert_eq!(key.id(), 2);
            assert_eq!(key.password(), "secret-2");
            assert_eq!(key.times().2, at(500));
        }
        other => panic!("unexpected request {other:?}"),
    }
    assert_eq!(app.do_action(Key::Char('y')), AppReturn::Continue);
    assert!(app.data().keys.items[1].times().2.secs > 1_600_000_000);
}

#[test]
fn quit_sends_close_and_ends_the_session_in_every_mode() {
    let mut app = App::new();
    assert_eq!(app.do_action(Key::Char('q')), AppReturn::Exit);
    assert!(matches!(app.take_events()[..], [IoEvent::Close]));
    let mut app = ready_with(&[]);
    assert_eq!(app.do_action(Key::Ctrl('c')), AppReturn::Exit);
    assert!(app.is_loading());
    assert!(matches!(app.take_events()[..], [IoEvent::Close]));
    app.do_action(Key::Char('c'));
    assert_eq!(app.do_action(Key::Char('q')), AppReturn::Continue);
    assert_eq!(app.get_input_buffer(), "q");
    assert_eq!(app.do_action(Key::Ctrl('c')), AppReturn::Exit);
    assert!(matches!(app.take_events()[..], [IoEvent::Close]));
}

#[test]
fn help_toggles() {
    let mut app = ready_with(&[]);
    assert!(!app.state().is_help());
    app.do_action(Key::Char('?'));
    assert!(app.state().is_help());
    app.do_action(Key::Char('?'));
    assert!(!app.state().is_help());
}

#[test]
fn requests_queue_in_the_order_of_dispatch() {
    let mut app = App::new();
    app.dispatch(IoEvent::Refresh);
    app.dispatch(IoEvent::Delete(5));
    app.dispatch(IoEvent::Close);
    assert!(app.is_loading());
    let events = app.take_events();
    assert!(matches!(events[..], [IoEvent::Refresh, IoEvent::Delete(5), IoEvent::Close]));
    assert!(app.is_loading());
    app.loaded();
    assert!(!app.is_loading());
    assert_eq!(app.take_events().len(), 0);
    let copy = events[1].clone();
    assert!(matches!(copy, IoEvent::Delete(5)));
}

#[test]
fn actions_applied_directly() {
    let mut app = ready_with(&["a"]);
    assert_eq!(app.do_normal_action(Action::MoveDown, at(1)), AppReturn::Continue);
    assert_eq!(app.data().keys.state.selected(), Some(0));
    assert_eq!(app.do_normal_action(Action::Quit, at(1)), AppReturn::Exit);
    assert_eq!(
        app.do_editing_action(EditingAction::WriteChar, Key::Char('z'), None),
        AppReturn::Continue
    );
    assert_eq!(app.get_input_buffer(), "z");
    assert_eq!(app.do_editing_action(EditingAction::Validate, Key::Enter, None), AppReturn::Continue);
    assert_eq!(app.get_input_buffer(), "z");
    assert_eq!(app.take_events().len(), 1);
    let draft = record(77, "given");
    app.do_editing_action(EditingAction::Validate, Key::Enter, Some(draft));
    assert_eq!(app.get_input_buffer(), "");
    let events = app.take_events();
    assert!(matches!(&events[0], IoEvent::RegisterKey(key) if key.id() == 77));
    assert_eq!(app.do_confirmation_action(ConfirmationAction::Confirm), AppReturn::Continue);
    assert_eq!(app.take_events().len(), 0);
    assert_eq!(app.do_confirmation_action(ConfirmationAction::Cancel), AppReturn::Continue);
    assert_eq!(app.input_mode(), InputMode::Normal);
}

#[test]
fn mode_switches() {
    let mut app = App::new();
    app.toggle_input_mode();
    assert_eq!(app.input_mode(), InputMode::Editing);
    app.toggle_input_mode();
    assert_eq!(app.input_mode(), InputMode::Normal);
    app.toggle_confirmation_mode();
    assert_eq!(app.input_mode(), InputMode::Confirmation);
    app.toggle_input_mode();
    assert_eq!(app.input_mode(), InputMode::Normal);
    let mut app = ready_with(&[]);
    app.toggle_confirmation_mode();
    assert_eq!(app.input_mode(), InputMode::Confirmation);
    assert!(app.state().is_confirmation_popup());
    app.toggle_confirmation_mode();
    assert_eq!(app.input_mode(), InputMode::Normal);
    assert!(!app.state().is_confirmation_popup());
    app.toggle_input_mode();
    app.toggle_confirmation_mode();
    assert_eq!(app.input_mode(), InputMode::Confirmation);
}

#[test]
fn ticks_count_once_the_vault_is_open() {
    let mut app = App::new();
    assert_eq!(app.update_on_tick(), AppReturn::Continue);
    assert_eq!(app.state().count_tick(), None);
    app.initialized();
    assert_eq!(app.state().count_tick(), Some(0));
    app.update_on_tick();
    app.update_on_tick();
    assert_eq!(app.state().count_tick(), Some(2));
    app.do_action(Key::Char('c'));
    app.update_on_tick();
    assert_eq!(app.state().count_tick(), Some(3));
    assert_eq!(app.input_mode(), InputMode::Editing);
}

#[test]
fn settings_are_replaced_only_by_usable_ones() {
    let mut app = App::new();
    let mut config = Config::default();
    config.password_options.length = 3;
    assert!(!app.set_config(config));
    assert_eq!(*app.config(), Config::default());
    config.password_options.length = 12;
    assert!(app.set_config(config));
    assert_eq!(app.config().password_options.length, 12);
    app.initialized();
    app.do_action(Key::Char('c'));
    typed(&mut app, "short");
    app.do_action(Key::Enter);
    let events = app.take_events();
    assert!(matches!(&events[0], IoEvent::RegisterKey(key) if key.password().len() == 12));
    let unusable = PasswordOptions { length: 0, ..PasswordOptions::default() };
    assert!(!unusable.is_usable());
}

#[test]
fn app_state_flags() {
    let mut state = AppState::default();
    assert_eq!(state, AppState::Init);
    assert!(!state.is_initialized());
    state.toggle_help();
    state.toggle_creation_popup();
    state.toggle_confirmation_popup();
    state.set_creation_popup(true);
    state.set_confirmation_popup(true);
    state.incr_tick();
    assert_eq!(state, AppState::Init);
    assert!(!state.is_help());
    assert!(!state.is_creation_popup());
    assert!(!state.is_confirmation_popup());
    assert_eq!(state.count_tick(), None);
    let mut state = AppState::initialized();
    assert!(state.is_initialized());
    assert_eq!(state.count_tick(), Some(0));
    assert!(!state.is_help() && !state.is_creation_popup() && !state.is_confirmation_popup());
    state.toggle_help();
    assert!(state.is_help());
    state.toggle_creation_popup();
    assert!(state.is_creation_popup());
    state.toggle_confirmation_popup();
    assert!(state.is_confirmation_popup());
    state.incr_tick();
    assert_eq!(
        state,
        AppState::Initialized {
            counter_tick: 1,
            show_help: true,
            show_creation_popup: true,
            show_confirmation_popup: true,
        }
    );
    state.toggle_help();
    state.set_creation_popup(false);
    state.set_creation_popup(false);
    state.set_confirmation_popup(false);
    assert_eq!(
        state,
        AppState::Initialized {
            counter_tick: 1,
            show_help: false,
            show_creation_popup: false,
            show_confirmation_popup: false,
        }
    );
}

#[test]
fn list_cursor() {
    let mut list = StatefulList::with_items(vec!['a', 'b']);
    assert_eq!(list.state.selected(), None);
    list.previous();
    assert_eq!(list.state.selected(), Some(0));
    list.previous();
    assert_eq!(list.state.selected(), Some(1));
    list.next();
    assert_eq!(list.state.selected(), Some(0));
    list.unselect();
    assert_eq!(list.state.selected(), None);
    list.state.select(Some(9));
    list.next();
    assert_eq!(list.state.selected(), Some(0));
    list.state.select(Some(9));
    list.previous();
    assert_eq!(list.state.selected(), Some(8));
    assert_eq!(list.items, vec!['a', 'b']);
    let mut empty: StatefulList<u8> = StatefulList::with_items(Vec::new());
    empty.next();
    assert_eq!(empty.state.selected(), Some(0));
    empty.next();
    assert_eq!(empty.state.selected(), Some(0));
    empty.previous();
    assert_eq!(empty.state.selected(), Some(0));
    assert_eq!(ListState::default().selected(), None);
}

#[test]
fn shown_records() {
    let mut data = AppData::default();
    assert_eq!(data.to_string(), "");
    data.create_key(record(1, "email"));
    data.keys.next();
    data.create_key(record(2, "bank"));
    assert_eq!(data.keys.state.selected(), Some(0));
    assert_eq!(data.to_string(), "email\nbank\n");
    data.load_key_list(vec![record(3, "only")]);
    assert_eq!(data.keys.state.selected(), None);
    assert_eq!(data.to_string(), "only\n");
}

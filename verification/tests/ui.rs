use rustylock::app::actions::confirmation_actions::ConfirmationAction;
use rustylock::app::actions::Action;
use rustylock::app::state::AppState;
use rustylock::app::ui::{
    centered, check_size, decimal, draw_help, tick_text, SizeError, MIN_HEIGHT, MIN_WIDTH,
};

#[test]
fn least_terminal_size() {
    assert_eq!((MIN_WIDTH, MIN_HEIGHT), (52, 28));
    assert_eq!(check_size(52, 28), Ok(()));
    assert_eq!(check_size(200, 60), Ok(()));
    assert_eq!(check_size(51, 28), Err(SizeError::TooNarrow(51)));
    assert_eq!(check_size(52, 27), Err(SizeError::TooShort(27)));
    assert_eq!(check_size(0, 0), Err(SizeError::TooNarrow(0)));
}

#[test]
fn centring_shares() {
    assert_eq!(centered(80), (10, 80, 10));
    assert_eq!(centered(60), (20, 60, 20));
    assert_eq!(centered(10), (45, 10, 45));
    assert_eq!(centered(100), (0, 100, 0));
    assert_eq!(centered(0), (50, 0, 50));
    assert_eq!(centered(75), (12, 75, 12));
}

#[test]
fn numbers_in_decimal() {
    assert_eq!(decimal(0), "0");
    assert_eq!(decimal(7), "7");
    assert_eq!(decimal(10), "10");
    assert_eq!(decimal(1905), "1905");
    assert_eq!(decimal(u64::MAX), "18446744073709551615");
}

#[test]
fn line_under_the_title() {
    assert_eq!(tick_text(&AppState::Init), "");
    let mut state = AppState::initialized();
    assert_eq!(tick_text(&state), "Tick count: 0");
    for _ in 0..42 {
        state.incr_tick();
    }
    assert_eq!(tick_text(&state), "Tick count: 42");
}

#[test]
fn help_rows_name_each_key_and_describe_each_action_once() {
    let rows = draw_help(&[Action::Quit, Action::MoveUp]);
    let shown: Vec<(&str, &str)> =
        rows.iter().map(|row| (row.key.as_str(), row.help.as_str())).collect();
    assert_eq!(shown, vec![("<Ctrl+c>", "Quit"), ("<q>", ""), ("<k>", "Move up")]);
    let rows = draw_help(&[ConfirmationAction::Confirm]);
    let shown: Vec<(&str, &str)> =
        rows.iter().map(|row| (row.key.as_str(), row.help.as_str())).collect();
    assert_eq!(shown, vec![("<y>", "Confirm"), ("<Enter>", "")]);
    let none: [Action; 0] = [];
    assert_eq!(draw_help(&none).len(), 0);
}

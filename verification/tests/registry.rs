use rustylock::app::actions::confirmation_actions::{ConfirmationAction, ConfirmationActions};
use rustylock::app::actions::editing_actions::{EditingAction, EditingActions};
use rustylock::app::actions::registry::{
    bind, check, check_actions, find_bound, find_conflicts, flatten, has_key, holds, Binding,
};
use rustylock::app::actions::{Action, Actions};
use rustylock::inputs::key::Key;

fn full_normal_table() -> Vec<Action> {
    vec![
        Action::Quit,
        Action::Help,
        Action::MoveUp,
        Action::MoveDown,
        Action::CreateKey,
        Action::DeleteKey,
        Action::CopyPassword,
    ]
}

#[test]
fn shared_key_is_refused_naming_both_actions() {
    let table = vec![
        Binding { action: Action::Quit, keys: vec![Key::Char('q')] },
        Binding { action: Action::Help, keys: vec![Key::Char('q')] },
    ];
    let err = check(&table).unwrap_err();
    assert_eq!(err.conflicts.len(), 1);
    assert_eq!(err.conflicts[0].key, Key::Char('q'));
    assert_eq!(err.conflicts[0].actions, vec![Action::Quit, Action::Help]);
    assert_eq!(err.to_string(), "Conflict key <q> with actions Quit, Help");
    assert_eq!(find_conflicts(&table).len(), 1);
}

#[test]
fn full_normal_table_is_accepted_and_k_moves_up() {
    let actions = Actions::from(full_normal_table()).unwrap();
    assert_eq!(actions.find(Key::Char('k')), Some(Action::MoveUp));
    assert_eq!(actions.actions(), full_normal_table().as_slice());
}

#[test]
fn every_normal_key_finds_its_action() {
    let actions = Actions::from(full_normal_table()).unwrap();
    assert_eq!(actions.find(Key::Ctrl('c')), Some(Action::Quit));
    assert_eq!(actions.find(Key::Char('q')), Some(Action::Quit));
    assert_eq!(actions.find(Key::Char('?')), Some(Action::Help));
    assert_eq!(actions.find(Key::Char('j')), Some(Action::MoveDown));
    assert_eq!(actions.find(Key::Char('c')), Some(Action::CreateKey));
    assert_eq!(actions.find(Key::Char('d')), Some(Action::DeleteKey));
    assert_eq!(actions.find(Key::Char('y')), Some(Action::CopyPassword));
    assert_eq!(actions.find(Key::Alt('w')), None);
    assert_eq!(actions.find(Key::Enter), None);
}

#[test]
fn inactive_action_is_not_found() {
    let actions = Actions::from(vec![Action::Quit]).unwrap();
    assert_eq!(actions.find(Key::Char('c')), None);
    assert_eq!(actions.find(Key::Char('q')), Some(Action::Quit));
    assert_eq!(Actions::default().find(Key::Char('q')), None);
}

#[test]
fn action_listed_twice_conflicts_with_itself_on_every_key() {
    let err = Actions::from(vec![Action::Quit, Action::MoveUp, Action::Quit]).unwrap_err();
    assert_eq!(err.conflicts.len(), 2);
    assert_eq!(err.conflicts[0].key, Key::Ctrl('c'));
    assert_eq!(err.conflicts[0].actions, vec![Action::Quit, Action::Quit]);
    assert_eq!(err.conflicts[1].key, Key::Char('q'));
    assert_eq!(err.conflicts[1].actions, vec![Action::Quit, Action::Quit]);
    assert_eq!(
        err.to_string(),
        "Conflict key <Ctrl+c> with actions Quit, Quit; Conflict key <q> with actions Quit, Quit"
    );
}

#[test]
fn conflicts_come_in_the_order_of_first_claim_with_all_holders() {
    let table = vec![
        Binding { action: 1u8, keys: vec![Key::Enter, Key::Char('a')] },
        Binding { action: 2u8, keys: vec![Key::Char('b'), Key::Char('a')] },
        Binding { action: 3u8, keys: vec![Key::Char('a'), Key::Enter, Key::Esc] },
    ];
    let found = find_conflicts(&table);
    assert_eq!(found.len(), 2);
    assert_eq!(found[0].key, Key::Enter);
    assert_eq!(found[0].actions, vec![1u8, 3u8]);
    assert_eq!(found[1].key, Key::Char('a'));
    assert_eq!(found[1].actions, vec![1u8, 2u8, 3u8]);
    assert!(check(&table).is_err());
}

#[test]
fn key_listed_twice_in_one_row_is_a_conflict() {
    let table = vec![Binding { action: 7u8, keys: vec![Key::Tab, Key::Tab] }];
    let found = find_conflicts(&table);
    assert_eq!(found.len(), 1);
    assert_eq!(found[0].key, Key::Tab);
    assert_eq!(found[0].actions, vec![7u8, 7u8]);
}

#[test]
fn empty_table_and_disjoint_table_are_accepted() {
    let empty: Vec<Binding<u8>> = Vec::new();
    assert!(check(&empty).is_ok());
    assert_eq!(find_conflicts(&empty).len(), 0);
    let table = vec![
        Binding { action: 1u8, keys: vec![Key::Up] },
        Binding { action: 2u8, keys: vec![] },
        Binding { action: 3u8, keys: vec![Key::Down, Key::Left] },
    ];
    assert!(check(&table).is_ok());
}

#[test]
fn flatten_lists_claims_row_after_row() {
    let table = vec![
        Binding { action: 'x', keys: vec![Key::Up, Key::Down] },
        Binding { action: 'y', keys: vec![] },
        Binding { action: 'z', keys: vec![Key::Left] },
    ];
    assert_eq!(flatten(&table), vec![('x', Key::Up), ('x', Key::Down), ('z', Key::Left)]);
}

#[test]
fn bind_pairs_each_action_with_its_own_keys() {
    let table = bind(&vec![Action::MoveUp, Action::Quit]);
    assert_eq!(table.len(), 2);
    assert_eq!(table[0].action, Action::MoveUp);
    assert_eq!(table[0].keys, vec![Key::Char('k')]);
    assert_eq!(table[1].action, Action::Quit);
    assert_eq!(table[1].keys, vec![Key::Ctrl('c'), Key::Char('q')]);
    assert!(check_actions(&vec![Action::MoveUp, Action::Quit]).is_ok());
}

#[test]
fn membership_helpers() {
    assert!(holds(&vec![Action::Quit, Action::Help], &Action::Help));
    assert!(!holds(&vec![Action::Quit, Action::Help], &Action::MoveUp));
    assert!(has_key(&vec![Key::Esc, Key::Char('c')], Key::Char('c')));
    assert!(!has_key(&vec![Key::Esc, Key::Char('c')], Key::Ctrl('c')));
    assert_eq!(find_bound(&vec![Action::MoveDown], Key::Char('j')), Some(Action::MoveDown));
    assert_eq!(find_bound(&vec![Action::MoveDown], Key::Char('k')), None);
}

#[test]
fn normal_actions_keys_and_labels() {
    assert_eq!(Action::iterator(), full_normal_table());
    assert_eq!(Action::Quit.keys(), vec![Key::Ctrl('c'), Key::Char('q')]);
    assert_eq!(Action::Help.keys(), vec![Key::Char('?')]);
    assert_eq!(Action::MoveUp.keys(), vec![Key::Char('k')]);
    assert_eq!(Action::MoveDown.keys(), vec![Key::Char('j')]);
    assert_eq!(Action::CreateKey.keys(), vec![Key::Char('c')]);
    assert_eq!(Action::DeleteKey.keys(), vec![Key::Char('d')]);
    assert_eq!(Action::CopyPassword.keys(), vec![Key::Char('y')]);
    assert_eq!(Action::Quit.to_string(), "Quit");
    assert_eq!(Action::Help.to_string(), "Help");
    assert_eq!(Action::MoveUp.to_string(), "Move up");
    assert_eq!(Action::MoveDown.to_string(), "Move down");
    assert_eq!(Action::CreateKey.to_string(), "Create a new key");
    assert_eq!(Action::DeleteKey.to_string(), "Delete the selected key");
    assert_eq!(Action::CopyPassword.to_string(), "Copy the password");
}

#[test]
fn editing_actions_keys_labels_and_lookup() {
    assert_eq!(
        EditingAction::iterator(),
        vec![
            EditingAction::Quit,
            EditingAction::RemoveChar,
            EditingAction::Validate,
            EditingAction::Dismiss,
        ]
    );
    assert_eq!(EditingAction::Quit.keys(), vec![Key::Ctrl('c')]);
    assert_eq!(EditingAction::RemoveChar.keys(), vec![Key::Backspace]);
    assert_eq!(EditingAction::Validate.keys(), vec![Key::Enter]);
    assert_eq!(EditingAction::Dismiss.keys(), vec![Key::Esc]);
    assert_eq!(EditingAction::WriteChar.keys(), vec![Key::Null]);
    assert_eq!(EditingAction::Quit.to_string(), "Quit");
    assert_eq!(EditingAction::Dismiss.to_string(), "Dismiss");
    assert_eq!(EditingAction::Validate.to_string(), "");
    let actions = EditingActions::from(vec![
        EditingAction::Quit,
        EditingAction::RemoveChar,
        EditingAction::Dismiss,
        EditingAction::Validate,
        EditingAction::WriteChar,
    ])
    .unwrap();
    assert_eq!(actions.actions().len(), 5);
    assert_eq!(actions.find(Key::Enter), Some(EditingAction::Validate));
    assert_eq!(actions.find(Key::Backspace), Some(EditingAction::RemoveChar));
    assert_eq!(actions.find(Key::Esc), Some(EditingAction::Dismiss));
    assert_eq!(actions.find(Key::Ctrl('c')), Some(EditingAction::Quit));
    assert_eq!(actions.find(Key::Char('q')), None);
    assert_eq!(actions.find(Key::Null), None);
    let err = EditingActions::from(vec![EditingAction::Dismiss, EditingAction::Dismiss])
        .unwrap_err();
    assert_eq!(err.to_string(), "Conflict key <Esc> with actions Dismiss, Dismiss");
}

#[test]
fn confirmation_actions_keys_labels_and_lookup() {
    assert_eq!(
        ConfirmationAction::iterator(),
        vec![ConfirmationAction::Cancel, ConfirmationAction::Confirm]
    );
    assert_eq!(ConfirmationAction::Cancel.keys(), vec![Key::Char('c'), Key::Esc]);
    assert_eq!(ConfirmationAction::Confirm.keys(), vec![Key::Char('y'), Key::Enter]);
    assert_eq!(ConfirmationAction::Cancel.to_string(), "Cancel");
    assert_eq!(ConfirmationAction::Confirm.to_string(), "Confirm");
    let actions =
        ConfirmationActions::from(vec![ConfirmationAction::Cancel, ConfirmationAction::Confirm])
            .unwrap();
    assert_eq!(actions.find(Key::Char('y')), Some(ConfirmationAction::Confirm));
    assert_eq!(actions.find(Key::Enter), Some(ConfirmationAction::Confirm));
    assert_eq!(actions.find(Key::Esc), Some(ConfirmationAction::Cancel));
    assert_eq!(actions.find(Key::Char('c')), Some(ConfirmationAction::Cancel));
    assert_eq!(actions.find(Key::Char('n')), None);
    assert_eq!(actions.actions().len(), 2);
    assert!(ConfirmationActions::from(vec![
        ConfirmationAction::Confirm,
        ConfirmationAction::Cancel,
        ConfirmationAction::Confirm,
    ])
    .is_err());
}

#[test]
fn key_texts_and_characters() {
    assert_eq!(Key::Enter.to_string(), "<Enter>");
    assert_eq!(Key::Backspace.to_string(), "<Backspace>");
    assert_eq!(Key::PageDown.to_string(), "<PageDown>");
    assert_eq!(Key::Null.to_string(), "<Null>");
    assert_eq!(Key::Char('x').to_string(), "<x>");
    assert_eq!(Key::Ctrl('c').to_string(), "<Ctrl+c>");
    assert_eq!(Key::Alt('w').to_string(), "<Alt+w>");
    assert_eq!(Key::Char('x').to_char(), Some('x'));
    assert_eq!(Key::Ctrl('x').to_char(), None);
    assert_eq!(Key::Enter.to_char(), None);
    assert!(Key::Ctrl('c').is_exit());
    assert!(Key::Char('q').is_exit());
    assert!(Key::Esc.is_exit());
    assert!(!Key::Char('c').is_exit());
}

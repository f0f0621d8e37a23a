//! The actions of the normal mode and the tables that bind keys to actions.

use vstd::prelude::*;
use crate::app::actions::registry::{
    check_actions, find_bound, bindings_of, claims, conflict_free, conflict_views, first_bound,
    keys_apart, spec_conflicts, Bindable, ConflictError,
};
use crate::inputs::key::Key;

pub mod confirmation_actions;
pub mod editing_actions;
pub mod registry;

verus! {

/// What the user can ask for while browsing the records.
#[derive(Debug, Clone, Copy, Eq, PartialEq, Structural)]
pub enum Action {
    Quit,
    Help,
    MoveUp,
    MoveDown,
    CreateKey,
    DeleteKey,
    CopyPassword,
}

impl Action {
    /// All the actions, in the order in which they are declared.
    pub open spec fn all() -> Seq<Action> {
        seq![
            Action::Quit,
            Action::Help,
            Action::MoveUp,
            Action::MoveDown,
            Action::CreateKey,
            Action::DeleteKey,
            Action::CopyPassword,
        ]
    }

    /// The keys that trigger the action.
    pub open spec fn spec_keys(self) -> Seq<Key> {
        match self {
            Action::Quit => seq![Key::Ctrl('c'), Key::Char('q')],
            Action::Help => seq![Key::Char('?')],
            Action::MoveUp => seq![Key::Char('k')],
            Action::MoveDown => seq![Key::Char('j')],
            Action::CreateKey => seq![Key::Char('c')],
            Action::DeleteKey => seq![Key::Char('d')],
            Action::CopyPassword => seq![Key::Char('y')],
        }
    }

    /// The short description of the action.
    pub open spec fn label(self) -> Seq<char> {
        match self {
            Action::Quit => "Quit"@,
            Action::Help => "Help"@,
            Action::MoveUp => "Move up"@,
            Action::MoveDown => "Move down"@,
            Action::CreateKey => "Create a new key"@,
            Action::DeleteKey => "Delete the selected key"@,
            Action::CopyPassword => "Copy the password"@,
        }
    }

    /// All the actions, in the order in which they are declared.
    pub fn iterator() -> (r: Vec<Action>)
        ensures
            r@ == Action::all(),
    {
        vec![
            Action::Quit,
            Action::Help,
            Action::MoveUp,
            Action::MoveDown,
            Action::CreateKey,
            Action::DeleteKey,
            Action::CopyPassword,
        ]
    }

    /// The keys that trigger the action.
    pub fn keys(&self) -> (r: Vec<Key>)
        ensures
            r@ == self.spec_keys(),
    {
        match self {
            Action::Quit => vec![Key::Ctrl('c'), Key::Char('q')],
            Action::Help => vec![Key::Char('?')],
            Action::MoveUp => vec![Key::Char('k')],
            Action::MoveDown => vec![Key::Char('j')],
            Action::CreateKey => vec![Key::Char('c')],
            Action::DeleteKey => vec![Key::Char('d')],
            Action::CopyPassword => vec![Key::Char('y')],
        }
    }

    /// The short description of the action, for the help view.
    pub fn to_string(&self) -> (r: String)
        ensures
            r@ == self.label(),
    {
        match self {
            Action::Quit => "Quit".to_owned(),
            Action::Help => "Help".to_owned(),
            Action::MoveUp => "Move up".to_owned(),
            Action::MoveDown => "Move down".to_owned(),
            Action::CreateKey => "Create a new key".to_owned(),
            Action::DeleteKey => "Delete the selected key".to_owned(),
            Action::CopyPassword => "Copy the password".to_owned(),
        }
    }
}

impl Bindable for Action {
    open spec fn universe() -> Seq<Action> {
        Action::all()
    }

    open spec fn bound_keys(self) -> Seq<Key> {
        self.spec_keys()
    }

    fn every() -> (r: Vec<Action>) {
        Action::iterator()
    }

    fn key_list(&self) -> (r: Vec<Key>) {
        self.keys()
    }

    fn same(&self, other: &Action) -> (r: bool) {
        *self == *other
    }

    open spec fn title(self) -> Seq<char> {
        self.label()
    }

    fn describe(&self) -> (r: String) {
        self.to_string()
    }
}

/// The actions of the normal mode keep their keys apart.
pub proof fn lemma_action_keys_apart()
    ensures
        keys_apart::<Action>(),
{
    assert forall|a: Action| (#[trigger] a.bound_keys()).no_duplicates() by {}
    assert forall|a: Action, b: Action, k: Key|
        a != b && (#[trigger] a.bound_keys().contains(k)) implies !(
    #[trigger] b.bound_keys().contains(k)) by {}
}

/// The actions that are active in the normal mode. No two of them claim the
/// same key.
#[derive(Debug)]
pub struct Actions(Vec<Action>);

impl View for Actions {
    type V = Seq<Action>;

    closed spec fn view(&self) -> Seq<Action> {
        self.0@
    }
}

impl Actions {
    /// Whether no two of the active actions claim the same key.
    pub open spec fn wf(&self) -> bool {
        conflict_free(claims(bindings_of(self@)))
    }

    /// The action that a key triggers: the first action, in the order in which
    /// they are declared, that is active and has the key.
    pub fn find(&self, key: Key) -> (r: Option<Action>)
        ensures
            r == first_bound(Action::all(), self@, key),
    {
        find_bound(&self.0, key)
    }

    /// The active actions, in the order in which they were given.
    pub fn actions(&self) -> (r: &[Action])
        ensures
            r@ == self@,
    {
        self.0.as_slice()
    }

    /// Makes the given actions the active ones, unless two of them claim the
    /// same key: then every such key is named, with every action that claims
    /// it.
    pub fn from(actions: Vec<Action>) -> (r: Result<Actions, ConflictError<Action>>)
        ensures
            r is Ok <==> conflict_free(claims(bindings_of(actions@))),
            r matches Ok(made) ==> made@ == actions@ && made.wf(),
            r matches Err(e) ==> conflict_views(e.conflicts@) == spec_conflicts(
                claims(bindings_of(actions@)),
            ),
    {
        match check_actions(&actions) {
            Ok(()) => Ok(Actions(actions)),
            Err(e) => Err(e),
        }
    }
}

impl Default for Actions {
    fn default() -> (r: Actions)
        ensures
            r@ == Seq::<Action>::empty(),
    {
        Actions(Vec::new())
    }
}

impl Clone for Actions {
    fn clone(&self) -> (r: Actions)
        ensures
            r@ == self@,
    {
        Actions(self.0.clone())
    }
}

} // verus!

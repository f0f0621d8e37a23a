use vstd::prelude::*;
use crate::app::actions::registry::{
    check_actions, find_bound, bindings_of, claims, conflict_free, conflict_views, first_bound,
    keys_apart, spec_conflicts, Bindable, ConflictError,
};
use crate::inputs::key::Key;

verus! {

/// What the user can ask for while typing into the text field.
#[derive(Debug, Clone, Copy, Eq, PartialEq, Structural)]
pub enum EditingAction {
    Quit,
    RemoveChar,
    Validate,
    Dismiss,
    /// What any key that triggers nothing else stands for.
    WriteChar,
}

impl EditingAction {
    /// The actions that a key can trigger, in the order in which they are
    /// declared. Writing a character is not among them: no key is bound to it.
    pub open spec fn all() -> Seq<EditingAction> {
        seq![
            EditingAction::Quit,
            EditingAction::RemoveChar,
            EditingAction::Validate,
            EditingAction::Dismiss,
        ]
    }

    /// The keys that trigger the action.
    pub open spec fn spec_keys(self) -> Seq<Key> {
        match self {
            EditingAction::Quit => seq![Key::Ctrl('c')],
            EditingAction::RemoveChar => seq![Key::Backspace],
            EditingAction::Validate => seq![Key::Enter],
            EditingAction::Dismiss => seq![Key::Esc],
            EditingAction::WriteChar => seq![Key::Null],
        }
    }

    /// The short description of the action.
    pub open spec fn label(self) -> Seq<char> {
        match self {
            EditingAction::Quit => "Quit"@,
            EditingAction::Dismiss => "Dismiss"@,
            _ => ""@,
        }
    }

    /// The actions that a key can trigger, in the order in which they are
    /// declared.
    pub fn iterator() -> (r: Vec<EditingAction>)
        ensures
            r@ == EditingAction::all(),
    {
        vec![
            EditingAction::Quit,
            EditingAction::RemoveChar,
            EditingAction::Validate,
            EditingAction::Dismiss,
        ]
    }

    /// The keys that trigger the action.
    pub fn keys(&self) -> (r: Vec<Key>)
        ensures
            r@ == self.spec_keys(),
    {
        match self {
            EditingAction::Quit => vec![Key::Ctrl('c')],
            EditingAction::RemoveChar => vec![Key::Backspace],
            EditingAction::Validate => vec![Key::Enter],
            EditingAction::Dismiss => vec![Key::Esc],
            EditingAction::WriteChar => vec![Key::Null],
        }
    }

    /// The short description of the action, for the help view.
    pub fn to_string(&self) -> (r: String)
        ensures
            r@ == self.label(),
    {
        match self {
            EditingAction::Quit => "Quit".to_owned(),
            EditingAction::Dismiss => "Dismiss".to_owned(),
            _ => "".to_owned(),
        }
    }
}

impl Bindable for EditingAction {
    open spec fn universe() -> Seq<EditingAction> {
        EditingAction::all()
    }

    open spec fn bound_keys(self) -> Seq<Key> {
        self.spec_keys()
    }

    fn every() -> (r: Vec<EditingAction>) {
        EditingAction::iterator()
    }

    fn key_list(&self) -> (r: Vec<Key>) {
        self.keys()
    }

    fn same(&self, other: &EditingAction) -> (r: bool) {
        *self == *other
    }

    open spec fn title(self) -> Seq<char> {
        self.label()
    }

    fn describe(&self) -> (r: String) {
        self.to_string()
    }
}

/// The actions of the editing mode keep their keys apart.
pub proof fn lemma_editing_keys_apart()
    ensures
        keys_apart::<EditingAction>(),
{
    assert forall|a: EditingAction| (#[trigger] a.bound_keys()).no_duplicates() by {}
    assert forall|a: EditingAction, b: EditingAction, k: Key|
        a != b && (#[trigger] a.bound_keys().contains(k)) implies !(
    #[trigger] b.bound_keys().contains(k)) by {}
}

/// The actions that are active while typing. No two of them claim the same
/// key.
#[derive(Debug)]
pub struct EditingActions(Vec<EditingAction>);

impl View for EditingActions {
    type V = Seq<EditingAction>;

    closed spec fn view(&self) -> Seq<EditingAction> {
        self.0@
    }
}

impl EditingActions {
    /// Whether no two of the active actions claim the same key.
    pub open spec fn wf(&self) -> bool {
        conflict_free(claims(bindings_of(self@)))
    }

    /// The action that a key triggers: the first action, in the order in which
    /// they are declared, that is active and has the key.
    pub fn find(&self, key: Key) -> (r: Option<EditingAction>)
        ensures
            r == first_bound(EditingAction::all(), self@, key),
    {
        find_bound(&self.0, key)
    }

    /// The active actions, in the order in which they were given.
    pub fn actions(&self) -> (r: &[EditingAction])
        ensures
            r@ == self@,
    {
        self.0.as_slice()
    }

    /// Makes the given actions the active ones, unless two of them claim the
    /// same key: then every such key is named, with every action that claims
    /// it.
    pub fn from(actions: Vec<EditingAction>) -> (r: Result<
        EditingActions,
        ConflictError<EditingAction>,
    >)
        ensures
            r is Ok <==> conflict_free(claims(bindings_of(actions@))),
            r matches Ok(made) ==> made@ == actions@ && made.wf(),
            r matches Err(e) ==> conflict_views(e.conflicts@) == spec_conflicts(
                claims(bindings_of(actions@)),
            ),
    {
        match check_actions(&actions) {
            Ok(()) => Ok(EditingActions(actions)),
            Err(e) => Err(e),
        }
    }
}

impl Default for EditingActions {
    fn default() -> (r: EditingActions)
        ensures
            r@ == Seq::<EditingAction>::empty(),
    {
        EditingActions(Vec::new())
    }
}

impl Clone for EditingActions {
    fn clone(&self) -> (r: EditingActions)
        ensures
            r@ == self@,
    {
        EditingActions(self.0.clone())
    }
}

} // verus!

use vstd::prelude::*;
use crate::app::actions::registry::{
    check_actions, find_bound, bindings_of, claims, conflict_free, conflict_views, first_bound,
    keys_apart, spec_conflicts, Bindable, ConflictError,
};
use crate::inputs::key::Key;

verus! {

/// What the user can answer when asked to confirm.
#[derive(Debug, Clone, Copy, Eq, PartialEq, Structural)]
pub enum ConfirmationAction {
    Cancel,
    Confirm,
}

impl ConfirmationAction {
    /// Both answers, in the order in which they are declared.
    pub open spec fn all() -> Seq<ConfirmationAction> {
        seq![ConfirmationAction::Cancel, ConfirmationAction::Confirm]
    }

    /// The keys that trigger the answer.
    pub open spec fn spec_keys(self) -> Seq<Key> {
        match self {
            ConfirmationAction::Cancel => seq![Key::Char('c'), Key::Esc],
            ConfirmationAction::Confirm => seq![Key::Char('y'), Key::Enter],
        }
    }

    /// The short description of the answer.
    pub open spec fn label(self) -> Seq<char> {
        match self {
            ConfirmationAction::Cancel => "Cancel"@,
            ConfirmationAction::Confirm => "Confirm"@,
        }
    }

    /// Both answers, in the order in which they are declared.
    pub fn iterator() -> (r: Vec<ConfirmationAction>)
        ensures
            r@ == ConfirmationAction::all(),
    {
        vec![ConfirmationAction::Cancel, ConfirmationAction::Confirm]
    }

    /// The keys that trigger the answer.
    pub fn keys(&self) -> (r: Vec<Key>)
        ensures
            r@ == self.spec_keys(),
    {
        match self {
            ConfirmationAction::Cancel => vec![Key::Char('c'), Key::Esc],
            ConfirmationAction::Confirm => vec![Key::Char('y'), Key::Enter],
        }
    }

    /// The short description of the answer, for the help view.
    pub fn to_string(&self) -> (r: String)
        ensures
            r@ == self.label(),
    {
        match self {
            ConfirmationAction::Cancel => "Cancel".to_owned(),
            ConfirmationAction::Confirm => "Confirm".to_owned(),
        }
    }
}

impl Bindable for ConfirmationAction {
    open spec fn universe() -> Seq<ConfirmationAction> {
        ConfirmationAction::all()
    }

    open spec fn bound_keys(self) -> Seq<Key> {
        self.spec_keys()
    }

    fn every() -> (r: Vec<ConfirmationAction>) {
        ConfirmationAction::iterator()
    }

    fn key_list(&self) -> (r: Vec<Key>) {
        self.keys()
    }

    fn same(&self, other: &ConfirmationAction) -> (r: bool) {
        *self == *other
    }

    open spec fn title(self) -> Seq<char> {
        self.label()
    }

    fn describe(&self) -> (r: String) {
        self.to_string()
    }
}

/// The answers to a confirmation keep their keys apart.
pub proof fn lemma_confirmation_keys_apart()
    ensures
        keys_apart::<ConfirmationAction>(),
{
    assert forall|a: ConfirmationAction| (#[trigger] a.bound_keys()).no_duplicates() by {}
    assert forall|a: ConfirmationAction, b: ConfirmationAction, k: Key|
        a != b && (#[trigger] a.bound_keys().contains(k)) implies !(
    #[trigger] b.bound_keys().contains(k)) by {}
}

/// The answers that are active while a confirmation is asked for. No two of
/// them claim the same key.
#[derive(Debug)]
pub struct ConfirmationActions(Vec<ConfirmationAction>);

impl View for ConfirmationActions {
    type V = Seq<ConfirmationAction>;

    closed spec fn view(&self) -> Seq<ConfirmationAction> {
        self.0@
    }
}

impl ConfirmationActions {
    /// Whether no two of the active answers claim the same key.
    pub open spec fn wf(&self) -> bool {
        conflict_free(claims(bindings_of(self@)))
    }

    /// The answer that a key triggers: the first answer, in the order in which
    /// they are declared, that is active and has the key.
    pub fn find(&self, key: Key) -> (r: Option<ConfirmationAction>)
        ensures
            r == first_bound(ConfirmationAction::all(), self@, key),
    {
        find_bound(&self.0, key)
    }

    /// The active answers, in the order in which they were given.
    pub fn actions(&self) -> (r: &[ConfirmationAction])
        ensures
            r@ == self@,
    {
        self.0.as_slice()
    }

    /// Makes the given answers the active ones, unless two of them claim the
    /// same key: then every such key is named, with every answer that claims
    /// it.
    pub fn from(actions: Vec<ConfirmationAction>) -> (r: Result<
        ConfirmationActions,
        ConflictError<ConfirmationAction>,
    >)
        ensures
            r is Ok <==> conflict_free(claims(bindings_of(actions@))),
            r matches Ok(made) ==> made@ == actions@ && made.wf(),
            r matches Err(e) ==> conflict_views(e.conflicts@) == spec_conflicts(
                claims(bindings_of(actions@)),
            ),
    {
        match check_actions(&actions) {
            Ok(()) => Ok(ConfirmationActions(actions)),
            Err(e) => Err(e),
        }
    }
}

impl Default for ConfirmationActions {
    fn default() -> (r: ConfirmationActions)
        ensures
            r@ == Seq::<ConfirmationAction>::empty(),
    {
        ConfirmationActions(Vec::new())
    }
}

impl Clone for ConfirmationActions {
    fn clone(&self) -> (r: ConfirmationActions)
        ensures
            r@ == self@,
    {
        ConfirmationActions(self.0.clone())
    }
}

} // verus!

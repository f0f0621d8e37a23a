//! The interactive state machine: modes, phases and what each action does.

use vstd::prelude::*;
use crate::app::actions::confirmation_actions::{
    lemma_confirmation_keys_apart, ConfirmationAction, ConfirmationActions,
};
use crate::app::actions::editing_actions::{
    lemma_editing_keys_apart, EditingAction, EditingActions,
};
use crate::app::actions::registry::{
    bindings_of, claims, conflict_free, first_bound, lemma_distinct_actions_conflict_free,
};
use crate::app::actions::{lemma_action_keys_apart, Action, Actions};
use crate::app::state::{cursor_next, cursor_previous, key_views, AppData, AppDataView, AppState};
use crate::config::Config;
use crate::inputs::key::Key;
use crate::io::{event_views, IoEvent, IoEventView};
use crate::models::clock::{utc_now, Timestamp};
use crate::models::ident::is_random_id;
use crate::models::key::KeyView;

pub mod actions;
pub mod state;
pub mod ui;

verus! {

/// What the caller of a step should do next.
#[derive(Debug, Clone, Copy, PartialEq, Eq, Structural)]
pub enum AppReturn {
    Exit,
    Continue,
}

/// Which table of bindings the keys are read by.
#[derive(Debug, Clone, Copy, PartialEq, Eq, Structural)]
pub enum InputMode {
    Normal,
    Editing,
    Confirmation,
}

/// The interactive state: the mode, the phase, the text being typed, the
/// records shown and the requests queued for the I/O worker.
pub struct App {
    actions: Actions,
    editing_actions: EditingActions,
    confirmation_actions: ConfirmationActions,
    is_loading: bool,
    state: AppState,
    input_mode: InputMode,
    input_buffer: String,
    pending_delete: Option<u128>,
    outbox: Vec<IoEvent>,
    data: AppData,
    config: Config,
}

/// What the interactive state holds, as plain values.
pub struct AppView {
    pub actions: Seq<Action>,
    pub editing_actions: Seq<EditingAction>,
    pub confirmation_actions: Seq<ConfirmationAction>,
    pub is_loading: bool,
    pub state: AppState,
    pub input_mode: InputMode,
    pub input_buffer: Seq<char>,
    pub pending_delete: Option<u128>,
    pub outbox: Seq<IoEventView>,
    pub data: AppDataView,
    pub config: Config,
}

/// The actions of the normal mode before the vault is open.
pub open spec fn locked_actions() -> Seq<Action> {
    seq![Action::Quit]
}

/// The actions of the normal mode once the vault is open.
pub open spec fn unlocked_actions() -> Seq<Action> {
    seq![
        Action::Quit,
        Action::Help,
        Action::MoveUp,
        Action::MoveDown,
        Action::CreateKey,
        Action::CopyPassword,
        Action::DeleteKey,
    ]
}

/// The actions of the editing mode.
pub open spec fn typing_actions() -> Seq<EditingAction> {
    seq![
        EditingAction::Quit,
        EditingAction::RemoveChar,
        EditingAction::Dismiss,
        EditingAction::Validate,
        EditingAction::WriteChar,
    ]
}

/// The answers of the confirmation mode.
pub open spec fn answers() -> Seq<ConfirmationAction> {
    seq![ConfirmationAction::Cancel, ConfirmationAction::Confirm]
}

impl AppView {
    /// The state as the session starts: vault closed, normal mode, nothing
    /// typed, nothing shown, nothing queued.
    pub open spec fn initial() -> AppView {
        AppView {
            actions: locked_actions(),
            editing_actions: typing_actions(),
            confirmation_actions: answers(),
            is_loading: false,
            state: AppState::Init,
            input_mode: InputMode::Normal,
            input_buffer: Seq::empty(),
            pending_delete: None,
            outbox: Seq::empty(),
            data: AppDataView { selected: None, keys: Seq::empty() },
            config: Config::spec_default(),
        }
    }

    /// Whether the three tables of bindings have no key claimed twice and the
    /// generation policy admits a secret.
    pub open spec fn wf(self) -> bool {
        &&& conflict_free(claims(bindings_of(self.actions)))
        &&& conflict_free(claims(bindings_of(self.editing_actions)))
        &&& conflict_free(claims(bindings_of(self.confirmation_actions)))
        &&& self.config.password_options.can_generate()
    }

    /// The state after a request was queued: the request stands last in the
    /// queue and the worker counts as busy.
    pub open spec fn dispatch(self, event: IoEventView) -> AppView {
        AppView { is_loading: true, outbox: self.outbox.push(event), ..self }
    }

    /// The state after the switch between browsing and typing: from the
    /// normal mode into the editing mode, and from any other mode into the
    /// normal mode.
    pub open spec fn toggle_input_mode(self) -> AppView {
        AppView {
            input_mode: match self.input_mode {
                InputMode::Normal => InputMode::Editing,
                _ => InputMode::Normal,
            },
            ..self
        }
    }

    /// The state after the switch into or out of the confirmation mode. On
    /// the way in the confirmation request is shown; on the way out it is
    /// hidden and the remembered identifier is dropped.
    pub open spec fn toggle_confirmation_mode(self) -> AppView {
        match self.input_mode {
            InputMode::Confirmation => AppView {
                input_mode: InputMode::Normal,
                state: self.state.with_confirmation_popup(false),
                pending_delete: None,
                ..self
            },
            _ => AppView {
                input_mode: InputMode::Confirmation,
                state: self.state.with_confirmation_popup(true),
                ..self
            },
        }
    }

    /// The record under the cursor, if the cursor is on one.
    pub open spec fn selection(self) -> Option<KeyView> {
        match self.data.selected {
            Some(i) => if i < self.data.keys.len() {
                Some(self.data.keys[i as int])
            } else {
                None
            },
            None => None,
        }
    }

    /// What an action of the normal mode does, at the time `now`.
    pub open spec fn normal(self, action: Action, now: Timestamp) -> (AppView, AppReturn) {
        match action {
            Action::Quit => (self.dispatch(IoEventView::Close), AppReturn::Exit),
            Action::Help => (
                AppView { state: self.state.spec_toggle_help(), ..self },
                AppReturn::Continue,
            ),
            Action::MoveUp => (
                AppView {
                    data: AppDataView {
                        selected: cursor_previous(self.data.selected, self.data.keys.len()),
                        ..self.data
                    },
                    ..self
                },
                AppReturn::Continue,
            ),
            Action::MoveDown => (
                AppView {
                    data: AppDataView {
                        selected: cursor_next(self.data.selected, self.data.keys.len()),
                        ..self.data
                    },
                    ..self
                },
                AppReturn::Continue,
            ),
            Action::CreateKey => (
                AppView {
                    input_mode: InputMode::Editing,
                    input_buffer: Seq::empty(),
                    state: self.state.with_creation_popup(true),
                    ..self
                },
                AppReturn::Continue,
            ),
            Action::DeleteKey => match self.selection() {
                Some(key) => (
                    AppView {
                        pending_delete: Some(key.id),
                        input_mode: InputMode::Confirmation,
                        state: self.state.with_confirmation_popup(true),
                        ..self
                    },
                    AppReturn::Continue,
                ),
                None => (self, AppReturn::Continue),
            },
            Action::CopyPassword => match self.selection() {
                Some(key) => (
                    AppView {
                        data: AppDataView {
                            keys: self.data.keys.update(
                                self.data.selected->0 as int,
                                key.touched(now),
                            ),
                            ..self.data
                        },
                        ..self
                    }.dispatch(IoEventView::Copy(key.touched(now))),
                    AppReturn::Continue,
                ),
                None => (self, AppReturn::Continue),
            },
        }
    }

    /// What an action of the editing mode does. `key` is the key that was
    /// pressed and `draft` the record that a validated label becomes; with no
    /// such record at hand, validating a label does nothing.
    pub open spec fn editing(self, action: EditingAction, key: Key, draft: Option<KeyView>) -> (
        AppView,
        AppReturn,
    ) {
        match action {
            EditingAction::Quit => (self.dispatch(IoEventView::Close), AppReturn::Exit),
            EditingAction::RemoveChar => (
                AppView {
                    input_buffer: if self.input_buffer.len() > 0 {
                        self.input_buffer.drop_last()
                    } else {
                        self.input_buffer
                    },
                    ..self
                },
                AppReturn::Continue,
            ),
            EditingAction::Dismiss => (
                AppView {
                    input_mode: InputMode::Normal,
                    input_buffer: Seq::empty(),
                    state: self.state.with_creation_popup(false),
                    ..self
                },
                AppReturn::Continue,
            ),
            EditingAction::Validate => if self.state.spec_is_initialized() {
                match draft {
                    Some(record) => (
                        AppView {
                            input_mode: InputMode::Normal,
                            input_buffer: Seq::empty(),
                            state: self.state.with_creation_popup(false),
                            ..self.dispatch(IoEventView::RegisterKey(record)).dispatch(
                                IoEventView::Refresh,
                            )
                        },
                        AppReturn::Continue,
                    ),
                    None => (self, AppReturn::Continue),
                }
            } else {
                (
                    AppView {
                        input_mode: InputMode::Normal,
                        ..self.dispatch(IoEventView::Initialize(self.input_buffer))
                    },
                    AppReturn::Continue,
                )
            },
            EditingAction::WriteChar => (
                match key.spec_to_char() {
                    Some(c) => AppView { input_buffer: self.input_buffer.push(c), ..self },
                    None => self,
                },
                AppReturn::Continue,
            ),
        }
    }

    /// What an answer to a confirmation request does.
    pub open spec fn confirmation(self, action: ConfirmationAction) -> (AppView, AppReturn) {
        match action {
            ConfirmationAction::Cancel => (
                AppView {
                    input_mode: InputMode::Normal,
                    state: self.state.with_confirmation_popup(false),
                    pending_delete: None,
                    ..self
                },
                AppReturn::Continue,
            ),
            ConfirmationAction::Confirm => (
                AppView {
                    input_mode: InputMode::Normal,
                    state: self.state.with_confirmation_popup(false),
                    pending_delete: None,
                    ..match self.pending_delete {
                        Some(id) => self.dispatch(IoEventView::Delete(id)).dispatch(
                            IoEventView::Refresh,
                        ),
                        None => self,
                    }
                },
                AppReturn::Continue,
            ),
        }
    }

    /// What a key press does: the key is read by the table of the current
    /// mode and the action it triggers is carried out. A key that triggers
    /// nothing is ignored, except while typing, where it is written.
    pub open spec fn step(self, key: Key, now: Timestamp, draft: Option<KeyView>) -> (
        AppView,
        AppReturn,
    ) {
        match self.input_mode {
            InputMode::Normal => match first_bound(Action::all(), self.actions, key) {
                Some(action) => self.normal(action, now),
                None => (self, AppReturn::Continue),
            },
            InputMode::Editing => match first_bound(
                EditingAction::all(),
                self.editing_actions,
                key,
            ) {
                Some(action) => self.editing(action, key, draft),
                None => self.editing(EditingAction::WriteChar, key, draft),
            },
            InputMode::Confirmation => match first_bound(
                ConfirmationAction::all(),
                self.confirmation_actions,
                key,
            ) {
                Some(action) => self.confirmation(action),
                None => (self, AppReturn::Continue),
            },
        }
    }

    /// The state after the vault was opened: the full tables are in force and
    /// the phase starts anew.
    pub open spec fn initialized(self) -> AppView {
        AppView {
            actions: unlocked_actions(),
            editing_actions: typing_actions(),
            state: AppState::spec_initialized(),
            ..self
        }
    }

    /// The state after the I/O worker reported that it is done.
    pub open spec fn loaded(self) -> AppView {
        AppView { is_loading: false, ..self }
    }

    /// The state with nothing typed.
    pub open spec fn cleared(self) -> AppView {
        AppView { input_buffer: Seq::empty(), ..self }
    }

    /// The state with a new listing shown and the cursor nowhere.
    pub open spec fn listing(self, keys: Seq<KeyView>) -> AppView {
        AppView { data: AppDataView { selected: None, keys }, ..self }
    }

    /// The state in which a passphrase is asked for: the editing mode with
    /// nothing typed.
    pub open spec fn asking(self) -> AppView {
        AppView { input_mode: InputMode::Editing, input_buffer: Seq::empty(), ..self }
    }

    /// Whether a key press makes a new record: the vault is open and the key
    /// validates what was typed.
    pub open spec fn drafts_on(self, key: Key) -> bool {
        &&& self.input_mode == InputMode::Editing
        &&& self.state.spec_is_initialized()
        &&& first_bound(EditingAction::all(), self.editing_actions, key) == Some(
            EditingAction::Validate,
        )
    }

    /// The state one tick later.
    pub open spec fn tick(self) -> AppView {
        AppView { state: self.state.spec_incr_tick(), ..self }
    }

    /// Whether `draft` is a record that a validated label may become: it
    /// carries the typed text as its label, an identifier marked as random, a
    /// secret that the policy admits, and one reading of the clock for all
    /// four of its times.
    pub open spec fn admits_draft(self, draft: KeyView) -> bool {
        &&& draft == KeyView::fresh(draft.id, self.input_buffer, draft.password, draft.created_at)
        &&& draft.created_at.is_reading()
        &&& is_random_id(draft.id)
        &&& self.config.password_options.admits(draft.password)
    }
}

/// The tables that the session runs with have no key claimed twice.
pub proof fn lemma_builtin_tables()
    ensures
        conflict_free(claims(bindings_of(locked_actions()))),
        conflict_free(claims(bindings_of(unlocked_actions()))),
        conflict_free(claims(bindings_of(typing_actions()))),
        conflict_free(claims(bindings_of(answers()))),
{
    lemma_action_keys_apart();
    lemma_editing_keys_apart();
    lemma_confirmation_keys_apart();
    assert(locked_actions().no_duplicates());
    assert(unlocked_actions().no_duplicates());
    assert(typing_actions().no_duplicates());
    assert(answers().no_duplicates());
    lemma_distinct_actions_conflict_free(locked_actions());
    lemma_distinct_actions_conflict_free(unlocked_actions());
    lemma_distinct_actions_conflict_free(typing_actions());
    lemma_distinct_actions_conflict_free(answers());
}

/// A key press leaves the tables of bindings, the settings and the phase as
/// they are, so a well-formed state stays well-formed. It takes nothing out
/// of the queue of requests, and it ends the session only with a request to
/// close as the last in the queue.
pub proof fn lemma_step_keeps_session(
    view: AppView,
    key: Key,
    now: Timestamp,
    draft: Option<KeyView>,
)
    ensures
        ({
            let (next, verdict) = view.step(key, now, draft);
            &&& next.actions == view.actions
            &&& next.editing_actions == view.editing_actions
            &&& next.confirmation_actions == view.confirmation_actions
            &&& next.config == view.config
            &&& next.state.spec_is_initialized() == view.state.spec_is_initialized()
            &&& view.wf() ==> next.wf()
            &&& view.outbox.is_prefix_of(next.outbox)
            &&& verdict == AppReturn::Exit ==> next.outbox.len() > 0 && next.outbox.last()
                == IoEventView::Close
        }),
{
}

/// While the vault is closed and the session browses, only the keys that
/// quit do anything.
pub proof fn lemma_locked_session_only_quits(view: AppView, key: Key, now: Timestamp)
    requires
        view.actions == locked_actions(),
        view.input_mode == InputMode::Normal,
        key != Key::Ctrl('c'),
        key != Key::Char('q'),
    ensures
        view.step(key, now, None) == (view, AppReturn::Continue),
{
    crate::app::actions::registry::lemma_first_bound_answers(
        Action::all(),
        view.actions,
        key,
    );
}

/// What an optional record holds.
pub open spec fn draft_view(draft: Option<crate::models::key::Key>) -> Option<KeyView> {
    match draft {
        Some(record) => Some(record@),
        None => None,
    }
}

impl View for App {
    type V = AppView;

    closed spec fn view(&self) -> AppView {
        AppView {
            actions: self.actions@,
            editing_actions: self.editing_actions@,
            confirmation_actions: self.confirmation_actions@,
            is_loading: self.is_loading,
            state: self.state,
            input_mode: self.input_mode,
            input_buffer: self.input_buffer@,
            pending_delete: self.pending_delete,
            outbox: event_views(self.outbox@),
            data: self.data@,
            config: self.config,
        }
    }
}

impl App {
    /// Whether the tables of bindings are free of conflicts and the
    /// generation policy admits a secret.
    pub open spec fn wf(&self) -> bool {
        self@.wf()
    }

    /// The state as the session starts.
    pub fn new() -> (r: App)
        ensures
            r@ == AppView::initial(),
            r.wf(),
    {
        let normal = vec![Action::Quit];
        let typing = vec![
            EditingAction::Quit,
            EditingAction::RemoveChar,
            EditingAction::Dismiss,
            EditingAction::Validate,
            EditingAction::WriteChar,
        ];
        let answering = vec![ConfirmationAction::Cancel, ConfirmationAction::Confirm];
        proof {
            assert(normal@ =~= locked_actions());
            assert(typing@ =~= typing_actions());
            assert(answering@ =~= answers());
            lemma_builtin_tables();
        }
        let actions = Actions::from(normal).unwrap();
        let editing_actions = EditingActions::from(typing).unwrap();
        let confirmation_actions = ConfirmationActions::from(answering).unwrap();
        let data = AppData::default();
        let outbox: Vec<IoEvent> = Vec::new();
        assert(event_views(outbox@) =~= Seq::empty());
        App {
            actions,
            editing_actions,
            confirmation_actions,
            is_loading: false,
            state: AppState::default(),
            input_mode: InputMode::Normal,
            input_buffer: String::new(),
            pending_delete: None,
            outbox,
            data,
            config: Config::default(),
        }
    }
}

impl App {
    pub fn get_input_buffer(&self) -> (r: &str)
        ensures
            r@ == self@.input_buffer,
    {
        self.input_buffer.as_str()
    }

    pub fn clear_input_buffer(&mut self)
        ensures
            final(self)@ == old(self)@.cleared(),
    {
        self.input_buffer.clear();
    }

    /// Asks for a passphrase: switches to the editing mode with nothing
    /// typed.
    pub fn ask_passphrase(&mut self)
        ensures
            final(self)@ == old(self)@.asking(),
    {
        self.input_mode = InputMode::Editing;
        self.input_buffer.clear();
    }

    /// The active actions of the normal mode.
    pub fn actions(&self) -> (r: &Actions)
        ensures
            r@ == self@.actions,
    {
        &self.actions
    }

    pub fn state(&self) -> (r: &AppState)
        ensures
            *r == self@.state,
    {
        &self.state
    }

    /// Whether a queued request has not been reported as handled yet.
    pub fn is_loading(&self) -> (r: bool)
        ensures
            r == self@.is_loading,
    {
        self.is_loading
    }

    pub fn input_mode(&self) -> (r: InputMode)
        ensures
            r == self@.input_mode,
    {
        self.input_mode
    }

    /// The identifier remembered for a deletion that awaits its confirmation.
    pub fn pending_delete(&self) -> (r: Option<u128>)
        ensures
            r == self@.pending_delete,
    {
        self.pending_delete
    }

    /// The records shown.
    pub fn data(&self) -> (r: &AppData)
        ensures
            r@ == self@.data,
    {
        &self.data
    }

    pub fn config(&self) -> (r: &Config)
        ensures
            *r == self@.config,
    {
        &self.config
    }

    /// Puts new settings in force, unless their generation policy admits no
    /// secret: then nothing changes and `false` is returned.
    pub fn set_config(&mut self, config: Config) -> (r: bool)
        ensures
            r == config.password_options.can_generate(),
            r ==> final(self)@ == (AppView { config, ..old(self)@ }),
            !r ==> final(self)@ == old(self)@,
    {
        if config.password_options.is_usable() {
            self.config = config;
            true
        } else {
            false
        }
    }

    /// Queues a request for the I/O worker and marks the worker as busy.
    pub fn dispatch(&mut self, action: IoEvent)
        ensures
            final(self)@ == old(self)@.dispatch(action@),
    {
        self.is_loading = true;
        self.outbox.push(action);
        assert(event_views(self.outbox@) =~= event_views(old(self).outbox@).push(action@));
    }

    /// Hands out the queued requests, oldest first, and leaves the queue
    /// empty.
    pub fn take_events(&mut self) -> (r: Vec<IoEvent>)
        ensures
            event_views(r@) == old(self)@.outbox,
            final(self)@ == (AppView { outbox: Seq::empty(), ..old(self)@ }),
    {
        let mut out: Vec<IoEvent> = Vec::new();
        std::mem::swap(&mut self.outbox, &mut out);
        assert(event_views(self.outbox@) =~= Seq::empty());
        out
    }

    /// Replaces the records shown by a new listing, with the cursor nowhere.
    pub fn load_key_list(&mut self, keys: Vec<crate::models::key::Key>)
        ensures
            final(self)@ == old(self)@.listing(key_views(keys@)),
    {
        self.data.load_key_list(keys);
    }

    /// Switches between browsing and typing.
    pub fn toggle_input_mode(&mut self)
        ensures
            final(self)@ == old(self)@.toggle_input_mode(),
    {
        self.input_mode =
        match self.input_mode {
            InputMode::Normal => InputMode::Editing,
            InputMode::Editing => InputMode::Normal,
            InputMode::Confirmation => InputMode::Normal,
        };
    }

    /// Switches into or out of the confirmation mode.
    pub fn toggle_confirmation_mode(&mut self)
        ensures
            final(self)@ == old(self)@.toggle_confirmation_mode(),
    {
        match self.input_mode {
            InputMode::Confirmation => {
                self.state.set_confirmation_popup(false);
                self.pending_delete = None;
                self.input_mode = InputMode::Normal;
            },
            _ => {
                self.state.set_confirmation_popup(true);
                self.input_mode = InputMode::Confirmation;
            },
        }
    }

    /// Carries out an action of the normal mode, at the time `now`.
    pub fn do_normal_action(&mut self, action: Action, now: Timestamp) -> (r: AppReturn)
        ensures
            (final(self)@, r) == old(self)@.normal(action, now),
    {
        match action {
            Action::Quit => {
                self.dispatch(IoEvent::Close);
                AppReturn::Exit
            },
            Action::Help => {
                self.state.toggle_help();
                AppReturn::Continue
            },
            Action::MoveUp => {
                self.data.keys.previous();
                AppReturn::Continue
            },
            Action::MoveDown => {
                self.data.keys.next();
                AppReturn::Continue
            },
            Action::CreateKey => {
                self.input_mode = InputMode::Editing;
                self.input_buffer.clear();
                self.state.set_creation_popup(true);
                AppReturn::Continue
            },
            Action::DeleteKey => {
                if let Some(i) = self.data.keys.state.selected() {
                    if i < self.data.keys.items.len() {
                        self.pending_delete = Some(self.data.keys.items[i].id());
                        self.input_mode = InputMode::Confirmation;
                        self.state.set_confirmation_popup(true);
                    }
                }
                AppReturn::Continue
            },
            Action::CopyPassword => {
                if let Some(i) = self.data.keys.state.selected() {
                    if i < self.data.keys.items.len() {
                        let mut item = self.data.keys.items[i].clone();
                        item.touch(now);
                        let event = IoEvent::Copy(item.clone());
                        let ghost shown = key_views(self.data.keys.items@);
                        self.data.keys.items.set(i, item);
                        assert(key_views(self.data.keys.items@) =~= shown.update(
                            i as int,
                            item@,
                        ));
                        self.dispatch(event);
                    }
                }
                AppReturn::Continue
            },
        }
    }

    /// Carries out an action of the editing mode. `key` is the key that was
    /// pressed and `draft` the record that a validated label becomes.
    pub fn do_editing_action(
        &mut self,
        action: EditingAction,
        key: Key,
        draft: Option<crate::models::key::Key>,
    ) -> (r: AppReturn)
        ensures
            (final(self)@, r) == old(self)@.editing(action, key, draft_view(draft)),
    {
        match action {
            EditingAction::Quit => {
                self.dispatch(IoEvent::Close);
                AppReturn::Exit
            },
            EditingAction::RemoveChar => {
                self.input_buffer.pop();
                AppReturn::Continue
            },
            EditingAction::Dismiss => {
                self.input_mode = InputMode::Normal;
                self.state.set_creation_popup(false);
                self.input_buffer.clear();
                AppReturn::Continue
            },
            EditingAction::Validate => {
                if self.state.is_initialized() {
                    if let Some(record) = draft {
                        self.dispatch(IoEvent::RegisterKey(record));
                        self.dispatch(IoEvent::Refresh);
                        self.input_mode = InputMode::Normal;
                        self.state.set_creation_popup(false);
                        self.input_buffer.clear();
                    }
                } else {
                    let passphrase = self.input_buffer.clone();
                    self.dispatch(IoEvent::Initialize(passphrase));
                    self.input_mode = InputMode::Normal;
                }
                AppReturn::Continue
            },
            EditingAction::WriteChar => {
                if let Some(c) = key.to_char() {
                    self.input_buffer.push(c);
                }
                AppReturn::Continue
            },
        }
    }

    /// Carries out an answer to a confirmation request.
    pub fn do_confirmation_action(&mut self, action: ConfirmationAction) -> (r: AppReturn)
        ensures
            (final(self)@, r) == old(self)@.confirmation(action),
    {
        match action {
            ConfirmationAction::Cancel => {},
            ConfirmationAction::Confirm => {
                if let Some(id) = self.pending_delete {
                    self.dispatch(IoEvent::Delete(id));
                    self.dispatch(IoEvent::Refresh);
                }
            },
        }
        self.state.set_confirmation_popup(false);
        self.pending_delete = None;
        self.input_mode = InputMode::Normal;
        AppReturn::Continue
    }

    /// Handles a key press, given the time and, where the key makes a new
    /// record, the record.
    pub fn apply(&mut self, key: Key, now: Timestamp, draft: Option<crate::models::key::Key>) -> (r:
        AppReturn)
        ensures
            (final(self)@, r) == old(self)@.step(key, now, draft_view(draft)),
            old(self).wf() ==> final(self).wf(),
    {
        match self.input_mode {
            InputMode::Normal => match self.actions.find(key) {
                Some(action) => self.do_normal_action(action, now),
                None => AppReturn::Continue,
            },
            InputMode::Editing => match self.editing_actions.find(key) {
                Some(action) => self.do_editing_action(action, key, draft),
                None => self.do_editing_action(EditingAction::WriteChar, key, draft),
            },
            InputMode::Confirmation => match self.confirmation_actions.find(key) {
                Some(action) => self.do_confirmation_action(action),
                None => AppReturn::Continue,
            },
        }
    }

    /// Handles a key press. The clock is read for the time of the step, and
    /// where the key validates a label while the vault is open, a new record
    /// is made under that label.
    pub fn do_action(&mut self, key: Key) -> (r: AppReturn)
        requires
            old(self).wf(),
        ensures
            final(self).wf(),
            exists|now: Timestamp, draft: Option<KeyView>|
                {
                    &&& now.is_reading()
                    &&& draft is Some <==> old(self)@.drafts_on(key)
                    &&& draft matches Some(record) ==> old(self)@.admits_draft(record)
                    &&& (final(self)@, r) == #[trigger] old(self)@.step(key, now, draft)
                },
    {
        let now = utc_now();
        let drafting = match self.input_mode {
            InputMode::Editing => self.state.is_initialized() && self.editing_actions.find(key)
                == Some(EditingAction::Validate),
            _ => false,
        };
        let draft = if drafting {
            Some(
                crate::models::key::Key::new(
                    None,
                    self.input_buffer.clone(),
                    &self.config.password_options,
                ),
            )
        } else {
            None
        };
        let ghost before = self@;
        let ghost given = draft_view(draft);
        let r = self.apply(key, now, draft);
        assert((self@, r) == before.step(key, now, given));
        r
    }

    /// Counts one scheduler tick.
    pub fn update_on_tick(&mut self) -> (r: AppReturn)
        requires
            old(self)@.state.spec_count_tick() != Some(u64::MAX),
        ensures
            final(self)@ == old(self)@.tick(),
            r == AppReturn::Continue,
    {
        self.state.incr_tick();
        AppReturn::Continue
    }

    /// Records that the vault was opened: the full tables come into force and
    /// the phase starts anew.
    pub fn initialized(&mut self)
        ensures
            final(self)@ == old(self)@.initialized(),
            old(self).wf() ==> final(self).wf(),
    {
        let normal = vec![
            Action::Quit,
            Action::Help,
            Action::MoveUp,
            Action::MoveDown,
            Action::CreateKey,
            Action::CopyPassword,
            Action::DeleteKey,
        ];
        let typing = vec![
            EditingAction::Quit,
            EditingAction::RemoveChar,
            EditingAction::Dismiss,
            EditingAction::Validate,
            EditingAction::WriteChar,
        ];
        proof {
            assert(normal@ =~= unlocked_actions());
            assert(typing@ =~= typing_actions());
            lemma_builtin_tables();
        }
        self.actions = Actions::from(normal).unwrap();
        self.editing_actions = EditingActions::from(typing).unwrap();
        self.state = AppState::initialized();
    }

    /// Records that the I/O worker is done with a request.
    pub fn loaded(&mut self)
        ensures
            final(self)@ == old(self)@.loaded(),
    {
        self.is_loading = false;
    }
}

} // verus!

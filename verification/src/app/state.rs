use vstd::prelude::*;
use vstd::string::StringExecFns;
use crate::models::key::{Key, KeyView};

verus! {

/// The phase of the session and what the interface shows in it.
#[derive(Clone, Copy, Debug, PartialEq, Eq, Structural)]
pub enum AppState {
    /// The vault is not open yet.
    Init,
    /// The vault is open.
    Initialized {
        counter_tick: u64,
        show_help: bool,
        show_creation_popup: bool,
        show_confirmation_popup: bool,
    },
}

impl AppState {
    /// The state right after the vault was opened: no tick counted, nothing
    /// shown.
    pub open spec fn spec_initialized() -> AppState {
        AppState::Initialized {
            counter_tick: 0,
            show_help: false,
            show_creation_popup: false,
            show_confirmation_popup: false,
        }
    }

    pub open spec fn spec_toggle_help(self) -> AppState {
        match self {
            AppState::Init => self,
            AppState::Initialized {
                counter_tick,
                show_help,
                show_creation_popup,
                show_confirmation_popup,
            } => AppState::Initialized {
                counter_tick,
                show_help: !show_help,
                show_creation_popup,
                show_confirmation_popup,
            },
        }
    }

    pub open spec fn spec_toggle_creation_popup(self) -> AppState {
        match self {
            AppState::Init => self,
            AppState::Initialized {
                counter_tick,
                show_help,
                show_creation_popup,
                show_confirmation_popup,
            } => AppState::Initialized {
                counter_tick,
                show_help,
                show_creation_popup: !show_creation_popup,
                show_confirmation_popup,
            },
        }
    }

    pub open spec fn spec_toggle_confirmation_popup(self) -> AppState {
        match self {
            AppState::Init => self,
            AppState::Initialized {
                counter_tick,
                show_help,
                show_creation_popup,
                show_confirmation_popup,
            } => AppState::Initialized {
                counter_tick,
                show_help,
                show_creation_popup,
                show_confirmation_popup: !show_confirmation_popup,
            },
        }
    }

    /// The state with the creation form shown or hidden as asked.
    pub open spec fn with_creation_popup(self, shown: bool) -> AppState {
        match self {
            AppState::Init => self,
            AppState::Initialized {
                counter_tick,
                show_help,
                show_creation_popup,
                show_confirmation_popup,
            } => AppState::Initialized {
                counter_tick,
                show_help,
                show_creation_popup: shown,
                show_confirmation_popup,
            },
        }
    }

    /// The state with the confirmation request shown or hidden as asked.
    pub open spec fn with_confirmation_popup(self, shown: bool) -> AppState {
        match self {
            AppState::Init => self,
            AppState::Initialized {
                counter_tick,
                show_help,
                show_creation_popup,
                show_confirmation_popup,
            } => AppState::Initialized {
                counter_tick,
                show_help,
                show_creation_popup,
                show_confirmation_popup: shown,
            },
        }
    }

    pub open spec fn spec_is_creation_popup(self) -> bool {
        self matches AppState::Initialized { show_creation_popup, .. } && show_creation_popup
    }

    pub open spec fn spec_is_confirmation_popup(self) -> bool {
        self matches AppState::Initialized { show_confirmation_popup, .. }
            && show_confirmation_popup
    }

    pub open spec fn spec_is_help(self) -> bool {
        self matches AppState::Initialized { show_help, .. } && show_help
    }

    pub open spec fn spec_is_initialized(self) -> bool {
        self is Initialized
    }

    pub open spec fn spec_count_tick(self) -> Option<u64> {
        match self {
            AppState::Init => None,
            AppState::Initialized { counter_tick, .. } => Some(counter_tick),
        }
    }

    /// The state one tick later. The count is defined while it fits the
    /// counter.
    pub open spec fn spec_incr_tick(self) -> AppState
        recommends
            self.spec_count_tick() != Some(u64::MAX),
    {
        match self {
            AppState::Init => self,
            AppState::Initialized {
                counter_tick,
                show_help,
                show_creation_popup,
                show_confirmation_popup,
            } => AppState::Initialized {
                counter_tick: (counter_tick + 1) as u64,
                show_help,
                show_creation_popup,
                show_confirmation_popup,
            },
        }
    }

    /// The state right after the vault was opened.
    pub fn initialized() -> (r: Self)
        ensures
            r == AppState::spec_initialized(),
    {
        AppState::Initialized {
            counter_tick: 0,
            show_help: false,
            show_creation_popup: false,
            show_confirmation_popup: false,
        }
    }

    /// Shows the help if it is hidden and hides it if it is shown. Before the
    /// vault is open there is no help to show.
    pub fn toggle_help(&mut self)
        ensures
            *final(self) == old(self).spec_toggle_help(),
    {
        if let AppState::Initialized {
            counter_tick,
            show_help,
            show_creation_popup,
            show_confirmation_popup,
        } = *self {
            *self =
            AppState::Initialized {
                counter_tick,
                show_help: !show_help,
                show_creation_popup,
                show_confirmation_popup,
            };
        }
    }

    /// Shows the creation form if it is hidden and hides it if it is shown.
    pub fn toggle_creation_popup(&mut self)
        ensures
            *final(self) == old(self).spec_toggle_creation_popup(),
    {
        if let AppState::Initialized {
            counter_tick,
            show_help,
            show_creation_popup,
            show_confirmation_popup,
        } = *self {
            *self =
            AppState::Initialized {
                counter_tick,
                show_help,
                show_creation_popup: !show_creation_popup,
                show_confirmation_popup,
            };
        }
    }

    /// Shows the confirmation request if it is hidden and hides it if it is
    /// shown.
    pub fn toggle_confirmation_popup(&mut self)
        ensures
            *final(self) == old(self).spec_toggle_confirmation_popup(),
    {
        if let AppState::Initialized {
            counter_tick,
            show_help,
            show_creation_popup,
            show_confirmation_popup,
        } = *self {
            *self =
            AppState::Initialized {
                counter_tick,
                show_help,
                show_creation_popup,
                show_confirmation_popup: !show_confirmation_popup,
            };
        }
    }

    /// Shows or hides the creation form, once the vault is open.
    pub fn set_creation_popup(&mut self, shown: bool)
        ensures
            *final(self) == old(self).with_creation_popup(shown),
    {
        if let AppState::Initialized {
            counter_tick,
            show_help,
            show_creation_popup,
            show_confirmation_popup,
        } = *self {
            *self =
            AppState::Initialized {
                counter_tick,
                show_help,
                show_creation_popup: shown,
                show_confirmation_popup,
            };
        }
    }

    /// Shows or hides the confirmation request, once the vault is open.
    pub fn set_confirmation_popup(&mut self, shown: bool)
        ensures
            *final(self) == old(self).with_confirmation_popup(shown),
    {
        if let AppState::Initialized {
            counter_tick,
            show_help,
            show_creation_popup,
            show_confirmation_popup,
        } = *self {
            *self =
            AppState::Initialized {
                counter_tick,
                show_help,
                show_creation_popup,
                show_confirmation_popup: shown,
            };
        }
    }

    pub fn is_creation_popup(&self) -> (r: bool)
        ensures
            r == self.spec_is_creation_popup(),
    {
        if let AppState::Initialized { show_creation_popup, .. } = self {
            *show_creation_popup
        } else {
            false
        }
    }

    pub fn is_confirmation_popup(&self) -> (r: bool)
        ensures
            r == self.spec_is_confirmation_popup(),
    {
        if let AppState::Initialized { show_confirmation_popup, .. } = self {
            *show_confirmation_popup
        } else {
            false
        }
    }

    pub fn is_help(&self) -> (r: bool)
        ensures
            r == self.spec_is_help(),
    {
        if let AppState::Initialized { show_help, .. } = self {
            *show_help
        } else {
            false
        }
    }

    pub fn is_initialized(&self) -> (r: bool)
        ensures
            r == self.spec_is_initialized(),
    {
        match self {
            AppState::Initialized { .. } => true,
            AppState::Init => false,
        }
    }

    /// Counts one tick, once the vault is open.
    pub fn incr_tick(&mut self)
        requires
            old(self).spec_count_tick() != Some(u64::MAX),
        ensures
            *final(self) == old(self).spec_incr_tick(),
            old(self).spec_count_tick() matches Some(n) ==> final(self).spec_count_tick() == Some(
                (n + 1) as u64,
            ),
    {
        if let AppState::Initialized {
            counter_tick,
            show_help,
            show_creation_popup,
            show_confirmation_popup,
        } = *self {
            *self =
            AppState::Initialized {
                counter_tick: counter_tick + 1,
                show_help,
                show_creation_popup,
                show_confirmation_popup,
            };
        }
    }

    /// The ticks counted since the vault was opened; `None` before that.
    pub fn count_tick(&self) -> (r: Option<u64>)
        ensures
            r == self.spec_count_tick(),
    {
        if let AppState::Initialized { counter_tick, .. } = self {
            Some(*counter_tick)
        } else {
            None
        }
    }
}

impl Default for AppState {
    fn default() -> (r: AppState)
        ensures
            r == AppState::Init,
    {
        AppState::Init
    }
}

/// Which row of a list the cursor is on, if any.
#[derive(Clone, Copy, Debug, PartialEq, Eq, Structural)]
pub struct ListState {
    selected: Option<usize>,
}

impl View for ListState {
    type V = Option<usize>;

    closed spec fn view(&self) -> Option<usize> {
        self.selected
    }
}

impl ListState {
    pub fn selected(&self) -> (r: Option<usize>)
        ensures
            r == self@,
    {
        self.selected
    }

    pub fn select(&mut self, index: Option<usize>)
        ensures
            final(self)@ == index,
    {
        self.selected = index;
    }
}

impl Default for ListState {
    fn default() -> (r: ListState)
        ensures
            r@ is None,
    {
        ListState { selected: None }
    }
}

/// Where the cursor goes on a step down a list of `len` rows: to the next
/// row, and from the last row, or from nowhere, to the first.
pub open spec fn cursor_next(selected: Option<usize>, len: nat) -> Option<usize> {
    match selected {
        Some(i) => if i + 1 < len {
            Some((i + 1) as usize)
        } else {
            Some(0)
        },
        None => Some(0),
    }
}

/// Where the cursor goes on a step up a list of `len` rows: to the row
/// before, from the first row to the last, and from nowhere to the first.
pub open spec fn cursor_previous(selected: Option<usize>, len: nat) -> Option<usize> {
    match selected {
        Some(i) => if i > 0 {
            Some((i - 1) as usize)
        } else if len > 0 {
            Some((len - 1) as usize)
        } else {
            Some(0)
        },
        None => Some(0),
    }
}

/// Whether the cursor, where there is one, is on a row of a list of `len`
/// rows.
pub open spec fn cursor_in_range(selected: Option<usize>, len: nat) -> bool {
    selected matches Some(i) ==> i < len
}

/// On a list that has rows, a cursor that is on a row stays on a row, and a
/// step down followed by a step up, or a step up followed by a step down,
/// brings it back.
pub proof fn lemma_cursor_wraps(selected: Option<usize>, len: nat)
    requires
        0 < len <= usize::MAX,
        cursor_in_range(selected, len),
    ensures
        cursor_in_range(cursor_next(selected, len), len),
        cursor_in_range(cursor_previous(selected, len), len),
        selected is Some ==> cursor_previous(cursor_next(selected, len), len) == selected,
        selected is Some ==> cursor_next(cursor_previous(selected, len), len) == selected,
        selected == Some((len - 1) as usize) ==> cursor_next(selected, len) == Some(0usize),
        selected == Some(0usize) ==> cursor_previous(selected, len) == Some((len - 1) as usize),
{
}

/// A list together with a cursor on it.
pub struct StatefulList<T> {
    pub state: ListState,
    pub items: Vec<T>,
}

impl<T> StatefulList<T> {
    /// A list of the given items with the cursor nowhere.
    pub fn with_items(items: Vec<T>) -> (r: StatefulList<T>)
        ensures
            r.state@ is None,
            r.items == items,
    {
        StatefulList { state: ListState::default(), items }
    }

    /// Moves the cursor one row down, wrapping from the last row to the first.
    pub fn next(&mut self)
        ensures
            final(self).state@ == cursor_next(old(self).state@, old(self).items@.len()),
            final(self).items == old(self).items,
    {
        let len = self.items.len();
        let i = match self.state.selected() {
            Some(i) => {
                if len > 0 && i < len - 1 {
                    i + 1
                } else {
                    0
                }
            },
            None => 0,
        };
        self.state.select(Some(i));
    }

    /// Moves the cursor one row up, wrapping from the first row to the last.
    pub fn previous(&mut self)
        ensures
            final(self).state@ == cursor_previous(old(self).state@, old(self).items@.len()),
            final(self).items == old(self).items,
    {
        let len = self.items.len();
        let i = match self.state.selected() {
            Some(i) => {
                if i > 0 {
                    i - 1
                } else if len > 0 {
                    len - 1
                } else {
                    0
                }
            },
            None => 0,
        };
        self.state.select(Some(i));
    }

    /// Takes the cursor off the list.
    pub fn unselect(&mut self)
        ensures
            final(self).state@ is None,
            final(self).items == old(self).items,
    {
        self.state.select(None);
    }
}

/// What a sequence of records holds, record by record.
pub open spec fn key_views(keys: Seq<Key>) -> Seq<KeyView> {
    Seq::new(keys.len(), |i: int| keys[i]@)
}

/// The labels of the records, each followed by a line break, one after the
/// other.
pub open spec fn listing(keys: Seq<KeyView>) -> Seq<char>
    decreases keys.len(),
{
    if keys.len() == 0 {
        Seq::empty()
    } else {
        listing(keys.drop_last()) + keys.last().name + seq!['\n']
    }
}

/// The records the interface shows: a copy of what the store last listed.
pub struct AppData {
    pub keys: StatefulList<Key>,
}

/// What the shown records are, as plain values.
pub struct AppDataView {
    pub selected: Option<usize>,
    pub keys: Seq<KeyView>,
}

impl View for AppData {
    type V = AppDataView;

    open spec fn view(&self) -> AppDataView {
        AppDataView { selected: self.keys.state@, keys: key_views(self.keys.items@) }
    }
}

impl AppData {
    /// Replaces the shown records by a new listing, with the cursor nowhere.
    pub fn load_key_list(&mut self, keys: Vec<Key>)
        ensures
            final(self)@ == (AppDataView { selected: None, keys: key_views(keys@) }),
    {
        self.keys = StatefulList::with_items(keys);
    }

    /// Adds a record at the end of the shown records.
    pub fn create_key(&mut self, key: Key)
        ensures
            final(self)@ == (AppDataView {
                selected: old(self)@.selected,
                keys: old(self)@.keys.push(key@),
            }),
    {
        self.keys.items.push(key);
        assert(key_views(self.keys.items@) =~= key_views(old(self).keys.items@).push(key@));
    }

    /// The labels of the shown records, one to a line.
    pub fn to_string(&self) -> (r: String)
        ensures
            r@ == listing(self@.keys),
    {
        let mut out = String::new();
        let n = self.keys.items.len();
        let mut i: usize = 0;
        while i < n
            invariant
                i <= n,
                n == self.keys.items@.len(),
                out@ == listing(key_views(self.keys.items@).take(i as int)),
            decreases n - i,
        {
            out.append(self.keys.items[i].name());
            out.append("\n");
            proof {
                reveal_strlit("\n");
                let all = key_views(self.keys.items@);
                assert(all.take(i + 1).drop_last() =~= all.take(i as int));
                assert("\n"@ =~= seq!['\n']);
            }
            i = i + 1;
        }
        assert(key_views(self.keys.items@).take(n as int) =~= key_views(self.keys.items@));
        out
    }
}

impl Default for AppData {
    fn default() -> (r: AppData)
        ensures
            r@ == (AppDataView { selected: None, keys: Seq::empty() }),
    {
        let r = AppData { keys: StatefulList::with_items(Vec::new()) };
        assert(key_views(r.keys.items@) =~= Seq::empty());
        r
    }
}

} // verus!

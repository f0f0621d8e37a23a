//! What the interface shows, as plain values: the rules of the layout and the
//! rows of the help view. The drawing itself is left to the program.

use vstd::prelude::*;
use vstd::string::StringExecFns;
use crate::app::actions::registry::Bindable;
use crate::app::state::AppState;

verus! {

/// The least width of a terminal that the interface can be drawn on.
pub const MIN_WIDTH: u16 = 52;

/// The least height of a terminal that the interface can be drawn on.
pub const MIN_HEIGHT: u16 = 28;

/// Why a terminal is too small for the interface. Each names what it got.
#[derive(Clone, Copy, Debug, PartialEq, Eq, Structural)]
pub enum SizeError {
    TooNarrow(u16),
    TooShort(u16),
}

/// Whether a terminal is large enough; a terminal that is both too narrow and
/// too short is called too narrow.
pub open spec fn spec_check_size(width: u16, height: u16) -> Result<(), SizeError> {
    if width < MIN_WIDTH {
        Err(SizeError::TooNarrow(width))
    } else if height < MIN_HEIGHT {
        Err(SizeError::TooShort(height))
    } else {
        Ok(())
    }
}

/// Tells whether a terminal is large enough for the interface.
pub fn check_size(width: u16, height: u16) -> (r: Result<(), SizeError>)
    ensures
        r == spec_check_size(width, height),
{
    if width < MIN_WIDTH {
        Err(SizeError::TooNarrow(width))
    } else if height < MIN_HEIGHT {
        Err(SizeError::TooShort(height))
    } else {
        Ok(())
    }
}

/// The three shares, in percent, into which a length is cut to centre a part
/// that takes `percent` of it: the margin before, the part, the margin after.
pub open spec fn spec_centered(percent: u16) -> (u16, u16, u16) {
    (((100 - percent) / 2) as u16, percent, ((100 - percent) / 2) as u16)
}

/// The shares that centre a part which takes `percent` of a length. The three
/// never exceed the whole.
pub fn centered(percent: u16) -> (r: (u16, u16, u16))
    requires
        percent <= 100,
    ensures
        r == spec_centered(percent),
        r.0 == r.2,
        99 <= r.0 + r.1 + r.2 <= 100,
{
    let margin = (100 - percent) / 2;
    (margin, percent, margin)
}

/// The character of a decimal digit.
pub open spec fn digit_char(d: nat) -> char
    recommends
        d < 10,
{
    (('0' as nat) + d) as char
}

/// A number written in decimal, without leading zeros.
pub open spec fn decimal_text(n: nat) -> Seq<char>
    decreases n,
{
    if n < 10 {
        seq![digit_char(n)]
    } else {
        decimal_text(n / 10).push(digit_char(n % 10))
    }
}

/// Writes a number in decimal.
pub fn decimal(n: u64) -> (r: String)
    ensures
        r@ == decimal_text(n as nat),
    decreases n,
{
    let digit = (48u8 + (n % 10) as u8) as char;
    if n < 10 {
        let mut text = String::new();
        text.push(digit);
        text
    } else {
        let mut text = decimal(n / 10);
        text.push(digit);
        text
    }
}

/// The line under the title: the count of ticks once the vault is open, and
/// nothing before.
pub open spec fn spec_tick_text(state: AppState) -> Seq<char> {
    match state.spec_count_tick() {
        Some(ticks) => "Tick count: "@ + decimal_text(ticks as nat),
        None => Seq::empty(),
    }
}

/// Writes the line under the title.
pub fn tick_text(state: &AppState) -> (r: String)
    ensures
        r@ == spec_tick_text(*state),
{
    match state.count_tick() {
        Some(ticks) => {
            let mut text = "Tick count: ".to_owned();
            text.append(decimal(ticks).as_str());
            text
        },
        None => String::new(),
    }
}

/// One row of the help view: a key and, beside the first key of an action,
/// what the action does.
#[derive(Debug)]
pub struct HelpRow {
    pub key: String,
    pub help: String,
}

impl View for HelpRow {
    type V = (Seq<char>, Seq<char>);

    open spec fn view(&self) -> (Seq<char>, Seq<char>) {
        (self.key@, self.help@)
    }
}

/// What a list of help rows says, row by row.
pub open spec fn row_views(rows: Seq<HelpRow>) -> Seq<(Seq<char>, Seq<char>)> {
    Seq::new(rows.len(), |i: int| rows[i]@)
}

/// The help rows of one action: a row for each of its keys, the first of
/// them with the description of the action.
pub open spec fn action_rows<A: Bindable>(action: A) -> Seq<(Seq<char>, Seq<char>)> {
    Seq::new(
        action.bound_keys().len(),
        |j: int|
            (
                action.bound_keys()[j].text(),
                if j == 0 {
                    action.title()
                } else {
                    Seq::empty()
                },
            ),
    )
}

/// The help rows of a list of actions: the rows of each action, action after
/// action.
pub open spec fn help_rows<A: Bindable>(actions: Seq<A>) -> Seq<(Seq<char>, Seq<char>)>
    decreases actions.len(),
{
    if actions.len() == 0 {
        Seq::empty()
    } else {
        help_rows(actions.drop_last()) + action_rows(actions.last())
    }
}

/// Lays out the help view for a list of actions.
pub fn draw_help<A: Bindable>(actions: &[A]) -> (r: Vec<HelpRow>)
    ensures
        row_views(r@) == help_rows(actions@),
{
    let mut rows: Vec<HelpRow> = Vec::new();
    let mut i: usize = 0;
    assert(actions@.take(0) =~= Seq::<A>::empty());
    assert(row_views(rows@) =~= Seq::empty());
    while i < actions.len()
        invariant
            i <= actions.len(),
            row_views(rows@) == help_rows(actions@.take(i as int)),
        decreases actions.len() - i,
    {
        let action = actions[i];
        let keys = action.key_list();
        let ghost before = row_views(rows@);
        let mut j: usize = 0;
        while j < keys.len()
            invariant
                j <= keys.len(),
                keys@ == action.bound_keys(),
                row_views(rows@) == before + action_rows(action).take(j as int),
            decreases keys.len() - j,
        {
            let help = if j == 0 {
                action.describe()
            } else {
                String::new()
            };
            let ghost earlier = row_views(rows@);
            let row = HelpRow { key: keys[j].to_string(), help };
            rows.push(row);
            proof {
                assert(row_views(rows@) =~= earlier.push(row@));
                assert(action_rows(action).take(j + 1) =~= action_rows(action).take(j as int).push(
                    row@,
                ));
            }
            j = j + 1;
        }
        proof {
            assert(action_rows(action).take(keys.len() as int) =~= action_rows(action));
            assert(actions@.take(i + 1).drop_last() =~= actions@.take(i as int));
            assert(actions@.take(i + 1).last() == action);
        }
        i = i + 1;
    }
    assert(actions@.take(actions.len() as int) =~= actions@);
    rows
}

} // verus!

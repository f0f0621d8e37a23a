use vstd::prelude::*;
use crate::config::PasswordOptions;
use crate::models::clock::{format_rfc3339, rfc3339_text, text_of, utc_now, Timestamp};
use crate::models::ident::{is_random_id, random_uuid};
use crate::models::secret::generate_one;

verus! {

/// A secret kept on its own, apart from any label.
#[derive(Debug)]
pub struct Password {
    id: u128,
    password: String,
    created_at: Timestamp,
    updated_at: Timestamp,
    last_used_at: Timestamp,
    last_changed_at: Timestamp,
}

/// What a stand-alone secret holds, as plain values.
pub struct PasswordView {
    pub id: u128,
    pub password: Seq<char>,
    pub created_at: Timestamp,
    pub updated_at: Timestamp,
    pub last_used_at: Timestamp,
    pub last_changed_at: Timestamp,
}

impl PasswordView {
    /// The secret as it is first made: all four times are the time of making.
    pub open spec fn fresh(id: u128, password: Seq<char>, now: Timestamp) -> PasswordView {
        PasswordView {
            id,
            password,
            created_at: now,
            updated_at: now,
            last_used_at: now,
            last_changed_at: now,
        }
    }
}

impl View for Password {
    type V = PasswordView;

    closed spec fn view(&self) -> PasswordView {
        PasswordView {
            id: self.id,
            password: self.password@,
            created_at: self.created_at,
            updated_at: self.updated_at,
            last_used_at: self.last_used_at,
            last_changed_at: self.last_changed_at,
        }
    }
}

impl Clone for Password {
    fn clone(&self) -> (r: Self)
        ensures
            r@ == self@,
    {
        Password {
            id: self.id,
            password: self.password.clone(),
            created_at: self.created_at,
            updated_at: self.updated_at,
            last_used_at: self.last_used_at,
            last_changed_at: self.last_changed_at,
        }
    }
}

impl Password {
    /// Makes a secret from its parts at the time `now`.
    pub fn assemble(id: u128, password: String, now: Timestamp) -> (r: Password)
        ensures
            r@ == PasswordView::fresh(id, password@, now),
    {
        Password {
            id,
            password,
            created_at: now,
            updated_at: now,
            last_used_at: now,
            last_changed_at: now,
        }
    }

    /// Makes a new secret under the default policy, with a randomly drawn
    /// identifier and the clock's reading as all four of its times.
    pub fn new() -> (r: Password)
        ensures
            r@ == PasswordView::fresh(r@.id, r@.password, r@.created_at),
            is_random_id(r@.id),
            PasswordOptions::spec_default().admits(r@.password),
            r@.created_at.is_reading(),
    {
        let now = utc_now();
        let id = random_uuid();
        let options = PasswordOptions::default();
        let password = generate_one(&options, true).unwrap();
        Password::assemble(id, password, now)
    }

    /// Makes a secret from the values of a stored row, as they are.
    pub fn from_db(
        id: u128,
        password: String,
        created_at: Timestamp,
        updated_at: Timestamp,
        last_used_at: Timestamp,
        last_changed_at: Timestamp,
    ) -> (r: Password)
        ensures
            r@ == (PasswordView {
                id,
                password: password@,
                created_at,
                updated_at,
                last_used_at,
                last_changed_at,
            }),
    {
        Password { id, password, created_at, updated_at, last_used_at, last_changed_at }
    }

    pub fn password(&self) -> (r: &str)
        ensures
            r@ == self@.password,
    {
        self.password.as_str()
    }

    /// The time of the last use as RFC 3339 text, where it has a calendar
    /// date.
    pub fn last_used_at(&self) -> (r: Option<String>)
        ensures
            text_of(r) == rfc3339_text(self@.last_used_at.secs, self@.last_used_at.nanos),
    {
        format_rfc3339(self.last_used_at.secs, self.last_used_at.nanos)
    }

    /// The time of the last change as RFC 3339 text, where it has a calendar
    /// date.
    pub fn last_changed_at(&self) -> (r: Option<String>)
        ensures
            text_of(r) == rfc3339_text(self@.last_changed_at.secs, self@.last_changed_at.nanos),
    {
        format_rfc3339(self.last_changed_at.secs, self.last_changed_at.nanos)
    }

    /// The time of the last update as RFC 3339 text, where it has a calendar
    /// date.
    pub fn updated_at(&self) -> (r: Option<String>)
        ensures
            text_of(r) == rfc3339_text(self@.updated_at.secs, self@.updated_at.nanos),
    {
        format_rfc3339(self.updated_at.secs, self.updated_at.nanos)
    }

    /// The time of creation as RFC 3339 text, where it has a calendar date.
    pub fn created_at(&self) -> (r: Option<String>)
        ensures
            text_of(r) == rfc3339_text(self@.created_at.secs, self@.created_at.nanos),
    {
        format_rfc3339(self.created_at.secs, self.created_at.nanos)
    }

    pub fn id(&self) -> (r: u128)
        ensures
            r == self@.id,
    {
        self.id
    }

    /// The four times of the secret: creation, update, last use, last change.
    pub fn times(&self) -> (r: (Timestamp, Timestamp, Timestamp, Timestamp))
        ensures
            r == (
                self@.created_at,
                self@.updated_at,
                self@.last_used_at,
                self@.last_changed_at,
            ),
    {
        (self.created_at, self.updated_at, self.last_used_at, self.last_changed_at)
    }

    /// The secret itself, as text.
    pub fn to_string(&self) -> (r: String)
        ensures
            r@ == self@.password,
    {
        self.password.clone()
    }
}

} // verus!

use vstd::prelude::*;
use crate::config::PasswordOptions;
use crate::models::clock::{format_rfc3339, rfc3339_text, text_of, utc_now, Timestamp};
use crate::models::ident::{hyphenated, is_random_id, random_uuid, uuid_text};
use crate::models::secret::generate_one;
use crate::text::texts_of;

verus! {

/// One credential record: a label, its secret and the times of its life.
#[derive(Debug)]
pub struct Key {
    id: u128,
    name: String,
    password: String,
    created_at: Timestamp,
    updated_at: Timestamp,
    last_used_at: Timestamp,
    last_changed_at: Timestamp,
}

/// What a credential record holds, as plain values.
pub struct KeyView {
    pub id: u128,
    pub name: Seq<char>,
    pub password: Seq<char>,
    pub created_at: Timestamp,
    pub updated_at: Timestamp,
    pub last_used_at: Timestamp,
    pub last_changed_at: Timestamp,
}

impl KeyView {
    /// The order that the times of a record keep: it was not updated, and its
    /// secret not changed, before it was created.
    pub open spec fn wf(self) -> bool {
        &&& self.created_at.spec_not_after(self.updated_at)
        &&& self.created_at.spec_not_after(self.last_changed_at)
    }

    /// The record as it is first made: all four times are the time of making.
    pub open spec fn fresh(id: u128, name: Seq<char>, password: Seq<char>, now: Timestamp) -> KeyView {
        KeyView {
            id,
            name,
            password,
            created_at: now,
            updated_at: now,
            last_used_at: now,
            last_changed_at: now,
        }
    }

    /// The record after it was used at `now`: its time of last use moves
    /// forward to `now`, and never back.
    pub open spec fn touched(self, now: Timestamp) -> KeyView {
        KeyView { last_used_at: self.last_used_at.spec_later(now), ..self }
    }

    /// The record after its secret was replaced at `now`: the times of update
    /// and of last change move forward to `now`, and never back.
    pub open spec fn with_password(self, password: Seq<char>, now: Timestamp) -> KeyView {
        KeyView {
            password,
            updated_at: self.updated_at.spec_later(now),
            last_changed_at: self.last_changed_at.spec_later(now),
            ..self
        }
    }

    /// The seven texts of a record, in the order of its columns, or `None`
    /// where one of its times has no calendar date.
    pub open spec fn columns(self) -> Option<Seq<Seq<char>>> {
        let created = rfc3339_text(self.created_at.secs, self.created_at.nanos);
        let updated = rfc3339_text(self.updated_at.secs, self.updated_at.nanos);
        let used = rfc3339_text(self.last_used_at.secs, self.last_used_at.nanos);
        let changed = rfc3339_text(self.last_changed_at.secs, self.last_changed_at.nanos);
        if created is Some && updated is Some && used is Some && changed is Some {
            Some(
                seq![
                    hyphenated(self.id),
                    self.name,
                    self.password,
                    created->0,
                    updated->0,
                    used->0,
                    changed->0,
                ],
            )
        } else {
            None
        }
    }
}

impl View for Key {
    type V = KeyView;

    closed spec fn view(&self) -> KeyView {
        KeyView {
            id: self.id,
            name: self.name@,
            password: self.password@,
            created_at: self.created_at,
            updated_at: self.updated_at,
            last_used_at: self.last_used_at,
            last_changed_at: self.last_changed_at,
        }
    }
}

impl Clone for Key {
    fn clone(&self) -> (r: Self)
        ensures
            r@ == self@,
    {
        Key {
            id: self.id,
            name: self.name.clone(),
            password: self.password.clone(),
            created_at: self.created_at,
            updated_at: self.updated_at,
            last_used_at: self.last_used_at,
            last_changed_at: self.last_changed_at,
        }
    }
}

/// What an optional list of strings says.
pub open spec fn columns_of(row: Option<Vec<String>>) -> Option<Seq<Seq<char>>> {
    match row {
        Some(strings) => Some(texts_of(strings@)),
        None => None,
    }
}

impl Key {
    /// Whether the times of the record are in order.
    pub open spec fn wf(&self) -> bool {
        self@.wf()
    }

    /// Tells whether the times of the record are in order.
    pub fn is_well_formed(&self) -> (r: bool)
        ensures
            r == self.wf(),
    {
        self.created_at.not_after(&self.updated_at) && self.created_at.not_after(
            &self.last_changed_at,
        )
    }

    /// Makes a record from its parts at the time `now`.
    pub fn assemble(id: u128, name: String, password: String, now: Timestamp) -> (r: Key)
        ensures
            r@ == KeyView::fresh(id, name@, password@, now),
            r.wf(),
    {
        Key {
            id,
            name,
            password,
            created_at: now,
            updated_at: now,
            last_used_at: now,
            last_changed_at: now,
        }
    }

    /// Makes a new record under the given label, with a secret generated by
    /// the given policy and the clock's reading as all four of its times. The
    /// identifier is the one given, or a randomly drawn one.
    pub fn new(id: Option<u128>, name: String, options: &PasswordOptions) -> (r: Key)
        requires
            options.can_generate(),
        ensures
            r@ == KeyView::fresh(r@.id, name@, r@.password, r@.created_at),
            id matches Some(given) ==> r@.id == given,
            id is None ==> is_random_id(r@.id),
            options.admits(r@.password),
            r@.created_at.is_reading(),
            r.wf(),
    {
        let id = match id {
            Some(given) => given,
            None => random_uuid(),
        };
        let now = utc_now();
        let password = generate_one(options, true).unwrap();
        Key::assemble(id, name, password, now)
    }

    /// Makes a record from the values of a stored row, as they are.
    pub fn from_db(
        id: u128,
        name: String,
        password: String,
        created_at: Timestamp,
        updated_at: Timestamp,
        last_used_at: Timestamp,
        last_changed_at: Timestamp,
    ) -> (r: Key)
        ensures
            r@ == (KeyView {
                id,
                name: name@,
                password: password@,
                created_at,
                updated_at,
                last_used_at,
                last_changed_at,
            }),
    {
        Key { id, name, password, created_at, updated_at, last_used_at, last_changed_at }
    }

    pub fn id(&self) -> (r: u128)
        ensures
            r == self@.id,
    {
        self.id
    }

    pub fn name(&self) -> (r: &str)
        ensures
            r@ == self@.name,
    {
        self.name.as_str()
    }

    pub fn password(&self) -> (r: &str)
        ensures
            r@ == self@.password,
    {
        self.password.as_str()
    }

    /// The time of creation as RFC 3339 text, where it has a calendar date.
    pub fn created_at(&self) -> (r: Option<String>)
        ensures
            text_of(r) == rfc3339_text(self@.created_at.secs, self@.created_at.nanos),
    {
        format_rfc3339(self.created_at.secs, self.created_at.nanos)
    }

    /// The time of the last update as RFC 3339 text, where it has a calendar
    /// date.
    pub fn updated_at(&self) -> (r: Option<String>)
        ensures
            text_of(r) == rfc3339_text(self@.updated_at.secs, self@.updated_at.nanos),
    {
        format_rfc3339(self.updated_at.secs, self.updated_at.nanos)
    }

    /// The time of the last use as RFC 3339 text, where it has a calendar
    /// date.
    pub fn last_used_at(&self) -> (r: Option<String>)
        ensures
            text_of(r) == rfc3339_text(self@.last_used_at.secs, self@.last_used_at.nanos),
    {
        format_rfc3339(self.last_used_at.secs, self.last_used_at.nanos)
    }

    /// The time of the last change of the secret as RFC 3339 text, where it
    /// has a calendar date.
    pub fn last_changed_at(&self) -> (r: Option<String>)
        ensures
            text_of(r) == rfc3339_text(self@.last_changed_at.secs, self@.last_changed_at.nanos),
    {
        format_rfc3339(self.last_changed_at.secs, self.last_changed_at.nanos)
    }

    /// The four times of the record: creation, update, last use, last change
    /// of the secret.
    pub fn times(&self) -> (r: (Timestamp, Timestamp, Timestamp, Timestamp))
        ensures
            r == (
                self@.created_at,
                self@.updated_at,
                self@.last_used_at,
                self@.last_changed_at,
            ),
    {
        (self.created_at, self.updated_at, self.last_used_at, self.last_changed_at)
    }

    /// Replaces the secret at the time `now`.
    pub fn set_password(&mut self, password: String, now: Timestamp)
        ensures
            final(self)@ == old(self)@.with_password(password@, now),
            old(self).wf() ==> final(self).wf(),
    {
        self.password = password;
        self.updated_at = self.updated_at.later(now);
        self.last_changed_at = self.last_changed_at.later(now);
    }

    /// Replaces the secret by one generated under the default policy, at the
    /// clock's reading.
    pub fn update_password(&mut self)
        ensures
            PasswordOptions::spec_default().admits(final(self)@.password),
            exists|now: Timestamp|
                now.is_reading() && final(self)@ == #[trigger] old(self)@.with_password(
                    final(self)@.password,
                    now,
                ),
            old(self).wf() ==> final(self).wf(),
    {
        let options = PasswordOptions::default();
        let now = utc_now();
        let password = generate_one(&options, true).unwrap();
        let ghost before = self@;
        self.set_password(password, now);
        assert(self@ == before.with_password(self@.password, now));
    }

    /// Records a use of the record at the time `now`.
    pub fn touch(&mut self, now: Timestamp)
        ensures
            final(self)@ == old(self)@.touched(now),
            old(self).wf() ==> final(self).wf(),
    {
        self.last_used_at = self.last_used_at.later(now);
    }

    /// Records a use of the record at the clock's reading.
    pub fn update_last_used_at(&mut self)
        ensures
            exists|now: Timestamp| now.is_reading() && final(self)@ == #[trigger] old(self)@.touched(now),
            old(self).wf() ==> final(self).wf(),
    {
        let now = utc_now();
        self.touch(now);
    }

    /// The record as a row of seven texts: identifier, label, secret and the
    /// four times. `None` where one of the times has no calendar date.
    pub fn to_vec(&self) -> (r: Option<Vec<String>>)
        ensures
            columns_of(r) == self@.columns(),
    {
        let created = format_rfc3339(self.created_at.secs, self.created_at.nanos);
        let updated = format_rfc3339(self.updated_at.secs, self.updated_at.nanos);
        let used = format_rfc3339(self.last_used_at.secs, self.last_used_at.nanos);
        let changed = format_rfc3339(self.last_changed_at.secs, self.last_changed_at.nanos);
        match (created, updated, used, changed) {
            (Some(created), Some(updated), Some(used), Some(changed)) => {
                let mut row: Vec<String> = Vec::new();
                row.push(uuid_text(self.id));
                row.push(self.name.clone());
                row.push(self.password.clone());
                row.push(created);
                row.push(updated);
                row.push(used);
                row.push(changed);
                assert(texts_of(row@) =~= self@.columns()->0);
                Some(row)
            },
            _ => None,
        }
    }
}

} // verus!

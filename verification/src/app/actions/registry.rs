use vstd::prelude::*;
use vstd::string::StringExecFns;
use crate::inputs::key::Key;
use crate::text::{join, joined, texts_of};

verus! {

/// One row of a binding table: an action and the keys that trigger it.
pub struct Binding<A> {
    pub action: A,
    pub keys: Vec<Key>,
}

impl<A> View for Binding<A> {
    type V = (A, Seq<Key>);

    open spec fn view(&self) -> (A, Seq<Key>) {
        (self.action, self.keys@)
    }
}

/// A key that more than one row of a table claims, with the actions of the
/// rows that claim it, in the order of the table.
#[derive(Debug)]
pub struct Conflict<A> {
    pub key: Key,
    pub actions: Vec<A>,
}

/// What a conflict names, as plain values.
pub struct ConflictView<A> {
    pub key: Key,
    pub actions: Seq<A>,
}

impl<A> View for Conflict<A> {
    type V = ConflictView<A>;

    open spec fn view(&self) -> ConflictView<A> {
        ConflictView { key: self.key, actions: self.actions@ }
    }
}

/// Why a table is refused: every key that is claimed more than once.
#[derive(Debug)]
pub struct ConflictError<A> {
    pub conflicts: Vec<Conflict<A>>,
}

/// A table as plain values, row by row.
pub open spec fn table_view<A>(table: Seq<Binding<A>>) -> Seq<(A, Seq<Key>)> {
    Seq::new(table.len(), |i: int| table[i]@)
}

/// A list of conflicts as plain values.
pub open spec fn conflict_views<A>(conflicts: Seq<Conflict<A>>) -> Seq<ConflictView<A>> {
    Seq::new(conflicts.len(), |i: int| conflicts[i]@)
}

/// The claims of one row: its action paired with each of its keys.
pub open spec fn row_claims<A>(row: (A, Seq<Key>)) -> Seq<(A, Key)> {
    Seq::new(row.1.len(), |j: int| (row.0, row.1[j]))
}

/// Every claim of a table: each action paired with each of its keys, row
/// after row.
pub open spec fn claims<A>(table: Seq<(A, Seq<Key>)>) -> Seq<(A, Key)>
    decreases table.len(),
{
    if table.len() == 0 {
        Seq::empty()
    } else {
        claims(table.drop_last()) + row_claims(table.last())
    }
}

/// The actions that claim a key, one for each claim, in the order of the
/// claims.
pub open spec fn holders<A>(claims: Seq<(A, Key)>, key: Key) -> Seq<A>
    decreases claims.len(),
{
    if claims.len() == 0 {
        Seq::empty()
    } else if claims.last().1 == key {
        holders(claims.drop_last(), key).push(claims.last().0)
    } else {
        holders(claims.drop_last(), key)
    }
}

/// Whether the claim at `i` is the first one of its key.
pub open spec fn is_first_claim<A>(claims: Seq<(A, Key)>, i: int) -> bool {
    forall|j: int| 0 <= j < i ==> (#[trigger] claims[j]).1 != claims[i].1
}

/// Whether the claim at `i` opens a conflict: it is the first claim of a key
/// that is claimed again.
pub open spec fn opens_conflict<A>(claims: Seq<(A, Key)>, i: int) -> bool {
    is_first_claim(claims, i) && holders(claims, claims[i].1).len() > 1
}

/// The conflicts among the first `n` keys met, over all the claims: one for
/// each key claimed more than once, in the order in which the keys are first
/// claimed.
pub open spec fn conflicts_upto<A>(claims: Seq<(A, Key)>, n: int) -> Seq<ConflictView<A>>
    decreases n,
{
    if n <= 0 {
        Seq::empty()
    } else if opens_conflict(claims, n - 1) {
        conflicts_upto(claims, n - 1).push(
            ConflictView { key: claims[n - 1].1, actions: holders(claims, claims[n - 1].1) },
        )
    } else {
        conflicts_upto(claims, n - 1)
    }
}

/// All the conflicts of a list of claims.
pub open spec fn spec_conflicts<A>(claims: Seq<(A, Key)>) -> Seq<ConflictView<A>> {
    conflicts_upto(claims, claims.len() as int)
}

/// Whether no key is claimed twice.
pub open spec fn conflict_free<A>(claims: Seq<(A, Key)>) -> bool {
    forall|i: int, j: int|
        0 <= i < j < claims.len() ==> (#[trigger] claims[i]).1 != (#[trigger] claims[j]).1
}

/// Lays a table out as its list of claims.
pub fn flatten<A: Copy>(table: &Vec<Binding<A>>) -> (r: Vec<(A, Key)>)
    ensures
        r@ == claims(table_view(table@)),
{
    let ghost rows = table_view(table@);
    let mut out: Vec<(A, Key)> = Vec::new();
    let mut i: usize = 0;
    assert(rows.take(0) =~= Seq::empty());
    while i < table.len()
        invariant
            i <= table.len(),
            rows == table_view(table@),
            out@ == claims(rows.take(i as int)),
        decreases table.len() - i,
    {
        let row = &table[i];
        let ghost before = out@;
        let mut j: usize = 0;
        while j < row.keys.len()
            invariant
                j <= row.keys.len(),
                out@ == before + row_claims(row@).take(j as int),
            decreases row.keys.len() - j,
        {
            out.push((row.action, row.keys[j]));
            assert(row_claims(row@).take(j + 1) =~= row_claims(row@).take(j as int).push(
                (row.action, row.keys@[j as int]),
            ));
            j = j + 1;
        }
        proof {
            assert(row_claims(row@).take(row.keys.len() as int) =~= row_claims(row@));
            assert(rows.take(i + 1).drop_last() =~= rows.take(i as int));
            assert(rows.take(i + 1).last() == row@);
        }
        i = i + 1;
    }
    assert(rows.take(table.len() as int) =~= rows);
    out
}

/// Tells whether the key of the claim at `i` is claimed before `i`.
fn claimed_before<A: Copy>(all: &Vec<(A, Key)>, i: usize) -> (r: bool)
    requires
        i < all.len(),
    ensures
        r == !is_first_claim(all@, i as int),
{
    let key = all[i].1;
    let mut j: usize = 0;
    while j < i
        invariant
            j <= i < all.len(),
            key == all@[i as int].1,
            forall|k: int| 0 <= k < j ==> (#[trigger] all@[k]).1 != key,
        decreases i - j,
    {
        if all[j].1 == key {
            return true;
        }
        j = j + 1;
    }
    false
}

/// Gathers the actions that claim a key.
fn collect_holders<A: Copy>(all: &Vec<(A, Key)>, key: Key) -> (r: Vec<A>)
    ensures
        r@ == holders(all@, key),
{
    let mut who: Vec<A> = Vec::new();
    let mut j: usize = 0;
    assert(all@.take(0) =~= Seq::empty());
    while j < all.len()
        invariant
            j <= all.len(),
            who@ == holders(all@.take(j as int), key),
        decreases all.len() - j,
    {
        proof {
            assert(all@.take(j + 1).drop_last() =~= all@.take(j as int));
            assert(all@.take(j + 1).last() == all@[j as int]);
        }
        if all[j].1 == key {
            who.push(all[j].0);
        }
        j = j + 1;
    }
    assert(all@.take(all.len() as int) =~= all@);
    who
}

/// Finds every conflict of a table: each key that more than one claim names,
/// once, with all the actions that claim it.
pub fn find_conflicts<A: Copy>(table: &Vec<Binding<A>>) -> (r: Vec<Conflict<A>>)
    ensures
        conflict_views(r@) == spec_conflicts(claims(table_view(table@))),
{
    let all = flatten(table);
    let mut out: Vec<Conflict<A>> = Vec::new();
    let mut i: usize = 0;
    assert(conflict_views(out@) =~= conflicts_upto(all@, 0));
    while i < all.len()
        invariant
            i <= all.len(),
            conflict_views(out@) == conflicts_upto(all@, i as int),
        decreases all.len() - i,
    {
        let key = all[i].1;
        if !claimed_before(&all, i) {
            let who = collect_holders(&all, key);
            if who.len() > 1 {
                let ghost earlier = conflict_views(out@);
                let found = Conflict { key, actions: who };
                out.push(found);
                assert(conflict_views(out@) =~= earlier.push(found@));
            }
        }
        i = i + 1;
    }
    out
}

/// Accepts a table in which no key is claimed twice, and refuses any other,
/// naming every key that is claimed more than once and every action that
/// claims it.
pub fn check<A: Copy>(table: &Vec<Binding<A>>) -> (r: Result<(), ConflictError<A>>)
    ensures
        r is Ok <==> conflict_free(claims(table_view(table@))),
        r matches Err(e) ==> conflict_views(e.conflicts@) == spec_conflicts(
            claims(table_view(table@)),
        ),
{
    let conflicts = find_conflicts(table);
    proof {
        lemma_no_conflicts_iff_free(claims(table_view(table@)));
    }
    if conflicts.len() == 0 {
        Ok(())
    } else {
        Err(ConflictError { conflicts })
    }
}

/// An action that keys can be bound to: it knows the keys that trigger it and
/// the list of all the actions of its mode.
pub trait Bindable: Copy + Sized {
    /// All the actions of the mode, in the order in which they are declared.
    spec fn universe() -> Seq<Self>;

    /// The keys that trigger the action.
    spec fn bound_keys(self) -> Seq<Key>;

    /// All the actions of the mode, in the order in which they are declared.
    fn every() -> (r: Vec<Self>)
        ensures
            r@ == Self::universe(),
    ;

    /// The keys that trigger the action.
    fn key_list(&self) -> (r: Vec<Key>)
        ensures
            r@ == self.bound_keys(),
    ;

    /// Tells whether two actions are the same.
    fn same(&self, other: &Self) -> (r: bool)
        ensures
            r == (*self == *other),
    ;

    /// The short description of the action.
    spec fn title(self) -> Seq<char>;

    /// The short description of the action.
    fn describe(&self) -> (r: String)
        ensures
            r@ == self.title(),
    ;
}

/// The short descriptions of a list of actions.
pub open spec fn titles<A: Bindable>(actions: Seq<A>) -> Seq<Seq<char>> {
    Seq::new(actions.len(), |i: int| actions[i].title())
}

/// The sentence that names one conflict: its key and the actions that claim
/// it.
pub open spec fn conflict_text<A: Bindable>(conflict: ConflictView<A>) -> Seq<char> {
    "Conflict key "@ + conflict.key.text() + " with actions "@ + joined(
        titles(conflict.actions),
        ", "@,
    )
}

/// The sentences that name a list of conflicts.
pub open spec fn conflict_texts<A: Bindable>(conflicts: Seq<ConflictView<A>>) -> Seq<Seq<char>> {
    Seq::new(conflicts.len(), |i: int| conflict_text(conflicts[i]))
}

/// The message that names a list of conflicts: one sentence for each, with a
/// semicolon between each two.
pub open spec fn message<A: Bindable>(conflicts: Seq<ConflictView<A>>) -> Seq<char> {
    joined(conflict_texts(conflicts), "; "@)
}

impl<A: Bindable> Conflict<A> {
    /// The sentence that names the conflict.
    pub fn to_string(&self) -> (r: String)
        ensures
            r@ == conflict_text(self@),
    {
        let mut names: Vec<String> = Vec::new();
        let mut i: usize = 0;
        while i < self.actions.len()
            invariant
                i <= self.actions.len(),
                texts_of(names@) == titles(self.actions@.take(i as int)),
            decreases self.actions.len() - i,
        {
            let ghost earlier = texts_of(names@);
            let name = self.actions[i].describe();
            names.push(name);
            assert(texts_of(names@) =~= earlier.push(name@));
            assert(titles(self.actions@.take(i + 1)) =~= titles(self.actions@.take(i as int)).push(
                name@,
            ));
            i = i + 1;
        }
        assert(self.actions@.take(self.actions.len() as int) =~= self.actions@);
        let mut out = "Conflict key ".to_owned();
        out.append(self.key.to_string().as_str());
        out.append(" with actions ");
        out.append(join(&names, ", ").as_str());
        out
    }
}

impl<A: Bindable> ConflictError<A> {
    /// The message that names every conflict.
    pub fn to_string(&self) -> (r: String)
        ensures
            r@ == message(conflict_views(self.conflicts@)),
    {
        let mut sentences: Vec<String> = Vec::new();
        let mut i: usize = 0;
        let ghost found = conflict_views(self.conflicts@);
        while i < self.conflicts.len()
            invariant
                i <= self.conflicts.len(),
                found == conflict_views(self.conflicts@),
                texts_of(sentences@) == conflict_texts(found.take(i as int)),
            decreases self.conflicts.len() - i,
        {
            let ghost earlier = texts_of(sentences@);
            let sentence = self.conflicts[i].to_string();
            sentences.push(sentence);
            assert(texts_of(sentences@) =~= earlier.push(sentence@));
            assert(conflict_texts(found.take(i + 1)) =~= conflict_texts(found.take(i as int)).push(
                sentence@,
            ));
            i = i + 1;
        }
        assert(found.take(self.conflicts.len() as int) =~= found);
        join(&sentences, "; ")
    }
}

/// The table that a list of actions stands for: each action with its own keys.
pub open spec fn bindings_of<A: Bindable>(actions: Seq<A>) -> Seq<(A, Seq<Key>)> {
    Seq::new(actions.len(), |i: int| (actions[i], actions[i].bound_keys()))
}

/// Whether an action answers to a key: it is among the active ones and the
/// key is one of its own.
pub open spec fn responds<A: Bindable>(action: A, active: Seq<A>, key: Key) -> bool {
    active.contains(action) && action.bound_keys().contains(key)
}

/// The first of the listed actions that answers to a key, if any does.
pub open spec fn first_bound<A: Bindable>(listed: Seq<A>, active: Seq<A>, key: Key) -> Option<A>
    decreases listed.len(),
{
    if listed.len() == 0 {
        None
    } else if responds(listed[0], active, key) {
        Some(listed[0])
    } else {
        first_bound(listed.drop_first(), active, key)
    }
}

/// Writes out the table that a list of actions stands for.
pub fn bind<A: Bindable>(actions: &Vec<A>) -> (r: Vec<Binding<A>>)
    ensures
        table_view(r@) == bindings_of(actions@),
{
    let mut table: Vec<Binding<A>> = Vec::new();
    let mut i: usize = 0;
    while i < actions.len()
        invariant
            i <= actions.len(),
            table_view(table@) == bindings_of(actions@.take(i as int)),
        decreases actions.len() - i,
    {
        let ghost earlier = table_view(table@);
        let row = Binding { action: actions[i], keys: actions[i].key_list() };
        table.push(row);
        assert(table_view(table@) =~= earlier.push(row@));
        assert(bindings_of(actions@.take(i + 1)) =~= bindings_of(actions@.take(i as int)).push(
            row@,
        ));
        i = i + 1;
    }
    assert(actions@.take(actions.len() as int) =~= actions@);
    table
}

/// Tells whether an action is in a list.
pub fn holds<A: Bindable>(list: &Vec<A>, action: &A) -> (r: bool)
    ensures
        r == list@.contains(*action),
{
    let mut i: usize = 0;
    while i < list.len()
        invariant
            i <= list.len(),
            forall|k: int| 0 <= k < i ==> list@[k] != *action,
        decreases list.len() - i,
    {
        if list[i].same(action) {
            return true;
        }
        i = i + 1;
    }
    false
}

/// Tells whether a key is in a list.
pub fn has_key(keys: &Vec<Key>, key: Key) -> (r: bool)
    ensures
        r == keys@.contains(key),
{
    let mut i: usize = 0;
    while i < keys.len()
        invariant
            i <= keys.len(),
            forall|k: int| 0 <= k < i ==> keys@[k] != key,
        decreases keys.len() - i,
    {
        if keys[i] == key {
            return true;
        }
        i = i + 1;
    }
    false
}

/// Finds the action that a key triggers: the first action of the mode, in the
/// order in which they are declared, that is active and has the key.
pub fn find_bound<A: Bindable>(active: &Vec<A>, key: Key) -> (r: Option<A>)
    ensures
        r == first_bound(A::universe(), active@, key),
{
    let listed = A::every();
    let mut i: usize = 0;
    assert(listed@.skip(0) =~= listed@);
    while i < listed.len()
        invariant
            i <= listed.len(),
            listed@ == A::universe(),
            first_bound(A::universe(), active@, key) == first_bound(
                listed@.skip(i as int),
                active@,
                key,
            ),
        decreases listed.len() - i,
    {
        let action = listed[i];
        proof {
            assert(listed@.skip(i as int)[0] == action);
            assert(listed@.skip(i as int).drop_first() =~= listed@.skip(i + 1));
        }
        if holds(active, &action) {
            let keys = action.key_list();
            if has_key(&keys, key) {
                return Some(action);
            }
        }
        i = i + 1;
    }
    None
}

/// Accepts a list of actions of which no two claim the same key, and refuses
/// any other, naming every key that is claimed more than once and every
/// action that claims it.
pub fn check_actions<A: Bindable>(actions: &Vec<A>) -> (r: Result<(), ConflictError<A>>)
    ensures
        r is Ok <==> conflict_free(claims(bindings_of(actions@))),
        r matches Err(e) ==> conflict_views(e.conflicts@) == spec_conflicts(
            claims(bindings_of(actions@)),
        ),
{
    let table = bind(actions);
    check(&table)
}

/// Whether the actions of a mode keep their keys apart: no action lists a key
/// twice and no two actions list the same key.
pub open spec fn keys_apart<A: Bindable>() -> bool {
    &&& forall|a: A| (#[trigger] a.bound_keys()).no_duplicates()
    &&& forall|a: A, b: A, k: Key|
        a != b && (#[trigger] a.bound_keys().contains(k)) ==> !(#[trigger] b.bound_keys().contains(
            k,
        ))
}

/// Every claim of a table comes from one of its rows.
proof fn lemma_claim_origin<A>(table: Seq<(A, Seq<Key>)>, p: int) -> (r: int)
    requires
        0 <= p < claims(table).len(),
    ensures
        0 <= r < table.len(),
        claims(table)[p].0 == table[r].0,
        table[r].1.contains(claims(table)[p].1),
    decreases table.len(),
{
    let shorter = table.drop_last();
    if p < claims(shorter).len() {
        lemma_claim_origin(shorter, p)
    } else {
        let c = p - claims(shorter).len();
        assert(claims(table)[p] == row_claims(table.last())[c]);
        assert(table.last().1[c] == claims(table)[p].1);
        table.len() - 1
    }
}

/// In a mode whose actions keep their keys apart, a list that names no action
/// twice has no key claimed twice.
pub proof fn lemma_distinct_actions_conflict_free<A: Bindable>(actions: Seq<A>)
    requires
        keys_apart::<A>(),
        actions.no_duplicates(),
    ensures
        conflict_free(claims(bindings_of(actions))),
    decreases actions.len(),
{
    let table = bindings_of(actions);
    if actions.len() > 0 {
        let shorter = table.drop_last();
        assert(shorter =~= bindings_of(actions.drop_last()));
        lemma_distinct_actions_conflict_free(actions.drop_last());
        let earlier = claims(shorter);
        let row = table.last();
        let all = claims(table);
        assert forall|i: int, j: int| 0 <= i < j < all.len() implies (#[trigger] all[i]).1 != (
        #[trigger] all[j]).1 by {
            if j < earlier.len() {
                assert(earlier[i].1 != earlier[j].1);
            } else if i >= earlier.len() {
                let a = i - earlier.len();
                let b = j - earlier.len();
                assert(all[i] == row_claims(row)[a]);
                assert(all[j] == row_claims(row)[b]);
                assert(row.1 == actions.last().bound_keys());
                assert(row.1[a] != row.1[b]);
            } else {
                let r = lemma_claim_origin(shorter, i);
                let b = j - earlier.len();
                assert(all[j] == row_claims(row)[b]);
                assert(all[i] == earlier[i]);
                assert(shorter[r].0 == actions[r]);
                assert(actions[r] != actions[actions.len() - 1]);
                assert(shorter[r].1 == actions[r].bound_keys());
                assert(row.1 == actions.last().bound_keys());
                assert(row.1.contains(row.1[b]));
            }
        }
    }
}

/// A key that is claimed at `i` has a holder.
proof fn lemma_holders_one<A>(claims: Seq<(A, Key)>, i: int)
    requires
        0 <= i < claims.len(),
    ensures
        holders(claims, claims[i].1).len() >= 1,
    decreases claims.len(),
{
    if i < claims.len() - 1 {
        lemma_holders_one(claims.drop_last(), i);
    }
}

/// A key that is claimed at `i` and again at `j` has two holders or more.
proof fn lemma_holders_two<A>(claims: Seq<(A, Key)>, i: int, j: int)
    requires
        0 <= i < j < claims.len(),
        claims[i].1 == claims[j].1,
    ensures
        holders(claims, claims[i].1).len() >= 2,
    decreases claims.len(),
{
    if j < claims.len() - 1 {
        lemma_holders_two(claims.drop_last(), i, j);
    } else {
        lemma_holders_one(claims.drop_last(), i);
    }
}

/// Where no key is claimed twice, no key has more than one holder.
proof fn lemma_free_holders<A>(claims: Seq<(A, Key)>, key: Key)
    requires
        conflict_free(claims),
    ensures
        holders(claims, key).len() <= 1,
        holders(claims, key).len() == 1 ==> exists|i: int|
            0 <= i < claims.len() && (#[trigger] claims[i]).1 == key,
    decreases claims.len(),
{
    if claims.len() > 0 {
        let shorter = claims.drop_last();
        assert(conflict_free(shorter)) by {
            assert forall|i: int, j: int| 0 <= i < j < shorter.len() implies (
            #[trigger] shorter[i]).1 != (#[trigger] shorter[j]).1 by {
                assert(claims[i].1 != claims[j].1);
            }
        }
        lemma_free_holders(shorter, key);
        if claims.last().1 == key {
            if holders(shorter, key).len() == 1 {
                let i = choose|i: int| 0 <= i < shorter.len() && (#[trigger] shorter[i]).1 == key;
                assert(claims[i].1 != claims[claims.len() - 1].1);
            }
            assert(claims[claims.len() - 1].1 == key);
        } else if holders(shorter, key).len() == 1 {
            let i = choose|i: int| 0 <= i < shorter.len() && (#[trigger] shorter[i]).1 == key;
            assert(claims[i].1 == key);
        }
    }
}

/// No conflict is found among the first `n` keys exactly when none of the
/// first `n` claims opens one.
proof fn lemma_conflicts_upto_empty<A>(claims: Seq<(A, Key)>, n: int)
    requires
        0 <= n <= claims.len(),
    ensures
        conflicts_upto(claims, n).len() == 0 <==> forall|m: int|
            0 <= m < n ==> !#[trigger] opens_conflict(claims, m),
    decreases n,
{
    if n > 0 {
        lemma_conflicts_upto_empty(claims, n - 1);
    }
}

/// The first claim of the key that is claimed at `i`.
proof fn lemma_first_claim_exists<A>(claims: Seq<(A, Key)>, i: int) -> (first: int)
    requires
        0 <= i < claims.len(),
    ensures
        0 <= first <= i,
        claims[first].1 == claims[i].1,
        is_first_claim(claims, first),
    decreases i,
{
    if exists|j: int| 0 <= j < i && (#[trigger] claims[j]).1 == claims[i].1 {
        let j = choose|j: int| 0 <= j < i && (#[trigger] claims[j]).1 == claims[i].1;
        lemma_first_claim_exists(claims, j)
    } else {
        i
    }
}

/// A list of claims has no conflict exactly when no key is claimed twice.
pub proof fn lemma_no_conflicts_iff_free<A>(claims: Seq<(A, Key)>)
    ensures
        spec_conflicts(claims).len() == 0 <==> conflict_free(claims),
{
    lemma_conflicts_upto_empty(claims, claims.len() as int);
    if conflict_free(claims) {
        assert forall|m: int| 0 <= m < claims.len() implies !#[trigger] opens_conflict(
            claims,
            m,
        ) by {
            lemma_free_holders(claims, claims[m].1);
        }
    } else {
        let (i, j) = choose|i: int, j: int|
            0 <= i < j < claims.len() && (#[trigger] claims[i]).1 == (#[trigger] claims[j]).1;
        let first = lemma_first_claim_exists(claims, i);
        lemma_holders_two(claims, first, j);
        assert(opens_conflict(claims, first));
    }
}

/// A key that has a holder is claimed somewhere.
proof fn lemma_holder_has_claim<A>(claims: Seq<(A, Key)>, key: Key) -> (i: int)
    requires
        holders(claims, key).len() >= 1,
    ensures
        0 <= i < claims.len(),
        claims[i].1 == key,
    decreases claims.len(),
{
    if claims.last().1 == key {
        claims.len() - 1
    } else {
        lemma_holder_has_claim(claims.drop_last(), key)
    }
}

/// Every conflict found among the first `n` keys is opened by one of the
/// first `n` claims, and names the key of that claim with all its holders.
proof fn lemma_conflicts_upto_sound<A>(claims: Seq<(A, Key)>, n: int, k: int) -> (m: int)
    requires
        0 <= n <= claims.len(),
        0 <= k < conflicts_upto(claims, n).len(),
    ensures
        0 <= m < n,
        opens_conflict(claims, m),
        conflicts_upto(claims, n)[k] == (ConflictView {
            key: claims[m].1,
            actions: holders(claims, claims[m].1),
        }),
    decreases n,
{
    if opens_conflict(claims, n - 1) && k == conflicts_upto(claims, n - 1).len() {
        n - 1
    } else {
        lemma_conflicts_upto_sound(claims, n - 1, k)
    }
}

/// Every claim among the first `n` that opens a conflict has its conflict
/// among those found.
proof fn lemma_conflicts_upto_complete<A>(claims: Seq<(A, Key)>, n: int, m: int) -> (k: int)
    requires
        0 <= m < n <= claims.len(),
        opens_conflict(claims, m),
    ensures
        0 <= k < conflicts_upto(claims, n).len(),
        conflicts_upto(claims, n)[k] == (ConflictView {
            key: claims[m].1,
            actions: holders(claims, claims[m].1),
        }),
    decreases n,
{
    if m == n - 1 {
        conflicts_upto(claims, n - 1).len() as int
    } else {
        lemma_conflicts_upto_complete(claims, n - 1, m)
    }
}

/// The conflicts name exactly the keys that more than one claim names, each
/// with all the actions that claim it.
pub proof fn lemma_conflicts_name_every_shared_key<A>(claims: Seq<(A, Key)>, key: Key)
    ensures
        holders(claims, key).len() > 1 <==> exists|k: int|
            0 <= k < spec_conflicts(claims).len() && (#[trigger] spec_conflicts(claims)[k]).key
                == key,
        forall|k: int|
            0 <= k < spec_conflicts(claims).len() && (#[trigger] spec_conflicts(claims)[k]).key
                == key ==> spec_conflicts(claims)[k].actions == holders(claims, key),
{
    let found = spec_conflicts(claims);
    let n = claims.len() as int;
    if holders(claims, key).len() > 1 {
        let i = lemma_holder_has_claim(claims, key);
        let first = lemma_first_claim_exists(claims, i);
        let k = lemma_conflicts_upto_complete(claims, n, first);
        assert(found[k].key == key);
    }
    assert forall|k: int| 0 <= k < found.len() && (#[trigger] found[k]).key == key implies found[k].actions
        == holders(claims, key) && holders(claims, key).len() > 1 by {
        let m = lemma_conflicts_upto_sound(claims, n, k);
    }
}

/// No key is named by two conflicts.
pub proof fn lemma_conflicts_name_each_key_once<A>(claims: Seq<(A, Key)>, j: int, k: int)
    requires
        0 <= j < k < spec_conflicts(claims).len(),
    ensures
        spec_conflicts(claims)[j].key != spec_conflicts(claims)[k].key,
{
    lemma_conflicts_upto_ordered(claims, claims.len() as int, j, k);
}

/// Of two conflicts found among the first `n` keys, the later one is opened
/// by a later claim; so their keys differ.
proof fn lemma_conflicts_upto_ordered<A>(claims: Seq<(A, Key)>, n: int, j: int, k: int)
    requires
        0 <= n <= claims.len(),
        0 <= j < k < conflicts_upto(claims, n).len(),
    ensures
        conflicts_upto(claims, n)[j].key != conflicts_upto(claims, n)[k].key,
    decreases n,
{
    if opens_conflict(claims, n - 1) && k == conflicts_upto(claims, n - 1).len() {
        let m = lemma_conflicts_upto_sound(claims, n - 1, j);
        assert(claims[m].1 != claims[n - 1].1);
    } else {
        lemma_conflicts_upto_ordered(claims, n - 1, j, k);
    }
}

/// The claim that a row of a table makes with one of its keys.
proof fn lemma_claim_at<A>(table: Seq<(A, Seq<Key>)>, r: int, c: int) -> (p: int)
    requires
        0 <= r < table.len(),
        0 <= c < table[r].1.len(),
    ensures
        0 <= p < claims(table).len(),
        claims(table)[p] == (table[r].0, table[r].1[c]),
    decreases table.len(),
{
    let shorter = table.drop_last();
    if r == table.len() - 1 {
        assert(row_claims(table.last())[c] == (table[r].0, table[r].1[c]));
        claims(shorter).len() + c
    } else {
        lemma_claim_at(shorter, r, c)
    }
}

/// What is found for a key is one of the listed actions and answers to the
/// key; where nothing is found, no listed action answers to it.
pub proof fn lemma_first_bound_answers<A: Bindable>(listed: Seq<A>, active: Seq<A>, key: Key)
    ensures
        first_bound(listed, active, key) matches Some(found) ==> listed.contains(found)
            && responds(found, active, key),
        first_bound(listed, active, key) is None ==> forall|a: A|
            listed.contains(a) ==> !#[trigger] responds(a, active, key),
    decreases listed.len(),
{
    if listed.len() > 0 {
        let rest = listed.drop_first();
        lemma_first_bound_answers(rest, active, key);
        if responds(listed[0], active, key) {
        } else {
            if first_bound(rest, active, key) is Some {
                let found = first_bound(rest, active, key)->0;
                let i = choose|i: int| 0 <= i < rest.len() && rest[i] == found;
                assert(listed[i + 1] == found);
            } else {
                assert forall|a: A| listed.contains(a) implies !#[trigger] responds(
                    a,
                    active,
                    key,
                ) by {
                    let i = choose|i: int| 0 <= i < listed.len() && listed[i] == a;
                    if i > 0 {
                        assert(rest[i - 1] == a);
                    }
                }
            }
        }
    }
}

/// Among active actions of which no two claim the same key, at most one
/// answers to a key.
pub proof fn lemma_one_action_per_key<A: Bindable>(active: Seq<A>, key: Key, a: A, b: A)
    requires
        conflict_free(claims(bindings_of(active))),
        responds(a, active, key),
        responds(b, active, key),
    ensures
        a == b,
{
    let table = bindings_of(active);
    let ra = choose|i: int| 0 <= i < active.len() && active[i] == a;
    let rb = choose|i: int| 0 <= i < active.len() && active[i] == b;
    let ca = choose|i: int| 0 <= i < a.bound_keys().len() && a.bound_keys()[i] == key;
    let cb = choose|i: int| 0 <= i < b.bound_keys().len() && b.bound_keys()[i] == key;
    let pa = lemma_claim_at(table, ra, ca);
    let pb = lemma_claim_at(table, rb, cb);
    if a != b {
        assert(pa != pb);
        if pa < pb {
            assert(claims(table)[pa].1 != claims(table)[pb].1);
        } else {
            assert(claims(table)[pb].1 != claims(table)[pa].1);
        }
    }
}

/// In a table that was accepted, a key triggers an action of the mode
/// exactly when that action is active and has the key.
pub proof fn lemma_find_is_the_binding<A: Bindable>(active: Seq<A>, key: Key, action: A)
    requires
        conflict_free(claims(bindings_of(active))),
        A::universe().contains(action),
    ensures
        first_bound(A::universe(), active, key) == Some(action) <==> responds(action, active, key),
{
    lemma_first_bound_answers(A::universe(), active, key);
    if responds(action, active, key) {
        let found = first_bound(A::universe(), active, key)->0;
        lemma_one_action_per_key(active, key, found, action);
    }
}

} // verus!

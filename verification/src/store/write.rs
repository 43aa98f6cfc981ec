//! Inserts and updates, table by table. A write is refused, and changes
//! nothing, where it would leave a reference dangling, give two users or two
//! roles the same name, or run out of keys.

use vstd::prelude::*;
use crate::db::DbError;
use crate::models::{automation, automation_history, land, notification, pest_control, plant, pump, recommendation, seed, sensor, sensor_history, user, user_role, valve};
use crate::schema::{Row, Table};
use crate::store::rows::{has_key, is_name_taken, lookup, name_taken, unique_labels};
use crate::store::Store;

verus! {

/// A key is found after a row has been appended if and only if it was found
/// before or is the key of that row.
pub proof fn lemma_has_key_push<T: Row>(s: Seq<T>, row: T, key: int)
    ensures
        has_key(s.push(row), key) <==> has_key(s, key) || row.key() == key,
{
    let t = s.push(row);
    if has_key(s, key) {
        let i = choose|i: int| 0 <= i < s.len() && #[trigger] s[i].key() == key;
        assert(t[i].key() == key);
    }
    if row.key() == key {
        assert(t[s.len() as int].key() == key);
    }
    if has_key(t, key) {
        let i = choose|i: int| 0 <= i < t.len() && #[trigger] t[i].key() == key;
        if i < s.len() {
            assert(s[i].key() == key);
        }
    }
}

/// Two sequences whose rows have the same keys, position by position, hold the
/// same keys.
pub proof fn lemma_same_keys<T: Row>(s: Seq<T>, t: Seq<T>, key: int)
    requires
        s.len() == t.len(),
        forall|i: int| 0 <= i < s.len() ==> (#[trigger] s[i]).key() == t[i].key(),
    ensures
        has_key(s, key) == has_key(t, key),
{
    if has_key(s, key) {
        let i = choose|i: int| 0 <= i < s.len() && #[trigger] s[i].key() == key;
        assert(s[i].key() == t[i].key());
        assert(t[i].key() == key);
    }
    if has_key(t, key) {
        let i = choose|i: int| 0 <= i < t.len() && #[trigger] t[i].key() == key;
        assert(s[i].key() == t[i].key());
    }
}

/// Every key that was found is found after a row has been appended.
proof fn lemma_keys_stay<T: Row>(s: Seq<T>, row: T)
    ensures
        forall|key: int| has_key(s, key) ==> has_key(s.push(row), key),
{
    assert forall|key: int| has_key(s, key) implies has_key(s.push(row), key) by {
        lemma_has_key_push(s, row, key);
    }
}

/// Two sequences whose rows have the same keys, position by position, find the
/// same keys.
proof fn lemma_keys_same<T: Row>(s: Seq<T>, t: Seq<T>)
    requires
        s.len() == t.len(),
        forall|i: int| 0 <= i < s.len() ==> (#[trigger] s[i]).key() == t[i].key(),
    ensures
        forall|key: int| has_key(s, key) ==> has_key(t, key),
{
    assert forall|key: int| has_key(s, key) implies has_key(t, key) by {
        lemma_same_keys(s, t, key);
    }
}

/// Rows whose references were met in one store have them met in every store
/// that holds at least the same keys.
pub proof fn lemma_links_carry<T: Row>(before: &Store, after: &Store, rows: Seq<T>)
    requires
        before.all_linked(rows),
        forall|t: Table, k: int| #[trigger] before.has(t, k) ==> after.has(t, k),
    ensures
        after.all_linked(rows),
{
    assert forall|i: int| 0 <= i < rows.len() implies after.linked(#[trigger] rows[i]) by {
        assert(before.linked(rows[i]));
    }
}

/// Appending a row whose references are met keeps all references met.
pub proof fn lemma_append_linked<T: Row>(before: &Store, after: &Store, rows: Seq<T>, draft: T, key: int)
    requires
        before.all_linked(rows),
        before.linked(draft),
        i32::MIN <= key <= i32::MAX,
        forall|t: Table, k: int| #[trigger] before.has(t, k) ==> after.has(t, k),
    ensures
        after.all_linked(rows.push(draft.keyed(key))),
{
    let s = rows.push(draft.keyed(key));
    draft.lemma_keyed(key);
    lemma_links_carry(before, after, rows);
    assert forall|i: int| 0 <= i < s.len() implies after.linked(#[trigger] s[i]) by {
        if i < rows.len() {
            assert(s[i] == rows[i]);
        } else {
            assert forall|t: Table| (#[trigger] s[i].parent(t)) is Some implies after.has(
                t,
                s[i].parent(t)->0,
            ) by {
                assert(draft.parent(t) == s[i].parent(t));
            }
        }
    }
}

/// Appending a row whose name no row goes by keeps names unique.
pub proof fn lemma_append_unique<T: Row>(rows: Seq<T>, row: T)
    requires
        unique_labels(rows),
        row.label() is Some,
        !name_taken(rows, row.label()->0, None),
    ensures
        unique_labels(rows.push(row)),
{
    let s = rows.push(row);
    assert forall|i: int, j: int|
        0 <= i < s.len() && 0 <= j < s.len() && (#[trigger] s[i]).label() == (
        #[trigger] s[j]).label() implies s[i].key() == s[j].key() by {
        if i < rows.len() {
            assert(s[i] == rows[i]);
        }
        if j < rows.len() {
            assert(s[j] == rows[j]);
        }
    }
}

/// Writing a row whose references are met over the row of its key keeps all
/// references met.
pub proof fn lemma_replace_linked<T: Row>(before: &Store, after: &Store, rows: Seq<T>, s: Seq<T>, row: T)
    requires
        before.all_linked(rows),
        before.linked(row),
        s.len() == rows.len(),
        forall|i: int|
            0 <= i < rows.len() ==> #[trigger] s[i] == if rows[i].key() == row.key() {
                row
            } else {
                rows[i]
            },
        forall|t: Table, k: int| #[trigger] before.has(t, k) ==> after.has(t, k),
    ensures
        after.all_linked(s),
{
    lemma_links_carry(before, after, rows);
    assert forall|i: int| 0 <= i < s.len() implies after.linked(#[trigger] s[i]) by {
        if rows[i].key() != row.key() {
            assert(s[i] == rows[i]);
        } else {
            assert(s[i] == row);
            assert(before.linked(row));
        }
    }
}

/// Writing a row whose name no other row goes by over the row of its key keeps
/// names unique.
pub proof fn lemma_replace_unique<T: Row>(rows: Seq<T>, s: Seq<T>, row: T)
    requires
        unique_labels(rows),
        row.label() is Some,
        !name_taken(rows, row.label()->0, Some(row.key())),
        s.len() == rows.len(),
        forall|i: int|
            0 <= i < rows.len() ==> #[trigger] s[i] == if rows[i].key() == row.key() {
                row
            } else {
                rows[i]
            },
    ensures
        unique_labels(s),
{
    assert forall|i: int, j: int|
        0 <= i < s.len() && 0 <= j < s.len() && (#[trigger] s[i]).label() == (
        #[trigger] s[j]).label() implies s[i].key() == s[j].key() by {
        assert(s[i].key() == rows[i].key() && s[j].key() == rows[j].key());
        if rows[i].key() != row.key() {
            assert(s[i] == rows[i]);
        }
        if rows[j].key() != row.key() {
            assert(s[j] == rows[j]);
        }
    }
}

impl Store {
    /// The two stores hold the same rows and counters in every table but,
    /// possibly, `table`.
    pub open spec fn same_but(&self, other: &Store, table: Table) -> bool {
        &&& table == Table::UserRole || (self.user_roles.rows@ == other.user_roles.rows@ && self.user_roles.next == other.user_roles.next)
        &&& table == Table::User || (self.users.rows@ == other.users.rows@ && self.users.next == other.users.next)
        &&& table == Table::Seed || (self.seeds.rows@ == other.seeds.rows@ && self.seeds.next == other.seeds.next)
        &&& table == Table::Land || (self.lands.rows@ == other.lands.rows@ && self.lands.next == other.lands.next)
        &&& table == Table::Sensor || (self.sensors.rows@ == other.sensors.rows@ && self.sensors.next == other.sensors.next)
        &&& table == Table::SensorHistory || (self.sensor_histories.rows@ == other.sensor_histories.rows@ && self.sensor_histories.next == other.sensor_histories.next)
        &&& table == Table::Plant || (self.plants.rows@ == other.plants.rows@ && self.plants.next == other.plants.next)
        &&& table == Table::Valve || (self.valves.rows@ == other.valves.rows@ && self.valves.next == other.valves.next)
        &&& table == Table::Pump || (self.pumps.rows@ == other.pumps.rows@ && self.pumps.next == other.pumps.next)
        &&& table == Table::Automation || (self.automations.rows@ == other.automations.rows@ && self.automations.next == other.automations.next)
        &&& table == Table::AutomationHistory || (self.automation_histories.rows@ == other.automation_histories.rows@ && self.automation_histories.next == other.automation_histories.next)
        &&& table == Table::Recommendation || (self.recommendations.rows@ == other.recommendations.rows@ && self.recommendations.next == other.recommendations.next)
        &&& table == Table::PestControl || (self.pest_controls.rows@ == other.pest_controls.rows@ && self.pest_controls.next == other.pest_controls.next)
        &&& table == Table::Notification || (self.notifications.rows@ == other.notifications.rows@ && self.notifications.next == other.notifications.next)
    }

    /// The two stores hold the same rows and counters in every table.
    pub open spec fn same(&self, other: &Store) -> bool {
        &&& self.user_roles.rows@ == other.user_roles.rows@ && self.user_roles.next == other.user_roles.next
        &&& self.users.rows@ == other.users.rows@ && self.users.next == other.users.next
        &&& self.seeds.rows@ == other.seeds.rows@ && self.seeds.next == other.seeds.next
        &&& self.lands.rows@ == other.lands.rows@ && self.lands.next == other.lands.next
        &&& self.sensors.rows@ == other.sensors.rows@ && self.sensors.next == other.sensors.next
        &&& self.sensor_histories.rows@ == other.sensor_histories.rows@ && self.sensor_histories.next == other.sensor_histories.next
        &&& self.plants.rows@ == other.plants.rows@ && self.plants.next == other.plants.next
        &&& self.valves.rows@ == other.valves.rows@ && self.valves.next == other.valves.next
        &&& self.pumps.rows@ == other.pumps.rows@ && self.pumps.next == other.pumps.next
        &&& self.automations.rows@ == other.automations.rows@ && self.automations.next == other.automations.next
        &&& self.automation_histories.rows@ == other.automation_histories.rows@ && self.automation_histories.next == other.automation_histories.next
        &&& self.recommendations.rows@ == other.recommendations.rows@ && self.recommendations.next == other.recommendations.next
        &&& self.pest_controls.rows@ == other.pest_controls.rows@ && self.pest_controls.next == other.pest_controls.next
        &&& self.notifications.rows@ == other.notifications.rows@ && self.notifications.next == other.notifications.next
    }

    /// A store that holds at least the keys of a consistent store meets the
    /// references of all that store's rows.
    pub proof fn lemma_grown(&self, after: &Store)
        requires
            self.referential(),
            forall|t: Table, k: int| #[trigger] self.has(t, k) ==> after.has(t, k),
        ensures
            after.all_linked(self.user_roles.rows@),
            after.all_linked(self.users.rows@),
            after.all_linked(self.seeds.rows@),
            after.all_linked(self.lands.rows@),
            after.all_linked(self.sensors.rows@),
            after.all_linked(self.sensor_histories.rows@),
            after.all_linked(self.plants.rows@),
            after.all_linked(self.valves.rows@),
            after.all_linked(self.pumps.rows@),
            after.all_linked(self.automations.rows@),
            after.all_linked(self.automation_histories.rows@),
            after.all_linked(self.recommendations.rows@),
            after.all_linked(self.pest_controls.rows@),
            after.all_linked(self.notifications.rows@),
    {
        lemma_links_carry(self, after, self.user_roles.rows@);
        lemma_links_carry(self, after, self.users.rows@);
        lemma_links_carry(self, after, self.seeds.rows@);
        lemma_links_carry(self, after, self.lands.rows@);
        lemma_links_carry(self, after, self.sensors.rows@);
        lemma_links_carry(self, after, self.sensor_histories.rows@);
        lemma_links_carry(self, after, self.plants.rows@);
        lemma_links_carry(self, after, self.valves.rows@);
        lemma_links_carry(self, after, self.pumps.rows@);
        lemma_links_carry(self, after, self.automations.rows@);
        lemma_links_carry(self, after, self.automation_histories.rows@);
        lemma_links_carry(self, after, self.recommendations.rows@);
        lemma_links_carry(self, after, self.pest_controls.rows@);
        lemma_links_carry(self, after, self.notifications.rows@);
    }

    /// Whether the store takes a new role: its references name rows that exist,
    /// no other role goes by its name and a key is left to give.
    pub open spec fn admits_user_role(&self, draft: user_role::Model) -> bool {
        &&& self.linked(draft)
        &&& self.user_roles.next < i32::MAX
        &&& !name_taken(self.user_roles.rows@, draft.name@, None)
    }

    /// Inserts a role under the next key of its table and returns it as stored.
    pub fn insert_user_role(&mut self, draft: user_role::Model) -> (r: Result<user_role::Model, DbError>)
        requires
            old(self).wf(),
        ensures
            final(self).wf(),
            match r {
                Ok(row) => {
                    &&& old(self).admits_user_role(draft)
                    &&& row == draft.keyed(old(self).user_roles.next as int)
                    &&& final(self).user_roles.rows@ == old(self).user_roles.rows@.push(row)
                    &&& final(self).user_roles.next == old(self).user_roles.next + 1
                    &&& lookup(final(self).user_roles.rows@, row.key()) == Some(row)
                    &&& final(self).same_but(old(self), Table::UserRole)
                },
                Err(_) => !old(self).admits_user_role(draft) && final(self).same(old(self)),
            },
    {
        if !self.links_hold(&draft) {
            return Err(DbError::new("insert violates a foreign key constraint"));
        }
        if is_name_taken(&self.user_roles.rows, draft.name.as_str(), None) {
            return Err(DbError::new("insert violates a unique constraint"));
        }
        let ghost before = *self;
        match self.user_roles.append(draft) {
            Some(row) => {
                proof {
                    lemma_keys_stay(before.user_roles.rows@, row);
                    before.lemma_grown(self);
                    lemma_append_linked(&before, self, before.user_roles.rows@, draft, before.user_roles.next as int);
                    lemma_append_unique(before.user_roles.rows@, row);
                }
                Ok(row)
            },
            None => Err(DbError::new("the key sequence is exhausted")),
        }
    }

    /// Whether the store takes a new user: its references name rows that exist,
    /// no other user goes by its name and a key is left to give.
    pub open spec fn admits_user(&self, draft: user::Model) -> bool {
        &&& self.linked(draft)
        &&& self.users.next < i32::MAX
        &&& !name_taken(self.users.rows@, draft.username@, None)
    }

    /// Inserts a user under the next key of its table and returns it as stored.
    pub fn insert_user(&mut self, draft: user::Model) -> (r: Result<user::Model, DbError>)
        requires
            old(self).wf(),
        ensures
            final(self).wf(),
            match r {
                Ok(row) => {
                    &&& old(self).admits_user(draft)
                    &&& row == draft.keyed(old(self).users.next as int)
                    &&& final(self).users.rows@ == old(self).users.rows@.push(row)
                    &&& final(self).users.next == old(self).users.next + 1
                    &&& lookup(final(self).users.rows@, row.key()) == Some(row)
                    &&& final(self).same_but(old(self), Table::User)
                },
                Err(_) => !old(self).admits_user(draft) && final(self).same(old(self)),
            },
    {
        if !self.links_hold(&draft) {
            return Err(DbError::new("insert violates a foreign key constraint"));
        }
        if is_name_taken(&self.users.rows, draft.username.as_str(), None) {
            return Err(DbError::new("insert violates a unique constraint"));
        }
        let ghost before = *self;
        match self.users.append(draft) {
            Some(row) => {
                proof {
                    lemma_keys_stay(before.users.rows@, row);
                    before.lemma_grown(self);
                    lemma_append_linked(&before, self, before.users.rows@, draft, before.users.next as int);
                    lemma_append_unique(before.users.rows@, row);
                }
                Ok(row)
            },
            None => Err(DbError::new("the key sequence is exhausted")),
        }
    }

    /// Whether the store takes a changed user: a row with its key exists, no
    /// other user goes by its name and its references name rows that exist.
    pub open spec fn permits_user(&self, row: user::Model) -> bool {
        &&& has_key(self.users.rows@, row.key())
        &&& self.linked(row)
        &&& !name_taken(self.users.rows@, row.username@, Some(row.key()))
    }

    /// Writes a user over the stored row of the same key, in its place, and
    /// returns it as stored.
    pub fn update_user(&mut self, row: user::Model) -> (r: Result<user::Model, DbError>)
        requires
            old(self).wf(),
        ensures
            final(self).wf(),
            match r {
                Ok(stored) => {
                    &&& old(self).permits_user(row)
                    &&& stored == row
                    &&& lookup(final(self).users.rows@, row.key()) == Some(row)
                    &&& final(self).users.rows@.len() == old(self).users.rows@.len()
                    &&& forall|i: int|
                        0 <= i < old(self).users.rows@.len() ==> #[trigger] final(self).users.rows@[i]
                            == if old(self).users.rows@[i].key() == row.key() {
                            row
                        } else {
                            old(self).users.rows@[i]
                        }
                    &&& final(self).users.next == old(self).users.next
                    &&& final(self).same_but(old(self), Table::User)
                },
                Err(_) => !old(self).permits_user(row) && final(self).same(old(self)),
            },
    {
        if !self.users.contains(row.id) {
            return Err(DbError::new("none of the records are updated"));
        }
        if !self.links_hold(&row) {
            return Err(DbError::new("update violates a foreign key constraint"));
        }
        if is_name_taken(&self.users.rows, row.username.as_str(), Some(row.id)) {
            return Err(DbError::new("update violates a unique constraint"));
        }
        let ghost before = *self;
        match self.users.replace(row) {
            Some(stored) => {
                proof {
                    let s = self.users.rows@;
                    let b = before.users.rows@;
                    lemma_keys_same(b, s);
                    before.lemma_grown(self);
                    lemma_replace_linked(&before, self, b, s, stored);
                    lemma_replace_unique(b, s, stored);
                }
                Ok(stored)
            },
            None => Err(DbError::new("none of the records are updated")),
        }
    }

    /// Whether the store takes a new seed: its references name rows that exist
    /// and a key is left to give.
    pub open spec fn admits_seed(&self, draft: seed::Model) -> bool {
        &&& self.linked(draft)
        &&& self.seeds.next < i32::MAX
    }

    /// Inserts a seed under the next key of its table and returns it as stored.
    pub fn insert_seed(&mut self, draft: seed::Model) -> (r: Result<seed::Model, DbError>)
        requires
            old(self).wf(),
        ensures
            final(self).wf(),
            match r {
                Ok(row) => {
                    &&& old(self).admits_seed(draft)
                    &&& row == draft.keyed(old(self).seeds.next as int)
                    &&& final(self).seeds.rows@ == old(self).seeds.rows@.push(row)
                    &&& final(self).seeds.next == old(self).seeds.next + 1
                    &&& lookup(final(self).seeds.rows@, row.key()) == Some(row)
                    &&& final(self).same_but(old(self), Table::Seed)
                },
                Err(_) => !old(self).admits_seed(draft) && final(self).same(old(self)),
            },
    {
        if !self.links_hold(&draft) {
            return Err(DbError::new("insert violates a foreign key constraint"));
        }
        let ghost before = *self;
        match self.seeds.append(draft) {
            Some(row) => {
                proof {
                    lemma_keys_stay(before.seeds.rows@, row);
                    before.lemma_grown(self);
                    lemma_append_linked(&before, self, before.seeds.rows@, draft, before.seeds.next as int);
                }
                Ok(row)
            },
            None => Err(DbError::new("the key sequence is exhausted")),
        }
    }

    /// Whether the store takes a changed seed: a row with its key exists and
    /// its references name rows that exist.
    pub open spec fn permits_seed(&self, row: seed::Model) -> bool {
        &&& has_key(self.seeds.rows@, row.key())
        &&& self.linked(row)
    }

    /// Writes a seed over the stored row of the same key, in its place, and
    /// returns it as stored.
    pub fn update_seed(&mut self, row: seed::Model) -> (r: Result<seed::Model, DbError>)
        requires
            old(self).wf(),
        ensures
            final(self).wf(),
            match r {
                Ok(stored) => {
                    &&& old(self).permits_seed(row)
                    &&& stored == row
                    &&& lookup(final(self).seeds.rows@, row.key()) == Some(row)
                    &&& final(self).seeds.rows@.len() == old(self).seeds.rows@.len()
                    &&& forall|i: int|
                        0 <= i < old(self).seeds.rows@.len() ==> #[trigger] final(self).seeds.rows@[i]
                            == if old(self).seeds.rows@[i].key() == row.key() {
                            row
                        } else {
                            old(self).seeds.rows@[i]
                        }
                    &&& final(self).seeds.next == old(self).seeds.next
                    &&& final(self).same_but(old(self), Table::Seed)
                },
                Err(_) => !old(self).permits_seed(row) && final(self).same(old(self)),
            },
    {
        if !self.seeds.contains(row.id) {
            return Err(DbError::new("none of the records are updated"));
        }
        if !self.links_hold(&row) {
            return Err(DbError::new("update violates a foreign key constraint"));
        }
        let ghost before = *self;
        match self.seeds.replace(row) {
            Some(stored) => {
                proof {
                    let s = self.seeds.rows@;
                    let b = before.seeds.rows@;
                    lemma_keys_same(b, s);
                    before.lemma_grown(self);
                    lemma_replace_linked(&before, self, b, s, stored);
                }
                Ok(stored)
            },
            None => Err(DbError::new("none of the records are updated")),
        }
    }

    /// Whether the store takes a new land plot: its references name rows that
    /// exist and a key is left to give.
    pub open spec fn admits_land(&self, draft: land::Model) -> bool {
        &&& self.linked(draft)
        &&& self.lands.next < i32::MAX
    }

    /// Inserts a land plot under the next key of its table and returns it as
    /// stored.
    pub fn insert_land(&mut self, draft: land::Model) -> (r: Result<land::Model, DbError>)
        requires
            old(self).wf(),
        ensures
            final(self).wf(),
            match r {
                Ok(row) => {
                    &&& old(self).admits_land(draft)
                    &&& row == draft.keyed(old(self).lands.next as int)
                    &&& final(self).lands.rows@ == old(self).lands.rows@.push(row)
                    &&& final(self).lands.next == old(self).lands.next + 1
                    &&& lookup(final(self).lands.rows@, row.key()) == Some(row)
                    &&& final(self).same_but(old(self), Table::Land)
                },
                Err(_) => !old(self).admits_land(draft) && final(self).same(old(self)),
            },
    {
        if !self.links_hold(&draft) {
            return Err(DbError::new("insert violates a foreign key constraint"));
        }
        let ghost before = *self;
        match self.lands.append(draft) {
            Some(row) => {
                proof {
                    lemma_keys_stay(before.lands.rows@, row);
                    before.lemma_grown(self);
                    lemma_append_linked(&before, self, before.lands.rows@, draft, before.lands.next as int);
                }
                Ok(row)
            },
            None => Err(DbError::new("the key sequence is exhausted")),
        }
    }

    /// Whether the store takes a changed land plot: a row with its key exists
    /// and its references name rows that exist.
    pub open spec fn permits_land(&self, row: land::Model) -> bool {
        &&& has_key(self.lands.rows@, row.key())
        &&& self.linked(row)
    }

    /// Writes a land plot over the stored row of the same key, in its place,
    /// and returns it as stored.
    pub fn update_land(&mut self, row: land::Model) -> (r: Result<land::Model, DbError>)
        requires
            old(self).wf(),
        ensures
            final(self).wf(),
            match r {
                Ok(stored) => {
                    &&& old(self).permits_land(row)
                    &&& stored == row
                    &&& lookup(final(self).lands.rows@, row.key()) == Some(row)
                    &&& final(self).lands.rows@.len() == old(self).lands.rows@.len()
                    &&& forall|i: int|
                        0 <= i < old(self).lands.rows@.len() ==> #[trigger] final(self).lands.rows@[i]
                            == if old(self).lands.rows@[i].key() == row.key() {
                            row
                        } else {
                            old(self).lands.rows@[i]
                        }
                    &&& final(self).lands.next == old(self).lands.next
                    &&& final(self).same_but(old(self), Table::Land)
                },
                Err(_) => !old(self).permits_land(row) && final(self).same(old(self)),
            },
    {
        if !self.lands.contains(row.id) {
            return Err(DbError::new("none of the records are updated"));
        }
        if !self.links_hold(&row) {
            return Err(DbError::new("update violates a foreign key constraint"));
        }
        let ghost before = *self;
        match self.lands.replace(row) {
            Some(stored) => {
                proof {
                    let s = self.lands.rows@;
                    let b = before.lands.rows@;
                    lemma_keys_same(b, s);
                    before.lemma_grown(self);
                    lemma_replace_linked(&before, self, b, s, stored);
                }
                Ok(stored)
            },
            None => Err(DbError::new("none of the records are updated")),
        }
    }

    /// Whether the store takes a new sensor: its references name rows that
    /// exist and a key is left to give.
    pub open spec fn admits_sensor(&self, draft: sensor::Model) -> bool {
        &&& self.linked(draft)
        &&& self.sensors.next < i32::MAX
    }

    /// Inserts a sensor under the next key of its table and returns it as
    /// stored.
    pub fn insert_sensor(&mut self, draft: sensor::Model) -> (r: Result<sensor::Model, DbError>)
        requires
            old(self).wf(),
        ensures
            final(self).wf(),
            match r {
                Ok(row) => {
                    &&& old(self).admits_sensor(draft)
                    &&& row == draft.keyed(old(self).sensors.next as int)
                    &&& final(self).sensors.rows@ == old(self).sensors.rows@.push(row)
                    &&& final(self).sensors.next == old(self).sensors.next + 1
                    &&& lookup(final(self).sensors.rows@, row.key()) == Some(row)
                    &&& final(self).same_but(old(self), Table::Sensor)
                },
                Err(_) => !old(self).admits_sensor(draft) && final(self).same(old(self)),
            },
    {
        if !self.links_hold(&draft) {
            return Err(DbError::new("insert violates a foreign key constraint"));
        }
        let ghost before = *self;
        match self.sensors.append(draft) {
            Some(row) => {
                proof {
                    lemma_keys_stay(before.sensors.rows@, row);
                    before.lemma_grown(self);
                    lemma_append_linked(&before, self, before.sensors.rows@, draft, before.sensors.next as int);
                }
                Ok(row)
            },
            None => Err(DbError::new("the key sequence is exhausted")),
        }
    }

    /// Whether the store takes a changed sensor: a row with its key exists and
    /// its references name rows that exist.
    pub open spec fn permits_sensor(&self, row: sensor::Model) -> bool {
        &&& has_key(self.sensors.rows@, row.key())
        &&& self.linked(row)
    }

    /// Writes a sensor over the stored row of the same key, in its place, and
    /// returns it as stored.
    pub fn update_sensor(&mut self, row: sensor::Model) -> (r: Result<sensor::Model, DbError>)
        requires
            old(self).wf(),
        ensures
            final(self).wf(),
            match r {
                Ok(stored) => {
                    &&& old(self).permits_sensor(row)
                    &&& stored == row
                    &&& lookup(final(self).sensors.rows@, row.key()) == Some(row)
                    &&& final(self).sensors.rows@.len() == old(self).sensors.rows@.len()
                    &&& forall|i: int|
                        0 <= i < old(self).sensors.rows@.len() ==> #[trigger] final(self).sensors.rows@[i]
                            == if old(self).sensors.rows@[i].key() == row.key() {
                            row
                        } else {
                            old(self).sensors.rows@[i]
                        }
                    &&& final(self).sensors.next == old(self).sensors.next
                    &&& final(self).same_but(old(self), Table::Sensor)
                },
                Err(_) => !old(self).permits_sensor(row) && final(self).same(old(self)),
            },
    {
        if !self.sensors.contains(row.id) {
            return Err(DbError::new("none of the records are updated"));
        }
        if !self.links_hold(&row) {
            return Err(DbError::new("update violates a foreign key constraint"));
        }
        let ghost before = *self;
        match self.sensors.replace(row) {
            Some(stored) => {
                proof {
                    let s = self.sensors.rows@;
                    let b = before.sensors.rows@;
                    lemma_keys_same(b, s);
                    before.lemma_grown(self);
                    lemma_replace_linked(&before, self, b, s, stored);
                }
                Ok(stored)
            },
            None => Err(DbError::new("none of the records are updated")),
        }
    }

    /// Whether the store takes a new sensor reading: its references name rows
    /// that exist and a key is left to give.
    pub open spec fn admits_sensor_history(&self, draft: sensor_history::Model) -> bool {
        &&& self.linked(draft)
        &&& self.sensor_histories.next < i32::MAX
    }

    /// Inserts a sensor reading under the next key of its table and returns it
    /// as stored.
    pub fn insert_sensor_history(&mut self, draft: sensor_history::Model) -> (r: Result<sensor_history::Model, DbError>)
        requires
            old(self).wf(),
        ensures
            final(self).wf(),
            match r {
                Ok(row) => {
                    &&& old(self).admits_sensor_history(draft)
                    &&& row == draft.keyed(old(self).sensor_histories.next as int)
                    &&& final(self).sensor_histories.rows@ == old(self).sensor_histories.rows@.push(row)
                    &&& final(self).sensor_histories.next == old(self).sensor_histories.next + 1
                    &&& lookup(final(self).sensor_histories.rows@, row.key()) == Some(row)
                    &&& final(self).same_but(old(self), Table::SensorHistory)
                },
                Err(_) => !old(self).admits_sensor_history(draft) && final(self).same(old(self)),
            },
    {
        if !self.links_hold(&draft) {
            return Err(DbError::new("insert violates a foreign key constraint"));
        }
        let ghost before = *self;
        match self.sensor_histories.append(draft) {
            Some(row) => {
                proof {
                    lemma_keys_stay(before.sensor_histories.rows@, row);
                    before.lemma_grown(self);
                    lemma_append_linked(&before, self, before.sensor_histories.rows@, draft, before.sensor_histories.next as int);
                }
                Ok(row)
            },
            None => Err(DbError::new("the key sequence is exhausted")),
        }
    }

    /// Whether the store takes a new plant: its references name rows that exist
    /// and a key is left to give.
    pub open spec fn admits_plant(&self, draft: plant::Model) -> bool {
        &&& self.linked(draft)
        &&& self.plants.next < i32::MAX
    }

    /// Inserts a plant under the next key of its table and returns it as
    /// stored.
    pub fn insert_plant(&mut self, draft: plant::Model) -> (r: Result<plant::Model, DbError>)
        requires
            old(self).wf(),
        ensures
            final(self).wf(),
            match r {
                Ok(row) => {
                    &&& old(self).admits_plant(draft)
                    &&& row == draft.keyed(old(self).plants.next as int)
                    &&& final(self).plants.rows@ == old(self).plants.rows@.push(row)
                    &&& final(self).plants.next == old(self).plants.next + 1
                    &&& lookup(final(self).plants.rows@, row.key()) == Some(row)
                    &&& final(self).same_but(old(self), Table::Plant)
                },
                Err(_) => !old(self).admits_plant(draft) && final(self).same(old(self)),
            },
    {
        if !self.links_hold(&draft) {
            return Err(DbError::new("insert violates a foreign key constraint"));
        }
        let ghost before = *self;
        match self.plants.append(draft) {
            Some(row) => {
                proof {
                    lemma_keys_stay(before.plants.rows@, row);
                    before.lemma_grown(self);
                    lemma_append_linked(&before, self, before.plants.rows@, draft, before.plants.next as int);
                }
                Ok(row)
            },
            None => Err(DbError::new("the key sequence is exhausted")),
        }
    }

    /// Whether the store takes a changed plant: a row with its key exists and
    /// its references name rows that exist.
    pub open spec fn permits_plant(&self, row: plant::Model) -> bool {
        &&& has_key(self.plants.rows@, row.key())
        &&& self.linked(row)
    }

    /// Writes a plant over the stored row of the same key, in its place, and
    /// returns it as stored.
    pub fn update_plant(&mut self, row: plant::Model) -> (r: Result<plant::Model, DbError>)
        requires
            old(self).wf(),
        ensures
            final(self).wf(),
            match r {
                Ok(stored) => {
                    &&& old(self).permits_plant(row)
                    &&& stored == row
                    &&& lookup(final(self).plants.rows@, row.key()) == Some(row)
                    &&& final(self).plants.rows@.len() == old(self).plants.rows@.len()
                    &&& forall|i: int|
                        0 <= i < old(self).plants.rows@.len() ==> #[trigger] final(self).plants.rows@[i]
                            == if old(self).plants.rows@[i].key() == row.key() {
                            row
                        } else {
                            old(self).plants.rows@[i]
                        }
                    &&& final(self).plants.next == old(self).plants.next
                    &&& final(self).same_but(old(self), Table::Plant)
                },
                Err(_) => !old(self).permits_plant(row) && final(self).same(old(self)),
            },
    {
        if !self.plants.contains(row.id) {
            return Err(DbError::new("none of the records are updated"));
        }
        if !self.links_hold(&row) {
            return Err(DbError::new("update violates a foreign key constraint"));
        }
        let ghost before = *self;
        match self.plants.replace(row) {
            Some(stored) => {
                proof {
                    let s = self.plants.rows@;
                    let b = before.plants.rows@;
                    lemma_keys_same(b, s);
                    before.lemma_grown(self);
                    lemma_replace_linked(&before, self, b, s, stored);
                }
                Ok(stored)
            },
            None => Err(DbError::new("none of the records are updated")),
        }
    }

    /// Whether the store takes a new valve: its references name rows that exist
    /// and a key is left to give.
    pub open spec fn admits_valve(&self, draft: valve::Model) -> bool {
        &&& self.linked(draft)
        &&& self.valves.next < i32::MAX
    }

    /// Inserts a valve under the next key of its table and returns it as
    /// stored.
    pub fn insert_valve(&mut self, draft: valve::Model) -> (r: Result<valve::Model, DbError>)
        requires
            old(self).wf(),
        ensures
            final(self).wf(),
            match r {
                Ok(row) => {
                    &&& old(self).admits_valve(draft)
                    &&& row == draft.keyed(old(self).valves.next as int)
                    &&& final(self).valves.rows@ == old(self).valves.rows@.push(row)
                    &&& final(self).valves.next == old(self).valves.next + 1
                    &&& lookup(final(self).valves.rows@, row.key()) == Some(row)
                    &&& final(self).same_but(old(self), Table::Valve)
                },
                Err(_) => !old(self).admits_valve(draft) && final(self).same(old(self)),
            },
    {
        if !self.links_hold(&draft) {
            return Err(DbError::new("insert violates a foreign key constraint"));
        }
        let ghost before = *self;
        match self.valves.append(draft) {
            Some(row) => {
                proof {
                    lemma_keys_stay(before.valves.rows@, row);
                    before.lemma_grown(self);
                    lemma_append_linked(&before, self, before.valves.rows@, draft, before.valves.next as int);
                }
                Ok(row)
            },
            None => Err(DbError::new("the key sequence is exhausted")),
        }
    }

    /// Whether the store takes a changed valve: a row with its key exists and
    /// its references name rows that exist.
    pub open spec fn permits_valve(&self, row: valve::Model) -> bool {
        &&& has_key(self.valves.rows@, row.key())
        &&& self.linked(row)
    }

    /// Writes a valve over the stored row of the same key, in its place, and
    /// returns it as stored.
    pub fn update_valve(&mut self, row: valve::Model) -> (r: Result<valve::Model, DbError>)
        requires
            old(self).wf(),
        ensures
            final(self).wf(),
            match r {
                Ok(stored) => {
                    &&& old(self).permits_valve(row)
                    &&& stored == row
                    &&& lookup(final(self).valves.rows@, row.key()) == Some(row)
                    &&& final(self).valves.rows@.len() == old(self).valves.rows@.len()
                    &&& forall|i: int|
                        0 <= i < old(self).valves.rows@.len() ==> #[trigger] final(self).valves.rows@[i]
                            == if old(self).valves.rows@[i].key() == row.key() {
                            row
                        } else {
                            old(self).valves.rows@[i]
                        }
                    &&& final(self).valves.next == old(self).valves.next
                    &&& final(self).same_but(old(self), Table::Valve)
                },
                Err(_) => !old(self).permits_valve(row) && final(self).same(old(self)),
            },
    {
        if !self.valves.contains(row.id) {
            return Err(DbError::new("none of the records are updated"));
        }
        if !self.links_hold(&row) {
            return Err(DbError::new("update violates a foreign key constraint"));
        }
        let ghost before = *self;
        match self.valves.replace(row) {
            Some(stored) => {
                proof {
                    let s = self.valves.rows@;
                    let b = before.valves.rows@;
                    lemma_keys_same(b, s);
                    before.lemma_grown(self);
                    lemma_replace_linked(&before, self, b, s, stored);
                }
                Ok(stored)
            },
            None => Err(DbError::new("none of the records are updated")),
        }
    }

    /// Whether the store takes a new pump: its references name rows that exist
    /// and a key is left to give.
    pub open spec fn admits_pump(&self, draft: pump::Model) -> bool {
        &&& self.linked(draft)
        &&& self.pumps.next < i32::MAX
    }

    /// Inserts a pump under the next key of its table and returns it as stored.
    pub fn insert_pump(&mut self, draft: pump::Model) -> (r: Result<pump::Model, DbError>)
        requires
            old(self).wf(),
        ensures
            final(self).wf(),
            match r {
                Ok(row) => {
                    &&& old(self).admits_pump(draft)
                    &&& row == draft.keyed(old(self).pumps.next as int)
                    &&& final(self).pumps.rows@ == old(self).pumps.rows@.push(row)
                    &&& final(self).pumps.next == old(self).pumps.next + 1
                    &&& lookup(final(self).pumps.rows@, row.key()) == Some(row)
                    &&& final(self).same_but(old(self), Table::Pump)
                },
                Err(_) => !old(self).admits_pump(draft) && final(self).same(old(self)),
            },
    {
        if !self.links_hold(&draft) {
            return Err(DbError::new("insert violates a foreign key constraint"));
        }
        let ghost before = *self;
        match self.pumps.append(draft) {
            Some(row) => {
                proof {
                    lemma_keys_stay(before.pumps.rows@, row);
                    before.lemma_grown(self);
                    lemma_append_linked(&before, self, before.pumps.rows@, draft, before.pumps.next as int);
                }
                Ok(row)
            },
            None => Err(DbError::new("the key sequence is exhausted")),
        }
    }

    /// Whether the store takes a changed pump: a row with its key exists and
    /// its references name rows that exist.
    pub open spec fn permits_pump(&self, row: pump::Model) -> bool {
        &&& has_key(self.pumps.rows@, row.key())
        &&& self.linked(row)
    }

    /// Writes a pump over the stored row of the same key, in its place, and
    /// returns it as stored.
    pub fn update_pump(&mut self, row: pump::Model) -> (r: Result<pump::Model, DbError>)
        requires
            old(self).wf(),
        ensures
            final(self).wf(),
            match r {
                Ok(stored) => {
                    &&& old(self).permits_pump(row)
                    &&& stored == row
                    &&& lookup(final(self).pumps.rows@, row.key()) == Some(row)
                    &&& final(self).pumps.rows@.len() == old(self).pumps.rows@.len()
                    &&& forall|i: int|
                        0 <= i < old(self).pumps.rows@.len() ==> #[trigger] final(self).pumps.rows@[i]
                            == if old(self).pumps.rows@[i].key() == row.key() {
                            row
                        } else {
                            old(self).pumps.rows@[i]
                        }
                    &&& final(self).pumps.next == old(self).pumps.next
                    &&& final(self).same_but(old(self), Table::Pump)
                },
                Err(_) => !old(self).permits_pump(row) && final(self).same(old(self)),
            },
    {
        if !self.pumps.contains(row.id) {
            return Err(DbError::new("none of the records are updated"));
        }
        if !self.links_hold(&row) {
            return Err(DbError::new("update violates a foreign key constraint"));
        }
        let ghost before = *self;
        match self.pumps.replace(row) {
            Some(stored) => {
                proof {
                    let s = self.pumps.rows@;
                    let b = before.pumps.rows@;
                    lemma_keys_same(b, s);
                    before.lemma_grown(self);
                    lemma_replace_linked(&before, self, b, s, stored);
                }
                Ok(stored)
            },
            None => Err(DbError::new("none of the records are updated")),
        }
    }

    /// Whether the store takes a new automation: its references name rows that
    /// exist and a key is left to give.
    pub open spec fn admits_automation(&self, draft: automation::Model) -> bool {
        &&& self.linked(draft)
        &&& self.automations.next < i32::MAX
    }

    /// Inserts a automation under the next key of its table and returns it as
    /// stored.
    pub fn insert_automation(&mut self, draft: automation::Model) -> (r: Result<automation::Model, DbError>)
        requires
            old(self).wf(),
        ensures
            final(self).wf(),
            match r {
                Ok(row) => {
                    &&& old(self).admits_automation(draft)
                    &&& row == draft.keyed(old(self).automations.next as int)
                    &&& final(self).automations.rows@ == old(self).automations.rows@.push(row)
                    &&& final(self).automations.next == old(self).automations.next + 1
                    &&& lookup(final(self).automations.rows@, row.key()) == Some(row)
                    &&& final(self).same_but(old(self), Table::Automation)
                },
                Err(_) => !old(self).admits_automation(draft) && final(self).same(old(self)),
            },
    {
        if !self.links_hold(&draft) {
            return Err(DbError::new("insert violates a foreign key constraint"));
        }
        let ghost before = *self;
        match self.automations.append(draft) {
            Some(row) => {
                proof {
                    lemma_keys_stay(before.automations.rows@, row);
                    before.lemma_grown(self);
                    lemma_append_linked(&before, self, before.automations.rows@, draft, before.automations.next as int);
                }
                Ok(row)
            },
            None => Err(DbError::new("the key sequence is exhausted")),
        }
    }

    /// Whether the store takes a changed automation: a row with its key exists
    /// and its references name rows that exist.
    pub open spec fn permits_automation(&self, row: automation::Model) -> bool {
        &&& has_key(self.automations.rows@, row.key())
        &&& self.linked(row)
    }

    /// Writes a automation over the stored row of the same key, in its place,
    /// and returns it as stored.
    pub fn update_automation(&mut self, row: automation::Model) -> (r: Result<automation::Model, DbError>)
        requires
            old(self).wf(),
        ensures
            final(self).wf(),
            match r {
                Ok(stored) => {
                    &&& old(self).permits_automation(row)
                    &&& stored == row
                    &&& lookup(final(self).automations.rows@, row.key()) == Some(row)
                    &&& final(self).automations.rows@.len() == old(self).automations.rows@.len()
                    &&& forall|i: int|
                        0 <= i < old(self).automations.rows@.len() ==> #[trigger] final(self).automations.rows@[i]
                            == if old(self).automations.rows@[i].key() == row.key() {
                            row
                        } else {
                            old(self).automations.rows@[i]
                        }
                    &&& final(self).automations.next == old(self).automations.next
                    &&& final(self).same_but(old(self), Table::Automation)
                },
                Err(_) => !old(self).permits_automation(row) && final(self).same(old(self)),
            },
    {
        if !self.automations.contains(row.id) {
            return Err(DbError::new("none of the records are updated"));
        }
        if !self.links_hold(&row) {
            return Err(DbError::new("update violates a foreign key constraint"));
        }
        let ghost before = *self;
        match self.automations.replace(row) {
            Some(stored) => {
                proof {
                    let s = self.automations.rows@;
                    let b = before.automations.rows@;
                    lemma_keys_same(b, s);
                    before.lemma_grown(self);
                    lemma_replace_linked(&before, self, b, s, stored);
                }
                Ok(stored)
            },
            None => Err(DbError::new("none of the records are updated")),
        }
    }

    /// Whether the store takes a new automation firing: its references name
    /// rows that exist and a key is left to give.
    pub open spec fn admits_automation_history(&self, draft: automation_history::Model) -> bool {
        &&& self.linked(draft)
        &&& self.automation_histories.next < i32::MAX
    }

    /// Inserts a automation firing under the next key of its table and returns
    /// it as stored.
    pub fn insert_automation_history(&mut self, draft: automation_history::Model) -> (r: Result<automation_history::Model, DbError>)
        requires
            old(self).wf(),
        ensures
            final(self).wf(),
            match r {
                Ok(row) => {
                    &&& old(self).admits_automation_history(draft)
                    &&& row == draft.keyed(old(self).automation_histories.next as int)
                    &&& final(self).automation_histories.rows@ == old(self).automation_histories.rows@.push(row)
                    &&& final(self).automation_histories.next == old(self).automation_histories.next + 1
                    &&& lookup(final(self).automation_histories.rows@, row.key()) == Some(row)
                    &&& final(self).same_but(old(self), Table::AutomationHistory)
                },
                Err(_) => !old(self).admits_automation_history(draft) && final(self).same(old(self)),
            },
    {
        if !self.links_hold(&draft) {
            return Err(DbError::new("insert violates a foreign key constraint"));
        }
        let ghost before = *self;
        match self.automation_histories.append(draft) {
            Some(row) => {
                proof {
                    lemma_keys_stay(before.automation_histories.rows@, row);
                    before.lemma_grown(self);
                    lemma_append_linked(&before, self, before.automation_histories.rows@, draft, before.automation_histories.next as int);
                }
                Ok(row)
            },
            None => Err(DbError::new("the key sequence is exhausted")),
        }
    }

    /// Whether the store takes a new recommendation: its references name rows
    /// that exist and a key is left to give.
    pub open spec fn admits_recommendation(&self, draft: recommendation::Model) -> bool {
        &&& self.linked(draft)
        &&& self.recommendations.next < i32::MAX
    }

    /// Inserts a recommendation under the next key of its table and returns it
    /// as stored.
    pub fn insert_recommendation(&mut self, draft: recommendation::Model) -> (r: Result<recommendation::Model, DbError>)
        requires
            old(self).wf(),
        ensures
            final(self).wf(),
            match r {
                Ok(row) => {
                    &&& old(self).admits_recommendation(draft)
                    &&& row == draft.keyed(old(self).recommendations.next as int)
                    &&& final(self).recommendations.rows@ == old(self).recommendations.rows@.push(row)
                    &&& final(self).recommendations.next == old(self).recommendations.next + 1
                    &&& lookup(final(self).recommendations.rows@, row.key()) == Some(row)
                    &&& final(self).same_but(old(self), Table::Recommendation)
                },
                Err(_) => !old(self).admits_recommendation(draft) && final(self).same(old(self)),
            },
    {
        if !self.links_hold(&draft) {
            return Err(DbError::new("insert violates a foreign key constraint"));
        }
        let ghost before = *self;
        match self.recommendations.append(draft) {
            Some(row) => {
                proof {
                    lemma_keys_stay(before.recommendations.rows@, row);
                    before.lemma_grown(self);
                    lemma_append_linked(&before, self, before.recommendations.rows@, draft, before.recommendations.next as int);
                }
                Ok(row)
            },
            None => Err(DbError::new("the key sequence is exhausted")),
        }
    }

    /// Whether the store takes a changed recommendation: a row with its key
    /// exists and its references name rows that exist.
    pub open spec fn permits_recommendation(&self, row: recommendation::Model) -> bool {
        &&& has_key(self.recommendations.rows@, row.key())
        &&& self.linked(row)
    }

    /// Writes a recommendation over the stored row of the same key, in its
    /// place, and returns it as stored.
    pub fn update_recommendation(&mut self, row: recommendation::Model) -> (r: Result<recommendation::Model, DbError>)
        requires
            old(self).wf(),
        ensures
            final(self).wf(),
            match r {
                Ok(stored) => {
                    &&& old(self).permits_recommendation(row)
                    &&& stored == row
                    &&& lookup(final(self).recommendations.rows@, row.key()) == Some(row)
                    &&& final(self).recommendations.rows@.len() == old(self).recommendations.rows@.len()
                    &&& forall|i: int|
                        0 <= i < old(self).recommendations.rows@.len() ==> #[trigger] final(self).recommendations.rows@[i]
                            == if old(self).recommendations.rows@[i].key() == row.key() {
                            row
                        } else {
                            old(self).recommendations.rows@[i]
                        }
                    &&& final(self).recommendations.next == old(self).recommendations.next
                    &&& final(self).same_but(old(self), Table::Recommendation)
                },
                Err(_) => !old(self).permits_recommendation(row) && final(self).same(old(self)),
            },
    {
        if !self.recommendations.contains(row.id) {
            return Err(DbError::new("none of the records are updated"));
        }
        if !self.links_hold(&row) {
            return Err(DbError::new("update violates a foreign key constraint"));
        }
        let ghost before = *self;
        match self.recommendations.replace(row) {
            Some(stored) => {
                proof {
                    let s = self.recommendations.rows@;
                    let b = before.recommendations.rows@;
                    lemma_keys_same(b, s);
                    before.lemma_grown(self);
                    lemma_replace_linked(&before, self, b, s, stored);
                }
                Ok(stored)
            },
            None => Err(DbError::new("none of the records are updated")),
        }
    }

    /// Whether the store takes a new pest-control task: its references name
    /// rows that exist and a key is left to give.
    pub open spec fn admits_pest_control(&self, draft: pest_control::Model) -> bool {
        &&& self.linked(draft)
        &&& self.pest_controls.next < i32::MAX
    }

    /// Inserts a pest-control task under the next key of its table and returns
    /// it as stored.
    pub fn insert_pest_control(&mut self, draft: pest_control::Model) -> (r: Result<pest_control::Model, DbError>)
        requires
            old(self).wf(),
        ensures
            final(self).wf(),
            match r {
                Ok(row) => {
                    &&& old(self).admits_pest_control(draft)
                    &&& row == draft.keyed(old(self).pest_controls.next as int)
                    &&& final(self).pest_controls.rows@ == old(self).pest_controls.rows@.push(row)
                    &&& final(self).pest_controls.next == old(self).pest_controls.next + 1
                    &&& lookup(final(self).pest_controls.rows@, row.key()) == Some(row)
                    &&& final(self).same_but(old(self), Table::PestControl)
                },
                Err(_) => !old(self).admits_pest_control(draft) && final(self).same(old(self)),
            },
    {
        if !self.links_hold(&draft) {
            return Err(DbError::new("insert violates a foreign key constraint"));
        }
        let ghost before = *self;
        match self.pest_controls.append(draft) {
            Some(row) => {
                proof {
                    lemma_keys_stay(before.pest_controls.rows@, row);
                    before.lemma_grown(self);
                    lemma_append_linked(&before, self, before.pest_controls.rows@, draft, before.pest_controls.next as int);
                }
                Ok(row)
            },
            None => Err(DbError::new("the key sequence is exhausted")),
        }
    }

    /// Whether the store takes a changed pest-control task: a row with its key
    /// exists and its references name rows that exist.
    pub open spec fn permits_pest_control(&self, row: pest_control::Model) -> bool {
        &&& has_key(self.pest_controls.rows@, row.key())
        &&& self.linked(row)
    }

    /// Writes a pest-control task over the stored row of the same key, in its
    /// place, and returns it as stored.
    pub fn update_pest_control(&mut self, row: pest_control::Model) -> (r: Result<pest_control::Model, DbError>)
        requires
            old(self).wf(),
        ensures
            final(self).wf(),
            match r {
                Ok(stored) => {
                    &&& old(self).permits_pest_control(row)
                    &&& stored == row
                    &&& lookup(final(self).pest_controls.rows@, row.key()) == Some(row)
                    &&& final(self).pest_controls.rows@.len() == old(self).pest_controls.rows@.len()
                    &&& forall|i: int|
                        0 <= i < old(self).pest_controls.rows@.len() ==> #[trigger] final(self).pest_controls.rows@[i]
                            == if old(self).pest_controls.rows@[i].key() == row.key() {
                            row
                        } else {
                            old(self).pest_controls.rows@[i]
                        }
                    &&& final(self).pest_controls.next == old(self).pest_controls.next
                    &&& final(self).same_but(old(self), Table::PestControl)
                },
                Err(_) => !old(self).permits_pest_control(row) && final(self).same(old(self)),
            },
    {
        if !self.pest_controls.contains(row.id) {
            return Err(DbError::new("none of the records are updated"));
        }
        if !self.links_hold(&row) {
            return Err(DbError::new("update violates a foreign key constraint"));
        }
        let ghost before = *self;
        match self.pest_controls.replace(row) {
            Some(stored) => {
                proof {
                    let s = self.pest_controls.rows@;
                    let b = before.pest_controls.rows@;
                    lemma_keys_same(b, s);
                    before.lemma_grown(self);
                    lemma_replace_linked(&before, self, b, s, stored);
                }
                Ok(stored)
            },
            None => Err(DbError::new("none of the records are updated")),
        }
    }

    /// Whether the store takes a new notification: its references name rows
    /// that exist and a key is left to give.
    pub open spec fn admits_notification(&self, draft: notification::Model) -> bool {
        &&& self.linked(draft)
        &&& self.notifications.next < i32::MAX
    }

    /// Inserts a notification under the next key of its table and returns it as
    /// stored.
    pub fn insert_notification(&mut self, draft: notification::Model) -> (r: Result<notification::Model, DbError>)
        requires
            old(self).wf(),
        ensures
            final(self).wf(),
            match r {
                Ok(row) => {
                    &&& old(self).admits_notification(draft)
                    &&& row == draft.keyed(old(self).notifications.next as int)
                    &&& final(self).notifications.rows@ == old(self).notifications.rows@.push(row)
                    &&& final(self).notifications.next == old(self).notifications.next + 1
                    &&& lookup(final(self).notifications.rows@, row.key()) == Some(row)
                    &&& final(self).same_but(old(self), Table::Notification)
                },
                Err(_) => !old(self).admits_notification(draft) && final(self).same(old(self)),
            },
    {
        if !self.links_hold(&draft) {
            return Err(DbError::new("insert violates a foreign key constraint"));
        }
        let ghost before = *self;
        match self.notifications.append(draft) {
            Some(row) => {
                proof {
                    lemma_keys_stay(before.notifications.rows@, row);
                    before.lemma_grown(self);
                    lemma_append_linked(&before, self, before.notifications.rows@, draft, before.notifications.next as int);
                }
                Ok(row)
            },
            None => Err(DbError::new("the key sequence is exhausted")),
        }
    }

}

} // verus!

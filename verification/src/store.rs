//! The persistent moderation store.
//!
//! Four independent tables live in one embedded key-value database:
//! `alerted_users` and `ignored_users` (sets of usernames), `purge_queue`
//! (username to enqueue time) and `events` (chat event id to username).
//! Every operation is its own transaction; a sequence of operations is a
//! sequence of independent transactions, never one atomic unit.
//!
//! The contents of each table are named by an uninterpreted function of the
//! database value; each wrapper states, over those names, what the store
//! operation does.  A failed transaction is aborted by the engine and
//! leaves the contents unchanged.

use vstd::prelude::*;

verus! {

#[verifier::external_type_specification]
#[verifier::external_body]
pub struct ExDatabase(redb::Database);

/// What the `alerted_users` table of the store holds: the usernames with a
/// pending, undecided alert.
pub uninterp spec fn alerted_of(s: Store) -> Set<Seq<char>>;

/// What the `ignored_users` table of the store holds: the usernames whose
/// automated moderation is suppressed.
pub uninterp spec fn ignored_of(s: Store) -> Set<Seq<char>>;

/// What the `purge_queue` table of the store holds: each queued username
/// with its enqueue time in unix seconds.
pub uninterp spec fn purge_queue_of(s: Store) -> Map<Seq<char>, u64>;

/// What the `events` table of the store holds: each outbound chat event id
/// with the username it concerns.
pub uninterp spec fn events_of(s: Store) -> Map<Seq<char>, Seq<char>>;

/// A store operation failed; the transaction was aborted and the tables
/// are as they were.
#[derive(Clone, Copy, Debug, PartialEq, Eq, Structural)]
pub struct StoreError;

/// A handle on the persistent moderation store.
pub struct Store {
    db: redb::Database,
}

impl Store {
    /// The usernames with a pending, undecided alert.
    pub open spec fn alerted(self) -> Set<Seq<char>> {
        alerted_of(self)
    }

    /// The usernames whose automated moderation is suppressed.
    pub open spec fn ignored(self) -> Set<Seq<char>> {
        ignored_of(self)
    }

    /// The queued usernames with their enqueue times.
    pub open spec fn purge_queue(self) -> Map<Seq<char>, u64> {
        purge_queue_of(self)
    }

    /// The outbound chat event ids with the usernames they concern.
    pub open spec fn events(self) -> Map<Seq<char>, Seq<char>> {
        events_of(self)
    }

    /// Open (or create) the store at `path` and make sure all four tables
    /// exist.  What the tables hold depends on what is on disk, so nothing
    /// is promised of the contents.
    ///
    /// Relies on `redb::Database::create`, `WriteTransaction::open_table`
    /// and `WriteTransaction::commit`.
    #[verifier::external_body]
    pub fn open(path: &str) -> (r: Result<Store, StoreError>) {
        let db = match redb::Database::create(path) {
            Ok(db) => db,
            Err(_) => return Err(StoreError),
        };
        match Self::create_tables(&db) {
            Ok(()) => Ok(Store { db }),
            Err(_) => Err(StoreError),
        }
    }

    /// Open a store backed by memory alone, with all four tables created
    /// and empty.
    ///
    /// Relies on `redb::Builder::create_with_backend` with
    /// `redb::backends::InMemoryBackend`: a fresh in-memory database holds
    /// nothing.
    #[verifier::external_body]
    pub fn open_in_memory() -> (r: Result<Store, StoreError>)
        ensures
            r matches Ok(s) ==> (forall|u: Seq<char>| !alerted_of(s).contains(u)),
            r matches Ok(s) ==> (forall|u: Seq<char>| !ignored_of(s).contains(u)),
            r matches Ok(s) ==> (forall|u: Seq<char>| !purge_queue_of(s).dom().contains(u)),
            r matches Ok(s) ==> (forall|u: Seq<char>| !events_of(s).dom().contains(u)),
    {
        let backend = redb::backends::InMemoryBackend::new();
        let db = match redb::Database::builder().create_with_backend(backend) {
            Ok(db) => db,
            Err(_) => return Err(StoreError),
        };
        match Self::create_tables(&db) {
            Ok(()) => Ok(Store { db }),
            Err(_) => Err(StoreError),
        }
    }

    /// Create the four tables if they do not exist yet.
    ///
    /// Relies on `redb::Database::begin_write`,
    /// `WriteTransaction::open_table` and `WriteTransaction::commit`.
    #[verifier::external_body]
    fn create_tables(db: &redb::Database) -> (r: Result<(), StoreError>) {
        let txn = match db.begin_write() {
            Ok(t) => t,
            Err(_) => return Err(StoreError),
        };
        if txn.open_table(redb::TableDefinition::<&str, ()>::new("alerted_users")).is_err()
            || txn.open_table(redb::TableDefinition::<&str, ()>::new("ignored_users")).is_err()
            || txn.open_table(redb::TableDefinition::<&str, u64>::new("purge_queue")).is_err()
            || txn.open_table(redb::TableDefinition::<&str, &str>::new("events")).is_err() {
            return Err(StoreError);
        }
        txn.commit().map_err(|_| StoreError)
    }

    /// Record that `username` has a pending alert.
    ///
    /// Relies on `redb::Table::insert` in a committed write transaction:
    /// the key is added (or kept) in the table; nothing else changes.
    #[verifier::external_body]
    pub fn add_alerted_user(&mut self, username: &str) -> (r: Result<(), StoreError>)
        ensures
            r is Ok ==> alerted_of(*final(self)) == alerted_of(*old(self)).insert(username@),
            r is Err ==> alerted_of(*final(self)) == alerted_of(*old(self)),
            ignored_of(*final(self)) == ignored_of(*old(self)),
            purge_queue_of(*final(self)) == purge_queue_of(*old(self)),
            events_of(*final(self)) == events_of(*old(self)),
    {
        let txn = self.db.begin_write().map_err(|_| StoreError)?;
        {
            let mut table = txn
                .open_table(redb::TableDefinition::<&str, ()>::new("alerted_users"))
                .map_err(|_| StoreError)?;
            table.insert(username, ()).map_err(|_| StoreError)?;
        }
        txn.commit().map_err(|_| StoreError)
    }

    /// Drop `username` from the pending alerts, if present.
    ///
    /// Relies on `redb::Table::remove` in a committed write transaction.
    #[verifier::external_body]
    pub fn remove_alerted_user(&mut self, username: &str) -> (r: Result<(), StoreError>)
        ensures
            r is Ok ==> alerted_of(*final(self)) == alerted_of(*old(self)).remove(username@),
            r is Err ==> alerted_of(*final(self)) == alerted_of(*old(self)),
            ignored_of(*final(self)) == ignored_of(*old(self)),
            purge_queue_of(*final(self)) == purge_queue_of(*old(self)),
            events_of(*final(self)) == events_of(*old(self)),
    {
        let txn = self.db.begin_write().map_err(|_| StoreError)?;
        {
            let mut table = txn
                .open_table(redb::TableDefinition::<&str, ()>::new("alerted_users"))
                .map_err(|_| StoreError)?;
            table.remove(username).map_err(|_| StoreError)?;
        }
        txn.commit().map_err(|_| StoreError)
    }

    /// Whether `username` has a pending alert.
    ///
    /// Relies on `redb::ReadOnlyTable::get` in a read transaction.
    #[verifier::external_body]
    pub fn is_alerted(&self, username: &str) -> (r: Result<bool, StoreError>)
        ensures
            r matches Ok(b) ==> b == alerted_of(*self).contains(username@),
    {
        let txn = self.db.begin_read().map_err(|_| StoreError)?;
        let table = txn
            .open_table(redb::TableDefinition::<&str, ()>::new("alerted_users"))
            .map_err(|_| StoreError)?;
        let o = redb::ReadableTable::get(&table, username).map_err(|_| StoreError)?;
        Ok(o.is_some())
    }

    /// Record that `username` is ignored: no further automated action.
    ///
    /// Relies on `redb::Table::insert` in a committed write transaction.
    #[verifier::external_body]
    pub fn add_ignored_user(&mut self, username: &str) -> (r: Result<(), StoreError>)
        ensures
            r is Ok ==> ignored_of(*final(self)) == ignored_of(*old(self)).insert(username@),
            r is Err ==> ignored_of(*final(self)) == ignored_of(*old(self)),
            alerted_of(*final(self)) == alerted_of(*old(self)),
            purge_queue_of(*final(self)) == purge_queue_of(*old(self)),
            events_of(*final(self)) == events_of(*old(self)),
    {
        let txn = self.db.begin_write().map_err(|_| StoreError)?;
        {
            let mut table = txn
                .open_table(redb::TableDefinition::<&str, ()>::new("ignored_users"))
                .map_err(|_| StoreError)?;
            table.insert(username, ()).map_err(|_| StoreError)?;
        }
        txn.commit().map_err(|_| StoreError)
    }

    /// Whether `username` is ignored.
    ///
    /// Relies on `redb::ReadOnlyTable::get` in a read transaction.
    #[verifier::external_body]
    pub fn is_ignored(&self, username: &str) -> (r: Result<bool, StoreError>)
        ensures
            r matches Ok(b) ==> b == ignored_of(*self).contains(username@),
    {
        let txn = self.db.begin_read().map_err(|_| StoreError)?;
        let table = txn
            .open_table(redb::TableDefinition::<&str, ()>::new("ignored_users"))
            .map_err(|_| StoreError)?;
        let o = redb::ReadableTable::get(&table, username).map_err(|_| StoreError)?;
        Ok(o.is_some())
    }

    /// Queue `username` for a deferred purge, enqueued at `now` (unix
    /// seconds).  A second enqueue replaces the timestamp.
    ///
    /// Relies on `redb::Table::insert` in a committed write transaction.
    #[verifier::external_body]
    pub fn add_purged_user(&mut self, username: &str, now: u64) -> (r: Result<(), StoreError>)
        ensures
            r is Ok ==> purge_queue_of(*final(self)) == purge_queue_of(*old(self)).insert(username@, now),
            r is Err ==> purge_queue_of(*final(self)) == purge_queue_of(*old(self)),
            alerted_of(*final(self)) == alerted_of(*old(self)),
            ignored_of(*final(self)) == ignored_of(*old(self)),
            events_of(*final(self)) == events_of(*old(self)),
    {
        let txn = self.db.begin_write().map_err(|_| StoreError)?;
        {
            let mut table = txn
                .open_table(redb::TableDefinition::<&str, u64>::new("purge_queue"))
                .map_err(|_| StoreError)?;
            table.insert(username, now).map_err(|_| StoreError)?;
        }
        txn.commit().map_err(|_| StoreError)
    }

    /// Drop `username` from the purge queue, if present.
    ///
    /// Relies on `redb::Table::remove` in a committed write transaction.
    #[verifier::external_body]
    pub fn remove_purged_user(&mut self, username: &str) -> (r: Result<(), StoreError>)
        ensures
            r is Ok ==> purge_queue_of(*final(self)) == purge_queue_of(*old(self)).remove(username@),
            r is Err ==> purge_queue_of(*final(self)) == purge_queue_of(*old(self)),
            alerted_of(*final(self)) == alerted_of(*old(self)),
            ignored_of(*final(self)) == ignored_of(*old(self)),
            events_of(*final(self)) == events_of(*old(self)),
    {
        let txn = self.db.begin_write().map_err(|_| StoreError)?;
        {
            let mut table = txn
                .open_table(redb::TableDefinition::<&str, u64>::new("purge_queue"))
                .map_err(|_| StoreError)?;
            table.remove(username).map_err(|_| StoreError)?;
        }
        txn.commit().map_err(|_| StoreError)
    }

    /// Whether `username` is queued for a deferred purge.
    ///
    /// Relies on `redb::ReadOnlyTable::get` in a read transaction.
    #[verifier::external_body]
    pub fn is_lazy_purged(&self, username: &str) -> (r: Result<bool, StoreError>)
        ensures
            r matches Ok(b) ==> b == purge_queue_of(*self).dom().contains(username@),
    {
        let txn = self.db.begin_read().map_err(|_| StoreError)?;
        let table = txn
            .open_table(redb::TableDefinition::<&str, u64>::new("purge_queue"))
            .map_err(|_| StoreError)?;
        let o = redb::ReadableTable::get(&table, username).map_err(|_| StoreError)?;
        Ok(o.is_some())
    }

    /// The purge queue as a list of (username, enqueued at) pairs: every
    /// pair is in the table, every queued username appears once.
    ///
    /// Relies on `redb::ReadOnlyTable::iter` in a read transaction.
    #[verifier::external_body]
    pub fn purge_entries(&self) -> (r: Result<Vec<(String, u64)>, StoreError>)
        ensures
            r matches Ok(v) ==> {
                &&& forall|i: int|
                    0 <= i < v@.len() ==> purge_queue_of(*self).dom().contains(#[trigger] v@[i].0@)
                        && purge_queue_of(*self)[v@[i].0@] == v@[i].1
                &&& forall|k: Seq<char>|
                    purge_queue_of(*self).dom().contains(k) ==> exists|i: int|
                        0 <= i < v@.len() && #[trigger] v@[i].0@ == k
                &&& forall|i: int, j: int| 0 <= i < j < v@.len() ==> v@[i].0@ != v@[j].0@
            },
    {
        let txn = self.db.begin_read().map_err(|_| StoreError)?;
        let table = txn
            .open_table(redb::TableDefinition::<&str, u64>::new("purge_queue"))
            .map_err(|_| StoreError)?;
        let iter = redb::ReadableTable::iter(&table).map_err(|_| StoreError)?;
        let mut out: Vec<(String, u64)> = Vec::new();
        for e in iter {
            let (k, v) = e.map_err(|_| StoreError)?;
            out.push((k.value().to_string(), v.value()));
        }
        Ok(out)
    }

    /// Anchor the chat event `event_id` to `username`.
    ///
    /// Relies on `redb::Table::insert` in a committed write transaction.
    #[verifier::external_body]
    pub fn add_event(&mut self, event_id: &str, username: &str) -> (r: Result<(), StoreError>)
        ensures
            r is Ok ==> events_of(*final(self)) == events_of(*old(self)).insert(event_id@, username@),
            r is Err ==> events_of(*final(self)) == events_of(*old(self)),
            alerted_of(*final(self)) == alerted_of(*old(self)),
            ignored_of(*final(self)) == ignored_of(*old(self)),
            purge_queue_of(*final(self)) == purge_queue_of(*old(self)),
    {
        let txn = self.db.begin_write().map_err(|_| StoreError)?;
        {
            let mut table = txn
                .open_table(redb::TableDefinition::<&str, &str>::new("events"))
                .map_err(|_| StoreError)?;
            table.insert(event_id, username).map_err(|_| StoreError)?;
        }
        txn.commit().map_err(|_| StoreError)
    }

    /// Drop the chat event `event_id`, if present.
    ///
    /// Relies on `redb::Table::remove` in a committed write transaction.
    #[verifier::external_body]
    pub fn remove_event(&mut self, event_id: &str) -> (r: Result<(), StoreError>)
        ensures
            r is Ok ==> events_of(*final(self)) == events_of(*old(self)).remove(event_id@),
            r is Err ==> events_of(*final(self)) == events_of(*old(self)),
            alerted_of(*final(self)) == alerted_of(*old(self)),
            ignored_of(*final(self)) == ignored_of(*old(self)),
            purge_queue_of(*final(self)) == purge_queue_of(*old(self)),
    {
        let txn = self.db.begin_write().map_err(|_| StoreError)?;
        {
            let mut table = txn
                .open_table(redb::TableDefinition::<&str, &str>::new("events"))
                .map_err(|_| StoreError)?;
            table.remove(event_id).map_err(|_| StoreError)?;
        }
        txn.commit().map_err(|_| StoreError)
    }

    /// The username the chat event `event_id` concerns, if it is known.
    ///
    /// Relies on `redb::ReadOnlyTable::get` in a read transaction.
    #[verifier::external_body]
    pub fn get_username(&self, event_id: &str) -> (r: Result<Option<String>, StoreError>)
        ensures
            r matches Ok(o) ==> match o {
                Some(u) => events_of(*self).dom().contains(event_id@) && events_of(*self)[event_id@]
                    == u@,
                None => !events_of(*self).dom().contains(event_id@),
            },
    {
        let txn = self.db.begin_read().map_err(|_| StoreError)?;
        let table = txn
            .open_table(redb::TableDefinition::<&str, &str>::new("events"))
            .map_err(|_| StoreError)?;
        let o = redb::ReadableTable::get(&table, event_id).map_err(|_| StoreError)?;
        Ok(o.map(|g| g.value().to_string()))
    }

    /// The events table as a list of (event id, username) pairs: every pair
    /// is in the table, every recorded event appears once.
    ///
    /// Relies on `redb::ReadOnlyTable::iter` in a read transaction.
    #[verifier::external_body]
    pub fn event_entries(&self) -> (r: Result<Vec<(String, String)>, StoreError>)
        ensures
            r matches Ok(v) ==> {
                &&& forall|i: int|
                    0 <= i < v@.len() ==> events_of(*self).dom().contains(#[trigger] v@[i].0@)
                        && events_of(*self)[v@[i].0@] == v@[i].1@
                &&& forall|k: Seq<char>|
                    events_of(*self).dom().contains(k) ==> exists|i: int|
                        0 <= i < v@.len() && #[trigger] v@[i].0@ == k
                &&& forall|i: int, j: int| 0 <= i < j < v@.len() ==> v@[i].0@ != v@[j].0@
            },
    {
        let txn = self.db.begin_read().map_err(|_| StoreError)?;
        let table = txn
            .open_table(redb::TableDefinition::<&str, &str>::new("events"))
            .map_err(|_| StoreError)?;
        let iter = redb::ReadableTable::iter(&table).map_err(|_| StoreError)?;
        let mut out: Vec<(String, String)> = Vec::new();
        for e in iter {
            let (k, v) = e.map_err(|_| StoreError)?;
            out.push((k.value().to_string(), v.value().to_string()));
        }
        Ok(out)
    }
}

} // verus!

//! The host-side registry of script listeners.

use std::collections::HashMap;
use vstd::prelude::*;

verus! {

/// What the host remembers of one script listener: the event it listens to
/// and the window whose script context holds it.
pub struct ListenerRecord {
    pub event: String,
    pub window: String,
}

/// The mathematical value of a [`ListenerRecord`].
pub struct ListenerView {
    pub event: Seq<char>,
    pub window: Seq<char>,
}

impl View for ListenerRecord {
    type V = ListenerView;

    open spec fn view(&self) -> ListenerView {
        ListenerView { event: self.event@, window: self.window@ }
    }
}

/// The registry of script listeners, keyed by listener identifier.
///
/// Its value is a finite map from identifiers to records. An identifier names
/// at most one record, so a listener is removed by its identifier alone.
pub struct ListenerRegistry {
    records: HashMap<u64, ListenerRecord>,
}

impl View for ListenerRegistry {
    type V = Map<u64, ListenerView>;

    closed spec fn view(&self) -> Map<u64, ListenerView> {
        self.records@.map_values(|r: ListenerRecord| r@)
    }
}

impl ListenerRegistry {
    /// An empty registry.
    pub fn new() -> (registry: Self)
        ensures
            registry@ == Map::<u64, ListenerView>::empty(),
    {
        let registry = ListenerRegistry { records: HashMap::new() };
        assert(registry@ =~= Map::<u64, ListenerView>::empty());
        registry
    }

    /// Records that the listener `id` listens to `event` in `window`. A record
    /// already kept under `id` is replaced.
    pub fn register(&mut self, id: u64, event: String, window: String)
        ensures
            final(self)@ == old(self)@.insert(
                id,
                ListenerView { event: event@, window: window@ },
            ),
    {
        self.records.insert(id, ListenerRecord { event, window });
        assert(self@ =~= old(self)@.insert(id, ListenerView { event: event@, window: window@ }));
    }

    /// Forgets the listener `id`. Where no record is kept under `id`, the
    /// registry stays as it is.
    pub fn unregister(&mut self, id: u64)
        ensures
            final(self)@ == old(self)@.remove(id),
            !old(self)@.contains_key(id) ==> final(self)@ == old(self)@,
    {
        self.records.remove(&id);
        assert(self@ =~= old(self)@.remove(id));
        assert(!old(self)@.contains_key(id) ==> old(self)@.remove(id) =~= old(self)@);
    }

    /// Whether a record is kept under `id`.
    pub fn contains(&self, id: u64) -> (found: bool)
        ensures
            found == self@.contains_key(id),
    {
        self.records.contains_key(&id)
    }

    /// The record kept under `id`, if there is one.
    pub fn get(&self, id: u64) -> (record: Option<&ListenerRecord>)
        ensures
            match record {
                Some(r) => self@.contains_key(id) && r@ == self@[id],
                None => !self@.contains_key(id),
            },
    {
        self.records.get(&id)
    }

    /// The number of records.
    pub fn len(&self) -> (n: usize)
        ensures
            n == self@.len(),
    {
        let n = self.records.len();
        assert(self@.dom() =~= self.records@.dom());
        n
    }
}

} // verus!

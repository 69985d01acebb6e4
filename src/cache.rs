//! The local mirror of platform entities: a read-through cache per kind of
//! entity, seeded in bulk from each connection's snapshot, that lets only one
//! fetch of an id be in flight at a time.

use vstd::prelude::*;
use vstd::hash_map::StringHashMap;
use vstd::hash_set::StringHashSet;

use crate::commands::Error;

verus! {

/// The kinds of platform entity.
#[derive(Clone, Copy, Debug, PartialEq, Eq, Structural)]
pub enum ResourceType {
    User,
    Server,
    Channel,
    Member,
    Emoji,
}

impl ResourceType {
    /// The kind's name as users read it.
    pub open spec fn spec_name(self) -> Seq<char> {
        match self {
            ResourceType::User => "User"@,
            ResourceType::Server => "Server"@,
            ResourceType::Channel => "Channel"@,
            ResourceType::Member => "Member"@,
            ResourceType::Emoji => "Emoji"@,
        }
    }

    /// The kind's name as users read it.
    pub fn name(self) -> (r: &'static str)
        ensures
            r@ == self.spec_name(),
    {
        match self {
            ResourceType::User => "User",
            ResourceType::Server => "Server",
            ResourceType::Channel => "Channel",
            ResourceType::Member => "Member",
            ResourceType::Emoji => "Emoji",
        }
    }
}

/// One platform entity: its id, its kind, and its record as the platform
/// serialises it.
#[derive(Clone, Debug)]
pub struct RemoteEntity {
    pub id: String,
    pub kind: ResourceType,
    pub payload: String,
}

/// What a read of the cache tells its caller.
#[derive(Clone, Debug)]
pub enum Lookup<E> {
    /// The entity is cached.
    Hit(E),
    /// The entity is not cached and no fetch of it is in flight: the caller
    /// now owns that fetch and reports its outcome with `complete_fetch`.
    Fetch,
    /// Another caller's fetch of the entity is in flight: wait for it, then read again.
    Wait,
}

/// The contents of the cache for one kind: the cached records by id, and the
/// ids whose fetch is in flight.
pub struct TableModel {
    pub entries: Map<Seq<char>, String>,
    pub pending: Set<Seq<char>>,
}

/// One read of `id`: a hit, a fetch that the caller now owns, or a wait.
pub open spec fn lookup_step(t: TableModel, id: Seq<char>) -> (TableModel, Lookup<String>) {
    if t.entries.contains_key(id) {
        (t, Lookup::Hit(t.entries[id]))
    } else if t.pending.contains(id) {
        (t, Lookup::Wait)
    } else {
        (TableModel { entries: t.entries, pending: t.pending.insert(id) }, Lookup::Fetch)
    }
}

/// The end of a fetch of `id`: a record fetched is stored, and the fetch is
/// no longer in flight.
pub open spec fn complete_step(t: TableModel, id: Seq<char>, fetched: Option<String>) -> TableModel {
    TableModel {
        entries: match fetched {
            Some(p) => t.entries.insert(id, p),
            None => t.entries,
        },
        pending: t.pending.remove(id),
    }
}

/// The map that a list of (id, record) pairs gives, a later pair winning over
/// an earlier one with the same id.
pub open spec fn records_map(records: Seq<(String, String)>) -> Map<Seq<char>, String>
    decreases records.len(),
{
    if records.len() == 0 {
        Map::empty()
    } else {
        records_map(records.drop_last()).insert(records.last().0@, records.last().1)
    }
}

/// The cache of one kind of entity.
pub struct KindTable {
    entries: StringHashMap<String>,
    pending: StringHashSet,
}

impl KindTable {
    pub closed spec fn model(&self) -> TableModel {
        TableModel { entries: self.entries@, pending: self.pending@ }
    }

    fn new() -> (r: KindTable)
        ensures
            r.model().entries == Map::<Seq<char>, String>::empty(),
            r.model().pending == Set::<Seq<char>>::empty(),
    {
        KindTable { entries: StringHashMap::new(), pending: StringHashSet::new() }
    }
}

/// The entity cache: one table per kind.
pub struct EntityCache {
    users: KindTable,
    servers: KindTable,
    channels: KindTable,
    members: KindTable,
    emojis: KindTable,
}

impl EntityCache {
    /// The table of one kind.
    pub closed spec fn table(&self, kind: ResourceType) -> KindTable {
        match kind {
            ResourceType::User => self.users,
            ResourceType::Server => self.servers,
            ResourceType::Channel => self.channels,
            ResourceType::Member => self.members,
            ResourceType::Emoji => self.emojis,
        }
    }

    /// What the cache holds for one kind.
    pub open spec fn model(&self, kind: ResourceType) -> TableModel {
        self.table(kind).model()
    }

    /// The other kinds are as in `before`.
    pub open spec fn others_unchanged(&self, before: &EntityCache, kind: ResourceType) -> bool {
        forall|k: ResourceType| k != kind ==> #[trigger] self.model(k) == before.model(k)
    }

    fn table_mut(&mut self, kind: ResourceType) -> (r: &mut KindTable)
        ensures
            *r == old(self).table(kind),
            final(self).table(kind) == *final(r),
            forall|k: ResourceType| k != kind ==> #[trigger] final(self).table(k) == old(self).table(k),
    {
        match kind {
            ResourceType::User => &mut self.users,
            ResourceType::Server => &mut self.servers,
            ResourceType::Channel => &mut self.channels,
            ResourceType::Member => &mut self.members,
            ResourceType::Emoji => &mut self.emojis,
        }
    }

    fn table_ref(&self, kind: ResourceType) -> (r: &KindTable)
        ensures
            *r == self.table(kind),
    {
        match kind {
            ResourceType::User => &self.users,
            ResourceType::Server => &self.servers,
            ResourceType::Channel => &self.channels,
            ResourceType::Member => &self.members,
            ResourceType::Emoji => &self.emojis,
        }
    }

    /// An empty cache.
    pub fn new() -> (r: EntityCache)
        ensures
            forall|k: ResourceType| #[trigger] r.model(k).entries == Map::<Seq<char>, String>::empty()
                && r.model(k).pending == Set::<Seq<char>>::empty(),
    {
        EntityCache {
            users: KindTable::new(),
            servers: KindTable::new(),
            channels: KindTable::new(),
            members: KindTable::new(),
            emojis: KindTable::new(),
        }
    }

    /// Reads `id`: the cached entity, or the duty to fetch it (claimed by this
    /// call), or a wait for the fetch that another caller claimed.
    pub fn get_or_fetch(&mut self, kind: ResourceType, id: &str) -> (r: Lookup<RemoteEntity>)
        ensures
            final(self).model(kind) == lookup_step(old(self).model(kind), id@).0,
            final(self).others_unchanged(old(self), kind),
            match (r, lookup_step(old(self).model(kind), id@).1) {
                (Lookup::Hit(e), Lookup::Hit(p)) => e.id@ == id@ && e.kind == kind && e.payload
                    == p,
                (Lookup::Fetch, Lookup::Fetch) => true,
                (Lookup::Wait, Lookup::Wait) => true,
                _ => false,
            },
    {
        let t = self.table_mut(kind);
        match t.entries.get(id) {
            Some(p) => {
                return Lookup::Hit(RemoteEntity { id: id.to_owned(), kind, payload: p.clone() });
            },
            None => {},
        }
        if t.pending.contains(id) {
            return Lookup::Wait;
        }
        t.pending.insert(id.to_owned());
        Lookup::Fetch
    }

    /// Ends the fetch of `id` that an earlier `get_or_fetch` handed out, with
    /// the record fetched or the cause of the failure. A record is stored
    /// before it is returned; a failure is reported as a failed fetch of `kind`.
    pub fn complete_fetch(&mut self, kind: ResourceType, id: &str, fetched: Result<String, String>) -> (r: Result<RemoteEntity, Error>)
        ensures
            final(self).model(kind) == complete_step(old(self).model(kind), id@, fetched.ok()),
            final(self).others_unchanged(old(self), kind),
            match fetched {
                Ok(p) => r matches Ok(e) && e.id@ == id@ && e.kind == kind && e.payload == p,
                Err(cause) => r == Err::<RemoteEntity, Error>(Error::Fetch { resource: kind, inner: cause }),
            },
    {
        let t = self.table_mut(kind);
        t.pending.remove(id);
        match fetched {
            Ok(p) => {
                t.entries.insert(id.to_owned(), p.clone());
                Ok(RemoteEntity { id: id.to_owned(), kind, payload: p })
            },
            Err(cause) => Err(Error::Fetch { resource: kind, inner: cause }),
        }
    }

    /// The cached entity, without fetching anything.
    pub fn get_only(&self, kind: ResourceType, id: &str) -> (r: Option<RemoteEntity>)
        ensures
            match r {
                Some(e) => self.model(kind).entries.contains_key(id@) && e.id@ == id@ && e.kind
                    == kind && e.payload == self.model(kind).entries[id@],
                None => !self.model(kind).entries.contains_key(id@),
            },
    {
        let t = self.table_ref(kind);
        match t.entries.get(id) {
            Some(p) => Some(RemoteEntity { id: id.to_owned(), kind, payload: p.clone() }),
            None => None,
        }
    }

    /// How many entities of `kind` are cached.
    pub fn len(&self, kind: ResourceType) -> (r: usize)
        ensures
            r == self.model(kind).entries.len(),
    {
        self.table_ref(kind).entries.len()
    }

    /// Replaces everything cached for `kind` with the (id, record) pairs of a
    /// snapshot; fetches in flight stay in flight.
    pub fn bulk_load(&mut self, kind: ResourceType, records: Vec<(String, String)>)
        ensures
            final(self).model(kind).entries == records_map(records@),
            final(self).model(kind).pending == old(self).model(kind).pending,
            final(self).others_unchanged(old(self), kind),
    {
        let mut m: StringHashMap<String> = StringHashMap::new();
        let mut i: usize = 0;
        while i < records.len()
            invariant
                i <= records@.len(),
                m@ == records_map(records@.take(i as int)),
            decreases records@.len() - i,
        {
            let (id, p) = (records[i].0.clone(), records[i].1.clone());
            m.insert(id, p);
            i = i + 1;
            assert(records@.take(i as int).drop_last() =~= records@.take(i - 1));
        }
        assert(records@.take(records@.len() as int) =~= records@);
        let t = self.table_mut(kind);
        t.entries = m;
    }
}

/// The table after `m` reads of `id` in a row, with no fetch completed between
/// them, and what each read returned.
pub open spec fn run_lookups(t: TableModel, id: Seq<char>, m: nat) -> (TableModel, Seq<Lookup<String>>)
    decreases m,
{
    if m == 0 {
        (t, Seq::empty())
    } else {
        let (t1, rs) = run_lookups(t, id, (m - 1) as nat);
        let (t2, r) = lookup_step(t1, id);
        (t2, rs.push(r))
    }
}

/// How many of the reads handed out a fetch.
pub open spec fn fetch_count(rs: Seq<Lookup<String>>) -> nat
    decreases rs.len(),
{
    if rs.len() == 0 {
        0
    } else {
        fetch_count(rs.drop_last()) + if rs.last() is Fetch {
            1nat
        } else {
            0nat
        }
    }
}

/// Reading an id twice, with no snapshot loaded between the two reads, fetches
/// it at most once, and both reads give the same record: a hit stays the same
/// hit, and after a fetch the second read hits what was fetched.
pub proof fn lemma_read_twice(t: TableModel, id: Seq<char>, fetched: String)
    ensures
        ({
            let (t1, r1) = lookup_step(t, id);
            let t1c = if r1 is Fetch {
                complete_step(t1, id, Some(fetched))
            } else {
                t1
            };
            let (t2, r2) = lookup_step(t1c, id);
            &&& !(r2 is Fetch)
            &&& r1 is Hit ==> r2 == r1 && t2 == t
            &&& r1 is Fetch ==> r2 == Lookup::<String>::Hit(fetched)
            &&& r1 is Wait ==> r2 is Wait
        }),
{
    let (t1, r1) = lookup_step(t, id);
    if r1 is Fetch {
        let t1c = complete_step(t1, id, Some(fetched));
        assert(t1c.entries.contains_key(id));
    }
}

/// Any number of concurrent reads of an id that is neither cached nor being
/// fetched hand out exactly one fetch; every later read waits for it.
pub proof fn lemma_fetch_coalescing(t: TableModel, id: Seq<char>, m: nat)
    requires
        !t.entries.contains_key(id),
        !t.pending.contains(id),
        m >= 1,
    ensures
        fetch_count(run_lookups(t, id, m).1) == 1,
        run_lookups(t, id, m).1.len() == m,
        run_lookups(t, id, m).1[0] is Fetch,
    decreases m,
{
    if m == 1 {
        let rs = run_lookups(t, id, 1).1;
        assert(run_lookups(t, id, 0).0 == t);
        assert(rs =~= seq![Lookup::<String>::Fetch]);
        assert(run_lookups(t, id, 0).1 =~= Seq::<Lookup<String>>::empty());
        assert(rs.drop_last() =~= Seq::<Lookup<String>>::empty());
        assert(fetch_count(rs.drop_last()) == 0);
        assert(fetch_count(rs) == 1);
    } else {
        lemma_fetch_coalescing(t, id, (m - 1) as nat);
        lemma_lookups_state(t, id, (m - 1) as nat);
        let (t1, rs) = run_lookups(t, id, (m - 1) as nat);
        let all = run_lookups(t, id, m).1;
        assert(lookup_step(t1, id).1 is Wait);
        assert(all.drop_last() =~= rs);
        assert(!(all.last() is Fetch));
        assert(all[0] == rs[0]);
        assert(fetch_count(all) == fetch_count(rs));
    }
}

/// After one read or more of an id that was neither cached nor being fetched,
/// it is being fetched and is still not cached.
proof fn lemma_lookups_state(t: TableModel, id: Seq<char>, m: nat)
    requires
        !t.entries.contains_key(id),
        !t.pending.contains(id),
        m >= 1,
    ensures
        run_lookups(t, id, m).0.pending.contains(id),
        run_lookups(t, id, m).0.entries == t.entries,
    decreases m,
{
    let prev = run_lookups(t, id, (m - 1) as nat).0;
    if m > 1 {
        lemma_lookups_state(t, id, (m - 1) as nat);
        assert(lookup_step(prev, id).0 == prev);
    } else {
        assert(prev == t);
        assert(lookup_step(t, id).0.pending == t.pending.insert(id));
    }
}

} // verus!

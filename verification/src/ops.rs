//! Per-player operator permissions, as kept in vanilla's `ops.json`.
//!
//! [`OpsStore`] holds one [`OpEntry`] per player UUID in a concurrent
//! `DashMap`; reading and writing the JSON file is done by the caller with
//! the entries this store hands out and takes in.

use vstd::prelude::*;
use dashmap::DashMap;

verus! {

/// A single operator entry, matching vanilla's `ops.json` schema.
#[derive(Clone, Debug)]
pub struct OpEntry {
    /// The player's Mojang UUID, as a 128-bit integer.
    pub uuid: u128,
    /// The player's display name (informational, not authoritative).
    pub name: String,
    /// Permission level (0–4). Vanilla levels:
    /// - 0 = default (no special permissions)
    /// - 1 = moderator (bypass spawn protection)
    /// - 2 = gamemaster (use cheat commands, command blocks)
    /// - 3 = admin (use management commands: /ban, /op, /deop)
    /// - 4 = owner (use all commands including /stop, /save-all)
    pub level: i32,
    /// Whether the player can join even when the server is full.
    pub bypasses_player_limit: bool,
}

#[verifier::external_type_specification]
#[verifier::external_body]
#[verifier::reject_recursive_types(K)]
#[verifier::reject_recursive_types(V)]
#[verifier::reject_recursive_types(S)]
pub struct ExDashMap<K, V, S>(DashMap<K, V, S>);

/// What a map of operator entries holds, by UUID.
pub uninterp spec fn op_entries(m: DashMap<u128, OpEntry>) -> Map<u128, OpEntry>;

/// Calls `DashMap::new`: the map is empty.
#[verifier::external_body]
fn map_new() -> (r: DashMap<u128, OpEntry>)
    ensures
        op_entries(r).dom() == Set::<u128>::empty(),
{
    DashMap::new()
}

/// Calls `DashMap::insert`: the entry for `key` becomes `entry`, the others
/// stay as they were.
#[verifier::external_body]
fn map_insert(m: &mut DashMap<u128, OpEntry>, key: u128, entry: OpEntry)
    ensures
        op_entries(*final(m)) == op_entries(*old(m)).insert(key, entry),
{
    m.insert(key, entry);
}

/// Calls `DashMap::remove`: the entry for `key` is gone; returns whether
/// there was one.
#[verifier::external_body]
fn map_remove(m: &mut DashMap<u128, OpEntry>, key: u128) -> (removed: bool)
    ensures
        removed == op_entries(*old(m)).contains_key(key),
        op_entries(*final(m)) == op_entries(*old(m)).remove(key),
{
    m.remove(&key).is_some()
}

/// Calls `DashMap::contains_key`.
#[verifier::external_body]
fn map_contains(m: &DashMap<u128, OpEntry>, key: u128) -> (r: bool)
    ensures
        r == op_entries(*m).contains_key(key),
{
    m.contains_key(&key)
}

/// Calls `DashMap::get` and clones the entry found.
#[verifier::external_body]
fn map_get(m: &DashMap<u128, OpEntry>, key: u128) -> (r: Option<OpEntry>)
    ensures
        r == (if op_entries(*m).contains_key(key) {
            Some(op_entries(*m)[key])
        } else {
            None
        }),
{
    m.get(&key).map(|e| e.clone())
}

/// Calls `DashMap::len`: the number of entries.
#[verifier::external_body]
fn map_len(m: &DashMap<u128, OpEntry>) -> (r: usize)
    ensures
        r == op_entries(*m).len(),
{
    m.len()
}

/// Calls `DashMap::iter` and clones every value, in the map's own
/// (unspecified) order: each entry of the map comes out exactly once. Where
/// every entry is filed under its own `uuid`, the values alone therefore
/// list the map.
#[verifier::external_body]
fn map_values(m: &DashMap<u128, OpEntry>) -> (r: Vec<OpEntry>)
    requires
        op_entries(*m).dom().finite(),
        forall|k: u128| #[trigger] op_entries(*m).contains_key(k) ==> op_entries(*m)[k].uuid == k,
    ensures
        lists_entries(r@, op_entries(*m)),
{
    m.iter().map(|e| e.value().clone()).collect()
}

/// `s` lists the entries of `m`, each exactly once, in some order.
pub open spec fn lists_entries(s: Seq<OpEntry>, m: Map<u128, OpEntry>) -> bool {
    &&& s.len() == m.len()
    &&& forall|i: int| 0 <= i < s.len() ==> #[trigger] m.contains_key(s[i].uuid) && m[s[i].uuid] == s[i]
    &&& forall|i: int, j: int| 0 <= i < j < s.len() ==> #[trigger] s[i].uuid != #[trigger] s[j].uuid
    &&& forall|k: u128| m.contains_key(k) ==> exists|i: int| 0 <= i < s.len() && #[trigger] s[i].uuid == k
}

/// `l` clamped into `lo..=hi`.
pub open spec fn clamp(l: int, lo: int, hi: int) -> int {
    if l < lo {
        lo
    } else if l > hi {
        hi
    } else {
        l
    }
}

/// `l` clamped into `lo..=hi`.
fn clamp_i32(l: i32, lo: i32, hi: i32) -> (r: i32)
    requires
        lo <= hi,
    ensures
        r == clamp(l as int, lo as int, hi as int),
{
    if l < lo {
        lo
    } else if l > hi {
        hi
    } else {
        l
    }
}

/// The entries of `ops` by UUID; a later entry for the same UUID replaces
/// an earlier one.
pub open spec fn entries_by_uuid(ops: Seq<OpEntry>) -> Map<u128, OpEntry>
    decreases ops.len(),
{
    if ops.len() == 0 {
        Map::empty()
    } else {
        entries_by_uuid(ops.drop_last()).insert(ops.last().uuid, ops.last())
    }
}

/// Thread-safe operator store, indexed by UUID.
pub struct OpsStore {
    /// In-memory operator entries indexed by UUID.
    entries: DashMap<u128, OpEntry>,
    /// Path to the `ops.json` file the entries are saved to.
    path: String,
    /// Default permission level for new ops (from server config), in 1–4.
    default_level: i32,
}

impl View for OpsStore {
    type V = Map<u128, OpEntry>;

    /// The entries by UUID.
    closed spec fn view(&self) -> Map<u128, OpEntry> {
        op_entries(self.entries)
    }
}

impl OpsStore {

    /// The level given to a new op when none is named.
    pub closed spec fn spec_default_level(&self) -> int {
        self.default_level as int
    }

    /// The path the entries are saved to.
    pub closed spec fn spec_path(&self) -> Seq<char> {
        self.path@
    }

    /// Every entry is filed under its own UUID, there are finitely many,
    /// and the default level lies in 1–4.
    pub closed spec fn wf(&self) -> bool {
        &&& self@.dom().finite()
        &&& forall|k: u128| #[trigger] self@.contains_key(k) ==> self@[k].uuid == k
        &&& 1 <= self.default_level <= 4
    }

    /// Builds the store for the file at `path` from the entries read from
    /// it (none when the file is missing or unreadable). A later entry for
    /// the same UUID replaces an earlier one; the default level for new ops
    /// is `default_level` clamped into 1–4.
    pub fn load(path: String, default_level: i32, ops: Vec<OpEntry>) -> (r: OpsStore)
        ensures
            r.wf(),
            r@ == entries_by_uuid(ops@),
            r.spec_default_level() == clamp(default_level as int, 1, 4),
            r.spec_path() == path@,
    {
        let mut entries = map_new();
        let ghost all = ops@;
        assert(all.len() == ops.len());
        let mut rest = ops;
        assert(op_entries(entries) =~= entries_by_uuid(all.take(0)));
        assert(all.skip(0) =~= all);
        let mut i: usize = 0;
        while rest.len() > 0
            invariant
                i <= all.len(),
                rest@ == all.skip(i as int),
                i + rest@.len() == all.len(),
                all.len() <= usize::MAX,
                op_entries(entries) == entries_by_uuid(all.take(i as int)),
                op_entries(entries).dom().finite(),
                forall|k: u128| #[trigger] op_entries(entries).contains_key(k) ==> op_entries(
                    entries,
                )[k].uuid == k,
            decreases rest@.len(),
        {
            let op = rest.remove(0);
            assert(all.take(i + 1).drop_last() =~= all.take(i as int));
            assert(all.skip(i + 1) =~= all.skip(i as int).drop_first());
            map_insert(&mut entries, op.uuid, op);
            i = i + 1;
        }
        assert(all.take(i as int) =~= all);
        OpsStore { entries, path, default_level: clamp_i32(default_level, 1, 4) }
    }

    /// Returns `true` if the given UUID has an operator entry.
    pub fn is_op(&self, uuid: u128) -> (r: bool)
        ensures
            r == self@.contains_key(uuid),
    {
        map_contains(&self.entries, uuid)
    }

    /// Returns the permission level for a player, or 0 if the player is
    /// not an operator.
    pub fn get_permission_level(&self, uuid: u128) -> (r: i32)
        ensures
            r == (if self@.contains_key(uuid) {
                self@[uuid].level
            } else {
                0
            }),
    {
        match map_get(&self.entries, uuid) {
            Some(e) => e.level,
            None => 0,
        }
    }

    /// Returns a copy of the operator entry for the given UUID, if any.
    pub fn get(&self, uuid: u128) -> (r: Option<OpEntry>)
        ensures
            r == (if self@.contains_key(uuid) {
                Some(self@[uuid])
            } else {
                None
            }),
    {
        map_get(&self.entries, uuid)
    }

    /// Adds or updates an operator entry. The level is `level`, or the
    /// store's default level when `None`, clamped into 0–4. The caller
    /// saves the entries afterwards.
    pub fn add(&mut self, uuid: u128, name: String, level: Option<i32>, bypasses_player_limit: bool)
        requires
            old(self).wf(),
        ensures
            final(self).wf(),
            final(self)@ == old(self)@.insert(
                uuid,
                OpEntry {
                    uuid,
                    name,
                    level: clamp(
                        match level {
                            Some(l) => l as int,
                            None => old(self).spec_default_level(),
                        },
                        0,
                        4,
                    ) as i32,
                    bypasses_player_limit,
                },
            ),
            final(self)@.dom().finite(),
            final(self)@.len() == old(self)@.len() + (if old(self)@.contains_key(uuid) {
                0int
            } else {
                1int
            }),
            final(self).spec_default_level() == old(self).spec_default_level(),
            final(self).spec_path() == old(self).spec_path(),
    {
        let requested = match level {
            Some(l) => l,
            None => self.default_level,
        };
        let level = clamp_i32(requested, 0, 4);
        let entry = OpEntry { uuid, name, level, bypasses_player_limit };
        map_insert(&mut self.entries, uuid, entry);
    }

    /// Removes the operator entry for `uuid`; returns `true` if there was
    /// one. The caller saves the entries afterwards when one was removed.
    pub fn remove(&mut self, uuid: u128) -> (removed: bool)
        requires
            old(self).wf(),
        ensures
            final(self).wf(),
            removed == old(self)@.contains_key(uuid),
            final(self)@ == old(self)@.remove(uuid),
            final(self)@.dom().finite(),
            final(self)@.len() == old(self)@.len() - (if removed {
                1int
            } else {
                0int
            }),
            final(self).spec_default_level() == old(self).spec_default_level(),
            final(self).spec_path() == old(self).spec_path(),
    {
        map_remove(&mut self.entries, uuid)
    }

    /// Returns `true` if the player can bypass the server player limit.
    pub fn bypasses_player_limit(&self, uuid: u128) -> (r: bool)
        ensures
            r == (self@.contains_key(uuid) && self@[uuid].bypasses_player_limit),
    {
        match map_get(&self.entries, uuid) {
            Some(e) => e.bypasses_player_limit,
            None => false,
        }
    }

    /// Returns `true` if no operators are configured.
    pub fn is_empty(&self) -> (r: bool)
        requires
            self.wf(),
        ensures
            r == (self@.len() == 0),
            r == (self@ == Map::<u128, OpEntry>::empty()),
    {
        let n = map_len(&self.entries);
        proof {
            if self@.len() == 0 {
                self@.dom().lemma_len0_is_empty();
                assert(self@ =~= Map::<u128, OpEntry>::empty());
            }
        }
        n == 0
    }

    /// Returns the number of operator entries.
    pub fn len(&self) -> (r: usize)
        ensures
            r == self@.len(),
    {
        map_len(&self.entries)
    }

    /// The operator entries, each once, in no particular order (what is
    /// written to `ops.json`).
    pub fn to_entries(&self) -> (r: Vec<OpEntry>)
        requires
            self.wf(),
        ensures
            lists_entries(r@, self@),
    {
        map_values(&self.entries)
    }

    /// Returns the names of all operators (for tab-completion), one per
    /// entry, in no particular order.
    pub fn op_names(&self) -> (r: Vec<String>)
        requires
            self.wf(),
        ensures
            exists|s: Seq<OpEntry>|
                #![trigger lists_entries(s, self@)]
                lists_entries(s, self@) && r@.len() == s.len() && forall|i: int|
                    0 <= i < s.len() ==> #[trigger] r@[i] == s[i].name,
    {
        let entries = map_values(&self.entries);
        let mut names: Vec<String> = Vec::new();
        let mut i: usize = 0;
        while i < entries.len()
            invariant
                i <= entries@.len(),
                names@.len() == i,
                forall|t: int| 0 <= t < i ==> #[trigger] names@[t] == entries@[t].name,
            decreases entries@.len() - i,
        {
            names.push(entries[i].name.clone());
            i = i + 1;
        }
        assert(lists_entries(entries@, self@));
        names
    }

    /// Returns the file path for this ops store.
    pub fn path(&self) -> (r: &str)
        ensures
            r@ == self.spec_path(),
    {
        self.path.as_str()
    }
}

/// Adding an operator makes the player an operator with the clamped level
/// and leaves every other entry as it was; removing the player afterwards
/// takes the entry away again, and a player who is not an operator has
/// permission level 0.
pub proof fn lemma_add_then_remove(
    m: Map<u128, OpEntry>,
    uuid: u128,
    entry: OpEntry,
    other: u128,
)
    requires
        other != uuid,
    ensures
        m.insert(uuid, entry).contains_key(uuid),
        m.insert(uuid, entry)[uuid] == entry,
        m.insert(uuid, entry).contains_key(other) == m.contains_key(other),
        m.contains_key(other) ==> m.insert(uuid, entry)[other] == m[other],
        !m.insert(uuid, entry).remove(uuid).contains_key(uuid),
        m.insert(uuid, entry).remove(uuid).contains_key(other) == m.contains_key(other),
{
}

/// The level `add` stores always lies in 0–4.
pub proof fn lemma_added_level_in_range(level: int)
    ensures
        0 <= clamp(level, 0, 4) <= 4,
        0 <= level <= 4 ==> clamp(level, 0, 4) == level,
{
}

} // verus!

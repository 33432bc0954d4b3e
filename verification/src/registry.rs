//! The node registry: the per-host record of every node ever created and not
//! yet deregistered, scoped by configuration root.
//!
//! The registry is the coordination point between the participants of the
//! system: creation appends an entry, clean shutdown removes exactly the
//! node's own entry, and enumeration returns, at call time, exactly the
//! entries under the asked-for configuration — no caching across calls.  A
//! node that terminated without deregistering leaves its entry behind; the
//! liveness classification in [`crate::node`] tells such dead entries apart
//! from alive ones.
//!
//! Fresh node ids are drawn from a registry-wide counter, so the ids of all
//! registered entries are strictly increasing in registration order — which
//! makes them pairwise distinct, however many nodes are created concurrently
//! under one root.

use vstd::prelude::*;

use crate::config::Config;
use crate::config::ConfigView;
use crate::errors::NodeCreationError;
use crate::node::NodeId;
use crate::node::NodeName;

verus! {

/// The mathematical content of one registry entry: the registered node's
/// name, unique id, and a snapshot of the configuration it was created
/// under.
pub struct EntryView {
    pub name: Seq<char>,
    pub id: u128,
    pub config: ConfigView,
}

/// One persisted record of a node's existence: its name, its unique id, and
/// the configuration snapshot it was created under.
#[derive(Debug)]
pub struct RegistryEntry {
    name: NodeName,
    id: NodeId,
    config: Config,
}

impl View for RegistryEntry {
    type V = EntryView;

    closed spec fn view(&self) -> EntryView {
        EntryView { name: self.name@, id: self.id.spec_value(), config: self.config@ }
    }
}

impl RegistryEntry {
    /// The name of the registered node.
    pub fn name(&self) -> (r: &NodeName)
        ensures
            r@ == self@.name,
    {
        &self.name
    }

    /// The unique id of the registered node.
    pub fn id(&self) -> (r: NodeId)
        ensures
            r.spec_value() == self@.id,
    {
        self.id
    }

    /// The configuration snapshot the node was created under.
    pub fn config(&self) -> (r: &Config)
        ensures
            r@ == self@.config,
    {
        &self.config
    }

    /// A copy of this entry with the same view.
    pub fn snapshot(&self) -> (r: RegistryEntry)
        ensures
            r@ == self@,
    {
        RegistryEntry {
            name: self.name.snapshot(),
            id: self.id,
            config: self.config.snapshot(),
        }
    }
}

/// The mathematical content of the registry: the entries in registration
/// order, and the counter the next fresh id is drawn from.
pub struct RegistryView {
    pub entries: Seq<EntryView>,
    pub next_id: u128,
}

/// The entries of `s` created under the configuration `c`, in registration
/// order: what listing under `c` returns.
pub open spec fn entries_under(s: Seq<EntryView>, c: ConfigView) -> Seq<EntryView>
    decreases s.len(),
{
    if s.len() == 0 {
        Seq::empty()
    } else {
        let rest = entries_under(s.drop_last(), c);
        if s.last().config == c {
            rest.push(s.last())
        } else {
            rest
        }
    }
}

/// The entries of `s` that do not carry the id `id`, in registration order:
/// what deregistering the node with that id leaves behind.
pub open spec fn entries_without(s: Seq<EntryView>, id: u128) -> Seq<EntryView>
    decreases s.len(),
{
    if s.len() == 0 {
        Seq::empty()
    } else {
        let rest = entries_without(s.drop_last(), id);
        if s.last().id == id {
            rest
        } else {
            rest.push(s.last())
        }
    }
}

/// The ids of `s` grow strictly in registration order.
pub open spec fn ids_strictly_increasing(s: Seq<EntryView>) -> bool {
    forall|i: int, j: int| 0 <= i < j < s.len() ==> s[i].id < s[j].id
}

/// Well-formedness of the registry: entry ids grow strictly in registration
/// order, and every id was drawn below the counter.
pub open spec fn registry_wf(v: RegistryView) -> bool {
    &&& ids_strictly_increasing(v.entries)
    &&& forall|i: int| 0 <= i < v.entries.len() ==> (#[trigger] v.entries[i]).id < v.next_id
}

/// The registry of one host: every node created and not yet deregistered,
/// under every configuration root, in registration order.
#[derive(Debug)]
pub struct Registry {
    entries: Vec<RegistryEntry>,
    next_id: u128,
}

impl View for Registry {
    type V = RegistryView;

    closed spec fn view(&self) -> RegistryView {
        RegistryView {
            entries: self.entries@.map_values(|e: RegistryEntry| e@),
            next_id: self.next_id,
        }
    }
}

impl Registry {
    /// Well-formedness of this registry value.
    pub open spec fn wf(self) -> bool {
        registry_wf(self@)
    }

    /// An empty registry: no entries, ids starting at zero.
    pub fn new() -> (r: Registry)
        ensures
            r.wf(),
            r@.entries == Seq::<EntryView>::empty(),
            r@.next_id == 0,
    {
        Registry::with_first_id(0)
    }

    /// An empty registry whose unique-id source starts at `first_id` — the
    /// seed of the process-wide source the ids are drawn from.
    pub fn with_first_id(first_id: u128) -> (r: Registry)
        ensures
            r.wf(),
            r@.entries == Seq::<EntryView>::empty(),
            r@.next_id == first_id,
    {
        let r = Registry { entries: Vec::new(), next_id: first_id };
        proof {
            assert(r@.entries =~= Seq::<EntryView>::empty());
        }
        r
    }

    /// Writes a registry entry for a node named `name` under `config`,
    /// drawing a fresh id from the counter.  Fails with
    /// `RegistrationFailed` exactly when the id counter is spent; the
    /// registry is then left unchanged.
    pub fn register(&mut self, name: &NodeName, config: &Config) -> (r: Result<
        NodeId,
        NodeCreationError,
    >)
        requires
            old(self).wf(),
        ensures
            final(self).wf(),
            (r is Err) <==> old(self)@.next_id == u128::MAX,
            r is Err ==> r->Err_0 == NodeCreationError::RegistrationFailed && final(self)@ == old(
                self,
            )@,
            r is Ok ==> r->Ok_0.spec_value() == old(self)@.next_id,
            r is Ok ==> final(self)@.entries == old(self)@.entries.push(
                EntryView { name: name@, id: old(self)@.next_id, config: config@ },
            ),
            r is Ok ==> final(self)@.next_id == old(self)@.next_id + 1,
    {
        if self.next_id == u128::MAX {
            return Err(NodeCreationError::RegistrationFailed);
        }
        let id = NodeId::new(self.next_id);
        let entry = RegistryEntry { name: name.snapshot(), id, config: config.snapshot() };
        self.entries.push(entry);
        self.next_id = self.next_id + 1;
        proof {
            assert(self@.entries =~= old(self)@.entries.push(
                EntryView { name: name@, id: old(self)@.next_id, config: config@ },
            ));
        }
        Ok(id)
    }

    /// Enumerates every entry present under `config` at call time, in
    /// registration order — exactly the nodes created under `config` and not
    /// yet deregistered.
    pub fn list(&self, config: &Config) -> (r: Vec<RegistryEntry>)
        ensures
            r@.map_values(|e: RegistryEntry| e@) == entries_under(self@.entries, config@),
    {
        let n = self.entries.len();
        let mut out: Vec<RegistryEntry> = Vec::new();
        let mut i: usize = 0;
        proof {
            assert(out@.map_values(|e: RegistryEntry| e@) =~= entries_under(
                self@.entries.take(0),
                config@,
            ));
        }
        while i < n
            invariant
                i <= n,
                n == self.entries@.len(),
                self@.entries.len() == self.entries@.len(),
                out@.map_values(|e: RegistryEntry| e@) == entries_under(
                    self@.entries.take(i as int),
                    config@,
                ),
            decreases n - i,
        {
            proof {
                lemma_entries_under_take_step(self@.entries, config@, i as int);
            }
            let entry = &self.entries[i];
            if entry.config() == config {
                let ghost pre = out@;
                out.push(entry.snapshot());
                proof {
                    assert(out@.map_values(|e: RegistryEntry| e@) =~= pre.map_values(
                        |e: RegistryEntry| e@,
                    ).push(self@.entries[i as int]));
                }
            }
            i += 1;
        }
        proof {
            assert(self@.entries.take(n as int) =~= self@.entries);
        }
        out
    }

    /// Removes the entry carrying `id`, leaving every other entry in place
    /// and in order.  Removing an id that is not registered leaves the
    /// registry unchanged, so a clean shutdown after a failed registration
    /// is harmless.
    pub fn deregister(&mut self, id: NodeId)
        requires
            old(self).wf(),
        ensures
            final(self).wf(),
            final(self)@.entries == entries_without(old(self)@.entries, id.spec_value()),
            final(self)@.next_id == old(self)@.next_id,
    {
        let n = self.entries.len();
        let mut kept: Vec<RegistryEntry> = Vec::new();
        let mut i: usize = 0;
        proof {
            assert(kept@.map_values(|e: RegistryEntry| e@) =~= entries_without(
                self@.entries.take(0),
                id.spec_value(),
            ));
        }
        while i < n
            invariant
                i <= n,
                n == self.entries@.len(),
                self@.entries.len() == self.entries@.len(),
                kept@.map_values(|e: RegistryEntry| e@) == entries_without(
                    self@.entries.take(i as int),
                    id.spec_value(),
                ),
            decreases n - i,
        {
            proof {
                lemma_entries_without_take_step(self@.entries, id.spec_value(), i as int);
            }
            let entry = &self.entries[i];
            if entry.id().value() != id.value() {
                let ghost pre = kept@;
                kept.push(entry.snapshot());
                proof {
                    assert(kept@.map_values(|e: RegistryEntry| e@) =~= pre.map_values(
                        |e: RegistryEntry| e@,
                    ).push(self@.entries[i as int]));
                }
            }
            i += 1;
        }
        proof {
            assert(self@.entries.take(n as int) =~= self@.entries);
            lemma_entries_without_preserves_order(self@.entries, id.spec_value());
            assert forall|k: int|
                0 <= k < entries_without(self@.entries, id.spec_value()).len() implies (
            #[trigger] entries_without(self@.entries, id.spec_value())[k]).id < self@.next_id by {
                let j = choose|j: int|
                    0 <= j < self@.entries.len() && entries_without(self@.entries, id.spec_value())[k]
                        == self@.entries[j];
                assert(self@.entries[j].id < self@.next_id);
            }
        }
        self.entries = kept;
    }
}

/// Scanning one more entry extends the listing under `c` by exactly that
/// entry when its configuration is `c`, and not at all otherwise.
pub proof fn lemma_entries_under_take_step(s: Seq<EntryView>, c: ConfigView, i: int)
    requires
        0 <= i < s.len(),
    ensures
        entries_under(s.take(i + 1), c) == if s[i].config == c {
            entries_under(s.take(i), c).push(s[i])
        } else {
            entries_under(s.take(i), c)
        },
{
    assert(s.take(i + 1).drop_last() =~= s.take(i));
    assert(s.take(i + 1).last() == s[i]);
}

/// Scanning one more entry drops it from the survivors exactly when it
/// carries the removed id.
pub proof fn lemma_entries_without_take_step(s: Seq<EntryView>, id: u128, i: int)
    requires
        0 <= i < s.len(),
    ensures
        entries_without(s.take(i + 1), id) == if s[i].id == id {
            entries_without(s.take(i), id)
        } else {
            entries_without(s.take(i), id).push(s[i])
        },
{
    assert(s.take(i + 1).drop_last() =~= s.take(i));
    assert(s.take(i + 1).last() == s[i]);
}

/// Deregistration preserves the registration order: the survivors' ids still
/// grow strictly, and every survivor is one of the entries scanned.
pub proof fn lemma_entries_without_preserves_order(s: Seq<EntryView>, id: u128)
    requires
        ids_strictly_increasing(s),
    ensures
        ids_strictly_increasing(entries_without(s, id)),
        forall|k: int|
            0 <= k < entries_without(s, id).len() ==> exists|j: int|
                0 <= j < s.len() && #[trigger] entries_without(s, id)[k] == s[j],
    decreases s.len(),
{
    if s.len() != 0 {
        let t = s.drop_last();
        let x = s.last();
        assert(ids_strictly_increasing(t));
        lemma_entries_without_preserves_order(t, id);
        let rest = entries_without(t, id);
        assert forall|k: int|
            0 <= k < entries_without(s, id).len() implies exists|j: int|
            0 <= j < s.len() && #[trigger] entries_without(s, id)[k] == s[j] by {
            if x.id == id || k < rest.len() {
                let j = choose|j: int| 0 <= j < t.len() && rest[k] == t[j];
                assert(entries_without(s, id)[k] == s[j]);
            } else {
                assert(entries_without(s, id)[k] == x);
                assert(entries_without(s, id)[k] == s[s.len() - 1]);
            }
        }
        if x.id != id {
            assert forall|a: int, b: int|
                0 <= a < b < entries_without(s, id).len() implies entries_without(s, id)[a].id
                < entries_without(s, id)[b].id by {
                if b < rest.len() {
                } else {
                    assert(entries_without(s, id)[b] == x);
                    let j = choose|j: int| 0 <= j < t.len() && rest[a] == t[j];
                    assert(t[j].id == s[j].id);
                    assert(s[j].id < x.id);
                }
            }
        }
    }
}

/// An entry is listed under `c` exactly when it is registered and was
/// created under `c`.
pub proof fn lemma_entries_under_membership(s: Seq<EntryView>, c: ConfigView)
    ensures
        forall|e: EntryView|
            #[trigger] entries_under(s, c).contains(e) <==> s.contains(e) && e.config == c,
    decreases s.len(),
{
    if s.len() == 0 {
    } else {
        let t = s.drop_last();
        let x = s.last();
        lemma_entries_under_membership(t, c);
        let eu = entries_under(s, c);
        let rest = entries_under(t, c);
        assert forall|e: EntryView| #[trigger] eu.contains(e) implies s.contains(e) && e.config
            == c by {
            let i = choose|i: int| 0 <= i < eu.len() && eu[i] == e;
            if x.config == c && i == eu.len() - 1 {
                assert(e == x);
                assert(s[s.len() - 1] == x);
                assert(s.contains(e));
            } else {
                assert(rest[i] == e);
                assert(rest.contains(e));
                let j = choose|j: int| 0 <= j < t.len() && t[j] == e;
                assert(s[j] == e);
                assert(s.contains(e));
            }
        }
        assert forall|e: EntryView| s.contains(e) && e.config == c implies #[trigger] eu.contains(
            e,
        ) by {
            let i = choose|i: int| 0 <= i < s.len() && s[i] == e;
            if i == s.len() - 1 {
                assert(e == x);
                assert(eu[eu.len() - 1] == x);
                assert(eu.contains(e));
            } else {
                assert(t[i] == e);
                assert(t.contains(e));
                assert(rest.contains(e));
                let j = choose|j: int| 0 <= j < rest.len() && rest[j] == e;
                assert(eu[j] == e);
                assert(eu.contains(e));
            }
        }
    }
}

/// Nodes created under roots with different configurations are isolated:
/// no entry listed under one configuration is listed under a different one.
pub proof fn lemma_disjoint_configs_isolated(
    s: Seq<EntryView>,
    c1: ConfigView,
    c2: ConfigView,
    e: EntryView,
)
    requires
        c1 != c2,
        entries_under(s, c1).contains(e),
    ensures
        !entries_under(s, c2).contains(e),
{
    lemma_entries_under_membership(s, c1);
    lemma_entries_under_membership(s, c2);
}

/// In a well-formed registry the ids of the registered entries are pairwise
/// distinct, however many nodes were created concurrently under one root.
pub proof fn lemma_node_ids_pairwise_distinct(v: RegistryView)
    requires
        registry_wf(v),
    ensures
        forall|i: int, j: int|
            0 <= i < v.entries.len() && 0 <= j < v.entries.len() && i != j ==> v.entries[i].id
                != v.entries[j].id,
{
}

/// Creating a node extends exactly its own root's listing, by exactly its
/// own entry, at the end; the listing of every other configuration is
/// unchanged.  Iterated over any number of creations, listing returns
/// exactly the created set, independent of creation order across roots.
pub proof fn lemma_list_after_create(s: Seq<EntryView>, e: EntryView, c: ConfigView)
    ensures
        entries_under(s.push(e), c) == if e.config == c {
            entries_under(s, c).push(e)
        } else {
            entries_under(s, c)
        },
{
    assert(s.push(e).drop_last() =~= s);
    assert(s.push(e).last() == e);
}

/// Deregistering a node is immediately reflected in every listing: listing
/// after the removal is the listing before it with exactly the removed id's
/// entry taken out.
pub proof fn lemma_list_after_deregister(s: Seq<EntryView>, id: u128, c: ConfigView)
    ensures
        entries_under(entries_without(s, id), c) == entries_without(entries_under(s, c), id),
    decreases s.len(),
{
    if s.len() != 0 {
        let t = s.drop_last();
        let x = s.last();
        lemma_list_after_deregister(t, id, c);
        let wt = entries_without(t, id);
        let ut = entries_under(t, c);
        if x.id == id {
            if x.config == c {
                assert(ut.push(x).drop_last() =~= ut);
            }
        } else {
            assert(wt.push(x).drop_last() =~= wt);
            if x.config == c {
                assert(ut.push(x).drop_last() =~= ut);
            }
        }
    }
}

} // verus!

//! Nodes: the registered identities of the processes participating in the
//! system.
//!
//! A node is created through a [`NodeBuilder`], which registers it in the
//! [`Registry`](crate::registry::Registry) under its configuration root with
//! a freshly drawn unique id.  Deregistering the node removes exactly its own
//! entry.  A node that terminates without deregistering leaves its entry
//! behind; enumeration classifies every entry, by a liveness probe of the
//! owning process, as [`NodeState::Alive`] or [`NodeState::Dead`] — a crash
//! and a failed cleanup converge in the same observable dead entry.

use vstd::prelude::*;

use crate::config::Config;
use crate::config::default_config_view;
use crate::errors::NodeCreationError;
use crate::registry::EntryView;
use crate::registry::Registry;
use crate::registry::RegistryEntry;
use crate::registry::entries_under;
use crate::registry::entries_without;

verus! {

/// The human-readable name of a node.  Names carry no uniqueness
/// constraint: any number of nodes may share one name.
#[derive(Clone, Debug)]
pub struct NodeName {
    value: String,
}

impl View for NodeName {
    type V = Seq<char>;

    closed spec fn view(&self) -> Seq<char> {
        self.value@
    }
}

impl NodeName {
    /// Wraps a string as a node name.
    pub fn new(value: String) -> (n: NodeName)
        ensures
            n@ == value@,
    {
        NodeName { value }
    }

    /// The name as a string.
    pub fn as_string(&self) -> (r: &String)
        ensures
            r@ == self@,
    {
        &self.value
    }

    /// A copy of this name with the same view.
    pub fn snapshot(&self) -> (r: NodeName)
        ensures
            r@ == self@,
    {
        NodeName { value: self.value.clone() }
    }
}

impl PartialEq for NodeName {
    /// Two node names are equal when their characters are.
    fn eq(&self, other: &NodeName) -> (r: bool) {
        self.value == other.value
    }
}

impl vstd::std_specs::cmp::PartialEqSpecImpl for NodeName {
    open spec fn obeys_eq_spec() -> bool {
        true
    }

    open spec fn eq_spec(&self, other: &NodeName) -> bool {
        self@ == other@
    }
}

/// The unique id of a node: a 128-bit value drawn from a source that never
/// repeats among the nodes registered under one registry.
#[derive(Clone, Copy, PartialEq, Eq, Structural, Debug)]
pub struct NodeId {
    value: u128,
}

impl NodeId {
    /// The id as an integer.
    pub closed spec fn spec_value(self) -> u128 {
        self.value
    }

    /// Wraps an integer as a node id.
    pub fn new(value: u128) -> (r: NodeId)
        ensures
            r.spec_value() == value,
    {
        NodeId { value }
    }

    /// The id as an integer.
    pub fn value(&self) -> (r: u128)
        ensures
            r == self.spec_value(),
    {
        self.value
    }
}

/// The liveness classification of one registry entry, made at enumeration
/// time.
#[derive(Debug)]
pub enum NodeState {
    /// The owning process is still running; full details are available.
    Alive(RegistryEntry),
    /// The owning process terminated without deregistering — a crash or a
    /// failed cleanup, indistinguishable after the fact.  The entry and any
    /// resources it owned are reclaimable by other processes.
    Dead(RegistryEntry),
}

/// Classifies one registry entry from the answer of the process-liveness
/// probe on the entry's owner.
pub fn classify(entry: RegistryEntry, process_is_alive: bool) -> (r: NodeState)
    ensures
        process_is_alive ==> r == NodeState::Alive(entry),
        !process_is_alive ==> r == NodeState::Dead(entry),
{
    if process_is_alive {
        NodeState::Alive(entry)
    } else {
        NodeState::Dead(entry)
    }
}

/// Whether `ids` holds `id`.
fn contains_id(ids: &Vec<u128>, id: u128) -> (r: bool)
    ensures
        r == ids@.contains(id),
{
    let n = ids.len();
    let mut i: usize = 0;
    while i < n
        invariant
            i <= n,
            n == ids@.len(),
            forall|j: int| 0 <= j < i as int ==> ids@[j] != id,
        decreases n - i,
    {
        if ids[i] == id {
            return true;
        }
        i += 1;
    }
    false
}

/// Enumerates the entries under `config` and classifies each against the
/// set `live_ids` of ids whose owning process the liveness probe reported as
/// running: exactly the listing of `config`, in order, each entry wrapped as
/// alive or dead.
pub fn list_states(registry: &Registry, config: &Config, live_ids: &Vec<u128>) -> (r: Vec<
    NodeState,
>)
    ensures
        r@.len() == entries_under(registry@.entries, config@).len(),
        forall|k: int|
            0 <= k < r@.len() ==> (r@[k] is Alive <==> live_ids@.contains(
                #[trigger] entries_under(registry@.entries, config@)[k].id,
            )),
        forall|k: int|
            0 <= k < r@.len() ==> (match #[trigger] r@[k] {
                NodeState::Alive(e) => e@ == entries_under(registry@.entries, config@)[k],
                NodeState::Dead(e) => e@ == entries_under(registry@.entries, config@)[k],
            }),
{
    let listed = registry.list(config);
    let n = listed.len();
    let mut out: Vec<NodeState> = Vec::new();
    let mut i: usize = 0;
    while i < n
        invariant
            i <= n,
            n == listed@.len(),
            listed@.map_values(|e: RegistryEntry| e@) == entries_under(registry@.entries, config@),
            out@.len() == i as int,
            forall|k: int|
                0 <= k < i as int ==> (out@[k] is Alive <==> live_ids@.contains(
                    #[trigger] entries_under(registry@.entries, config@)[k].id,
                )),
            forall|k: int|
                0 <= k < i as int ==> (match #[trigger] out@[k] {
                    NodeState::Alive(e) => e@ == entries_under(registry@.entries, config@)[k],
                    NodeState::Dead(e) => e@ == entries_under(registry@.entries, config@)[k],
                }),
        decreases n - i,
    {
        let entry = listed[i].snapshot();
        let alive = contains_id(live_ids, entry.id().value());
        out.push(classify(entry, alive));
        i += 1;
    }
    out
}

/// A registered identity: one running participant of the system.  The node
/// knows its name, its unique id, and the configuration it was created
/// under.  Deregistering it removes exactly its own registry entry.
#[derive(Debug)]
pub struct Node {
    name: NodeName,
    id: NodeId,
    config: Config,
}

impl View for Node {
    type V = EntryView;

    closed spec fn view(&self) -> EntryView {
        EntryView { name: self.name@, id: self.id.spec_value(), config: self.config@ }
    }
}

impl Node {
    /// The name of this node.
    pub fn name(&self) -> (r: &NodeName)
        ensures
            r@ == self@.name,
    {
        &self.name
    }

    /// The unique id of this node.
    pub fn id(&self) -> (r: NodeId)
        ensures
            r.spec_value() == self@.id,
    {
        self.id
    }

    /// The configuration this node was created under.
    pub fn config(&self) -> (r: &Config)
        ensures
            r@ == self@.config,
    {
        &self.config
    }

    /// Deregisters this node: removes exactly its own entry from the
    /// registry, best-effort and without any failing path.  This is the
    /// clean-shutdown path of a node going out of scope; a node that never
    /// reaches it leaves its entry behind as a dead one.
    pub fn deregister(self, registry: &mut Registry)
        requires
            old(registry).wf(),
        ensures
            final(registry).wf(),
            final(registry)@.entries == entries_without(old(registry)@.entries, self@.id),
            final(registry)@.next_id == old(registry)@.next_id,
    {
        registry.deregister(self.id);
    }
}

/// Builds and registers a [`Node`].  Without an explicit name the node is
/// registered under the empty name; without an explicit configuration it is
/// registered under the global default configuration.
#[derive(Debug)]
pub struct NodeBuilder {
    name: Option<NodeName>,
    config: Option<Config>,
}

impl NodeBuilder {
    /// The name chosen so far, if any.
    pub closed spec fn name_spec(self) -> Option<NodeName> {
        self.name
    }

    /// The configuration chosen so far, if any.
    pub closed spec fn config_spec(self) -> Option<Config> {
        self.config
    }

    /// The view of the name the built node will carry.
    pub open spec fn effective_name(self) -> Seq<char> {
        if self.name_spec() is Some {
            self.name_spec()->0@
        } else {
            Seq::empty()
        }
    }

    /// The view of the configuration the built node will be created under.
    pub open spec fn effective_config(self) -> crate::config::ConfigView {
        if self.config_spec() is Some {
            self.config_spec()->0@
        } else {
            default_config_view()
        }
    }

    /// A builder with neither name nor configuration chosen.
    pub fn new() -> (b: NodeBuilder)
        ensures
            b.name_spec() is None,
            b.config_spec() is None,
    {
        NodeBuilder { name: None, config: None }
    }

    /// Chooses the name of the node.
    pub fn name(self, name: NodeName) -> (b: NodeBuilder)
        ensures
            b.name_spec() is Some && b.name_spec()->0@ == name@,
            b.config_spec() == self.config_spec(),
    {
        NodeBuilder { name: Some(name), config: self.config }
    }

    /// Chooses the configuration the node is created under.
    pub fn config(self, config: Config) -> (b: NodeBuilder)
        ensures
            b.config_spec() is Some && b.config_spec()->0@ == config@,
            b.name_spec() == self.name_spec(),
    {
        NodeBuilder { name: self.name, config: Some(config) }
    }

    /// Creates the node: draws a fresh unique id, writes the registry entry
    /// under the chosen (or global default) configuration, and returns the
    /// live handle.  Fails with `RegistrationFailed` exactly when the
    /// registry cannot write the entry — its id counter is spent — and
    /// leaves the registry unchanged then.
    pub fn create(self, registry: &mut Registry) -> (r: Result<Node, NodeCreationError>)
        requires
            old(registry).wf(),
        ensures
            final(registry).wf(),
            (r is Err) <==> old(registry)@.next_id == u128::MAX,
            r is Err ==> r->Err_0 == NodeCreationError::RegistrationFailed && final(registry)@
                == old(registry)@,
            r is Ok ==> r->Ok_0@ == (EntryView {
                name: self.effective_name(),
                id: old(registry)@.next_id,
                config: self.effective_config(),
            }),
            r is Ok ==> final(registry)@.entries == old(registry)@.entries.push(r->Ok_0@),
            r is Ok ==> final(registry)@.next_id == old(registry)@.next_id + 1,
    {
        let name = match self.name {
            Some(n) => n,
            None => NodeName::new(String::new()),
        };
        let config = match self.config {
            Some(c) => c,
            None => Config::default(),
        };
        match registry.register(&name, &config) {
            Ok(id) => Ok(Node { name, id, config }),
            Err(e) => Err(e),
        }
    }
}

} // verus!

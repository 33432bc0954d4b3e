//! The configuration value that scopes a node and its resources.
//!
//! A configuration names the registry root under which nodes register, a
//! namespace that separates resource names, and the default maximum slice
//! length of newly built publishers.  Two nodes created under configurations
//! with different views are entirely isolated from each other's registry.

use vstd::prelude::*;

verus! {

/// The mathematical content of a [`Config`]: its registry root path, its
/// namespace, and its default maximum slice length.
pub struct ConfigView {
    pub root: Seq<char>,
    pub namespace: Seq<char>,
    pub max_slice_len_default: int,
}

/// A configuration value: the scope under which nodes and their resources
/// live.  Configurations are equality-comparable and clonable; equality is
/// equality of the three components.
#[derive(Clone, Debug)]
pub struct Config {
    root: String,
    namespace: String,
    max_slice_len_default: usize,
}

impl View for Config {
    type V = ConfigView;

    closed spec fn view(&self) -> ConfigView {
        ConfigView {
            root: self.root@,
            namespace: self.namespace@,
            max_slice_len_default: self.max_slice_len_default as int,
        }
    }
}

/// The view of the global default configuration: root path `iceoryx2`,
/// namespace `iox2`, and a default maximum slice length of one element.
pub open spec fn default_config_view() -> ConfigView {
    ConfigView { root: "iceoryx2"@, namespace: "iox2"@, max_slice_len_default: 1 }
}

impl Config {
    /// Builds a configuration from its three components.
    pub fn new(root: String, namespace: String, max_slice_len_default: usize) -> (c: Config)
        ensures
            c@ == (ConfigView {
                root: root@,
                namespace: namespace@,
                max_slice_len_default: max_slice_len_default as int,
            }),
    {
        Config { root, namespace, max_slice_len_default }
    }

    /// The registry root path of this configuration.
    pub fn root(&self) -> (r: &String)
        ensures
            r@ == self@.root,
    {
        &self.root
    }

    /// The namespace of this configuration.
    pub fn namespace(&self) -> (r: &String)
        ensures
            r@ == self@.namespace,
    {
        &self.namespace
    }

    /// The maximum slice length a publisher built under this configuration
    /// uses when none is chosen explicitly.
    pub fn max_slice_len_default(&self) -> (r: usize)
        ensures
            r as int == self@.max_slice_len_default,
    {
        self.max_slice_len_default
    }

    /// A copy of this configuration with the same view: the snapshot stored
    /// in a registry entry.
    pub fn snapshot(&self) -> (r: Config)
        ensures
            r@ == self@,
    {
        Config {
            root: self.root.clone(),
            namespace: self.namespace.clone(),
            max_slice_len_default: self.max_slice_len_default,
        }
    }
}

impl Default for Config {
    /// The global default configuration.
    fn default() -> (c: Config)
        ensures
            c@ == default_config_view(),
    {
        Config {
            root: String::from_str("iceoryx2"),
            namespace: String::from_str("iox2"),
            max_slice_len_default: 1,
        }
    }
}

impl PartialEq for Config {
    /// Two configurations are equal when root, namespace and default maximum
    /// slice length agree.
    fn eq(&self, other: &Config) -> (r: bool) {
        self.root == other.root && self.namespace == other.namespace
            && self.max_slice_len_default == other.max_slice_len_default
    }
}

impl vstd::std_specs::cmp::PartialEqSpecImpl for Config {
    open spec fn obeys_eq_spec() -> bool {
        true
    }

    open spec fn eq_spec(&self, other: &Config) -> bool {
        self@ == other@
    }
}

} // verus!

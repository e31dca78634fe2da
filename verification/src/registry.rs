//! What is known of each instance: its user-data and its forwarded SSH port.

use vstd::hash_map::StringHashMap;
use vstd::prelude::*;

verus! {

/// The two attributes of the instances, each keyed by instance name.
///
/// A name may have user-data and no port yet, or the other way round: the two
/// maps are written one at a time. Nothing is ever removed.
pub struct Registry {
    user_data: StringHashMap<String>,
    ports: StringHashMap<u16>,
}

/// The mathematical content of a [`Registry`].
pub ghost struct RegistryView {
    pub user_data: Map<Seq<char>, Seq<char>>,
    pub ports: Map<Seq<char>, u16>,
}

/// The value under `key`, if there is one.
pub open spec fn lookup<V>(m: Map<Seq<char>, V>, key: Seq<char>) -> Option<V> {
    if m.contains_key(key) {
        Some(m[key])
    } else {
        None
    }
}

impl View for Registry {
    type V = RegistryView;

    closed spec fn view(&self) -> RegistryView {
        RegistryView {
            user_data: self.user_data@.map_values(|s: String| s@),
            ports: self.ports@,
        }
    }
}

impl Registry {
    /// A registry that knows no instance.
    pub fn new() -> (r: Registry)
        ensures
            r@.user_data == Map::<Seq<char>, Seq<char>>::empty(),
            r@.ports == Map::<Seq<char>, u16>::empty(),
    {
        let r = Registry { user_data: StringHashMap::new(), ports: StringHashMap::new() };
        assert(r@.user_data =~= Map::<Seq<char>, Seq<char>>::empty());
        r
    }

    /// Stores `user_data` under `name`, in place of what was there.
    pub fn put(&mut self, name: String, user_data: String)
        ensures
            final(self)@.user_data == old(self)@.user_data.insert(name@, user_data@),
            final(self)@.ports == old(self)@.ports,
    {
        self.user_data.insert(name, user_data);
        assert(self@.user_data =~= old(self)@.user_data.insert(name@, user_data@));
    }

    /// The user-data stored under `name`.
    pub fn get(&self, name: &str) -> (r: Option<&String>)
        ensures
            match r {
                Some(s) => lookup(self@.user_data, name@) == Some(s@),
                None => lookup(self@.user_data, name@) is None,
            },
    {
        self.user_data.get(name)
    }

    /// Stores `port` under `name`, in place of what was there.
    pub fn put_port(&mut self, name: String, port: u16)
        ensures
            final(self)@.ports == old(self)@.ports.insert(name@, port),
            final(self)@.user_data == old(self)@.user_data,
    {
        self.ports.insert(name, port);
    }

    /// The port stored under `name`.
    pub fn get_port(&self, name: &str) -> (r: Option<u16>)
        ensures
            r == lookup(self@.ports, name@),
    {
        match self.ports.get(name) {
            Some(port) => Some(*port),
            None => None,
        }
    }
}

} // verus!

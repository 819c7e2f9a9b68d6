//! The containers the bridge knows, by name.

use vstd::prelude::*;
use vstd::hash_map::StringHashMap;

use crate::container::{Container, ContainerInspect, ContainerStats};
use crate::events::{ContainerEventInfo, Event};
use crate::homeassistant::valid_container_name;
use crate::text::to_owned_string;

verus! {

/// The known containers, each under its name.
pub struct ContainerRegistry {
    containers: StringHashMap<Container>,
    names: Vec<String>,
}

impl ContainerRegistry {
    #[verifier::type_invariant]
    spec fn inv(self) -> bool {
        &&& forall|i: int, j: int|
            0 <= i < j < self.names@.len() ==> #[trigger] self.names@[i]@ != #[trigger] self.names@[j]@
        &&& forall|i: int| 0 <= i < self.names@.len() ==> self.containers@.contains_key(#[trigger] self.names@[i]@)
        &&& forall|k: Seq<char>| #[trigger] self.containers@.contains_key(k) ==> listed(self.names@, k)
        &&& forall|k: Seq<char>| #[trigger] self.containers@.contains_key(k) ==> entry_ok(k, self.containers@[k])
    }

    /// The known containers by name.
    pub closed spec fn view(self) -> Map<Seq<char>, Container> {
        self.containers@
    }

    pub fn new() -> (r: Self)
        ensures
            r@ == Map::<Seq<char>, Container>::empty(),
    {
        ContainerRegistry { containers: StringHashMap::new(), names: Vec::new() }
    }

    /// Every known container is stored under its own name, which can appear in topics.
    pub fn entries_ok(&self)
        ensures
            forall|k: Seq<char>| #[trigger] self@.contains_key(k) ==> entry_ok(k, self@[k]),
    {
        proof {
            use_type_invariant(self);
        }
    }

    /// Whether a container of that name is known.
    pub fn contains(&self, name: &str) -> (r: bool)
        ensures
            r == self@.contains_key(name@),
    {
        self.containers.contains_key(name)
    }

    /// The container of that name.
    pub fn get(&self, name: &str) -> (r: Option<&Container>)
        ensures
            match r {
                Some(c) => self@.contains_key(name@) && *c == self@[name@] && entry_ok(name@, *c),
                None => !self@.contains_key(name@),
            },
    {
        proof {
            use_type_invariant(self);
        }
        self.containers.get(name)
    }

    /// The names of all known containers, each once.
    pub fn names(&self) -> (r: Vec<String>)
        ensures
            forall|i: int, j: int| 0 <= i < j < r@.len() ==> #[trigger] r@[i]@ != #[trigger] r@[j]@,
            forall|k: Seq<char>| self@.contains_key(k) <==> exists|i: int| 0 <= i < r@.len() && #[trigger] r@[i]@ == k,
    {
        proof {
            use_type_invariant(self);
        }
        let n = self.names.len();
        let mut r: Vec<String> = Vec::new();
        let mut i: usize = 0;
        while i < n
            invariant
                n == self.names@.len(),
                i <= n,
                r@.len() == i,
                forall|k: int| 0 <= k < i ==> #[trigger] r@[k]@ == self.names@[k]@,
            decreases n - i,
        {
            r.push(self.names[i].clone());
            i = i + 1;
        }
        assert forall|k: Seq<char>| self@.contains_key(k) <==> exists|i: int| 0 <= i < r@.len() && #[trigger] r@[i]@ == k by {
            if self@.contains_key(k) {
                let i = choose|i: int| 0 <= i < self.names@.len() && self.names@[i]@ == k;
                assert(r@[i]@ == k);
            }
            if exists|i: int| 0 <= i < r@.len() && #[trigger] r@[i]@ == k {
                let i = choose|i: int| 0 <= i < r@.len() && #[trigger] r@[i]@ == k;
                assert(self.names@[i]@ == k);
            }
        }
        assert forall|i: int, j: int| 0 <= i < j < r@.len() implies #[trigger] r@[i]@ != #[trigger] r@[j]@ by {
            assert(self.names@[i]@ == r@[i]@);
            assert(self.names@[j]@ == r@[j]@);
        }
        r
    }

    /// Position of a name in the list of names.
    fn index_of(names: &Vec<String>, name: &str) -> (r: Option<usize>)
        ensures
            match r {
                Some(i) => i < names@.len() && names@[i as int]@ == name@,
                None => forall|i: int| 0 <= i < names@.len() ==> #[trigger] names@[i]@ != name@,
            },
    {
        let n = names.len();
        let mut i: usize = 0;
        while i < n
            invariant
                n == names@.len(),
                i <= n,
                forall|k: int| 0 <= k < i ==> #[trigger] names@[k]@ != name@,
            decreases n - i,
        {
            if crate::text::str_eq(names[i].as_str(), name) {
                return Some(i);
            }
            i = i + 1;
        }
        None
    }

    /// Adds a container under its name, replacing any container of the same name, and
    /// returns the event that announces it.
    pub fn add_container(&mut self, container: Container) -> (r: Event)
        requires
            valid_container_name(container.name@),
        ensures
            final(self)@ == old(self)@.insert(container.name@, container),
            r == Event::ContainerCreated(ContainerEventInfo::of(container)),
    {
        let mut tmp = ContainerRegistry::new();
        std::mem::swap(&mut tmp, self);
        proof {
            use_type_invariant(&tmp);
        }
        let ContainerRegistry { mut containers, mut names } = tmp;
        let ghost old_names = names@;
        let ghost old_map = containers@;
        let ghost cname = container.name@;
        let info = ContainerEventInfo::from(&container);
        let name = container.name.clone();
        let key = container.name.clone();
        if !containers.contains_key(name.as_str()) {
            names.push(name);
            proof {
                assert forall|i: int, j: int| 0 <= i < j < names@.len() implies #[trigger] names@[i]@ != #[trigger] names@[j]@ by {
                    if j == names@.len() - 1 {
                        assert(old_map.contains_key(old_names[i]@));
                    } else {
                        assert(names@[i] == old_names[i] && names@[j] == old_names[j]);
                    }
                }
            }
        }
        containers.insert(key, container);
        let ghost new_map = containers@;
        proof {
            assert forall|i: int| 0 <= i < names@.len() implies new_map.contains_key(#[trigger] names@[i]@) by {
                if i < old_names.len() {
                    assert(names@[i] == old_names[i]);
                    assert(old_map.contains_key(old_names[i]@));
                }
            }
            assert forall|k: Seq<char>| #[trigger] new_map.contains_key(k) implies listed(names@, k) by {
                if k != cname {
                    assert(old_map.contains_key(k));
                    let i = choose|i: int| 0 <= i < old_names.len() && old_names[i]@ == k;
                    assert(names@[i] == old_names[i]);
                } else if old_map.contains_key(k) {
                    let i = choose|i: int| 0 <= i < old_names.len() && old_names[i]@ == k;
                    assert(names@[i] == old_names[i]);
                } else {
                    assert(names@[names@.len() - 1]@ == k);
                }
            }
            assert forall|k: Seq<char>| #[trigger] new_map.contains_key(k) implies entry_ok(k, new_map[k]) by {
                if k != cname {
                    assert(old_map.contains_key(k));
                }
            }
        }
        *self = ContainerRegistry { containers, names };
        Event::ContainerCreated(info)
    }

    /// Removes the container of that name, if known, and returns it with the events
    /// that withdraw it: its empty retained topic and the removal notice.
    pub fn remove_container(&mut self, name: &str) -> (r: Option<(Container, Vec<Event>)>)
        ensures
            final(self)@ == old(self)@.remove(name@),
            match r {
                Some((c, events)) => {
                    &&& old(self)@.contains_key(name@)
                    &&& c == old(self)@[name@]
                    &&& events@.len() == 2
                    &&& events@[0] matches Event::PublishMqttMessage(msg) && msg.is(c.topic_of(), Seq::empty(), true, 1)
                    &&& events@[1] == Event::ContainerRemoved(ContainerEventInfo::of(c))
                },
                None => !old(self)@.contains_key(name@),
            },
    {
        proof {
            use_type_invariant(&*self);
        }
        let found = match self.containers.get(name) {
            Some(c) => Some(c.duplicate()),
            None => None,
        };
        match found {
            None => None,
            Some(container) => {
                let mut tmp = ContainerRegistry::new();
                std::mem::swap(&mut tmp, self);
                proof {
                    use_type_invariant(&tmp);
                }
                let ContainerRegistry { mut containers, mut names } = tmp;
                let ghost old_names = names@;
                let ghost old_map = containers@;
                assert(entry_ok(name@, container));
                let idx = Self::index_of(&names, name);
                proof {
                    if idx is None {
                        let i = choose|i: int| 0 <= i < old_names.len() && old_names[i]@ == name@;
                        assert(names@[i]@ != name@);
                    }
                }
                let idx = idx.unwrap();
                names.remove(idx);
                containers.remove(name);
                let ghost new_map = containers@;
                proof {
                    assert forall|i: int, j: int| 0 <= i < j < names@.len() implies #[trigger] names@[i]@ != #[trigger] names@[j]@ by {
                        let oi = if i < idx { i } else { i + 1 };
                        let oj = if j < idx { j } else { j + 1 };
                        assert(names@[i] == old_names[oi]);
                        assert(names@[j] == old_names[oj]);
                    }
                    assert forall|i: int| 0 <= i < names@.len() implies new_map.contains_key(#[trigger] names@[i]@) by {
                        let oi = if i < idx { i } else { i + 1 };
                        assert(names@[i] == old_names[oi]);
                        assert(old_map.contains_key(old_names[oi]@));
                        assert(old_names[oi]@ != old_names[idx as int]@);
                    }
                    assert forall|k: Seq<char>| #[trigger] new_map.contains_key(k) implies listed(names@, k) by {
                        assert(old_map.contains_key(k));
                        let oi = choose|i: int| 0 <= i < old_names.len() && old_names[i]@ == k;
                        assert(oi != idx);
                        let i = if oi < idx { oi } else { oi - 1 };
                        assert(names@[i] == old_names[oi]);
                    }
                    assert forall|k: Seq<char>| #[trigger] new_map.contains_key(k) implies entry_ok(k, new_map[k]) by {
                        assert(old_map.contains_key(k));
                    }
                }
                *self = ContainerRegistry { containers, names };
                let mut events: Vec<Event> = Vec::new();
                events.push(Event::PublishMqttMessage(container.unpublish()));
                events.push(Event::ContainerRemoved(ContainerEventInfo::from(&container)));
                Some((container, events))
            },
        }
    }

    /// Renames a known container: it is removed under its old name and added under the
    /// new one. Returns the events of both steps, or nothing when the old name is
    /// unknown.
    pub fn rename_container(&mut self, old_name: &str, new_name: String) -> (r: Vec<Event>)
        requires
            valid_container_name(new_name@),
        ensures
            old(self)@.contains_key(old_name@) ==> {
                let c = old(self)@[old_name@];
                &&& final(self)@ == old(self)@.remove(old_name@).insert(new_name@, Container { name: new_name, ..c })
                &&& r@.len() == 3
                &&& r@[0] matches Event::PublishMqttMessage(msg) && msg.is(c.topic_of(), Seq::empty(), true, 1)
                &&& r@[1] == Event::ContainerRemoved(ContainerEventInfo::of(c))
                &&& r@[2] == Event::ContainerCreated(ContainerEventInfo::of(Container { name: new_name, ..c }))
            },
            !old(self)@.contains_key(old_name@) ==> final(self)@ == old(self)@ && r@.len() == 0,
    {
        match self.remove_container(old_name) {
            Some((mut container, mut events)) => {
                container.rename(new_name);
                let created = self.add_container(container);
                events.push(created);
                events
            },
            None => {
                assert(old(self)@.remove(old_name@) =~= old(self)@);
                Vec::new()
            },
        }
    }

    /// Takes over new stats and inspect responses into the container named in the
    /// stats, if known. Returns the updated container.
    pub fn update_container(&mut self, stats: &ContainerStats, inspect: &ContainerInspect) -> (r: Option<
        Container,
    >)
        ensures
            old(self)@.contains_key(stats.name@) ==> {
                let c = old(self)@[stats.name@];
                &&& r is Some
                &&& final(self)@ == old(self)@.insert(stats.name@, r->0)
                &&& c.matches(*stats, *inspect) ==> r->0.refreshed_from(c, *stats, *inspect)
                &&& !c.matches(*stats, *inspect) ==> r->0 == c
                &&& entry_ok(stats.name@, r->0)
            },
            !old(self)@.contains_key(stats.name@) ==> r is None && final(self)@ == old(self)@,
    {
        proof {
            use_type_invariant(&*self);
        }
        let found = match self.containers.get(stats.name.as_str()) {
            Some(c) => Some(c.duplicate()),
            None => None,
        };
        match found {
            None => None,
            Some(mut container) => {
                container.update(stats, inspect);
                let copy = container.duplicate();
                let _ = self.add_container(container);
                Some(copy)
            },
        }
    }

    /// The announcement of every known container, as sent when the bridge starts.
    pub fn creation_events(&self) -> (r: Vec<Event>)
        ensures
            forall|i: int| 0 <= i < r@.len() ==> announces_known(#[trigger] r@[i], self@),
            forall|k: Seq<char>| #[trigger] self@.contains_key(k) ==> exists|i: int|
                0 <= i < r@.len() && announced_name(#[trigger] r@[i]) == k,
            forall|i: int, j: int| 0 <= i < j < r@.len() ==> announced_name(#[trigger] r@[i]) != announced_name(#[trigger] r@[j]),
    {
        proof {
            use_type_invariant(self);
        }
        let n = self.names.len();
        let mut r: Vec<Event> = Vec::new();
        let mut i: usize = 0;
        while i < n
            invariant
                n == self.names@.len(),
                i <= n,
                r@.len() == i,
                forall|k: int| 0 <= k < self.names@.len() ==> self.containers@.contains_key(#[trigger] self.names@[k]@),
                forall|k: Seq<char>| #[trigger] self.containers@.contains_key(k) ==> entry_ok(k, self.containers@[k]),
                forall|k: int| 0 <= k < i ==> announces_known(#[trigger] r@[k], self.containers@)
                    && announced_name(r@[k]) == self.names@[k]@,
            decreases n - i,
        {
            let c = self.containers.get(self.names[i].as_str()).unwrap();
            r.push(Event::ContainerCreated(ContainerEventInfo::from(c)));
            i = i + 1;
        }
        proof {
            assert forall|k: Seq<char>| #[trigger] self@.contains_key(k) implies exists|i: int|
                0 <= i < r@.len() && announced_name(#[trigger] r@[i]) == k by {
                assert(listed(self.names@, k));
                let i = choose|i: int| 0 <= i < self.names@.len() && self.names@[i]@ == k;
                assert(announced_name(r@[i]) == k);
            }
        }
        r
    }
}

/// The name of the container an event announces.
pub open spec fn announced_name(e: Event) -> Seq<char> {
    match e {
        Event::ContainerCreated(info) => info.name@,
        _ => Seq::empty(),
    }
}

/// The event announces a known container with its event information.
pub open spec fn announces_known(e: Event, m: Map<Seq<char>, Container>) -> bool {
    match e {
        Event::ContainerCreated(info) => m.contains_key(info.name@) && info == ContainerEventInfo::of(m[info.name@]),
        _ => false,
    }
}

/// The name is one of the listed names.
pub open spec fn listed(names: Seq<String>, k: Seq<char>) -> bool {
    exists|i: int| 0 <= i < names.len() && names[i]@ == k
}

/// A registry entry: the container carries the name it is stored under, and that name
/// can appear in topics.
pub open spec fn entry_ok(name: Seq<char>, c: Container) -> bool {
    &&& c.name@ == name
    &&& valid_container_name(name)
}

} // verus!

//! The sync config file: named profiles of what to sync.

use crate::api::Distro;
use crate::error::Error;
use vstd::prelude::*;

verus! {

/// What to sync, and from where, with patterns that are not compiled yet.
#[derive(Debug, PartialEq, Eq)]
pub struct SyncProfile {
    pub distro: Distro,
    pub suite: String,
    pub architecture: String,
    pub source: String,
    pub maintainers: Vec<String>,
    pub pkgs: Vec<String>,
    pub excludes: Vec<String>,
}

/// Sync profiles by their names. No name occurs twice.
#[derive(Debug)]
pub struct SyncConfigFile {
    profiles: Vec<(String, SyncProfile)>,
}

/// The entry at `index` has the name `name`.
spec fn named(profiles: Seq<(String, SyncProfile)>, name: Seq<char>, index: int) -> bool {
    0 <= index < profiles.len() && profiles[index].0@ == name
}

/// No name occurs twice.
spec fn names_distinct(profiles: Seq<(String, SyncProfile)>) -> bool {
    forall|i: int, j: int|
        0 <= i < j < profiles.len() ==> (#[trigger] profiles[i]).0@ != (#[trigger] profiles[j]).0@
}

/// The profiles by their names.
spec fn by_name(profiles: Seq<(String, SyncProfile)>) -> Map<Seq<char>, SyncProfile> {
    Map::new(
        |name: Seq<char>| exists|i: int| named(profiles, name, i),
        |name: Seq<char>| profiles[choose|i: int| named(profiles, name, i)].1,
    )
}

/// An entry is found under its name.
proof fn lemma_by_name(profiles: Seq<(String, SyncProfile)>, index: int)
    requires
        names_distinct(profiles),
        0 <= index < profiles.len(),
    ensures
        by_name(profiles).contains_key(profiles[index].0@),
        by_name(profiles)[profiles[index].0@] == profiles[index].1,
{
    let name = profiles[index].0@;
    assert(named(profiles, name, index));
    let found = choose|i: int| named(profiles, name, i);
    assert(named(profiles, name, found));
    if found != index {
        let (first, second) = if found < index {
            (found, index)
        } else {
            (index, found)
        };
        assert(profiles[first].0@ != profiles[second].0@);
    }
}

/// Entries that only differ in one new entry, or in one entry of the same name, only differ in
/// the profile under that name.
proof fn lemma_entry_stored(
    profiles: Seq<(String, SyncProfile)>,
    after: Seq<(String, SyncProfile)>,
    index: int,
)
    requires
        names_distinct(profiles),
        names_distinct(after),
        0 <= index < after.len(),
        profiles.len() <= after.len(),
        forall|i: int|
            0 <= i < after.len() && i != index ==> i < profiles.len() && #[trigger] after[i]
                == profiles[i],
        index < profiles.len() ==> profiles[index].0@ == after[index].0@,
    ensures
        by_name(after) == by_name(profiles).insert(after[index].0@, after[index].1),
{
    let entry = after[index];
    lemma_by_name(after, index);
    let expected = by_name(profiles).insert(entry.0@, entry.1);
    assert forall|name: Seq<char>|
        by_name(after).dom().contains(name) == #[trigger] expected.dom().contains(name) && (
        expected.dom().contains(name) ==> by_name(after)[name] == expected[name]) by {
        if name != entry.0@ {
            if by_name(profiles).contains_key(name) {
                let i = choose|i: int| named(profiles, name, i);
                lemma_by_name(profiles, i);
                lemma_by_name(after, i);
            }
            if by_name(after).contains_key(name) {
                let i = choose|i: int| named(after, name, i);
                lemma_by_name(profiles, i);
            }
        }
    }
    assert(by_name(after).dom() =~= expected.dom());
    assert(by_name(after) =~= expected);
}

/// Replacing an entry by one of the same name replaces the profile under that name.
proof fn lemma_replaced(
    profiles: Seq<(String, SyncProfile)>,
    index: int,
    entry: (String, SyncProfile),
)
    requires
        names_distinct(profiles),
        named(profiles, entry.0@, index),
    ensures
        names_distinct(profiles.update(index, entry)),
        by_name(profiles.update(index, entry)) == by_name(profiles).insert(entry.0@, entry.1),
{
    let after = profiles.update(index, entry);
    assert forall|i: int, j: int| 0 <= i < j < after.len() implies (#[trigger] after[i]).0@ != (
    #[trigger] after[j]).0@ by {
        assert(profiles[i].0@ != profiles[j].0@);
    }
    lemma_entry_stored(profiles, after, index);
}

/// Adding an entry of a new name adds the profile under that name.
proof fn lemma_added(profiles: Seq<(String, SyncProfile)>, entry: (String, SyncProfile))
    requires
        names_distinct(profiles),
        forall|i: int| !named(profiles, entry.0@, i),
    ensures
        names_distinct(profiles.push(entry)),
        by_name(profiles.push(entry)) == by_name(profiles).insert(entry.0@, entry.1),
{
    let after = profiles.push(entry);
    assert forall|i: int, j: int| 0 <= i < j < after.len() implies (#[trigger] after[i]).0@ != (
    #[trigger] after[j]).0@ by {
        assert(!named(profiles, entry.0@, i));
    }
    lemma_entry_stored(profiles, after, profiles.len() as int);
}

impl View for SyncConfigFile {
    type V = Map<Seq<char>, SyncProfile>;

    /// The profiles by their names.
    closed spec fn view(&self) -> Map<Seq<char>, SyncProfile> {
        by_name(self.profiles@)
    }
}

impl SyncConfigFile {
    #[verifier::type_invariant]
    closed spec fn well_formed(self) -> bool {
        names_distinct(self.profiles@)
    }

    /// A sync config without any profile.
    pub fn new() -> (config: SyncConfigFile)
        ensures
            config@ == Map::<Seq<char>, SyncProfile>::empty(),
    {
        let config = SyncConfigFile { profiles: Vec::new() };
        assert(config@ =~= Map::<Seq<char>, SyncProfile>::empty());
        config
    }

    /// This sync config with `profile` under `name`, in place of what had that name.
    pub fn insert(self, name: String, profile: SyncProfile) -> (config: SyncConfigFile)
        ensures
            config@ == self@.insert(name@, profile),
    {
        proof {
            use_type_invariant(&self);
        }
        let mut profiles = self.profiles;
        match position(&profiles, &name) {
            Some(index) => {
                proof {
                    lemma_replaced(profiles@, index as int, (name, profile));
                }
                profiles.set(index, (name, profile));
            },
            None => {
                proof {
                    lemma_added(profiles@, (name, profile));
                }
                profiles.push((name, profile));
            },
        }
        SyncConfigFile { profiles }
    }

    /// The profile called `name`.
    pub fn take_profile(self, name: String) -> (profile: Result<SyncProfile, Error>)
        ensures
            match profile {
                Ok(profile) => self@.contains_key(name@) && profile == self@[name@],
                Err(error) => !self@.contains_key(name@) && error == Error::ProfileNotFound(name),
            },
    {
        proof {
            use_type_invariant(&self);
        }
        let mut profiles = self.profiles;
        match position(&profiles, &name) {
            Some(index) => {
                proof {
                    lemma_by_name(profiles@, index as int);
                }
                let (_, profile) = profiles.swap_remove(index);
                Ok(profile)
            },
            None => Err(Error::ProfileNotFound(name)),
        }
    }
}

/// Where the profile called `name` stands.
fn position(profiles: &Vec<(String, SyncProfile)>, name: &String) -> (place: Option<usize>)
    ensures
        match place {
            Some(index) => named(profiles@, name@, index as int),
            None => forall|i: int| !named(profiles@, name@, i),
        },
{
    let mut next: usize = 0;
    while next < profiles.len()
        invariant
            next <= profiles@.len(),
            forall|i: int| i < next ==> !named(profiles@, name@, i),
        decreases profiles@.len() - next,
    {
        if profiles[next].0 == *name {
            return Some(next);
        }
        next = next + 1;
    }
    None
}

} // verus!

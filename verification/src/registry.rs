//! The players that are known, each under its bus name.

use vstd::prelude::*;

use crate::capabilities::{applied, AttributeMap, PlayerCapabilities};
use crate::error::RegistryError;
use crate::event::{reports_view, PropertiesChanged, Report};
use crate::player::Player;
use crate::stream::SignalStream;
use crate::string_map::{position, StringMap};

verus! {

/// The known players. No name is held twice, and the names keep the order
/// in which they were first found.
#[derive(Debug)]
pub struct Registry<H> {
    records: StringMap<Player<H>>,
}

impl<H> View for Registry<H> {
    type V = Map<Seq<char>, Player<H>>;

    closed spec fn view(&self) -> Map<Seq<char>, Player<H>> {
        self.records@
    }
}

impl<H> Registry<H> {
    /// The names of the players, in the order in which they were first found.
    pub closed spec fn names(&self) -> Seq<Seq<char>> {
        self.records.keys()
    }

    /// The players, each at the index of its name.
    pub closed spec fn players(&self) -> Seq<Player<H>> {
        self.records.values()
    }

    /// Every name stands for one player: the names are as many as the
    /// players, none occurs twice, and the registry as a map holds each
    /// player under its name.
    pub open spec fn wf(&self) -> bool {
        &&& self.names().len() == self.players().len()
        &&& self.names().no_duplicates()
        &&& self@.dom() == self.names().to_set()
        &&& forall|i: int|
            0 <= i < self.names().len() ==> self@[#[trigger] self.names()[i]] == self.players()[i]
    }

    proof fn lemma_wf(&self)
        requires
            self.records.wf(),
        ensures
            self.wf(),
    {
        let names = self.names();
        assert(self@.dom() =~= names.to_set());
        assert forall|i: int| 0 <= i < names.len() implies self@[#[trigger] names[i]]
            == self.players()[i] by {
            assert(names.contains(names[i]));
            assert(position(names, names[i]) == i);
        }
    }

    /// A registry without players.
    pub fn new() -> (registry: Self)
        ensures
            registry.wf(),
            registry.names() == Seq::<Seq<char>>::empty(),
            registry@ == Map::<Seq<char>, Player<H>>::empty(),
    {
        let registry = Registry { records: StringMap::new() };
        proof {
            registry.lemma_wf();
        }
        registry
    }

    /// The number of players.
    pub fn len(&self) -> (n: usize)
        ensures
            self.wf(),
            n == self.names().len(),
    {
        let n = self.records.len();
        proof {
            self.lemma_wf();
        }
        n
    }

    /// Takes a player in under `name`. A record that the name already had
    /// is replaced, and dropped with its subscription.
    pub fn discover(&mut self, name: &str, snapshot: PlayerCapabilities, handle: H)
        ensures
            final(self).wf(),
            final(self)@.contains_key(name@),
            final(self)@[name@].capabilities == snapshot,
            final(self)@[name@].stream.handle == handle,
            final(self)@[name@].stream.waiting() == Seq::<PropertiesChanged>::empty(),
            final(self)@ == old(self)@.insert(name@, final(self)@[name@]),
            final(self)@.dom() == old(self)@.dom().insert(name@),
            old(self)@.contains_key(name@) ==> {
                &&& final(self).names() == old(self).names()
                &&& final(self).players() == old(self).players().update(
                    position(old(self).names(), name@),
                    final(self)@[name@],
                )
            },
            !old(self)@.contains_key(name@) ==> {
                &&& final(self).names() == old(self).names().push(name@)
                &&& final(self).players() == old(self).players().push(final(self)@[name@])
            },
    {
        let player = Player { capabilities: snapshot, stream: SignalStream::new(handle) };
        self.records.insert(name.to_owned(), player);
        proof {
            self.lemma_wf();
        }
    }

    /// Drops the player under `name` with its subscription, and says whether
    /// there was one.
    pub fn remove(&mut self, name: &str) -> (removed: bool)
        ensures
            final(self).wf(),
            removed == old(self)@.contains_key(name@),
            final(self)@ == old(self)@.remove(name@),
            final(self)@.dom() == old(self)@.dom().remove(name@),
            removed ==> {
                &&& final(self).names() == old(self).names().remove(
                    position(old(self).names(), name@),
                )
                &&& final(self).players() == old(self).players().remove(
                    position(old(self).names(), name@),
                )
            },
            !removed ==> {
                &&& final(self).names() == old(self).names()
                &&& final(self).players() == old(self).players()
            },
    {
        let removed = self.records.remove(name).is_some();
        proof {
            self.lemma_wf();
        }
        removed
    }

    /// What is known of the player under `name`.
    pub fn get(&self, name: &str) -> (r: Option<&PlayerCapabilities>)
        ensures
            match r {
                Some(c) => self@.contains_key(name@) && *c == self@[name@].capabilities,
                None => !self@.contains_key(name@),
            },
    {
        match self.records.get(name) {
            Some(player) => Some(&player.capabilities),
            None => None,
        }
    }

    /// The player under `name`.
    pub fn player(&self, name: &str) -> (r: Option<&Player<H>>)
        ensures
            match r {
                Some(p) => self@.contains_key(name@) && *p == self@[name@],
                None => !self@.contains_key(name@),
            },
    {
        self.records.get(name)
    }

    /// The index of the player under `name`.
    pub fn index_of(&self, name: &str) -> (r: Option<usize>)
        ensures
            self.wf(),
            match r {
                Some(i) => {
                    &&& self@.contains_key(name@)
                    &&& i < self.names().len()
                    &&& self.names()[i as int] == name@
                    &&& position(self.names(), name@) == i
                },
                None => !self@.contains_key(name@),
            },
    {
        let r = self.records.index_of(name);
        proof {
            self.lemma_wf();
        }
        r
    }

    /// Whether a player is known under `name`.
    pub fn contains(&self, name: &str) -> (r: bool)
        ensures
            r == self@.contains_key(name@),
    {
        self.records.contains_key(name)
    }

    /// The name at index `i`.
    pub fn name_at(&self, i: usize) -> (name: &str)
        requires
            i < self.names().len(),
        ensures
            name@ == self.names()[i as int],
    {
        self.records.key_at(i)
    }

    /// The player at index `i`.
    pub fn player_at(&self, i: usize) -> (player: &Player<H>)
        requires
            i < self.names().len(),
        ensures
            self.wf(),
            *player == self.players()[i as int],
    {
        let _ = self.len();
        self.records.value_at(i)
    }

    /// The player at index `i`, to change in place. Its name stays.
    pub fn player_at_mut(&mut self, i: usize) -> (player: &mut Player<H>)
        requires
            i < old(self).names().len(),
        ensures
            old(self).wf(),
            *player == old(self).players()[i as int],
            final(self).names() == old(self).names(),
            final(self).players() == old(self).players().update(i as int, *final(player)),
    {
        let _ = self.len();
        self.records.value_at_mut(i)
    }

    /// Takes the changes that the player under `name` has announced over
    /// into its record, and hands back what became of each. Where no player
    /// is known under the name, nothing happens.
    pub fn apply_update(&mut self, name: &str, changed: &AttributeMap) -> (r: Result<
        Vec<Report>,
        RegistryError,
    >)
        ensures
            final(self).wf(),
            final(self).names() == old(self).names(),
            match r {
                Ok(reports) => {
                    let i = position(old(self).names(), name@);
                    let before = old(self).players()[i];
                    let after = final(self).players()[i];
                    &&& old(self)@.contains_key(name@)
                    &&& after.capabilities@ == applied(before.capabilities@, changed@).capabilities
                    &&& after.stream == before.stream
                    &&& final(self).players() == old(self).players().update(i, after)
                    &&& reports_view(reports@) == applied(before.capabilities@, changed@).reports
                },
                Err(e) => {
                    &&& e == RegistryError::NotFound
                    &&& !old(self)@.contains_key(name@)
                    &&& final(self).players() == old(self).players()
                },
            },
    {
        match self.records.index_of(name) {
            Some(i) => {
                let player = self.records.value_at_mut(i);
                let reports = player.capabilities.apply(changed);
                proof {
                    self.lemma_wf();
                }
                Ok(reports)
            },
            None => {
                proof {
                    self.lemma_wf();
                }
                Err(RegistryError::NotFound)
            },
        }
    }

    /// Every player's name with what is known of it, in the order in which
    /// the names were first found.
    pub fn list(&self) -> (all: Vec<(&str, &PlayerCapabilities)>)
        ensures
            all@.len() == self.names().len(),
            forall|i: int|
                0 <= i < all@.len() ==> (#[trigger] all@[i]).0@ == self.names()[i] && *all@[i].1
                    == self.players()[i].capabilities,
    {
        let mut all: Vec<(&str, &PlayerCapabilities)> = Vec::new();
        let n = self.records.len();
        let mut i: usize = 0;
        while i < n
            invariant
                i <= n,
                n == self.names().len(),
                n == self.players().len(),
                all@.len() == i,
                forall|j: int|
                    0 <= j < i ==> (#[trigger] all@[j]).0@ == self.names()[j] && *all@[j].1
                        == self.players()[j].capabilities,
            decreases n - i,
        {
            all.push((self.records.key_at(i), &self.records.value_at(i).capabilities));
            i += 1;
        }
        all
    }
}

/// One call on a registry, by the name that it is made with.
pub enum RegistryCall {
    Discover(Seq<char>),
    Remove(Seq<char>),
}

/// The names that a registry holds after a run of calls on a new one. Each
/// call does to the names what [`Registry::discover`] and
/// [`Registry::remove`] say of themselves.
pub open spec fn names_after(calls: Seq<RegistryCall>) -> Set<Seq<char>>
    decreases calls.len(),
{
    if calls.len() == 0 {
        Set::empty()
    } else {
        match calls.last() {
            RegistryCall::Discover(name) => names_after(calls.drop_last()).insert(name),
            RegistryCall::Remove(name) => names_after(calls.drop_last()).remove(name),
        }
    }
}

/// Whether `name` was found in the run of calls and not removed since.
pub open spec fn found_and_kept(calls: Seq<RegistryCall>, name: Seq<char>) -> bool {
    exists|i: int|
        0 <= i < calls.len() && calls[i] == RegistryCall::Discover(name) && forall|j: int|
            i < j < calls.len() ==> calls[j] != RegistryCall::Remove(name)
}

/// After any run of calls a registry holds exactly the names that were
/// found and not removed since.
pub proof fn lemma_holds_what_was_found_and_kept(calls: Seq<RegistryCall>, name: Seq<char>)
    ensures
        names_after(calls).contains(name) <==> found_and_kept(calls, name),
    decreases calls.len(),
{
    if calls.len() > 0 {
        let earlier = calls.drop_last();
        let last = calls.len() - 1;
        lemma_holds_what_was_found_and_kept(earlier, name);
        if found_and_kept(calls, name) {
            let i = choose|i: int|
                0 <= i < calls.len() && calls[i] == RegistryCall::Discover(name) && forall|j: int|
                    i < j < calls.len() ==> calls[j] != RegistryCall::Remove(name);
            if i < last {
                assert(earlier[i] == calls[i]);
                assert forall|j: int| i < j < earlier.len() implies earlier[j]
                    != RegistryCall::Remove(name) by {
                    assert(earlier[j] == calls[j]);
                }
                assert(found_and_kept(earlier, name));
                assert(calls[last] != RegistryCall::Remove(name));
            }
        }
        if names_after(calls).contains(name) {
            if calls[last] == RegistryCall::Discover(name) {
                assert(found_and_kept(calls, name));
            } else {
                assert(names_after(earlier).contains(name));
                let i = choose|i: int|
                    0 <= i < earlier.len() && earlier[i] == RegistryCall::Discover(name)
                        && forall|j: int|
                        i < j < earlier.len() ==> earlier[j] != RegistryCall::Remove(name);
                assert(calls[i] == earlier[i]);
                assert forall|j: int| i < j < calls.len() implies calls[j]
                    != RegistryCall::Remove(name) by {
                    if j < last {
                        assert(earlier[j] == calls[j]);
                    }
                }
                assert(found_and_kept(calls, name));
            }
        }
    }
}

/// To remove a name a second time does nothing: after the first removal the
/// name is not held, so the second says that nothing was removed and leaves
/// the registry as it is.
pub proof fn lemma_second_removal_does_nothing<H>(
    players: Map<Seq<char>, Player<H>>,
    name: Seq<char>,
)
    ensures
        !players.remove(name).contains_key(name),
        players.remove(name).remove(name) == players.remove(name),
{
    assert(players.remove(name).remove(name) =~= players.remove(name));
}

} // verus!

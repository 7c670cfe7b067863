//! Keeping the registry in step with what the bus announces.
//!
//! The caller owns the connection. It hands the announcements that have
//! arrived to the client, asks the client for the next step, and does what
//! the step asks for.

use std::collections::VecDeque;
use vstd::prelude::*;

use crate::bus::{is_player_name, names_player};
use crate::capabilities::{
    decode_capabilities, is_required, lemma_missing_key_is_reported, AttributeMap,
    PlayerCapabilities,
};
use crate::error::{DecodeError, DecodeErrorView, RegistryError};
use crate::event::{
    report_view, reports_view, MprisEvent, MprisEventView, NameOwnerChanged, OwnerChange,
    OwnerChangeView, PlayerUpdated, PropertiesChanged, Report, ReportView,
};
use crate::field::Attributes;
use crate::player::{drained, Player, PlayerView};
use crate::registry::Registry;
use crate::stream::SignalStream;
use crate::string_map::{lemma_push_inserts, lemma_remove_removes, position, texts};

verus! {

/// What the client has for its caller after one step.
#[derive(Debug, PartialEq, Eq)]
pub enum Step {
    /// Nothing has arrived that the caller needs to hear of.
    Idle,
    /// A player has appeared under the name. The caller is to fetch its
    /// attributes and subscribe to its changes, and to hand both to
    /// [`MprisClient::add`].
    Discover(String),
    /// An event.
    Event(MprisEvent),
    /// The named player announced a change that was turned down. The field
    /// that the error names is as it was.
    Rejected(String, DecodeError),
}

/// A [`Step`] with its strings as sequences of characters.
pub enum StepView {
    Idle,
    Discover(Seq<char>),
    Event(MprisEventView),
    Rejected(Seq<char>, DecodeErrorView),
}

impl View for Step {
    type V = StepView;

    open spec fn view(&self) -> StepView {
        match self {
            Step::Idle => StepView::Idle,
            Step::Discover(name) => StepView::Discover(name@),
            Step::Event(event) => StepView::Event(event@),
            Step::Rejected(name, e) => StepView::Rejected(name@, e@),
        }
    }
}

impl Clone for Step {
    fn clone(&self) -> (copy: Step)
        ensures
            copy@ == self@,
    {
        match self {
            Step::Idle => Step::Idle,
            Step::Discover(name) => Step::Discover(name.clone()),
            Step::Event(event) => Step::Event(event.clone()),
            Step::Rejected(name, e) => Step::Rejected(name.clone(), e.clone()),
        }
    }
}

/// The players, the announcements that wait, and the steps that are decided
/// and not yet handed out.
#[derive(Debug)]
pub struct MprisClient<H> {
    pub players: Registry<H>,
    pub owner_changed_signal: SignalStream<H, OwnerChange>,
    pub pending: VecDeque<Step>,
}

/// A [`MprisClient`] as contracts see it.
#[verifier::ext_equal]
pub struct ClientView<H> {
    /// The names of the players, in the order in which they were first found.
    pub names: Seq<Seq<char>>,
    /// The players, each at the index of its name.
    pub players: Seq<PlayerView<H>>,
    /// The handle of the subscription to changes of ownership.
    pub owner_handle: H,
    /// The changes of ownership that wait, oldest first.
    pub owner_changes: Seq<OwnerChangeView>,
    /// The steps that are decided and not yet handed out, oldest first.
    pub pending: Seq<StepView>,
}

/// The models of a list of players.
pub open spec fn player_views<H>(players: Seq<Player<H>>) -> Seq<PlayerView<H>> {
    Seq::new(players.len(), |i: int| players[i]@)
}

/// The models of a list of changes of ownership.
pub open spec fn change_views(changes: Seq<OwnerChange>) -> Seq<OwnerChangeView> {
    Seq::new(changes.len(), |i: int| changes[i]@)
}

/// The models of a list of steps.
pub open spec fn step_views(steps: Seq<Step>) -> Seq<StepView> {
    Seq::new(steps.len(), |i: int| steps[i]@)
}

impl<H> View for MprisClient<H> {
    type V = ClientView<H>;

    open spec fn view(&self) -> ClientView<H> {
        ClientView {
            names: self.players.names(),
            players: player_views(self.players.players()),
            owner_handle: self.owner_changed_signal.handle,
            owner_changes: change_views(self.owner_changed_signal.waiting()),
            pending: step_views(self.pending@),
        }
    }
}

/// The step that a player's report becomes: an event for a field whose
/// change is announced, a rejection for a change that was turned down.
pub open spec fn step_of(name: Seq<char>, report: ReportView) -> StepView {
    match report {
        Ok(field) => StepView::Event(MprisEventView::PlayerUpdated(name, field)),
        Err(e) => StepView::Rejected(name, e),
    }
}

/// The steps that a player's reports become, in their order.
pub open spec fn steps_of(name: Seq<char>, reports: Seq<ReportView>) -> Seq<
    StepView,
> {
    Seq::new(reports.len(), |i: int| step_of(name, reports[i]))
}

/// The step that a player's report becomes.
fn to_step(name: &str, report: Report) -> (step: Step)
    ensures
        step@ == step_of(name@, report_view(report)),
{
    match report {
        Ok(field) => Step::Event(MprisEvent::PlayerUpdated(name.to_owned(), field)),
        Err(e) => Step::Rejected(name.to_owned(), e),
    }
}

/// Puts the steps that a player's reports become behind those that wait.
fn push_steps(pending: &mut VecDeque<Step>, name: &str, reports: Vec<Report>)
    ensures
        step_views(final(pending)@) == step_views(old(pending)@) + steps_of(
            name@,
            reports_view(reports@),
        ),
{
    let mut reports = reports;
    let ghost all = reports@;
    assert(step_views(pending@) + steps_of(name@, reports_view(reports@)) =~= step_views(
        old(pending)@,
    ) + steps_of(name@, reports_view(all)));
    while reports.len() > 0
        invariant
            step_views(pending@) + steps_of(name@, reports_view(reports@)) == step_views(
                old(pending)@,
            ) + steps_of(name@, reports_view(all)),
        decreases reports.len(),
    {
        let ghost waiting = step_views(pending@);
        let ghost left = reports@;
        let report = reports.remove(0);
        let step = to_step(name, report);
        pending.push_back(step);
        proof {
            assert(step_views(pending@) =~= waiting.push(step@));
            assert(steps_of(name@, reports_view(left)) =~= seq![step@] + steps_of(
                name@,
                reports_view(reports@),
            ));
            assert(waiting.push(step@) + steps_of(name@, reports_view(reports@)) =~= waiting
                + steps_of(name@, reports_view(left)));
        }
    }
    assert(step_views(pending@) + steps_of(name@, reports_view(reports@)) =~= step_views(pending@));
}

impl<H> ClientView<H> {
    /// Every name stands for one player: the names are as many as the
    /// players, and none occurs twice.
    pub open spec fn wf(self) -> bool {
        &&& self.names.len() == self.players.len()
        &&& self.names.no_duplicates()
    }

    /// The client without the player under `name`.
    pub open spec fn without(self, name: Seq<char>) -> ClientView<H> {
        if self.names.contains(name) {
            ClientView {
                names: self.names.remove(position(self.names, name)),
                players: self.players.remove(position(self.names, name)),
                ..self
            }
        } else {
            self
        }
    }

    /// The client with `player` under `name`, in place of the player that
    /// the name had or as the last one.
    pub open spec fn with(self, name: Seq<char>, player: PlayerView<H>) -> ClientView<H> {
        if self.names.contains(name) {
            ClientView { players: self.players.update(position(self.names, name), player), ..self }
        } else {
            ClientView { names: self.names.push(name), players: self.players.push(player), ..self }
        }
    }

    /// One step on the changes of ownership: the oldest that wait are
    /// consumed up to and with the first that means something. A new player
    /// is left to the caller to look up; a removed player is dropped from
    /// the registry, known or not, and its removal is the event.
    pub open spec fn owner_step(self) -> (ClientView<H>, StepView)
        decreases self.owner_changes.len(),
    {
        if self.owner_changes.len() == 0 {
            (self, StepView::Idle)
        } else {
            let change = self.owner_changes[0];
            let rest = ClientView { owner_changes: self.owner_changes.drop_first(), ..self };
            match change.meaning() {
                Some(NameOwnerChanged::NewPlayer) => (rest, StepView::Discover(change.name)),
                Some(NameOwnerChanged::RemovedPlayer) => (
                    rest.without(change.name),
                    StepView::Event(
                        MprisEventView::NameOwnerChanged(
                            change.name,
                            NameOwnerChanged::RemovedPlayer,
                        ),
                    ),
                ),
                None => rest.owner_step(),
            }
        }
    }

    /// One step on the player at index `i`: its announcements are consumed
    /// up to and with the first that has something to report. The first
    /// report is the step, the others wait their turn behind the steps that
    /// wait already.
    pub open spec fn player_step(self, i: int) -> (ClientView<H>, StepView) {
        if 0 <= i < self.players.len() {
            let (after, reports) = drained(self.players[i]);
            let steps = steps_of(self.names[i], reports);
            if reports.len() > 0 {
                (
                    ClientView {
                        players: self.players.update(i, after),
                        pending: self.pending + steps.drop_first(),
                        ..self
                    },
                    steps[0],
                )
            } else {
                (ClientView { players: self.players.update(i, after), ..self }, StepView::Idle)
            }
        } else {
            (self, StepView::Idle)
        }
    }

    /// One step on the players from index `from` on, in the order of the
    /// registry: the first player whose announcements have something to
    /// report gives the step.
    pub open spec fn players_step(self, from: int) -> (ClientView<H>, StepView)
        decreases self.players.len() - from,
    {
        if 0 <= from < self.players.len() {
            let (after, step) = self.player_step(from);
            if step == StepView::Idle {
                after.players_step(from + 1)
            } else {
                (after, step)
            }
        } else {
            (self, StepView::Idle)
        }
    }

    /// One step of the client. A step that waits is handed out first. Else
    /// the changes of ownership have their turn, and only where they yield
    /// nothing the players' own announcements.
    pub open spec fn step(self) -> (ClientView<H>, StepView) {
        if self.pending.len() > 0 {
            (ClientView { pending: self.pending.drop_first(), ..self }, self.pending[0])
        } else {
            let (after, step) = self.owner_step();
            if step == StepView::Idle {
                after.players_step(0)
            } else {
                (after, step)
            }
        }
    }
}

/// The names among `names` that are players', in their order.
pub open spec fn player_names(names: Seq<Seq<char>>) -> Seq<Seq<char>>
    decreases names.len(),
{
    if names.len() == 0 {
        Seq::empty()
    } else if is_player_name(names.last()) {
        player_names(names.drop_last()).push(names.last())
    } else {
        player_names(names.drop_last())
    }
}

impl<H> ClientView<H> {
    /// The client after the attributes of the player under `name` have been
    /// fetched and the subscription to its changes has been made. Where the
    /// attributes are a full record the player is taken in, on its feed
    /// nothing yet, and its appearance waits to be handed out as an event.
    /// Where they are not, nothing changes.
    pub open spec fn added(
        self,
        name: Seq<char>,
        properties: Attributes,
        handle: H,
    ) -> ClientView<H> {
        match decode_capabilities(properties) {
            Ok(capabilities) => {
                let taken = self.with(
                    name,
                    PlayerView { capabilities, handle, waiting: Seq::empty() },
                );
                ClientView {
                    pending: taken.pending.push(
                        StepView::Event(
                            MprisEventView::NameOwnerChanged(name, NameOwnerChanged::NewPlayer),
                        ),
                    ),
                    ..taken
                }
            },
            Err(_) => self,
        }
    }
}

/// Attributes that lack a key that a player must have bring no player into
/// the registry: the client is after them as it was before.
pub proof fn lemma_missing_key_adds_nothing<H>(
    client: ClientView<H>,
    name: Seq<char>,
    properties: Attributes,
    handle: H,
    key: Seq<char>,
)
    requires
        is_required(key),
        !properties.contains_key(key),
    ensures
        decode_capabilities(properties) is Err,
        client.added(name, properties, handle) == client,
{
    lemma_missing_key_is_reported(properties, key);
}

/// A player that appears and then disappears is heard of in that order and
/// is not known afterwards.
///
/// On a client with nothing waiting, the announcement that `name` has gained
/// an owner followed by the announcement that it has lost that owner gives,
/// step by step: the request to look the player up; once it has been added,
/// the event of its appearance; then the event of its removal. After that
/// the registry holds no player under the name.
pub proof fn lemma_appears_then_disappears<H>(
    client: ClientView<H>,
    name: Seq<char>,
    owner: Seq<char>,
    properties: Attributes,
    handle: H,
)
    requires
        client.wf(),
        client.pending.len() == 0,
        client.owner_changes.len() == 0,
        is_player_name(name),
        owner.len() > 0,
        decode_capabilities(properties) is Ok,
    ensures
        ({
            let gained = OwnerChangeView { name, old_owner: Seq::empty(), new_owner: owner };
            let lost = OwnerChangeView { name, old_owner: owner, new_owner: Seq::empty() };
            let told = ClientView { owner_changes: seq![gained, lost], ..client };
            let asked = told.step();
            let found = asked.0.added(name, properties, handle).step();
            let gone = found.0.step();
            &&& asked.1 == StepView::Discover(name)
            &&& found.1 == StepView::Event(
                MprisEventView::NameOwnerChanged(name, NameOwnerChanged::NewPlayer),
            )
            &&& gone.1 == StepView::Event(
                MprisEventView::NameOwnerChanged(name, NameOwnerChanged::RemovedPlayer),
            )
            &&& !gone.0.names.contains(name)
            &&& gone.0.wf()
        }),
{
    let gained = OwnerChangeView { name, old_owner: Seq::empty(), new_owner: owner };
    let lost = OwnerChangeView { name, old_owner: owner, new_owner: Seq::empty() };
    let told = ClientView { owner_changes: seq![gained, lost], ..client };
    assert(gained.meaning() == Some(NameOwnerChanged::NewPlayer));
    assert(lost.meaning() == Some(NameOwnerChanged::RemovedPlayer));
    assert(told.owner_changes[0] == gained);
    let asked = told.step();
    assert(asked.0.owner_changes =~= seq![lost]);
    let fresh = PlayerView {
        capabilities: decode_capabilities(properties)->Ok_0,
        handle,
        waiting: Seq::empty(),
    };
    let taken = asked.0.with(name, fresh);
    let added = asked.0.added(name, properties, handle);
    let appeared = StepView::Event(
        MprisEventView::NameOwnerChanged(name, NameOwnerChanged::NewPlayer),
    );
    assert(added.pending =~= seq![appeared]);
    assert(added.pending[0] == appeared);
    let found = added.step();
    assert(found.0.pending =~= Seq::empty());
    assert(found.0.owner_changes[0] == lost);
    assert(found.0.names == taken.names && found.0.players == taken.players);
    assert(taken.names.contains(name)) by {
        if !client.names.contains(name) {
            assert(taken.names[client.names.len() as int] == name);
        }
    }
    assert(taken.names.no_duplicates() && taken.names.len() == taken.players.len()) by {
        if !client.names.contains(name) {
            lemma_push_inserts(client.names, client.players, name, fresh);
        }
    }
    let i = position(taken.names, name);
    lemma_remove_removes(taken.names, taken.players, i);
}

impl<H> MprisClient<H> {
    /// No client holds a name twice.
    fn holds_no_name_twice(&self)
        ensures
            self.players.wf(),
            self@.wf(),
    {
        let _ = self.players.len();
    }

    /// A client that knows no player yet, with the handle of the
    /// subscription to changes of ownership.
    pub fn new(owner_changed_signal: H) -> (client: Self)
        ensures
            client@.wf(),
            client@ == (ClientView {
                names: Seq::empty(),
                players: Seq::empty(),
                owner_handle: owner_changed_signal,
                owner_changes: Seq::empty(),
                pending: Seq::empty(),
            }),
    {
        let client = MprisClient {
            players: Registry::new(),
            owner_changed_signal: SignalStream::new(owner_changed_signal),
            pending: VecDeque::new(),
        };
        client.holds_no_name_twice();
        assert(client@.players =~= Seq::empty());
        assert(client@.owner_changes =~= Seq::empty());
        assert(client@.pending =~= Seq::empty());
        client
    }

    /// Takes in a change of ownership that the bus has announced.
    pub fn deliver_owner_changed(&mut self, change: OwnerChange)
        ensures
            final(self)@.wf(),
            final(self)@ == (ClientView {
                owner_changes: old(self)@.owner_changes.push(change@),
                ..old(self)@
            }),
    {
        self.owner_changed_signal.deliver(change);
        self.holds_no_name_twice();
        assert(final(self)@.owner_changes =~= old(self)@.owner_changes.push(change@));
    }

    /// The names among those that are owned on the bus that are players',
    /// in their order: the players to look up when the client starts.
    pub fn get_all(&self, names: &Vec<String>) -> (found: Vec<String>)
        ensures
            texts(found@) == player_names(texts(names@)),
    {
        let mut found: Vec<String> = Vec::new();
        let mut i: usize = 0;
        assert(texts(names@).take(0) =~= Seq::empty());
        while i < names.len()
            invariant
                i <= names.len(),
                texts(found@) == player_names(texts(names@).take(i as int)),
            decreases names.len() - i,
        {
            let ghost all = texts(names@);
            assert(all.take(i + 1).drop_last() =~= all.take(i as int));
            assert(all.take(i + 1).last() == names@[i as int]@);
            if names_player(names[i].as_str()) {
                let ghost before = texts(found@);
                found.push(names[i].clone());
                assert(texts(found@) =~= before.push(names@[i as int]@));
            }
            i += 1;
        }
        assert(texts(names@).take(names@.len() as int) =~= texts(names@));
        found
    }

    /// The player under `name`.
    pub fn get(&self, name: &str) -> (r: Option<&Player<H>>)
        ensures
            match r {
                Some(p) => {
                    &&& self@.names.contains(name@)
                    &&& p@ == self@.players[position(self@.names, name@)]
                },
                None => !self@.names.contains(name@),
            },
    {
        match self.players.index_of(name) {
            Some(i) => Some(self.players.player_at(i)),
            None => None,
        }
    }

    /// Takes in what a player has announced of its changes. Where no player
    /// is known under `name`, the announcement is dropped.
    pub fn deliver_player_changed(&mut self, name: &str, message: PropertiesChanged) -> (r: Result<
        (),
        RegistryError,
    >)
        ensures
            final(self)@.wf(),
            match r {
                Ok(_) => {
                    let i = position(old(self)@.names, name@);
                    let before = old(self)@.players[i];
                    &&& old(self)@.names.contains(name@)
                    &&& final(self)@ == (ClientView {
                        players: old(self)@.players.update(
                            i,
                            PlayerView {
                                waiting: before.waiting.push(message@),
                                ..before
                            },
                        ),
                        ..old(self)@
                    })
                },
                Err(e) => {
                    &&& e == RegistryError::NotFound
                    &&& !old(self)@.names.contains(name@)
                    &&& final(self)@ == old(self)@
                },
            },
    {
        match self.players.index_of(name) {
            Some(i) => {
                let player = self.players.player_at_mut(i);
                let ghost before = player@;
                player.stream.deliver(message);
                assert(player@.waiting =~= before.waiting.push(message@));
                let ghost after = player@;
                self.holds_no_name_twice();
                assert(self@.players =~= old(self)@.players.update(i as int, after));
                Ok(())
            },
            None => {
                self.holds_no_name_twice();
                Err(RegistryError::NotFound)
            },
        }
    }

    /// Takes a player in under `name`, from the attributes that were fetched
    /// from it and the handle of the subscription to its changes.
    ///
    /// Where the attributes are no full record, the error says why, no
    /// player is taken in and the handle is dropped. Else the player
    /// replaces the one that the name had, if any, and its appearance waits
    /// to be handed out as an event.
    pub fn add(&mut self, name: &str, properties: &AttributeMap, stream: H) -> (r: Result<
        (),
        DecodeError,
    >)
        ensures
            final(self)@.wf(),
            final(self)@ == old(self)@.added(name@, properties@, stream),
            match r {
                Ok(_) => decode_capabilities(properties@) is Ok,
                Err(e) => decode_capabilities(properties@) matches Err(why) && why == e@,
            },
    {
        match PlayerCapabilities::try_from(properties) {
            Ok(capabilities) => {
                self.holds_no_name_twice();
                self.players.discover(name, capabilities, stream);
                self.pending.push_back(
                    Step::Event(
                        MprisEvent::NameOwnerChanged(name.to_owned(), NameOwnerChanged::NewPlayer),
                    ),
                );
                proof {
                    let fresh = PlayerView {
                        capabilities: capabilities@,
                        handle: stream,
                        waiting: Seq::empty(),
                    };
                    assert(self.players@[name@]@.waiting =~= Seq::empty());
                    assert(self.players@[name@]@ == fresh);
                    let taken = old(self)@.with(name@, fresh);
                    assert(final(self)@.names =~= taken.names);
                    assert(final(self)@.players =~= taken.players);
                    assert(final(self)@.pending =~= taken.pending.push(
                        StepView::Event(
                            MprisEventView::NameOwnerChanged(name@, NameOwnerChanged::NewPlayer),
                        ),
                    ));
                }
                Ok(())
            },
            Err(e) => {
                self.holds_no_name_twice();
                Err(e)
            },
        }
    }

    /// One step on the changes of ownership.
    pub fn handle_owner_changed(&mut self) -> (step: Step)
        ensures
            final(self)@.wf(),
            final(self)@ == old(self)@.owner_step().0,
            step@ == old(self)@.owner_step().1,
    {
        loop
            invariant
                self@.owner_step() == old(self)@.owner_step(),
            decreases self.owner_changed_signal.waiting().len(),
        {
            let ghost start = self@;
            match self.owner_changed_signal.poll_next() {
                None => {
                    self.holds_no_name_twice();
                    return Step::Idle;
                },
                Some(change) => {
                    let ghost rest = ClientView {
                        owner_changes: start.owner_changes.drop_first(),
                        ..start
                    };
                    assert(start.owner_changes[0] == change@);
                    assert(self@.owner_changes =~= rest.owner_changes);
                    assert(self@ == rest);
                    match change.meaning() {
                        Some(NameOwnerChanged::NewPlayer) => {
                            self.holds_no_name_twice();
                            return Step::Discover(change.name);
                        },
                        Some(NameOwnerChanged::RemovedPlayer) => {
                            self.holds_no_name_twice();
                            let removed = self.players.remove(change.name.as_str());
                            proof {
                                let gone = rest.without(change.name@);
                                if removed {
                                    let i = position(rest.names, change.name@);
                                    assert(self@.players =~= rest.players.remove(i));
                                } else {
                                    assert(self@.players =~= rest.players);
                                }
                                assert(self@ == gone);
                            }
                            return Step::Event(
                                MprisEvent::NameOwnerChanged(
                                    change.name,
                                    NameOwnerChanged::RemovedPlayer,
                                ),
                            );
                        },
                        None => {},
                    }
                },
            }
        }
    }

    /// One step on the player at index `i`: idle where there is no such
    /// player.
    pub fn handle_player_changed(&mut self, i: usize) -> (step: Step)
        ensures
            final(self)@.wf(),
            final(self)@ == old(self)@.player_step(i as int).0,
            step@ == old(self)@.player_step(i as int).1,
    {
        let n = self.players.len();
        if i >= n {
            return Step::Idle;
        }
        let name: String = self.players.name_at(i).to_owned();
        let player = self.players.player_at_mut(i);
        let mut reports = player.handle_changed();
        let ghost all = reports@;
        let ghost steps = steps_of(name@, reports_view(all));
        let ghost after = player@;
        assert(self@.players =~= old(self)@.players.update(i as int, after));
        if reports.len() == 0 {
            return Step::Idle;
        }
        let first = reports.remove(0);
        let step = to_step(name.as_str(), first);
        assert(steps_of(name@, reports_view(reports@)) =~= steps.drop_first());
        push_steps(&mut self.pending, name.as_str(), reports);
        step
    }

    /// One step on the players' own announcements, player by player in the
    /// order of the registry.
    pub fn handle_players_changed(&mut self) -> (step: Step)
        ensures
            final(self)@.wf(),
            final(self)@ == old(self)@.players_step(0).0,
            step@ == old(self)@.players_step(0).1,
    {
        let mut i: usize = 0;
        loop
            invariant
                self@.players_step(i as int) == old(self)@.players_step(0),
            decreases self@.players.len() - i,
        {
            let n = self.players.len();
            if i >= n {
                return Step::Idle;
            }
            let ghost start = self@;
            let step = self.handle_player_changed(i);
            match step {
                Step::Idle => {
                    assert(self@.players.len() == start.players.len());
                    i += 1;
                },
                _ => {
                    return step;
                },
            }
        }
    }

    /// One step of the client: what the caller is to hear of or to do next.
    ///
    /// A step that was decided earlier is handed out first. Else the
    /// changes of ownership have their turn, and only where they yield
    /// nothing the players' own announcements.
    pub fn event(&mut self) -> (step: Step)
        ensures
            final(self)@.wf(),
            final(self)@ == old(self)@.step().0,
            step@ == old(self)@.step().1,
    {
        match self.pending.pop_front() {
            Some(step) => {
                self.holds_no_name_twice();
                assert(final(self)@.pending =~= old(self)@.pending.drop_first());
                step
            },
            None => {
                let step = self.handle_owner_changed();
                match step {
                    Step::Idle => self.handle_players_changed(),
                    _ => step,
                }
            },
        }
    }
}

} // verus!

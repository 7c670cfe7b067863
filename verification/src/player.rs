//! One player: its record and the feed of its changes.

use vstd::prelude::*;

use crate::capabilities::{
    applied, decode_capabilities, AttributeMap, CapabilitiesView, PlayerCapabilities,
};
use crate::error::DecodeError;
use crate::event::{reports_view, PropertiesChanged, PropertiesChangedView, Report, ReportView};
use crate::stream::SignalStream;

verus! {

/// One player on the bus: what is known of it, and the subscription to the
/// changes that it announces. The subscription lives as long as the player's
/// record does.
#[derive(Debug)]
pub struct Player<H> {
    pub capabilities: PlayerCapabilities,
    pub stream: SignalStream<H, PropertiesChanged>,
}

/// A [`Player`] as contracts see it: the model of its record, its handle,
/// and the models of the announcements that wait, oldest first.
#[verifier::ext_equal]
pub struct PlayerView<H> {
    pub capabilities: CapabilitiesView,
    pub handle: H,
    pub waiting: Seq<PropertiesChangedView>,
}

/// The models of a list of announcements.
pub open spec fn announcement_views(messages: Seq<PropertiesChanged>) -> Seq<PropertiesChangedView> {
    Seq::new(messages.len(), |i: int| messages[i]@)
}

impl<H> View for Player<H> {
    type V = PlayerView<H>;

    open spec fn view(&self) -> PlayerView<H> {
        PlayerView {
            capabilities: self.capabilities@,
            handle: self.stream.handle,
            waiting: announcement_views(self.stream.waiting()),
        }
    }
}

/// What the oldest announcements that wait make of a player: they are taken
/// over one by one, up to and with the first that has something to report.
pub open spec fn drained<H>(p: PlayerView<H>) -> (PlayerView<H>, Seq<ReportView>)
    decreases p.waiting.len(),
{
    if p.waiting.len() == 0 {
        (p, Seq::empty())
    } else {
        let a = applied(p.capabilities, p.waiting[0].changed);
        let rest = PlayerView {
            capabilities: a.capabilities,
            handle: p.handle,
            waiting: p.waiting.drop_first(),
        };
        if a.reports.len() > 0 {
            (rest, a.reports)
        } else {
            drained(rest)
        }
    }
}

impl<H> Player<H> {
    /// The player that has published `properties`, with the handle of the
    /// subscription to its changes. There is a player only where the
    /// attributes are a full record.
    pub fn new(properties: &AttributeMap, stream: H) -> (r: Result<Player<H>, DecodeError>)
        ensures
            match r {
                Ok(p) => {
                    &&& decode_capabilities(properties@) matches Ok(c) && c == p.capabilities@
                    &&& p.stream.handle == stream
                    &&& p.stream.waiting() == Seq::<PropertiesChanged>::empty()
                },
                Err(e) => decode_capabilities(properties@) matches Err(why) && why == e@,
            },
    {
        match PlayerCapabilities::try_from(properties) {
            Ok(capabilities) => Ok(Player { capabilities, stream: SignalStream::new(stream) }),
            Err(e) => Err(e),
        }
    }

    /// The feed of the player's changes.
    pub fn stream_mut(&mut self) -> (stream: &mut SignalStream<H, PropertiesChanged>)
        ensures
            *stream == old(self).stream,
            final(self).stream == *final(stream),
            final(self).capabilities == old(self).capabilities,
    {
        &mut self.stream
    }

    /// What is known of the player.
    pub fn capabilities(&self) -> (capabilities: &PlayerCapabilities)
        ensures
            *capabilities == self.capabilities,
    {
        &self.capabilities
    }

    /// What is known of the player, to change in place.
    pub fn capabilities_mut(&mut self) -> (capabilities: &mut PlayerCapabilities)
        ensures
            *capabilities == old(self).capabilities,
            final(self).capabilities == *final(capabilities),
            final(self).stream == old(self).stream,
    {
        &mut self.capabilities
    }

    /// Consumes the announcements that wait, oldest first, until one has
    /// something to report or none is left, and takes each one's changes
    /// over into the record. Hands back the reports of the last one
    /// consumed: none where nothing is left.
    pub fn handle_changed(&mut self) -> (reports: Vec<Report>)
        ensures
            final(self)@ == drained(old(self)@).0,
            reports_view(reports@) == drained(old(self)@).1,
    {
        loop
            invariant
                drained(self@) == drained(old(self)@),
            decreases self.stream.waiting().len(),
        {
            let ghost start = self@;
            match self.stream.poll_next() {
                None => {
                    let reports: Vec<Report> = Vec::new();
                    assert(reports_view(reports@) =~= Seq::empty());
                    return reports;
                },
                Some(message) => {
                    let ghost before = PlayerView {
                        capabilities: self.capabilities@,
                        handle: self.stream.handle,
                        waiting: seq![message@] + self@.waiting,
                    };
                    assert(before.waiting =~= start.waiting);
                    assert(before.waiting.drop_first() =~= self@.waiting);
                    let reports = self.capabilities.apply(&message.changed);
                    assert(reports_view(reports@).len() == reports@.len());
                    if reports.len() > 0 {
                        return reports;
                    }
                },
            }
        }
    }
}

/// Puts a player together from the two things that finding one takes: its
/// attributes and the subscription to its changes.
#[derive(Debug)]
pub struct PlayerBuilder<H> {
    pub capabilities: Option<PlayerCapabilities>,
    pub stream: Option<H>,
}

impl<H> Default for PlayerBuilder<H> {
    fn default() -> (builder: Self)
        ensures
            builder.capabilities is None,
            builder.stream is None,
    {
        PlayerBuilder { capabilities: None, stream: None }
    }
}

impl<H> PlayerBuilder<H> {
    /// A builder that holds nothing yet.
    pub fn new() -> (builder: Self)
        ensures
            builder.capabilities is None,
            builder.stream is None,
    {
        PlayerBuilder { capabilities: None, stream: None }
    }

    /// Takes the handle of the subscription to the player's changes.
    pub fn stream(self, stream: H) -> (builder: Self)
        ensures
            builder.stream == Some(stream),
            builder.capabilities == self.capabilities,
    {
        PlayerBuilder { capabilities: self.capabilities, stream: Some(stream) }
    }

    /// Takes the attributes that the player has published, where they are a
    /// full record.
    pub fn capabilities(self, properties: &AttributeMap) -> (r: Result<Self, DecodeError>)
        ensures
            match r {
                Ok(builder) => {
                    &&& builder.stream == self.stream
                    &&& builder.capabilities matches Some(record)
                    &&& decode_capabilities(properties@) matches Ok(c) && c == record@
                },
                Err(e) => decode_capabilities(properties@) matches Err(why) && why == e@,
            },
    {
        match PlayerCapabilities::try_from(properties) {
            Ok(capabilities) => Ok(
                PlayerBuilder { capabilities: Some(capabilities), stream: self.stream },
            ),
            Err(e) => Err(e),
        }
    }

    /// Whether the builder holds both the record and the handle.
    pub open spec fn spec_is_complete(&self) -> bool {
        self.capabilities is Some && self.stream is Some
    }

    /// Whether the builder holds both the record and the handle.
    #[verifier::when_used_as_spec(spec_is_complete)]
    pub fn is_complete(&self) -> (r: bool)
        ensures
            r == self.spec_is_complete(),
    {
        self.capabilities.is_some() && self.stream.is_some()
    }

    /// The player, on whose feed nothing has arrived yet.
    pub fn build(self) -> (player: Player<H>)
        requires
            self.is_complete(),
        ensures
            player.capabilities == self.capabilities->0,
            player.stream.handle == self.stream->0,
            player.stream.waiting() == Seq::<PropertiesChanged>::empty(),
    {
        Player {
            capabilities: self.capabilities.unwrap(),
            stream: SignalStream::new(self.stream.unwrap()),
        }
    }
}

} // verus!

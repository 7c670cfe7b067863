//! What the bus announces, and what the library tells its caller.

use vstd::prelude::*;

use crate::bus::{is_player_name, names_player};
use crate::capabilities::{AttributeMap, CAN_GO_PREVIOUS};
use crate::error::{DecodeError, Read};
use crate::field::Attributes;
use crate::metadata::METADATA;
use crate::status::PLAYBACK_STATUS;
use crate::text::same_text;

verus! {

/// What a change of a name's owner means for the set of players.
#[derive(Clone, Copy, Debug, PartialEq, Eq, Structural)]
pub enum NameOwnerChanged {
    /// A player has appeared under the name.
    NewPlayer,
    /// The player under the name is gone.
    RemovedPlayer,
}

/// The field of a player's record whose change is announced.
#[derive(Clone, Copy, Debug, PartialEq, Eq, Structural)]
pub enum PlayerUpdated {
    PlaybackStatus,
    Metadata,
    CanGoPrevious,
}

impl DeepView for PlayerUpdated {
    type V = PlayerUpdated;

    open spec fn deep_view(&self) -> PlayerUpdated {
        *self
    }
}

impl PlayerUpdated {
    /// The field whose change the attribute `key` announces, if any.
    pub open spec fn announced_by(key: Seq<char>) -> Option<PlayerUpdated> {
        if key == PLAYBACK_STATUS@ {
            Some(PlayerUpdated::PlaybackStatus)
        } else if key == METADATA@ {
            Some(PlayerUpdated::Metadata)
        } else if key == CAN_GO_PREVIOUS@ {
            Some(PlayerUpdated::CanGoPrevious)
        } else {
            None
        }
    }

    /// The field whose change the attribute `key` announces, if any.
    pub fn for_key(key: &str) -> (field: Option<PlayerUpdated>)
        ensures
            field == Self::announced_by(key@),
    {
        if same_text(key, PLAYBACK_STATUS) {
            Some(PlayerUpdated::PlaybackStatus)
        } else if same_text(key, METADATA) {
            Some(PlayerUpdated::Metadata)
        } else if same_text(key, CAN_GO_PREVIOUS) {
            Some(PlayerUpdated::CanGoPrevious)
        } else {
            None
        }
    }
}

/// One event for the caller, with the bus name of the player that it is
/// about.
#[derive(Debug, PartialEq, Eq)]
pub enum MprisEvent {
    NameOwnerChanged(String, NameOwnerChanged),
    PlayerUpdated(String, PlayerUpdated),
}

/// A [`MprisEvent`] with the name as a sequence of characters.
pub enum MprisEventView {
    NameOwnerChanged(Seq<char>, NameOwnerChanged),
    PlayerUpdated(Seq<char>, PlayerUpdated),
}

impl View for MprisEvent {
    type V = MprisEventView;

    open spec fn view(&self) -> MprisEventView {
        match self {
            MprisEvent::NameOwnerChanged(name, change) => MprisEventView::NameOwnerChanged(
                name@,
                *change,
            ),
            MprisEvent::PlayerUpdated(name, field) => MprisEventView::PlayerUpdated(name@, *field),
        }
    }
}

impl Clone for MprisEvent {
    fn clone(&self) -> (copy: MprisEvent)
        ensures
            copy@ == self@,
    {
        match self {
            MprisEvent::NameOwnerChanged(name, change) => MprisEvent::NameOwnerChanged(
                name.clone(),
                *change,
            ),
            MprisEvent::PlayerUpdated(name, field) => MprisEvent::PlayerUpdated(name.clone(), *field),
        }
    }
}

/// The bus's announcement that a name has changed its owner. An owner is
/// empty where there is none.
#[derive(Debug, PartialEq, Eq)]
pub struct OwnerChange {
    pub name: String,
    pub old_owner: String,
    pub new_owner: String,
}

/// An [`OwnerChange`] with its strings as sequences of characters.
pub struct OwnerChangeView {
    pub name: Seq<char>,
    pub old_owner: Seq<char>,
    pub new_owner: Seq<char>,
}

impl View for OwnerChange {
    type V = OwnerChangeView;

    open spec fn view(&self) -> OwnerChangeView {
        OwnerChangeView {
            name: self.name@,
            old_owner: self.old_owner@,
            new_owner: self.new_owner@,
        }
    }
}

impl Clone for OwnerChange {
    fn clone(&self) -> (copy: OwnerChange)
        ensures
            copy@ == self@,
    {
        OwnerChange {
            name: self.name.clone(),
            old_owner: self.old_owner.clone(),
            new_owner: self.new_owner.clone(),
        }
    }
}

impl OwnerChangeView {
    /// What the change means: a name among the players' that gains its first
    /// owner is a new player, one that loses its owner a removed player, and
    /// nothing else matters.
    pub open spec fn meaning(self) -> Option<NameOwnerChanged> {
        if !is_player_name(self.name) {
            None
        } else if self.old_owner.len() == 0 && self.new_owner.len() != 0 {
            Some(NameOwnerChanged::NewPlayer)
        } else if self.old_owner.len() != 0 && self.new_owner.len() == 0 {
            Some(NameOwnerChanged::RemovedPlayer)
        } else {
            None
        }
    }
}

impl OwnerChange {
    /// What the change means for the set of players, if anything.
    pub fn meaning(&self) -> (r: Option<NameOwnerChanged>)
        ensures
            r == self@.meaning(),
    {
        if !names_player(self.name.as_str()) {
            return None;
        }
        let had_owner = !self.old_owner.as_str().is_empty();
        let has_owner = !self.new_owner.as_str().is_empty();
        if !had_owner && has_owner {
            Some(NameOwnerChanged::NewPlayer)
        } else if had_owner && !has_owner {
            Some(NameOwnerChanged::RemovedPlayer)
        } else {
            None
        }
    }
}

/// A player's announcement that some of its attributes have changed.
///
/// The interface and the list of attributes that are no longer valid are
/// taken along and not acted on.
#[derive(Debug)]
pub struct PropertiesChanged {
    pub interface: String,
    pub changed: AttributeMap,
    pub invalidated: Vec<String>,
}

/// A [`PropertiesChanged`] with its strings as sequences of characters and
/// its changed attributes as a map.
pub struct PropertiesChangedView {
    pub interface: Seq<char>,
    pub changed: Attributes,
    pub invalidated: Seq<Seq<char>>,
}

impl View for PropertiesChanged {
    type V = PropertiesChangedView;

    open spec fn view(&self) -> PropertiesChangedView {
        PropertiesChangedView {
            interface: self.interface@,
            changed: self.changed@,
            invalidated: self.invalidated.deep_view(),
        }
    }
}

/// What became of one changed attribute: the field whose change is
/// announced, or why the change was turned down.
pub type Report = Result<PlayerUpdated, DecodeError>;

/// A [`Report`] with its strings as sequences of characters.
pub type ReportView = Read<PlayerUpdated>;

/// The model of a report.
pub open spec fn report_view(report: Report) -> ReportView {
    match report {
        Ok(field) => Ok(field),
        Err(e) => Err(e@),
    }
}

/// The models of a list of reports.
pub open spec fn reports_view(reports: Seq<Report>) -> Seq<ReportView> {
    Seq::new(reports.len(), |i: int| report_view(reports[i]))
}

} // verus!

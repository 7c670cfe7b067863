//! The names under which the bus and the players on it are addressed.

use vstd::prelude::*;

use crate::text::begins_with;

verus! {

/// The prefix of every bus name that a media player owns.
pub const MPRIS_PREFIX: &'static str = "org.mpris.MediaPlayer2";

/// The object path at which a media player is found.
pub const MPRIS_PATH: &'static str = "/org/mpris/MediaPlayer2";

/// The interface that holds a player's attributes.
pub const MPRIS_PLAYER_PREFIX: &'static str = "org.mpris.MediaPlayer2.Player";

/// The bus name of the bus itself.
pub const DBUS_NAME: &'static str = "org.freedesktop.DBus";

/// The object path of the bus itself.
pub const DBUS_PATH: &'static str = "/org/freedesktop/DBus";

/// The interface through which attributes are fetched and their changes
/// announced.
pub const DBUS_PROPERTIES: &'static str = "org.freedesktop.DBus.Properties";

/// The methods that are called on the bus.
#[derive(Clone, Copy, Debug, PartialEq, Eq, Structural)]
pub enum DbusMethods {
    ListNames,
    GetAll,
    NameHasOwner,
}

impl DbusMethods {
    /// The member name of the method.
    pub open spec fn spec_member_name(&self) -> Seq<char> {
        match self {
            DbusMethods::ListNames => "ListNames"@,
            DbusMethods::GetAll => "GetAll"@,
            DbusMethods::NameHasOwner => "NameHasOwner"@,
        }
    }

    /// The member name of the method.
    pub fn member_name(&self) -> (name: &'static str)
        ensures
            name@ == self.spec_member_name(),
    {
        match self {
            DbusMethods::ListNames => "ListNames",
            DbusMethods::GetAll => "GetAll",
            DbusMethods::NameHasOwner => "NameHasOwner",
        }
    }
}

/// The signals that are listened for on the bus.
#[derive(Clone, Copy, Debug, PartialEq, Eq, Structural)]
pub enum DbusSignals {
    PropertiesChanged,
    NameOwnerChanged,
}

impl DbusSignals {
    /// The member name of the signal.
    pub open spec fn spec_member_name(&self) -> Seq<char> {
        match self {
            DbusSignals::PropertiesChanged => "PropertiesChanged"@,
            DbusSignals::NameOwnerChanged => "NameOwnerChanged"@,
        }
    }

    /// The member name of the signal.
    pub fn member_name(&self) -> (name: &'static str)
        ensures
            name@ == self.spec_member_name(),
    {
        match self {
            DbusSignals::PropertiesChanged => "PropertiesChanged",
            DbusSignals::NameOwnerChanged => "NameOwnerChanged",
        }
    }
}

/// Whether a bus name lies in the namespace of media players.
pub open spec fn is_player_name(name: Seq<char>) -> bool {
    MPRIS_PREFIX@.is_prefix_of(name)
}

/// Whether a bus name lies in the namespace of media players.
pub fn names_player(name: &str) -> (r: bool)
    ensures
        r == is_player_name(name@),
{
    begins_with(name, MPRIS_PREFIX)
}

} // verus!

//! Tracking of media players published on a desktop message bus.
//!
//! A player's attributes arrive as untyped values under string keys. The
//! library turns them into a typed record, keeps one record for each player
//! that is known, and brings the records up to date as the bus announces
//! that players come and go and that their attributes change.

pub mod bus;
pub mod capabilities;
pub mod client;
pub mod error;
pub mod event;
pub mod field;
pub mod metadata;
pub mod player;
pub mod registry;
pub mod status;
pub mod stream;
pub mod string_map;
pub mod text;
pub mod value;

pub use bus::{
    DbusMethods, DbusSignals, DBUS_NAME, DBUS_PATH, DBUS_PROPERTIES, MPRIS_PATH,
    MPRIS_PLAYER_PREFIX, MPRIS_PREFIX,
};
pub use capabilities::{AttributeMap, PlayerCapabilities};
pub use client::{MprisClient, Step};
pub use error::{DecodeError, Expected, RegistryError};
pub use event::{
    MprisEvent, NameOwnerChanged, OwnerChange, PlayerUpdated, PropertiesChanged, Report,
};
pub use metadata::Metadata;
pub use player::{Player, PlayerBuilder};
pub use registry::Registry;
pub use status::{LoopStatus, PlaybackStatus};
pub use stream::SignalStream;
pub use string_map::StringMap;
pub use value::{Double, Value, ValueKind};

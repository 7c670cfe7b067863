//! The two enumerations among a player's attributes.

use vstd::prelude::*;

use crate::error::{outcome, DecodeError, DecodeErrorView, Expected, Read};
use crate::field::{mismatch};
use crate::text::same_text;
use crate::value::Value;

verus! {

/// The key of the playback status among a player's attributes.
pub const PLAYBACK_STATUS: &'static str = "PlaybackStatus";

/// The key of the loop status among a player's attributes.
pub const LOOP_STATUS: &'static str = "LoopStatus";

/// Whether a player plays.
#[derive(Clone, Copy, Debug, PartialEq, Eq, Structural)]
pub enum PlaybackStatus {
    Stopped,
    Paused,
    Playing,
}

impl DeepView for PlaybackStatus {
    type V = PlaybackStatus;

    open spec fn deep_view(&self) -> PlaybackStatus {
        *self
    }
}

impl Default for PlaybackStatus {
    fn default() -> (status: PlaybackStatus)
        ensures
            status == PlaybackStatus::Stopped,
    {
        PlaybackStatus::Stopped
    }
}

impl PlaybackStatus {
    /// The status that a word of the vocabulary names.
    pub open spec fn named(word: Seq<char>) -> Option<PlaybackStatus> {
        if word == "Stopped"@ {
            Some(PlaybackStatus::Stopped)
        } else if word == "Paused"@ {
            Some(PlaybackStatus::Paused)
        } else if word == "Playing"@ {
            Some(PlaybackStatus::Playing)
        } else {
            None
        }
    }

    /// The status that a value holds: a string of the vocabulary. Any other
    /// string is an invalid member. A value that is no string is a type
    /// mismatch, as for every field that a player must have.
    pub open spec fn of(v: Value) -> Read<PlaybackStatus> {
        match v {
            Value::Str(s) => match Self::named(s@) {
                Some(status) => Ok(status),
                None => Err(DecodeErrorView::InvalidEnum(PLAYBACK_STATUS@, s@)),
            },
            _ => Err(mismatch(PLAYBACK_STATUS@, Expected::Text, v)),
        }
    }

    /// Reads the playback status out of a value. A value that is no string
    /// is turned down as a type mismatch.
    pub fn try_from(value: &Value) -> (r: Result<PlaybackStatus, DecodeError>)
        ensures
            outcome(r) == Self::of(*value),
    {
        match value {
            Value::Str(s) => {
                let word = s.as_str();
                if same_text(word, "Stopped") {
                    Ok(PlaybackStatus::Stopped)
                } else if same_text(word, "Paused") {
                    Ok(PlaybackStatus::Paused)
                } else if same_text(word, "Playing") {
                    Ok(PlaybackStatus::Playing)
                } else {
                    Err(DecodeError::invalid(PLAYBACK_STATUS, word))
                }
            },
            _ => Err(DecodeError::mismatch(PLAYBACK_STATUS, Expected::Text, value.kind())),
        }
    }
}

/// What a player repeats.
#[derive(Clone, Copy, Debug, PartialEq, Eq, Structural)]
pub enum LoopStatus {
    /// Nothing is repeated; on the bus this is the word `None`.
    NoLoop,
    Playlist,
    Track,
}

impl DeepView for LoopStatus {
    type V = LoopStatus;

    open spec fn deep_view(&self) -> LoopStatus {
        *self
    }
}

impl Default for LoopStatus {
    fn default() -> (status: LoopStatus)
        ensures
            status == LoopStatus::NoLoop,
    {
        LoopStatus::NoLoop
    }
}

impl LoopStatus {
    /// The status that a word of the vocabulary names.
    pub open spec fn named(word: Seq<char>) -> Option<LoopStatus> {
        if word == "None"@ {
            Some(LoopStatus::NoLoop)
        } else if word == "Playlist"@ {
            Some(LoopStatus::Playlist)
        } else if word == "Track"@ {
            Some(LoopStatus::Track)
        } else {
            None
        }
    }

    /// The status that a value holds: a string of the vocabulary. Whatever
    /// else the value is, it is an invalid member: any other string with
    /// itself for the text that was found, and a value that is no string
    /// with the empty text, since no text was found.
    pub open spec fn of(v: Value) -> Read<LoopStatus> {
        match v {
            Value::Str(s) => match Self::named(s@) {
                Some(status) => Ok(status),
                None => Err(DecodeErrorView::InvalidEnum(LOOP_STATUS@, s@)),
            },
            _ => Err(DecodeErrorView::InvalidEnum(LOOP_STATUS@, Seq::empty())),
        }
    }

    /// Reads the loop status out of a value. A value that is no string is
    /// turned down as an invalid member with the empty string for its text.
    pub fn try_from(value: &Value) -> (r: Result<LoopStatus, DecodeError>)
        ensures
            outcome(r) == Self::of(*value),
    {
        match value {
            Value::Str(s) => {
                let word = s.as_str();
                if same_text(word, "None") {
                    Ok(LoopStatus::NoLoop)
                } else if same_text(word, "Playlist") {
                    Ok(LoopStatus::Playlist)
                } else if same_text(word, "Track") {
                    Ok(LoopStatus::Track)
                } else {
                    Err(DecodeError::invalid(LOOP_STATUS, word))
                }
            },
            _ => Err(DecodeError::InvalidEnum(LOOP_STATUS.to_owned(), String::new())),
        }
    }
}

} // verus!

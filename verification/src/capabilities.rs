//! What a player can do and what it plays, as one typed record.

use vstd::prelude::*;

use crate::error::{outcome, DecodeError, DecodeErrorView, Read};
use crate::event::{reports_view, PlayerUpdated, Report, ReportView};
use crate::field::{
    attributes_of, bool_of, count_in, count_of, double_of, is_count, optional, optional_bool,
    optional_double, read_bool, read_count, read_double, required, required_bool, required_count,
    required_double, text_keyed, Attributes,
};
use crate::metadata::{
    lemma_well_typed_is_read_in_full, metadata_of, mirrors, well_typed, Metadata, MetadataView,
    METADATA,
};
use crate::status::{LoopStatus, PlaybackStatus, LOOP_STATUS, PLAYBACK_STATUS};
use crate::string_map::StringMap;
use crate::text::same_text;
use crate::value::{Double, Value};

verus! {

/// The key of whether the player can be controlled at all.
pub const CAN_CONTROL: &'static str = "CanControl";

/// The key of whether the player can skip to the next track.
pub const CAN_GO_NEXT: &'static str = "CanGoNext";

/// The key of whether the player can go back to the previous track.
pub const CAN_GO_PREVIOUS: &'static str = "CanGoPrevious";

/// The key of whether the player can pause.
pub const CAN_PAUSE: &'static str = "CanPause";

/// The key of whether the player can play.
pub const CAN_PLAY: &'static str = "CanPlay";

/// The key of whether the player can seek within the track.
pub const CAN_SEEK: &'static str = "CanSeek";

/// The key of whether the player plays in random order.
pub const SHUFFLE: &'static str = "Shuffle";

/// The key of the highest playback rate.
pub const MAXIMUM_RATE: &'static str = "MaximumRate";

/// The key of the lowest playback rate.
pub const MINIMUM_RATE: &'static str = "MinimumRate";

/// The key of the playback rate.
pub const RATE: &'static str = "Rate";

/// The key of the position within the track.
pub const POSITION: &'static str = "Position";

/// The key of the volume.
pub const VOLUME: &'static str = "Volume";

/// The attributes of a player as they come from the bus: untyped values
/// under their keys.
pub type AttributeMap = StringMap<Value>;

/// What one player can do and what it plays.
///
/// Each optional field is unset where the player did not publish it.
#[derive(Debug, PartialEq, Eq)]
pub struct PlayerCapabilities {
    pub can_control: bool,
    pub can_next: bool,
    pub can_previous: bool,
    pub can_pause: bool,
    pub can_play: bool,
    pub can_seek: bool,
    pub loop_status: Option<LoopStatus>,
    pub max_rate: Option<Double>,
    pub min_rate: Option<Double>,
    pub metadata: Metadata,
    pub playback_status: PlaybackStatus,
    pub position: u64,
    pub rate: Double,
    pub shuffle: Option<bool>,
    pub volume: Option<Double>,
}

/// A [`PlayerCapabilities`] with its strings as sequences of characters.
pub struct CapabilitiesView {
    pub can_control: bool,
    pub can_next: bool,
    pub can_previous: bool,
    pub can_pause: bool,
    pub can_play: bool,
    pub can_seek: bool,
    pub loop_status: Option<LoopStatus>,
    pub max_rate: Option<Double>,
    pub min_rate: Option<Double>,
    pub metadata: MetadataView,
    pub playback_status: PlaybackStatus,
    pub position: u64,
    pub rate: Double,
    pub shuffle: Option<bool>,
    pub volume: Option<Double>,
}

impl View for PlayerCapabilities {
    type V = CapabilitiesView;

    open spec fn view(&self) -> CapabilitiesView {
        CapabilitiesView {
            can_control: self.can_control,
            can_next: self.can_next,
            can_previous: self.can_previous,
            can_pause: self.can_pause,
            can_play: self.can_play,
            can_seek: self.can_seek,
            loop_status: self.loop_status,
            max_rate: self.max_rate,
            min_rate: self.min_rate,
            metadata: self.metadata@,
            playback_status: self.playback_status,
            position: self.position,
            rate: self.rate,
            shuffle: self.shuffle,
            volume: self.volume,
        }
    }
}

impl Clone for PlayerCapabilities {
    fn clone(&self) -> (copy: PlayerCapabilities)
        ensures
            copy@ == self@,
    {
        PlayerCapabilities {
            can_control: self.can_control,
            can_next: self.can_next,
            can_previous: self.can_previous,
            can_pause: self.can_pause,
            can_play: self.can_play,
            can_seek: self.can_seek,
            loop_status: self.loop_status,
            max_rate: self.max_rate,
            min_rate: self.min_rate,
            metadata: self.metadata.clone(),
            playback_status: self.playback_status,
            position: self.position,
            rate: self.rate,
            shuffle: self.shuffle,
            volume: self.volume,
        }
    }
}

impl DeepView for PlayerCapabilities {
    type V = CapabilitiesView;

    open spec fn deep_view(&self) -> CapabilitiesView {
        self@
    }
}

/// The first required key, in the order in which the fields are read, that
/// the attributes lack.
pub open spec fn missing_key(m: Attributes) -> Option<Seq<char>> {
    if !m.contains_key(CAN_CONTROL@) {
        Some(CAN_CONTROL@)
    } else if !m.contains_key(CAN_GO_NEXT@) {
        Some(CAN_GO_NEXT@)
    } else if !m.contains_key(CAN_GO_PREVIOUS@) {
        Some(CAN_GO_PREVIOUS@)
    } else if !m.contains_key(CAN_PAUSE@) {
        Some(CAN_PAUSE@)
    } else if !m.contains_key(CAN_PLAY@) {
        Some(CAN_PLAY@)
    } else if !m.contains_key(CAN_SEEK@) {
        Some(CAN_SEEK@)
    } else if !m.contains_key(METADATA@) {
        Some(METADATA@)
    } else if !m.contains_key(RATE@) {
        Some(RATE@)
    } else if !m.contains_key(PLAYBACK_STATUS@) {
        Some(PLAYBACK_STATUS@)
    } else if !m.contains_key(POSITION@) {
        Some(POSITION@)
    } else {
        None
    }
}

/// What the attributes hold for whether the player can be controlled.
pub open spec fn can_control_in(m: Attributes) -> Read<bool> {
    required(CAN_CONTROL@, m.contains_key(CAN_CONTROL@), bool_of(CAN_CONTROL@, m[CAN_CONTROL@]))
}

/// What the attributes hold for whether the player can skip to the next track.
pub open spec fn can_next_in(m: Attributes) -> Read<bool> {
    required(CAN_GO_NEXT@, m.contains_key(CAN_GO_NEXT@), bool_of(CAN_GO_NEXT@, m[CAN_GO_NEXT@]))
}

/// What the attributes hold for whether the player can go back to the previous track.
pub open spec fn can_previous_in(m: Attributes) -> Read<bool> {
    required(
        CAN_GO_PREVIOUS@,
        m.contains_key(CAN_GO_PREVIOUS@),
        bool_of(CAN_GO_PREVIOUS@, m[CAN_GO_PREVIOUS@]),
    )
}

/// What the attributes hold for whether the player can pause.
pub open spec fn can_pause_in(m: Attributes) -> Read<bool> {
    required(CAN_PAUSE@, m.contains_key(CAN_PAUSE@), bool_of(CAN_PAUSE@, m[CAN_PAUSE@]))
}

/// What the attributes hold for whether the player can play.
pub open spec fn can_play_in(m: Attributes) -> Read<bool> {
    required(CAN_PLAY@, m.contains_key(CAN_PLAY@), bool_of(CAN_PLAY@, m[CAN_PLAY@]))
}

/// What the attributes hold for whether the player can seek.
pub open spec fn can_seek_in(m: Attributes) -> Read<bool> {
    required(CAN_SEEK@, m.contains_key(CAN_SEEK@), bool_of(CAN_SEEK@, m[CAN_SEEK@]))
}

/// What the attributes hold for the random order.
pub open spec fn shuffle_in(m: Attributes) -> Read<Option<bool>> {
    optional(m.contains_key(SHUFFLE@), bool_of(SHUFFLE@, m[SHUFFLE@]))
}

/// What the attributes hold for the loop status.
pub open spec fn loop_status_in(m: Attributes) -> Read<Option<LoopStatus>> {
    optional(m.contains_key(LOOP_STATUS@), LoopStatus::of(m[LOOP_STATUS@]))
}

/// What the attributes hold for the highest rate.
pub open spec fn max_rate_in(m: Attributes) -> Read<Option<Double>> {
    optional(m.contains_key(MAXIMUM_RATE@), double_of(MAXIMUM_RATE@, m[MAXIMUM_RATE@]))
}

/// What the attributes hold for the lowest rate.
pub open spec fn min_rate_in(m: Attributes) -> Read<Option<Double>> {
    optional(m.contains_key(MINIMUM_RATE@), double_of(MINIMUM_RATE@, m[MINIMUM_RATE@]))
}

/// What the attributes hold for the track.
pub open spec fn metadata_in(m: Attributes) -> Read<MetadataView> {
    required(METADATA@, m.contains_key(METADATA@), metadata_of(m[METADATA@]))
}

/// What the attributes hold for the rate.
pub open spec fn rate_in(m: Attributes) -> Read<Double> {
    required(RATE@, m.contains_key(RATE@), double_of(RATE@, m[RATE@]))
}

/// What the attributes hold for the playback status.
pub open spec fn playback_status_in(m: Attributes) -> Read<PlaybackStatus> {
    required(
        PLAYBACK_STATUS@,
        m.contains_key(PLAYBACK_STATUS@),
        PlaybackStatus::of(m[PLAYBACK_STATUS@]),
    )
}

/// What the attributes hold for the position.
pub open spec fn position_in(m: Attributes) -> Read<u64> {
    required(POSITION@, m.contains_key(POSITION@), count_of(POSITION@, m[POSITION@]))
}

/// What the attributes hold for the volume.
pub open spec fn volume_in(m: Attributes) -> Read<Option<Double>> {
    optional(m.contains_key(VOLUME@), double_of(VOLUME@, m[VOLUME@]))
}

/// Why the attributes are no player's: the first required key that is absent
/// or, where all are there, the error of the first field, in the order in
/// which the fields are read, whose value is not accepted.
pub open spec fn capabilities_error(m: Attributes) -> Option<DecodeErrorView> {
    if missing_key(m) is Some {
        Some(DecodeErrorView::MissingField(missing_key(m)->0))
    } else if can_control_in(m) is Err {
        Some(can_control_in(m)->Err_0)
    } else if can_next_in(m) is Err {
        Some(can_next_in(m)->Err_0)
    } else if can_previous_in(m) is Err {
        Some(can_previous_in(m)->Err_0)
    } else if can_pause_in(m) is Err {
        Some(can_pause_in(m)->Err_0)
    } else if can_play_in(m) is Err {
        Some(can_play_in(m)->Err_0)
    } else if can_seek_in(m) is Err {
        Some(can_seek_in(m)->Err_0)
    } else if shuffle_in(m) is Err {
        Some(shuffle_in(m)->Err_0)
    } else if loop_status_in(m) is Err {
        Some(loop_status_in(m)->Err_0)
    } else if max_rate_in(m) is Err {
        Some(max_rate_in(m)->Err_0)
    } else if min_rate_in(m) is Err {
        Some(min_rate_in(m)->Err_0)
    } else if metadata_in(m) is Err {
        Some(metadata_in(m)->Err_0)
    } else if rate_in(m) is Err {
        Some(rate_in(m)->Err_0)
    } else if playback_status_in(m) is Err {
        Some(playback_status_in(m)->Err_0)
    } else if position_in(m) is Err {
        Some(position_in(m)->Err_0)
    } else if volume_in(m) is Err {
        Some(volume_in(m)->Err_0)
    } else {
        None
    }
}

/// The record that a map of attributes describes.
pub open spec fn decode_capabilities(m: Attributes) -> Read<CapabilitiesView> {
    match capabilities_error(m) {
        Some(e) => Err(e),
        None => Ok(
            CapabilitiesView {
                can_control: can_control_in(m)->Ok_0,
                can_next: can_next_in(m)->Ok_0,
                can_previous: can_previous_in(m)->Ok_0,
                can_pause: can_pause_in(m)->Ok_0,
                can_play: can_play_in(m)->Ok_0,
                can_seek: can_seek_in(m)->Ok_0,
                loop_status: loop_status_in(m)->Ok_0,
                max_rate: max_rate_in(m)->Ok_0,
                min_rate: min_rate_in(m)->Ok_0,
                metadata: metadata_in(m)->Ok_0,
                playback_status: playback_status_in(m)->Ok_0,
                position: position_in(m)->Ok_0,
                rate: rate_in(m)->Ok_0,
                shuffle: shuffle_in(m)->Ok_0,
                volume: volume_in(m)->Ok_0,
            },
        ),
    }
}

/// The record `c` after the attribute `key` has changed to `v`: the one
/// field that the key names is set to what the value holds and all others
/// are as they were. A key that names no field leaves the record as it is.
pub open spec fn patched(c: CapabilitiesView, key: Seq<char>, v: Value) -> Read<CapabilitiesView> {
    if key == PLAYBACK_STATUS@ {
        match PlaybackStatus::of(v) {
            Ok(x) => Ok(CapabilitiesView { playback_status: x, ..c }),
            Err(e) => Err(e),
        }
    } else if key == METADATA@ {
        match metadata_of(v) {
            Ok(x) => Ok(CapabilitiesView { metadata: x, ..c }),
            Err(e) => Err(e),
        }
    } else if key == CAN_GO_PREVIOUS@ {
        match bool_of(key, v) {
            Ok(x) => Ok(CapabilitiesView { can_previous: x, ..c }),
            Err(e) => Err(e),
        }
    } else if key == CAN_CONTROL@ {
        match bool_of(key, v) {
            Ok(x) => Ok(CapabilitiesView { can_control: x, ..c }),
            Err(e) => Err(e),
        }
    } else if key == CAN_GO_NEXT@ {
        match bool_of(key, v) {
            Ok(x) => Ok(CapabilitiesView { can_next: x, ..c }),
            Err(e) => Err(e),
        }
    } else if key == CAN_PAUSE@ {
        match bool_of(key, v) {
            Ok(x) => Ok(CapabilitiesView { can_pause: x, ..c }),
            Err(e) => Err(e),
        }
    } else if key == CAN_PLAY@ {
        match bool_of(key, v) {
            Ok(x) => Ok(CapabilitiesView { can_play: x, ..c }),
            Err(e) => Err(e),
        }
    } else if key == CAN_SEEK@ {
        match bool_of(key, v) {
            Ok(x) => Ok(CapabilitiesView { can_seek: x, ..c }),
            Err(e) => Err(e),
        }
    } else if key == SHUFFLE@ {
        match bool_of(key, v) {
            Ok(x) => Ok(CapabilitiesView { shuffle: Some(x), ..c }),
            Err(e) => Err(e),
        }
    } else if key == LOOP_STATUS@ {
        match LoopStatus::of(v) {
            Ok(x) => Ok(CapabilitiesView { loop_status: Some(x), ..c }),
            Err(e) => Err(e),
        }
    } else if key == MAXIMUM_RATE@ {
        match double_of(key, v) {
            Ok(x) => Ok(CapabilitiesView { max_rate: Some(x), ..c }),
            Err(e) => Err(e),
        }
    } else if key == MINIMUM_RATE@ {
        match double_of(key, v) {
            Ok(x) => Ok(CapabilitiesView { min_rate: Some(x), ..c }),
            Err(e) => Err(e),
        }
    } else if key == RATE@ {
        match double_of(key, v) {
            Ok(x) => Ok(CapabilitiesView { rate: x, ..c }),
            Err(e) => Err(e),
        }
    } else if key == POSITION@ {
        match count_of(key, v) {
            Ok(x) => Ok(CapabilitiesView { position: x, ..c }),
            Err(e) => Err(e),
        }
    } else if key == VOLUME@ {
        match double_of(key, v) {
            Ok(x) => Ok(CapabilitiesView { volume: Some(x), ..c }),
            Err(e) => Err(e),
        }
    } else {
        Ok(c)
    }
}

/// The change of one attribute touches no field but the one that its key
/// names: every other field of the patched record is as it was.
pub proof fn lemma_patch_keeps_other_fields(c: CapabilitiesView, key: Seq<char>, v: Value)
    requires
        patched(c, key, v) is Ok,
    ensures
        ({
            let p = patched(c, key, v)->Ok_0;
            &&& key != CAN_CONTROL@ ==> p.can_control == c.can_control
            &&& key != CAN_GO_NEXT@ ==> p.can_next == c.can_next
            &&& key != CAN_GO_PREVIOUS@ ==> p.can_previous == c.can_previous
            &&& key != CAN_PAUSE@ ==> p.can_pause == c.can_pause
            &&& key != CAN_PLAY@ ==> p.can_play == c.can_play
            &&& key != CAN_SEEK@ ==> p.can_seek == c.can_seek
            &&& key != LOOP_STATUS@ ==> p.loop_status == c.loop_status
            &&& key != MAXIMUM_RATE@ ==> p.max_rate == c.max_rate
            &&& key != MINIMUM_RATE@ ==> p.min_rate == c.min_rate
            &&& key != METADATA@ ==> p.metadata == c.metadata
            &&& key != PLAYBACK_STATUS@ ==> p.playback_status == c.playback_status
            &&& key != POSITION@ ==> p.position == c.position
            &&& key != RATE@ ==> p.rate == c.rate
            &&& key != SHUFFLE@ ==> p.shuffle == c.shuffle
            &&& key != VOLUME@ ==> p.volume == c.volume
        }),
{
}

/// Whether `key` is one of the keys that a player must have.
pub open spec fn is_required(key: Seq<char>) -> bool {
    ||| key == CAN_CONTROL@
    ||| key == CAN_GO_NEXT@
    ||| key == CAN_GO_PREVIOUS@
    ||| key == CAN_PAUSE@
    ||| key == CAN_PLAY@
    ||| key == CAN_SEEK@
    ||| key == METADATA@
    ||| key == RATE@
    ||| key == PLAYBACK_STATUS@
    ||| key == POSITION@
}

/// Whether a value is a dictionary with strings for keys whose attributes
/// are a track's in full.
pub open spec fn is_track(v: Value) -> bool {
    v matches Value::Dict(entries) && text_keyed(entries@) && well_typed(attributes_of(entries@))
}

/// Whether the attributes hold every required key, and under every key that
/// names a field a value that the field accepts.
pub open spec fn accepted(m: Attributes) -> bool {
    &&& m.contains_key(CAN_CONTROL@) && m[CAN_CONTROL@] is Bool
    &&& m.contains_key(CAN_GO_NEXT@) && m[CAN_GO_NEXT@] is Bool
    &&& m.contains_key(CAN_GO_PREVIOUS@) && m[CAN_GO_PREVIOUS@] is Bool
    &&& m.contains_key(CAN_PAUSE@) && m[CAN_PAUSE@] is Bool
    &&& m.contains_key(CAN_PLAY@) && m[CAN_PLAY@] is Bool
    &&& m.contains_key(CAN_SEEK@) && m[CAN_SEEK@] is Bool
    &&& m.contains_key(METADATA@) && is_track(m[METADATA@])
    &&& m.contains_key(RATE@) && m[RATE@] is F64
    &&& m.contains_key(PLAYBACK_STATUS@) && m[PLAYBACK_STATUS@] is Str && PlaybackStatus::named(
        m[PLAYBACK_STATUS@]->Str_0@,
    ) is Some
    &&& m.contains_key(POSITION@) && is_count(m[POSITION@])
    &&& m.contains_key(SHUFFLE@) ==> m[SHUFFLE@] is Bool
    &&& m.contains_key(LOOP_STATUS@) ==> m[LOOP_STATUS@] is Str && LoopStatus::named(
        m[LOOP_STATUS@]->Str_0@,
    ) is Some
    &&& m.contains_key(MAXIMUM_RATE@) ==> m[MAXIMUM_RATE@] is F64
    &&& m.contains_key(MINIMUM_RATE@) ==> m[MINIMUM_RATE@] is F64
    &&& m.contains_key(VOLUME@) ==> m[VOLUME@] is F64
}

/// Whether the record `c` holds exactly what the attributes `m` hold: each
/// required field the content of its value, each optional field the content
/// of its value where the key is there and nothing where it is not.
pub open spec fn reflects(c: CapabilitiesView, m: Attributes) -> bool {
    &&& c.can_control == m[CAN_CONTROL@]->Bool_0
    &&& c.can_next == m[CAN_GO_NEXT@]->Bool_0
    &&& c.can_previous == m[CAN_GO_PREVIOUS@]->Bool_0
    &&& c.can_pause == m[CAN_PAUSE@]->Bool_0
    &&& c.can_play == m[CAN_PLAY@]->Bool_0
    &&& c.can_seek == m[CAN_SEEK@]->Bool_0
    &&& mirrors(c.metadata, attributes_of(m[METADATA@]->Dict_0@))
    &&& c.rate == m[RATE@]->F64_0
    &&& Some(c.playback_status) == PlaybackStatus::named(m[PLAYBACK_STATUS@]->Str_0@)
    &&& c.position == count_in(m[POSITION@])
    &&& c.shuffle == if m.contains_key(SHUFFLE@) {
        Some(m[SHUFFLE@]->Bool_0)
    } else {
        None
    }
    &&& c.loop_status == if m.contains_key(LOOP_STATUS@) {
        LoopStatus::named(m[LOOP_STATUS@]->Str_0@)
    } else {
        None
    }
    &&& c.max_rate == if m.contains_key(MAXIMUM_RATE@) {
        Some(m[MAXIMUM_RATE@]->F64_0)
    } else {
        None
    }
    &&& c.min_rate == if m.contains_key(MINIMUM_RATE@) {
        Some(m[MINIMUM_RATE@]->F64_0)
    } else {
        None
    }
    &&& c.volume == if m.contains_key(VOLUME@) {
        Some(m[VOLUME@]->F64_0)
    } else {
        None
    }
}

/// Attributes that hold every required key, and under every key a value
/// that its field accepts, are read in full: reading succeeds, and nothing
/// that the attributes hold for a field is dropped or changed.
pub proof fn lemma_accepted_is_read_in_full(m: Attributes)
    requires
        accepted(m),
    ensures
        decode_capabilities(m) is Ok,
        reflects(decode_capabilities(m)->Ok_0, m),
{
    lemma_well_typed_is_read_in_full(attributes_of(m[METADATA@]->Dict_0@));
}

/// Attributes that lack a required key are turned down for a missing field,
/// and the field that the error names is a required key that they lack: the
/// key in question where no other is missing.
pub proof fn lemma_missing_key_is_reported(m: Attributes, key: Seq<char>)
    requires
        is_required(key),
        !m.contains_key(key),
    ensures
        decode_capabilities(m) is Err,
        decode_capabilities(m)->Err_0 is MissingField,
        is_required(decode_capabilities(m)->Err_0->MissingField_0),
        !m.contains_key(decode_capabilities(m)->Err_0->MissingField_0),
        (forall|other: Seq<char>| is_required(other) && other != key ==> m.contains_key(other))
            ==> decode_capabilities(m)->Err_0 == DecodeErrorView::MissingField(key),
{
    assert(is_required(CAN_CONTROL@) && is_required(CAN_GO_NEXT@) && is_required(CAN_GO_PREVIOUS@));
    assert(is_required(CAN_PAUSE@) && is_required(CAN_PLAY@) && is_required(CAN_SEEK@));
    assert(is_required(METADATA@) && is_required(RATE@) && is_required(PLAYBACK_STATUS@));
    assert(is_required(POSITION@));
}

/// The key of the position is the key of no other field.
proof fn lemma_position_stands_alone()
    ensures
        POSITION@ != CAN_CONTROL@,
        POSITION@ != CAN_GO_NEXT@,
        POSITION@ != CAN_GO_PREVIOUS@,
        POSITION@ != CAN_PAUSE@,
        POSITION@ != CAN_PLAY@,
        POSITION@ != CAN_SEEK@,
        POSITION@ != SHUFFLE@,
        POSITION@ != LOOP_STATUS@,
        POSITION@ != MAXIMUM_RATE@,
        POSITION@ != MINIMUM_RATE@,
        POSITION@ != METADATA@,
        POSITION@ != RATE@,
        POSITION@ != PLAYBACK_STATUS@,
        POSITION@ != VOLUME@,
{
    reveal_strlit("Position");
    reveal_strlit("CanControl");
    reveal_strlit("CanGoNext");
    reveal_strlit("CanGoPrevious");
    reveal_strlit("CanPause");
    reveal_strlit("CanPlay");
    reveal_strlit("CanSeek");
    reveal_strlit("Shuffle");
    reveal_strlit("LoopStatus");
    reveal_strlit("MaximumRate");
    reveal_strlit("MinimumRate");
    reveal_strlit("Metadata");
    reveal_strlit("Rate");
    reveal_strlit("PlaybackStatus");
    reveal_strlit("Volume");
    assert(POSITION@[0] != CAN_PAUSE@[0]);
    assert(POSITION@[0] != METADATA@[0]);
    assert(POSITION@[1] != PLAYBACK_STATUS@[1]);
}

/// Whether a player sends its position signed or unsigned makes no
/// difference to what is read: attributes that differ in nothing but the
/// width of a position of the same magnitude are read as the same record, or
/// turned down for the same reason.
pub proof fn lemma_position_width_is_immaterial(m: Attributes, n: u64)
    requires
        n <= i64::MAX,
    ensures
        decode_capabilities(m.insert(POSITION@, Value::I64(n as i64))) == decode_capabilities(
            m.insert(POSITION@, Value::U64(n)),
        ),
{
    lemma_position_stands_alone();
}

/// A record and the reports on the changes that led to it.
pub struct Applied {
    pub capabilities: CapabilitiesView,
    pub reports: Seq<ReportView>,
}

/// One more changed attribute taken over, where `changed` holds `key`: the
/// record is patched and, where the key announces a field, that field is
/// reported; a value that is not accepted leaves the record as it is and its
/// error is reported.
pub open spec fn apply_key(a: Applied, changed: Attributes, key: Seq<char>) -> Applied {
    if !changed.contains_key(key) {
        a
    } else {
        match patched(a.capabilities, key, changed[key]) {
            Ok(c) => Applied {
                capabilities: c,
                reports: match PlayerUpdated::announced_by(key) {
                    Some(field) => a.reports.push(Ok(field)),
                    None => a.reports,
                },
            },
            Err(e) => Applied { capabilities: a.capabilities, reports: a.reports.push(Err(e)) },
        }
    }
}

/// The record `c` after a player has announced the changes in `changed`,
/// with the reports in the order in which the attributes are looked at:
/// first the three whose change is announced to the caller, then the others.
#[verifier::opaque]
pub open spec fn applied(c: CapabilitiesView, changed: Attributes) -> Applied {
    let a = Applied { capabilities: c, reports: Seq::empty() };
    let a = apply_key(a, changed, PLAYBACK_STATUS@);
    let a = apply_key(a, changed, METADATA@);
    let a = apply_key(a, changed, CAN_GO_PREVIOUS@);
    let a = apply_key(a, changed, CAN_CONTROL@);
    let a = apply_key(a, changed, CAN_GO_NEXT@);
    let a = apply_key(a, changed, CAN_PAUSE@);
    let a = apply_key(a, changed, CAN_PLAY@);
    let a = apply_key(a, changed, CAN_SEEK@);
    let a = apply_key(a, changed, SHUFFLE@);
    let a = apply_key(a, changed, LOOP_STATUS@);
    let a = apply_key(a, changed, MAXIMUM_RATE@);
    let a = apply_key(a, changed, MINIMUM_RATE@);
    let a = apply_key(a, changed, RATE@);
    let a = apply_key(a, changed, POSITION@);
    let a = apply_key(a, changed, VOLUME@);
    a
}

impl PlayerCapabilities {
    /// Reads a player's record out of all of its attributes.
    ///
    /// The record is there only where every required field is: first the
    /// required keys are looked for, then every field is read.
    pub fn try_from(map: &AttributeMap) -> (r: Result<PlayerCapabilities, DecodeError>)
        ensures
            outcome(r) == decode_capabilities(map@),
    {
        if !map.contains_key(CAN_CONTROL) {
            return Err(DecodeError::missing(CAN_CONTROL));
        }
        if !map.contains_key(CAN_GO_NEXT) {
            return Err(DecodeError::missing(CAN_GO_NEXT));
        }
        if !map.contains_key(CAN_GO_PREVIOUS) {
            return Err(DecodeError::missing(CAN_GO_PREVIOUS));
        }
        if !map.contains_key(CAN_PAUSE) {
            return Err(DecodeError::missing(CAN_PAUSE));
        }
        if !map.contains_key(CAN_PLAY) {
            return Err(DecodeError::missing(CAN_PLAY));
        }
        if !map.contains_key(CAN_SEEK) {
            return Err(DecodeError::missing(CAN_SEEK));
        }
        if !map.contains_key(METADATA) {
            return Err(DecodeError::missing(METADATA));
        }
        if !map.contains_key(RATE) {
            return Err(DecodeError::missing(RATE));
        }
        if !map.contains_key(PLAYBACK_STATUS) {
            return Err(DecodeError::missing(PLAYBACK_STATUS));
        }
        if !map.contains_key(POSITION) {
            return Err(DecodeError::missing(POSITION));
        }
        let can_control = match required_bool(CAN_CONTROL, map.get(CAN_CONTROL)) {
            Ok(x) => x,
            Err(e) => {
                return Err(e);
            },
        };
        let can_next = match required_bool(CAN_GO_NEXT, map.get(CAN_GO_NEXT)) {
            Ok(x) => x,
            Err(e) => {
                return Err(e);
            },
        };
        let can_previous = match required_bool(CAN_GO_PREVIOUS, map.get(CAN_GO_PREVIOUS)) {
            Ok(x) => x,
            Err(e) => {
                return Err(e);
            },
        };
        let can_pause = match required_bool(CAN_PAUSE, map.get(CAN_PAUSE)) {
            Ok(x) => x,
            Err(e) => {
                return Err(e);
            },
        };
        let can_play = match required_bool(CAN_PLAY, map.get(CAN_PLAY)) {
            Ok(x) => x,
            Err(e) => {
                return Err(e);
            },
        };
        let can_seek = match required_bool(CAN_SEEK, map.get(CAN_SEEK)) {
            Ok(x) => x,
            Err(e) => {
                return Err(e);
            },
        };
        let shuffle = match optional_bool(SHUFFLE, map.get(SHUFFLE)) {
            Ok(x) => x,
            Err(e) => {
                return Err(e);
            },
        };
        let loop_status = match map.get(LOOP_STATUS) {
            Some(v) => match LoopStatus::try_from(v) {
                Ok(x) => Some(x),
                Err(e) => {
                    return Err(e);
                },
            },
            None => None,
        };
        let max_rate = match optional_double(MAXIMUM_RATE, map.get(MAXIMUM_RATE)) {
            Ok(x) => x,
            Err(e) => {
                return Err(e);
            },
        };
        let min_rate = match optional_double(MINIMUM_RATE, map.get(MINIMUM_RATE)) {
            Ok(x) => x,
            Err(e) => {
                return Err(e);
            },
        };
        let metadata = match map.get(METADATA) {
            Some(v) => match Metadata::try_from(v) {
                Ok(x) => x,
                Err(e) => {
                    return Err(e);
                },
            },
            None => {
                return Err(DecodeError::missing(METADATA));
            },
        };
        let rate = match required_double(RATE, map.get(RATE)) {
            Ok(x) => x,
            Err(e) => {
                return Err(e);
            },
        };
        let playback_status = match map.get(PLAYBACK_STATUS) {
            Some(v) => match PlaybackStatus::try_from(v) {
                Ok(x) => x,
                Err(e) => {
                    return Err(e);
                },
            },
            None => {
                return Err(DecodeError::missing(PLAYBACK_STATUS));
            },
        };
        let position = match required_count(POSITION, map.get(POSITION)) {
            Ok(x) => x,
            Err(e) => {
                return Err(e);
            },
        };
        let volume = match optional_double(VOLUME, map.get(VOLUME)) {
            Ok(x) => x,
            Err(e) => {
                return Err(e);
            },
        };
        Ok(
            PlayerCapabilities {
                can_control,
                can_next,
                can_previous,
                can_pause,
                can_play,
                can_seek,
                loop_status,
                max_rate,
                min_rate,
                metadata,
                playback_status,
                position,
                rate,
                shuffle,
                volume,
            },
        )
    }

    /// Takes over the change of one attribute: sets the field that `key`
    /// names to what `value` holds. Where the value is not accepted, or the
    /// key names no field, the record stays as it is.
    pub fn patch(&mut self, key: &str, value: &Value) -> (r: Result<(), DecodeError>)
        ensures
            match r {
                Ok(_) => patched(old(self)@, key@, *value) matches Ok(c) && c == final(self)@,
                Err(e) => {
                    &&& patched(old(self)@, key@, *value) matches Err(why) && why == e@
                    &&& *final(self) == *old(self)
                },
            },
    {
        if same_text(key, PLAYBACK_STATUS) {
            match PlaybackStatus::try_from(value) {
                Ok(x) => {
                    self.playback_status = x;
                },
                Err(e) => {
                    return Err(e);
                },
            }
        } else if same_text(key, METADATA) {
            match Metadata::try_from(value) {
                Ok(x) => {
                    self.metadata = x;
                },
                Err(e) => {
                    return Err(e);
                },
            }
        } else if same_text(key, CAN_GO_PREVIOUS) {
            match read_bool(key, value) {
                Ok(x) => {
                    self.can_previous = x;
                },
                Err(e) => {
                    return Err(e);
                },
            }
        } else if same_text(key, CAN_CONTROL) {
            match read_bool(key, value) {
                Ok(x) => {
                    self.can_control = x;
                },
                Err(e) => {
                    return Err(e);
                },
            }
        } else if same_text(key, CAN_GO_NEXT) {
            match read_bool(key, value) {
                Ok(x) => {
                    self.can_next = x;
                },
                Err(e) => {
                    return Err(e);
                },
            }
        } else if same_text(key, CAN_PAUSE) {
            match read_bool(key, value) {
                Ok(x) => {
                    self.can_pause = x;
                },
                Err(e) => {
                    return Err(e);
                },
            }
        } else if same_text(key, CAN_PLAY) {
            match read_bool(key, value) {
                Ok(x) => {
                    self.can_play = x;
                },
                Err(e) => {
                    return Err(e);
                },
            }
        } else if same_text(key, CAN_SEEK) {
            match read_bool(key, value) {
                Ok(x) => {
                    self.can_seek = x;
                },
                Err(e) => {
                    return Err(e);
                },
            }
        } else if same_text(key, SHUFFLE) {
            match read_bool(key, value) {
                Ok(x) => {
                    self.shuffle = Some(x);
                },
                Err(e) => {
                    return Err(e);
                },
            }
        } else if same_text(key, LOOP_STATUS) {
            match LoopStatus::try_from(value) {
                Ok(x) => {
                    self.loop_status = Some(x);
                },
                Err(e) => {
                    return Err(e);
                },
            }
        } else if same_text(key, MAXIMUM_RATE) {
            match read_double(key, value) {
                Ok(x) => {
                    self.max_rate = Some(x);
                },
                Err(e) => {
                    return Err(e);
                },
            }
        } else if same_text(key, MINIMUM_RATE) {
            match read_double(key, value) {
                Ok(x) => {
                    self.min_rate = Some(x);
                },
                Err(e) => {
                    return Err(e);
                },
            }
        } else if same_text(key, RATE) {
            match read_double(key, value) {
                Ok(x) => {
                    self.rate = x;
                },
                Err(e) => {
                    return Err(e);
                },
            }
        } else if same_text(key, POSITION) {
            match read_count(key, value) {
                Ok(x) => {
                    self.position = x;
                },
                Err(e) => {
                    return Err(e);
                },
            }
        } else if same_text(key, VOLUME) {
            match read_double(key, value) {
                Ok(x) => {
                    self.volume = Some(x);
                },
                Err(e) => {
                    return Err(e);
                },
            }
        }
        Ok(())
    }

    /// Takes over the attribute `key` where `changed` holds it, and adds
    /// what became of it to `reports`.
    fn apply_one(&mut self, changed: &AttributeMap, key: &str, reports: &mut Vec<Report>)
        ensures
            final(self)@ == apply_key(
                Applied { capabilities: old(self)@, reports: reports_view(old(reports)@) },
                changed@,
                key@,
            ).capabilities,
            reports_view(final(reports)@) == apply_key(
                Applied { capabilities: old(self)@, reports: reports_view(old(reports)@) },
                changed@,
                key@,
            ).reports,
    {
        match changed.get(key) {
            None => {},
            Some(value) => match self.patch(key, value) {
                Ok(_) => match PlayerUpdated::for_key(key) {
                    Some(field) => {
                        reports.push(Ok(field));
                        assert(reports_view(reports@) =~= reports_view(old(reports)@).push(
                            Ok(field),
                        ));
                    },
                    None => {},
                },
                Err(e) => {
                    reports.push(Err(e));
                    assert(reports_view(reports@) =~= reports_view(old(reports)@).push(Err(e@)));
                },
            },
        }
    }

    /// Takes over the changes that a player has announced, attribute by
    /// attribute in a fixed order, and reports on each: the field where the
    /// change is one that the caller is told of, the error where the value
    /// was not accepted. A change that was turned down leaves its field as it
    /// was and does not keep the others from being taken over.
    pub fn apply(&mut self, changed: &AttributeMap) -> (reports: Vec<Report>)
        ensures
            final(self)@ == applied(old(self)@, changed@).capabilities,
            reports_view(reports@) == applied(old(self)@, changed@).reports,
    {
        reveal(applied);
        let mut reports: Vec<Report> = Vec::new();
        assert(reports_view(reports@) =~= Seq::empty());
        self.apply_one(changed, PLAYBACK_STATUS, &mut reports);
        self.apply_one(changed, METADATA, &mut reports);
        self.apply_one(changed, CAN_GO_PREVIOUS, &mut reports);
        self.apply_one(changed, CAN_CONTROL, &mut reports);
        self.apply_one(changed, CAN_GO_NEXT, &mut reports);
        self.apply_one(changed, CAN_PAUSE, &mut reports);
        self.apply_one(changed, CAN_PLAY, &mut reports);
        self.apply_one(changed, CAN_SEEK, &mut reports);
        self.apply_one(changed, SHUFFLE, &mut reports);
        self.apply_one(changed, LOOP_STATUS, &mut reports);
        self.apply_one(changed, MAXIMUM_RATE, &mut reports);
        self.apply_one(changed, MINIMUM_RATE, &mut reports);
        self.apply_one(changed, RATE, &mut reports);
        self.apply_one(changed, POSITION, &mut reports);
        self.apply_one(changed, VOLUME, &mut reports);
        reports
    }
}

} // verus!

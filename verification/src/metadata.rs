//! What a player says of the track that it holds.

use vstd::prelude::*;

use crate::error::{outcome, DecodeError, DecodeErrorView, Expected, Read};
use crate::field::{
    attributes_of, count_in, count_of, double_of, has_text_keys, identifier_in, identifier_of,
    int32_of, is_count, is_text_list, lookup, mismatch, optional, optional_count, optional_double,
    optional_int32, optional_text, optional_text_list, required, required_identifier,
    required_text, required_text_list, text_keyed, text_list_of, text_of, texts_of, Attributes,
};
use crate::value::{Double, Value};

verus! {

/// The key under which a player publishes its track's attributes.
pub const METADATA: &'static str = "Metadata";

/// The key of the address of the track's cover.
pub const ART_URL: &'static str = "mpris:artUrl";

/// The key of the track's length.
pub const LENGTH: &'static str = "mpris:length";

/// The key of the track's identifier.
pub const TRACK_ID: &'static str = "mpris:trackid";

/// The key of the album.
pub const ALBUM: &'static str = "xesam:album";

/// The key of the track's artists.
pub const ARTIST: &'static str = "xesam:artist";

/// The key of the title.
pub const TITLE: &'static str = "xesam:title";

/// The key of the track's address.
pub const URL: &'static str = "xesam:url";

/// The key of the album's artists.
pub const ALBUM_ARTIST: &'static str = "xesam:albumArtist";

/// The key of the track's number on its disc.
pub const TRACK_NUMBER: &'static str = "xesam:trackNumber";

/// The key of the disc's number in its album.
pub const DISC_NUMBER: &'static str = "xesam:discNumber";

/// The key of the rating that the player has worked out.
pub const AUTO_RATING: &'static str = "xesam:autoRating";

/// The attributes of one track.
///
/// The identifier, the artists, the title and the address are always there;
/// each other field is unset where the player did not publish it.
#[derive(Debug, PartialEq, Eq)]
pub struct Metadata {
    pub art_url: Option<String>,
    pub length: Option<u64>,
    pub trackid: String,
    pub album: Option<String>,
    pub artists: Vec<String>,
    pub title: String,
    pub url: String,
    pub track_number: Option<i32>,
    pub disc_number: Option<i32>,
    pub auto_rating: Option<Double>,
    pub album_artists: Option<Vec<String>>,
}

/// A [`Metadata`] with its strings as sequences of characters.
pub struct MetadataView {
    pub art_url: Option<Seq<char>>,
    pub length: Option<u64>,
    pub trackid: Seq<char>,
    pub album: Option<Seq<char>>,
    pub artists: Seq<Seq<char>>,
    pub title: Seq<char>,
    pub url: Seq<char>,
    pub track_number: Option<i32>,
    pub disc_number: Option<i32>,
    pub auto_rating: Option<Double>,
    pub album_artists: Option<Seq<Seq<char>>>,
}

impl View for Metadata {
    type V = MetadataView;

    open spec fn view(&self) -> MetadataView {
        MetadataView {
            art_url: self.art_url.deep_view(),
            length: self.length,
            trackid: self.trackid@,
            album: self.album.deep_view(),
            artists: self.artists.deep_view(),
            title: self.title@,
            url: self.url@,
            track_number: self.track_number,
            disc_number: self.disc_number,
            auto_rating: self.auto_rating,
            album_artists: self.album_artists.deep_view(),
        }
    }
}

impl Clone for Metadata {
    fn clone(&self) -> (copy: Metadata)
        ensures
            copy@ == self@,
    {
        let copy = Metadata {
            art_url: self.art_url.clone(),
            length: self.length,
            trackid: self.trackid.clone(),
            album: self.album.clone(),
            artists: self.artists.clone(),
            title: self.title.clone(),
            url: self.url.clone(),
            track_number: self.track_number,
            disc_number: self.disc_number,
            auto_rating: self.auto_rating,
            album_artists: self.album_artists.clone(),
        };
        assert(copy.artists.deep_view() =~= self.artists.deep_view());
        assert(copy.album_artists.deep_view() =~= self.album_artists.deep_view()) by {
            if self.album_artists is Some {
                assert(copy.album_artists->0.deep_view() =~= self.album_artists->0.deep_view());
            }
        }
        copy
    }
}

impl DeepView for Metadata {
    type V = MetadataView;

    open spec fn deep_view(&self) -> MetadataView {
        self@
    }
}

/// The first required key, in the order in which the fields are read, that
/// the attributes lack.
pub open spec fn missing_key(m: Attributes) -> Option<Seq<char>> {
    if !m.contains_key(TRACK_ID@) {
        Some(TRACK_ID@)
    } else if !m.contains_key(ARTIST@) {
        Some(ARTIST@)
    } else if !m.contains_key(TITLE@) {
        Some(TITLE@)
    } else if !m.contains_key(URL@) {
        Some(URL@)
    } else {
        None
    }
}

/// What the attributes hold for the address of the cover.
pub open spec fn art_url_in(m: Attributes) -> Read<Option<Seq<char>>> {
    optional(m.contains_key(ART_URL@), text_of(ART_URL@, m[ART_URL@]))
}

/// What the attributes hold for the length.
pub open spec fn length_in(m: Attributes) -> Read<Option<u64>> {
    optional(m.contains_key(LENGTH@), count_of(LENGTH@, m[LENGTH@]))
}

/// What the attributes hold for the identifier.
pub open spec fn trackid_in(m: Attributes) -> Read<Seq<char>> {
    required(TRACK_ID@, m.contains_key(TRACK_ID@), identifier_of(TRACK_ID@, m[TRACK_ID@]))
}

/// What the attributes hold for the album.
pub open spec fn album_in(m: Attributes) -> Read<Option<Seq<char>>> {
    optional(m.contains_key(ALBUM@), text_of(ALBUM@, m[ALBUM@]))
}

/// What the attributes hold for the artists.
pub open spec fn artists_in(m: Attributes) -> Read<Seq<Seq<char>>> {
    required(ARTIST@, m.contains_key(ARTIST@), text_list_of(ARTIST@, m[ARTIST@]))
}

/// What the attributes hold for the title.
pub open spec fn title_in(m: Attributes) -> Read<Seq<char>> {
    required(TITLE@, m.contains_key(TITLE@), text_of(TITLE@, m[TITLE@]))
}

/// What the attributes hold for the address.
pub open spec fn url_in(m: Attributes) -> Read<Seq<char>> {
    required(URL@, m.contains_key(URL@), text_of(URL@, m[URL@]))
}

/// What the attributes hold for the album's artists.
pub open spec fn album_artists_in(m: Attributes) -> Read<Option<Seq<Seq<char>>>> {
    optional(m.contains_key(ALBUM_ARTIST@), text_list_of(ALBUM_ARTIST@, m[ALBUM_ARTIST@]))
}

/// What the attributes hold for the track's number.
pub open spec fn track_number_in(m: Attributes) -> Read<Option<i32>> {
    optional(m.contains_key(TRACK_NUMBER@), int32_of(TRACK_NUMBER@, m[TRACK_NUMBER@]))
}

/// What the attributes hold for the disc's number.
pub open spec fn disc_number_in(m: Attributes) -> Read<Option<i32>> {
    optional(m.contains_key(DISC_NUMBER@), int32_of(DISC_NUMBER@, m[DISC_NUMBER@]))
}

/// What the attributes hold for the rating.
pub open spec fn auto_rating_in(m: Attributes) -> Read<Option<Double>> {
    optional(m.contains_key(AUTO_RATING@), double_of(AUTO_RATING@, m[AUTO_RATING@]))
}

/// Why the attributes are no track's: the first required key that is absent
/// or, where all are there, the error of the first field, in the order in
/// which the fields are read, whose value is not accepted.
pub open spec fn metadata_error(m: Attributes) -> Option<DecodeErrorView> {
    if missing_key(m) is Some {
        Some(DecodeErrorView::MissingField(missing_key(m)->0))
    } else if art_url_in(m) is Err {
        Some(art_url_in(m)->Err_0)
    } else if length_in(m) is Err {
        Some(length_in(m)->Err_0)
    } else if trackid_in(m) is Err {
        Some(trackid_in(m)->Err_0)
    } else if album_in(m) is Err {
        Some(album_in(m)->Err_0)
    } else if artists_in(m) is Err {
        Some(artists_in(m)->Err_0)
    } else if title_in(m) is Err {
        Some(title_in(m)->Err_0)
    } else if url_in(m) is Err {
        Some(url_in(m)->Err_0)
    } else if album_artists_in(m) is Err {
        Some(album_artists_in(m)->Err_0)
    } else if track_number_in(m) is Err {
        Some(track_number_in(m)->Err_0)
    } else if disc_number_in(m) is Err {
        Some(disc_number_in(m)->Err_0)
    } else if auto_rating_in(m) is Err {
        Some(auto_rating_in(m)->Err_0)
    } else {
        None
    }
}

/// The track that a map of attributes describes.
pub open spec fn decode_metadata(m: Attributes) -> Read<MetadataView> {
    match metadata_error(m) {
        Some(e) => Err(e),
        None => Ok(
            MetadataView {
                art_url: art_url_in(m)->Ok_0,
                length: length_in(m)->Ok_0,
                trackid: trackid_in(m)->Ok_0,
                album: album_in(m)->Ok_0,
                artists: artists_in(m)->Ok_0,
                title: title_in(m)->Ok_0,
                url: url_in(m)->Ok_0,
                track_number: track_number_in(m)->Ok_0,
                disc_number: disc_number_in(m)->Ok_0,
                auto_rating: auto_rating_in(m)->Ok_0,
                album_artists: album_artists_in(m)->Ok_0,
            },
        ),
    }
}

/// The track that a value describes: a dictionary with strings for keys
/// whose attributes are a track's.
pub open spec fn metadata_of(v: Value) -> Read<MetadataView> {
    match v {
        Value::Dict(entries) => if text_keyed(entries@) {
            decode_metadata(attributes_of(entries@))
        } else {
            Err(mismatch(METADATA@, Expected::Dictionary, v))
        },
        _ => Err(mismatch(METADATA@, Expected::Dictionary, v)),
    }
}

/// Whether `key` is one of the keys that a track must have.
pub open spec fn is_required(key: Seq<char>) -> bool {
    key == TRACK_ID@ || key == ARTIST@ || key == TITLE@ || key == URL@
}

/// Whether the attributes hold every required key, and under every key that
/// names a field a value that the field accepts.
pub open spec fn well_typed(m: Attributes) -> bool {
    &&& m.contains_key(TRACK_ID@) && (m[TRACK_ID@] is ObjectPath || m[TRACK_ID@] is Str)
    &&& m.contains_key(ARTIST@) && is_text_list(m[ARTIST@])
    &&& m.contains_key(TITLE@) && m[TITLE@] is Str
    &&& m.contains_key(URL@) && m[URL@] is Str
    &&& m.contains_key(ART_URL@) ==> m[ART_URL@] is Str
    &&& m.contains_key(LENGTH@) ==> is_count(m[LENGTH@])
    &&& m.contains_key(ALBUM@) ==> m[ALBUM@] is Str
    &&& m.contains_key(ALBUM_ARTIST@) ==> is_text_list(m[ALBUM_ARTIST@])
    &&& m.contains_key(TRACK_NUMBER@) ==> m[TRACK_NUMBER@] is I32
    &&& m.contains_key(DISC_NUMBER@) ==> m[DISC_NUMBER@] is I32
    &&& m.contains_key(AUTO_RATING@) ==> m[AUTO_RATING@] is F64
}

/// Whether the track `d` holds exactly what the attributes `m` hold: each
/// required field the content of its value, each optional field the content
/// of its value where the key is there and nothing where it is not.
pub open spec fn mirrors(d: MetadataView, m: Attributes) -> bool {
    &&& d.trackid == identifier_in(m[TRACK_ID@])
    &&& d.artists == texts_of(m[ARTIST@]->Array_0@)
    &&& d.title == m[TITLE@]->Str_0@
    &&& d.url == m[URL@]->Str_0@
    &&& d.art_url == if m.contains_key(ART_URL@) {
        Some(m[ART_URL@]->Str_0@)
    } else {
        None
    }
    &&& d.length == if m.contains_key(LENGTH@) {
        Some(count_in(m[LENGTH@]))
    } else {
        None
    }
    &&& d.album == if m.contains_key(ALBUM@) {
        Some(m[ALBUM@]->Str_0@)
    } else {
        None
    }
    &&& d.album_artists == if m.contains_key(ALBUM_ARTIST@) {
        Some(texts_of(m[ALBUM_ARTIST@]->Array_0@))
    } else {
        None
    }
    &&& d.track_number == if m.contains_key(TRACK_NUMBER@) {
        Some(m[TRACK_NUMBER@]->I32_0)
    } else {
        None
    }
    &&& d.disc_number == if m.contains_key(DISC_NUMBER@) {
        Some(m[DISC_NUMBER@]->I32_0)
    } else {
        None
    }
    &&& d.auto_rating == if m.contains_key(AUTO_RATING@) {
        Some(m[AUTO_RATING@]->F64_0)
    } else {
        None
    }
}

/// Attributes that hold every required key, and under every key a value
/// that its field accepts, are read in full: reading succeeds, and nothing
/// that the attributes hold for a field is dropped or changed.
pub proof fn lemma_well_typed_is_read_in_full(m: Attributes)
    requires
        well_typed(m),
    ensures
        decode_metadata(m) is Ok,
        mirrors(decode_metadata(m)->Ok_0, m),
{
}

/// Attributes that lack a required key are turned down for a missing field,
/// and the field that the error names is a required key that they lack: the
/// key in question where no other is missing.
pub proof fn lemma_missing_key_is_reported(m: Attributes, key: Seq<char>)
    requires
        is_required(key),
        !m.contains_key(key),
    ensures
        decode_metadata(m) is Err,
        decode_metadata(m)->Err_0 is MissingField,
        is_required(decode_metadata(m)->Err_0->MissingField_0),
        !m.contains_key(decode_metadata(m)->Err_0->MissingField_0),
        (forall|other: Seq<char>| is_required(other) && other != key ==> m.contains_key(other))
            ==> decode_metadata(m)->Err_0 == DecodeErrorView::MissingField(key),
{
    assert(is_required(TRACK_ID@) && is_required(ARTIST@) && is_required(TITLE@) && is_required(
        URL@,
    ));
}

/// The key of the length is the key of no other field.
proof fn lemma_length_stands_alone()
    ensures
        LENGTH@ != ART_URL@,
        LENGTH@ != TRACK_ID@,
        LENGTH@ != ALBUM@,
        LENGTH@ != ARTIST@,
        LENGTH@ != TITLE@,
        LENGTH@ != URL@,
        LENGTH@ != ALBUM_ARTIST@,
        LENGTH@ != TRACK_NUMBER@,
        LENGTH@ != DISC_NUMBER@,
        LENGTH@ != AUTO_RATING@,
{
    reveal_strlit("mpris:length");
    reveal_strlit("mpris:artUrl");
    reveal_strlit("mpris:trackid");
    reveal_strlit("xesam:album");
    reveal_strlit("xesam:artist");
    reveal_strlit("xesam:title");
    reveal_strlit("xesam:url");
    reveal_strlit("xesam:albumArtist");
    reveal_strlit("xesam:trackNumber");
    reveal_strlit("xesam:discNumber");
    reveal_strlit("xesam:autoRating");
    assert(LENGTH@[6] != ART_URL@[6]);
    assert(LENGTH@[0] != ARTIST@[0]);
    assert(LENGTH@[0] != TITLE@[0]);
}

/// Whether a player sends a track's length signed or unsigned makes no
/// difference to what is read: attributes that differ in nothing but the
/// width of a length of the same magnitude are read as the same track, or
/// turned down for the same reason.
pub proof fn lemma_length_width_is_immaterial(m: Attributes, n: u64)
    requires
        n <= i64::MAX,
    ensures
        decode_metadata(m.insert(LENGTH@, Value::I64(n as i64))) == decode_metadata(
            m.insert(LENGTH@, Value::U64(n)),
        ),
{
    lemma_length_stands_alone();
}

impl Metadata {
    /// Reads a track's attributes out of the value that a player publishes
    /// under [`METADATA`].
    pub fn try_from(value: &Value) -> (r: Result<Metadata, DecodeError>)
        ensures
            outcome(r) == metadata_of(*value),
    {
        match value {
            Value::Dict(entries) => {
                if has_text_keys(entries) {
                    Metadata::from_entries(entries)
                } else {
                    Err(DecodeError::mismatch(METADATA, Expected::Dictionary, value.kind()))
                }
            },
            _ => Err(DecodeError::mismatch(METADATA, Expected::Dictionary, value.kind())),
        }
    }

    /// Reads a track's attributes out of the entries of a dictionary.
    fn from_entries(entries: &Vec<(Value, Value)>) -> (r: Result<Metadata, DecodeError>)
        ensures
            outcome(r) == decode_metadata(attributes_of(entries@)),
    {
        if lookup(entries, TRACK_ID).is_none() {
            return Err(DecodeError::missing(TRACK_ID));
        }
        if lookup(entries, ARTIST).is_none() {
            return Err(DecodeError::missing(ARTIST));
        }
        if lookup(entries, TITLE).is_none() {
            return Err(DecodeError::missing(TITLE));
        }
        if lookup(entries, URL).is_none() {
            return Err(DecodeError::missing(URL));
        }
        let art_url = match optional_text(ART_URL, lookup(entries, ART_URL)) {
            Ok(x) => x,
            Err(e) => {
                return Err(e);
            },
        };
        let length = match optional_count(LENGTH, lookup(entries, LENGTH)) {
            Ok(x) => x,
            Err(e) => {
                return Err(e);
            },
        };
        let trackid = match required_identifier(TRACK_ID, lookup(entries, TRACK_ID)) {
            Ok(x) => x,
            Err(e) => {
                return Err(e);
            },
        };
        let album = match optional_text(ALBUM, lookup(entries, ALBUM)) {
            Ok(x) => x,
            Err(e) => {
                return Err(e);
            },
        };
        let artists = match required_text_list(ARTIST, lookup(entries, ARTIST)) {
            Ok(x) => x,
            Err(e) => {
                return Err(e);
            },
        };
        let title = match required_text(TITLE, lookup(entries, TITLE)) {
            Ok(x) => x,
            Err(e) => {
                return Err(e);
            },
        };
        let url = match required_text(URL, lookup(entries, URL)) {
            Ok(x) => x,
            Err(e) => {
                return Err(e);
            },
        };
        let album_artists = match optional_text_list(ALBUM_ARTIST, lookup(entries, ALBUM_ARTIST)) {
            Ok(x) => x,
            Err(e) => {
                return Err(e);
            },
        };
        let track_number = match optional_int32(TRACK_NUMBER, lookup(entries, TRACK_NUMBER)) {
            Ok(x) => x,
            Err(e) => {
                return Err(e);
            },
        };
        let disc_number = match optional_int32(DISC_NUMBER, lookup(entries, DISC_NUMBER)) {
            Ok(x) => x,
            Err(e) => {
                return Err(e);
            },
        };
        let auto_rating = match optional_double(AUTO_RATING, lookup(entries, AUTO_RATING)) {
            Ok(x) => x,
            Err(e) => {
                return Err(e);
            },
        };
        Ok(
            Metadata {
                art_url,
                length,
                trackid,
                album,
                artists,
                title,
                url,
                track_number,
                disc_number,
                auto_rating,
                album_artists,
            },
        )
    }
}

} // verus!

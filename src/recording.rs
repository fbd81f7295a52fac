//! Recording resolution: a lookup by artist and title, and on an empty answer a
//! second lookup under the artist's canonical name.
use crate::audio_data::{ArtistData, AudioFileData};
use crate::mbid::{uuid_of, Mbid};
use vstd::prelude::*;

verus! {

/// Address of the metadata-lookup service.
pub const LOOKUP_BASE: &'static str = "https://api.listenbrainz.org/1/metadata/lookup/";

/// Field of a lookup answer that holds the recording identifier.
pub const RECORDING_FIELD: &'static str = "recording_mbid";

/// A lookup answer, as far as resolution reads it.
#[derive(Debug, Clone, PartialEq, Eq)]
pub enum LookupReply {
    /// The answer is not a JSON object.
    NotObject,
    /// A JSON object: whether it has no field, and the identifier field when it
    /// is present and holds a string.
    Object { empty: bool, recording_mbid: Option<String> },
}

/// The plain content of a [`LookupReply`].
pub ghost enum ReplyView {
    NotObject,
    Object { empty: bool, recording_mbid: Option<Seq<char>> },
}

impl View for LookupReply {
    type V = ReplyView;

    open spec fn view(&self) -> ReplyView {
        match self {
            LookupReply::NotObject => ReplyView::NotObject,
            LookupReply::Object { empty, recording_mbid } => ReplyView::Object {
                empty: *empty,
                recording_mbid: match recording_mbid {
                    Some(s) => Some(s@),
                    None => None,
                },
            },
        }
    }
}

/// What `serde_json` reads from an answer `body`, asked for the string `field`.
pub uninterp spec fn reply_of(body: Seq<char>, field: Seq<char>) -> ReplyView;

/// What `url::Url::parse_with_params` makes of a base address and two query pairs.
pub uninterp spec fn url_of(
    base: Seq<char>,
    k1: Seq<char>,
    v1: Seq<char>,
    k2: Seq<char>,
    v2: Seq<char>,
) -> Option<Seq<char>>;

/// Relies on `serde_json::from_str`, `Map::is_empty`, `Map::get` and
/// `Value::as_str`: reads an answer body as a JSON value.
#[verifier::external_body]
fn decode_reply(body: &str, field: &str) -> (r: LookupReply)
    ensures
        r@ == reply_of(body@, field@),
{
    match serde_json::from_str::<serde_json::Value>(body) {
        Ok(serde_json::Value::Object(m)) => LookupReply::Object {
            empty: m.is_empty(),
            recording_mbid: m.get(field).and_then(|v| v.as_str()).map(|s| s.to_string()),
        },
        _ => LookupReply::NotObject,
    }
}

/// Relies on `url::Url::parse_with_params`: the address with the pairs encoded
/// as its query, or nothing when `base` is not an address.
#[verifier::external_body]
fn url_with_pairs(base: &str, k1: &str, v1: &str, k2: &str, v2: &str) -> (r: Option<String>)
    ensures
        match r {
            Some(u) => url_of(base@, k1@, v1@, k2@, v2@) == Some(u@),
            None => url_of(base@, k1@, v1@, k2@, v2@) is None,
        },
{
    url::Url::parse_with_params(base, &[(k1, v1), (k2, v2)]).ok().map(|u| u.to_string())
}

/// Reads a lookup answer body.
pub fn parse_lookup_reply(body: &str) -> (r: LookupReply)
    ensures
        r@ == reply_of(body@, RECORDING_FIELD@),
{
    decode_reply(body, RECORDING_FIELD)
}

/// The address of the lookup of `title` by `artist`.
pub fn lookup_url(artist: &str, title: &str) -> (r: Option<String>)
    ensures
        match r {
            Some(u) => url_of(LOOKUP_BASE@, "artist_name"@, artist@, "recording_name"@, title@)
                == Some(u@),
            None => url_of(LOOKUP_BASE@, "artist_name"@, artist@, "recording_name"@, title@) is None,
        },
{
    url_with_pairs(LOOKUP_BASE, "artist_name", artist, "recording_name", title)
}

/// What a lookup answer means for resolution.
#[derive(Debug, Clone, Copy, PartialEq, Eq, Structural)]
pub enum ReplyMeaning {
    /// No usable result: an empty object.
    Empty,
    /// A result whose identifier is missing or not well formed.
    Malformed,
    /// A result with a well-formed identifier.
    Found(Mbid),
}

pub open spec fn reply_meaning(reply: ReplyView) -> ReplyMeaning {
    match reply {
        ReplyView::NotObject => ReplyMeaning::Malformed,
        ReplyView::Object { empty, recording_mbid } => if empty {
            ReplyMeaning::Empty
        } else {
            match recording_mbid {
                None => ReplyMeaning::Malformed,
                Some(t) => match uuid_of(t) {
                    Some(v) => ReplyMeaning::Found(Mbid { value: v }),
                    None => ReplyMeaning::Malformed,
                },
            }
        },
    }
}

/// Classifies a lookup answer.
pub fn interpret_reply(reply: &LookupReply) -> (r: ReplyMeaning)
    ensures
        r == reply_meaning(reply@),
{
    match reply {
        LookupReply::NotObject => ReplyMeaning::Malformed,
        LookupReply::Object { empty, recording_mbid } => {
            if *empty {
                ReplyMeaning::Empty
            } else {
                match recording_mbid {
                    None => ReplyMeaning::Malformed,
                    Some(t) => match Mbid::parse(t.as_str()) {
                        Some(id) => ReplyMeaning::Found(id),
                        None => ReplyMeaning::Malformed,
                    },
                }
            }
        },
    }
}

/// Why a track could not be resolved.
#[derive(Debug, Clone, PartialEq, Eq)]
pub enum ResolveError {
    /// The service could not be reached or answered with a failure.
    RemoteService,
    /// Both lookups came back empty.
    Unresolved { artist: String, title: String },
    /// An answer did not hold a well-formed identifier.
    Malformed,
}

/// Where a recording resolution stands.
#[derive(Debug, Clone, Copy, PartialEq, Eq, Structural)]
pub enum Phase {
    /// Waiting for the answer to the lookup under the artist text as given.
    FirstLookup,
    /// Waiting for the artist to be resolved.
    ArtistLookup,
    /// Waiting for the answer to the lookup under the resolved artist name.
    SecondLookup,
    /// Over.
    Finished,
}

/// The next thing a recording resolution needs.
#[derive(Debug, PartialEq, Eq)]
pub enum RecordingStep {
    /// Look up `title` by `artist`.
    Lookup { artist: String, title: String },
    /// Resolve this artist text.
    ResolveArtist(String),
    /// Resolution is over.
    Finished(Result<Mbid, ResolveError>),
}

/// The state of the resolution of one described track.
pub struct RecordingResolution {
    pub data: AudioFileData,
    pub phase: Phase,
}

/// The outcome that an answer gives, given the phase it answers: an empty answer
/// to the second lookup leaves the track unresolved.
pub open spec fn finished_as(
    r: RecordingStep,
    meaning: ReplyMeaning,
    artist: Seq<char>,
    title: Seq<char>,
) -> bool {
    match meaning {
        ReplyMeaning::Found(id) => r == RecordingStep::Finished(Ok(id)),
        ReplyMeaning::Malformed => r == RecordingStep::Finished(Err(ResolveError::Malformed)),
        ReplyMeaning::Empty => match r {
            RecordingStep::Finished(Err(ResolveError::Unresolved { artist: a, title: t })) => a@
                == artist && t@ == title,
            _ => false,
        },
    }
}

impl RecordingResolution {
    /// Starts the resolution of `data` with a lookup under its own artist and title.
    pub fn start(data: AudioFileData) -> (r: (RecordingResolution, RecordingStep))
        ensures
            r.0.data == data,
            r.0.phase == Phase::FirstLookup,
            match r.1 {
                RecordingStep::Lookup { artist, title } => artist@ == data.artist@ && title@
                    == data.title@,
                _ => false,
            },
    {
        let step = RecordingStep::Lookup {
            artist: data.artist.clone(),
            title: data.title.clone(),
        };
        (RecordingResolution { data, phase: Phase::FirstLookup }, step)
    }

    /// Takes the answer to the pending lookup. An empty answer to the first lookup
    /// asks for the artist to be resolved; every other answer ends the resolution.
    pub fn on_reply(&mut self, reply: &LookupReply) -> (r: RecordingStep)
        requires
            old(self).phase == Phase::FirstLookup || old(self).phase == Phase::SecondLookup,
        ensures
            final(self).data == old(self).data,
            old(self).phase == Phase::FirstLookup && reply_meaning(reply@) == ReplyMeaning::Empty
                ==> final(self).phase == Phase::ArtistLookup && match r {
                RecordingStep::ResolveArtist(a) => a@ == old(self).data.artist@,
                _ => false,
            },
            !(old(self).phase == Phase::FirstLookup && reply_meaning(reply@) == ReplyMeaning::Empty)
                ==> final(self).phase == Phase::Finished && finished_as(
                r,
                reply_meaning(reply@),
                old(self).data.artist@,
                old(self).data.title@,
            ),
    {
        let meaning = interpret_reply(reply);
        match meaning {
            ReplyMeaning::Found(id) => {
                self.phase = Phase::Finished;
                RecordingStep::Finished(Ok(id))
            },
            ReplyMeaning::Malformed => {
                self.phase = Phase::Finished;
                RecordingStep::Finished(Err(ResolveError::Malformed))
            },
            ReplyMeaning::Empty => {
                if self.phase == Phase::FirstLookup {
                    self.phase = Phase::ArtistLookup;
                    RecordingStep::ResolveArtist(self.data.artist.clone())
                } else {
                    self.phase = Phase::Finished;
                    RecordingStep::Finished(
                        Err(
                            ResolveError::Unresolved {
                                artist: self.data.artist.clone(),
                                title: self.data.title.clone(),
                            },
                        ),
                    )
                }
            },
        }
    }

    /// Takes the resolved artist: the second lookup goes under its display name.
    pub fn on_artist(&mut self, artist: &ArtistData) -> (r: RecordingStep)
        requires
            old(self).phase == Phase::ArtistLookup,
        ensures
            final(self).data == old(self).data,
            final(self).phase == Phase::SecondLookup,
            match r {
                RecordingStep::Lookup { artist: a, title: t } => a@ == artist.artist_tag@ && t@
                    == old(self).data.title@,
                _ => false,
            },
    {
        self.phase = Phase::SecondLookup;
        RecordingStep::Lookup {
            artist: artist.artist_tag.clone(),
            title: self.data.title.clone(),
        }
    }

    /// The service could not be reached: the resolution ends with that error.
    pub fn on_failure(&mut self) -> (r: RecordingStep)
        ensures
            final(self).data == old(self).data,
            final(self).phase == Phase::Finished,
            r == RecordingStep::Finished(Err(ResolveError::RemoteService)),
    {
        self.phase = Phase::Finished;
        RecordingStep::Finished(Err(ResolveError::RemoteService))
    }
}

/// The fallback lookup is asked for exactly when the first answer is an empty
/// object; a non-empty answer without a well-formed identifier is malformed.
pub proof fn lemma_fallback_only_on_empty(reply: ReplyView)
    ensures
        (reply_meaning(reply) == ReplyMeaning::Empty) <==> (reply matches ReplyView::Object {
            empty,
            ..
        } && empty),
        (reply matches ReplyView::Object { empty, recording_mbid } && !empty && (
        recording_mbid is None || uuid_of(recording_mbid->0) is None)) ==> reply_meaning(reply)
            == ReplyMeaning::Malformed,
{
}

} // verus!

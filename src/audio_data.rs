//! What is known of one track before resolution, and of one artist after it.
use crate::mbid::{uuid_of, Mbid};
use vstd::prelude::*;

verus! {

/// Free-text description of a track, as read from its tags.
#[derive(Debug, Clone, PartialEq, Eq)]
pub struct AudioFileData {
    pub artist: String,
    pub title: String,
    pub album: Option<String>,
}

/// The identity of a track: a trusted identifier, or a description to resolve.
#[derive(Debug, Clone, PartialEq, Eq)]
pub enum AudioIDData {
    Mbid(Mbid),
    AudioFileData(AudioFileData),
}

/// A resolved artist: its display name and, when found, its identifier.
#[derive(Debug, Clone, PartialEq, Eq)]
pub struct ArtistData {
    pub artist_tag: String,
    pub mbid: Option<Mbid>,
}

/// The tags of a file from which no identity could be read.
#[derive(Debug, Clone, Copy, PartialEq, Eq, Structural)]
pub struct UnreadableMetadata;

impl View for ArtistData {
    type V = (Seq<char>, Option<Mbid>);

    open spec fn view(&self) -> (Seq<char>, Option<Mbid>) {
        (self.artist_tag@, self.mbid)
    }
}

/// What `str::trim` leaves of a text.
pub uninterp spec fn trim_of(s: Seq<char>) -> Seq<char>;

/// Relies on `str::trim`: the text without leading and trailing whitespace.
#[verifier::external_body]
fn trimmed(s: &str) -> (r: &str)
    ensures
        r@ == trim_of(s@),
{
    s.trim()
}

/// A text that holds more than whitespace.
pub open spec fn has_content(s: Seq<char>) -> bool {
    trim_of(s).len() > 0
}

/// The album as kept: an empty album counts as none.
pub open spec fn album_kept(album: Option<Seq<char>>) -> Option<Seq<char>> {
    match album {
        Some(a) => if a.len() > 0 { Some(a) } else { None },
        None => None,
    }
}

pub open spec fn opt_view(o: Option<String>) -> Option<Seq<char>> {
    match o {
        Some(s) => Some(s@),
        None => None,
    }
}

/// An identifier tag is present and well formed.
pub open spec fn tag_parses(tag: Option<Seq<char>>) -> bool {
    tag is Some && uuid_of(tag->0) is Some
}

/// Artist and title are present and hold more than whitespace.
pub open spec fn describes(artist: Option<Seq<char>>, title: Option<Seq<char>>) -> bool {
    artist is Some && title is Some && has_content(artist->0) && has_content(title->0)
}

impl AudioFileData {
    /// A description that can be resolved: artist and title hold more than whitespace.
    pub open spec fn well_formed(&self) -> bool {
        has_content(self.artist@) && has_content(self.title@)
    }
}

fn text_has_content(s: &str) -> (r: bool)
    ensures
        r == has_content(s@),
{
    !trimmed(s).is_empty()
}

/// Decides the identity of a track from the tags read from its file.
///
/// An identifier tag that parses wins; otherwise artist and title must both hold
/// more than whitespace, and an empty album is dropped.
pub fn identity_from_tags(
    mbid_tag: Option<String>,
    artist: Option<String>,
    title: Option<String>,
    album: Option<String>,
) -> (r: Result<AudioIDData, UnreadableMetadata>)
    ensures
        if tag_parses(opt_view(mbid_tag)) {
            r == Ok::<AudioIDData, UnreadableMetadata>(
                AudioIDData::Mbid(Mbid { value: uuid_of(opt_view(mbid_tag)->0)->0 }),
            )
        } else if describes(opt_view(artist), opt_view(title)) {
            match r {
                Ok(AudioIDData::AudioFileData(d)) => Some(d.artist@) == opt_view(artist)
                    && Some(d.title@) == opt_view(title) && opt_view(d.album) == album_kept(
                    opt_view(album),
                ) && d.well_formed(),
                _ => false,
            }
        } else {
            r == Err::<AudioIDData, UnreadableMetadata>(UnreadableMetadata)
        },
{
    if let Some(t) = &mbid_tag {
        if let Some(id) = Mbid::parse(t.as_str()) {
            return Ok(AudioIDData::Mbid(id));
        }
    }
    match (artist, title) {
        (Some(a), Some(t)) => {
            if text_has_content(a.as_str()) && text_has_content(t.as_str()) {
                let album = match album {
                    Some(b) => if !b.as_str().is_empty() { Some(b) } else { None },
                    None => None,
                };
                Ok(AudioIDData::AudioFileData(AudioFileData { artist: a, title: t, album }))
            } else {
                Err(UnreadableMetadata)
            }
        },
        _ => Err(UnreadableMetadata),
    }
}

} // verus!

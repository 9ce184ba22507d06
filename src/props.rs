use vstd::prelude::*;
use vstd::string::StringExecFns;
use crate::bitmap::{bytes_view, placeholder, placeholder_value, ref_to_thumb, thumbnail_of, Bitmap};

verus! {

/// The kind of media a session plays.
#[derive(Debug, Clone, Copy, PartialEq, Eq, Structural)]
pub struct SPT(pub i8);

impl SPT {
    /// The number of each kind.
    pub const UNKNOWN: i8 = 0;
    pub const AUDIO: i8 = 1;
    pub const VIDEO: i8 = 2;
    pub const IMAGE: i8 = 3;

    /// The platform's playback type numbers 0 to 3 keep their meaning; any other is unknown.
    pub open spec fn from_spec(kind: i32) -> SPT {
        if 0 <= kind <= 3 {
            SPT(kind as i8)
        } else {
            SPT(0)
        }
    }

    /// Maps the platform's playback type number to a kind.
    pub fn from_playback_type(kind: i32) -> (r: SPT)
        ensures
            r == SPT::from_spec(kind),
    {
        if 0 <= kind && kind <= 3 {
            SPT(kind as i8)
        } else {
            SPT(SPT::UNKNOWN)
        }
    }

    pub open spec fn name_spec(self) -> Seq<char> {
        if self.0 == 1 {
            "AUDIO"@
        } else if self.0 == 2 {
            "VIDEO"@
        } else if self.0 == 3 {
            "IMAGE"@
        } else {
            "UNKNOWN"@
        }
    }

    /// The kind's name in capitals; any number outside 0 to 3 reads as unknown.
    pub fn name(&self) -> (r: &'static str)
        ensures
            r@ == self.name_spec(),
    {
        if self.0 == 1 {
            "AUDIO"
        } else if self.0 == 2 {
            "VIDEO"
        } else if self.0 == 3 {
            "IMAGE"
        } else {
            "UNKNOWN"
        }
    }
}

/// What the platform reported for one media session, each field `None` where reading
/// it failed; the thumbnail as the encoded bytes of its stream.
#[derive(Debug, Clone)]
pub struct MediaFields {
    pub title: Option<String>,
    pub artist: Option<String>,
    pub album: Option<String>,
    pub album_artist: Option<String>,
    pub genres: Option<Vec<String>>,
    pub thumbnail: Option<Vec<u8>>,
    pub track_number: Option<i32>,
    pub track_count: Option<i32>,
    pub playback_type: Option<i32>,
    pub subtitle: Option<String>,
}

/// A snapshot of one media session's metadata, as the toast shows it.
#[derive(Debug, Clone)]
pub struct SpectreProps {
    pub title: String,
    pub artist: String,
    pub album: String,
    pub album_artist: Option<String>,
    pub genres: Vec<String>,
    pub thumbnail: Bitmap,
    pub track_number: Option<i32>,
    pub track_count: Option<i32>,
    pub playback_type: SPT,
    pub subtitle: Option<String>,
}

/// The text read, or `fallback` where reading failed or gave an empty text.
pub open spec fn text_or(v: Option<String>, fallback: Seq<char>) -> Seq<char> {
    match v {
        Some(t) => if t@.len() > 0 {
            t@
        } else {
            fallback
        },
        None => fallback,
    }
}

pub open spec fn opt_view(v: Option<String>) -> Option<Seq<char>> {
    match v {
        Some(t) => Some(t@),
        None => None,
    }
}

pub open spec fn opt_bytes(v: Option<Vec<u8>>) -> Option<Seq<u8>> {
    match v {
        Some(b) => Some(b@),
        None => None,
    }
}

fn text_or_fallback(v: Option<String>, fallback: &str) -> (r: String)
    ensures
        r@ == text_or(v, fallback@),
{
    match v {
        Some(t) => if t.as_str().is_empty() {
            String::from_str(fallback)
        } else {
            t
        },
        None => String::from_str(fallback),
    }
}

/// The genres joined by `", "`.
pub open spec fn joined(genres: Seq<String>) -> Seq<char>
    decreases genres.len(),
{
    if genres.len() == 0 {
        Seq::empty()
    } else if genres.len() == 1 {
        genres[0]@
    } else {
        joined(genres.drop_last()) + ", "@ + genres.last()@
    }
}

pub open spec fn opt_text(v: Option<String>) -> Seq<char> {
    match v {
        Some(t) => t@,
        None => Seq::empty(),
    }
}

impl Default for SpectreProps {
    fn default() -> (r: SpectreProps)
        ensures
            r.is_default(),
    {
        SpectreProps::new()
    }
}

impl SpectreProps {
    /// The five summary lines: title, artist, album, album artist (empty where unknown)
    /// and the genres joined by commas, each ended by a newline.
    pub open spec fn summary_spec(&self) -> Seq<char> {
        "Title: "@ + self.title@ + "\n"@
            + "Artist: "@ + self.artist@ + "\n"@
            + "Album: "@ + self.album@ + "\n"@
            + "Album Artist: "@ + opt_text(self.album_artist) + "\n"@
            + "Genres: "@ + joined(self.genres@) + "\n"@
    }

    /// The record as the text the console shows.
    pub fn summary(&self) -> (r: String)
        ensures
            r@ == self.summary_spec(),
    {
        let mut s = String::from_str("Title: ");
        s.append(self.title.as_str());
        s.append("\n");
        s.append("Artist: ");
        s.append(self.artist.as_str());
        s.append("\n");
        s.append("Album: ");
        s.append(self.album.as_str());
        s.append("\n");
        s.append("Album Artist: ");
        match &self.album_artist {
            Some(a) => s.append(a.as_str()),
            None => {},
        }
        s.append("\n");
        s.append("Genres: ");
        let mut i: usize = 0;
        let ghost prefix = s@;
        while i < self.genres.len()
            invariant
                i <= self.genres@.len(),
                s@ == prefix + joined(self.genres@.subrange(0, i as int)),
            decreases self.genres@.len() - i,
        {
            if i > 0 {
                s.append(", ");
            }
            s.append(self.genres[i].as_str());
            proof {
                let g = self.genres@.subrange(0, i + 1);
                assert(g.drop_last() =~= self.genres@.subrange(0, i as int));
                if i == 0 {
                    assert(g.len() == 1);
                }
            }
            i = i + 1;
        }
        assert(self.genres@.subrange(0, self.genres@.len() as int) =~= self.genres@);
        s.append("\n");
        s
    }

    /// The record before anything was read: unknown title, artist and album, no genres,
    /// the placeholder thumbnail, unknown kind.
    pub open spec fn is_default(&self) -> bool {
        &&& self.title@ == "Unknown Title"@
        &&& self.artist@ == "Unknown Artist"@
        &&& self.album@ == "Unknown Album"@
        &&& self.album_artist.is_none()
        &&& self.genres@.len() == 0
        &&& self.thumbnail.value() == placeholder_value()
        &&& self.thumbnail.wf()
        &&& self.track_number.is_none()
        &&& self.track_count.is_none()
        &&& self.playback_type == SPT(SPT::UNKNOWN)
        &&& self.subtitle.is_none()
    }

    /// A record with every field unknown.
    pub fn new() -> (r: SpectreProps)
        ensures
            r.is_default(),
    {
        SpectreProps {
            title: String::from_str("Unknown Title"),
            artist: String::from_str("Unknown Artist"),
            album: String::from_str("Unknown Album"),
            album_artist: None,
            genres: Vec::new(),
            thumbnail: placeholder(),
            track_number: None,
            track_count: None,
            playback_type: SPT(SPT::UNKNOWN),
            subtitle: None,
        }
    }

    /// The record after reading `p`: title, artist and album fall back to their
    /// "Unknown" texts where unread or empty, the other fields are kept as read, no
    /// genres where they were unread, and the thumbnail is fitted to the canvas.
    pub open spec fn synced_from(&self, p: MediaFields) -> bool {
        &&& self.title@ == text_or(p.title, "Unknown Title"@)
        &&& self.artist@ == text_or(p.artist, "Unknown Artist"@)
        &&& self.album@ == text_or(p.album, "Unknown Album"@)
        &&& opt_view(self.album_artist) == opt_view(p.album_artist)
        &&& self.genres@ == match p.genres {
            Some(g) => g@,
            None => Seq::<String>::empty(),
        }
        &&& self.thumbnail.wf()
        &&& self.thumbnail.value() == thumbnail_of(opt_bytes(p.thumbnail))
        &&& self.track_number == p.track_number
        &&& self.track_count == p.track_count
        &&& self.playback_type == match p.playback_type {
            Some(k) => SPT::from_spec(k),
            None => SPT(SPT::UNKNOWN),
        }
        &&& opt_view(self.subtitle) == opt_view(p.subtitle)
    }

    /// A record loaded from what the platform reported.
    pub fn from_tcsp(props: MediaFields) -> (r: SpectreProps)
        ensures
            r.synced_from(props),
    {
        let mut spectre_props = SpectreProps::new();
        spectre_props.sync(props);
        spectre_props
    }

    /// Replaces every field with what the platform reported.
    pub fn sync(&mut self, properties: MediaFields)
        ensures
            final(self).synced_from(properties),
    {
        let ghost p = properties;
        let reference: Option<&[u8]> = match &properties.thumbnail {
            Some(b) => Some(b.as_slice()),
            None => None,
        };
        assert(bytes_view(reference) == opt_bytes(p.thumbnail));
        let thumbnail = ref_to_thumb(reference);
        self.title = text_or_fallback(properties.title, "Unknown Title");
        self.artist = text_or_fallback(properties.artist, "Unknown Artist");
        self.album = text_or_fallback(properties.album, "Unknown Album");
        self.album_artist = properties.album_artist;
        self.genres = match properties.genres {
            Some(g) => g,
            None => Vec::new(),
        };
        self.thumbnail = thumbnail;
        self.track_number = properties.track_number;
        self.track_count = properties.track_count;
        self.playback_type = match properties.playback_type {
            Some(k) => SPT::from_playback_type(k),
            None => SPT(SPT::UNKNOWN),
        };
        self.subtitle = properties.subtitle;
    }
}

} // verus!

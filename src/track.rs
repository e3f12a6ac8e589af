use vstd::prelude::*;

verus! {

/// Text of the file name of `path` without its last extension, as std's
/// `Path::file_stem` computes it (empty where there is none).
pub uninterp spec fn file_stem_of(path: Seq<char>) -> Seq<char>;

/// Relies on std's `Path::file_stem`: the stem depends on the path text alone.
#[verifier::external_body]
fn file_stem(path: &str) -> (r: String)
    ensures
        r@ == file_stem_of(path@),
{
    std::path::Path::new(path).file_stem().unwrap_or_default().to_str().unwrap_or_default().to_string()
}

/// The tags that a metadata reader found in an audio file.
/// `length` is the playing time in nanoseconds, where the reader could tell it.
#[derive(Debug)]
pub struct TrackTags {
    pub title: Option<String>,
    pub artist: Option<String>,
    pub album: Option<String>,
    pub length: Option<u64>,
}

/// Mathematical model of a track: its text fields as character sequences.
pub struct TrackView {
    pub title: Seq<char>,
    pub artist: Option<Seq<char>>,
    pub album: Option<Seq<char>>,
    pub path: Seq<char>,
    pub length: Option<u64>,
}

pub open spec fn opt_text(s: Option<String>) -> Option<Seq<char>> {
    match s {
        Some(t) => Some(t@),
        None => None,
    }
}

/// An immutable description of one playable audio file.
/// `length` is in nanoseconds.
#[derive(Debug)]
pub struct Track {
    title: String,
    artist: Option<String>,
    album: Option<String>,
    path: String,
    length: Option<u64>,
}

impl View for Track {
    type V = TrackView;

    closed spec fn view(&self) -> TrackView {
        TrackView {
            title: self.title@,
            artist: opt_text(self.artist),
            album: opt_text(self.album),
            path: self.path@,
            length: self.length,
        }
    }
}

/// The track that the metadata of `path` describes: tags that were read win,
/// and the title falls back to the file stem.
pub open spec fn track_from_metadata(path: Seq<char>, tags: Option<TrackTags>) -> TrackView {
    match tags {
        Some(t) => TrackView {
            title: match t.title {
                Some(title) => title@,
                None => file_stem_of(path),
            },
            artist: opt_text(t.artist),
            album: opt_text(t.album),
            path,
            length: t.length,
        },
        None => TrackView {
            title: file_stem_of(path),
            artist: None,
            album: None,
            path,
            length: None,
        },
    }
}

fn clone_text(s: &Option<String>) -> (r: Option<String>)
    ensures
        r == *s,
{
    match s {
        Some(t) => Some(t.clone()),
        None => None,
    }
}

fn same_text(a: &Option<String>, b: &Option<String>) -> (r: bool)
    ensures
        r == (opt_text(*a) == opt_text(*b)),
{
    match (a, b) {
        (Some(x), Some(y)) => *x == *y,
        (None, None) => true,
        _ => false,
    }
}

impl Track {
    /// Builds the track for the file at `path` from what the metadata reader
    /// returned: `None` where the file's tags could not be read, in which case
    /// only the title is known, taken from the file name.
    pub fn from_metadata(path: String, tags: Option<TrackTags>) -> (r: Track)
        ensures
            r@ == track_from_metadata(path@, tags),
    {
        let stem = file_stem(path.as_str());
        match tags {
            Some(t) => {
                let title = match t.title {
                    Some(title) => title,
                    None => stem,
                };
                Track { title, artist: t.artist, album: t.album, path, length: t.length }
            },
            None => Track { title: stem, artist: None, album: None, path, length: None },
        }
    }

    pub fn title(&self) -> (r: &String)
        ensures
            r@ == self@.title,
    {
        &self.title
    }

    pub fn artist(&self) -> (r: &Option<String>)
        ensures
            opt_text(*r) == self@.artist,
    {
        &self.artist
    }

    pub fn album(&self) -> (r: &Option<String>)
        ensures
            opt_text(*r) == self@.album,
    {
        &self.album
    }

    pub fn path(&self) -> (r: &String)
        ensures
            r@ == self@.path,
    {
        &self.path
    }

    /// Playing time in nanoseconds, where it is known.
    pub fn length(&self) -> (r: Option<u64>)
        ensures
            r == self@.length,
    {
        self.length
    }
}

impl Clone for Track {
    fn clone(&self) -> (r: Self)
        ensures
            r == *self,
    {
        Track {
            title: self.title.clone(),
            artist: clone_text(&self.artist),
            album: clone_text(&self.album),
            path: self.path.clone(),
            length: self.length,
        }
    }
}

impl Default for Track {
    fn default() -> (r: Self)
        ensures
            r@ == (TrackView {
                title: Seq::empty(),
                artist: None,
                album: None,
                path: Seq::empty(),
                length: None,
            }),
    {
        Track { title: String::new(), artist: None, album: None, path: String::new(), length: None }
    }
}

impl PartialEq for Track {
    fn eq(&self, other: &Track) -> (r: bool) {
        self.title == other.title && same_text(&self.artist, &other.artist) && same_text(
            &self.album,
            &other.album,
        ) && self.path == other.path && self.length == other.length
    }
}

impl vstd::std_specs::cmp::PartialEqSpecImpl for Track {
    open spec fn obeys_eq_spec() -> bool {
        true
    }

    open spec fn eq_spec(&self, other: &Track) -> bool {
        self@ == other@
    }
}

} // verus!

use vstd::prelude::*;

verus! {

/// Failures that the playback core reports to its callers.
#[derive(Clone, Debug, PartialEq, Eq)]
pub enum PlaybackError {
    /// The file could not be read; carries the reader's message.
    Io(String),
    /// A track index at or beyond the end of the queue.
    InvalidIndex(usize),
    /// The queue has no track that is currently playing.
    NoCurrentTrack,
    /// The audio sink refused to seek; carries the sink's message.
    Seek(String),
}

} // verus!

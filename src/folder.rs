use vstd::prelude::*;

verus! {

/// Text of the extension of `path`, as std's `Path::extension` computes it
/// (empty where there is none).
pub uninterp spec fn extension_of(path: Seq<char>) -> Seq<char>;

/// Relies on std's `Path::extension`: the extension depends on the path text alone.
#[verifier::external_body]
fn extension(path: &str) -> (r: String)
    ensures
        r@ == extension_of(path@),
{
    std::path::Path::new(path).extension().unwrap_or_default().to_str().unwrap_or_default().to_string()
}

/// The extensions of the audio files that the player opens.
pub open spec fn is_audio_extension(ext: Seq<char>) -> bool {
    ext == "mp3"@ || ext == "flac"@
}

pub open spec fn is_audio_path(path: Seq<char>) -> bool {
    is_audio_extension(extension_of(path))
}

/// The paths among `paths` that name audio files, in their order.
pub open spec fn audio_paths(paths: Seq<String>) -> Seq<String> {
    paths.filter(|p: String| is_audio_path(p@))
}

/// Whether `path` names an audio file that the player opens, by its extension.
pub fn is_audio_file(path: &str) -> (r: bool)
    ensures
        r == is_audio_path(path@),
{
    let ext = extension(path);
    let mp3 = "mp3".to_owned();
    let flac = "flac".to_owned();
    proof {
        reveal_strlit("mp3");
        reveal_strlit("flac");
    }
    ext == mp3 || ext == flac
}

/// Keeps the entries of a folder listing that name audio files, in their order.
pub fn audio_files(paths: &Vec<String>) -> (r: Vec<String>)
    ensures
        r@ == audio_paths(paths@),
{
    let mut r: Vec<String> = Vec::new();
    let mut i: usize = 0;
    while i < paths.len()
        invariant
            i <= paths.len(),
            r@ == audio_paths(paths@.subrange(0, i as int)),
        decreases paths.len() - i,
    {
        let path = &paths[i];
        proof {
            assert(paths@.subrange(0, i + 1).drop_last() =~= paths@.subrange(0, i as int));
            assert(paths@.subrange(0, i + 1).last() == *path);
        }
        let keep = is_audio_file(path.as_str());
        if keep {
            r.push(path.clone());
        }
        proof {
            let s = paths@.subrange(0, i + 1);
            let pred = |p: String| is_audio_path(p@);
            reveal(Seq::filter);
            assert(s.filter(pred) == if pred(s.last()) {
                s.drop_last().filter(pred).push(s.last())
            } else {
                s.drop_last().filter(pred)
            });
            assert(audio_paths(s) == s.filter(pred));
        }
        i = i + 1;
    }
    proof {
        assert(paths@.subrange(0, paths@.len() as int) =~= paths@);
    }
    r
}

} // verus!

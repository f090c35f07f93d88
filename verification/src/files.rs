//! Track names derived from file paths, and which files count as audio tracks.
use vstd::prelude::*;
use crate::text::{chars_of, opt_view, str_eq, string_from_chars};

verus! {

/// The audio formats that are imported, by file extension.
pub open spec fn allowed_audio_extension(ext: Seq<char>) -> bool {
    ext == "mp3"@ || ext == "wav"@ || ext == "flac"@
}

/// Only three extensions are imported as audio: `mp3`, `wav` and `flac`,
/// compared exactly; every other extension (`m3u`, `txt`, `MP3`, ...) is not.
pub proof fn lemma_allowed_audio_extensions(ext: Seq<char>)
    ensures
        allowed_audio_extension(ext) <==> (ext == seq!['m', 'p', '3'] || ext == seq!['w', 'a', 'v'] || ext
            == seq!['f', 'l', 'a', 'c']),
{
    reveal_strlit("mp3");
    reveal_strlit("wav");
    reveal_strlit("flac");
    assert("mp3"@ =~= seq!['m', 'p', '3']);
    assert("wav"@ =~= seq!['w', 'a', 'v']);
    assert("flac"@ =~= seq!['f', 'l', 'a', 'c']);
}

/// A path is imported as an audio track exactly when it has one of the three
/// audio extensions.
pub proof fn lemma_audio_track_path(path: Seq<char>)
    ensures
        (path_extension(path) matches Some(ext) && allowed_audio_extension(ext)) <==> (path_extension(path)
            == Some(seq!['m', 'p', '3']) || path_extension(path) == Some(seq!['w', 'a', 'v'])
            || path_extension(path) == Some(seq!['f', 'l', 'a', 'c'])),
{
    if let Some(ext) = path_extension(path) {
        lemma_allowed_audio_extensions(ext);
    }
}

/// The final component of a path, as `Path::file_name` gives it (`None` when
/// the path ends in `..` or has no components).
pub uninterp spec fn path_file_name(path: Seq<char>) -> Option<Seq<char>>;

/// Index of the last `.` in `s`, if any.
pub open spec fn last_dot(s: Seq<char>) -> Option<int>
    decreases s.len(),
{
    if s.len() == 0 {
        None
    } else if s.last() == '.' {
        Some(s.len() - 1)
    } else {
        last_dot(s.drop_last())
    }
}

/// The extension of a file name, as `Path::extension` defines it: `None` if
/// the name has no `.`, or if its only `.` is the first character; otherwise
/// the part after the final `.`.
pub open spec fn extension_of_name(name: Seq<char>) -> Option<Seq<char>> {
    match last_dot(name) {
        None => None,
        Some(i) => if i == 0 {
            None
        } else {
            Some(name.subrange(i + 1, name.len() as int))
        },
    }
}

/// The extension of a path's final component.
pub open spec fn path_extension(path: Seq<char>) -> Option<Seq<char>> {
    match path_file_name(path) {
        Some(name) => extension_of_name(name),
        None => None,
    }
}

/// `Path::file_name`, as text.
#[verifier::external_body]
fn file_name_of(path: &str) -> (name: Option<String>)
    ensures
        opt_view(name) == path_file_name(path@),
{
    std::path::Path::new(path).file_name().and_then(|n| n.to_str()).map(|n| n.to_string())
}

/// `Path::extension`, as text.
#[verifier::external_body]
fn extension_of(path: &str) -> (ext: Option<String>)
    ensures
        opt_view(ext) == path_extension(path@),
{
    std::path::Path::new(path).extension().and_then(|e| e.to_str()).map(|e| e.to_string())
}

/// `s` with all trailing `.` removed.
pub open spec fn trim_trailing_dots(s: Seq<char>) -> Seq<char>
    decreases s.len(),
{
    if s.len() > 0 && s.last() == '.' {
        trim_trailing_dots(s.drop_last())
    } else {
        s
    }
}

/// `s` with `suffix` removed from its end, or `s` itself if it does not end so.
pub open spec fn strip_suffix(s: Seq<char>, suffix: Seq<char>) -> Seq<char> {
    if suffix.len() <= s.len() && s.subrange(s.len() - suffix.len(), s.len() as int) == suffix {
        s.subrange(0, s.len() - suffix.len())
    } else {
        s
    }
}

/// The part of `s` after its last `.`, or all of `s` if it has none.
pub open spec fn after_last_dot(s: Seq<char>) -> Seq<char> {
    match last_dot(s) {
        Some(i) => s.subrange(i + 1, s.len() as int),
        None => s,
    }
}

/// The track name for a file name: with an extension, the name without it
/// and without the dots before it; without one, the part after the last dot.
pub open spec fn track_name_of(name: Seq<char>, extension: Option<Seq<char>>) -> Seq<char> {
    match extension {
        Some(ext) => trim_trailing_dots(strip_suffix(name, ext)),
        None => after_last_dot(name),
    }
}

/// The track name for a path, `None` when the path has no file name.
pub open spec fn file_track_name(path: Seq<char>) -> Option<Seq<char>> {
    match path_file_name(path) {
        Some(name) => Some(track_name_of(name, path_extension(path))),
        None => None,
    }
}

/// Index of the last `.` in `v`.
fn find_last_dot(v: &Vec<char>) -> (idx: Option<usize>)
    ensures
        match idx {
            Some(i) => last_dot(v@) == Some(i as int) && i < v.len(),
            None => last_dot(v@) is None,
        },
{
    let mut n: usize = v.len();
    assert(v@.take(n as int) =~= v@);
    while n > 0
        invariant
            n <= v.len(),
            last_dot(v@) == last_dot(v@.take(n as int)),
        decreases n,
    {
        assert(v@.take(n as int).drop_last() =~= v@.take(n - 1));
        if v[n - 1] == '.' {
            return Some(n - 1);
        }
        n = n - 1;
    }
    None
}

/// The characters `v[from..to]`.
fn slice_chars(v: &Vec<char>, from: usize, to: usize) -> (out: Vec<char>)
    requires
        from <= to <= v.len(),
    ensures
        out@ == v@.subrange(from as int, to as int),
{
    let mut out: Vec<char> = Vec::new();
    let mut i: usize = from;
    while i < to
        invariant
            from <= i <= to <= v.len(),
            out@ == v@.subrange(from as int, i as int),
        decreases to - i,
    {
        out.push(v[i]);
        assert(v@.subrange(from as int, i + 1) == v@.subrange(from as int, i as int).push(
            v@[i as int],
        ));
        i = i + 1;
    }
    out
}

/// Whether `v` ends with `suffix`.
fn ends_with(v: &Vec<char>, suffix: &Vec<char>) -> (res: bool)
    ensures
        res == (suffix.len() <= v.len() && v@.subrange(v.len() - suffix.len(), v.len() as int)
            == suffix@),
{
    if suffix.len() > v.len() {
        return false;
    }
    let offset = v.len() - suffix.len();
    let mut j: usize = 0;
    while j < suffix.len()
        invariant
            offset + suffix.len() == v.len(),
            j <= suffix.len(),
            forall|k: int| 0 <= k < j ==> v@[offset + k] == suffix@[k],
        decreases suffix.len() - j,
    {
        if v[offset + j] != suffix[j] {
            assert(v@.subrange(offset as int, v.len() as int)[j as int] != suffix@[j as int]);
            return false;
        }
        j = j + 1;
    }
    assert(v@.subrange(offset as int, v.len() as int) =~= suffix@);
    true
}

/// The length of `v[..len]` once trailing dots are removed.
fn trailing_dots_start(v: &Vec<char>, len: usize) -> (end: usize)
    requires
        len <= v.len(),
    ensures
        end <= len,
        v@.subrange(0, end as int) == trim_trailing_dots(v@.subrange(0, len as int)),
{
    let mut end: usize = len;
    while end > 0 && v[end - 1] == '.'
        invariant
            end <= len <= v.len(),
            trim_trailing_dots(v@.subrange(0, end as int)) == trim_trailing_dots(
                v@.subrange(0, len as int),
            ),
        decreases end,
    {
        assert(v@.subrange(0, end as int).drop_last() =~= v@.subrange(0, end - 1));
        end = end - 1;
    }
    end
}

/// The track name for a file name and its extension: with an extension, the
/// name without it and without the dots before it; without one, the part
/// after the name's last dot.
pub fn track_name_from(file_name: &str, extension: &Option<String>) -> (name: String)
    ensures
        name@ == track_name_of(file_name@, opt_view(*extension)),
{
    let chars = chars_of(file_name);
    let kept = match extension {
        Some(ext) => {
            let ext_chars = chars_of(ext.as_str());
            let stem_len = if ends_with(&chars, &ext_chars) {
                chars.len() - ext_chars.len()
            } else {
                chars.len()
            };
            assert(chars@.subrange(0, chars.len() as int) =~= chars@);
            let end = trailing_dots_start(&chars, stem_len);
            slice_chars(&chars, 0, end)
        },
        None => {
            match find_last_dot(&chars) {
                Some(i) => slice_chars(&chars, i + 1, chars.len()),
                None => chars,
            }
        },
    };
    string_from_chars(&kept)
}

/// The track name for a file path: the file name without its extension and
/// the dots before it; for a name without extension, the part after its last
/// dot. `None` when the path has no file name.
pub fn get_file_name(track_file_path: &str) -> (name: Option<String>)
    ensures
        opt_view(name) == file_track_name(track_file_path@),
{
    let extension = extension_of(track_file_path);
    let file_name = match file_name_of(track_file_path) {
        Some(n) => n,
        None => {
            return None;
        },
    };
    Some(track_name_from(file_name.as_str(), &extension))
}

/// Whether a path names an audio file that is imported: its extension is one
/// of `mp3`, `wav` and `flac` (compared exactly).
pub fn is_audio_track_path(path: &str) -> (allowed: bool)
    ensures
        allowed == (path_extension(path@) matches Some(ext) && allowed_audio_extension(ext)),
{
    match extension_of(path) {
        Some(ext) => {
            let e = ext.as_str();
            str_eq(e, "mp3") || str_eq(e, "wav") || str_eq(e, "flac")
        },
        None => false,
    }
}

/// The playlist name for a folder of tracks: its final component.
pub fn folder_playlist_name(folder: &str) -> (name: Option<String>)
    ensures
        opt_view(name) == path_file_name(folder@),
{
    file_name_of(folder)
}

} // verus!

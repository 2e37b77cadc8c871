//! Track descriptors, and what a file's path says about it.

use vstd::prelude::*;
use vstd::string::*;

verus! {

/// The position of the last `c` in `s`, if there is one.
pub open spec fn last_index_of(s: Seq<char>, c: char) -> Option<int>
    decreases s.len(),
{
    if s.len() == 0 {
        None
    } else if s.last() == c {
        Some(s.len() - 1)
    } else {
        last_index_of(s.drop_last(), c)
    }
}

/// A path without what may end it and names nothing: separators, and a
/// single `.` after a separator.
#[verifier::opaque]
pub open spec fn without_trailing(path: Seq<char>) -> Seq<char>
    decreases path.len(),
{
    if path.len() > 0 && path.last() == '/' {
        without_trailing(path.drop_last())
    } else if path.len() >= 2 && path.last() == '.' && path[path.len() - 2] == '/' {
        without_trailing(path.drop_last())
    } else {
        path
    }
}

/// The last component of a path: what follows the last `/` once the
/// trailing separators and `.` components are set aside, so that `a/b/` and
/// `a/b/.` both end in `b`.
pub open spec fn file_name_of(path: Seq<char>) -> Seq<char> {
    let trimmed = without_trailing(path);
    match last_index_of(trimmed, '/') {
        Some(i) => trimmed.subrange(i + 1, trimmed.len() as int),
        None => trimmed,
    }
}

/// Whether a last component names a file: it is not empty, and neither `.`
/// nor `..`.
pub open spec fn names_a_file(name: Seq<char>) -> bool {
    name.len() > 0 && name != seq!['.'] && name != seq!['.', '.']
}

/// Where a file name splits into stem and extension: at its last `.`, unless
/// that is its first character.
pub open spec fn split_point(name: Seq<char>) -> Option<int> {
    match last_index_of(name, '.') {
        Some(i) => if i > 0 { Some(i) } else { None },
        None => None,
    }
}

/// The extension of a path's file name, without the dot.
pub open spec fn extension_of(path: Seq<char>) -> Option<Seq<char>> {
    let name = file_name_of(path);
    if names_a_file(name) {
        match split_point(name) {
            Some(i) => Some(name.subrange(i + 1, name.len() as int)),
            None => None,
        }
    } else {
        None
    }
}

/// The file name of a path without its extension.
pub open spec fn stem_of(path: Seq<char>) -> Option<Seq<char>> {
    let name = file_name_of(path);
    if names_a_file(name) {
        match split_point(name) {
            Some(i) => Some(name.subrange(0, i)),
            None => Some(name),
        }
    } else {
        None
    }
}

/// The title shown for paths that have no file name.
pub open spec fn unknown_title() -> Seq<char> {
    seq!['U', 'n', 'k', 'n', 'o', 'w', 'n']
}

/// The display title of a path: its stem, or `Unknown` where it has none.
pub open spec fn title_of(path: Seq<char>) -> Seq<char> {
    match stem_of(path) {
        Some(stem) => stem,
        None => unknown_title(),
    }
}

/// Whether `c` is the lower-case letter or digit `lower`, in either case.
pub open spec fn same_letter(c: char, lower: char) -> bool {
    c == lower || ('A' <= c <= 'Z' && c as u32 + 32 == lower as u32)
}

/// Whether `text` spells the lower-case `word`, whatever its own case.
pub open spec fn spells(text: Seq<char>, word: Seq<char>) -> bool {
    &&& text.len() == word.len()
    &&& forall|i: int| 0 <= i < text.len() ==> same_letter(#[trigger] text[i], word[i])
}

/// Whether a path's extension spells `word`.
pub open spec fn has_extension(path: Seq<char>, word: Seq<char>) -> bool {
    match extension_of(path) {
        Some(ext) => spells(ext, word),
        None => false,
    }
}

/// Whether a path names an MP3 file, the one format whose length is probed.
pub open spec fn is_mp3(path: Seq<char>) -> bool {
    has_extension(path, seq!['m', 'p', '3'])
}

/// Whether a path's extension is one of the audio formats that are played:
/// `mp3`, `wav`, `ogg`, `flac`, `m4a`.
pub open spec fn is_supported(path: Seq<char>) -> bool {
    ||| has_extension(path, seq!['m', 'p', '3'])
    ||| has_extension(path, seq!['w', 'a', 'v'])
    ||| has_extension(path, seq!['o', 'g', 'g'])
    ||| has_extension(path, seq!['f', 'l', 'a', 'c'])
    ||| has_extension(path, seq!['m', '4', 'a'])
}

/// An occurrence with nothing after it is the one that `last_index_of` finds.
proof fn last_index_found(s: Seq<char>, c: char, i: int)
    requires
        0 <= i < s.len(),
        s[i] == c,
        forall|j: int| i < j < s.len() ==> s[j] != c,
    ensures
        last_index_of(s, c) == Some(i),
    decreases s.len(),
{
    if s.last() != c {
        last_index_found(s.drop_last(), c, i);
    }
}

/// Where nothing occurs, `last_index_of` finds nothing.
proof fn last_index_absent(s: Seq<char>, c: char)
    requires
        forall|j: int| 0 <= j < s.len() ==> s[j] != c,
    ensures
        last_index_of(s, c) is None,
    decreases s.len(),
{
    if s.len() > 0 {
        last_index_absent(s.drop_last(), c);
    }
}

/// The position of the last `c` among the characters of `text` from `from` up
/// to `to`, counted from `from`.
fn find_last(text: &str, from: usize, to: usize, c: char) -> (found: Option<usize>)
    requires
        from <= to <= text@.len(),
    ensures
        match found {
            Some(i) => i < to - from && last_index_of(
                text@.subrange(from as int, to as int),
                c,
            ) == Some(i as int),
            None => last_index_of(text@.subrange(from as int, to as int), c) is None,
        },
{
    let ghost part = text@.subrange(from as int, to as int);
    let mut k: usize = to;
    while k > from
        invariant
            from <= k <= to <= text@.len(),
            part == text@.subrange(from as int, to as int),
            forall|j: int| k - from <= j < part.len() ==> part[j] != c,
        decreases k,
    {
        k = k - 1;
        if text.get_char(k) == c {
            proof {
                last_index_found(part, c, k - from);
            }
            return Some(k - from);
        }
    }
    proof {
        last_index_absent(part, c);
    }
    None
}

/// Where the file name of a path begins and ends, and where it splits.
struct NameParts {
    from: usize,
    dot: Option<usize>,
    to: usize,
}

/// Whether `parts` is where the file name of `path` lies and splits, or
/// nothing where `path` names no file.
spec fn locates(path: Seq<char>, parts: Option<NameParts>) -> bool {
    match parts {
        Some(p) => {
            &&& p.from <= p.to <= path.len()
            &&& file_name_of(path) == path.subrange(p.from as int, p.to as int)
            &&& names_a_file(file_name_of(path))
            &&& match p.dot {
                Some(d) => p.from < d < p.to && split_point(file_name_of(path)) == Some(
                    d - p.from,
                ),
                None => split_point(file_name_of(path)) is None,
            }
        },
        None => !names_a_file(file_name_of(path)),
    }
}

/// Where `path` ends once its trailing separators and `.` components are
/// set aside.
fn trimmed_end(path: &str) -> (to: usize)
    ensures
        to <= path@.len(),
        without_trailing(path@) == path@.subrange(0, to as int),
{
    let mut to: usize = path.unicode_len();
    let mut trimming: bool = true;
    assert(path@.subrange(0, to as int) =~= path@);
    while trimming && to > 0
        invariant
            to <= path@.len(),
            without_trailing(path@) == without_trailing(path@.subrange(0, to as int)),
            !trimming ==> without_trailing(path@.subrange(0, to as int)) == path@.subrange(
                0,
                to as int,
            ),
        decreases to + if trimming { 1int } else { 0int },
    {
        let ghost head = path@.subrange(0, to as int);
        reveal_with_fuel(without_trailing, 2);
        assert(head.drop_last() =~= path@.subrange(0, to - 1));
        let last = path.get_char(to - 1);
        assert(head.last() == last);
        if last == '/' {
            to = to - 1;
        } else if to >= 2 && last == '.' && path.get_char(to - 2) == '/' {
            assert(head[head.len() - 2] == '/');
            to = to - 1;
        } else {
            assert(head.len() >= 2 ==> head[head.len() - 2] == path@[to - 2]);
            trimming = false;
        }
    }
    proof {
        if to == 0 {
            reveal_with_fuel(without_trailing, 2);
            assert(path@.subrange(0, 0) =~= Seq::<char>::empty());
        }
    }
    to
}

/// Finds the file name of `path` and the dot before its extension, as
/// character positions in `path`. Gives nothing where no file is named.
fn locate_name(path: &str) -> (parts: Option<NameParts>)
    ensures
        locates(path@, parts),
{
    let to: usize = trimmed_end(path);
    let ghost trimmed = path@.subrange(0, to as int);
    let from: usize = match find_last(path, 0, to, '/') {
        Some(i) => i + 1,
        None => 0,
    };
    let ghost name = path@.subrange(from as int, to as int);
    assert(name =~= file_name_of(path@));
    if from == to {
        return None;
    }
    if to - from == 1 && path.get_char(from) == '.' {
        assert(name =~= seq!['.']);
        return None;
    }
    if to - from == 2 && path.get_char(from) == '.' && path.get_char(from + 1) == '.' {
        assert(name =~= seq!['.', '.']);
        return None;
    }
    assert(name != seq!['.'] && name != seq!['.', '.']) by {
        assert(name[0] == path@[from as int]);
        if name.len() == 2 {
            assert(name[1] == path@[from + 1]);
        }
    }
    let dot: Option<usize> = match find_last(path, from, to, '.') {
        Some(i) => if i > 0 {
            Some(from + i)
        } else {
            None
        },
        None => None,
    };
    Some(NameParts { from, dot, to })
}

/// Whether two characters are the same letter or digit, the second one being
/// in lower case.
fn is_same_letter(c: char, lower: char) -> (same: bool)
    ensures
        same == same_letter(c, lower),
{
    c == lower || ('A' <= c && c <= 'Z' && c as u32 + 32 == lower as u32)
}

/// Whether the characters of `path` from `from` up to `to` spell `word`.
fn range_spells(path: &str, from: usize, to: usize, word: &str) -> (same: bool)
    requires
        from <= to <= path@.len(),
    ensures
        same == spells(path@.subrange(from as int, to as int), word@),
{
    let ghost text = path@.subrange(from as int, to as int);
    let n: usize = word.unicode_len();
    if to - from != n {
        return false;
    }
    let mut k: usize = 0;
    while k < n
        invariant
            k <= n == to - from,
            n == word@.len(),
            to <= path@.len(),
            text == path@.subrange(from as int, to as int),
            forall|i: int| 0 <= i < k ==> same_letter(#[trigger] text[i], word@[i]),
        decreases n - k,
    {
        if !is_same_letter(path.get_char(from + k), word.get_char(k)) {
            assert(!same_letter(text[k as int], word@[k as int]));
            return false;
        }
        k = k + 1;
    }
    true
}

/// Whether the extension of `path` spells `word`, whatever its case.
fn extension_is(path: &str, parts: &Option<NameParts>, word: &str) -> (same: bool)
    requires
        locates(path@, *parts),
    ensures
        same == has_extension(path@, word@),
{
    let ghost name = file_name_of(path@);
    match parts {
        Some(p) => match p.dot {
            Some(d) => {
                let ghost ext = path@.subrange(d + 1, p.to as int);
                assert(name.subrange(d - p.from + 1, name.len() as int) =~= ext);
                assert(extension_of(path@) == Some(ext));
                range_spells(path, d + 1, p.to, word)
            },
            None => {
                assert(extension_of(path@) is None);
                false
            },
        },
        None => {
            assert(extension_of(path@) is None);
            false
        },
    }
}

/// The display title of a path: the name of its file without the extension,
/// or `Unknown` where the path names no file.
pub fn title_for(path: &str) -> (title: String)
    ensures
        title@ == title_of(path@),
{
    match locate_name(path) {
        Some(p) => {
            let end: usize = match p.dot {
                Some(d) => d,
                None => p.to,
            };
            assert(path@.subrange(p.from as int, p.to as int).subrange(0, end - p.from)
                =~= path@.subrange(p.from as int, end as int));
            assert(path@.subrange(p.from as int, p.to as int).subrange(0, p.to - p.from)
                =~= path@.subrange(p.from as int, p.to as int));
            String::from_str(path.substring_char(p.from, end))
        },
        None => {
            proof {
                reveal_strlit("Unknown");
            }
            assert("Unknown"@ =~= unknown_title());
            String::from_str("Unknown")
        },
    }
}

/// Whether a path names an MP3 file, by its extension in any case.
pub fn is_mp3_file(path: &str) -> (yes: bool)
    ensures
        yes == is_mp3(path@),
{
    let parts = locate_name(path);
    proof {
        reveal_strlit("mp3");
    }
    assert("mp3"@ =~= seq!['m', 'p', '3']);
    extension_is(path, &parts, "mp3")
}

/// Whether a path's extension, in any case, is one of the audio formats that
/// are played.
pub fn is_supported_audio_file(path: &str) -> (yes: bool)
    ensures
        yes == is_supported(path@),
{
    let parts = locate_name(path);
    proof {
        reveal_strlit("mp3");
        reveal_strlit("wav");
        reveal_strlit("ogg");
        reveal_strlit("flac");
        reveal_strlit("m4a");
    }
    assert("mp3"@ =~= seq!['m', 'p', '3']);
    assert("wav"@ =~= seq!['w', 'a', 'v']);
    assert("ogg"@ =~= seq!['o', 'g', 'g']);
    assert("flac"@ =~= seq!['f', 'l', 'a', 'c']);
    assert("m4a"@ =~= seq!['m', '4', 'a']);
    extension_is(path, &parts, "mp3") || extension_is(path, &parts, "wav") || extension_is(
        path,
        &parts,
        "ogg",
    ) || extension_is(path, &parts, "flac") || extension_is(path, &parts, "m4a")
}

/// One playable file.
#[derive(Clone, Debug)]
pub struct Track {
    /// Where the file lies. It is kept as given and never read as anything
    /// but a name.
    pub path: String,
    /// The display name, taken from the file's name.
    pub title: String,
    /// The playing length in nanoseconds, where it is known.
    pub duration: Option<u64>,
}

impl Track {
    /// Whether this is the track that `path` yields when `probe` measures
    /// files: it keeps the path, is titled after the file, and has a length
    /// only if the file is an MP3 file, namely one that `probe` can return
    /// for it.
    pub open spec fn describes<P: Fn(&String) -> Option<u64>>(
        self,
        path: String,
        probe: P,
    ) -> bool {
        &&& self.path == path
        &&& self.title@ == title_of(path@)
        &&& if is_mp3(path@) {
            call_ensures(probe, (&path,), self.duration)
        } else {
            self.duration is None
        }
    }

    /// Describes the file at `path`. The title is the file's name without its
    /// extension. Only an MP3 file is handed to `probe`, and what `probe`
    /// returns is its length; the length of any other file is unknown.
    pub fn new<P: Fn(&String) -> Option<u64>>(path: String, probe: &P) -> (track: Track)
        requires
            is_mp3(path@) ==> call_requires(*probe, (&path,)),
        ensures
            track.describes(path, *probe),
    {
        let title = title_for(path.as_str());
        let duration: Option<u64> = if is_mp3_file(path.as_str()) {
            probe(&path)
        } else {
            None
        };
        Track { path, title, duration }
    }
}

} // verus!

//! The media file being looked up: its path, the requested language, the
//! kind of media, and its fingerprint.

use crate::fingerprint::{hex16, Fingerprint, FingerprintError};
use vstd::prelude::*;

verus! {

/// A language tag as the user wrote it ("en", "fr", ...).
pub struct Lang {
    pub code: String,
}

impl Lang {
    /// A copy of this tag.
    pub fn duplicate(&self) -> (r: Lang)
        ensures
            r == *self,
    {
        Lang { code: self.code.clone() }
    }
}

/// Whether the media file is a movie or an episode of a TV show.
#[derive(Clone, Copy, Debug, PartialEq, Eq, Structural)]
pub enum Mode {
    Movie,
    TvShow,
}

impl Default for Mode {
    fn default() -> (r: Mode)
        ensures
            r == Mode::TvShow,
    {
        Mode::TvShow
    }
}

/// Index of the last `c` in `s`, or -1 if there is none.
pub open spec fn last_index(s: Seq<char>, c: char) -> int
    decreases s.len(),
{
    if s.len() == 0 {
        -1
    } else if s.last() == c {
        s.len() - 1
    } else {
        last_index(s.drop_last(), c)
    }
}

/// Where the file name starts: just after the last '/'.
pub open spec fn name_start(path: Seq<char>) -> int {
    last_index(path, '/') + 1
}

/// The file name: the part of the path after the last '/'.
pub open spec fn file_name(path: Seq<char>) -> Seq<char> {
    path.subrange(name_start(path), path.len() as int)
}

/// Where the extension starts in the path: at the last '.' of the file name,
/// unless that '.' opens the name; the end of the path if there is none.
pub open spec fn stem_end(path: Seq<char>) -> int {
    let dot = last_index(file_name(path), '.');
    if dot > 0 {
        name_start(path) + dot
    } else {
        path.len() as int
    }
}

/// The path with its extension replaced by `<lang>.srt`.
pub open spec fn subtitle_path(path: Seq<char>, lang: Seq<char>) -> Seq<char> {
    path.subrange(0, stem_end(path)) + seq!['.'] + lang + seq!['.', 's', 'r', 't']
}

proof fn lemma_last_index_bounds(s: Seq<char>, c: char)
    ensures
        -1 <= last_index(s, c) < s.len(),
        last_index(s, c) >= 0 ==> s[last_index(s, c)] == c,
    decreases s.len(),
{
    if s.len() > 0 && s.last() != c {
        lemma_last_index_bounds(s.drop_last(), c);
    }
}

/// Index of the last `c` in `s`.
fn find_last(s: &str, c: char) -> (r: Option<usize>)
    ensures
        match r {
            Some(i) => i == last_index(s@, c),
            None => last_index(s@, c) == -1,
        },
{
    let mut i = s.unicode_len();
    assert(s@.subrange(0, i as int) =~= s@);
    while i > 0
        invariant
            i <= s@.len(),
            last_index(s@, c) == last_index(s@.subrange(0, i as int), c),
        decreases i,
    {
        if s.get_char(i - 1) == c {
            return Some(i - 1);
        }
        assert(s@.subrange(0, i as int).drop_last() =~= s@.subrange(0, i - 1));
        i = i - 1;
    }
    None
}

/// The local media file and what the user asked for it.
pub struct File {
    pub filepath: String,
    pub lang: Lang,
    pub mode: Mode,
    /// The fingerprint, or why it could not be computed.
    pub fingerprint: Result<Fingerprint, FingerprintError>,
}

impl File {
    pub fn new(
        filepath: String,
        lang: Lang,
        mode: Mode,
        fingerprint: Result<Fingerprint, FingerprintError>,
    ) -> (r: File)
        ensures
            r == (File { filepath, lang, mode, fingerprint }),
    {
        File { filepath, lang, mode, fingerprint }
    }

    /// A copy of this file description.
    pub fn duplicate(&self) -> (r: File)
        ensures
            r == *self,
    {
        File {
            filepath: self.filepath.clone(),
            lang: self.lang.duplicate(),
            mode: self.mode,
            fingerprint: self.fingerprint,
        }
    }

    /// The file name, without the directories before it.
    pub fn get_filename(&self) -> (r: String)
        ensures
            r@ == file_name(self.filepath@),
    {
        let path = self.filepath.as_str();
        let len = path.unicode_len();
        proof {
            lemma_last_index_bounds(self.filepath@, '/');
        }
        let start = match find_last(path, '/') {
            Some(i) => i + 1,
            None => 0,
        };
        String::from_str(path.substring_char(start, len))
    }

    /// Where the subtitle goes: the media path with its extension replaced
    /// by `<lang>.srt`.
    pub fn get_subtitle_filename(&self) -> (r: String)
        ensures
            r@ == subtitle_path(self.filepath@, self.lang.code@),
    {
        let path = self.filepath.as_str();
        let len = path.unicode_len();
        proof {
            lemma_last_index_bounds(self.filepath@, '/');
        }
        let start = match find_last(path, '/') {
            Some(i) => i + 1,
            None => 0,
        };
        let name = path.substring_char(start, len);
        proof {
            lemma_last_index_bounds(name@, '.');
        }
        let end = match find_last(name, '.') {
            Some(d) => if d > 0 {
                start + d
            } else {
                len
            },
            None => len,
        };
        let mut out = String::from_str(path.substring_char(0, end));
        out.append(".");
        out.append(self.lang.code.as_str());
        out.append(".srt");
        proof {
            reveal_strlit(".");
            reveal_strlit(".srt");
        }
        out
    }

    /// The fingerprint as sixteen hexadecimal digits, with the file size.
    pub fn get_hash(&self) -> (r: Result<(String, u64), FingerprintError>)
        ensures
            match self.fingerprint {
                Ok(f) => r matches Ok((text, size)) && text@ == hex16(f.checksum) && size
                    == f.file_size,
                Err(e) => r == Err::<(String, u64), FingerprintError>(e),
            },
    {
        match self.fingerprint {
            Ok(f) => Ok((f.hex(), f.file_size)),
            Err(e) => Err(e),
        }
    }
}

} // verus!

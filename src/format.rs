//! Firmware image format detection from a file path.

use vstd::prelude::*;
use vstd::string::StrSliceExecFns;

verus! {

/// A firmware image format that can be downloaded to a target.
#[derive(Clone, Copy, Debug, PartialEq, Eq, Structural)]
pub enum ImageFormat {
    Bin,
    Hex,
    Elf,
}

/// A path separator on any of the supported hosts.
pub open spec fn is_separator(c: char) -> bool {
    c == '/' || c == '\\'
}

/// Index of the first character of the file name: just past the last separator.
pub open spec fn name_start(p: Seq<char>) -> int
    decreases p.len(),
{
    if p.len() == 0 {
        0
    } else if is_separator(p.last()) {
        p.len() as int
    } else {
        name_start(p.drop_last())
    }
}

/// The last component of a path.
pub open spec fn file_name(p: Seq<char>) -> Seq<char> {
    p.subrange(name_start(p), p.len() as int)
}

/// Index of the last `.` in `n`, or -1 when there is none.
pub open spec fn last_dot(n: Seq<char>) -> int
    decreases n.len(),
{
    if n.len() == 0 {
        -1
    } else if n.last() == '.' {
        n.len() - 1
    } else {
        last_dot(n.drop_last())
    }
}

/// The extension of a path: what follows the last `.` of the file name, unless
/// the only `.` opens the name (a hidden file) or there is none.
pub open spec fn extension(p: Seq<char>) -> Option<Seq<char>> {
    let n = file_name(p);
    let d = last_dot(n);
    if d <= 0 {
        None
    } else {
        Some(n.subrange(d + 1, n.len() as int))
    }
}

/// The format a path stands for; `None` is an unsupported format.
/// A file without extension is taken as ELF.
pub open spec fn format_of(p: Seq<char>) -> Option<ImageFormat> {
    match extension(p) {
        None => Some(ImageFormat::Elf),
        Some(e) => if e == seq!['b', 'i', 'n'] {
            Some(ImageFormat::Bin)
        } else if e == seq!['h', 'e', 'x'] {
            Some(ImageFormat::Hex)
        } else if e == seq!['e', 'l', 'f'] {
            Some(ImageFormat::Elf)
        } else {
            None
        },
    }
}

proof fn lemma_name_start_bounds(p: Seq<char>)
    ensures
        0 <= name_start(p) <= p.len(),
    decreases p.len(),
{
    if p.len() > 0 && !is_separator(p.last()) {
        lemma_name_start_bounds(p.drop_last());
    }
}

proof fn lemma_last_dot_bounds(n: Seq<char>)
    ensures
        -1 <= last_dot(n) < n.len(),
        last_dot(n) >= 0 ==> n[last_dot(n)] == '.',
    decreases n.len(),
{
    if n.len() > 0 && n.last() != '.' {
        lemma_last_dot_bounds(n.drop_last());
    }
}

/// `bin`, `hex` and `elf` select their format, a path without extension is
/// ELF, and every other extension is unsupported.
pub proof fn detection_by_extension(p: Seq<char>)
    ensures
        extension(p) is None ==> format_of(p) == Some(ImageFormat::Elf),
        extension(p) == Some(seq!['b', 'i', 'n']) ==> format_of(p) == Some(ImageFormat::Bin),
        extension(p) == Some(seq!['h', 'e', 'x']) ==> format_of(p) == Some(ImageFormat::Hex),
        extension(p) == Some(seq!['e', 'l', 'f']) ==> format_of(p) == Some(ImageFormat::Elf),
        extension(p) matches Some(e) && e != seq!['b', 'i', 'n'] && e != seq!['h', 'e', 'x'] && e
            != seq!['e', 'l', 'f'] ==> format_of(p) is None,
{
}

/// Index just past the last separator of `path`.
fn find_name_start(path: &str) -> (r: usize)
    ensures
        r as int == name_start(path@),
{
    let len = path.unicode_len();
    let mut i: usize = len;
    assert(path@.take(len as int) =~= path@);
    while i > 0
        invariant
            i <= len == path@.len(),
            name_start(path@) == name_start(path@.take(i as int)),
            forall|k: int| i <= k < len ==> !is_separator(#[trigger] path@[k]),
        decreases i,
    {
        let c = path.get_char(i - 1);
        assert(path@.take(i as int).drop_last() =~= path@.take(i - 1));
        if c == '/' || c == '\\' {
            return i;
        }
        i = i - 1;
    }
    i
}

/// Index of the last `.` in `path` at or after `from`, or `None`.
fn find_last_dot(path: &str, from: usize) -> (r: Option<usize>)
    requires
        from <= path@.len(),
    ensures
        path@.len() <= usize::MAX,
        ({
            let n = path@.subrange(from as int, path@.len() as int);
            match r {
                None => last_dot(n) == -1,
                Some(d) => from <= d < path@.len() && d - from == last_dot(n),
            }
        }),
{
    let len = path.unicode_len();
    let ghost n = path@.subrange(from as int, len as int);
    let mut i: usize = len;
    assert(n.take(len - from) =~= n);
    while i > from
        invariant
            from <= i <= len == path@.len(),
            n == path@.subrange(from as int, len as int),
            last_dot(n) == last_dot(n.take(i - from)),
        decreases i,
    {
        let c = path.get_char(i - 1);
        assert(n.take(i - from).drop_last() =~= n.take(i - 1 - from));
        if c == '.' {
            return Some(i - 1);
        }
        i = i - 1;
    }
    assert(n.take(0) =~= Seq::<char>::empty());
    None
}

/// Whether the characters of `path` from `from` on are exactly those of `word`.
fn tail_is(path: &str, from: usize, word: &str) -> (r: bool)
    requires
        from <= path@.len(),
    ensures
        r == (path@.subrange(from as int, path@.len() as int) == word@),
{
    let len = path.unicode_len();
    let wlen = word.unicode_len();
    if len - from != wlen {
        return false;
    }
    let mut k: usize = 0;
    while k < wlen
        invariant
            len == path@.len(),
            wlen == word@.len(),
            len - from == wlen,
            k <= wlen,
            forall|j: int| 0 <= j < k ==> path@[from + j] == word@[j],
        decreases wlen - k,
    {
        if path.get_char(from + k) != word.get_char(k) {
            return false;
        }
        k = k + 1;
    }
    assert(path@.subrange(from as int, len as int) =~= word@);
    true
}

/// Detects the format of a firmware file from its path: `bin`, `hex` and `elf`
/// give their format, no extension gives ELF, and any other extension is
/// unsupported (`None`).
pub fn detect_format(path: &str) -> (r: Option<ImageFormat>)
    ensures
        r == format_of(path@),
{
    let start = find_name_start(path);
    proof {
        lemma_name_start_bounds(path@);
    }
    let dot = find_last_dot(path, start);
    let ghost n = file_name(path@);
    assert(n == path@.subrange(start as int, path@.len() as int));
    proof {
        lemma_last_dot_bounds(n);
    }
    match dot {
        None => {
            Some(ImageFormat::Elf)
        },
        Some(d) => {
            if d == start {
                return Some(ImageFormat::Elf);
            }
            assert(path@.subrange(d + 1, path@.len() as int) =~= n.subrange(
                last_dot(n) + 1,
                n.len() as int,
            ));
            proof {
                reveal_strlit("bin");
                reveal_strlit("hex");
                reveal_strlit("elf");
                assert("bin"@ =~= seq!['b', 'i', 'n']);
                assert("hex"@ =~= seq!['h', 'e', 'x']);
                assert("elf"@ =~= seq!['e', 'l', 'f']);
            }
            if tail_is(path, d + 1, "bin") {
                Some(ImageFormat::Bin)
            } else if tail_is(path, d + 1, "hex") {
                Some(ImageFormat::Hex)
            } else if tail_is(path, d + 1, "elf") {
                Some(ImageFormat::Elf)
            } else {
                None
            }
        },
    }
}

} // verus!

verus! {

/// A firmware file chosen by the user, with the format detected from its path.
pub struct FirmwareImage {
    pub path: String,
    pub format: ImageFormat,
}

impl FirmwareImage {
    /// Loads `path` as a firmware image when its format is supported.
    pub fn from_path(path: String) -> (r: Option<FirmwareImage>)
        ensures
            match format_of(path@) {
                None => r is None,
                Some(f) => r matches Some(img) && img.path@ == path@ && img.format == f,
            },
    {
        match detect_format(path.as_str()) {
            None => None,
            Some(format) => Some(FirmwareImage { path, format }),
        }
    }
}

} // verus!

//! Output-path derivation: filename stems, path components, and the
//! destination directory and filename of a conversion.

use vstd::prelude::*;
use vstd::string::{StrSliceExecFns, StringExecFns};

use crate::error::ConvertError;

verus! {

/// None of the first `n` characters of `s` is `c`.
pub open spec fn free_prefix(s: Seq<char>, c: char, n: int) -> bool {
    forall|i: int| 0 <= i < n ==> s[i] != c
}

/// None of the characters of `s` at `k` or later is `c`.
pub open spec fn free_suffix(s: Seq<char>, c: char, k: int) -> bool {
    forall|i: int| k <= i < s.len() ==> s[i] != c
}

/// `c` occurs somewhere in `s`.
pub open spec fn contains_char(s: Seq<char>, c: char) -> bool {
    exists|i: int| 0 <= i < s.len() && s[i] == c
}

/// Where the last occurrence of `c` in `s` is, provided there is one.
pub open spec fn last_index_of(s: Seq<char>, c: char) -> int {
    choose|k: int| 0 <= k < s.len() && s[k] == c && free_suffix(s, c, k + 1)
}

/// A position that is an occurrence of `c` with none after it is the last
/// occurrence.
pub proof fn lemma_last_index_of(s: Seq<char>, c: char, k: int)
    requires
        0 <= k < s.len(),
        s[k] == c,
        free_suffix(s, c, k + 1),
    ensures
        last_index_of(s, c) == k,
{
    assert(0 <= k < s.len() && s[k] == c && free_suffix(s, c, k + 1));
    let k2 = last_index_of(s, c);
    assert(0 <= k2 < s.len() && s[k2] == c && free_suffix(s, c, k2 + 1));
    if k2 < k {
        assert(s[k] != c);
    } else if k < k2 {
        assert(s[k2] != c);
    }
}

/// The stem of a filename: everything before the first `.`, the whole name
/// when it has none.
pub open spec fn stem_of(s: Seq<char>) -> Seq<char>
    decreases s.len(),
{
    if s.len() == 0 {
        s
    } else if s[0] == '.' {
        Seq::empty()
    } else {
        seq![s[0]] + stem_of(s.skip(1))
    }
}

/// The stem of a name is its prefix up to the first `.`.
pub proof fn lemma_stem_prefix(s: Seq<char>, k: int)
    requires
        0 <= k <= s.len(),
        free_prefix(s, '.', k),
        k == s.len() || s[k] == '.',
    ensures
        stem_of(s) == s.take(k),
    decreases k,
{
    if s.len() == 0 {
        assert(stem_of(s) =~= s.take(k));
    } else if k == 0 {
        assert(stem_of(s) =~= s.take(0));
    } else {
        assert(s[0] != '.');
        let t = s.skip(1);
        assert(free_prefix(t, '.', k - 1)) by {
            assert(forall|i: int| 0 <= i < k - 1 ==> t[i] == s[i + 1] && s[i + 1] != '.');
        }
        assert(k - 1 == t.len() || t[k - 1] == '.');
        lemma_stem_prefix(t, k - 1);
        assert(stem_of(s) =~= s.take(k));
    }
}

/// The stem of `name`: the characters before the first `.`, the whole name
/// when it has none, and empty when the name starts with a `.`.
pub fn file_stem(name: &str) -> (r: &str)
    ensures
        r@ == stem_of(name@),
{
    let n = name.unicode_len();
    let mut i: usize = 0;
    while i < n
        invariant
            i <= n,
            n == name@.len(),
            free_prefix(name@, '.', i as int),
        decreases n - i,
    {
        if name.get_char(i) == '.' {
            proof {
                lemma_stem_prefix(name@, i as int);
            }
            return name.substring_char(0, i);
        }
        i += 1;
    }
    proof {
        lemma_stem_prefix(name@, n as int);
    }
    name.substring_char(0, n)
}

/// Where the last occurrence of `c` in `s` is, or `None` when `s` has none.
pub fn find_last(s: &str, c: char) -> (r: Option<usize>)
    ensures
        match r {
            Some(k) => k < s@.len() && s@[k as int] == c && last_index_of(s@, c) == k,
            None => !contains_char(s@, c),
        },
{
    let n = s.unicode_len();
    let mut i: usize = n;
    while i > 0
        invariant
            i <= n,
            n == s@.len(),
            free_suffix(s@, c, i as int),
        decreases i,
    {
        let j = i - 1;
        if s.get_char(j) == c {
            proof {
                lemma_last_index_of(s@, c, j as int);
            }
            return Some(j);
        }
        i = j;
    }
    None
}

/// The destination directory of a single-file conversion: a fixed
/// subfolder of the caller's well-known base directory.
pub open spec fn spec_single_dir(base: Seq<char>) -> Seq<char> {
    base + "/ImageConverter"@
}

/// The output filename of a single-file conversion: the stem with a
/// `_converted` suffix and the target extension.
pub open spec fn spec_single_file_name(original: Seq<char>, ext: Seq<char>) -> Seq<char> {
    stem_of(original) + "_converted."@ + ext
}

/// The output filename of one batch entry: the stem with the target
/// extension; no suffix, since the file lives in a derived folder.
pub open spec fn spec_batch_file_name(original: Seq<char>, ext: Seq<char>) -> Seq<char> {
    stem_of(original) + "."@ + ext
}

/// A batch path is usable when it has a `/`, a nonempty parent before the
/// last `/`, and a nonempty filename after it.
pub open spec fn batch_path_ok(path: Seq<char>) -> bool {
    &&& contains_char(path, '/')
    &&& 0 < last_index_of(path, '/')
    &&& last_index_of(path, '/') + 1 < path.len()
}

/// The destination directory of a batch conversion: the source folder's
/// path with a `_converted` suffix, beside the source folder.
pub open spec fn spec_batch_dir(path: Seq<char>) -> Seq<char> {
    path.take(last_index_of(path, '/')) + "_converted"@
}

/// The source filename of a batch entry: what follows the last `/`.
pub open spec fn spec_path_file_name(path: Seq<char>) -> Seq<char> {
    path.skip(last_index_of(path, '/') + 1)
}

/// The destination directory and filename of a single-file conversion.
pub fn derive_single_output(base_dir: &str, original_name: &str, ext: &str) -> (r: (
    String,
    String,
))
    ensures
        r.0@ == spec_single_dir(base_dir@),
        r.1@ == spec_single_file_name(original_name@, ext@),
{
    let dir = base_dir.to_owned().concat("/ImageConverter");
    let name = file_stem(original_name).to_owned().concat("_converted.").concat(ext);
    (dir, name)
}

/// The destination directory and filename of one batch entry, derived from
/// the source file's slash-separated path. A path without a `/`, with an
/// empty parent, or with an empty filename is rejected with
/// `ConvertError::Io`.
pub fn derive_batch_output(path: &str, ext: &str) -> (r: Result<(String, String), ConvertError>)
    ensures
        batch_path_ok(path@) <==> r is Ok,
        r is Ok ==> r->Ok_0.0@ == spec_batch_dir(path@),
        r is Ok ==> r->Ok_0.1@ == spec_batch_file_name(spec_path_file_name(path@), ext@),
        r is Err ==> r->Err_0 is Io,
{
    let n = path.unicode_len();
    match find_last(path, '/') {
        Some(k) => {
            if k == 0 || k + 1 >= n {
                return Err(ConvertError::Io(String::from_str("invalid file path")));
            }
            let parent = path.substring_char(0, k);
            let name = path.substring_char(k + 1, n);
            let dir = parent.to_owned().concat("_converted");
            let file = file_stem(name).to_owned().concat(".").concat(ext);
            Ok((dir, file))
        },
        None => Err(ConvertError::Io(String::from_str("invalid file path"))),
    }
}

/// `dir` and `name` joined with a single `/`.
pub fn join_path(dir: &str, name: &str) -> (r: String)
    ensures
        r@ == dir@ + "/"@ + name@,
{
    dir.to_owned().concat("/").concat(name)
}

} // verus!

//! Output-path derivation for processed images.
//!
//! A path is read as a sequence of characters with `/` as the separator.
//! The file name is everything after the last separator; its stem is the
//! part before the last `.` of the name, except that a leading `.` (a
//! hidden file with no other dot) does not begin an extension. A processed
//! image lands beside its input, or in a chosen output directory, under
//! `<stem>_no_bg.png`.

use vstd::prelude::*;
use vstd::string::*;

verus! {

/// The index of the last occurrence of `c` in `s`, or -1 when `c` does not
/// occur.
pub open spec fn last_index_of(s: Seq<char>, c: char) -> int
    decreases s.len(),
{
    if s.len() == 0 {
        -1
    } else if s.last() == c {
        s.len() - 1
    } else {
        last_index_of(s.drop_last(), c)
    }
}

pub proof fn lemma_last_index_bounds(s: Seq<char>, c: char)
    ensures
        -1 <= last_index_of(s, c) < s.len(),
    decreases s.len(),
{
    if s.len() > 0 && s.last() != c {
        lemma_last_index_bounds(s.drop_last(), c);
    }
}

/// Where the file-name part of a path begins: just after the last `/`.
pub open spec fn base_start_of(s: Seq<char>) -> int {
    last_index_of(s, '/') + 1
}

/// The file-name part of a path: everything after the last `/` (the whole
/// path when it has no `/`).
pub open spec fn spec_file_name(s: Seq<char>) -> Seq<char> {
    s.subrange(base_start_of(s), s.len() as int)
}

/// How many characters of a file name belong to its stem: up to the last
/// `.`, except that a `.` in first position never begins an extension.
pub open spec fn stem_len_of(name: Seq<char>) -> int {
    let d = last_index_of(name, '.');
    if d > 0 {
        d
    } else {
        name.len() as int
    }
}

/// The file name a processed image is stored under: the input's stem with
/// `_no_bg.png` appended.
pub open spec fn spec_output_name(name: Seq<char>) -> Seq<char> {
    name.subrange(0, stem_len_of(name)) + "_no_bg.png"@
}

/// The full output path: in `dir` when one was chosen, else beside the
/// input in its own directory.
pub open spec fn spec_output_path(input: Seq<char>, dir: Option<Seq<char>>) -> Seq<char> {
    match dir {
        Some(d) => d + "/"@ + spec_output_name(spec_file_name(input)),
        None => input.subrange(0, base_start_of(input)) + spec_output_name(spec_file_name(input)),
    }
}

pub open spec fn view_opt(d: Option<&str>) -> Option<Seq<char>> {
    match d {
        Some(s) => Some(s@),
        None => None,
    }
}

/// The index of the last occurrence of `c` in `s`, scanning from the end.
fn rfind_char(s: &str, c: char) -> (r: Option<usize>)
    ensures
        r is None ==> last_index_of(s@, c) == -1,
        r matches Some(k) ==> k as int == last_index_of(s@, c),
    {
    let n = s.unicode_len();
    let mut i = n;
    proof {
        assert(s@.take(n as int) =~= s@);
    }
    while i > 0
        invariant
            i <= n,
            n == s@.len(),
            last_index_of(s@, c) == last_index_of(s@.take(i as int), c),
        decreases i,
    {
        proof {
            assert(s@.take(i as int).last() == s@[i as int - 1]);
            assert(s@.take(i as int).drop_last() =~= s@.take(i as int - 1));
        }
        let ch = s.get_char(i - 1);
        if ch == c {
            return Some(i - 1);
        }
        i = i - 1;
    }
    assert(s@.take(0).len() == 0);
    None
}

/// The file-name part of a path, for per-item progress reports.
pub fn file_name_part(path: &str) -> (r: String)
    ensures
        r@ == spec_file_name(path@),
    {
    proof {
        lemma_last_index_bounds(path@, '/');
    }
    let n = path.unicode_len();
    let base_start: usize = match rfind_char(path, '/') {
        Some(k) => k + 1,
        None => 0,
    };
    let name = path.substring_char(base_start, n);
    String::from_str(name)
}

/// Derive the path a processed image is written to. `None` exactly when the
/// input path has no file-name part (it is empty or ends in `/`).
pub fn derive_output_path(input: &str, output_dir: Option<&str>) -> (r: Option<String>)
    ensures
        r is Some <==> spec_file_name(input@).len() > 0,
        r matches Some(p) ==> p@ == spec_output_path(input@, view_opt(output_dir)),
    {
    proof {
        lemma_last_index_bounds(input@, '/');
    }
    let n = input.unicode_len();
    let base_start: usize = match rfind_char(input, '/') {
        Some(k) => k + 1,
        None => 0,
    };
    if base_start == n {
        return None;
    }
    let name = input.substring_char(base_start, n);
    proof {
        lemma_last_index_bounds(name@, '.');
    }
    let stem_end_rel: usize = match rfind_char(name, '.') {
        Some(k) if k > 0 => k,
        _ => name.unicode_len(),
    };
    match output_dir {
        Some(dir) => {
            let stem = name.substring_char(0, stem_end_rel);
            let mut out = String::from_str(dir);
            out.append("/");
            out.append(stem);
            out.append("_no_bg.png");
            proof {
                assert(out@ =~= spec_output_path(input@, view_opt(output_dir)));
            }
            Some(out)
        },
        None => {
            let prefix = input.substring_char(0, base_start + stem_end_rel);
            let mut out = String::from_str(prefix);
            out.append("_no_bg.png");
            proof {
                assert(input@.subrange(0, base_start + stem_end_rel as int)
                    =~= input@.subrange(0, base_start as int)
                        + spec_file_name(input@).subrange(0, stem_end_rel as int));
                assert(out@ =~= spec_output_path(input@, view_opt(output_dir)));
            }
            Some(out)
        },
    }
}

/// `dir/name`: the location of one stored file inside a directory.
pub fn join_path(dir: &str, name: &str) -> (r: String)
    ensures
        r@ == dir@ + "/"@ + name@,
    {
    let mut out = String::from_str(dir);
    out.append("/");
    out.append(name);
    out
}

} // verus!

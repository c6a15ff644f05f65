//! Path-string arithmetic: joining an output root to a source path, deciding
//! whether a path's final segment carries an extension, and deriving the copy
//! destination (with `.jpg` appended to extensionless names).

use vstd::prelude::*;

verus! {

/// The output path for `p` placed under `root`: `root` and `p` glued with a
/// single `/` separator.
pub open spec fn spec_join(root: Seq<char>, p: Seq<char>) -> Seq<char> {
    root + seq!['/'] + p
}

/// Joins an output root and a source path with a `/` separator.
pub fn join_path(root: &str, p: &str) -> (r: String)
    ensures
        r@ == spec_join(root@, p@),
{
    let mut s = String::from_str(root);
    s.append("/");
    s.append(p);
    proof {
        reveal_strlit("/");
        assert("/"@ =~= seq!['/']);
        assert(s@ =~= spec_join(root@, p@));
    }
    s
}

/// The largest index at which `c` occurs in `p`, or `-1` when it does not
/// occur at all.
pub open spec fn spec_last_index_of(p: Seq<char>, c: char) -> int
    decreases p.len(),
{
    if p.len() == 0 {
        -1
    } else if p[p.len() - 1] == c {
        p.len() - 1
    } else {
        spec_last_index_of(p.drop_last(), c)
    }
}

/// A path carries an extension exactly when its final segment holds a `.`
/// somewhere after the segment's first character: `a.png` and `d/a.` do,
/// while `plain`, `d/.hidden` and `a.b/c` do not. The final segment begins
/// right after the last `/`, so the condition is that the last `.` lies at
/// least two places beyond the last `/`.
pub open spec fn spec_has_extension(p: Seq<char>) -> bool {
    spec_last_index_of(p, '.') >= spec_last_index_of(p, '/') + 2
}

/// Finds the last occurrence of `c` in `p` by scanning from the right.
fn last_index_of(p: &str, c: char) -> (r: Option<usize>)
    ensures
        match r {
            Some(k) => k as int == spec_last_index_of(p@, c),
            None => spec_last_index_of(p@, c) == -1,
        },
{
    let n = p.unicode_len();
    let mut i = n;
    proof {
        assert(p@.take(n as int) =~= p@);
    }
    while i > 0
        invariant
            0 <= i <= n,
            n == p@.len(),
            spec_last_index_of(p@, c) == spec_last_index_of(p@.take(i as int), c),
        decreases i,
    {
        if p.get_char(i - 1) == c {
            proof {
                assert(p@.take(i as int)[i - 1] == c);
            }
            return Some(i - 1);
        }
        proof {
            assert(p@.take(i as int).drop_last() =~= p@.take(i - 1));
            assert(p@.take(i as int)[i - 1] != c);
        }
        i = i - 1;
    }
    proof {
        assert(p@.take(0).len() == 0);
    }
    None
}

/// Decides whether the final segment of `p` carries an extension.
pub fn has_extension(p: &str) -> (r: bool)
    ensures
        r == spec_has_extension(p@),
{
    let dot = last_index_of(p, '.');
    let sep = last_index_of(p, '/');
    match (dot, sep) {
        (Some(d), Some(s)) => d > s && d - s >= 2,
        (Some(d), None) => d >= 1,
        (None, _) => false,
    }
}

/// The `.jpg` suffix appended to extensionless names.
pub open spec fn spec_jpg_suffix() -> Seq<char> {
    seq!['.', 'j', 'p', 'g']
}

/// The destination a source file is copied to: the source path placed under
/// the output root as-is when its name carries an extension, and with `.jpg`
/// appended when it does not.
pub open spec fn spec_copy_dest(root: Seq<char>, file: Seq<char>) -> Seq<char> {
    if spec_has_extension(file) {
        spec_join(root, file)
    } else {
        spec_join(root, file) + spec_jpg_suffix()
    }
}

/// Computes the copy destination for `file` under `output_root`, normalizing
/// extensionless names to `.jpg`.
pub fn copy_destination(output_root: &str, file: &str) -> (r: String)
    ensures
        r@ == spec_copy_dest(output_root@, file@),
{
    let mut s = join_path(output_root, file);
    if !has_extension(file) {
        s.append(".jpg");
        proof {
            reveal_strlit(".jpg");
            assert(".jpg"@ =~= spec_jpg_suffix());
        }
    }
    s
}

} // verus!

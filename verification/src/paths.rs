//! Filesystem paths as text: joining a directory and a file name, and picking
//! out of an ordered candidate list the entries that exist on this machine.
//! Whether a path exists is asked of the filesystem each time, so the
//! contracts here hold for every answer it may give.

use vstd::prelude::*;
use crate::text::{chars_of, string_of, extend};

verus! {

/// The view of every string in a sequence.
pub open spec fn str_views(v: Seq<String>) -> Seq<Seq<char>> {
    v.map_values(|s: String| s@)
}

/// `Path::new(dir).join(name)` for a directory without a trailing `/` and a
/// relative file name.
pub open spec fn join_path(dir: Seq<char>, name: Seq<char>) -> Seq<char> {
    dir + seq!['/'] + name
}

/// `std::path::Path::exists`. Nothing is claimed of the answer: it depends
/// on what is on disk at the moment of the call.
#[verifier::external_body]
pub fn path_exists(p: &str) -> bool {
    std::path::Path::new(p).exists()
}

/// Join a directory and a file name.
pub fn join_path_exec(dir: &str, name: &str) -> (r: String)
    ensures
        r@ == join_path(dir@, name@),
{
    let mut v = chars_of(dir);
    v.push('/');
    let n = chars_of(name);
    extend(&mut v, &n);
    proof {
        assert(v@ =~= join_path(dir@, name@));
    }
    string_of(&v)
}

/// `r` is the first entry of `c` whose flag is set, or `None` when no flag is
/// set.
pub open spec fn first_flagged(c: Seq<Seq<char>>, flags: Seq<bool>, r: Option<Seq<char>>) -> bool {
    &&& flags.len() == c.len()
    &&& match r {
        Some(p) => exists|i: int|
            0 <= i < c.len() && #[trigger] flags[i] && c[i] == p && forall|j: int|
                0 <= j < i ==> !flags[j],
        None => forall|j: int| 0 <= j < c.len() ==> !flags[j],
    }
}

/// The entries of `c` whose flag is set, in order.
pub open spec fn flagged(c: Seq<Seq<char>>, flags: Seq<bool>) -> Seq<Seq<char>>
    decreases c.len(),
{
    if c.len() == 0 || flags.len() == 0 {
        Seq::empty()
    } else if flags.last() {
        flagged(c.drop_last(), flags.drop_last()).push(c.last())
    } else {
        flagged(c.drop_last(), flags.drop_last())
    }
}

/// The positions in `c` that `flagged(c, flags)` keeps, in increasing order.
pub proof fn flagged_positions(c: Seq<Seq<char>>, flags: Seq<bool>) -> (idx: Seq<int>)
    requires
        flags.len() == c.len(),
    ensures
        idx.len() == flagged(c, flags).len(),
        forall|k: int| 0 <= k < idx.len() ==> 0 <= #[trigger] idx[k] < c.len()
            && flagged(c, flags)[k] == c[idx[k]],
        forall|k: int, l: int| 0 <= k < l < idx.len() ==> idx[k] < idx[l],
    decreases c.len(),
{
    if c.len() == 0 {
        Seq::empty()
    } else {
        let rest = flagged_positions(c.drop_last(), flags.drop_last());
        if flags.last() {
            let idx = rest.push(c.len() - 1);
            assert forall|k: int| 0 <= k < idx.len() implies 0 <= #[trigger] idx[k] < c.len()
                && flagged(c, flags)[k] == c[idx[k]] by {
                if k < rest.len() {
                    assert(idx[k] == rest[k]);
                }
            }
            idx
        } else {
            rest
        }
    }
}

/// The first candidate that exists on disk. For each answer the filesystem
/// gives, the result is the first candidate it reported as existing.
pub fn first_existing(c: &Vec<String>) -> (r: Option<String>)
    ensures
        exists|flags: Seq<bool>| first_flagged(str_views(c@), flags, opt_str(r)),
{
    let ghost cv = str_views(c@);
    let ghost mut seen: Seq<bool> = Seq::empty();
    let mut i: usize = 0;
    while i < c.len()
        invariant
            cv == str_views(c@),
            i <= c@.len(),
            seen.len() == i,
            forall|j: int| 0 <= j < i ==> !seen[j],
        decreases c.len() - i,
    {
        if path_exists(c[i].as_str()) {
            let ghost w = seen.push(true) + Seq::new((c@.len() - i - 1) as nat, |k: int| false);
            assert(w[i as int]);
            assert(first_flagged(cv, w, Some(c@[i as int]@)));
            return Some(c[i].clone());
        }
        proof {
            seen = seen.push(false);
        }
        i = i + 1;
    }
    assert(first_flagged(cv, seen, None));
    None
}

/// The candidates that exist on disk, in order. For each answer the
/// filesystem gives, the result is exactly the candidates it reported as
/// existing.
pub fn existing(c: &Vec<String>) -> (r: Vec<String>)
    ensures
        exists|flags: Seq<bool>|
            flags.len() == c@.len() && str_views(r@) == flagged(str_views(c@), flags),
{
    let ghost cv = str_views(c@);
    let ghost mut seen: Seq<bool> = Seq::empty();
    let mut out: Vec<String> = Vec::new();
    let mut i: usize = 0;
    while i < c.len()
        invariant
            cv == str_views(c@),
            i <= c@.len(),
            seen.len() == i,
            str_views(out@) == flagged(cv.take(i as int), seen),
        decreases c.len() - i,
    {
        let e = path_exists(c[i].as_str());
        let ghost old_seen = seen;
        proof {
            assert(cv.take(i + 1).drop_last() =~= cv.take(i as int));
        }
        if e {
            out.push(c[i].clone());
            proof {
                seen = seen.push(true);
            }
        } else {
            proof {
                seen = seen.push(false);
            }
        }
        assert(seen.drop_last() =~= old_seen);
        assert(str_views(out@) =~= flagged(cv.take(i + 1), seen));
        i = i + 1;
    }
    assert(cv.take(c@.len() as int) =~= cv);
    out
}

pub open spec fn opt_str(o: Option<String>) -> Option<Seq<char>> {
    match o {
        Some(s) => Some(s@),
        None => None,
    }
}

} // verus!

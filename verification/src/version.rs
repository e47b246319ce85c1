//! Dotted version strings (`v1.2.3-foo`): their numeric components, the
//! numeric order on them, and the `major.minor` compatibility test used to
//! warn about a GUI/backend mismatch.

use vstd::prelude::*;
use std::cmp::Ordering;
use crate::text::{
    chars_of, digit_prefix_len, digits_value, find_char, is_ascii_digit, is_digit,
    lemma_find_char_none, lemma_find_char_some, lemma_find_char_spec, lit, split, split_vec,
    starts_with, strip_all_prefix, strip_all_prefix_vec, views,
};

verus! {

/// The numeric value of one component: the decimal digits it starts with, or 0
/// when there are none or they do not fit a `u64` (the parse fails).
pub open spec fn part_value(p: Seq<char>) -> u64 {
    let d = p.take(digit_prefix_len(p) as int);
    if d.len() > 0 && digits_value(d) <= u64::MAX {
        digits_value(d) as u64
    } else {
        0
    }
}

/// `-` separates components just like `.`.
pub open spec fn dash_to_dot(s: Seq<char>) -> Seq<char> {
    s.map_values(|c: char| if c == '-' { '.' } else { c })
}

/// The pieces of a version string: leading `v`s dropped, split on `.` and
/// `-`.
pub open spec fn version_pieces(s: Seq<char>) -> Seq<Seq<char>> {
    split(dash_to_dot(strip_all_prefix(s, seq!['v'])), '.')
}

/// The pieces without the trailing ones that start with no digit (a suffix
/// such as `-foo`).
pub open spec fn numeric_pieces(ps: Seq<Seq<char>>) -> Seq<Seq<char>>
    decreases ps.len(),
{
    if ps.len() > 0 && digit_prefix_len(ps.last()) == 0 {
        numeric_pieces(ps.drop_last())
    } else {
        ps
    }
}

/// Numeric components of a version string: its pieces without a non-numeric
/// suffix, each read by [`part_value`].
pub open spec fn version_parts_of(s: Seq<char>) -> Seq<u64> {
    numeric_pieces(version_pieces(s)).map_values(|p: Seq<char>| part_value(p))
}

/// Component `i`, with missing components read as 0.
pub open spec fn part_at(v: Seq<u64>, i: int) -> u64 {
    if 0 <= i < v.len() {
        v[i]
    } else {
        0
    }
}

/// Lexicographic order of two component lists from index `i` on, the shorter
/// padded with zeros: -1, 0 or 1.
pub open spec fn parts_order_from(a: Seq<u64>, b: Seq<u64>, i: int) -> int
    decreases a.len() + b.len() - i,
{
    if i < 0 || (i >= a.len() && i >= b.len()) {
        0
    } else if part_at(a, i) < part_at(b, i) {
        -1
    } else if part_at(a, i) > part_at(b, i) {
        1
    } else {
        parts_order_from(a, b, i + 1)
    }
}

/// Numeric order of two version strings: -1 (`a` older), 0, or 1 (`a` newer).
pub open spec fn version_order(a: Seq<char>, b: Seq<char>) -> int {
    parts_order_from(version_parts_of(a), version_parts_of(b), 0)
}

/// [`parts_order_from`] at an executable index.
pub open spec fn order_at(a: Seq<u64>, b: Seq<u64>, i: usize) -> int {
    parts_order_from(a, b, i as int)
}

/// `major.minor` of a version string (missing components read as 0).
pub open spec fn feature_key(s: Seq<char>) -> (u64, u64) {
    (part_at(version_parts_of(s), 0), part_at(version_parts_of(s), 1))
}

proof fn lemma_digits_value_step(p: Seq<char>, j: int)
    requires
        0 <= j < p.len(),
    ensures
        digits_value(p.take(j + 1)) == digits_value(p.take(j)) * 10 + ((p[j] as nat) - ('0' as nat)) as nat,
{
    assert(p.take(j + 1).drop_last() =~= p.take(j));
}

proof fn lemma_digit_prefix(p: Seq<char>, k: int)
    requires
        0 <= k <= p.len(),
        forall|j: int| 0 <= j < k ==> is_digit(p[j]),
        k == p.len() || !is_digit(p[k]),
    ensures
        digit_prefix_len(p) == k,
    decreases k,
{
    if k > 0 {
        lemma_digit_prefix(p.drop_first(), k - 1);
    }
}

/// Value of one component (see [`part_value`]).
fn part_value_of(p: &[char]) -> (r: u64)
    ensures
        r == part_value(p@),
{
    let n = p.len();
    let mut k: usize = 0;
    while k < n && is_ascii_digit(p[k])
        invariant
            n == p@.len(),
            k <= n,
            forall|j: int| 0 <= j < k ==> is_digit(p@[j]),
        decreases n - k,
    {
        k = k + 1;
    }
    proof {
        lemma_digit_prefix(p@, k as int);
    }
    let mut acc: u64 = 0;
    let mut overflow = false;
    let mut j: usize = 0;
    while j < k
        invariant
            n == p@.len(),
            j <= k <= n,
            forall|i: int| 0 <= i < k ==> is_digit(p@[i]),
            !overflow ==> acc as nat == digits_value(p@.take(j as int)),
            overflow ==> digits_value(p@.take(j as int)) > u64::MAX,
        decreases k - j,
    {
        proof {
            lemma_digits_value_step(p@, j as int);
        }
        let d = p[j];
        let dv: u64 = if d == '0' {
            0
        } else if d == '1' {
            1
        } else if d == '2' {
            2
        } else if d == '3' {
            3
        } else if d == '4' {
            4
        } else if d == '5' {
            5
        } else if d == '6' {
            6
        } else if d == '7' {
            7
        } else if d == '8' {
            8
        } else {
            9
        };
        assert(dv == (d as nat) - ('0' as nat));
        if !overflow {
            match acc.checked_mul(10) {
                Some(m) => match m.checked_add(dv) {
                    Some(v) => {
                        acc = v;
                    },
                    None => {
                        overflow = true;
                    },
                },
                None => {
                    overflow = true;
                    assert(digits_value(p@.take(j as int)) * 10 > u64::MAX) by (nonlinear_arith)
                        requires
                            digits_value(p@.take(j as int)) * 10 > u64::MAX || acc * 10 > u64::MAX,
                            acc as nat == digits_value(p@.take(j as int)),
                    ;
                },
            }
        } else {
            assert(digits_value(p@.take(j as int)) * 10 >= digits_value(p@.take(j as int)))
                by (nonlinear_arith);
        }
        j = j + 1;
    }
    if k > 0 && !overflow {
        acc
    } else {
        0
    }
}

proof fn lemma_numeric_pieces(ps: Seq<Seq<char>>)
    ensures
        numeric_pieces(ps).len() <= ps.len(),
        numeric_pieces(ps) == ps.take(numeric_pieces(ps).len() as int),
        forall|j: int|
            numeric_pieces(ps).len() <= j < ps.len() ==> digit_prefix_len(#[trigger] ps[j]) == 0,
    decreases ps.len(),
{
    if ps.len() > 0 && digit_prefix_len(ps.last()) == 0 {
        lemma_numeric_pieces(ps.drop_last());
        let d = numeric_pieces(ps);
        assert(ps.drop_last().take(d.len() as int) =~= ps.take(d.len() as int));
        assert forall|j: int| d.len() <= j < ps.len() implies digit_prefix_len(#[trigger] ps[j]) == 0 by {
            if j < ps.len() - 1 {
                assert(ps[j] == ps.drop_last()[j]);
            }
        }
    } else {
        assert(ps.take(ps.len() as int) =~= ps);
    }
}

proof fn lemma_numeric_pieces_of_take(ps: Seq<Seq<char>>, m: int)
    requires
        0 <= m <= ps.len(),
        forall|j: int| m <= j < ps.len() ==> digit_prefix_len(#[trigger] ps[j]) == 0,
    ensures
        numeric_pieces(ps) == numeric_pieces(ps.take(m)),
    decreases ps.len(),
{
    if m < ps.len() {
        assert(ps.drop_last().take(m) =~= ps.take(m));
        assert forall|j: int| m <= j < ps.drop_last().len() implies digit_prefix_len(
            #[trigger] ps.drop_last()[j],
        ) == 0 by {
            assert(ps.drop_last()[j] == ps[j]);
        }
        lemma_numeric_pieces_of_take(ps.drop_last(), m);
    } else {
        assert(ps.take(m) =~= ps);
    }
}

/// Numeric components of a version string, e.g. `v1.2.3-foo` -> `[1, 2, 3]`.
pub fn version_parts(s: &str) -> (r: Vec<u64>)
    ensures
        r@ == version_parts_of(s@),
{
    let cs = chars_of(s);
    let v = lit("v");
    proof {
        reveal_strlit("v");
    }
    assert(v@ =~= seq!['v']);
    let stripped = strip_all_prefix_vec(&cs, &v);
    let mut mapped: Vec<char> = Vec::new();
    let mut i: usize = 0;
    while i < stripped.len()
        invariant
            i <= stripped@.len(),
            mapped@ == dash_to_dot(stripped@.take(i as int)),
        decreases stripped.len() - i,
    {
        let c = stripped[i];
        mapped.push(if c == '-' {
            '.'
        } else {
            c
        });
        i = i + 1;
        assert(mapped@ =~= dash_to_dot(stripped@.take(i as int)));
    }
    assert(stripped@.take(stripped@.len() as int) =~= stripped@);
    assert(mapped@ == dash_to_dot(strip_all_prefix(s@, seq!['v'])));
    let pieces = split_vec(&mapped, '.');
    let ghost ps = views(pieces@);
    assert(ps == version_pieces(s@));
    let mut m: usize = pieces.len();
    while m > 0 && !starts_with_digit(&pieces[m - 1])
        invariant
            m <= pieces@.len(),
            ps == views(pieces@),
            forall|j: int| m <= j < ps.len() ==> digit_prefix_len(#[trigger] ps[j]) == 0,
        decreases m,
    {
        m = m - 1;
    }
    proof {
        lemma_numeric_pieces_of_take(ps, m as int);
        if m > 0 {
            assert(ps.take(m as int).last() == ps[m - 1]);
        }
        assert(numeric_pieces(ps.take(m as int)) == ps.take(m as int));
    }
    let mut out: Vec<u64> = Vec::new();
    let mut j: usize = 0;
    while j < m
        invariant
            j <= m <= pieces@.len(),
            ps == views(pieces@),
            out@ == ps.take(j as int).map_values(|p: Seq<char>| part_value(p)),
        decreases m - j,
    {
        let x = part_value_of(&pieces[j]);
        out.push(x);
        j = j + 1;
        assert(out@ =~= ps.take(j as int).map_values(|p: Seq<char>| part_value(p)));
    }
    assert(out@ =~= version_parts_of(s@));
    out
}

fn starts_with_digit(p: &Vec<char>) -> (r: bool)
    ensures
        r == (digit_prefix_len(p@) > 0),
{
    p.len() > 0 && is_ascii_digit(p[0])
}

fn part_at_exec(v: &Vec<u64>, i: usize) -> (r: u64)
    ensures
        r == part_at(v@, i as int),
{
    if i < v.len() {
        v[i]
    } else {
        0
    }
}

/// Compare dotted version strings numerically (missing components are 0).
pub fn version_cmp(a: &str, b: &str) -> (r: Ordering)
    ensures
        match r {
            Ordering::Less => version_order(a@, b@) == -1,
            Ordering::Equal => version_order(a@, b@) == 0,
            Ordering::Greater => version_order(a@, b@) == 1,
        },
{
    let va = version_parts(a);
    let vb = version_parts(b);
    let len = if va.len() > vb.len() {
        va.len()
    } else {
        vb.len()
    };
    let mut i: usize = 0;
    while i < len
        invariant
            len == (if va@.len() > vb@.len() {
                va@.len()
            } else {
                vb@.len()
            }),
            i <= len,
            va@ == version_parts_of(a@),
            vb@ == version_parts_of(b@),
            parts_order_from(va@, vb@, 0) == order_at(va@, vb@, i),
        decreases len - i,
    {
        let x = part_at_exec(&va, i);
        let y = part_at_exec(&vb, i);
        if x < y {
            assert(order_at(va@, vb@, i) == -1);
            return Ordering::Less;
        }
        if x > y {
            assert(order_at(va@, vb@, i) == 1);
            return Ordering::Greater;
        }
        i = i + 1;
    }
    Ordering::Equal
}

/// Whether `a` is a newer version than `b`.
pub fn version_newer(a: &str, b: &str) -> (r: bool)
    ensures
        r == (version_order(a@, b@) > 0),
{
    match version_cmp(a, b) {
        Ordering::Greater => true,
        _ => false,
    }
}

/// Whether `a` and `b` are the same version numerically.
pub fn version_equal(a: &str, b: &str) -> (r: bool)
    ensures
        r == (version_order(a@, b@) == 0),
{
    match version_cmp(a, b) {
        Ordering::Equal => true,
        _ => false,
    }
}

/// True when two versions agree on `major.minor`; patch differences are
/// treated as compatible.
pub fn same_feature_version(a: &str, b: &str) -> (r: bool)
    ensures
        r == (feature_key(a@) == feature_key(b@)),
{
    let pa = version_parts(a);
    let pb = version_parts(b);
    part_at_exec(&pa, 0) == part_at_exec(&pb, 0) && part_at_exec(&pa, 1) == part_at_exec(&pb, 1)
}

// ---------------------------------------------------------------------------
// laws
// ---------------------------------------------------------------------------

proof fn lemma_order_step(a: Seq<u64>, b: Seq<u64>, i: int)
    requires
        0 <= i,
    ensures
        parts_order_from(a, b, i) == (if part_at(a, i) < part_at(b, i) {
            -1
        } else if part_at(a, i) > part_at(b, i) {
            1
        } else {
            parts_order_from(a, b, i + 1)
        }),
{
    if i >= a.len() && i >= b.len() {
        assert(parts_order_from(a, b, i + 1) == 0);
    }
}

proof fn lemma_order_equal_parts(a: Seq<u64>, b: Seq<u64>, i: int)
    requires
        0 <= i,
        forall|j: int| i <= j ==> part_at(a, j) == part_at(b, j),
    ensures
        parts_order_from(a, b, i) == 0,
    decreases a.len() + b.len() - i,
{
    if i >= a.len() && i >= b.len() {
    } else {
        assert(part_at(a, i) == part_at(b, i));
        lemma_order_equal_parts(a, b, i + 1);
    }
}

proof fn lemma_order_zero_parts(a: Seq<u64>, b: Seq<u64>, i: int)
    requires
        0 <= i,
        parts_order_from(a, b, i) == 0,
    ensures
        forall|j: int| i <= j ==> part_at(a, j) == part_at(b, j),
    decreases a.len() + b.len() - i,
{
    if i >= a.len() && i >= b.len() {
    } else {
        lemma_order_zero_parts(a, b, i + 1);
    }
}

proof fn lemma_order_antisym(a: Seq<u64>, b: Seq<u64>, i: int)
    requires
        0 <= i,
    ensures
        parts_order_from(a, b, i) == -parts_order_from(b, a, i),
        -1 <= parts_order_from(a, b, i) <= 1,
    decreases a.len() + b.len() - i,
{
    if i >= a.len() && i >= b.len() {
    } else {
        lemma_order_antisym(a, b, i + 1);
    }
}

proof fn lemma_order_trans(a: Seq<u64>, b: Seq<u64>, c: Seq<u64>, i: int)
    requires
        0 <= i,
        parts_order_from(a, b, i) <= 0,
        parts_order_from(b, c, i) <= 0,
    ensures
        parts_order_from(a, c, i) <= 0,
    decreases a.len() + b.len() + c.len() - i,
{
    lemma_order_step(a, b, i);
    lemma_order_step(b, c, i);
    lemma_order_step(a, c, i);
    if i >= a.len() && i >= b.len() && i >= c.len() {
    } else if part_at(a, i) == part_at(b, i) && part_at(b, i) == part_at(c, i) {
        lemma_order_trans(a, b, c, i + 1);
    }
}

/// Versions compare as a total order: every version equals itself, swapping
/// the arguments flips the answer, and "not newer than" is transitive.
pub proof fn version_order_is_total_order(a: Seq<char>, b: Seq<char>, c: Seq<char>)
    ensures
        version_order(a, a) == 0,
        -1 <= version_order(a, b) <= 1,
        version_order(a, b) == -version_order(b, a),
        version_order(a, b) <= 0 && version_order(b, c) <= 0 ==> version_order(a, c) <= 0,
{
    let (pa, pb, pc) = (version_parts_of(a), version_parts_of(b), version_parts_of(c));
    lemma_order_equal_parts(pa, pa, 0);
    lemma_order_antisym(pa, pb, 0);
    if version_order(a, b) <= 0 && version_order(b, c) <= 0 {
        lemma_order_trans(pa, pb, pc, 0);
    }
}

/// Versions that compare equal share their `major.minor`, so they are always
/// treated as compatible.
pub proof fn equal_versions_are_same_feature(a: Seq<char>, b: Seq<char>)
    requires
        version_order(a, b) == 0,
    ensures
        feature_key(a) == feature_key(b),
{
    lemma_order_zero_parts(version_parts_of(a), version_parts_of(b), 0);
    assert(part_at(version_parts_of(a), 0) == part_at(version_parts_of(b), 0));
    assert(part_at(version_parts_of(a), 1) == part_at(version_parts_of(b), 1));
}

/// A leading `v` does not change a version: `v1.2.3` equals `1.2.3`.
pub proof fn leading_v_is_ignored(s: Seq<char>)
    ensures
        version_parts_of(seq!['v'] + s) == version_parts_of(s),
        version_order(seq!['v'] + s, s) == 0,
{
    let vs = seq!['v'] + s;
    assert(vs.take(1) =~= seq!['v']);
    assert(vs.skip(1) =~= s);
    assert(strip_all_prefix(vs, seq!['v']) == strip_all_prefix(s, seq!['v']));
    lemma_order_equal_parts(version_parts_of(vs), version_parts_of(s), 0);
}

proof fn lemma_strip_v_append(s: Seq<char>, t: Seq<char>)
    requires
        t.len() > 0,
        t[0] != 'v',
    ensures
        strip_all_prefix(s + t, seq!['v']) == strip_all_prefix(s, seq!['v']) + t,
    decreases s.len(),
{
    let v = seq!['v'];
    if s.len() > 0 && s[0] == 'v' {
        assert((s + t).take(1) =~= v);
        assert(s.take(1) =~= v);
        assert((s + t).skip(1) =~= s.skip(1) + t);
        lemma_strip_v_append(s.skip(1), t);
    } else {
        if s.len() == 0 {
            assert(s + t =~= t);
            assert(t.take(1) != v) by {
                assert(t.take(1)[0] != v[0]);
            }
        } else {
            assert((s + t).take(1) != v) by {
                assert((s + t).take(1)[0] == s[0]);
            }
            assert(s.take(1) != v) by {
                assert(s.take(1)[0] == s[0]);
            }
        }
    }
}

proof fn lemma_split_append(x: Seq<char>, y: Seq<char>, c: char)
    ensures
        split(x + seq![c] + y, c) == split(x, c) + split(y, c),
    decreases x.len(),
{
    let s = x + seq![c] + y;
    lemma_find_char_spec(x, c);
    match find_char(x, c) {
        Some(i) => {
            assert forall|j: int| 0 <= j < i implies s[j] != c by {
                assert(s[j] == x[j]);
            }
            assert(s[i] == x[i]);
            lemma_find_char_some(s, c, i);
            assert(s.take(i) =~= x.take(i));
            assert(s.skip(i + 1) =~= x.skip(i + 1) + seq![c] + y);
            lemma_split_append(x.skip(i + 1), y, c);
            assert(split(x, c) == seq![x.take(i)] + split(x.skip(i + 1), c));
            assert(split(s, c) =~= split(x, c) + split(y, c));
        },
        None => {
            assert forall|j: int| 0 <= j < x.len() implies s[j] != c by {
                assert(s[j] == x[j]);
            }
            assert(s[x.len() as int] == c);
            lemma_find_char_some(s, c, x.len() as int);
            assert(s.take(x.len() as int) =~= x);
            assert(s.skip(x.len() as int + 1) =~= y);
            assert(split(s, c) =~= split(x, c) + split(y, c));
        },
    }
}

/// Missing trailing components read as zero: `s` and `s.0` compare equal.
pub proof fn trailing_zero_is_ignored(s: Seq<char>)
    ensures
        version_order(s, s + seq!['.', '0']) == 0,
{
    let t = seq!['.', '0'];
    let v = seq!['v'];
    lemma_strip_v_append(s, t);
    let st = strip_all_prefix(s, v);
    assert(dash_to_dot(st + t) =~= dash_to_dot(st) + seq!['.'] + seq!['0']);
    lemma_split_append(dash_to_dot(st), seq!['0'], '.');
    lemma_find_char_none(seq!['0'], '.');
    assert(split(seq!['0'], '.') == seq![seq!['0']]);
    let z = seq!['0'];
    assert(digit_prefix_len(z.drop_first()) == 0);
    assert(digit_prefix_len(z) == 1);
    assert(z.take(1) =~= z);
    assert(z.drop_last() =~= Seq::<char>::empty());
    assert(digits_value(z.drop_last()) == 0);
    assert(z.last() == '0');
    assert(digits_value(z) == 0);
    assert(part_value(z) == 0);
    let ps = version_pieces(s);
    let qs = version_pieces(s + t);
    assert(qs =~= ps.push(z));
    assert(qs.last() == z);
    assert(numeric_pieces(qs) == qs);
    lemma_numeric_pieces(ps);
    let k = numeric_pieces(ps).len() as int;
    let (pa, pb) = (version_parts_of(s), version_parts_of(s + t));
    assert(pa =~= ps.take(k).map_values(|p: Seq<char>| part_value(p)));
    assert(pb =~= qs.map_values(|p: Seq<char>| part_value(p)));
    assert forall|j: int| 0 <= j implies part_at(pa, j) == part_at(pb, j) by {
        if j < k {
            assert(pb[j] == part_value(qs[j]));
            assert(qs[j] == ps[j]);
        } else if j < ps.len() {
            assert(digit_prefix_len(ps[j]) == 0);
            assert(ps[j].take(0) =~= Seq::<char>::empty());
            assert(pb[j] == part_value(qs[j]));
            assert(qs[j] == ps[j]);
        } else if j == ps.len() {
            assert(pb[j] == part_value(z));
        }
    }
    lemma_order_equal_parts(pa, pb, 0);
}

} // verus!

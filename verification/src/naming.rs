//! Screenshot file naming.
//!
//! The multi-shot capture derives one filename per shot by inserting `_i`
//! (1-based) immediately before the rightmost `.` of the requested name, or
//! appending it when the name has no dot. Names are handled as byte
//! strings.

use vstd::prelude::*;

verus! {

/// ASCII `.`.
pub const DOT: u8 = 46;

/// ASCII `_`.
pub const UNDERSCORE: u8 = 95;

/// The name contains a dot.
pub open spec fn has_dot(s: Seq<u8>) -> bool {
    exists|i: int| 0 <= i < s.len() && #[trigger] s[i] == DOT
}

/// Index of the rightmost dot (meaningful only when `has_dot(s)`).
pub open spec fn last_dot(s: Seq<u8>) -> int
    decreases s.len(),
{
    if s.len() == 0 {
        0
    } else if s.last() == DOT {
        s.len() - 1
    } else {
        last_dot(s.drop_last())
    }
}

/// Where the suffix is inserted: before the rightmost dot, or at the end
/// when there is none.
pub open spec fn insert_at(s: Seq<u8>) -> int {
    if has_dot(s) {
        last_dot(s)
    } else {
        s.len() as int
    }
}

/// The name with `ins` inserted before its rightmost dot.
pub open spec fn insert_spec(s: Seq<u8>, ins: Seq<u8>) -> Seq<u8> {
    s.take(insert_at(s)) + ins + s.skip(insert_at(s))
}

/// The decimal digits of `n`, most significant first.
pub open spec fn dec_spec(n: nat) -> Seq<u8>
    decreases n,
{
    if n < 10 {
        seq![(48 + n) as u8]
    } else {
        dec_spec(n / 10).push((48 + n % 10) as u8)
    }
}

/// The name of shot `i`: `_i` inserted before the rightmost dot.
pub open spec fn shot_name_spec(s: Seq<u8>, i: nat) -> Seq<u8> {
    insert_spec(s, seq![UNDERSCORE] + dec_spec(i))
}

/// A dot with no dot to its right is the rightmost dot.
proof fn lemma_last_dot_at(s: Seq<u8>, k: int)
    requires
        0 <= k < s.len(),
        s[k] == DOT,
        forall|j: int| k < j < s.len() ==> s[j] != DOT,
    ensures
        has_dot(s),
        last_dot(s) == k,
    decreases s.len(),
{
    assert(s[k] == DOT);
    if k == s.len() - 1 {
    } else {
        assert(s.last() != DOT);
        lemma_last_dot_at(s.drop_last(), k);
    }
}

/// Index of the rightmost dot, or the length when there is none.
fn find_insert_at(name: &Vec<u8>) -> (i: usize)
    ensures
        i == insert_at(name@),
        i <= name@.len(),
{
    let mut j: usize = name.len();
    while j > 0
        invariant
            j <= name@.len(),
            forall|t: int| j <= t < name@.len() ==> name@[t] != DOT,
        decreases j,
    {
        let jj: usize = j - 1;
        if name[jj] == DOT {
            proof {
                lemma_last_dot_at(name@, jj as int);
            }
            return jj;
        }
        j = jj;
    }
    proof {
        assert(!has_dot(name@));
    }
    name.len()
}

/// Insert `ins` immediately before the rightmost dot of `name`, or append
/// it when `name` has no dot.
pub fn insert_before_last_dot(name: &Vec<u8>, ins: &Vec<u8>) -> (r: Vec<u8>)
    ensures
        r@ == insert_spec(name@, ins@),
{
    let idx: usize = find_insert_at(name);
    let mut out: Vec<u8> = Vec::new();
    let mut k: usize = 0;
    proof {
        assert(out@ =~= name@.subrange(0, 0));
    }
    while k < idx
        invariant
            k <= idx <= name@.len(),
            out@ == name@.subrange(0, k as int),
        decreases idx - k,
    {
        out.push(name[k]);
        proof {
            assert(name@.subrange(0, k + 1) =~= name@.subrange(0, k as int).push(
                name@[k as int],
            ));
        }
        k = k + 1;
    }
    let mut t: usize = 0;
    while t < ins.len()
        invariant
            t <= ins@.len(),
            idx <= name@.len(),
            out@ == name@.subrange(0, idx as int) + ins@.subrange(0, t as int),
        decreases ins@.len() - t,
    {
        out.push(ins[t]);
        proof {
            assert(name@.subrange(0, idx as int) + ins@.subrange(0, t + 1) =~= (name@.subrange(
                0,
                idx as int,
            ) + ins@.subrange(0, t as int)).push(ins@[t as int]));
        }
        t = t + 1;
    }
    proof {
        assert(ins@.subrange(0, ins@.len() as int) =~= ins@);
    }
    let mut m: usize = idx;
    while m < name.len()
        invariant
            idx <= m <= name@.len(),
            out@ == name@.subrange(0, idx as int) + ins@ + name@.subrange(idx as int, m as int),
        decreases name@.len() - m,
    {
        out.push(name[m]);
        proof {
            assert(name@.subrange(idx as int, m + 1) =~= name@.subrange(idx as int, m as int).push(
                name@[m as int],
            ));
            assert(name@.subrange(0, idx as int) + ins@ + name@.subrange(idx as int, m + 1) =~= (
            name@.subrange(0, idx as int) + ins@ + name@.subrange(idx as int, m as int)).push(
                name@[m as int],
            ));
        }
        m = m + 1;
    }
    proof {
        assert(name@.subrange(0, idx as int) =~= name@.take(idx as int));
        assert(name@.subrange(idx as int, name@.len() as int) =~= name@.skip(idx as int));
    }
    out
}

/// The decimal digits of `index`, most significant first.
pub fn decimal_digits(index: u32) -> (r: Vec<u8>)
    ensures
        r@ == dec_spec(index as nat),
    decreases index,
{
    if index < 10 {
        let mut v: Vec<u8> = Vec::new();
        v.push(48 + index as u8);
        proof {
            assert(v@ =~= seq![(48 + index as nat) as u8]);
        }
        v
    } else {
        let mut v: Vec<u8> = decimal_digits(index / 10);
        let d: u8 = (index % 10) as u8;
        v.push(48 + d);
        v
    }
}

/// The filename of shot number `index`: `_index` inserted before the
/// rightmost dot.
pub fn screenshot_name(name: &Vec<u8>, index: u32) -> (r: Vec<u8>)
    ensures
        r@ == shot_name_spec(name@, index as nat),
{
    let digits: Vec<u8> = decimal_digits(index);
    let mut ins: Vec<u8> = Vec::new();
    ins.push(UNDERSCORE);
    let mut t: usize = 0;
    proof {
        assert(ins@ =~= seq![UNDERSCORE] + digits@.subrange(0, 0));
    }
    while t < digits.len()
        invariant
            t <= digits@.len(),
            ins@ == seq![UNDERSCORE] + digits@.subrange(0, t as int),
        decreases digits@.len() - t,
    {
        ins.push(digits[t]);
        proof {
            assert(seq![UNDERSCORE] + digits@.subrange(0, t + 1) =~= (seq![UNDERSCORE]
                + digits@.subrange(0, t as int)).push(digits@[t as int]));
        }
        t = t + 1;
    }
    proof {
        assert(digits@.subrange(0, digits@.len() as int) =~= digits@);
    }
    insert_before_last_dot(name, &ins)
}

/// The filenames of a multi-shot capture: `_1` through `_count`, each
/// inserted before the rightmost dot of the requested name.
pub fn multishot_names(name: &Vec<u8>, count: u32) -> (r: Vec<Vec<u8>>)
    ensures
        r@.len() == count,
        forall|k: int| 0 <= k < count ==> #[trigger] r@[k]@ == shot_name_spec(
            name@,
            (k + 1) as nat,
        ),
{
    let mut out: Vec<Vec<u8>> = Vec::new();
    let mut i: u32 = 0;
    while i < count
        invariant
            i <= count,
            out@.len() == i,
            forall|k: int| 0 <= k < i ==> #[trigger] out@[k]@ == shot_name_spec(
                name@,
                (k + 1) as nat,
            ),
        decreases count - i,
    {
        let n: Vec<u8> = screenshot_name(name, i + 1);
        out.push(n);
        i = i + 1;
    }
    out
}

} // verus!

//! Dotted version numbers: `"1.10.0"` read as its numeric components and
//! compared component by component, missing components counting as zero.
use std::cmp::Ordering;
use vstd::prelude::*;

verus! {

pub open spec fn is_digit(c: char) -> bool {
    '0' <= c && c <= '9'
}

/// The value of the decimal digits `s`.
pub open spec fn digits_value(s: Seq<char>) -> nat
    decreases s.len(),
{
    if s.len() == 0 {
        0
    } else {
        digits_value(s.drop_last()) * 10 + ((s.last() as u32) - ('0' as u32)) as nat
    }
}

/// `s` without the one `+` it may start with.
pub open spec fn unsigned_digits(s: Seq<char>) -> Seq<char> {
    if s.len() > 0 && s[0] == '+' {
        s.drop_first()
    } else {
        s
    }
}

pub open spec fn all_digits(s: Seq<char>) -> bool {
    forall|i: int| 0 <= i < s.len() ==> is_digit(#[trigger] s[i])
}

/// The unsigned number that `s` spells, if it is at most `max`: an optional
/// `+`, then one or more decimal digits (as Rust's unsigned `parse` reads it).
pub open spec fn parse_unsigned(s: Seq<char>, max: nat) -> Option<nat> {
    let d = unsigned_digits(s);
    if d.len() > 0 && all_digits(d) && digits_value(d) <= max {
        Some(digits_value(d))
    } else {
        None
    }
}

/// The pieces of `s` between dots, as `str::split('.')` gives them.
pub open spec fn split_dots(s: Seq<char>) -> Seq<Seq<char>>
    decreases s.len(),
{
    if s.len() == 0 {
        seq![Seq::<char>::empty()]
    } else {
        let init = split_dots(s.drop_last());
        if s.last() == '.' {
            init.push(Seq::<char>::empty())
        } else {
            init.update(init.len() - 1, init.last().push(s.last()))
        }
    }
}

/// The pieces that read as `u32` numbers, in order; the others are skipped.
pub open spec fn numeric_parts(pieces: Seq<Seq<char>>) -> Seq<u32>
    decreases pieces.len(),
{
    if pieces.len() == 0 {
        Seq::<u32>::empty()
    } else {
        let rest = numeric_parts(pieces.drop_last());
        match parse_unsigned(pieces.last(), u32::MAX as nat) {
            Some(v) => rest.push(v as u32),
            None => rest,
        }
    }
}

/// The numeric components of the version text `s`.
pub open spec fn version_parts(s: Seq<char>) -> Seq<u32> {
    numeric_parts(split_dots(s))
}

/// Component `i` of `p`, zero past its end.
pub open spec fn part_at(p: Seq<u32>, i: int) -> u32 {
    if 0 <= i < p.len() {
        p[i]
    } else {
        0
    }
}

/// Compares `a` and `b` from component `i` on.
pub open spec fn compare_parts_from(a: Seq<u32>, b: Seq<u32>, i: int) -> Ordering
    decreases (if a.len() > b.len() {
        a.len() as int
    } else {
        b.len() as int
    }) - i,
{
    if i >= a.len() && i >= b.len() {
        Ordering::Equal
    } else if part_at(a, i) < part_at(b, i) {
        Ordering::Less
    } else if part_at(a, i) > part_at(b, i) {
        Ordering::Greater
    } else {
        compare_parts_from(a, b, i + 1)
    }
}

/// How version `v1` compares with version `v2`.
pub open spec fn version_order(v1: Seq<char>, v2: Seq<char>) -> Ordering {
    compare_parts_from(version_parts(v1), version_parts(v2), 0)
}

/// The characters of `s`.
pub fn chars_of(s: &str) -> (r: Vec<char>)
    ensures
        r@ == s@,
{
    let n = s.unicode_len();
    let mut out: Vec<char> = Vec::with_capacity(n);
    let mut i: usize = 0;
    while i < n
        invariant
            n == s@.len(),
            i <= n,
            out@ == s@.subrange(0, i as int),
        decreases n - i,
    {
        out.push(s.get_char(i));
        i = i + 1;
        proof {
            assert(s@.subrange(0, i as int) =~= s@.subrange(0, i - 1).push(s@[i - 1]));
        }
    }
    proof {
        assert(s@.subrange(0, n as int) =~= s@);
    }
    out
}

proof fn lemma_digits_prefix_le(s: Seq<char>, k: int)
    requires
        0 <= k <= s.len(),
    ensures
        digits_value(s.subrange(0, k)) <= digits_value(s),
    decreases s.len(),
{
    if k < s.len() {
        lemma_digits_prefix_le(s.drop_last(), k);
        assert(s.drop_last().subrange(0, k) =~= s.subrange(0, k));
    } else {
        assert(s.subrange(0, k) =~= s);
    }
}

/// Reads `cs[lo..hi]` as an unsigned number no greater than `max`.
pub fn parse_unsigned_in(cs: &Vec<char>, lo: usize, hi: usize, max: u64) -> (r: Option<u64>)
    requires
        lo <= hi <= cs@.len(),
    ensures
        match r {
            Some(v) => parse_unsigned(cs@.subrange(lo as int, hi as int), max as nat) == Some(
                v as nat,
            ),
            None => parse_unsigned(cs@.subrange(lo as int, hi as int), max as nat) is None,
        },
{
    let ghost seg = cs@.subrange(lo as int, hi as int);
    let start: usize = if lo < hi && cs[lo] == '+' {
        lo + 1
    } else {
        lo
    };
    let ghost d = unsigned_digits(seg);
    assert(d =~= cs@.subrange(start as int, hi as int));
    if start == hi {
        return None;
    }
    let mut acc: u64 = 0;
    let mut i: usize = start;
    while i < hi
        invariant
            lo <= start <= i <= hi <= cs@.len(),
            d == cs@.subrange(start as int, hi as int),
            d == unsigned_digits(seg),
            seg == cs@.subrange(lo as int, hi as int),
            acc as nat == digits_value(cs@.subrange(start as int, i as int)),
            acc <= max,
            forall|j: int| start <= j < i ==> is_digit(#[trigger] cs@[j]),
        decreases hi - i,
    {
        let c = cs[i];
        if !('0' <= c && c <= '9') {
            assert(d[i - start] == c);
            assert(!is_digit(d[i - start]));
            assert(!all_digits(d));
            assert(parse_unsigned(seg, max as nat) is None);
            return None;
        }
        let dv: u64 = (c as u32 - '0' as u32) as u64;
        let ghost prefix = cs@.subrange(start as int, i + 1);
        assert(prefix.drop_last() =~= cs@.subrange(start as int, i as int));
        assert(digits_value(prefix) == acc * 10 + dv);
        if dv > max || acc > (max - dv) / 10 {
            proof {
                assert(acc * 10 + dv > max) by (nonlinear_arith)
                    requires
                        dv > max || acc > (max - dv) / 10,
                ;
                assert(d.subrange(0, i + 1 - start) =~= prefix);
                lemma_digits_prefix_le(d, i + 1 - start);
                assert(digits_value(d) > max);
                assert(parse_unsigned(seg, max as nat) is None);
            }
            return None;
        }
        assert(acc * 10 + dv <= max) by (nonlinear_arith)
            requires
                dv <= max,
                acc <= (max - dv) / 10,
        ;
        acc = acc * 10 + dv;
        i = i + 1;
    }
    proof {
        assert forall|j: int| 0 <= j < d.len() implies is_digit(#[trigger] d[j]) by {
            assert(d[j] == cs@[start + j]);
        }
        assert(cs@.subrange(start as int, i as int) =~= d);
    }
    Some(acc)
}

proof fn lemma_split_nonempty(s: Seq<char>)
    ensures
        split_dots(s).len() >= 1,
    decreases s.len(),
{
    if s.len() > 0 {
        lemma_split_nonempty(s.drop_last());
    }
}

/// The numeric components of the version text `v`: the dot-separated pieces
/// that read as `u32`, in order, the others skipped.
pub fn version_parts_of(v: &str) -> (r: Vec<u32>)
    ensures
        r@ == version_parts(v@),
{
    let cs = chars_of(v);
    let n = cs.len();
    let mut out: Vec<u32> = Vec::new();
    let mut seg_start: usize = 0;
    let mut i: usize = 0;
    proof {
        assert(cs@.subrange(0, 0) =~= Seq::<char>::empty());
        assert(cs@.subrange(0, 0) =~= cs@.subrange(0, 0));
    }
    while i < n
        invariant
            n == cs@.len(),
            seg_start <= i <= n,
            split_dots(cs@.subrange(0, i as int)).len() >= 1,
            split_dots(cs@.subrange(0, i as int)).last() == cs@.subrange(
                seg_start as int,
                i as int,
            ),
            numeric_parts(split_dots(cs@.subrange(0, i as int)).drop_last()) == out@,
        decreases n - i,
    {
        let ghost sp = split_dots(cs@.subrange(0, i as int));
        let ghost next = cs@.subrange(0, i + 1);
        proof {
            assert(next.drop_last() =~= cs@.subrange(0, i as int));
            assert(next.last() == cs@[i as int]);
            lemma_split_nonempty(next);
        }
        if cs[i] == '.' {
            let part = parse_unsigned_in(&cs, seg_start, i, u32::MAX as u64);
            proof {
                assert(split_dots(next) == sp.push(Seq::<char>::empty()));
                assert(split_dots(next).drop_last() =~= sp);
                assert(sp.drop_last().push(sp.last()) =~= sp);
            }
            match part {
                Some(v) => out.push(v as u32),
                None => {},
            }
            seg_start = i + 1;
            proof {
                assert(cs@.subrange(seg_start as int, i + 1) =~= Seq::<char>::empty());
            }
        } else {
            proof {
                assert(split_dots(next) == sp.update(sp.len() - 1, sp.last().push(cs@[i as int])));
                assert(split_dots(next).drop_last() =~= sp.drop_last());
                assert(cs@.subrange(seg_start as int, i + 1) =~= cs@.subrange(
                    seg_start as int,
                    i as int,
                ).push(cs@[i as int]));
            }
        }
        i = i + 1;
    }
    let ghost sp = split_dots(cs@.subrange(0, n as int));
    let part = parse_unsigned_in(&cs, seg_start, n, u32::MAX as u64);
    match part {
        Some(v) => out.push(v as u32),
        None => {},
    }
    proof {
        assert(cs@.subrange(0, n as int) =~= cs@);
        assert(sp.drop_last().push(sp.last()) =~= sp);
    }
    out
}

/// Compares two dotted versions component by component, a missing component
/// counting as zero: `"1.2.3"` is less than `"1.10.0"`.
pub fn compare_versions(v1: &str, v2: &str) -> (r: Ordering)
    ensures
        r == version_order(v1@, v2@),
{
    let p1 = version_parts_of(v1);
    let p2 = version_parts_of(v2);
    let max_len = if p1.len() > p2.len() {
        p1.len()
    } else {
        p2.len()
    };
    let mut i: usize = 0;
    while i < max_len
        invariant
            max_len == (if p1@.len() > p2@.len() {
                p1@.len()
            } else {
                p2@.len()
            }),
            i <= max_len,
            p1@ == version_parts(v1@),
            p2@ == version_parts(v2@),
            compare_parts_from(p1@, p2@, i as int) == compare_parts_from(p1@, p2@, 0),
        decreases max_len - i,
    {
        let a: u32 = if i < p1.len() {
            p1[i]
        } else {
            0
        };
        let b: u32 = if i < p2.len() {
            p2[i]
        } else {
            0
        };
        if a < b {
            return Ordering::Less;
        }
        if a > b {
            return Ordering::Greater;
        }
        i = i + 1;
    }
    Ordering::Equal
}

} // verus!

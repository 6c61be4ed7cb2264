//! Natural numbers written as byte strings, most significant byte first,
//! and their reduction modulo another such number.

use vstd::arithmetic::div_mod::{lemma_fundamental_div_mod, lemma_mod_multiples_vanish, lemma_small_mod};
use vstd::arithmetic::power2::{lemma2_to64, lemma_pow2_unfold, pow2};
use vstd::prelude::*;

verus! {

/// The number that the bytes of `s` spell, most significant byte first.
pub open spec fn be_nat(s: Seq<u8>) -> nat
    decreases s.len(),
{
    if s.len() == 0 {
        0
    } else {
        be_nat(s.drop_last()) * 256 + s.last() as nat
    }
}

/// 256 to the power `n`.
pub open spec fn pow256(n: nat) -> nat
    decreases n,
{
    if n == 0 {
        1
    } else {
        256 * pow256((n - 1) as nat)
    }
}

/// A string of `n` bytes spells a number below 256 to the `n`.
pub proof fn lemma_be_nat_bound(s: Seq<u8>)
    ensures
        be_nat(s) < pow256(s.len()),
    decreases s.len(),
{
    if s.len() > 0 {
        lemma_be_nat_bound(s.drop_last());
    }
}

/// The first byte weighs 256 to the number of bytes behind it.
pub proof fn lemma_be_nat_front(s: Seq<u8>)
    requires
        s.len() > 0,
    ensures
        be_nat(s) == s[0] * pow256((s.len() - 1) as nat) + be_nat(s.skip(1)),
    decreases s.len(),
{
    if s.len() == 1 {
        assert(s.drop_last().len() == 0);
        assert(s.skip(1).len() == 0);
        assert(be_nat(s.drop_last()) == 0);
        assert(be_nat(s.skip(1)) == 0);
        assert(s.last() == s[0]);
        assert(s[0] * pow256(0) == s[0]) by (nonlinear_arith)
            requires
                pow256(0) == 1,
        ;
    } else {
        let front = s.drop_last();
        lemma_be_nat_front(front);
        assert(front.skip(1) == s.skip(1).drop_last());
        assert(s.skip(1).last() == s.last());
        assert(front[0] == s[0]);
        let w = pow256((s.len() - 2) as nat);
        assert(pow256((s.len() - 1) as nat) == 256 * w);
        assert(be_nat(s) == be_nat(front) * 256 + s.last() as nat);
        assert(be_nat(s.skip(1)) == be_nat(front.skip(1)) * 256 + s.last() as nat);
        assert(be_nat(front) == s[0] * w + be_nat(front.skip(1)));
        let rest = be_nat(front.skip(1));
        let top = pow256((s.len() - 1) as nat);
        assert((s[0] * w + rest) * 256 == s[0] * top + rest * 256) by (nonlinear_arith)
            requires
                top == 256 * w,
        ;
    }
}

/// Zero bytes in front do not change the number.
pub proof fn lemma_be_nat_leading_zero(s: Seq<u8>)
    requires
        s.len() > 0,
        s[0] == 0,
    ensures
        be_nat(s) == be_nat(s.skip(1)),
{
    lemma_be_nat_front(s);
}

/// A number below 256 to the `n`, written in `n + 1` bytes, starts with a
/// zero byte.
pub proof fn lemma_be_nat_small_front(s: Seq<u8>)
    requires
        s.len() > 0,
        be_nat(s) < pow256((s.len() - 1) as nat),
    ensures
        s[0] == 0,
{
    lemma_be_nat_front(s);
    let w = pow256((s.len() - 1) as nat);
    if s[0] >= 1 {
        assert(s[0] * w >= w) by (nonlinear_arith)
            requires
                s[0] >= 1,
                w >= 0,
        ;
    }
}

/// Strings of zero bytes spell zero.
pub proof fn lemma_be_nat_zeros(s: Seq<u8>)
    requires
        forall|i: int| 0 <= i < s.len() ==> s[i] == 0,
    ensures
        be_nat(s) == 0,
    decreases s.len(),
{
    if s.len() > 0 {
        lemma_be_nat_zeros(s.drop_last());
    }
}

/// Strings of one length that spell one number are the same string.
pub proof fn lemma_be_nat_injective(a: Seq<u8>, b: Seq<u8>)
    requires
        a.len() == b.len(),
        be_nat(a) == be_nat(b),
    ensures
        a == b,
    decreases a.len(),
{
    if a.len() > 0 {
        lemma_be_nat_injective(a.drop_last(), b.drop_last());
        assert(a == a.drop_last().push(a.last()));
        assert(b == b.drop_last().push(b.last()));
    } else {
        assert(a == b);
    }
}

/// Doubles `a` and adds `bit`. The top bit of `a` must be clear, so that
/// the result fits the same number of bytes.
fn shift_in(a: &Vec<u8>, bit: u8) -> (out: Vec<u8>)
    requires
        a@.len() > 0,
        a@[0] < 128,
        bit <= 1,
    ensures
        out@.len() == a@.len(),
        be_nat(out@) == 2 * be_nat(a@) + bit,
{
    let n: usize = a.len();
    let mut out: Vec<u8> = Vec::new();
    let mut i: usize = 0;
    assert(a@.take(0).len() == 0);
    while i < n
        invariant
            n == a@.len(),
            i <= n,
            bit <= 1,
            out@.len() == i,
            be_nat(out@) == 2 * be_nat(a@.take(i as int)) + if i < n {
                (a@[i as int] / 128) as nat
            } else {
                bit as nat
            },
        decreases n - i,
    {
        let incoming: u8 = if i + 1 < n {
            a[i + 1] / 128
        } else {
            bit
        };
        let low: u8 = a[i] % 128;
        let ghost before = out@;
        out.push(low * 2 + incoming);
        proof {
            assert(out@.drop_last() == before);
            assert(a@.take(i + 1).drop_last() == a@.take(i as int));
            assert(a@.take(i + 1).last() == a@[i as int]);
        }
        i += 1;
    }
    assert(a@.take(n as int) == a@);
    out
}

/// Subtracts `b` from `a`, both of one length. Where `a` is the smaller,
/// the difference wraps round and `borrow` is set.
fn sub_with_borrow(a: &Vec<u8>, b: &Vec<u8>) -> (res: (Vec<u8>, bool))
    requires
        a@.len() == b@.len(),
    ensures
        res.0@.len() == a@.len(),
        res.1 == (be_nat(a@) < be_nat(b@)),
        !res.1 ==> be_nat(res.0@) == be_nat(a@) - be_nat(b@),
{
    let n: usize = a.len();
    let mut out: Vec<u8> = Vec::new();
    let mut k: usize = 0;
    while k < n
        invariant
            k <= n,
            out@.len() == k,
        decreases n - k,
    {
        out.push(0u8);
        k += 1;
    }
    let mut borrow: bool = false;
    let mut i: usize = n;
    assert(out@.skip(n as int).len() == 0);
    assert(a@.skip(n as int).len() == 0);
    assert(b@.skip(n as int).len() == 0);
    while i > 0
        invariant
            n == a@.len(),
            n == b@.len(),
            n == out@.len(),
            i <= n,
            be_nat(out@.skip(i as int)) - (if borrow {
                pow256((n - i) as nat) as int
            } else {
                0
            }) == be_nat(a@.skip(i as int)) - be_nat(b@.skip(i as int)),
        decreases i,
    {
        let x: u8 = a[i - 1];
        let y: u8 = b[i - 1];
        let take: u8 = if borrow {
            1
        } else {
            0
        };
        let ghost w = pow256((n - i) as nat);
        let ghost old_out = out@;
        let ghost old_borrow: int = if borrow {
            1
        } else {
            0
        };
        let digit: u8;
        let next: bool;
        if x as u16 >= y as u16 + take as u16 {
            digit = x - y - take;
            next = false;
        } else {
            digit = ((256u16 + x as u16) - y as u16 - take as u16) as u8;
            next = true;
        }
        out.set(i - 1, digit);
        proof {
            let j = (i - 1) as int;
            assert(out@.skip(j).skip(1) == old_out.skip(i as int));
            assert(a@.skip(j).skip(1) == a@.skip(i as int));
            assert(b@.skip(j).skip(1) == b@.skip(i as int));
            lemma_be_nat_front(out@.skip(j));
            lemma_be_nat_front(a@.skip(j));
            lemma_be_nat_front(b@.skip(j));
            assert(pow256((n - j) as nat) == 256 * w);
            let new_borrow: int = if next {
                1
            } else {
                0
            };
            assert(digit as int - 256 * new_borrow == x as int - y as int - old_borrow);
            assert(digit * w - new_borrow * (256 * w) == x * w - y * w - old_borrow * w)
                by (nonlinear_arith)
                requires
                    digit as int - 256 * new_borrow == x as int - y as int - old_borrow,
            ;
        }
        borrow = next;
        i -= 1;
    }
    proof {
        assert(out@.skip(0) == out@);
        assert(a@.skip(0) == a@);
        assert(b@.skip(0) == b@);
        lemma_be_nat_bound(out@);
        lemma_be_nat_bound(a@);
        lemma_be_nat_bound(b@);
    }
    (out, borrow)
}

/// The bytes of `v` from position `start` on.
fn tail_of(v: &Vec<u8>, start: usize) -> (out: Vec<u8>)
    requires
        start <= v@.len(),
    ensures
        out@ == v@.skip(start as int),
{
    let mut out: Vec<u8> = Vec::new();
    let mut i: usize = start;
    while i < v.len()
        invariant
            start <= i <= v@.len(),
            out@ == v@.subrange(start as int, i as int),
        decreases v@.len() - i,
    {
        out.push(v[i]);
        assert(v@.subrange(start as int, i + 1) == v@.subrange(start as int, i as int).push(
            v@[i as int],
        ));
        i += 1;
    }
    assert(v@.subrange(start as int, v@.len() as int) == v@.skip(start as int));
    out
}

/// Takes one bit into a residue: `acc` becomes twice itself plus `bit`,
/// reduced modulo `modulus`. Both hold one byte more than the modulus needs.
fn step(acc: Vec<u8>, bit: u8, modulus: &Vec<u8>) -> (out: Vec<u8>)
    requires
        acc@.len() == modulus@.len(),
        modulus@.len() > 0,
        modulus@[0] == 0,
        be_nat(acc@) < be_nat(modulus@),
        bit <= 1,
    ensures
        out@.len() == acc@.len(),
        be_nat(out@) == (2 * be_nat(acc@) + bit) % (be_nat(modulus@) as int),
{
    proof {
        lemma_be_nat_leading_zero(modulus@);
        lemma_be_nat_bound(modulus@.skip(1));
        lemma_be_nat_small_front(acc@);
    }
    let doubled: Vec<u8> = shift_in(&acc, bit);
    let (reduced, borrow) = sub_with_borrow(&doubled, modulus);
    proof {
        let p = be_nat(modulus@) as int;
        let t = be_nat(doubled@) as int;
        if borrow {
            lemma_small_mod(t as nat, p as nat);
        } else {
            lemma_small_mod((t - p) as nat, p as nat);
            lemma_mod_multiples_vanish(1, t - p, p);
        }
    }
    if borrow {
        doubled
    } else {
        reduced
    }
}

/// Reduces the number that `x` spells modulo the number that `modulus`
/// spells. The result has as many bytes as the modulus.
pub fn reduce(x: &[u8], modulus: &[u8]) -> (out: Vec<u8>)
    requires
        be_nat(modulus@) > 0,
    ensures
        out@.len() == modulus@.len(),
        be_nat(out@) == be_nat(x@) % be_nat(modulus@),
{
    let m: usize = modulus.len();
    let mut wide: Vec<u8> = Vec::new();
    wide.push(0u8);
    let mut acc: Vec<u8> = Vec::new();
    acc.push(0u8);
    let mut k: usize = 0;
    while k < m
        invariant
            k <= m,
            m == modulus@.len(),
            wide@ == seq![0u8] + modulus@.take(k as int),
            acc@.len() == k + 1,
            forall|j: int| 0 <= j < acc@.len() ==> acc@[j] == 0,
        decreases m - k,
    {
        wide.push(modulus[k]);
        acc.push(0u8);
        assert(modulus@.take(k + 1) == modulus@.take(k as int).push(modulus@[k as int]));
        k += 1;
    }
    let ghost p = be_nat(modulus@);
    proof {
        assert(modulus@.take(m as int) == modulus@);
        assert(wide@.skip(1) == modulus@);
        lemma_be_nat_leading_zero(wide@);
        lemma_be_nat_zeros(acc@);
        lemma_small_mod(0, p);
        assert(x@.take(0).len() == 0);
    }
    let mut i: usize = 0;
    while i < x.len()
        invariant
            i <= x@.len(),
            p == be_nat(modulus@),
            p == be_nat(wide@),
            p > 0,
            wide@.len() == m + 1,
            wide@[0] == 0,
            acc@.len() == m + 1,
            be_nat(acc@) == be_nat(x@.take(i as int)) % p,
        decreases x@.len() - i,
    {
        let byte: u8 = x[i];
        let ghost before = be_nat(x@.take(i as int));
        let ghost target: nat = before * 256 + byte as nat;
        let mut rest: u8 = byte;
        let mut j: usize = 0;
        let ghost mut seen: nat = before;
        let ghost mut scaled: nat = target;
        proof {
            lemma2_to64();
        }
        while j < 8
            invariant
                j <= 8,
                p == be_nat(wide@),
                p > 0,
                wide@.len() == m + 1,
                wide@[0] == 0,
                acc@.len() == m + 1,
                be_nat(acc@) == seen % p,
                scaled == target * pow2(j as nat),
                scaled == seen * 256 + rest,
            decreases 8 - j,
        {
            let bit: u8 = rest / 128;
            proof {
                lemma_fundamental_div_mod(seen as int, p as int);
                lemma_mod_multiples_vanish(
                    2 * (seen as int / p as int),
                    2 * (seen % p) as int + bit as int,
                    p as int,
                );
                assert(2 * seen + bit == p * (2 * (seen as int / p as int)) + (2 * (seen % p)
                    + bit)) by (nonlinear_arith)
                    requires
                        seen == p * (seen as int / p as int) + seen % p,
                ;
                lemma_pow2_unfold((j + 1) as nat);
                let c = pow2(j as nat);
                assert(target * (2 * c) == 2 * (target * c)) by (nonlinear_arith);
            }
            acc = step(acc, bit, &wide);
            rest = (rest % 128) * 2;
            proof {
                seen = 2 * seen + bit as nat;
                scaled = 2 * scaled;
            }
            j += 1;
        }
        proof {
            lemma2_to64();
            assert(scaled == target * 256) by (nonlinear_arith)
                requires
                    scaled == target * pow2(8),
                    pow2(8) == 256,
            ;
            assert(seen == target);
            assert(x@.take(i + 1).drop_last() == x@.take(i as int));
            assert(x@.take(i + 1).last() == byte);
        }
        i += 1;
    }
    proof {
        assert(x@.take(x@.len() as int) == x@);
        lemma_be_nat_bound(modulus@);
        lemma_be_nat_small_front(acc@);
        lemma_be_nat_leading_zero(acc@);
    }
    tail_of(&acc, 1)
}

} // verus!

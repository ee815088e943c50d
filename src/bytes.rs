//! Byte strings: account identifiers and big-endian integers.

use vstd::prelude::*;

verus! {

/// Whether two byte strings (account identifiers) are the same.
pub fn same_bytes(a: &Vec<u8>, b: &Vec<u8>) -> (r: bool)
    ensures
        r == (a@ == b@),
{
    if a.len() != b.len() {
        return false;
    }
    let mut i: usize = 0;
    while i < a.len()
        invariant
            a@.len() == b@.len(),
            i <= a@.len(),
            forall|j: int| 0 <= j < i ==> a@[j] == b@[j],
        decreases a@.len() - i,
    {
        if a[i] != b[i] {
            return false;
        }
        i = i + 1;
    }
    assert(a@ =~= b@);
    true
}

/// A fresh copy of a byte string.
pub fn copy_bytes(a: &Vec<u8>) -> (r: Vec<u8>)
    ensures
        r@ == a@,
{
    let mut r: Vec<u8> = Vec::new();
    extend_bytes(&mut r, a.as_slice());
    r
}

/// The eight bytes of `x`, most significant first.
pub open spec fn be_bytes_spec(x: u64) -> Seq<u8> {
    seq![
        (x >> 56u64) as u8,
        (x >> 48u64) as u8,
        (x >> 40u64) as u8,
        (x >> 32u64) as u8,
        (x >> 24u64) as u8,
        (x >> 16u64) as u8,
        (x >> 8u64) as u8,
        x as u8,
    ]
}

/// Appends the big-endian encoding of `x` to `out`.
pub fn push_be_u64(out: &mut Vec<u8>, x: u64)
    ensures
        final(out)@ == old(out)@ + be_bytes_spec(x),
{
    out.push((x >> 56u64) as u8);
    out.push((x >> 48u64) as u8);
    out.push((x >> 40u64) as u8);
    out.push((x >> 32u64) as u8);
    out.push((x >> 24u64) as u8);
    out.push((x >> 16u64) as u8);
    out.push((x >> 8u64) as u8);
    out.push(x as u8);
    assert(out@ =~= old(out)@ + be_bytes_spec(x));
}

/// Appends every byte of `src` to `out`.
pub fn extend_bytes(out: &mut Vec<u8>, src: &[u8])
    ensures
        final(out)@ == old(out)@ + src@,
{
    let mut i: usize = 0;
    while i < src.len()
        invariant
            i <= src@.len(),
            out@ == old(out)@ + src@.subrange(0, i as int),
        decreases src@.len() - i,
    {
        out.push(src[i]);
        i = i + 1;
        assert(out@ =~= old(out)@ + src@.subrange(0, i as int));
    }
    assert(src@.subrange(0, src@.len() as int) =~= src@);
}

/// The unsigned integer that the bytes of `s` encode, most significant first.
pub open spec fn be_value(s: Seq<u8>) -> nat
    decreases s.len(),
{
    if s.len() == 0 {
        0
    } else {
        be_value(s.drop_last()) * 256 + s.last() as nat
    }
}

/// The unsigned integer that the first (at most) eight bytes of `s` encode,
/// most significant first.
pub fn be_prefix_u64(s: &Vec<u8>) -> (r: u64)
    ensures
        r as nat == be_value(s@.subrange(0, if s@.len() < 8 { s@.len() as int } else { 8 })),
{
    let n: usize = if s.len() < 8 { s.len() } else { 8 };
    let mut acc: u64 = 0;
    let mut i: usize = 0;
    while i < n
        invariant
            n <= 8,
            n <= s@.len(),
            n == (if s@.len() < 8 { s@.len() as int } else { 8 }),
            i <= n,
            acc as nat == be_value(s@.subrange(0, i as int)),
            acc < pow256(i as nat),
        decreases n - i,
    {
        let ghost prefix = s@.subrange(0, i as int + 1);
        assert(prefix.drop_last() =~= s@.subrange(0, i as int));
        proof {
            lemma_pow256_bound(i as nat);
            assert(acc * 256 + 255 < pow256((i + 1) as nat)) by (nonlinear_arith)
                requires
                    acc < pow256(i as nat),
                    pow256((i + 1) as nat) == pow256(i as nat) * 256,
            ;
        }
        acc = acc * 256 + s[i] as u64;
        i = i + 1;
    }
    acc
}

/// `256` raised to the power `n`.
pub open spec fn pow256(n: nat) -> nat
    decreases n,
{
    if n == 0 {
        1
    } else {
        pow256((n - 1) as nat) * 256
    }
}

proof fn lemma_pow256_bound(n: nat)
    requires
        n < 8,
    ensures
        pow256(n + 1) == pow256(n) * 256,
        pow256(n + 1) <= 0x1_0000_0000_0000_0000,
    decreases n,
{
    reveal_with_fuel(pow256, 9);
    if n > 0 {
        lemma_pow256_bound((n - 1) as nat);
    }
}

} // verus!

verus! {

/// Whether `a` is one of the byte strings in `list`.
pub open spec fn listed(list: Seq<Vec<u8>>, a: Seq<u8>) -> bool {
    exists|i: int| 0 <= i < list.len() && list[i]@ == a
}

/// Whether `a` is one of the byte strings in `list`.
pub fn contains_bytes(list: &Vec<Vec<u8>>, a: &Vec<u8>) -> (r: bool)
    ensures
        r == listed(list@, a@),
{
    let mut i: usize = 0;
    while i < list.len()
        invariant
            i <= list@.len(),
            forall|j: int| 0 <= j < i ==> list@[j]@ != a@,
        decreases list@.len() - i,
    {
        if same_bytes(&list[i], a) {
            return true;
        }
        i = i + 1;
    }
    false
}

/// The byte strings of `s`, as sequences.
pub open spec fn views(s: Seq<Vec<u8>>) -> Seq<Seq<u8>> {
    s.map_values(|v: Vec<u8>| v@)
}

/// `s` with every entry equal to `a` left out, the rest in order.
pub open spec fn drop_all(s: Seq<Seq<u8>>, a: Seq<u8>) -> Seq<Seq<u8>>
    decreases s.len(),
{
    if s.len() == 0 {
        s
    } else if s.last() == a {
        drop_all(s.drop_last(), a)
    } else {
        drop_all(s.drop_last(), a).push(s.last())
    }
}

proof fn lemma_drop_all_absent(s: Seq<Seq<u8>>, a: Seq<u8>)
    requires
        forall|i: int| 0 <= i < s.len() ==> s[i] != a,
    ensures
        drop_all(s, a) == s,
    decreases s.len(),
{
    if s.len() > 0 {
        lemma_drop_all_absent(s.drop_last(), a);
        assert(s.drop_last().push(s.last()) =~= s);
    }
}

/// `list` without any occurrence of `a`, the other entries kept in order.
pub fn without_bytes(list: &Vec<Vec<u8>>, a: &Vec<u8>) -> (r: Vec<Vec<u8>>)
    ensures
        views(r@) == drop_all(views(list@), a@),
        !listed(list@, a@) ==> views(r@) == views(list@),
        forall|x: Seq<u8>| #[trigger] listed(r@, x) == (listed(list@, x) && x != a@),
{
    let mut r: Vec<Vec<u8>> = Vec::new();
    let mut i: usize = 0;
    while i < list.len()
        invariant
            i <= list@.len(),
            forall|j: int|
                0 <= j < r@.len() ==> #[trigger] r@[j]@ != a@ && listed(
                    list@.subrange(0, i as int),
                    r@[j]@,
                ),
            forall|k: int|
                0 <= k < i && #[trigger] list@[k]@ != a@ ==> listed(r@, list@[k]@),
            views(r@) == drop_all(views(list@.subrange(0, i as int)), a@),
        decreases list@.len() - i,
    {
        let ghost pre = views(list@.subrange(0, i as int));
        let ghost next = views(list@.subrange(0, i + 1));
        assert(next.drop_last() =~= pre);
        assert(next.last() == list@[i as int]@);
        if !same_bytes(&list[i], a) {
            let ghost before = r@;
            r.push(copy_bytes(&list[i]));
            assert(views(r@) =~= views(before).push(list@[i as int]@));
            assert forall|j: int| 0 <= j < r@.len() implies #[trigger] r@[j]@ != a@ && listed(
                list@.subrange(0, i + 1),
                r@[j]@,
            ) by {
                if j < before.len() {
                    assert(before[j] == r@[j]);
                    let k = choose|k: int|
                        0 <= k < i && list@.subrange(0, i as int)[k]@ == before[j]@;
                    assert(list@.subrange(0, i + 1)[k] == list@[k]);
                } else {
                    assert(list@.subrange(0, i + 1)[i as int] == list@[i as int]);
                }
            }
            assert forall|k: int| 0 <= k < i + 1 && #[trigger] list@[k]@ != a@ implies listed(
                r@,
                list@[k]@,
            ) by {
                if k < i {
                    let j = choose|j: int| 0 <= j < before.len() && before[j]@ == list@[k]@;
                    assert(r@[j] == before[j]);
                } else {
                    assert(r@[before.len() as int]@ == list@[k]@);
                }
            }
        } else {
            assert forall|j: int| 0 <= j < r@.len() implies #[trigger] r@[j]@ != a@ && listed(
                list@.subrange(0, i + 1),
                r@[j]@,
            ) by {
                let k = choose|k: int| 0 <= k < i && list@.subrange(0, i as int)[k]@ == r@[j]@;
                assert(list@.subrange(0, i + 1)[k] == list@[k]);
            }
        }
        i = i + 1;
    }
    assert(list@.subrange(0, list@.len() as int) =~= list@);
    proof {
        if !listed(list@, a@) {
            assert forall|k: int| 0 <= k < views(list@).len() implies views(list@)[k] != a@ by {
                assert(views(list@)[k] == list@[k]@);
            }
            lemma_drop_all_absent(views(list@), a@);
        }
    }
    assert forall|x: Seq<u8>| #[trigger] listed(r@, x) == (listed(list@, x) && x != a@) by {
        if listed(list@, x) && x != a@ {
            let k = choose|k: int| 0 <= k < list@.len() && list@[k]@ == x;
            assert(list@[k]@ != a@);
        }
        if listed(r@, x) {
            let j = choose|j: int| 0 <= j < r@.len() && r@[j]@ == x;
            assert(r@[j]@ != a@);
        }
    }
    r
}

} // verus!

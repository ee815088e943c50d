//! Per-account share balances: a list of entries with distinct accounts,
//! read as a map in which an absent account holds zero.

use crate::bytes::{extend_bytes, same_bytes};
use vstd::prelude::*;

verus! {

/// The share balance of one account.
#[derive(Clone, Debug, PartialEq, Eq)]
pub struct Balance {
    pub address: Vec<u8>,
    pub amount: u128,
}

/// The balance of account `a`: the amount of its entry, zero without one.
pub open spec fn balance_of(s: Seq<Balance>, a: Seq<u8>) -> nat
    decreases s.len(),
{
    if s.len() == 0 {
        0
    } else if s.last().address@ == a {
        s.last().amount as nat
    } else {
        balance_of(s.drop_last(), a)
    }
}

/// The sum of all balances.
pub open spec fn sum_amounts(s: Seq<Balance>) -> nat
    decreases s.len(),
{
    if s.len() == 0 {
        0
    } else {
        sum_amounts(s.drop_last()) + s.last().amount as nat
    }
}

/// No account has two entries.
pub open spec fn unique_accounts(s: Seq<Balance>) -> bool {
    forall|i: int, j: int| 0 <= i < j < s.len() ==> s[i].address@ != s[j].address@
}

proof fn lemma_balance_at(s: Seq<Balance>, i: int)
    requires
        unique_accounts(s),
        0 <= i < s.len(),
    ensures
        balance_of(s, s[i].address@) == s[i].amount,
    decreases s.len(),
{
    if i < s.len() - 1 {
        assert(s.drop_last()[i] == s[i]);
        lemma_balance_at(s.drop_last(), i);
    }
}

proof fn lemma_balance_absent(s: Seq<Balance>, a: Seq<u8>)
    requires
        forall|i: int| 0 <= i < s.len() ==> s[i].address@ != a,
    ensures
        balance_of(s, a) == 0,
    decreases s.len(),
{
    if s.len() > 0 {
        lemma_balance_absent(s.drop_last(), a);
    }
}

proof fn lemma_balance_le_sum(s: Seq<Balance>, a: Seq<u8>)
    ensures
        balance_of(s, a) <= sum_amounts(s),
    decreases s.len(),
{
    if s.len() > 0 {
        lemma_balance_le_sum(s.drop_last(), a);
    }
}

proof fn lemma_update_entry(s: Seq<Balance>, i: int, b: Balance)
    requires
        unique_accounts(s),
        0 <= i < s.len(),
        b.address@ == s[i].address@,
    ensures
        unique_accounts(s.update(i, b)),
        sum_amounts(s.update(i, b)) == sum_amounts(s) - s[i].amount + b.amount,
        forall|x: Seq<u8>|
            #[trigger] balance_of(s.update(i, b), x) == if x == b.address@ {
                b.amount as nat
            } else {
                balance_of(s, x)
            },
    decreases s.len(),
{
    let t = s.update(i, b);
    assert forall|p: int, q: int| 0 <= p < q < t.len() implies t[p].address@ != t[q].address@ by {
        assert(s[p].address@ != s[q].address@);
    }
    if i == s.len() - 1 {
        assert(t.drop_last() =~= s.drop_last());
        assert forall|x: Seq<u8>| #[trigger] balance_of(t, x) == if x == b.address@ {
            b.amount as nat
        } else {
            balance_of(s, x)
        } by {}
    } else {
        let d = s.drop_last();
        assert(t.drop_last() =~= d.update(i, b));
        assert(d[i] == s[i]);
        lemma_update_entry(d, i, b);
        assert(t.last() == s.last());
        assert(s[i].address@ != s[s.len() - 1].address@);
        assert forall|x: Seq<u8>| #[trigger] balance_of(t, x) == if x == b.address@ {
            b.amount as nat
        } else {
            balance_of(s, x)
        } by {
            assert(balance_of(t.drop_last(), x) == balance_of(d.update(i, b), x));
            assert(s.drop_last() == d);
        }
    }
}

proof fn lemma_push_entry(s: Seq<Balance>, b: Balance)
    requires
        unique_accounts(s),
        forall|i: int| 0 <= i < s.len() ==> s[i].address@ != b.address@,
    ensures
        unique_accounts(s.push(b)),
        sum_amounts(s.push(b)) == sum_amounts(s) + b.amount,
        forall|x: Seq<u8>|
            #[trigger] balance_of(s.push(b), x) == if x == b.address@ {
                b.amount as nat
            } else {
                balance_of(s, x)
            },
{
    let t = s.push(b);
    assert(t.drop_last() =~= s);
    assert forall|p: int, q: int| 0 <= p < q < t.len() implies t[p].address@ != t[q].address@ by {
        if q < s.len() {
            assert(s[p].address@ != s[q].address@);
        }
    }
}

/// The index of the entry of account `a`, if there is one.
pub fn find_account(s: &Vec<Balance>, a: &Vec<u8>) -> (r: Option<usize>)
    ensures
        match r {
            Some(i) => i < s@.len() && s@[i as int].address@ == a@,
            None => forall|i: int| 0 <= i < s@.len() ==> s@[i].address@ != a@,
        },
{
    let mut i: usize = 0;
    while i < s.len()
        invariant
            i <= s@.len(),
            forall|j: int| 0 <= j < i ==> s@[j].address@ != a@,
        decreases s@.len() - i,
    {
        if same_bytes(&s[i].address, a) {
            return Some(i);
        }
        i = i + 1;
    }
    None
}

/// The balance of account `a`.
pub fn read_balance(s: &Vec<Balance>, a: &Vec<u8>) -> (r: u128)
    requires
        unique_accounts(s@),
    ensures
        r == balance_of(s@, a@),
{
    match find_account(s, a) {
        Some(i) => {
            proof {
                lemma_balance_at(s@, i as int);
            }
            s[i].amount
        },
        None => {
            proof {
                lemma_balance_absent(s@, a@);
            }
            0
        },
    }
}

/// Sets the balance of account `a` to `amount`, leaving every other account's.
pub fn write_balance(s: &mut Vec<Balance>, a: &Vec<u8>, amount: u128)
    requires
        unique_accounts(old(s)@),
    ensures
        unique_accounts(final(s)@),
        sum_amounts(final(s)@) == sum_amounts(old(s)@) - balance_of(old(s)@, a@) + amount,
        forall|x: Seq<u8>|
            #[trigger] balance_of(final(s)@, x) == if x == a@ {
                amount as nat
            } else {
                balance_of(old(s)@, x)
            },
{
    let mut address: Vec<u8> = Vec::new();
    extend_bytes(&mut address, a.as_slice());
    let entry = Balance { address, amount };
    match find_account(s, a) {
        Some(i) => {
            proof {
                lemma_balance_at(s@, i as int);
                lemma_update_entry(s@, i as int, entry);
            }
            s.set(i, entry);
        },
        None => {
            proof {
                lemma_balance_absent(s@, a@);
                lemma_push_entry(s@, entry);
            }
            s.push(entry);
        },
    }
}

/// A balance never exceeds the sum of all balances.
pub proof fn lemma_balance_within_total(s: Seq<Balance>, a: Seq<u8>)
    ensures
        balance_of(s, a) <= sum_amounts(s),
{
    lemma_balance_le_sum(s, a);
}

/// Whether no account has two entries.
pub fn accounts_unique(s: &Vec<Balance>) -> (r: bool)
    ensures
        r == unique_accounts(s@),
{
    let mut i: usize = 0;
    while i < s.len()
        invariant
            i <= s@.len(),
            forall|p: int, q: int| 0 <= p < q < s@.len() && p < i ==> s@[p].address@ != s@[q].address@,
        decreases s@.len() - i,
    {
        let mut j: usize = i + 1;
        while j < s.len()
            invariant
                i < s@.len(),
                i + 1 <= j <= s@.len(),
                forall|p: int, q: int| 0 <= p < q < s@.len() && p < i ==> s@[p].address@ != s@[q].address@,
                forall|q: int| i < q < j ==> s@[i as int].address@ != s@[q].address@,
            decreases s@.len() - j,
        {
            if same_bytes(&s[i].address, &s[j].address) {
                return false;
            }
            j = j + 1;
        }
        i = i + 1;
    }
    true
}

/// The sum of all balances, or `None` where it leaves 128 bits.
pub fn total_amount(s: &Vec<Balance>) -> (r: Option<u128>)
    ensures
        match r {
            Some(t) => t == sum_amounts(s@),
            None => sum_amounts(s@) > u128::MAX,
        },
{
    let mut total: u128 = 0;
    let mut i: usize = 0;
    while i < s.len()
        invariant
            i <= s@.len(),
            total == sum_amounts(s@.subrange(0, i as int)),
        decreases s@.len() - i,
    {
        assert(s@.subrange(0, i + 1).drop_last() =~= s@.subrange(0, i as int));
        total = match total.checked_add(s[i].amount) {
            Some(t) => t,
            None => {
                proof {
                    lemma_prefix_sum_le(s@, i + 1);
                }
                return None;
            },
        };
        i = i + 1;
    }
    assert(s@.subrange(0, s@.len() as int) =~= s@);
    Some(total)
}

/// The sum of a prefix never exceeds the sum of the whole.
pub proof fn lemma_prefix_sum_le(s: Seq<Balance>, k: int)
    requires
        0 <= k <= s.len(),
    ensures
        sum_amounts(s.subrange(0, k)) <= sum_amounts(s),
    decreases s.len(),
{
    if k < s.len() {
        assert(s.drop_last().subrange(0, k) =~= s.subrange(0, k));
        lemma_prefix_sum_le(s.drop_last(), k);
    } else {
        assert(s.subrange(0, k) =~= s);
    }
}

} // verus!

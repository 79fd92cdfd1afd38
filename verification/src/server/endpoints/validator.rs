//! What the server decides about validators: how it names their state, how
//! it reads an address given to it, and how it ranks and pages the consensus
//! set.
use vstd::prelude::*;

use crate::text::{ascii_upper, starts_with, to_ascii_uppercase};

verus! {

/// The state of a validator in an epoch.
#[derive(Debug, Clone, Copy, PartialEq, Eq, Structural)]
pub enum ValidatorStateKind {
    Consensus,
    BelowCapacity,
    BelowThreshold,
    Inactive,
    Jailed,
}

/// The text that stands for a validator's state; `unknown` where the state
/// is not known.
pub open spec fn validator_state_text(state: Option<ValidatorStateKind>) -> Seq<char> {
    match state {
        Some(ValidatorStateKind::Consensus) => "consensus"@,
        Some(ValidatorStateKind::BelowCapacity) => "below_capacity"@,
        Some(ValidatorStateKind::BelowThreshold) => "below_threshold"@,
        Some(ValidatorStateKind::Inactive) => "inactive"@,
        Some(ValidatorStateKind::Jailed) => "jailed"@,
        None => "unknown"@,
    }
}

/// The state of a validator as the server reports it.
pub fn validator_state_name(state: &Option<ValidatorStateKind>) -> (r: String)
    ensures
        r@ == validator_state_text(*state),
{
    match state {
        Some(ValidatorStateKind::Consensus) => "consensus".to_owned(),
        Some(ValidatorStateKind::BelowCapacity) => "below_capacity".to_owned(),
        Some(ValidatorStateKind::BelowThreshold) => "below_threshold".to_owned(),
        Some(ValidatorStateKind::Inactive) => "inactive".to_owned(),
        Some(ValidatorStateKind::Jailed) => "jailed".to_owned(),
        None => "unknown".to_owned(),
    }
}

/// An address by which a validator is asked for.
#[derive(Debug)]
pub enum ValidatorAddress {
    /// A Namada address, to be parsed.
    Namada(String),
    /// The hash of a consensus key, in uppercase.
    Tendermint(String),
}

/// How the server reads the address `address` of a validator: one that
/// begins with `tnam` is a Namada address, any other is the hash of a
/// consensus key, which it writes in uppercase.
pub fn classify_validator_address(address: &str) -> (r: ValidatorAddress)
    ensures
        "tnam"@.is_prefix_of(address@) ==> (r matches ValidatorAddress::Namada(a) && a@ == address@),
        !"tnam"@.is_prefix_of(address@) ==> (r matches ValidatorAddress::Tendermint(t)
            && t@ == address@.map_values(|c: char| ascii_upper(c))),
{
    if starts_with(address, "tnam") {
        ValidatorAddress::Namada(address.to_owned())
    } else {
        ValidatorAddress::Tendermint(to_ascii_uppercase(address))
    }
}

/// Whether the stake `a` is larger than the stake `b`. A stake is written as
/// the high and the low 128 bits of the amount, so that comparing the halves
/// in turn compares the amounts.
pub open spec fn stake_greater(a: (u128, u128), b: (u128, u128)) -> bool {
    a.0 > b.0 || (a.0 == b.0 && a.1 > b.1)
}

/// Whether the validator at position `a` of `stakes` ranks before the one at
/// position `b`: a larger stake ranks first, and of equal stakes the one that
/// comes first in `stakes`.
pub open spec fn ranks_before(stakes: Seq<(u128, u128)>, a: int, b: int) -> bool {
    stake_greater(stakes[a], stakes[b]) || (stakes[a] == stakes[b] && a < b)
}

/// Whether `order` ranks the validators whose stakes are `stakes`: it lists
/// each position of `stakes` once, from the largest stake to the smallest,
/// validators of equal stake in the order of `stakes`.
pub open spec fn ranked(stakes: Seq<(u128, u128)>, order: Seq<usize>) -> bool {
    &&& order.len() == stakes.len()
    &&& forall|i: int| 0 <= i < order.len() ==> #[trigger] order[i] < stakes.len()
    &&& forall|k: usize| k < stakes.len() ==> #[trigger] order.contains(k)
    &&& forall|i: int, j: int|
        0 <= i < j < order.len() ==> ranks_before(stakes, #[trigger] order[i] as int, #[trigger] order[j] as int)
}

proof fn lemma_ranks_before_transitive(stakes: Seq<(u128, u128)>, a: int, b: int, c: int)
    requires
        ranks_before(stakes, a, b),
        ranks_before(stakes, b, c),
    ensures
        ranks_before(stakes, a, c),
{
}

/// Ranks validators by stake: the positions of `stakes`, from the largest
/// stake to the smallest, validators of equal stake kept in the order of
/// `stakes`.
pub fn order_by_stake(stakes: &Vec<(u128, u128)>) -> (r: Vec<usize>)
    ensures
        ranked(stakes@, r@),
{
    let n = stakes.len();
    let mut r: Vec<usize> = Vec::new();
    let mut i: usize = 0;
    while i < n
        invariant
            n == stakes.len(),
            i <= n,
            r@.len() == i,
            forall|q: int| 0 <= q < r@.len() ==> #[trigger] r@[q] < i,
            forall|k: usize| k < i ==> #[trigger] r@.contains(k),
            forall|a: int, b: int|
                0 <= a < b < r@.len() ==> ranks_before(stakes@, #[trigger] r@[a] as int, #[trigger] r@[b] as int),
        decreases n - i,
    {
        let si = stakes[i];
        let mut q: usize = 0;
        while q < r.len() && !(si.0 > stakes[r[q]].0 || (si.0 == stakes[r[q]].0 && si.1 > stakes[r[q]].1))
            invariant
                n == stakes.len(),
                i < n,
                si == stakes@[i as int],
                q <= r@.len(),
                forall|x: int| 0 <= x < r@.len() ==> #[trigger] r@[x] < i,
                forall|x: int| 0 <= x < q ==> ranks_before(stakes@, #[trigger] r@[x] as int, i as int),
            decreases r@.len() - q,
        {
            q = q + 1;
        }
        let ghost old_r = r@;
        proof {
            assert forall|x: int| q <= x < old_r.len() implies ranks_before(stakes@, i as int, #[trigger] old_r[x] as int) by {
                if x > q {
                    lemma_ranks_before_transitive(stakes@, i as int, old_r[q as int] as int, old_r[x] as int);
                }
            }
            old_r.insert_ensures(q as int, i);
        }
        r.insert(q, i);
        assert forall|a: int, b: int| 0 <= a < b < r@.len() implies ranks_before(stakes@, #[trigger] r@[a] as int, #[trigger] r@[b] as int) by {
            if b < q {
            } else if b == q {
            } else if a < q {
                assert(r@[b] == old_r[b - 1]);
            } else if a == q {
                assert(r@[b] == old_r[b - 1]);
            } else {
                assert(r@[a] == old_r[a - 1]);
                assert(r@[b] == old_r[b - 1]);
            }
        }
        assert forall|k: usize| k < i + 1 implies #[trigger] r@.contains(k) by {
            if k == i {
                assert(r@[q as int] == i);
            } else {
                assert(old_r.contains(k));
                let x = choose|x: int| 0 <= x < old_r.len() && old_r[x] == k;
                if x < q {
                    assert(r@[x] == k);
                } else {
                    assert(r@[x + 1] == k);
                }
            }
        }
        assert forall|x: int| 0 <= x < r@.len() implies #[trigger] r@[x] < i + 1 by {
            if x < q {
            } else if x > q {
                assert(r@[x] == old_r[x - 1]);
            }
        }
        i = i + 1;
    }
    r
}

/// The position, in the ranking, of the first validator of page `page` when
/// pages hold `per_page` validators; pages are counted from 1, and page 0
/// stands for the first page.
pub open spec fn page_start(page: u64, per_page: u64) -> int {
    if page == 0 {
        0
    } else {
        (page - 1) * per_page
    }
}

/// A page of the consensus set: the positions of its validators in the
/// list that was ranked, and how the page and the whole set are counted.
pub struct ValidatorPage {
    pub validators: Vec<usize>,
    pub page: u64,
    pub per_page: u64,
    pub total: u64,
}

proof fn lemma_page_number(page: u64, per_page: u64)
    requires
        per_page > 0,
        page > 0,
    ensures
        ((page - 1) * per_page) / (per_page as int) == page - 1,
{
    assert(((page - 1) * per_page) / (per_page as int) == page - 1) by (nonlinear_arith)
        requires
            per_page > 0,
            page > 0,
    {
        vstd::arithmetic::div_mod::lemma_div_multiples_vanish((page - 1) as int, per_page as int);
    }
}

/// The page `page` of the ranked validators `order`, `per_page` to a page:
/// the validators from position `page_start(page, per_page)` on, as many as
/// a page holds and the ranking has. The page number reported is the one
/// asked for, page 0 being reported as page 1.
pub fn validator_page(order: &Vec<usize>, page: u64, per_page: u64) -> (r: ValidatorPage)
    requires
        per_page > 0,
        page_start(page, per_page) <= u64::MAX,
    ensures
        ({
            let start = page_start(page, per_page);
            let lo = if start < order@.len() { start } else { order@.len() as int };
            let hi = if start + per_page < order@.len() { start + per_page } else { order@.len() as int };
            r.validators@ == order@.subrange(lo, hi)
        }),
        r.page == page_start(page, per_page) / (per_page as int) + 1,
        r.page == if page == 0 { 1 } else { page },
        r.per_page == per_page,
        r.total == order@.len(),
{
    let start: u64 = if page == 0 { 0 } else { (page - 1) * per_page };
    proof {
        if page > 0 {
            lemma_page_number(page, per_page);
        }
    }
    let n = order.len();
    let lo: usize = if (start as u128) < (n as u128) { start as usize } else { n };
    let hi: usize = if (start as u128) + (per_page as u128) < (n as u128) { (start + per_page) as usize } else { n };
    let mut validators: Vec<usize> = Vec::new();
    let mut k: usize = lo;
    while k < hi
        invariant
            n == order@.len(),
            lo <= k <= hi <= n,
            validators@ == order@.subrange(lo as int, k as int),
        decreases hi - k,
    {
        validators.push(order[k]);
        assert(validators@ =~= order@.subrange(lo as int, k + 1));
        k = k + 1;
    }
    assert(validators@ =~= order@.subrange(lo as int, hi as int));
    ValidatorPage { validators, page: start / per_page + 1, per_page, total: n as u64 }
}

/// Pages follow one another without gap or overlap: each page after the
/// first starts where the one before it ends.
pub proof fn pages_are_contiguous(page: u64, per_page: u64)
    requires
        1 <= page < u64::MAX,
    ensures
        page_start((page + 1) as u64, per_page) == page_start(page, per_page) + per_page,
{
    assert(page * per_page == (page - 1) * per_page + per_page) by (nonlinear_arith);
}

proof fn lemma_ranked_prefix(stakes: Seq<(u128, u128)>, a: Seq<usize>, b: Seq<usize>, n: int)
    requires
        ranked(stakes, a),
        ranked(stakes, b),
        0 <= n <= a.len(),
    ensures
        forall|j: int| 0 <= j < n ==> a[j] == b[j],
    decreases n,
{
    if n > 0 {
        let k = n - 1;
        lemma_ranked_prefix(stakes, a, b, k);
        if a[k] != b[k] {
            let x = a[k];
            let y = b[k];
            assert(b.contains(x));
            let p = choose|p: int| 0 <= p < b.len() && b[p] == x;
            assert(a.contains(y));
            let q = choose|q: int| 0 <= q < a.len() && a[q] == y;
            if p < k {
                assert(a[p] == b[p]);
                assert(ranks_before(stakes, a[p] as int, a[k] as int));
            }
            if q < k {
                assert(a[q] == b[q]);
                assert(ranks_before(stakes, b[q] as int, b[k] as int));
            }
            assert(p > k && q > k);
            assert(ranks_before(stakes, a[k] as int, a[q] as int));
            assert(ranks_before(stakes, b[k] as int, b[p] as int));
        }
    }
}

/// The ranking of validators by stake is determined by their stakes: two
/// rankings of the same stakes are the same list.
pub proof fn ranking_is_unique(stakes: Seq<(u128, u128)>, a: Seq<usize>, b: Seq<usize>)
    requires
        ranked(stakes, a),
        ranked(stakes, b),
    ensures
        a == b,
{
    lemma_ranked_prefix(stakes, a, b, a.len() as int);
    assert(a =~= b);
}

/// The number that a stake written as its high and low 128-bit halves
/// stands for.
pub open spec fn stake_amount(s: (u128, u128)) -> int {
    s.0 * 0x1_0000_0000_0000_0000_0000_0000_0000_0000int + s.1
}

/// One stake is larger than another exactly when the amount it writes is
/// the larger number.
pub proof fn stake_order_is_numeric(a: (u128, u128), b: (u128, u128))
    ensures
        stake_greater(a, b) <==> stake_amount(a) > stake_amount(b),
        a == b <==> stake_amount(a) == stake_amount(b),
{
    let c = 0x1_0000_0000_0000_0000_0000_0000_0000_0000int;
    if a.0 > b.0 {
        assert(a.0 * c >= (b.0 + 1) * c) by (nonlinear_arith)
            requires
                a.0 >= b.0 + 1,
                c > 0,
        ;
        assert((b.0 + 1) * c == b.0 * c + c) by (nonlinear_arith);
    } else if a.0 < b.0 {
        assert(b.0 * c >= (a.0 + 1) * c) by (nonlinear_arith)
            requires
                b.0 >= a.0 + 1,
                c > 0,
        ;
        assert((a.0 + 1) * c == a.0 * c + c) by (nonlinear_arith);
    }
}

/// In a ranking, a validator listed before another has at least as large a
/// stake, written as a number; of two equal stakes the one listed first in
/// the input comes first.
pub proof fn ranking_is_by_amount(stakes: Seq<(u128, u128)>, order: Seq<usize>, i: int, j: int)
    requires
        ranked(stakes, order),
        0 <= i < j < order.len(),
    ensures
        stake_amount(stakes[order[i] as int]) >= stake_amount(stakes[order[j] as int]),
        stake_amount(stakes[order[i] as int]) == stake_amount(stakes[order[j] as int]) ==> order[i] < order[j],
{
    assert(ranks_before(stakes, order[i] as int, order[j] as int));
    stake_order_is_numeric(stakes[order[i] as int], stakes[order[j] as int]);
}

/// The first page starts with the top-ranked validator, and every position
/// of a ranking lies on a page: position `pos` on page `pos / per_page + 1`,
/// between its start and the start of the next page.
pub proof fn every_position_is_on_a_page(pos: u64, per_page: u64)
    requires
        per_page > 0,
        pos < u64::MAX,
    ensures
        page_start(1, per_page) == 0,
        ({
            let page = (pos / per_page + 1) as u64;
            page_start(page, per_page) <= pos < page_start(page, per_page) + per_page
        }),
{
    let q = pos / per_page;
    vstd::arithmetic::div_mod::lemma_fundamental_div_mod(pos as int, per_page as int);
    assert(0 <= pos % per_page < per_page);
    assert(q * per_page == per_page * q) by (nonlinear_arith);
    assert(q <= pos) by (nonlinear_arith)
        requires
            q == pos / per_page,
            per_page > 0,
    ;
    assert(((q + 1) as u64 - 1) * per_page == q * per_page);
}

/// The texts the server reports for validator states.
pub proof fn validator_state_texts_of_the_server()
    ensures
        validator_state_text(Some(ValidatorStateKind::Consensus)) == "consensus"@,
        validator_state_text(Some(ValidatorStateKind::BelowCapacity)) == "below_capacity"@,
        validator_state_text(Some(ValidatorStateKind::BelowThreshold)) == "below_threshold"@,
        validator_state_text(Some(ValidatorStateKind::Inactive)) == "inactive"@,
        validator_state_text(Some(ValidatorStateKind::Jailed)) == "jailed"@,
        validator_state_text(None) == "unknown"@,
{
}

} // verus!

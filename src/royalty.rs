use vstd::prelude::*;
use crate::error::EscrowError;
use crate::pubkey::Pubkey;

verus! {

/// A creator of the token, as its metadata declares it: where the royalty
/// goes and which percentage of the total fee it takes.
#[derive(Clone, Copy, Debug)]
pub struct Creator {
    pub address: Pubkey,
    pub share: u8,
}

/// The royalty terms read from the token's metadata.
#[derive(Debug)]
pub struct Royalty {
    /// The fee as a fraction of the price, in hundredths of a percent.
    pub seller_fee_basis_points: u16,
    pub creators: Option<Vec<Creator>>,
}

/// How a price is divided: one fee per creator, in the creators' order,
/// and what is left for the seller.
#[derive(Debug)]
pub struct RoyaltySplit {
    pub creator_fees: Vec<u64>,
    pub remaining: u64,
}

/// `floor(bps * price / 10000)`.
pub open spec fn total_fee(bps: int, price: int) -> int {
    bps * price / 10000
}

/// `floor(share * total / 100)`.
pub open spec fn creator_fee(share: int, total: int) -> int {
    share * total / 100
}

pub open spec fn fees_of(creators: Seq<Creator>, total: int) -> Seq<int> {
    creators.map_values(|c: Creator| creator_fee(c.share as int, total))
}

pub open spec fn sum_of(s: Seq<int>) -> int
    decreases s.len(),
{
    if s.len() == 0 {
        0
    } else {
        sum_of(s.drop_last()) + s.last()
    }
}

pub open spec fn shares_of(creators: Seq<Creator>) -> Seq<int> {
    creators.map_values(|c: Creator| c.share as int)
}

pub open spec fn fees_view(fees: Seq<u64>) -> Seq<int> {
    fees.map_values(|f: u64| f as int)
}

/// The sum of the creators' fees when `bps` of `price` is shared out.
pub open spec fn royalty_total(price: int, bps: int, creators: Seq<Creator>) -> int {
    sum_of(fees_of(creators, total_fee(bps, price)))
}

proof fn lemma_sum_nonneg_prefix(s: Seq<int>, j: int)
    requires
        0 <= j <= s.len(),
        forall|i: int| 0 <= i < s.len() ==> s[i] >= 0,
    ensures
        sum_of(s.take(j)) <= sum_of(s),
    decreases s.len(),
{
    if j < s.len() {
        assert(s.drop_last().take(j) =~= s.take(j));
        lemma_sum_nonneg_prefix(s.drop_last(), j);
    } else {
        assert(s.take(j) =~= s);
    }
}

/// Shares `floor(bps * price / 10000)` out among the creators, each taking
/// `floor(share * total / 100)` of it, and keeps the rest of the price for
/// the seller. Fails with an arithmetic error, and with nothing else, when
/// the fees come to more than the price.
pub fn split_royalties(price: u64, seller_fee_basis_points: u16, creators: &Vec<Creator>) -> (r:
    Result<RoyaltySplit, EscrowError>)
    ensures
        r is Ok <==> royalty_total(price as int, seller_fee_basis_points as int, creators@)
            <= price,
        r is Err ==> r == Err::<RoyaltySplit, EscrowError>(EscrowError::Arithmetic),
        r matches Ok(split) ==> {
            &&& fees_view(split.creator_fees@) == fees_of(
                creators@,
                total_fee(seller_fee_basis_points as int, price as int),
            )
            &&& split.remaining == price - royalty_total(
                price as int,
                seller_fee_basis_points as int,
                creators@,
            )
        },
{
    let ghost total_int = total_fee(seller_fee_basis_points as int, price as int);
    let ghost fees = fees_of(creators@, total_int);
    proof {
        assert(seller_fee_basis_points as int * price as int <= 65535 * 0xffff_ffff_ffff_ffff)
            by (nonlinear_arith)
            requires
                seller_fee_basis_points <= 65535,
                price <= 0xffff_ffff_ffff_ffffu64,
        ;
    }
    let total: u128 = (seller_fee_basis_points as u128 * price as u128) / 10000;
    assert(total as int == total_int);
    assert(total <= 65535 * 0xffff_ffff_ffff_ffff / 10000) by (nonlinear_arith)
        requires
            total == (seller_fee_basis_points as u128 * price as u128) / 10000,
            seller_fee_basis_points as int * price as int <= 65535 * 0xffff_ffff_ffff_ffff,
    ;
    let mut creator_fees: Vec<u64> = Vec::new();
    let mut remaining: u64 = price;
    let mut i: usize = 0;
    while i < creators.len()
        invariant
            0 <= i <= creators.len(),
            total as int == total_int,
            total_int == total_fee(seller_fee_basis_points as int, price as int),
            total <= 65535 * 0xffff_ffff_ffff_ffff / 10000,
            fees == fees_of(creators@, total_int),
            fees_view(creator_fees@) == fees.take(i as int),
            remaining == price - sum_of(fees.take(i as int)),
        decreases creators.len() - i,
    {
        let share = creators[i].share;
        assert(share as int * total as int <= 255 * (65535 * 0xffff_ffff_ffff_ffff / 10000))
            by (nonlinear_arith)
            requires
                share <= 255,
                total <= 65535 * 0xffff_ffff_ffff_ffff / 10000,
        ;
        let fee: u128 = (share as u128 * total) / 100;
        assert(fee as int == fees[i as int]);
        proof {
            assert(fees.take(i as int + 1).drop_last() =~= fees.take(i as int));
            assert(sum_of(fees.take(i as int + 1)) == sum_of(fees.take(i as int)) + fees[i as int]);
        }
        if fee > remaining as u128 {
            proof {
                assert forall|j: int| 0 <= j < fees.len() implies fees[j] >= 0 by {
                    assert(creators@[j].share as int * total_int >= 0) by (nonlinear_arith)
                        requires
                            total_int >= 0,
                    ;
                    assert(fees[j] == creator_fee(creators@[j].share as int, total_int));
                }
                lemma_sum_nonneg_prefix(fees, i as int + 1);
                assert(sum_of(fees) > price);
                assert(royalty_total(price as int, seller_fee_basis_points as int, creators@)
                    == sum_of(fees));
            }
            return Err(EscrowError::Arithmetic);
        }
        creator_fees.push(fee as u64);
        remaining = remaining - fee as u64;
        proof {
            assert(fees_view(creator_fees@) =~= fees.take(i as int + 1));
        }
        i = i + 1;
    }
    proof {
        assert(fees.take(i as int) =~= fees);
    }
    Ok(RoyaltySplit { creator_fees, remaining })
}

proof fn lemma_fees_bounded(creators: Seq<Creator>, total: int)
    requires
        total >= 0,
    ensures
        100 * sum_of(fees_of(creators, total)) <= total * sum_of(shares_of(creators)),
    decreases creators.len(),
{
    if creators.len() > 0 {
        let rest = creators.drop_last();
        assert(fees_of(creators, total).drop_last() =~= fees_of(rest, total));
        assert(shares_of(creators).drop_last() =~= shares_of(rest));
        lemma_fees_bounded(rest, total);
        let share = creators.last().share as int;
        assert(100 * creator_fee(share, total) <= share * total) by (nonlinear_arith)
            requires
                share >= 0,
                total >= 0,
        ;
        assert(total * sum_of(shares_of(creators)) == total * sum_of(shares_of(rest)) + total
            * share) by (nonlinear_arith)
            requires
                sum_of(shares_of(creators)) == sum_of(shares_of(rest)) + share,
        ;
    }
}

/// When the creators' shares add up to 100 and the fee is at most the whole
/// price, the creators' fees add up to no more than the total fee, which is
/// no more than the price: the split never fails, and the fees and the
/// seller's remainder add up to the price exactly.
pub proof fn lemma_royalty_split_exact(price: u64, seller_fee_basis_points: u16, creators: Seq<
    Creator,
>)
    requires
        sum_of(shares_of(creators)) == 100,
        seller_fee_basis_points <= 10000,
    ensures
        royalty_total(price as int, seller_fee_basis_points as int, creators) <= total_fee(
            seller_fee_basis_points as int,
            price as int,
        ),
        total_fee(seller_fee_basis_points as int, price as int) <= price,
        royalty_total(price as int, seller_fee_basis_points as int, creators) + (price
            - royalty_total(price as int, seller_fee_basis_points as int, creators)) == price,
{
    let bps = seller_fee_basis_points as int;
    let p = price as int;
    assert(0 <= bps * p / 10000 <= p) by (nonlinear_arith)
        requires
            0 <= bps <= 10000,
            p >= 0,
    ;
    lemma_fees_bounded(creators, total_fee(bps, p));
}

} // verus!

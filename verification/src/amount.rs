//! Account balances: unsigned integers of 256 bits.
use alloy::primitives::U256;
use vstd::prelude::*;

verus! {

/// One more than the largest amount.
#[verifier::inline]
pub open spec fn amount_modulus() -> nat {
    0x1_0000_0000_0000_0000_0000_0000_0000_0000_0000_0000_0000_0000_0000_0000_0000_0000nat
}

/// The number that four limbs stand for, least significant limb first.
pub open spec fn limbs_value(limbs: [u64; 4]) -> nat {
    (limbs@[0] + 0x1_0000_0000_0000_0000nat * limbs@[1]
        + 0x1_0000_0000_0000_0000_0000_0000_0000_0000nat * limbs@[2]
        + 0x1_0000_0000_0000_0000_0000_0000_0000_0000_0000_0000_0000_0000nat * limbs@[3]) as nat
}

/// `n`, or the largest amount where `n` is beyond it.
pub open spec fn capped(n: nat) -> nat {
    if n < amount_modulus() {
        n
    } else {
        (amount_modulus() - 1) as nat
    }
}

/// `Uint::saturating_add` on `U256`: the sum, or the largest amount where the sum
/// is beyond it.
#[verifier::external_body]
fn u256_sum(a: [u64; 4], b: [u64; 4]) -> (sum: [u64; 4])
    ensures
        limbs_value(sum) == capped(limbs_value(a) + limbs_value(b)),
{
    U256::from_limbs(a).saturating_add(U256::from_limbs(b)).into_limbs()
}

/// `U256 / U256`, which is `Uint::wrapping_div`: the quotient, rounded down. It
/// panics on a divisor of zero, so zero is left out.
#[verifier::external_body]
fn u256_quotient(a: [u64; 4], divisor: u64) -> (quotient: [u64; 4])
    requires
        divisor != 0,
    ensures
        limbs_value(quotient) == limbs_value(a) / (divisor as nat),
{
    (U256::from_limbs(a) / U256::from(divisor)).into_limbs()
}

/// `U256 < U256`: the order of the numbers.
#[verifier::external_body]
fn u256_less(a: [u64; 4], b: [u64; 4]) -> (less: bool)
    ensures
        less == (limbs_value(a) < limbs_value(b)),
{
    U256::from_limbs(a) < U256::from_limbs(b)
}

/// A balance, or an amount to transfer, in the smallest unit of the currency.
#[derive(Clone, Copy, Debug)]
pub struct Amount {
    /// The limbs of the number, least significant first.
    pub limbs: [u64; 4],
}

impl View for Amount {
    type V = nat;

    open spec fn view(&self) -> nat {
        limbs_value(self.limbs)
    }
}

/// The largest balance at which an account that should hold `min_balance` is
/// topped up: `min_balance` and a tenth of it on top.
pub open spec fn top_up_threshold(min_balance: nat) -> nat {
    min_balance + min_balance / 10
}

impl Amount {
    /// The amount of `units`.
    pub fn from_units(units: u64) -> (amount: Self)
        ensures
            amount@ == units,
    {
        Amount { limbs: [units, 0, 0, 0] }
    }

    /// Whether this amount is smaller than `other`.
    pub fn is_below(&self, other: &Amount) -> (below: bool)
        ensures
            below == (self@ < other@),
    {
        u256_less(self.limbs, other.limbs)
    }

    /// The largest balance at which an account that should hold this amount is
    /// topped up; the largest amount, where no balance could be above that.
    pub fn top_up_threshold(&self) -> (threshold: Amount)
        ensures
            threshold@ == capped(top_up_threshold(self@)),
    {
        let margin = u256_quotient(self.limbs, 10);
        Amount { limbs: u256_sum(self.limbs, margin) }
    }
}

/// Amounts stay below the modulus.
pub proof fn amount_is_bounded(amount: Amount)
    ensures
        amount@ < amount_modulus(),
{
}

/// The threshold lies above the minimum by a tenth of it, rounded down: the
/// balances up to it are exactly those that are at most a tenth above the
/// minimum. Capping it makes no difference to any balance.
pub proof fn threshold_is_a_tenth_above(min_balance: nat, balance: Amount)
    ensures
        min_balance <= top_up_threshold(min_balance),
        balance@ <= top_up_threshold(min_balance) <==> 10 * balance@ <= 11 * min_balance,
        balance@ <= capped(top_up_threshold(min_balance)) <==> balance@ <= top_up_threshold(
            min_balance,
        ),
{
    amount_is_bounded(balance);
}

/// An amount is the number whose digits to the base 2^64 are its limbs, the
/// lowest first.
pub proof fn amount_is_read_limb_by_limb(amount: Amount)
    ensures
        amount@ == amount.limbs@[0] + 0x1_0000_0000_0000_0000 * (amount.limbs@[1]
            + 0x1_0000_0000_0000_0000 * (amount.limbs@[2] + 0x1_0000_0000_0000_0000
            * amount.limbs@[3])),
        limbs_value(amount.limbs) == amount@,
{
}

/// Capping leaves every number below 2^256 as it is, and brings every other down
/// to the largest one below.
pub proof fn capping_stops_at_the_largest_amount(n: nat)
    ensures
        capped(n) < 0x1_0000_0000_0000_0000_0000_0000_0000_0000_0000_0000_0000_0000_0000_0000_0000_0000nat,
        capped(n) <= n,
        capped(n) == n || capped(n)
            == 0xffff_ffff_ffff_ffff_ffff_ffff_ffff_ffff_ffff_ffff_ffff_ffff_ffff_ffff_ffff_ffffnat,
{
}

/// The threshold is the minimum and the whole part of a tenth of it, however
/// large the minimum is.
pub proof fn threshold_is_exact(min_balance: nat)
    ensures
        10 * top_up_threshold(min_balance) <= 11 * min_balance < 10 * top_up_threshold(min_balance)
            + 10,
{
}

} // verus!

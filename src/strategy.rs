use vstd::prelude::*;

use crate::error::MigrateError;

verus! {

/// The rule that turns a deposit of the old token into a withdrawal of the
/// new one.
#[derive(Clone, Copy, Debug, PartialEq, Eq, Structural)]
pub enum Strategy {
    /// The deposit buys its share of the pool: `supply_to * amount / supply_from`.
    ProRata,
    /// The deposit is scaled by `10^e`: up for `e > 0`, down (truncating)
    /// for `e < 0`.
    Fixed { e: i8 },
}

/// Ten to the power `n`.
pub open spec fn pow10(n: nat) -> nat
    decreases n,
{
    if n == 0 {
        1
    } else {
        10 * pow10((n - 1) as nat)
    }
}

/// The exact withdrawal owed under `strategy`, before it is fitted to the
/// amount width; `None` where no amount is defined (a power of ten that
/// does not fit, or a division by a zero supply).
pub open spec fn scaled_amount(strategy: Strategy, amount: u64, supply_from: u64, supply_to: u64) -> Option<int> {
    match strategy {
        Strategy::ProRata => if supply_from == 0 {
            None
        } else {
            Some((supply_to * amount) / (supply_from as int))
        },
        Strategy::Fixed { e } => if e == 0 {
            Some(amount as int)
        } else if e < 0 {
            if pow10((-e) as nat) > u64::MAX {
                None
            } else {
                Some((amount as int) / (pow10((-e) as nat) as int))
            }
        } else {
            if pow10(e as nat) > u64::MAX {
                None
            } else {
                Some(amount * pow10(e as nat))
            }
        },
    }
}

/// What `Strategy::withdraw_amount` returns: the scaled amount where it fits
/// in a `u64` and is not zero.
pub open spec fn withdraw_amount_spec(strategy: Strategy, amount: u64, supply_from: u64, supply_to: u64) -> Result<u64, MigrateError> {
    match scaled_amount(strategy, amount, supply_from, supply_to) {
        None => Err(MigrateError::ArithmeticOverflow),
        Some(q) => if q > u64::MAX {
            Err(MigrateError::ArithmeticOverflow)
        } else if q == 0 {
            Err(MigrateError::PolicyRejection)
        } else {
            Ok(q as u64)
        },
    }
}

/// A `Fixed` strategy with exponent zero passes a non-zero deposit through
/// unchanged.
pub proof fn fixed_zero_passes_through(amount: u64, supply_from: u64, supply_to: u64)
    requires
        amount > 0,
    ensures
        withdraw_amount_spec(Strategy::Fixed { e: 0 }, amount, supply_from, supply_to) == Ok::<u64, MigrateError>(amount),
{
}

/// A `Fixed` strategy with a positive exponent multiplies a non-zero deposit
/// by `10^e`, and reports an overflow exactly when the product does not fit
/// in a `u64`.
pub proof fn fixed_positive_multiplies(e: i8, amount: u64, supply_from: u64, supply_to: u64)
    requires
        e > 0,
        amount > 0,
    ensures
        amount * pow10(e as nat) <= u64::MAX ==> withdraw_amount_spec(Strategy::Fixed { e }, amount, supply_from, supply_to)
            == Ok::<u64, MigrateError>((amount * pow10(e as nat)) as u64),
        amount * pow10(e as nat) > u64::MAX ==> withdraw_amount_spec(Strategy::Fixed { e }, amount, supply_from, supply_to)
            == Err::<u64, MigrateError>(MigrateError::ArithmeticOverflow),
{
    let p = pow10(e as nat);
    lemma_pow10_monotone(0, e as nat);
    assert(amount * p >= p) by (nonlinear_arith)
        requires
            amount >= 1,
    ;
}

/// A `Fixed` strategy with a negative exponent divides the deposit by
/// `10^-e`, truncating, wherever the quotient is not zero.
pub proof fn fixed_negative_divides(e: i8, amount: u64, supply_from: u64, supply_to: u64)
    requires
        e < 0,
        (amount as int) / (pow10((-e) as nat) as int) > 0,
    ensures
        withdraw_amount_spec(Strategy::Fixed { e }, amount, supply_from, supply_to) == Ok::<u64, MigrateError>(
            ((amount as int) / (pow10((-e) as nat) as int)) as u64,
        ),
{
    let p = pow10((-e) as nat) as int;
    lemma_pow10_monotone(0, (-e) as nat);
    assert(p <= amount) by {
        if p > amount {
            assert((amount as int) / p == 0) by (nonlinear_arith)
                requires
                    p > amount,
                    amount >= 0,
            ;
        }
    }
    assert((amount as int) / p <= amount) by (nonlinear_arith)
        requires
            p >= 1,
            amount >= 0,
    ;
}

/// The pro-rata strategy owes `floor(supply_to * amount / supply_from)`,
/// with the product taken at full width, wherever that quotient is a
/// non-zero `u64`; a zero `supply_from` is an arithmetic error.
pub proof fn pro_rata_is_floor_of_share(amount: u64, supply_from: u64, supply_to: u64)
    ensures
        supply_from == 0 ==> withdraw_amount_spec(Strategy::ProRata, amount, supply_from, supply_to)
            == Err::<u64, MigrateError>(MigrateError::ArithmeticOverflow),
        supply_from > 0 && 0 < (supply_to * amount) / (supply_from as int) <= u64::MAX
            ==> withdraw_amount_spec(Strategy::ProRata, amount, supply_from, supply_to) == Ok::<u64, MigrateError>(
            ((supply_to * amount) / (supply_from as int)) as u64,
        ),
{
}

/// The strategy engine is a function of its inputs: equal inputs give equal
/// results.
pub proof fn withdraw_amount_is_deterministic(
    s1: Strategy,
    amount1: u64,
    supply_from1: u64,
    supply_to1: u64,
    s2: Strategy,
    amount2: u64,
    supply_from2: u64,
    supply_to2: u64,
)
    requires
        s1 == s2,
        amount1 == amount2,
        supply_from1 == supply_from2,
        supply_to1 == supply_to2,
    ensures
        withdraw_amount_spec(s1, amount1, supply_from1, supply_to1) == withdraw_amount_spec(
            s2,
            amount2,
            supply_from2,
            supply_to2,
        ),
{
}

proof fn lemma_pow10_monotone(i: nat, j: nat)
    requires
        i <= j,
    ensures
        pow10(i) <= pow10(j),
    decreases j - i,
{
    if i < j {
        lemma_pow10_monotone(i, (j - 1) as nat);
    }
}

/// `10^n` where it fits in a `u64`.
fn checked_pow10(n: u32) -> (r: Option<u64>)
    ensures
        r == (if pow10(n as nat) <= u64::MAX {
            Some(pow10(n as nat) as u64)
        } else {
            None::<u64>
        }),
{
    let mut acc: u64 = 1;
    let mut i: u32 = 0;
    while i < n
        invariant
            i <= n,
            acc == pow10(i as nat),
        decreases n - i,
    {
        if acc > u64::MAX / 10 {
            proof {
                lemma_pow10_monotone((i + 1) as nat, n as nat);
            }
            return None;
        }
        acc = acc * 10;
        i = i + 1;
    }
    Some(acc)
}

proof fn lemma_product_fits_u128(x: u64, y: u64)
    ensures
        x * y <= u128::MAX,
{
    assert(x * y <= u64::MAX * u64::MAX) by (nonlinear_arith)
        requires
            x <= u64::MAX,
            y <= u64::MAX,
    ;
}

impl Strategy {
    /// The amount of the new token owed for a deposit of `amount` of the old
    /// one, where `supply_from` is the circulating supply of the old token
    /// and `supply_to` what the pool holds of the new one.
    ///
    /// A withdrawal of zero is refused, so that a deposit never buys nothing.
    pub fn withdraw_amount(self, amount: u64, supply_from: u64, supply_to: u64) -> (r: Result<u64, MigrateError>)
        ensures
            r == withdraw_amount_spec(self, amount, supply_from, supply_to),
    {
        let scaled: u64 = match self {
            Strategy::ProRata => {
                if supply_from == 0 {
                    return Err(MigrateError::ArithmeticOverflow);
                }
                proof {
                    lemma_product_fits_u128(supply_to, amount);
                }
                let q: u128 = (supply_to as u128) * (amount as u128) / (supply_from as u128);
                if q > u64::MAX as u128 {
                    return Err(MigrateError::ArithmeticOverflow);
                }
                q as u64
            },
            Strategy::Fixed { e } => {
                if e == 0 {
                    amount
                } else if e < 0 {
                    let n: u32 = (-(e as i32)) as u32;
                    match checked_pow10(n) {
                        None => {
                            return Err(MigrateError::ArithmeticOverflow);
                        },
                        Some(divisor) => {
                            proof {
                                lemma_pow10_monotone(0, n as nat);
                            }
                            amount / divisor
                        },
                    }
                } else {
                    let n: u32 = e as u32;
                    match checked_pow10(n) {
                        None => {
                            return Err(MigrateError::ArithmeticOverflow);
                        },
                        Some(multiplier) => {
                            match amount.checked_mul(multiplier) {
                                None => {
                                    return Err(MigrateError::ArithmeticOverflow);
                                },
                                Some(p) => p,
                            }
                        },
                    }
                }
            },
        };
        if scaled < 1 {
            return Err(MigrateError::PolicyRejection);
        }
        Ok(scaled)
    }
}

} // verus!

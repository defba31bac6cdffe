//! The swap processor: one constant-product swap over four balances.
//!
//! A swap reads the two pool reserves, computes the payout from the
//! constant product `reserve_x * reserve_y` with floor division, and then
//! moves the input amount from the paying user into the paying-side
//! reserve and the payout from the other reserve to the other user. The
//! whole mutation is all-or-nothing: every failure leaves all four
//! balances exactly as they were.

use crate::codec::decode;
use crate::codec::spec_decode;
use crate::codec::DecodeError;
use crate::codec::Direction;
use crate::codec::SwapRequest;
use vstd::arithmetic::div_mod::lemma_div_is_ordered_by_denominator;
use vstd::arithmetic::div_mod::lemma_div_multiples_vanish;
use vstd::arithmetic::div_mod::lemma_div_of0;
use vstd::arithmetic::div_mod::lemma_fundamental_div_mod;
use vstd::arithmetic::div_mod::lemma_mod_bound;
use vstd::arithmetic::div_mod::lemma_mod_multiples_basic;
use vstd::arithmetic::mul::lemma_mul_is_commutative;
use vstd::arithmetic::mul::lemma_mul_upper_bound;
use vstd::prelude::*;

verus! {

/// The four balances one swap touches, in the processor's fixed slot
/// order: pool reserve for X, pool reserve for Y, user wallet for X, user
/// wallet for Y.
#[derive(Clone, Copy, Debug, PartialEq, Eq, Structural)]
pub struct Balances {
    pub reserve_x: u64,
    pub reserve_y: u64,
    pub user_x: u64,
    pub user_y: u64,
}

/// Why a swap failed. Every failure leaves the balances untouched.
#[derive(Clone, Copy, Debug, PartialEq, Eq, Structural)]
pub enum SwapError {
    /// The reserve product, the grown paying-side reserve, or the paid
    /// user's new balance does not fit in 64 bits.
    Overflow,
    /// Both the paying-side reserve and the input amount are zero, so the
    /// payout is not defined.
    DivisionByZero,
    /// The paying user's balance cannot cover the input amount.
    InsufficientFunds,
}

/// All the errors the instruction entry point can report.
#[derive(Clone, Copy, Debug, PartialEq, Eq, Structural)]
pub enum ProcessError {
    /// The payload was rejected by the codec.
    Decode(DecodeError),
    /// The payload decoded, but the swap failed.
    Swap(SwapError),
}

/// One swap written over the paying side: `reserve_in` and `user_in` hold
/// the asset the user pays, `reserve_out` and `user_out` the asset the
/// user receives. Returns the four new balances in the same order, or the
/// error for the first check that fails: the reserve product over 64 bits,
/// then a zero divisor, then insufficient user funds, then a grown balance
/// over 64 bits.
pub open spec fn spec_swap_oriented(
    reserve_in: u64,
    reserve_out: u64,
    user_in: u64,
    user_out: u64,
    amount_in: u64,
) -> Result<(u64, u64, u64, u64), SwapError> {
    let product: int = reserve_in * reserve_out;
    if product > u64::MAX {
        Err(SwapError::Overflow)
    } else {
        let divisor: int = reserve_in + amount_in;
        if divisor == 0 {
            Err(SwapError::DivisionByZero)
        } else {
            let payout: int = reserve_out - product / divisor;
            if user_in < amount_in {
                Err(SwapError::InsufficientFunds)
            } else if divisor > u64::MAX || user_out + payout > u64::MAX {
                Err(SwapError::Overflow)
            } else {
                Ok(
                    (
                        divisor as u64,
                        (reserve_out - payout) as u64,
                        (user_in - amount_in) as u64,
                        (user_out + payout) as u64,
                    ),
                )
            }
        }
    }
}

/// What one swap does to the four balances: the new balances on success,
/// the error otherwise.
pub open spec fn spec_swap(b: Balances, req: SwapRequest) -> Result<Balances, SwapError> {
    match req.direction {
        Direction::XtoY => match spec_swap_oriented(
            b.reserve_x,
            b.reserve_y,
            b.user_x,
            b.user_y,
            req.amount_in,
        ) {
            Ok(t) => Ok(
                (Balances { reserve_x: t.0, reserve_y: t.1, user_x: t.2, user_y: t.3 }),
            ),
            Err(e) => Err(e),
        },
        Direction::YtoX => match spec_swap_oriented(
            b.reserve_y,
            b.reserve_x,
            b.user_y,
            b.user_x,
            req.amount_in,
        ) {
            Ok(t) => Ok(
                (Balances { reserve_x: t.1, reserve_y: t.0, user_x: t.3, user_y: t.2 }),
            ),
            Err(e) => Err(e),
        },
    }
}

/// The reserve on the paying side of a direction.
pub open spec fn spec_reserve_in(b: Balances, direction: Direction) -> u64 {
    match direction {
        Direction::XtoY => b.reserve_x,
        Direction::YtoX => b.reserve_y,
    }
}

/// The balance of the user paying into the pool under a direction.
pub open spec fn spec_user_in(b: Balances, direction: Direction) -> u64 {
    match direction {
        Direction::XtoY => b.user_x,
        Direction::YtoX => b.user_y,
    }
}

/// Computes one oriented swap with 128-bit intermediates, so that every
/// overflow of a 64-bit balance is caught and reported rather than hit.
fn swap_oriented(
    reserve_in: u64,
    reserve_out: u64,
    user_in: u64,
    user_out: u64,
    amount_in: u64,
) -> (r: Result<(u64, u64, u64, u64), SwapError>)
    ensures
        r == spec_swap_oriented(reserve_in, reserve_out, user_in, user_out, amount_in),
{
    proof {
        lemma_mul_upper_bound(reserve_in as int, u64::MAX as int, reserve_out as int, u64::MAX as int);
    }
    let product: u128 = (reserve_in as u128) * (reserve_out as u128);
    if product > u64::MAX as u128 {
        return Err(SwapError::Overflow);
    }
    let divisor: u128 = reserve_in as u128 + amount_in as u128;
    if divisor == 0 {
        return Err(SwapError::DivisionByZero);
    }
    let quotient: u128 = product / divisor;
    proof {
        if reserve_in == 0 {
            lemma_div_of0(divisor as int);
        } else {
            lemma_div_multiples_vanish(reserve_out as int, reserve_in as int);
            lemma_div_is_ordered_by_denominator(product as int, reserve_in as int, divisor as int);
        }
        assert(quotient <= reserve_out);
    }
    let payout: u64 = (reserve_out as u128 - quotient) as u64;
    if user_in < amount_in {
        return Err(SwapError::InsufficientFunds);
    }
    if divisor > u64::MAX as u128 {
        return Err(SwapError::Overflow);
    }
    let new_user_out: u128 = user_out as u128 + payout as u128;
    if new_user_out > u64::MAX as u128 {
        return Err(SwapError::Overflow);
    }
    Ok((divisor as u64, reserve_out - payout, user_in - amount_in, new_user_out as u64))
}

/// Applies one swap to the four balances. On success all four balances
/// take their new values; on any error none of them changes.
pub fn process(balances: &mut Balances, request: &SwapRequest) -> (r: Result<(), SwapError>)
    ensures
        r is Ok ==> spec_swap(*old(balances), *request) == Ok::<Balances, SwapError>(
            *final(balances),
        ),
        r matches Err(e) ==> spec_swap(*old(balances), *request) == Err::<Balances, SwapError>(e)
            && *final(balances) == *old(balances),
{
    match request.direction {
        Direction::XtoY => {
            match swap_oriented(
                balances.reserve_x,
                balances.reserve_y,
                balances.user_x,
                balances.user_y,
                request.amount_in,
            ) {
                Ok(t) => {
                    balances.reserve_x = t.0;
                    balances.reserve_y = t.1;
                    balances.user_x = t.2;
                    balances.user_y = t.3;
                    Ok(())
                },
                Err(e) => Err(e),
            }
        },
        Direction::YtoX => {
            match swap_oriented(
                balances.reserve_y,
                balances.reserve_x,
                balances.user_y,
                balances.user_x,
                request.amount_in,
            ) {
                Ok(t) => {
                    balances.reserve_y = t.0;
                    balances.reserve_x = t.1;
                    balances.user_y = t.2;
                    balances.user_x = t.3;
                    Ok(())
                },
                Err(e) => Err(e),
            }
        },
    }
}

/// What the instruction entry point does to the balances, as a function of
/// the raw payload: decode first, then swap.
pub open spec fn spec_process_instruction(b: Balances, payload: Seq<u8>) -> Result<
    Balances,
    ProcessError,
> {
    match spec_decode(payload) {
        Err(e) => Err(ProcessError::Decode(e)),
        Ok(req) => match spec_swap(b, req) {
            Ok(nb) => Ok(nb),
            Err(e) => Err(ProcessError::Swap(e)),
        },
    }
}

/// The processor entry point: decodes the raw payload, then applies the
/// swap to the four balances. All-or-nothing: on any error the balances
/// keep their old values.
pub fn process_instruction(balances: &mut Balances, input: &[u8]) -> (r: Result<(), ProcessError>)
    ensures
        r is Ok ==> spec_process_instruction(*old(balances), input@) == Ok::<
            Balances,
            ProcessError,
        >(*final(balances)),
        r matches Err(e) ==> spec_process_instruction(*old(balances), input@) == Err::<
            Balances,
            ProcessError,
        >(e) && *final(balances) == *old(balances),
{
    let request = match decode(input) {
        Ok(req) => req,
        Err(e) => {
            return Err(ProcessError::Decode(e));
        },
    };
    match process(balances, &request) {
        Ok(()) => Ok(()),
        Err(e) => Err(ProcessError::Swap(e)),
    }
}

/// The product of the new paying-side and receiving-side reserves equals
/// the old product minus its remainder modulo the grown paying-side
/// reserve.
proof fn lemma_oriented_product(
    reserve_in: u64,
    reserve_out: u64,
    user_in: u64,
    user_out: u64,
    amount_in: u64,
    t: (u64, u64, u64, u64),
)
    requires
        reserve_in > 0,
        spec_swap_oriented(reserve_in, reserve_out, user_in, user_out, amount_in) == Ok::<
            (u64, u64, u64, u64),
            SwapError,
        >(t),
    ensures
        t.0 * t.1 == reserve_in * reserve_out - (reserve_in * reserve_out) % (reserve_in
            + amount_in),
        0 <= (reserve_in * reserve_out) % (reserve_in + amount_in) < reserve_in + amount_in,
{
    let product: int = reserve_in * reserve_out;
    let divisor: int = reserve_in + amount_in;
    lemma_fundamental_div_mod(product, divisor);
    lemma_mod_bound(product, divisor);
    assert(t.0 == divisor);
    assert(t.1 == product / divisor);
}

/// Across any successful swap on a pool with two positive reserves, the
/// reserve product never increases; it stays exactly equal precisely when
/// the old product is divisible by the grown paying-side reserve, and a
/// zero input amount always keeps it equal.
pub proof fn lemma_product_non_increasing(b: Balances, req: SwapRequest, nb: Balances)
    requires
        b.reserve_x > 0,
        b.reserve_y > 0,
        spec_swap(b, req) == Ok::<Balances, SwapError>(nb),
    ensures
        nb.reserve_x * nb.reserve_y <= b.reserve_x * b.reserve_y,
        (nb.reserve_x * nb.reserve_y == b.reserve_x * b.reserve_y) <==> (b.reserve_x * b.reserve_y)
            % (spec_reserve_in(b, req.direction) + req.amount_in) == 0,
        req.amount_in == 0 ==> nb.reserve_x * nb.reserve_y == b.reserve_x * b.reserve_y,
{
    match req.direction {
        Direction::XtoY => {
            let t = spec_swap_oriented(
                b.reserve_x,
                b.reserve_y,
                b.user_x,
                b.user_y,
                req.amount_in,
            ).unwrap();
            lemma_oriented_product(b.reserve_x, b.reserve_y, b.user_x, b.user_y, req.amount_in, t);
            lemma_mul_is_commutative(b.reserve_x as int, b.reserve_y as int);
            if req.amount_in == 0 {
                lemma_mod_multiples_basic(b.reserve_y as int, b.reserve_x as int);
            }
        },
        Direction::YtoX => {
            let t = spec_swap_oriented(
                b.reserve_y,
                b.reserve_x,
                b.user_y,
                b.user_x,
                req.amount_in,
            ).unwrap();
            lemma_oriented_product(b.reserve_y, b.reserve_x, b.user_y, b.user_x, req.amount_in, t);
            lemma_mul_is_commutative(b.reserve_y as int, b.reserve_x as int);
            lemma_mul_is_commutative(t.0 as int, t.1 as int);
            if req.amount_in == 0 {
                lemma_mod_multiples_basic(b.reserve_x as int, b.reserve_y as int);
            }
        },
    }
}

/// A swap whose debit exceeds the paying user's balance fails with
/// `InsufficientFunds` whenever it gets as far as that check: the reserve
/// product fits in 64 bits and the payout divisor is not zero. Together
/// with the contract of `process`, which keeps the balances unchanged on
/// every error, no such swap moves any funds.
pub proof fn lemma_insufficient_funds(b: Balances, req: SwapRequest)
    requires
        spec_user_in(b, req.direction) < req.amount_in,
        b.reserve_x * b.reserve_y <= u64::MAX,
        spec_reserve_in(b, req.direction) + req.amount_in > 0,
    ensures
        spec_swap(b, req) == Err::<Balances, SwapError>(SwapError::InsufficientFunds),
{
    if req.direction is YtoX {
        lemma_mul_is_commutative(b.reserve_x as int, b.reserve_y as int);
    }
}

/// A zero-amount swap on a pool whose paying-side reserve is positive and
/// whose reserve product fits in 64 bits succeeds and is a no-op: every
/// balance, and so also the reserve product, is exactly unchanged.
pub proof fn lemma_zero_amount_no_op(b: Balances, req: SwapRequest)
    requires
        req.amount_in == 0,
        b.reserve_x * b.reserve_y <= u64::MAX,
        spec_reserve_in(b, req.direction) > 0,
    ensures
        spec_swap(b, req) == Ok::<Balances, SwapError>(b),
{
    match req.direction {
        Direction::XtoY => {
            lemma_div_multiples_vanish(b.reserve_y as int, b.reserve_x as int);
        },
        Direction::YtoX => {
            lemma_mul_is_commutative(b.reserve_x as int, b.reserve_y as int);
            lemma_div_multiples_vanish(b.reserve_x as int, b.reserve_y as int);
        },
    }
}

} // verus!


use cpswap::codec::encode_instruction_data;
use cpswap::codec::DecodeError;
use cpswap::codec::Direction;
use cpswap::codec::SwapRequest;
use cpswap::swap::process;
use cpswap::swap::process_instruction;
use cpswap::swap::Balances;
use cpswap::swap::ProcessError;
use cpswap::swap::SwapError;

#[test]
fn test_transfer() {
    // Reserves 6 and 10 (product 60), user pays 6 of X: the pool returns
    // 10 - 60 / 12 = 5 of Y, keeping the product at exactly 60.
    let mut balances = Balances { reserve_x: 6, reserve_y: 10, user_x: 6, user_y: 0 };
    let payload = encode_instruction_data(1, 6);
    assert_eq!(process_instruction(&mut balances, &payload), Ok(()));
    assert_eq!(balances.reserve_x, 12);
    assert_eq!(balances.reserve_y, 5);
    assert_eq!(balances.user_x, 0);
    assert_eq!(balances.user_y, 5);
}

#[test]
fn rounding_keeps_value_in_the_pool() {
    // Reserves 5 and 7 (product 35), user pays 3 of X: the payout is
    // 7 - floor(35 / 8) = 3, and the new product 8 * 4 = 32 < 35.
    let mut balances = Balances { reserve_x: 5, reserve_y: 7, user_x: 3, user_y: 0 };
    let request = SwapRequest { direction: Direction::XtoY, amount_in: 3 };
    assert_eq!(process(&mut balances, &request), Ok(()));
    assert_eq!(balances.reserve_x, 8);
    assert_eq!(balances.reserve_y, 4);
    assert_eq!(balances.user_x, 0);
    assert_eq!(balances.user_y, 3);
    assert!(balances.reserve_x * balances.reserve_y <= 35);
}

#[test]
fn swap_works_in_both_directions() {
    let mut balances = Balances { reserve_x: 10, reserve_y: 6, user_x: 0, user_y: 6 };
    let request = SwapRequest { direction: Direction::YtoX, amount_in: 6 };
    assert_eq!(process(&mut balances, &request), Ok(()));
    assert_eq!(balances.reserve_x, 5);
    assert_eq!(balances.reserve_y, 12);
    assert_eq!(balances.user_x, 5);
    assert_eq!(balances.user_y, 0);
}

#[test]
fn zero_amount_swap_is_a_no_op() {
    let before = Balances { reserve_x: 5, reserve_y: 7, user_x: 2, user_y: 9 };
    for direction in [Direction::XtoY, Direction::YtoX] {
        let mut balances = before;
        let request = SwapRequest { direction, amount_in: 0 };
        assert_eq!(process(&mut balances, &request), Ok(()));
        assert_eq!(balances, before);
    }
}

#[test]
fn zero_reserve_and_zero_amount_fail_with_division_by_zero() {
    let before = Balances { reserve_x: 0, reserve_y: 9, user_x: 4, user_y: 4 };
    let mut balances = before;
    let request = SwapRequest { direction: Direction::XtoY, amount_in: 0 };
    assert_eq!(process(&mut balances, &request), Err(SwapError::DivisionByZero));
    assert_eq!(balances, before);
}

#[test]
fn insufficient_funds_leave_all_balances_unchanged() {
    let before = Balances { reserve_x: 5, reserve_y: 7, user_x: 2, user_y: 0 };
    let mut balances = before;
    let request = SwapRequest { direction: Direction::XtoY, amount_in: 3 };
    assert_eq!(process(&mut balances, &request), Err(SwapError::InsufficientFunds));
    assert_eq!(balances, before);
}

#[test]
fn reserve_product_overflow_fails_without_mutation() {
    let before = Balances {
        reserve_x: 1 << 33,
        reserve_y: 1 << 33,
        user_x: 10,
        user_y: 10,
    };
    let mut balances = before;
    let request = SwapRequest { direction: Direction::XtoY, amount_in: 1 };
    assert_eq!(process(&mut balances, &request), Err(SwapError::Overflow));
    assert_eq!(balances, before);
}

#[test]
fn grown_reserve_overflow_fails_without_mutation() {
    // The product 0 fits, but the paying-side reserve would grow past
    // the largest 64-bit balance.
    let before = Balances { reserve_x: 1, reserve_y: 0, user_x: u64::MAX, user_y: 0 };
    let mut balances = before;
    let request = SwapRequest { direction: Direction::XtoY, amount_in: u64::MAX };
    assert_eq!(process(&mut balances, &request), Err(SwapError::Overflow));
    assert_eq!(balances, before);
}

#[test]
fn paid_user_overflow_fails_without_mutation() {
    // The payout of 1 would push the receiving user past the largest
    // 64-bit balance.
    let before = Balances { reserve_x: 1, reserve_y: 1, user_x: 1, user_y: u64::MAX };
    let mut balances = before;
    let request = SwapRequest { direction: Direction::XtoY, amount_in: 1 };
    assert_eq!(process(&mut balances, &request), Err(SwapError::Overflow));
    assert_eq!(balances, before);
}

#[test]
fn process_instruction_rejects_bad_payloads_without_mutation() {
    let before = Balances { reserve_x: 6, reserve_y: 10, user_x: 6, user_y: 0 };

    let mut balances = before;
    assert_eq!(
        process_instruction(&mut balances, &[1, 2, 3]),
        Err(ProcessError::Decode(DecodeError::InvalidLength))
    );
    assert_eq!(balances, before);

    let mut balances = before;
    assert_eq!(
        process_instruction(&mut balances, &[9, 6, 0, 0, 0, 0, 0, 0, 0]),
        Err(ProcessError::Decode(DecodeError::InvalidDirection))
    );
    assert_eq!(balances, before);

    let mut balances = before;
    assert_eq!(
        process_instruction(&mut balances, &encode_instruction_data(1, 7)),
        Err(ProcessError::Swap(SwapError::InsufficientFunds))
    );
    assert_eq!(balances, before);
}

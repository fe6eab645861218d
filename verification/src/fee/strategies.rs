//! The three strategies by which the relayer judges the fee that rides on
//! a pending action.

use crate::db::{PendingActionType, RelayDetails};
use crate::decimal::{all_digits, decimal_value, is_digit};
use crate::fee::fee::{FeeResponse, FeeResponseView};
use crate::text::{find_char, first_index_of};
use vstd::prelude::*;

verus! {

/// The whole part of a quoted fee: the number that the digits before the
/// decimal point denote. No digits denote zero; anything but digits before
/// the point makes the quote unreadable.
pub open spec fn quoted_minimum(text: Seq<char>) -> Option<nat> {
    let whole = text.take(first_index_of(text, '.'));
    if all_digits(whole) {
        Some(decimal_value(whole))
    } else {
        None
    }
}

/// The least fee that is accepted against a quote: the quote less the
/// tolerance, which is given in basis points, rounded down.
pub open spec fn min_acceptable_fee(quote: nat, tolerance_bp: nat) -> int {
    quote * (10000 - tolerance_bp) / 10000
}

/// The quote that applies to an action type. Executions have none.
pub open spec fn quote_for(quote: FeeResponseView, action_type: PendingActionType) -> Option<
    Seq<char>,
> {
    match action_type {
        PendingActionType::PendingRegisterTokenType => Some(quote.register_token),
        PendingActionType::PendingDeregisterTokenType => Some(quote.deregister_token),
        PendingActionType::PendingDeployNativeTokenType => Some(quote.deploy_native_token),
        PendingActionType::PendingWithdrawAndExecuteType => Some(quote.withdraw_and_execute),
        PendingActionType::PendingWithdrawType => Some(quote.withdraw),
        PendingActionType::PendingExecuteType => None,
    }
}

/// Whether a fee is accepted against the text of a quote.
pub open spec fn fee_meets_quote(fee: u64, quote_text: Seq<char>, tolerance_bp: u64) -> bool {
    match quoted_minimum(quote_text) {
        Some(q) => fee >= min_acceptable_fee(q, tolerance_bp as nat),
        None => false,
    }
}

/// Whether the quote-based strategy accepts: there is a quote, it has an
/// entry for the action type, the entry can be read, and the fee is at
/// least the entry less the tolerance.
pub open spec fn hydrogen_accepts(
    tolerance_bp: u64,
    fee: u64,
    action_type: Option<PendingActionType>,
    quote: Option<FeeResponseView>,
) -> bool {
    match (quote, action_type) {
        (Some(q), Some(t)) => match quote_for(q, t) {
            Some(text) => fee_meets_quote(fee, text, tolerance_bp),
            None => false,
        },
        _ => false,
    }
}

/// The largest quote that is read exactly; a larger one is only known to
/// be larger.
pub const QUOTE_CAP: u128 = 0x1_0000_0000_0000_0000_0000_0000;

/// Reads the whole part of a quote. A quote above `QUOTE_CAP` is reported
/// as `QUOTE_CAP + 1`.
fn read_quote(text: &str) -> (r: Option<u128>)
    ensures
        match quoted_minimum(text@) {
            Some(q) => r == Some(
                if q <= QUOTE_CAP {
                    q as u128
                } else {
                    (QUOTE_CAP + 1) as u128
                },
            ),
            None => r is None,
        },
{
    proof {
        assert(text@.skip(0) =~= text@);
    }
    let end = find_char(text, '.', 0);
    let ghost whole = text@.take(end as int);
    let mut acc: u128 = 0;
    let mut i: usize = 0;
    while i < end
        invariant
            end <= text@.len(),
            end == first_index_of(text@, '.'),
            whole == text@.take(end as int),
            i <= end,
            all_digits(whole.take(i as int)),
            decimal_value(whole.take(i as int)) <= QUOTE_CAP ==> acc == decimal_value(
                whole.take(i as int),
            ),
            decimal_value(whole.take(i as int)) > QUOTE_CAP ==> acc == QUOTE_CAP + 1,
        decreases end - i,
    {
        let c = text.get_char(i);
        if !(c >= '0' && c <= '9') {
            assert(!is_digit(whole[i as int]));
            return None;
        }
        let digit: u128 = (c as u32 - '0' as u32) as u128;
        proof {
            assert(whole.take(i + 1).drop_last() =~= whole.take(i as int));
            assert(whole.take(i + 1).last() == c);
            assert forall|j: int| 0 <= j < whole.take(i + 1).len() implies is_digit(
                #[trigger] whole.take(i + 1)[j],
            ) by {
                if j < i {
                    assert(whole.take(i as int)[j] == whole.take(i + 1)[j]);
                }
            }
        }
        if acc <= QUOTE_CAP {
            let next: u128 = acc * 10 + digit;
            acc = if next > QUOTE_CAP {
                QUOTE_CAP + 1
            } else {
                next
            };
        }
        i += 1;
    }
    proof {
        assert(whole.take(end as int) =~= whole);
    }
    Some(acc)
}

/// Accepts every fee.
pub fn check_all_strategy() -> (r: bool)
    ensures
        r,
{
    true
}

/// Accepts a fee that is more than nothing.
pub fn check_greater_than_0_strategy(relay_details: &RelayDetails) -> (r: bool)
    ensures
        r == (relay_details.fee.amount > 0),
{
    relay_details.fee.amount > 0
}

/// Whether `fee` is at least the quote less the tolerance.
pub fn meets_quote(fee: u64, quote_text: &str, tolerance_bp: u64) -> (r: bool)
    ensures
        r == fee_meets_quote(fee, quote_text@, tolerance_bp),
{
    match read_quote(quote_text) {
        Some(q) => {
            let ghost quote = quoted_minimum(quote_text@)->0;
            if tolerance_bp >= 10000 {
                assert(min_acceptable_fee(quote, tolerance_bp as nat) <= 0) by (nonlinear_arith)
                    requires
                        tolerance_bp >= 10000,
                ;
                true
            } else {
                let keep: u128 = (10000 - tolerance_bp) as u128;
                if q > QUOTE_CAP {
                    assert(min_acceptable_fee(quote, tolerance_bp as nat) > fee) by (nonlinear_arith)
                        requires
                            quote > 0x1_0000_0000_0000_0000_0000_0000,
                            0 < 10000 - tolerance_bp,
                            fee <= 0xffff_ffff_ffff_ffff,
                    ;
                    false
                } else {
                    assert(q * keep <= 0x1_0000_0000_0000_0000_0000_0000 * 10000) by (nonlinear_arith)
                        requires
                            q <= 0x1_0000_0000_0000_0000_0000_0000,
                            keep <= 10000,
                    ;
                    let minimum: u128 = q * keep / 10000;
                    fee as u128 >= minimum
                }
            }
        },
        None => false,
    }
}

/// The quote-based strategy: the fee must be at least the quoted minimum
/// for the action's type, less the tolerance. Without a quote, without an
/// entry for the type, or with an entry that cannot be read, the fee is
/// refused.
pub fn check_hydrogen_strategy(
    tolerance_bp: u64,
    relay_details: &RelayDetails,
    action_type: Option<PendingActionType>,
    quote: Option<&FeeResponse>,
) -> (r: bool)
    ensures
        r == hydrogen_accepts(
            tolerance_bp,
            relay_details.fee.amount,
            action_type,
            crate::fee::fee::opt_quote(quote),
        ),
{
    let fee = match quote {
        Some(f) => f,
        None => {
            return false;
        },
    };
    let action = match action_type {
        Some(t) => t,
        None => {
            return false;
        },
    };
    let text = match action {
        PendingActionType::PendingRegisterTokenType => fee.register_token.as_str(),
        PendingActionType::PendingDeregisterTokenType => fee.deregister_token.as_str(),
        PendingActionType::PendingDeployNativeTokenType => fee.deploy_native_token.as_str(),
        PendingActionType::PendingWithdrawAndExecuteType => fee.withdraw_and_execute.as_str(),
        PendingActionType::PendingWithdrawType => fee.withdraw.as_str(),
        PendingActionType::PendingExecuteType => {
            return false;
        },
    };
    meets_quote(relay_details.fee.amount, text, tolerance_bp)
}

} // verus!

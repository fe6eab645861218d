//! The fee policy: the quote of the fee service and the decision whether
//! the fee of a pending action is enough under the configured strategy.

use crate::conf::{Fee, RelayStrategy};
use crate::db::{DbPendingActionEvent, PendingActionType};
use crate::fee::strategies::{
    check_all_strategy, check_greater_than_0_strategy, check_hydrogen_strategy, hydrogen_accepts,
};
use crate::json::{Json, JsonTree};
use vstd::prelude::*;

verus! {

/// The minimum fees that the fee service quotes for one connection and
/// denomination, by kind of action, each a decimal number.
#[derive(Debug, Clone, PartialEq)]
pub struct FeeResponse {
    pub withdraw: String,
    pub register_token: String,
    pub deregister_token: String,
    pub deploy_native_token: String,
    pub withdraw_and_execute: String,
    pub quoted_at: String,
}

pub ghost struct FeeResponseView {
    pub withdraw: Seq<char>,
    pub register_token: Seq<char>,
    pub deregister_token: Seq<char>,
    pub deploy_native_token: Seq<char>,
    pub withdraw_and_execute: Seq<char>,
    pub quoted_at: Seq<char>,
}

/// Why no quote was had from the fee service's answer.
#[derive(Clone, Copy, Debug, PartialEq, Eq, Structural)]
pub enum FeeError {
    /// The service answered with a status outside 200 to 299.
    Status,
    /// The body is no JSON document.
    Body,
    /// The document lacks one of the quoted fees, or one is no string.
    Shape,
}

impl View for FeeResponse {
    type V = FeeResponseView;

    open spec fn view(&self) -> FeeResponseView {
        FeeResponseView {
            withdraw: self.withdraw@,
            register_token: self.register_token@,
            deregister_token: self.deregister_token@,
            deploy_native_token: self.deploy_native_token@,
            withdraw_and_execute: self.withdraw_and_execute@,
            quoted_at: self.quoted_at@,
        }
    }
}

pub open spec fn opt_quote(q: Option<&FeeResponse>) -> Option<FeeResponseView> {
    match q {
        Some(f) => Some(f@),
        None => None,
    }
}

/// The quote that a JSON object denotes: each quoted fee is a string field.
pub open spec fn quote_of_json(j: JsonTree) -> Option<FeeResponseView> {
    match (
        j.str_field("withdraw"@),
        j.str_field("register_token"@),
        j.str_field("deregister_token"@),
        j.str_field("deploy_native_token"@),
        j.str_field("withdraw_and_execute"@),
        j.str_field("quoted_at"@),
    ) {
        (Some(w), Some(r), Some(d), Some(n), Some(x), Some(q)) => Some(
            FeeResponseView {
                withdraw: w,
                register_token: r,
                deregister_token: d,
                deploy_native_token: n,
                withdraw_and_execute: x,
                quoted_at: q,
            },
        ),
        _ => None,
    }
}

/// What the fee service's answer comes to.
pub open spec fn quote_of_answer(status: u16, body: Seq<char>) -> Result<FeeResponseView, FeeError> {
    if !(200 <= status <= 299) {
        Err(FeeError::Status)
    } else {
        match crate::json::json_parsed(body) {
            None => Err(FeeError::Body),
            Some(j) => match quote_of_json(j) {
                Some(q) => Ok(q),
                None => Err(FeeError::Shape),
            },
        }
    }
}

/// The address at which the fee service quotes for a connection and a
/// denomination.
pub open spec fn hydrogen_fee_url(hydrogen_url: Seq<char>, connection_id: Seq<char>, fee_denom: Seq<char>) -> Seq<
    char,
> {
    hydrogen_url + "/bridge_fees?connection_id="@ + connection_id + "&fee_denom="@ + fee_denom
}

/// Whether the configured strategy accepts the fee of a pending action,
/// given the quote that was had, if any.
pub open spec fn strategy_accepts(
    strategy: RelayStrategy,
    tolerance_bp: u64,
    fee: u64,
    action_type: Option<PendingActionType>,
    quote: Option<FeeResponseView>,
) -> bool {
    match strategy {
        RelayStrategy::Hydrogen => hydrogen_accepts(tolerance_bp, fee, action_type, quote),
        RelayStrategy::All => true,
        RelayStrategy::GreaterThan0 => fee > 0,
    }
}

impl FeeResponse {
    /// Reads a quote from a JSON object.
    pub fn from_json(j: &Json) -> (r: Option<FeeResponse>)
        ensures
            match r {
                Some(q) => quote_of_json(j@) == Some(q@),
                None => quote_of_json(j@) is None,
            },
    {
        let withdraw = match j.str_field("withdraw") {
            Some(v) => v,
            None => {
                return None;
            },
        };
        let register_token = match j.str_field("register_token") {
            Some(v) => v,
            None => {
                return None;
            },
        };
        let deregister_token = match j.str_field("deregister_token") {
            Some(v) => v,
            None => {
                return None;
            },
        };
        let deploy_native_token = match j.str_field("deploy_native_token") {
            Some(v) => v,
            None => {
                return None;
            },
        };
        let withdraw_and_execute = match j.str_field("withdraw_and_execute") {
            Some(v) => v,
            None => {
                return None;
            },
        };
        let quoted_at = match j.str_field("quoted_at") {
            Some(v) => v,
            None => {
                return None;
            },
        };
        Some(
            FeeResponse {
                withdraw: withdraw.to_owned(),
                register_token: register_token.to_owned(),
                deregister_token: deregister_token.to_owned(),
                deploy_native_token: deploy_native_token.to_owned(),
                withdraw_and_execute: withdraw_and_execute.to_owned(),
                quoted_at: quoted_at.to_owned(),
            },
        )
    }
}

/// The address to ask for a quote.
pub fn get_hydrogen_fee_url(fee_conf: &Fee, connection_id: &str, fee_denom: &str) -> (r: String)
    ensures
        r@ == hydrogen_fee_url(fee_conf.hydrogen_url@, connection_id@, fee_denom@),
{
    let mut url = fee_conf.hydrogen_url.clone();
    url.append("/bridge_fees?connection_id=");
    url.append(connection_id);
    url.append("&fee_denom=");
    url.append(fee_denom);
    url
}

/// Reads the quote out of the fee service's answer.
pub fn get_hydrogen_fee(status: u16, body: &str) -> (r: Result<FeeResponse, FeeError>)
    ensures
        match r {
            Ok(q) => quote_of_answer(status, body@) == Ok::<FeeResponseView, FeeError>(q@),
            Err(e) => quote_of_answer(status, body@) == Err::<FeeResponseView, FeeError>(e),
        },
{
    if status < 200 || status > 299 {
        return Err(FeeError::Status);
    }
    match Json::parse(body) {
        None => Err(FeeError::Body),
        Some(j) => match FeeResponse::from_json(&j) {
            Some(q) => Ok(q),
            None => Err(FeeError::Shape),
        },
    }
}

/// The action type of a row, if its wire value is one.
pub fn action_type_of(pending_action: &DbPendingActionEvent) -> (r: Option<PendingActionType>)
    ensures
        r == PendingActionType::of_code(pending_action.pending_action_type),
{
    match pending_action.get_pending_action_type() {
        Ok(t) => Some(t),
        Err(_) => None,
    }
}

/// Whether the fee of a pending action is enough under the configured
/// strategy. `quote` is the quote that was had for the action's connection
/// and denomination, or `None` if none was asked for or the asking failed.
pub fn has_enough_fees(
    fee_config: &Fee,
    pending_action: &DbPendingActionEvent,
    quote: Option<&FeeResponse>,
) -> (r: bool)
    ensures
        r == strategy_accepts(
            fee_config.relay_strategy,
            fee_config.fee_tolerance_bp,
            pending_action.relay_details.fee.amount,
            PendingActionType::of_code(pending_action.pending_action_type),
            opt_quote(quote),
        ),
{
    match fee_config.relay_strategy {
        RelayStrategy::Hydrogen => check_hydrogen_strategy(
            fee_config.fee_tolerance_bp,
            &pending_action.relay_details,
            action_type_of(pending_action),
            quote,
        ),
        RelayStrategy::All => check_all_strategy(),
        RelayStrategy::GreaterThan0 => check_greater_than_0_strategy(&pending_action.relay_details),
    }
}

} // verus!

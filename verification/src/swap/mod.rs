//! Swap API: the data types and the request paths of its endpoints.

pub mod error;
pub mod types;

use vstd::prelude::*;
use vstd::string::StringExecFns;
use crate::common::{
    build_query_string, flag_value, number_value, query_string, text_value, write_flag,
};
use crate::text::u64_to_string;
use self::types::{GetIntentParams, GetQuoteParams};

verus! {

/// Default base URL of the swap API
pub const DEFAULT_BASE_URL: &'static str = "https://swap-api.dflow.net";

/// Path of the endpoint that turns a quote into a transaction.
pub const SWAP_PATH: &'static str = "/swap";

/// Path of the endpoint that takes a signed intent.
pub const SUBMIT_INTENT_PATH: &'static str = "/submit-intent";

/// The query parameters of a quote request, in the order in which they are sent.
pub open spec fn quote_query(params: GetQuoteParams) -> Seq<(Seq<char>, Option<Seq<char>>)> {
    seq![
        ("inputMint"@, Some(params.input_mint@)),
        ("outputMint"@, Some(params.output_mint@)),
        ("amount"@, Some(params.amount@)),
        (
            "slippageBps"@,
            number_value(
                match params.slippage_bps {
                    Some(v) => Some(v as int),
                    None => None,
                },
            ),
        ),
        ("exactIn"@, flag_value(params.exact_in)),
        ("userPublicKey"@, params.user_public_key.deep_view()),
    ]
}

/// The query parameters of an intent request, in the order in which they are
/// sent.
pub open spec fn intent_query(params: GetIntentParams) -> Seq<(Seq<char>, Option<Seq<char>>)> {
    seq![
        ("inputMint"@, Some(params.input_mint@)),
        ("outputMint"@, Some(params.output_mint@)),
        ("amount"@, Some(params.amount@)),
        ("exactIn"@, flag_value(params.exact_in)),
        ("userPublicKey"@, params.user_public_key.deep_view()),
    ]
}

/// The path and query of a quote request.
pub fn quote_path(params: &GetQuoteParams) -> (path: String)
    ensures
        path@ == "/quote"@ + query_string(quote_query(*params)),
{
    let slippage = match params.slippage_bps {
        Some(v) => Some(u64_to_string(v as u64)),
        None => None,
    };
    let list: [(&str, Option<String>); 6] = [
        ("inputMint", Some(params.input_mint.clone())),
        ("outputMint", Some(params.output_mint.clone())),
        ("amount", Some(params.amount.clone())),
        ("slippageBps", slippage),
        ("exactIn", write_flag(params.exact_in)),
        ("userPublicKey", text_value(&params.user_public_key)),
    ];
    let pairs = list.as_slice();
    assert(pairs.deep_view() =~= quote_query(*params));
    let query = build_query_string(pairs);
    "/quote".to_owned().concat(query.as_str())
}

/// The path and query of an intent request.
pub fn intent_path(params: &GetIntentParams) -> (path: String)
    ensures
        path@ == "/intent"@ + query_string(intent_query(*params)),
{
    let list: [(&str, Option<String>); 5] = [
        ("inputMint", Some(params.input_mint.clone())),
        ("outputMint", Some(params.output_mint.clone())),
        ("amount", Some(params.amount.clone())),
        ("exactIn", write_flag(params.exact_in)),
        ("userPublicKey", text_value(&params.user_public_key)),
    ];
    let pairs = list.as_slice();
    assert(pairs.deep_view() =~= intent_query(*params));
    let query = build_query_string(pairs);
    "/intent".to_owned().concat(query.as_str())
}

} // verus!

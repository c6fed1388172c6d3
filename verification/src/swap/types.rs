//! Data types of the swap API.

use vstd::prelude::*;

verus! {

/// Token information in swap context
#[derive(Debug, Clone)]
pub struct TokenInfo {
    /// Token mint address
    pub mint: String,
    /// Token symbol
    pub symbol: Option<String>,
    /// Token decimals
    pub decimals: Option<u8>,
}

/// Query parameters for GET /quote endpoint
#[derive(Debug, Clone, Default)]
pub struct GetQuoteParams {
    /// Input token mint address (required)
    pub input_mint: String,
    /// Output token mint address (required)
    pub output_mint: String,
    /// Amount to swap in smallest unit (e.g., lamports) (required)
    pub amount: String,
    /// Slippage tolerance in basis points (e.g., 50 = 0.5%)
    pub slippage_bps: Option<u32>,
    /// Whether the amount is for input (true) or output (false)
    pub exact_in: Option<bool>,
    /// User's wallet public key (optional, for priority fees)
    pub user_public_key: Option<String>,
}

/// A step in the route plan
#[derive(Debug, Clone)]
pub struct RoutePlanStep {
    /// AMM/DEX key
    pub amm_key: Option<String>,
    /// Label of the DEX (e.g., "Raydium", "Orca")
    pub label: Option<String>,
    /// Input mint for this step
    pub input_mint: Option<String>,
    /// Output mint for this step
    pub output_mint: Option<String>,
    /// Percentage of total input for this step
    pub percent: Option<u32>,
}

/// Query parameters for GET /intent endpoint
#[derive(Debug, Clone, Default)]
pub struct GetIntentParams {
    /// Input token mint address (required)
    pub input_mint: String,
    /// Output token mint address (required)
    pub output_mint: String,
    /// Amount to swap in smallest unit (required)
    pub amount: String,
    /// Whether the amount is for input (true) or output (false)
    pub exact_in: Option<bool>,
    /// User's wallet public key (optional)
    pub user_public_key: Option<String>,
}

/// Request body for POST /submit-intent endpoint
#[derive(Debug, Clone, Default)]
pub struct SubmitIntentRequest {
    /// Intent ID from GET /intent response (required)
    pub intent_id: String,
    /// User's wallet public key (required)
    pub user_public_key: String,
    /// Signed message or transaction (required)
    pub signature: String,
    /// Input token mint address
    pub input_mint: Option<String>,
    /// Output token mint address
    pub output_mint: Option<String>,
    /// Input amount
    pub in_amount: Option<String>,
    /// Minimum output amount
    pub min_out_amount: Option<String>,
}

/// Response from POST /submit-intent endpoint
#[derive(Debug, Clone)]
pub struct SubmitIntentResponse {
    /// Submission status
    pub status: String,
    /// Intent ID
    pub intent_id: String,
    /// Transaction signature (if executed)
    pub transaction_signature: Option<String>,
    /// Expected output amount
    pub expected_out_amount: Option<String>,
    /// Estimated completion time in seconds
    pub estimated_completion_time: Option<u32>,
    /// Additional details or error information
    pub details: Option<String>,
}

/// Intent status for tracking submitted intents
#[derive(Debug, Clone, Copy, PartialEq, Eq, Structural)]
pub enum IntentStatus {
    Pending,
    Executing,
    Completed,
    Failed,
    Expired,
}

impl IntentStatus {
    /// The word that stands for the status on the wire.
    pub open spec fn name(self) -> Seq<char> {
        match self {
            IntentStatus::Pending => "pending"@,
            IntentStatus::Executing => "executing"@,
            IntentStatus::Completed => "completed"@,
            IntentStatus::Failed => "failed"@,
            IntentStatus::Expired => "expired"@,
        }
    }

    pub fn as_str(&self) -> (name: &'static str)
        ensures
            name@ == self.name(),
    {
        match self {
            IntentStatus::Pending => "pending",
            IntentStatus::Executing => "executing",
            IntentStatus::Completed => "completed",
            IntentStatus::Failed => "failed",
            IntentStatus::Expired => "expired",
        }
    }
}

} // verus!

//! Messages the controller takes and emits, and its errors.

use crate::abi::U256;
use vstd::std_specs::vec::vec_clone_trigger;
use vstd::prelude::*;

verus! {

broadcast use vstd::std_specs::vec::vec_clone_deep_view_proof;

/// What the controller is created with.
#[derive(Clone, Debug)]
pub struct InstantiateMsg {
    /// Seconds that must pass between two accepted withdraws of one bot.
    pub retry_delay: u64,
    pub job_id: String,
    pub creator: String,
    pub signers: Vec<String>,
}

/// The addresses of an order, as hex text.
#[derive(Clone, Debug)]
pub struct CreateOrderParamsAddresses {
    pub receiver: String,
    pub callback_contract: String,
    pub ui_fee_receiver: String,
    pub market: String,
    pub initial_collateral_token: String,
    pub swap_path: Vec<String>,
}

/// The numbers of an order.
#[derive(Clone, Copy, Debug)]
pub struct CreateOrderParamsNumbers {
    pub size_delta_usd: U256,
    pub initial_collateral_delta_amount: U256,
    pub trigger_price: U256,
    pub acceptable_price: U256,
    pub execution_fee: U256,
    pub callback_gas_limit: U256,
    pub min_output_amount: U256,
}

/// The order that a withdraw closes a position with.
#[derive(Clone, Debug)]
pub struct CreateOrderParams {
    pub addresses: CreateOrderParamsAddresses,
    pub numbers: CreateOrderParamsNumbers,
    pub order_type: U256,
    pub decrease_position_swap_type: U256,
    pub is_long: bool,
    pub should_unwrap_native_token: bool,
    /// Hex text of 32 bytes.
    pub referral_code: String,
}

/// The operations that change state or emit a message.
#[derive(Clone, Debug)]
pub enum ExecuteMsg {
    Withdraw {
        bot: String,
        amount0: U256,
        amount1: U256,
        order_params: CreateOrderParams,
        swap_min_amount: U256,
    },
    SetPaloma {},
    UpdateCompass { new_compass: String },
    UpdateBlueprint { new_blueprint: String },
}

/// Who created the job and who signs its messages.
#[derive(Clone, Debug)]
pub struct Metadata {
    pub creator: String,
    pub signers: Vec<String>,
}

impl Metadata {
    pub open spec fn view(&self) -> (Seq<char>, Seq<Seq<char>>) {
        (self.creator@, self.signers.deep_view())
    }

    /// A copy with the same creator and signers, in order.
    pub fn duplicate(&self) -> (r: Metadata)
        ensures
            r@ == self@,
    {
        let signers = self.signers.clone();
        proof {
            assert(vec_clone_trigger(self.signers, signers));
        }
        Metadata { creator: self.creator.clone(), signers }
    }
}

/// The message handed to the relay: the job to run, its call data and the
/// job's metadata.
#[derive(Clone, Debug)]
pub struct PalomaMsg {
    pub job_id: String,
    pub payload: Vec<u8>,
    pub metadata: Metadata,
}

/// Read-only requests.
#[derive(Clone, Debug)]
pub enum QueryMsg {
    GetJobId {},
}

#[derive(Clone, Debug)]
pub struct GetJobIdResponse {
    pub job_id: String,
}

/// An input that could not be parsed into its encoded form.
#[derive(Clone, Copy, Debug, PartialEq, Eq, Structural)]
pub enum InputField {
    Bot,
    Receiver,
    CallbackContract,
    UiFeeReceiver,
    Market,
    InitialCollateralToken,
    SwapPath { index: usize },
    ReferralCode,
    NewCompass,
    NewBlueprint,
}

#[derive(Clone, Copy, Debug, PartialEq, Eq, Structural)]
pub enum ContractError {
    /// The caller is not the owner.
    Unauthorized,
    /// The bot's cooldown has not elapsed yet.
    AllPending,
    /// A field is not the hex text of a value of its width.
    MalformedInput { field: InputField },
}

impl ContractError {
    /// A short description of the error.
    pub fn message(&self) -> (r: String)
        ensures
            *self == ContractError::Unauthorized ==> r@ == "Unauthorized"@,
            *self == ContractError::AllPending ==> r@ == "All pending"@,
            *self is MalformedInput ==> r@ == "Malformed input"@,
    {
        match self {
            ContractError::Unauthorized => String::from_str("Unauthorized"),
            ContractError::AllPending => String::from_str("All pending"),
            ContractError::MalformedInput { .. } => String::from_str("Malformed input"),
        }
    }
}

} // verus!

//! What holds of every request, stated over the outcomes that the operations
//! guarantee.

use crate::abi::{AbiValue, U256};
use crate::codec::{hex_value, is_address, malformed_field, withdraw_payload, withdraw_values};
use crate::contract::{emits, execute_outcome, withdraw_outcome, Response, Store};
use crate::hex::hex_denotes;
use crate::msg::{ContractError, CreateOrderParams, ExecuteMsg, InputField};
use crate::state::{admits, NANOS_PER_SECOND};
use vstd::prelude::*;

verus! {

/// A bot's first withdraw, from the owner and with fields that all parse, is
/// accepted: it emits exactly one message with the encoded call, and records
/// the request's time for the bot.
pub proof fn lemma_first_withdraw_admitted(
    pre: Store,
    post: Store,
    now: u64,
    sender: Seq<char>,
    bot: Seq<char>,
    amount0: U256,
    amount1: U256,
    o: CreateOrderParams,
    swap_min_amount: U256,
    r: Result<Response, ContractError>,
)
    requires
        withdraw_outcome(pre, post, now, sender, bot, amount0, amount1, o, swap_min_amount, r),
        sender == pre.state.owner@,
        !pre.withdraw_timestamp@.contains_key(bot),
        malformed_field(bot, o) is None,
    ensures
        emits(r, pre.state, withdraw_payload(bot, amount0, amount1, o, swap_min_amount)),
        post.withdraw_timestamp@ == pre.withdraw_timestamp@.insert(bot, now),
        post.withdraw_timestamp@[bot] == now,
{
}

/// For a bot last accepted at `last`, a withdraw from the owner no later than
/// `retry_delay` seconds after `last` is refused with `AllPending` and changes
/// nothing; a later one is accepted and records its own time for the bot.
pub proof fn lemma_cooldown(
    pre: Store,
    post: Store,
    now: u64,
    sender: Seq<char>,
    bot: Seq<char>,
    amount0: U256,
    amount1: U256,
    o: CreateOrderParams,
    swap_min_amount: U256,
    r: Result<Response, ContractError>,
    last: u64,
)
    requires
        withdraw_outcome(pre, post, now, sender, bot, amount0, amount1, o, swap_min_amount, r),
        sender == pre.state.owner@,
        pre.withdraw_timestamp@.contains_key(bot),
        pre.withdraw_timestamp@[bot] == last,
    ensures
        now <= last + pre.state.retry_delay * (NANOS_PER_SECOND as int) ==> post == pre && r
            == Err::<Response, ContractError>(ContractError::AllPending),
        now > last + pre.state.retry_delay * (NANOS_PER_SECOND as int) ==> r != Err::<
            Response,
            ContractError,
        >(ContractError::AllPending) && post.withdraw_timestamp@ == pre.withdraw_timestamp@.insert(
            bot,
            now,
        ),
{
}

/// A sender other than the owner gets `Unauthorized` from every operation,
/// and the store is left as it was.
pub proof fn lemma_only_owner(
    pre: Store,
    post: Store,
    now: u64,
    sender: Seq<char>,
    msg: ExecuteMsg,
    r: Result<Response, ContractError>,
)
    requires
        execute_outcome(pre, post, now, sender, msg, r),
        sender != pre.state.owner@,
    ensures
        r == Err::<Response, ContractError>(ContractError::Unauthorized),
        post == pre,
{
}

/// Every address of a withdraw parses.
pub open spec fn addresses_parse(bot: Seq<char>, o: CreateOrderParams) -> bool {
    let a = o.addresses;
    &&& is_address(bot)
    &&& is_address(a.receiver@)
    &&& is_address(a.callback_contract@)
    &&& is_address(a.ui_fee_receiver@)
    &&& is_address(a.market@)
    &&& is_address(a.initial_collateral_token@)
    &&& forall|i: int| 0 <= i < a.swap_path@.len() ==> is_address(#[trigger] a.swap_path@[i]@)
}

/// A referral code whose text denotes some number of bytes other than 32
/// makes an otherwise admitted withdraw fail with `MalformedInput` on that
/// field, and no message is emitted.
pub proof fn lemma_referral_code_width(
    pre: Store,
    post: Store,
    now: u64,
    sender: Seq<char>,
    bot: Seq<char>,
    amount0: U256,
    amount1: U256,
    o: CreateOrderParams,
    swap_min_amount: U256,
    r: Result<Response, ContractError>,
    n: nat,
)
    requires
        withdraw_outcome(pre, post, now, sender, bot, amount0, amount1, o, swap_min_amount, r),
        hex_denotes(o.referral_code@, n),
        n != 32,
    ensures
        r is Err,
        sender == pre.state.owner@ && admits(
            pre.withdraw_timestamp@,
            bot,
            now,
            pre.state.retry_delay,
        ) && addresses_parse(bot, o) ==> r == Err::<Response, ContractError>(
            ContractError::MalformedInput { field: InputField::ReferralCode },
        ),
{
    assert(!hex_denotes(o.referral_code@, 32));
}

/// The fields of a withdraw, as the bytes that go on the wire.
pub struct WithdrawFields {
    pub bot: Seq<u8>,
    pub amount0: Seq<u8>,
    pub amount1: Seq<u8>,
    pub addresses: Seq<Seq<u8>>,
    pub swap_path: Seq<Seq<u8>>,
    pub numbers: Seq<Seq<u8>>,
    pub order_type: Seq<u8>,
    pub decrease_position_swap_type: Seq<u8>,
    pub is_long: bool,
    pub should_unwrap_native_token: bool,
    pub referral_code: Seq<u8>,
    pub swap_min_amount: Seq<u8>,
}

/// The fields that a withdraw's inputs stand for.
pub open spec fn fields_of(
    bot: Seq<char>,
    amount0: U256,
    amount1: U256,
    o: CreateOrderParams,
    swap_min_amount: U256,
) -> WithdrawFields {
    let a = o.addresses;
    let n = o.numbers;
    WithdrawFields {
        bot: hex_value(bot, 20),
        amount0: amount0@,
        amount1: amount1@,
        addresses: seq![
            hex_value(a.receiver@, 20),
            hex_value(a.callback_contract@, 20),
            hex_value(a.ui_fee_receiver@, 20),
            hex_value(a.market@, 20),
            hex_value(a.initial_collateral_token@, 20),
        ],
        swap_path: a.swap_path@.map_values(|s: String| hex_value(s@, 20)),
        numbers: seq![
            n.size_delta_usd@,
            n.initial_collateral_delta_amount@,
            n.trigger_price@,
            n.acceptable_price@,
            n.execution_fee@,
            n.callback_gas_limit@,
            n.min_output_amount@,
        ],
        order_type: o.order_type@,
        decrease_position_swap_type: o.decrease_position_swap_type@,
        is_long: o.is_long,
        should_unwrap_native_token: o.should_unwrap_native_token,
        referral_code: hex_value(o.referral_code@, 32),
        swap_min_amount: swap_min_amount@,
    }
}

pub open spec fn word_of(v: AbiValue) -> Seq<u8> {
    match v {
        AbiValue::Address(b) => b,
        AbiValue::Uint(b) => b,
        AbiValue::FixedBytes(b) => b,
        _ => Seq::empty(),
    }
}

pub open spec fn items_of(v: AbiValue) -> Seq<AbiValue> {
    match v {
        AbiValue::Array(s) => s,
        AbiValue::Tuple(s) => s,
        _ => Seq::empty(),
    }
}

pub open spec fn flag_of(v: AbiValue) -> bool {
    v matches AbiValue::Bool(b) && b
}

/// Reads the fields back from the argument list of a `withdraw` call, by
/// position in its nested tuples.
pub open spec fn read_withdraw_args(args: Seq<AbiValue>) -> WithdrawFields {
    let order = items_of(args[3]);
    let addresses = items_of(order[0]);
    let numbers = items_of(order[1]);
    WithdrawFields {
        bot: word_of(args[0]),
        amount0: word_of(args[1]),
        amount1: word_of(args[2]),
        addresses: addresses.subrange(0, 5).map_values(|v: AbiValue| word_of(v)),
        swap_path: items_of(addresses[5]).map_values(|v: AbiValue| word_of(v)),
        numbers: numbers.map_values(|v: AbiValue| word_of(v)),
        order_type: word_of(order[2]),
        decrease_position_swap_type: word_of(order[3]),
        is_long: flag_of(order[4]),
        should_unwrap_native_token: flag_of(order[5]),
        referral_code: word_of(order[6]),
        swap_min_amount: word_of(args[4]),
    }
}

/// Reading the arguments of an encoded withdraw back by position gives the
/// fields it was made from.
pub proof fn lemma_withdraw_args_round_trip(
    bot: Seq<char>,
    amount0: U256,
    amount1: U256,
    o: CreateOrderParams,
    swap_min_amount: U256,
)
    ensures
        read_withdraw_args(withdraw_values(bot, amount0, amount1, o, swap_min_amount)) == fields_of(
            bot,
            amount0,
            amount1,
            o,
            swap_min_amount,
        ),
{
    let args = withdraw_values(bot, amount0, amount1, o, swap_min_amount);
    let got = read_withdraw_args(args);
    let want = fields_of(bot, amount0, amount1, o, swap_min_amount);
    let addresses = items_of(items_of(args[3])[0]);
    assert(got.addresses =~= want.addresses);
    assert(got.swap_path =~= want.swap_path);
    assert(got.numbers =~= want.numbers);
    assert(items_of(addresses[5]) == o.addresses.swap_path@.map_values(|s: String| crate::codec::addr(s@)));
}

} // verus!

//! The call data of each command: the selector of the target function, then
//! its arguments in the EVM call encoding.

use crate::abi::{
    abi_encoding_of, address_kind, address_token, array_kind, array_token, bool_kind, bool_token,
    encode, fixed_bytes_kind, fixed_bytes_token, kind_types, parse_address, parse_hash, selector,
    selector_of, token_values, tuple_kind, tuple_token, uint_kind, uint_token, AbiToken, AbiType,
    AbiValue, ParamKind, U256,
};
use crate::hex::{hex_byte, hex_denotes};
use crate::msg::{
    ContractError, CreateOrderParams, CreateOrderParamsAddresses, CreateOrderParamsNumbers,
    InputField,
};
use vstd::prelude::*;

verus! {

/// The `n` bytes that the hex text denotes.
pub open spec fn hex_value(s: Seq<char>, n: nat) -> Seq<u8> {
    Seq::new(n, |i: int| hex_byte(s, i))
}

/// The address that the hex text denotes.
pub open spec fn addr(s: Seq<char>) -> AbiValue {
    AbiValue::Address(hex_value(s, 20))
}

pub open spec fn is_address(s: Seq<char>) -> bool {
    hex_denotes(s, 20)
}

/// The position of the first entry of the swap path that is no address.
pub open spec fn first_bad_hop(path: Seq<String>) -> int {
    choose|i: int|
        0 <= i < path.len() && !is_address(path[i]@) && forall|j: int|
            0 <= j < i ==> is_address(#[trigger] path[j]@)
}

/// The first field, in encoding order, that does not parse; `None` when all do.
pub open spec fn malformed_field(bot: Seq<char>, o: CreateOrderParams) -> Option<InputField> {
    if !is_address(bot) {
        Some(InputField::Bot)
    } else {
        malformed_order_field(o)
    }
}

/// The first field of the order, in encoding order, that does not parse.
pub open spec fn malformed_order_field(o: CreateOrderParams) -> Option<InputField> {
    let a = o.addresses;
    if !is_address(a.receiver@) {
        Some(InputField::Receiver)
    } else if !is_address(a.callback_contract@) {
        Some(InputField::CallbackContract)
    } else if !is_address(a.ui_fee_receiver@) {
        Some(InputField::UiFeeReceiver)
    } else if !is_address(a.market@) {
        Some(InputField::Market)
    } else if !is_address(a.initial_collateral_token@) {
        Some(InputField::InitialCollateralToken)
    } else if exists|i: int| 0 <= i < a.swap_path@.len() && !is_address(#[trigger] a.swap_path@[i]@) {
        Some(InputField::SwapPath { index: first_bad_hop(a.swap_path@) as usize })
    } else if !hex_denotes(o.referral_code@, 32) {
        Some(InputField::ReferralCode)
    } else {
        None
    }
}

pub open spec fn path_values(path: Seq<String>) -> Seq<AbiValue> {
    path.map_values(|s: String| addr(s@))
}

pub open spec fn addresses_value(a: CreateOrderParamsAddresses) -> AbiValue {
    AbiValue::Tuple(
        seq![
            addr(a.receiver@),
            addr(a.callback_contract@),
            addr(a.ui_fee_receiver@),
            addr(a.market@),
            addr(a.initial_collateral_token@),
            AbiValue::Array(path_values(a.swap_path@)),
        ],
    )
}

pub open spec fn numbers_value(n: CreateOrderParamsNumbers) -> AbiValue {
    AbiValue::Tuple(
        seq![
            AbiValue::Uint(n.size_delta_usd@),
            AbiValue::Uint(n.initial_collateral_delta_amount@),
            AbiValue::Uint(n.trigger_price@),
            AbiValue::Uint(n.acceptable_price@),
            AbiValue::Uint(n.execution_fee@),
            AbiValue::Uint(n.callback_gas_limit@),
            AbiValue::Uint(n.min_output_amount@),
        ],
    )
}

/// The order as the nested tuple that the target function takes.
pub open spec fn order_value(o: CreateOrderParams) -> AbiValue {
    AbiValue::Tuple(
        seq![
            addresses_value(o.addresses),
            numbers_value(o.numbers),
            AbiValue::Uint(o.order_type@),
            AbiValue::Uint(o.decrease_position_swap_type@),
            AbiValue::Bool(o.is_long),
            AbiValue::Bool(o.should_unwrap_native_token),
            AbiValue::FixedBytes(hex_value(o.referral_code@, 32)),
        ],
    )
}

/// The arguments of `withdraw`, in order.
pub open spec fn withdraw_values(
    bot: Seq<char>,
    amount0: U256,
    amount1: U256,
    o: CreateOrderParams,
    swap_min_amount: U256,
) -> Seq<AbiValue> {
    seq![
        addr(bot),
        AbiValue::Uint(amount0@),
        AbiValue::Uint(amount1@),
        order_value(o),
        AbiValue::Uint(swap_min_amount@),
    ]
}

pub open spec fn uint256() -> AbiType {
    AbiType::Uint(256)
}

/// The parameter types of `withdraw`.
pub open spec fn withdraw_types() -> Seq<AbiType> {
    let addresses = AbiType::Tuple(
        seq![
            AbiType::Address,
            AbiType::Address,
            AbiType::Address,
            AbiType::Address,
            AbiType::Address,
            AbiType::Array(Box::new(AbiType::Address)),
        ],
    );
    let numbers = AbiType::Tuple(
        seq![uint256(), uint256(), uint256(), uint256(), uint256(), uint256(), uint256()],
    );
    let order = AbiType::Tuple(
        seq![
            addresses,
            numbers,
            uint256(),
            uint256(),
            AbiType::Bool,
            AbiType::Bool,
            AbiType::FixedBytes(32),
        ],
    );
    seq![AbiType::Address, uint256(), uint256(), order, uint256()]
}

/// Call data: the selector of `name(types)`, then the encoded arguments.
pub open spec fn call_data(name: Seq<char>, types: Seq<AbiType>, args: Seq<AbiValue>) -> Seq<u8> {
    selector_of(name, types) + abi_encoding_of(args)
}

pub open spec fn withdraw_payload(
    bot: Seq<char>,
    amount0: U256,
    amount1: U256,
    o: CreateOrderParams,
    swap_min_amount: U256,
) -> Seq<u8> {
    call_data("withdraw"@, withdraw_types(), withdraw_values(bot, amount0, amount1, o, swap_min_amount))
}

/// Call data of `set_paloma()`.
pub open spec fn set_paloma_payload() -> Seq<u8> {
    call_data("set_paloma"@, seq![], seq![])
}

/// Call data of `update_compass(address)`.
pub open spec fn update_compass_payload(new_compass: Seq<char>) -> Seq<u8> {
    call_data("update_compass"@, seq![AbiType::Address], seq![addr(new_compass)])
}

/// Call data of `update_blueprint(address)`.
pub open spec fn update_blueprint_payload(new_blueprint: Seq<char>) -> Seq<u8> {
    call_data("update_blueprint"@, seq![AbiType::Address], seq![addr(new_blueprint)])
}

fn address_arg(s: &String, field: InputField) -> (r: Result<AbiToken, ContractError>)
    ensures
        is_address(s@) ==> (r matches Ok(t) && t.model() == addr(s@)),
        !is_address(s@) ==> r == Err::<AbiToken, ContractError>(ContractError::MalformedInput { field }),
{
    match parse_address(s.as_str()) {
        Some(a) => {
            assert(a@ =~= hex_value(s@, 20));
            Ok(address_token(a))
        },
        None => Err(ContractError::MalformedInput { field }),
    }
}

fn swap_path_arg(path: &Vec<String>) -> (r: Result<AbiToken, ContractError>)
    ensures
        (forall|i: int| 0 <= i < path@.len() ==> is_address(#[trigger] path@[i]@)) ==> (r matches Ok(
            t,
        ) && t.model() == AbiValue::Array(path_values(path@))),
        (exists|i: int| 0 <= i < path@.len() && !is_address(#[trigger] path@[i]@)) ==> r
            == Err::<AbiToken, ContractError>(
            ContractError::MalformedInput {
                field: InputField::SwapPath { index: first_bad_hop(path@) as usize },
            },
        ),
{
    let mut items: Vec<AbiToken> = Vec::new();
    let mut i: usize = 0;
    while i < path.len()
        invariant
            i <= path@.len(),
            forall|j: int| 0 <= j < i ==> is_address(#[trigger] path@[j]@),
            token_values(items@) =~= path_values(path@.subrange(0, i as int)),
        decreases path@.len() - i,
    {
        match parse_address(path[i].as_str()) {
            Some(a) => {
                assert(a@ =~= hex_value(path@[i as int]@, 20));
                let ghost before = items@;
                items.push(address_token(a));
                let ghost done = path@.subrange(0, i as int);
                assert(path@.subrange(0, i + 1) =~= done.push(path@[i as int]));
                assert(token_values(items@) =~= token_values(before).push(addr(path@[i as int]@)));
                assert(path_values(done.push(path@[i as int])) =~= path_values(done).push(
                    addr(path@[i as int]@),
                ));
                i = i + 1;
            },
            None => {
                let ghost k = first_bad_hop(path@);
                assert(!is_address(path@[i as int]@));
                assert(k == i) by {
                    let w = i as int;
                    assert(0 <= w < path@.len() && !is_address(path@[w]@) && forall|j: int|
                        0 <= j < w ==> is_address(#[trigger] path@[j]@));
                    if k < w {
                        assert(is_address(path@[k]@));
                    } else if k > w {
                        assert(is_address(path@[w]@));
                    }
                }
                return Err(ContractError::MalformedInput { field: InputField::SwapPath { index: i } });
            },
        }
    }
    assert(path@.subrange(0, i as int) =~= path@);
    Ok(array_token(items))
}

fn numbers_arg(n: &CreateOrderParamsNumbers) -> (r: AbiToken)
    ensures
        r.model() == numbers_value(*n),
{
    let items = vec![
        uint_token(n.size_delta_usd),
        uint_token(n.initial_collateral_delta_amount),
        uint_token(n.trigger_price),
        uint_token(n.acceptable_price),
        uint_token(n.execution_fee),
        uint_token(n.callback_gas_limit),
        uint_token(n.min_output_amount),
    ];
    assert(token_values(items@) =~= numbers_value(*n)->Tuple_0);
    tuple_token(items)
}

fn order_arg(o: &CreateOrderParams) -> (r: Result<AbiToken, ContractError>)
    ensures
        malformed_order_field(*o) is None ==> (r matches Ok(t) && t.model() == order_value(*o)),
        malformed_order_field(*o) matches Some(f) ==> r
            == Err::<AbiToken, ContractError>(ContractError::MalformedInput { field: f }),
{
    let a = &o.addresses;
    let receiver = address_arg(&a.receiver, InputField::Receiver)?;
    let callback = address_arg(&a.callback_contract, InputField::CallbackContract)?;
    let ui_fee = address_arg(&a.ui_fee_receiver, InputField::UiFeeReceiver)?;
    let market = address_arg(&a.market, InputField::Market)?;
    let collateral = address_arg(&a.initial_collateral_token, InputField::InitialCollateralToken)?;
    let path = match swap_path_arg(&a.swap_path) {
        Ok(t) => t,
        Err(e) => {
            return Err(e);
        },
    };
    let referral = match parse_hash(o.referral_code.as_str()) {
        Some(h) => {
            assert(h@ =~= hex_value(o.referral_code@, 32));
            fixed_bytes_token(h)
        },
        None => {
            return Err(ContractError::MalformedInput { field: InputField::ReferralCode });
        },
    };
    let addresses = vec![receiver, callback, ui_fee, market, collateral, path];
    assert(token_values(addresses@) =~= addresses_value(*a)->Tuple_0);
    let items = vec![
        tuple_token(addresses),
        numbers_arg(&o.numbers),
        uint_token(o.order_type),
        uint_token(o.decrease_position_swap_type),
        bool_token(o.is_long),
        bool_token(o.should_unwrap_native_token),
        referral,
    ];
    assert(token_values(items@) =~= order_value(*o)->Tuple_0);
    Ok(tuple_token(items))
}

fn withdraw_params() -> (r: Vec<ParamKind>)
    ensures
        kind_types(r@) == withdraw_types(),
{
    let addresses = vec![
        address_kind(),
        address_kind(),
        address_kind(),
        address_kind(),
        address_kind(),
        array_kind(address_kind()),
    ];
    assert(kind_types(addresses@) =~= withdraw_types()[3]->Tuple_0[0]->Tuple_0);
    let numbers = vec![
        uint_kind(256),
        uint_kind(256),
        uint_kind(256),
        uint_kind(256),
        uint_kind(256),
        uint_kind(256),
        uint_kind(256),
    ];
    assert(kind_types(numbers@) =~= withdraw_types()[3]->Tuple_0[1]->Tuple_0);
    let order = vec![
        tuple_kind(addresses),
        tuple_kind(numbers),
        uint_kind(256),
        uint_kind(256),
        bool_kind(),
        bool_kind(),
        fixed_bytes_kind(32),
    ];
    assert(kind_types(order@) =~= withdraw_types()[3]->Tuple_0);
    let params = vec![address_kind(), uint_kind(256), uint_kind(256), tuple_kind(order), uint_kind(256)];
    assert(kind_types(params@) =~= withdraw_types());
    params
}

/// The selector followed by the encoded arguments.
fn join(sel: [u8; 4], body: Vec<u8>) -> (r: Vec<u8>)
    ensures
        r@ == sel@ + body@,
{
    let mut out: Vec<u8> = Vec::new();
    let mut i: usize = 0;
    while i < 4
        invariant
            i <= 4,
            out@ == sel@.subrange(0, i as int),
        decreases 4 - i,
    {
        out.push(sel[i]);
        assert(sel@.subrange(0, i + 1) =~= sel@.subrange(0, i as int).push(sel@[i as int]));
        i = i + 1;
    }
    assert(sel@.subrange(0, 4) =~= sel@);
    let mut rest = body;
    out.append(&mut rest);
    out
}

/// The call data of `withdraw(bot, amount0, amount1, order, swap_min_amount)`,
/// or the first field that does not parse.
pub fn encode_withdraw(
    bot: &String,
    amount0: U256,
    amount1: U256,
    order: &CreateOrderParams,
    swap_min_amount: U256,
) -> (r: Result<Vec<u8>, ContractError>)
    ensures
        malformed_field(bot@, *order) is None ==> (r matches Ok(p) && p@ == withdraw_payload(
            bot@,
            amount0,
            amount1,
            *order,
            swap_min_amount,
        )),
        malformed_field(bot@, *order) matches Some(f) ==> r == Err::<Vec<u8>, ContractError>(
            ContractError::MalformedInput { field: f },
        ),
{
    let bot_arg = address_arg(bot, InputField::Bot)?;
    let order_tuple = order_arg(order)?;
    let args = vec![
        bot_arg,
        uint_token(amount0),
        uint_token(amount1),
        order_tuple,
        uint_token(swap_min_amount),
    ];
    assert(token_values(args@) =~= withdraw_values(bot@, amount0, amount1, *order, swap_min_amount));
    let sel = selector("withdraw", withdraw_params());
    Ok(join(sel, encode(args)))
}

/// The call data of `set_paloma()`.
pub fn encode_set_paloma() -> (r: Vec<u8>)
    ensures
        r@ == set_paloma_payload(),
        r@.len() == 4,
{
    let params: Vec<ParamKind> = Vec::new();
    let args: Vec<AbiToken> = Vec::new();
    assert(kind_types(params@) =~= seq![]);
    assert(token_values(args@) =~= seq![]);
    let sel = selector("set_paloma", params);
    join(sel, encode(args))
}

/// The call data of `update_compass(new_compass)`, or `MalformedInput` where
/// `new_compass` is no address.
pub fn encode_update_compass(new_compass: &String) -> (r: Result<Vec<u8>, ContractError>)
    ensures
        is_address(new_compass@) ==> (r matches Ok(p) && p@ == update_compass_payload(new_compass@)),
        !is_address(new_compass@) ==> r == Err::<Vec<u8>, ContractError>(
            ContractError::MalformedInput { field: InputField::NewCompass },
        ),
{
    let arg = address_arg(new_compass, InputField::NewCompass)?;
    let params = vec![address_kind()];
    let args = vec![arg];
    assert(kind_types(params@) =~= seq![AbiType::Address]);
    assert(token_values(args@) =~= seq![addr(new_compass@)]);
    let sel = selector("update_compass", params);
    Ok(join(sel, encode(args)))
}

/// The call data of `update_blueprint(new_blueprint)`, or `MalformedInput`
/// where `new_blueprint` is no address.
pub fn encode_update_blueprint(new_blueprint: &String) -> (r: Result<Vec<u8>, ContractError>)
    ensures
        is_address(new_blueprint@) ==> (r matches Ok(p) && p@ == update_blueprint_payload(
            new_blueprint@,
        )),
        !is_address(new_blueprint@) ==> r == Err::<Vec<u8>, ContractError>(
            ContractError::MalformedInput { field: InputField::NewBlueprint },
        ),
{
    let arg = address_arg(new_blueprint, InputField::NewBlueprint)?;
    let params = vec![address_kind()];
    let args = vec![arg];
    assert(kind_types(params@) =~= seq![AbiType::Address]);
    assert(token_values(args@) =~= seq![addr(new_blueprint@)]);
    let sel = selector("update_blueprint", params);
    Ok(join(sel, encode(args)))
}

} // verus!

use short_funding_bot_cw::abi::U256;
use short_funding_bot_cw::codec::{
    encode_set_paloma, encode_update_blueprint, encode_update_compass, encode_withdraw,
};
use short_funding_bot_cw::contract::{
    execute, instantiate, query, set_paloma, update_blueprint, update_compass, withdraw, Response,
    Store,
};
use short_funding_bot_cw::msg::{
    ContractError, CreateOrderParams, CreateOrderParamsAddresses, CreateOrderParamsNumbers,
    ExecuteMsg, InputField, InstantiateMsg, QueryMsg,
};

use ethabi::ParamType as P;
use ethabi::Token as T;

const SECOND: u64 = 1_000_000_000;

fn num(v: u64) -> U256 {
    let mut be = [0u8; 32];
    be[24..].copy_from_slice(&v.to_be_bytes());
    U256::from_be_bytes(be)
}

fn address(fill: char) -> String {
    let mut s = String::from("0x");
    for _ in 0..40 {
        s.push(fill);
    }
    s
}

fn referral() -> String {
    format!("0x{}", "ab".repeat(32))
}

fn order(path: Vec<String>, referral_code: String) -> CreateOrderParams {
    CreateOrderParams {
        addresses: CreateOrderParamsAddresses {
            receiver: address('1'),
            callback_contract: address('2'),
            ui_fee_receiver: address('3'),
            market: address('4'),
            initial_collateral_token: address('5'),
            swap_path: path,
        },
        numbers: CreateOrderParamsNumbers {
            size_delta_usd: num(10),
            initial_collateral_delta_amount: num(11),
            trigger_price: num(12),
            acceptable_price: num(13),
            execution_fee: num(14),
            callback_gas_limit: num(15),
            min_output_amount: num(16),
        },
        order_type: num(4),
        decrease_position_swap_type: num(0),
        is_long: true,
        should_unwrap_native_token: false,
        referral_code,
    }
}

fn store(owner: &str, retry_delay: u64) -> Store {
    let msg = InstantiateMsg {
        retry_delay,
        job_id: "job-1".to_string(),
        creator: "creator".to_string(),
        signers: vec!["s1".to_string(), "s2".to_string()],
    };
    instantiate(&owner.to_string(), msg).0
}

fn withdraw_msg(bot: &str) -> ExecuteMsg {
    ExecuteMsg::Withdraw {
        bot: bot.to_string(),
        amount0: num(1),
        amount1: num(2),
        order_params: order(vec![address('a'), address('b')], referral()),
        swap_min_amount: num(3),
    }
}

fn bot_address() -> String {
    address('9')
}

fn addr(s: &str) -> ethabi::Address {
    s.parse().unwrap()
}

fn word(v: u64) -> ethabi::Token {
    ethabi::Token::Uint(ethabi::Uint::from(v))
}

fn withdraw_param_types() -> Vec<ethabi::ParamType> {
    let u = || P::Uint(256);
    vec![
        P::Address,
        u(),
        u(),
        P::Tuple(vec![
            P::Tuple(vec![
                P::Address,
                P::Address,
                P::Address,
                P::Address,
                P::Address,
                P::Array(Box::new(P::Address)),
            ]),
            P::Tuple(vec![u(), u(), u(), u(), u(), u(), u()]),
            u(),
            u(),
            P::Bool,
            P::Bool,
            P::FixedBytes(32),
        ]),
        u(),
    ]
}

fn expected_withdraw_tokens(path: &[String]) -> Vec<ethabi::Token> {
    vec![
        T::Address(addr(&bot_address())),
        word(1),
        word(2),
        T::Tuple(vec![
            T::Tuple(vec![
                T::Address(addr(&address('1'))),
                T::Address(addr(&address('2'))),
                T::Address(addr(&address('3'))),
                T::Address(addr(&address('4'))),
                T::Address(addr(&address('5'))),
                T::Array(path.iter().map(|p| T::Address(addr(p))).collect()),
            ]),
            T::Tuple((10..17).map(word).collect()),
            word(4),
            word(0),
            T::Bool(true),
            T::Bool(false),
            T::FixedBytes(vec![0xab; 32]),
        ]),
        word(3),
    ]
}

fn expected_withdraw_payload(path: &[String]) -> Vec<u8> {
    let mut out = ethabi::short_signature("withdraw", &withdraw_param_types()).to_vec();
    out.extend(ethabi::encode(&expected_withdraw_tokens(path)));
    out
}

fn single_payload(r: &Result<Response, ContractError>) -> Vec<u8> {
    let resp = r.as_ref().unwrap();
    assert_eq!(resp.messages.len(), 1);
    assert_eq!(resp.messages[0].job_id, "job-1");
    assert_eq!(resp.messages[0].metadata.creator, "creator");
    assert_eq!(resp.messages[0].metadata.signers, vec!["s1".to_string(), "s2".to_string()]);
    resp.messages[0].payload.clone()
}

#[test]
fn cooldown_scenario() {
    let mut s = store("A", 60);
    let a = "A".to_string();
    let bot1 = bot_address();
    let r1 = execute(&mut s, 0, &a, withdraw_msg(&bot1));
    single_payload(&r1);
    assert_eq!(s.withdraw_timestamp.get(&bot1), Some(0));

    let r2 = execute(&mut s, 30 * SECOND, &a, withdraw_msg(&bot1));
    assert_eq!(r2.err(), Some(ContractError::AllPending));
    assert_eq!(s.withdraw_timestamp.get(&bot1), Some(0));

    let r3 = execute(&mut s, 61 * SECOND, &a, withdraw_msg(&bot1));
    single_payload(&r3);
    assert_eq!(s.withdraw_timestamp.get(&bot1), Some(61 * SECOND));
}

#[test]
fn cooldown_boundary_is_refused() {
    let mut s = store("A", 60);
    let a = "A".to_string();
    let bot = bot_address();
    single_payload(&execute(&mut s, 5 * SECOND, &a, withdraw_msg(&bot)));
    let r = execute(&mut s, 65 * SECOND, &a, withdraw_msg(&bot));
    assert_eq!(r.err(), Some(ContractError::AllPending));
    let r = execute(&mut s, 65 * SECOND + 1, &a, withdraw_msg(&bot));
    single_payload(&r);
    assert_eq!(s.withdraw_timestamp.get(&bot), Some(65 * SECOND + 1));
}

#[test]
fn bots_have_separate_cooldowns() {
    let mut s = store("A", 60);
    let a = "A".to_string();
    single_payload(&execute(&mut s, 0, &a, withdraw_msg(&address('7'))));
    single_payload(&execute(&mut s, SECOND, &a, withdraw_msg(&address('8'))));
    assert_eq!(s.withdraw_timestamp.get(&address('7')), Some(0));
    assert_eq!(s.withdraw_timestamp.get(&address('8')), Some(SECOND));
}

#[test]
fn non_owner_is_unauthorized() {
    let mut s = store("A", 60);
    let b = "B".to_string();
    let msgs = vec![
        withdraw_msg(&bot_address()),
        ExecuteMsg::SetPaloma {},
        ExecuteMsg::UpdateCompass { new_compass: address('c') },
        ExecuteMsg::UpdateBlueprint { new_blueprint: address('d') },
    ];
    for m in msgs {
        let r = execute(&mut s, 0, &b, m);
        assert_eq!(r.err(), Some(ContractError::Unauthorized));
        assert_eq!(s.withdraw_timestamp.get(&bot_address()), None);
        assert_eq!(s.state.owner, "A");
        assert_eq!(s.state.job_id, "job-1");
        assert_eq!(s.state.retry_delay, 60);
    }
}

#[test]
fn withdraw_payload_matches_reference_encoding() {
    let path = vec![address('a'), address('b')];
    let p = encode_withdraw(&bot_address(), num(1), num(2), &order(path.clone(), referral()), num(3))
        .unwrap();
    assert_eq!(p, expected_withdraw_payload(&path));
    assert_eq!(p.len(), 4 + 32 * (25 + 2));
}

#[test]
fn withdraw_payload_round_trips() {
    let path = vec![address('a'), address('b'), address('C')];
    let mut s = store("A", 60);
    let r = withdraw(
        &mut s,
        0,
        &"A".to_string(),
        bot_address(),
        num(1),
        num(2),
        order(path.clone(), referral()),
        num(3),
    );
    let p = single_payload(&r);
    let types = withdraw_param_types();
    assert_eq!(p[..4], ethabi::short_signature("withdraw", &types));
    let decoded = ethabi::decode(&types, &p[4..]).unwrap();
    assert_eq!(decoded, expected_withdraw_tokens(&path));
}

#[test]
fn withdraw_with_empty_swap_path() {
    let p = encode_withdraw(&bot_address(), num(1), num(2), &order(vec![], referral()), num(3))
        .unwrap();
    assert_eq!(p, expected_withdraw_payload(&[]));
    assert_eq!(p.len(), 4 + 32 * 25);
}

#[test]
fn numbers_are_big_endian_words() {
    let mut be = [0u8; 32];
    be[0] = 0xff;
    be[31] = 0x01;
    let big = U256::from_be_bytes(be);
    let p = encode_withdraw(&bot_address(), big, num(2), &order(vec![], referral()), num(3)).unwrap();
    assert_eq!(p[4 + 32..4 + 64], be);
    assert_eq!(big.to_be_bytes(), be);
}

#[test]
fn addresses_accept_prefix_case_and_spaces() {
    let plain = "1111111111111111111111111111111111111111".to_string();
    let spaced = "0x 1111111111 1111111111 1111111111 1111111111".to_string();
    let a = encode_update_compass(&format!("0x{plain}")).unwrap();
    assert_eq!(encode_update_compass(&plain).unwrap(), a);
    assert_eq!(encode_update_compass(&spaced).unwrap(), a);
    let upper = encode_update_compass(&address('A')).unwrap();
    assert_eq!(encode_update_compass(&address('a')).unwrap(), upper);
}

#[test]
fn referral_code_of_wrong_width_is_malformed() {
    let mut s = store("A", 60);
    let short = format!("0x{}", "ab".repeat(31));
    let r = withdraw(
        &mut s,
        0,
        &"A".to_string(),
        bot_address(),
        num(1),
        num(2),
        order(vec![], short),
        num(3),
    );
    assert_eq!(
        r.err(),
        Some(ContractError::MalformedInput { field: InputField::ReferralCode })
    );
    let long = format!("0x{}", "ab".repeat(33));
    let r = encode_withdraw(&bot_address(), num(1), num(2), &order(vec![], long), num(3));
    assert_eq!(
        r.err(),
        Some(ContractError::MalformedInput { field: InputField::ReferralCode })
    );
}

#[test]
fn malformed_fields_are_named() {
    let r = encode_withdraw(&"0x12".to_string(), num(1), num(2), &order(vec![], referral()), num(3));
    assert_eq!(r.err(), Some(ContractError::MalformedInput { field: InputField::Bot }));

    let mut o = order(vec![address('a'), "zz".to_string(), "0x1".to_string()], referral());
    let r = encode_withdraw(&bot_address(), num(1), num(2), &o, num(3));
    assert_eq!(
        r.err(),
        Some(ContractError::MalformedInput { field: InputField::SwapPath { index: 1 } })
    );

    o.addresses.market = "0xg000000000000000000000000000000000000000".to_string();
    let r = encode_withdraw(&bot_address(), num(1), num(2), &o, num(3));
    assert_eq!(r.err(), Some(ContractError::MalformedInput { field: InputField::Market }));

    assert_eq!(
        encode_update_compass(&"nope".to_string()).err(),
        Some(ContractError::MalformedInput { field: InputField::NewCompass })
    );
    assert_eq!(
        encode_update_blueprint(&address('1')[..20].to_string()).err(),
        Some(ContractError::MalformedInput { field: InputField::NewBlueprint })
    );
}

#[test]
fn failed_encoding_still_records_the_bot() {
    let mut s = store("A", 60);
    let bot = bot_address();
    let r = withdraw(&mut s, 7, &"A".to_string(), bot.clone(), num(1), num(2), order(vec![], "0x".to_string()), num(3));
    assert_eq!(r.err(), Some(ContractError::MalformedInput { field: InputField::ReferralCode }));
    assert_eq!(s.withdraw_timestamp.get(&bot), Some(7));
}

#[test]
fn admin_commands_encode_their_calls() {
    let s = store("A", 60);
    let a = "A".to_string();
    let p = single_payload(&set_paloma(&s, &a));
    assert_eq!(p, ethabi::short_signature("set_paloma", &[]).to_vec());
    assert_eq!(p, encode_set_paloma());

    let c = address('c');
    let p = single_payload(&update_compass(&s, &a, c.clone()));
    let mut want = ethabi::short_signature("update_compass", &[ethabi::ParamType::Address]).to_vec();
    want.extend(ethabi::encode(&[ethabi::Token::Address(addr(&c))]));
    assert_eq!(p, want);
    assert_eq!(p.len(), 36);
    assert_eq!(p[16..], [0xcc; 20]);

    let d = address('d');
    let p = single_payload(&update_blueprint(&s, &a, d.clone()));
    let mut want =
        ethabi::short_signature("update_blueprint", &[ethabi::ParamType::Address]).to_vec();
    want.extend(ethabi::encode(&[ethabi::Token::Address(addr(&d))]));
    assert_eq!(p, want);
    assert_ne!(p[..4], encode_update_compass(&d).unwrap()[..4]);
}

#[test]
fn admin_commands_need_no_cooldown() {
    let mut s = store("A", 60);
    let a = "A".to_string();
    for _ in 0..2 {
        let r = execute(&mut s, 0, &a, ExecuteMsg::SetPaloma {});
        single_payload(&r);
    }
}

#[test]
fn query_returns_job_id() {
    let s = store("A", 60);
    assert_eq!(query(&s, QueryMsg::GetJobId {}).job_id, "job-1");
}

#[test]
fn instantiate_sets_owner_and_attributes() {
    let msg = InstantiateMsg {
        retry_delay: 5,
        job_id: "j".to_string(),
        creator: "c".to_string(),
        signers: vec![],
    };
    let (s, resp) = instantiate(&"owner".to_string(), msg);
    assert_eq!(s.state.owner, "owner");
    assert_eq!(s.state.retry_delay, 5);
    assert!(resp.messages.is_empty());
    assert_eq!(resp.attributes[0], ("method".to_string(), "instantiate".to_string()));
}

#[test]
fn error_messages() {
    assert_eq!(ContractError::Unauthorized.message(), "Unauthorized");
    assert_eq!(ContractError::AllPending.message(), "All pending");
}

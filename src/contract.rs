//! The operations of the controller: the owner check, the per-bot cooldown,
//! and the message that carries the encoded call.

use crate::abi::U256;
use crate::codec::{
    encode_set_paloma, encode_update_blueprint, encode_update_compass, encode_withdraw, is_address,
    malformed_field, set_paloma_payload, update_blueprint_payload, update_compass_payload,
    withdraw_payload,
};
use crate::msg::{
    ContractError, CreateOrderParams, ExecuteMsg, GetJobIdResponse, InputField, InstantiateMsg,
    Metadata, PalomaMsg, QueryMsg,
};
use crate::state::{admits, State, WithdrawTimestamps};
use vstd::prelude::*;

verus! {

/// Everything the controller keeps between requests.
#[derive(Clone, Debug)]
pub struct Store {
    pub state: State,
    pub withdraw_timestamp: WithdrawTimestamps,
}

impl Store {
    pub open spec fn wf(&self) -> bool {
        self.withdraw_timestamp.wf()
    }
}

/// What a request hands back: the messages to emit and the attributes to log.
#[derive(Clone, Debug)]
pub struct Response {
    pub messages: Vec<PalomaMsg>,
    pub attributes: Vec<(String, String)>,
}

/// The message carries the configured job and metadata, and `payload`.
pub open spec fn is_envelope(m: PalomaMsg, s: State, payload: Seq<u8>) -> bool {
    &&& m.job_id@ == s.job_id@
    &&& m.payload@ == payload
    &&& m.metadata@ == s.metadata@
}

/// The response emits exactly one message, the envelope of `payload`.
pub open spec fn emits(r: Result<Response, ContractError>, s: State, payload: Seq<u8>) -> bool {
    r matches Ok(resp) && resp.messages@.len() == 1 && is_envelope(resp.messages@[0], s, payload)
}

/// The outcome of a withdraw: an owner check, then the cooldown, then the
/// encoding. An accepted withdraw records `now` for the bot even where the
/// encoding then fails; a host that reverts the writes of a failed request
/// undoes that record.
pub open spec fn withdraw_outcome(
    pre: Store,
    post: Store,
    now: u64,
    sender: Seq<char>,
    bot: Seq<char>,
    amount0: U256,
    amount1: U256,
    o: CreateOrderParams,
    swap_min_amount: U256,
    r: Result<Response, ContractError>,
) -> bool {
    let records = pre.withdraw_timestamp@;
    if sender != pre.state.owner@ {
        post == pre && r == Err::<Response, ContractError>(ContractError::Unauthorized)
    } else if !admits(records, bot, now, pre.state.retry_delay) {
        post == pre && r == Err::<Response, ContractError>(ContractError::AllPending)
    } else {
        &&& post.state == pre.state
        &&& post.withdraw_timestamp@ == records.insert(bot, now)
        &&& match malformed_field(bot, o) {
            Some(f) => r == Err::<Response, ContractError>(ContractError::MalformedInput { field: f }),
            None => emits(r, pre.state, withdraw_payload(bot, amount0, amount1, o, swap_min_amount)),
        }
    }
}

/// The outcome of an administrative command whose call data is `call`: an
/// owner check, then one message; nothing is stored.
pub open spec fn admin_outcome(
    s: State,
    sender: Seq<char>,
    call: Result<Seq<u8>, ContractError>,
    r: Result<Response, ContractError>,
) -> bool {
    if sender != s.owner@ {
        r == Err::<Response, ContractError>(ContractError::Unauthorized)
    } else {
        match call {
            Err(e) => r == Err::<Response, ContractError>(e),
            Ok(p) => emits(r, s, p),
        }
    }
}

pub open spec fn update_compass_call(new_compass: Seq<char>) -> Result<Seq<u8>, ContractError> {
    if is_address(new_compass) {
        Ok(update_compass_payload(new_compass))
    } else {
        Err(ContractError::MalformedInput { field: InputField::NewCompass })
    }
}

pub open spec fn update_blueprint_call(new_blueprint: Seq<char>) -> Result<Seq<u8>, ContractError> {
    if is_address(new_blueprint) {
        Ok(update_blueprint_payload(new_blueprint))
    } else {
        Err(ContractError::MalformedInput { field: InputField::NewBlueprint })
    }
}

/// The outcome of one operation: its own outcome, and for an administrative
/// command, a store left as it was.
pub open spec fn execute_outcome(
    pre: Store,
    post: Store,
    now: u64,
    sender: Seq<char>,
    msg: ExecuteMsg,
    r: Result<Response, ContractError>,
) -> bool {
    match msg {
        ExecuteMsg::Withdraw { bot, amount0, amount1, order_params, swap_min_amount } =>
            withdraw_outcome(
            pre,
            post,
            now,
            sender,
            bot@,
            amount0,
            amount1,
            order_params,
            swap_min_amount,
            r,
        ),
        ExecuteMsg::SetPaloma {  } => post == pre && admin_outcome(
            pre.state,
            sender,
            Ok(set_paloma_payload()),
            r,
        ),
        ExecuteMsg::UpdateCompass { new_compass } => post == pre
            && admin_outcome(pre.state, sender, update_compass_call(new_compass@), r),
        ExecuteMsg::UpdateBlueprint { new_blueprint } => post == pre
            && admin_outcome(pre.state, sender, update_blueprint_call(new_blueprint@), r),
    }
}

fn attribute(key: &str, value: String) -> (r: (String, String))
    ensures
        r.0@ == key@,
        r.1@ == value@,
{
    (String::from_str(key), value)
}

fn envelope(s: &State, payload: Vec<u8>, action: &str) -> (r: Response)
    ensures
        r.messages@.len() == 1,
        is_envelope(r.messages@[0], *s, payload@),
{
    let msg = PalomaMsg { job_id: s.job_id.clone(), payload, metadata: s.metadata.duplicate() };
    Response { messages: vec![msg], attributes: vec![attribute("action", String::from_str(action))] }
}

/// Creates the controller: the sender becomes its owner, and no bot has a
/// record yet.
pub fn instantiate(sender: &String, msg: InstantiateMsg) -> (r: (Store, Response))
    ensures
        r.0.wf(),
        r.0.state.retry_delay == msg.retry_delay,
        r.0.state.job_id@ == msg.job_id@,
        r.0.state.owner@ == sender@,
        r.0.state.metadata@ == (msg.creator@, msg.signers.deep_view()),
        r.0.withdraw_timestamp@ == Map::<Seq<char>, u64>::empty(),
        r.1.messages@.len() == 0,
        r.1.attributes@.len() == 3,
        r.1.attributes@[0].0@ == "method"@,
        r.1.attributes@[0].1@ == "instantiate"@,
        r.1.attributes@[1].0@ == "owner"@,
        r.1.attributes@[1].1@ == sender@,
        r.1.attributes@[2].0@ == "job_id"@,
        r.1.attributes@[2].1@ == msg.job_id@,
{
    let job_id = msg.job_id.clone();
    let state = State {
        retry_delay: msg.retry_delay,
        job_id: msg.job_id,
        owner: sender.clone(),
        metadata: Metadata { creator: msg.creator, signers: msg.signers },
    };
    let store = Store { state, withdraw_timestamp: WithdrawTimestamps::new() };
    let attributes = vec![
        attribute("method", String::from_str("instantiate")),
        attribute("owner", sender.clone()),
        attribute("job_id", job_id),
    ];
    (store, Response { messages: Vec::new(), attributes })
}

/// Handles one operation at time `now` (nanoseconds) from `sender`.
pub fn execute(store: &mut Store, now: u64, sender: &String, msg: ExecuteMsg) -> (r: Result<
    Response,
    ContractError,
>)
    requires
        old(store).wf(),
    ensures
        final(store).wf(),
        execute_outcome(*old(store), *final(store), now, sender@, msg, r),
{
    match msg {
        ExecuteMsg::Withdraw { bot, amount0, amount1, order_params, swap_min_amount } => withdraw(
            store,
            now,
            sender,
            bot,
            amount0,
            amount1,
            order_params,
            swap_min_amount,
        ),
        ExecuteMsg::SetPaloma {  } => set_paloma(store, sender),
        ExecuteMsg::UpdateCompass { new_compass } => update_compass(store, sender, new_compass),
        ExecuteMsg::UpdateBlueprint { new_blueprint } => update_blueprint(store, sender, new_blueprint),
    }
}

/// Emits the call `withdraw` for `bot` where the sender is the owner and the
/// bot's cooldown has elapsed; records `now` for the bot when it has.
pub fn withdraw(
    store: &mut Store,
    now: u64,
    sender: &String,
    bot: String,
    amount0: U256,
    amount1: U256,
    order_params: CreateOrderParams,
    swap_min_amount: U256,
) -> (r: Result<Response, ContractError>)
    requires
        old(store).wf(),
    ensures
        final(store).wf(),
        withdraw_outcome(
            *old(store),
            *final(store),
            now,
            sender@,
            bot@,
            amount0,
            amount1,
            order_params,
            swap_min_amount,
            r,
        ),
{
    if store.state.owner != *sender {
        return Err(ContractError::Unauthorized);
    }
    let retry_delay = store.state.retry_delay;
    if !store.withdraw_timestamp.evaluate(&bot, now, retry_delay) {
        return Err(ContractError::AllPending);
    }
    let payload = encode_withdraw(&bot, amount0, amount1, &order_params, swap_min_amount)?;
    Ok(envelope(&store.state, payload, "create_next_bot"))
}

/// Emits the call `set_paloma()` where the sender is the owner.
pub fn set_paloma(store: &Store, sender: &String) -> (r: Result<Response, ContractError>)
    ensures
        admin_outcome(store.state, sender@, Ok(set_paloma_payload()), r),
{
    if store.state.owner != *sender {
        return Err(ContractError::Unauthorized);
    }
    Ok(envelope(&store.state, encode_set_paloma(), "set_paloma"))
}

/// Emits the call `update_compass(new_compass)` where the sender is the owner.
pub fn update_compass(store: &Store, sender: &String, new_compass: String) -> (r: Result<
    Response,
    ContractError,
>)
    ensures
        admin_outcome(store.state, sender@, update_compass_call(new_compass@), r),
{
    if store.state.owner != *sender {
        return Err(ContractError::Unauthorized);
    }
    let payload = encode_update_compass(&new_compass)?;
    Ok(envelope(&store.state, payload, "update_compass"))
}

/// Emits the call `update_blueprint(new_blueprint)` where the sender is the
/// owner.
pub fn update_blueprint(store: &Store, sender: &String, new_blueprint: String) -> (r: Result<
    Response,
    ContractError,
>)
    ensures
        admin_outcome(store.state, sender@, update_blueprint_call(new_blueprint@), r),
{
    if store.state.owner != *sender {
        return Err(ContractError::Unauthorized);
    }
    let payload = encode_update_blueprint(&new_blueprint)?;
    Ok(envelope(&store.state, payload, "update_blueprint"))
}

/// Answers a read-only request.
pub fn query(store: &Store, msg: QueryMsg) -> (r: GetJobIdResponse)
    ensures
        r.job_id@ == store.state.job_id@,
{
    match msg {
        QueryMsg::GetJobId {  } => GetJobIdResponse { job_id: store.state.job_id.clone() },
    }
}

} // verus!

//! Values and types of the EVM call encoding, and the calls into `ethabi`
//! that parse, hash and lay them out.

use crate::hex::{hex_bytes_match, hex_denotes};
use std::str::FromStr;
use vstd::prelude::*;

verus! {

/// The type of an argument of an encoded call.
pub enum AbiType {
    Address,
    Uint(nat),
    Bool,
    FixedBytes(nat),
    Array(Box<AbiType>),
    Tuple(Seq<AbiType>),
}

/// A value of an argument of an encoded call. Numbers are held as their
/// 32-byte big-endian word.
pub enum AbiValue {
    Address(Seq<u8>),
    Uint(Seq<u8>),
    Bool(bool),
    FixedBytes(Seq<u8>),
    Array(Seq<AbiValue>),
    Tuple(Seq<AbiValue>),
}

/// An unsigned 256-bit number, held as its 32 bytes, most significant first.
#[derive(Clone, Copy, Debug, PartialEq, Eq)]
pub struct U256 {
    pub be: [u8; 32],
}

impl U256 {
    pub open spec fn view(&self) -> Seq<u8> {
        self.be@
    }

    pub fn from_be_bytes(be: [u8; 32]) -> (r: U256)
        ensures
            r@ == be@,
    {
        U256 { be }
    }

    pub fn to_be_bytes(&self) -> (r: [u8; 32])
        ensures
            r@ == self@,
    {
        self.be
    }
}

#[verifier::external_type_specification]
#[verifier::external_body]
pub struct ExToken(ethabi::Token);

#[verifier::external_type_specification]
#[verifier::external_body]
pub struct ExParamType(ethabi::ParamType);

/// An `ethabi` token together with the value it stands for.
pub struct AbiToken {
    inner: ethabi::Token,
    model: Ghost<AbiValue>,
}

impl AbiToken {
    /// The value this token stands for.
    pub closed spec fn model(&self) -> AbiValue {
        self.model@
    }
}

/// An `ethabi` parameter type together with the type it stands for.
pub struct ParamKind {
    inner: ethabi::ParamType,
    model: Ghost<AbiType>,
}

impl ParamKind {
    /// The type this parameter type stands for.
    pub closed spec fn model(&self) -> AbiType {
        self.model@
    }
}

pub open spec fn token_values(ts: Seq<AbiToken>) -> Seq<AbiValue> {
    ts.map_values(|t: AbiToken| t.model())
}

pub open spec fn kind_types(ks: Seq<ParamKind>) -> Seq<AbiType> {
    ks.map_values(|k: ParamKind| k.model())
}

/// The four-byte selector of the call `name(params)`.
pub uninterp spec fn selector_of(name: Seq<char>, params: Seq<AbiType>) -> Seq<u8>;

/// The head-and-tail encoding of a list of arguments.
pub uninterp spec fn abi_encoding_of(values: Seq<AbiValue>) -> Seq<u8>;

/// Relies on `ethabi::Token::Address` over `H160::from([u8; 20])`.
#[verifier::external_body]
pub(crate) fn address_token(a: [u8; 20]) -> (r: AbiToken)
    ensures
        r.model() == AbiValue::Address(a@),
{
    AbiToken { inner: ethabi::Token::Address(ethabi::Address::from(a)), model: Ghost(AbiValue::Address(a@)) }
}

/// Relies on `ethabi::Token::Uint` over `U256::from_big_endian`.
#[verifier::external_body]
pub(crate) fn uint_token(v: U256) -> (r: AbiToken)
    ensures
        r.model() == AbiValue::Uint(v@),
{
    AbiToken { inner: ethabi::Token::Uint(ethabi::Uint::from_big_endian(&v.be)), model: Ghost(AbiValue::Uint(v@)) }
}

/// Relies on `ethabi::Token::Bool`.
#[verifier::external_body]
pub(crate) fn bool_token(b: bool) -> (r: AbiToken)
    ensures
        r.model() == AbiValue::Bool(b),
{
    AbiToken { inner: ethabi::Token::Bool(b), model: Ghost(AbiValue::Bool(b)) }
}

/// Relies on `ethabi::Token::FixedBytes`, which holds the bytes as given.
#[verifier::external_body]
pub(crate) fn fixed_bytes_token(b: [u8; 32]) -> (r: AbiToken)
    ensures
        r.model() == AbiValue::FixedBytes(b@),
{
    AbiToken { inner: ethabi::Token::FixedBytes(b.to_vec()), model: Ghost(AbiValue::FixedBytes(b@)) }
}

/// Relies on `ethabi::Token::Array`, which keeps the items in order.
#[verifier::external_body]
pub(crate) fn array_token(items: Vec<AbiToken>) -> (r: AbiToken)
    ensures
        r.model() == AbiValue::Array(token_values(items@)),
{
    let model = Ghost(AbiValue::Array(token_values(items@)));
    AbiToken { inner: ethabi::Token::Array(items.into_iter().map(|t| t.inner).collect()), model }
}

/// Relies on `ethabi::Token::Tuple`, which keeps the items in order.
#[verifier::external_body]
pub(crate) fn tuple_token(items: Vec<AbiToken>) -> (r: AbiToken)
    ensures
        r.model() == AbiValue::Tuple(token_values(items@)),
{
    let model = Ghost(AbiValue::Tuple(token_values(items@)));
    AbiToken { inner: ethabi::Token::Tuple(items.into_iter().map(|t| t.inner).collect()), model }
}

/// Relies on `ethabi::ParamType::Address`.
#[verifier::external_body]
pub(crate) fn address_kind() -> (r: ParamKind)
    ensures
        r.model() == AbiType::Address,
{
    ParamKind { inner: ethabi::ParamType::Address, model: Ghost(AbiType::Address) }
}

/// Relies on `ethabi::ParamType::Uint`, which holds the width in bits.
#[verifier::external_body]
pub(crate) fn uint_kind(bits: usize) -> (r: ParamKind)
    ensures
        r.model() == AbiType::Uint(bits as nat),
{
    ParamKind { inner: ethabi::ParamType::Uint(bits), model: Ghost(AbiType::Uint(bits as nat)) }
}

/// Relies on `ethabi::ParamType::Bool`.
#[verifier::external_body]
pub(crate) fn bool_kind() -> (r: ParamKind)
    ensures
        r.model() == AbiType::Bool,
{
    ParamKind { inner: ethabi::ParamType::Bool, model: Ghost(AbiType::Bool) }
}

/// Relies on `ethabi::ParamType::FixedBytes`, which holds the size in bytes.
#[verifier::external_body]
pub(crate) fn fixed_bytes_kind(size: usize) -> (r: ParamKind)
    ensures
        r.model() == AbiType::FixedBytes(size as nat),
{
    ParamKind { inner: ethabi::ParamType::FixedBytes(size), model: Ghost(AbiType::FixedBytes(size as nat)) }
}

/// Relies on `ethabi::ParamType::Array` over the item type.
#[verifier::external_body]
pub(crate) fn array_kind(item: ParamKind) -> (r: ParamKind)
    ensures
        r.model() == AbiType::Array(Box::new(item.model())),
{
    let model = Ghost(AbiType::Array(Box::new(item.model())));
    ParamKind { inner: ethabi::ParamType::Array(Box::new(item.inner)), model }
}

/// Relies on `ethabi::ParamType::Tuple`, which keeps the item types in order.
#[verifier::external_body]
pub(crate) fn tuple_kind(items: Vec<ParamKind>) -> (r: ParamKind)
    ensures
        r.model() == AbiType::Tuple(kind_types(items@)),
{
    let model = Ghost(AbiType::Tuple(kind_types(items@)));
    ParamKind { inner: ethabi::ParamType::Tuple(items.into_iter().map(|k| k.inner).collect()), model }
}

/// Relies on `ethabi::short_signature`: the first four bytes of the Keccak-256
/// hash of the canonical signature, a function of the name and types alone.
#[verifier::external_body]
pub(crate) fn selector(name: &str, params: Vec<ParamKind>) -> (r: [u8; 4])
    ensures
        r@ == selector_of(name@, kind_types(params@)),
{
    ethabi::short_signature(name, &params.into_iter().map(|k| k.inner).collect::<Vec<_>>())
}

/// Relies on `ethabi::encode`: the encoding of a list of tokens, a function of
/// the tokens alone.
#[verifier::external_body]
pub(crate) fn encode(tokens: Vec<AbiToken>) -> (r: Vec<u8>)
    ensures
        r@ == abi_encoding_of(token_values(tokens@)),
        tokens@.len() == 0 ==> r@.len() == 0,
{
    ethabi::encode(&tokens.into_iter().map(|t| t.inner).collect::<Vec<_>>())
}

/// Relies on `<H160 as FromStr>::from_str` (fixed-hash): an optional `0x`,
/// then exactly 40 hex digits, whitespace between them skipped.
#[verifier::external_body]
pub(crate) fn parse_address(s: &str) -> (r: Option<[u8; 20]>)
    ensures
        r is Some <==> hex_denotes(s@, 20),
        r matches Some(a) ==> hex_bytes_match(s@, a@),
{
    ethabi::Address::from_str(s).ok().map(|a| a.0)
}

/// Relies on `<H256 as FromStr>::from_str` (fixed-hash): an optional `0x`,
/// then exactly 64 hex digits, whitespace between them skipped.
#[verifier::external_body]
pub(crate) fn parse_hash(s: &str) -> (r: Option<[u8; 32]>)
    ensures
        r is Some <==> hex_denotes(s@, 32),
        r matches Some(h) ==> hex_bytes_match(s@, h@),
{
    ethabi::Hash::from_str(s).ok().map(|h| h.0)
}

} // verus!

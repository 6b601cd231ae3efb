//! The contract descriptor: an address plus a parsed interface
//! description, used to encode calls and decode results.  Pure, stateless
//! data transformation with no concurrency.
//!
//! The interface machinery itself is an outside library; this module pins
//! each operation to a named function of the loaded description bytes, so
//! that callers know exactly when encoding and decoding succeed and which
//! error names which failure.

use vstd::prelude::*;
use vstd::string::StringSliceAdditionalSpecFns;
use ethabi::Contract as EthContract;
use ethabi::Token as EthToken;
use ethabi::ethereum_types::H160;
use ethabi::ethereum_types::U256;
use crate::addr::Address;
use crate::addr::addr_bytes;
use crate::addr::addr_ok;
use crate::errors::AbiError;
use crate::errors::ParseError;

verus! {

/// A typed argument or result of a contract method.  Fixed-width numbers
/// carry their 32-byte big-endian form.
#[derive(Debug, PartialEq, Eq)]
pub enum Token {
    /// A 20-byte address.
    Address([u8; 20]),
    /// Bytes of a size fixed by the method's type.
    FixedBytes(Vec<u8>),
    /// Bytes of dynamic size.
    Bytes(Vec<u8>),
    /// A signed 256-bit integer, big endian, two's complement.
    Int([u8; 32]),
    /// An unsigned 256-bit integer, big endian.
    Uint([u8; 32]),
    /// A boolean.
    Bool(bool),
    /// A UTF-8 string.
    Text(String),
    /// An array of a size fixed by the method's type.
    FixedArray(Vec<Token>),
    /// An array of dynamic size.
    Array(Vec<Token>),
    /// A tuple of heterogeneous values.
    Tuple(Vec<Token>),
}

#[verifier::external_type_specification]
#[verifier::external_body]
pub struct ExAbiContract(EthContract);

#[verifier::external_type_specification]
#[verifier::external_body]
pub struct ExAbiToken(EthToken);

#[verifier::external_type_specification]
#[verifier::external_body]
pub struct ExU256(U256);

/// Whether a byte string parses as a contract interface description.
pub uninterp spec fn abi_accepts(json: Seq<u8>) -> bool;

/// The description bytes a loaded interface was parsed from.
pub uninterp spec fn abi_json(abi: EthContract) -> Seq<u8>;

/// The method names a parsed interface description declares.
pub uninterp spec fn abi_methods(json: Seq<u8>) -> Set<Seq<char>>;

/// The call data that encoding the named method of the described interface
/// with the given arguments produces; `None` when encoding fails.
pub uninterp spec fn abi_encoding(json: Seq<u8>, method: Seq<char>, args: Seq<Token>) -> Option<
    Seq<u8>,
>;

/// The values that decoding the given bytes as the named method's output
/// yields; `None` when the bytes do not fit the output types.
pub uninterp spec fn abi_decoding(json: Seq<u8>, method: Seq<char>, bytes: Seq<u8>) -> Option<
    Seq<Token>,
>;

/// Relies on U256::to_big_endian: writes the 32-byte big-endian form.
#[verifier::external_body]
fn u256_to_bytes(v: &U256) -> [u8; 32] {
    let mut b = [0u8; 32];
    v.to_big_endian(&mut b);
    b
}

/// Relies on U256::from_big_endian: reads the 32-byte big-endian form.
#[verifier::external_body]
fn u256_from_bytes(b: &[u8; 32]) -> U256 {
    U256::from_big_endian(b)
}

/// Converts a slice of arguments to the outside library's values.
#[verifier::external_body]
fn to_abi_vec(ts: &[Token]) -> Vec<EthToken> {
    ts.iter().map(to_abi_token).collect()
}

/// Converts a slice of the outside library's values back.
#[verifier::external_body]
fn from_abi_vec(ts: &[EthToken]) -> Vec<Token> {
    ts.iter().map(from_abi_token).collect()
}

/// Converts an argument to the outside library's value, variant for
/// variant.  Relies on the outside constructors alone.
#[verifier::external_body]
fn to_abi_token(t: &Token) -> EthToken {
    match t {
        Token::Address(a) => EthToken::Address(H160(*a)),
        Token::FixedBytes(b) => EthToken::FixedBytes(b.clone()),
        Token::Bytes(b) => EthToken::Bytes(b.clone()),
        Token::Int(v) => EthToken::Int(u256_from_bytes(v)),
        Token::Uint(v) => EthToken::Uint(u256_from_bytes(v)),
        Token::Bool(b) => EthToken::Bool(*b),
        Token::Text(s) => EthToken::String(s.clone()),
        Token::FixedArray(ts) => EthToken::FixedArray(to_abi_vec(ts)),
        Token::Array(ts) => EthToken::Array(to_abi_vec(ts)),
        Token::Tuple(ts) => EthToken::Tuple(to_abi_vec(ts)),
    }
}

/// Converts one of the outside library's values back, variant for variant.
#[verifier::external_body]
fn from_abi_token(t: &EthToken) -> Token {
    match t {
        EthToken::Address(a) => Token::Address(a.0),
        EthToken::FixedBytes(b) => Token::FixedBytes(b.clone()),
        EthToken::Bytes(b) => Token::Bytes(b.clone()),
        EthToken::Int(v) => Token::Int(u256_to_bytes(v)),
        EthToken::Uint(v) => Token::Uint(u256_to_bytes(v)),
        EthToken::Bool(b) => Token::Bool(*b),
        EthToken::String(s) => Token::Text(s.clone()),
        EthToken::FixedArray(ts) => Token::FixedArray(from_abi_vec(ts)),
        EthToken::Array(ts) => Token::Array(from_abi_vec(ts)),
        EthToken::Tuple(ts) => Token::Tuple(from_abi_vec(ts)),
    }
}

/// Relies on EthContract::load: parses a JSON interface description;
/// success and result depend on the bytes alone.
#[verifier::external_body]
fn load_interface(json: &[u8]) -> (r: Option<EthContract>)
    ensures
        r is Some <==> abi_accepts(json@),
        r matches Some(abi) ==> abi_json(abi) == json@,
{
    EthContract::load(json).ok()
}

/// Relies on EthContract::function (the first method of the given
/// name) and ethabi::Function::encode_input: both depend on the interface
/// description and the arguments alone.
#[verifier::external_body]
fn encode_call(abi: &EthContract, method: &str, args: &[Token]) -> (r: Result<
    Vec<u8>,
    AbiError,
>)
    ensures
        r is Ok <==> abi_encoding(abi_json(*abi), method@, args@) is Some,
        r matches Ok(out) ==> abi_encoding(abi_json(*abi), method@, args@) == Some(out@),
        r matches Err(e) ==> (e is UnknownMethod <==> !abi_methods(abi_json(*abi)).contains(
            method@,
        )),
        r matches Err(e) ==> e is UnknownMethod || e is EncodingError,
{
    let f = match abi.function(method) {
        Ok(f) => f,
        Err(_) => return Err(AbiError::UnknownMethod),
    };
    match f.encode_input(&to_abi_vec(args)) {
        Ok(out) => Ok(out),
        Err(_) => Err(AbiError::EncodingError),
    }
}

/// Relies on EthContract::function and ethabi::Function::decode_output:
/// both depend on the interface description and the bytes alone.  Every
/// failure — a method the interface does not declare, or bytes that do
/// not fit its output types — is one decoding failure.
#[verifier::external_body]
fn decode_call_output(abi: &EthContract, method: &str, bytes: &[u8]) -> (r: Result<
    Vec<Token>,
    AbiError,
>)
    ensures
        r is Ok <==> abi_decoding(abi_json(*abi), method@, bytes@) is Some,
        r matches Ok(out) ==> abi_decoding(abi_json(*abi), method@, bytes@) == Some(out@),
        r matches Err(e) ==> e is DecodingError,
{
    let f = match abi.function(method) {
        Ok(f) => f,
        Err(_) => return Err(AbiError::DecodingError),
    };
    match f.decode_output(bytes) {
        Ok(ts) => Ok(from_abi_vec(&ts)),
        Err(_) => Err(AbiError::DecodingError),
    }
}

/// An address plus a parsed interface description; immutable after
/// construction.
pub struct Contract {
    pub address: Address,
    pub abi: EthContract,
}

impl Contract {
    /// Parses the address and the interface description once; either input
    /// being malformed is reported instead of panicking.
    pub fn load(address: &str, json: &[u8]) -> (r: Result<Contract, ParseError>)
        ensures
            r is Ok <==> addr_ok(address.spec_bytes()) && abi_accepts(json@),
            r matches Ok(c) ==> c.address@ == addr_bytes(address.spec_bytes()) && abi_json(c.abi)
                == json@,
            r matches Err(e) ==> (e == ParseError::BadAddress <==> !addr_ok(
                address.spec_bytes(),
            )),
    {
        let parsed = Address::parse(address)?;
        match load_interface(json) {
            Some(abi) => Ok(Contract { address: parsed, abi }),
            None => Err(ParseError::BadInterface),
        }
    }

    /// Encodes a call of the named method with the given arguments into
    /// call-data bytes.
    pub fn encode(&self, method: &str, tokens: &[Token]) -> (r: Result<Vec<u8>, AbiError>)
        ensures
            r is Ok <==> abi_encoding(abi_json(self.abi), method@, tokens@) is Some,
            r matches Ok(out) ==> abi_encoding(abi_json(self.abi), method@, tokens@) == Some(out@),
            r matches Err(e) ==> (e is UnknownMethod <==> !abi_methods(abi_json(self.abi)).contains(
                method@,
            )),
            r matches Err(e) ==> e is UnknownMethod || e is EncodingError,
    {
        encode_call(&self.abi, method, tokens)
    }

    /// Decodes the named method's raw output bytes into typed values; a
    /// method the interface does not declare, like bytes that do not fit
    /// its output types, fails with the decoding error.
    pub fn decode(&self, method: &str, bytes: &[u8]) -> (r: Result<Vec<Token>, AbiError>)
        ensures
            r is Ok <==> abi_decoding(abi_json(self.abi), method@, bytes@) is Some,
            r matches Ok(out) ==> abi_decoding(abi_json(self.abi), method@, bytes@) == Some(out@),
            r matches Err(e) ==> e is DecodingError,
    {
        decode_call_output(&self.abi, method, bytes)
    }
}

} // verus!

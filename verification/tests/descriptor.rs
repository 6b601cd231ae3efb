use std::str::FromStr;

use eth_wallet::AbiError;
use eth_wallet::Address;
use eth_wallet::Contract;
use eth_wallet::ParseError;
use eth_wallet::Token;

const ERC20_BALANCE_OF: &str = r#"[{"inputs":[{"name":"owner","type":"address"}],"name":"balanceOf","outputs":[{"name":"","type":"uint256"}],"stateMutability":"view","type":"function"}]"#;

fn descriptor() -> Contract {
    Contract::load(
        "0x0000000000000000000000000000000000000001",
        ERC20_BALANCE_OF.as_bytes(),
    )
    .unwrap()
}

#[test]
fn parse_address_matches_outside_parser() {
    let inputs = [
        "0xAbCdEf0123456789aBcDeF0123456789abcdef01",
        "AbCdEf0123456789aBcDeF0123456789abcdef01",
        "0x 1111111111111111111111111111111111111111",
        "0x11 11 11 11 11 11 11 11 11 11 11 11 11 11 11 11 11 11 11 11",
        "0x111111111111111111111111111111111111111",
        "0x11111111111111111111111111111111111111111",
        "zz11111111111111111111111111111111111111",
        "",
        "0x",
    ];
    for s in inputs {
        let mine = Address::parse(s).ok().map(|a| a.0);
        let theirs = ethabi::ethereum_types::H160::from_str(s).ok().map(|h| h.0);
        assert_eq!(mine, theirs, "diverged on {:?}", s);
    }
}

#[test]
fn load_rejects_bad_address() {
    let r = Contract::load("0x11", ERC20_BALANCE_OF.as_bytes());
    assert!(matches!(r, Err(ParseError::BadAddress)));
}

#[test]
fn load_rejects_bad_interface() {
    let r = Contract::load("0x0000000000000000000000000000000000000001", b"not json");
    assert!(matches!(r, Err(ParseError::BadInterface)));
}

#[test]
fn load_keeps_the_address() {
    let c = descriptor();
    let mut expected = [0u8; 20];
    expected[19] = 1;
    assert_eq!(c.address, Address(expected));
}

#[test]
fn encode_produces_the_known_call_data() {
    let c = descriptor();
    let out = c.encode("balanceOf", &[Token::Address([0x11; 20])]).unwrap();
    assert_eq!(out.len(), 36);
    assert_eq!(&out[0..4], &[0x70, 0xa0, 0x82, 0x31]);
    assert!(out[4..16].iter().all(|b| *b == 0));
    assert_eq!(&out[16..36], &[0x11; 20]);
}

#[test]
fn encode_unknown_method() {
    let c = descriptor();
    let r = c.encode("transfer", &[Token::Address([0x11; 20])]);
    assert!(matches!(r, Err(AbiError::UnknownMethod)));
}

#[test]
fn encode_wrong_arguments() {
    let c = descriptor();
    let r = c.encode("balanceOf", &[]);
    assert!(matches!(r, Err(AbiError::EncodingError)));
}

#[test]
fn decode_round_trip() {
    let c = descriptor();
    let encoded = ethabi::encode(&[ethabi::Token::Uint(42u32.into())]);
    let decoded = c.decode("balanceOf", &encoded).unwrap();
    let mut word = [0u8; 32];
    word[31] = 42;
    assert_eq!(decoded, vec![Token::Uint(word)]);
}

#[test]
fn decode_rejects_truncated_output() {
    let c = descriptor();
    let r = c.decode("balanceOf", &[1, 2, 3]);
    assert!(matches!(r, Err(AbiError::DecodingError)));
}

#[test]
fn decode_unknown_method_is_a_decoding_error() {
    let c = descriptor();
    let r = c.decode("transfer", &[0u8; 32]);
    assert!(matches!(r, Err(AbiError::DecodingError)));
}

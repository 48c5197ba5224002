use adm_sdk::address::{get_delegated_address, Address};
use adm_sdk::error::Error;
use adm_sdk::provider::query::FvmQueryHeight;
use adm_sdk::provider::util::{
    decode_hex_unprefixed, parse_address, parse_number, parse_query_height,
    parse_token_amount_from_atto,
};
use adm_sdk::text::{bytes_eq, decimal_text, eq_ignore_ascii_case, parse_decimal, same_text};

const ETH: &str = "0x77aa40b105843728088c0132e43fc44348881da8";

fn eth_bytes() -> Vec<u8> {
    hex::decode(&ETH[2..]).unwrap()
}

#[test]
fn query_heights() {
    assert_eq!(parse_query_height("committed"), Ok(FvmQueryHeight::Committed));
    assert_eq!(parse_query_height("Committed"), Ok(FvmQueryHeight::Committed));
    assert_eq!(parse_query_height("PENDING"), Ok(FvmQueryHeight::Pending));
    assert_eq!(parse_query_height("pending"), Ok(FvmQueryHeight::Pending));
    assert_eq!(parse_query_height("123"), Ok(FvmQueryHeight::Height(123)));
    assert_eq!(parse_query_height("+123"), Ok(FvmQueryHeight::Height(123)));
    assert_eq!(parse_query_height("0"), Ok(FvmQueryHeight::Height(0)));
    assert_eq!(
        parse_query_height("18446744073709551615"),
        Ok(FvmQueryHeight::Height(u64::MAX))
    );
    assert_eq!(parse_query_height("18446744073709551616"), Err(Error::InvalidHeight));
    assert_eq!(parse_query_height(""), Err(Error::InvalidHeight));
    assert_eq!(parse_query_height("+"), Err(Error::InvalidHeight));
    assert_eq!(parse_query_height("-1"), Err(Error::InvalidHeight));
    assert_eq!(parse_query_height(" 1"), Err(Error::InvalidHeight));
    assert_eq!(parse_query_height("latest"), Err(Error::InvalidHeight));
    assert_eq!(parse_query_height("commit\u{212a}ed"), Err(Error::InvalidHeight));
}

#[test]
fn decimal_numbers() {
    assert_eq!(parse_decimal(b"0"), Some(0));
    assert_eq!(parse_decimal(b"007"), Some(7));
    assert_eq!(parse_decimal(b""), None);
    assert_eq!(parse_decimal(b"12a"), None);
    assert_eq!(parse_decimal(b"18446744073709551615"), Some(u64::MAX));
    assert_eq!(parse_decimal(b"18446744073709551616"), None);
    assert_eq!(parse_decimal(b"99999999999999999999999"), None);
    assert_eq!(parse_number(b"+5"), Some(5));
    assert_eq!(parse_number(b"++5"), None);
    assert_eq!(decimal_text(0), "0");
    assert_eq!(decimal_text(10), "10");
    assert_eq!(decimal_text(9876543210), "9876543210");
    assert_eq!(decimal_text(u64::MAX), "18446744073709551615");
}

#[test]
fn text_comparisons() {
    assert!(same_text("abc", "abc"));
    assert!(!same_text("abc", "abd"));
    assert!(bytes_eq(b"abc", b"abc"));
    assert!(!bytes_eq(b"abc", b"ab"));
    assert!(eq_ignore_ascii_case(b"AbC", b"aBc"));
    assert!(!eq_ignore_ascii_case(b"AbC", b"aBd"));
    assert!(!eq_ignore_ascii_case(b"[", b"{"));
    assert!(!eq_ignore_ascii_case(b"@", b"`"));
}

#[test]
fn hex_with_and_without_prefix() {
    assert_eq!(decode_hex_unprefixed(b"0x0aFf"), Some(vec![0x0a, 0xff]));
    assert_eq!(decode_hex_unprefixed(b"0aFf"), Some(vec![0x0a, 0xff]));
    assert_eq!(decode_hex_unprefixed(b""), Some(vec![]));
    assert_eq!(decode_hex_unprefixed(b"0x"), Some(vec![]));
    assert_eq!(decode_hex_unprefixed(b"0x0"), None);
    assert_eq!(decode_hex_unprefixed(b"zz"), None);
    assert_eq!(decode_hex_unprefixed(b"0X00"), None);
}

#[test]
fn eth_addresses_become_delegated_addresses() {
    let address = parse_address(ETH).unwrap();
    assert_eq!(address, Address::Delegated { namespace: 10, subaddress: eth_bytes() });
    assert_eq!(parse_address(&ETH[2..]).unwrap(), address);
    assert_eq!(get_delegated_address(&address), Ok(eth_bytes()));
    assert_eq!(parse_address("0x77aa"), Err(Error::InvalidAddress));
    assert_eq!(parse_address(""), Err(Error::InvalidAddress));
    assert_eq!(parse_address("hello"), Err(Error::InvalidAddress));
}

#[test]
fn eth_addresses_that_mark_an_actor_id() {
    assert_eq!(parse_address("0xff00000000000000000000000000000000000064"), Ok(Address::Id(100)));
    assert_eq!(
        parse_address("0xff0000000000000000000000ffffffffffffffff"),
        Ok(Address::Id(u64::MAX))
    );
    let mut bytes = vec![0u8; 20];
    bytes[0] = 0xff;
    bytes[18] = 1;
    bytes[19] = 2;
    assert_eq!(Address::new_eth(&bytes), Address::Id(258));
    bytes[0] = 0xfe;
    assert_eq!(Address::new_eth(&bytes), Address::Delegated { namespace: 10, subaddress: bytes });
}

#[test]
fn fvm_addresses_of_both_networks() {
    let text = "t410fbslswn3rqrpdjoozbuoll6mnnfsolbp2wi3vbmi";
    let expected = fvm_shared::address::Network::Testnet.parse_address(text).unwrap();
    let parsed = parse_address(text).unwrap();
    match (&parsed, expected.payload()) {
        (
            Address::Delegated { namespace, subaddress },
            fvm_shared::address::Payload::Delegated(d),
        ) => {
            assert_eq!(*namespace, d.namespace());
            assert_eq!(subaddress.as_slice(), d.subaddress());
        }
        other => panic!("unexpected {:?}", other),
    }
    let mainnet = format!("f{}", &text[1..]);
    assert_eq!(parse_address(&mainnet).unwrap(), parsed);
    assert_eq!(parse_address("t01234"), Ok(Address::Id(1234)));
    assert_eq!(parse_address("f01234"), Ok(Address::Id(1234)));
    assert_eq!(parse_address("t410fbslswn3rqrpdjoozbuoll6mnnfsolbp2wi3vbmj"), Err(Error::InvalidAddress));
    assert_eq!(parse_address("x01234"), Err(Error::InvalidAddress));
}

#[test]
fn only_delegated_addresses_have_an_eth_address() {
    assert_eq!(get_delegated_address(&Address::Id(5)), Err(Error::InvalidAddress));
    assert_eq!(
        get_delegated_address(&Address::Delegated { namespace: 10, subaddress: vec![1; 19] }),
        Err(Error::InvalidAddress)
    );
    assert_eq!(
        get_delegated_address(&Address::Delegated { namespace: 10, subaddress: vec![1; 22] }),
        Ok(vec![1; 20])
    );
    let address = Address::new_eth(&vec![3; 20]);
    assert!(address.same(&Address::Delegated { namespace: 10, subaddress: vec![3; 20] }));
    assert!(!address.same(&Address::Id(3)));
    assert_eq!(address.copy(), address);
}

#[test]
fn token_amounts_in_atto() {
    assert_eq!(parse_token_amount_from_atto("0"), Ok(0));
    assert_eq!(parse_token_amount_from_atto("1000000000000000000"), Ok(1_000_000_000_000_000_000));
    assert_eq!(
        parse_token_amount_from_atto("340282366920938463463374607431768211455"),
        Ok(u128::MAX)
    );
    assert_eq!(
        parse_token_amount_from_atto("340282366920938463463374607431768211456"),
        Err(Error::InvalidAmount)
    );
    assert_eq!(parse_token_amount_from_atto("-1"), Err(Error::InvalidAmount));
    assert_eq!(parse_token_amount_from_atto("1.5"), Err(Error::InvalidAmount));
    assert_eq!(parse_token_amount_from_atto(""), Err(Error::InvalidAmount));
}

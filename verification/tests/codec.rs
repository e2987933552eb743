use eth_rpc_client::decimal::{i128_to_dec, usize_to_dec};
use eth_rpc_client::hex::{decimals_to_hex, hex_to_decimals};
use eth_rpc_client::units::wei_to_ether;

#[test]
fn decode_prefixed_ff_is_255() {
    assert_eq!(hex_to_decimals(&String::from("0xff"), true), Ok(255));
}

#[test]
fn decode_bare_ff_without_prefix_stripping_is_255() {
    assert_eq!(hex_to_decimals(&String::from("ff"), false), Ok(255));
}

#[test]
fn decode_empty_after_prefix_is_zero() {
    assert_eq!(hex_to_decimals(&String::from("0x"), true), Ok(0));
    assert_eq!(hex_to_decimals(&String::from("0x0"), true), Ok(0));
}

#[test]
fn decode_without_prefix_when_none_present() {
    assert_eq!(hex_to_decimals(&String::from("1a2B"), true), Ok(0x1a2b));
    assert_eq!(hex_to_decimals(&String::from(""), false), Ok(0));
}

#[test]
fn decode_rejects_non_hex_characters() {
    assert!(hex_to_decimals(&String::from("0xzz"), true).is_err());
    assert!(hex_to_decimals(&String::from("0x12g4"), true).is_err());
    // Without prefix stripping the `x` itself is not a hex digit.
    assert!(hex_to_decimals(&String::from("0xff"), false).is_err());
}

#[test]
fn decode_accepts_up_to_i128_max() {
    let max = format!("0x{}", "7".to_owned() + &"f".repeat(31));
    assert_eq!(hex_to_decimals(&max, true), Ok(i128::MAX));
}

#[test]
fn decode_rejects_values_wider_than_i128() {
    let too_wide = format!("0x{}", "8".to_owned() + &"0".repeat(31));
    assert!(hex_to_decimals(&too_wide, true).is_err());
    let much_too_wide = format!("0x{}", "f".repeat(40));
    assert!(hex_to_decimals(&much_too_wide, true).is_err());
}

#[test]
fn encode_is_minimal_lowercase_prefixed() {
    assert_eq!(decimals_to_hex(0), "0x0");
    assert_eq!(decimals_to_hex(255), "0xff");
    assert_eq!(decimals_to_hex(0x1a2b3c), "0x1a2b3c");
    assert_eq!(decimals_to_hex(i128::MAX), format!("0x7{}", "f".repeat(31)));
}

#[test]
fn decode_encode_decode_round_trip() {
    for h in ["0x", "0x0", "0xff", "0xFF", "00ff", "0x1a2b3c4d5e6f", "0xde0b6b3a7640000"] {
        let v = hex_to_decimals(&String::from(h), true).unwrap();
        let re = decimals_to_hex(v);
        assert_eq!(hex_to_decimals(&re, true).unwrap(), v);
    }
}

#[test]
fn wei_to_ether_truncates_toward_zero() {
    assert_eq!(wei_to_ether(1_000_000_000_000_000_000), 1);
    assert_eq!(wei_to_ether(999_999_999_999_999_999), 0);
    assert_eq!(wei_to_ether(0), 0);
    assert_eq!(wei_to_ether(2_500_000_000_000_000_000), 2);
}

#[test]
fn decimal_rendering() {
    assert_eq!(i128_to_dec(0), "0");
    assert_eq!(i128_to_dec(12710481), "12710481");
    assert_eq!(i128_to_dec(-42), "-42");
    assert_eq!(i128_to_dec(i128::MIN), "-170141183460469231731687303715884105728");
    assert_eq!(usize_to_dec(0), "0");
    assert_eq!(usize_to_dec(10), "10");
}

use bitcoin_faucet::request::{FundRequestParams, JsonParam, RecipientWithAmount, UncheckedAddress};
use serde_json::Value;

const ADDR_A: &str = "bc1qxy2kgdygjrsqtzq2n0yrf2493p83kkfjhx0wlh";
const ADDR_B: &str = "bc1qj53cennpes9zshh0ul2ur9r07756g3crr8hxh9";

fn to_param(v: &Value) -> JsonParam {
    match v {
        Value::String(s) => JsonParam::Text(s.clone()),
        Value::Number(n) => match n.as_u64() {
            Some(x) => JsonParam::Amount(x),
            None => JsonParam::Other,
        },
        Value::Array(items) => JsonParam::Array(items.iter().map(to_param).collect()),
        _ => JsonParam::Other,
    }
}

fn parse(raw: &str) -> Option<FundRequestParams> {
    let value: Value = serde_json::from_str(raw).unwrap();
    match &value {
        Value::Array(items) => {
            let params: Vec<JsonParam> = items.iter().map(to_param).collect();
            FundRequestParams::from_params(&params)
        }
        _ => None,
    }
}

fn plain(recipients: &[RecipientWithAmount]) -> Vec<(String, u64)> {
    recipients.iter().map(|(a, n)| (a.as_str().to_string(), *n)).collect()
}

fn addr(s: &str) -> UncheckedAddress {
    UncheckedAddress::parse(s).unwrap()
}

#[test]
fn test_deser_fund_request_single() {
    let got = parse(r#"["bc1qxy2kgdygjrsqtzq2n0yrf2493p83kkfjhx0wlh", 100000000]"#).unwrap();
    match got {
        FundRequestParams::Single((a, n)) => {
            assert_eq!(a.as_str(), ADDR_A);
            assert_eq!(n, 100000000);
        }
        _ => panic!("expected a single recipient"),
    }
}

#[test]
fn test_deser_fund_request_same_amount() {
    let got = parse(
        r#"[["bc1qxy2kgdygjrsqtzq2n0yrf2493p83kkfjhx0wlh", "bc1qxy2kgdygjrsqtzq2n0yrf2493p83kkfjhx0wlh"], 100000000]"#,
    )
    .unwrap();
    match got {
        FundRequestParams::SameAmount(addrs, n) => {
            let texts: Vec<&str> = addrs.iter().map(|a| a.as_str()).collect();
            assert_eq!(texts, vec![ADDR_A; 2]);
            assert_eq!(n, 100000000);
        }
        _ => panic!("expected the same amount to many addresses"),
    }
}

#[test]
fn test_deser_fund_request_multiple() {
    let got = parse(
        r#"[
            ["bc1qxy2kgdygjrsqtzq2n0yrf2493p83kkfjhx0wlh", 100000000],
            ["bc1qj53cennpes9zshh0ul2ur9r07756g3crr8hxh9", 200000000]
        ]"#,
    )
    .unwrap();
    match got {
        FundRequestParams::Multiple(rs) => {
            assert_eq!(
                plain(&rs),
                vec![(ADDR_A.to_string(), 100000000), (ADDR_B.to_string(), 200000000)]
            );
        }
        _ => panic!("expected many recipients"),
    }
}

#[test]
fn normalizes_single() {
    let r = FundRequestParams::Single((addr(ADDR_A), 100000000)).into_recipients();
    assert_eq!(plain(&r), vec![(ADDR_A.to_string(), 100000000)]);
}

#[test]
fn normalizes_same_amount_in_order() {
    let r = FundRequestParams::SameAmount(vec![addr(ADDR_A), addr(ADDR_B)], 100000000).into_recipients();
    assert_eq!(
        plain(&r),
        vec![(ADDR_A.to_string(), 100000000), (ADDR_B.to_string(), 100000000)]
    );
}

#[test]
fn normalizes_multiple_in_order() {
    let r = FundRequestParams::Multiple(vec![(addr(ADDR_A), 100000000), (addr(ADDR_B), 200000000)])
        .into_recipients();
    assert_eq!(
        plain(&r),
        vec![(ADDR_A.to_string(), 100000000), (ADDR_B.to_string(), 200000000)]
    );
}

#[test]
fn duplicate_recipients_are_kept_apart() {
    let r = FundRequestParams::Multiple(vec![(addr(ADDR_A), 1), (addr(ADDR_A), 2)]).into_recipients();
    assert_eq!(plain(&r), vec![(ADDR_A.to_string(), 1), (ADDR_A.to_string(), 2)]);
}

#[test]
fn rejects_text_that_is_no_address() {
    assert!(UncheckedAddress::parse("not-an-address").is_none());
    assert!(parse(r#"["not-an-address", 5]"#).is_none());
}

#[test]
fn rejects_negative_and_fractional_amounts() {
    assert!(parse(r#"["bc1qxy2kgdygjrsqtzq2n0yrf2493p83kkfjhx0wlh", -5]"#).is_none());
    assert!(parse(r#"["bc1qxy2kgdygjrsqtzq2n0yrf2493p83kkfjhx0wlh", 1.5]"#).is_none());
}

#[test]
fn two_numbers_are_no_request() {
    assert!(parse("[1, 2]").is_none());
}

#[test]
fn empty_params_read_as_no_recipients() {
    match parse("[]").unwrap() {
        FundRequestParams::Multiple(rs) => assert!(rs.is_empty()),
        _ => panic!("expected an empty list of recipients"),
    }
}

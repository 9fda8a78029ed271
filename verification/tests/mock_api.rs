use cosmwasm_sgx_vm::testing::mock::{
    GAS_COST_CANONICALIZE, GAS_COST_HUMANIZE, MSG_INVALID_UTF8, MSG_TOO_LONG, MSG_TOO_SHORT,
    MSG_WRONG_LENGTH,
};
use cosmwasm_sgx_vm::testing::MockApi;
use cosmwasm_sgx_vm::{Api, Binary, CanonicalAddr, FfiError, HumanAddr};

#[test]
fn flip_addresses() {
    let api = MockApi::new(20);
    let human = HumanAddr("shorty".to_string());
    let canon = api.canonical_address(&human).0.unwrap();
    assert_eq!(canon.len(), 20);
    assert_eq!(&canon.as_slice()[0..6], human.as_str().as_bytes());
    assert_eq!(&canon.as_slice()[6..], &[0u8; 14]);

    let (recovered, _gas_cost) = api.human_address(&canon);
    assert_eq!(recovered.unwrap(), human);
}

#[test]
fn human_address_input_length() {
    let api = MockApi::new(10);
    let input = CanonicalAddr(Binary(vec![61; 11]));
    let (result, _gas_info) = api.human_address(&input);
    match result.unwrap_err() {
        FfiError::UserErr { .. } => {}
        err => panic!("Unexpected error: {:?}", err),
    }
}

#[test]
fn canonical_address_min_input_length() {
    let api = MockApi::new(10);
    let human = HumanAddr("1".to_string());
    match api.canonical_address(&human).0.unwrap_err() {
        FfiError::UserErr { .. } => {}
        err => panic!("Unexpected error: {:?}", err),
    }
}

#[test]
fn canonical_address_max_input_length() {
    let api = MockApi::new(10);
    let human = HumanAddr("longer-than-10".to_string());
    match api.canonical_address(&human).0.unwrap_err() {
        FfiError::UserErr { .. } => {}
        err => panic!("Unexpected error: {:?}", err),
    }
}

#[test]
fn canonical_address_pads_with_zeros() {
    let api = MockApi::new(8);
    let (result, gas) = api.canonical_address(&HumanAddr::from("abc"));
    assert_eq!(result.unwrap(), CanonicalAddr(Binary(vec![97, 98, 99, 0, 0, 0, 0, 0])));
    assert_eq!(gas.cost, 55);
}

#[test]
fn canonical_address_accepts_both_boundaries() {
    let api = MockApi::new(5);
    let shortest = api.canonical_address(&HumanAddr::from("abc")).0.unwrap();
    assert_eq!(shortest.as_slice(), &[97u8, 98, 99, 0, 0][..]);
    let longest = api.canonical_address(&HumanAddr::from("abcde")).0.unwrap();
    assert_eq!(longest.as_slice(), &[97u8, 98, 99, 100, 101][..]);
}

#[test]
fn canonical_address_rejects_just_outside_the_boundaries() {
    let api = MockApi::new(5);
    assert_eq!(
        api.canonical_address(&HumanAddr::from("ab")).0,
        Err(FfiError::UserErr { msg: "Invalid input: human address too short".to_string() })
    );
    assert_eq!(
        api.canonical_address(&HumanAddr::from("abcdef")).0,
        Err(FfiError::UserErr { msg: "Invalid input: human address too long".to_string() })
    );
    assert_eq!(MSG_TOO_SHORT, "Invalid input: human address too short");
    assert_eq!(MSG_TOO_LONG, "Invalid input: human address too long");
}

#[test]
fn canonical_address_rejects_the_empty_address() {
    let api = MockApi::new(20);
    let (result, gas) = api.canonical_address(&HumanAddr::from(""));
    assert_eq!(result, Err(FfiError::UserErr { msg: MSG_TOO_SHORT.to_string() }));
    assert_eq!(gas.cost, 55);
}

#[test]
fn canonical_address_measures_bytes_not_characters() {
    // Two characters of two bytes each: four bytes, which is over the minimum of three.
    let api = MockApi::new(4);
    let human = HumanAddr::from("\u{e4}\u{f6}");
    assert_eq!(human.len(), 4);
    let canon = api.canonical_address(&human).0.unwrap();
    assert_eq!(canon.as_slice(), &[0xc3u8, 0xa4, 0xc3, 0xb6][..]);
    // Three characters of two bytes each do not fit a width of four.
    let wide = HumanAddr::from("\u{e4}\u{f6}\u{fc}");
    assert_eq!(
        api.canonical_address(&wide).0,
        Err(FfiError::UserErr { msg: MSG_TOO_LONG.to_string() })
    );
    // One character of two bytes is under the minimum although it is not empty.
    assert_eq!(
        api.canonical_address(&HumanAddr::from("\u{e4}")).0,
        Err(FfiError::UserErr { msg: MSG_TOO_SHORT.to_string() })
    );
}

#[test]
fn canonical_address_with_width_under_the_minimum_always_fails() {
    let api = MockApi::new(2);
    assert_eq!(
        api.canonical_address(&HumanAddr::from("ab")).0,
        Err(FfiError::UserErr { msg: MSG_TOO_SHORT.to_string() })
    );
    assert_eq!(
        api.canonical_address(&HumanAddr::from("abc")).0,
        Err(FfiError::UserErr { msg: MSG_TOO_LONG.to_string() })
    );
}

#[test]
fn round_trip_of_plain_and_multi_byte_addresses() {
    let api = MockApi::new(24);
    for text in ["abc", "cosmos2contract", "gr\u{fc}\u{df}e", "\u{1f980}", "exactly-twenty-four-byte"] {
        let human = HumanAddr::from(text);
        let canon = api.canonical_address(&human).0.unwrap();
        assert_eq!(canon.len(), 24);
        assert_eq!(api.human_address(&canon).0, Ok(human));
    }
}

#[test]
fn round_trip_loses_nul_characters() {
    let api = MockApi::new(10);
    let human = HumanAddr::from("a\0bc");
    let canon = api.canonical_address(&human).0.unwrap();
    assert_eq!(canon.as_slice(), &[97u8, 0, 98, 99, 0, 0, 0, 0, 0, 0][..]);
    assert_eq!(api.human_address(&canon).0, Ok(HumanAddr::from("abc")));
}

#[test]
fn human_address_drops_every_zero_byte() {
    let api = MockApi::new(6);
    let input = CanonicalAddr(Binary(vec![0, 104, 0, 0, 105, 0]));
    let (result, gas) = api.human_address(&input);
    assert_eq!(result, Ok(HumanAddr::from("hi")));
    assert_eq!(gas.cost, 44);
}

#[test]
fn human_address_of_zeros_only_is_empty() {
    let api = MockApi::new(4);
    let input = CanonicalAddr(Binary(vec![0; 4]));
    assert_eq!(api.human_address(&input).0, Ok(HumanAddr::from("")));
}

#[test]
fn human_address_checks_width_whatever_the_content() {
    let api = MockApi::new(4);
    let wrong = FfiError::UserErr {
        msg: "Invalid input: canonical address length not correct".to_string(),
    };
    for bytes in [vec![], vec![0; 3], vec![97; 3], vec![97; 5], vec![0xff; 5], vec![0; 40]] {
        let (result, gas) = api.human_address(&CanonicalAddr(Binary(bytes)));
        assert_eq!(result, Err(wrong.clone()));
        assert_eq!(gas.cost, 44);
    }
    assert_eq!(MSG_WRONG_LENGTH, "Invalid input: canonical address length not correct");
}

#[test]
fn human_address_reports_bytes_that_are_no_text() {
    let api = MockApi::new(4);
    // 0xff never occurs in UTF-8; 0xc3 alone is a character cut short.
    for bytes in [vec![0xff, 0, 0, 0], vec![97, 0xc3, 0, 0], vec![0xc3, 0, 0xa4, 0x80]] {
        let (result, gas) = api.human_address(&CanonicalAddr(Binary(bytes)));
        assert_eq!(result, Err(FfiError::Unknown { msg: MSG_INVALID_UTF8.to_string() }));
        assert_eq!(gas.cost, 44);
    }
}

#[test]
fn human_address_joins_bytes_across_dropped_zeros() {
    // The two bytes of U+00E4 stand apart; once the zero between them is gone they decode.
    let api = MockApi::new(4);
    let input = CanonicalAddr(Binary(vec![0xc3, 0, 0xa4, 0]));
    assert_eq!(api.human_address(&input).0, Ok(HumanAddr::from("\u{e4}")));
}

#[test]
fn gas_is_charged_on_success_and_on_failure() {
    let api = MockApi::new(10);
    assert_eq!(GAS_COST_CANONICALIZE, 55);
    assert_eq!(GAS_COST_HUMANIZE, 44);

    let (ok, gas) = api.canonical_address(&HumanAddr::from("shorty"));
    assert!(ok.is_ok());
    assert_eq!(gas.cost, 55);
    let (err, gas) = api.canonical_address(&HumanAddr::from("x"));
    assert!(err.is_err());
    assert_eq!(gas.cost, 55);

    let (ok, gas) = api.human_address(&CanonicalAddr(Binary(vec![97; 10])));
    assert!(ok.is_ok());
    assert_eq!(gas.cost, 44);
    let (err, gas) = api.human_address(&CanonicalAddr(Binary(vec![97; 9])));
    assert!(err.is_err());
    assert_eq!(gas.cost, 44);
}

#[test]
fn failing_api_fails_every_call_with_its_message() {
    let api = MockApi::new_failing(20, "backend is down");
    let down = FfiError::Unknown { msg: "backend is down".to_string() };

    for text in ["shorty", "x", "", "much-longer-than-twenty-bytes"] {
        let (result, gas) = api.canonical_address(&HumanAddr::from(text));
        assert_eq!(result, Err(down.clone()));
        assert_eq!(gas.cost, 55);
    }
    for bytes in [vec![97; 20], vec![97; 3], vec![], vec![0xff; 20]] {
        let (result, gas) = api.human_address(&CanonicalAddr(Binary(bytes)));
        assert_eq!(result, Err(down.clone()));
        assert_eq!(gas.cost, 44);
    }
}

#[test]
fn default_api_has_width_twenty() {
    let api = MockApi::default();
    let canon = api.canonical_address(&HumanAddr::from("exactly-twenty-bytes")).0.unwrap();
    assert_eq!(canon.len(), 20);
    assert_eq!(canon.as_slice(), "exactly-twenty-bytes".as_bytes());
    assert!(api.canonical_address(&HumanAddr::from("twenty-one-bytes-long")).0.is_err());
    assert!(api.human_address(&CanonicalAddr(Binary(vec![97; 20]))).0.is_ok());
    assert!(api.human_address(&CanonicalAddr(Binary(vec![97; 21]))).0.is_err());
}

#[test]
fn api_can_be_copied() {
    let api = MockApi::new(7);
    let copy = api;
    let human = HumanAddr::from("seven");
    assert_eq!(api.canonical_address(&human).0, copy.canonical_address(&human).0);
}

fn round_trip_through<A: Api>(api: &A, text: &str) -> (usize, String, u64) {
    let (canonical, gas_there) = api.canonical_address(&HumanAddr::from(text));
    let canonical = canonical.unwrap();
    let (human, gas_back) = api.human_address(&canonical);
    (canonical.len(), human.unwrap().0, gas_there.cost + gas_back.cost)
}

#[test]
fn api_is_usable_through_the_trait() {
    assert_eq!(round_trip_through(&MockApi::new(12), "abcdef"), (12, "abcdef".to_string(), 99));
}

#[test]
fn error_constructors_keep_kind_and_message() {
    assert_eq!(FfiError::user_err("bad"), FfiError::UserErr { msg: "bad".to_string() });
    assert_eq!(FfiError::unknown("down"), FfiError::Unknown { msg: "down".to_string() });
}

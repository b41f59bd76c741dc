use workspace_engine::account::{AccountId, ParseAccountError};

#[test]
fn parse_accepts_valid_ids() {
    for id in [
        "ab",
        "aurora.test.near",
        "prover.test.near",
        "a0",
        "0a",
        "a-b_c.d-e",
        "sub.account.with.many.parts",
        "aaaaaaaaaaaaaaaaaaaaaaaaaaaaaaaaaaaaaaaaaaaaaaaaaaaaaaaaaaaaaaaa",
    ] {
        let parsed = AccountId::parse(id).unwrap();
        assert_eq!(parsed.as_str(), id);
    }
}

#[test]
fn parse_rejects_short_and_long() {
    assert_eq!(AccountId::parse("").unwrap_err(), ParseAccountError::TooShort);
    assert_eq!(AccountId::parse("a").unwrap_err(), ParseAccountError::TooShort);
    let too_long = "a".repeat(65);
    assert_eq!(
        AccountId::parse(&too_long).unwrap_err(),
        ParseAccountError::TooLong
    );
}

#[test]
fn parse_rejects_misplaced_separators() {
    for id in [
        ".ab", "-ab", "_ab", "ab.", "ab-", "ab_", "a..b", "a.-b", "a--b", "a_.b",
    ] {
        assert_eq!(
            AccountId::parse(id).unwrap_err(),
            ParseAccountError::Invalid,
            "{id:?} should be invalid"
        );
    }
}

#[test]
fn parse_rejects_characters_outside_the_alphabet() {
    for id in ["Ab", "aB", "a b", "a/b", "a@b", "a\u{e9}b", "\u{4e9c}\u{4e9c}"] {
        assert_eq!(
            AccountId::parse(id).unwrap_err(),
            ParseAccountError::Invalid,
            "{id:?} should be invalid"
        );
    }
}

#[test]
fn parse_accepts_exactly_64_characters() {
    let max = "a".repeat(64);
    assert!(AccountId::parse(&max).is_ok());
}

#[test]
fn parse_agrees_with_the_network_runtime() {
    for id in [
        "ab",
        "a",
        "",
        "aurora.test.near",
        "prover.test.near",
        "a-b_c.d-e",
        "a--b",
        "a..b",
        "a._b",
        ".ab",
        "ab.",
        "-ab",
        "ab_",
        "Ab",
        "a b",
        "a/b",
        "0x123",
        "sub.account.with.many.parts",
    ] {
        let ours = workspace_engine::account::AccountId::parse(id);
        let runtime = id.parse::<workspaces::AccountId>();
        assert_eq!(
            ours.is_ok(),
            runtime.is_ok(),
            "{id:?}: library {ours:?}, runtime {runtime:?}"
        );
    }
    let max = "a".repeat(64);
    assert!(workspace_engine::account::AccountId::parse(&max).is_ok());
    assert!(max.parse::<workspaces::AccountId>().is_ok());
    let long = "a".repeat(65);
    assert!(workspace_engine::account::AccountId::parse(&long).is_err());
    assert!(long.parse::<workspaces::AccountId>().is_err());
}

#[test]
fn parse_round_trips_through_as_str() {
    let first = AccountId::parse("relayer.aurora").unwrap();
    let second = AccountId::parse(first.as_str()).unwrap();
    assert_eq!(first, second);
}

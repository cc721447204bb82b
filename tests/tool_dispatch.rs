use aptos_cli::build_info::key_lt;
use aptos_cli::text::{decimal_string, format_funded};
use aptos_cli::{AccountTool, Action, BuildInfo, CliError, Event, FundAccount, InfoTool, Output, Session, Tool};

fn fund_tool() -> Tool {
    Tool::Account(AccountTool::Fund(FundAccount {
        profile: "default".to_string(),
        account: "0xABC".to_string(),
        faucet_url: "http://faucet.test".to_string(),
        num_coins: 100,
        rest_url: "http://rest.test".to_string(),
    }))
}

fn pairs(items: &[(&str, &str)]) -> Vec<(String, String)> {
    items.iter().map(|(k, v)| (k.to_string(), v.to_string())).collect()
}

fn info_of(collected: Vec<(String, String)>) -> Vec<(String, String)> {
    let (session, action) = Tool::Info(InfoTool {}).execute();
    assert_eq!(action, Action::CollectBuildInfo);
    let (session, action) = session.step(Event::BuildInfoCollected(collected));
    assert!(session.is_finished());
    match action {
        Action::Finish(Ok(Output::Info(info))) => info.entries().clone(),
        other => panic!("unexpected action {:?}", other),
    }
}

#[test]
fn every_variant_has_its_own_path() {
    let tools = vec![fund_tool(), Tool::Info(InfoTool {})];
    let mut firsts = Vec::new();
    for tool in tools {
        let (session, action) = tool.execute();
        assert!(!session.is_finished());
        firsts.push(match action {
            Action::RequestFunds { .. } => "request_funds",
            Action::CollectBuildInfo => "collect_build_info",
            other => panic!("unexpected first action {:?}", other),
        });
    }
    assert_eq!(firsts, vec!["request_funds", "collect_build_info"]);
}

#[test]
fn dispatch_forwards_results_unchanged() {
    let (session, _) = fund_tool().execute();
    let err = CliError::TransportError("faucet down".to_string());
    let (_, action) = session.step(Event::Funded(Err(err.clone())));
    assert_eq!(action, Action::Finish(Err(err)));
}

#[test]
fn build_info_sorted_and_deterministic() {
    let collected = pairs(&[
        ("build_pkg_version", "0.1.0"),
        ("build_commit_hash", "abc123"),
        ("build_target", "x86_64"),
        ("build_branch", "main"),
    ]);
    let first = info_of(collected.clone());
    let second = info_of(collected);
    assert_eq!(first, second);
    assert_eq!(
        first,
        pairs(&[
            ("build_branch", "main"),
            ("build_commit_hash", "abc123"),
            ("build_pkg_version", "0.1.0"),
            ("build_target", "x86_64"),
        ])
    );
}

#[test]
fn build_info_later_value_wins() {
    let info = info_of(pairs(&[("b", "1"), ("a", "2"), ("b", "3"), ("ab", "4"), ("", "5")]));
    assert_eq!(info, pairs(&[("", "5"), ("a", "2"), ("ab", "4"), ("b", "3")]));
}

#[test]
fn build_info_empty() {
    assert!(info_of(vec![]).is_empty());
    assert_eq!(BuildInfo::new().len(), 0);
}

#[test]
fn build_info_insert_replaces() {
    let mut info = BuildInfo::new();
    info.insert("z".to_string(), "1".to_string());
    info.insert("y".to_string(), "2".to_string());
    info.insert("z".to_string(), "3".to_string());
    assert_eq!(info.len(), 2);
    assert_eq!(info.entries(), &pairs(&[("y", "2"), ("z", "3")]));
    let from = BuildInfo::from_pairs(pairs(&[("z", "1"), ("y", "2"), ("z", "3")]));
    assert_eq!(from, info);
}

#[test]
fn key_order_matches_string_order() {
    let words = ["", "a", "ab", "b", "B", "é", "z", "aa", "ba"];
    for x in words {
        for y in words {
            assert_eq!(key_lt(&x.to_string(), &y.to_string()), x < y, "{} {}", x, y);
        }
    }
}

#[test]
fn decimal_digits() {
    assert_eq!(decimal_string(0), "0");
    assert_eq!(decimal_string(9), "9");
    assert_eq!(decimal_string(10), "10");
    assert_eq!(decimal_string(1234567890), "1234567890");
    assert_eq!(decimal_string(u64::MAX), "18446744073709551615");
    assert_eq!(format_funded(100, &"0xABC".to_string()), "Added 100 coins to account 0xABC");
}

#[test]
fn info_command_name() {
    assert_eq!(InfoTool {}.command_name(), "GetCLIInfo");
}

#[test]
fn info_ignores_funding_events() {
    let (session, _) = Tool::Info(InfoTool {}).execute();
    assert_eq!(session, Session::InfoRequested);
    let (_, action) = session.step(Event::Confirmed(Ok(())));
    assert!(matches!(action, Action::Finish(Err(CliError::UnexpectedError(_)))));
}

use aptos_cli::fund::compute_deadline;
use aptos_cli::{
    AccountTool, Action, CliError, Event, FundAccount, Output, PendingTransactionId, Session, Tool,
};

fn txn(n: u8) -> PendingTransactionId {
    PendingTransactionId { hash: [n; 32] }
}

fn command(account: &str, num_coins: u64) -> FundAccount {
    FundAccount {
        profile: "default".to_string(),
        account: account.to_string(),
        faucet_url: "http://faucet.test".to_string(),
        num_coins,
        rest_url: "http://rest.test".to_string(),
    }
}

fn message(action: &Action) -> Option<String> {
    match action {
        Action::Finish(Ok(Output::Message(m))) => Some(m.clone()),
        _ => None,
    }
}

/// Drives a funding with the faucet answer, the clock and the wait outcomes,
/// and returns the waits asked for and the final action.
fn drive(
    c: FundAccount,
    faucet: Result<Vec<PendingTransactionId>, CliError>,
    clock: Result<u64, String>,
    waits: Vec<Result<(), CliError>>,
) -> (Vec<(PendingTransactionId, u64)>, Action) {
    let (mut session, mut action) = Tool::Account(AccountTool::Fund(c)).execute();
    let mut polled = Vec::new();
    let mut outcomes = waits.into_iter();
    let mut faucet = Some(faucet);
    let mut clock = Some(clock);
    loop {
        let event = match &action {
            Action::RequestFunds { .. } => Event::Funded(faucet.take().unwrap()),
            Action::ReadClock => Event::Clock(clock.take().unwrap()),
            Action::WaitForTransaction { id, deadline, rest_url } => {
                assert_eq!(rest_url, "http://rest.test");
                polled.push((*id, *deadline));
                Event::Confirmed(outcomes.next().unwrap())
            }
            Action::CollectBuildInfo => panic!("a funding does not collect build information"),
            Action::Finish(_) => break,
        };
        let (s, a) = session.step(event);
        session = s;
        action = a;
    }
    assert!(session.is_finished());
    (polled, action)
}

#[test]
fn first_action_asks_the_faucet() {
    let (session, action) = command("0xABC", 100).execute();
    assert_eq!(session, Session::FundRequested(command("0xABC", 100)));
    assert_eq!(
        action,
        Action::RequestFunds {
            faucet_url: "http://faucet.test".to_string(),
            amount: 100,
            address: "0xABC".to_string(),
        }
    );
}

#[test]
fn no_pending_transactions_succeeds_at_once() {
    for n in [0u64, 1, 42, 10000, u64::MAX] {
        let (polled, last) = drive(command("0x1", n), Ok(vec![]), Ok(1_000), vec![]);
        assert!(polled.is_empty());
        assert_eq!(message(&last), Some(format!("Added {} coins to account 0x1", n)));
    }
}

#[test]
fn waits_follow_faucet_order_with_one_deadline() {
    let ids = vec![txn(3), txn(1), txn(2), txn(9)];
    let ok: Vec<Result<(), CliError>> = vec![Ok(()), Ok(()), Ok(()), Ok(())];
    let (polled, last) = drive(command("0x5", 7), Ok(ids.clone()), Ok(500), ok);
    let expected: Vec<(PendingTransactionId, u64)> = ids.iter().map(|id| (*id, 510)).collect();
    assert_eq!(polled, expected);
    assert_eq!(message(&last), Some("Added 7 coins to account 0x5".to_string()));
}

#[test]
fn deadline_in_the_past_times_out_on_first_wait() {
    let ids = vec![txn(1), txn(2), txn(3)];
    let timeout = CliError::TimeoutError("deadline passed".to_string());
    let (polled, last) = drive(command("0xABC", 100), Ok(ids), Ok(0), vec![Err(timeout.clone())]);
    assert_eq!(polled.len(), 1);
    assert_eq!(polled[0], (txn(1), 10));
    assert_eq!(last, Action::Finish(Err(timeout)));
}

#[test]
fn round_trip_message() {
    let ids = vec![txn(4)];
    let (_, last) = drive(command("0xdead", 123456789), Ok(ids), Ok(77), vec![Ok(())]);
    assert_eq!(message(&last), Some("Added 123456789 coins to account 0xdead".to_string()));
}

#[test]
fn scenario_two_transactions_confirmed() {
    let ids = vec![txn(1), txn(2)];
    let (polled, last) = drive(command("0xABC", 100), Ok(ids), Ok(1_650_000_000), vec![Ok(()), Ok(())]);
    assert_eq!(polled, vec![(txn(1), 1_650_000_010), (txn(2), 1_650_000_010)]);
    assert_eq!(message(&last), Some("Added 100 coins to account 0xABC".to_string()));
}

#[test]
fn scenario_timeout_on_second_transaction() {
    let ids = vec![txn(1), txn(2)];
    let timeout = CliError::TimeoutError("transaction 2 not committed".to_string());
    let (polled, last) = drive(
        command("0xABC", 100),
        Ok(ids),
        Ok(1_650_000_000),
        vec![Ok(()), Err(timeout.clone())],
    );
    assert_eq!(polled.len(), 2);
    assert_eq!(last, Action::Finish(Err(timeout)));
    assert_eq!(message(&last), None);
}

#[test]
fn transport_error_on_wait_stops_polling() {
    let ids = vec![txn(1), txn(2), txn(3)];
    let err = CliError::TransportError("connection reset".to_string());
    let (polled, last) = drive(command("0x2", 1), Ok(ids), Ok(5), vec![Ok(()), Err(err.clone())]);
    assert_eq!(polled, vec![(txn(1), 15), (txn(2), 15)]);
    assert_eq!(last, Action::Finish(Err(err)));
}

#[test]
fn faucet_error_is_forwarded() {
    let err = CliError::TransportError("faucet unreachable".to_string());
    let (polled, last) = drive(command("0x2", 1), Err(err.clone()), Ok(5), vec![]);
    assert!(polled.is_empty());
    assert_eq!(last, Action::Finish(Err(err)));
}

#[test]
fn clock_error_is_unexpected() {
    let (polled, last) = drive(command("0x2", 1), Ok(vec![txn(1)]), Err("clock before epoch".to_string()), vec![]);
    assert!(polled.is_empty());
    assert_eq!(
        last,
        Action::Finish(Err(CliError::UnexpectedError("clock before epoch".to_string())))
    );
}

#[test]
fn event_out_of_order_is_unexpected() {
    let (session, _) = command("0x2", 1).execute();
    let (session, action) = session.step(Event::Clock(Ok(3)));
    assert!(session.is_finished());
    match action {
        Action::Finish(Err(e)) => {
            assert!(matches!(e, CliError::UnexpectedError(_)));
            assert!(!e.is_timeout());
            assert_eq!(e.message(), "the event does not answer the pending action");
        }
        other => panic!("unexpected action {:?}", other),
    }
}

#[test]
fn finished_session_asks_nothing_more() {
    let (session, action) = Session::Finished.step(Event::Confirmed(Ok(())));
    assert_eq!(session, Session::Finished);
    assert!(matches!(action, Action::Finish(Err(CliError::UnexpectedError(_)))));
}

#[test]
fn deadline_saturates() {
    assert_eq!(compute_deadline(0), 10);
    assert_eq!(compute_deadline(1_000), 1_010);
    assert_eq!(compute_deadline(u64::MAX - 10), u64::MAX);
    assert_eq!(compute_deadline(u64::MAX - 3), u64::MAX);
}

#[test]
fn fund_command_name() {
    assert_eq!(command("0x1", 1).command_name(), "FundAccount");
}

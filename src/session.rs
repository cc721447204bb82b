use vstd::prelude::*;
use crate::build_info::{entries_of, pairs_view, BuildInfo};
use crate::error::{CliError, ErrorModel};
use crate::fund::{compute_deadline, deadline_after, FundAccount, PendingTransactionId};
use crate::text::{format_funded, funded_message};

verus! {

/// Show build information about the command-line client.
///
/// Useful for debugging and for telling which versions are compatible.
#[derive(Debug, PartialEq, Eq)]
pub struct InfoTool {}

/// Commands on accounts.
#[derive(Debug, PartialEq, Eq)]
pub enum AccountTool {
    Fund(FundAccount),
}

/// The closed set of commands a user can select.
#[derive(Debug, PartialEq, Eq)]
pub enum Tool {
    Account(AccountTool),
    Info(InfoTool),
}

/// The typed success payload of a finished command.
#[derive(Debug, PartialEq, Eq)]
pub enum Output {
    /// A message for the user.
    Message(String),
    /// Build information, sorted by key.
    Info(BuildInfo),
}

/// Outside work a running command asks for, or its final result.
#[derive(Debug, PartialEq, Eq)]
pub enum Action {
    /// Ask the faucet at `faucet_url` for `amount` coins for `address`; answer
    /// with [`Event::Funded`].
    RequestFunds { faucet_url: String, amount: u64, address: String },
    /// Read the wall clock in seconds since the epoch; answer with [`Event::Clock`].
    ReadClock,
    /// Wait, through the REST endpoint, until transaction `id` is committed or
    /// `deadline` (seconds since the epoch) passes; answer with [`Event::Confirmed`].
    WaitForTransaction { rest_url: String, id: PendingTransactionId, deadline: u64 },
    /// Collect the build information; answer with [`Event::BuildInfoCollected`].
    CollectBuildInfo,
    /// The command is over with this result.
    Finish(Result<Output, CliError>),
}

/// The answer to an [`Action`].
#[derive(Debug, PartialEq, Eq)]
pub enum Event {
    /// The faucet's answer: the pending transactions in submission order.
    Funded(Result<Vec<PendingTransactionId>, CliError>),
    /// The clock, in seconds since the epoch, or why it could not be read.
    Clock(Result<u64, String>),
    /// The outcome of waiting for one transaction.
    Confirmed(Result<(), CliError>),
    /// The collected build information, as key/value pairs.
    BuildInfoCollected(Vec<(String, String)>),
}

/// A command in progress. Each step consumes the session and gives the next.
#[derive(Debug, PartialEq, Eq)]
pub enum Session {
    /// Funds were asked for.
    FundRequested(FundAccount),
    /// The faucet answered with these transactions; the clock was asked for.
    FundSubmitted(FundAccount, Vec<PendingTransactionId>),
    /// Waiting for the transaction at the index, under the shared deadline.
    FundConfirming(FundAccount, Vec<PendingTransactionId>, usize, u64),
    /// Build information was asked for.
    InfoRequested,
    /// The command is over.
    Finished,
}

/// Mathematical model of an [`Output`].
pub enum OutputModel {
    Message(Seq<char>),
    Info(Seq<(Seq<char>, Seq<char>)>),
}

/// Mathematical model of an [`Action`].
pub enum ActionModel {
    RequestFunds { faucet_url: Seq<char>, amount: u64, address: Seq<char> },
    ReadClock,
    WaitForTransaction { rest_url: Seq<char>, id: PendingTransactionId, deadline: u64 },
    CollectBuildInfo,
    Finish(Result<OutputModel, ErrorModel>),
}

/// Mathematical model of an [`Event`].
pub enum EventModel {
    Funded(Result<Seq<PendingTransactionId>, ErrorModel>),
    Clock(Result<u64, Seq<char>>),
    Confirmed(Result<(), ErrorModel>),
    BuildInfoCollected(Seq<(Seq<char>, Seq<char>)>),
}

/// Mathematical model of a [`Session`]: the command is kept as it is.
pub enum SessionModel {
    FundRequested(FundAccount),
    FundSubmitted(FundAccount, Seq<PendingTransactionId>),
    FundConfirming(FundAccount, Seq<PendingTransactionId>, int, u64),
    InfoRequested,
    Finished,
}

impl View for Output {
    type V = OutputModel;

    open spec fn view(&self) -> OutputModel {
        match self {
            Output::Message(m) => OutputModel::Message(m@),
            Output::Info(b) => OutputModel::Info(b@),
        }
    }
}

impl View for Action {
    type V = ActionModel;

    open spec fn view(&self) -> ActionModel {
        match self {
            Action::RequestFunds { faucet_url, amount, address } => ActionModel::RequestFunds {
                faucet_url: faucet_url@,
                amount: *amount,
                address: address@,
            },
            Action::ReadClock => ActionModel::ReadClock,
            Action::WaitForTransaction { rest_url, id, deadline } => ActionModel::WaitForTransaction {
                rest_url: rest_url@,
                id: *id,
                deadline: *deadline,
            },
            Action::CollectBuildInfo => ActionModel::CollectBuildInfo,
            Action::Finish(Ok(o)) => ActionModel::Finish(Ok(o@)),
            Action::Finish(Err(e)) => ActionModel::Finish(Err(e@)),
        }
    }
}

impl View for Event {
    type V = EventModel;

    open spec fn view(&self) -> EventModel {
        match self {
            Event::Funded(Ok(ids)) => EventModel::Funded(Ok(ids@)),
            Event::Funded(Err(e)) => EventModel::Funded(Err(e@)),
            Event::Clock(Ok(t)) => EventModel::Clock(Ok(*t)),
            Event::Clock(Err(m)) => EventModel::Clock(Err(m@)),
            Event::Confirmed(Ok(())) => EventModel::Confirmed(Ok(())),
            Event::Confirmed(Err(e)) => EventModel::Confirmed(Err(e@)),
            Event::BuildInfoCollected(pairs) => EventModel::BuildInfoCollected(pairs_view(pairs@)),
        }
    }
}

impl View for Session {
    type V = SessionModel;

    open spec fn view(&self) -> SessionModel {
        match self {
            Session::FundRequested(c) => SessionModel::FundRequested(*c),
            Session::FundSubmitted(c, ids) => SessionModel::FundSubmitted(*c, ids@),
            Session::FundConfirming(c, ids, i, d) => SessionModel::FundConfirming(*c, ids@, *i as int, *d),
            Session::InfoRequested => SessionModel::InfoRequested,
            Session::Finished => SessionModel::Finished,
        }
    }
}

/// Description of the error given for an event that the session did not ask for.
pub open spec fn out_of_order_text() -> Seq<char> {
    "the event does not answer the pending action"@
}

/// The error given for an event that the session did not ask for.
pub open spec fn out_of_order() -> (SessionModel, ActionModel) {
    (SessionModel::Finished, ActionModel::Finish(Err(ErrorModel::Unexpected(out_of_order_text()))))
}

/// The success result of a funding.
pub open spec fn funded(c: FundAccount) -> ActionModel {
    ActionModel::Finish(Ok(OutputModel::Message(funded_message(c.num_coins, c.account@))))
}

/// The wait for `id` in a funding of `c` under deadline `d`.
pub open spec fn wait_for(c: FundAccount, id: PendingTransactionId, d: u64) -> ActionModel {
    ActionModel::WaitForTransaction { rest_url: c.rest_url@, id, deadline: d }
}

/// The first step of a command: its session and the first action.
pub open spec fn start(t: Tool) -> (SessionModel, ActionModel) {
    match t {
        Tool::Account(AccountTool::Fund(c)) => (
            SessionModel::FundRequested(c),
            ActionModel::RequestFunds {
                faucet_url: c.faucet_url@,
                amount: c.num_coins,
                address: c.account@,
            },
        ),
        Tool::Info(_) => (SessionModel::InfoRequested, ActionModel::CollectBuildInfo),
    }
}

/// How a session answers an event: its next state and the next action.
pub open spec fn next(s: SessionModel, e: EventModel) -> (SessionModel, ActionModel) {
    match s {
        SessionModel::FundRequested(c) => match e {
            EventModel::Funded(Ok(ids)) => (SessionModel::FundSubmitted(c, ids), ActionModel::ReadClock),
            EventModel::Funded(Err(err)) => (SessionModel::Finished, ActionModel::Finish(Err(err))),
            _ => out_of_order(),
        },
        SessionModel::FundSubmitted(c, ids) => match e {
            EventModel::Clock(Ok(now)) => if ids.len() == 0 {
                (SessionModel::Finished, funded(c))
            } else {
                let d = deadline_after(now);
                (SessionModel::FundConfirming(c, ids, 0, d), wait_for(c, ids[0], d))
            },
            EventModel::Clock(Err(m)) => (
                SessionModel::Finished,
                ActionModel::Finish(Err(ErrorModel::Unexpected(m))),
            ),
            _ => out_of_order(),
        },
        SessionModel::FundConfirming(c, ids, i, d) => match e {
            EventModel::Confirmed(Ok(())) => if i + 1 < ids.len() {
                (SessionModel::FundConfirming(c, ids, i + 1, d), wait_for(c, ids[i + 1], d))
            } else {
                (SessionModel::Finished, funded(c))
            },
            EventModel::Confirmed(Err(err)) => (SessionModel::Finished, ActionModel::Finish(Err(err))),
            _ => out_of_order(),
        },
        SessionModel::InfoRequested => match e {
            EventModel::BuildInfoCollected(pairs) => (
                SessionModel::Finished,
                ActionModel::Finish(Ok(OutputModel::Info(entries_of(pairs)))),
            ),
            _ => out_of_order(),
        },
        SessionModel::Finished => out_of_order(),
    }
}

fn out_of_order_error() -> (r: (Session, Action))
    ensures
        (r.0@, r.1@) == out_of_order(),
{
    let m = String::from_str("the event does not answer the pending action");
    (Session::Finished, Action::Finish(Err(CliError::UnexpectedError(m))))
}

fn funded_result(c: &FundAccount) -> (r: Action)
    ensures
        r@ == funded(*c),
{
    Action::Finish(Ok(Output::Message(format_funded(c.num_coins, &c.account))))
}

impl FundAccount {
    /// Starts the funding: ask the faucet for the coins.
    pub fn execute(self) -> (r: (Session, Action))
        ensures
            (r.0@, r.1@) == start(Tool::Account(AccountTool::Fund(self))),
    {
        let faucet_url = self.faucet_url.clone();
        let address = self.account.clone();
        let amount = self.num_coins;
        (Session::FundRequested(self), Action::RequestFunds { faucet_url, amount, address })
    }
}

impl InfoTool {
    /// Stable name of the command, for logging and telemetry.
    pub fn command_name(&self) -> (r: &'static str)
        ensures
            r@ == "GetCLIInfo"@,
    {
        "GetCLIInfo"
    }

    /// Starts the command: ask for the build information.
    pub fn execute(self) -> (r: (Session, Action))
        ensures
            (r.0@, r.1@) == start(Tool::Info(self)),
    {
        (Session::InfoRequested, Action::CollectBuildInfo)
    }
}

impl AccountTool {
    /// Starts the selected account command.
    pub fn execute(self) -> (r: (Session, Action))
        ensures
            (r.0@, r.1@) == start(Tool::Account(self)),
    {
        match self {
            AccountTool::Fund(c) => c.execute(),
        }
    }
}

impl Tool {
    /// Starts the selected command. Each command has its own path; nothing is
    /// translated on the way.
    pub fn execute(self) -> (r: (Session, Action))
        ensures
            (r.0@, r.1@) == start(self),
    {
        match self {
            Tool::Account(tool) => tool.execute(),
            Tool::Info(tool) => tool.execute(),
        }
    }
}

impl Session {
    /// True once the command is over.
    pub fn is_finished(&self) -> (r: bool)
        ensures
            r == (self@ is Finished),
    {
        match self {
            Session::Finished => true,
            _ => false,
        }
    }

    /// Answers `event`: gives the next session and the next action.
    pub fn step(self, event: Event) -> (r: (Session, Action))
        ensures
            (r.0@, r.1@) == next(self@, event@),
    {
        match self {
            Session::FundRequested(c) => match event {
                Event::Funded(Ok(ids)) => (Session::FundSubmitted(c, ids), Action::ReadClock),
                Event::Funded(Err(err)) => (Session::Finished, Action::Finish(Err(err))),
                _ => out_of_order_error(),
            },
            Session::FundSubmitted(c, ids) => match event {
                Event::Clock(Ok(now)) => {
                    if ids.len() == 0 {
                        (Session::Finished, funded_result(&c))
                    } else {
                        let d = compute_deadline(now);
                        let id = ids[0];
                        let rest_url = c.rest_url.clone();
                        (
                            Session::FundConfirming(c, ids, 0, d),
                            Action::WaitForTransaction { rest_url, id, deadline: d },
                        )
                    }
                },
                Event::Clock(Err(m)) => (
                    Session::Finished,
                    Action::Finish(Err(CliError::UnexpectedError(m))),
                ),
                _ => out_of_order_error(),
            },
            Session::FundConfirming(c, ids, i, d) => match event {
                Event::Confirmed(Ok(())) => {
                    if ids.len() > 0 && i < ids.len() - 1 {
                        let id = ids[i + 1];
                        let rest_url = c.rest_url.clone();
                        (
                            Session::FundConfirming(c, ids, i + 1, d),
                            Action::WaitForTransaction { rest_url, id, deadline: d },
                        )
                    } else {
                        (Session::Finished, funded_result(&c))
                    }
                },
                Event::Confirmed(Err(err)) => (Session::Finished, Action::Finish(Err(err))),
                _ => out_of_order_error(),
            },
            Session::InfoRequested => match event {
                Event::BuildInfoCollected(pairs) => {
                    let info = BuildInfo::from_pairs(pairs);
                    (Session::Finished, Action::Finish(Ok(Output::Info(info))))
                },
                _ => out_of_order_error(),
            },
            Session::Finished => out_of_order_error(),
        }
    }
}

} // verus!

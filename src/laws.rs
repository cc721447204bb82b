use vstd::prelude::*;
use crate::build_info::{entries_of, lemma_insert_sorted, strictly_sorted};
use crate::error::ErrorModel;
use crate::fund::{deadline_after, FundAccount, PendingTransactionId};
use crate::session::{
    funded, next, out_of_order, start, wait_for, AccountTool, ActionModel, EventModel,
    OutputModel, SessionModel, Tool,
};

verus! {

/// The states and actions of a session answering `events` in turn: the final
/// state, and one action per event.
pub open spec fn run(s: SessionModel, events: Seq<EventModel>) -> (SessionModel, Seq<ActionModel>)
    decreases events.len(),
{
    if events.len() == 0 {
        (s, Seq::empty())
    } else {
        let step = next(s, events[0]);
        let rest = run(step.0, events.drop_first());
        (rest.0, seq![step.1] + rest.1)
    }
}

/// `k` successful confirmations.
pub open spec fn confirmations(k: nat) -> Seq<EventModel> {
    Seq::new(k, |i: int| EventModel::Confirmed(Ok(())))
}

/// The waits, in order, for `ids` in a funding of `c` under deadline `d`.
pub open spec fn waits(c: FundAccount, ids: Seq<PendingTransactionId>, d: u64) -> Seq<ActionModel> {
    ids.map_values(|id: PendingTransactionId| wait_for(c, id, d))
}

/// The events of a funding up to the first wait: the faucet gave `ids` and the
/// clock read `now`.
pub open spec fn submitted(ids: Seq<PendingTransactionId>, now: u64) -> Seq<EventModel> {
    seq![EventModel::Funded(Ok(ids)), EventModel::Clock(Ok(now))]
}

proof fn lemma_run_cons(s: SessionModel, e: EventModel, rest: Seq<EventModel>)
    ensures
        run(s, seq![e] + rest) == (
            run(next(s, e).0, rest).0,
            seq![next(s, e).1] + run(next(s, e).0, rest).1,
        ),
{
    assert((seq![e] + rest).drop_first() =~= rest);
}

proof fn lemma_confirm_rest(c: FundAccount, ids: Seq<PendingTransactionId>, i: int, d: u64)
    requires
        0 <= i < ids.len(),
    ensures
        run(SessionModel::FundConfirming(c, ids, i, d), confirmations((ids.len() - i) as nat)) == (
            SessionModel::Finished,
            waits(c, ids.subrange(i + 1, ids.len() as int), d) + seq![funded(c)],
        ),
    decreases ids.len() - i,
{
    let s = SessionModel::FundConfirming(c, ids, i, d);
    let evs = confirmations((ids.len() - i) as nat);
    assert(evs =~= seq![EventModel::Confirmed(Ok(()))] + confirmations((ids.len() - i - 1) as nat));
    lemma_run_cons(s, EventModel::Confirmed(Ok(())), confirmations((ids.len() - i - 1) as nat));
    if i + 1 < ids.len() {
        lemma_confirm_rest(c, ids, i + 1, d);
        assert(waits(c, ids.subrange(i + 1, ids.len() as int), d) =~= seq![wait_for(c, ids[i + 1], d)]
            + waits(c, ids.subrange(i + 2, ids.len() as int), d));
    } else {
        assert(confirmations(0) =~= Seq::<EventModel>::empty());
        assert(waits(c, ids.subrange(i + 1, ids.len() as int), d) =~= Seq::<ActionModel>::empty());
        assert(seq![funded(c)] + Seq::<ActionModel>::empty() =~= Seq::<ActionModel>::empty() + seq![funded(c)]);
    }
}

proof fn lemma_fail_rest(
    c: FundAccount,
    ids: Seq<PendingTransactionId>,
    i: int,
    d: u64,
    k: int,
    err: ErrorModel,
)
    requires
        0 <= i <= k < ids.len(),
    ensures
        run(
            SessionModel::FundConfirming(c, ids, i, d),
            confirmations((k - i) as nat) + seq![EventModel::Confirmed(Err(err))],
        ) == (
            SessionModel::Finished,
            waits(c, ids.subrange(i + 1, k + 1), d) + seq![ActionModel::Finish(Err(err))],
        ),
    decreases k - i,
{
    let s = SessionModel::FundConfirming(c, ids, i, d);
    let last = seq![EventModel::Confirmed(Err(err))];
    if i == k {
        assert(confirmations(0) + last =~= seq![EventModel::Confirmed(Err(err))] + Seq::<EventModel>::empty());
        lemma_run_cons(s, EventModel::Confirmed(Err(err)), Seq::<EventModel>::empty());
        assert(waits(c, ids.subrange(i + 1, k + 1), d) =~= Seq::<ActionModel>::empty());
        assert(seq![ActionModel::Finish(Err(err))] + Seq::<ActionModel>::empty()
            =~= Seq::<ActionModel>::empty() + seq![ActionModel::Finish(Err(err))]);
    } else {
        let rest = confirmations((k - i - 1) as nat) + last;
        assert(confirmations((k - i) as nat) + last =~= seq![EventModel::Confirmed(Ok(()))] + rest);
        lemma_run_cons(s, EventModel::Confirmed(Ok(())), rest);
        lemma_fail_rest(c, ids, i + 1, d, k, err);
        assert(waits(c, ids.subrange(i + 1, k + 1), d) =~= seq![wait_for(c, ids[i + 1], d)]
            + waits(c, ids.subrange(i + 2, k + 1), d));
    }
}

/// A funding whose faucet gives no pending transaction succeeds as soon as the
/// clock is read, without waiting for anything, and reports exactly the coins
/// asked for and the address.
pub proof fn lemma_no_pending_succeeds(c: FundAccount, now: u64)
    ensures
        start(Tool::Account(AccountTool::Fund(c))).1 == (ActionModel::RequestFunds {
            faucet_url: c.faucet_url@,
            amount: c.num_coins,
            address: c.account@,
        }),
        run(start(Tool::Account(AccountTool::Fund(c))).0, submitted(Seq::empty(), now)) == (
            SessionModel::Finished,
            seq![ActionModel::ReadClock, funded(c)],
        ),
{
    let s0 = start(Tool::Account(AccountTool::Fund(c))).0;
    let evs = submitted(Seq::empty(), now);
    lemma_run_cons(s0, evs[0], seq![evs[1]]);
    assert(evs =~= seq![evs[0]] + seq![evs[1]]);
    let s1 = next(s0, evs[0]).0;
    lemma_run_cons(s1, evs[1], Seq::empty());
    assert(seq![evs[1]] =~= seq![evs[1]] + Seq::<EventModel>::empty());
    assert(seq![ActionModel::ReadClock] + (seq![funded(c)] + Seq::<ActionModel>::empty())
        =~= seq![ActionModel::ReadClock, funded(c)]);
}

/// When every wait succeeds, a funding waits for the pending transactions
/// exactly in the order the faucet gave them, all under the one deadline taken
/// from the clock, and then reports the coins and the address.
pub proof fn lemma_waits_in_order(c: FundAccount, ids: Seq<PendingTransactionId>, now: u64)
    ensures
        run(
            start(Tool::Account(AccountTool::Fund(c))).0,
            submitted(ids, now) + confirmations(ids.len()),
        ) == (
            SessionModel::Finished,
            seq![ActionModel::ReadClock] + waits(c, ids, deadline_after(now)) + seq![funded(c)],
        ),
{
    if ids.len() == 0 {
        lemma_no_pending_succeeds(c, now);
        assert(ids =~= Seq::<PendingTransactionId>::empty());
        assert(submitted(ids, now) + confirmations(0) =~= submitted(Seq::empty(), now));
        assert(waits(c, ids, deadline_after(now)) =~= Seq::<ActionModel>::empty());
        assert(seq![ActionModel::ReadClock] + waits(c, ids, deadline_after(now)) + seq![funded(c)]
            =~= seq![ActionModel::ReadClock, funded(c)]);
    } else {
        let d = deadline_after(now);
        let s0 = start(Tool::Account(AccountTool::Fund(c))).0;
        let evs = submitted(ids, now) + confirmations(ids.len());
        let e0 = EventModel::Funded(Ok(ids));
        let e1 = EventModel::Clock(Ok(now));
        let oks = confirmations(ids.len());
        assert(evs =~= seq![e0] + (seq![e1] + oks));
        lemma_run_cons(s0, e0, seq![e1] + oks);
        let s1 = next(s0, e0).0;
        lemma_run_cons(s1, e1, oks);
        let s2 = SessionModel::FundConfirming(c, ids, 0, d);
        assert(next(s1, e1).0 == s2);
        lemma_confirm_rest(c, ids, 0, d);
        assert(waits(c, ids, d) =~= seq![wait_for(c, ids[0], d)] + waits(c, ids.subrange(1, ids.len() as int), d));
        assert(seq![ActionModel::ReadClock] + (seq![wait_for(c, ids[0], d)] + (waits(c, ids.subrange(1, ids.len() as int), d) + seq![funded(c)]))
            =~= seq![ActionModel::ReadClock] + waits(c, ids, d) + seq![funded(c)]);
    }
}

/// When the wait for the transaction at index `k` fails (a timeout or a
/// transport error) after the earlier ones succeeded, the funding ends with
/// exactly that error: no success message, and no transaction after index `k`
/// is waited for.
pub proof fn lemma_failed_wait_stops(
    c: FundAccount,
    ids: Seq<PendingTransactionId>,
    now: u64,
    k: int,
    err: ErrorModel,
)
    requires
        0 <= k < ids.len(),
    ensures
        run(
            start(Tool::Account(AccountTool::Fund(c))).0,
            submitted(ids, now) + confirmations(k as nat) + seq![EventModel::Confirmed(Err(err))],
        ) == (
            SessionModel::Finished,
            seq![ActionModel::ReadClock] + waits(c, ids.subrange(0, k + 1), deadline_after(now))
                + seq![ActionModel::Finish(Err(err))],
        ),
{
    let d = deadline_after(now);
    let s0 = start(Tool::Account(AccountTool::Fund(c))).0;
    let e0 = EventModel::Funded(Ok(ids));
    let e1 = EventModel::Clock(Ok(now));
    let tail = confirmations(k as nat) + seq![EventModel::Confirmed(Err(err))];
    assert(submitted(ids, now) + confirmations(k as nat) + seq![EventModel::Confirmed(Err(err))]
        =~= seq![e0] + (seq![e1] + tail));
    lemma_run_cons(s0, e0, seq![e1] + tail);
    let s1 = next(s0, e0).0;
    lemma_run_cons(s1, e1, tail);
    lemma_fail_rest(c, ids, 0, d, k, err);
    let fin = seq![ActionModel::Finish(Err(err))];
    assert(waits(c, ids.subrange(0, k + 1), d) =~= seq![wait_for(c, ids[0], d)] + waits(c, ids.subrange(1, k + 1), d));
    assert(seq![ActionModel::ReadClock] + (seq![wait_for(c, ids[0], d)] + (waits(c, ids.subrange(1, k + 1), d) + fin))
        =~= seq![ActionModel::ReadClock] + waits(c, ids.subrange(0, k + 1), d) + fin);
}

/// A finished session stays finished: whatever event comes, nothing more is
/// asked of the outside world.
pub proof fn lemma_finished_is_final(e: EventModel)
    ensures
        next(SessionModel::Finished, e) == out_of_order(),
        out_of_order().0 == SessionModel::Finished,
        out_of_order().1 is Finish,
{
}

/// Each command takes its own path: a funding first asks the faucet, the build
/// information command first asks for the build information, and neither
/// starts finished.
pub proof fn lemma_dispatch_paths(t: Tool)
    ensures
        t is Account ==> start(t).1 is RequestFunds,
        t is Info ==> start(t).1 is CollectBuildInfo,
        !(start(t).0 is Finished),
{
}

/// Build information is sorted by key, one entry per key, and is a function
/// of the collected pairs alone.
pub proof fn lemma_build_info_sorted(pairs: Seq<(Seq<char>, Seq<char>)>)
    ensures
        strictly_sorted(entries_of(pairs)),
        run(SessionModel::InfoRequested, seq![EventModel::BuildInfoCollected(pairs)]) == (
            SessionModel::Finished,
            seq![ActionModel::Finish(Ok(OutputModel::Info(entries_of(pairs))))],
        ),
    decreases pairs.len(),
{
    if pairs.len() > 0 {
        lemma_build_info_sorted(pairs.drop_last());
        lemma_insert_sorted(entries_of(pairs.drop_last()), pairs.last().0, pairs.last().1);
    }
    let e = EventModel::BuildInfoCollected(pairs);
    assert(seq![e] =~= seq![e] + Seq::<EventModel>::empty());
    lemma_run_cons(SessionModel::InfoRequested, e, Seq::empty());
    assert(seq![ActionModel::Finish(Ok(OutputModel::Info(entries_of(pairs))))] + Seq::<ActionModel>::empty()
        =~= seq![ActionModel::Finish(Ok(OutputModel::Info(entries_of(pairs))))]);
}

} // verus!

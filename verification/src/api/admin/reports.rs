//! Reports and logs: the month's usage by account, the cost by provider,
//! and the audit and call logs.

use vstd::prelude::*;
use crate::clock::period_shaped;

verus! {

/// Parameters of the reports: the month as `yyyymm` (the current month when
/// absent).
#[derive(Debug, Clone)]
pub struct ReportParams {
    pub period: Option<String>,
}

/// Parameters of the audit log listing.
#[derive(Debug, Clone)]
pub struct AuditLogParams {
    pub actor_kind: Option<String>,
    pub action: Option<String>,
    pub limit: Option<i64>,
    pub offset: Option<i64>,
}

/// Parameters of the call log listing.
#[derive(Debug, Clone)]
pub struct UsageLogParams {
    pub account_id: Option<String>,
    pub provider_id: Option<String>,
    pub limit: Option<i64>,
    pub offset: Option<i64>,
}

/// The month a report covers, given the current month: the requested one,
/// else the current one.
pub fn report_period_from(period: Option<String>, current: String) -> (r: String)
    ensures
        r == (match period { Some(p) => p, None => current }),
{
    match period {
        Some(p) => p,
        None => current,
    }
}

/// The month a report covers: the given one, else the current month (a
/// `%Y%m` month as chrono writes it).
pub fn report_period(period: Option<String>) -> (r: String)
    ensures
        period matches Some(p) ==> r == p,
        period is None ==> period_shaped(r@),
{
    match period {
        Some(p) => p,
        None => report_period_from(None, crate::clock::current_period()),
    }
}

/// The page of a log listing: 50 records from the start unless given.
pub fn log_page(limit: Option<i64>, offset: Option<i64>) -> (r: (i64, i64))
    ensures
        r.0 == (match limit { Some(l) => l, None => 50 }),
        r.1 == (match offset { Some(o) => o, None => 0 }),
{
    let l = match limit {
        Some(l) => l,
        None => 50,
    };
    let o = match offset {
        Some(o) => o,
        None => 0,
    };
    (l, o)
}

/// One account's aggregates for the month.
#[derive(Debug, Clone)]
pub struct AccountUsageRow {
    pub account_id: String,
    pub external_id: Option<String>,
    pub prompt_tokens: i64,
    pub completion_tokens: i64,
    pub credits: i64,
    pub calls: i64,
}

/// The usage report: the totals and the accounts that made calls.
#[derive(Debug)]
pub struct UsageReport {
    pub total_credits: i64,
    pub total_calls: i64,
    pub by_account: Vec<AccountUsageRow>,
}

/// The rows of the accounts that made calls this month, in order.
pub open spec fn reported_rows(rows: Seq<AccountUsageRow>) -> Seq<AccountUsageRow>
    decreases rows.len(),
{
    if rows.len() == 0 {
        Seq::empty()
    } else {
        let rest = reported_rows(rows.drop_last());
        if rows.last().calls > 0 { rest.push(rows.last()) } else { rest }
    }
}

/// The sum of the credits of some rows.
pub open spec fn credits_sum(rows: Seq<AccountUsageRow>) -> int
    decreases rows.len(),
{
    if rows.len() == 0 { 0 } else { credits_sum(rows.drop_last()) + rows.last().credits }
}

/// The sum of the calls of some rows.
pub open spec fn calls_sum(rows: Seq<AccountUsageRow>) -> int
    decreases rows.len(),
{
    if rows.len() == 0 { 0 } else { calls_sum(rows.drop_last()) + rows.last().calls }
}

/// Whether the running totals of the reported rows stay within `i64` (the
/// sums are taken in order).
pub open spec fn totals_fit(rows: Seq<AccountUsageRow>) -> bool {
    forall|k: int| 0 <= k <= rows.len() ==> {
        &&& i64::MIN <= #[trigger] credits_sum(reported_rows(rows.take(k))) <= i64::MAX
        &&& i64::MIN <= calls_sum(reported_rows(rows.take(k))) <= i64::MAX
    }
}

/// Builds the usage report from every account's aggregates: the accounts
/// with calls, and the sums of their credits and calls.
pub fn usage_report(rows: Vec<AccountUsageRow>) -> (r: UsageReport)
    requires
        totals_fit(rows@),
    ensures
        r.by_account@ == reported_rows(rows@),
        r.total_credits == credits_sum(reported_rows(rows@)),
        r.total_calls == calls_sum(reported_rows(rows@)),
{
    let ghost orig = rows@;
    let mut rest = rows;
    let mut kept: Vec<AccountUsageRow> = Vec::new();
    let mut credits: i64 = 0;
    let mut calls: i64 = 0;
    let ghost mut k: int = 0;
    assert(orig.take(0) =~= Seq::<AccountUsageRow>::empty());
    assert(orig.skip(0) =~= orig);
    while rest.len() > 0
        invariant
            0 <= k <= orig.len(),
            rest@ == orig.skip(k),
            totals_fit(orig),
            kept@ == reported_rows(orig.take(k)),
            credits == credits_sum(reported_rows(orig.take(k))),
            calls == calls_sum(reported_rows(orig.take(k))),
        decreases rest@.len(),
    {
        let row = rest.remove(0);
        proof {
            assert(row == orig[k]);
            assert(orig.take(k + 1).drop_last() =~= orig.take(k));
            assert(orig.take(k + 1).last() == row);
            assert(rest@ =~= orig.skip(k + 1));
        }
        if row.calls > 0 {
            proof {
                assert(reported_rows(orig.take(k + 1)) == reported_rows(orig.take(k)).push(row));
                assert(reported_rows(orig.take(k + 1)).drop_last() =~= reported_rows(orig.take(k)));
                assert(credits_sum(reported_rows(orig.take(k + 1))) == credits + row.credits);
                assert(calls_sum(reported_rows(orig.take(k + 1))) == calls + row.calls);
                assert(i64::MIN <= credits_sum(reported_rows(orig.take(k + 1))) <= i64::MAX);
            }
            credits = credits + row.credits;
            calls = calls + row.calls;
            kept.push(row);
        }
        proof {
            k = k + 1;
        }
    }
    proof {
        assert(orig.take(k) =~= orig);
    }
    UsageReport { total_credits: credits, total_calls: calls, by_account: kept }
}

/// The calls of a row counted when it made any (0 otherwise), summed.
pub open spec fn active_calls_total(rows: Seq<AccountUsageRow>) -> int
    decreases rows.len(),
{
    if rows.len() == 0 {
        0
    } else {
        active_calls_total(rows.drop_last()) + (if rows.last().calls > 0 { rows.last().calls as int } else { 0 })
    }
}

/// The credits of the rows that made calls, whatever those credits are.
pub open spec fn active_credits_total(rows: Seq<AccountUsageRow>) -> int
    decreases rows.len(),
{
    if rows.len() == 0 {
        0
    } else {
        active_credits_total(rows.drop_last()) + (if rows.last().calls > 0 { rows.last().credits as int } else { 0 })
    }
}

/// The report lists exactly the accounts that made calls: every row with
/// calls appears (whatever its credits), and every listed row is one of the
/// input rows and made calls.
pub proof fn lemma_report_lists_active_accounts(rows: Seq<AccountUsageRow>)
    ensures
        forall|i: int| 0 <= i < rows.len() && rows[i].calls > 0 ==> #[trigger] reported_rows(rows).contains(rows[i]),
        forall|j: int| 0 <= j < reported_rows(rows).len() ==>
            (#[trigger] reported_rows(rows)[j]).calls > 0 && rows.contains(reported_rows(rows)[j]),
    decreases rows.len(),
{
    if rows.len() > 0 {
        let init = rows.drop_last();
        lemma_report_lists_active_accounts(init);
        let rest = reported_rows(init);
        let last = rows.last();
        assert forall|i: int| 0 <= i < rows.len() && rows[i].calls > 0 implies #[trigger] reported_rows(rows).contains(rows[i]) by {
            if i < rows.len() - 1 {
                assert(init[i] == rows[i]);
                assert(rest.contains(init[i]));
                let k = choose|k: int| 0 <= k < rest.len() && rest[k] == init[i];
                if last.calls > 0 {
                    assert(reported_rows(rows)[k] == rest[k]);
                }
            } else {
                assert(reported_rows(rows) == rest.push(last));
                assert(reported_rows(rows)[rest.len() as int] == last);
            }
        }
        assert forall|j: int| 0 <= j < reported_rows(rows).len() implies
            (#[trigger] reported_rows(rows)[j]).calls > 0 && rows.contains(reported_rows(rows)[j]) by {
            if j < rest.len() {
                assert(reported_rows(rows)[j] == rest[j]);
                assert(rest[j].calls > 0 && init.contains(rest[j]));
                let k = choose|k: int| 0 <= k < init.len() && init[k] == rest[j];
                assert(rows[k] == init[k]);
            } else {
                assert(reported_rows(rows)[j] == last);
                assert(rows[rows.len() - 1] == last);
            }
        }
    }
}

/// The report's totals count every row that made calls: its calls and its
/// credits, whatever those credits are (a call that cost nothing still
/// counts as a call).
pub proof fn lemma_report_totals(rows: Seq<AccountUsageRow>)
    ensures
        calls_sum(reported_rows(rows)) == active_calls_total(rows),
        credits_sum(reported_rows(rows)) == active_credits_total(rows),
    decreases rows.len(),
{
    if rows.len() > 0 {
        lemma_report_totals(rows.drop_last());
        let rest = reported_rows(rows.drop_last());
        if rows.last().calls > 0 {
            assert(reported_rows(rows).drop_last() =~= rest);
        }
    }
}

} // verus!

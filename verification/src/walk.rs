//! The pagination walk: the decision logic of the page-by-page fetch.
//!
//! The walk consumes one normalized response per fetch, appends its records
//! to the accumulator in page order, and stops exactly when the reported
//! current page equals the reported total page count. Termination is driven
//! by the server's counters alone. `walk_step` is the per-response decision
//! an I/O loop drives; `walk_responses` runs the same walk over an already
//! fetched sequence of responses.

use vstd::prelude::*;
use crate::digits::dec_value;
use crate::domain::ErrView;
use crate::domain::Error;
use crate::normalize::Inscription;
use crate::normalize::InscriptionRaw;
use crate::normalize::ResponseRaw;
use crate::normalize::ins_matches;
use crate::normalize::process_response;
use crate::normalize::record_ok;
use crate::normalize::response_err;
use crate::normalize::response_ok;

verus! {

/// The response reports that its page is the last one: the current page
/// number equals the total page count.
pub open spec fn resp_terminal(r: ResponseRaw) -> bool {
    dec_value(r.data@[0].page@) == dec_value(r.data@[0].total_page@)
}

/// Index of the response at which a walk starting at `i` stops
/// successfully, or `None` when a response fails to normalize or the
/// sequence ends before a terminal page.
pub open spec fn walk_terminal(rs: Seq<ResponseRaw>, i: int) -> Option<int>
    decreases rs.len() - i,
{
    if i < 0 || i >= rs.len() {
        None
    } else if !response_ok(rs[i]) {
        None
    } else if resp_terminal(rs[i]) {
        Some(i)
    } else {
        walk_terminal(rs, i + 1)
    }
}

/// The error a failing walk starting at `i` reports.
pub open spec fn walk_err(rs: Seq<ResponseRaw>, i: int) -> ErrView
    decreases rs.len() - i,
{
    if i < 0 || i >= rs.len() {
        ErrView::TruncatedResponses
    } else if !response_ok(rs[i]) {
        response_err(rs[i])
    } else if resp_terminal(rs[i]) {
        ErrView::TruncatedResponses
    } else {
        walk_err(rs, i + 1)
    }
}

/// The raw records of the first `n` responses, in page order.
pub open spec fn flat_records(rs: Seq<ResponseRaw>, n: int) -> Seq<InscriptionRaw>
    decreases n,
{
    if n <= 0 {
        Seq::empty()
    } else {
        flat_records(rs, n - 1) + rs[n - 1].data@[0].inscriptions_list@
    }
}

/// Consumes one fetched response: normalizes it, appends its records to the
/// accumulator, and reports whether the server says this was the last page.
///
/// On any failure the accumulator is left untouched and the response's error
/// is returned, aborting the whole walk.
pub fn walk_step(acc: &mut Vec<Inscription>, resp: &ResponseRaw) -> (r: Result<bool, Error>)
    ensures
        r is Ok <==> response_ok(*resp),
        r is Ok ==> final(acc)@.len() == old(acc)@.len()
            + resp.data@[0].inscriptions_list@.len(),
        r is Ok ==> forall|j: int| 0 <= j < old(acc)@.len() ==> final(acc)@[j] == old(acc)@[j],
        r is Ok ==> forall|j: int|
            old(acc)@.len() <= j < final(acc)@.len() ==> ins_matches(
                #[trigger] final(acc)@[j],
                resp.data@[0].inscriptions_list@[j - old(acc)@.len()],
            ),
        r matches Ok(done) ==> done == resp_terminal(*resp),
        r is Err ==> final(acc)@ == old(acc)@,
        r matches Err(e) ==> e@ == response_err(*resp),
{
    let pg = match process_response(resp) {
        Ok(pg) => pg,
        Err(e) => { return Err(e) },
    };
    let done = pg.page == pg.total_pages;
    let mut records = pg.inscriptions;
    acc.append(&mut records);
    Ok(done)
}

/// Walks an already fetched sequence of responses exactly as the fetch loop
/// would, accumulating every page's records in page order.
///
/// When the reported page number reaches the reported total after consuming
/// responses `0..=k`, the result holds exactly those pages' records, in
/// order; any failing response aborts with its error, and a sequence that
/// ends before a terminal page is itself an error.
pub fn walk_responses(responses: &Vec<ResponseRaw>) -> (r: Result<Vec<Inscription>, Error>)
    ensures
        walk_terminal(responses@, 0) matches Some(k) ==> r is Ok && (r matches Ok(acc)
            ==> acc@.len() == flat_records(responses@, k + 1).len() && (forall|i: int|
            0 <= i < acc@.len() ==> ins_matches(
                #[trigger] acc@[i],
                flat_records(responses@, k + 1)[i],
            ))),
        walk_terminal(responses@, 0) is None ==> r is Err && (r matches Err(e) ==> e@ == walk_err(
            responses@,
            0,
        )),
{
    let mut acc: Vec<Inscription> = Vec::new();
    let n = responses.len();
    let mut i: usize = 0;
    while i < n
        invariant
            i <= n,
            n == responses@.len(),
            forall|j: int|
                0 <= j < i ==> response_ok(#[trigger] responses@[j]) && !resp_terminal(
                    responses@[j],
                ),
            acc@.len() == flat_records(responses@, i as int).len(),
            forall|j: int|
                0 <= j < acc@.len() ==> ins_matches(
                    #[trigger] acc@[j],
                    flat_records(responses@, i as int)[j],
                ),
            walk_terminal(responses@, 0) == walk_terminal(responses@, i as int),
            walk_err(responses@, 0) == walk_err(responses@, i as int),
        decreases n - i,
    {
        let ghost prev = acc@;
        match walk_step(&mut acc, &responses[i]) {
            Ok(done) => {
                proof {
                    assert(flat_records(responses@, i as int + 1) == flat_records(
                        responses@,
                        i as int,
                    ) + responses@[i as int].data@[0].inscriptions_list@);
                }
                if done {
                    proof {
                        assert(walk_terminal(responses@, i as int) == Some(i as int));
                    }
                    return Ok(acc);
                }
            },
            Err(e) => {
                proof {
                    assert(walk_terminal(responses@, i as int) is None);
                    assert(walk_err(responses@, i as int) == response_err(
                        responses@[i as int],
                    ));
                }
                return Err(e);
            },
        }
        i += 1;
    }
    proof {
        assert(walk_terminal(responses@, n as int) is None);
        assert(walk_err(responses@, n as int) == ErrView::TruncatedResponses);
    }
    Err(Error::TruncatedResponses)
}

/// Helper for the termination law: a walk whose remaining prefix up to `k`
/// is clean stops exactly at `k`.
proof fn lemma_walk_from(rs: Seq<ResponseRaw>, i: int, k: int)
    requires
        0 <= i <= k < rs.len(),
        forall|j: int| i <= j < k ==> response_ok(#[trigger] rs[j]) && !resp_terminal(rs[j]),
        response_ok(rs[k]),
        resp_terminal(rs[k]),
    ensures
        walk_terminal(rs, i) == Some(k),
    decreases k - i,
{
    if i < k {
        lemma_walk_from(rs, i + 1, k);
    }
}

/// Pagination termination: when the reported page number reaches the
/// reported total for the first time at response `k`, and every response
/// before it normalizes, the walk stops there successfully — so, by the
/// contract of `walk_responses`, the accumulator holds exactly the records
/// of responses `0..=k`, in page order.
pub proof fn lemma_walk_terminates(rs: Seq<ResponseRaw>, k: int)
    requires
        0 <= k < rs.len(),
        forall|j: int| 0 <= j < k ==> response_ok(#[trigger] rs[j]) && !resp_terminal(rs[j]),
        response_ok(rs[k]),
        resp_terminal(rs[k]),
    ensures
        walk_terminal(rs, 0) == Some(k),
{
    lemma_walk_from(rs, 0, k);
}

/// Helper for the all-or-nothing law: a walk that reaches a response that
/// does not normalize fails.
proof fn lemma_walk_none_from(rs: Seq<ResponseRaw>, i: int, m: int)
    requires
        0 <= i <= m < rs.len(),
        forall|j: int| i <= j < m ==> response_ok(#[trigger] rs[j]) && !resp_terminal(rs[j]),
        !response_ok(rs[m]),
    ensures
        walk_terminal(rs, i) is None,
    decreases m - i,
{
    if i < m {
        lemma_walk_none_from(rs, i + 1, m);
    }
}

/// All-or-nothing: a single invalid record anywhere in the page of response
/// `m` makes the whole walk fail, even when every earlier page was valid —
/// so, by the contract of `walk_responses`, no records at all are produced
/// and nothing is ever written.
pub proof fn lemma_bad_record_fails_walk(rs: Seq<ResponseRaw>, m: int, idx: int)
    requires
        0 <= m < rs.len(),
        forall|j: int| 0 <= j < m ==> response_ok(#[trigger] rs[j]) && !resp_terminal(rs[j]),
        rs[m].data@.len() > 0,
        0 <= idx < rs[m].data@[0].inscriptions_list@.len(),
        !record_ok(rs[m].data@[0].inscriptions_list@[idx]),
    ensures
        walk_terminal(rs, 0) is None,
{
    assert(!response_ok(rs[m]));
    lemma_walk_none_from(rs, 0, m);
}

} // verus!

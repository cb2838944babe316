//! Normalization of raw explorer records into the domain model.
//!
//! A raw record carries every field as a string. Normalization validates, in
//! order, the action, the amount, the timestamp, the status and the token
//! standard, and fails the whole record on the first field outside the
//! recognized shapes; a page fails as soon as any of its records fails.
//! Untransformed fields (addresses, identifiers, the token symbol) are
//! copied as-is.

use vstd::prelude::*;
use crate::amount::Amount;
use crate::datetime::UtcDateTime;
use crate::datetime::dt_matches_ms;
use crate::datetime::unix_to_datetime;
use crate::digits::all_digits;
use crate::digits::canon_dec;
use crate::digits::dec_value;
use crate::digits::parse_u32;
use crate::digits::u32_str_ok;
use crate::domain::Action;
use crate::domain::ErrView;
use crate::domain::Error;
use crate::domain::State;
use crate::domain::TokenType;
use crate::domain::action_of;
use crate::domain::state_of;
use crate::domain::token_type_of;

verus! {

/// One raw transaction record, exactly as the API encodes it: every field a
/// string, even the semantically numeric ones.
#[derive(Debug)]
pub struct InscriptionRaw {
    pub action_type: String,
    pub amount: String,
    pub from_address: String,
    pub inscription_id: String,
    pub state: String,
    pub time: String,
    pub to_address: String,
    pub token: String,
    pub token_type: String,
    pub tx_id: String,
}

/// One raw pagination block of an API response.
#[derive(Debug)]
pub struct PaginationRaw {
    pub inscriptions_list: Vec<InscriptionRaw>,
    pub limit: String,
    pub page: String,
    pub total_page: String,
    pub total_transaction: String,
}

/// One raw API response envelope.
#[derive(Debug)]
pub struct ResponseRaw {
    pub data: Vec<PaginationRaw>,
}

/// One normalized inscription transaction, immutable once constructed.
///
/// The status is consumed as a validation gate during normalization and not
/// retained: by the time the record exists it has its only valid value.
#[derive(Debug)]
pub struct Inscription {
    pub action: Action,
    pub amount: Amount,
    pub date_time: UtcDateTime,
    pub from_address: String,
    pub inscription_id: String,
    pub to_address: String,
    pub token: String,
    pub token_type: TokenType,
    pub tx_id: String,
}

/// One normalized page: records in API order plus the two counters that
/// drive the pagination walk.
#[derive(Debug)]
pub struct Pagination {
    pub inscriptions: Vec<Inscription>,
    pub page: u32,
    pub total_pages: u32,
}

/// Every interpreted field of the raw record is recognized.
pub open spec fn record_ok(raw: InscriptionRaw) -> bool {
    &&& action_of(raw.action_type@) is Some
    &&& raw.amount@.len() > 0 && all_digits(raw.amount@)
    &&& raw.time@.len() > 0 && all_digits(raw.time@) && dec_value(raw.time@) <= u64::MAX
    &&& state_of(raw.state@) is Some
    &&& token_type_of(raw.token_type@) is Some
}

/// The error a raw record fails with: the first invalid field in validation
/// order (action, amount, timestamp, status, token standard).
pub open spec fn record_err(raw: InscriptionRaw) -> ErrView {
    if action_of(raw.action_type@) is None {
        ErrView::UnknownAction(raw.action_type@)
    } else if !(raw.amount@.len() > 0 && all_digits(raw.amount@)) {
        ErrView::InvalidAmount(raw.amount@)
    } else if !(raw.time@.len() > 0 && all_digits(raw.time@) && dec_value(raw.time@)
        <= u64::MAX) {
        ErrView::InvalidTimestamp(raw.time@)
    } else if state_of(raw.state@) is None {
        ErrView::UnknownState(raw.state@)
    } else {
        ErrView::UnknownTokenType(raw.token_type@)
    }
}

/// `ins` is the normalization of `raw`: parsed fields parsed, copied fields
/// copied unchanged.
pub open spec fn ins_matches(ins: Inscription, raw: InscriptionRaw) -> bool {
    &&& action_of(raw.action_type@) == Some(ins.action)
    &&& ins.amount.wf()
    &&& ins.amount@ == canon_dec(raw.amount@)
    &&& ins.amount.value() == dec_value(raw.amount@)
    &&& dt_matches_ms(ins.date_time, dec_value(raw.time@))
    &&& token_type_of(raw.token_type@) == Some(ins.token_type)
    &&& ins.from_address@ == raw.from_address@
    &&& ins.inscription_id@ == raw.inscription_id@
    &&& ins.to_address@ == raw.to_address@
    &&& ins.token@ == raw.token@
    &&& ins.tx_id@ == raw.tx_id@
}

/// A record whose status is anything but the terminal success state never
/// normalizes: there is no logic path for non-success transactions.
pub proof fn lemma_non_success_fails(raw: InscriptionRaw)
    requires
        state_of(raw.state@) is None,
    ensures
        !record_ok(raw),
{
}

/// Converts one raw record to a domain inscription, failing on the first
/// invalid field with that field's error.
pub fn process_inscription(raw: &InscriptionRaw) -> (r: Result<Inscription, Error>)
    ensures
        r is Ok <==> record_ok(*raw),
        r matches Ok(ins) ==> ins_matches(ins, *raw),
        r matches Err(e) ==> e@ == record_err(*raw),
{
    let action = match Action::from_str(raw.action_type.as_str()) {
        Ok(a) => a,
        Err(e) => { return Err(e) },
    };
    let amount = match Amount::from_dec_str(raw.amount.as_str()) {
        Ok(a) => a,
        Err(e) => { return Err(e) },
    };
    let date_time = match unix_to_datetime(raw.time.as_str()) {
        Ok(d) => d,
        Err(e) => { return Err(e) },
    };
    match State::from_str(raw.state.as_str()) {
        Ok(State::Success) => {},
        Err(e) => { return Err(e) },
    };
    let token_type = match TokenType::from_str(raw.token_type.as_str()) {
        Ok(t) => t,
        Err(e) => { return Err(e) },
    };
    Ok(
        Inscription {
            action,
            amount,
            date_time,
            from_address: raw.from_address.clone(),
            inscription_id: raw.inscription_id.clone(),
            to_address: raw.to_address.clone(),
            token: raw.token.clone(),
            token_type,
            tx_id: raw.tx_id.clone(),
        },
    )
}

/// The error of the first record in the list that fails to normalize.
pub open spec fn first_record_err(list: Seq<InscriptionRaw>) -> Option<ErrView>
    decreases list.len(),
{
    if list.len() == 0 {
        None
    } else if !record_ok(list[0]) {
        Some(record_err(list[0]))
    } else {
        first_record_err(list.skip(1))
    }
}

/// When the records before `i` are all recognized and record `i` is not, the
/// first failure is record `i`'s.
proof fn lemma_first_record_err_at(list: Seq<InscriptionRaw>, i: int)
    requires
        0 <= i < list.len(),
        forall|j: int| 0 <= j < i ==> record_ok(#[trigger] list[j]),
        !record_ok(list[i]),
    ensures
        first_record_err(list) == Some(record_err(list[i])),
    decreases i,
{
    if i > 0 {
        lemma_first_record_err_at(list.skip(1), i - 1);
    }
}

/// When every record is recognized there is no first failure.
proof fn lemma_first_record_err_none(list: Seq<InscriptionRaw>)
    requires
        forall|j: int| 0 <= j < list.len() ==> record_ok(#[trigger] list[j]),
    ensures
        first_record_err(list) is None,
    decreases list.len(),
{
    if list.len() > 0 {
        lemma_first_record_err_none(list.skip(1));
    }
}

/// Every record of the raw page is recognized and both counters parse.
pub open spec fn page_ok(p: PaginationRaw) -> bool {
    &&& forall|i: int|
        0 <= i < p.inscriptions_list@.len() ==> record_ok(#[trigger] p.inscriptions_list@[i])
    &&& u32_str_ok(p.page@)
    &&& u32_str_ok(p.total_page@)
}

/// The error a raw page fails with: its first failing record, else the
/// first counter that does not parse.
pub open spec fn page_err(p: PaginationRaw) -> ErrView {
    match first_record_err(p.inscriptions_list@) {
        Some(e) => e,
        None => if !u32_str_ok(p.page@) {
            ErrView::InvalidPageCounter(p.page@)
        } else {
            ErrView::InvalidPageCounter(p.total_page@)
        },
    }
}

/// `pg` is the normalization of the raw page `p`, order preserved.
pub open spec fn page_matches(pg: Pagination, p: PaginationRaw) -> bool {
    &&& pg.inscriptions@.len() == p.inscriptions_list@.len()
    &&& forall|i: int|
        0 <= i < pg.inscriptions@.len() ==> ins_matches(
            #[trigger] pg.inscriptions@[i],
            p.inscriptions_list@[i],
        )
    &&& pg.page == dec_value(p.page@)
    &&& pg.total_pages == dec_value(p.total_page@)
}

/// Converts one raw page, preserving record order; any failing record or
/// counter fails the whole page — no skip-and-continue.
pub fn process_pagination(raw: &PaginationRaw) -> (r: Result<Pagination, Error>)
    ensures
        r is Ok <==> page_ok(*raw),
        r matches Ok(pg) ==> page_matches(pg, *raw),
        r matches Err(e) ==> e@ == page_err(*raw),
{
    let mut inscriptions: Vec<Inscription> = Vec::new();
    let n = raw.inscriptions_list.len();
    let mut i: usize = 0;
    while i < n
        invariant
            i <= n,
            n == raw.inscriptions_list@.len(),
            inscriptions@.len() == i,
            forall|j: int| 0 <= j < i ==> record_ok(#[trigger] raw.inscriptions_list@[j]),
            forall|j: int|
                0 <= j < i ==> ins_matches(
                    #[trigger] inscriptions@[j],
                    raw.inscriptions_list@[j],
                ),
        decreases n - i,
    {
        match process_inscription(&raw.inscriptions_list[i]) {
            Ok(ins) => inscriptions.push(ins),
            Err(e) => {
                proof {
                    lemma_first_record_err_at(raw.inscriptions_list@, i as int);
                }
                return Err(e);
            },
        }
        i += 1;
    }
    proof {
        lemma_first_record_err_none(raw.inscriptions_list@);
    }
    let page = match parse_u32(raw.page.as_str()) {
        Some(p) => p,
        None => { return Err(Error::InvalidPageCounter(raw.page.clone())) },
    };
    let total_pages = match parse_u32(raw.total_page.as_str()) {
        Some(t) => t,
        None => { return Err(Error::InvalidPageCounter(raw.total_page.clone())) },
    };
    Ok(Pagination { inscriptions, page, total_pages })
}

/// The response carries at least one pagination block and its first block
/// normalizes.
pub open spec fn response_ok(r: ResponseRaw) -> bool {
    &&& r.data@.len() > 0
    &&& page_ok(r.data@[0])
}

/// The error a raw response fails with: missing pagination data, else its
/// first block's error.
pub open spec fn response_err(r: ResponseRaw) -> ErrView {
    if r.data@.len() == 0 {
        ErrView::NoPagination
    } else {
        page_err(r.data@[0])
    }
}

/// Extracts and normalizes the first pagination block of a response; a
/// response without one is a malformed reply and a hard error.
pub fn process_response(raw: &ResponseRaw) -> (r: Result<Pagination, Error>)
    ensures
        r is Ok <==> response_ok(*raw),
        r matches Ok(pg) ==> page_matches(pg, raw.data@[0]),
        r matches Err(e) ==> e@ == response_err(*raw),
{
    if raw.data.len() == 0 {
        return Err(Error::NoPagination);
    }
    process_pagination(&raw.data[0])
}

} // verus!

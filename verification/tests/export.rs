use brc20_export::amount::Amount;
use brc20_export::csv_row::CsvRow;
use brc20_export::csv_row::csv_header;
use brc20_export::csv_row::csv_record;
use brc20_export::csv_row::to_csv_row;
use brc20_export::datetime::UtcDateTime;
use brc20_export::datetime::from_unix_ms;
use brc20_export::datetime::unix_to_datetime;
use brc20_export::domain::Action;
use brc20_export::domain::Error;
use brc20_export::domain::State;
use brc20_export::domain::TokenType;
use brc20_export::normalize::Inscription;
use brc20_export::normalize::InscriptionRaw;
use brc20_export::normalize::PaginationRaw;
use brc20_export::normalize::ResponseRaw;
use brc20_export::normalize::process_inscription;
use brc20_export::normalize::process_response;
use brc20_export::walk::walk_responses;
use brc20_export::walk::walk_step;

fn mk_record(action: &str, amount: &str, time: &str, state: &str, token_type: &str, id: &str) -> InscriptionRaw {
    InscriptionRaw {
        action_type: action.to_string(),
        amount: amount.to_string(),
        from_address: String::from("from"),
        inscription_id: id.to_string(),
        state: state.to_string(),
        time: time.to_string(),
        to_address: String::from("to"),
        token: String::from("sats"),
        token_type: token_type.to_string(),
        tx_id: String::from("hash"),
    }
}

fn good_record(id: &str) -> InscriptionRaw {
    mk_record("mint", "1000", "1685092041000", "success", "BRC20", id)
}

fn mk_response(records: Vec<InscriptionRaw>, page: &str, total_page: &str) -> ResponseRaw {
    ResponseRaw {
        data: vec![PaginationRaw {
            inscriptions_list: records,
            limit: String::from("50"),
            page: page.to_string(),
            total_page: total_page.to_string(),
            total_transaction: String::from("5"),
        }],
    }
}

#[test]
fn test_to_csv_row() {
    let inscription = Inscription {
        action: Action::Transfer,
        amount: Amount::from_dec_str("1000").unwrap(),
        date_time: UtcDateTime { year: 2023, month: 7, day: 7, hour: 1, minute: 23, second: 45 },
        from_address: String::from("from"),
        inscription_id: String::from("inscription_id"),
        to_address: String::from("to"),
        token: String::from("sats"),
        token_type: TokenType::BRC20,
        tx_id: String::from("hash"),
    };
    let expected = CsvRow {
        timestamp: String::from("2023/07/07 01:23:45"),
        category: String::from("buy"),
        base_currency: String::from("sats"),
        base_amount: String::from("1000"),
        from: String::from("from"),
        to: String::from("to"),
        hash: String::from("hash"),
        description: String::from("BRC20 Transfer with inscription_id inscription_id"),
    };
    assert_eq!(to_csv_row(inscription), expected);
}

#[test]
fn test_unix_to_datetime() {
    let timestamp = String::from("1685092041000");
    let actual = unix_to_datetime(&timestamp).unwrap();
    let expected = UtcDateTime { year: 2023, month: 5, day: 26, hour: 9, minute: 7, second: 21 };
    assert_eq!(actual, expected);
}

#[test]
fn action_parses_recognized_strings() {
    assert_eq!(Action::from_str("mint"), Ok(Action::Mint));
    assert_eq!(Action::from_str("transfer"), Ok(Action::Transfer));
}

#[test]
fn action_rejects_unknown_strings() {
    assert_eq!(Action::from_str("burn"), Err(Error::UnknownAction(String::from("burn"))));
    assert_eq!(Action::from_str("Mint"), Err(Error::UnknownAction(String::from("Mint"))));
    assert_eq!(Action::from_str(""), Err(Error::UnknownAction(String::new())));
}

#[test]
fn token_type_parses_recognized_strings() {
    assert_eq!(TokenType::from_str("BRC20"), Ok(TokenType::BRC20));
}

#[test]
fn token_type_rejects_unknown_strings() {
    assert_eq!(TokenType::from_str("BRC-20"), Err(Error::UnknownTokenType(String::from("BRC-20"))));
    assert_eq!(TokenType::from_str("brc20"), Err(Error::UnknownTokenType(String::from("brc20"))));
    assert_eq!(TokenType::from_str("ERC20"), Err(Error::UnknownTokenType(String::from("ERC20"))));
}

#[test]
fn state_accepts_only_success() {
    assert_eq!(State::from_str("success"), Ok(State::Success));
    assert_eq!(State::from_str("fail"), Err(Error::UnknownState(String::from("fail"))));
    assert_eq!(State::from_str("pending"), Err(Error::UnknownState(String::from("pending"))));
}

#[test]
fn non_success_record_fails_normalization() {
    let raw = mk_record("mint", "1000", "1685092041000", "fail", "BRC20", "i0");
    assert_eq!(process_inscription(&raw).unwrap_err(), Error::UnknownState(String::from("fail")));
}

#[test]
fn amount_round_trips_exactly() {
    let a = Amount::from_dec_str("1000").unwrap();
    assert_eq!(a.to_dec_string(), "1000");
    let big = Amount::from_dec_str("18446744073709551616").unwrap();
    assert_eq!(big.to_dec_string(), "18446744073709551616");
    let zero = Amount::from_dec_str("0").unwrap();
    assert_eq!(zero.to_dec_string(), "0");
}

#[test]
fn amount_canonicalizes_leading_zeros() {
    let a = Amount::from_dec_str("007").unwrap();
    assert_eq!(a.to_dec_string(), "7");
    let z = Amount::from_dec_str("0000").unwrap();
    assert_eq!(z.to_dec_string(), "0");
}

#[test]
fn amount_rejects_non_numeric_input() {
    assert_eq!(Amount::from_dec_str(""), Err(Error::InvalidAmount(String::new())));
    assert_eq!(Amount::from_dec_str("12a"), Err(Error::InvalidAmount(String::from("12a"))));
    assert_eq!(Amount::from_dec_str("-5"), Err(Error::InvalidAmount(String::from("-5"))));
    assert_eq!(Amount::from_dec_str("1.5"), Err(Error::InvalidAmount(String::from("1.5"))));
}

#[test]
fn timestamp_epoch_and_leap_day() {
    assert_eq!(
        from_unix_ms(0),
        UtcDateTime { year: 1970, month: 1, day: 1, hour: 0, minute: 0, second: 0 }
    );
    assert_eq!(
        from_unix_ms(1709208000000),
        UtcDateTime { year: 2024, month: 2, day: 29, hour: 12, minute: 0, second: 0 }
    );
}

#[test]
fn timestamp_rejects_bad_input() {
    assert_eq!(unix_to_datetime("abc"), Err(Error::InvalidTimestamp(String::from("abc"))));
    assert_eq!(unix_to_datetime(""), Err(Error::InvalidTimestamp(String::new())));
    assert_eq!(
        unix_to_datetime("18446744073709551616"),
        Err(Error::InvalidTimestamp(String::from("18446744073709551616")))
    );
}

#[test]
fn mint_action_is_filed_as_mint() {
    let raw = good_record("abc");
    let ins = process_inscription(&raw).unwrap();
    let row = to_csv_row(ins);
    assert_eq!(row.category, "mint");
    assert_eq!(row.description, "BRC20 Mint with inscription_id abc");
}

#[test]
fn header_has_the_declared_columns() {
    let header = csv_header();
    assert_eq!(
        header,
        vec![
            "Timestamp (UTC)",
            "Type",
            "Base Currency",
            "Base Amount",
            "Quote Currency",
            "Quote Amount",
            "Fee Currency",
            "Fee Amount",
            "From",
            "To",
            "Blockchain",
            "ID",
            "Description",
        ]
    );
}

#[test]
fn record_fields_follow_the_header_order() {
    let raw = good_record("abc");
    let ins = process_inscription(&raw).unwrap();
    let fields = csv_record(&to_csv_row(ins));
    assert_eq!(
        fields,
        vec![
            String::from("2023/05/26 09:07:21"),
            String::from("mint"),
            String::from("sats"),
            String::from("1000"),
            String::new(),
            String::new(),
            String::new(),
            String::new(),
            String::from("from"),
            String::from("to"),
            String::from("Bitcoin"),
            String::from("hash"),
            String::from("BRC20 Mint with inscription_id abc"),
        ]
    );
}

#[test]
fn response_without_pagination_fails() {
    let resp = ResponseRaw { data: vec![] };
    assert_eq!(process_response(&resp).unwrap_err(), Error::NoPagination);
}

#[test]
fn bad_page_counter_fails() {
    let resp = mk_response(vec![good_record("i0")], "x", "3");
    assert_eq!(process_response(&resp).unwrap_err(), Error::InvalidPageCounter(String::from("x")));
    let resp2 = mk_response(vec![good_record("i0")], "1", "");
    assert_eq!(process_response(&resp2).unwrap_err(), Error::InvalidPageCounter(String::new()));
}

#[test]
fn walk_step_appends_and_reports_termination() {
    let mut acc = Vec::new();
    let more = mk_response(vec![good_record("i0"), good_record("i1")], "1", "2");
    assert_eq!(walk_step(&mut acc, &more), Ok(false));
    assert_eq!(acc.len(), 2);
    let last = mk_response(vec![good_record("i2")], "2", "2");
    assert_eq!(walk_step(&mut acc, &last), Ok(true));
    assert_eq!(acc.len(), 3);
    assert_eq!(acc[0].inscription_id, "i0");
    assert_eq!(acc[1].inscription_id, "i1");
    assert_eq!(acc[2].inscription_id, "i2");
}

#[test]
fn walk_accumulates_all_pages_in_order() {
    let responses = vec![
        mk_response(vec![good_record("i0"), good_record("i1")], "1", "3"),
        mk_response(vec![good_record("i2")], "2", "3"),
        mk_response(vec![good_record("i3"), good_record("i4")], "3", "3"),
    ];
    let acc = walk_responses(&responses).unwrap();
    let ids: Vec<&str> = acc.iter().map(|i| i.inscription_id.as_str()).collect();
    assert_eq!(ids, vec!["i0", "i1", "i2", "i3", "i4"]);
}

#[test]
fn walk_stops_at_the_reported_total() {
    let responses = vec![
        mk_response(vec![good_record("i0")], "1", "1"),
        mk_response(vec![good_record("never")], "2", "2"),
    ];
    let acc = walk_responses(&responses).unwrap();
    assert_eq!(acc.len(), 1);
    assert_eq!(acc[0].inscription_id, "i0");
}

#[test]
fn one_bad_record_fails_the_whole_walk() {
    let responses = vec![
        mk_response(vec![good_record("i0"), good_record("i1")], "1", "3"),
        mk_response(
            vec![good_record("i2"), mk_record("mint", "1000", "1685092041000", "fail", "BRC20", "i3")],
            "2",
            "3",
        ),
        mk_response(vec![good_record("i4")], "3", "3"),
    ];
    assert_eq!(walk_responses(&responses).unwrap_err(), Error::UnknownState(String::from("fail")));
}

#[test]
fn unknown_action_in_first_page_fails_the_walk() {
    let responses = vec![mk_response(
        vec![mk_record("burn", "1000", "1685092041000", "success", "BRC20", "i0")],
        "1",
        "1",
    )];
    assert_eq!(walk_responses(&responses).unwrap_err(), Error::UnknownAction(String::from("burn")));
}

#[test]
fn walk_without_a_terminal_page_fails() {
    let responses = vec![
        mk_response(vec![good_record("i0")], "1", "3"),
        mk_response(vec![good_record("i1")], "2", "3"),
    ];
    assert_eq!(walk_responses(&responses).unwrap_err(), Error::TruncatedResponses);
}

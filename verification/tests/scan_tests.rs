use stripe_fdw::error::FdwError;
use stripe_fdw::fdw::StripeFdw;
use stripe_fdw::row::{Cell, Limit, Qual, QualValue};
use stripe_fdw::schema::{ObjectType, lookup};
use stripe_fdw::url::fmt_u64;

fn cols(names: &[&str]) -> Vec<String> {
    names.iter().map(|n| n.to_string()).collect()
}

fn text_qual(field: &str, op: &str, value: &str, use_or: bool) -> Qual {
    Qual {
        field: field.to_string(),
        operator: op.to_string(),
        value: QualValue::Cell(Cell::Text(value.to_string())),
        use_or,
    }
}

fn fdw() -> StripeFdw {
    StripeFdw::new(None, Some("sk_test_key".to_string())).unwrap()
}

#[test]
fn unknown_object_type_fails_without_fetch() {
    let mut f = fdw();
    let r = f.begin_scan("tokens", &Vec::new(), &cols(&["id"]), &None);
    assert_eq!(r, Err(FdwError::UnknownObject));
    assert!(f.next_url().is_none());
    assert!(f.iter_scan().is_none());
}

#[test]
fn lookup_unknown_name_fails() {
    assert!(lookup("no_such_collection").is_err());
    assert!(lookup("charges").is_ok());
    assert_eq!(lookup("charges").unwrap().obj, ObjectType::Charges);
}

#[test]
fn zero_count_limit_short_circuits() {
    let mut f = fdw();
    let limit = Some(Limit { offset: 10, count: 0 });
    f.begin_scan("charges", &Vec::new(), &cols(&["id"]), &limit).unwrap();
    assert!(f.next_url().is_none());
    assert!(f.iter_scan().is_none());
}

#[test]
fn driver_fetches_once_per_page_until_has_more_false() {
    let mut f = fdw();
    f.begin_scan("charges", &Vec::new(), &cols(&["id"]), &None).unwrap();

    let u1 = f.next_url().expect("first page wanted");
    assert_eq!(u1, "https://api.stripe.com/v1/charges?limit=100");
    f.feed_page(r#"{"data":[{"id":"ch_1"}],"has_more":true}"#).unwrap();

    let u2 = f.next_url().expect("second page wanted");
    assert_eq!(u2, "https://api.stripe.com/v1/charges?limit=100&starting_after=ch_1");
    f.feed_page(r#"{"data":[{"id":"ch_2"}],"has_more":false}"#).unwrap();

    assert!(f.next_url().is_none(), "driver must stop right after has_more=false");

    let r1 = f.iter_scan().expect("first row");
    assert_eq!(r1.cells, vec![("id".to_string(), Some(Cell::Text("ch_1".to_string())))]);
    let r2 = f.iter_scan().expect("second row");
    assert_eq!(r2.cells, vec![("id".to_string(), Some(Cell::Text("ch_2".to_string())))]);
    assert!(f.iter_scan().is_none());
}

#[test]
fn empty_page_stops_even_with_has_more_true() {
    let mut f = fdw();
    f.begin_scan("charges", &Vec::new(), &cols(&["id"]), &None).unwrap();
    f.feed_page(r#"{"data":[{"id":"ch_1"}],"has_more":true}"#).unwrap();
    f.feed_page(r#"{"data":[],"has_more":true}"#).unwrap();
    assert!(f.next_url().is_none(), "an empty page exhausts the scan");
    assert!(f.iter_scan().is_some());
    assert!(f.iter_scan().is_none());
}

#[test]
fn empty_first_page_yields_no_rows() {
    let mut f = fdw();
    f.begin_scan("customers", &Vec::new(), &cols(&["id", "email"]), &None).unwrap();
    f.feed_page(r#"{"data":[]}"#).unwrap();
    assert!(f.next_url().is_none());
    assert!(f.iter_scan().is_none());
}

#[test]
fn pushdown_equality_qual_lands_in_url() {
    let mut f = fdw();
    let quals = vec![text_qual("customer", "=", "cus_123", false)];
    f.begin_scan("charges", &quals, &cols(&["id"]), &None).unwrap();
    let u = f.next_url().unwrap();
    assert_eq!(u, "https://api.stripe.com/v1/charges?customer=cus_123&limit=100");
}

#[test]
fn disjunctive_qual_is_not_pushed_down() {
    let mut f = fdw();
    let quals = vec![text_qual("customer", "=", "cus_123", true)];
    f.begin_scan("charges", &quals, &cols(&["id"]), &None).unwrap();
    let u = f.next_url().unwrap();
    assert!(!u.contains("customer=cus_123"));
    assert_eq!(u, "https://api.stripe.com/v1/charges?limit=100");
}

#[test]
fn non_equality_and_unlisted_quals_are_ignored() {
    let mut f = fdw();
    let quals = vec![
        text_qual("customer", ">", "cus_123", false),
        text_qual("description", "=", "coffee", false),
    ];
    f.begin_scan("charges", &quals, &cols(&["id"]), &None).unwrap();
    assert_eq!(f.next_url().unwrap(), "https://api.stripe.com/v1/charges?limit=100");
}

#[test]
fn first_eligible_qual_wins_per_field() {
    let mut f = fdw();
    let quals = vec![
        text_qual("customer", "=", "cus_or", true),
        text_qual("customer", "=", "cus_first", false),
        text_qual("customer", "=", "cus_second", false),
    ];
    f.begin_scan("charges", &quals, &cols(&["id"]), &None).unwrap();
    assert_eq!(
        f.next_url().unwrap(),
        "https://api.stripe.com/v1/charges?customer=cus_first&limit=100"
    );
}

#[test]
fn pushdown_fields_keep_whitelist_order() {
    let mut f = fdw();
    let quals = vec![
        text_qual("subscription", "=", "sub_9", false),
        text_qual("customer", "=", "cus_1", false),
    ];
    f.begin_scan("invoices", &quals, &cols(&["id"]), &None).unwrap();
    assert_eq!(
        f.next_url().unwrap(),
        "https://api.stripe.com/v1/invoices?customer=cus_1&subscription=sub_9&limit=100"
    );
}

#[test]
fn balance_transactions_push_payout_and_type() {
    let mut f = fdw();
    let quals = vec![
        text_qual("type", "=", "charge", false),
        text_qual("payout", "=", "po_1", false),
    ];
    f.begin_scan("balance_transactions", &quals, &cols(&["id"]), &None).unwrap();
    assert_eq!(
        f.next_url().unwrap(),
        "https://api.stripe.com/v1/balance_transactions?payout=po_1&type=charge&limit=100"
    );
}

#[test]
fn decode_round_trip_typed_cells() {
    let mut f = fdw();
    f.begin_scan("charges", &Vec::new(), &cols(&["id", "amount"]), &None).unwrap();
    f.feed_page(r#"{"data":[{"id":"ch_1","amount":500,"currency":"usd"}],"has_more":false}"#)
        .unwrap();
    let row = f.iter_scan().expect("one row");
    assert_eq!(
        row.cells,
        vec![
            ("id".to_string(), Some(Cell::Text("ch_1".to_string()))),
            ("amount".to_string(), Some(Cell::Int64(500))),
        ]
    );
    assert!(f.iter_scan().is_none());
}

#[test]
fn attrs_column_carries_the_raw_element() {
    let mut f = fdw();
    f.begin_scan("charges", &Vec::new(), &cols(&["id", "amount", "attrs"]), &None).unwrap();
    f.feed_page(r#"{"data":[{"id":"ch_1","amount":500,"currency":"usd"}],"has_more":false}"#)
        .unwrap();
    let row = f.iter_scan().expect("one row");
    assert_eq!(row.cells.len(), 3);
    assert_eq!(row.cells[0], ("id".to_string(), Some(Cell::Text("ch_1".to_string()))));
    assert_eq!(row.cells[1], ("amount".to_string(), Some(Cell::Int64(500))));
    assert_eq!(
        row.cells[2],
        (
            "attrs".to_string(),
            Some(Cell::Json(r#"{"amount":500,"currency":"usd","id":"ch_1"}"#.to_string()))
        )
    );
}

#[test]
fn cursor_is_last_element_id() {
    let mut f = fdw();
    f.begin_scan("customers", &Vec::new(), &cols(&["id"]), &None).unwrap();
    f.feed_page(r#"{"data":[{"id":"cus_1"},{"id":"cus_2"},{"id":"cus_3"}],"has_more":true}"#)
        .unwrap();
    let u = f.next_url().unwrap();
    assert_eq!(u, "https://api.stripe.com/v1/customers?limit=100&starting_after=cus_3");
}

#[test]
fn balance_url_has_no_pagination_parameters() {
    let mut f = fdw();
    let quals = vec![text_qual("customer", "=", "cus_123", false)];
    f.begin_scan("balance", &quals, &cols(&["amount", "currency"]), &None).unwrap();
    assert_eq!(f.next_url().unwrap(), "https://api.stripe.com/v1/balance");
    f.feed_page(r#"{"object":"balance","amount":100,"currency":"usd"}"#).unwrap();
    // still no limit / starting_after, whatever the cursor state
    assert_eq!(f.next_url().unwrap(), "https://api.stripe.com/v1/balance");
}

#[test]
fn balance_decodes_the_top_level_object() {
    let mut f = fdw();
    f.begin_scan("balance", &Vec::new(), &cols(&["amount", "currency"]), &None).unwrap();
    f.feed_page(r#"{"object":"balance","amount":100,"currency":"usd"}"#).unwrap();
    let row = f.iter_scan().expect("one virtual row");
    assert_eq!(
        row.cells,
        vec![
            ("amount".to_string(), Some(Cell::Int64(100))),
            ("currency".to_string(), Some(Cell::Text("usd".to_string()))),
        ]
    );
    assert!(f.iter_scan().is_none());
}

#[test]
fn page_budget_covers_offset_plus_count() {
    let mut f = fdw();
    let limit = Some(Limit { offset: 0, count: 100 });
    f.begin_scan("charges", &Vec::new(), &cols(&["id"]), &limit).unwrap();
    // budget = (0 + 100) / 100 + 1 = 2 pages
    assert!(f.next_url().is_some());
    f.feed_page(r#"{"data":[{"id":"ch_1"}],"has_more":true}"#).unwrap();
    assert!(f.next_url().is_some());
    f.feed_page(r#"{"data":[{"id":"ch_2"}],"has_more":true}"#).unwrap();
    assert!(f.next_url().is_none(), "budget of two pages is consumed");
}

#[test]
fn single_page_budget_for_small_count() {
    let mut f = fdw();
    let limit = Some(Limit { offset: 0, count: 1 });
    f.begin_scan("charges", &Vec::new(), &cols(&["id"]), &limit).unwrap();
    assert!(f.next_url().is_some());
    f.feed_page(r#"{"data":[{"id":"ch_1"}],"has_more":true}"#).unwrap();
    assert!(f.next_url().is_none(), "budget of one page is consumed");
}

#[test]
fn malformed_body_aborts_the_scan() {
    let mut f = fdw();
    f.begin_scan("charges", &Vec::new(), &cols(&["id"]), &None).unwrap();
    f.feed_page(r#"{"data":[{"id":"ch_1"}],"has_more":true}"#).unwrap();
    let r = f.feed_page("this is not json");
    assert_eq!(r, Err(FdwError::MalformedResponse));
    assert!(f.next_url().is_none());
    assert!(f.iter_scan().is_none(), "no partial result survives an abort");
}

#[test]
fn missing_collection_key_is_malformed() {
    let mut f = fdw();
    f.begin_scan("charges", &Vec::new(), &cols(&["id"]), &None).unwrap();
    let r = f.feed_page(r#"{"object":"list","has_more":false}"#);
    assert_eq!(r, Err(FdwError::MalformedResponse));
}

#[test]
fn collection_key_of_wrong_shape_is_malformed() {
    let mut f = fdw();
    f.begin_scan("charges", &Vec::new(), &cols(&["id"]), &None).unwrap();
    let r = f.feed_page(r#"{"data":"not an array"}"#);
    assert_eq!(r, Err(FdwError::MalformedResponse));
}

#[test]
fn wrong_typed_field_yields_absent_cell() {
    let mut f = fdw();
    f.begin_scan("charges", &Vec::new(), &cols(&["id", "amount"]), &None).unwrap();
    f.feed_page(r#"{"data":[{"id":"ch_1","amount":"a lot"}],"has_more":false}"#).unwrap();
    let row = f.iter_scan().unwrap();
    assert_eq!(
        row.cells,
        vec![
            ("id".to_string(), Some(Cell::Text("ch_1".to_string()))),
            ("amount".to_string(), None),
        ]
    );
}

#[test]
fn timestamp_field_keeps_epoch_seconds() {
    let mut f = fdw();
    f.begin_scan("balance_transactions", &Vec::new(), &cols(&["id", "created"]), &None).unwrap();
    f.feed_page(r#"{"data":[{"id":"txn_1","created":1700000000}],"has_more":false}"#).unwrap();
    let row = f.iter_scan().unwrap();
    assert_eq!(
        row.cells,
        vec![
            ("id".to_string(), Some(Cell::Text("txn_1".to_string()))),
            ("created".to_string(), Some(Cell::Timestamp(1700000000))),
        ]
    );
}

#[test]
fn missing_credentials_abort_begin() {
    let mut f = StripeFdw::new(None, None).unwrap();
    let r = f.begin_scan("charges", &Vec::new(), &cols(&["id"]), &None);
    assert_eq!(r, Err(FdwError::MissingCredentials));
    assert!(f.next_url().is_none());
}

#[test]
fn invalid_base_url_fails_at_construction() {
    assert_eq!(
        StripeFdw::new(Some("ftp://api.example.com/".to_string()), None).err(),
        Some(FdwError::InvalidBaseUrl)
    );
    assert_eq!(
        StripeFdw::new(Some("https://api.example.com/v1/?x=1".to_string()), None).err(),
        Some(FdwError::InvalidBaseUrl)
    );
    assert!(StripeFdw::new(Some("http://localhost:12111/v1/".to_string()), None).is_ok());
}

#[test]
fn base_url_without_trailing_slash_gets_one() {
    let mut f = StripeFdw::new(
        Some("https://api.example.com/v1".to_string()),
        Some("sk_test_key".to_string()),
    )
    .unwrap();
    f.begin_scan("subscriptions", &Vec::new(), &cols(&["id"]), &None).unwrap();
    assert_eq!(f.next_url().unwrap(), "https://api.example.com/v1/subscriptions?limit=100");
}

#[test]
fn end_scan_releases_everything() {
    let mut f = fdw();
    f.begin_scan("charges", &Vec::new(), &cols(&["id"]), &None).unwrap();
    f.feed_page(r#"{"data":[{"id":"ch_1"}],"has_more":true}"#).unwrap();
    f.end_scan();
    assert!(f.next_url().is_none());
    assert!(f.iter_scan().is_none());
    // a new scan starts cleanly afterwards
    f.begin_scan("customers", &Vec::new(), &cols(&["id"]), &None).unwrap();
    assert_eq!(f.next_url().unwrap(), "https://api.stripe.com/v1/customers?limit=100");
}

#[test]
fn every_collection_type_builds_its_path() {
    let cases = [
        ("balance_transactions", "https://api.stripe.com/v1/balance_transactions?limit=100"),
        ("charges", "https://api.stripe.com/v1/charges?limit=100"),
        ("customers", "https://api.stripe.com/v1/customers?limit=100"),
        ("invoices", "https://api.stripe.com/v1/invoices?limit=100"),
        ("payment_intents", "https://api.stripe.com/v1/payment_intents?limit=100"),
        ("subscriptions", "https://api.stripe.com/v1/subscriptions?limit=100"),
    ];
    for (name, expected) in cases {
        let mut f = fdw();
        f.begin_scan(name, &Vec::new(), &cols(&["id"]), &None).unwrap();
        assert_eq!(f.next_url().unwrap(), expected.to_string());
    }
}

#[test]
fn fmt_u64_renders_decimal() {
    assert_eq!(fmt_u64(0), "0");
    assert_eq!(fmt_u64(7), "7");
    assert_eq!(fmt_u64(10), "10");
    assert_eq!(fmt_u64(105), "105");
    assert_eq!(fmt_u64(18446744073709551615), "18446744073709551615");
}

#[test]
fn api_key_is_kept_for_the_transport() {
    let f = fdw();
    assert_eq!(f.api_key().as_deref(), Some("sk_test_key"));
}

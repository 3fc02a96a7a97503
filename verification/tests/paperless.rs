use timeline::integrations::paperless_ngx::{
    document_display, forward_fetched, new, APIDoc, APIDocResponse, FetchedFilter, Timestamp,
};

fn doc(id: i32, title: &str) -> APIDoc {
    APIDoc { id, title: title.to_string(), created: Timestamp { seconds: 0, nanoseconds: 0 } }
}

#[test]
fn new_keeps_host_and_token() {
    let p = new("https://docs.example.org".to_string(), "SECRET-REDACTED".to_string());
    assert_eq!(p.host, "https://docs.example.org");
    assert_eq!(p.token, "SECRET-REDACTED");
    assert_eq!(p.name(), "Paperless NGX");
}

#[test]
fn first_request_is_the_document_listing() {
    let p = new("https://docs.example.org".to_string(), "t0k".to_string());
    let pager = p.documents();
    let req = pager.next_request().unwrap();
    assert_eq!(req.url, "https://docs.example.org/api/documents/");
    assert_eq!(req.authorization, "Token t0k");
    assert_eq!(req.content_type, "application/json");
    assert_eq!(req.accept, "application/json");
    assert!(!pager.is_finished());
}

#[test]
fn pager_follows_next_links_until_none() {
    let p = new("h".to_string(), "k".to_string());
    let mut pager = p.documents();
    let docs = pager.receive(APIDocResponse {
        count: 3,
        next: Some("h/api/documents/?page=2".to_string()),
        results: vec![doc(1, "a"), doc(2, "b")],
    });
    assert_eq!(docs.iter().map(|d| d.id).collect::<Vec<_>>(), vec![1, 2]);
    let req = pager.next_request().unwrap();
    assert_eq!(req.url, "h/api/documents/?page=2");
    assert_eq!(req.authorization, "Token k");
    let docs = pager.receive(APIDocResponse { count: 3, next: None, results: vec![doc(3, "c")] });
    assert_eq!(docs.len(), 1);
    assert_eq!(docs[0].title, "c");
    assert!(pager.is_finished());
    assert!(pager.next_request().is_none());
}

#[test]
fn failed_fetches_are_dropped() {
    assert_eq!(forward_fetched::<String>(Ok(doc(5, "x"))).map(|d| d.id), Some(5));
    assert!(forward_fetched(Err("timeout".to_string())).is_none());
}

#[test]
fn document_display_joins_with_spaces() {
    assert_eq!(document_display(-17, "Tax", "then"), "-17 Tax then");
    assert_eq!(document_display(i32::MIN, "", ""), "-2147483648  ");
    assert_eq!(document_display(0, "t", "c"), "0 t c");
}

#[test]
fn document_text_uses_chrono_utc_format() {
    let d = APIDoc {
        id: 7,
        title: "Invoice".to_string(),
        created: Timestamp { seconds: 1_700_000_000, nanoseconds: 0 },
    };
    assert_eq!(d.to_display_string().unwrap(), "7 Invoice 2023-11-14 22:13:20 UTC");
    let epoch = doc(2147483647, "e");
    assert_eq!(epoch.to_display_string().unwrap(), "2147483647 e 1970-01-01 00:00:00 UTC");
}

#[test]
fn document_text_with_subsecond_time() {
    let d = APIDoc {
        id: 1,
        title: "x".to_string(),
        created: Timestamp { seconds: 1, nanoseconds: 500_000_000 },
    };
    assert_eq!(d.to_display_string().unwrap(), "1 x 1970-01-01 00:00:01.500 UTC");
}

#[test]
fn document_text_out_of_range_is_none() {
    let d = APIDoc {
        id: 1,
        title: "x".to_string(),
        created: Timestamp { seconds: i64::MAX, nanoseconds: 0 },
    };
    assert!(d.to_display_string().is_none());
}

#[test]
fn failed_page_ends_the_walk() {
    let p = new("h".to_string(), "k".to_string());
    let mut pager = p.documents();
    let _ = pager.receive(APIDocResponse {
        count: 1,
        next: Some("h/next".to_string()),
        results: vec![doc(1, "a")],
    });
    assert!(!pager.is_finished());
    pager.fail();
    assert!(pager.is_finished());
    assert!(pager.next_request().is_none());
}

#[test]
fn filter_passes_documents_in_order_and_drops_failures() {
    let mut filter = FetchedFilter::new();
    let items: Vec<Result<APIDoc, String>> =
        vec![Ok(doc(1, "a")), Err("boom".to_string()), Ok(doc(2, "b")), Err("x".to_string())];
    let passed: Vec<i32> = items.into_iter().filter_map(|i| filter.pass(i)).map(|d| d.id).collect();
    assert_eq!(passed, vec![1, 2]);
}

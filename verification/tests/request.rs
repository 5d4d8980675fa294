use crd_api::builder;
use crd_api::date::Date;
use crd_api::request::{decimal_text, join_encoded, push_param, Request, RequestBuilder};

fn pair(name: &str, value: &str) -> (String, String) {
    (name.to_string(), value.to_string())
}

#[test]
fn a_plain_search_quotes_the_term() {
    let request = Request::new("rust");
    assert_eq!(request.query.as_deref(), Some("anywhere = \"rust\""));
    assert_eq!(request.search_type, None);
    assert_eq!(request.results_num, None);
    assert_eq!(request.params(), vec![pair("query", "anywhere = \"rust\"")]);
    assert_eq!(request.query_string(), "query=anywhere+%3D+%22rust%22");
}

#[test]
fn the_address_is_the_endpoint_and_the_query_string() {
    let request = builder()
        .search_type("reference")
        .query("question = rust")
        .build()
        .unwrap();
    assert_eq!(request.query_string(), "type=reference&query=question+%3D+rust");
    assert_eq!(
        request.url(),
        "https://crd.ndl.go.jp/api/refsearch?type=reference&query=question+%3D+rust"
    );
}

#[test]
fn a_request_without_parameters_has_an_empty_query_string() {
    let request = builder().build().unwrap();
    assert_eq!(request, Request::default());
    assert_eq!(request.params(), vec![]);
    assert_eq!(request.query_string(), "");
    assert_eq!(request.url(), "https://crd.ndl.go.jp/api/refsearch?");
}

#[test]
fn every_parameter_is_sent_under_its_name_and_in_order() {
    let mut b = RequestBuilder::default();
    b.sort_order("asc");
    b.sort("reg-date");
    b.results_num(50);
    b.results_get_position(-3);
    b.lib_group("public");
    b.lib_id("6210033");
    b.lst_date_to(Date { year: 2006, month: 6, day: 6 });
    b.lst_date_from(Date { year: 2005, month: 5, day: 5 });
    b.reg_date_to(Date { year: 2004, month: 4, day: 4 });
    b.reg_date_from(Date { year: 2003, month: 3, day: 3 });
    b.crt_date_to(Date { year: 2002, month: 12, day: 31 });
    b.crt_date_from(Date { year: 2000, month: 1, day: 1 });
    b.query("question any 読書");
    b.search_type("manual");
    let request = b.build().unwrap();
    assert_eq!(
        request.params(),
        vec![
            pair("type", "manual"),
            pair("query", "question any 読書"),
            pair("crt-date_from", "20000101"),
            pair("crt-date_to", "20021231"),
            pair("reg-date_from", "20030303"),
            pair("reg-date_to", "20040404"),
            pair("lst-date_from", "20050505"),
            pair("lst-date_to", "20060606"),
            pair("lib-id", "6210033"),
            pair("lib-group", "public"),
            pair("results_get_position", "-3"),
            pair("results_num", "50"),
            pair("sort", "reg-date"),
            pair("sort_order", "asc"),
        ]
    );
    assert_eq!(
        request.query_string(),
        "type=manual&query=question+any+%E8%AA%AD%E6%9B%B8&crt-date_from=20000101\
         &crt-date_to=20021231&reg-date_from=20030303&reg-date_to=20040404\
         &lst-date_from=20050505&lst-date_to=20060606&lib-id=6210033&lib-group=public\
         &results_get_position=-3&results_num=50&sort=reg-date&sort_order=asc"
    );
}

#[test]
fn a_day_that_does_not_exist_is_left_out() {
    let request = builder()
        .crt_date_from(Date { year: 2023, month: 2, day: 30 })
        .results_num(1)
        .build()
        .unwrap();
    assert_eq!(request.params(), vec![pair("results_num", "1")]);
}

#[test]
fn a_later_value_replaces_an_earlier_one() {
    let request = builder().query("a").query("b").build().unwrap();
    assert_eq!(request.query.as_deref(), Some("b"));
}

#[test]
fn a_builder_can_build_more_than_once() {
    let mut b = builder();
    b.search_type("all");
    let first = b.build().unwrap();
    b.results_num(10);
    let second = b.build().unwrap();
    assert_eq!(first.results_num, None);
    assert_eq!(second.results_num, Some(10));
    assert_eq!(second.search_type.as_deref(), Some("all"));
    assert_eq!(b.clone().build().unwrap(), second);
}

#[test]
fn numbers_are_written_in_decimal() {
    assert_eq!(decimal_text(0), "0");
    assert_eq!(decimal_text(7), "7");
    assert_eq!(decimal_text(10), "10");
    assert_eq!(decimal_text(200), "200");
    assert_eq!(decimal_text(-1), "-1");
    assert_eq!(decimal_text(1234567890), "1234567890");
    assert_eq!(decimal_text(i32::MAX), "2147483647");
    assert_eq!(decimal_text(i32::MIN), "-2147483648");
    for n in [-1000, -99, -10, 9, 99, 100, 101, 65535] {
        assert_eq!(decimal_text(n), n.to_string());
    }
}

#[test]
fn a_parameter_without_a_value_is_not_added() {
    let mut params = vec![pair("a", "1")];
    push_param(&mut params, "b", None);
    assert_eq!(params, vec![pair("a", "1")]);
    push_param(&mut params, "c", Some("3".to_string()));
    assert_eq!(params, vec![pair("a", "1"), pair("c", "3")]);
}

#[test]
fn escaped_parameters_are_joined_by_ampersands() {
    assert_eq!(join_encoded(&vec![]), "");
    assert_eq!(join_encoded(&vec!["a=1".to_string()]), "a=1");
    assert_eq!(join_encoded(&vec!["a=1".to_string(), "b=2".to_string()]), "a=1&b=2");
}

#[test]
fn names_and_values_are_escaped() {
    let request = builder().query("a&b=c d/é*-._").build().unwrap();
    assert_eq!(request.query_string(), "query=a%26b%3Dc+d%2F%C3%A9*-._");
}

#[test]
fn a_copy_of_a_request_is_equal_to_it() {
    let request = builder()
        .search_type("reference")
        .crt_date_from(Date { year: 2000, month: 1, day: 1 })
        .results_num(1)
        .build()
        .unwrap();
    assert_eq!(request.clone(), request);
}

use consul::errors::Error;
use consul::params::Params;
use consul::request::{
    add_config_options, delete, get, get_vec, last_index, prepare, put, query_params, read_reply,
    read_value, read_values, within_limit, write_params, write_reply, write_value, Method,
    Payload, Request, Response, INDEX_HEADER, MAX_URL_TEXT, NOT_FOUND, TOKEN_HEADER,
};
use consul::{Config, QueryMeta, QueryOptions, WriteOptions};
use std::time::Duration;

fn local() -> Config {
    Config::new()
}

fn pair(key: &str, value: &str) -> (String, String) {
    (key.to_string(), value.to_string())
}

#[test]
fn get_without_parameters_ends_in_an_empty_query() {
    let request = get("/v1/agent/checks", &local(), Params::new(), None).unwrap();
    assert_eq!(request.method, Method::Get);
    assert_eq!(request.url, "http://localhost:8500/v1/agent/checks?");
    assert!(request.headers.is_empty());
    assert!(request.body.is_none());
}

#[test]
fn get_appends_datacenter_index_and_wait_in_that_order() {
    let options = QueryOptions {
        datacenter: Some("dc2".to_string()),
        wait_index: Some(42),
        wait_time: Some(Duration::from_millis(10_900)),
    };
    let mut params = Params::new();
    params.insert("filter".to_string(), "a b".to_string());
    let request = get("/v1/agent/services", &local(), params, Some(&options)).unwrap();
    assert_eq!(
        request.url,
        "http://localhost:8500/v1/agent/services?filter=a+b&dc=dc2&index=42&wait=10s"
    );
}

#[test]
fn get_vec_builds_the_request_of_get() {
    let options = QueryOptions { datacenter: None, wait_index: Some(7), wait_time: None };
    let one = get("/v1/agent/members", &local(), Params::new(), Some(&options)).unwrap();
    let many = get_vec("/v1/agent/members", &local(), Params::new(), Some(&options)).unwrap();
    assert_eq!(one.url, many.url);
    assert_eq!(one.method, many.method);
    assert_eq!(one.headers, many.headers);
    assert_eq!(many.url, "http://localhost:8500/v1/agent/members?index=7");
}

#[test]
fn the_configured_datacenter_is_the_default() {
    let mut config = local();
    config.datacenter = Some("home".to_string());
    let none = QueryOptions::default();
    let request = get("/x", &config, Params::new(), Some(&none)).unwrap();
    assert_eq!(request.url, "http://localhost:8500/x?dc=home");
    let request = get("/x", &config, Params::new(), None).unwrap();
    assert_eq!(request.url, "http://localhost:8500/x?dc=home");
    let own = QueryOptions { datacenter: Some("away".to_string()), ..Default::default() };
    let request = get("/x", &config, Params::new(), Some(&own)).unwrap();
    assert_eq!(request.url, "http://localhost:8500/x?dc=away");
}

#[test]
fn the_datacenter_takes_the_place_of_a_parameter_named_dc() {
    let mut config = local();
    config.datacenter = Some("home".to_string());
    let mut params = Params::new();
    params.insert("dc".to_string(), "mine".to_string());
    params.insert("wan".to_string(), "1".to_string());
    let merged = query_params(&config, params, None);
    assert_eq!(merged.pairs(), &vec![pair("dc", "home"), pair("wan", "1")]);
}

#[test]
fn a_write_takes_the_datacenter_and_nothing_else() {
    let mut config = local();
    config.datacenter = Some("home".to_string());
    let merged = write_params(&config, Params::new(), None);
    assert_eq!(merged.pairs(), &vec![pair("dc", "home")]);
    let own = WriteOptions { datacenter: Some("away".to_string()) };
    let merged = write_params(&config, Params::new(), Some(&own));
    assert_eq!(merged.pairs(), &vec![pair("dc", "away")]);
    let merged = write_params(&local(), Params::new(), Some(&WriteOptions::default()));
    assert!(merged.pairs().is_empty());
}

#[test]
fn an_index_of_zero_and_the_largest_index_are_written_in_full() {
    let zero = QueryOptions { wait_index: Some(0), ..Default::default() };
    let merged = query_params(&local(), Params::new(), Some(&zero));
    assert_eq!(merged.pairs(), &vec![pair("index", "0")]);
    let most = QueryOptions { wait_index: Some(u64::MAX), ..Default::default() };
    let merged = query_params(&local(), Params::new(), Some(&most));
    assert_eq!(merged.pairs(), &vec![pair("index", "18446744073709551615")]);
}

#[test]
fn the_wait_is_in_whole_seconds() {
    let short = QueryOptions { wait_time: Some(Duration::from_millis(999)), ..Default::default() };
    let merged = query_params(&local(), Params::new(), Some(&short));
    assert_eq!(merged.pairs(), &vec![pair("wait", "0s")]);
    let long = QueryOptions { wait_time: Some(Duration::from_secs(600)), ..Default::default() };
    let merged = query_params(&local(), Params::new(), Some(&long));
    assert_eq!(merged.pairs(), &vec![pair("wait", "600s")]);
}

#[test]
fn the_token_goes_into_its_header() {
    let mut config = local();
    config.token = Some("s3cr3t".to_string());
    let request = get("/v1/agent/checks", &config, Params::new(), None).unwrap();
    assert_eq!(request.headers, vec![pair("X-Consul-Token", "s3cr3t")]);
    let body: Option<&()> = None;
    let bare = Request {
        method: Method::Put,
        url: "http://h/".to_string(),
        headers: vec![pair("Accept", "*/*")],
        body,
    };
    let with_token = add_config_options(bare, &config);
    assert_eq!(with_token.method, Method::Put);
    assert_eq!(with_token.url, "http://h/");
    assert_eq!(with_token.headers, vec![pair("Accept", "*/*"), pair("X-Consul-Token", "s3cr3t")]);
    let body: Option<&()> = None;
    let bare = Request { method: Method::Get, url: "http://h/".to_string(), headers: vec![], body };
    assert!(add_config_options(bare, &local()).headers.is_empty());
}

#[test]
fn an_address_that_is_no_url_is_a_bad_url() {
    let config = Config::new_from_addr("127.0.0.1:8500", None);
    let outcome = get("/v1/agent/checks", &config, Params::new(), None);
    assert_eq!(outcome.unwrap_err(), Error::BadUrl);
    let config = Config::new_from_addr("", None);
    let body: Option<&()> = None;
    let outcome = put("/v1/agent/reload", body, &config, Params::new(), None);
    assert_eq!(outcome.unwrap_err(), Error::BadUrl);
    let outcome = delete("/v1/kv/x", &config, Params::new(), None);
    assert_eq!(outcome.unwrap_err(), Error::BadUrl);
}

#[test]
fn the_url_is_the_parsed_one_not_the_text_joined() {
    let config = Config::new_from_addr("HTTP://LocalHost:8500", None);
    let request = get("/a b", &config, Params::new(), None).unwrap();
    assert_eq!(request.url, "http://localhost:8500/a%20b?");
}

#[test]
fn put_carries_its_body_and_delete_has_none() {
    let body = 5u8;
    let request = put("/v1/kv/x", Some(&body), &local(), Params::new(), None).unwrap();
    assert_eq!(request.method, Method::Put);
    assert_eq!(request.body, Some(&5u8));
    assert_eq!(request.url, "http://localhost:8500/v1/kv/x?");
    let request = delete("/v1/kv/x", &local(), Params::new(), None).unwrap();
    assert_eq!(request.method, Method::Delete);
    assert!(request.body.is_none());
    assert_eq!(request.url, "http://localhost:8500/v1/kv/x?");
}

#[test]
fn prepare_turns_a_parsed_url_into_a_request() {
    let mut config = local();
    config.token = Some("t".to_string());
    let body = 1u8;
    let request =
        prepare(Method::Put, Ok("http://h/p?x=1".to_string()), Some(&body), &config).unwrap();
    assert_eq!(request.method, Method::Put);
    assert_eq!(request.url, "http://h/p?x=1");
    assert_eq!(request.headers, vec![pair("X-Consul-Token", "t")]);
    assert_eq!(request.body, Some(&1u8));
    let failed: Result<String, url::ParseError> = Err(url::ParseError::EmptyHost);
    let none: Option<&u8> = None;
    assert_eq!(prepare(Method::Get, failed, none, &config).unwrap_err(), Error::BadUrl);
}

fn response(status: u16, index: Option<&str>, body: &str) -> Response {
    Response {
        status,
        index: index.map(|text| text.as_bytes().to_vec()),
        body: body.as_bytes().to_vec(),
    }
}

#[test]
fn a_read_gives_the_body_and_the_index() {
    let took = Duration::from_millis(15);
    let (payload, meta) = read_reply(response(200, Some("12"), "{}"), took).unwrap();
    assert_eq!(payload, Payload::Body(b"{}".to_vec()));
    assert_eq!(meta.last_index, Some(12));
    assert_eq!(meta.request_time, took);
    let (payload, meta) = read_reply(response(204, None, ""), took).unwrap();
    assert_eq!(payload, Payload::Body(Vec::new()));
    assert_eq!(meta.last_index, None);
}

#[test]
fn a_read_of_what_is_not_there_is_empty_and_keeps_the_index() {
    let took = Duration::from_secs(1);
    let (payload, meta) = read_reply(response(404, Some("77"), "not found"), took).unwrap();
    assert_eq!(payload, Payload::Empty);
    assert_eq!(meta.last_index, Some(77));
    assert_eq!(meta.request_time, took);
    let (payload, meta) = read_reply(response(404, None, ""), took).unwrap();
    assert_eq!(payload, Payload::Empty);
    assert_eq!(meta.last_index, None);
}

#[test]
fn a_read_fails_on_any_other_status_outside_success() {
    let took = Duration::from_secs(1);
    for status in [100u16, 199, 300, 301, 400, 403, 405, 500, 503, 599, 600] {
        let outcome = read_reply(response(status, Some("3"), "boom"), took);
        assert_eq!(
            outcome.unwrap_err(),
            Error::ServerError { status, body: b"boom".to_vec() }
        );
    }
    for status in [200u16, 201, 299] {
        assert!(read_reply(response(status, Some("3"), "boom"), took).is_ok());
    }
}

#[test]
fn a_header_that_is_no_number_fails_the_read_whatever_the_status() {
    let took = Duration::from_secs(1);
    for status in [200u16, 404, 500] {
        for text in ["", "x", "12x", " 12", "12 ", "-1", "+", "1_000", "18446744073709551616"] {
            let outcome = read_reply(response(status, Some(text), "body"), took);
            assert_eq!(outcome.unwrap_err(), Error::ParseConsulIndexError);
        }
    }
    let bytes = Response { status: 200, index: Some(vec![0xff, 0x31]), body: Vec::new() };
    assert_eq!(read_reply(bytes, took).unwrap_err(), Error::ParseConsulIndexError);
}

#[test]
fn last_index_reads_what_the_header_writes() {
    assert_eq!(last_index(&None), Ok(None));
    assert_eq!(last_index(&Some(b"0".to_vec())), Ok(Some(0)));
    assert_eq!(last_index(&Some(b"007".to_vec())), Ok(Some(7)));
    assert_eq!(last_index(&Some(b"+15".to_vec())), Ok(Some(15)));
    assert_eq!(last_index(&Some(b"18446744073709551615".to_vec())), Ok(Some(u64::MAX)));
    let failed = Err(Error::ParseConsulIndexError);
    assert_eq!(last_index(&Some(b"18446744073709551616".to_vec())), failed);
    assert_eq!(last_index(&Some(b"99999999999999999999".to_vec())), failed);
    assert_eq!(last_index(&Some(b"++1".to_vec())), failed);
    assert_eq!(last_index(&Some(Vec::new())), failed);
}

#[test]
fn a_blocking_read_reports_the_index_that_the_agent_sent() {
    let wait = Duration::from_secs(5);
    let options =
        QueryOptions { wait_index: Some(41), wait_time: Some(wait), ..Default::default() };
    let request = get("/v1/agent/checks", &local(), Params::new(), Some(&options)).unwrap();
    assert_eq!(request.url, "http://localhost:8500/v1/agent/checks?index=41&wait=5s");
    let unchanged = read_reply(response(200, Some("41"), "{}"), wait).unwrap();
    assert_eq!(unchanged.1.last_index, Some(41));
    let moved = read_reply(response(200, Some("42"), "{}"), Duration::from_millis(2)).unwrap();
    assert_eq!(moved.1.last_index, Some(42));
}

#[test]
fn a_write_gives_the_body_on_success() {
    let took = Duration::from_millis(3);
    let (body, meta) = write_reply(response(200, None, "true"), took).unwrap();
    assert_eq!(body, b"true".to_vec());
    assert_eq!(meta.request_time, took);
    let (body, _) = write_reply(response(299, Some("junk"), ""), took).unwrap();
    assert!(body.is_empty());
}

#[test]
fn a_write_fails_on_every_status_outside_success() {
    let took = Duration::from_millis(3);
    for status in [0u16, 199, 300, 400, 404, 500, 65535] {
        let outcome = write_reply(response(status, Some("9"), "gone"), took);
        assert_eq!(
            outcome.unwrap_err(),
            Error::ServerError { status, body: b"gone".to_vec() }
        );
    }
}

#[test]
fn the_headers_and_the_status_have_their_values() {
    assert_eq!(TOKEN_HEADER, "X-Consul-Token");
    assert_eq!(INDEX_HEADER, "X-Consul-Index");
    assert_eq!(NOT_FOUND, 404);
}

fn number(bytes: &Vec<u8>) -> Option<u32> {
    std::str::from_utf8(bytes).ok().and_then(|text| text.parse().ok())
}

fn numbers(bytes: &Vec<u8>) -> Option<Vec<u32>> {
    let text = std::str::from_utf8(bytes).ok()?;
    text.split(',').map(|part| part.parse().ok()).collect()
}

#[test]
fn a_read_of_a_value_decodes_the_body() {
    let took = Duration::from_millis(4);
    let (value, meta) = read_value(response(200, Some("5"), "31"), took, number, 0).unwrap();
    assert_eq!(value, 31);
    assert_eq!(meta.last_index, Some(5));
    assert_eq!(meta.request_time, took);
}

#[test]
fn a_read_of_a_value_that_is_not_there_takes_the_empty_one() {
    let took = Duration::from_millis(4);
    let (value, meta) = read_value(response(404, Some("6"), "31"), took, number, 99).unwrap();
    assert_eq!(value, 99);
    assert_eq!(meta.last_index, Some(6));
    let (values, meta) = read_values(response(404, None, "1,2"), took, numbers).unwrap();
    assert!(values.is_empty());
    assert_eq!(meta.last_index, None);
}

#[test]
fn a_read_of_a_sequence_decodes_the_body() {
    let took = Duration::from_millis(4);
    let (values, meta) = read_values(response(200, Some("8"), "1,2,3"), took, numbers).unwrap();
    assert_eq!(values, vec![1, 2, 3]);
    assert_eq!(meta.last_index, Some(8));
}

#[test]
fn a_body_that_does_not_decode_is_a_decode_error() {
    let took = Duration::from_millis(4);
    let outcome = read_value(response(200, Some("5"), "x"), took, number, 0);
    assert_eq!(outcome.unwrap_err(), Error::DecodeError);
    let outcome = read_values(response(200, None, "1,,2"), took, numbers);
    assert_eq!(outcome.unwrap_err(), Error::DecodeError);
    let outcome = write_value(response(200, None, ""), took, number);
    assert_eq!(outcome.unwrap_err(), Error::DecodeError);
}

#[test]
fn the_header_and_the_status_come_before_the_body() {
    let took = Duration::from_millis(4);
    let outcome = read_value(response(200, Some("x"), "y"), took, number, 0);
    assert_eq!(outcome.unwrap_err(), Error::ParseConsulIndexError);
    let outcome = read_value(response(500, Some("1"), "y"), took, number, 0);
    assert_eq!(outcome.unwrap_err(), Error::ServerError { status: 500, body: b"y".to_vec() });
    let outcome = write_value(response(404, None, "y"), took, number);
    assert_eq!(outcome.unwrap_err(), Error::ServerError { status: 404, body: b"y".to_vec() });
}

#[test]
fn a_write_decodes_the_body() {
    let took = Duration::from_millis(4);
    let (value, meta) = write_value(response(200, Some("junk"), "12"), took, number).unwrap();
    assert_eq!(value, 12);
    assert_eq!(meta.request_time, took);
}

#[test]
fn a_url_is_made_from_a_million_characters_at_most() {
    assert_eq!(MAX_URL_TEXT, 1_000_000);
    let address = "http://h";
    let config = Config::new_from_addr(address, None);
    let mut params = Params::new();
    params.insert("k".to_string(), "v".repeat(1000));
    let path = format!("/{}", "p".repeat(MAX_URL_TEXT - address.len() - 1 - 1001));
    assert!(within_limit(&format!("{}{}", address, path), params.pairs()));
    let request = get(&path, &config, params, None).unwrap();
    assert_eq!(request.url.len(), MAX_URL_TEXT + "?=".len());
    assert!(request.url.starts_with("http://h/ppp"));
    assert!(request.url.ends_with("ppp?k=vvv") || request.url.ends_with("vvvv"));
    assert!(request.url.contains("ppp?k=vvv"));
    let mut params = Params::new();
    params.insert("k".to_string(), "v".repeat(1001));
    assert!(!within_limit(&format!("{}{}", address, path), params.pairs()));
    assert_eq!(get(&path, &config, params, None).unwrap_err(), Error::BadUrl);
}

#[test]
fn the_limit_counts_characters_not_bytes() {
    let target = "é".repeat(MAX_URL_TEXT);
    assert!(within_limit(&target, &Vec::new()));
    let pairs = vec![(String::new(), "é".to_string())];
    assert!(!within_limit(&target, &pairs));
    assert!(!within_limit(&"x".repeat(MAX_URL_TEXT + 1), &Vec::new()));
    assert!(within_limit("", &Vec::new()));
}

#[test]
fn the_next_read_waits_for_the_index_that_the_last_one_reported() {
    let wait = Duration::from_secs(30);
    let first = QueryOptions {
        datacenter: Some("dc1".to_string()),
        wait_index: None,
        wait_time: Some(wait),
    };
    let (_, meta) = read_reply(response(200, Some("17"), "[]"), wait).unwrap();
    let second = first.following(&meta);
    assert_eq!(second.datacenter, Some("dc1".to_string()));
    assert_eq!(second.wait_index, Some(17));
    assert_eq!(second.wait_time, Some(wait));
    let request = get("/v1/agent/checks", &local(), Params::new(), Some(&second)).unwrap();
    assert_eq!(request.url, "http://localhost:8500/v1/agent/checks?dc=dc1&index=17&wait=30s");
    let (_, meta) = read_reply(response(404, Some("9"), ""), wait).unwrap();
    assert_eq!(second.following(&meta).wait_index, Some(9));
    let none = QueryMeta { last_index: None, request_time: wait };
    let third = second.following(&none);
    assert_eq!(third.wait_index, None);
    assert_eq!(third.datacenter, Some("dc1".to_string()));
}

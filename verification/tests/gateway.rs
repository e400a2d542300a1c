use rpki_mcp::dispatch::{finish_file, plan, Action, FileOutcome, Operation};
use rpki_mcp::endpoint::Endpoint;
use rpki_mcp::error::ErrorKind;
use rpki_mcp::gateway::{fetch_result, roas_url, status_url, validity_url, HttpOutcome, Shape};
use rpki_mcp::json::JsonValue;
use rpki_mcp::parse::parse_json_text;
use rpki_mcp::schema::{decode_status, status_to_json, StatusResult};
use rpki_mcp::text::{parse_i64, parse_uint, render_i64, render_u64};

fn field<'a>(v: &'a JsonValue, k: &str) -> &'a JsonValue {
    v.get(k).expect("field missing")
}

fn field_str(v: &JsonValue, k: &str) -> String {
    field(v, k).as_string().expect("not a string").clone()
}

fn field_num(v: &JsonValue, k: &str) -> String {
    field(v, k).as_number().expect("not a number").clone()
}

#[test]
fn endpoint_accepts_both_schemes() {
    assert!(Endpoint::new("http://localhost:8323".to_string()).is_ok());
    assert!(Endpoint::new("https://rpki.example".to_string()).is_ok());
}

#[test]
fn endpoint_rejects_empty_and_unschemed() {
    for bad in ["", "   ", "ftp://x", "rpki.example", "httpx://y", " https://z"] {
        let r = Endpoint::new(bad.to_string());
        match r {
            Ok(_) => panic!("accepted {:?}", bad),
            Err(m) => assert_eq!(m, "Endpoint must start with http:// or https://"),
        }
    }
}

#[test]
fn urls_are_composed_verbatim() {
    let ep = Endpoint::new("https://rpki.example".to_string()).unwrap();
    assert_eq!(status_url(&ep), "https://rpki.example/api/v1/status");
    assert_eq!(
        validity_url(&ep, "AS65000", "192.0.2.0/24"),
        "https://rpki.example/api/v1/validity/AS65000/192.0.2.0/24"
    );
    assert_eq!(roas_url(&ep, "AS65000"), "https://rpki.example/json?select-asn=AS65000");
}

#[test]
fn numbers_parse_and_render() {
    assert_eq!(parse_uint("0", 65535), Some(0));
    assert_eq!(parse_uint("65535", 65535), Some(65535));
    assert_eq!(parse_uint("65536", 65535), None);
    assert_eq!(parse_uint("", 65535), None);
    assert_eq!(parse_uint("12a", 65535), None);
    assert_eq!(parse_uint("-3", 65535), None);
    assert_eq!(parse_i64("24"), Some(24));
    assert_eq!(parse_i64("-24"), Some(-24));
    assert_eq!(parse_i64("9223372036854775807"), Some(i64::MAX));
    assert_eq!(parse_i64("9223372036854775808"), None);
    assert_eq!(parse_i64("-9223372036854775808"), Some(i64::MIN));
    assert_eq!(parse_i64("-9223372036854775809"), None);
    assert_eq!(parse_i64("1.5"), None);
    assert_eq!(render_u64(0), "0");
    assert_eq!(render_u64(65000), "65000");
    assert_eq!(render_i64(-42), "-42");
}

#[test]
fn json_parser_reads_structure() {
    let v = parse_json_text(r#"{"a": 1, "b": [true, null, "x"]}"#).expect("should parse");
    assert_eq!(field_num(&v, "a"), "1");
    let b = field(&v, "b").as_array().expect("array");
    assert_eq!(b.len(), 3);
    assert_eq!(b[2].as_string().unwrap(), "x");
    assert!(v.get("c").is_none());
    assert!(parse_json_text("{").is_none());
    assert!(parse_json_text("").is_none());
}

const STATUS_BODY: &str = r#"{
  "version": "0.13.0",
  "serial": 907,
  "now": "2024-01-01T00:00:00Z",
  "lastUpdateStart": "2023-12-31T23:50:00Z",
  "lastUpdateDone": "2023-12-31T23:55:00Z",
  "lastUpdateDuration": 31.5,
  "tals": {"ripe": {}}
}"#;

#[test]
fn status_success_shape_is_copied_verbatim() {
    let v = parse_json_text(STATUS_BODY).unwrap();
    let decoded = decode_status(&v).expect("matches success shape");
    let payload = status_to_json(&decoded);
    assert_eq!(field_str(&payload, "version"), "0.13.0");
    assert_eq!(field_num(&payload, "serial"), "907");
    assert_eq!(field_str(&payload, "now"), "2024-01-01T00:00:00Z");
    assert_eq!(field_str(&payload, "lastUpdateStart"), "2023-12-31T23:50:00Z");
    assert_eq!(field_str(&payload, "lastUpdateDone"), "2023-12-31T23:55:00Z");
    assert_eq!(field_num(&payload, "lastUpdateDuration"), "31.5");
    // normalization: fields the schema does not know are not carried over
    assert!(payload.get("tals").is_none());
}

#[test]
fn status_error_shape_is_second_choice() {
    let v = parse_json_text(r#"{"error": "no data yet"}"#).unwrap();
    match decode_status(&v).expect("matches error shape") {
        StatusResult::Error(m) => assert_eq!(m, "no data yet"),
        StatusResult::Success(_) => panic!("wrong shape"),
    }
}

#[test]
fn status_neither_shape_is_a_decode_failure() {
    for body in [
        r#"{"foo": 1}"#,
        r#"{"version": "1", "serial": "x", "now": "n", "lastUpdateStart": "a", "lastUpdateDone": "b", "lastUpdateDuration": 1}"#,
        r#"{"version": "1", "now": "n", "lastUpdateStart": "a", "lastUpdateDone": "b", "lastUpdateDuration": 1}"#,
        r#"[1, 2]"#,
        r#""just a string""#,
    ] {
        let v = parse_json_text(body).unwrap();
        assert!(decode_status(&v).is_none(), "body {:?} should not decode", body);
    }
}

#[test]
fn status_serial_is_not_narrowed() {
    // serial has no documented range: any number the body gives is kept
    let body = r#"{"version": "1", "serial": 70000, "now": "n",
        "lastUpdateStart": "a", "lastUpdateDone": "b", "lastUpdateDuration": 1}"#;
    let v = parse_json_text(body).unwrap();
    let payload = status_to_json(&decode_status(&v).expect("success shape"));
    assert_eq!(field_num(&payload, "serial"), "70000");
}

#[test]
fn status_success_shape_wins_over_error_shape() {
    // deterministic resolution order: the success shape is attempted first
    let body = r#"{
      "version": "1", "serial": 2, "now": "n",
      "lastUpdateStart": "a", "lastUpdateDone": "b", "lastUpdateDuration": 3,
      "error": "also present"
    }"#;
    let v = parse_json_text(body).unwrap();
    match decode_status(&v).expect("decodes") {
        StatusResult::Success(s) => assert_eq!(s.version, "1"),
        StatusResult::Error(_) => panic!("error shape must be the fallback"),
    }
}

#[test]
fn success_range_is_exactly_2xx() {
    for (status, is_upstream_error) in [(199u16, true), (200, false), (299, false), (300, true)] {
        let r = fetch_result(
            &Shape::Status,
            HttpOutcome::Response { status, body: Some(STATUS_BODY.to_string()) },
        );
        match r {
            Ok(_) => assert!(!is_upstream_error, "status {} must not succeed", status),
            Err(e) => {
                assert!(is_upstream_error, "status {} must succeed", status);
                assert_eq!(e.kind, ErrorKind::Upstream);
                assert_eq!(e.code, status as i32);
            }
        }
    }
}

#[test]
fn fetch_transport_failure_is_a_network_error() {
    let r = fetch_result(
        &Shape::Status,
        HttpOutcome::Failure { status: None, message: "connection refused".to_string() },
    );
    let e = r.err().expect("must fail");
    assert_eq!(e.kind, ErrorKind::Network);
    assert_eq!(e.code, -1);
    assert_eq!(e.message, "Request failed: connection refused");

    let r = fetch_result(
        &Shape::Status,
        HttpOutcome::Failure { status: Some(502), message: "bad gateway".to_string() },
    );
    let e = r.err().expect("must fail");
    assert_eq!(e.kind, ErrorKind::Network);
    assert_eq!(e.code, 502);
    assert_eq!(e.message, "Request failed: bad gateway");
}

#[test]
fn fetch_not_found_carries_status_and_body() {
    let r = fetch_result(
        &Shape::Validity,
        HttpOutcome::Response { status: 404, body: Some("not found".to_string()) },
    );
    let e = r.err().expect("must fail");
    assert_eq!(e.kind, ErrorKind::Upstream);
    assert_eq!(e.code, 404);
    assert_eq!(e.message, "not found");
}

#[test]
fn fetch_unreadable_error_body_gets_a_placeholder() {
    let r = fetch_result(&Shape::Roas, HttpOutcome::Response { status: 500, body: None });
    let e = r.err().expect("must fail");
    assert_eq!(e.kind, ErrorKind::Upstream);
    assert_eq!(e.code, 500);
    assert_eq!(e.message, "Unknown error");
}

#[test]
fn fetch_success_returns_normalized_payload() {
    let r = fetch_result(
        &Shape::Status,
        HttpOutcome::Response { status: 200, body: Some(STATUS_BODY.to_string()) },
    );
    let payload = r.ok().expect("must succeed");
    assert_eq!(field_str(&payload, "version"), "0.13.0");
    assert_eq!(field_num(&payload, "serial"), "907");
}

#[test]
fn fetch_success_with_bad_body_is_a_decode_error() {
    for body in ["not json at all", r#"{"foo": 1}"#] {
        let r = fetch_result(
            &Shape::Status,
            HttpOutcome::Response { status: 200, body: Some(body.to_string()) },
        );
        let e = r.err().expect("must fail");
        assert_eq!(e.kind, ErrorKind::Decode);
        assert_eq!(e.code, 200);
        assert_eq!(e.message, "Failed to decode response body");
    }
    let r = fetch_result(&Shape::Status, HttpOutcome::Response { status: 204, body: None });
    let e = r.err().expect("must fail");
    assert_eq!(e.kind, ErrorKind::Decode);
    assert_eq!(e.code, 204);
    assert_eq!(e.message, "Failed to read response body");
}

const VALIDITY_BODY: &str = r#"{
  "validated_route": {
    "route": {"origin_asn": "AS65000", "prefix": "192.0.2.0/24"},
    "validity": {
      "state": "valid",
      "description": "At least one VRP Matches the Route Prefix",
      "VRPs": {
        "matched": [{"asn": "AS65000", "prefix": "192.0.2.0/24", "max_length": "24"}],
        "unmatched_as": [{"asn": "AS64999", "prefix": "192.0.2.0/24", "max_length": "24"}],
        "unmatched_length": []
      }
    }
  },
  "generatedTime": "2024-01-01T00:00:00Z"
}"#;

#[test]
fn validity_body_is_normalized_to_the_documented_shape() {
    let r = fetch_result(
        &Shape::Validity,
        HttpOutcome::Response { status: 200, body: Some(VALIDITY_BODY.to_string()) },
    );
    let payload = r.ok().expect("must succeed");
    // the upstream nesting level and its field casing are normalized away
    assert!(payload.get("validated_route").is_none());
    let route = field(&payload, "route");
    assert_eq!(field_str(route, "originAsn"), "AS65000");
    assert_eq!(field_str(route, "prefix"), "192.0.2.0/24");
    assert!(route.get("origin_asn").is_none());
    let validity = field(&payload, "validity");
    assert_eq!(field_str(validity, "state"), "valid");
    let vrps = field(validity, "vrps");
    let matched = field(vrps, "matched").as_array().unwrap();
    assert_eq!(matched.len(), 1);
    assert_eq!(field_str(&matched[0], "asn"), "AS65000");
    assert_eq!(field_str(&matched[0], "maxLength"), "24");
    let unmatched_as = field(vrps, "unmatchedAs").as_array().unwrap();
    assert_eq!(unmatched_as.len(), 1);
    assert_eq!(field_str(&unmatched_as[0], "asn"), "AS64999");
    assert_eq!(field(vrps, "unmatchedLength").as_array().unwrap().len(), 0);
    assert_eq!(field_str(&payload, "generatedTime"), "2024-01-01T00:00:00Z");
}

#[test]
fn validity_with_missing_field_is_a_decode_error() {
    let body = r#"{"validated_route": {"route": {"origin_asn": "AS1"}}}"#;
    let r = fetch_result(
        &Shape::Validity,
        HttpOutcome::Response { status: 200, body: Some(body.to_string()) },
    );
    let e = r.err().expect("must fail");
    assert_eq!(e.kind, ErrorKind::Decode);
}

const ROAS_BODY: &str = r#"{
  "metadata": {"generated": 1704067200, "generatedTime": "2024-01-01T00:00:00Z"},
  "roas": [
    {"asn": "AS65000", "prefix": "192.0.2.0/24", "maxLength": 24, "ta": "ripe"},
    {"asn": "AS65000", "prefix": "2001:db8::/32", "maxLength": 48, "ta": "ripe"}
  ]
}"#;

#[test]
fn roa_set_body_is_normalized_in_order() {
    let r = fetch_result(
        &Shape::Roas,
        HttpOutcome::Response { status: 200, body: Some(ROAS_BODY.to_string()) },
    );
    let payload = r.ok().expect("must succeed");
    let meta = field(&payload, "metadata");
    assert_eq!(field_num(meta, "generated"), "1704067200");
    assert_eq!(field_str(meta, "generatedTime"), "2024-01-01T00:00:00Z");
    let roas = field(&payload, "roas").as_array().unwrap();
    assert_eq!(roas.len(), 2);
    assert_eq!(field_str(&roas[0], "prefix"), "192.0.2.0/24");
    assert_eq!(field_num(&roas[0], "maxLength"), "24");
    assert_eq!(field_str(&roas[1], "prefix"), "2001:db8::/32");
    assert_eq!(field_num(&roas[1], "maxLength"), "48");
    // the upstream's abbreviated field comes out under its documented name
    assert_eq!(field_str(&roas[1], "trustAnchor"), "ripe");
    assert!(roas[1].get("ta").is_none());
}

#[test]
fn plan_binds_each_operation() {
    let ep = Endpoint::new("https://rpki.example".to_string()).unwrap();
    match plan(&Operation::Status, &ep) {
        Action::HttpGet { url, shape } => {
            assert_eq!(url, "https://rpki.example/api/v1/status");
            assert_eq!(shape, Shape::Status);
        }
        _ => panic!("wrong action"),
    }
    match plan(
        &Operation::Validity { asn: "AS65000".to_string(), prefix: "192.0.2.0/24".to_string() },
        &ep,
    ) {
        Action::HttpGet { url, shape } => {
            assert_eq!(url, "https://rpki.example/api/v1/validity/AS65000/192.0.2.0/24");
            assert_eq!(shape, Shape::Validity);
        }
        _ => panic!("wrong action"),
    }
    match plan(&Operation::Roas { asn: "AS65000".to_string() }, &ep) {
        Action::HttpGet { url, shape } => {
            assert_eq!(url, "https://rpki.example/json?select-asn=AS65000");
            assert_eq!(shape, Shape::Roas);
        }
        _ => panic!("wrong action"),
    }
    match plan(&Operation::ParseRoaFile { path: "/tmp/a.roa".to_string() }, &ep) {
        Action::ReadFile { path } => assert_eq!(path, "/tmp/a.roa"),
        _ => panic!("wrong action"),
    }
}

#[test]
fn file_read_failure_is_an_io_error() {
    let r = finish_file(FileOutcome::Failure("no such file".to_string()));
    let e = r.err().expect("must fail");
    assert_eq!(e.kind, ErrorKind::Io);
    assert_eq!(e.code, -1);
    assert_eq!(e.message, "Failed to read file: no such file");
}

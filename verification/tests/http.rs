use astrid_sdk::duration::{duration_to_ms, Duration};
use astrid_sdk::http::{read_chunk, HttpMethod, RedirectPolicy, Request, Response};
use astrid_sdk::json::{JsonNumber, JsonValue};

#[test]
fn duration_to_ms_converts_whole_millis() {
    assert_eq!(duration_to_ms(Duration::from_millis(250)), 250);
    assert_eq!(duration_to_ms(Duration::from_secs(30)), 30_000);
    assert_eq!(duration_to_ms(Duration::zero()), 0);
}

#[test]
fn duration_to_ms_saturates_at_u64_max() {
    let huge = Duration::new(u64::MAX, 0);
    assert_eq!(duration_to_ms(huge), u64::MAX);
}

#[test]
fn unset_request_builds_empty_options() {
    let req = Request::get("https://example.com");
    let opts = req.to_options();
    assert!(opts.timeouts.is_none());
    assert!(opts.redirect.is_none());
    assert!(opts.max_redirects.is_none());
    assert!(opts.max_response_bytes.is_none());
    assert!(opts.max_decompressed_bytes.is_none());
    assert!(opts.auto_decompress.is_none());
    assert!(opts.https_only.is_none());
    assert!(opts.integrity.is_none());
}

#[test]
fn timeout_builders_populate_timeout_config() {
    let req = Request::get("https://example.com")
        .connect_timeout(Duration::from_millis(100))
        .first_byte_timeout(Duration::from_millis(200))
        .read_timeout(Duration::from_millis(300))
        .timeout(Duration::from_secs(5));
    let opts = req.to_options();
    let t = opts.timeouts.expect("timeouts populated");
    assert_eq!(t.connect_ms, Some(100));
    assert_eq!(t.first_byte_ms, Some(200));
    assert_eq!(t.between_bytes_ms, Some(300));
    assert_eq!(t.total_ms, Some(5_000));
}

#[test]
fn partial_timeouts_leave_other_fields_none() {
    let req = Request::get("https://example.com").timeout(Duration::from_secs(2));
    let t = req.to_options().timeouts.expect("timeouts populated");
    assert_eq!(t.total_ms, Some(2_000));
    assert!(t.connect_ms.is_none());
    assert!(t.first_byte_ms.is_none());
    assert!(t.between_bytes_ms.is_none());
}

#[test]
fn control_builders_populate_request_options() {
    let req = Request::get("https://example.com")
        .redirect(RedirectPolicy::Follow)
        .max_redirects(7)
        .max_response_bytes(1024)
        .max_decompressed_bytes(2048)
        .auto_decompress(false)
        .https_only()
        .integrity("sha256-abc");
    let opts = req.to_options();
    assert!(matches!(opts.redirect, Some(RedirectPolicy::Follow)));
    assert_eq!(opts.max_redirects, Some(7));
    assert_eq!(opts.max_response_bytes, Some(1024));
    assert_eq!(opts.max_decompressed_bytes, Some(2048));
    assert_eq!(opts.auto_decompress, Some(false));
    assert_eq!(opts.https_only, Some(true));
    assert_eq!(opts.integrity.as_deref(), Some("sha256-abc"));
}

#[test]
fn request_data_carries_method_headers_and_body() {
    let req = Request::post("https://example.com/x")
        .header("A", "1")
        .header("B", "2")
        .header("A", "3")
        .body("hi");
    let data = req.to_request_data();
    assert_eq!(data.url, "https://example.com/x");
    assert_eq!(data.method, HttpMethod::Post);
    assert_eq!(data.headers, vec![("A".to_string(), "3".to_string()), ("B".to_string(), "2".to_string())]);
    assert_eq!(data.body, Some(b"hi".to_vec()));
}

#[test]
fn response_accessors_and_success_range() {
    let ok = Response::from_parts(204, vec![("x".into(), "1".into()), ("x".into(), "2".into())], b"ok".to_vec(), "https://e/".into(), 1, 1500, 99);
    assert!(ok.is_success());
    assert_eq!(ok.status(), 204);
    assert_eq!(ok.headers(), &vec![("x".to_string(), "2".to_string())]);
    assert_eq!(ok.text().unwrap(), "ok");
    assert_eq!(ok.bytes(), b"ok");
    assert_eq!(ok.final_url(), "https://e/");
    assert_eq!(ok.redirect_count(), 1);
    assert_eq!(ok.elapsed().as_secs(), 1);
    assert_eq!(ok.elapsed().subsec_nanos(), 500_000_000);
    assert_eq!(ok.wire_bytes(), 99);
    let not_found = Response::from_parts(404, vec![], vec![0xff], String::new(), 0, 0, 0);
    assert!(!not_found.is_success());
    assert!(not_found.text().is_err());
}

#[test]
fn read_chunk_ends_on_empty() {
    assert_eq!(read_chunk(vec![]), None);
    assert_eq!(read_chunk(vec![5]), Some(vec![5]));
}

#[test]
fn body_bytes_and_methods() {
    let data = Request::put("u").body_bytes(vec![1, 2]).to_request_data();
    assert_eq!(data.method, HttpMethod::Put);
    assert_eq!(data.body, Some(vec![1, 2]));
    assert_eq!(Request::delete("u").to_request_data().method, HttpMethod::Delete);
    assert_eq!(Request::new("purge", "u").to_request_data().method, HttpMethod::Other("PURGE".to_string()));
    assert_eq!(Request::new("get", "u").to_request_data().method, HttpMethod::Get);
}

#[test]
fn json_bodies_both_ways() {
    let value = JsonValue::Object(vec![("b".to_string(), JsonValue::Bool(false)), ("a".to_string(), JsonValue::Null)]);
    let data = Request::post("u").json(&value).to_request_data();
    assert_eq!(data.headers, vec![("Content-Type".to_string(), "application/json".to_string())]);
    assert_eq!(data.body, Some(br#"{"a":null,"b":false}"#.to_vec()));
    let resp = Response::from_parts(200, vec![], br#"{"n":[1]}"#.to_vec(), String::new(), 0, 0, 0);
    assert_eq!(
        resp.json().unwrap(),
        JsonValue::Object(vec![("n".to_string(), JsonValue::Array(vec![JsonValue::Number(JsonNumber::PosInt(1))]))])
    );
    assert!(Response::from_parts(200, vec![], b"{".to_vec(), String::new(), 0, 0, 0).json().is_err());
}

#[test]
fn redirect_policy_maps_to_wit() {
    for policy in [RedirectPolicy::Follow, RedirectPolicy::Error, RedirectPolicy::Manual] {
        let opts = Request::get("https://example.com").redirect(policy).to_options();
        assert_eq!(opts.redirect, Some(policy));
    }
}

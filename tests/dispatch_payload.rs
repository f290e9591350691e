use bolt_bridge::dispatch::{send_payload, Request};
use bolt_bridge::method::Method;

#[test]
fn payload_folds_params_into_url() {
    let request = Request {
        url: "http://localhost:8000/items".to_string(),
        method: Method::POST,
        body: "{\"a\":1}".to_string(),
        headers: vec![vec!["Content-Type".to_string(), "application/json".to_string()]],
        params: vec![
            vec!["page".to_string(), "2".to_string()],
            vec!["size".to_string(), "10".to_string()],
        ],
        index: 7,
    };
    let p = send_payload(request);
    assert_eq!(p.url, "http://localhost:8000/items?page=2&size=10");
    assert_eq!(p.method, Method::POST);
    assert_eq!(p.body, "{\"a\":1}");
    assert_eq!(p.headers, vec![vec!["Content-Type".to_string(), "application/json".to_string()]]);
    assert_eq!(p.index, 7);
}

#[test]
fn payload_without_params() {
    let request = Request {
        url: "http://a".to_string(),
        method: Method::GET,
        body: String::new(),
        headers: vec![],
        params: vec![],
        index: 0,
    };
    let p = send_payload(request);
    assert_eq!(p.url, "http://a");
    assert_eq!(p.index, 0);
}

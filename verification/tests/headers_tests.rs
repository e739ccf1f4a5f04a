use manatan_proxy::headers::{
    forward_headers, forwarded_ws_headers, header_value, is_websocket_upgrade,
    offered_subprotocols,
};

fn h(name: &str, value: &str) -> (String, String) {
    (name.to_string(), value.to_string())
}

#[test]
fn forward_headers_drops_host_and_keeps_order() {
    let hs = vec![h("accept", "*/*"), h("host", "proxy.local"), h("x-trace", "1")];
    let out = forward_headers(&hs);
    assert_eq!(out, vec![h("accept", "*/*"), h("x-trace", "1")]);
}

#[test]
fn forward_headers_without_host_copies_everything() {
    let hs = vec![h("accept", "*/*"), h("cookie", "a=b"), h("accept", "text/html")];
    let out = forward_headers(&hs);
    assert_eq!(out, hs);
}

#[test]
fn header_value_returns_first_match() {
    let hs = vec![h("accept", "*/*"), h("cookie", "a=b"), h("cookie", "c=d")];
    assert_eq!(header_value(&hs, "cookie"), Some(&"a=b".to_string()));
    assert_eq!(header_value(&hs, "upgrade"), None);
}

#[test]
fn ws_leg_headers_follow_the_allow_list() {
    let hs = vec![
        h("host", "proxy.local"),
        h("origin", "http://example.test"),
        h("x-custom", "dropped"),
        h("cookie", "session=1"),
        h("sec-websocket-protocol", "v1, v2"),
    ];
    let out = forwarded_ws_headers(&hs);
    assert_eq!(
        out,
        vec![
            h("cookie", "session=1"),
            h("sec-websocket-protocol", "v1, v2"),
            h("origin", "http://example.test"),
        ]
    );
}

#[test]
fn ws_leg_headers_empty_without_allow_listed_names() {
    let hs = vec![h("host", "proxy.local"), h("accept", "*/*")];
    assert_eq!(forwarded_ws_headers(&hs), Vec::new());
}

#[test]
fn upgrade_detection_is_case_insensitive() {
    assert!(is_websocket_upgrade(&vec![h("upgrade", "websocket")]));
    assert!(is_websocket_upgrade(&vec![h("upgrade", "WebSocket")]));
    assert!(!is_websocket_upgrade(&vec![h("upgrade", "h2c")]));
    assert!(!is_websocket_upgrade(&Vec::new()));
}

#[test]
fn subprotocols_split_and_trim() {
    let hs = vec![h("sec-websocket-protocol", "v1, v2")];
    assert_eq!(offered_subprotocols(&hs), vec!["v1".to_string(), "v2".to_string()]);
}

#[test]
fn subprotocols_absent_header_offers_none() {
    assert_eq!(offered_subprotocols(&Vec::new()), Vec::<String>::new());
}

#[test]
fn subprotocols_empty_header_offers_one_empty_entry() {
    let hs = vec![h("sec-websocket-protocol", "")];
    assert_eq!(offered_subprotocols(&hs), vec![String::new()]);
}

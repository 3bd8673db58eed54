use msfs::network::{
    drop_params, http_request, http_trampoline, keep_params_alive, HttpParams, Method, NetError,
    OwnedFfiParams, PendingRequests,
};

#[test]
fn http_get_completes_once() {
    let mut pending: PendingRequests<&str> = PendingRequests::new();
    let call = http_request(Method::Get, "https://example.com/x", HttpParams::default(), "cb").unwrap();
    assert_eq!(call.http_method(), Method::Get);
    assert_eq!(call.url_ref().as_bytes_with_nul(), b"https://example.com/x\0");
    assert!(call.params_ref().post_field().is_none());
    assert_eq!(call.params_ref().header_count(), 0);
    assert!(call.params_ref().body().is_none());
    assert_eq!(call.params_ref().data_size(), 0);

    let id = call.sent(&mut pending, 41);
    assert_eq!(id, 41);
    assert!(pending.has_handler(41));
    assert!(pending.has_params(41));

    let body = b"ok";
    let (resp, handler) = http_trampoline(&mut pending, 41, 0, 0x2000, 2, body);
    assert_eq!(handler, Some("cb"));
    assert_eq!(resp.request_id, 41);
    assert_eq!(resp.error_code, 0);
    assert_eq!(resp.data, b"ok".to_vec());
    assert!(!pending.has_handler(41));
    assert!(!pending.has_params(41));

    let (resp, handler) = http_trampoline(&mut pending, 41, 0, 0x2000, 2, body);
    assert_eq!(handler, None);
    assert_eq!(resp.data, b"ok".to_vec());
}

#[test]
fn http_response_is_empty_for_null_or_zero_size() {
    let mut pending: PendingRequests<u8> = PendingRequests::new();
    let mem = [1u8, 2, 3];
    let (resp, _) = http_trampoline(&mut pending, 1, -5, 0, 3, &mem);
    assert!(resp.data.is_empty());
    assert_eq!(resp.error_code, -5);
    let (resp, _) = http_trampoline(&mut pending, 1, 0, 0x10, 0, &mem);
    assert!(resp.data.is_empty());
    let (resp, _) = http_trampoline(&mut pending, 1, 0, 0x10, 3, &mem);
    assert_eq!(resp.data, vec![1, 2, 3]);
    let (resp, _) = http_trampoline(&mut pending, 1, 0, 0x10, 2, &mem);
    assert_eq!(resp.data, vec![1, 2]);
}

#[test]
fn params_are_encoded_in_order() {
    let params = HttpParams {
        headers: vec!["Accept: application/json".to_string(), "User-Agent: Demo/1.0".to_string()],
        post_field: Some("a=1&b=2".to_string()),
        body: vec![9, 0, 9],
    };
    let owned = OwnedFfiParams::new(params).unwrap();
    assert_eq!(owned.post_field().unwrap().as_bytes(), b"a=1&b=2");
    assert_eq!(owned.header_count(), 2);
    assert_eq!(owned.headers()[0].as_bytes(), b"Accept: application/json");
    assert_eq!(owned.headers()[1].as_bytes_with_nul(), b"User-Agent: Demo/1.0\0");
    assert_eq!(owned.body(), Some(&[9u8, 0, 9][..]));
    assert_eq!(owned.data_size(), 3);
}

#[test]
fn params_fail_at_the_first_nul() {
    let field_first = HttpParams {
        headers: vec!["bad\0".to_string()],
        post_field: Some("x\0".to_string()),
        body: Vec::new(),
    };
    match field_first.into_ffi() {
        Err(NetError::Nul(e)) => assert_eq!(e.nul_position(), 1),
        _ => panic!("a form field with a zero byte was accepted"),
    }
    let second_header = HttpParams {
        headers: vec!["fine".to_string(), "abc\0".to_string(), "\0".to_string()],
        post_field: Some("x".to_string()),
        body: Vec::new(),
    };
    match OwnedFfiParams::new(second_header) {
        Err(NetError::Nul(e)) => assert_eq!(e.nul_position(), 3),
        _ => panic!("a header with a zero byte was accepted"),
    }
}

#[test]
fn request_fails_on_url_before_params() {
    let params = HttpParams { headers: vec!["\0".to_string()], post_field: None, body: Vec::new() };
    match http_request(Method::Post, "http://a\0b", params, 1u8) {
        Err(NetError::Nul(e)) => assert_eq!(e.nul_position(), 8),
        _ => panic!("a URL with a zero byte was accepted"),
    }
    let params = HttpParams { headers: vec!["\0".to_string()], post_field: None, body: Vec::new() };
    match http_request(Method::Put, "http://a", params, 1u8) {
        Err(NetError::Nul(e)) => assert_eq!(e.nul_position(), 0),
        _ => panic!("a header with a zero byte was accepted"),
    }
}

#[test]
fn params_table_keeps_and_drops() {
    let mut pending: PendingRequests<u8> = PendingRequests::new();
    let owned = OwnedFfiParams::new(HttpParams::default()).unwrap();
    keep_params_alive(&mut pending, 7, owned);
    assert!(pending.has_params(7));
    assert!(!pending.has_handler(7));
    drop_params(&mut pending, 8);
    assert!(pending.has_params(7));
    drop_params(&mut pending, 7);
    assert!(!pending.has_params(7));
    drop_params(&mut pending, 7);
    assert!(!pending.has_params(7));
}

#[test]
fn default_params_are_empty() {
    let p = HttpParams::default();
    assert!(p.headers.is_empty());
    assert!(p.post_field.is_none());
    assert!(p.body.is_empty());
}

#[test]
fn refused_request_keeps_nothing() {
    let pending: PendingRequests<std::rc::Rc<()>> = PendingRequests::new();
    let witness = std::rc::Rc::new(());
    let call = http_request(Method::Get, "http://a", HttpParams::default(), witness.clone()).unwrap();
    assert_eq!(std::rc::Rc::strong_count(&witness), 2);
    assert_eq!(call.refused(-3), NetError::Msfs(-3));
    assert_eq!(std::rc::Rc::strong_count(&witness), 1);
    assert!(!pending.has_handler(0));
    assert!(!pending.has_params(0));
}

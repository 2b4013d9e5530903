use megalodon::client::generator;
use megalodon::error::Error;
use megalodon::response::Response;
use megalodon::SNS;
use reqwest::header::{HeaderMap, HeaderValue};

fn headers() -> HeaderMap {
    let mut h = HeaderMap::new();
    h.insert("link", HeaderValue::from_static("<https://a.test/?max_id=1>; rel=\"next\""));
    h
}

#[test]
fn new_keeps_every_part() {
    let r = Response::new(7u32, 200, String::from("OK"), headers());
    assert_eq!(r.json(), 7);
    assert_eq!(r.status, 200);
    assert_eq!(r.status_text, "OK");
    assert_eq!(r.header, headers());
    assert!(r.is_success());
}

#[test]
fn decoded_body_gives_envelope() {
    let r = Response::from_transport(201, String::from("Created"), headers(), Ok(vec![1u8, 2])).unwrap();
    assert_eq!(r.json, vec![1, 2]);
    assert_eq!(r.status, 201);
    assert_eq!(r.header.get("link").unwrap().to_str().unwrap(), "<https://a.test/?max_id=1>; rel=\"next\"");
}

#[test]
fn decode_failure_keeps_status_and_headers() {
    let r: Result<Response<u32>, Error> =
        Response::from_transport(502, String::from("Bad Gateway"), headers(), Err(String::from("expected value")));
    match r {
        Err(Error::Decode { status, status_text, header, message }) => {
            assert_eq!(status, 502);
            assert_eq!(status_text, "Bad Gateway");
            assert_eq!(header, headers());
            assert_eq!(message, "expected value");
        }
        other => panic!("unexpected {:?}", other),
    }
}

#[test]
fn success_range() {
    assert!(Response::new((), 299, String::new(), HeaderMap::new()).is_success());
    assert!(!Response::new((), 199, String::new(), HeaderMap::new()).is_success());
    assert!(!Response::new((), 300, String::new(), HeaderMap::new()).is_success());
    assert!(!Response::new((), 404, String::new(), HeaderMap::new()).is_success());
}

#[test]
fn unauthenticated_read_end_to_end() {
    let client = generator(SNS::Mastodon, String::from("https://example.test"), None, None);
    let request = client.get_instance();
    assert_eq!(request.url, "https://example.test/api/v1/instance");
    assert_eq!(request.access_token, None);
    let r = Response::from_transport(200, String::from("OK"), HeaderMap::new(), Ok(String::from("{}"))).unwrap();
    assert!(r.is_success());
    assert!(200 <= r.status && r.status <= 299);
}

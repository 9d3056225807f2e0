use bytes::BytesMut;
use h2::error::User;
use h2::client::Peer;
use h2::frame::headers::{HeadersFlag, Iter, StreamDependency};
use h2::frame::{Error, Head, Headers, Kind, Pseudo, PushPromise, StreamId};
use h2::fuzz_bridge;
use h2::header::{FieldName, FieldValue, Method, StatusCode};
use h2::hpack::{Decoded, DecoderError, Encode, EncodeState, Header, ToEncode};
use h2::message::{BodyType, Request, Version};
use h2::uri::{InvalidUriParts, Uri};
use http::HeaderMap;

fn field(name: &[u8], value: &[u8]) -> Decoded {
    Header::Field {
        name: FieldName::from_bytes(name).unwrap(),
        value: FieldValue::from_bytes(value).unwrap(),
    }
}

fn method(name: &str) -> Method {
    Method::from_bytes(name.as_bytes()).unwrap()
}

fn status(code: u16) -> StatusCode {
    StatusCode::from_u16(code).unwrap()
}

fn head(flag: u8) -> Head {
    Head::new(Kind::Headers, flag, StreamId(2))
}

fn request_list() -> Vec<Decoded> {
    vec![
        Header::Method(method("POST")),
        field(b"X-One", b"1"),
        Header::Scheme("https".to_owned()),
        Header::Authority("example.com".to_owned()),
        field(b"x-two", b"2"),
        Header::Path("/a?b".to_owned()),
        field(b"x-one", b"3"),
    ]
}

/// The header as text.
fn show(header: &ToEncode) -> String {
    match header {
        Header::Field { name, value } => format!(
            "{}={}",
            name.as_ref().map_or("", |n| std::str::from_utf8(n).unwrap()),
            std::str::from_utf8(&value.bytes).unwrap()
        ),
        Header::Authority(v) => format!(":authority={}", v),
        Header::Method(v) => format!(":method={}", std::str::from_utf8(v.as_bytes()).unwrap()),
        Header::Scheme(v) => format!(":scheme={}", v),
        Header::Path(v) => format!(":path={}", v),
        Header::Status(v) => format!(":status={}", v.as_u16()),
    }
}

fn drain(headers: &mut Iter) -> Vec<String> {
    let mut all = Vec::new();
    while let Some(header) = headers.next() {
        all.push(show(&header));
    }
    all
}

#[test]
fn flags_are_bits() {
    assert_eq!(HeadersFlag::empty(), HeadersFlag(0));
    assert_eq!(HeadersFlag::load(0xff), HeadersFlag(0x2d));
    assert_eq!(HeadersFlag::load(0xd2), HeadersFlag(0));
    assert_eq!(HeadersFlag::default(), HeadersFlag(0x4));
    assert_eq!(u8::from(HeadersFlag(0x25)), 0x25);
    for (bits, stream, headers, padded, priority) in [
        (0x1u8, true, false, false, false),
        (0x4, false, true, false, false),
        (0x8, false, false, true, false),
        (0x20, false, false, false, true),
    ] {
        let flags = HeadersFlag::load(bits);
        assert_eq!(flags.is_end_stream(), stream);
        assert_eq!(flags.is_end_headers(), headers);
        assert_eq!(flags.is_padded(), padded);
        assert_eq!(flags.is_priority(), priority);
    }
    let mut flags = HeadersFlag(0x24);
    flags.set_end_stream();
    assert_eq!(flags, HeadersFlag(0x25));
    flags.set_end_stream();
    assert_eq!(flags, HeadersFlag(0x25));
}

#[test]
fn load_takes_the_header_list_apart() {
    let headers = Headers::load(head(0x5), Ok(request_list())).unwrap();
    assert_eq!(headers.stream_id(), StreamId(2));
    assert!(headers.is_end_stream());
    assert!(headers.is_end_headers());
    assert!(!headers.is_trailers());
    let fields = headers.into_fields();
    let ones: Vec<_> = fields.get_all("x-one").iter().map(|v| v.as_bytes().to_vec()).collect();
    assert_eq!(ones, vec![b"1".to_vec(), b"3".to_vec()]);
    assert_eq!(fields.get("X-Two").unwrap(), "2");
    assert_eq!(fields.keys_len(), 2);
}

#[test]
fn load_keeps_all_the_flags() {
    // Bits that the frame does not define are kept, too.
    let headers = Headers::load(head(0x42), Ok(vec![])).unwrap();
    let mut dst = BytesMut::new();
    headers.encode(&mut dst);
    assert_eq!(dst[4], 0x42);
}

#[test]
fn repeated_pseudo_headers_are_rejected() {
    let repeated = vec![
        vec![Header::Method(method("GET")), Header::Method(method("GET"))],
        vec![Header::Scheme("http".to_owned()), Header::Scheme("https".to_owned())],
        vec![Header::Authority("a".to_owned()), Header::Authority("b".to_owned())],
        vec![Header::Path("/".to_owned()), field(b"a", b"b"), Header::Path("/".to_owned())],
        vec![Header::Status(status(200)), Header::Status(status(404))],
    ];
    for list in repeated {
        assert_eq!(
            Headers::load(head(0x4), Ok(list)).unwrap_err(),
            Error::Hpack(DecoderError::RepeatedPseudo)
        );
    }
    // Different ones are not, whatever they are.
    let list = vec![Header::Method(method("GET")), Header::Status(status(200))];
    assert!(Headers::load(head(0x4), Ok(list)).is_ok());
}

#[test]
fn decoder_errors_are_passed_on() {
    for err in [DecoderError::InvalidUtf8, DecoderError::IntegerOverflow] {
        assert_eq!(Headers::load(head(0x4), Err(err)).unwrap_err(), Error::Hpack(err));
    }
}

#[test]
fn trailers_have_no_pseudo_headers() {
    let trailers = Headers::load(head(0x5), Ok(vec![field(b"grpc-status", b"0")])).unwrap();
    assert!(trailers.is_trailers());
    for pseudo in [
        Header::Path("/".to_owned()),
        Header::Scheme("http".to_owned()),
        Header::Authority("a".to_owned()),
        Header::Method(method("GET")),
        Header::Status(status(200)),
    ] {
        let headers = Headers::load(head(0x5), Ok(vec![pseudo])).unwrap();
        assert!(!headers.is_trailers());
    }
    let response = Headers::new(StreamId(2), Pseudo::response(status(200)), HeaderMap::new());
    assert!(!response.is_trailers());
}

#[test]
fn new_frames_end_the_headers() {
    let mut headers = Headers::new(StreamId(7), Pseudo::response(status(204)), HeaderMap::new());
    assert!(headers.is_end_headers());
    assert!(!headers.is_end_stream());
    headers.set_end_stream();
    assert!(headers.is_end_stream());
    assert!(headers.is_end_headers());
    assert_eq!(headers.stream_id(), StreamId(7));
}

#[test]
fn headers_become_a_response() {
    let mut headers = Headers::load(
        head(0x4),
        Ok(vec![Header::Status(status(404)), field(b"a", b"b")]),
    )
    .unwrap();
    headers.set_end_stream();
    let response = headers.into_response();
    assert_eq!(response.status.as_u16(), 404);
    assert_eq!(response.version, Version::Http11);
    assert_eq!(response.body, BodyType::Empty);
    assert_eq!(response.headers.get("a").unwrap(), "b");

    let response = Headers::load(head(0x4), Ok(vec![])).unwrap().into_response();
    assert_eq!(response.status.as_u16(), 200);
    assert_eq!(response.body, BodyType::Stream);
}

#[test]
fn headers_become_a_request() {
    let headers = Headers::load(head(0x4), Ok(request_list())).unwrap();
    assert!(headers.has_valid_uri());
    let request = headers.into_request().unwrap();
    assert_eq!(request.method.as_bytes(), b"POST");
    assert_eq!(request.version, Version::Http2);
    assert_eq!(request.uri.scheme.as_deref(), Some("https"));
    assert_eq!(request.uri.authority.as_deref(), Some("example.com"));
    assert_eq!(request.uri.path_and_query.as_deref(), Some("/a?b"));
    assert_eq!(request.headers.get_all("x-one").iter().count(), 2);

    // Without a method it is GET; what follows a `#` is no part of the path.
    let list = vec![Header::Path("/a#b".to_owned())];
    let request = Headers::load(head(0x4), Ok(list)).unwrap().into_request().unwrap();
    assert_eq!(request.method.as_bytes(), b"GET");
    assert_eq!(request.uri.path_and_query.as_deref(), Some("/a"));
    assert_eq!(request.uri.scheme, None);
}

#[test]
fn parts_that_do_not_go_together_are_an_error() {
    let lists = vec![
        vec![Header::Scheme("https".to_owned()), Header::Path("/".to_owned())],
        vec![Header::Scheme("https".to_owned()), Header::Authority("a.com".to_owned())],
        vec![Header::Authority("a.com".to_owned()), Header::Path("/".to_owned())],
    ];
    for list in lists {
        let headers = Headers::load(head(0x4), Ok(list)).unwrap();
        assert!(matches!(headers.into_request(), Err(InvalidUriParts)));
    }
    // An authority alone is one of a CONNECT request, and no part at all is no error either.
    let list = vec![Header::Authority("a.com:443".to_owned())];
    assert!(Headers::load(head(0x4), Ok(list)).unwrap().into_request().is_ok());
    assert!(Headers::load(head(0x4), Ok(vec![])).unwrap().into_request().is_ok());
}

#[test]
fn parts_that_are_not_valid_are_found() {
    let lists = vec![
        vec![Header::Scheme("ht tp".to_owned())],
        vec![Header::Authority("a b".to_owned())],
        vec![Header::Path("/a b".to_owned())],
    ];
    for list in lists {
        let headers = Headers::load(head(0x4), Ok(list)).unwrap();
        assert!(!headers.has_valid_uri());
        assert!(headers.try_into_request().is_none());
    }
    let headers = Headers::load(head(0x4), Ok(request_list())).unwrap();
    assert!(headers.try_into_request().unwrap().is_ok());
}

#[test]
fn schemes_are_made_of_their_characters() {
    for b in 0u8..128 {
        let c = b as char;
        let valid = c.is_ascii_alphanumeric() || "+-.~".contains(c);
        let list = vec![Header::Scheme(c.to_string())];
        let headers = Headers::load(head(0x4), Ok(list)).unwrap();
        assert_eq!(headers.has_valid_uri(), valid, "{:?}", c);
    }
    for (len, valid) in [(0, true), (64, true), (65, false)] {
        let list = vec![Header::Scheme("a".repeat(len))];
        let headers = Headers::load(head(0x4), Ok(list)).unwrap();
        assert_eq!(headers.has_valid_uri(), valid);
    }
}

#[test]
fn as_many_names_as_a_map_holds_are_loaded() {
    let mut list = Vec::new();
    for i in 0..32_768u32 {
        list.push(field(format!("x-{}", i).as_bytes(), b"1"));
    }
    // Another value of a name that is there takes no place.
    list.push(field(b"x-0", b"2"));
    let fields = Headers::load(head(0x4), Ok(list)).unwrap().into_fields();
    assert_eq!(fields.keys_len(), 32_768);
    assert_eq!(fields.len(), 32_769);
    assert_eq!(fields.get_all("x-0").iter().count(), 2);
}

#[test]
fn encode_hands_out_pseudo_headers_first() {
    let headers = Headers::load(head(0x5), Ok(request_list())).unwrap();
    let mut dst = BytesMut::with_capacity(64);
    dst.extend_from_slice(b"before");
    let mut block = headers.encode(&mut dst);
    assert_eq!(block.pos, 6);
    assert_eq!(block.stream_id, StreamId(2));
    assert_eq!(&dst[6..], [0, 0, 0, 1, 5, 0, 0, 0, 2]);
    let all = drain(&mut block.headers);
    assert_eq!(
        &all[..4],
        [":method=POST", ":scheme=https", ":authority=example.com", ":path=/a?b"]
    );
    let mut rest = all[4..].to_vec();
    assert_eq!(rest.len(), 3);
    // The second value of a name comes right behind the first, without the name.
    let first = rest.iter().position(|h| h == "x-one=1").unwrap();
    assert_eq!(rest[first + 1], "=3");
    rest.sort();
    assert_eq!(rest, ["=3", "x-one=1", "x-two=2"]);
    assert!(block.headers.next().is_none());

    // The length is that of what stands behind the head by now.
    dst.extend_from_slice(b"block");
    assert!(block.finish(Encode::Full, &mut dst).is_none());
    assert_eq!(&dst[..], b"before\x00\x00\x05\x01\x05\x00\x00\x00\x02block");
}

#[test]
fn what_does_not_fit_is_continued() {
    let mut pseudo = Pseudo::response(status(200));
    pseudo.set_scheme("http".to_owned());
    pseudo.set_authority("a".to_owned());
    let headers = Headers::new(StreamId(4), pseudo, HeaderMap::new());
    let mut dst = BytesMut::new();
    let mut block = headers.encode(&mut dst);
    let header = block.headers.next().unwrap();
    assert_eq!(show(&header), ":scheme=http");
    let state = EncodeState { header };
    let mut rest = block.finish(Encode::Partial(state), &mut dst).unwrap();
    assert_eq!(rest.stream_id, StreamId(4));
    assert_eq!(show(&rest.hpack.header), ":scheme=http");
    assert_eq!(drain(&mut rest.headers), [":authority=a", ":status=200"]);
    // The flags are those of the frame.
    assert_eq!(&dst[..], [0, 0, 0, 1, 4, 0, 0, 0, 4]);
}

#[test]
fn what_is_encoded_is_loaded() {
    let headers = Headers::load(head(0x5), Ok(request_list())).unwrap();
    let mut dst = BytesMut::new();
    let mut block = headers.encode(&mut dst);
    // Fill in the names that were left out, as a decoder does.
    let mut list = Vec::new();
    let mut last: Vec<u8> = Vec::new();
    while let Some(header) = block.headers.next() {
        list.push(match header {
            Header::Field { name, value } => {
                if let Some(name) = name {
                    last = name;
                }
                Header::Field {
                    name: FieldName::from_bytes(&last).unwrap(),
                    value: FieldValue::from_bytes(&value.bytes)
                        .unwrap()
                        .with_sensitive(value.sensitive),
                }
            }
            Header::Authority(v) => Header::Authority(v),
            Header::Method(v) => Header::Method(v),
            Header::Scheme(v) => Header::Scheme(v),
            Header::Path(v) => Header::Path(v),
            Header::Status(v) => Header::Status(v),
        });
    }
    let (pseudo, fields) = Headers::load(head(0x5), Ok(list)).unwrap().into_parts();
    assert_eq!(pseudo.method.unwrap().as_bytes(), b"POST");
    assert_eq!(pseudo.scheme.as_deref(), Some("https"));
    assert_eq!(pseudo.authority.as_deref(), Some("example.com"));
    assert_eq!(pseudo.path.as_deref(), Some("/a?b"));
    assert!(pseudo.status.is_none());
    assert_eq!(fields.get_all("x-one").iter().count(), 2);
    assert_eq!(fields.get("x-two").unwrap(), "2");
}

fn request(uri: &str, version: Version) -> Request {
    let mut headers = HeaderMap::new();
    headers.insert("a", "b".parse().unwrap());
    Request { method: method("GET"), uri: Uri::parse(uri).unwrap(), version, headers }
}

#[test]
fn request_pseudo_headers() {
    let pseudo = Pseudo::request(method("GET"), Uri::parse("https://http2.akamai.com/").unwrap());
    assert_eq!(pseudo.scheme.as_deref(), Some("https"));
    assert_eq!(pseudo.authority.as_deref(), Some("http2.akamai.com"));
    assert_eq!(pseudo.path.as_deref(), Some("/"));
    assert!(pseudo.status.is_none());
    // Where there is no path, it is the root.
    let pseudo = Pseudo::request(method("CONNECT"), Uri::parse("a.com:443").unwrap());
    assert_eq!(pseudo.path.as_deref(), Some("/"));
    assert_eq!(pseudo.scheme, None);
    let pseudo = Pseudo::default();
    assert!(pseudo.method.is_none() && pseudo.path.is_none());
}

#[test]
fn requests_are_converted() {
    let request = request("https://example.com/x", Version::Http2);
    let headers = Peer::convert_send_message(StreamId(1), request, true).unwrap();
    assert!(headers.is_end_stream() && headers.is_end_headers());
    assert_eq!(headers.stream_id(), StreamId(1));
    let (pseudo, fields) = headers.into_parts();
    assert_eq!(pseudo.scheme.as_deref(), Some("https"));
    assert_eq!(pseudo.path.as_deref(), Some("/x"));
    assert_eq!(fields.get("a").unwrap(), "b");
}

#[test]
fn relative_requests_are_for_http_1() {
    let err = Peer::convert_send_message(StreamId(1), request("/x", Version::Http2), false);
    assert_eq!(err.unwrap_err(), User::MissingUriSchemeAndAuthority);
    for version in [Version::Http09, Version::Http10, Version::Http11] {
        let headers = Peer::convert_send_message(StreamId(1), request("/x", version), false);
        let headers = headers.unwrap();
        assert!(!headers.is_end_stream());
        let (pseudo, _) = headers.into_parts();
        assert_eq!(pseudo.scheme.as_deref(), Some("http"));
        assert_eq!(pseudo.authority, None);
    }
    // With an authority alone the scheme stays away.
    let headers = Peer::convert_send_message(StreamId(1), request("a.com:1", Version::Http2), false);
    let (pseudo, _) = headers.unwrap().into_parts();
    assert_eq!(pseudo.scheme, None);
    assert_eq!(pseudo.authority.as_deref(), Some("a.com:1"));
}

#[test]
fn requests_are_read_back() {
    let sent = request("https://example.com/x?y=z", Version::Http2);
    let headers = Peer::convert_send_message(StreamId(1), sent, false).unwrap();
    let back = headers.into_request().unwrap();
    assert_eq!(back.method.as_bytes(), b"GET");
    assert_eq!(back.uri.scheme.as_deref(), Some("https"));
    assert_eq!(back.uri.authority.as_deref(), Some("example.com"));
    assert_eq!(back.uri.path_and_query.as_deref(), Some("/x?y=z"));
    assert_eq!(back.headers.get("a").unwrap(), "b");
}

#[test]
fn responses_are_converted() {
    let list = vec![Header::Status(status(503)), field(b"a", b"b")];
    let headers = Headers::load(head(0x4), Ok(list)).unwrap();
    let response = Peer::convert_poll_message(headers).unwrap();
    assert_eq!(response.status.as_u16(), 503);
    assert_eq!(response.version, Version::Http2);
    assert_eq!(response.headers.get("a").unwrap(), "b");
    let headers = Headers::load(head(0x4), Ok(vec![])).unwrap();
    assert_eq!(Peer::convert_poll_message(headers).unwrap().status, StatusCode::ok());
}

#[test]
fn uris_are_taken_apart() {
    assert!(Uri::parse("http://a b/").is_none());
    let uri = Uri::parse("http://a.com/b?c#d").unwrap();
    assert_eq!(uri.path_and_query.as_deref(), Some("/b?c"));
    let parts = Uri::from_parts(Some("http".to_owned()), None, None);
    assert!(matches!(parts, Err(InvalidUriParts)));
    assert!(Uri::from_parts(None, None, Some("/".to_owned())).is_ok());
}

#[test]
fn names_and_values_are_checked() {
    assert!(Method::from_bytes(b"").is_none());
    assert!(Method::from_bytes(b"GE T").is_none());
    assert_eq!(Method::from_bytes(b"patch-~").unwrap().as_bytes(), b"patch-~");
    assert_eq!(Method::get().as_bytes(), b"GET");
    assert!(FieldName::from_bytes(b"").is_none());
    assert!(FieldName::from_bytes(b"a b").is_none());
    assert_eq!(FieldName::from_bytes(b"Content-Type").unwrap().as_bytes(), b"content-type");
    assert!(FieldValue::from_bytes(b"a\nb").is_none());
    assert_eq!(FieldValue::from_bytes(b"a\tB \xff").unwrap().as_bytes(), b"a\tB \xff");
    assert!(StatusCode::from_u16(99).is_none());
    assert!(StatusCode::from_u16(600).is_none());
    assert_eq!(StatusCode::from_u16(599).unwrap().as_u16(), 599);
}

#[test]
fn every_byte_is_judged_as_documented() {
    for b in 0u8..=255 {
        let letter = b.is_ascii_alphanumeric();
        let method = letter || b"!*+-.^_`|~".contains(&b);
        assert_eq!(Method::from_bytes(&[b]).is_some(), method, "{}", b);
        let name = method || b"\"#$%&'".contains(&b);
        let made = FieldName::from_bytes(&[b]);
        assert_eq!(made.is_some(), name, "{}", b);
        if let Some(made) = made {
            assert_eq!(made.as_bytes(), [b.to_ascii_lowercase()]);
        }
        let value = b == b'\t' || (b >= 32 && b != 127);
        assert_eq!(FieldValue::from_bytes(&[b]).is_some(), value, "{}", b);
    }
}

#[test]
fn fuzz_input_is_a_method_or_nothing() {
    let headers = fuzz_bridge::fuzz_addr_1(b"GET");
    assert_eq!(headers.len(), 1);
    assert_eq!(show(&headers[0]), ":method=GET");
    assert!(fuzz_bridge::fuzz_addr_1(b"").is_empty());
    assert!(fuzz_bridge::fuzz_addr_1(b"GET /").is_empty());
    assert!(fuzz_bridge::fuzz_addr_1(&[0xff, 0xfe]).is_empty());
    assert!(fuzz_bridge::fuzz_addr_1("\u{e9}".as_bytes()).is_empty());
    assert_eq!(show(&fuzz_bridge::method("PUT")), ":method=PUT");
    assert_eq!(show(&fuzz_bridge::header("X-A", "b")), "x-a=b");
}

#[test]
fn plain_frames_hold_what_they_are_given() {
    let promise = PushPromise {
        stream_id: StreamId(1),
        promised_id: StreamId(2),
        flags: HeadersFlag::default(),
    };
    assert_eq!(promise.promised_id, StreamId(2));
    let dependency = StreamDependency { stream_id: StreamId(3), weight: 255, is_exclusive: true };
    assert_eq!(dependency.weight, 255);
}

#[test]
fn sensitive_values_stay_sensitive() {
    let value = FieldValue::from_bytes(b"secret").unwrap();
    assert!(!value.is_sensitive());
    let value = value.with_sensitive(true);
    assert!(value.is_sensitive());
    let name = FieldName::from_bytes(b"cookie").unwrap();
    let list = vec![Header::Field { name, value }, field(b"a", b"b")];
    let headers = Headers::load(head(0x5), Ok(list)).unwrap();
    let mut block = headers.encode(&mut BytesMut::new());
    let mut seen = 0;
    while let Some(header) = block.headers.next() {
        if let Header::Field { name, value } = header {
            assert_eq!(value.sensitive, name.unwrap() == b"cookie");
            seen += 1;
        }
    }
    assert_eq!(seen, 2);
    let (_, fields) = Headers::load(
        head(0x5),
        Ok(vec![Header::Field {
            name: FieldName::from_bytes(b"cookie").unwrap(),
            value: FieldValue::from_bytes(b"secret").unwrap().with_sensitive(true),
        }]),
    )
    .unwrap()
    .into_parts();
    assert!(fields.get("cookie").unwrap().is_sensitive());
}

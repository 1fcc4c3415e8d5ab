use termshark::ethernet::ipv4::tcp::http::{HttpPacket, ParseHttpError};

#[test]
fn test_parse_http_request() {
    let data = b"GET /index.html HTTP/1.1\r\nHost: example.com\r\nUser-Agent: test\r\n\r\n";
    let packet = HttpPacket::new(data).unwrap();

    match packet {
        HttpPacket::Request(req) => {
            assert_eq!(req.method, "GET");
            assert_eq!(req.path, "/index.html");
            assert_eq!(req.version, "1.1");
            assert_eq!(req.headers.len(), 2);
            assert_eq!(req.headers[0], ("Host", "example.com"));
            assert_eq!(req.headers[1], ("User-Agent", "test"));
            assert_eq!(req.data, b"");
        }
        HttpPacket::Response(_) => panic!("Expected request, got response"),
    }
}

#[test]
fn test_parse_http_response() {
    let data = b"HTTP/1.1 200 OK\r\nContent-Type: text/html\r\nContent-Length: 13\r\n\r\nHello, World!";
    let packet = HttpPacket::new(data).unwrap();

    match packet {
        HttpPacket::Response(resp) => {
            assert_eq!(resp.version, "1.1");
            assert_eq!(resp.status_code, 200);
            assert_eq!(resp.reason_phrase, "OK");
            assert_eq!(resp.headers.len(), 2);
            assert_eq!(resp.headers[0], ("Content-Type", "text/html"));
            assert_eq!(resp.headers[1], ("Content-Length", "13"));
            assert_eq!(resp.data, b"Hello, World!");
        }
        HttpPacket::Request(_) => panic!("Expected response, got request"),
    }
}

#[test]
fn test_parse_http_response_with_multiword_reason() {
    let data = b"HTTP/1.1 404 Not Found\r\nContent-Type: text/html\r\n\r\n";
    let packet = HttpPacket::new(data).unwrap();

    match packet {
        HttpPacket::Response(resp) => {
            assert_eq!(resp.version, "1.1");
            assert_eq!(resp.status_code, 404);
            assert_eq!(resp.reason_phrase, "Not Found");
        }
        HttpPacket::Request(_) => panic!("Expected response, got request"),
    }
}

#[test]
fn test_parse_http_request_with_post_body() {
    let data = b"POST /api/data HTTP/1.1\r\nContent-Type: application/json\r\n\r\n{\"key\":\"value\"}";
    let packet = HttpPacket::new(data).unwrap();

    match packet {
        HttpPacket::Request(req) => {
            assert_eq!(req.method, "POST");
            assert_eq!(req.path, "/api/data");
            assert_eq!(req.data, b"{\"key\":\"value\"}");
        }
        HttpPacket::Response(_) => panic!("Expected request, got response"),
    }
}

#[test]
fn test_parse_http_with_binary_body() {
    // Response with binary data (non-UTF8 in body)
    let mut data = b"HTTP/1.1 200 OK\r\nContent-Type: application/octet-stream\r\n\r\n".to_vec();
    data.extend_from_slice(&[0xFF, 0xFE, 0xFD, 0xFC]);

    let packet = HttpPacket::new(&data).unwrap();

    match packet {
        HttpPacket::Response(resp) => {
            assert_eq!(resp.status_code, 200);
            assert_eq!(resp.data, &[0xFF, 0xFE, 0xFD, 0xFC]);
        }
        HttpPacket::Request(_) => panic!("Expected response, got request"),
    }
}

#[test]
fn test_parse_http_response_with_lots_of_spaces() {
    let data = b"HTTP/1.1    200    OK\r\nContent-Type: text/html\r\n\r\nHello!";
    let packet = HttpPacket::new(data).unwrap();

    match packet {
        HttpPacket::Response(resp) => {
            assert_eq!(resp.version, "1.1");
            assert_eq!(resp.status_code, 200);
            assert_eq!(resp.reason_phrase, "OK");
            assert_eq!(resp.data, b"Hello!");
        }
        HttpPacket::Request(_) => panic!("Expected response, got request"),
    }
}

#[test]
fn test_parse_invalid_http() {
    // Invalid request line
    let data = b"INVALID REQUEST LINE\r\nHost: example.com\r\n\r\n";
    assert_eq!(HttpPacket::new(data).unwrap_err(), ParseHttpError::InvalidRequestLine);

    // Invalid UTF-8 in the header
    let data = b"GET /index.html?\xFF HTTP/1.1\r\nHost: example.com\r\n\r\n";
    assert_eq!(HttpPacket::new(data).unwrap_err(), ParseHttpError::InvalidUtf8);
}

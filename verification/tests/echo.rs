use chatroom::echo::{echo_reply, echo_text, header_chunk, status_line, HeaderLine, RawHeader};

#[test]
fn status_line_is_one_line() {
    assert_eq!(
        b"GET /api/echo?x=1 HTTP/1.1\r\n".to_vec(),
        status_line("GET", "/api/echo?x=1", "HTTP/1.1")
    );
    assert_eq!(b"  \r\n".to_vec(), status_line("", "", ""));
}

#[test]
fn status_line_keeps_bytes_beyond_ascii() {
    assert_eq!(
        "GET /caf\u{e9} HTTP/2.0\r\n".as_bytes().to_vec(),
        status_line("GET", "/caf\u{e9}", "HTTP/2.0")
    );
}

#[test]
fn header_chunk_is_one_line() {
    assert_eq!(
        b"\"content-type\" \"text/plain\"\r\n".to_vec(),
        header_chunk("\"content-type\"", "\"text/plain\"")
    );
    assert_eq!(b" \r\n".to_vec(), header_chunk("", ""));
}

#[test]
fn echo_text_lists_the_request() {
    let headers = vec![
        HeaderLine {
            name: "host".into(),
            value: "localhost".into(),
        },
        HeaderLine {
            name: "".into(),
            value: "again".into(),
        },
    ];

    assert_eq!(
        "POST /api/echo\nhost: localhost\n: again\n\nHello, echo!",
        echo_text("POST /api/echo", &headers, "Hello, echo!")
    );
}

#[test]
fn echo_text_of_a_bare_request() {
    assert_eq!("GET /\n\n", echo_text("GET /", &Vec::new(), ""));
}

#[test]
fn echo_reply_decodes_what_it_can() {
    let headers = vec![
        RawHeader {
            name: "host".into(),
            value: b"localhost".to_vec(),
        },
        RawHeader {
            name: "x-raw".into(),
            value: vec![b'a', 0xff, b'b'],
        },
    ];

    assert_eq!(
        "PUT /api/echo\nhost: localhost\nx-raw: a\u{fffd}b\n\ncaf\u{e9} \u{fffd}",
        echo_reply(
            "PUT /api/echo",
            &headers,
            &[b'c', b'a', b'f', 0xc3, 0xa9, b' ', 0xc3]
        )
    );
}

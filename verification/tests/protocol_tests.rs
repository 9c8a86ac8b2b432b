use lib::gpu::{FrameBuffer, Mailbox};
use lib::http::{get_request, post_request, HttpClient};
use lib::json::{JsonParser, JsonValue};
use lib::mmio::{Block, Reg, RegOp};
use lib::net::TcpStream;

fn mb(offset: usize) -> Reg {
    Reg { block: Block::Mailbox, offset }
}

#[test]
fn mailbox_exchange_words() {
    assert_eq!(Mailbox::request_word(0x1000, 8), 0x1008);
    assert!(Mailbox::is_reply(0x1008, 8, 0x1000));
    assert!(!Mailbox::is_reply(0x1009, 8, 0x1000));
    assert!(!Mailbox::is_reply(0x2008, 8, 0x1000));
    assert_eq!(
        Mailbox::send(0x1000, 8),
        vec![RegOp::WaitClear { reg: mb(0x18), mask: 0x8000_0000 }, RegOp::Write { reg: mb(0x20), value: 0x1008 }]
    );
    assert_eq!(
        Mailbox::receive(),
        vec![RegOp::WaitClear { reg: mb(0x18), mask: 0x4000_0000 }, RegOp::Read { reg: mb(0x00) }]
    );
}

#[test]
fn firmware_revision_request_and_answer() {
    let mut m = Mailbox::new();
    m.firmware_rev_request();
    assert_eq!(m.size(), 20);
    assert_eq!(m.code(), 0);
    assert_eq!(&m.data()[..5], &[1, 4, 0, 0, 0]);
    assert_eq!(m.firmware_rev(), None);
    let mut answer = [0u32; 256];
    answer[3] = 0x5F00_1234;
    m.load_response(0x8000_0000, &answer);
    assert!(m.call_succeeded());
    assert_eq!(m.firmware_rev(), Some(0x5F00_1234));
    m.load_response(0x8000_0001, &answer);
    assert_eq!(m.firmware_rev(), None);
}

#[test]
fn framebuffer_request_layout() {
    let mut m = Mailbox::new();
    m.alloc_fb_request(640, 480, 32);
    assert_eq!(m.size(), 104);
    assert_eq!(
        &m.data()[..26],
        &[
            0x48003, 8, 8, 640, 480, 0x48004, 8, 8, 640, 480, 0x48005, 8, 8, 32, 0, 0x40001, 8, 8, 4096, 0,
            0x40008, 8, 8, 0, 0, 0,
        ]
    );
}

#[test]
fn framebuffer_answer_parsing() {
    let mut m = Mailbox::new();
    let mut answer = [0u32; 256];
    let tags = [0x40001u32, 8, 0x8000_0008, 0x3C10_0000, 1_228_800, 0x40008, 4, 0x8000_0004, 2560, 0];
    answer[..tags.len()].copy_from_slice(&tags);
    m.load_response(0x8000_0000, &answer);
    assert!(m.fb_response_fits());
    assert_eq!(
        m.alloc_fb(640, 480, 32),
        Some(FrameBuffer { addr: 0x3C10_0000, size: 1_228_800, pitch: 2560, w: 640, h: 480, depth: 32 })
    );
    m.load_response(0x8000_0001, &answer);
    assert_eq!(m.alloc_fb(640, 480, 32), None);
}

#[test]
fn framebuffer_answer_without_terminator_does_not_fit() {
    let mut m = Mailbox::new();
    let answer = [0x40008u32; 256];
    m.load_response(0x8000_0000, &answer);
    assert!(!m.fb_response_fits());
    let mut answer = [0u32; 256];
    answer[0] = 0x40005;
    answer[1] = 4 * 251;
    answer[254] = 0x40001;
    answer[255] = 8;
    m.load_response(0x8000_0000, &answer);
    assert!(!m.fb_response_fits());
}

#[test]
fn tcp_stream_placeholder() {
    let mut s = TcpStream::connect("example.com", 80).expect("connect");
    assert_eq!(s.host(), "example.com");
    assert_eq!(s.write(&[1, 2, 3]), Ok(3));
    let mut buf = [9u8; 4];
    assert_eq!(s.read(&mut buf), Ok(0));
    assert_eq!(buf, [9u8; 4]);
}

#[test]
fn http_request_bytes() {
    assert_eq!(get_request("/index.html", "pi.local"), b"GET /index.html HTTP/1.1\r\nHost: pi.local\r\n\r\n".to_vec());
    assert_eq!(
        post_request("/api", "pi.local", "{\"t\":21}"),
        b"POST /api HTTP/1.1\r\nHost: pi.local\r\nContent-Type: application/json\r\nContent-Length: 8\r\n\r\n{\"t\":21}"
            .to_vec()
    );
    let long = "x".repeat(1234);
    let req = String::from_utf8(post_request("/", "h", &long)).unwrap();
    assert!(req.contains("Content-Length: 1234\r\n\r\n"));
    assert!(String::from_utf8(post_request("/", "h", "")).unwrap().ends_with("Content-Length: 0\r\n\r\n"));
}

#[test]
fn http_client_placeholder_responses() {
    let mut c = HttpClient::new("pi.local", 80).expect("client");
    assert_eq!(c.get("/"), Ok(vec![]));
    assert_eq!(c.post_json("/api", "{}"), Ok(vec![]));
}

#[test]
fn json_null_and_whitespace() {
    let mut p = JsonParser::new("null");
    assert!(matches!(p.parse(), Ok(JsonValue::Null)));
    assert_eq!(p.pos(), 4);
    let mut p = JsonParser::new(" \t\r\n null ");
    assert!(matches!(p.parse(), Ok(JsonValue::Null)));
    assert_eq!(p.pos(), 9);
}

#[test]
fn json_errors() {
    let mut p = JsonParser::new("nul");
    assert!(matches!(p.parse(), Err("Invalid null")));
    assert_eq!(p.pos(), 3);
    let mut p = JsonParser::new("nope");
    assert!(matches!(p.parse(), Err("Invalid null")));
    assert_eq!(p.pos(), 1);
    for doc in ["true", "false", "\"s\"", "12", "-1", "[]", "{}"] {
        assert!(matches!(JsonParser::new(doc).parse(), Err("Unsupported value")));
    }
    for doc in ["", "   ", "x", "}"] {
        assert!(matches!(JsonParser::new(doc).parse(), Err("Unexpected token")));
    }
}

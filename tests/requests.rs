use mcli::request::{
    exec_body, new_body, new_body_from_encoded, Method, Reply, Request, DEFAULT_BASE,
};
use mcli::Commands;

fn s(x: &str) -> String {
    x.to_string()
}

#[test]
fn exec_body_quotes_each_argument() {
    assert_eq!(exec_body(&vec![s("echo"), s("hi")]), "{\"args\":[ \"echo\",\"hi\"]}");
    assert_eq!(exec_body(&vec![s("stop")]), "{\"args\":[ \"stop\"]}");
    assert_eq!(exec_body(&vec![]), "{\"args\":[]}");
}

#[test]
fn start_and_stop_requests() {
    let start = Commands::Start { name: s("mc"), id: s("1") };
    assert_eq!(
        start.request(DEFAULT_BASE),
        Some(Request {
            method: Method::Put,
            url: s("http://localhost:7955/mc/1"),
            body: None,
            notice: Some(s("Starting mc 1")),
            reply: Reply::Response,
        })
    );
    let stop = Commands::Stop { name: s("mc"), id: s("2") };
    assert_eq!(
        stop.request("http://h:1"),
        Some(Request {
            method: Method::Put,
            url: s("http://h:1/mc/2"),
            body: None,
            notice: Some(s("Stopping mc 2")),
            reply: Reply::Response,
        })
    );
}

#[test]
fn exec_request() {
    let c = Commands::Exec { name: s("mc"), id: s("1"), cmd: vec![s("echo"), s("hi")] };
    assert_eq!(
        c.request(DEFAULT_BASE),
        Some(Request {
            method: Method::Post,
            url: s("http://localhost:7955/mc/1"),
            body: Some(s("{\"args\":[ \"echo\",\"hi\"]}")),
            notice: Some(s("exec {\"args\":[ \"echo\",\"hi\"]}")),
            reply: Reply::Response,
        })
    );
}

#[test]
fn get_requests() {
    let r = Commands::Status { name: s("mc"), id: s("3") }.request(DEFAULT_BASE).unwrap();
    assert_eq!(r.method, Method::Get);
    assert_eq!(r.url, "http://localhost:7955/mc/3");
    assert_eq!(r.reply, Reply::Status { id: s("3") });
    assert_eq!(r.body, None);
    let r = Commands::List { name: s("mc") }.request(DEFAULT_BASE).unwrap();
    assert_eq!(r.method, Method::Get);
    assert_eq!(r.url, "http://localhost:7955/mc");
    assert_eq!(r.reply, Reply::List);
    let r = Commands::Output { name: s("mc"), id: s("1") }.request(DEFAULT_BASE).unwrap();
    assert_eq!(r.url, "http://localhost:7955/mc/1");
    assert_eq!(r.reply, Reply::RawStream);
    assert_eq!(r.notice, None);
    let r = Commands::CleanOutput { name: s("mc"), id: s("1") }.request(DEFAULT_BASE).unwrap();
    assert_eq!(r.method, Method::Get);
    assert_eq!(r.reply, Reply::TextStream);
}

#[test]
fn new_request() {
    let c = Commands::New {
        name: s("mc"),
        id: s("1"),
        path: Some(s("/srv/mc")),
        port: Some(25565),
        version: None,
        server_type: Some(s("paper")),
    };
    assert_eq!(
        c.request(DEFAULT_BASE),
        Some(Request {
            method: Method::Post,
            url: s("http://localhost:7955/mc"),
            body: Some(s(
                "{\"name\":\"mc\",\"id\":\"1\",\"path\":\"/srv/mc\",\"port\":25565,\"version\":null,\"server_type\":\"paper\"}"
            )),
            notice: Some(s("Sending...")),
            reply: Reply::BodyText,
        })
    );
}

#[test]
fn new_body_escapes_strings() {
    assert_eq!(
        new_body(&s("a\"b"), &s("x\\y\n"), &None, None, &Some(s("1.20")), &None),
        Some(s(
            "{\"name\":\"a\\\"b\",\"id\":\"x\\\\y\\n\",\"path\":null,\"port\":null,\"version\":\"1.20\",\"server_type\":null}"
        ))
    );
}

#[test]
fn new_body_frame_takes_encoded_fields() {
    assert_eq!(
        new_body_from_encoded(&s("\"n\""), &s("\"i\""), &None, Some(0), &None, &Some(s("\"t\""))),
        "{\"name\":\"n\",\"id\":\"i\",\"path\":null,\"port\":0,\"version\":null,\"server_type\":\"t\"}"
    );
}

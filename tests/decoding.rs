use seneca::mime::{decode_message, decode_parsed, email_from, first_header, select_body, DecodeError, MimeHeader, MimeMessage, MimePart};
use seneca::text::{contains_text, same_ignoring_case};

const JAN_1_2024: i64 = 1704067200;

fn header(key: &str, value: &str) -> MimeHeader {
    MimeHeader { key: key.to_string(), value: value.to_string() }
}

fn part(mimetype: &str, body: Option<&str>) -> MimePart {
    MimePart { mimetype: mimetype.to_string(), body: body.map(|b| b.to_string()) }
}

#[test]
fn single_part_message_keeps_headers_and_body() {
    let raw = "Subject: S\nFrom: F\nTo: T\nDate: Mon, 1 Jan 2024 00:00:00 +0000\n\nthe body";
    let email = decode_message(raw).unwrap();
    assert_eq!(email.subject, "S");
    assert_eq!(email.from, "F");
    assert_eq!(email.to, "T");
    assert_eq!(email.body, "the body");
    assert_eq!(email.date, JAN_1_2024);
    assert_eq!(email.cc, vec![String::new()]);
}

#[test]
fn cc_is_kept_whole_as_one_entry() {
    let raw = "Date: Mon, 1 Jan 2024 00:00:00 +0000\nCc: a@x.org, b@y.org\n\nhi";
    let email = decode_message(raw).unwrap();
    assert_eq!(email.cc, vec!["a@x.org, b@y.org".to_string()]);
    assert_eq!(email.subject, "");
}

#[test]
fn multipart_takes_plain_subpart() {
    let raw = "Date: Mon, 1 Jan 2024 00:00:00 +0000\nSubject: parts\nContent-Type: multipart/mixed; boundary=XYZ\n\n--XYZ\nContent-Type: text/plain\n\nhello\n--XYZ\nContent-Type: application/octet-stream\n\nAAAA\n--XYZ--\n";
    let email = decode_message(raw).unwrap();
    assert_eq!(email.body, "hello");
    assert_eq!(email.subject, "parts");
}

#[test]
fn multipart_without_plain_shows_placeholder() {
    let raw = "Date: Mon, 1 Jan 2024 00:00:00 +0000\nContent-Type: multipart/mixed; boundary=XYZ\n\n--XYZ\nContent-Type: text/html\n\n<p>hello</p>\n--XYZ\nContent-Type: application/octet-stream\n\nAAAA\n--XYZ--\n";
    let email = decode_message(raw).unwrap();
    assert_eq!(email.body, "Multipart!");
}

#[test]
fn missing_date_is_an_error() {
    let raw = "Subject: S\n\nbody";
    assert_eq!(decode_message(raw).err().map(|f| f.kind), Some(DecodeError::MissingDate));
}

#[test]
fn empty_file_lacks_a_date() {
    assert_eq!(decode_message("").err().map(|f| f.kind), Some(DecodeError::MissingDate));
}

#[test]
fn unreadable_date_is_an_error() {
    let raw = "Subject: S\nDate: Mon, 1 Foo 2024 00:00:00 +0000\n\nbody";
    assert_eq!(decode_message(raw).err().map(|f| f.kind), Some(DecodeError::BadDate));
}

#[test]
fn unparsable_message_is_malformed() {
    let raw = " Subject: starts with a space\n\nbody";
    assert_eq!(decode_message(raw).err().map(|f| f.kind), Some(DecodeError::Malformed));
}

#[test]
fn date_header_is_read_as_unix_time() {
    let raw = "Date: Sun, 02 Oct 2016 07:06:22 -0700 (PDT)\n\nx";
    assert_eq!(decode_message(raw).unwrap().date, 1475417182);
}

#[test]
fn encoded_header_words_are_decoded() {
    let raw = "Date: Mon, 1 Jan 2024 00:00:00 +0000\nSubject: =?iso-8859-1?Q?=A1Hola,_se=F1or!?=\n\nx";
    assert_eq!(decode_message(raw).unwrap().subject, "\u{a1}Hola, se\u{f1}or!");
}

#[test]
fn parsed_headers_match_without_case_and_first_wins() {
    let m = MimeMessage {
        mimetype: "text/plain".to_string(),
        headers: vec![
            header("date", "Mon, 1 Jan 2024 00:00:00 +0000"),
            header("SUBJECT", "first"),
            header("Subject", "second"),
        ],
        body: Some("b".to_string()),
        subparts: vec![],
    };
    let email = decode_parsed(&m).unwrap();
    assert_eq!(email.subject, "first");
    assert_eq!(email.body, "b");
    assert_eq!(email.date, JAN_1_2024);
}

#[test]
fn parsed_first_plain_subpart_wins() {
    let m = MimeMessage {
        mimetype: "multipart/alternative".to_string(),
        headers: vec![],
        body: None,
        subparts: vec![
            part("text/html", Some("<b>x</b>")),
            part("text/plain", Some("one")),
            part("text/plain", Some("two")),
        ],
    };
    assert_eq!(select_body(&m), "one");
}

#[test]
fn parsed_undecodable_body_reads_empty() {
    let m = MimeMessage {
        mimetype: "text/plain".to_string(),
        headers: vec![],
        body: None,
        subparts: vec![],
    };
    assert_eq!(select_body(&m), "");
    let mp = MimeMessage {
        mimetype: "multipart/mixed".to_string(),
        headers: vec![],
        body: Some("preamble".to_string()),
        subparts: vec![part("text/plain", None)],
    };
    assert_eq!(select_body(&mp), "");
}

#[test]
fn parsed_message_without_date_fails() {
    let m = MimeMessage {
        mimetype: "text/plain".to_string(),
        headers: vec![header("Subject", "s")],
        body: Some("b".to_string()),
        subparts: vec![],
    };
    assert_eq!(decode_parsed(&m).err().map(|f| f.kind), Some(DecodeError::MissingDate));
}

#[test]
fn first_header_lookup() {
    let hs = vec![header("To", "a"), header("to", "b"), header("From", "c")];
    assert_eq!(first_header(&hs, "TO"), Some("a".to_string()));
    assert_eq!(first_header(&hs, "from"), Some("c".to_string()));
    assert_eq!(first_header(&hs, "Cc"), None);
}

#[test]
fn text_helpers() {
    assert!(contains_text("multipart/mixed", "multipart"));
    assert!(contains_text("text/plain", "plain"));
    assert!(!contains_text("text/html", "plain"));
    assert!(contains_text("abc", ""));
    assert!(!contains_text("", "a"));
    assert!(same_ignoring_case("Content-Type", "content-TYPE"));
    assert!(!same_ignoring_case("Date", "Dates"));
    assert!(!same_ignoring_case("[", "{"));
}

#[test]
fn message_without_date_keeps_its_metadata() {
    let raw = "Subject: S\nFrom: F\nTo: T\nCc: C\n\nbody";
    let f = decode_message(raw).unwrap_err();
    assert_eq!(f.kind, DecodeError::MissingDate);
    assert_eq!(f.subject, "S");
    assert_eq!(f.from, "F");
    assert_eq!(f.to, "T");
    assert_eq!(f.cc, vec!["C".to_string()]);
    assert_eq!(f.body, "could not load body");
}

#[test]
fn unreadable_date_keeps_its_metadata() {
    let raw = "Subject: S\nDate: Mon, 1 Foo 2024 00:00:00 +0000\n\nbody";
    let f = decode_message(raw).unwrap_err();
    assert_eq!(f.kind, DecodeError::BadDate);
    assert_eq!(f.subject, "S");
    assert_eq!(f.from, "");
    assert_eq!(f.body, "could not load body");
}

#[test]
fn malformed_message_has_no_metadata() {
    let f = decode_message(" Subject: x\n\nbody").unwrap_err();
    assert_eq!(f.kind, DecodeError::Malformed);
    assert_eq!(f.subject, "");
    assert_eq!(f.cc, vec![String::new()]);
    assert_eq!(f.body, "could not load body");
}

#[test]
fn email_from_given_date() {
    let m = MimeMessage {
        mimetype: "text/plain".to_string(),
        headers: vec![header("Date", "whatever"), header("Subject", "s"), header("From", "f")],
        body: Some("b".to_string()),
        subparts: vec![],
    };
    let e = email_from(&m, Some(42)).unwrap();
    assert_eq!(e.date, 42);
    assert_eq!(e.subject, "s");
    assert_eq!(e.from, "f");
    assert_eq!(e.body, "b");
    let f = email_from(&m, None).unwrap_err();
    assert_eq!(f.kind, DecodeError::BadDate);
    assert_eq!(f.subject, "s");
    let undated = MimeMessage { headers: vec![header("Subject", "s")], ..m };
    let g = email_from(&undated, Some(42)).unwrap_err();
    assert_eq!(g.kind, DecodeError::MissingDate);
    assert_eq!(g.subject, "s");
}

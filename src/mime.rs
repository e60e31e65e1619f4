//! Decoding of one message file into an [`Email`].
//!
//! The MIME structure is parsed by the `mailparse` crate; what the decoder
//! reads of it is held as plain values in a [`MimeMessage`]. Which header,
//! which subpart and which placeholder end up in the email is decided here.

use vstd::prelude::*;

use crate::text::{contains_text, has_infix, same_ignoring_ascii_case, same_ignoring_case};

verus! {

/// One header line: its name and its decoded value.
pub struct MimeHeader {
    pub key: String,
    pub value: String,
}

/// An immediate subpart of a multipart message: its lower-case mime type and
/// its transfer-decoded body, if that could be decoded.
pub struct MimePart {
    pub mimetype: String,
    pub body: Option<String>,
}

/// What the decoder reads of a parsed message.
pub struct MimeMessage {
    pub mimetype: String,
    pub headers: Vec<MimeHeader>,
    pub body: Option<String>,
    pub subparts: Vec<MimePart>,
}

/// The mathematical form of a [`MimeMessage`].
pub struct MimeView {
    pub mimetype: Seq<char>,
    pub headers: Seq<(Seq<char>, Seq<char>)>,
    pub body: Option<Seq<char>>,
    pub subparts: Seq<(Seq<char>, Option<Seq<char>>)>,
}

pub open spec fn opt_text_view(o: Option<String>) -> Option<Seq<char>> {
    match o {
        Some(s) => Some(s@),
        None => None,
    }
}

impl View for MimeHeader {
    type V = (Seq<char>, Seq<char>);

    open spec fn view(&self) -> (Seq<char>, Seq<char>) {
        (self.key@, self.value@)
    }
}

impl View for MimePart {
    type V = (Seq<char>, Option<Seq<char>>);

    open spec fn view(&self) -> (Seq<char>, Option<Seq<char>>) {
        (self.mimetype@, opt_text_view(self.body))
    }
}

impl View for MimeMessage {
    type V = MimeView;

    open spec fn view(&self) -> MimeView {
        MimeView {
            mimetype: self.mimetype@,
            headers: self.headers@.map_values(|h: MimeHeader| h@),
            body: opt_text_view(self.body),
            subparts: self.subparts@.map_values(|p: MimePart| p@),
        }
    }
}

pub open spec fn opt_mime_view(o: Option<MimeMessage>) -> Option<MimeView> {
    match o {
        Some(m) => Some(m@),
        None => None,
    }
}

/// The structure that `mailparse` finds in the text of a message, or `None`
/// where it cannot parse it.
pub uninterp spec fn mime_of(raw: Seq<char>) -> Option<MimeView>;

/// Relies on `mailparse::parse_mail` for the MIME tree, on
/// `MailHeader::get_key` and `MailHeader::get_value` for each header's name
/// and decoded value, on `ParsedContentType::mimetype` for each part's type,
/// and on `ParsedMail::get_body` for each part's transfer-decoded body. All of
/// it depends on the text alone.
#[verifier::external_body]
fn parse_mime(raw: &str) -> (r: Option<MimeMessage>)
    ensures
        opt_mime_view(r) == mime_of(raw@),
{
    let p = mailparse::parse_mail(raw.as_bytes()).ok()?;
    let headers = p.headers.iter().map(|h| MimeHeader { key: h.get_key(), value: h.get_value() });
    let parts = p.subparts.iter().map(|s| MimePart { mimetype: s.ctype.mimetype.clone(), body: s.get_body().ok() });
    Some(MimeMessage { mimetype: p.ctype.mimetype.clone(), headers: headers.collect(), body: p.get_body().ok(), subparts: parts.collect() })
}

/// The UNIX time that `mailparse` reads from the text of a `Date` header, or
/// `None` where it cannot read one.
pub uninterp spec fn date_of(text: Seq<char>) -> Option<i64>;

/// Relies on `mailparse::dateparse`: seconds since the UNIX epoch of an
/// RFC 5322 date, or an error; the result depends on the text alone.
#[verifier::external_body]
fn parse_date(text: &str) -> (r: Option<i64>)
    ensures
        r == date_of(text@),
{
    mailparse::dateparse(text).ok()
}

/// Why a message could not be decoded into an [`Email`].
#[derive(Clone, Copy, Debug, PartialEq, Eq, Structural)]
pub enum DecodeError {
    /// The text is not a message that can be parsed.
    Malformed,
    /// The message has no `Date` header.
    MissingDate,
    /// The `Date` header cannot be read as a date.
    BadDate,
}

/// One decoded message.
#[derive(Debug)]
pub struct Email {
    pub body: String,
    pub subject: String,
    /// Seconds since the UNIX epoch.
    pub date: i64,
    pub to: String,
    /// The raw `Cc` header value, unsplit, as the one element.
    pub cc: Vec<String>,
    pub from: String,
}

/// The mathematical form of an [`Email`].
pub struct EmailView {
    pub body: Seq<char>,
    pub subject: Seq<char>,
    pub date: i64,
    pub to: Seq<char>,
    pub cc: Seq<Seq<char>>,
    pub from: Seq<char>,
}

impl View for Email {
    type V = EmailView;

    open spec fn view(&self) -> EmailView {
        EmailView {
            body: self.body@,
            subject: self.subject@,
            date: self.date,
            to: self.to@,
            cc: self.cc@.map_values(|s: String| s@),
            from: self.from@,
        }
    }
}

/// A message that could not be decoded: why, the metadata that could still
/// be read from it, and a placeholder to show in place of its body.
#[derive(Debug)]
pub struct DecodeFailure {
    pub kind: DecodeError,
    pub body: String,
    pub subject: String,
    pub to: String,
    pub cc: Vec<String>,
    pub from: String,
}

/// The mathematical form of a [`DecodeFailure`].
pub struct FailureView {
    pub kind: DecodeError,
    pub body: Seq<char>,
    pub subject: Seq<char>,
    pub to: Seq<char>,
    pub cc: Seq<Seq<char>>,
    pub from: Seq<char>,
}

impl View for DecodeFailure {
    type V = FailureView;

    open spec fn view(&self) -> FailureView {
        FailureView {
            kind: self.kind,
            body: self.body@,
            subject: self.subject@,
            to: self.to@,
            cc: self.cc@.map_values(|s: String| s@),
            from: self.from@,
        }
    }
}

pub open spec fn email_result_view(r: Result<Email, DecodeFailure>) -> Result<EmailView, FailureView> {
    match r {
        Ok(e) => Ok(e@),
        Err(f) => Err(f@),
    }
}

/// The views of a sequence of decode outcomes.
pub open spec fn email_results_view(rs: Seq<Result<Email, DecodeFailure>>) -> Seq<Result<EmailView, FailureView>> {
    rs.map_values(|r: Result<Email, DecodeFailure>| email_result_view(r))
}

/// The value of the first header named `key`, names compared without regard
/// to ASCII case.
pub open spec fn first_value(hs: Seq<(Seq<char>, Seq<char>)>, key: Seq<char>) -> Option<Seq<char>>
    decreases hs.len(),
{
    if hs.len() == 0 {
        None
    } else if same_ignoring_ascii_case(hs[0].0, key) {
        Some(hs[0].1)
    } else {
        first_value(hs.drop_first(), key)
    }
}

pub open spec fn text_or_empty(o: Option<Seq<char>>) -> Seq<char> {
    match o {
        Some(t) => t,
        None => Seq::empty(),
    }
}

/// The body of the first subpart whose type mentions `plain`, if one does.
pub open spec fn first_plain(parts: Seq<(Seq<char>, Option<Seq<char>>)>) -> Option<Option<Seq<char>>>
    decreases parts.len(),
{
    if parts.len() == 0 {
        None
    } else if has_infix(parts[0].0, "plain"@) {
        Some(parts[0].1)
    } else {
        first_plain(parts.drop_first())
    }
}

/// The text shown for a message: the first plain-text subpart of a multipart
/// message, or a placeholder where it has none; the body itself otherwise.
/// A body that cannot be decoded reads as empty.
pub open spec fn body_text(m: MimeView) -> Seq<char> {
    if has_infix(m.mimetype, "multipart"@) {
        match first_plain(m.subparts) {
            Some(b) => text_or_empty(b),
            None => "Multipart!"@,
        }
    } else {
        text_or_empty(m.body)
    }
}

/// The value of the first header named `key`, or empty.
pub open spec fn header_text(m: MimeView, key: Seq<char>) -> Seq<char> {
    text_or_empty(first_value(m.headers, key))
}

/// A failure of kind `kind` that keeps the metadata of `m`.
pub open spec fn failure_of(m: MimeView, kind: DecodeError) -> FailureView {
    FailureView {
        kind,
        body: "could not load body"@,
        subject: header_text(m, "Subject"@),
        to: header_text(m, "To"@),
        cc: seq![header_text(m, "Cc"@)],
        from: header_text(m, "From"@),
    }
}

/// The outcome for a parsed message whose `Date` header, if it has one,
/// reads as `date`.
pub open spec fn email_with_date(m: MimeView, date: Option<i64>) -> Result<EmailView, FailureView> {
    match first_value(m.headers, "Date"@) {
        None => Err(failure_of(m, DecodeError::MissingDate)),
        Some(_) => match date {
            None => Err(failure_of(m, DecodeError::BadDate)),
            Some(t) => Ok(
                EmailView {
                    body: body_text(m),
                    subject: header_text(m, "Subject"@),
                    date: t,
                    to: header_text(m, "To"@),
                    cc: seq![header_text(m, "Cc"@)],
                    from: header_text(m, "From"@),
                },
            ),
        },
    }
}

/// The time that the `Date` header of `m` reads as, if it has one that reads.
pub open spec fn date_in(m: MimeView) -> Option<i64> {
    match first_value(m.headers, "Date"@) {
        None => None,
        Some(d) => date_of(d),
    }
}

/// The outcome that a parsed message decodes to.
pub open spec fn decoded(m: MimeView) -> Result<EmailView, FailureView> {
    email_with_date(m, date_in(m))
}

/// The failure for a text that cannot be parsed: nothing of it can be read.
pub open spec fn unparsed_failure() -> FailureView {
    FailureView {
        kind: DecodeError::Malformed,
        body: "could not load body"@,
        subject: Seq::empty(),
        to: Seq::empty(),
        cc: seq![Seq::empty()],
        from: Seq::empty(),
    }
}

/// The outcome that the text of a message file decodes to.
pub open spec fn decoded_text(raw: Seq<char>) -> Result<EmailView, FailureView> {
    match mime_of(raw) {
        None => Err(unparsed_failure()),
        Some(m) => decoded(m),
    }
}

/// The value of the first header named `key` (ASCII case ignored), if any.
pub fn first_header(headers: &Vec<MimeHeader>, key: &str) -> (r: Option<String>)
    ensures
        opt_text_view(r) == first_value(headers@.map_values(|h: MimeHeader| h@), key@),
{
    let ghost hv = headers@.map_values(|h: MimeHeader| h@);
    let mut i: usize = 0;
    assert(hv.skip(0) =~= hv);
    while i < headers.len()
        invariant
            i <= headers.len(),
            hv == headers@.map_values(|h: MimeHeader| h@),
            first_value(hv, key@) == first_value(hv.skip(i as int), key@),
        decreases headers.len() - i,
    {
        assert(hv.skip(i as int)[0] == hv[i as int]);
        assert(hv[i as int] == headers@[i as int]@);
        assert(hv.skip(i as int).drop_first() =~= hv.skip(i + 1));
        if same_ignoring_case(headers[i].key.as_str(), key) {
            return Some(headers[i].value.clone());
        }
        i += 1;
    }
    assert(hv.skip(i as int).len() == 0);
    None
}

fn header_or_empty(headers: &Vec<MimeHeader>, key: &str) -> (r: String)
    ensures
        r@ == text_or_empty(first_value(headers@.map_values(|h: MimeHeader| h@), key@)),
{
    match first_header(headers, key) {
        Some(v) => v,
        None => String::new(),
    }
}

fn text_or_default(o: &Option<String>) -> (r: String)
    ensures
        r@ == text_or_empty(opt_text_view(*o)),
{
    match o {
        Some(t) => t.clone(),
        None => String::new(),
    }
}

/// The text shown for a parsed message (see [`body_text`]).
pub fn select_body(m: &MimeMessage) -> (r: String)
    ensures
        r@ == body_text(m@),
{
    if contains_text(m.mimetype.as_str(), "multipart") {
        let ghost pv = m.subparts@.map_values(|p: MimePart| p@);
        let mut i: usize = 0;
        assert(pv.skip(0) =~= pv);
        while i < m.subparts.len()
            invariant
                i <= m.subparts.len(),
                pv == m.subparts@.map_values(|p: MimePart| p@),
                has_infix(m@.mimetype, "multipart"@),
                first_plain(pv) == first_plain(pv.skip(i as int)),
            decreases m.subparts.len() - i,
        {
            assert(pv.skip(i as int)[0] == pv[i as int]);
            assert(pv[i as int] == m.subparts@[i as int]@);
            assert(pv.skip(i as int).drop_first() =~= pv.skip(i + 1));
            if contains_text(m.subparts[i].mimetype.as_str(), "plain") {
                return text_or_default(&m.subparts[i].body);
            }
            i += 1;
        }
        assert(pv.skip(i as int).len() == 0);
        "Multipart!".to_string()
    } else {
        text_or_default(&m.body)
    }
}

fn one_text(t: String) -> (r: Vec<String>)
    ensures
        r@.map_values(|s: String| s@) == seq![t@],
{
    let mut r: Vec<String> = Vec::new();
    r.push(t);
    assert(r@.map_values(|s: String| s@) =~= seq![t@]);
    r
}

/// The failure of kind `kind` for `m`, with the metadata it has.
pub fn failure(m: &MimeMessage, kind: DecodeError) -> (r: DecodeFailure)
    ensures
        r@ == failure_of(m@, kind),
{
    DecodeFailure {
        kind,
        body: "could not load body".to_string(),
        subject: header_or_empty(&m.headers, "Subject"),
        to: header_or_empty(&m.headers, "To"),
        cc: one_text(header_or_empty(&m.headers, "Cc")),
        from: header_or_empty(&m.headers, "From"),
    }
}

/// Builds the outcome for a parsed message whose `Date` header, if it has
/// one, reads as `date`: headers `Subject`, `To`, `From` and `Cc` are the
/// first occurrence of each, or empty; without a readable date the message
/// is a failure that still carries them.
pub fn email_from(m: &MimeMessage, date: Option<i64>) -> (r: Result<Email, DecodeFailure>)
    ensures
        email_result_view(r) == email_with_date(m@, date),
{
    if first_header(&m.headers, "Date").is_none() {
        return Err(failure(m, DecodeError::MissingDate));
    }
    let t = match date {
        Some(t) => t,
        None => return Err(failure(m, DecodeError::BadDate)),
    };
    Ok(Email {
        body: select_body(m),
        subject: header_or_empty(&m.headers, "Subject"),
        date: t,
        to: header_or_empty(&m.headers, "To"),
        cc: one_text(header_or_empty(&m.headers, "Cc")),
        from: header_or_empty(&m.headers, "From"),
    })
}

/// Decodes a parsed message, reading its first `Date` header as a date.
pub fn decode_parsed(m: &MimeMessage) -> (r: Result<Email, DecodeFailure>)
    ensures
        email_result_view(r) == decoded(m@),
{
    let date = match first_header(&m.headers, "Date") {
        Some(d) => parse_date(d.as_str()),
        None => None,
    };
    email_from(m, date)
}

/// Decodes the text of one message file.
pub fn decode_message(raw: &str) -> (r: Result<Email, DecodeFailure>)
    ensures
        email_result_view(r) == decoded_text(raw@),
{
    match parse_mime(raw) {
        Some(m) => decode_parsed(&m),
        None => Err(
            DecodeFailure {
                kind: DecodeError::Malformed,
                body: "could not load body".to_string(),
                subject: String::new(),
                to: String::new(),
                cc: one_text(String::new()),
                from: String::new(),
            },
        ),
    }
}

/// A message that is not multipart, with headers `Subject`, `From` and `To`
/// and a readable `Date`, decodes to an email carrying those values and its
/// own decoded body.
pub proof fn single_part_fields(
    m: MimeView,
    subject: Seq<char>,
    from: Seq<char>,
    to: Seq<char>,
    date: Seq<char>,
    t: i64,
)
    requires
        !has_infix(m.mimetype, "multipart"@),
        first_value(m.headers, "Subject"@) == Some(subject),
        first_value(m.headers, "From"@) == Some(from),
        first_value(m.headers, "To"@) == Some(to),
        first_value(m.headers, "Date"@) == Some(date),
        date_of(date) == Some(t),
    ensures
        decoded(m) matches Ok(e) && e.subject == subject && e.from == from && e.to == to
            && e.date == t && e.body == text_or_empty(m.body),
{
}

/// A message whose `Date` header is missing or unreadable still yields its
/// `Subject`, `From`, `To` and `Cc`, beside the kind of failure and a
/// placeholder for the body.
pub proof fn undated_keeps_metadata(m: MimeView)
    requires
        date_in(m) is None,
    ensures
        decoded(m) matches Err(f) && f == failure_of(m, f.kind) && (f.kind == DecodeError::MissingDate
            <==> first_value(m.headers, "Date"@) is None) && f.body == "could not load body"@,
{
}

/// The first subpart whose type mentions `plain` gives the body, whatever
/// follows it.
pub proof fn first_plain_part_wins(parts: Seq<(Seq<char>, Option<Seq<char>>)>, i: int)
    requires
        0 <= i < parts.len(),
        has_infix(parts[i].0, "plain"@),
        forall|j: int| 0 <= j < i ==> !has_infix(#[trigger] parts[j].0, "plain"@),
    ensures
        first_plain(parts) == Some(parts[i].1),
    decreases i,
{
    if i > 0 {
        assert forall|j: int| 0 <= j < i - 1 implies !has_infix(#[trigger] parts.drop_first()[j].0, "plain"@) by {
            assert(parts.drop_first()[j] == parts[j + 1]);
        }
        first_plain_part_wins(parts.drop_first(), i - 1);
    }
}

/// A multipart message none of whose subparts is plain text shows the
/// placeholder `Multipart!`.
pub proof fn multipart_without_plain(m: MimeView)
    requires
        has_infix(m.mimetype, "multipart"@),
        forall|j: int| 0 <= j < m.subparts.len() ==> !has_infix(#[trigger] m.subparts[j].0, "plain"@),
    ensures
        body_text(m) == "Multipart!"@,
{
    no_plain_part(m.subparts);
}

proof fn no_plain_part(parts: Seq<(Seq<char>, Option<Seq<char>>)>)
    requires
        forall|j: int| 0 <= j < parts.len() ==> !has_infix(#[trigger] parts[j].0, "plain"@),
    ensures
        first_plain(parts) is None,
    decreases parts.len(),
{
    if parts.len() > 0 {
        assert forall|j: int| 0 <= j < parts.len() - 1 implies !has_infix(#[trigger] parts.drop_first()[j].0, "plain"@) by {
            assert(parts.drop_first()[j] == parts[j + 1]);
        }
        no_plain_part(parts.drop_first());
    }
}

} // verus!

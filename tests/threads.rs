use seneca::mime::DecodeError;
use seneca::read_state::{ReadState, ReadStateController};
use seneca::store::{IndexError, MailData};
use seneca::thread::{load_messages, threads_from_summaries, without_tag, Thread, ThreadSummary};

fn strings(v: &[&str]) -> Vec<String> {
    v.iter().map(|s| s.to_string()).collect()
}

fn summary(id: &str, tags: &[&str], paths: &[&str]) -> ThreadSummary {
    ThreadSummary {
        id: id.to_string(),
        authors: strings(&["A"]),
        date: 100,
        subject: format!("subject {}", id),
        message_paths: strings(paths),
        tags: strings(tags),
    }
}

#[test]
fn search_then_load_gives_decoded_message() {
    let summaries = vec![ThreadSummary {
        id: "t1".to_string(),
        authors: strings(&["A"]),
        date: 1704067200,
        subject: "Hi".to_string(),
        message_paths: strings(&["m1.eml"]),
        tags: strings(&["inbox", "unread"]),
    }];
    let threads = threads_from_summaries(&summaries);
    assert_eq!(threads.len(), 1);
    assert!(threads[0].messages.is_empty());
    let m1 = "Date: Mon, 1 Jan 2024 00:00:00 +0000\nSubject: Hi\n\nhello";
    let loaded = load_messages(&threads[0], &vec![m1.to_string()]);
    assert_eq!(loaded.messages.len(), 1);
    let email = loaded.messages[0].as_ref().unwrap();
    assert_eq!(email.subject, "Hi");
    assert_eq!(email.body, "hello");
    assert_eq!(loaded.id, "t1");
    assert_eq!(loaded.tags, strings(&["inbox", "unread"]));
}

#[test]
fn summaries_keep_index_order() {
    let summaries = vec![summary("b", &[], &[]), summary("a", &["x"], &["p"]), summary("c", &[], &[])];
    let threads = threads_from_summaries(&summaries);
    let ids: Vec<&str> = threads.iter().map(|t| t.id.as_str()).collect();
    assert_eq!(ids, vec!["b", "a", "c"]);
    assert_eq!(threads[1].tags, strings(&["x"]));
    assert_eq!(threads[1].message_paths, strings(&["p"]));
    assert_eq!(threads[1].subject, "subject a");
}

#[test]
fn load_gives_one_outcome_per_path() {
    let t = Thread::from_summary(&summary("t", &[], &["1", "2", "3"]));
    let good = "Date: Mon, 1 Jan 2024 00:00:00 +0000\n\nok".to_string();
    let loaded = load_messages(&t, &vec![good.clone(), String::new(), "Subject: x\nDate: 1 Foo 2024\n\n".to_string()]);
    assert_eq!(loaded.messages.len(), loaded.message_paths.len());
    assert_eq!(loaded.messages[0].as_ref().unwrap().body, "ok");
    assert_eq!(loaded.messages[1].as_ref().err().map(|f| f.kind), Some(DecodeError::MissingDate));
    assert_eq!(loaded.messages[2].as_ref().err().map(|f| f.kind), Some(DecodeError::BadDate));
    assert_eq!(loaded.messages[2].as_ref().unwrap_err().subject, "x");
    let again = load_messages(&loaded, &vec![good.clone(), good.clone(), good]);
    assert_eq!(again.messages.len(), 3);
}

#[test]
fn publish_replaces_threads_wholesale() {
    let mut store = MailData::new();
    let g = store.begin_query("tag:inbox".to_string());
    assert!(store.publish(g, Ok(threads_from_summaries(&vec![summary("old1", &[], &[]), summary("old2", &[], &[])]))));
    assert!(!store.loading);
    let g2 = store.begin_query("tag:inbox".to_string());
    assert!(store.loading);
    assert!(store.publish(g2, Ok(threads_from_summaries(&vec![summary("new", &[], &[])]))));
    assert_eq!(store.threads.len(), 1);
    assert_eq!(store.threads[0].id, "new");
    assert_eq!(store.error, None);
}

#[test]
fn failed_load_keeps_previous_threads() {
    let mut store = MailData::new();
    let g = store.begin_query("tag:inbox".to_string());
    store.publish(g, Ok(threads_from_summaries(&vec![summary("t", &[], &[])])));
    let g2 = store.begin_query("tag:(".to_string());
    assert!(store.publish(g2, Err(IndexError::QuerySyntaxError)));
    assert_eq!(store.threads.len(), 1);
    assert_eq!(store.error, Some(IndexError::QuerySyntaxError));
    assert!(!store.loading);
}

#[test]
fn stale_load_is_discarded() {
    let mut store = MailData::new();
    let g1 = store.begin_query("tag:q1".to_string());
    let g2 = store.begin_query("tag:q2".to_string());
    assert!(store.publish(g2, Ok(threads_from_summaries(&vec![summary("q2", &[], &[])]))));
    assert!(!store.publish(g1, Ok(threads_from_summaries(&vec![summary("q1", &[], &[])]))));
    assert_eq!(store.threads.len(), 1);
    assert_eq!(store.threads[0].id, "q2");
    assert_eq!(store.active_query, "tag:q2");
}

#[test]
fn stale_load_first_then_latest() {
    let mut store = MailData::new();
    let g1 = store.begin_query("tag:q1".to_string());
    let g2 = store.begin_query("tag:q2".to_string());
    assert!(!store.publish(g1, Ok(threads_from_summaries(&vec![summary("q1", &[], &[])]))));
    assert!(store.loading);
    assert!(store.publish(g2, Ok(threads_from_summaries(&vec![summary("q2", &[], &[])]))));
    assert_eq!(store.threads[0].id, "q2");
}

#[test]
fn new_query_closes_opened_thread() {
    let mut store = MailData::new();
    store.open_thread(Thread::from_summary(&summary("t", &[], &[])));
    assert_eq!(store.opened_id(), Some("t".to_string()));
    store.begin_query("tag:inbox".to_string());
    assert!(store.opened_thread.is_none());
    assert_eq!(store.opened_id(), None);
}

fn store_with(ids: &[&str]) -> MailData {
    let mut store = MailData::new();
    let g = store.begin_query("tag:inbox".to_string());
    let summaries: Vec<ThreadSummary> = ids.iter().map(|id| summary(id, &["inbox", "unread"], &[])).collect();
    store.publish(g, Ok(threads_from_summaries(&summaries)));
    store
}

#[test]
fn dwell_marks_opened_thread_read_once() {
    let mut store = store_with(&["A", "B"]);
    let mut c = ReadStateController::new();
    let a = store.threads[0].summary_copy();
    let timer = c.on_open(&a.id);
    store.open_thread(a);
    let write = c.on_timer(timer, &store.opened_id());
    assert_eq!(write, Some("A".to_string()));
    assert!(matches!(c.state, ReadState::Committed { .. }));
    assert_eq!(c.on_timer(timer, &store.opened_id()), None);
    store.apply_read(&"A".to_string(), Ok(()));
    assert_eq!(store.threads[0].tags, strings(&["inbox"]));
    assert_eq!(store.threads[1].tags, strings(&["inbox", "unread"]));
    assert_eq!(store.opened_thread.as_ref().unwrap().tags, strings(&["inbox"]));
}

#[test]
fn switching_before_dwell_writes_nothing_for_first() {
    let mut store = store_with(&["A", "B"]);
    let mut c = ReadStateController::new();
    let ta = c.on_open(&"A".to_string());
    store.open_thread(store.threads[0].summary_copy());
    let tb = c.on_open(&"B".to_string());
    store.open_thread(store.threads[1].summary_copy());
    assert_eq!(c.on_timer(ta, &store.opened_id()), None);
    assert_eq!(c.on_timer(tb, &store.opened_id()), Some("B".to_string()));
}

#[test]
fn timer_after_close_writes_nothing() {
    let mut c = ReadStateController::new();
    let t = c.on_open(&"A".to_string());
    assert_eq!(c.on_timer(t, &None), None);
    assert!(matches!(c.state, ReadState::Idle));
    assert_eq!(c.on_timer(t, &Some("A".to_string())), None);
}

#[test]
fn removing_unread_twice_is_harmless() {
    let mut store = store_with(&["A"]);
    store.apply_read(&"A".to_string(), Ok(()));
    let once = store.threads[0].tags.clone();
    store.apply_read(&"A".to_string(), Ok(()));
    assert_eq!(store.threads[0].tags, once);
    assert_eq!(store.error, None);
}

#[test]
fn missing_thread_still_drops_tag_and_reports() {
    let mut store = store_with(&["A"]);
    store.apply_read(&"A".to_string(), Err(IndexError::ThreadNotFound));
    assert_eq!(store.threads[0].tags, strings(&["inbox"]));
    assert_eq!(store.error, Some(IndexError::ThreadNotFound));
}

#[test]
fn unavailable_index_keeps_tag() {
    let mut store = store_with(&["A"]);
    store.apply_read(&"A".to_string(), Err(IndexError::IndexUnavailable));
    assert_eq!(store.threads[0].tags, strings(&["inbox", "unread"]));
    assert_eq!(store.error, Some(IndexError::IndexUnavailable));
}

#[test]
fn without_tag_drops_every_copy() {
    let tags = strings(&["unread", "inbox", "unread"]);
    assert_eq!(without_tag(&tags, &"unread".to_string()), strings(&["inbox"]));
    assert_eq!(without_tag(&strings(&["inbox"]), &"unread".to_string()), strings(&["inbox"]));
    assert_eq!(without_tag(&vec![], &"unread".to_string()), Vec::<String>::new());
}

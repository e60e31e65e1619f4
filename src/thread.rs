//! Threads: the summaries that the mail index reports, the threads built from
//! them, and the lazy loading of a thread's messages.

use vstd::prelude::*;

use crate::mime::{decode_message, decoded_text, email_results_view, DecodeFailure, Email, EmailView, FailureView};
use crate::text::{copy_strings, strs_view};

verus! {

/// What the mail index reports of one thread that matches a query.
pub struct ThreadSummary {
    pub id: String,
    pub authors: Vec<String>,
    /// Seconds since the UNIX epoch of the newest message.
    pub date: i64,
    pub subject: String,
    pub message_paths: Vec<String>,
    pub tags: Vec<String>,
}

/// The mathematical form of a [`ThreadSummary`].
pub struct SummaryView {
    pub id: Seq<char>,
    pub authors: Seq<Seq<char>>,
    pub date: i64,
    pub subject: Seq<char>,
    pub message_paths: Seq<Seq<char>>,
    pub tags: Seq<Seq<char>>,
}

impl View for ThreadSummary {
    type V = SummaryView;

    open spec fn view(&self) -> SummaryView {
        SummaryView {
            id: self.id@,
            authors: strs_view(self.authors@),
            date: self.date,
            subject: self.subject@,
            message_paths: strs_view(self.message_paths@),
            tags: strs_view(self.tags@),
        }
    }
}

/// One conversation. `messages` is empty until they are loaded, and then
/// holds one decode outcome per entry of `message_paths`, in that order.
pub struct Thread {
    pub id: String,
    pub authors: Vec<String>,
    pub date: i64,
    pub subject: String,
    pub message_paths: Vec<String>,
    pub messages: Vec<Result<Email, DecodeFailure>>,
    pub tags: Vec<String>,
}

/// The mathematical form of a [`Thread`].
pub struct ThreadView {
    pub id: Seq<char>,
    pub authors: Seq<Seq<char>>,
    pub date: i64,
    pub subject: Seq<char>,
    pub message_paths: Seq<Seq<char>>,
    pub messages: Seq<Result<EmailView, FailureView>>,
    pub tags: Seq<Seq<char>>,
}

impl View for Thread {
    type V = ThreadView;

    open spec fn view(&self) -> ThreadView {
        ThreadView {
            id: self.id@,
            authors: strs_view(self.authors@),
            date: self.date,
            subject: self.subject@,
            message_paths: strs_view(self.message_paths@),
            messages: email_results_view(self.messages@),
            tags: strs_view(self.tags@),
        }
    }
}

impl ThreadView {
    /// Messages are either not loaded or loaded in full.
    pub open spec fn wf(self) -> bool {
        self.messages.len() == 0 || self.messages.len() == self.message_paths.len()
    }
}

/// The views of a sequence of threads.
pub open spec fn threads_view(ts: Seq<Thread>) -> Seq<ThreadView> {
    ts.map_values(|t: Thread| t@)
}

/// The thread that a summary stands for, with no messages loaded.
pub open spec fn thread_of(s: SummaryView) -> ThreadView {
    ThreadView {
        id: s.id,
        authors: s.authors,
        date: s.date,
        subject: s.subject,
        message_paths: s.message_paths,
        messages: Seq::empty(),
        tags: s.tags,
    }
}

/// The threads of a query result, in the index's order.
pub open spec fn threads_of(ss: Seq<SummaryView>) -> Seq<ThreadView> {
    ss.map_values(|s: SummaryView| thread_of(s))
}

/// `ts` without any entry equal to `t`, the others kept in order.
pub open spec fn drop_tag(ts: Seq<Seq<char>>, t: Seq<char>) -> Seq<Seq<char>>
    decreases ts.len(),
{
    if ts.len() == 0 {
        ts
    } else if ts.last() == t {
        drop_tag(ts.drop_last(), t)
    } else {
        drop_tag(ts.drop_last(), t).push(ts.last())
    }
}

impl Thread {
    /// The thread that `s` stands for, with no messages loaded.
    pub fn from_summary(s: &ThreadSummary) -> (r: Thread)
        ensures
            r@ == thread_of(s@),
    {
        let r = Thread {
            id: s.id.clone(),
            authors: copy_strings(&s.authors),
            date: s.date,
            subject: s.subject.clone(),
            message_paths: copy_strings(&s.message_paths),
            messages: Vec::new(),
            tags: copy_strings(&s.tags),
        };
        assert(r@.messages =~= Seq::<Result<EmailView, FailureView>>::empty());
        r
    }

    /// This thread with `messages` replaced by `loaded`.
    fn with_messages(&self, loaded: Vec<Result<Email, DecodeFailure>>) -> (r: Thread)
        ensures
            r@ == (ThreadView {
                messages: email_results_view(loaded@),
                ..self@
            }),
    {
        Thread {
            id: self.id.clone(),
            authors: copy_strings(&self.authors),
            date: self.date,
            subject: self.subject.clone(),
            message_paths: copy_strings(&self.message_paths),
            messages: loaded,
            tags: copy_strings(&self.tags),
        }
    }

    /// Removes the `unread` tag from this thread's tags.
    pub fn drop_unread(&mut self)
        ensures
            final(self)@ == (ThreadView { tags: drop_tag(old(self)@.tags, "unread"@), ..old(self)@ }),
    {
        let unread = "unread".to_owned();
        self.tags = without_tag(&self.tags, &unread);
    }

    /// A copy of this thread that leaves its messages unloaded.
    pub fn summary_copy(&self) -> (r: Thread)
        ensures
            r@ == (ThreadView { messages: Seq::empty(), ..self@ }),
    {
        let r = self.with_messages(Vec::new());
        assert(r@.messages =~= Seq::<Result<EmailView, FailureView>>::empty());
        r
    }
}

/// The threads of a query result, in the order that the index gave.
pub fn threads_from_summaries(summaries: &Vec<ThreadSummary>) -> (r: Vec<Thread>)
    ensures
        threads_view(r@) == threads_of(summaries@.map_values(|s: ThreadSummary| s@)),
{
    let ghost sv = summaries@.map_values(|s: ThreadSummary| s@);
    let mut r: Vec<Thread> = Vec::new();
    let mut i: usize = 0;
    while i < summaries.len()
        invariant
            i <= summaries.len(),
            sv == summaries@.map_values(|s: ThreadSummary| s@),
            r@.len() == i,
            threads_view(r@) == threads_of(sv.subrange(0, i as int)),
        decreases summaries.len() - i,
    {
        let t = Thread::from_summary(&summaries[i]);
        assert(sv[i as int] == summaries@[i as int]@);
        let ghost before = r@;
        r.push(t);
        assert forall|k: int| 0 <= k < i + 1 implies threads_view(r@)[k] == threads_of(sv.subrange(0, i + 1))[k] by {
            if k < i {
                assert(r@[k] == before[k]);
                assert(threads_view(before)[k] == threads_of(sv.subrange(0, i as int))[k]);
            }
        }
        assert(threads_view(r@) =~= threads_of(sv.subrange(0, i + 1)));
        i += 1;
    }
    assert(sv.subrange(0, i as int) =~= sv);
    r
}

/// The decode outcomes of the texts of a thread's message files.
pub open spec fn decoded_all(raws: Seq<Seq<char>>) -> Seq<Result<EmailView, FailureView>> {
    raws.map_values(|raw: Seq<char>| decoded_text(raw))
}

/// Loads the messages of `thread`, given the text of each of its message
/// files in the order of `message_paths` (an empty text where a file could not
/// be read). The result has exactly one decode outcome per path, so a message
/// that fails to decode does not keep its siblings from loading.
pub fn load_messages(thread: &Thread, contents: &Vec<String>) -> (r: Thread)
    requires
        contents@.len() == thread@.message_paths.len(),
    ensures
        r@ == (ThreadView { messages: decoded_all(strs_view(contents@)), ..thread@ }),
        r@.messages.len() == r@.message_paths.len(),
        r@.wf(),
{
    let ghost cv = strs_view(contents@);
    let mut loaded: Vec<Result<Email, DecodeFailure>> = Vec::new();
    let mut i: usize = 0;
    while i < contents.len()
        invariant
            i <= contents.len(),
            cv == strs_view(contents@),
            loaded@.len() == i,
            email_results_view(loaded@)
                == decoded_all(cv.subrange(0, i as int)),
        decreases contents.len() - i,
    {
        let e = decode_message(contents[i].as_str());
        assert(cv[i as int] == contents@[i as int]@);
        let ghost before = loaded@;
        loaded.push(e);
        assert forall|k: int| 0 <= k < i + 1 implies
            email_results_view(loaded@)[k]
                == decoded_all(cv.subrange(0, i + 1))[k] by {
            if k < i {
                assert(loaded@[k] == before[k]);
                assert(email_results_view(before)[k]
                    == decoded_all(cv.subrange(0, i as int))[k]);
            }
        }
        assert(email_results_view(loaded@)
            =~= decoded_all(cv.subrange(0, i + 1)));
        i += 1;
    }
    assert(cv.subrange(0, i as int) =~= cv);
    thread.with_messages(loaded)
}

/// `tags` without any entry equal to `tag`.
pub fn without_tag(tags: &Vec<String>, tag: &String) -> (r: Vec<String>)
    ensures
        strs_view(r@) == drop_tag(strs_view(tags@), tag@),
{
    let ghost tv = strs_view(tags@);
    let mut r: Vec<String> = Vec::new();
    let mut i: usize = 0;
    while i < tags.len()
        invariant
            i <= tags.len(),
            tv == strs_view(tags@),
            strs_view(r@) == drop_tag(tv.subrange(0, i as int), tag@),
        decreases tags.len() - i,
    {
        assert(tv.subrange(0, i + 1).drop_last() =~= tv.subrange(0, i as int));
        if tags[i] != *tag {
            r.push(tags[i].clone());
        }
        assert(strs_view(r@) =~= drop_tag(tv.subrange(0, i + 1), tag@));
        i += 1;
    }
    assert(tv.subrange(0, i as int) =~= tv);
    r
}

/// A tag that is absent stays absent, and nothing is removed.
pub proof fn drop_absent_tag(ts: Seq<Seq<char>>, t: Seq<char>)
    requires
        !ts.contains(t),
    ensures
        drop_tag(ts, t) == ts,
    decreases ts.len(),
{
    if ts.len() > 0 {
        assert(!ts.drop_last().contains(t)) by {
            if ts.drop_last().contains(t) {
                let j = choose|j: int| 0 <= j < ts.drop_last().len() && ts.drop_last()[j] == t;
                assert(ts[j] == t);
            }
        }
        drop_absent_tag(ts.drop_last(), t);
        assert(ts.last() != t) by {
            assert(ts[ts.len() - 1] == ts.last());
        }
        assert(ts.drop_last().push(ts.last()) =~= ts);
    }
}

/// After a tag is dropped, no entry equals it.
pub proof fn drop_tag_removes(ts: Seq<Seq<char>>, t: Seq<char>)
    ensures
        !drop_tag(ts, t).contains(t),
    decreases ts.len(),
{
    if ts.len() > 0 {
        drop_tag_removes(ts.drop_last(), t);
        let r = drop_tag(ts.drop_last(), t);
        if ts.last() != t {
            assert forall|j: int| 0 <= j < r.push(ts.last()).len() implies r.push(ts.last())[j] != t by {
                if j < r.len() {
                    assert(r.push(ts.last())[j] == r[j]);
                }
            }
        }
    }
}

/// Dropping a tag twice is the same as dropping it once: after the first
/// time the tag is absent, and dropping an absent tag changes nothing.
pub proof fn drop_tag_idempotent(ts: Seq<Seq<char>>, t: Seq<char>)
    ensures
        !drop_tag(ts, t).contains(t),
        !ts.contains(t) ==> drop_tag(ts, t) == ts,
        drop_tag(drop_tag(ts, t), t) == drop_tag(ts, t),
{
    drop_tag_removes(ts, t);
    drop_absent_tag(drop_tag(ts, t), t);
    if !ts.contains(t) {
        drop_absent_tag(ts, t);
    }
}

/// Loading a thread's messages gives exactly one decode outcome per message
/// path, in path order, and leaves the rest of the thread as it was.
pub proof fn loaded_thread_matches_paths(t: ThreadView, raws: Seq<Seq<char>>)
    requires
        raws.len() == t.message_paths.len(),
    ensures
        ({
            let l = ThreadView { messages: decoded_all(raws), ..t };
            &&& l.messages.len() == l.message_paths.len()
            &&& l.wf()
            &&& forall|i: int| 0 <= i < raws.len() ==> #[trigger] l.messages[i] == decoded_text(raws[i])
        }),
{
}

} // verus!

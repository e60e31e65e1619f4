//! The state that the user interface observes: the threads of the active
//! query, whether a load is in flight, and the opened thread. Loads are
//! tagged with a generation so that only the latest query's result lands.

use vstd::prelude::*;

use crate::thread::{
    drop_tag, drop_tag_idempotent, threads_of, threads_view, SummaryView, Thread, ThreadView,
};

verus! {

/// Failures of the mail index.
#[derive(Clone, Copy, Debug, PartialEq, Eq, Structural)]
pub enum IndexError {
    /// The index cannot be opened or queried.
    IndexUnavailable,
    /// The query string is malformed.
    QuerySyntaxError,
    /// No thread with the given id exists in the index.
    ThreadNotFound,
}

/// The state container owned by the interactive context.
pub struct MailData {
    pub threads: Vec<Thread>,
    pub active_query: String,
    pub loading: bool,
    pub opened_thread: Option<Thread>,
    /// The failure of the last completed operation, if it failed.
    pub error: Option<IndexError>,
    /// The generation of the most recently dispatched load.
    pub generation: u64,
}

/// The mathematical form of a [`MailData`].
pub struct StoreView {
    pub threads: Seq<ThreadView>,
    pub active_query: Seq<char>,
    pub loading: bool,
    pub opened_thread: Option<ThreadView>,
    pub error: Option<IndexError>,
    pub generation: u64,
}

pub open spec fn opt_thread_view(o: Option<Thread>) -> Option<ThreadView> {
    match o {
        Some(t) => Some(t@),
        None => None,
    }
}

impl View for MailData {
    type V = StoreView;

    open spec fn view(&self) -> StoreView {
        StoreView {
            threads: threads_view(self.threads@),
            active_query: self.active_query@,
            loading: self.loading,
            opened_thread: opt_thread_view(self.opened_thread),
            error: self.error,
            generation: self.generation,
        }
    }
}

/// Every thread's messages are either unloaded or loaded in full.
pub open spec fn all_wf(ts: Seq<ThreadView>) -> bool {
    forall|i: int| 0 <= i < ts.len() ==> #[trigger] ts[i].wf()
}

impl StoreView {
    pub open spec fn wf(self) -> bool {
        &&& all_wf(self.threads)
        &&& match self.opened_thread {
            Some(t) => t.wf(),
            None => true,
        }
    }
}

/// The store after a load of generation `generation` completes with
/// `result`: applied only if no later load has been dispatched since.
pub open spec fn published(
    s: StoreView,
    generation: u64,
    result: Result<Seq<ThreadView>, IndexError>,
) -> StoreView {
    if generation != s.generation {
        s
    } else {
        match result {
            Ok(ts) => StoreView { threads: ts, loading: false, error: None, ..s },
            Err(e) => StoreView { loading: false, error: Some(e), ..s },
        }
    }
}

/// The store after a new query is dispatched.
pub open spec fn queried(s: StoreView, query: Seq<char>) -> StoreView {
    StoreView {
        active_query: query,
        loading: true,
        opened_thread: None,
        generation: (s.generation + 1) as u64,
        ..s
    }
}

/// `t` without the `unread` tag if its id is `id`, else `t`.
pub open spec fn read_if(t: ThreadView, id: Seq<char>) -> ThreadView {
    if t.id == id {
        ThreadView { tags: drop_tag(t.tags, "unread"@), ..t }
    } else {
        t
    }
}

/// The durable removal of `unread` took effect, or the thread is gone from
/// the index; either way the view drops the tag so as not to diverge.
pub open spec fn removal_applies(outcome: Result<(), IndexError>) -> bool {
    match outcome {
        Ok(()) => true,
        Err(e) => e == IndexError::ThreadNotFound,
    }
}

/// The store after the index answered a removal of `unread` from thread `id`.
pub open spec fn marked_read(s: StoreView, id: Seq<char>, outcome: Result<(), IndexError>) -> StoreView {
    let s1 = match outcome {
        Ok(()) => s,
        Err(e) => StoreView { error: Some(e), ..s },
    };
    if removal_applies(outcome) {
        StoreView {
            threads: s.threads.map_values(|t: ThreadView| read_if(t, id)),
            opened_thread: match s.opened_thread {
                Some(t) => Some(read_if(t, id)),
                None => None,
            },
            ..s1
        }
    } else {
        s1
    }
}

impl MailData {
    /// The store at startup: no threads, a load about to start.
    pub fn new() -> (r: MailData)
        ensures
            r@.threads.len() == 0,
            r@.active_query.len() == 0,
            r@.loading,
            r@.opened_thread is None,
            r@.error is None,
            r@.generation == 0,
            r@.wf(),
    {
        MailData {
            threads: Vec::new(),
            active_query: String::new(),
            loading: true,
            opened_thread: None,
            error: None,
            generation: 0,
        }
    }

    /// Dispatches a new query: marks the store loading, closes the opened
    /// thread, and returns the generation that the load's result must carry.
    pub fn begin_query(&mut self, query: String) -> (g: u64)
        requires
            old(self).generation < u64::MAX,
        ensures
            final(self)@ == queried(old(self)@, query@),
            g == final(self)@.generation,
            old(self)@.wf() ==> final(self)@.wf(),
    {
        self.active_query = query;
        self.loading = true;
        self.opened_thread = None;
        self.generation = self.generation + 1;
        self.generation
    }

    /// Delivers the result of the load of generation `generation`. A result
    /// whose generation is not the latest dispatched is discarded; otherwise a
    /// success replaces `threads` wholesale and a failure keeps them and
    /// records the error. Returns whether the result was applied.
    pub fn publish(&mut self, generation: u64, result: Result<Vec<Thread>, IndexError>) -> (applied: bool)
        requires
            match result {
                Ok(ts) => all_wf(threads_view(ts@)),
                Err(_) => true,
            },
        ensures
            applied == (generation == old(self)@.generation),
            final(self)@ == published(
                old(self)@,
                generation,
                match result {
                    Ok(ts) => Ok(threads_view(ts@)),
                    Err(e) => Err(e),
                },
            ),
            old(self)@.wf() ==> final(self)@.wf(),
    {
        if generation != self.generation {
            return false;
        }
        match result {
            Ok(ts) => {
                self.threads = ts;
                self.error = None;
            },
            Err(e) => {
                self.error = Some(e);
            },
        }
        self.loading = false;
        true
    }

    /// Shows `thread` as the opened thread.
    pub fn open_thread(&mut self, thread: Thread)
        requires
            thread@.wf(),
        ensures
            final(self)@ == (StoreView { opened_thread: Some(thread@), ..old(self)@ }),
            old(self)@.wf() ==> final(self)@.wf(),
    {
        self.opened_thread = Some(thread);
    }

    /// The id of the opened thread, if any.
    pub fn opened_id(&self) -> (r: Option<String>)
        ensures
            r matches Some(id) ==> self@.opened_thread matches Some(t) && id@ == t.id,
            r is None <==> self@.opened_thread is None,
    {
        match &self.opened_thread {
            Some(t) => Some(t.id.clone()),
            None => None,
        }
    }

    /// Applies the index's answer to a removal of `unread` from the thread
    /// `id`: on success, or where the thread is gone from the index, the tag
    /// leaves every copy of that thread in view; any failure is recorded.
    pub fn apply_read(&mut self, id: &String, outcome: Result<(), IndexError>)
        ensures
            final(self)@ == marked_read(old(self)@, id@, outcome),
            old(self)@.wf() ==> final(self)@.wf(),
    {
        let ghost s0 = self@;
        let applies = match outcome {
            Ok(()) => true,
            Err(e) => {
                self.error = Some(e);
                e == IndexError::ThreadNotFound
            },
        };
        if !applies {
            return;
        }
        let ghost tv0 = threads_view(self.threads@);
        let mut i: usize = 0;
        while i < self.threads.len()
            invariant
                i <= self.threads@.len(),
                self.threads@.len() == tv0.len(),
                tv0 == s0.threads,
                forall|k: int| 0 <= k < i ==> #[trigger] self.threads@[k]@ == read_if(tv0[k], id@),
                forall|k: int| i <= k < tv0.len() ==> #[trigger] self.threads@[k]@ == tv0[k],
                self.opened_thread == old(self).opened_thread,
                self.active_query == old(self).active_query,
                self.loading == old(self).loading,
                self.generation == old(self).generation,
                self.error == (match outcome {
                    Ok(()) => s0.error,
                    Err(e) => Some(e),
                }),
            decreases tv0.len() - i,
        {
            if self.threads[i].id == *id {
                self.threads[i].drop_unread();
            }
            i += 1;
        }
        match &mut self.opened_thread {
            Some(t) => {
                if t.id == *id {
                    t.drop_unread();
                }
            },
            None => {},
        }
        assert(threads_view(self.threads@) =~= s0.threads.map_values(|t: ThreadView| read_if(t, id@)));
        proof {
            if s0.wf() {
                assert forall|k: int| 0 <= k < tv0.len() implies #[trigger] threads_view(self.threads@)[k].wf() by {
                    assert(tv0[k].wf());
                }
            }
        }
    }
}

/// A completed load of the latest query replaces `threads` wholesale with
/// the threads of the index's result, in the index's order: no entry of the
/// previous list survives unless the index reported it again.
pub proof fn load_replaces_threads(s: StoreView, ss: Seq<SummaryView>)
    ensures
        ({
            let p = published(s, s.generation, Ok(threads_of(ss)));
            &&& p.threads.len() == ss.len()
            &&& forall|i: int| 0 <= i < ss.len() ==> (#[trigger] p.threads[i]).id == ss[i].id
            &&& forall|i: int| 0 <= i < ss.len() ==> #[trigger] p.threads[i].tags == ss[i].tags
            &&& !p.loading
            &&& p.error is None
        }),
{
}

/// Of two queries dispatched one after the other, only the later one's
/// result lands, whichever of the two loads completes first.
pub proof fn later_query_wins(
    s: StoreView,
    q1: Seq<char>,
    q2: Seq<char>,
    r1: Result<Seq<ThreadView>, IndexError>,
    r2: Result<Seq<ThreadView>, IndexError>,
)
    requires
        s.generation < u64::MAX - 1,
    ensures
        ({
            let s1 = queried(s, q1);
            let s2 = queried(s1, q2);
            let done = published(s2, s2.generation, r2);
            &&& published(done, s1.generation, r1) == done
            &&& published(published(s2, s1.generation, r1), s2.generation, r2) == done
            &&& (r2 matches Ok(ts) ==> done.threads == ts)
            &&& done.active_query == q2
        }),
{
}

/// Once the index has removed `unread` from thread `id`, no thread with that
/// id in view carries the tag, the opened one included.
pub proof fn read_clears_unread(s: StoreView, id: Seq<char>)
    ensures
        ({
            let m = marked_read(s, id, Ok(()));
            &&& m.threads.len() == s.threads.len()
            &&& forall|i: int| 0 <= i < m.threads.len() && (#[trigger] m.threads[i]).id == id
                ==> !m.threads[i].tags.contains("unread"@)
            &&& (m.opened_thread matches Some(t) ==> (t.id == id ==> !t.tags.contains("unread"@)))
            &&& m.error == s.error
        }),
{
    let m = marked_read(s, id, Ok(()));
    assert forall|i: int| 0 <= i < m.threads.len() && (#[trigger] m.threads[i]).id == id
        implies !m.threads[i].tags.contains("unread"@) by {
        drop_tag_idempotent(s.threads[i].tags, "unread"@);
    }
    if let Some(t) = s.opened_thread {
        drop_tag_idempotent(t.tags, "unread"@);
    }
}

/// Applying a successful removal of `unread` twice leaves the store as
/// applying it once does, with no error recorded: the second removal finds
/// the tag already gone and changes nothing.
pub proof fn read_twice_same(s: StoreView, id: Seq<char>)
    ensures
        marked_read(marked_read(s, id, Ok(())), id, Ok(())) == marked_read(s, id, Ok(())),
        marked_read(s, id, Ok(())).error == s.error,
{
    let m1 = marked_read(s, id, Ok(()));
    let m2 = marked_read(m1, id, Ok(()));
    assert forall|i: int| 0 <= i < s.threads.len() implies #[trigger] read_if(m1.threads[i], id) == m1.threads[i] by {
        drop_tag_idempotent(s.threads[i].tags, "unread"@);
    }
    assert(m2.threads =~= m1.threads);
    if let Some(t) = s.opened_thread {
        drop_tag_idempotent(t.tags, "unread"@);
    }
}

} // verus!

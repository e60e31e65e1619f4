//! The dwell-timer state machine that marks a viewed thread as read.
//!
//! Opening a thread starts watching it under a fresh timer token. When a
//! timer fires, its token still being the one watched and the watched thread
//! still being the opened one, the controller asks for one durable removal of
//! `unread`; any other firing changes nothing durable.

use vstd::prelude::*;

verus! {

/// How long a thread stays opened before it counts as read.
pub const DWELL_SECONDS: u64 = 2;

/// The state of one open-session.
pub enum ReadState {
    Idle,
    Watching { thread_id: String, timer: u64 },
    Committed { thread_id: String },
}

/// The mathematical form of a [`ReadState`].
pub enum WatchView {
    Idle,
    Watching { thread_id: Seq<char>, timer: u64 },
    Committed { thread_id: Seq<char> },
}

impl View for ReadState {
    type V = WatchView;

    open spec fn view(&self) -> WatchView {
        match self {
            ReadState::Idle => WatchView::Idle,
            ReadState::Watching { thread_id, timer } => WatchView::Watching {
                thread_id: thread_id@,
                timer: *timer,
            },
            ReadState::Committed { thread_id } => WatchView::Committed { thread_id: thread_id@ },
        }
    }
}

/// The read-state controller: the session's state and the token that the
/// next timer gets.
pub struct ReadStateController {
    pub state: ReadState,
    pub next_timer: u64,
}

/// The mathematical form of a [`ReadStateController`].
pub struct ControllerView {
    pub state: WatchView,
    pub next_timer: u64,
}

impl View for ReadStateController {
    type V = ControllerView;

    open spec fn view(&self) -> ControllerView {
        ControllerView { state: self.state@, next_timer: self.next_timer }
    }
}

/// The controller after thread `id` is opened: a new session watches it
/// under a fresh token.
pub open spec fn opened(c: ControllerView, id: Seq<char>) -> ControllerView {
    ControllerView {
        state: WatchView::Watching { thread_id: id, timer: c.next_timer },
        next_timer: (c.next_timer + 1) as u64,
    }
}

/// The controller after timer `timer` fires while `shown` is the opened
/// thread's id, and the thread whose `unread` tag is then to be removed.
pub open spec fn fired(c: ControllerView, timer: u64, shown: Option<Seq<char>>) -> (
    ControllerView,
    Option<Seq<char>>,
) {
    match c.state {
        WatchView::Watching { thread_id, timer: t } => if t != timer {
            (c, None)
        } else if shown == Some(thread_id) {
            (ControllerView { state: WatchView::Committed { thread_id }, ..c }, Some(thread_id))
        } else {
            (ControllerView { state: WatchView::Idle, ..c }, None)
        },
        _ => (c, None),
    }
}

pub open spec fn opt_id_view(o: Option<String>) -> Option<Seq<char>> {
    match o {
        Some(s) => Some(s@),
        None => None,
    }
}

impl ReadStateController {
    /// A controller with no thread opened.
    pub fn new() -> (r: ReadStateController)
        ensures
            r@ == (ControllerView { state: WatchView::Idle, next_timer: 0 }),
    {
        ReadStateController { state: ReadState::Idle, next_timer: 0 }
    }

    /// Thread `thread_id` was opened: returns the token of the dwell timer to
    /// start.
    pub fn on_open(&mut self, thread_id: &String) -> (timer: u64)
        requires
            old(self).next_timer < u64::MAX,
        ensures
            final(self)@ == opened(old(self)@, thread_id@),
            timer == old(self)@.next_timer,
    {
        let timer = self.next_timer;
        self.state = ReadState::Watching { thread_id: thread_id.clone(), timer };
        self.next_timer = self.next_timer + 1;
        timer
    }

    /// The dwell timer `timer` fired while `shown` is the opened thread's id:
    /// returns the id of the thread whose `unread` tag is to be removed, if
    /// the watched thread has stayed opened.
    pub fn on_timer(&mut self, timer: u64, shown: &Option<String>) -> (write: Option<String>)
        ensures
            (final(self)@, opt_id_view(write)) == fired(old(self)@, timer, opt_id_view(*shown)),
    {
        let watched = match &self.state {
            ReadState::Watching { thread_id, timer: t } => {
                if *t != timer {
                    return None;
                }
                thread_id.clone()
            },
            _ => {
                return None;
            },
        };
        let still_open = match shown {
            Some(s) => *s == watched,
            None => false,
        };
        if still_open {
            self.state = ReadState::Committed { thread_id: watched.clone() };
            Some(watched)
        } else {
            self.state = ReadState::Idle;
            None
        }
    }
}

/// Opening a thread and letting its dwell timer fire while it is still the
/// opened one asks for exactly one removal of `unread`, for that thread: the
/// session is then committed, and a later firing asks for nothing.
pub proof fn dwell_marks_read_once(c: ControllerView, id: Seq<char>)
    requires
        c.next_timer < u64::MAX,
    ensures
        ({
            let c1 = opened(c, id);
            let (c2, w1) = fired(c1, c.next_timer, Some(id));
            let (c3, w2) = fired(c2, c.next_timer, Some(id));
            &&& w1 == Some(id)
            &&& c2.state == (WatchView::Committed { thread_id: id })
            &&& w2 is None
            &&& c3 == c2
        }),
{
}

/// Opening thread `a` and then thread `b` before `a`'s dwell timer fires
/// asks for no removal for `a`: `a`'s timer changes nothing, whichever
/// thread is shown, and `b`'s timer can only ask for `b`.
pub proof fn switching_skips_read(c: ControllerView, a: Seq<char>, b: Seq<char>, shown: Option<Seq<char>>)
    requires
        c.next_timer < u64::MAX - 1,
    ensures
        ({
            let c1 = opened(c, a);
            let c2 = opened(c1, b);
            let (c3, w1) = fired(c2, c.next_timer, shown);
            let (_, w2) = fired(c3, c1.next_timer, shown);
            &&& w1 is None
            &&& c3 == c2
            &&& (w2 matches Some(x) ==> x == b)
        }),
{
}

} // verus!

//! Log streaming: the table of live streams, at most one per server, and the decisions of
//! the task that follows a container's logs.
use vstd::prelude::*;
use crate::server::LogEvent;
use crate::status::{produces_logs, ServerStatus};
use crate::text::{chars_of, split_lines, string_of, text_lines, trim, trim_bounds, views};

verus! {

/// The first entry from `i` whose key is `k`; the length if none.
pub open spec fn pos<H>(es: Seq<(String, H)>, k: Seq<char>, i: nat) -> nat
    decreases es.len() - i,
{
    if i >= es.len() {
        es.len()
    } else if es[i as int].0@ == k {
        i
    } else {
        pos(es, k, i + 1)
    }
}

pub proof fn lemma_pos<H>(es: Seq<(String, H)>, k: Seq<char>, i: nat)
    requires
        i <= es.len(),
    ensures
        i <= pos(es, k, i) <= es.len(),
        pos(es, k, i) < es.len() ==> es[pos(es, k, i) as int].0@ == k,
        forall|m: int| i <= m < pos(es, k, i) ==> es[m].0@ != k,
    decreases es.len() - i,
{
    if i < es.len() && es[i as int].0@ != k {
        lemma_pos(es, k, i + 1);
    }
}

/// No two entries share a key: at most one live stream per server.
pub open spec fn unique<H>(es: Seq<(String, H)>) -> bool {
    forall|i: int, j: int| 0 <= i < es.len() && 0 <= j < es.len() && es[i].0@ == es[j].0@ ==> i == j
}

/// Exactly one entry has key `k`.
pub open spec fn sole<H>(es: Seq<(String, H)>, k: Seq<char>) -> bool {
    exists|j: int| 0 <= j < es.len() && es[j].0@ == k && forall|i: int| 0 <= i < es.len() && es[i].0@ == k ==> i == j
}

/// No entry has key `k`.
pub open spec fn absent<H>(es: Seq<(String, H)>, k: Seq<char>) -> bool {
    forall|i: int| 0 <= i < es.len() ==> es[i].0@ != k
}

/// The entries once `id`'s stream is replaced by `h`: any earlier one is taken out, and the
/// new one goes last.
pub open spec fn after_replace<H>(es: Seq<(String, H)>, id: String, h: H) -> Seq<(String, H)> {
    let j = pos(es, id@, 0);
    if j < es.len() {
        es.remove(j as int).push((id, h))
    } else {
        es.push((id, h))
    }
}

/// The entries once `k`'s stream is taken out.
pub open spec fn after_remove<H>(es: Seq<(String, H)>, k: Seq<char>) -> Seq<(String, H)> {
    let j = pos(es, k, 0);
    if j < es.len() {
        es.remove(j as int)
    } else {
        es
    }
}

/// The live log streams, one handle per server id.
pub struct StreamTable<H> {
    entries: Vec<(String, H)>,
}

impl<H> StreamTable<H> {
    /// The entries, in order of insertion.
    pub closed spec fn view_entries(&self) -> Seq<(String, H)> {
        self.entries@
    }

    /// The table's invariant: at most one stream per server id.
    pub open spec fn wf(&self) -> bool {
        unique(self.view_entries())
    }

    pub fn new() -> (r: Self)
        ensures
            r.wf(),
            r.view_entries().len() == 0,
    {
        StreamTable { entries: Vec::new() }
    }

    fn find(&self, id: &String) -> (r: usize)
        ensures
            r == pos(self.view_entries(), id@, 0),
    {
        let mut i: usize = 0;
        while i < self.entries.len()
            invariant
                i <= self.entries.len(),
                pos(self.entries@, id@, 0) == pos(self.entries@, id@, i as nat),
            decreases self.entries.len() - i,
        {
            if self.entries[i].0 == *id {
                return i;
            }
            i = i + 1;
        }
        i
    }

    /// Whether server `id` has a live stream.
    pub fn contains(&self, id: &String) -> (r: bool)
        ensures
            r == (pos(self.view_entries(), id@, 0) < self.view_entries().len()),
    {
        self.find(id) < self.entries.len()
    }

    /// The number of live streams.
    pub fn len(&self) -> (r: usize)
        ensures
            r == self.view_entries().len(),
    {
        self.entries.len()
    }

    /// Installs `h` as `id`'s stream and hands back the one it supersedes, which the caller
    /// must cancel.
    pub fn replace(&mut self, id: String, h: H) -> (r: Option<H>)
        requires
            old(self).wf(),
        ensures
            final(self).wf(),
            final(self).view_entries() == after_replace(old(self).view_entries(), id, h),
            r.is_some() == (pos(old(self).view_entries(), id@, 0) < old(self).view_entries().len()),
            r.is_some() ==> r.unwrap() == old(self).view_entries()[pos(old(self).view_entries(), id@, 0) as int].1,
    {
        let j = self.find(&id);
        proof {
            replace_keeps_unique(self.entries@, id, h);
        }
        if j < self.entries.len() {
            let (_, previous) = self.entries.remove(j);
            self.entries.push((id, h));
            Some(previous)
        } else {
            self.entries.push((id, h));
            None
        }
    }

    /// Takes out `id`'s stream, if it has one, for the caller to cancel.
    pub fn remove(&mut self, id: &String) -> (r: Option<H>)
        requires
            old(self).wf(),
        ensures
            final(self).wf(),
            final(self).view_entries() == after_remove(old(self).view_entries(), id@),
            r.is_some() == (pos(old(self).view_entries(), id@, 0) < old(self).view_entries().len()),
            r.is_some() ==> r.unwrap() == old(self).view_entries()[pos(old(self).view_entries(), id@, 0) as int].1,
    {
        let j = self.find(id);
        proof {
            remove_keeps_unique(self.entries@, id@);
        }
        if j < self.entries.len() {
            let (_, previous) = self.entries.remove(j);
            Some(previous)
        } else {
            None
        }
    }
}

/// Replacing a server's stream keeps at most one stream per server, and leaves exactly one
/// for that server.
pub proof fn replace_keeps_unique<H>(es: Seq<(String, H)>, id: String, h: H)
    requires
        unique(es),
    ensures
        unique(after_replace(es, id, h)),
        sole(after_replace(es, id, h), id@),
{
    lemma_pos(es, id@, 0);
    let j = pos(es, id@, 0);
    let r = after_replace(es, id, h);
    let n = r.len() - 1;
    if j < es.len() {
        let mid = es.remove(j as int);
        assert forall|i: int| 0 <= i < mid.len() implies mid[i].0@ != id@ by {
            if i < j {
                assert(mid[i] == es[i]);
            } else {
                assert(mid[i] == es[i + 1]);
                assert(es[i + 1].0@ != es[j as int].0@);
            }
        }
        assert forall|a: int, b: int| 0 <= a < r.len() && 0 <= b < r.len() && r[a].0@ == r[b].0@ implies a == b by {
            if a < n && b < n {
                let ea = if a < j { a } else { a + 1 };
                let eb = if b < j { b } else { b + 1 };
                assert(mid[a] == es[ea]);
                assert(mid[b] == es[eb]);
            }
        }
    } else {
        assert forall|a: int, b: int| 0 <= a < r.len() && 0 <= b < r.len() && r[a].0@ == r[b].0@ implies a == b by {
            if a < n && b < n {
                assert(r[a] == es[a] && r[b] == es[b]);
            }
        }
    }
    assert(r[n].0@ == id@);
    assert(sole(r, id@)) by {
        assert forall|i: int| 0 <= i < r.len() && r[i].0@ == id@ implies i == n by {}
    }
}

/// Taking a server's stream out keeps at most one stream per server and leaves none for it.
pub proof fn remove_keeps_unique<H>(es: Seq<(String, H)>, k: Seq<char>)
    requires
        unique(es),
    ensures
        unique(after_remove(es, k)),
        absent(after_remove(es, k), k),
{
    lemma_pos(es, k, 0);
    let j = pos(es, k, 0);
    let r = after_remove(es, k);
    if j < es.len() {
        assert forall|a: int, b: int| 0 <= a < r.len() && 0 <= b < r.len() && r[a].0@ == r[b].0@ implies a == b by {
            let ea = if a < j { a } else { a + 1 };
            let eb = if b < j { b } else { b + 1 };
            assert(r[a] == es[ea]);
            assert(r[b] == es[eb]);
        }
        assert forall|i: int| 0 <= i < r.len() implies r[i].0@ != k by {
            if i >= j {
                assert(r[i] == es[i + 1]);
                assert(es[i + 1].0@ != es[j as int].0@);
            }
        }
    }
}

/// Two starts in a row for the same server leave exactly one live stream for it, whatever
/// was live before.
pub proof fn two_starts_leave_one_stream<H>(es: Seq<(String, H)>, id: String, first: H, second: H)
    requires
        unique(es),
    ensures
        unique(after_replace(after_replace(es, id, first), id, second)),
        sole(after_replace(after_replace(es, id, first), id, second), id@),
{
    replace_keeps_unique(es, id, first);
    replace_keeps_unique(after_replace(es, id, first), id, second);
}

// ---------------------------------------------------------------- the follower task

/// Reconnections the follower tries before it gives up.
pub const MAX_RECONNECTS: u32 = 10;

/// What happened since the follower last decided.
#[derive(Debug, Clone, Copy, PartialEq, Eq, Structural)]
pub enum FollowEvent {
    /// The stream was cancelled.
    Cancelled,
    /// Connecting to the runtime failed.
    ConnectFailed,
    /// The runtime reported the container's status.
    StatusKnown(ServerStatus),
    /// The container's status could not be read.
    StatusUnknown,
    /// A chunk of log output arrived.
    Chunk,
    /// The log stream failed or ended.
    StreamClosed,
}

/// What the follower does next.
#[derive(Debug, Clone, Copy, PartialEq, Eq, Structural)]
pub enum FollowAction {
    /// End the task.
    Stop,
    /// Sleep this many seconds, then connect again.
    RetryAfterSecs(u64),
    /// Open a following log stream with a short tail.
    OpenStream,
    /// Forward the chunk's non-empty lines and wait for more.
    Forward,
}

/// The follower's next reconnect count and action.
pub open spec fn follow_step(attempts: u32, ev: FollowEvent) -> (u32, FollowAction) {
    match ev {
        FollowEvent::Cancelled => (attempts, FollowAction::Stop),
        FollowEvent::ConnectFailed => if attempts + 1 > MAX_RECONNECTS {
            ((attempts + 1) as u32, FollowAction::Stop)
        } else {
            ((attempts + 1) as u32, FollowAction::RetryAfterSecs(2))
        },
        FollowEvent::StatusKnown(s) => if produces_logs(s) {
            (attempts, FollowAction::OpenStream)
        } else {
            (attempts, FollowAction::Stop)
        },
        FollowEvent::StatusUnknown => (attempts, FollowAction::OpenStream),
        FollowEvent::Chunk => (0, FollowAction::Forward),
        FollowEvent::StreamClosed => if attempts + 1 > MAX_RECONNECTS {
            ((attempts + 1) as u32, FollowAction::Stop)
        } else {
            ((attempts + 1) as u32, FollowAction::RetryAfterSecs(1))
        },
    }
}

/// The state of a task that follows one container's logs.
#[derive(Debug)]
pub struct LogFollower {
    /// Failed connections or streams since the last line arrived.
    pub reconnect_attempts: u32,
}

impl LogFollower {
    pub fn new() -> (r: Self)
        ensures
            r.reconnect_attempts == 0,
    {
        LogFollower { reconnect_attempts: 0 }
    }

    /// Decides what to do after `ev`. Cancellation always stops; a line resets the reconnect
    /// count; failures back off until the count passes its bound.
    pub fn on_event(&mut self, ev: FollowEvent) -> (r: FollowAction)
        requires
            old(self).reconnect_attempts <= MAX_RECONNECTS,
        ensures
            (final(self).reconnect_attempts, r) == follow_step(old(self).reconnect_attempts, ev),
            r != FollowAction::Stop ==> final(self).reconnect_attempts <= MAX_RECONNECTS,
    {
        match ev {
            FollowEvent::Cancelled => FollowAction::Stop,
            FollowEvent::ConnectFailed => {
                self.reconnect_attempts = self.reconnect_attempts + 1;
                if self.reconnect_attempts > MAX_RECONNECTS {
                    FollowAction::Stop
                } else {
                    FollowAction::RetryAfterSecs(2)
                }
            },
            FollowEvent::StatusKnown(s) => {
                if s == ServerStatus::Running || s == ServerStatus::Installing {
                    FollowAction::OpenStream
                } else {
                    FollowAction::Stop
                }
            },
            FollowEvent::StatusUnknown => FollowAction::OpenStream,
            FollowEvent::Chunk => {
                self.reconnect_attempts = 0;
                FollowAction::Forward
            },
            FollowEvent::StreamClosed => {
                self.reconnect_attempts = self.reconnect_attempts + 1;
                if self.reconnect_attempts > MAX_RECONNECTS {
                    FollowAction::Stop
                } else {
                    FollowAction::RetryAfterSecs(1)
                }
            },
        }
    }
}

/// Cancellation wins: whatever the reconnect count, a cancelled follower stops.
pub proof fn cancellation_stops(attempts: u32)
    ensures
        follow_step(attempts, FollowEvent::Cancelled).1 == FollowAction::Stop,
{
}

// ---------------------------------------------------------------- lines of output

/// The lines among the first `n` that are not empty.
pub open spec fn nonempty_upto(ls: Seq<Seq<char>>, n: int) -> Seq<Seq<char>>
    decreases n,
{
    if n <= 0 {
        Seq::empty()
    } else if ls[n - 1].len() > 0 {
        nonempty_upto(ls, n - 1).push(ls[n - 1])
    } else {
        nonempty_upto(ls, n - 1)
    }
}

/// The lines among the first `n` that hold more than white space.
pub open spec fn nonblank_upto(ls: Seq<Seq<char>>, n: int) -> Seq<Seq<char>>
    decreases n,
{
    if n <= 0 {
        Seq::empty()
    } else if trim(ls[n - 1]).len() > 0 {
        nonblank_upto(ls, n - 1).push(ls[n - 1])
    } else {
        nonblank_upto(ls, n - 1)
    }
}

/// The text of each string.
pub open spec fn string_views(ss: Seq<String>) -> Seq<Seq<char>> {
    ss.map_values(|s: String| s@)
}

/// The non-empty lines of a chunk of log output, the ones a live stream forwards.
pub fn log_lines(text: &str) -> (r: Vec<String>)
    ensures
        string_views(r@) == nonempty_upto(text_lines(text@), text_lines(text@).len() as int),
{
    let ls = split_lines(&chars_of(text));
    let mut r: Vec<String> = Vec::new();
    let mut i: usize = 0;
    while i < ls.len()
        invariant
            i <= ls.len(),
            views(ls@) == text_lines(text@),
            string_views(r@) == nonempty_upto(views(ls@), i as int),
        decreases ls.len() - i,
    {
        if ls[i].len() > 0 {
            let ghost before = string_views(r@);
            r.push(string_of(&ls[i]));
            assert(string_views(r@) =~= before.push(ls@[i as int]@));
        }
        i = i + 1;
    }
    r
}

/// The lines of fetched log output that hold more than white space.
pub fn visible_log_lines(text: &str) -> (r: Vec<String>)
    ensures
        string_views(r@) == nonblank_upto(text_lines(text@), text_lines(text@).len() as int),
{
    let ls = split_lines(&chars_of(text));
    let mut r: Vec<String> = Vec::new();
    let mut i: usize = 0;
    while i < ls.len()
        invariant
            i <= ls.len(),
            views(ls@) == text_lines(text@),
            string_views(r@) == nonblank_upto(views(ls@), i as int),
        decreases ls.len() - i,
    {
        let (a, b) = trim_bounds(&ls[i], 0, ls[i].len());
        assert(ls@[i as int]@.subrange(0, ls@[i as int]@.len() as int) =~= ls@[i as int]@);
        if a < b {
            let ghost before = string_views(r@);
            r.push(string_of(&ls[i]));
            assert(string_views(r@) =~= before.push(ls@[i as int]@));
        }
        i = i + 1;
    }
    r
}

/// The events a chunk of a server's log output gives: one per non-empty line.
pub fn log_events(server_id: &String, text: &str) -> (r: Vec<LogEvent>)
    ensures
        r@.len() == nonempty_upto(text_lines(text@), text_lines(text@).len() as int).len(),
        forall|i: int| 0 <= i < r@.len() ==> (#[trigger] r@[i]).server_id == *server_id
            && r@[i].line@ == nonempty_upto(text_lines(text@), text_lines(text@).len() as int)[i],
{
    let lines = log_lines(text);
    let mut r: Vec<LogEvent> = Vec::new();
    let mut i: usize = 0;
    while i < lines.len()
        invariant
            i <= lines.len(),
            r@.len() == i,
            string_views(lines@) == nonempty_upto(text_lines(text@), text_lines(text@).len() as int),
            forall|k: int| 0 <= k < i ==> (#[trigger] r@[k]).server_id == *server_id && r@[k].line@ == lines@[k]@,
        decreases lines.len() - i,
    {
        r.push(LogEvent { server_id: server_id.clone(), line: lines[i].clone() });
        i = i + 1;
    }
    assert forall|k: int| 0 <= k < r@.len() implies (#[trigger] r@[k]).line@ == string_views(lines@)[k] by {}
    r
}

} // verus!

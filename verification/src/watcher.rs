//! The log-collection engine: one `DockerLogWatcher` per container, owned by
//! a `DockerLogManager`.
//!
//! A watcher holds a bounded ring buffer of log lines for a single container.
//! The runtime plumbing — spawning the log-follow subprocess, the two stream
//! reader workers and the supervisor that kills the subprocess on shutdown —
//! lives outside the crate; those workers report their events here, and every
//! decision about the buffer and the lifecycle flags is made (and proved) in
//! this module:
//!
//! * appending a line evicts the oldest entry once the buffer is full, so the
//!   buffer always holds the most recent `max_logs` lines in arrival order;
//! * once `stop` has run, no append changes the buffer again;
//! * `stop` is idempotent and `start` is only accepted on a fresh watcher.
//!
//! The manager hands every watcher a distinct id.  A worker that appends by
//! id can therefore never touch a watcher created by a later refresh: after
//! the refresh its id is simply gone and the append is a no-op.

use std::collections::VecDeque;
use vstd::prelude::*;

verus! {

/// Why starting a watcher failed: the log-follow subprocess could not be
/// brought up (missing binary, permission denied, or no capture stream).
#[derive(Clone, Copy, Debug, PartialEq, Eq, Structural)]
pub enum WatcherError {
    Launch,
}

/// The last `cap` elements of `s`, in order.
pub open spec fn last_n<T>(s: Seq<T>, cap: nat) -> Seq<T> {
    if s.len() <= cap {
        s
    } else {
        s.subrange(s.len() - cap, s.len() as int)
    }
}

/// One buffer step: append `line`, then evict the oldest entry if the
/// buffer would exceed `cap`.
pub open spec fn push_evict<T>(lines: Seq<T>, cap: nat, line: T) -> Seq<T> {
    last_n(lines.push(line), cap)
}

/// The buffer after a whole sequence of lines has arrived, oldest first.
pub open spec fn push_evict_all<T>(init: Seq<T>, cap: nat, incoming: Seq<T>) -> Seq<T>
    decreases incoming.len(),
{
    if incoming.len() == 0 {
        init
    } else {
        push_evict_all(push_evict(init, cap, incoming[0]), cap, incoming.drop_first())
    }
}

/// How a line read from the subprocess's standard-error stream is tagged
/// before it enters the buffer, so consumers can tell the two streams apart.
pub open spec fn stderr_tagged(line: Seq<char>) -> Seq<char> {
    "ERROR: "@ + line
}

/// The abstract state of a watcher.
pub ghost struct WatcherView {
    /// Identity of the container whose logs are collected.
    pub name: Seq<char>,
    /// Buffer capacity: the buffer never holds more lines than this.
    pub cap: nat,
    /// The buffered lines, oldest first.
    pub lines: Seq<Seq<char>>,
    /// Whether workers may still append.  Set once by `start`, cleared
    /// (for good) by `stop`.
    pub active: bool,
    /// Whether `start` has ever been accepted; never cleared.
    pub started: bool,
    /// Id assigned by the owning manager (zero for a stand-alone watcher).
    pub id: u64,
}

impl WatcherView {
    /// The same watcher with appending disabled; `stop` pins its result
    /// to exactly this value.
    pub open spec fn stopped(self) -> WatcherView {
        WatcherView { active: false, ..self }
    }
}

pub struct DockerLogWatcher {
    container_name: String,
    max_logs: usize,
    logs: VecDeque<String>,
    active: bool,
    started: bool,
    id: u64,
}

impl View for DockerLogWatcher {
    type V = WatcherView;

    closed spec fn view(&self) -> WatcherView {
        WatcherView {
            name: self.container_name@,
            cap: self.max_logs as nat,
            lines: self.logs@.map_values(|s: String| s@),
            active: self.active,
            started: self.started,
            id: self.id,
        }
    }
}

impl DockerLogWatcher {
    /// The buffer never outgrows its capacity, and only a started watcher
    /// can be active.
    pub open spec fn wf(self) -> bool {
        &&& self@.lines.len() <= self@.cap
        &&& (self@.active ==> self@.started)
    }

    /// A fresh watcher: inert, with an empty buffer.
    pub fn new(container_name: String, max_logs: usize) -> (r: Self)
        ensures
            r@.name == container_name@,
            r@.cap == max_logs as nat,
            r@.lines =~= Seq::<Seq<char>>::empty(),
            !r@.active,
            !r@.started,
            r@.id == 0,
            r.wf(),
    {
        let r = Self {
            container_name,
            max_logs,
            logs: VecDeque::with_capacity(max_logs),
            active: false,
            started: false,
            id: 0,
        };
        assert(r@.lines =~= Seq::<Seq<char>>::empty());
        r
    }

    /// Record the outcome of the launch attempt that the runner made for
    /// this watcher.  `launched` reports whether the log-follow subprocess
    /// came up with both capture streams.  On success the watcher becomes
    /// active; on failure it is left inert, exactly as constructed, and the
    /// caller is told to drop it.
    pub fn start(&mut self, launched: bool) -> (r: Result<(), WatcherError>)
        requires
            old(self).wf(),
            !old(self)@.started,
        ensures
            final(self).wf(),
            final(self)@.name == old(self)@.name,
            final(self)@.cap == old(self)@.cap,
            final(self)@.lines == old(self)@.lines,
            final(self)@.id == old(self)@.id,
            launched ==> r == Ok::<(), WatcherError>(()) && final(self)@.active
                && final(self)@.started,
            !launched ==> r == Err::<(), WatcherError>(WatcherError::Launch)
                && final(self)@ == old(self)@,
    {
        if launched {
            self.active = true;
            self.started = true;
            Ok(())
        } else {
            Err(WatcherError::Launch)
        }
    }

    /// Request shutdown: after this call no worker may append.  Idempotent —
    /// the result is the same whether the watcher was active or already
    /// stopped — and it never touches the buffered lines.
    pub fn stop(&mut self)
        requires
            old(self).wf(),
        ensures
            final(self).wf(),
            final(self)@ == old(self)@.stopped(),
    {
        self.active = false;
    }

    /// A worker delivers one line read from the subprocess's standard
    /// output.  While the watcher is active the line enters the buffer,
    /// evicting the oldest entry at capacity; on a stopped watcher nothing
    /// changes at all.
    pub fn append_stdout_line(&mut self, line: String)
        requires
            old(self).wf(),
        ensures
            final(self).wf(),
            old(self)@.active ==> final(self)@ == (WatcherView {
                lines: push_evict(old(self)@.lines, old(self)@.cap, line@),
                ..old(self)@
            }),
            !old(self)@.active ==> final(self)@ == old(self)@,
    {
        self.append_raw(line);
    }

    /// A worker delivers one line read from the subprocess's standard
    /// error.  The line is tagged before it enters the buffer so that
    /// consumers can tell the two streams apart; a stopped watcher is
    /// left untouched.
    pub fn append_stderr_line(&mut self, line: String)
        requires
            old(self).wf(),
        ensures
            final(self).wf(),
            old(self)@.active ==> final(self)@ == (WatcherView {
                lines: push_evict(old(self)@.lines, old(self)@.cap, stderr_tagged(line@)),
                ..old(self)@
            }),
            !old(self)@.active ==> final(self)@ == old(self)@,
    {
        let mut tagged = String::from_str("ERROR: ");
        tagged.append(line.as_str());
        self.append_raw(tagged);
    }

    fn append_raw(&mut self, line: String)
        requires
            old(self).wf(),
        ensures
            final(self).wf(),
            old(self)@.active ==> final(self)@ == (WatcherView {
                lines: push_evict(old(self)@.lines, old(self)@.cap, line@),
                ..old(self)@
            }),
            !old(self)@.active ==> final(self)@ == old(self)@,
    {
        if !self.active {
            return ;
        }
        self.logs.push_back(line);
        if self.logs.len() > self.max_logs {
            self.logs.pop_front();
            assert(self@.lines =~= push_evict(old(self)@.lines, old(self)@.cap, line@));
        } else {
            assert(self@.lines =~= push_evict(old(self)@.lines, old(self)@.cap, line@));
        }
    }

    /// A point-in-time copy of the buffered lines, oldest first.
    pub fn get_logs(&self) -> (r: Vec<String>)
        ensures
            r@.map_values(|s: String| s@) =~= self@.lines,
    {
        let mut out: Vec<String> = Vec::new();
        let n = self.logs.len();
        let mut i: usize = 0;
        while i < n
            invariant
                i <= n,
                n == self.logs@.len(),
                out@.len() == i,
                forall|j: int| 0 <= j < i ==> out@[j]@ == self.logs@[j]@,
            decreases n - i,
        {
            out.push(self.logs[i].clone());
            i += 1;
        }
        proof {
            assert(out@.map_values(|s: String| s@) =~= self@.lines);
        }
        out
    }

    /// The immutable identity of the container this watcher collects for.
    pub fn container_name(&self) -> (r: &str)
        ensures
            r@ == self@.name,
    {
        self.container_name.as_str()
    }

    /// Whether workers may still append.
    pub fn is_active(&self) -> (r: bool)
        ensures
            r == self@.active,
    {
        self.active
    }

    /// The fixed buffer capacity.
    pub fn max_logs(&self) -> (r: usize)
        ensures
            r as nat == self@.cap,
    {
        self.max_logs
    }

    /// The id the owning manager assigned to this watcher.
    pub fn watcher_id(&self) -> (r: u64)
        ensures
            r == self@.id,
    {
        self.id
    }
}

impl Default for DockerLogManager {
    /// Same as `new`: an empty manager.
    fn default() -> (r: Self)
        ensures
            r@.watchers =~= Seq::<WatcherView>::empty(),
            r@.next_id == 1,
            r.wf(),
    {
        Self::new()
    }
}

/// The watcher after a whole sequence of lines has been delivered to it.
pub open spec fn deliver_all(w: WatcherView, incoming: Seq<Seq<char>>) -> WatcherView
    decreases incoming.len(),
{
    if incoming.len() == 0 {
        w
    } else {
        deliver_all(append_step(w, incoming[0]), incoming.drop_first())
    }
}

/// Frozen once stopped: a watcher that is no longer active ignores every
/// line that still arrives — nothing ever appears after `stop`.
pub proof fn lemma_stopped_watcher_frozen(w: WatcherView, incoming: Seq<Seq<char>>)
    requires
        !w.active,
    ensures
        deliver_all(w, incoming) == w,
    decreases incoming.len(),
{
    if incoming.len() > 0 {
        lemma_stopped_watcher_frozen(w, incoming.drop_first());
    }
}

/// An active watcher that receives a sequence of lines ends up holding
/// exactly the last `cap` of "what it had, then what arrived", in order.
pub proof fn lemma_active_watcher_collects(w: WatcherView, incoming: Seq<Seq<char>>)
    requires
        w.active,
        w.lines.len() <= w.cap,
    ensures
        deliver_all(w, incoming).lines =~= last_n(w.lines + incoming, w.cap),
        deliver_all(w, incoming).active,
        deliver_all(w, incoming).name == w.name,
        deliver_all(w, incoming).cap == w.cap,
    decreases incoming.len(),
{
    if incoming.len() == 0 {
        assert(w.lines + incoming =~= w.lines);
    } else {
        let stepped = append_step(w, incoming[0]);
        lemma_active_watcher_collects(stepped, incoming.drop_first());
        assert(stepped.lines =~= last_n(w.lines.push(incoming[0]), w.cap));
        lemma_last_n_extend(w.lines.push(incoming[0]), incoming.drop_first(), w.cap);
        assert(w.lines.push(incoming[0]) + incoming.drop_first() =~= w.lines + incoming);
    }
}

/// Stopping twice is the same as stopping once: `stop` pins the state to
/// `stopped()`, and `stopped` is a fixed point.
pub proof fn lemma_stop_idempotent(w: WatcherView)
    ensures
        w.stopped().stopped() == w.stopped(),
{
}

/// Bounded-buffer law: however many lines arrive, a watcher that began
/// within capacity ends up with exactly the last `cap` lines of
/// "what it had, then everything that arrived", in arrival order.
pub proof fn lemma_buffer_keeps_last_lines<T>(init: Seq<T>, cap: nat, incoming: Seq<T>)
    requires
        init.len() <= cap,
    ensures
        push_evict_all(init, cap, incoming) =~= last_n(init + incoming, cap),
    decreases incoming.len(),
{
    if incoming.len() == 0 {
        assert(init + incoming =~= init);
    } else {
        let first = incoming[0];
        let rest = incoming.drop_first();
        lemma_buffer_keeps_last_lines(push_evict(init, cap, first), cap, rest);
        assert(push_evict(init, cap, first) + rest =~= last_n(init.push(first), cap) + rest);
        lemma_last_n_extend(init.push(first), rest, cap);
        assert(init.push(first) + rest =~= init + incoming);
    }
}

/// Taking the last `cap` elements, appending more, and taking the last
/// `cap` again is the same as appending first and truncating once.
proof fn lemma_last_n_extend<T>(s: Seq<T>, t: Seq<T>, cap: nat)
    ensures
        last_n(last_n(s, cap) + t, cap) =~= last_n(s + t, cap),
{
    let trimmed = last_n(s, cap);
    if s.len() <= cap {
        assert(trimmed + t =~= s + t);
    } else {
        let left = trimmed + t;
        let right = s + t;
        if left.len() <= cap {
            assert(last_n(left, cap) =~= last_n(right, cap));
        } else {
            assert(last_n(left, cap) =~= last_n(right, cap));
        }
    }
}


/// Default buffer capacity for watchers created by the manager.
pub const DEFAULT_MAX_LOGS: usize = 1000;

/// The abstract state of the manager: the held watchers in creation order,
/// and the id the next watcher will receive.
pub ghost struct ManagerView {
    pub watchers: Seq<WatcherView>,
    pub next_id: u64,
}

impl ManagerView {
    /// The container identities of the held watchers, in order.
    pub open spec fn names(self) -> Seq<Seq<char>> {
        self.watchers.map_values(|w: WatcherView| w.name)
    }
}

/// The discovered container identities that get a watcher: every one that
/// is not the empty string, in discovery order.
pub open spec fn kept_names(names: Seq<Seq<char>>) -> Seq<Seq<char>> {
    names.filter(|n: Seq<char>| n.len() != 0)
}

/// What one delivered line does to a watcher: appended (with eviction)
/// while it is active, ignored once it is stopped.
pub open spec fn append_step(w: WatcherView, line: Seq<char>) -> WatcherView {
    if w.active {
        WatcherView { lines: push_evict(w.lines, w.cap, line), ..w }
    } else {
        w
    }
}

/// An empty discovery keeps no identity.
pub proof fn lemma_kept_names_empty()
    ensures
        kept_names(Seq::<Seq<char>>::empty()) =~= Seq::<Seq<char>>::empty(),
{
    reveal(Seq::filter);
}

/// Extending a discovery prefix by one identity keeps it exactly when it
/// is not empty.
proof fn lemma_kept_names_take_step(names: Seq<Seq<char>>, i: int)
    requires
        0 <= i < names.len(),
    ensures
        names[i].len() != 0 ==> kept_names(names.take(i + 1)) =~= kept_names(
            names.take(i),
        ).push(names[i]),
        names[i].len() == 0 ==> kept_names(names.take(i + 1)) =~= kept_names(names.take(i)),
{
    reveal(Seq::filter);
    assert(names.take(i + 1).drop_last() =~= names.take(i));
    assert(names.take(i + 1).last() == names[i]);
}

/// Keeps one watcher per currently running container and hands out access
/// by stable position.  Discovery itself (listing the running containers)
/// is the runner's job; its result is handed in as plain values.
pub struct DockerLogManager {
    watchers: Vec<DockerLogWatcher>,
    next_id: u64,
}

impl View for DockerLogManager {
    type V = ManagerView;

    closed spec fn view(&self) -> ManagerView {
        ManagerView {
            watchers: self.watchers@.map_values(|w: DockerLogWatcher| w@),
            next_id: self.next_id,
        }
    }
}

impl DockerLogManager {
    /// Every held watcher is well formed and started, and ids are distinct
    /// (all below the next id to be handed out).
    pub open spec fn wf(self) -> bool {
        &&& forall|i: int|
            0 <= i < self@.watchers.len() ==> (#[trigger] self@.watchers[i]).lines.len()
                <= self@.watchers[i].cap
        &&& forall|i: int|
            0 <= i < self@.watchers.len() ==> (#[trigger] self@.watchers[i]).started
        &&& forall|i: int|
            0 <= i < self@.watchers.len() ==> (#[trigger] self@.watchers[i]).id < self@.next_id
        &&& forall|i: int, j: int|
            0 <= i < j < self@.watchers.len() ==> (#[trigger] self@.watchers[i]).id != (
            #[trigger] self@.watchers[j]).id
    }

    /// An empty manager holding no watchers.
    pub fn new() -> (r: Self)
        ensures
            r@.watchers =~= Seq::<WatcherView>::empty(),
            r@.next_id == 1,
            r.wf(),
    {
        let r = Self { watchers: Vec::new(), next_id: 1 };
        assert(r@.watchers =~= Seq::<WatcherView>::empty());
        r
    }

    /// The number of held watchers.
    pub fn watcher_count(&self) -> (r: usize)
        ensures
            r == self@.watchers.len(),
    {
        self.watchers.len()
    }

    /// The watcher at `index`, or `None` when the index is out of range.
    /// Positions are stable until the next bulk start or `stop_all`.
    pub fn get_watcher(&self, index: usize) -> (r: Option<&DockerLogWatcher>)
        ensures
            match r {
                Some(w) => index < self@.watchers.len() && w@ == self@.watchers[index as int],
                None => index >= self@.watchers.len(),
            },
    {
        if index < self.watchers.len() {
            Some(&self.watchers[index])
        } else {
            None
        }
    }

    /// Whether the manager can still hand out a fresh id; practically
    /// always true, and the one precondition of starting another watcher
    /// that a caller outside the proof has to check.
    pub fn can_start_more(&self) -> (r: bool)
        ensures
            r == (self@.next_id < u64::MAX),
    {
        self.next_id < u64::MAX
    }

    /// Construct a watcher for one container with the default capacity and
    /// record the runner's launch outcome for it.  The watcher is kept only
    /// if the launch succeeded; a failed launch changes nothing and hands
    /// the error to the caller.  Succeeds exactly when `launched` is true.
    pub fn start_watching_container(&mut self, container_name: String, launched: bool) -> (r:
        Result<(), WatcherError>)
        requires
            old(self).wf(),
            old(self)@.next_id < u64::MAX,
        ensures
            final(self).wf(),
            final(self)@.next_id >= old(self)@.next_id,
            final(self)@.next_id <= old(self)@.next_id + 1,
            launched ==> r == Ok::<(), WatcherError>(()) && final(self)@.watchers =~= old(
                self,
            )@.watchers.push(
                WatcherView {
                    name: container_name@,
                    cap: DEFAULT_MAX_LOGS as nat,
                    lines: Seq::empty(),
                    active: true,
                    started: true,
                    id: old(self)@.next_id,
                },
            ),
            !launched ==> r == Err::<(), WatcherError>(WatcherError::Launch) && final(self)@ == old(
                self,
            )@,
    {
        let mut watcher = DockerLogWatcher::new(container_name, DEFAULT_MAX_LOGS);
        watcher.id = self.next_id;
        watcher.start(launched)?;
        let ghost wv = watcher@;
        let ghost prev = self@.watchers;
        self.watchers.push(watcher);
        self.next_id = self.next_id + 1;
        proof {
            assert(self@.watchers =~= prev.push(wv));
            assert forall|i: int| 0 <= i < prev.len() implies self@.watchers[i] == prev[i] by {}
        }
        Ok(())
    }

    /// Stop every held watcher, then clear the collection.  Safe on an
    /// empty manager; afterwards no watcher is held (and so none is
    /// active), and ids are never reused for later watchers.
    pub fn stop_all(&mut self)
        requires
            old(self).wf(),
        ensures
            final(self).wf(),
            final(self)@.watchers =~= Seq::<WatcherView>::empty(),
            final(self)@.next_id == old(self)@.next_id,
    {
        let n = self.watchers.len();
        let mut i: usize = 0;
        while i < n
            invariant
                i <= n,
                n == self.watchers@.len(),
                self@.next_id == old(self)@.next_id,
                forall|j: int|
                    0 <= j < n ==> ((#[trigger] self@.watchers[j]).lines.len()
                        <= self@.watchers[j].cap && self@.watchers[j].started
                        && self@.watchers[j].id < self@.next_id),
                forall|j: int, k: int|
                    0 <= j < k < n ==> (#[trigger] self@.watchers[j]).id != (
                    #[trigger] self@.watchers[k]).id,
            decreases n - i,
        {
            let ghost pre = self@.watchers;
            let mut w = self.watchers.remove(i);
            proof {
                assert(w@ == pre[i as int]);
            }
            w.stop();
            self.watchers.insert(i, w);
            proof {
                assert(self@.watchers =~= pre.update(i as int, pre[i as int].stopped()));
            }
            i += 1;
        }
        self.watchers.clear();
        assert(self@.watchers =~= Seq::<WatcherView>::empty());
    }

    /// Replace the held watchers with one per discovered container: stop
    /// and drop everything held, then create and start a watcher for each
    /// identity that is not empty, in discovery order.  `launched` reports,
    /// position by position, whether the runner brought up the log-follow
    /// subprocess for that identity.  On the first failed launch the error
    /// is handed back and later identities get no watcher.  Succeeds
    /// exactly when every kept identity launched.
    pub fn start_watching_all_containers(
        &mut self,
        container_names: Vec<String>,
        launched: Vec<bool>,
    ) -> (r: Result<(), WatcherError>)
        requires
            old(self).wf(),
            launched@.len() == container_names@.len(),
            old(self)@.next_id + container_names@.len() < u64::MAX,
        ensures
            final(self).wf(),
            r == Ok::<(), WatcherError>(()) <==> (forall|i: int|
                0 <= i < container_names@.len() && container_names@[i]@.len() != 0
                    ==> launched@[i]),
            r == Ok::<(), WatcherError>(()) ==> final(self)@.names() =~= kept_names(
                container_names@.map_values(|s: String| s@),
            ),
            r == Ok::<(), WatcherError>(()) ==> forall|i: int|
                0 <= i < final(self)@.watchers.len() ==> ((#[trigger] final(self)@.watchers[i]).active
                    && final(self)@.watchers[i].started && final(self)@.watchers[i].cap
                    == DEFAULT_MAX_LOGS as nat && final(self)@.watchers[i].lines
                    =~= Seq::<Seq<char>>::empty()),
    {
        self.stop_all();
        let ghost all_names = container_names@.map_values(|s: String| s@);
        proof {
            lemma_kept_names_empty();
            assert(all_names.take(0) =~= Seq::<Seq<char>>::empty());
        }
        let n = container_names.len();
        let mut names = container_names;
        let mut i: usize = 0;
        while i < n
            invariant
                i <= n,
                names@.len() == n - i,
                n == launched@.len(),
                n == all_names.len(),
                n == container_names@.len(),
                all_names == container_names@.map_values(|s: String| s@),
                names@.map_values(|s: String| s@) =~= all_names.skip(i as int),
                self.wf(),
                self@.next_id + (n - i) < u64::MAX,
                self@.names() =~= kept_names(all_names.take(i as int)),
                forall|j: int|
                    0 <= j < self@.watchers.len() ==> ((#[trigger] self@.watchers[j]).active
                        && self@.watchers[j].started && self@.watchers[j].cap == DEFAULT_MAX_LOGS
                        as nat && self@.watchers[j].lines =~= Seq::<Seq<char>>::empty()),
                forall|j: int| 0 <= j < i && all_names[j].len() != 0 ==> launched@[j],
            decreases n - i,
        {
            let ghost pre = names@;
            let name = names.remove(0);
            proof {
                assert(pre.map_values(|s: String| s@)[0] == name@);
                assert(all_names.skip(i as int)[0] == all_names[i as int]);
                assert(names@ =~= pre.subrange(1, pre.len() as int));
                assert forall|k: int| 0 <= k < names@.len() implies names@.map_values(
                    |s: String| s@,
                )[k] == #[trigger] all_names.skip(i as int + 1)[k] by {
                    assert(names@[k] == pre[k + 1]);
                    assert(pre.map_values(|s: String| s@)[k + 1] == all_names.skip(i as int)[k
                        + 1]);
                }
                assert(names@.map_values(|s: String| s@) =~= all_names.skip(i as int + 1));
            }
            if !name.as_str().is_empty() {
                let ok = self.start_watching_container(name, launched[i]);
                if let Err(e) = ok {
                    proof {
                        assert(container_names@[i as int]@ == all_names[i as int]);
                        assert(all_names[i as int].len() != 0);
                        assert(!launched@[i as int]);
                    }
                    return Err(e);
                }
            }
            proof {
                lemma_kept_names_take_step(all_names, i as int);
                assert(all_names.take(i as int).push(all_names[i as int]) =~= all_names.take(
                    i as int + 1,
                ));
            }
            i += 1;
        }
        proof {
            assert(all_names.take(n as int) =~= all_names);
        }
        Ok(())
    }

    /// Re-synchronize against a fresh discovery result; the same operation
    /// as `start_watching_all_containers`.
    pub fn refresh(&mut self, container_names: Vec<String>, launched: Vec<bool>) -> (r: Result<
        (),
        WatcherError,
    >)
        requires
            old(self).wf(),
            launched@.len() == container_names@.len(),
            old(self)@.next_id + container_names@.len() < u64::MAX,
        ensures
            final(self).wf(),
            r == Ok::<(), WatcherError>(()) <==> (forall|i: int|
                0 <= i < container_names@.len() && container_names@[i]@.len() != 0
                    ==> launched@[i]),
            r == Ok::<(), WatcherError>(()) ==> final(self)@.names() =~= kept_names(
                container_names@.map_values(|s: String| s@),
            ),
    {
        self.start_watching_all_containers(container_names, launched)
    }

    /// Deliver one standard-output line to the watcher that carries `id`.
    /// A worker owns only the id of the watcher it was spawned for, so a
    /// line can never land in a watcher created by a later refresh: if no
    /// held watcher carries the id (any more), nothing changes.
    pub fn append_stdout_by_id(&mut self, id: u64, line: String)
        requires
            old(self).wf(),
        ensures
            final(self).wf(),
            final(self)@.next_id == old(self)@.next_id,
            final(self)@.watchers.len() == old(self)@.watchers.len(),
            forall|j: int|
                0 <= j < old(self)@.watchers.len() && (#[trigger] old(self)@.watchers[j]).id != id
                    ==> final(self)@.watchers[j] == old(self)@.watchers[j],
            forall|j: int|
                0 <= j < old(self)@.watchers.len() && (#[trigger] old(self)@.watchers[j]).id == id
                    ==> final(self)@.watchers[j] == append_step(old(self)@.watchers[j], line@),
    {
        let n = self.watchers.len();
        let mut i: usize = 0;
        while i < n
            invariant
                i <= n,
                n == self.watchers@.len(),
                self@ == old(self)@,
                self.wf(),
                forall|j: int| 0 <= j < i ==> (#[trigger] self@.watchers[j]).id != id,
            decreases n - i,
        {
            if self.watchers[i].watcher_id() == id {
                let ghost pre = self@.watchers;
                let mut w = self.watchers.remove(i);
                proof {
                    assert(w@ == pre[i as int]);
                }
                w.append_stdout_line(line);
                self.watchers.insert(i, w);
                proof {
                    assert(self@.watchers =~= pre.update(
                        i as int,
                        append_step(pre[i as int], line@),
                    ));
                    assert forall|j: int|
                        0 <= j < pre.len() && j != i as int implies (#[trigger] pre[j]).id
                        != id by {}
                }
                return ;
            }
            i += 1;
        }
    }

    /// Deliver one standard-error line to the watcher that carries `id`.
    /// The line is tagged as an error line before it enters the buffer;
    /// as with standard output, a stale or unknown id changes nothing.
    pub fn append_stderr_by_id(&mut self, id: u64, line: String)
        requires
            old(self).wf(),
        ensures
            final(self).wf(),
            final(self)@.next_id == old(self)@.next_id,
            final(self)@.watchers.len() == old(self)@.watchers.len(),
            forall|j: int|
                0 <= j < old(self)@.watchers.len() && (#[trigger] old(self)@.watchers[j]).id != id
                    ==> final(self)@.watchers[j] == old(self)@.watchers[j],
            forall|j: int|
                0 <= j < old(self)@.watchers.len() && (#[trigger] old(self)@.watchers[j]).id == id
                    ==> final(self)@.watchers[j] == append_step(old(self)@.watchers[j], stderr_tagged(line@)),
    {
        let n = self.watchers.len();
        let mut i: usize = 0;
        while i < n
            invariant
                i <= n,
                n == self.watchers@.len(),
                self@ == old(self)@,
                self.wf(),
                forall|j: int| 0 <= j < i ==> (#[trigger] self@.watchers[j]).id != id,
            decreases n - i,
        {
            if self.watchers[i].watcher_id() == id {
                let ghost pre = self@.watchers;
                let mut w = self.watchers.remove(i);
                proof {
                    assert(w@ == pre[i as int]);
                }
                w.append_stderr_line(line);
                self.watchers.insert(i, w);
                proof {
                    assert(self@.watchers =~= pre.update(
                        i as int,
                        append_step(pre[i as int], stderr_tagged(line@)),
                    ));
                    assert forall|j: int|
                        0 <= j < pre.len() && j != i as int implies (#[trigger] pre[j]).id
                        != id by {}
                }
                return ;
            }
            i += 1;
        }
    }
}

} // verus!

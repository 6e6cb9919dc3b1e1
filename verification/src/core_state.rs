//! The background core: a bounded log of events, newest first, and a queue
//! of tool tasks that are claimed one at a time, retried a bounded number
//! of times, and end done or failed. Timestamps are RFC 3339 text and
//! payloads JSON text; the files they are kept in belong to the caller.

use vstd::prelude::*;
use crate::text::{decimal, signed_decimal, signed_decimal_string, str_eq};

verus! {

/// How many events the log keeps.
pub const MAX_EVENTS: usize = 500;

/// How many times a failed task is retried.
pub const MAX_TASK_RETRIES: u8 = 3;

/// Something that happened, for the event log.
#[derive(Debug, Clone)]
pub struct CoreEvent {
    pub id: String,
    pub timestamp: String,
    pub topic: String,
    pub level: String,
    pub message: String,
    pub payload: String,
}

/// A queued tool task; its status is `queued`, `running`, `done` or
/// `failed`.
#[derive(Debug, Clone)]
pub struct QueuedTask {
    pub id: String,
    pub timestamp: String,
    pub name: String,
    pub args: String,
    pub status: String,
    pub retries: u8,
    pub max_retries: u8,
    pub last_error: Option<String>,
}

/// The last heartbeat of the application.
#[derive(Debug, Clone)]
pub struct WatchdogState {
    pub last_heartbeat: String,
    pub app_version: String,
    pub status: String,
}

/// A recorded picture of the system.
#[derive(Debug, Clone)]
pub struct SystemSnapshot {
    pub id: String,
    pub timestamp: String,
    pub source: String,
    pub data: String,
}

/// Whether the application runs in recovery mode, and why.
#[derive(Debug, Clone)]
pub struct RecoveryState {
    pub recovery_mode: bool,
    pub reason: String,
    pub detected_at: String,
}

/// The events, newest first, and the task queue, oldest first.
#[derive(Debug)]
pub struct CoreState {
    pub events: Vec<CoreEvent>,
    pub tasks: Vec<QueuedTask>,
}

/// A task as plain values.
pub struct TaskModel {
    pub id: Seq<char>,
    pub timestamp: Seq<char>,
    pub name: Seq<char>,
    pub args: Seq<char>,
    pub status: Seq<char>,
    pub retries: u8,
    pub max_retries: u8,
    pub last_error: Option<Seq<char>>,
}

pub open spec fn opt_text(o: Option<String>) -> Option<Seq<char>> {
    match o {
        Some(s) => Some(s@),
        None => None,
    }
}

impl View for QueuedTask {
    type V = TaskModel;

    open spec fn view(&self) -> TaskModel {
        TaskModel {
            id: self.id@,
            timestamp: self.timestamp@,
            name: self.name@,
            args: self.args@,
            status: self.status@,
            retries: self.retries,
            max_retries: self.max_retries,
            last_error: opt_text(self.last_error),
        }
    }
}

/// An event as plain values: identifier, time, topic, level, message,
/// payload.
pub open spec fn event_view(e: CoreEvent) -> (Seq<char>, Seq<char>, Seq<char>, Seq<char>, Seq<char>, Seq<char>) {
    (e.id@, e.timestamp@, e.topic@, e.level@, e.message@, e.payload@)
}

pub open spec fn event_views(es: Seq<CoreEvent>) -> Seq<(Seq<char>, Seq<char>, Seq<char>, Seq<char>, Seq<char>, Seq<char>)> {
    es.map_values(|e: CoreEvent| event_view(e))
}

pub open spec fn task_views(ts: Seq<QueuedTask>) -> Seq<TaskModel> {
    ts.map_values(|t: QueuedTask| t@)
}

/// The four statuses a task can be in.
pub open spec fn known_status(s: Seq<char>) -> bool {
    s == "queued"@ || s == "running"@ || s == "done"@ || s == "failed"@
}

/// A task is sound when its status is known and it has not been retried
/// more often than allowed.
pub open spec fn task_sound(t: TaskModel) -> bool {
    known_status(t.status) && t.retries <= t.max_retries
}

pub open spec fn tasks_sound(ts: Seq<TaskModel>) -> bool {
    forall|i: int| 0 <= i < ts.len() ==> task_sound(#[trigger] ts[i])
}

fn copy_opt(o: &Option<String>) -> (r: Option<String>)
    ensures
        opt_text(r) == opt_text(*o),
{
    match o {
        Some(s) => Some(s.clone()),
        None => None,
    }
}

fn copy_task(t: &QueuedTask) -> (r: QueuedTask)
    ensures
        r@ == t@,
{
    QueuedTask {
        id: t.id.clone(),
        timestamp: t.timestamp.clone(),
        name: t.name.clone(),
        args: t.args.clone(),
        status: t.status.clone(),
        retries: t.retries,
        max_retries: t.max_retries,
        last_error: copy_opt(&t.last_error),
    }
}

fn copy_event(e: &CoreEvent) -> (r: CoreEvent)
    ensures
        event_view(r) == event_view(*e),
{
    CoreEvent {
        id: e.id.clone(),
        timestamp: e.timestamp.clone(),
        topic: e.topic.clone(),
        level: e.level.clone(),
        message: e.message.clone(),
        payload: e.payload.clone(),
    }
}

// ---------------------------------------------------------------------------
// Identifiers
// ---------------------------------------------------------------------------

/// An identifier made of a prefix and a millisecond timestamp.
pub open spec fn stamped_id_spec(prefix: Seq<char>, millis: i64) -> Seq<char> {
    prefix + signed_decimal(millis as int)
}

/// An identifier made of a prefix and a millisecond timestamp, such as
/// `evt-1700000000000`.
pub fn stamped_id(prefix: &str, millis: i64) -> (r: String)
    ensures
        r@ == stamped_id_spec(prefix@, millis),
{
    let mut out = String::from_str(prefix);
    let d = signed_decimal_string(millis);
    out.append(d.as_str());
    out
}

// ---------------------------------------------------------------------------
// Events
// ---------------------------------------------------------------------------

/// The log after an event is recorded: the event first, then the older
/// ones, keeping at most `MAX_EVENTS`.
pub open spec fn recorded_spec(event: CoreEvent, old: Seq<CoreEvent>) -> Seq<CoreEvent> {
    let all = seq![event] + old;
    if all.len() > MAX_EVENTS { all.take(MAX_EVENTS as int) } else { all }
}

/// A new event.
pub fn new_event(id: &str, timestamp: &str, topic: &str, level: &str, message: &str, payload: &str) -> (r: CoreEvent)
    ensures
        event_view(r) == (id@, timestamp@, topic@, level@, message@, payload@),
{
    CoreEvent {
        id: String::from_str(id),
        timestamp: String::from_str(timestamp),
        topic: String::from_str(topic),
        level: String::from_str(level),
        message: String::from_str(message),
        payload: String::from_str(payload),
    }
}

impl CoreState {
    /// An empty core.
    pub fn new() -> (r: Self)
        ensures
            r.events@.len() == 0,
            r.tasks@.len() == 0,
    {
        CoreState { events: Vec::new(), tasks: Vec::new() }
    }

    /// Records an event at the front of the log, dropping the oldest beyond
    /// `MAX_EVENTS`.
    pub fn record_event(&mut self, event: CoreEvent)
        ensures
            final(self).events@ == recorded_spec(event, old(self).events@),
            final(self).events@.len() <= MAX_EVENTS,
            final(self).tasks == old(self).tasks,
    {
        let ghost all = seq![event] + old(self).events@;
        self.events.insert(0, event);
        assert(self.events@ =~= all);
        while self.events.len() > MAX_EVENTS
            invariant
                self.events@.len() <= all.len(),
                self.events@ == all.take(self.events@.len() as int),
                self.events@.len() >= MAX_EVENTS || self.events@.len() == all.len(),
                all == seq![event] + old(self).events@,
                self.tasks == old(self).tasks,
            decreases self.events@.len(),
        {
            let ghost before = self.events@;
            self.events.pop();
            assert(self.events@ =~= all.take(self.events@.len() as int));
        }
        proof {
            if all.len() > MAX_EVENTS {
                assert(self.events@.len() == MAX_EVENTS);
            } else {
                assert(all.take(all.len() as int) =~= all);
            }
        }
    }

    /// The newest `limit` events.
    pub fn list_events(&self, limit: usize) -> (r: Vec<CoreEvent>)
        ensures
            event_views(r@) == event_views(self.events@).take(if limit < self.events@.len() { limit as int } else { self.events@.len() as int }),
    {
        let mut out: Vec<CoreEvent> = Vec::new();
        let mut i: usize = 0;
        while i < self.events.len() && i < limit
            invariant
                i <= self.events.len(),
                i <= limit,
                event_views(out@) == event_views(self.events@).take(i as int),
            decreases self.events.len() - i,
        {
            let ghost before = out@;
            let e = copy_event(&self.events[i]);
            out.push(e);
            assert(event_views(out@) =~= event_views(before).push(event_view(e)));
            assert(event_views(self.events@).take(i as int + 1) =~= event_views(self.events@).take(i as int).push(event_view(self.events@[i as int])));
            i += 1;
        }
        out
    }
}

// ---------------------------------------------------------------------------
// Tasks
// ---------------------------------------------------------------------------

/// A new task: queued, not yet retried, with the standard retry allowance.
pub fn new_task(id: &str, timestamp: &str, name: &str, args: &str) -> (r: QueuedTask)
    ensures
        r@ == (TaskModel {
            id: id@,
            timestamp: timestamp@,
            name: name@,
            args: args@,
            status: "queued"@,
            retries: 0,
            max_retries: MAX_TASK_RETRIES,
            last_error: None,
        }),
        task_sound(r@),
{
    QueuedTask {
        id: String::from_str(id),
        timestamp: String::from_str(timestamp),
        name: String::from_str(name),
        args: String::from_str(args),
        status: String::from_str("queued"),
        retries: 0,
        max_retries: MAX_TASK_RETRIES,
        last_error: None,
    }
}

/// The first task at or after `i` whose status is `queued`.
pub open spec fn first_queued(ts: Seq<TaskModel>, i: int) -> Option<int>
    decreases ts.len() - i,
{
    if i < 0 || i >= ts.len() {
        None
    } else if ts[i].status == "queued"@ {
        Some(i)
    } else {
        first_queued(ts, i + 1)
    }
}

/// The first task at or after `i` with identifier `id`.
pub open spec fn first_with_id(ts: Seq<TaskModel>, id: Seq<char>, i: int) -> Option<int>
    decreases ts.len() - i,
{
    if i < 0 || i >= ts.len() {
        None
    } else if ts[i].id == id {
        Some(i)
    } else {
        first_with_id(ts, id, i + 1)
    }
}

/// A task with a new status and the rest as it was.
pub open spec fn with_status(t: TaskModel, status: Seq<char>) -> TaskModel {
    TaskModel { status, ..t }
}

/// A task after its run: done when it succeeded; queued again, one retry
/// more, when it failed and may still be retried; failed otherwise. A
/// failure keeps the run's error.
pub open spec fn after_run(t: TaskModel, success: bool, error: Option<Seq<char>>) -> TaskModel {
    if success {
        TaskModel { status: "done"@, last_error: None, ..t }
    } else if t.retries < t.max_retries {
        TaskModel { status: "queued"@, retries: (t.retries + 1) as u8, last_error: error, ..t }
    } else {
        TaskModel { status: "failed"@, last_error: error, ..t }
    }
}

/// The queue after a run of the task `id` ended; unchanged when no task has
/// that identifier.
pub open spec fn finished_spec(ts: Seq<TaskModel>, id: Seq<char>, success: bool, error: Option<Seq<char>>) -> Seq<TaskModel> {
    match first_with_id(ts, id, 0) {
        Some(k) => ts.update(k, after_run(ts[k], success, error)),
        None => ts,
    }
}

/// The level and message of the event that reports a task run.
pub open spec fn run_event_spec(success: bool) -> (Seq<char>, Seq<char>) {
    if success { ("info"@, "Tarea ejecutada"@) } else { ("warn"@, "Tarea fallida/reintentada"@) }
}

/// The level and message of the event that reports a task run.
pub fn run_event_fields(success: bool) -> (r: (&'static str, &'static str))
    ensures
        (r.0@, r.1@) == run_event_spec(success),
{
    if success { ("info", "Tarea ejecutada") } else { ("warn", "Tarea fallida/reintentada") }
}

impl CoreState {
    /// Adds a task at the end of the queue.
    pub fn enqueue(&mut self, task: QueuedTask)
        ensures
            task_views(final(self).tasks@) == task_views(old(self).tasks@).push(task@),
            final(self).events == old(self).events,
    {
        let ghost before = self.tasks@;
        self.tasks.push(task);
        assert(task_views(self.tasks@) =~= task_views(before).push(task@));
    }

    /// The queue, oldest first.
    pub fn list_tasks(&self) -> (r: Vec<QueuedTask>)
        ensures
            task_views(r@) == task_views(self.tasks@),
    {
        let mut out: Vec<QueuedTask> = Vec::new();
        let mut i: usize = 0;
        while i < self.tasks.len()
            invariant
                i <= self.tasks.len(),
                task_views(out@) == task_views(self.tasks@).take(i as int),
            decreases self.tasks.len() - i,
        {
            let ghost before = out@;
            let t = copy_task(&self.tasks[i]);
            out.push(t);
            assert(task_views(out@) =~= task_views(before).push(t@));
            assert(task_views(self.tasks@).take(i as int + 1) =~= task_views(self.tasks@).take(i as int).push(self.tasks@[i as int]@));
            i += 1;
        }
        assert(task_views(self.tasks@).take(self.tasks.len() as int) =~= task_views(self.tasks@));
        out
    }

    /// Claims the oldest queued task: it becomes `running` and a copy is
    /// returned; none when nothing is queued.
    pub fn claim_next_task(&mut self) -> (r: Option<QueuedTask>)
        ensures
            match first_queued(task_views(old(self).tasks@), 0) {
                Some(k) => r matches Some(t) && t@ == with_status(task_views(old(self).tasks@)[k], "running"@)
                    && task_views(final(self).tasks@) == task_views(old(self).tasks@).update(k, t@),
                None => r is None && final(self).tasks == old(self).tasks,
            },
            final(self).events == old(self).events,
    {
        let ghost views = task_views(self.tasks@);
        let mut i: usize = 0;
        while i < self.tasks.len()
            invariant
                i <= self.tasks.len(),
                self.tasks == old(self).tasks,
                self.events == old(self).events,
                views == task_views(self.tasks@),
                first_queued(views, 0) == first_queued(views, i as int),
            decreases self.tasks.len() - i,
        {
            if str_eq(self.tasks[i].status.as_str(), "queued") {
                let mut t = copy_task(&self.tasks[i]);
                t.status = String::from_str("running");
                let ghost before = self.tasks@;
                self.tasks.set(i, copy_task(&t));
                assert(task_views(self.tasks@) =~= task_views(before).update(i as int, t@));
                return Some(t);
            }
            i += 1;
        }
        None
    }

    /// Records how a run of task `task_id` ended (the first task with that
    /// identifier); tells whether such a task was found.
    pub fn finish_task(&mut self, task_id: &str, success: bool, error: Option<String>) -> (found: bool)
        ensures
            task_views(final(self).tasks@) == finished_spec(task_views(old(self).tasks@), task_id@, success, opt_text(error)),
            found == first_with_id(task_views(old(self).tasks@), task_id@, 0) is Some,
            final(self).events == old(self).events,
    {
        let ghost views = task_views(self.tasks@);
        let mut i: usize = 0;
        while i < self.tasks.len()
            invariant
                i <= self.tasks.len(),
                self.tasks == old(self).tasks,
                self.events == old(self).events,
                views == task_views(self.tasks@),
                first_with_id(views, task_id@, 0) == first_with_id(views, task_id@, i as int),
            decreases self.tasks.len() - i,
        {
            if str_eq(self.tasks[i].id.as_str(), task_id) {
                let mut t = copy_task(&self.tasks[i]);
                if success {
                    t.status = String::from_str("done");
                    t.last_error = None;
                } else if t.retries < t.max_retries {
                    t.retries = t.retries + 1;
                    t.status = String::from_str("queued");
                    t.last_error = copy_opt(&error);
                } else {
                    t.status = String::from_str("failed");
                    t.last_error = copy_opt(&error);
                }
                let ghost before = self.tasks@;
                assert(t@ == after_run(views[i as int], success, opt_text(error)));
                self.tasks.set(i, t);
                assert(task_views(self.tasks@) =~= task_views(before).update(i as int, after_run(views[i as int], success, opt_text(error))));
                return true;
            }
            i += 1;
        }
        false
    }
}

/// Task identifiers that no two tasks share.
pub open spec fn unique_ids(ts: Seq<TaskModel>) -> bool {
    forall|i: int, j: int| 0 <= i < j < ts.len() ==> ts[i].id != ts[j].id
}

impl CoreState {
    /// One turn of the queue: claims the oldest queued task, hands the queue
    /// to `persist`, runs the task with `run` (which reports whether it
    /// succeeded and its error), records how the run ended, and hands the
    /// queue to `persist` again; nothing happens when no task is queued.
    /// Returns the task as claimed and what its run reported.
    pub fn process_queue_once<P: Fn(&CoreState), F: FnOnce(&QueuedTask) -> (bool, Option<String>)>(
        &mut self,
        persist: P,
        run: F,
    ) -> (r: Option<(QueuedTask, (bool, Option<String>))>)
        requires
            forall|s: &CoreState| #[trigger] persist.requires((s,)),
            forall|t: &QueuedTask| #[trigger] run.requires((t,)),
        ensures
            final(self).events == old(self).events,
            match first_queued(task_views(old(self).tasks@), 0) {
                None => r is None && final(self).tasks == old(self).tasks,
                Some(k) => r matches Some((t, out)) && {
                    let before = task_views(old(self).tasks@);
                    let claimed = before.update(k, with_status(before[k], "running"@));
                    &&& t@ == claimed[k]
                    &&& run.ensures((&t,), out)
                    &&& task_views(final(self).tasks@) == finished_spec(claimed, t@.id, out.0, opt_text(out.1))
                    &&& unique_ids(before) ==> task_views(final(self).tasks@)
                        == before.update(k, after_run(with_status(before[k], "running"@), out.0, opt_text(out.1)))
                },
            },
    {
        let task = match self.claim_next_task() {
            Some(t) => t,
            None => return None,
        };
        persist(&*self);
        let ghost claimed = task_views(self.tasks@);
        let out = run(&task);
        let (success, error) = (out.0, copy_opt(&out.1));
        self.finish_task(task.id.as_str(), success, error);
        assert(task_views(self.tasks@) == finished_spec(claimed, task@.id, success, opt_text(out.1)));
        persist(&*self);
        proof {
            let before = task_views(old(self).tasks@);
            lemma_first_queued_in_range(before, 0);
            let k = first_queued(before, 0)->0;
            assert(claimed == before.update(k, with_status(before[k], "running"@)));
            assert(run.ensures((&task,), out));
            if unique_ids(before) {
                lemma_queue_turn(before, success, opt_text(out.1));
            }
        }
        Some((task, out))
    }
}

/// Whether a heartbeat `age_seconds` old is stale for the threshold.
pub open spec fn heartbeat_status_spec(age_seconds: i64, threshold_seconds: i64) -> Seq<char> {
    if age_seconds > threshold_seconds { "stale"@ } else { "ok"@ }
}

/// The health of the watchdog for a heartbeat age.
pub fn heartbeat_status(age_seconds: i64, threshold_seconds: i64) -> (r: &'static str)
    ensures
        r@ == heartbeat_status_spec(age_seconds, threshold_seconds),
{
    if age_seconds > threshold_seconds { "stale" } else { "ok" }
}

/// A fresh heartbeat.
pub fn new_heartbeat(now: &str, app_version: &str) -> (r: WatchdogState)
    ensures
        r.last_heartbeat@ == now@,
        r.app_version@ == app_version@,
        r.status@ == "ok"@,
{
    WatchdogState { last_heartbeat: String::from_str(now), app_version: String::from_str(app_version), status: String::from_str("ok") }
}

/// The newest `limit` snapshots of a log kept oldest first.
pub fn newest_snapshots(rows: Vec<SystemSnapshot>, limit: usize) -> (r: Vec<SystemSnapshot>)
    ensures
        r@ == rows@.reverse().take(if limit < rows@.len() { limit as int } else { rows@.len() as int }),
{
    let mut out: Vec<SystemSnapshot> = Vec::new();
    let mut rows = rows;
    let ghost all = rows@;
    while rows.len() > 0 && out.len() < limit
        invariant
            out@.len() <= limit,
            out@.len() + rows@.len() == all.len(),
            rows@ == all.take(rows@.len() as int),
            out@ == all.reverse().take(out@.len() as int),
        decreases rows@.len(),
    {
        let ghost before = out@;
        let ghost n = rows@.len();
        let s = rows.pop().unwrap();
        out.push(s);
        assert(s == all[n - 1]);
        assert(all.reverse()[before.len() as int] == all[all.len() - 1 - before.len()]);
        assert(out@ =~= all.reverse().take(out@.len() as int));
        assert(rows@ =~= all.take(rows@.len() as int));
    }
    out
}

// ---------------------------------------------------------------------------
// Laws of the queue
// ---------------------------------------------------------------------------

/// The event log never holds more than `MAX_EVENTS` events, and the event
/// just recorded is always the first.
pub proof fn lemma_event_log_bounded(event: CoreEvent, log: Seq<CoreEvent>)
    ensures
        recorded_spec(event, log).len() <= MAX_EVENTS,
        recorded_spec(event, log)[0] == event,
        log.len() < MAX_EVENTS ==> recorded_spec(event, log).len() == log.len() + 1,
{
}

/// Finishing a run keeps every task sound: a task is never retried more
/// often than it allows, and its status stays one of the four.
pub proof fn lemma_finish_keeps_tasks_sound(ts: Seq<TaskModel>, id: Seq<char>, success: bool, error: Option<Seq<char>>)
    requires
        tasks_sound(ts),
    ensures
        tasks_sound(finished_spec(ts, id, success, error)),
{
    match first_with_id(ts, id, 0) {
        Some(k) => {
            lemma_first_with_id_in_range(ts, id, 0);
            let n = finished_spec(ts, id, success, error);
            assert forall|i: int| 0 <= i < n.len() implies task_sound(#[trigger] n[i]) by {
                if i == k {
                    assert(task_sound(ts[k]));
                } else {
                    assert(n[i] == ts[i]);
                }
            }
        },
        None => {},
    }
}

/// Claiming keeps every task sound.
pub proof fn lemma_claim_keeps_tasks_sound(ts: Seq<TaskModel>)
    requires
        tasks_sound(ts),
    ensures
        match first_queued(ts, 0) {
            Some(k) => tasks_sound(ts.update(k, with_status(ts[k], "running"@))),
            None => true,
        },
{
    match first_queued(ts, 0) {
        Some(k) => {
            lemma_first_queued_in_range(ts, 0);
            let n = ts.update(k, with_status(ts[k], "running"@));
            assert forall|i: int| 0 <= i < n.len() implies task_sound(#[trigger] n[i]) by {
                if i != k {
                    assert(n[i] == ts[i]);
                }
            }
        },
        None => {},
    }
}

/// One turn of the queue, when identifiers are unique: the oldest queued
/// task is claimed, and once its run ends it alone changes, as `after_run`
/// says (done on success; on failure queued again with one retry more while
/// it may be retried, failed otherwise, keeping the run's error); every
/// other task is as it was.
pub proof fn lemma_queue_turn(ts: Seq<TaskModel>, success: bool, error: Option<Seq<char>>)
    requires
        forall|i: int, j: int| 0 <= i < j < ts.len() ==> ts[i].id != ts[j].id,
        first_queued(ts, 0) is Some,
    ensures
        ({
            let k = first_queued(ts, 0)->0;
            let claimed = ts.update(k, with_status(ts[k], "running"@));
            &&& 0 <= k < ts.len()
            &&& ts[k].status == "queued"@
            &&& finished_spec(claimed, ts[k].id, success, error) == ts.update(k, after_run(with_status(ts[k], "running"@), success, error))
        }),
{
    lemma_first_queued_in_range(ts, 0);
    let k = first_queued(ts, 0)->0;
    let claimed = ts.update(k, with_status(ts[k], "running"@));
    lemma_first_with_id_unique(claimed, ts[k].id, k, 0);
    assert(claimed.update(k, after_run(claimed[k], success, error)) =~= ts.update(k, after_run(with_status(ts[k], "running"@), success, error)));
}

proof fn lemma_first_queued_in_range(ts: Seq<TaskModel>, i: int)
    ensures
        first_queued(ts, i) matches Some(k) ==> i <= k < ts.len() && ts[k].status == "queued"@,
    decreases ts.len() - i,
{
    if 0 <= i < ts.len() && ts[i].status != "queued"@ {
        lemma_first_queued_in_range(ts, i + 1);
    }
}

proof fn lemma_first_with_id_in_range(ts: Seq<TaskModel>, id: Seq<char>, i: int)
    ensures
        first_with_id(ts, id, i) matches Some(k) ==> i <= k < ts.len() && ts[k].id == id,
    decreases ts.len() - i,
{
    if 0 <= i < ts.len() && ts[i].id != id {
        lemma_first_with_id_in_range(ts, id, i + 1);
    }
}

proof fn lemma_first_with_id_unique(ts: Seq<TaskModel>, id: Seq<char>, k: int, i: int)
    requires
        0 <= i <= k < ts.len(),
        ts[k].id == id,
        forall|a: int| 0 <= a < ts.len() && a != k ==> ts[a].id != id,
    ensures
        first_with_id(ts, id, i) == Some(k),
    decreases k - i,
{
    if i < k {
        lemma_first_with_id_unique(ts, id, k, i + 1);
    }
}

} // verus!

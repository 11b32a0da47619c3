//! The batching of the log worker, as a state machine: the caller receives
//! from the channel and the ticker, hands each event here, and writes the
//! batches the answer names (an empty batch is nothing to write).

use vstd::prelude::*;

verus! {

/// An audit log record (an operation of an admin, a service or the system).
#[derive(Debug, Clone)]
pub struct AuditRecord {
    /// `admin`, `service` or `system`.
    pub actor_kind: String,
    pub actor_id: Option<String>,
    /// Such as `credits.adjust` or `tun.open`.
    pub action: String,
    pub target_kind: Option<String>,
    pub target_id: Option<String>,
    /// JSON text of the details.
    pub detail: Option<String>,
    pub ip: Option<String>,
    pub created_at: i64,
}

/// A record submitted to the worker.
#[derive(Debug)]
pub enum AuditCommand<U, A> {
    UsageLog(U),
    AuditLog(A),
}

/// What the worker observes: a submitted record, a tick of the flush
/// interval, or the closing of the channel (every sender dropped).
#[derive(Debug)]
pub enum WorkerEvent<U, A> {
    Command(AuditCommand<U, A>),
    Tick,
    Closed,
}

/// What to do after an event: the usage and audit batches to write (empty:
/// nothing), and whether the worker exits.
#[derive(Debug)]
pub struct WorkerAction<U, A> {
    pub flush_usage: Vec<U>,
    pub flush_audit: Vec<A>,
    pub exit: bool,
}

/// The pending records of both kinds and the batch size.
pub struct AuditWorker<U, A> {
    usage: Vec<U>,
    audit: Vec<A>,
    batch_size: usize,
}

/// The pending records after an event, the two batches to write, and
/// whether to exit: a record joins its kind's pending batch, which is
/// written as soon as it holds `batch` records; a tick writes both pending
/// batches; closing writes both and exits.
pub open spec fn worker_step<U, A>(usage: Seq<U>, audit: Seq<A>, batch: nat, e: WorkerEvent<U, A>)
    -> (Seq<U>, Seq<A>, Seq<U>, Seq<A>, bool)
{
    match e {
        WorkerEvent::Command(AuditCommand::UsageLog(u)) => {
            let p = usage.push(u);
            if p.len() >= batch { (Seq::empty(), audit, p, Seq::empty(), false) } else { (p, audit, Seq::empty(), Seq::empty(), false) }
        },
        WorkerEvent::Command(AuditCommand::AuditLog(a)) => {
            let p = audit.push(a);
            if p.len() >= batch { (usage, Seq::empty(), Seq::empty(), p, false) } else { (usage, p, Seq::empty(), Seq::empty(), false) }
        },
        WorkerEvent::Tick => (Seq::empty(), Seq::empty(), usage, audit, false),
        WorkerEvent::Closed => (Seq::empty(), Seq::empty(), usage, audit, true),
    }
}

impl<U, A> AuditWorker<U, A> {
    /// The pending usage records, oldest first.
    pub closed spec fn pending_usage(&self) -> Seq<U> {
        self.usage@
    }

    /// The pending audit records, oldest first.
    pub closed spec fn pending_audit(&self) -> Seq<A> {
        self.audit@
    }

    /// The batch size.
    pub closed spec fn batch(&self) -> nat {
        self.batch_size as nat
    }

    /// A worker with nothing pending.
    pub fn new(batch_size: usize) -> (r: Self)
        ensures
            r.pending_usage() == Seq::<U>::empty(),
            r.pending_audit() == Seq::<A>::empty(),
            r.batch() == batch_size,
    {
        AuditWorker { usage: Vec::new(), audit: Vec::new(), batch_size }
    }

    /// Handles one event.
    pub fn step(&mut self, event: WorkerEvent<U, A>) -> (r: WorkerAction<U, A>)
        ensures
            ({
                let s = worker_step(old(self).pending_usage(), old(self).pending_audit(), old(self).batch(), event);
                &&& final(self).pending_usage() == s.0
                &&& final(self).pending_audit() == s.1
                &&& r.flush_usage@ == s.2
                &&& r.flush_audit@ == s.3
                &&& r.exit == s.4
            }),
            final(self).batch() == old(self).batch(),
    {
        match event {
            WorkerEvent::Command(AuditCommand::UsageLog(u)) => {
                self.usage.push(u);
                if self.usage.len() >= self.batch_size {
                    let mut out: Vec<U> = Vec::new();
                    std::mem::swap(&mut out, &mut self.usage);
                    WorkerAction { flush_usage: out, flush_audit: Vec::new(), exit: false }
                } else {
                    WorkerAction { flush_usage: Vec::new(), flush_audit: Vec::new(), exit: false }
                }
            },
            WorkerEvent::Command(AuditCommand::AuditLog(a)) => {
                self.audit.push(a);
                if self.audit.len() >= self.batch_size {
                    let mut out: Vec<A> = Vec::new();
                    std::mem::swap(&mut out, &mut self.audit);
                    WorkerAction { flush_usage: Vec::new(), flush_audit: out, exit: false }
                } else {
                    WorkerAction { flush_usage: Vec::new(), flush_audit: Vec::new(), exit: false }
                }
            },
            WorkerEvent::Tick => {
                let mut u: Vec<U> = Vec::new();
                let mut a: Vec<A> = Vec::new();
                std::mem::swap(&mut u, &mut self.usage);
                std::mem::swap(&mut a, &mut self.audit);
                WorkerAction { flush_usage: u, flush_audit: a, exit: false }
            },
            WorkerEvent::Closed => {
                let mut u: Vec<U> = Vec::new();
                let mut a: Vec<A> = Vec::new();
                std::mem::swap(&mut u, &mut self.usage);
                std::mem::swap(&mut a, &mut self.audit);
                WorkerAction { flush_usage: u, flush_audit: a, exit: true }
            },
        }
    }
}

/// The usage records submitted by a sequence of events, in order.
pub open spec fn submitted_usage<U, A>(events: Seq<WorkerEvent<U, A>>) -> Seq<U>
    decreases events.len(),
{
    if events.len() == 0 {
        Seq::empty()
    } else {
        let rest = submitted_usage(events.drop_last());
        match events.last() {
            WorkerEvent::Command(AuditCommand::UsageLog(u)) => rest.push(u),
            _ => rest,
        }
    }
}

/// The audit records submitted by a sequence of events, in order.
pub open spec fn submitted_audit<U, A>(events: Seq<WorkerEvent<U, A>>) -> Seq<A>
    decreases events.len(),
{
    if events.len() == 0 {
        Seq::empty()
    } else {
        let rest = submitted_audit(events.drop_last());
        match events.last() {
            WorkerEvent::Command(AuditCommand::AuditLog(a)) => rest.push(a),
            _ => rest,
        }
    }
}

/// The worker after a sequence of events from an empty start: the pending
/// usage and audit records, and everything written so far of each kind (the
/// batches concatenated in order).
pub open spec fn worker_run<U, A>(batch: nat, events: Seq<WorkerEvent<U, A>>) -> (Seq<U>, Seq<A>, Seq<U>, Seq<A>)
    decreases events.len(),
{
    if events.len() == 0 {
        (Seq::empty(), Seq::empty(), Seq::empty(), Seq::empty())
    } else {
        let prev = worker_run(batch, events.drop_last());
        let s = worker_step(prev.0, prev.1, batch, events.last());
        (s.0, s.1, prev.2 + s.2, prev.3 + s.3)
    }
}

/// No record is lost, duplicated or reordered: after any sequence of
/// events, what was written followed by what is pending is exactly what was
/// submitted, for each kind.
pub proof fn lemma_worker_conserves<U, A>(batch: nat, events: Seq<WorkerEvent<U, A>>)
    ensures
        worker_run(batch, events).2 + worker_run(batch, events).0 == submitted_usage(events),
        worker_run(batch, events).3 + worker_run(batch, events).1 == submitted_audit(events),
    decreases events.len(),
{
    if events.len() == 0 {
        assert(Seq::<U>::empty() + Seq::<U>::empty() =~= Seq::<U>::empty());
        assert(Seq::<A>::empty() + Seq::<A>::empty() =~= Seq::<A>::empty());
    } else {
        let prev_events = events.drop_last();
        lemma_worker_conserves(batch, prev_events);
        let prev = worker_run(batch, prev_events);
        let s = worker_step(prev.0, prev.1, batch, events.last());
        match events.last() {
            WorkerEvent::Command(AuditCommand::UsageLog(u)) => {
                assert(prev.2 + s.2 + s.0 =~= (prev.2 + prev.0).push(u));
                assert(prev.3 + s.3 + s.1 =~= prev.3 + prev.1);
            },
            WorkerEvent::Command(AuditCommand::AuditLog(a)) => {
                assert(prev.2 + s.2 + s.0 =~= prev.2 + prev.0);
                assert(prev.3 + s.3 + s.1 =~= (prev.3 + prev.1).push(a));
            },
            _ => {
                assert(prev.2 + s.2 + s.0 =~= prev.2 + prev.0);
                assert(prev.3 + s.3 + s.1 =~= prev.3 + prev.1);
            },
        }
    }
}

/// Closing drains the worker: after a `Closed` event nothing is pending and
/// everything submitted has been written.
pub proof fn lemma_close_drains<U, A>(batch: nat, events: Seq<WorkerEvent<U, A>>)
    requires
        events.len() > 0,
        events.last() is Closed,
    ensures
        worker_run(batch, events).0.len() == 0,
        worker_run(batch, events).1.len() == 0,
        worker_run(batch, events).2 == submitted_usage(events),
        worker_run(batch, events).3 == submitted_audit(events),
{
    lemma_worker_conserves(batch, events);
    let r = worker_run(batch, events);
    assert(r.2 + r.0 =~= r.2);
    assert(r.3 + r.1 =~= r.3);
}

/// A pending batch never reaches the batch size (a positive one): it is
/// written as soon as it does.
pub proof fn lemma_pending_below_batch<U, A>(batch: nat, events: Seq<WorkerEvent<U, A>>)
    requires
        batch > 0,
    ensures
        worker_run(batch, events).0.len() < batch,
        worker_run(batch, events).1.len() < batch,
    decreases events.len(),
{
    if events.len() > 0 {
        lemma_pending_below_batch(batch, events.drop_last());
    }
}

} // verus!

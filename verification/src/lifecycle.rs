//! The sandbox lifecycle manager: the one piece of shared mutable state.
//!
//! It owns at most one isolation context per process, with start-once
//! semantics, bounded readiness polling, and idempotent teardown.  The host
//! holds a manager behind a lock, spawns the supervisor process and runs the
//! active-context query when asked to, and feeds every observation back in;
//! what each observation does to the state is decided and proved here.

use vstd::prelude::*;

use crate::backend::{
    container_start_invocation, container_stop_invocation, spec_container_start,
    spec_container_stop, Backend,
};
use crate::root::SandboxRoot;
use crate::text::dec_digits;

verus! {

/// How many active-context queries are made before readiness polling gives
/// up.
pub const RETRY_BUDGET: u64 = 10;

/// How long the host waits between two readiness queries, in milliseconds.
pub const POLL_INTERVAL_MS: u64 = 100;

/// A live isolation boundary: its unique name, whether a supervisor process
/// handle exists on the host (persistent-container backends only), the
/// readiness flag, and the readiness queries spent so far.
pub struct IsolationContext {
    pub name: String,
    pub supervised: bool,
    pub ready: bool,
    pub attempts: u64,
}

/// The mathematical shape of an isolation context, over which the lifecycle
/// transitions are stated.
pub struct ContextModel {
    pub name: Seq<char>,
    pub supervised: bool,
    pub ready: bool,
    pub attempts: int,
}

impl View for IsolationContext {
    type V = ContextModel;

    open spec fn view(&self) -> ContextModel {
        ContextModel {
            name: self.name@,
            supervised: self.supervised,
            ready: self.ready,
            attempts: self.attempts as int,
        }
    }
}

/// The name a context created from a given token gets.
pub open spec fn context_name_of(token: u64) -> Seq<char> {
    "sandbox_"@ + dec_digits(token as int)
}

/// The message readiness polling fails with; it carries the context's name.
pub open spec fn ready_failure_message(name: Seq<char>) -> Seq<char> {
    "isolation context '"@ + name + "' failed to initialize"@
}

/// What one ensure-ready request does to the manager's context: an existing
/// context, ready or still polling, is kept untouched; with none, a fresh
/// context is created, ready at once unless the backend starts a supervisor.
/// The second component says whether a supervisor start is requested.
pub open spec fn spec_ensure_begin(m: Option<ContextModel>, backend: Backend, token: u64) -> (
    Option<ContextModel>,
    bool,
) {
    match m {
        Some(c) => (Some(c), false),
        None => {
            let supervised = backend matches Backend::PersistentContainer;
            (
                Some(
                    (ContextModel {
                        name: context_name_of(token),
                        supervised,
                        ready: !supervised,
                        attempts: 0,
                    }),
                ),
                supervised,
            )
        },
    }
}

/// How one readiness poll ends.
pub enum PollOutcome {
    Ready,
    Retry,
    Fail,
}

/// What one active-context observation does to a not-yet-ready context: a
/// sighting makes it ready; otherwise one attempt is spent, and when the
/// budget is exhausted the context is dropped, so the next call retries from
/// scratch.
pub open spec fn spec_poll(c: ContextModel, observed_active: bool) -> (Option<ContextModel>, PollOutcome) {
    if observed_active {
        (
            Some(
                (ContextModel {
                    name: c.name,
                    supervised: c.supervised,
                    ready: true,
                    attempts: c.attempts,
                }),
            ),
            PollOutcome::Ready,
        )
    } else if c.attempts + 1 < RETRY_BUDGET {
        (
            Some(
                (ContextModel {
                    name: c.name,
                    supervised: c.supervised,
                    ready: c.ready,
                    attempts: c.attempts + 1,
                }),
            ),
            PollOutcome::Retry,
        )
    } else {
        (None, PollOutcome::Fail)
    }
}

/// What teardown does: the context, if any, is dropped; the second component
/// says whether a supervisor is to be killed and shut down.
pub open spec fn spec_teardown(m: Option<ContextModel>) -> (Option<ContextModel>, bool) {
    match m {
        None => (None, false),
        Some(c) => (None, c.supervised),
    }
}

/// What the manager asks of the host when readiness is requested.
pub enum ReadyAction {
    /// The context exists and is ready: nothing to do.
    AlreadyReady,
    /// A fresh context was created and needs no supervisor: ready at once.
    NowReady,
    /// A fresh context was created; the host must spawn this supervisor
    /// invocation, then poll.
    StartSupervisor { program: String, args: Vec<String> },
    /// A context exists but is not ready yet: keep polling it.
    KeepPolling,
}

/// What the manager answers to one poll observation.
pub enum PollVerdict {
    /// The context was sighted: it is ready, the command may run.
    NowReady,
    /// Not sighted yet: query again after this many milliseconds.
    RetryAfter { millis: u64 },
    /// The retry budget is exhausted: the command is not run, and this
    /// message reports the failure.
    GaveUp { message: String },
}

/// What the manager asks of the host on teardown.
pub enum TeardownAction {
    Nothing,
    /// Kill the supervisor process handle, wait for it, and run this
    /// shutdown invocation.
    StopSupervisor { program: String, args: Vec<String> },
}

/// The lifecycle manager.  Process-wide, guarded by the host's lock; owns
/// the single isolation context.
pub struct SandboxManager {
    pub backend: Backend,
    pub context: Option<IsolationContext>,
}

impl SandboxManager {
    /// The context as a model value.
    pub open spec fn model(&self) -> Option<ContextModel> {
        match self.context {
            Some(c) => Some(c@),
            None => None,
        }
    }

    /// A context is held and has reported ready.
    pub open spec fn is_ready(&self) -> bool {
        match self.context {
            Some(c) => c.ready,
            None => false,
        }
    }

    /// The manager invariant: polling never exceeds its budget, and a
    /// supervisor handle exists exactly for the persistent-container
    /// backend.
    pub open spec fn wf(&self) -> bool {
        match self.context {
            Some(c) => c.attempts < RETRY_BUDGET && (c.supervised <==> (
            self.backend matches Backend::PersistentContainer)),
            None => true,
        }
    }

    /// A manager for the chosen backend, with no context yet.
    pub fn new(backend: Backend) -> (m: SandboxManager)
        ensures
            m.backend == backend,
            m.model() is None,
            m.wf(),
    {
        SandboxManager { backend, context: None }
    }

    /// Ensures an isolation context exists, creating and naming one if
    /// needed.  Start-once: an existing context, ready or still polling, is
    /// never replaced and no second supervisor is ever requested.
    pub fn ensure_ready_begin(&mut self, token: u64, root: &SandboxRoot) -> (a: ReadyAction)
        requires
            old(self).wf(),
        ensures
            final(self).wf(),
            final(self).backend == old(self).backend,
            final(self).model() == spec_ensure_begin(
                old(self).model(),
                old(self).backend,
                token,
            ).0,
            (a matches ReadyAction::StartSupervisor { .. }) == spec_ensure_begin(
                old(self).model(),
                old(self).backend,
                token,
            ).1,
            old(self).is_ready() ==> *final(self) == *old(self) && a is AlreadyReady,
            old(self).context is Some && !old(self).is_ready() ==> *final(self) == *old(self)
                && a is KeepPolling,
            a matches ReadyAction::StartSupervisor { program, args } ==> program@
                == spec_container_start(context_name_of(token), root@).0 && args.deep_view()
                == spec_container_start(context_name_of(token), root@).1,
            old(self).context is None && !(old(self).backend matches Backend::PersistentContainer)
                ==> final(self).is_ready() && a is NowReady,
    {
        let existing_ready: Option<bool> = match &self.context {
            Some(c) => Some(c.ready),
            None => None,
        };
        match existing_ready {
            Some(true) => ReadyAction::AlreadyReady,
            Some(false) => ReadyAction::KeepPolling,
            None => {
                let mut name = String::from_str("sandbox_");
                name.append(crate::text::u64_text(token).as_str());
                match self.backend {
                    Backend::PersistentContainer => {
                        let (program, args) = container_start_invocation(name.as_str(), root);
                        self.context = Some(
                            IsolationContext { name, supervised: true, ready: false, attempts: 0 },
                        );
                        ReadyAction::StartSupervisor { program, args }
                    },
                    _ => {
                        self.context = Some(
                            IsolationContext { name, supervised: false, ready: true, attempts: 0 },
                        );
                        ReadyAction::NowReady
                    },
                }
            },
        }
    }

    /// Records that spawning the supervisor failed: the context is dropped,
    /// the manager stays in a not-ready state and the next call retries.
    pub fn note_supervisor_spawn_failed(&mut self)
        requires
            old(self).wf(),
        ensures
            final(self).wf(),
            final(self).backend == old(self).backend,
            final(self).model() is None,
            !final(self).is_ready(),
    {
        self.context = None;
    }

    /// Feeds one observation of the active-context query back in: whether
    /// the context's name appeared in the listing.
    pub fn poll_step(&mut self, observed_active: bool) -> (v: PollVerdict)
        requires
            old(self).wf(),
            old(self).context is Some,
            !old(self).is_ready(),
        ensures
            final(self).wf(),
            final(self).backend == old(self).backend,
            final(self).model() == spec_poll(old(self).context->0@, observed_active).0,
            (v is NowReady) == (spec_poll(old(self).context->0@, observed_active).1
                is Ready),
            (v matches PollVerdict::RetryAfter { .. }) == (spec_poll(
                old(self).context->0@,
                observed_active,
            ).1 is Retry),
            (v matches PollVerdict::GaveUp { .. }) == (spec_poll(
                old(self).context->0@,
                observed_active,
            ).1 is Fail),
            v is NowReady ==> final(self).is_ready(),
            v matches PollVerdict::RetryAfter { millis } ==> millis == POLL_INTERVAL_MS,
            v matches PollVerdict::GaveUp { message } ==> message@ == ready_failure_message(
                old(self).context->0@.name,
            ),
    {
        let c = self.context.take().unwrap();
        if observed_active {
            self.context = Some(
                IsolationContext {
                    name: c.name,
                    supervised: c.supervised,
                    ready: true,
                    attempts: c.attempts,
                },
            );
            PollVerdict::NowReady
        } else if c.attempts + 1 < RETRY_BUDGET {
            self.context = Some(
                IsolationContext {
                    name: c.name,
                    supervised: c.supervised,
                    ready: c.ready,
                    attempts: c.attempts + 1,
                },
            );
            PollVerdict::RetryAfter { millis: POLL_INTERVAL_MS }
        } else {
            let mut message = String::from_str("isolation context '");
            message.append(c.name.as_str());
            message.append("' failed to initialize");
            PollVerdict::GaveUp { message }
        }
    }

    /// The name of the current context, if one is held: what the host looks
    /// for in the active-context listing and hands to the join invocation.
    pub fn context_name(&self) -> (r: Option<&String>)
        ensures
            match r {
                Some(n) => self.context is Some && n@ == self.context->0@.name,
                None => self.context is None,
            },
    {
        match &self.context {
            Some(c) => Some(&c.name),
            None => None,
        }
    }

    /// Tears the isolation boundary down.  Idempotent: only a first call
    /// with a live supervised context asks the host to act; any further call
    /// changes nothing and kills nothing.
    pub fn teardown(&mut self) -> (a: TeardownAction)
        ensures
            final(self).model() is None,
            final(self).backend == old(self).backend,
            final(self).wf(),
            (a matches TeardownAction::StopSupervisor { .. }) == spec_teardown(
                old(self).model(),
            ).1,
            old(self).context is None ==> *final(self) == *old(self) && a is Nothing,
            a matches TeardownAction::StopSupervisor { program, args } ==> program@
                == spec_container_stop(old(self).context->0@.name).0 && args.deep_view()
                == spec_container_stop(old(self).context->0@.name).1,
    {
        match self.context.take() {
            None => TeardownAction::Nothing,
            Some(c) => {
                if c.supervised {
                    let (program, args) = container_stop_invocation(c.name.as_str());
                    TeardownAction::StopSupervisor { program, args }
                } else {
                    TeardownAction::Nothing
                }
            },
        }
    }
}

/// Idempotence of readiness: after one ensure-ready request, a second with
/// no intervening teardown keeps the same context and requests no second
/// supervisor — exactly one isolation context is ever created.
pub proof fn lemma_ensure_ready_idempotent(
    m: Option<ContextModel>,
    backend: Backend,
    t1: u64,
    t2: u64,
)
    ensures
        spec_ensure_begin(spec_ensure_begin(m, backend, t1).0, backend, t2).0 == spec_ensure_begin(
            m,
            backend,
            t1,
        ).0,
        !spec_ensure_begin(spec_ensure_begin(m, backend, t1).0, backend, t2).1,
{
}

/// Idempotence of teardown: a second teardown finds nothing, changes
/// nothing, and asks for no second kill.
pub proof fn lemma_teardown_idempotent(m: Option<ContextModel>)
    ensures
        spec_teardown(spec_teardown(m).0).0 is None,
        !spec_teardown(spec_teardown(m).0).1,
{
}

/// Readiness polling with every observation negative, `k` polls deep.
pub open spec fn spec_poll_run_inactive(c: ContextModel, k: nat) -> (Option<ContextModel>, PollOutcome)
    decreases k,
{
    if k <= 1 {
        spec_poll(c, false)
    } else {
        let first = spec_poll(c, false);
        if first.1 is Retry {
            spec_poll_run_inactive(first.0->0, (k - 1) as nat)
        } else {
            first
        }
    }
}

/// Exhaustion of the retry budget: when the active-context query never
/// sights the new context, polling from a fresh context spends exactly the
/// budget, never reports readiness on the way, and ends with the context
/// dropped and the run given up — so the command is not run.
pub proof fn lemma_poll_exhaustion(c: ContextModel)
    requires
        c.attempts == 0,
    ensures
        spec_poll_run_inactive(c, RETRY_BUDGET as nat).1 is Fail,
        spec_poll_run_inactive(c, RETRY_BUDGET as nat).0 is None,
        forall|k: nat| 1 <= k < RETRY_BUDGET ==> spec_poll_run_inactive(c, k).1 is Retry,
{
    lemma_poll_exhaustion_from(c, RETRY_BUDGET as nat);
}

proof fn lemma_poll_exhaustion_from(c: ContextModel, k: nat)
    requires
        k >= 1,
        c.attempts >= 0,
        c.attempts + k == RETRY_BUDGET,
    ensures
        spec_poll_run_inactive(c, k).1 is Fail,
        spec_poll_run_inactive(c, k).0 is None,
        forall|j: nat| 1 <= j < k ==> spec_poll_run_inactive(c, j).1 is Retry,
    decreases k,
{
    if k > 1 {
        let next = spec_poll(c, false).0->0;
        lemma_poll_exhaustion_from(next, (k - 1) as nat);
        assert forall|j: nat| 1 <= j < k implies spec_poll_run_inactive(c, j).1 is Retry by {
            if j > 1 {
                assert(spec_poll_run_inactive(c, j) == spec_poll_run_inactive(
                    next,
                    (j - 1) as nat,
                ));
            }
        }
    }
}

} // verus!

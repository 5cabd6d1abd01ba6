//! The bounded dispatcher: which probe to start next, when to wait, when a
//! run is over.
//!
//! The dispatcher decides and its caller acts. The caller asks for the next
//! step, starts the probe it is told to start, waits for any probe in flight
//! when told to wait, and reports each completion back.

use crate::target::{all_targets, lemma_target_at, lemma_target_count, TargetView};
use vstd::prelude::*;

verus! {

/// What the caller does next.
#[derive(Debug, Clone, Copy, PartialEq, Eq)]
pub enum Step {
    /// Start the probe of path number `path` and URL number `url`.
    Start { path: usize, url: usize },
    /// Start nothing: wait until a probe in flight completes.
    Wait,
    /// Every probe has been started and has completed.
    Finished,
}

/// An event in the life of a dispatcher.
pub enum Event {
    /// The caller asked for the next step and followed it.
    Poll,
    /// A probe in flight completed.
    Completion,
}

/// The state of a run as natural numbers.
pub struct DispatchState {
    /// Number of URLs: the size of each batch.
    pub urls: nat,
    /// Number of paths: the number of batches.
    pub paths: nat,
    /// The concurrency limit.
    pub limit: nat,
    /// The batch that is being probed; `paths` once the run is over.
    pub batch: nat,
    /// How many probes of this batch have been started.
    pub issued: nat,
    /// How many probes have been started and have not yet completed.
    pub in_flight: nat,
}

impl DispatchState {
    /// The state before anything is started. With no URL there is nothing
    /// to do, whatever the paths.
    pub open spec fn initial(urls: nat, paths: nat, limit: nat) -> DispatchState {
        DispatchState {
            urls,
            paths,
            limit,
            batch: if urls == 0 { paths } else { 0 },
            issued: 0,
            in_flight: 0,
        }
    }

    /// The states that a run passes through. The list lengths are those of
    /// lists in memory. No more probes are in flight than the limit allows,
    /// all of them belong to the current batch, and a batch whose probes
    /// have all completed is left at once.
    pub open spec fn wf(self) -> bool {
        &&& self.urls <= usize::MAX
        &&& self.paths <= usize::MAX
        &&& self.limit >= 1
        &&& self.batch <= self.paths
        &&& self.issued <= self.urls
        &&& self.in_flight <= self.limit
        &&& self.in_flight <= self.issued
        &&& self.batch == self.paths ==> self.issued == 0
        &&& self.batch < self.paths ==> self.urls > 0 && (self.issued == self.urls
            ==> self.in_flight > 0)
    }

    /// Number of targets of the run.
    pub open spec fn total(self) -> nat {
        self.urls * self.paths
    }

    /// Number of probes started so far.
    pub open spec fn started(self) -> nat {
        self.batch * self.urls + self.issued
    }

    /// Number of probes completed so far.
    pub open spec fn completed(self) -> int {
        self.started() - self.in_flight
    }

    /// Whether the run is over.
    pub open spec fn finished(self) -> bool {
        self.batch == self.paths
    }

    /// The step that the dispatcher decides on in this state.
    pub open spec fn next_step(self) -> Step {
        if self.batch == self.paths {
            Step::Finished
        } else if self.issued < self.urls && self.in_flight < self.limit {
            Step::Start { path: self.batch as usize, url: self.issued as usize }
        } else {
            Step::Wait
        }
    }

    /// The state after the step of `next_step` has been handed out.
    pub open spec fn after_next(self) -> DispatchState {
        if self.next_step() is Start {
            DispatchState {
                issued: self.issued + 1,
                in_flight: self.in_flight + 1,
                ..self
            }
        } else {
            self
        }
    }

    /// The state after one probe in flight has completed. The completion
    /// that drains a batch whose probes were all started opens the next
    /// batch. Without a probe in flight nothing changes.
    pub open spec fn after_completion(self) -> DispatchState {
        if self.in_flight == 0 {
            self
        } else if self.in_flight == 1 && self.issued == self.urls {
            DispatchState { batch: self.batch + 1, issued: 0, in_flight: 0, ..self }
        } else {
            DispatchState { in_flight: (self.in_flight - 1) as nat, ..self }
        }
    }

    /// The state after one event.
    pub open spec fn after(self, event: Event) -> DispatchState {
        match event {
            Event::Poll => self.after_next(),
            Event::Completion => self.after_completion(),
        }
    }

    /// The state after a sequence of events.
    pub open spec fn run(self, events: Seq<Event>) -> DispatchState
        decreases events.len(),
    {
        if events.len() == 0 {
            self
        } else {
            self.run(events.drop_last()).after(events.last())
        }
    }

    /// Steps and completions still to come before the run is over.
    pub open spec fn remaining(self) -> int {
        2 * self.total() - self.started() - self.completed()
    }
}

/// Decides, for one run over `urls` URLs and `paths` paths, which probe is
/// started when, with never more than `limit` probes in flight.
pub struct Dispatcher {
    urls: usize,
    paths: usize,
    limit: usize,
    batch: usize,
    issued: usize,
    in_flight: usize,
}

impl View for Dispatcher {
    type V = DispatchState;

    closed spec fn view(&self) -> DispatchState {
        DispatchState {
            urls: self.urls as nat,
            paths: self.paths as nat,
            limit: self.limit as nat,
            batch: self.batch as nat,
            issued: self.issued as nat,
            in_flight: self.in_flight as nat,
        }
    }
}

impl Dispatcher {
    #[verifier::type_invariant]
    spec fn valid(self) -> bool {
        self@.wf()
    }

    /// A dispatcher for `urls` URLs and `paths` paths. A limit of zero could
    /// never start a probe and is refused.
    pub fn new(urls: usize, paths: usize, limit: usize) -> (dispatcher: Option<Dispatcher>)
        ensures
            dispatcher is Some <==> limit >= 1,
            dispatcher matches Some(d) ==> d@ == DispatchState::initial(
                urls as nat,
                paths as nat,
                limit as nat,
            ) && d@.wf(),
    {
        if limit == 0 {
            None
        } else {
            let batch = if urls == 0 { paths } else { 0 };
            Some(Dispatcher { urls, paths, limit, batch, issued: 0, in_flight: 0 })
        }
    }

    /// Number of probes started and not yet completed.
    pub fn in_flight(&self) -> (n: usize)
        ensures
            n == self@.in_flight,
            n <= self@.limit,
    {
        proof {
            use_type_invariant(self);
        }
        self.in_flight
    }

    /// The concurrency limit.
    pub fn limit(&self) -> (n: usize)
        ensures
            n == self@.limit,
            n >= 1,
    {
        proof {
            use_type_invariant(self);
        }
        self.limit
    }

    /// Whether every probe of the run has been started and has completed.
    pub fn is_finished(&self) -> (done: bool)
        ensures
            done == self@.finished(),
    {
        self.batch == self.paths
    }

    /// Decides the next step. A probe is started only below the limit, and
    /// probes are started in the order of the target generator; once told to
    /// start one, the caller has it in flight.
    pub fn next(&mut self) -> (step: Step)
        ensures
            old(self)@.wf(),
            final(self)@.wf(),
            step == old(self)@.next_step(),
            final(self)@ == old(self)@.after_next(),
            step matches Step::Start { path, url } ==> path < old(self)@.paths && url < old(
                self,
            )@.urls && path * old(self)@.urls + url == old(self)@.started(),
            step is Wait ==> old(self)@.in_flight > 0,
            final(self)@.in_flight <= final(self)@.limit,
    {
        proof {
            use_type_invariant(&*self);
        }
        if self.batch == self.paths {
            Step::Finished
        } else if self.issued < self.urls && self.in_flight < self.limit {
            let step = Step::Start { path: self.batch, url: self.issued };
            *self = Dispatcher {
                urls: self.urls,
                paths: self.paths,
                limit: self.limit,
                batch: self.batch,
                issued: self.issued + 1,
                in_flight: self.in_flight + 1,
            };
            step
        } else {
            Step::Wait
        }
    }

    /// Records that one probe in flight has completed; says `false`, and
    /// changes nothing, when none was in flight.
    pub fn complete(&mut self) -> (accepted: bool)
        ensures
            old(self)@.wf(),
            final(self)@.wf(),
            accepted == (old(self)@.in_flight > 0),
            final(self)@ == old(self)@.after_completion(),
            final(self)@.in_flight <= final(self)@.limit,
    {
        proof {
            use_type_invariant(&*self);
        }
        if self.in_flight == 0 {
            false
        } else {
            if self.in_flight == 1 && self.issued == self.urls {
                *self = Dispatcher {
                    urls: self.urls,
                    paths: self.paths,
                    limit: self.limit,
                    batch: self.batch + 1,
                    issued: 0,
                    in_flight: 0,
                };
            } else {
                *self = Dispatcher {
                    urls: self.urls,
                    paths: self.paths,
                    limit: self.limit,
                    batch: self.batch,
                    issued: self.issued,
                    in_flight: self.in_flight - 1,
                };
            }
            true
        }
    }
}

/// A run starts in a well-formed state.
pub proof fn lemma_initial_wf(urls: nat, paths: nat, limit: nat)
    requires
        urls <= usize::MAX,
        paths <= usize::MAX,
        limit >= 1,
    ensures
        DispatchState::initial(urls, paths, limit).wf(),
{
}

/// No event leads out of the well-formed states; in particular none brings
/// more probes in flight than the limit allows.
pub proof fn lemma_event_keeps_wf(state: DispatchState, event: Event)
    requires
        state.wf(),
    ensures
        state.after(event).wf(),
        state.after(event).in_flight <= state.limit,
        state.after(event).urls == state.urls,
        state.after(event).paths == state.paths,
        state.after(event).limit == state.limit,
{
}

/// The concurrency cap: whatever the limit and however steps and
/// completions follow one another, at no point of a run are more probes in
/// flight than the limit allows.
pub proof fn lemma_cap_holds(urls: nat, paths: nat, limit: nat, events: Seq<Event>)
    requires
        urls <= usize::MAX,
        paths <= usize::MAX,
        limit >= 1,
    ensures
        DispatchState::initial(urls, paths, limit).run(events).wf(),
        DispatchState::initial(urls, paths, limit).run(events).in_flight <= limit,
        DispatchState::initial(urls, paths, limit).run(events).limit == limit,
    decreases events.len(),
{
    if events.len() > 0 {
        lemma_cap_holds(urls, paths, limit, events.drop_last());
        lemma_event_keeps_wf(
            DispatchState::initial(urls, paths, limit).run(events.drop_last()),
            events.last(),
        );
    }
}

/// Probes are started in the order of the target generator, each once: the
/// probe that is started is the one at position `started()` of the run, and
/// starting it moves that position on by one.
pub proof fn lemma_start_in_order(state: DispatchState)
    requires
        state.wf(),
        state.next_step() is Start,
    ensures
        state.started() < state.total(),
        state.next_step()->path == state.started() / state.urls,
        state.next_step()->url == state.started() % state.urls,
        state.after_next().started() == state.started() + 1,
        state.after_next().completed() == state.completed(),
{
    let n = state.urls as int;
    let b = state.batch as int;
    let i = state.issued as int;
    vstd::arithmetic::div_mod::lemma_fundamental_div_mod_converse(b * n + i, n, b, i);
    assert(b * n + i < n * (state.paths as int)) by (nonlinear_arith)
        requires
            0 <= b < state.paths,
            0 <= i < n,
    ;
}

/// Batches follow one another: when a probe is started, every probe of the
/// batches before its own has completed.
pub proof fn lemma_earlier_batches_drained(state: DispatchState)
    requires
        state.wf(),
        state.next_step() is Start,
    ensures
        state.completed() >= state.next_step()->path * state.urls,
        state.in_flight <= state.next_step()->url,
{
}

/// A run is over exactly when every target has been probed and every probe
/// has completed.
pub proof fn lemma_finished_iff_all_completed(state: DispatchState)
    requires
        state.wf(),
    ensures
        state.finished() <==> state.completed() == state.total(),
        state.finished() <==> state.remaining() == 0,
        state.remaining() >= 0,
        state.completed() <= state.started() <= state.total(),
{
    let n = state.urls as int;
    let b = state.batch as int;
    let p = state.paths as int;
    assert(b * n == n * b) by (nonlinear_arith);
    if b < p {
        assert(n * (b + 1) <= n * p) by (nonlinear_arith)
            requires
                b + 1 <= p,
                0 <= n,
        ;
        assert(n * (b + 1) == n * b + n) by (nonlinear_arith);
    }
}

/// A run that is not over goes on: either a probe is started, or one is in
/// flight and its completion is awaited. Each start and each completion
/// brings the end one step nearer, so a run of `total()` targets ends after
/// that many starts and that many completions.
pub proof fn lemma_progress(state: DispatchState)
    requires
        state.wf(),
        !state.finished(),
    ensures
        state.next_step() is Start || (state.next_step() is Wait && state.in_flight > 0),
        state.next_step() is Start ==> state.after_next().remaining() == state.remaining() - 1,
        state.in_flight > 0 ==> state.after_completion().remaining() == state.remaining() - 1,
{
    let n = state.urls as int;
    let b = state.batch as int;
    assert((b + 1) * n == b * n + n) by (nonlinear_arith);
}

/// Every target is probed once: the probe that is started in a state is the
/// target at position `started()` of what the target generator yields for
/// the two lists.
pub proof fn lemma_start_is_next_target(
    state: DispatchState,
    urls: Seq<Seq<char>>,
    paths: Seq<Seq<char>>,
)
    requires
        state.wf(),
        state.urls == urls.len(),
        state.paths == paths.len(),
        state.next_step() is Start,
    ensures
        state.started() < all_targets(urls, paths).len(),
        all_targets(urls, paths)[state.started() as int] == (TargetView {
            base_url: urls[state.next_step()->url as int],
            path: paths[state.next_step()->path as int],
        }),
{
    lemma_start_in_order(state);
    lemma_target_count(urls, paths);
    lemma_target_at(urls, paths, state.started() as int);
}

} // verus!

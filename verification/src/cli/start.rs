//! The relay pipeline: the event channel's message type and the status
//! publisher, the single consumer of the channel and the only writer to the
//! remote presence service.
//!
//! The publisher is a state machine.  The loop that owns it performs one
//! action at a time — wait for a message, call `setStatus`, sleep out a
//! rate limit — and feeds the result back in; every decision (deduplication,
//! rendering, retries, the shutdown protocol) is made and verified here.

use vstd::prelude::*;

use crate::config::RevoltStatusOptions;
use crate::revolt::RevoltAPIError;
use crate::services::{track_opt_view, TrackInfo, TrackInfoView};
use crate::text::{clone_opt_string, render_status_text, spec_rendered, str_opt_view};

verus! {

/// Arguments of the start subcommand.
#[derive(Debug)]
pub struct CommandArguments {
    /// Path of the configuration file to load, if not the default.
    pub config: Option<String>,
}

/// A message on the event channel: a classified poll result or a shutdown
/// request.  This is the only type the channel carries.
#[derive(Debug)]
pub enum ChannelData {
    /// A track event: `Some` while a track is playing, `None` when idle.
    Track(Option<TrackInfo>),
    /// Stop the pipeline; `true` asks for the original status to be
    /// restored first.
    Exit(bool),
}

/// The view of a channel message.
pub enum MessageView {
    Track(Option<TrackInfoView>),
    Exit(bool),
}

impl View for ChannelData {
    type V = MessageView;

    open spec fn view(&self) -> MessageView {
        match self {
            ChannelData::Track(t) => MessageView::Track(track_opt_view(*t)),
            ChannelData::Exit(g) => MessageView::Exit(*g),
        }
    }
}

/// What a poll observed: a track is playing, or nothing is.
#[derive(Debug)]
pub enum TrackEvent {
    Playing(TrackInfo),
    Idle,
}

/// The view of a track event.
pub enum TrackEventView {
    Playing(TrackInfoView),
    Idle,
}

impl View for TrackEvent {
    type V = TrackEventView;

    open spec fn view(&self) -> TrackEventView {
        match self {
            TrackEvent::Playing(t) => TrackEventView::Playing(t@),
            TrackEvent::Idle => TrackEventView::Idle,
        }
    }
}

/// The event an optional track classifies into.
pub open spec fn event_of_view(t: Option<TrackInfoView>) -> TrackEventView {
    match t {
        Some(x) => TrackEventView::Playing(x),
        None => TrackEventView::Idle,
    }
}

impl TrackEvent {
    /// Classify a poll result into exactly one event.
    pub fn classify(t: Option<TrackInfo>) -> (e: TrackEvent)
        ensures
            e@ == event_of_view(track_opt_view(t)),
    {
        match t {
            Some(x) => TrackEvent::Playing(x),
            None => TrackEvent::Idle,
        }
    }
}

/// Copy a track.
fn clone_track(t: &TrackInfo) -> (r: TrackInfo)
    ensures
        r@ == t@,
{
    TrackInfo { artist: t.artist.clone(), name: t.name.clone() }
}

/// Copy a track event.
fn clone_event(e: &TrackEvent) -> (r: TrackEvent)
    ensures
        r@ == e@,
{
    match e {
        TrackEvent::Playing(t) => TrackEvent::Playing(clone_track(t)),
        TrackEvent::Idle => TrackEvent::Idle,
    }
}

/// Where the publisher stands in its lifecycle.
#[derive(Debug)]
pub enum PublisherPhase {
    /// Reading channel messages.
    Running,
    /// A status update is in flight; on success `target` becomes the last
    /// observed state.
    Publishing { payload: Option<String>, target: TrackEvent },
    /// Shutting down gracefully: the original status is being restored.
    Draining { payload: Option<String> },
    /// The loop is over; `fatal` records whether a hard failure ended it.
    Terminated { fatal: bool },
}

/// The view of a publisher phase.
pub enum PublisherPhaseView {
    Running,
    Publishing { payload: Option<Seq<char>>, target: TrackEventView },
    Draining { payload: Option<Seq<char>> },
    Terminated { fatal: bool },
}

impl View for PublisherPhase {
    type V = PublisherPhaseView;

    open spec fn view(&self) -> PublisherPhaseView {
        match self {
            PublisherPhase::Running => PublisherPhaseView::Running,
            PublisherPhase::Publishing { payload, target } => PublisherPhaseView::Publishing {
                payload: str_opt_view(*payload),
                target: target@,
            },
            PublisherPhase::Draining { payload } => PublisherPhaseView::Draining {
                payload: str_opt_view(*payload),
            },
            PublisherPhase::Terminated { fatal } => PublisherPhaseView::Terminated {
                fatal: *fatal,
            },
        }
    }
}

/// The state owned by the status publisher.
#[derive(Debug)]
pub struct Publisher {
    /// Where the publisher stands.
    pub phase: PublisherPhase,
    /// The last state a publish attempt was accepted for: the
    /// deduplication key.  Unset until the first accepted publish.
    pub last_observed: Option<TrackEvent>,
    /// The remote status captured once at startup; the restore target on
    /// graceful shutdown.  `None` restores "no status".
    pub original_status: Option<String>,
    /// How status text is rendered.
    pub status: RevoltStatusOptions,
}

/// The view of the publisher state.
pub struct PublisherView {
    pub phase: PublisherPhaseView,
    pub last_observed: Option<TrackEventView>,
    pub original_status: Option<Seq<char>>,
    pub template: Seq<char>,
    pub idle: Option<Seq<char>>,
}

impl View for Publisher {
    type V = PublisherView;

    open spec fn view(&self) -> PublisherView {
        PublisherView {
            phase: self.phase@,
            last_observed: match self.last_observed {
                Some(e) => Some(e@),
                None => None,
            },
            original_status: str_opt_view(self.original_status),
            template: self.status.template@,
            idle: str_opt_view(self.status.idle),
        }
    }
}

/// What the loop driving the publisher must do next.
#[derive(Debug)]
pub enum PublisherAction {
    /// Wait for the next channel message and feed it to `on_message`.
    AwaitMessage,
    /// Call `setStatus` with the payload and feed the outcome to
    /// `on_outcome`.
    CallSetStatus { payload: Option<String> },
    /// Sleep for the reported milliseconds, retry the same `setStatus`
    /// call and feed the outcome to `on_outcome`.
    SleepThenRetry { delay_ms: u64, payload: Option<String> },
    /// The loop is over.
    Stop { fatal: bool },
}

/// The view of a publisher action.
pub enum PublisherActionView {
    AwaitMessage,
    CallSetStatus { payload: Option<Seq<char>> },
    SleepThenRetry { delay_ms: u64, payload: Option<Seq<char>> },
    Stop { fatal: bool },
}

impl View for PublisherAction {
    type V = PublisherActionView;

    open spec fn view(&self) -> PublisherActionView {
        match self {
            PublisherAction::AwaitMessage => PublisherActionView::AwaitMessage,
            PublisherAction::CallSetStatus { payload } => PublisherActionView::CallSetStatus {
                payload: str_opt_view(*payload),
            },
            PublisherAction::SleepThenRetry { delay_ms, payload } => (
            PublisherActionView::SleepThenRetry {
                delay_ms: *delay_ms,
                payload: str_opt_view(*payload),
            }),
            PublisherAction::Stop { fatal } => PublisherActionView::Stop { fatal: *fatal },
        }
    }
}

/// Whether an incoming event is a duplicate of the last observed state and
/// needs no publish: a playing event equal to the last observed playing
/// track, or an idle event while idle or before anything was observed.
pub open spec fn spec_skip(last: Option<TrackEventView>, e: TrackEventView) -> bool {
    match e {
        TrackEventView::Playing(t) => last matches Some(TrackEventView::Playing(p)) && p == t,
        TrackEventView::Idle => last is None || last matches Some(TrackEventView::Idle),
    }
}

/// The status text published for an event: the rendered template while
/// playing, the configured idle text (or no status) while idle.
pub open spec fn spec_status_for(
    template: Seq<char>,
    idle: Option<Seq<char>>,
    e: TrackEventView,
) -> Option<Seq<char>> {
    match e {
        TrackEventView::Playing(t) => Some(spec_rendered(template, t.artist, t.name)),
        TrackEventView::Idle => idle,
    }
}

/// What one channel message does to a running publisher: the next state and
/// the action the loop must take.
pub open spec fn spec_on_message(p: PublisherView, m: MessageView) -> (PublisherView,
    PublisherActionView) {
    match m {
        MessageView::Track(t) => {
            let e = event_of_view(t);
            if spec_skip(p.last_observed, e) {
                (p, PublisherActionView::AwaitMessage)
            } else {
                let payload = spec_status_for(p.template, p.idle, e);
                (
                    PublisherView {
                        phase: PublisherPhaseView::Publishing { payload, target: e },
                        last_observed: p.last_observed,
                        original_status: p.original_status,
                        template: p.template,
                        idle: p.idle,
                    },
                    PublisherActionView::CallSetStatus { payload },
                )
            }
        },
        MessageView::Exit(graceful) => {
            if graceful {
                (
                    PublisherView {
                        phase: PublisherPhaseView::Draining { payload: p.original_status },
                        last_observed: p.last_observed,
                        original_status: p.original_status,
                        template: p.template,
                        idle: p.idle,
                    },
                    PublisherActionView::CallSetStatus { payload: p.original_status },
                )
            } else {
                (
                    PublisherView {
                        phase: PublisherPhaseView::Terminated { fatal: false },
                        last_observed: p.last_observed,
                        original_status: p.original_status,
                        template: p.template,
                        idle: p.idle,
                    },
                    PublisherActionView::Stop { fatal: false },
                )
            }
        },
    }
}

/// What one `setStatus` outcome does to a publisher with a call in flight:
/// success settles the in-flight update (advancing the deduplication key,
/// or finishing the drain), a rate limit asks the loop to sleep and retry
/// the same call, and any other failure ends the loop — fatally for a
/// regular publish, quietly during a drain.
pub open spec fn spec_on_outcome(p: PublisherView, r: Result<(), RevoltAPIError>) -> (
    PublisherView,
    PublisherActionView,
) {
    match p.phase {
        PublisherPhaseView::Publishing { payload, target } => match r {
            Ok(_) => (
                PublisherView {
                    phase: PublisherPhaseView::Running,
                    last_observed: Some(target),
                    original_status: p.original_status,
                    template: p.template,
                    idle: p.idle,
                },
                PublisherActionView::AwaitMessage,
            ),
            Err(RevoltAPIError::RateLimitExceeded(d)) => (
                p,
                PublisherActionView::SleepThenRetry { delay_ms: d, payload },
            ),
            Err(_) => (
                PublisherView {
                    phase: PublisherPhaseView::Terminated { fatal: true },
                    last_observed: p.last_observed,
                    original_status: p.original_status,
                    template: p.template,
                    idle: p.idle,
                },
                PublisherActionView::Stop { fatal: true },
            ),
        },
        PublisherPhaseView::Draining { payload } => match r {
            Ok(_) => (
                PublisherView {
                    phase: PublisherPhaseView::Terminated { fatal: false },
                    last_observed: p.last_observed,
                    original_status: p.original_status,
                    template: p.template,
                    idle: p.idle,
                },
                PublisherActionView::Stop { fatal: false },
            ),
            Err(RevoltAPIError::RateLimitExceeded(d)) => (
                p,
                PublisherActionView::SleepThenRetry { delay_ms: d, payload },
            ),
            Err(_) => (
                PublisherView {
                    phase: PublisherPhaseView::Terminated { fatal: false },
                    last_observed: p.last_observed,
                    original_status: p.original_status,
                    template: p.template,
                    idle: p.idle,
                },
                PublisherActionView::Stop { fatal: false },
            ),
        },
        _ => (p, PublisherActionView::Stop { fatal: false }),
    }
}

impl Publisher {
    /// A publisher at startup: running, nothing observed yet, with the
    /// status options and the captured original status.
    pub fn new(status: RevoltStatusOptions, original_status: Option<String>) -> (p: Publisher)
        ensures
            p@ == (PublisherView {
                phase: PublisherPhaseView::Running,
                last_observed: None,
                original_status: str_opt_view(original_status),
                template: status.template@,
                idle: str_opt_view(status.idle),
            }),
    {
        Publisher { phase: PublisherPhase::Running, last_observed: None, original_status, status }
    }

    /// Whether an event is a duplicate of the last observed state.
    fn is_duplicate(&self, e: &TrackEvent) -> (r: bool)
        ensures
            r == spec_skip(self@.last_observed, e@),
    {
        match (&self.last_observed, e) {
            (Some(TrackEvent::Playing(p)), TrackEvent::Playing(t)) => *p == *t,
            (Some(TrackEvent::Idle), TrackEvent::Idle) => true,
            (None, TrackEvent::Idle) => true,
            _ => false,
        }
    }

    /// Render the status text to publish for an event.
    fn status_for(&self, e: &TrackEvent) -> (r: Option<String>)
        ensures
            str_opt_view(r) == spec_status_for(self@.template, self@.idle, e@),
    {
        match e {
            TrackEvent::Playing(t) => Some(
                render_status_text(
                    self.status.template.as_str(),
                    t.artist.as_str(),
                    t.name.as_str(),
                ),
            ),
            TrackEvent::Idle => clone_opt_string(&self.status.idle),
        }
    }

    /// Consume one channel message while running.  Duplicates are skipped;
    /// a track change starts a status update; a shutdown request starts the
    /// drain (graceful) or ends the loop at once (non-graceful).
    pub fn on_message(&mut self, m: ChannelData) -> (action: PublisherAction)
        requires
            old(self)@.phase is Running,
        ensures
            final(self)@ == spec_on_message(old(self)@, m@).0,
            action@ == spec_on_message(old(self)@, m@).1,
    {
        match m {
            ChannelData::Track(t) => {
                let e = TrackEvent::classify(t);
                if self.is_duplicate(&e) {
                    PublisherAction::AwaitMessage
                } else {
                    let payload = self.status_for(&e);
                    let sent = clone_opt_string(&payload);
                    self.phase = PublisherPhase::Publishing { payload, target: e };
                    PublisherAction::CallSetStatus { payload: sent }
                }
            },
            ChannelData::Exit(graceful) => {
                if graceful {
                    let payload = clone_opt_string(&self.original_status);
                    let sent = clone_opt_string(&payload);
                    self.phase = PublisherPhase::Draining { payload };
                    PublisherAction::CallSetStatus { payload: sent }
                } else {
                    self.phase = PublisherPhase::Terminated { fatal: false };
                    PublisherAction::Stop { fatal: false }
                }
            },
        }
    }

    /// Consume the outcome of the in-flight `setStatus` call.
    pub fn on_outcome(&mut self, r: Result<(), RevoltAPIError>) -> (action: PublisherAction)
        ensures
            final(self)@ == spec_on_outcome(old(self)@, r).0,
            action@ == spec_on_outcome(old(self)@, r).1,
    {
        let publishing: bool = match &self.phase {
            PublisherPhase::Publishing { .. } => true,
            _ => false,
        };
        let draining: bool = match &self.phase {
            PublisherPhase::Draining { .. } => true,
            _ => false,
        };
        if !publishing && !draining {
            return PublisherAction::Stop { fatal: false };
        }
        match r {
            Ok(_) => {
                if publishing {
                    let target = match &self.phase {
                        PublisherPhase::Publishing { target, .. } => clone_event(target),
                        _ => TrackEvent::Idle,
                    };
                    self.last_observed = Some(target);
                    self.phase = PublisherPhase::Running;
                    PublisherAction::AwaitMessage
                } else {
                    self.phase = PublisherPhase::Terminated { fatal: false };
                    PublisherAction::Stop { fatal: false }
                }
            },
            Err(RevoltAPIError::RateLimitExceeded(d)) => {
                let payload = match &self.phase {
                    PublisherPhase::Publishing { payload, .. } => clone_opt_string(payload),
                    PublisherPhase::Draining { payload } => clone_opt_string(payload),
                    _ => None,
                };
                PublisherAction::SleepThenRetry { delay_ms: d, payload }
            },
            Err(_) => {
                let fatal = publishing;
                self.phase = PublisherPhase::Terminated { fatal };
                PublisherAction::Stop { fatal }
            },
        }
    }
}

/// The observable trace of a publisher run: the final state, the payload of
/// every `setStatus` call made, in order, and the total time slept out on
/// rate limits.
pub struct RunTrace {
    pub state: PublisherView,
    pub calls: Seq<Option<Seq<char>>>,
    pub slept_ms: int,
}

/// The payload of the in-flight call, if one is in flight.
pub open spec fn spec_pending(ph: PublisherPhaseView) -> Option<Seq<char>> {
    match ph {
        PublisherPhaseView::Publishing { payload, .. } => payload,
        PublisherPhaseView::Draining { payload } => payload,
        _ => None,
    }
}

/// The sleep an outcome causes: the reported wait on a rate limit, none
/// otherwise.
pub open spec fn spec_sleep_of(r: Result<(), RevoltAPIError>) -> int {
    match r {
        Err(RevoltAPIError::RateLimitExceeded(d)) => d as int,
        _ => 0,
    }
}

/// Drive the publisher over scripted inputs: while running it consumes
/// channel messages in order; while a call is in flight it consumes the
/// next scripted outcome, recording the call it answers and any sleep it
/// causes.  The run ends at termination or when its script side runs dry.
pub open spec fn spec_run(
    p: PublisherView,
    msgs: Seq<MessageView>,
    outcomes: Seq<Result<(), RevoltAPIError>>,
) -> RunTrace
    decreases msgs.len() + outcomes.len(),
{
    if p.phase is Running {
        if msgs.len() == 0 {
            RunTrace { state: p, calls: Seq::empty(), slept_ms: 0 }
        } else {
            spec_run(spec_on_message(p, msgs[0]).0, msgs.drop_first(), outcomes)
        }
    } else if p.phase is Publishing || p.phase is Draining {
        if outcomes.len() == 0 {
            RunTrace { state: p, calls: Seq::empty(), slept_ms: 0 }
        } else {
            let rest = spec_run(spec_on_outcome(p, outcomes[0]).0, msgs, outcomes.drop_first());
            RunTrace {
                state: rest.state,
                calls: seq![spec_pending(p.phase)] + rest.calls,
                slept_ms: spec_sleep_of(outcomes[0]) + rest.slept_ms,
            }
        }
    } else {
        RunTrace { state: p, calls: Seq::empty(), slept_ms: 0 }
    }
}

/// The state after a publish for event `e` was accepted.
pub open spec fn spec_after_publish(p: PublisherView, e: TrackEventView) -> PublisherView {
    PublisherView {
        phase: PublisherPhaseView::Running,
        last_observed: Some(e),
        original_status: p.original_status,
        template: p.template,
        idle: p.idle,
    }
}

/// Unfolding step: a running publisher given a non-duplicate track event,
/// whose publish is accepted by the first scripted outcome, makes exactly
/// one call — the rendered status — and runs on with the event observed.
proof fn lemma_run_publish_ok(
    p: PublisherView,
    t: Option<TrackInfoView>,
    msgs: Seq<MessageView>,
    outcomes: Seq<Result<(), RevoltAPIError>>,
)
    requires
        p.phase is Running,
        msgs.len() > 0,
        msgs[0] == MessageView::Track(t),
        !spec_skip(p.last_observed, event_of_view(t)),
        outcomes.len() > 0,
        outcomes[0] == Ok::<(), RevoltAPIError>(()),
    ensures
        ({
            let rest = spec_run(
                spec_after_publish(p, event_of_view(t)),
                msgs.drop_first(),
                outcomes.drop_first(),
            );
            spec_run(p, msgs, outcomes) == (RunTrace {
                state: rest.state,
                calls: seq![spec_status_for(p.template, p.idle, event_of_view(t))] + rest.calls,
                slept_ms: rest.slept_ms,
            })
        }),
{
    let e = event_of_view(t);
    let stepped = spec_on_message(p, msgs[0]);
    assert(stepped.0.phase == (PublisherPhaseView::Publishing {
        payload: spec_status_for(p.template, p.idle, e),
        target: e,
    }));
    let settled = spec_on_outcome(stepped.0, outcomes[0]);
    assert(settled.0 == spec_after_publish(p, e));
    let rest = spec_run(settled.0, msgs.drop_first(), outcomes.drop_first());
    assert(spec_run(stepped.0, msgs.drop_first(), outcomes) == (RunTrace {
        state: rest.state,
        calls: seq![spec_pending(stepped.0.phase)] + rest.calls,
        slept_ms: spec_sleep_of(outcomes[0]) + rest.slept_ms,
    }));
    assert(spec_run(p, msgs, outcomes) == spec_run(stepped.0, msgs.drop_first(), outcomes));
}

/// Unfolding step: a rate-limited outcome answers one call, sleeps out the
/// reported wait and leaves the publisher ready to retry the same call.
proof fn lemma_run_rate_limited(
    p: PublisherView,
    d: u64,
    msgs: Seq<MessageView>,
    outcomes: Seq<Result<(), RevoltAPIError>>,
)
    requires
        p.phase is Publishing || p.phase is Draining,
        outcomes.len() > 0,
        outcomes[0] == Err::<(), RevoltAPIError>(RevoltAPIError::RateLimitExceeded(d)),
    ensures
        ({
            let rest = spec_run(p, msgs, outcomes.drop_first());
            spec_run(p, msgs, outcomes) == (RunTrace {
                state: rest.state,
                calls: seq![spec_pending(p.phase)] + rest.calls,
                slept_ms: d + rest.slept_ms,
            })
        }),
{
    let settled = spec_on_outcome(p, outcomes[0]);
    assert(settled.0 == p);
}

/// Repeating the already observed playing track publishes nothing: every
/// such message is skipped and the state never changes.
proof fn lemma_repeat_playing_no_calls(
    p: PublisherView,
    t: TrackInfoView,
    msgs: Seq<MessageView>,
    outcomes: Seq<Result<(), RevoltAPIError>>,
)
    requires
        p.phase is Running,
        p.last_observed == Some(TrackEventView::Playing(t)),
        forall|i: int| 0 <= i < msgs.len() ==> msgs[i] == MessageView::Track(Some(t)),
    ensures
        spec_run(p, msgs, outcomes).calls.len() == 0,
        spec_run(p, msgs, outcomes).state == p,
    decreases msgs.len(),
{
    if msgs.len() > 0 {
        assert(spec_skip(p.last_observed, event_of_view(Some(t))));
        assert(spec_on_message(p, msgs[0]).0 == p);
        lemma_repeat_playing_no_calls(p, t, msgs.drop_first(), outcomes);
    }
}

/// Idempotence under repetition: across any sequence of identical
/// `Playing(track)` events, with every accepted outcome a success, at most
/// one `setStatus` call is made.
pub proof fn lemma_idempotence_under_repetition(
    p: PublisherView,
    t: TrackInfoView,
    msgs: Seq<MessageView>,
    outcomes: Seq<Result<(), RevoltAPIError>>,
)
    requires
        p.phase is Running,
        forall|i: int| 0 <= i < msgs.len() ==> msgs[i] == MessageView::Track(Some(t)),
        forall|i: int| 0 <= i < outcomes.len() ==> outcomes[i] == Ok::<(), RevoltAPIError>(()),
    ensures
        spec_run(p, msgs, outcomes).calls.len() <= 1,
{
    if msgs.len() == 0 {
    } else if spec_skip(p.last_observed, event_of_view(Some(t))) {
        let q = p.last_observed->0;
        assert(q == TrackEventView::Playing(t));
        lemma_repeat_playing_no_calls(p, t, msgs, outcomes);
    } else {
        let stepped = spec_on_message(p, msgs[0]);
        assert(spec_run(p, msgs, outcomes) == spec_run(stepped.0, msgs.drop_first(), outcomes));
        if outcomes.len() == 0 {
            assert(spec_run(stepped.0, msgs.drop_first(), outcomes).calls.len() == 0);
        } else {
            lemma_run_publish_ok(p, Some(t), msgs, outcomes);
            let after = spec_after_publish(p, event_of_view(Some(t)));
            assert(forall|i: int|
                0 <= i < msgs.drop_first().len() ==> msgs.drop_first()[i] == MessageView::Track(
                    Some(t),
                ));
            lemma_repeat_playing_no_calls(after, t, msgs.drop_first(), outcomes.drop_first());
        }
    }
}

/// Deduplication across a transition: from a fresh publisher, `Playing(A)`
/// then `Playing(B)` with `A != B`, both accepted, makes exactly two
/// `setStatus` calls, in order: A's rendered status, then B's.
pub proof fn lemma_dedup_transition(
    p: PublisherView,
    a: TrackInfoView,
    b: TrackInfoView,
    msgs: Seq<MessageView>,
    outcomes: Seq<Result<(), RevoltAPIError>>,
)
    requires
        p.phase is Running,
        p.last_observed is None,
        a != b,
        msgs =~= seq![
            MessageView::Track(Some(a)),
            MessageView::Track(Some(b)),
        ],
        outcomes =~= seq![Ok::<(), RevoltAPIError>(()), Ok::<(), RevoltAPIError>(())],
    ensures
        spec_run(p, msgs, outcomes).calls =~= seq![
            Some(spec_rendered(p.template, a.artist, a.name)),
            Some(spec_rendered(p.template, b.artist, b.name)),
        ],
        spec_run(p, msgs, outcomes).state.last_observed == Some(TrackEventView::Playing(b)),
{
    lemma_run_publish_ok(p, Some(a), msgs, outcomes);
    let p1 = spec_after_publish(p, event_of_view(Some(a)));
    let msgs1 = msgs.drop_first();
    let outs1 = outcomes.drop_first();
    assert(msgs1 =~= seq![MessageView::Track(Some(b))]);
    assert(outs1 =~= seq![Ok::<(), RevoltAPIError>(())]);
    assert(!spec_skip(p1.last_observed, event_of_view(Some(b))));
    lemma_run_publish_ok(p1, Some(b), msgs1, outs1);
    let p2 = spec_after_publish(p1, event_of_view(Some(b)));
    assert(msgs1.drop_first() =~= Seq::<MessageView>::empty());
    assert(spec_run(p2, msgs1.drop_first(), outs1.drop_first()).calls =~= Seq::<
        Option<Seq<char>>,
    >::empty());
}

/// The idle round trip: from a fresh publisher, `Playing(A)`, `Idle`,
/// `Playing(A)` — all accepted — makes three distinct `setStatus` calls:
/// A's status, the idle text, A's status again.  The final `Playing(A)` is
/// not suppressed, because the intervening `Idle` reset the deduplication
/// key.
pub proof fn lemma_idle_round_trip(
    p: PublisherView,
    a: TrackInfoView,
    msgs: Seq<MessageView>,
    outcomes: Seq<Result<(), RevoltAPIError>>,
)
    requires
        p.phase is Running,
        p.last_observed is None,
        msgs =~= seq![
            MessageView::Track(Some(a)),
            MessageView::Track(None),
            MessageView::Track(Some(a)),
        ],
        outcomes =~= seq![
            Ok::<(), RevoltAPIError>(()),
            Ok::<(), RevoltAPIError>(()),
            Ok::<(), RevoltAPIError>(()),
        ],
    ensures
        spec_run(p, msgs, outcomes).calls =~= seq![
            Some(spec_rendered(p.template, a.artist, a.name)),
            p.idle,
            Some(spec_rendered(p.template, a.artist, a.name)),
        ],
{
    lemma_run_publish_ok(p, Some(a), msgs, outcomes);
    let p1 = spec_after_publish(p, event_of_view(Some(a)));
    let msgs1 = msgs.drop_first();
    let outs1 = outcomes.drop_first();
    assert(msgs1[0] == MessageView::Track(None::<TrackInfoView>));
    assert(!spec_skip(p1.last_observed, event_of_view(None::<TrackInfoView>)));
    lemma_run_publish_ok(p1, None::<TrackInfoView>, msgs1, outs1);
    let p2 = spec_after_publish(p1, event_of_view(None::<TrackInfoView>));
    let msgs2 = msgs1.drop_first();
    let outs2 = outs1.drop_first();
    assert(msgs2[0] == MessageView::Track(Some(a)));
    assert(!spec_skip(p2.last_observed, event_of_view(Some(a))));
    lemma_run_publish_ok(p2, Some(a), msgs2, outs2);
    let p3 = spec_after_publish(p2, event_of_view(Some(a)));
    assert(msgs2.drop_first() =~= Seq::<MessageView>::empty());
    assert(spec_run(p3, msgs2.drop_first(), outs2.drop_first()).calls =~= Seq::<
        Option<Seq<char>>,
    >::empty());
}

/// Rate-limit retry: a publish rate-limited twice (waits of 100 ms and
/// 50 ms) and then accepted makes exactly three underlying `setStatus`
/// calls, all with the same rendered status, sleeps out at least 150 ms in
/// total, and only then records the track as observed.
pub proof fn lemma_rate_limit_retry(
    p: PublisherView,
    a: TrackInfoView,
    msgs: Seq<MessageView>,
    outcomes: Seq<Result<(), RevoltAPIError>>,
)
    requires
        p.phase is Running,
        p.last_observed is None,
        msgs =~= seq![MessageView::Track(Some(a))],
        outcomes =~= seq![
            Err::<(), RevoltAPIError>(RevoltAPIError::RateLimitExceeded(100)),
            Err::<(), RevoltAPIError>(RevoltAPIError::RateLimitExceeded(50)),
            Ok::<(), RevoltAPIError>(()),
        ],
    ensures
        spec_run(p, msgs, outcomes).calls =~= seq![
            Some(spec_rendered(p.template, a.artist, a.name)),
            Some(spec_rendered(p.template, a.artist, a.name)),
            Some(spec_rendered(p.template, a.artist, a.name)),
        ],
        spec_run(p, msgs, outcomes).slept_ms >= 150,
        spec_run(p, msgs, outcomes).state.last_observed == Some(TrackEventView::Playing(a)),
{
    let e = event_of_view(Some(a));
    assert(!spec_skip(p.last_observed, e));
    let stepped = spec_on_message(p, msgs[0]);
    let pay = spec_status_for(p.template, p.idle, e);
    assert(stepped.0.phase == (PublisherPhaseView::Publishing { payload: pay, target: e }));
    assert(spec_run(p, msgs, outcomes) == spec_run(stepped.0, msgs.drop_first(), outcomes));
    lemma_run_rate_limited(stepped.0, 100, msgs.drop_first(), outcomes);
    let outs1 = outcomes.drop_first();
    assert(outs1 =~= seq![
        Err::<(), RevoltAPIError>(RevoltAPIError::RateLimitExceeded(50)),
        Ok::<(), RevoltAPIError>(()),
    ]);
    lemma_run_rate_limited(stepped.0, 50, msgs.drop_first(), outs1);
    let outs2 = outs1.drop_first();
    assert(outs2 =~= seq![Ok::<(), RevoltAPIError>(())]);
    let settled = spec_on_outcome(stepped.0, outs2[0]);
    assert(settled.0 == spec_after_publish(p, e));
    let rest = spec_run(settled.0, msgs.drop_first(), outs2.drop_first());
    assert(msgs.drop_first() =~= Seq::<MessageView>::empty());
    assert(rest.calls =~= Seq::<Option<Seq<char>>>::empty());
    assert(spec_run(stepped.0, msgs.drop_first(), outs2).calls =~= seq![pay] + rest.calls);
}

/// Graceful shutdown reverts: from a fresh publisher whose captured
/// original status is `orig`, processing `Playing(A)` and then a graceful
/// shutdown — both accepted — ends the loop cleanly with the final
/// `setStatus` call restoring `orig`.
pub proof fn lemma_graceful_shutdown_reverts(
    p: PublisherView,
    a: TrackInfoView,
    msgs: Seq<MessageView>,
    outcomes: Seq<Result<(), RevoltAPIError>>,
)
    requires
        p.phase is Running,
        p.last_observed is None,
        msgs =~= seq![MessageView::Track(Some(a)), MessageView::Exit(true)],
        outcomes =~= seq![Ok::<(), RevoltAPIError>(()), Ok::<(), RevoltAPIError>(())],
    ensures
        spec_run(p, msgs, outcomes).calls =~= seq![
            Some(spec_rendered(p.template, a.artist, a.name)),
            p.original_status,
        ],
        spec_run(p, msgs, outcomes).state.phase == (PublisherPhaseView::Terminated {
            fatal: false,
        }),
{
    lemma_run_publish_ok(p, Some(a), msgs, outcomes);
    let p1 = spec_after_publish(p, event_of_view(Some(a)));
    let msgs1 = msgs.drop_first();
    let outs1 = outcomes.drop_first();
    assert(msgs1 =~= seq![MessageView::Exit(true)]);
    assert(outs1 =~= seq![Ok::<(), RevoltAPIError>(())]);
    let stepped = spec_on_message(p1, msgs1[0]);
    assert(stepped.0.phase == (PublisherPhaseView::Draining { payload: p.original_status }));
    assert(spec_run(p1, msgs1, outs1) == spec_run(stepped.0, msgs1.drop_first(), outs1));
    let settled = spec_on_outcome(stepped.0, outs1[0]);
    assert(settled.0.phase == (PublisherPhaseView::Terminated { fatal: false }));
    let rest = spec_run(settled.0, msgs1.drop_first(), outs1.drop_first());
    assert(rest.calls =~= Seq::<Option<Seq<char>>>::empty());
    assert(spec_run(stepped.0, msgs1.drop_first(), outs1).calls =~= seq![p.original_status]
        + rest.calls);
}

/// Non-graceful shutdown: however the publisher ran so far, a
/// non-graceful shutdown request terminates the loop at once, with no
/// further `setStatus` call — whatever messages follow.
pub proof fn lemma_non_graceful_shutdown(
    p: PublisherView,
    msgs: Seq<MessageView>,
    outcomes: Seq<Result<(), RevoltAPIError>>,
)
    requires
        p.phase is Running,
        msgs.len() > 0,
        msgs[0] == MessageView::Exit(false),
    ensures
        spec_run(p, msgs, outcomes).calls.len() == 0,
        spec_run(p, msgs, outcomes).state.phase == (PublisherPhaseView::Terminated {
            fatal: false,
        }),
{
    let stepped = spec_on_message(p, msgs[0]);
    assert(stepped.0.phase == (PublisherPhaseView::Terminated { fatal: false }));
    assert(spec_run(p, msgs, outcomes) == spec_run(stepped.0, msgs.drop_first(), outcomes));
}

} // verus!

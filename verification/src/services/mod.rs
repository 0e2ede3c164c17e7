//! Listening-activity services: the track value they report, and the
//! classification of poll results that drives the polling loop.

pub mod lastfm;
pub mod listenbrainz;

use vstd::prelude::*;

use crate::cli::start::{ChannelData, MessageView};

verus! {

/// The currently playing track as reported by a service.  Equality is
/// structural: artist and name both match.
#[derive(Debug, Clone)]
pub struct TrackInfo {
    pub artist: String,
    pub name: String,
}

/// The characters of a track's fields.
pub struct TrackInfoView {
    pub artist: Seq<char>,
    pub name: Seq<char>,
}

impl View for TrackInfo {
    type V = TrackInfoView;

    open spec fn view(&self) -> TrackInfoView {
        TrackInfoView { artist: self.artist@, name: self.name@ }
    }
}

impl vstd::std_specs::cmp::PartialEqSpecImpl for TrackInfo {
    open spec fn obeys_eq_spec() -> bool {
        true
    }

    open spec fn eq_spec(&self, other: &TrackInfo) -> bool {
        self@ == other@
    }
}

impl PartialEq for TrackInfo {
    fn eq(&self, other: &TrackInfo) -> (r: bool) {
        self.artist == other.artist && self.name == other.name
    }
}

/// The view of an optional track.
pub open spec fn track_opt_view(t: Option<TrackInfo>) -> Option<TrackInfoView> {
    match t {
        Some(x) => Some(x@),
        None => None,
    }
}

/// Classified outcome of one poll of the track source.
#[derive(Debug)]
pub enum PollOutcome {
    /// The poll succeeded and reported whether a track is playing.
    Success(Option<TrackInfo>),
    /// A transient failure (network trouble, rate limit, temporary upstream
    /// outage): nothing is emitted and polling continues.
    Transient,
    /// A fatal failure (invalid credentials, malformed configuration):
    /// polling stops after requesting a non-reverting shutdown.
    Fatal,
}

/// The view of a poll outcome.
pub enum PollOutcomeView {
    Success(Option<TrackInfoView>),
    Transient,
    Fatal,
}

impl View for PollOutcome {
    type V = PollOutcomeView;

    open spec fn view(&self) -> PollOutcomeView {
        match self {
            PollOutcome::Success(t) => PollOutcomeView::Success(track_opt_view(*t)),
            PollOutcome::Transient => PollOutcomeView::Transient,
            PollOutcome::Fatal => PollOutcomeView::Fatal,
        }
    }
}

/// The polling loop's state: whether it keeps polling.
#[derive(Debug, Clone, Copy, PartialEq, Eq, Structural)]
pub struct Poller {
    pub stopped: bool,
}

impl Poller {
    /// What one classified poll outcome does to the poller: the next poller
    /// state and the message to place on the channel, if any.
    pub open spec fn spec_on_poll(self, outcome: PollOutcomeView) -> (Poller, Option<MessageView>) {
        match outcome {
            PollOutcomeView::Success(t) => (self, Some(MessageView::Track(t))),
            PollOutcomeView::Transient => (self, None),
            PollOutcomeView::Fatal => (
                Poller { stopped: true },
                Some(MessageView::Exit(false)),
            ),
        }
    }

    /// A poller that is still polling.
    pub fn new() -> (r: Poller)
        ensures
            !r.stopped,
    {
        Poller { stopped: false }
    }

    /// Process one classified poll outcome.  A success emits the track
    /// event, a transient failure emits nothing, and a fatal failure emits
    /// one non-reverting shutdown event and stops the poller for good.
    pub fn on_poll(&mut self, outcome: PollOutcome) -> (emit: Option<ChannelData>)
        requires
            !old(self).stopped,
        ensures
            *final(self) == old(self).spec_on_poll(outcome@).0,
            msg_opt_view(emit) == old(self).spec_on_poll(outcome@).1,
    {
        match outcome {
            PollOutcome::Success(t) => Some(ChannelData::Track(t)),
            PollOutcome::Transient => None,
            PollOutcome::Fatal => {
                self.stopped = true;
                Some(ChannelData::Exit(false))
            },
        }
    }
}

/// The view of an optional channel message.
pub open spec fn msg_opt_view(m: Option<ChannelData>) -> Option<MessageView> {
    match m {
        Some(x) => Some(x@),
        None => None,
    }
}

/// What a whole run of the polling loop emits: the poller folds the
/// classified outcomes in order, stopping for good once one is fatal.
pub open spec fn spec_poll_run(p: Poller, outcomes: Seq<PollOutcomeView>) -> (Poller, Seq<
    MessageView,
>)
    decreases outcomes.len(),
{
    if p.stopped || outcomes.len() == 0 {
        (p, Seq::empty())
    } else {
        let stepped = p.spec_on_poll(outcomes[0]);
        let rest = spec_poll_run(stepped.0, outcomes.drop_first());
        match stepped.1 {
            Some(m) => (rest.0, seq![m] + rest.1),
            None => (rest.0, rest.1),
        }
    }
}

/// A fatal poll result halts polling: when the first fatal outcome appears,
/// the run stops with the poller stopped, exactly one shutdown event is
/// emitted — a non-reverting one, as the last message — and every earlier
/// message is a track event.
pub proof fn lemma_fatal_poll_halts(p: Poller, outcomes: Seq<PollOutcomeView>, k: int)
    requires
        !p.stopped,
        0 <= k < outcomes.len(),
        outcomes[k] is Fatal,
        forall|i: int| 0 <= i < k ==> !((#[trigger] outcomes[i]) is Fatal),
    ensures
        spec_poll_run(p, outcomes).0.stopped,
        spec_poll_run(p, outcomes).1.len() >= 1,
        spec_poll_run(p, outcomes).1.last() == MessageView::Exit(false),
        forall|j: int|
            0 <= j < spec_poll_run(p, outcomes).1.len() - 1 ==> (#[trigger] spec_poll_run(
                p,
                outcomes,
            ).1[j]) matches MessageView::Track(_),
    decreases k,
{
    let stepped = p.spec_on_poll(outcomes[0]);
    if k == 0 {
        assert(stepped.0.stopped);
        assert(spec_poll_run(stepped.0, outcomes.drop_first()).1 =~= Seq::<MessageView>::empty());
        assert(spec_poll_run(p, outcomes).1 =~= seq![MessageView::Exit(false)]);
    } else {
        let rest = outcomes.drop_first();
        assert(!(outcomes[0] is Fatal));
        assert(stepped.0 == p);
        assert(rest[k - 1] is Fatal);
        assert(forall|i: int| 0 <= i < k - 1 ==> !((#[trigger] rest[i]) is Fatal));
        lemma_fatal_poll_halts(p, rest, k - 1);
        let tail = spec_poll_run(p, rest);
        match stepped.1 {
            Some(m) => {
                assert(m matches MessageView::Track(_));
                assert(spec_poll_run(p, outcomes).1 == seq![m] + tail.1);
                assert((seq![m] + tail.1).last() == tail.1.last());
            },
            None => {
                assert(spec_poll_run(p, outcomes).1 == tail.1);
            },
        }
    }
}

} // verus!

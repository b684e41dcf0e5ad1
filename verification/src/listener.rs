//! The wait for the event that reports a job as finished.
//!
//! The listener does not read the stream itself. Its user opens the stream,
//! reads it item by item, and tells the listener what came; the listener says
//! whether to go on.

use vstd::prelude::*;
use crate::error::ClientError;
use crate::event::{decode_event, event_of_text, StreamEvent, StreamEventView};

verus! {

/// What the stream handed over.
#[derive(Clone, Debug, PartialEq, Eq)]
pub enum StreamSignal {
    /// The connection is open.
    Opened,
    /// A text frame, with its payload.
    Text(String),
    /// A frame that is not text.
    Other,
    /// The stream has ended or has failed; before the connection was open,
    /// the attempt to open it has failed.
    Closed,
    /// Nothing came within the bound on the wait.
    TimedOut,
}

/// What a [`StreamSignal`] holds, as plain values.
pub enum StreamSignalView {
    Opened,
    Text(Seq<char>),
    Other,
    Closed,
    TimedOut,
}

impl View for StreamSignal {
    type V = StreamSignalView;

    open spec fn view(&self) -> StreamSignalView {
        match *self {
            StreamSignal::Opened => StreamSignalView::Opened,
            StreamSignal::Text(text) => StreamSignalView::Text(text@),
            StreamSignal::Other => StreamSignalView::Other,
            StreamSignal::Closed => StreamSignalView::Closed,
            StreamSignal::TimedOut => StreamSignalView::TimedOut,
        }
    }
}

/// What the listener makes of a signal: a text frame is read as the event it
/// holds, or as noise where it holds none.
#[derive(Clone, Debug, PartialEq, Eq)]
pub enum Observation {
    /// The connection is open.
    Opened,
    /// A text frame that holds an event.
    Event(StreamEvent),
    /// A frame that holds no event: it is not text, or its text is no event.
    Noise,
    /// The stream has ended or has failed.
    Closed,
    /// Nothing came within the bound on the wait.
    TimedOut,
}

/// What an [`Observation`] holds, as plain values.
pub enum ObservationView {
    Opened,
    Event(StreamEventView),
    Noise,
    Closed,
    TimedOut,
}

impl View for Observation {
    type V = ObservationView;

    open spec fn view(&self) -> ObservationView {
        match *self {
            Observation::Opened => ObservationView::Opened,
            Observation::Event(event) => ObservationView::Event(event@),
            Observation::Noise => ObservationView::Noise,
            Observation::Closed => ObservationView::Closed,
            Observation::TimedOut => ObservationView::TimedOut,
        }
    }
}

/// What the listener makes of a signal.
pub open spec fn observation_of(signal: StreamSignalView) -> ObservationView {
    match signal {
        StreamSignalView::Opened => ObservationView::Opened,
        StreamSignalView::Text(text) => match event_of_text(text) {
            Some(event) => ObservationView::Event(event),
            None => ObservationView::Noise,
        },
        StreamSignalView::Other => ObservationView::Noise,
        StreamSignalView::Closed => ObservationView::Closed,
        StreamSignalView::TimedOut => ObservationView::TimedOut,
    }
}

/// Reads a signal: decodes the text of a text frame.
pub fn observe(signal: &StreamSignal) -> (r: Observation)
    ensures
        r@ == observation_of(signal@),
{
    match signal {
        StreamSignal::Opened => Observation::Opened,
        StreamSignal::Text(text) => match decode_event(text.as_str()) {
            Some(event) => Observation::Event(event),
            None => Observation::Noise,
        },
        StreamSignal::Other => Observation::Noise,
        StreamSignal::Closed => Observation::Closed,
        StreamSignal::TimedOut => Observation::TimedOut,
    }
}

/// Where the wait stands.
#[derive(Clone, Copy, Debug, PartialEq, Eq, Structural)]
pub enum ListenerState {
    /// The stream is being opened.
    Connecting,
    /// The stream is open and the job has not been reported as finished.
    Listening,
    /// The job has been reported as finished.
    Completed,
    /// The wait has ended without that report.
    Failed(ClientError),
}

impl ListenerState {
    /// Whether the wait is over.
    pub open spec fn is_terminal(self) -> bool {
        self is Completed || self is Failed
    }
}

/// Whether an observation leaves a listener that waits for `job_id` waiting:
/// it is noise, an event that does not report that job as finished, or a
/// repeated report that the connection is open.
pub open spec fn is_unrelated(seen: ObservationView, job_id: Seq<char>) -> bool {
    match seen {
        ObservationView::Opened => true,
        ObservationView::Noise => true,
        ObservationView::Event(event) => !event.completes(job_id),
        ObservationView::Closed => false,
        ObservationView::TimedOut => false,
    }
}

/// Whether an observation is the report that `job_id` has finished.
pub open spec fn is_completion(seen: ObservationView, job_id: Seq<char>) -> bool {
    seen matches ObservationView::Event(event) && event.completes(job_id)
}

/// The state in which an observation leaves a listener that waits for
/// `job_id`.
///
/// While connecting, the listener waits for the connection: it moves on when
/// it is open, fails with [`ClientError::Transport`] when it could not be
/// opened and with [`ClientError::Timeout`] when that took too long, and
/// ignores everything else. While listening, it ends with success on the
/// report that the job has finished, fails with [`ClientError::StreamClosed`]
/// when the stream ends and with [`ClientError::Timeout`] when the wait took
/// too long, and ignores everything else. Once the wait is over, nothing
/// changes the state.
pub open spec fn next_state(state: ListenerState, job_id: Seq<char>, seen: ObservationView)
    -> ListenerState {
    match state {
        ListenerState::Connecting => match seen {
            ObservationView::Opened => ListenerState::Listening,
            ObservationView::Closed => ListenerState::Failed(ClientError::Transport),
            ObservationView::TimedOut => ListenerState::Failed(ClientError::Timeout),
            _ => ListenerState::Connecting,
        },
        ListenerState::Listening => if is_completion(seen, job_id) {
            ListenerState::Completed
        } else {
            match seen {
                ObservationView::Closed => ListenerState::Failed(ClientError::StreamClosed),
                ObservationView::TimedOut => ListenerState::Failed(ClientError::Timeout),
                _ => ListenerState::Listening,
            }
        },
        ListenerState::Completed => state,
        ListenerState::Failed(_) => state,
    }
}

/// The state in which a run of observations leaves a listener.
pub open spec fn state_after(state: ListenerState, job_id: Seq<char>, seen: Seq<ObservationView>)
    -> ListenerState
    decreases seen.len(),
{
    if seen.len() == 0 {
        state
    } else {
        next_state(state_after(state, job_id, seen.drop_last()), job_id, seen.last())
    }
}

/// The observations that a run of signals is read as.
pub open spec fn observations_of(signals: Seq<StreamSignal>) -> Seq<ObservationView> {
    signals.map_values(|signal: StreamSignal| observation_of(signal@))
}

/// The wait for one job to finish.
#[derive(Clone, Debug, PartialEq, Eq)]
pub struct Listener {
    job_id: String,
    state: ListenerState,
}

/// What a [`Listener`] holds, as plain values.
pub struct ListenerView {
    pub job_id: Seq<char>,
    pub state: ListenerState,
}

impl View for Listener {
    type V = ListenerView;

    closed spec fn view(&self) -> ListenerView {
        ListenerView { job_id: self.job_id@, state: self.state }
    }
}

impl Listener {
    /// A listener for the job `job_id`, before the stream is open.
    pub fn new(job_id: String) -> (r: Listener)
        ensures
            r@ == (ListenerView { job_id: job_id@, state: ListenerState::Connecting }),
    {
        Listener { job_id, state: ListenerState::Connecting }
    }

    /// The job that the listener waits for.
    pub fn job_id(&self) -> (r: &str)
        ensures
            r@ == self@.job_id,
    {
        self.job_id.as_str()
    }

    /// Where the wait stands.
    pub fn state(&self) -> (r: ListenerState)
        ensures
            r == self@.state,
    {
        self.state
    }

    /// Whether the wait is over, so that the stream is to be closed.
    pub fn is_done(&self) -> (r: bool)
        ensures
            r == self@.state.is_terminal(),
    {
        match self.state {
            ListenerState::Connecting => false,
            ListenerState::Listening => false,
            ListenerState::Completed => true,
            ListenerState::Failed(_) => true,
        }
    }

    /// How the wait ended: `None` while it goes on, `Some(Ok(()))` when the
    /// job has finished, and the error when it has failed.
    pub fn outcome(&self) -> (r: Option<Result<(), ClientError>>)
        ensures
            r == match self@.state {
                ListenerState::Connecting => None::<Result<(), ClientError>>,
                ListenerState::Listening => None::<Result<(), ClientError>>,
                ListenerState::Completed => Some(Ok::<(), ClientError>(())),
                ListenerState::Failed(e) => Some(Err::<(), ClientError>(e)),
            },
    {
        match self.state {
            ListenerState::Connecting => None,
            ListenerState::Listening => None,
            ListenerState::Completed => Some(Ok(())),
            ListenerState::Failed(e) => Some(Err(e)),
        }
    }

    /// Takes one observation.
    pub fn advance(&mut self, seen: &Observation)
        ensures
            final(self)@ == (ListenerView {
                job_id: old(self)@.job_id,
                state: next_state(old(self)@.state, old(self)@.job_id, seen@),
            }),
    {
        let next = match self.state {
            ListenerState::Connecting => match seen {
                Observation::Opened => ListenerState::Listening,
                Observation::Closed => ListenerState::Failed(ClientError::Transport),
                Observation::TimedOut => ListenerState::Failed(ClientError::Timeout),
                Observation::Event(_) => ListenerState::Connecting,
                Observation::Noise => ListenerState::Connecting,
            },
            ListenerState::Listening => match seen {
                Observation::Event(event) => if event.completes(self.job_id.as_str()) {
                    ListenerState::Completed
                } else {
                    ListenerState::Listening
                },
                Observation::Closed => ListenerState::Failed(ClientError::StreamClosed),
                Observation::TimedOut => ListenerState::Failed(ClientError::Timeout),
                Observation::Opened => ListenerState::Listening,
                Observation::Noise => ListenerState::Listening,
            },
            ListenerState::Completed => ListenerState::Completed,
            ListenerState::Failed(e) => ListenerState::Failed(e),
        };
        self.state = next;
    }

    /// Takes one signal of the stream: reads it, and takes what it reads.
    pub fn receive(&mut self, signal: &StreamSignal)
        ensures
            final(self)@ == (ListenerView {
                job_id: old(self)@.job_id,
                state: next_state(old(self)@.state, old(self)@.job_id, observation_of(signal@)),
            }),
    {
        let seen = observe(signal);
        self.advance(&seen);
    }

    /// Takes the signals of a stream in order, up to the one that ends the
    /// wait, and returns how many it took.
    ///
    /// Signals behind the one that ends the wait are not read. Where the
    /// signals run out first, all were taken and the wait goes on.
    pub fn listen(&mut self, signals: &Vec<StreamSignal>) -> (taken: usize)
        ensures
            taken <= signals@.len(),
            final(self)@ == (ListenerView {
                job_id: old(self)@.job_id,
                state: state_after(
                    old(self)@.state,
                    old(self)@.job_id,
                    observations_of(signals@.take(taken as int)),
                ),
            }),
            taken < signals@.len() ==> final(self)@.state.is_terminal(),
            forall|shorter: int|
                0 <= shorter < taken ==> !(#[trigger] state_after(
                    old(self)@.state,
                    old(self)@.job_id,
                    observations_of(signals@.take(shorter)),
                )).is_terminal(),
    {
        let ghost start = self@.state;
        let ghost job_id = self@.job_id;
        let mut taken: usize = 0;
        assert(observations_of(signals@.take(0)) =~= Seq::empty());
        while taken < signals.len() && !self.is_done()
            invariant
                taken <= signals@.len(),
                self@ == (ListenerView {
                    job_id,
                    state: state_after(start, job_id, observations_of(signals@.take(taken as int))),
                }),
                forall|shorter: int|
                    0 <= shorter < taken ==> !(#[trigger] state_after(
                        start,
                        job_id,
                        observations_of(signals@.take(shorter)),
                    )).is_terminal(),
            decreases signals@.len() - taken,
        {
            self.receive(&signals[taken]);
            proof {
                let longer = observations_of(signals@.take(taken + 1));
                assert(longer.drop_last() =~= observations_of(signals@.take(taken as int)));
                assert(longer.last() == observation_of(signals@[taken as int]@));
            }
            taken += 1;
        }
        taken
    }
}

/// Observations that are unrelated to the job leave a listening listener
/// listening, however many they are.
pub proof fn lemma_unrelated_events_are_ignored(job_id: Seq<char>, seen: Seq<ObservationView>)
    requires
        forall|i: int| 0 <= i < seen.len() ==> is_unrelated(#[trigger] seen[i], job_id),
    ensures
        state_after(ListenerState::Listening, job_id, seen) == ListenerState::Listening,
    decreases seen.len(),
{
    if seen.len() > 0 {
        lemma_unrelated_events_are_ignored(job_id, seen.drop_last());
        assert(is_unrelated(seen[seen.len() - 1], job_id));
    }
}

/// A listening listener ends its wait with success on the first report that
/// its job has finished, whatever unrelated observations came before it.
pub proof fn lemma_first_match_completes(
    job_id: Seq<char>,
    before: Seq<ObservationView>,
    event: StreamEventView,
)
    requires
        forall|i: int| 0 <= i < before.len() ==> is_unrelated(#[trigger] before[i], job_id),
        event.completes(job_id),
    ensures
        state_after(ListenerState::Listening, job_id, before) == ListenerState::Listening,
        state_after(ListenerState::Listening, job_id, before.push(ObservationView::Event(event)))
            == ListenerState::Completed,
{
    lemma_unrelated_events_are_ignored(job_id, before);
    assert(before.push(ObservationView::Event(event)).drop_last() =~= before);
}

/// A listener does not end its wait with success before a report that its
/// job has finished: where a run of observations leaves it completed, one of
/// them is that report, and the listener was listening when it came.
pub proof fn lemma_completion_needs_a_match(
    state: ListenerState,
    job_id: Seq<char>,
    seen: Seq<ObservationView>,
)
    requires
        state != ListenerState::Completed,
        state_after(state, job_id, seen) == ListenerState::Completed,
    ensures
        exists|i: int|
            0 <= i < seen.len() && is_completion(#[trigger] seen[i], job_id) && state_after(
                state,
                job_id,
                seen.take(i),
            ) == ListenerState::Listening,
    decreases seen.len(),
{
    let rest = seen.drop_last();
    if state_after(state, job_id, rest) == ListenerState::Completed {
        lemma_completion_needs_a_match(state, job_id, rest);
        let i = choose|i: int|
            0 <= i < rest.len() && is_completion(#[trigger] rest[i], job_id) && state_after(
                state,
                job_id,
                rest.take(i),
            ) == ListenerState::Listening;
        assert(seen[i] == rest[i]);
        assert(seen.take(i) =~= rest.take(i));
    } else {
        let i = seen.len() - 1;
        assert(seen.take(i) =~= rest);
        assert(is_completion(seen[i], job_id));
    }
}

/// Once the wait is over, no observation changes the state.
pub proof fn lemma_terminal_state_stays(
    state: ListenerState,
    job_id: Seq<char>,
    seen: Seq<ObservationView>,
)
    requires
        state.is_terminal(),
    ensures
        state_after(state, job_id, seen) == state,
    decreases seen.len(),
{
    if seen.len() > 0 {
        lemma_terminal_state_stays(state, job_id, seen.drop_last());
    }
}

} // verus!

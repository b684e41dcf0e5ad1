//! One job from submission to results: submit the graph, wait until the
//! backend reports the job as finished, then fetch what it produced.
//!
//! The three steps follow each other strictly, and the first error ends the
//! job: nothing is tried again. The job makes no request itself. It says
//! what is to be done next, and its user does it and hands back what came.

use vstd::prelude::*;
use crate::error::ClientError;
use crate::fetch::{
    fetch_next, wanted_request, FetchInput, FetchInputView, FetchRequest, FetchRequestView,
    Fetcher, FetcherView,
};
use crate::history::{decode_history, history_of_text, HistoryRecord, NodeOutputView};
use crate::listener::{
    is_completion, next_state, observation_of, observe, Listener, ListenerState, ListenerView,
    Observation, ObservationView, StreamSignal, StreamSignalView,
};
use crate::results::ResultMap;
use crate::submit::{decode_submission, job_id_of_text};

verus! {

/// What the job wants done next.
#[derive(Clone, Debug, PartialEq, Eq)]
pub enum JobAction {
    /// Submit the graph, together with the session identifier.
    Submit,
    /// Open the event stream of the session.
    OpenStream,
    /// Read the next item of the event stream.
    ReadStream,
    /// Fetch the history record of the job with this identifier. The event
    /// stream is no longer needed.
    FetchHistory(String),
    /// Fetch the content of the asset with this file name.
    FetchAsset(String),
    /// Nothing: the job is over. The event stream, if it is open, is no
    /// longer needed.
    Finish,
}

/// What a [`JobAction`] holds, as plain values.
pub enum JobActionView {
    Submit,
    OpenStream,
    ReadStream,
    FetchHistory(Seq<char>),
    FetchAsset(Seq<char>),
    Finish,
}

impl View for JobAction {
    type V = JobActionView;

    open spec fn view(&self) -> JobActionView {
        match *self {
            JobAction::Submit => JobActionView::Submit,
            JobAction::OpenStream => JobActionView::OpenStream,
            JobAction::ReadStream => JobActionView::ReadStream,
            JobAction::FetchHistory(job_id) => JobActionView::FetchHistory(job_id@),
            JobAction::FetchAsset(filename) => JobActionView::FetchAsset(filename@),
            JobAction::Finish => JobActionView::Finish,
        }
    }
}

/// What came of an action.
#[derive(Clone, Debug, PartialEq, Eq)]
pub enum JobReply {
    /// The body of the answer to a request, as text.
    Text(String),
    /// The body of the answer to a request, as bytes.
    Bytes(Vec<u8>),
    /// What the event stream handed over.
    Stream(StreamSignal),
    /// The action failed.
    Failed,
}

/// What a [`JobReply`] holds, as plain values.
pub enum JobReplyView {
    Text(Seq<char>),
    Bytes(Seq<u8>),
    Stream(StreamSignalView),
    Failed,
}

impl View for JobReply {
    type V = JobReplyView;

    open spec fn view(&self) -> JobReplyView {
        match *self {
            JobReply::Text(text) => JobReplyView::Text(text@),
            JobReply::Bytes(bytes) => JobReplyView::Bytes(bytes@),
            JobReply::Stream(signal) => JobReplyView::Stream(signal@),
            JobReply::Failed => JobReplyView::Failed,
        }
    }
}

/// What the job makes of a reply.
#[derive(Clone, Debug, PartialEq, Eq)]
pub enum JobInput {
    /// The identifier under which the backend took the job.
    JobId(String),
    /// What was seen on the event stream.
    Seen(Observation),
    /// The history record of the job.
    Record(HistoryRecord),
    /// The content of the asset that was asked for.
    Asset(Vec<u8>),
    /// The action failed, or what came of it could not be used.
    Error(ClientError),
}

/// What a [`JobInput`] holds, as plain values.
pub enum JobInputView {
    JobId(Seq<char>),
    Seen(ObservationView),
    Record(Seq<NodeOutputView>),
    Asset(Seq<u8>),
    Error(ClientError),
}

impl View for JobInput {
    type V = JobInputView;

    open spec fn view(&self) -> JobInputView {
        match *self {
            JobInput::JobId(job_id) => JobInputView::JobId(job_id@),
            JobInput::Seen(seen) => JobInputView::Seen(seen@),
            JobInput::Record(record) => JobInputView::Record(record@),
            JobInput::Asset(bytes) => JobInputView::Asset(bytes@),
            JobInput::Error(error) => JobInputView::Error(error),
        }
    }
}

/// Where a job stands.
pub enum JobView {
    /// The graph has been, or is about to be, submitted.
    Submitting,
    /// The backend has taken the job, and the job is not yet reported as
    /// finished.
    Waiting(ListenerView),
    /// The job is reported as finished, and what it produced is being
    /// fetched.
    Fetching(FetcherView),
    /// The job is over, with these results.
    Finished(Map<Seq<char>, Seq<u8>>),
    /// The job is over, with this error.
    Failed(ClientError),
}

impl JobView {
    /// Whether the state is one that a job can be in: while it waits the
    /// wait is not over, and while it fetches the fetch is not over.
    pub open spec fn wf(self) -> bool {
        match self {
            JobView::Waiting(listener) => !listener.state.is_terminal(),
            JobView::Fetching(fetcher) => fetcher.wf() && !fetcher.is_terminal(),
            _ => true,
        }
    }

    /// Whether the job is over.
    pub open spec fn is_over(self) -> bool {
        self is Finished || self is Failed
    }
}

/// Where the job stands once its wait stands at `listener`: the fetch
/// begins when the wait has ended with success, and the job fails when the
/// wait has failed.
pub open spec fn after_listening(listener: ListenerView) -> JobView {
    match listener.state {
        ListenerState::Completed => JobView::Fetching(
            FetcherView::AwaitingHistory { job_id: listener.job_id },
        ),
        ListenerState::Failed(error) => JobView::Failed(error),
        _ => JobView::Waiting(listener),
    }
}

/// Where the job stands once its fetch stands at `fetcher`.
pub open spec fn after_fetching(fetcher: FetcherView) -> JobView {
    match fetcher {
        FetcherView::Done { results } => JobView::Finished(results),
        FetcherView::Failed { error } => JobView::Failed(error),
        _ => JobView::Fetching(fetcher),
    }
}

/// The state in which an input leaves a job.
///
/// Each stage takes the inputs that answer what it wants done: the job
/// identifier while submitting, what the stream shows while waiting, the
/// history record and the assets while fetching. An error ends the job in
/// every stage. Any other input, and any input after the job is over,
/// changes nothing.
pub open spec fn job_next(state: JobView, input: JobInputView) -> JobView {
    match state {
        JobView::Submitting => match input {
            JobInputView::JobId(job_id) => JobView::Waiting(
                ListenerView { job_id, state: ListenerState::Connecting },
            ),
            JobInputView::Error(error) => JobView::Failed(error),
            _ => state,
        },
        JobView::Waiting(listener) => match input {
            JobInputView::Seen(seen) => after_listening(
                ListenerView {
                    job_id: listener.job_id,
                    state: next_state(listener.state, listener.job_id, seen),
                },
            ),
            JobInputView::Error(error) => JobView::Failed(error),
            _ => state,
        },
        JobView::Fetching(fetcher) => match input {
            JobInputView::Record(record) => after_fetching(
                fetch_next(fetcher, FetchInputView::Record(record)),
            ),
            JobInputView::Asset(bytes) => after_fetching(
                fetch_next(fetcher, FetchInputView::Asset(bytes)),
            ),
            JobInputView::Error(error) => JobView::Failed(error),
            _ => state,
        },
        JobView::Finished(_) => state,
        JobView::Failed(_) => state,
    }
}

/// What a job in this state makes of a reply, where the reply can answer
/// what the state wants done.
///
/// A text is read as the answer to the submission while submitting, and as
/// the history record while that is awaited; where it does not hold what is
/// looked for, it is an error of the protocol. Bytes are an asset. What the
/// stream hands over is read as an observation. A failed action is an error
/// of the transport, except while waiting, where it is the end of the stream.
pub open spec fn job_input_of(state: JobView, reply: JobReplyView) -> Option<JobInputView> {
    match reply {
        JobReplyView::Text(text) => match state {
            JobView::Submitting => match job_id_of_text(text) {
                Some(job_id) => Some(JobInputView::JobId(job_id)),
                None => Some(JobInputView::Error(ClientError::Protocol)),
            },
            JobView::Fetching(FetcherView::AwaitingHistory { job_id }) => match history_of_text(
                text,
                job_id,
            ) {
                Some(record) => Some(JobInputView::Record(record)),
                None => Some(JobInputView::Error(ClientError::Protocol)),
            },
            _ => None,
        },
        JobReplyView::Bytes(bytes) => Some(JobInputView::Asset(bytes)),
        JobReplyView::Stream(signal) => Some(JobInputView::Seen(observation_of(signal))),
        JobReplyView::Failed => match state {
            JobView::Waiting(_) => Some(JobInputView::Seen(ObservationView::Closed)),
            _ => Some(JobInputView::Error(ClientError::Transport)),
        },
    }
}

/// The state in which a reply leaves a job.
pub open spec fn job_step(state: JobView, reply: JobReplyView) -> JobView {
    match job_input_of(state, reply) {
        Some(input) => job_next(state, input),
        None => state,
    }
}

/// What a job in this state wants done next.
pub open spec fn job_action(state: JobView) -> JobActionView {
    match state {
        JobView::Submitting => JobActionView::Submit,
        JobView::Waiting(listener) => if listener.state is Connecting {
            JobActionView::OpenStream
        } else {
            JobActionView::ReadStream
        },
        JobView::Fetching(fetcher) => match wanted_request(fetcher) {
            Some(FetchRequestView::History(job_id)) => JobActionView::FetchHistory(job_id),
            Some(FetchRequestView::Asset(filename)) => JobActionView::FetchAsset(filename),
            None => JobActionView::Finish,
        },
        JobView::Finished(_) => JobActionView::Finish,
        JobView::Failed(_) => JobActionView::Finish,
    }
}

/// The state in which a run of inputs leaves a job.
pub open spec fn job_after(state: JobView, inputs: Seq<JobInputView>) -> JobView
    decreases inputs.len(),
{
    if inputs.len() == 0 {
        state
    } else {
        job_next(job_after(state, inputs.drop_last()), inputs.last())
    }
}

enum Stage {
    Submitting,
    Waiting(Listener),
    Fetching(Fetcher),
    Failed(ClientError),
}

/// One job, from its submission to its results.
pub struct Job {
    stage: Stage,
}

impl View for Job {
    type V = JobView;

    closed spec fn view(&self) -> JobView {
        match self.stage {
            Stage::Submitting => JobView::Submitting,
            Stage::Waiting(listener) => JobView::Waiting(listener@),
            Stage::Fetching(fetcher) => after_fetching(fetcher@),
            Stage::Failed(error) => JobView::Failed(error),
        }
    }
}

impl Job {
    /// Whether the value is well formed.
    pub closed spec fn wf(&self) -> bool {
        match self.stage {
            Stage::Submitting => true,
            Stage::Waiting(listener) => !listener@.state.is_terminal(),
            Stage::Fetching(fetcher) => fetcher.wf(),
            Stage::Failed(_) => true,
        }
    }

    /// A well-formed job is in a state that a job can be in.
    pub proof fn lemma_wf(&self)
        requires
            self.wf(),
        ensures
            self@.wf(),
    {
        match self.stage {
            Stage::Fetching(fetcher) => {
                fetcher.lemma_wf();
            },
            _ => {},
        }
    }

    /// A job that is about to be submitted.
    pub fn new() -> (r: Job)
        ensures
            r.wf(),
            r@ == JobView::Submitting,
    {
        Job { stage: Stage::Submitting }
    }

    /// What the job wants done next.
    pub fn action(&self) -> (r: JobAction)
        requires
            self.wf(),
        ensures
            r@ == job_action(self@),
    {
        match &self.stage {
            Stage::Submitting => JobAction::Submit,
            Stage::Waiting(listener) => match listener.state() {
                ListenerState::Connecting => JobAction::OpenStream,
                _ => JobAction::ReadStream,
            },
            Stage::Fetching(fetcher) => match fetcher.request() {
                Some(FetchRequest::History(job_id)) => JobAction::FetchHistory(job_id),
                Some(FetchRequest::Asset(filename)) => JobAction::FetchAsset(filename),
                None => JobAction::Finish,
            },
            Stage::Failed(_) => JobAction::Finish,
        }
    }

    /// Whether the job is over.
    pub fn is_over(&self) -> (r: bool)
        requires
            self.wf(),
        ensures
            r == self@.is_over(),
    {
        match &self.stage {
            Stage::Submitting => false,
            Stage::Waiting(_) => false,
            Stage::Fetching(fetcher) => fetcher.is_done(),
            Stage::Failed(_) => true,
        }
    }

    /// How the job ended: `None` while it goes on, the results when it has
    /// finished, and the error when it has failed.
    pub fn into_outcome(self) -> (r: Option<Result<ResultMap, ClientError>>)
        requires
            self.wf(),
        ensures
            match self@ {
                JobView::Finished(results) => r matches Some(Ok(map)) && map.wf() && map@
                    == results,
                JobView::Failed(error) => r == Some(Err::<ResultMap, ClientError>(error)),
                _ => r is None,
            },
    {
        match self.stage {
            Stage::Submitting => None,
            Stage::Waiting(_) => None,
            Stage::Fetching(fetcher) => fetcher.into_outcome(),
            Stage::Failed(error) => Some(Err(error)),
        }
    }

    /// Takes one input.
    pub fn advance(self, input: JobInput) -> (next: Job)
        requires
            self.wf(),
        ensures
            next.wf(),
            next@ == job_next(self@, input@),
    {
        match self.stage {
            Stage::Submitting => match input {
                JobInput::JobId(job_id) => Job { stage: Stage::Waiting(Listener::new(job_id)) },
                JobInput::Error(error) => Job { stage: Stage::Failed(error) },
                _ => Job { stage: Stage::Submitting },
            },
            Stage::Waiting(listener) => match input {
                JobInput::Seen(seen) => {
                    let mut listener = listener;
                    listener.advance(&seen);
                    match listener.state() {
                        ListenerState::Completed => Job {
                            stage: Stage::Fetching(Fetcher::new(listener.job_id().to_owned())),
                        },
                        ListenerState::Failed(error) => Job { stage: Stage::Failed(error) },
                        _ => Job { stage: Stage::Waiting(listener) },
                    }
                },
                JobInput::Error(error) => Job { stage: Stage::Failed(error) },
                _ => Job { stage: Stage::Waiting(listener) },
            },
            Stage::Fetching(fetcher) => {
                proof {
                    fetcher.lemma_wf();
                }
                if fetcher.is_done() {
                    Job { stage: Stage::Fetching(fetcher) }
                } else {
                    match input {
                        JobInput::Record(record) => Job {
                            stage: Stage::Fetching(fetcher.advance(FetchInput::Record(record))),
                        },
                        JobInput::Asset(bytes) => Job {
                            stage: Stage::Fetching(fetcher.advance(FetchInput::Asset(bytes))),
                        },
                        JobInput::Error(error) => Job { stage: Stage::Failed(error) },
                        _ => Job { stage: Stage::Fetching(fetcher) },
                    }
                }
            },
            Stage::Failed(error) => Job { stage: Stage::Failed(error) },
        }
    }

    /// Reads a reply: decodes the text of an answer and of a text frame.
    /// The result is `None` where the reply cannot answer what the job wants
    /// done.
    pub fn read(&self, reply: JobReply) -> (r: Option<JobInput>)
        requires
            self.wf(),
        ensures
            r matches Some(input) ==> job_input_of(self@, reply@) == Some(input@),
            r is None <==> job_input_of(self@, reply@) is None,
    {
        match reply {
            JobReply::Text(text) => match &self.stage {
                Stage::Submitting => match decode_submission(text.as_str()) {
                    Ok(job_id) => Some(JobInput::JobId(job_id)),
                    Err(error) => Some(JobInput::Error(error)),
                },
                Stage::Fetching(fetcher) => match fetcher.request() {
                    Some(FetchRequest::History(job_id)) => match decode_history(
                        text.as_str(),
                        job_id.as_str(),
                    ) {
                        Ok(record) => Some(JobInput::Record(record)),
                        Err(error) => Some(JobInput::Error(error)),
                    },
                    _ => None,
                },
                _ => None,
            },
            JobReply::Bytes(bytes) => Some(JobInput::Asset(bytes)),
            JobReply::Stream(signal) => Some(JobInput::Seen(observe(&signal))),
            JobReply::Failed => match &self.stage {
                Stage::Waiting(_) => Some(JobInput::Seen(Observation::Closed)),
                _ => Some(JobInput::Error(ClientError::Transport)),
            },
        }
    }

    /// Takes what came of the action that the job wanted done: reads it, and
    /// takes what it reads. A reply that cannot answer that action changes
    /// nothing.
    pub fn receive(self, reply: JobReply) -> (next: Job)
        requires
            self.wf(),
        ensures
            next.wf(),
            next@ == job_step(self@, reply@),
    {
        match self.read(reply) {
            Some(input) => self.advance(input),
            None => self,
        }
    }
}

/// The fetch begins only on the report that the job has finished: a job
/// that was not fetching and is fetching after an input was listening for
/// its job, and the input is that report. The fetch then asks for the
/// history record of that job.
pub proof fn lemma_fetch_follows_completion(state: JobView, input: JobInputView)
    requires
        state.wf(),
        !(state is Fetching),
        job_next(state, input) is Fetching,
    ensures
        state matches JobView::Waiting(listener) && (listener.state == ListenerState::Listening
            && (input matches JobInputView::Seen(seen) && (is_completion(seen, listener.job_id)
            && job_next(state, input) == JobView::Fetching(
            FetcherView::AwaitingHistory { job_id: listener.job_id },
        )))),
{
}

/// The first error ends the job: an error that reaches a job that is not
/// over leaves it failed with that error, and no input changes that.
pub proof fn lemma_first_error_ends_job(
    state: JobView,
    error: ClientError,
    later: Seq<JobInputView>,
)
    requires
        !state.is_over(),
    ensures
        job_next(state, JobInputView::Error(error)) == JobView::Failed(error),
        job_after(job_next(state, JobInputView::Error(error)), later) == JobView::Failed(error),
{
    lemma_over_job_stays(JobView::Failed(error), later);
}

/// Once the job is over, no input changes its state.
pub proof fn lemma_over_job_stays(state: JobView, inputs: Seq<JobInputView>)
    requires
        state.is_over(),
    ensures
        job_after(state, inputs) == state,
    decreases inputs.len(),
{
    if inputs.len() > 0 {
        lemma_over_job_stays(state, inputs.drop_last());
    }
}

/// Every input leaves a job in a state that a job can be in.
pub proof fn lemma_job_next_keeps_wf(state: JobView, input: JobInputView)
    requires
        state.wf(),
    ensures
        job_next(state, input).wf(),
{
}

} // verus!

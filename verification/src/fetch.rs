//! Fetching what a finished job produced: first its history record, then
//! each asset that the record lists.
//!
//! The fetcher makes no request itself. It says which request comes next, and
//! its user makes the request and hands back what came.
//!
//! A request that fails ends the fetch with the error: no asset is skipped,
//! and what was collected before the failure is given up.

use vstd::prelude::*;
use crate::error::ClientError;
use crate::history::{
    all_filenames, decode_history, history_of_text, HistoryRecord, NodeOutputView,
};
use crate::results::{with_asset, ResultMap};

verus! {

/// The request that the fetcher wants made.
#[derive(Clone, Debug, PartialEq, Eq)]
pub enum FetchRequest {
    /// The history record of the job with this identifier.
    History(String),
    /// The content of the asset with this file name.
    Asset(String),
}

/// What a [`FetchRequest`] holds, as plain values.
pub enum FetchRequestView {
    History(Seq<char>),
    Asset(Seq<char>),
}

impl View for FetchRequest {
    type V = FetchRequestView;

    open spec fn view(&self) -> FetchRequestView {
        match *self {
            FetchRequest::History(job_id) => FetchRequestView::History(job_id@),
            FetchRequest::Asset(filename) => FetchRequestView::Asset(filename@),
        }
    }
}

/// What came back from a request.
#[derive(Clone, Debug, PartialEq, Eq)]
pub enum FetchReply {
    /// The body of the answer, as text.
    Text(String),
    /// The body of the answer, as bytes.
    Bytes(Vec<u8>),
    /// The request failed.
    Failed,
}

/// What a [`FetchReply`] holds, as plain values.
pub enum FetchReplyView {
    Text(Seq<char>),
    Bytes(Seq<u8>),
    Failed,
}

impl View for FetchReply {
    type V = FetchReplyView;

    open spec fn view(&self) -> FetchReplyView {
        match *self {
            FetchReply::Text(text) => FetchReplyView::Text(text@),
            FetchReply::Bytes(bytes) => FetchReplyView::Bytes(bytes@),
            FetchReply::Failed => FetchReplyView::Failed,
        }
    }
}

/// What the fetcher makes of a reply.
#[derive(Clone, Debug, PartialEq, Eq)]
pub enum FetchInput {
    /// The history record of the job.
    Record(HistoryRecord),
    /// The content of the asset that was asked for.
    Asset(Vec<u8>),
    /// The request failed, or its answer could not be used.
    Error(ClientError),
}

/// What a [`FetchInput`] holds, as plain values.
pub enum FetchInputView {
    Record(Seq<NodeOutputView>),
    Asset(Seq<u8>),
    Error(ClientError),
}

impl View for FetchInput {
    type V = FetchInputView;

    open spec fn view(&self) -> FetchInputView {
        match *self {
            FetchInput::Record(record) => FetchInputView::Record(record@),
            FetchInput::Asset(bytes) => FetchInputView::Asset(bytes@),
            FetchInput::Error(error) => FetchInputView::Error(error),
        }
    }
}

/// Where a fetch stands.
pub enum FetcherView {
    /// The history record of `job_id` has been asked for.
    AwaitingHistory { job_id: Seq<char> },
    /// The assets `wanted` are still to be fetched, the first of them has
    /// been asked for, and `results` holds what has been collected.
    Downloading { wanted: Seq<Seq<char>>, results: Map<Seq<char>, Seq<u8>> },
    /// Every asset has been fetched.
    Done { results: Map<Seq<char>, Seq<u8>> },
    /// The fetch has failed.
    Failed { error: ClientError },
}

impl FetcherView {
    /// Whether the state is one that the fetcher can be in: while it
    /// downloads, an asset is wanted.
    pub open spec fn wf(self) -> bool {
        self matches FetcherView::Downloading { wanted, .. } ==> wanted.len() > 0
    }

    /// Whether the fetch is over.
    pub open spec fn is_terminal(self) -> bool {
        self is Done || self is Failed
    }
}

/// The state of a fetch that still wants the assets `wanted` and has
/// collected `results`: it is done where nothing more is wanted.
pub open spec fn downloading(wanted: Seq<Seq<char>>, results: Map<Seq<char>, Seq<u8>>)
    -> FetcherView {
    if wanted.len() == 0 {
        FetcherView::Done { results }
    } else {
        FetcherView::Downloading { wanted, results }
    }
}

/// The request that a fetch in this state wants made, if any.
pub open spec fn wanted_request(state: FetcherView) -> Option<FetchRequestView> {
    match state {
        FetcherView::AwaitingHistory { job_id } => Some(FetchRequestView::History(job_id)),
        FetcherView::Downloading { wanted, .. } => Some(FetchRequestView::Asset(wanted[0])),
        FetcherView::Done { .. } => None,
        FetcherView::Failed { .. } => None,
    }
}

/// The state in which an input leaves a fetch.
///
/// The history record sets the assets to fetch: all that it lists, in its
/// order. An asset is offered to the results under the name that was asked
/// for, and the fetch goes on to the next name, or is done. An error ends
/// the fetch. An input that does not answer the request that the state
/// wants made, and any input after the fetch is over, changes nothing.
pub open spec fn fetch_next(state: FetcherView, input: FetchInputView) -> FetcherView {
    match state {
        FetcherView::AwaitingHistory { .. } => match input {
            FetchInputView::Record(record) => downloading(
                all_filenames(record),
                Map::<Seq<char>, Seq<u8>>::empty(),
            ),
            FetchInputView::Error(error) => FetcherView::Failed { error },
            FetchInputView::Asset(_) => state,
        },
        FetcherView::Downloading { wanted, results } => match input {
            FetchInputView::Asset(bytes) => downloading(
                wanted.drop_first(),
                with_asset(results, wanted[0], bytes),
            ),
            FetchInputView::Error(error) => FetcherView::Failed { error },
            FetchInputView::Record(_) => state,
        },
        FetcherView::Done { .. } => state,
        FetcherView::Failed { .. } => state,
    }
}

/// What a fetch in this state makes of a reply, where the reply can answer
/// the request that the state wants made: a text is read as the history
/// record of the job that was asked for, and is an error of the protocol
/// where it holds none; bytes are an asset; a failed request is an error of
/// the transport.
pub open spec fn fetch_input_of(state: FetcherView, reply: FetchReplyView) -> Option<
    FetchInputView,
> {
    match reply {
        FetchReplyView::Text(text) => match state {
            FetcherView::AwaitingHistory { job_id } => match history_of_text(text, job_id) {
                Some(record) => Some(FetchInputView::Record(record)),
                None => Some(FetchInputView::Error(ClientError::Protocol)),
            },
            _ => None,
        },
        FetchReplyView::Bytes(bytes) => Some(FetchInputView::Asset(bytes)),
        FetchReplyView::Failed => Some(FetchInputView::Error(ClientError::Transport)),
    }
}

/// The state in which a reply leaves a fetch.
pub open spec fn fetch_step(state: FetcherView, reply: FetchReplyView) -> FetcherView {
    match fetch_input_of(state, reply) {
        Some(input) => fetch_next(state, input),
        None => state,
    }
}

/// What is collected from the assets `names` when the downloads came back as
/// `contents`, one for each name, in order.
pub open spec fn collected(names: Seq<Seq<char>>, contents: Seq<Seq<u8>>) -> Map<
    Seq<char>,
    Seq<u8>,
>
    decreases names.len(),
{
    if names.len() == 0 || contents.len() != names.len() {
        Map::empty()
    } else {
        with_asset(collected(names.drop_last(), contents.drop_last()), names.last(), contents.last())
    }
}

enum Stage {
    AwaitingHistory { job_id: String },
    Downloading { wanted: Vec<String>, position: usize, results: ResultMap },
    Done { results: ResultMap },
    Failed { error: ClientError },
}

/// The fetch of what one job produced.
pub struct Fetcher {
    stage: Stage,
}

impl View for Fetcher {
    type V = FetcherView;

    closed spec fn view(&self) -> FetcherView {
        match self.stage {
            Stage::AwaitingHistory { job_id } => FetcherView::AwaitingHistory { job_id: job_id@ },
            Stage::Downloading { wanted, position, results } => FetcherView::Downloading {
                wanted: wanted@.map_values(|name: String| name@).skip(position as int),
                results: results@,
            },
            Stage::Done { results } => FetcherView::Done { results: results@ },
            Stage::Failed { error } => FetcherView::Failed { error },
        }
    }
}

impl Fetcher {
    /// Whether the value is well formed.
    pub closed spec fn wf(&self) -> bool {
        match self.stage {
            Stage::AwaitingHistory { .. } => true,
            Stage::Downloading { wanted, position, results } => position < wanted@.len()
                && results.wf(),
            Stage::Done { results } => results.wf(),
            Stage::Failed { .. } => true,
        }
    }

    /// A well-formed fetcher is in a state that a fetcher can be in.
    pub proof fn lemma_wf(&self)
        requires
            self.wf(),
        ensures
            self@.wf(),
    {
    }

    /// A fetcher for what the job `job_id` produced, which wants the job's
    /// history record.
    pub fn new(job_id: String) -> (r: Fetcher)
        ensures
            r.wf(),
            r@ == (FetcherView::AwaitingHistory { job_id: job_id@ }),
    {
        Fetcher { stage: Stage::AwaitingHistory { job_id } }
    }

    /// The request that the fetcher wants made: `None` when the fetch is
    /// over.
    pub fn request(&self) -> (r: Option<FetchRequest>)
        requires
            self.wf(),
        ensures
            r matches Some(request) ==> wanted_request(self@) == Some(request@),
            r is None <==> wanted_request(self@) is None,
    {
        match &self.stage {
            Stage::AwaitingHistory { job_id } => Some(FetchRequest::History(job_id.clone())),
            Stage::Downloading { wanted, position, .. } => Some(
                FetchRequest::Asset(wanted[*position].clone()),
            ),
            Stage::Done { .. } => None,
            Stage::Failed { .. } => None,
        }
    }

    /// Whether the fetch is over.
    pub fn is_done(&self) -> (r: bool)
        ensures
            r == self@.is_terminal(),
    {
        match &self.stage {
            Stage::AwaitingHistory { .. } => false,
            Stage::Downloading { .. } => false,
            Stage::Done { .. } => true,
            Stage::Failed { .. } => true,
        }
    }

    /// How the fetch ended: `None` while it goes on, the results when every
    /// asset has been fetched, and the error when the fetch has failed.
    pub fn into_outcome(self) -> (r: Option<Result<ResultMap, ClientError>>)
        requires
            self.wf(),
        ensures
            match self@ {
                FetcherView::Done { results } => r matches Some(Ok(map)) && map.wf() && map@
                    == results,
                FetcherView::Failed { error } => r == Some(
                    Err::<ResultMap, ClientError>(error),
                ),
                _ => r is None,
            },
    {
        match self.stage {
            Stage::AwaitingHistory { .. } => None,
            Stage::Downloading { .. } => None,
            Stage::Done { results } => Some(Ok(results)),
            Stage::Failed { error } => Some(Err(error)),
        }
    }

    /// The fetcher that wants the assets `wanted` from `position` on and has
    /// collected `results`.
    fn downloading(wanted: Vec<String>, position: usize, results: ResultMap) -> (r: Fetcher)
        requires
            position <= wanted@.len(),
            results.wf(),
        ensures
            r.wf(),
            r@ == downloading(
                wanted@.map_values(|name: String| name@).skip(position as int),
                results@,
            ),
    {
        if position < wanted.len() {
            Fetcher { stage: Stage::Downloading { wanted, position, results } }
        } else {
            Fetcher { stage: Stage::Done { results } }
        }
    }

    /// Takes one input.
    pub fn advance(self, input: FetchInput) -> (next: Fetcher)
        requires
            self.wf(),
        ensures
            next.wf(),
            next@ == fetch_next(self@, input@),
    {
        match self.stage {
            Stage::AwaitingHistory { job_id } => match input {
                FetchInput::Record(record) => {
                    let wanted = record.filenames();
                    assert(wanted@.map_values(|name: String| name@).skip(0) =~= all_filenames(
                        record@,
                    ));
                    Fetcher::downloading(wanted, 0, ResultMap::new())
                },
                FetchInput::Error(error) => Fetcher { stage: Stage::Failed { error } },
                FetchInput::Asset(_) => Fetcher { stage: Stage::AwaitingHistory { job_id } },
            },
            Stage::Downloading { wanted, position, results } => match input {
                FetchInput::Asset(bytes) => {
                    let mut results = results;
                    let count: usize = wanted.len();
                    assert(position < count);
                    let name = wanted[position].clone();
                    results.insert(name, bytes);
                    proof {
                        let names = wanted@.map_values(|name: String| name@);
                        assert(names.skip(position as int).drop_first() =~= names.skip(
                            position + 1,
                        ));
                    }
                    Fetcher::downloading(wanted, position + 1, results)
                },
                FetchInput::Error(error) => Fetcher { stage: Stage::Failed { error } },
                FetchInput::Record(_) => Fetcher {
                    stage: Stage::Downloading { wanted, position, results },
                },
            },
            Stage::Done { results } => Fetcher { stage: Stage::Done { results } },
            Stage::Failed { error } => Fetcher { stage: Stage::Failed { error } },
        }
    }

    /// Takes the reply to the request that the fetcher wanted made: reads
    /// it, and takes what it reads. A reply that cannot answer that request
    /// changes nothing.
    pub fn receive(self, reply: FetchReply) -> (next: Fetcher)
        requires
            self.wf(),
        ensures
            next.wf(),
            next@ == fetch_step(self@, reply@),
    {
        match reply {
            FetchReply::Text(text) => {
                let input = match &self.stage {
                    Stage::AwaitingHistory { job_id } => match decode_history(
                        text.as_str(),
                        job_id.as_str(),
                    ) {
                        Ok(record) => FetchInput::Record(record),
                        Err(error) => FetchInput::Error(error),
                    },
                    _ => {
                        return self;
                    },
                };
                self.advance(input)
            },
            FetchReply::Bytes(bytes) => self.advance(FetchInput::Asset(bytes)),
            FetchReply::Failed => self.advance(FetchInput::Error(ClientError::Transport)),
        }
    }
}

/// No asset that a fetch collects is empty, whatever the downloads held.
pub proof fn lemma_collected_assets_are_not_empty(
    names: Seq<Seq<char>>,
    contents: Seq<Seq<u8>>,
    filename: Seq<char>,
)
    requires
        collected(names, contents).contains_key(filename),
    ensures
        collected(names, contents)[filename].len() > 0,
    decreases names.len(),
{
    if names.len() > 0 && contents.len() == names.len() {
        let before = collected(names.drop_last(), contents.drop_last());
        if contents.last().len() == 0 || filename != names.last() {
            lemma_collected_assets_are_not_empty(names.drop_last(), contents.drop_last(), filename);
        }
    }
}

/// A fetch that is handed one download for each asset it wants ends with
/// what [`collected`] says, added to what it had.
pub proof fn lemma_fetch_collects(state: FetcherView, contents: Seq<Seq<u8>>)
    requires
        state matches FetcherView::Downloading { wanted, .. } && wanted.len() == contents.len()
            && wanted.len() > 0,
    ensures
        after_assets(state, contents) matches FetcherView::Done { results } && results
            == state->Downloading_results.union_prefer_right(
            collected(state->Downloading_wanted, contents),
        ),
    decreases contents.len(),
{
    let wanted = state->Downloading_wanted;
    let results = state->Downloading_results;
    let next = fetch_next(state, FetchInputView::Asset(contents[0]));
    let rest = contents.drop_first();
    assert(after_assets(state, contents) == after_assets(next, rest));
    if wanted.len() == 1 {
        assert(rest.len() == 0);
        assert(wanted.drop_last().len() == 0);
        assert(wanted.last() == wanted[0]);
        assert(contents.last() == contents[0]);
        assert(collected(wanted.drop_last(), contents.drop_last()) == Map::<
            Seq<char>,
            Seq<u8>,
        >::empty());
        assert(next->Done_results =~= results.union_prefer_right(collected(wanted, contents)));
    } else {
        lemma_fetch_collects(next, rest);
        lemma_collected_from_front(wanted, contents);
        let first = with_asset(Map::<Seq<char>, Seq<u8>>::empty(), wanted[0], contents[0]);
        assert(with_asset(results, wanted[0], contents[0]) =~= results.union_prefer_right(first));
        assert(results.union_prefer_right(first).union_prefer_right(
            collected(wanted.drop_first(), rest),
        ) =~= results.union_prefer_right(
            first.union_prefer_right(collected(wanted.drop_first(), rest)),
        ));
    }
}

/// The state in which a run of assets leaves a fetch.
pub open spec fn after_assets(state: FetcherView, contents: Seq<Seq<u8>>) -> FetcherView
    decreases contents.len(),
{
    if contents.len() == 0 {
        state
    } else {
        after_assets(fetch_next(state, FetchInputView::Asset(contents[0])), contents.drop_first())
    }
}

/// What is collected from a run of downloads is what is collected from the
/// first of them, overlaid with what is collected from the rest.
proof fn lemma_collected_from_front(names: Seq<Seq<char>>, contents: Seq<Seq<u8>>)
    requires
        names.len() == contents.len(),
        names.len() > 0,
    ensures
        collected(names, contents) == with_asset(
            Map::<Seq<char>, Seq<u8>>::empty(),
            names[0],
            contents[0],
        ).union_prefer_right(collected(names.drop_first(), contents.drop_first())),
    decreases names.len(),
{
    let first = with_asset(Map::<Seq<char>, Seq<u8>>::empty(), names[0], contents[0]);
    if names.len() == 1 {
        assert(names.drop_last().len() == 0);
        assert(names.drop_first().len() == 0);
        assert(collected(names.drop_last(), contents.drop_last()) == Map::<
            Seq<char>,
            Seq<u8>,
        >::empty());
        assert(collected(names.drop_first(), contents.drop_first()) == Map::<
            Seq<char>,
            Seq<u8>,
        >::empty());
        assert(names.last() == names[0]);
        assert(contents.last() == contents[0]);
        assert(collected(names, contents) =~= first.union_prefer_right(
            collected(names.drop_first(), contents.drop_first()),
        ));
    } else {
        lemma_collected_from_front(names.drop_last(), contents.drop_last());
        assert(names.drop_last().drop_first() =~= names.drop_first().drop_last());
        assert(contents.drop_last().drop_first() =~= contents.drop_first().drop_last());
        assert(names.drop_last()[0] == names[0]);
        assert(contents.drop_last()[0] == contents[0]);
        assert(names.drop_first().last() == names.last());
        assert(contents.drop_first().last() == contents.last());
        let middle = collected(names.drop_first().drop_last(), contents.drop_first().drop_last());
        assert(with_asset(first.union_prefer_right(middle), names.last(), contents.last())
            =~= first.union_prefer_right(with_asset(middle, names.last(), contents.last())));
    }
}

} // verus!

//! The course of one request: fetch the document, open it, take its pages
//! in order, answer. The pipeline decides; its caller does the outside work
//! that each action names and reports back with an event.

use crate::decimal::{decimal, decimal_digits};
use crate::error::{ErrorModel, PipelineError, STATUS_OK};
use crate::page::{
    all_normalized, entries, numbered, OcrResponse, OutcomeModel, PageEntry, PageOutcome,
    PageResult, ResponseModel,
};
use crate::text::{clean_ocr_text, normalize};
use vstd::prelude::*;
use vstd::string::StringExecFns;

verus! {

/// Where the document is to be fetched from.
#[derive(Debug, PartialEq, Eq)]
pub struct DocumentRequest {
    pub url: String,
}

/// What the outside work came to.
#[derive(Debug, PartialEq, Eq)]
pub enum Event {
    /// The location could not be reached or did not answer with success.
    FetchFailed { detail: String },
    /// The answer's body could not be read.
    ReadFailed { detail: String },
    /// The location answered with this HTTP status. With a status of
    /// success the bytes of the document are in hand.
    Fetched { status: u16 },
    /// The bytes are no document that can be parsed.
    OpenFailed { detail: String },
    /// The document is open and has this many pages.
    Opened { page_count: usize },
    /// The page that was asked for has been processed.
    Page(PageOutcome),
}

/// The mathematical content of an `Event`.
pub enum EventModel {
    FetchFailed { detail: Seq<char> },
    ReadFailed { detail: Seq<char> },
    Fetched { status: u16 },
    OpenFailed { detail: Seq<char> },
    Opened { page_count: nat },
    Page(OutcomeModel),
}

impl View for Event {
    type V = EventModel;

    open spec fn view(&self) -> EventModel {
        match *self {
            Event::FetchFailed { detail } => EventModel::FetchFailed { detail: detail@ },
            Event::ReadFailed { detail } => EventModel::ReadFailed { detail: detail@ },
            Event::Fetched { status } => EventModel::Fetched { status },
            Event::OpenFailed { detail } => EventModel::OpenFailed { detail: detail@ },
            Event::Opened { page_count } => EventModel::Opened { page_count: page_count as nat },
            Event::Page(outcome) => EventModel::Page(outcome@),
        }
    }
}

/// The answer to the request.
#[derive(Debug, PartialEq, Eq)]
pub enum Reply {
    /// Status 200 with the text of every page.
    Success(OcrResponse),
    /// An error status with a message.
    Failure { status: u16, message: String },
}

/// The mathematical content of a `Reply`.
pub enum ReplyModel {
    Success(ResponseModel),
    Failure { status: u16, message: Seq<char> },
}

impl ReplyModel {
    pub open spec fn status(self) -> u16 {
        match self {
            ReplyModel::Success(_) => STATUS_OK,
            ReplyModel::Failure { status, .. } => status,
        }
    }
}

impl View for Reply {
    type V = ReplyModel;

    open spec fn view(&self) -> ReplyModel {
        match *self {
            Reply::Success(response) => ReplyModel::Success(response@),
            Reply::Failure { status, message } => ReplyModel::Failure {
                status,
                message: message@,
            },
        }
    }
}

impl Reply {
    pub fn status(&self) -> (status: u16)
        ensures
            status == self@.status(),
    {
        match self {
            Reply::Success(_) => STATUS_OK,
            Reply::Failure { status, .. } => *status,
        }
    }
}

/// What the caller is to do next.
#[derive(Debug, PartialEq, Eq)]
pub enum Action {
    /// Fetch the bytes of the document from `url`.
    Fetch { url: String },
    /// Open the fetched bytes as a PDF document.
    Open,
    /// Rasterise the page with this index, counted from 0, and process it.
    Rasterize { page_index: usize },
    /// Send the reply; the request is over.
    Respond(Reply),
    /// Nothing: the event was none that the pipeline waited for.
    Idle,
}

/// The mathematical content of an `Action`.
pub enum ActionModel {
    Fetch { url: Seq<char> },
    Open,
    Rasterize { page_index: nat },
    Respond(ReplyModel),
    Idle,
}

impl View for Action {
    type V = ActionModel;

    open spec fn view(&self) -> ActionModel {
        match *self {
            Action::Fetch { url } => ActionModel::Fetch { url: url@ },
            Action::Open => ActionModel::Open,
            Action::Rasterize { page_index } => ActionModel::Rasterize {
                page_index: page_index as nat,
            },
            Action::Respond(reply) => ActionModel::Respond(reply@),
            Action::Idle => ActionModel::Idle,
        }
    }
}

/// The stage that a request is in.
#[derive(Clone, Copy, Debug, PartialEq, Eq, Structural)]
pub enum Stage {
    Fetching,
    Opening,
    IteratingPages,
    Succeeded,
    Failed,
}

/// The state of a request, as a mathematical value.
pub enum StateModel {
    /// Waiting for the bytes of the document.
    Fetching,
    /// Waiting for the document to be opened.
    Opening,
    /// Waiting for the page with index `next_index`; the pages before it
    /// are done.
    IteratingPages { next_index: nat, page_count: nat, results: Seq<PageEntry> },
    /// Every page was recognised and the response was handed out.
    Succeeded { page_count: nat },
    /// The request failed, for this reason.
    Failed(ErrorModel),
}

impl StateModel {
    pub open spec fn stage(self) -> Stage {
        match self {
            StateModel::Fetching => Stage::Fetching,
            StateModel::Opening => Stage::Opening,
            StateModel::IteratingPages { .. } => Stage::IteratingPages,
            StateModel::Succeeded { .. } => Stage::Succeeded,
            StateModel::Failed(_) => Stage::Failed,
        }
    }

    /// Over: no event changes the state any more.
    pub open spec fn is_terminal(self) -> bool {
        self is Succeeded || self is Failed
    }

    /// Between two pages there is one result for each page that is done,
    /// numbered from 1 without a gap, and a page is still to come.
    pub open spec fn well_formed(self) -> bool {
        match self {
            StateModel::IteratingPages { next_index, page_count, results } => {
                &&& next_index < page_count
                &&& results.len() == next_index
                &&& numbered(results)
                &&& all_normalized(results)
            },
            _ => true,
        }
    }
}

/// Whether an HTTP status reports success: the range 200 to 299.
pub open spec fn is_success_status(status: u16) -> bool {
    200 <= status <= 299
}

/// What is reported of an answer without success: its status in decimal.
pub open spec fn status_detail(status: u16) -> Seq<char> {
    "HTTP status "@ + decimal_digits(status as nat)
}

/// Tells whether an HTTP status reports success.
pub fn status_is_success(status: u16) -> (success: bool)
    ensures
        success == is_success_status(status),
{
    200 <= status && status <= 299
}

/// The request fails: the state holds the reason, the reply its status and
/// its message.
pub open spec fn fail(error: ErrorModel) -> (StateModel, ActionModel) {
    (
        StateModel::Failed(error),
        ActionModel::Respond(
            ReplyModel::Failure { status: error.status(), message: error.message() },
        ),
    )
}

/// How a request starts: without a usable body it fails at once, else the
/// document is to be fetched.
pub open spec fn begin_model(request: Option<Seq<char>>) -> (StateModel, ActionModel) {
    match request {
        None => fail(ErrorModel::InvalidBody),
        Some(url) => (StateModel::Fetching, ActionModel::Fetch { url }),
    }
}

/// What becomes of the page with index `next_index` and of the request.
pub open spec fn page_step(
    next_index: nat,
    page_count: nat,
    results: Seq<PageEntry>,
    outcome: OutcomeModel,
) -> (StateModel, ActionModel) {
    let page = next_index + 1;
    match outcome {
        OutcomeModel::LoadFailed { detail } => fail(ErrorModel::PageLoadFailed { page, detail }),
        OutcomeModel::RasterizeFailed { detail } => fail(
            ErrorModel::RasterizeFailed { page, detail },
        ),
        OutcomeModel::AssemblyFailed => fail(ErrorModel::ImageAssemblyFailed { page }),
        OutcomeModel::EncodeFailed { detail } => fail(ErrorModel::EncodeFailed { page, detail }),
        OutcomeModel::OcrFailed { detail } => fail(ErrorModel::OcrFailed { page, detail }),
        OutcomeModel::Text { text } => {
            let done = results.push(PageEntry { page, text: normalize(text) });
            if page == page_count {
                (
                    StateModel::Succeeded { page_count },
                    ActionModel::Respond(
                        ReplyModel::Success(ResponseModel { results: done, page_count }),
                    ),
                )
            } else {
                (
                    StateModel::IteratingPages { next_index: page, page_count, results: done },
                    ActionModel::Rasterize { page_index: page },
                )
            }
        },
    }
}

/// The transition rule: the state after `event` and the action that it
/// calls for. An answer without a status of success is a failure of the
/// fetch. The first failure ends the request, and the results of the pages
/// before it are dropped. An event that the state does not wait for changes
/// nothing.
pub open spec fn step_model(state: StateModel, event: EventModel) -> (StateModel, ActionModel) {
    match state {
        StateModel::Fetching => match event {
            EventModel::FetchFailed { detail } => fail(ErrorModel::FetchFailed { detail }),
            EventModel::ReadFailed { detail } => fail(ErrorModel::ReadFailed { detail }),
            EventModel::Fetched { status } => if is_success_status(status) {
                (StateModel::Opening, ActionModel::Open)
            } else {
                fail(ErrorModel::FetchFailed { detail: status_detail(status) })
            },
            _ => (state, ActionModel::Idle),
        },
        StateModel::Opening => match event {
            EventModel::OpenFailed { detail } => fail(ErrorModel::DecodeFailed { detail }),
            EventModel::Opened { page_count } => if page_count == 0 {
                (
                    StateModel::Succeeded { page_count },
                    ActionModel::Respond(
                        ReplyModel::Success(
                            ResponseModel { results: Seq::<PageEntry>::empty(), page_count },
                        ),
                    ),
                )
            } else {
                (
                    StateModel::IteratingPages {
                        next_index: 0,
                        page_count,
                        results: Seq::<PageEntry>::empty(),
                    },
                    ActionModel::Rasterize { page_index: 0 },
                )
            },
            _ => (state, ActionModel::Idle),
        },
        StateModel::IteratingPages { next_index, page_count, results } => match event {
            EventModel::Page(outcome) => page_step(next_index, page_count, results, outcome),
            _ => (state, ActionModel::Idle),
        },
        _ => (state, ActionModel::Idle),
    }
}

enum State {
    Fetching,
    Opening,
    IteratingPages { next_index: usize, page_count: usize, results: Vec<PageResult> },
    Succeeded { page_count: usize },
    Failed { error: PipelineError },
}

impl View for State {
    type V = StateModel;

    closed spec fn view(&self) -> StateModel {
        match *self {
            State::Fetching => StateModel::Fetching,
            State::Opening => StateModel::Opening,
            State::IteratingPages { next_index, page_count, results } => {
                StateModel::IteratingPages {
                    next_index: next_index as nat,
                    page_count: page_count as nat,
                    results: entries(results@),
                }
            },
            State::Succeeded { page_count } => StateModel::Succeeded {
                page_count: page_count as nat,
            },
            State::Failed { error } => StateModel::Failed(error@),
        }
    }
}

/// The pipeline of one request. It is well formed at all times.
pub struct Pipeline {
    state: State,
}

impl View for Pipeline {
    type V = StateModel;

    closed spec fn view(&self) -> StateModel {
        self.state@
    }
}

/// The failed pipeline and the reply that reports `error`.
fn failed(error: PipelineError) -> (next: (Pipeline, Action))
    ensures
        (next.0@, next.1@) == fail(error@),
{
    let reply = Reply::Failure { status: error.status(), message: error.message() };
    (Pipeline { state: State::Failed { error } }, Action::Respond(reply))
}

impl Pipeline {
    #[verifier::type_invariant]
    spec fn well_formed(self) -> bool {
        self.state@.well_formed()
    }

    /// Starts a request. `None` stands for a body that is missing or is no
    /// valid JSON object with a location.
    pub fn begin(request: Option<DocumentRequest>) -> (start: (Pipeline, Action))
        ensures
            (start.0@, start.1@) == begin_model(
                match request {
                    Some(r) => Some(r.url@),
                    None => None,
                },
            ),
            start.0@.well_formed(),
    {
        match request {
            None => failed(PipelineError::InvalidBody),
            Some(request) => (
                Pipeline { state: State::Fetching },
                Action::Fetch { url: request.url },
            ),
        }
    }

    /// Takes one event and says what to do next.
    pub fn step(self, event: Event) -> (next: (Pipeline, Action))
        ensures
            (next.0@, next.1@) == step_model(self@, event@),
            self@.well_formed(),
            next.0@.well_formed(),
    {
        proof {
            use_type_invariant(&self);
        }
        match self.state {
            State::Fetching => match event {
                Event::FetchFailed { detail } => failed(PipelineError::FetchFailed { detail }),
                Event::ReadFailed { detail } => failed(PipelineError::ReadFailed { detail }),
                Event::Fetched { status } => if status_is_success(status) {
                    (Pipeline { state: State::Opening }, Action::Open)
                } else {
                    let mut detail = "HTTP status ".to_owned();
                    detail.append(decimal(status as usize).as_str());
                    failed(PipelineError::FetchFailed { detail })
                },
                _ => (Pipeline { state: State::Fetching }, Action::Idle),
            },
            State::Opening => match event {
                Event::OpenFailed { detail } => failed(PipelineError::DecodeFailed { detail }),
                Event::Opened { page_count } => {
                    let results: Vec<PageResult> = Vec::new();
                    assert(entries(results@) =~= Seq::<PageEntry>::empty());
                    if page_count == 0 {
                        (
                            Pipeline { state: State::Succeeded { page_count } },
                            Action::Respond(Reply::Success(OcrResponse { results, page_count })),
                        )
                    } else {
                        (
                            Pipeline {
                                state: State::IteratingPages { next_index: 0, page_count, results },
                            },
                            Action::Rasterize { page_index: 0 },
                        )
                    }
                },
                _ => (Pipeline { state: State::Opening }, Action::Idle),
            },
            State::IteratingPages { next_index, page_count, results } => match event {
                Event::Page(outcome) => take_page(next_index, page_count, results, outcome),
                _ => (
                    Pipeline { state: State::IteratingPages { next_index, page_count, results } },
                    Action::Idle,
                ),
            },
            State::Succeeded { page_count } => (
                Pipeline { state: State::Succeeded { page_count } },
                Action::Idle,
            ),
            State::Failed { error } => (Pipeline { state: State::Failed { error } }, Action::Idle),
        }
    }

    /// The stage that the request is in.
    pub fn stage(&self) -> (stage: Stage)
        ensures
            stage == self@.stage(),
            self@.well_formed(),
    {
        proof {
            use_type_invariant(self);
        }
        match &self.state {
            State::Fetching => Stage::Fetching,
            State::Opening => Stage::Opening,
            State::IteratingPages { .. } => Stage::IteratingPages,
            State::Succeeded { .. } => Stage::Succeeded,
            State::Failed { .. } => Stage::Failed,
        }
    }

    /// Whether the request is over.
    pub fn is_finished(&self) -> (finished: bool)
        ensures
            finished == self@.is_terminal(),
    {
        match &self.state {
            State::Succeeded { .. } => true,
            State::Failed { .. } => true,
            _ => false,
        }
    }

    /// The number of pages of the document, once it is open.
    pub fn page_count(&self) -> (page_count: Option<usize>)
        ensures
            page_count == match self@ {
                StateModel::IteratingPages { page_count, .. } => Some(page_count as usize),
                StateModel::Succeeded { page_count } => Some(page_count as usize),
                _ => None,
            },
    {
        match &self.state {
            State::IteratingPages { page_count, .. } => Some(*page_count),
            State::Succeeded { page_count } => Some(*page_count),
            _ => None,
        }
    }

    /// The number of pages that are done, while pages are taken.
    pub fn pages_done(&self) -> (done: Option<usize>)
        ensures
            done == match self@ {
                StateModel::IteratingPages { next_index, .. } => Some(next_index as usize),
                _ => None,
            },
    {
        match &self.state {
            State::IteratingPages { next_index, .. } => Some(*next_index),
            _ => None,
        }
    }

    /// Why the request failed, if it did.
    pub fn failure(&self) -> (failure: Option<&PipelineError>)
        ensures
            match failure {
                Some(error) => self@ == StateModel::Failed(error@),
                None => !(self@ is Failed),
            },
    {
        match &self.state {
            State::Failed { error } => Some(error),
            _ => None,
        }
    }
}

/// Takes the outcome of the page with index `next_index`.
fn take_page(
    next_index: usize,
    page_count: usize,
    results: Vec<PageResult>,
    outcome: PageOutcome,
) -> (next: (Pipeline, Action))
    requires
        next_index < page_count,
        results@.len() == next_index,
        numbered(entries(results@)),
        all_normalized(entries(results@)),
    ensures
        (next.0@, next.1@) == page_step(
            next_index as nat,
            page_count as nat,
            entries(results@),
            outcome@,
        ),
        next.0@.well_formed(),
{
    let page = next_index + 1;
    match outcome {
        PageOutcome::LoadFailed { detail } => failed(PipelineError::PageLoadFailed { page, detail }),
        PageOutcome::RasterizeFailed { detail } => failed(
            PipelineError::RasterizeFailed { page, detail },
        ),
        PageOutcome::AssemblyFailed => failed(PipelineError::ImageAssemblyFailed { page }),
        PageOutcome::EncodeFailed { detail } => failed(PipelineError::EncodeFailed { page, detail }),
        PageOutcome::OcrFailed { detail } => failed(PipelineError::OcrFailed { page, detail }),
        PageOutcome::Text { text } => {
            let text = clean_ocr_text(text.as_str());
            let mut results = results;
            let ghost before = entries(results@);
            let result = PageResult { page, text };
            let ghost entry = result@;
            results.push(result);
            proof {
                assert(entries(results@) =~= before.push(entry));
                assert(numbered(entries(results@)));
                assert(all_normalized(entries(results@)));
            }
            if page == page_count {
                (
                    Pipeline { state: State::Succeeded { page_count } },
                    Action::Respond(Reply::Success(OcrResponse { results, page_count })),
                )
            } else {
                (
                    Pipeline {
                        state: State::IteratingPages { next_index: page, page_count, results },
                    },
                    Action::Rasterize { page_index: page },
                )
            }
        },
    }
}

} // verus!

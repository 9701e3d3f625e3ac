//! What holds of every request, proved of the transition rule.

use crate::error::{ErrorClass, ErrorModel, STATUS_BAD_REQUEST, STATUS_INTERNAL_ERROR};
use crate::decimal::decimal_digits;
use crate::page::{
    all_normalized, numbered, recognised_model, OutcomeModel, PageEntry, ResponseModel,
};
use crate::pipeline::{
    begin_model, fail, is_success_status, status_detail, step_model, ActionModel, EventModel,
    ReplyModel, StateModel,
};
use crate::text::{is_normalized, lemma_normalize_is_normalized, normalize};
use vstd::prelude::*;

verus! {

/// The state and the last action after the events were taken in order.
pub open spec fn run_model(start: (StateModel, ActionModel), events: Seq<EventModel>) -> (
    StateModel,
    ActionModel,
)
    decreases events.len(),
{
    if events.len() == 0 {
        start
    } else {
        step_model(run_model(start, events.drop_last()).0, events.last())
    }
}

/// The events of pages whose texts were recognised, one for each text.
pub open spec fn text_events(raws: Seq<Seq<char>>) -> Seq<EventModel> {
    Seq::new(raws.len(), |i: int| EventModel::Page(OutcomeModel::Text { text: raws[i] }))
}

/// The results for pages with these raw texts: numbered from 1, each text
/// normalised.
pub open spec fn recognised(raws: Seq<Seq<char>>) -> Seq<PageEntry> {
    Seq::new(raws.len(), |i: int| PageEntry { page: (i + 1) as nat, text: normalize(raws[i]) })
}

/// The events of a document of `raws.len()` pages that is fetched with
/// `status`, opened and recognised page by page.
pub open spec fn document_events(status: u16, raws: Seq<Seq<char>>) -> Seq<EventModel> {
    seq![EventModel::Fetched { status }, EventModel::Opened { page_count: raws.len() }]
        + text_events(raws)
}

/// Every transition keeps the state well formed.
pub proof fn lemma_step_keeps_well_formed(state: StateModel, event: EventModel)
    requires
        state.well_formed(),
    ensures
        step_model(state, event).0.well_formed(),
{
    if let StateModel::IteratingPages { next_index, page_count, results } = state {
        if let EventModel::Page(OutcomeModel::Text { text }) = event {
            lemma_normalize_is_normalized(text);
        }
    }
}

/// A response is handed out only when it is complete: it holds one result
/// for each page of the document, the pages are numbered 1, 2, 3, ... in
/// ascending order without a gap, and every text is in normal form.
pub proof fn lemma_success_is_complete(state: StateModel, event: EventModel)
    requires
        state.well_formed(),
    ensures
        step_model(state, event).1 matches ActionModel::Respond(ReplyModel::Success(response))
            ==> response.complete() && step_model(state, event).0 == (StateModel::Succeeded {
            page_count: response.page_count,
        }),
{
    if let StateModel::IteratingPages { next_index, page_count, results } = state {
        if let EventModel::Page(OutcomeModel::Text { text }) = event {
            lemma_normalize_is_normalized(text);
        }
    }
}

/// A failure ends the request at once with nothing but a status and a
/// message: 400 for a failure of the fetch, 500 for every later one, and the
/// state keeps the reason.
pub proof fn lemma_failure_is_final(state: StateModel, event: EventModel)
    ensures
        step_model(state, event).1 matches ActionModel::Respond(
            ReplyModel::Failure { status, message },
        ) ==> {
            &&& step_model(state, event).0 matches StateModel::Failed(error)
            &&& status == error.status()
            &&& message == error.message()
            &&& (error.class() == ErrorClass::Input <==> state is Fetching)
            &&& (status == STATUS_BAD_REQUEST <==> state is Fetching)
            &&& (status == STATUS_INTERNAL_ERROR <==> !(state is Fetching))
            &&& (state matches StateModel::IteratingPages { next_index, .. } ==> error.page()
                == Some(next_index + 1))
        },
{
}

/// Once a request has succeeded or failed, no event changes its state or
/// calls for any further work.
pub proof fn lemma_terminal_absorbs(state: StateModel, events: Seq<EventModel>)
    requires
        state.is_terminal(),
        events.len() > 0,
    ensures
        run_model((state, ActionModel::Idle), events) == (state, ActionModel::Idle),
    decreases events.len(),
{
    if events.len() > 1 {
        lemma_terminal_absorbs(state, events.drop_last());
    } else {
        assert(run_model((state, ActionModel::Idle), events.drop_last()).0 == state);
    }
}

/// A request without a usable body is answered with status 400 and the
/// message "JSON inválido ou ausente", and whatever is reported afterwards
/// calls for no fetch, no opening and no page.
pub proof fn lemma_missing_body_is_rejected(events: Seq<EventModel>)
    ensures
        begin_model(None) == (
            StateModel::Failed(ErrorModel::InvalidBody),
            ActionModel::Respond(
                ReplyModel::Failure {
                    status: STATUS_BAD_REQUEST,
                    message: "JSON inválido ou ausente"@,
                },
            ),
        ),
        ErrorModel::InvalidBody.class() == ErrorClass::Input,
        events.len() > 0 ==> run_model(begin_model(None), events) == (
            StateModel::Failed(ErrorModel::InvalidBody),
            ActionModel::Idle,
        ),
    decreases events.len(),
{
    if events.len() > 1 {
        lemma_missing_body_is_rejected(events.drop_last());
    } else if events.len() == 1 {
        assert(run_model(begin_model(None), events.drop_last()) == begin_model(None));
    }
}

/// A location that cannot be fetched fails the request as an input error,
/// with status 400 and a message that holds the transport's own text; the
/// document is never opened.
pub proof fn lemma_fetch_failure_is_input_error(url: Seq<char>, detail: Seq<char>)
    ensures
        step_model(begin_model(Some(url)).0, EventModel::FetchFailed { detail }) == (
            StateModel::Failed(ErrorModel::FetchFailed { detail }),
            ActionModel::Respond(
                ReplyModel::Failure {
                    status: STATUS_BAD_REQUEST,
                    message: "Falha ao baixar PDF: "@ + detail,
                },
            ),
        ),
        (ErrorModel::FetchFailed { detail }).class() == ErrorClass::Input,
{
}

/// An answer without a status of success fails the request as an input
/// error, with status 400 and a message that names the answer's status; the
/// document is never opened, and whatever is reported afterwards calls for
/// no work.
pub proof fn lemma_non_success_status_is_fetch_failure(
    url: Seq<char>,
    status: u16,
    events: Seq<EventModel>,
)
    requires
        !is_success_status(status),
    ensures
        step_model(begin_model(Some(url)).0, EventModel::Fetched { status }) == (
            StateModel::Failed(ErrorModel::FetchFailed { detail: status_detail(status) }),
            ActionModel::Respond(
                ReplyModel::Failure {
                    status: STATUS_BAD_REQUEST,
                    message: "Falha ao baixar PDF: "@ + "HTTP status "@ + decimal_digits(
                        status as nat,
                    ),
                },
            ),
        ),
        events.len() > 0 ==> run_model(
            (
                StateModel::Failed(ErrorModel::FetchFailed { detail: status_detail(status) }),
                ActionModel::Idle,
            ),
            events,
        ) == (
            StateModel::Failed(ErrorModel::FetchFailed { detail: status_detail(status) }),
            ActionModel::Idle,
        ),
{
    assert("Falha ao baixar PDF: "@ + status_detail(status) =~= "Falha ao baixar PDF: "@
        + "HTTP status "@ + decimal_digits(status as nat));
    if events.len() > 0 {
        lemma_terminal_absorbs(
            StateModel::Failed(ErrorModel::FetchFailed { detail: status_detail(status) }),
            events,
        );
    }
}

/// An answer with a status of success lets the request go on to the
/// opening of the document.
pub proof fn lemma_success_status_opens(url: Seq<char>, status: u16)
    requires
        is_success_status(status),
    ensures
        step_model(begin_model(Some(url)).0, EventModel::Fetched { status }) == (
            StateModel::Opening,
            ActionModel::Open,
        ),
{
}

/// The failure of the engine on a page fails the whole request with an OCR
/// error for that page that holds the engine's own text; no text is
/// recorded for the page.
pub proof fn lemma_engine_failure_fails_request(
    next_index: nat,
    page_count: nat,
    results: Seq<PageEntry>,
    detail: String,
)
    ensures
        step_model(
            StateModel::IteratingPages { next_index, page_count, results },
            EventModel::Page(recognised_model(Err(detail))),
        ) == fail(ErrorModel::OcrFailed { page: next_index + 1, detail: detail@ }),
        (ErrorModel::OcrFailed { page: next_index + 1, detail: detail@ }).status()
            == STATUS_INTERNAL_ERROR,
{
}

/// Bytes that are no document fail the request as a processing error, with
/// status 500 and a message that holds the parser's own text; the reply
/// holds no page result.
pub proof fn lemma_decode_failure_is_processing_error(detail: Seq<char>)
    ensures
        step_model(StateModel::Opening, EventModel::OpenFailed { detail }) == (
            StateModel::Failed(ErrorModel::DecodeFailed { detail }),
            ActionModel::Respond(
                ReplyModel::Failure {
                    status: STATUS_INTERNAL_ERROR,
                    message: "Não foi possível carregar o PDF: "@ + detail,
                },
            ),
        ),
        (ErrorModel::DecodeFailed { detail }).class() == ErrorClass::Processing,
{
}

/// A page whose pixel buffer does not match its dimensions fails the whole
/// request with an image assembly error for that page, whatever pages were
/// done before it; no text is recorded for it.
pub proof fn lemma_inconsistent_bitmap_fails_request(
    next_index: nat,
    page_count: nat,
    results: Seq<PageEntry>,
)
    ensures
        step_model(
            StateModel::IteratingPages { next_index, page_count, results },
            EventModel::Page(OutcomeModel::AssemblyFailed),
        ) == fail(ErrorModel::ImageAssemblyFailed { page: next_index + 1 }),
        (ErrorModel::ImageAssemblyFailed { page: next_index + 1 }).status()
            == STATUS_INTERNAL_ERROR,
{
}

/// Running over two runs of events in a row is running over the first and
/// then over the second.
proof fn lemma_run_splits(
    start: (StateModel, ActionModel),
    first: Seq<EventModel>,
    second: Seq<EventModel>,
)
    ensures
        run_model(start, first + second) == run_model(run_model(start, first), second),
    decreases second.len(),
{
    if second.len() == 0 {
        assert(first + second =~= first);
    } else {
        lemma_run_splits(start, first, second.drop_last());
        assert((first + second).drop_last() =~= first + second.drop_last());
        assert((first + second).last() == second.last());
    }
}

/// Where the pipeline stands after `raws.len()` of the `page_count` pages
/// of a document were recognised in order.
proof fn lemma_run_pages(page_count: nat, raws: Seq<Seq<char>>)
    requires
        0 < page_count,
        raws.len() <= page_count,
    ensures
        run_model(
            (
                StateModel::IteratingPages {
                    next_index: 0,
                    page_count,
                    results: Seq::<PageEntry>::empty(),
                },
                ActionModel::Rasterize { page_index: 0 },
            ),
            text_events(raws),
        ) == if raws.len() < page_count {
            (
                StateModel::IteratingPages {
                    next_index: raws.len(),
                    page_count,
                    results: recognised(raws),
                },
                ActionModel::Rasterize { page_index: raws.len() },
            )
        } else {
            (
                StateModel::Succeeded { page_count },
                ActionModel::Respond(
                    ReplyModel::Success(ResponseModel { results: recognised(raws), page_count }),
                ),
            )
        },
    decreases raws.len(),
{
    if raws.len() == 0 {
        assert(recognised(raws) =~= Seq::<PageEntry>::empty());
    } else {
        let shorter = raws.drop_last();
        lemma_run_pages(page_count, shorter);
        assert(text_events(raws).drop_last() =~= text_events(shorter));
        assert(text_events(raws).last() == EventModel::Page(
            OutcomeModel::Text { text: raws.last() },
        ));
        assert(recognised(raws) =~= recognised(shorter).push(
            PageEntry { page: raws.len(), text: normalize(raws.last()) },
        ));
    }
}

/// A document of N pages that is fetched with a status of success, opened
/// and recognised page by page is answered with exactly N results, for the
/// pages 1 to N in ascending order, each with the normalised text of its
/// page, and with a page count of N.
pub proof fn lemma_document_of_n_pages(url: Seq<char>, status: u16, raws: Seq<Seq<char>>)
    requires
        is_success_status(status),
    ensures
        run_model(begin_model(Some(url)), document_events(status, raws)) == (
            StateModel::Succeeded { page_count: raws.len() },
            ActionModel::Respond(
                ReplyModel::Success(
                    ResponseModel { results: recognised(raws), page_count: raws.len() },
                ),
            ),
        ),
        recognised(raws).len() == raws.len(),
        numbered(recognised(raws)),
        all_normalized(recognised(raws)),
{
    let start = begin_model(Some(url));
    let head = seq![EventModel::Fetched { status }, EventModel::Opened { page_count: raws.len() }];
    let n = raws.len();
    assert(run_model(start, head) == step_model(StateModel::Opening, head[1])) by {
        reveal_with_fuel(run_model, 3);
        assert(head.drop_last() =~= seq![EventModel::Fetched { status }]);
        assert(head.drop_last().drop_last() =~= Seq::<EventModel>::empty());
        assert(head.last() == head[1]);
        assert(head.drop_last().last() == EventModel::Fetched { status });
    }
    lemma_run_splits(start, head, text_events(raws));
    if n == 0 {
        assert(text_events(raws) =~= Seq::<EventModel>::empty());
        assert(recognised(raws) =~= Seq::<PageEntry>::empty());
    } else {
        lemma_run_pages(n, raws);
    }
    assert forall|i: int| 0 <= i < recognised(raws).len() implies is_normalized(
        (#[trigger] recognised(raws)[i]).text,
    ) by {
        lemma_normalize_is_normalized(raws[i]);
    }
}

/// A document of a single page that is fetched with a status of success
/// is answered with a page count of 1 and
/// exactly one result, for page 1, with the normalised text of the page.
pub proof fn lemma_single_page_document(url: Seq<char>, status: u16, raw: Seq<char>)
    requires
        is_success_status(status),
    ensures
        run_model(begin_model(Some(url)), document_events(status, seq![raw])) == (
            StateModel::Succeeded { page_count: 1 },
            ActionModel::Respond(
                ReplyModel::Success(
                    ResponseModel {
                        results: seq![PageEntry { page: 1, text: normalize(raw) }],
                        page_count: 1,
                    },
                ),
            ),
        ),
{
    lemma_document_of_n_pages(url, status, seq![raw]);
    assert(recognised(seq![raw]) =~= seq![PageEntry { page: 1, text: normalize(raw) }]);
}

} // verus!

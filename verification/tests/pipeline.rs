use pdf_to_ocr::error::PipelineError;
use pdf_to_ocr::page::{OcrResponse, PageOutcome, PageResult};
use pdf_to_ocr::pipeline::{Action, DocumentRequest, Event, Pipeline, Reply, Stage};

fn text(s: &str) -> String {
    s.to_string()
}

fn started(url: &str) -> Pipeline {
    let (pipeline, action) = Pipeline::begin(Some(DocumentRequest { url: text(url) }));
    assert_eq!(action, Action::Fetch { url: text(url) });
    pipeline
}

fn opened(url: &str, page_count: usize) -> (Pipeline, Action) {
    let pipeline = started(url);
    let (pipeline, action) = pipeline.step(Event::Fetched { status: 200 });
    assert_eq!(action, Action::Open);
    assert_eq!(pipeline.stage(), Stage::Opening);
    pipeline.step(Event::Opened { page_count })
}

fn page_text(raw: &str) -> Event {
    Event::Page(PageOutcome::Text { text: text(raw) })
}

fn failure(status: u16, message: &str) -> Action {
    Action::Respond(Reply::Failure { status, message: text(message) })
}

#[test]
fn missing_body_is_rejected_without_any_work() {
    let (pipeline, action) = Pipeline::begin(None);
    assert_eq!(action, failure(400, "JSON inválido ou ausente"));
    assert_eq!(pipeline.stage(), Stage::Failed);
    assert!(pipeline.is_finished());
    assert_eq!(pipeline.failure(), Some(&PipelineError::InvalidBody));
    let (pipeline, action) = pipeline.step(Event::Fetched { status: 200 });
    assert_eq!(action, Action::Idle);
    let (pipeline, action) = pipeline.step(Event::Opened { page_count: 3 });
    assert_eq!(action, Action::Idle);
    let (pipeline, action) = pipeline.step(page_text("x"));
    assert_eq!(action, Action::Idle);
    assert_eq!(pipeline.failure(), Some(&PipelineError::InvalidBody));
}

#[test]
fn request_starts_with_the_fetch() {
    let pipeline = started("https://example.test/a.pdf");
    assert_eq!(pipeline.stage(), Stage::Fetching);
    assert!(!pipeline.is_finished());
    assert_eq!(pipeline.page_count(), None);
    assert_eq!(pipeline.pages_done(), None);
    assert_eq!(pipeline.failure(), None);
}

#[test]
fn unreachable_location_is_an_input_error() {
    let pipeline = started("https://unreachable.invalid/a.pdf");
    let (pipeline, action) = pipeline.step(Event::FetchFailed { detail: text("dns error") });
    assert_eq!(action, failure(400, "Falha ao baixar PDF: dns error"));
    assert_eq!(pipeline.stage(), Stage::Failed);
    assert_eq!(
        pipeline.failure(),
        Some(&PipelineError::FetchFailed { detail: text("dns error") })
    );
    let (_, action) = pipeline.step(Event::Fetched { status: 200 });
    assert_eq!(action, Action::Idle);
}

#[test]
fn unreadable_answer_is_an_input_error() {
    let pipeline = started("https://example.test/a.pdf");
    let (pipeline, action) = pipeline.step(Event::ReadFailed { detail: text("truncated") });
    assert_eq!(action, failure(400, "Erro ao ler resposta: truncated"));
    assert_eq!(pipeline.stage(), Stage::Failed);
}

#[test]
fn bytes_that_are_no_document_are_a_processing_error() {
    let pipeline = started("https://example.test/not-a-pdf.txt");
    let (pipeline, action) = pipeline.step(Event::Fetched { status: 200 });
    assert_eq!(action, Action::Open);
    let (pipeline, action) = pipeline.step(Event::OpenFailed { detail: text("no objects") });
    assert_eq!(action, failure(500, "Não foi possível carregar o PDF: no objects"));
    assert_eq!(pipeline.stage(), Stage::Failed);
    assert_eq!(pipeline.page_count(), None);
    assert_eq!(
        pipeline.failure(),
        Some(&PipelineError::DecodeFailed { detail: text("no objects") })
    );
}

#[test]
fn blank_single_page_document() {
    let (pipeline, action) = opened("https://example.test/blank.pdf", 1);
    assert_eq!(action, Action::Rasterize { page_index: 0 });
    assert_eq!(pipeline.stage(), Stage::IteratingPages);
    assert_eq!(pipeline.page_count(), Some(1));
    assert_eq!(pipeline.pages_done(), Some(0));
    let (pipeline, action) = pipeline.step(page_text(""));
    assert_eq!(
        action,
        Action::Respond(Reply::Success(OcrResponse {
            results: vec![PageResult { page: 1, text: String::new() }],
            page_count: 1,
        }))
    );
    assert_eq!(pipeline.stage(), Stage::Succeeded);
    assert_eq!(pipeline.page_count(), Some(1));
    assert!(pipeline.is_finished());
}

#[test]
fn single_page_document_has_one_result_for_page_one() {
    let (pipeline, _) = opened("https://example.test/one.pdf", 1);
    let (_, action) = pipeline.step(page_text("  Olá\u{000C}\n"));
    match action {
        Action::Respond(reply) => {
            assert_eq!(reply.status(), 200);
            match reply {
                Reply::Success(response) => {
                    assert_eq!(response.page_count, 1);
                    assert_eq!(response.results.len(), 1);
                    assert_eq!(response.results[0].page, 1);
                    assert_eq!(response.results[0].text, "Olá");
                }
                other => panic!("unexpected reply: {:?}", other),
            }
        }
        other => panic!("unexpected action: {:?}", other),
    }
}

#[test]
fn multi_page_document_is_numbered_in_order() {
    let n: usize = 5;
    let (mut pipeline, mut action) = opened("https://example.test/five.pdf", n);
    for i in 0..n {
        assert_eq!(action, Action::Rasterize { page_index: i });
        assert_eq!(pipeline.pages_done(), Some(i));
        assert_eq!(pipeline.page_count(), Some(n));
        let next = pipeline.step(page_text(&format!(" página {} \n", i + 1)));
        pipeline = next.0;
        action = next.1;
    }
    assert_eq!(pipeline.stage(), Stage::Succeeded);
    match action {
        Action::Respond(Reply::Success(response)) => {
            assert_eq!(response.page_count, n);
            assert_eq!(response.results.len(), n);
            for (i, result) in response.results.iter().enumerate() {
                assert_eq!(result.page, i + 1);
                assert_eq!(result.text, format!("página {}", i + 1));
            }
        }
        other => panic!("unexpected action: {:?}", other),
    }
}

#[test]
fn document_without_pages_succeeds_at_once() {
    let (pipeline, action) = opened("https://example.test/empty.pdf", 0);
    assert_eq!(
        action,
        Action::Respond(Reply::Success(OcrResponse { results: Vec::new(), page_count: 0 }))
    );
    assert_eq!(pipeline.stage(), Stage::Succeeded);
    assert_eq!(pipeline.page_count(), Some(0));
}

#[test]
fn inconsistent_bitmap_fails_the_whole_request() {
    let (pipeline, _) = opened("https://example.test/two.pdf", 2);
    let (pipeline, action) = pipeline.step(page_text("primeira"));
    assert_eq!(action, Action::Rasterize { page_index: 1 });
    let outcome = pdf_to_ocr::page::encode_page(3, 3, vec![0u8; 26]).unwrap_err();
    assert_eq!(outcome, PageOutcome::AssemblyFailed);
    let (pipeline, action) = pipeline.step(Event::Page(outcome));
    assert_eq!(action, failure(500, "Falha ao criar imagem da página 2"));
    assert_eq!(pipeline.stage(), Stage::Failed);
    assert_eq!(pipeline.failure(), Some(&PipelineError::ImageAssemblyFailed { page: 2 }));
    assert_eq!(pipeline.pages_done(), None);
}

#[test]
fn page_failures_name_their_page() {
    let cases: Vec<(PageOutcome, &str)> = vec![
        (PageOutcome::LoadFailed { detail: text("d") }, "Erro ao carregar página 3: d"),
        (PageOutcome::RasterizeFailed { detail: text("d") }, "Erro ao gerar pixmap da página 3: d"),
        (PageOutcome::AssemblyFailed, "Falha ao criar imagem da página 3"),
        (PageOutcome::EncodeFailed { detail: text("d") }, "Erro ao salvar imagem da página 3: d"),
        (PageOutcome::OcrFailed { detail: text("d") }, "Erro ao processar OCR (página 3): d"),
    ];
    for (outcome, message) in cases {
        let (pipeline, _) = opened("https://example.test/four.pdf", 4);
        let (pipeline, _) = pipeline.step(page_text("um"));
        let (pipeline, action) = pipeline.step(page_text("dois"));
        assert_eq!(action, Action::Rasterize { page_index: 2 });
        let (pipeline, action) = pipeline.step(Event::Page(outcome));
        assert_eq!(action, failure(500, message));
        assert_eq!(pipeline.failure().and_then(|e| e.page()), Some(3));
        let (_, action) = pipeline.step(page_text("três"));
        assert_eq!(action, Action::Idle);
    }
}

#[test]
fn events_out_of_turn_change_nothing() {
    let pipeline = started("https://example.test/a.pdf");
    let (pipeline, action) = pipeline.step(Event::Opened { page_count: 2 });
    assert_eq!(action, Action::Idle);
    assert_eq!(pipeline.stage(), Stage::Fetching);
    let (pipeline, action) = pipeline.step(page_text("x"));
    assert_eq!(action, Action::Idle);
    assert_eq!(pipeline.stage(), Stage::Fetching);
    let (pipeline, _) = pipeline.step(Event::Fetched { status: 200 });
    let (pipeline, action) = pipeline.step(Event::Fetched { status: 200 });
    assert_eq!(action, Action::Idle);
    assert_eq!(pipeline.stage(), Stage::Opening);
    let (pipeline, action) = pipeline.step(Event::FetchFailed { detail: text("late") });
    assert_eq!(action, Action::Idle);
    let (pipeline, _) = pipeline.step(Event::Opened { page_count: 2 });
    let (pipeline, action) = pipeline.step(Event::OpenFailed { detail: text("late") });
    assert_eq!(action, Action::Idle);
    assert_eq!(pipeline.stage(), Stage::IteratingPages);
    assert_eq!(pipeline.pages_done(), Some(0));
}

#[test]
fn finished_request_takes_no_more_pages() {
    let (pipeline, _) = opened("https://example.test/one.pdf", 1);
    let (pipeline, _) = pipeline.step(page_text("fim"));
    let (pipeline, action) = pipeline.step(page_text("mais"));
    assert_eq!(action, Action::Idle);
    assert_eq!(pipeline.stage(), Stage::Succeeded);
    assert_eq!(pipeline.page_count(), Some(1));
}

#[test]
fn reply_status() {
    assert_eq!(
        Reply::Success(OcrResponse { results: Vec::new(), page_count: 0 }).status(),
        200
    );
    assert_eq!(Reply::Failure { status: 400, message: text("m") }.status(), 400);
    assert_eq!(Reply::Failure { status: 500, message: text("m") }.status(), 500);
}

#[test]
fn stored_text_is_normalised_on_entry() {
    let (pipeline, _) = opened("https://example.test/one.pdf", 1);
    let (_, action) = pipeline.step(page_text("\u{0000} a\u{0007}b \u{00A0}"));
    assert_eq!(
        action,
        Action::Respond(Reply::Success(OcrResponse {
            results: vec![PageResult { page: 1, text: text("ab") }],
            page_count: 1,
        }))
    );
}

#[test]
fn answer_without_success_is_a_fetch_failure() {
    for (status, message) in [
        (404u16, "Falha ao baixar PDF: HTTP status 404"),
        (503, "Falha ao baixar PDF: HTTP status 503"),
        (301, "Falha ao baixar PDF: HTTP status 301"),
        (199, "Falha ao baixar PDF: HTTP status 199"),
        (300, "Falha ao baixar PDF: HTTP status 300"),
        (0, "Falha ao baixar PDF: HTTP status 0"),
        (u16::MAX, "Falha ao baixar PDF: HTTP status 65535"),
    ] {
        let pipeline = started("https://example.test/missing.pdf");
        let (pipeline, action) = pipeline.step(Event::Fetched { status });
        assert_eq!(action, failure(400, message));
        assert_eq!(pipeline.stage(), Stage::Failed);
        assert_eq!(pipeline.page_count(), None);
        let (pipeline, action) = pipeline.step(Event::Opened { page_count: 1 });
        assert_eq!(action, Action::Idle);
        let (pipeline, action) = pipeline.step(page_text("x"));
        assert_eq!(action, Action::Idle);
        assert_eq!(pipeline.stage(), Stage::Failed);
    }
}

#[test]
fn every_status_of_success_opens_the_document() {
    for status in [200u16, 201, 204, 206, 299] {
        assert!(pdf_to_ocr::pipeline::status_is_success(status));
        let pipeline = started("https://example.test/a.pdf");
        let (pipeline, action) = pipeline.step(Event::Fetched { status });
        assert_eq!(action, Action::Open);
        assert_eq!(pipeline.stage(), Stage::Opening);
    }
    for status in [0u16, 100, 199, 300, 400, 404, 500, 65535] {
        assert!(!pdf_to_ocr::pipeline::status_is_success(status));
    }
}

#[test]
fn engine_failure_fails_the_whole_request() {
    let (pipeline, _) = opened("https://example.test/two.pdf", 2);
    let (pipeline, _) = pipeline.step(page_text("primeira"));
    let outcome = pdf_to_ocr::page::recognised_page(Err(text("exit status: 1")));
    let (pipeline, action) = pipeline.step(Event::Page(outcome));
    assert_eq!(action, failure(500, "Erro ao processar OCR (página 2): exit status: 1"));
    assert_eq!(pipeline.stage(), Stage::Failed);
    assert_eq!(
        pipeline.failure(),
        Some(&PipelineError::OcrFailed { page: 2, detail: text("exit status: 1") })
    );
}

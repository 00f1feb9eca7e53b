use listenink::document::start_document;
use listenink::error::{Error, Stage, NO_RESPONSE_MESSAGE, REFERENCE_MESSAGE};
use listenink::page::{PageAction, PageEvent, PagePipeline, PageState, PipelineConfig};
use listenink::report::{aggregate, page_side, UploadResult};
use listenink::response::{interpret_first_choice, ChatResponse, ChoiceMessage};

const HASH: &str = "abc123";

fn config() -> PipelineConfig {
    PipelineConfig {
        bucket: "docs".to_string(),
        audio_bucket: "audio".to_string(),
        endpoint: "https://store.example.com".to_string(),
    }
}

/// Drives a page, answering each call as the closure says; returns the
/// calls made and the outcome.
fn drive(
    mut p: PagePipeline,
    first: PageAction,
    mut answer: impl FnMut(&PageAction) -> PageEvent,
) -> (Vec<String>, Result<(), Error>) {
    let mut calls = Vec::new();
    let mut action = first;
    loop {
        match &action {
            PageAction::Finish(outcome) => return (calls, outcome.clone()),
            PageAction::Store { bucket, key, .. } => calls.push(format!("store {bucket} {key}")),
            PageAction::Recognize { image_url } => calls.push(format!("recognize {image_url}")),
            PageAction::Synthesize { text } => calls.push(format!("synthesize {text}")),
        }
        let ev = answer(&action);
        assert!(p.accepts(&ev));
        action = p.step(ev);
    }
}

fn happy(action: &PageAction) -> PageEvent {
    match action {
        PageAction::Store { .. } => PageEvent::Stored,
        PageAction::Recognize { .. } => {
            PageEvent::Recognized(Some(ChatResponse::Content("hello".to_string())))
        }
        PageAction::Synthesize { .. } => PageEvent::Synthesized(vec![1, 2, 3]),
        PageAction::Finish(_) => unreachable!(),
    }
}

#[test]
fn page_runs_all_stages_in_order() {
    let (p, first) = PagePipeline::start(&config(), HASH, 3, vec![9, 9]);
    assert_eq!(
        first,
        PageAction::Store { bucket: "docs".to_string(), key: "abc123/3.jpg".to_string(), body: vec![9, 9] }
    );
    let (calls, outcome) = drive(p, first, happy);
    assert_eq!(
        calls,
        vec![
            "store docs abc123/3.jpg",
            "recognize https://store.example.com/docs/abc123/3.jpg",
            "store docs abc123/3.txt",
            "synthesize hello",
            "store audio abc123/3.mp3",
        ]
    );
    assert_eq!(outcome, Ok(()));
}

#[test]
fn text_and_audio_bodies() {
    let (mut p, _) = PagePipeline::start(&config(), HASH, 0, vec![]);
    assert_eq!(p.step(PageEvent::Stored), PageAction::Recognize {
        image_url: "https://store.example.com/docs/abc123/0.jpg".to_string()
    });
    let a = p.step(PageEvent::Recognized(Some(ChatResponse::Content("héllo".to_string()))));
    assert_eq!(
        a,
        PageAction::Store {
            bucket: "docs".to_string(),
            key: "abc123/0.txt".to_string(),
            body: "héllo".as_bytes().to_vec()
        }
    );
    assert_eq!(p.state, PageState::StoringText("héllo".to_string()));
    assert_eq!(p.step(PageEvent::Stored), PageAction::Synthesize { text: "héllo".to_string() });
    assert_eq!(
        p.step(PageEvent::Synthesized(vec![7])),
        PageAction::Store { bucket: "audio".to_string(), key: "abc123/0.mp3".to_string(), body: vec![7] }
    );
    assert_eq!(p.step(PageEvent::Stored), PageAction::Finish(Ok(())));
    assert_eq!(p.state, PageState::Done);
}

#[test]
fn refusal_ends_page() {
    let (p, first) = PagePipeline::start(&config(), HASH, 1, vec![]);
    let (calls, outcome) = drive(p, first, |a| match a {
        PageAction::Recognize { .. } => {
            PageEvent::Recognized(Some(ChatResponse::Refusal("cannot read".to_string())))
        }
        other => happy(other),
    });
    assert_eq!(calls.len(), 2);
    assert_eq!(outcome, Err(Error::Refusal("cannot read".to_string())));
}

#[test]
fn no_answer_ends_page() {
    let (p, first) = PagePipeline::start(&config(), HASH, 1, vec![]);
    let (calls, outcome) = drive(p, first, |a| match a {
        PageAction::Recognize { .. } => PageEvent::Recognized(None),
        other => happy(other),
    });
    assert_eq!(calls.len(), 2);
    assert_eq!(outcome, Err(Error::NoResponse));
}

#[test]
fn store_failures_name_their_stage() {
    for (fail_at, stage) in [(0usize, Stage::StoreImage), (1, Stage::StoreText), (2, Stage::StoreAudio)] {
        let (p, first) = PagePipeline::start(&config(), HASH, 0, vec![]);
        let mut stores = 0usize;
        let (_, outcome) = drive(p, first, |a| match a {
            PageAction::Store { .. } => {
                stores += 1;
                if stores - 1 == fail_at {
                    PageEvent::StoreFailed("denied".to_string())
                } else {
                    PageEvent::Stored
                }
            }
            other => happy(other),
        });
        assert_eq!(outcome, Err(Error::Storage(stage, "denied".to_string())));
    }
}

#[test]
fn service_failures_name_their_stage() {
    let (p, first) = PagePipeline::start(&config(), HASH, 0, vec![]);
    let (_, outcome) = drive(p, first, |a| match a {
        PageAction::Recognize { .. } => PageEvent::ServiceFailed("timeout".to_string()),
        other => happy(other),
    });
    assert_eq!(outcome, Err(Error::Service(Stage::Recognize, "timeout".to_string())));
    let (p, first) = PagePipeline::start(&config(), HASH, 0, vec![]);
    let (_, outcome) = drive(p, first, |a| match a {
        PageAction::Synthesize { .. } => PageEvent::ServiceFailed("timeout".to_string()),
        other => happy(other),
    });
    assert_eq!(outcome, Err(Error::Service(Stage::Synthesize, "timeout".to_string())));
}

#[test]
fn bad_endpoint_fails_reference() {
    let mut cfg = config();
    cfg.endpoint = "::nonsense".to_string();
    let (p, first) = PagePipeline::start(&cfg, HASH, 0, vec![]);
    let (calls, outcome) = drive(p, first, happy);
    assert_eq!(calls.len(), 1);
    assert_eq!(outcome, Err(Error::ReferenceConstruction));
}

#[test]
fn accepts_only_awaited_events() {
    let (mut p, _) = PagePipeline::start(&config(), HASH, 0, vec![]);
    assert!(p.accepts(&PageEvent::Stored));
    assert!(!p.accepts(&PageEvent::Recognized(None)));
    p.step(PageEvent::Stored);
    assert!(p.accepts(&PageEvent::Recognized(None)));
    assert!(p.accepts(&PageEvent::ServiceFailed(String::new())));
    assert!(!p.accepts(&PageEvent::Stored));
    p.step(PageEvent::Recognized(None));
    assert!(!p.accepts(&PageEvent::Stored));
}

#[test]
fn choice_interpretation() {
    let s = |t: &str| Some(t.to_string());
    assert_eq!(interpret_first_choice(None), None);
    assert_eq!(interpret_first_choice(Some(ChoiceMessage { refusal: None, content: None })), None);
    assert_eq!(
        interpret_first_choice(Some(ChoiceMessage { refusal: None, content: s("text") })),
        Some(ChatResponse::Content("text".to_string()))
    );
    assert_eq!(
        interpret_first_choice(Some(ChoiceMessage { refusal: s("no"), content: s("text") })),
        Some(ChatResponse::Refusal("no".to_string()))
    );
}

#[test]
fn aggregate_partitions_outcomes() {
    let r = aggregate(vec![
        Ok(()),
        Err(Error::NoResponse),
        Ok(()),
        Err(Error::Refusal("x".to_string())),
        Ok(()),
    ]);
    assert_eq!(r.success_ids, vec![0, 2, 4]);
    assert_eq!(r.failure_ids, vec![(1, Error::NoResponse), (3, Error::Refusal("x".to_string()))]);
    let mut all: Vec<usize> = r.success_ids.clone();
    all.extend(r.failure_ids.iter().map(|(i, _)| *i));
    all.sort();
    assert_eq!(all, vec![0, 1, 2, 3, 4]);
}

#[test]
fn aggregate_empty() {
    assert_eq!(aggregate(Vec::new()), UploadResult { success_ids: vec![], failure_ids: vec![] });
}

#[test]
fn refused_page_does_not_affect_others() {
    let pages = vec![vec![0u8], vec![1u8], vec![2u8]];
    let started = start_document(&config(), HASH, Ok(pages)).unwrap();
    let outcomes: Vec<Result<(), Error>> = started
        .into_iter()
        .map(|(p, first)| {
            let refused = p.page == 1;
            drive(p, first, move |a| match a {
                PageAction::Recognize { .. } if refused => {
                    PageEvent::Recognized(Some(ChatResponse::Refusal("declined".to_string())))
                }
                other => happy(other),
            })
            .1
        })
        .collect();
    let r = aggregate(outcomes);
    assert_eq!(r.success_ids, vec![0, 2]);
    assert_eq!(r.failure_ids, vec![(1, Error::Refusal("declined".to_string()))]);
}

#[test]
fn four_pages_one_without_answer() {
    let pages = vec![vec![0u8], vec![1u8], vec![2u8], vec![3u8]];
    let started = start_document(&config(), HASH, Ok(pages)).unwrap();
    assert_eq!(started.len(), 4);
    let outcomes: Vec<Result<(), Error>> = started
        .into_iter()
        .map(|(p, first)| {
            let silent = p.page == 2;
            drive(p, first, move |a| match a {
                PageAction::Recognize { .. } if silent => PageEvent::Recognized(None),
                other => happy(other),
            })
            .1
        })
        .collect();
    let r = aggregate(outcomes);
    assert_eq!(r.success_ids, vec![0, 1, 3]);
    assert_eq!(r.failure_ids, vec![(2, Error::NoResponse)]);
}

#[test]
fn document_start_one_pipeline_per_page() {
    let started = start_document(&config(), HASH, Ok(vec![vec![5u8], vec![6u8]])).unwrap();
    for (i, (p, first)) in started.iter().enumerate() {
        assert_eq!(p.page, i);
        assert_eq!(p.hash, HASH);
        assert_eq!(p.state, PageState::StoringImage);
        assert_eq!(
            *first,
            PageAction::Store {
                bucket: "docs".to_string(),
                key: format!("{HASH}/{i}.jpg"),
                body: vec![5 + i as u8]
            }
        );
    }
}

#[test]
fn render_failure_starts_no_page() {
    let r = start_document(&config(), HASH, Err("corrupt pdf".to_string()));
    assert_eq!(r.map(|v| v.len()), Err(Error::Render("corrupt pdf".to_string())));
    assert!(Error::Render(String::new()).is_document_level());
    assert!(Error::Io(String::new()).is_document_level());
    assert!(!Error::NoResponse.is_document_level());
}

#[test]
fn error_messages() {
    assert_eq!(Error::Refusal("declined".to_string()).message(), "declined");
    assert_eq!(Error::Storage(Stage::StoreText, "denied".to_string()).message(), "denied");
    assert_eq!(Error::Service(Stage::Synthesize, "timeout".to_string()).message(), "timeout");
    assert_eq!(Error::Render("corrupt".to_string()).message(), "corrupt");
    assert_eq!(Error::Io("missing".to_string()).message(), "missing");
    assert_eq!(Error::NoResponse.message(), NO_RESPONSE_MESSAGE);
    assert_eq!(
        Error::NoResponse.message(),
        "The ChatGPT API did not return a response in choices!"
    );
    assert_eq!(Error::ReferenceConstruction.message(), REFERENCE_MESSAGE);
}

#[test]
fn page_side_tags_outcomes() {
    assert_eq!(page_side(4, Ok(())), Ok(4));
    assert_eq!(page_side(2, Err(Error::NoResponse)), Err((2, Error::NoResponse)));
}

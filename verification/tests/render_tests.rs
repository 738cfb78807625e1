use thumbnail_service::render::{
    keep_description, keep_title, Attempt, CaptureFormat, Phase, Reply, Step, ThumbnailResult,
    CAPTURE_WAIT_MS,
    CLEANUP_SETTLE_MS, CLOSE_WAIT_MS, DESCRIPTION_SCRIPT, HANDLE_WAIT_MS, HIDE_BANNERS_SCRIPT,
    METADATA_WAIT_MS, PAGE_OPEN_WAIT_MS, RENDER_SLOTS, SETTLE_MS, VIEWPORT_WAIT_MS,
};

fn attempt() -> Attempt {
    Attempt::new("http://page".to_string(), 640, 400)
}

/// Feeds the replies in order and returns the attempt with the last step named.
fn drive(replies: Vec<Reply>) -> (Attempt, Step) {
    let mut state = attempt();
    let mut last = Step::AcquireSlot;
    for reply in replies {
        let (next, step) = state.step(reply);
        state = next;
        last = step;
    }
    (state, last)
}

fn up_to_capture() -> Vec<Reply> {
    vec![
        Reply::Done,                               // -> AcquireSlot
        Reply::Done,                               // slot -> AcquireHandle
        Reply::Done,                               // handle -> OpenPage
        Reply::Done,                               // page -> SetViewport
        Reply::Done,                               // viewport -> Pause
        Reply::Done,                               // settled -> ReadTitle
        Reply::Text(Some("A title".to_string())),  // -> ReadDescription
        Reply::Text(Some("Words".to_string())),    // -> HideBanners
        Reply::Done,                               // -> Pause
        Reply::Done,                               // -> Capture
    ]
}

#[test]
fn render_constants() {
    assert_eq!(RENDER_SLOTS, 4);
    assert_eq!(HANDLE_WAIT_MS, 10_000);
    assert_eq!(PAGE_OPEN_WAIT_MS, 15_000);
    assert_eq!(VIEWPORT_WAIT_MS, 5_000);
    assert_eq!(SETTLE_MS, 2_000);
    assert_eq!(METADATA_WAIT_MS, 5_000);
    assert_eq!(CLEANUP_SETTLE_MS, 500);
    assert_eq!(CAPTURE_WAIT_MS, 10_000);
    assert_eq!(CLOSE_WAIT_MS, 5_000);
}

#[test]
fn description_is_read_from_the_meta_tags_in_order() {
    let plain = DESCRIPTION_SCRIPT.find("meta[name=\"description\"]").unwrap();
    let open_graph = DESCRIPTION_SCRIPT.find("meta[property=\"og:description\"]").unwrap();
    assert!(plain < open_graph);
    assert!(DESCRIPTION_SCRIPT[plain..open_graph].contains("||"));
}

#[test]
fn banners_are_found_by_the_usual_words() {
    for pattern in
        ["[class*=\"cookie\"]", "[class*=\"consent\"]", "[id*=\"cookie\"]", "[class*=\"gdpr\"]"]
    {
        assert!(HIDE_BANNERS_SCRIPT.contains(pattern), "{}", pattern);
    }
    assert!(HIDE_BANNERS_SCRIPT.contains("style.display = 'none'"));
    assert!(HIDE_BANNERS_SCRIPT.contains("overflow = 'hidden'"));
}

#[test]
fn attempt_walks_through_its_phases() {
    let mut state = attempt();
    assert_eq!(state.phase(), Phase::Idle);
    let script: Vec<(Reply, Phase, Step)> = vec![
        (Reply::Done, Phase::AcquiringSlot, Step::AcquireSlot),
        (Reply::Done, Phase::AcquiringHandle, Step::AcquireHandle { wait_ms: 10_000 }),
        (
            Reply::Done,
            Phase::PageOpening,
            Step::OpenPage { url: "http://page".to_string(), wait_ms: 15_000 },
        ),
        (
            Reply::Done,
            Phase::ViewportSet,
            Step::SetViewport { width: 640, height: 400, mobile: false, wait_ms: 5_000 },
        ),
        (Reply::Done, Phase::Settling, Step::Pause { millis: 2_000 }),
        (Reply::Done, Phase::TitleExtraction, Step::ReadTitle { wait_ms: 5_000 }),
        (
            Reply::Text(Some("A title".to_string())),
            Phase::DescriptionExtraction,
            Step::ReadDescription { wait_ms: 5_000 },
        ),
        (Reply::Text(Some("Words".to_string())), Phase::ContentCleanup, Step::HideBanners),
        (Reply::Done, Phase::Settling2, Step::Pause { millis: 500 }),
        (
            Reply::Done,
            Phase::Capturing,
            Step::Capture { format: CaptureFormat::Png, full_page: false, wait_ms: 10_000 },
        ),
        (Reply::Image(vec![7, 8, 9]), Phase::Closing, Step::ClosePage { wait_ms: 5_000 }),
        (
            Reply::Done,
            Phase::Done,
            Step::Finish(Ok(ThumbnailResult {
                image_data: vec![7, 8, 9],
                title: Some("A title".to_string()),
                description: Some("Words".to_string()),
            })),
        ),
    ];
    for (reply, phase, expected) in script {
        let (next, step) = state.step(reply);
        assert_eq!(step, expected);
        assert_eq!(next.phase(), phase);
        state = next;
    }
}

#[test]
fn resources_follow_the_phase() {
    let expected = [
        (Phase::Idle, false, false, false),
        (Phase::AcquiringSlot, false, false, false),
        (Phase::AcquiringHandle, true, false, false),
        (Phase::PageOpening, true, true, false),
        (Phase::ViewportSet, true, true, true),
        (Phase::Settling, true, true, true),
        (Phase::TitleExtraction, true, true, true),
        (Phase::DescriptionExtraction, true, true, true),
        (Phase::ContentCleanup, true, true, true),
        (Phase::Settling2, true, true, true),
        (Phase::Capturing, true, true, true),
        (Phase::Closing, true, true, true),
        (Phase::Done, false, false, false),
        (Phase::Failed, false, false, false),
    ];
    for (phase, slot, handle, page) in expected {
        assert_eq!(phase.slot_held(), slot, "{:?}", phase);
        assert_eq!(phase.handle_held(), handle, "{:?}", phase);
        assert_eq!(phase.has_page(), page, "{:?}", phase);
        assert_eq!(phase.is_terminal(), matches!(phase, Phase::Done | Phase::Failed));
    }
}

#[test]
fn closed_slot_pool_fails_the_attempt() {
    let (state, step) = drive(vec![Reply::Done, Reply::Failed("semaphore closed".to_string())]);
    assert_eq!(state.phase(), Phase::Failed);
    assert_eq!(step, Step::Finish(Err("semaphore closed".to_string())));
}

#[test]
fn busy_browser_fails_the_attempt() {
    let (state, step) = drive(vec![Reply::Done, Reply::Done, Reply::TimedOut]);
    assert_eq!(state.phase(), Phase::Failed);
    assert_eq!(step, Step::Finish(Err("Timeout acquiring browser lock".to_string())));
}

#[test]
fn page_that_does_not_open_fails_the_attempt() {
    let (state, step) = drive(vec![Reply::Done, Reply::Done, Reply::Done, Reply::TimedOut]);
    assert_eq!(state.phase(), Phase::Failed);
    assert_eq!(step, Step::Finish(Err("Timeout creating page".to_string())));
    let (state, step) = drive(vec![
        Reply::Done,
        Reply::Done,
        Reply::Done,
        Reply::Failed("net::ERR_NAME_NOT_RESOLVED".to_string()),
    ]);
    assert_eq!(state.phase(), Phase::Failed);
    assert_eq!(
        step,
        Step::Finish(Err("Failed to create page: net::ERR_NAME_NOT_RESOLVED".to_string()))
    );
}

#[test]
fn viewport_failure_closes_the_page_first() {
    let replies = vec![Reply::Done, Reply::Done, Reply::Done, Reply::Done];
    let (state, _) = drive(replies);
    let (state, step) = state.step(Reply::TimedOut);
    assert_eq!(state.phase(), Phase::Closing);
    assert_eq!(step, Step::ClosePage { wait_ms: 5_000 });
    let (state, step) = state.step(Reply::Done);
    assert_eq!(state.phase(), Phase::Failed);
    assert_eq!(step, Step::Finish(Err("Timeout setting viewport".to_string())));

    let (state, _) = drive(vec![Reply::Done, Reply::Done, Reply::Done, Reply::Done]);
    let (state, _) = state.step(Reply::Failed("no such target".to_string()));
    let (_, step) = state.step(Reply::TimedOut);
    assert_eq!(step, Step::Finish(Err("no such target".to_string())));
}

#[test]
fn metadata_is_best_effort() {
    let mut replies = up_to_capture();
    replies[6] = Reply::TimedOut;
    replies[7] = Reply::Failed("no meta".to_string());
    replies[8] = Reply::Failed("script error".to_string());
    replies.push(Reply::Image(vec![1]));
    replies.push(Reply::Done);
    let (state, step) = drive(replies);
    assert_eq!(state.phase(), Phase::Done);
    assert_eq!(
        step,
        Step::Finish(Ok(ThumbnailResult { image_data: vec![1], title: None, description: None }))
    );
}

#[test]
fn title_is_kept_as_it_is() {
    assert_eq!(keep_title(Reply::Text(Some("T".to_string()))), Some("T".to_string()));
    assert_eq!(keep_title(Reply::Text(Some(String::new()))), Some(String::new()));
    assert_eq!(keep_title(Reply::Text(None)), None);
    assert_eq!(keep_title(Reply::Done), None);
    assert_eq!(keep_title(Reply::TimedOut), None);
    assert_eq!(keep_title(Reply::Failed("x".to_string())), None);
    assert_eq!(keep_title(Reply::Image(vec![1])), None);
}

#[test]
fn empty_and_null_descriptions_are_dropped() {
    assert_eq!(keep_description(Reply::Text(Some("D".to_string()))), Some("D".to_string()));
    assert_eq!(keep_description(Reply::Text(Some(String::new()))), None);
    assert_eq!(keep_description(Reply::Text(Some("null".to_string()))), None);
    assert_eq!(
        keep_description(Reply::Text(Some("nullable".to_string()))),
        Some("nullable".to_string())
    );
    assert_eq!(keep_description(Reply::Text(None)), None);
    assert_eq!(keep_description(Reply::TimedOut), None);
    assert_eq!(keep_description(Reply::Failed("x".to_string())), None);
}

#[test]
fn empty_capture_fails_the_attempt() {
    let mut replies = up_to_capture();
    replies.push(Reply::Image(vec![]));
    let (state, step) = drive(replies);
    assert_eq!(state.phase(), Phase::Closing);
    assert_eq!(step, Step::ClosePage { wait_ms: 5_000 });
    let (state, step) = state.step(Reply::Done);
    assert_eq!(state.phase(), Phase::Failed);
    assert_eq!(step, Step::Finish(Err("Screenshot is empty".to_string())));
}

#[test]
fn capture_failures_are_told_apart() {
    let mut replies = up_to_capture();
    replies.push(Reply::TimedOut);
    replies.push(Reply::Done);
    let (_, step) = drive(replies);
    assert_eq!(step, Step::Finish(Err("Timeout taking screenshot".to_string())));

    let mut replies = up_to_capture();
    replies.push(Reply::Failed("target crashed".to_string()));
    replies.push(Reply::Done);
    let (_, step) = drive(replies);
    assert_eq!(step, Step::Finish(Err("Screenshot failed: target crashed".to_string())));

    let mut replies = up_to_capture();
    replies.push(Reply::Done);
    replies.push(Reply::Done);
    let (_, step) = drive(replies);
    assert_eq!(step, Step::Finish(Err("Screenshot is empty".to_string())));
}

#[test]
fn finished_attempt_answers_with_a_failure() {
    let (state, _) = drive(vec![Reply::Done, Reply::Done, Reply::TimedOut]);
    let (state, step) = state.step(Reply::Done);
    assert_eq!(state.phase(), Phase::Failed);
    assert_eq!(step, Step::Finish(Err("Attempt is over".to_string())));
}

#[test]
fn attempt_ends_within_twelve_replies_whatever_they_are() {
    let kinds: Vec<fn() -> Reply> = vec![
        || Reply::Done,
        || Reply::TimedOut,
        || Reply::Failed("x".to_string()),
        || Reply::Text(None),
        || Reply::Image(vec![]),
        || Reply::Image(vec![1]),
    ];
    for kind in kinds {
        let mut state = attempt();
        for _ in 0..12 {
            let (next, _) = state.step(kind());
            state = next;
        }
        assert!(state.phase().is_terminal());
        assert!(!state.phase().slot_held());
        assert!(!state.phase().handle_held());
    }
}

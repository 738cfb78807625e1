use std::collections::HashMap;
use std::io::Cursor;
use thumbnail_service::entry::CachedData;
use thumbnail_service::error::AppError;
use thumbnail_service::format::ImageFormat;
use thumbnail_service::pipeline::{
    complete_miss, serve_hit, store_thumbnail, Action, Event, Pipeline, MAX_CONCURRENT_RENDER,
    RENDER_DEADLINE_MS,
};
use thumbnail_service::render::ThumbnailResult;
use thumbnail_service::request::ThumbnailRequest;
use thumbnail_service::response::ThumbnailResponse;

fn solid_capture(width: u32, height: u32) -> Vec<u8> {
    let picture = image::RgbaImage::from_pixel(width, height, image::Rgba([10, 200, 30, 255]));
    let mut bytes = Vec::new();
    image::DynamicImage::ImageRgba8(picture)
        .write_to(&mut Cursor::new(&mut bytes), image::ImageFormat::Png)
        .unwrap();
    bytes
}

fn request(url: &str, format: ImageFormat) -> ThumbnailRequest {
    ThumbnailRequest::new(url.to_string(), 100, 100, format).unwrap()
}

fn rendered() -> ThumbnailResult {
    ThumbnailResult {
        image_data: solid_capture(8, 6),
        title: Some("Title".to_string()),
        description: Some("About".to_string()),
    }
}

/// Serves one request against a store; `render` stands for the renderer and
/// `store_works` says whether writes succeed. Returns the answer and how
/// often the renderer was asked.
fn serve(
    store: &mut HashMap<String, Vec<u8>>,
    request: ThumbnailRequest,
    render: Event,
    store_works: bool,
) -> (Result<ThumbnailResponse, AppError>, u32) {
    let mut renders = 0;
    let mut render = Some(render);
    let (mut pipeline, mut action) = Pipeline::new(request).step(Event::Start);
    loop {
        let event = match action {
            Action::Lookup { key } => Event::CacheAnswer(store.get(&key).cloned()),
            Action::AcquireSlot => Event::SlotGranted,
            Action::Render { .. } => {
                renders += 1;
                assert!(pipeline.slot_held());
                render.take().unwrap()
            }
            Action::Store { key, value } => {
                assert!(!pipeline.slot_held());
                if store_works {
                    store.insert(key, value);
                    Event::Stored
                } else {
                    Event::StoreFailed("disk full".to_string())
                }
            }
            Action::Respond(answer) => {
                assert!(pipeline.is_finished());
                assert!(!pipeline.slot_held());
                return (answer, renders);
            }
        };
        let (next, named) = pipeline.step(event);
        pipeline = next;
        action = named;
    }
}

#[test]
fn pipeline_constants() {
    assert_eq!(RENDER_DEADLINE_MS, 30_000);
    assert_eq!(MAX_CONCURRENT_RENDER, 4);
}

#[test]
fn second_identical_request_is_served_from_cache() {
    let mut store = HashMap::new();
    let (first, renders) = serve(
        &mut store,
        request("http://a", ImageFormat::Png),
        Event::Rendered(rendered()),
        true,
    );
    let first = first.unwrap();
    assert_eq!(renders, 1);
    assert!(!first.cached);
    assert_eq!(first.url, "http://a");
    assert_eq!(first.content_type, "image/png");
    assert_eq!(first.title, Some("Title".to_string()));
    assert_eq!(first.description, Some("About".to_string()));
    assert!(!first.image_data.is_empty());

    let (second, renders) = serve(
        &mut store,
        request("http://a", ImageFormat::Png),
        Event::RenderFailed("must not be asked".to_string()),
        true,
    );
    let second = second.unwrap();
    assert_eq!(renders, 0);
    assert!(second.cached);
    assert_eq!(second.image_data, first.image_data);
    assert_eq!(second, ThumbnailResponse { cached: true, ..first });
}

#[test]
fn request_with_another_format_misses_the_cache() {
    let mut store = HashMap::new();
    serve(&mut store, request("http://a", ImageFormat::Webp), Event::Rendered(rendered()), true)
        .0
        .unwrap();
    let (answer, renders) =
        serve(&mut store, request("http://a", ImageFormat::Jpeg), Event::Rendered(rendered()), true);
    assert_eq!(renders, 1);
    let answer = answer.unwrap();
    assert!(!answer.cached);
    assert_eq!(answer.content_type, "image/jpeg");
    assert_eq!(store.len(), 2);
    assert!(store.contains_key("http://a:100:100:webp"));
    assert!(store.contains_key("http://a:100:100:jpeg"));
}

#[test]
fn stored_image_is_the_thumbnail_in_the_requested_size() {
    let mut store = HashMap::new();
    let answer =
        serve(&mut store, request("http://a", ImageFormat::Png), Event::Rendered(rendered()), true)
            .0
            .unwrap();
    let entry = CachedData::from_bytes(&store["http://a:100:100:png"]).unwrap();
    assert_eq!(entry.title, Some("Title".to_string()));
    assert_eq!(entry.description, Some("About".to_string()));
    let picture = image::load_from_memory(&entry.image_data).unwrap();
    assert_eq!((picture.width(), picture.height()), (100, 100));
    let text = base64::Engine::encode(&base64::engine::general_purpose::STANDARD, &entry.image_data);
    assert_eq!(answer.image_data, text);
}

#[test]
fn empty_url_is_refused_without_rendering() {
    let mut store = HashMap::new();
    let (answer, renders) = serve(
        &mut store,
        request("", ImageFormat::Webp),
        Event::Rendered(rendered()),
        true,
    );
    assert_eq!(answer, Err(AppError::BadRequest("URL cannot be empty".to_string())));
    assert_eq!(renders, 0);
    assert!(store.is_empty());
    let (pipeline, action) = Pipeline::new(request("", ImageFormat::Webp)).step(Event::Start);
    assert!(pipeline.is_finished());
    assert_eq!(
        action,
        Action::Respond(Err(AppError::BadRequest("URL cannot be empty".to_string())))
    );
}

#[test]
fn ftp_url_is_refused() {
    let mut store = HashMap::new();
    let (answer, renders) = serve(
        &mut store,
        request("ftp://x", ImageFormat::Webp),
        Event::Rendered(rendered()),
        true,
    );
    assert_eq!(answer, Err(AppError::BadRequest("Invalid URL scheme: ftp://x".to_string())));
    assert_eq!(renders, 0);
}

#[test]
fn miss_asks_for_lookup_slot_and_render_in_turn() {
    let (pipeline, action) =
        Pipeline::new(request("https://a", ImageFormat::Webp)).step(Event::Start);
    assert_eq!(action, Action::Lookup { key: "https://a:100:100:webp".to_string() });
    assert!(!pipeline.slot_held());
    let (pipeline, action) = pipeline.step(Event::CacheAnswer(None));
    assert_eq!(action, Action::AcquireSlot);
    assert!(!pipeline.slot_held());
    let (pipeline, action) = pipeline.step(Event::SlotGranted);
    assert_eq!(
        action,
        Action::Render {
            url: "https://a".to_string(),
            width: 100,
            height: 100,
            deadline_ms: 30_000
        }
    );
    assert!(pipeline.slot_held());
    assert_eq!(pipeline.request().url(), "https://a");
}

#[test]
fn deadline_gives_a_timeout() {
    let mut store = HashMap::new();
    let (answer, renders) =
        serve(&mut store, request("http://a", ImageFormat::Webp), Event::DeadlineElapsed, true);
    assert_eq!(answer, Err(AppError::Timeout));
    assert_eq!(renders, 1);
    assert!(store.is_empty());
}

#[test]
fn renderer_failure_is_reported_with_its_cause() {
    let mut store = HashMap::new();
    let (answer, _) = serve(
        &mut store,
        request("http://a", ImageFormat::Webp),
        Event::RenderFailed("Timeout creating page".to_string()),
        true,
    );
    assert_eq!(
        answer,
        Err(AppError::ThumbnailGeneration(
            "Failed to generate thumbnail: Timeout creating page".to_string()
        ))
    );
    assert!(store.is_empty());
}

#[test]
fn zero_byte_capture_is_an_image_error_and_nothing_is_stored() {
    let mut store = HashMap::new();
    let capture = ThumbnailResult { image_data: vec![], title: None, description: None };
    let (answer, renders) =
        serve(&mut store, request("http://a", ImageFormat::Webp), Event::Rendered(capture), true);
    assert_eq!(answer, Err(AppError::ImageProcessing("Empty image data".to_string())));
    assert_eq!(renders, 1);
    assert!(store.is_empty());
}

#[test]
fn undecodable_capture_is_an_image_error_and_nothing_is_stored() {
    let mut store = HashMap::new();
    let capture =
        ThumbnailResult { image_data: vec![1, 2, 3, 4], title: None, description: None };
    let (answer, _) =
        serve(&mut store, request("http://a", ImageFormat::Webp), Event::Rendered(capture), true);
    assert!(matches!(answer, Err(AppError::ImageProcessing(_))));
    assert!(store.is_empty());
}

#[test]
fn failed_store_still_answers() {
    let mut store = HashMap::new();
    let (failed, _) = serve(
        &mut store,
        request("http://a", ImageFormat::Png),
        Event::Rendered(rendered()),
        false,
    );
    assert!(store.is_empty());
    let (stored, _) = serve(
        &mut store,
        request("http://a", ImageFormat::Png),
        Event::Rendered(rendered()),
        true,
    );
    let failed = failed.unwrap();
    assert!(!failed.cached);
    assert_eq!(Ok(failed), stored);
}

#[test]
fn cache_read_failure_is_an_internal_error() {
    let (pipeline, _) = Pipeline::new(request("http://a", ImageFormat::Webp)).step(Event::Start);
    let (pipeline, action) = pipeline.step(Event::CacheFailed("io error".to_string()));
    assert!(pipeline.is_finished());
    assert_eq!(action, Action::Respond(Err(AppError::Internal("io error".to_string()))));
}

#[test]
fn unreadable_cache_entry_is_an_internal_error() {
    let (pipeline, _) = Pipeline::new(request("http://a", ImageFormat::Webp)).step(Event::Start);
    let (_, action) = pipeline.step(Event::CacheAnswer(Some(vec![1, 2, 3])));
    match action {
        Action::Respond(Err(AppError::Internal(message))) => {
            assert!(message.starts_with("Cache deserialization failed: "));
        }
        other => panic!("unexpected: {:?}", other),
    }
}

#[test]
fn closed_slot_pool_is_an_internal_error() {
    let (pipeline, _) = Pipeline::new(request("http://a", ImageFormat::Webp)).step(Event::Start);
    let (pipeline, _) = pipeline.step(Event::CacheAnswer(None));
    let (pipeline, action) = pipeline.step(Event::SlotRefused);
    assert!(pipeline.is_finished());
    assert_eq!(
        action,
        Action::Respond(Err(AppError::Internal("Concurrency limit error".to_string())))
    );
}

#[test]
fn event_out_of_turn_is_an_internal_error() {
    let (pipeline, _) = Pipeline::new(request("http://a", ImageFormat::Webp)).step(Event::Start);
    let (pipeline, action) = pipeline.step(Event::SlotGranted);
    assert!(pipeline.is_finished());
    assert_eq!(
        action,
        Action::Respond(Err(AppError::Internal("Unexpected event".to_string())))
    );
    let (_, action) = pipeline.step(Event::Start);
    assert_eq!(
        action,
        Action::Respond(Err(AppError::Internal("Request is already answered".to_string())))
    );
}

#[test]
fn hit_sends_the_stored_image_unchanged() {
    let entry = CachedData {
        image_data: b"hello".to_vec(),
        title: None,
        description: Some("d".to_string()),
    };
    let bytes = entry.to_bytes().unwrap();
    let answer = serve_hit(&request("http://a", ImageFormat::Jpeg), &bytes).unwrap();
    assert_eq!(
        answer,
        ThumbnailResponse {
            url: "http://a".to_string(),
            image_data: "aGVsbG8=".to_string(),
            content_type: "image/jpeg".to_string(),
            title: None,
            description: Some("d".to_string()),
            cached: true,
        }
    );
}

#[test]
fn miss_hands_out_bytes_that_replay_the_answer() {
    let asked = request("http://a", ImageFormat::Webp);
    let (bytes, response) = complete_miss(&asked, rendered()).unwrap();
    assert!(!response.cached);
    assert_eq!(serve_hit(&asked, &bytes), Ok(ThumbnailResponse { cached: true, ..response }));
}

#[test]
fn store_thumbnail_passes_a_failure_on() {
    let asked = request("http://a", ImageFormat::Webp);
    let failure = AppError::ImageProcessing("WebP encoding failed: x".to_string());
    assert_eq!(store_thumbnail(&asked, Err(failure.clone()), None, None), Err(failure));
}

#[test]
fn store_thumbnail_writes_the_entry_and_the_answer() {
    let asked = request("http://a", ImageFormat::Jpeg);
    let (bytes, response) =
        store_thumbnail(&asked, Ok(b"hello".to_vec()), Some("T".to_string()), None).unwrap();
    assert_eq!(
        CachedData::from_bytes(&bytes),
        Ok(CachedData {
            image_data: b"hello".to_vec(),
            title: Some("T".to_string()),
            description: None
        })
    );
    assert_eq!(
        response,
        ThumbnailResponse {
            url: "http://a".to_string(),
            image_data: "aGVsbG8=".to_string(),
            content_type: "image/jpeg".to_string(),
            title: Some("T".to_string()),
            description: None,
            cached: false,
        }
    );
    assert_eq!(serve_hit(&asked, &bytes), Ok(ThumbnailResponse { cached: true, ..response }));
}

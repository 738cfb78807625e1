//! One request from arrival to answer: look in the cache; on a miss wait
//! for a slot, have the page rendered, make the thumbnail, store it and
//! answer.
//!
//! The pipeline performs none of the waiting itself. It names the next
//! action; the caller carries it out and reports what happened.

use crate::entry::{base64_text, entry_bytes, entry_of, stands_for, stored_view, CachedData};
use crate::error::{AppError, ErrorView};
use crate::render::{Captioned, ThumbnailResult};
use crate::request::{RequestView, ThumbnailRequest};
use crate::response::{answer_view, response_for, ResponseView, ThumbnailResponse};
use crate::transcode::{failed, lemma_transcoder_outcomes, process_image, transcodes_to};
use crate::transcode::Transcoded;
use vstd::prelude::*;
use vstd::string::*;

verus! {

/// The time a render may take, retries included, before the request is
/// answered with a timeout.
pub const RENDER_DEADLINE_MS: u64 = 30000;

/// The number of requests that may be rendering at once.
pub const MAX_CONCURRENT_RENDER: usize = 4;

/// The answer to a request whose thumbnail is in the cache. The stored
/// image is sent as it is: nothing is rendered and nothing is transcoded.
pub open spec fn hit_outcome(request: RequestView, bytes: Seq<u8>) -> Result<
    ResponseView,
    ErrorView,
> {
    match entry_of(bytes) {
        Ok(entry) => response_for(request, entry, true),
        Err(e) => Err(e),
    }
}

/// The entry that is stored after a successful render: the thumbnail with
/// the captions of the capture.
pub open spec fn miss_entry(thumbnail: Seq<u8>, capture: Captioned) -> Captioned {
    Captioned { image_data: thumbnail, title: capture.title, description: capture.description }
}

/// What follows a render, given what the transcoder made of the capture:
/// the bytes to store and the answer to give, or the failure that ends the
/// request with nothing stored.
pub open spec fn miss_outcome(
    request: RequestView,
    capture: Captioned,
    thumbnail: Transcoded,
) -> Result<(Seq<u8>, ResponseView), ErrorView> {
    match thumbnail {
        Err(e) => Err(e),
        Ok(image) => match entry_bytes(miss_entry(image, capture)) {
            Err(e) => Err(e),
            Ok(bytes) => match response_for(request, miss_entry(image, capture), false) {
                Err(e) => Err(e),
                Ok(response) => Ok((bytes, response)),
            },
        },
    }
}

/// Whether the bytes handed out for storing, if any were, stand for the
/// entry made of the thumbnail and the capture's captions.
pub open spec fn kept_stands_for(
    outcome: Result<(Seq<u8>, ResponseView), ErrorView>,
    capture: Captioned,
    thumbnail: Transcoded,
) -> bool {
    outcome matches Ok(kept) ==> thumbnail matches Ok(image) && stands_for(
        kept.0,
        miss_entry(image, capture),
    )
}

/// Whether a hit on these bytes gives this answer again, marked as cached.
pub open spec fn replays(request: RequestView, bytes: Seq<u8>, response: ResponseView) -> bool {
    hit_outcome(request, bytes) == Ok::<ResponseView, ErrorView>(
        ResponseView { cached: true, ..response },
    )
}

/// The outcome of a miss over plain sequences.
pub open spec fn miss_view(outcome: Result<(Vec<u8>, ThumbnailResponse), AppError>) -> Result<
    (Seq<u8>, ResponseView),
    ErrorView,
> {
    match outcome {
        Ok(kept) => Ok((kept.0@, kept.1@)),
        Err(e) => Err(e@),
    }
}

/// Answers a request from the bytes found under its key.
pub fn serve_hit(request: &ThumbnailRequest, bytes: &[u8]) -> (answer: Result<
    ThumbnailResponse,
    AppError,
>)
    ensures
        answer_view(answer) == hit_outcome(request@, bytes@),
{
    match CachedData::from_bytes(bytes) {
        Ok(entry) => {
            let CachedData { image_data, title, description } = entry;
            ThumbnailResponse::build(request, image_data.as_slice(), title, description, true)
        },
        Err(e) => Err(e),
    }
}

/// Takes what the transcoder made of a capture and gives the bytes to
/// store and the answer to give. The bytes stand for the entry they were
/// written for: a later hit on them, for a request with the same four
/// fields, gives the same answer marked as cached.
pub fn store_thumbnail(
    request: &ThumbnailRequest,
    thumbnail: Result<Vec<u8>, AppError>,
    title: Option<String>,
    description: Option<String>,
) -> (outcome: Result<(Vec<u8>, ThumbnailResponse), AppError>)
    ensures
        miss_view(outcome) == miss_outcome(
            request@,
            captions(title, description),
            stored_view(thumbnail),
        ),
        kept_stands_for(miss_view(outcome), captions(title, description), stored_view(thumbnail)),
        outcome matches Ok(kept) ==> replays(request@, kept.0@, kept.1@),
{
    let image_data = match thumbnail {
        Ok(image_data) => image_data,
        Err(e) => {
            return Err(e);
        },
    };
    let entry = CachedData { image_data, title, description };
    let bytes = match entry.to_bytes() {
        Ok(bytes) => bytes,
        Err(e) => {
            return Err(e);
        },
    };
    let CachedData { image_data, title, description } = entry;
    match ThumbnailResponse::build(request, image_data.as_slice(), title, description, false) {
        Ok(response) => Ok((bytes, response)),
        Err(e) => Err(e),
    }
}

/// Makes the thumbnail of a capture and with it the bytes to store and the
/// answer to give. Whatever the transcoder makes of the capture, the
/// outcome is what [`store_thumbnail`] gives for it.
pub fn complete_miss(request: &ThumbnailRequest, capture: ThumbnailResult) -> (outcome: Result<
    (Vec<u8>, ThumbnailResponse),
    AppError,
>)
    ensures
        exists|thumbnail: Transcoded| #[trigger]
            transcodes_to(
                capture@.image_data,
                request@.width,
                request@.height,
                request@.format,
                thumbnail,
            ) && miss_view(outcome) == miss_outcome(request@, capture@, thumbnail)
                && kept_stands_for(miss_view(outcome), capture@, thumbnail),
        outcome matches Ok(kept) ==> replays(request@, kept.0@, kept.1@),
{
    let ghost seen = capture@;
    let ThumbnailResult { image_data, title, description } = capture;
    let format = request.format();
    let thumbnail = process_image(
        image_data.as_slice(),
        request.width(),
        request.height(),
        &format,
    );
    let ghost made = stored_view(thumbnail);
    let outcome = store_thumbnail(request, thumbnail, title, description);
    proof {
        // Only the captions of the capture enter the entry.
        assert(forall|image: Seq<u8>| #[trigger]
            miss_entry(image, seen) == miss_entry(
                image,
                Captioned { image_data: Seq::empty(), ..seen },
            ));
        assert(transcodes_to(
            seen.image_data,
            request@.width,
            request@.height,
            request@.format,
            made,
        ));
    }
    outcome
}

/// A pair of captions as an entry without an image.
pub open spec fn captions(title: Option<String>, description: Option<String>) -> Captioned {
    Captioned {
        image_data: Seq::empty(),
        title: title.deep_view(),
        description: description.deep_view(),
    }
}

/// Where a request stands.
#[derive(Debug, PartialEq, Eq)]
pub enum Stage {
    /// Nothing has been done yet.
    Received,
    /// The cache is being asked for the key.
    Lookup,
    /// The request waits for a render slot.
    Admission,
    /// The page is being rendered; the slot is held.
    Rendering,
    /// The thumbnail is being stored; the answer is ready.
    Storing(ThumbnailResponse),
    /// The request has been answered.
    Finished,
}

/// A [`Stage`] over plain sequences.
pub enum StageView {
    Received,
    Lookup,
    Admission,
    Rendering,
    Storing(ResponseView),
    Finished,
}

impl View for Stage {
    type V = StageView;

    open spec fn view(&self) -> StageView {
        match self {
            Stage::Received => StageView::Received,
            Stage::Lookup => StageView::Lookup,
            Stage::Admission => StageView::Admission,
            Stage::Rendering => StageView::Rendering,
            Stage::Storing(response) => StageView::Storing(response@),
            Stage::Finished => StageView::Finished,
        }
    }
}

/// What the caller reports back.
#[derive(Debug, Clone, PartialEq, Eq)]
pub enum Event {
    /// The request has arrived.
    Start,
    /// The cache holds these bytes under the key, or nothing.
    CacheAnswer(Option<Vec<u8>>),
    /// The cache could not be read.
    CacheFailed(String),
    /// A render slot was granted.
    SlotGranted,
    /// The pool of render slots is closed.
    SlotRefused,
    /// The renderer delivered a capture.
    Rendered(ThumbnailResult),
    /// The renderer gave up.
    RenderFailed(String),
    /// The deadline passed before the renderer was done.
    DeadlineElapsed,
    /// The store confirmed the write.
    Stored,
    /// The store could not be written.
    StoreFailed(String),
}

/// An [`Event`] over plain sequences.
pub enum EventView {
    Start,
    CacheAnswer(Option<Seq<u8>>),
    CacheFailed(Seq<char>),
    SlotGranted,
    SlotRefused,
    Rendered(Captioned),
    RenderFailed(Seq<char>),
    DeadlineElapsed,
    Stored,
    StoreFailed(Seq<char>),
}

impl View for Event {
    type V = EventView;

    open spec fn view(&self) -> EventView {
        match self {
            Event::Start => EventView::Start,
            Event::CacheAnswer(found) => EventView::CacheAnswer(
                match found {
                    Some(bytes) => Some(bytes@),
                    None => None,
                },
            ),
            Event::CacheFailed(e) => EventView::CacheFailed(e@),
            Event::SlotGranted => EventView::SlotGranted,
            Event::SlotRefused => EventView::SlotRefused,
            Event::Rendered(capture) => EventView::Rendered(capture@),
            Event::RenderFailed(e) => EventView::RenderFailed(e@),
            Event::DeadlineElapsed => EventView::DeadlineElapsed,
            Event::Stored => EventView::Stored,
            Event::StoreFailed(e) => EventView::StoreFailed(e@),
        }
    }
}

/// What the caller is to do next.
#[derive(Debug, PartialEq, Eq)]
pub enum Action {
    /// Ask the cache for the key.
    Lookup { key: String },
    /// Wait for a render slot, however long it takes.
    AcquireSlot,
    /// Have the page rendered, and give up waiting after the deadline.
    Render { url: String, width: u32, height: u32, deadline_ms: u64 },
    /// Write the value under the key.
    Store { key: String, value: Vec<u8> },
    /// Answer the request. Nothing follows.
    Respond(Result<ThumbnailResponse, AppError>),
}

/// An [`Action`] over plain sequences.
pub enum ActionView {
    Lookup { key: Seq<char> },
    AcquireSlot,
    Render { url: Seq<char>, width: u32, height: u32, deadline_ms: u64 },
    Store { key: Seq<char>, value: Seq<u8> },
    Respond(Result<ResponseView, ErrorView>),
}

impl View for Action {
    type V = ActionView;

    open spec fn view(&self) -> ActionView {
        match self {
            Action::Lookup { key } => ActionView::Lookup { key: key@ },
            Action::AcquireSlot => ActionView::AcquireSlot,
            Action::Render { url, width, height, deadline_ms } => ActionView::Render {
                url: url@,
                width: *width,
                height: *height,
                deadline_ms: *deadline_ms,
            },
            Action::Store { key, value } => ActionView::Store { key: key@, value: value@ },
            Action::Respond(answer) => ActionView::Respond(answer_view(*answer)),
        }
    }
}

/// A request on its way through the service.
#[derive(Debug, PartialEq, Eq)]
pub struct Pipeline {
    request: ThumbnailRequest,
    stage: Stage,
}

/// A [`Pipeline`] over plain sequences.
pub struct PipelineView {
    pub request: RequestView,
    pub stage: StageView,
}

impl View for Pipeline {
    type V = PipelineView;

    closed spec fn view(&self) -> PipelineView {
        PipelineView { request: self.request@, stage: self.stage@ }
    }
}

impl PipelineView {
    /// A request that has just arrived.
    pub open spec fn fresh(request: RequestView) -> PipelineView {
        PipelineView { request, stage: StageView::Received }
    }

    /// Whether a render slot is held: from the grant until the render
    /// stage is over, however it ends.
    pub open spec fn holds_slot(self) -> bool {
        self.stage is Rendering
    }

    /// The request is answered.
    pub open spec fn finish(self, answer: Result<ResponseView, ErrorView>) -> (
        PipelineView,
        ActionView,
    ) {
        (PipelineView { stage: StageView::Finished, ..self }, ActionView::Respond(answer))
    }

    /// The request is answered with a failure of the service, because the
    /// event is none that the stage waits for.
    pub open spec fn out_of_turn(self) -> (PipelineView, ActionView) {
        self.finish(Err(ErrorView::Internal("Unexpected event"@)))
    }

    /// Whether `thumbnail` is what the transcoder may make on this step: of
    /// the capture, where a capture arrives for a request that waits for
    /// one. On every other step the transcoder is not run and `thumbnail`
    /// is of no account.
    pub open spec fn may_make(self, event: EventView, thumbnail: Transcoded) -> bool {
        self.stage is Rendering ==> (event matches EventView::Rendered(capture) ==> transcodes_to(
            capture.image_data,
            self.request.width,
            self.request.height,
            self.request.format,
            thumbnail,
        ))
    }

    /// Whether the bytes that the step hands out for storing, if it hands
    /// out any, stand for the entry made of the thumbnail and the captions
    /// of the capture that arrived.
    pub open spec fn stores_entry(
        self,
        event: EventView,
        thumbnail: Transcoded,
    ) -> bool {
        self.advance(event, thumbnail).1 matches ActionView::Store { key, value } ==> {
            &&& event matches EventView::Rendered(capture)
            &&& thumbnail matches Ok(image)
            &&& stands_for(value, miss_entry(image, capture))
        }
    }

    /// Whether bytes that a step hands out for storing go under the key of
    /// the request and are such that a hit on them repeats the answer that
    /// the step has made ready, marked as cached.
    pub open spec fn store_replays(self, next: PipelineView, action: ActionView) -> bool {
        action matches ActionView::Store { key, value } ==> {
            &&& key == self.request.key()
            &&& next.stage matches StageView::Storing(response)
            &&& replays(self.request, value, response)
        }
    }

    /// The stage reached and the action to take, given what the caller
    /// reports and, where the event is a capture, what the transcoder made
    /// of it.
    pub open spec fn advance(self, event: EventView, thumbnail: Transcoded) -> (
        PipelineView,
        ActionView,
    ) {
        match self.stage {
            StageView::Received => match self.request.rejection() {
                Some(e) => self.finish(Err(e)),
                None => (
                    PipelineView { stage: StageView::Lookup, ..self },
                    ActionView::Lookup { key: self.request.key() },
                ),
            },
            StageView::Lookup => match event {
                EventView::CacheAnswer(Some(bytes)) => self.finish(
                    hit_outcome(self.request, bytes),
                ),
                EventView::CacheAnswer(None) => (
                    PipelineView { stage: StageView::Admission, ..self },
                    ActionView::AcquireSlot,
                ),
                EventView::CacheFailed(e) => self.finish(Err(ErrorView::Internal(e))),
                _ => self.out_of_turn(),
            },
            StageView::Admission => match event {
                EventView::SlotGranted => (
                    PipelineView { stage: StageView::Rendering, ..self },
                    ActionView::Render {
                        url: self.request.url,
                        width: self.request.width,
                        height: self.request.height,
                        deadline_ms: RENDER_DEADLINE_MS,
                    },
                ),
                EventView::SlotRefused => self.finish(
                    Err(ErrorView::Internal("Concurrency limit error"@)),
                ),
                _ => self.out_of_turn(),
            },
            StageView::Rendering => match event {
                EventView::Rendered(capture) => match miss_outcome(
                    self.request,
                    capture,
                    thumbnail,
                ) {
                    Ok(kept) => (
                        PipelineView { stage: StageView::Storing(kept.1), ..self },
                        ActionView::Store { key: self.request.key(), value: kept.0 },
                    ),
                    Err(e) => self.finish(Err(e)),
                },
                EventView::RenderFailed(e) => self.finish(
                    Err(ErrorView::ThumbnailGeneration("Failed to generate thumbnail: "@ + e)),
                ),
                EventView::DeadlineElapsed => self.finish(Err(ErrorView::Timeout)),
                _ => self.out_of_turn(),
            },
            StageView::Storing(response) => self.finish(Ok(response)),
            StageView::Finished => (
                self,
                ActionView::Respond(Err(ErrorView::Internal("Request is already answered"@))),
            ),
        }
    }

    /// The pipeline after a run of steps, taken one after the other. Each
    /// step is an event with what the transcoder made on it.
    pub open spec fn after(self, steps: Seq<(EventView, Transcoded)>) -> PipelineView
        decreases steps.len(),
    {
        if steps.len() == 0 {
            self
        } else {
            self.advance(steps[0].0, steps[0].1).0.after(steps.drop_first())
        }
    }

    /// The actions named along a run of steps, in order.
    pub open spec fn trace(self, steps: Seq<(EventView, Transcoded)>) -> Seq<
        ActionView,
    >
        decreases steps.len(),
    {
        if steps.len() == 0 {
            Seq::empty()
        } else {
            seq![self.advance(steps[0].0, steps[0].1).1] + self.advance(
                steps[0].0,
                steps[0].1,
            ).0.trace(steps.drop_first())
        }
    }
}

impl Pipeline {
    /// The pipeline for a request that has just arrived.
    pub fn new(request: ThumbnailRequest) -> (pipeline: Pipeline)
        ensures
            pipeline@ == PipelineView::fresh(request@),
    {
        Pipeline { request, stage: Stage::Received }
    }

    /// The request being served.
    pub fn request(&self) -> (request: &ThumbnailRequest)
        ensures
            request@ == self@.request,
    {
        &self.request
    }

    /// Whether the request has been answered.
    pub fn is_finished(&self) -> (finished: bool)
        ensures
            finished == (self@.stage is Finished),
    {
        match &self.stage {
            Stage::Finished => true,
            _ => false,
        }
    }

    /// Whether the caller must be holding a render slot.
    pub fn slot_held(&self) -> (held: bool)
        ensures
            held == self@.holds_slot(),
    {
        match &self.stage {
            Stage::Rendering => true,
            _ => false,
        }
    }

    fn finish(self, answer: Result<ThumbnailResponse, AppError>) -> (next: (Pipeline, Action))
        ensures
            (next.0@, next.1@) == self@.finish(answer_view(answer)),
    {
        (Pipeline { request: self.request, stage: Stage::Finished }, Action::Respond(answer))
    }

    fn out_of_turn(self) -> (next: (Pipeline, Action))
        ensures
            (next.0@, next.1@) == self@.out_of_turn(),
    {
        self.finish(Err(AppError::Internal(String::from_str("Unexpected event"))))
    }

    /// Takes what the caller reports and names the next action. In
    /// `Received` nothing is awaited and the event is not looked at. An
    /// event that the stage does not wait for ends the request with an
    /// internal error.
    ///
    /// Where a capture arrives, the transcoder is run on it; the step is
    /// then the one that follows from whatever the transcoder made. Bytes
    /// handed out for storing stand for the entry they were written for,
    /// so that a hit on them repeats the answer that is about to be given.
    pub fn step(self, event: Event) -> (next: (Pipeline, Action))
        ensures
            exists|thumbnail: Transcoded| #[trigger]
                self@.may_make(event@, thumbnail) && (next.0@, next.1@) == self@.advance(
                    event@,
                    thumbnail,
                ) && self@.stores_entry(event@, thumbnail),
            self@.store_replays(next.0@, next.1@),
    {
        let ghost idle: Transcoded = Err(ErrorView::Timeout);
        let ghost before = self@;
        proof {
            if !(before.stage is Rendering && event@ is Rendered) {
                assert(before.may_make(event@, idle));
            }
        }
        let Pipeline { request, stage } = self;
        match stage {
            Stage::Received => match request.validate() {
                Err(e) => Pipeline { request, stage: Stage::Received }.finish(Err(e)),
                Ok(_) => {
                    let key = request.cache_key();
                    (Pipeline { request, stage: Stage::Lookup }, Action::Lookup { key })
                },
            },
            Stage::Lookup => match event {
                Event::CacheAnswer(Some(bytes)) => {
                    let answer = serve_hit(&request, bytes.as_slice());
                    Pipeline { request, stage: Stage::Lookup }.finish(answer)
                },
                Event::CacheAnswer(None) => (
                    Pipeline { request, stage: Stage::Admission },
                    Action::AcquireSlot,
                ),
                Event::CacheFailed(e) => Pipeline { request, stage: Stage::Lookup }.finish(
                    Err(AppError::Internal(e)),
                ),
                _ => Pipeline { request, stage: Stage::Lookup }.out_of_turn(),
            },
            Stage::Admission => match event {
                Event::SlotGranted => {
                    let url = String::from_str(request.url());
                    let width = request.width();
                    let height = request.height();
                    (
                        Pipeline { request, stage: Stage::Rendering },
                        Action::Render { url, width, height, deadline_ms: RENDER_DEADLINE_MS },
                    )
                },
                Event::SlotRefused => Pipeline { request, stage: Stage::Admission }.finish(
                    Err(AppError::Internal(String::from_str("Concurrency limit error"))),
                ),
                _ => Pipeline { request, stage: Stage::Admission }.out_of_turn(),
            },
            Stage::Rendering => match event {
                Event::Rendered(capture) => {
                    let ghost seen = capture@;
                    let outcome = complete_miss(&request, capture);
                    proof {
                        let made = choose|made: Transcoded| #[trigger]
                            transcodes_to(
                                seen.image_data,
                                request@.width,
                                request@.height,
                                request@.format,
                                made,
                            ) && miss_view(outcome) == miss_outcome(request@, seen, made)
                                && kept_stands_for(miss_view(outcome), seen, made);
                        assert(before.may_make(event@, made));
                    }
                    match outcome {
                        Ok(kept) => {
                            let key = request.cache_key();
                            (
                                Pipeline { request, stage: Stage::Storing(kept.1) },
                                Action::Store { key, value: kept.0 },
                            )
                        },
                        Err(e) => Pipeline { request, stage: Stage::Rendering }.finish(Err(e)),
                    }
                },
                Event::RenderFailed(e) => Pipeline { request, stage: Stage::Rendering }.finish(
                    Err(
                        AppError::ThumbnailGeneration(
                            String::from_str("Failed to generate thumbnail: ").concat(e.as_str()),
                        ),
                    ),
                ),
                Event::DeadlineElapsed => Pipeline { request, stage: Stage::Rendering }.finish(
                    Err(AppError::Timeout),
                ),
                _ => Pipeline { request, stage: Stage::Rendering }.out_of_turn(),
            },
            Stage::Storing(response) => Pipeline { request, stage: Stage::Finished }.finish(
                Ok(response),
            ),
            Stage::Finished => (
                Pipeline { request, stage: Stage::Finished },
                Action::Respond(
                    Err(AppError::Internal(String::from_str("Request is already answered"))),
                ),
            ),
        }
    }
}

/// A run names one action for every step.
pub proof fn lemma_trace_len(
    pipeline: PipelineView,
    steps: Seq<(EventView, Transcoded)>,
)
    ensures
        pipeline.trace(steps).len() == steps.len(),
    decreases steps.len(),
{
    if steps.len() > 0 {
        lemma_trace_len(pipeline.advance(steps[0].0, steps[0].1).0, steps.drop_first());
    }
}

/// What the store holds under a key.
pub open spec fn lookup(store: Map<Seq<char>, Seq<u8>>, key: Seq<char>) -> Option<Seq<u8>> {
    if store.dom().contains(key) {
        Some(store[key])
    } else {
        None
    }
}

/// A second request with the same address, size and format is answered
/// from the cache with the very image that the first one computed. Where
/// the first request, on a miss, stored `stored` under its key and answered
/// with `response`, and the store then holds what was written, the second
/// request's lookup finds those bytes and its answer is `response` again,
/// marked as cached. This is said of bytes that stand for the entry they
/// were written for, as [`Pipeline::step`] says of all bytes that it hands
/// out for storing.
pub proof fn lemma_second_request_is_served_from_cache(
    first: RequestView,
    second: RequestView,
    capture: Captioned,
    thumbnail: Seq<u8>,
    store: Map<Seq<char>, Seq<u8>>,
    stored: Seq<u8>,
    response: ResponseView,
)
    requires
        second.url == first.url,
        second.width == first.width,
        second.height == first.height,
        second.format == first.format,
        (PipelineView { request: first, stage: StageView::Rendering }).advance(
            EventView::Rendered(capture),
            Ok(thumbnail),
        ) == (
            PipelineView { request: first, stage: StageView::Storing(response) },
            ActionView::Store { key: first.key(), value: stored },
        ),
        stands_for(stored, miss_entry(thumbnail, capture)),
    ensures
        !response.cached,
        response.image_data == base64_text(thumbnail),
        lookup(store.insert(first.key(), stored), second.key()) == Some(stored),
        forall|made: Transcoded|
            (#[trigger] (PipelineView { request: second, stage: StageView::Lookup }).advance(
                EventView::CacheAnswer(lookup(store.insert(first.key(), stored), second.key())),
                made,
            )).1 == ActionView::Respond(Ok(ResponseView { cached: true, ..response })),
{
}

/// A request that is refused is answered at once and with its refusal, and
/// whatever is reported afterwards, nothing but answers is ever named: no
/// lookup, no slot, no render, no store.
pub proof fn lemma_refused_request_does_nothing(
    request: RequestView,
    steps: Seq<(EventView, Transcoded)>,
)
    requires
        request.rejection() is Some,
    ensures
        forall|e: EventView, made: Transcoded|
            (#[trigger] PipelineView::fresh(request).advance(e, made)).1 == ActionView::Respond(
                Err(request.rejection().unwrap()),
            ),
        PipelineView::fresh(request).trace(steps).len() == steps.len(),
        forall|i: int|
            0 <= i < PipelineView::fresh(request).trace(steps).len() ==> (
            #[trigger] PipelineView::fresh(request).trace(steps)[i]) is Respond,
{
    let start = PipelineView::fresh(request);
    lemma_trace_len(start, steps);
    if steps.len() > 0 {
        let next = start.advance(steps[0].0, steps[0].1).0;
        lemma_answered_only_answers(next, steps.drop_first());
    }
}

/// Once a request is answered, nothing but answers is named.
pub proof fn lemma_answered_only_answers(
    pipeline: PipelineView,
    steps: Seq<(EventView, Transcoded)>,
)
    requires
        pipeline.stage is Finished,
    ensures
        pipeline.after(steps).stage is Finished,
        pipeline.trace(steps).len() == steps.len(),
        forall|i: int|
            0 <= i < pipeline.trace(steps).len() ==> (#[trigger] pipeline.trace(steps)[i])
                is Respond,
    decreases steps.len(),
{
    if steps.len() > 0 {
        lemma_answered_only_answers(
            pipeline.advance(steps[0].0, steps[0].1).0,
            steps.drop_first(),
        );
    }
}

/// The renderer is asked for a page in one situation only: a slot has just
/// been granted to a request that waited for one.
pub proof fn lemma_render_needs_slot(
    pipeline: PipelineView,
    event: EventView,
    made: Transcoded,
)
    requires
        pipeline.advance(event, made).1 is Render,
    ensures
        pipeline.stage is Admission,
        event is SlotGranted,
        pipeline.advance(event, made).0.holds_slot(),
{
}

/// When the deadline passes while the page is being rendered, the request
/// is answered with a timeout, whatever the renderer is doing, and the
/// slot is given back.
pub proof fn lemma_deadline_ends_request(pipeline: PipelineView, made: Transcoded)
    requires
        pipeline.stage is Rendering,
    ensures
        pipeline.advance(EventView::DeadlineElapsed, made).1 == ActionView::Respond(
            Err(ErrorView::Timeout),
        ),
        pipeline.advance(EventView::DeadlineElapsed, made).0.stage is Finished,
        !pipeline.advance(EventView::DeadlineElapsed, made).0.holds_slot(),
{
}

/// A capture that the transcoder cannot turn into a thumbnail ends the
/// request with a failure of image processing, and nothing is stored:
/// neither then nor later. A capture of no bytes is such a capture.
pub proof fn lemma_failed_transcoding_stores_nothing(
    pipeline: PipelineView,
    capture: Captioned,
    made: Transcoded,
    later: Seq<(EventView, Transcoded)>,
)
    requires
        pipeline.stage is Rendering,
        pipeline.may_make(EventView::Rendered(capture), made),
        made is Err || capture.image_data.len() == 0,
    ensures
        made matches Err(e) && e is ImageProcessing && pipeline.advance(
            EventView::Rendered(capture),
            made,
        ).1 == ActionView::Respond(Err(e)),
        capture.image_data.len() == 0 ==> made == failed(
            ErrorView::ImageProcessing("Empty image data"@),
        ),
        pipeline.advance(EventView::Rendered(capture), made).0.trace(later).len() == later.len(),
        forall|i: int|
            0 <= i < pipeline.advance(EventView::Rendered(capture), made).0.trace(later).len()
                ==> (#[trigger] pipeline.advance(EventView::Rendered(capture), made).0.trace(
                later,
            )[i]) is Respond,
{
    lemma_transcoder_outcomes(
        capture.image_data,
        pipeline.request.width,
        pipeline.request.height,
        pipeline.request.format,
        made,
    );
    lemma_answered_only_answers(pipeline.advance(EventView::Rendered(capture), made).0, later);
}

/// A thumbnail that could not be stored is delivered all the same: the
/// answer after a failed write is the answer after a confirmed one, it
/// carries the thumbnail, and it is not marked as cached.
pub proof fn lemma_store_failure_still_answers(
    pipeline: PipelineView,
    capture: Captioned,
    made: Transcoded,
    why: Seq<char>,
    idle: Transcoded,
)
    requires
        pipeline.stage is Rendering,
        pipeline.advance(EventView::Rendered(capture), made).1 is Store,
    ensures
        miss_outcome(pipeline.request, capture, made) matches Ok(kept) && !kept.1.cached
            && pipeline.advance(EventView::Rendered(capture), made).0.advance(
            EventView::StoreFailed(why),
            idle,
        ).1 == ActionView::Respond(Ok(kept.1)) && pipeline.advance(
            EventView::Rendered(capture),
            made,
        ).0.advance(EventView::Stored, idle).1 == ActionView::Respond(Ok(kept.1)),
{
}

} // verus!

//! One attempt at capturing a page, as a machine that is told what the
//! browser answered and says what to ask of it next.
//!
//! An attempt walks through its phases in a fixed order. Each phase has one
//! request in flight; the reply to it decides the next phase. The caller
//! holds the admission slot, the browser handle and the page for as long as
//! the phase says so.

use crate::text::same_text;
use vstd::prelude::*;
use vstd::string::*;

verus! {

/// The number of attempts that may be under way at once, over all
/// requests: the size of the pool that `AcquireSlot` draws from.
pub const RENDER_SLOTS: usize = 4;

/// How long an attempt waits for exclusive use of the browser.
pub const HANDLE_WAIT_MS: u64 = 10000;

/// How long an attempt waits for the browser to open the page.
pub const PAGE_OPEN_WAIT_MS: u64 = 15000;

/// How long an attempt waits for the viewport to be resized.
pub const VIEWPORT_WAIT_MS: u64 = 5000;

/// The pause that lets the page lay itself out before it is read.
pub const SETTLE_MS: u64 = 2000;

/// How long an attempt waits for the title, and again for the description.
pub const METADATA_WAIT_MS: u64 = 5000;

/// The pause after banners were hidden, before the capture.
pub const CLEANUP_SETTLE_MS: u64 = 500;

/// How long an attempt waits for the capture.
pub const CAPTURE_WAIT_MS: u64 = 10000;

/// How long an attempt waits for the page to close.
pub const CLOSE_WAIT_MS: u64 = 5000;

/// The expression that reads a page's description: the content of the
/// `description` meta tag or, failing that, of the `og:description` one.
pub const DESCRIPTION_SCRIPT: &'static str =
    "document.querySelector('meta[name=\"description\"]')?.content || document.querySelector('meta[property=\"og:description\"]')?.content";

/// The script that stops the page from scrolling and hides whatever looks
/// like a cookie or consent banner.
pub const HIDE_BANNERS_SCRIPT: &'static str =
    "document.body.style.overflow = 'hidden'; ['[class*=\"cookie\"]', '[class*=\"consent\"]', '[id*=\"cookie\"]', '[class*=\"gdpr\"]'].forEach(sel => { document.querySelectorAll(sel).forEach(el => el.style.display = 'none'); });";

/// What a successful attempt hands back: the lossless capture and what the
/// page says about itself.
#[derive(Debug, Clone, PartialEq, Eq)]
pub struct ThumbnailResult {
    pub image_data: Vec<u8>,
    pub title: Option<String>,
    pub description: Option<String>,
}

/// An image with its captions, as plain sequences.
pub struct Captioned {
    pub image_data: Seq<u8>,
    pub title: Option<Seq<char>>,
    pub description: Option<Seq<char>>,
}

impl View for ThumbnailResult {
    type V = Captioned;

    open spec fn view(&self) -> Captioned {
        Captioned {
            image_data: self.image_data@,
            title: self.title.deep_view(),
            description: self.description.deep_view(),
        }
    }
}

/// Where an attempt stands.
#[derive(Debug, Clone, Copy, PartialEq, Eq, Structural)]
pub enum Phase {
    Idle,
    AcquiringSlot,
    AcquiringHandle,
    PageOpening,
    ViewportSet,
    Settling,
    TitleExtraction,
    DescriptionExtraction,
    ContentCleanup,
    Settling2,
    Capturing,
    Closing,
    Done,
    Failed,
}

impl Phase {
    /// Position of the phase in the order in which an attempt visits them.
    pub open spec fn rank(self) -> nat {
        match self {
            Phase::Idle => 0,
            Phase::AcquiringSlot => 1,
            Phase::AcquiringHandle => 2,
            Phase::PageOpening => 3,
            Phase::ViewportSet => 4,
            Phase::Settling => 5,
            Phase::TitleExtraction => 6,
            Phase::DescriptionExtraction => 7,
            Phase::ContentCleanup => 8,
            Phase::Settling2 => 9,
            Phase::Capturing => 10,
            Phase::Closing => 11,
            Phase::Done => 12,
            Phase::Failed => 12,
        }
    }

    /// Whether the attempt is over.
    pub open spec fn terminal(self) -> bool {
        self == Phase::Done || self == Phase::Failed
    }

    /// Whether an admission slot is held in this phase.
    pub open spec fn holds_slot(self) -> bool {
        Phase::AcquiringHandle.rank() <= self.rank() <= Phase::Closing.rank()
    }

    /// Whether the browser handle is held in this phase.
    pub open spec fn holds_handle(self) -> bool {
        Phase::PageOpening.rank() <= self.rank() <= Phase::Closing.rank()
    }

    /// Whether a page is open in this phase.
    pub open spec fn page_open(self) -> bool {
        Phase::ViewportSet.rank() <= self.rank() <= Phase::Closing.rank()
    }

    /// Whether the attempt is over.
    pub fn is_terminal(&self) -> (over: bool)
        ensures
            over == self.terminal(),
    {
        match self {
            Phase::Done => true,
            Phase::Failed => true,
            _ => false,
        }
    }

    /// Whether the caller must be holding an admission slot.
    pub fn slot_held(&self) -> (held: bool)
        ensures
            held == self.holds_slot(),
    {
        match self {
            Phase::Idle => false,
            Phase::AcquiringSlot => false,
            Phase::Done => false,
            Phase::Failed => false,
            _ => true,
        }
    }

    /// Whether the caller must be holding the browser handle.
    pub fn handle_held(&self) -> (held: bool)
        ensures
            held == self.holds_handle(),
    {
        match self {
            Phase::Idle => false,
            Phase::AcquiringSlot => false,
            Phase::AcquiringHandle => false,
            Phase::Done => false,
            Phase::Failed => false,
            _ => true,
        }
    }

    /// Whether the caller has a page open.
    pub fn has_page(&self) -> (open: bool)
        ensures
            open == self.page_open(),
    {
        match self {
            Phase::Idle => false,
            Phase::AcquiringSlot => false,
            Phase::AcquiringHandle => false,
            Phase::PageOpening => false,
            Phase::Done => false,
            Phase::Failed => false,
            _ => true,
        }
    }
}

/// The format of a capture. An attempt asks for the lossless one.
#[derive(Debug, Clone, Copy, PartialEq, Eq, Structural)]
pub enum CaptureFormat {
    Png,
    Jpeg,
    Webp,
}

/// What came back from the request that was in flight.
#[derive(Debug, Clone, PartialEq, Eq)]
pub enum Reply {
    /// The request completed and carries nothing.
    Done,
    /// The page answered with a text, or with none.
    Text(Option<String>),
    /// The browser delivered a capture.
    Image(Vec<u8>),
    /// The request failed; the text says why.
    Failed(String),
    /// The request did not complete within its bound.
    TimedOut,
}

/// A [`Reply`] over plain sequences.
pub enum ReplyView {
    Done,
    Text(Option<Seq<char>>),
    Image(Seq<u8>),
    Failed(Seq<char>),
    TimedOut,
}

impl View for Reply {
    type V = ReplyView;

    open spec fn view(&self) -> ReplyView {
        match self {
            Reply::Done => ReplyView::Done,
            Reply::Text(t) => ReplyView::Text(t.deep_view()),
            Reply::Image(bytes) => ReplyView::Image(bytes@),
            Reply::Failed(e) => ReplyView::Failed(e@),
            Reply::TimedOut => ReplyView::TimedOut,
        }
    }
}

/// What the caller is to do next. Every request but `AcquireSlot`,
/// `HideBanners` and `Pause` is abandoned after `wait_ms` milliseconds and
/// then answered with [`Reply::TimedOut`].
#[derive(Debug, PartialEq, Eq)]
pub enum Step {
    /// Wait for a permit from the pool of render slots.
    AcquireSlot,
    /// Wait for exclusive use of the browser.
    AcquireHandle { wait_ms: u64 },
    /// Open a page on the address.
    OpenPage { url: String, wait_ms: u64 },
    /// Make the page's viewport this large, as that of a desktop or of a
    /// mobile device.
    SetViewport { width: u32, height: u32, mobile: bool, wait_ms: u64 },
    /// Let this much time pass.
    Pause { millis: u64 },
    /// Ask the page for its title.
    ReadTitle { wait_ms: u64 },
    /// Ask the page for its description.
    ReadDescription { wait_ms: u64 },
    /// Hide cookie and consent banners, as far as that works.
    HideBanners,
    /// Capture the page in the given format: all of it, or only what the
    /// viewport shows.
    Capture { format: CaptureFormat, full_page: bool, wait_ms: u64 },
    /// Close the page.
    ClosePage { wait_ms: u64 },
    /// The attempt is over, with this result.
    Finish(Result<ThumbnailResult, String>),
}

/// A [`Step`] over plain sequences.
pub enum StepView {
    AcquireSlot,
    AcquireHandle { wait_ms: u64 },
    OpenPage { url: Seq<char>, wait_ms: u64 },
    SetViewport { width: u32, height: u32, mobile: bool, wait_ms: u64 },
    Pause { millis: u64 },
    ReadTitle { wait_ms: u64 },
    ReadDescription { wait_ms: u64 },
    HideBanners,
    Capture { format: CaptureFormat, full_page: bool, wait_ms: u64 },
    ClosePage { wait_ms: u64 },
    Finish(Result<Captioned, Seq<char>>),
}

/// The result of an attempt over plain sequences.
pub open spec fn result_view(result: Result<ThumbnailResult, String>) -> Result<
    Captioned,
    Seq<char>,
> {
    match result {
        Ok(capture) => Ok(capture@),
        Err(e) => Err(e@),
    }
}

impl View for Step {
    type V = StepView;

    open spec fn view(&self) -> StepView {
        match self {
            Step::AcquireSlot => StepView::AcquireSlot,
            Step::AcquireHandle { wait_ms } => StepView::AcquireHandle { wait_ms: *wait_ms },
            Step::OpenPage { url, wait_ms } => StepView::OpenPage { url: url@, wait_ms: *wait_ms },
            Step::SetViewport { width, height, mobile, wait_ms } => StepView::SetViewport {
                width: *width,
                height: *height,
                mobile: *mobile,
                wait_ms: *wait_ms,
            },
            Step::Pause { millis } => StepView::Pause { millis: *millis },
            Step::ReadTitle { wait_ms } => StepView::ReadTitle { wait_ms: *wait_ms },
            Step::ReadDescription { wait_ms } => StepView::ReadDescription { wait_ms: *wait_ms },
            Step::HideBanners => StepView::HideBanners,
            Step::Capture { format, full_page, wait_ms } => StepView::Capture {
                format: *format,
                full_page: *full_page,
                wait_ms: *wait_ms,
            },
            Step::ClosePage { wait_ms } => StepView::ClosePage { wait_ms: *wait_ms },
            Step::Finish(result) => StepView::Finish(result_view(*result)),
        }
    }
}

/// One attempt: the page asked for, the phase reached, and what was
/// gathered on the way.
#[derive(Debug, PartialEq, Eq)]
pub struct Attempt {
    phase: Phase,
    url: String,
    width: u32,
    height: u32,
    title: Option<String>,
    description: Option<String>,
    capture: Vec<u8>,
    failure: Option<String>,
}

/// An [`Attempt`] over plain sequences.
pub struct AttemptView {
    pub phase: Phase,
    pub url: Seq<char>,
    pub width: u32,
    pub height: u32,
    pub title: Option<Seq<char>>,
    pub description: Option<Seq<char>>,
    pub capture: Seq<u8>,
    pub failure: Option<Seq<char>>,
}

impl View for Attempt {
    type V = AttemptView;

    closed spec fn view(&self) -> AttemptView {
        AttemptView {
            phase: self.phase,
            url: self.url@,
            width: self.width,
            height: self.height,
            title: self.title.deep_view(),
            description: self.description.deep_view(),
            capture: self.capture@,
            failure: self.failure.deep_view(),
        }
    }
}

impl AttemptView {
    /// An attempt on this page that has not begun.
    pub open spec fn fresh(url: Seq<char>, width: u32, height: u32) -> AttemptView {
        AttemptView {
            phase: Phase::Idle,
            url,
            width,
            height,
            title: None,
            description: None,
            capture: Seq::empty(),
            failure: None,
        }
    }

    /// The same attempt in another phase.
    pub open spec fn at(self, phase: Phase) -> AttemptView {
        AttemptView { phase, ..self }
    }

    /// The attempt ends here in failure; no page is open, so none is closed.
    pub open spec fn fail_now(self, why: Seq<char>) -> (AttemptView, StepView) {
        (self.at(Phase::Failed), StepView::Finish(Err(why)))
    }

    /// The attempt has failed with a page open: the page is closed first.
    pub open spec fn fail_after_close(self, why: Seq<char>) -> (AttemptView, StepView) {
        (
            AttemptView { phase: Phase::Closing, failure: Some(why), ..self },
            StepView::ClosePage { wait_ms: CLOSE_WAIT_MS },
        )
    }

    /// What the attempt delivers once its page is closed.
    pub open spec fn outcome(self) -> Result<Captioned, Seq<char>> {
        match self.failure {
            Some(why) => Err(why),
            None => Ok(
                Captioned {
                    image_data: self.capture,
                    title: self.title,
                    description: self.description,
                },
            ),
        }
    }

    /// The phase reached and the request to make, given the reply to the
    /// request that was in flight.
    pub open spec fn advance(self, reply: ReplyView) -> (AttemptView, StepView) {
        match self.phase {
            Phase::Idle => (self.at(Phase::AcquiringSlot), StepView::AcquireSlot),
            Phase::AcquiringSlot => match reply {
                ReplyView::Failed(e) => self.fail_now(e),
                ReplyView::TimedOut => self.fail_now("Timeout acquiring render slot"@),
                _ => (
                    self.at(Phase::AcquiringHandle),
                    StepView::AcquireHandle { wait_ms: HANDLE_WAIT_MS },
                ),
            },
            Phase::AcquiringHandle => match reply {
                ReplyView::Failed(e) => self.fail_now(e),
                ReplyView::TimedOut => self.fail_now("Timeout acquiring browser lock"@),
                _ => (
                    self.at(Phase::PageOpening),
                    StepView::OpenPage { url: self.url, wait_ms: PAGE_OPEN_WAIT_MS },
                ),
            },
            Phase::PageOpening => match reply {
                ReplyView::Failed(e) => self.fail_now("Failed to create page: "@ + e),
                ReplyView::TimedOut => self.fail_now("Timeout creating page"@),
                _ => (
                    self.at(Phase::ViewportSet),
                    StepView::SetViewport {
                        width: self.width,
                        height: self.height,
                        mobile: false,
                        wait_ms: VIEWPORT_WAIT_MS,
                    },
                ),
            },
            Phase::ViewportSet => match reply {
                ReplyView::Failed(e) => self.fail_after_close(e),
                ReplyView::TimedOut => self.fail_after_close("Timeout setting viewport"@),
                _ => (self.at(Phase::Settling), StepView::Pause { millis: SETTLE_MS }),
            },
            Phase::Settling => (
                self.at(Phase::TitleExtraction),
                StepView::ReadTitle { wait_ms: METADATA_WAIT_MS },
            ),
            Phase::TitleExtraction => (
                AttemptView {
                    phase: Phase::DescriptionExtraction,
                    title: accepted_title(reply),
                    ..self
                },
                StepView::ReadDescription { wait_ms: METADATA_WAIT_MS },
            ),
            Phase::DescriptionExtraction => (
                AttemptView {
                    phase: Phase::ContentCleanup,
                    description: accepted_description(reply),
                    ..self
                },
                StepView::HideBanners,
            ),
            Phase::ContentCleanup => (
                self.at(Phase::Settling2),
                StepView::Pause { millis: CLEANUP_SETTLE_MS },
            ),
            Phase::Settling2 => (
                self.at(Phase::Capturing),
                StepView::Capture {
                    format: CaptureFormat::Png,
                    full_page: false,
                    wait_ms: CAPTURE_WAIT_MS,
                },
            ),
            Phase::Capturing => match reply {
                ReplyView::Image(bytes) => if bytes.len() == 0 {
                    self.fail_after_close("Screenshot is empty"@)
                } else {
                    (
                        AttemptView { phase: Phase::Closing, capture: bytes, ..self },
                        StepView::ClosePage { wait_ms: CLOSE_WAIT_MS },
                    )
                },
                ReplyView::Failed(e) => self.fail_after_close("Screenshot failed: "@ + e),
                ReplyView::TimedOut => self.fail_after_close("Timeout taking screenshot"@),
                _ => self.fail_after_close("Screenshot is empty"@),
            },
            Phase::Closing => (
                self.at(
                    if self.failure is Some {
                        Phase::Failed
                    } else {
                        Phase::Done
                    },
                ),
                StepView::Finish(self.outcome()),
            ),
            Phase::Done => (self, StepView::Finish(Err("Attempt is over"@))),
            Phase::Failed => (self, StepView::Finish(Err("Attempt is over"@))),
        }
    }
}

/// The title an attempt keeps: the text the page answered with, if it
/// answered with one. A failure or a timeout leaves the title out.
pub open spec fn accepted_title(reply: ReplyView) -> Option<Seq<char>> {
    match reply {
        ReplyView::Text(t) => t,
        _ => None,
    }
}

/// The description an attempt keeps: the text the page answered with,
/// unless it is empty or the word `null`.
pub open spec fn accepted_description(reply: ReplyView) -> Option<Seq<char>> {
    match reply {
        ReplyView::Text(Some(text)) => if text.len() == 0 || text == "null"@ {
            None
        } else {
            Some(text)
        },
        _ => None,
    }
}

/// The title kept from the reply to the title request.
pub fn keep_title(reply: Reply) -> (title: Option<String>)
    ensures
        title.deep_view() == accepted_title(reply@),
{
    match reply {
        Reply::Text(t) => t,
        _ => None,
    }
}

/// The description kept from the reply to the description request.
pub fn keep_description(reply: Reply) -> (description: Option<String>)
    ensures
        description.deep_view() == accepted_description(reply@),
{
    match reply {
        Reply::Text(Some(text)) => {
            if text.as_str().is_empty() || same_text(text.as_str(), "null") {
                None
            } else {
                Some(text)
            }
        },
        _ => None,
    }
}

impl Attempt {
    /// An attempt at capturing `url` in a viewport of `width` by `height`
    /// pixels. Nothing has been asked of the browser yet.
    pub fn new(url: String, width: u32, height: u32) -> (attempt: Attempt)
        ensures
            attempt@ == AttemptView::fresh(url@, width, height),
    {
        Attempt {
            phase: Phase::Idle,
            url,
            width,
            height,
            title: None,
            description: None,
            capture: Vec::new(),
            failure: None,
        }
    }

    /// The phase the attempt is in.
    pub fn phase(&self) -> (phase: Phase)
        ensures
            phase == self@.phase,
    {
        self.phase
    }

    fn at(self, phase: Phase) -> (next: Attempt)
        ensures
            next@ == self@.at(phase),
    {
        Attempt { phase, ..self }
    }

    fn fail_now(self, why: String) -> (next: (Attempt, Step))
        ensures
            (next.0@, next.1@) == self@.fail_now(why@),
    {
        (self.at(Phase::Failed), Step::Finish(Err(why)))
    }

    fn fail_after_close(self, why: String) -> (next: (Attempt, Step))
        ensures
            (next.0@, next.1@) == self@.fail_after_close(why@),
    {
        (
            Attempt { phase: Phase::Closing, failure: Some(why), ..self },
            Step::ClosePage { wait_ms: CLOSE_WAIT_MS },
        )
    }

    /// Takes the reply to the request in flight and names the next request.
    /// In `Idle` nothing is in flight and the reply is not looked at. Once
    /// the attempt is over, every further reply is answered with a failure.
    pub fn step(self, reply: Reply) -> (next: (Attempt, Step))
        ensures
            (next.0@, next.1@) == self@.advance(reply@),
    {
        match self.phase {
            Phase::Idle => (self.at(Phase::AcquiringSlot), Step::AcquireSlot),
            Phase::AcquiringSlot => match reply {
                Reply::Failed(e) => self.fail_now(e),
                Reply::TimedOut => self.fail_now(String::from_str("Timeout acquiring render slot")),
                _ => (
                    self.at(Phase::AcquiringHandle),
                    Step::AcquireHandle { wait_ms: HANDLE_WAIT_MS },
                ),
            },
            Phase::AcquiringHandle => match reply {
                Reply::Failed(e) => self.fail_now(e),
                Reply::TimedOut => self.fail_now(
                    String::from_str("Timeout acquiring browser lock"),
                ),
                _ => {
                    let url = self.url.clone();
                    (self.at(Phase::PageOpening), Step::OpenPage { url, wait_ms: PAGE_OPEN_WAIT_MS })
                },
            },
            Phase::PageOpening => match reply {
                Reply::Failed(e) => self.fail_now(
                    String::from_str("Failed to create page: ").concat(e.as_str()),
                ),
                Reply::TimedOut => self.fail_now(String::from_str("Timeout creating page")),
                _ => {
                    let width = self.width;
                    let height = self.height;
                    (
                        self.at(Phase::ViewportSet),
                        Step::SetViewport { width, height, mobile: false, wait_ms: VIEWPORT_WAIT_MS },
                    )
                },
            },
            Phase::ViewportSet => match reply {
                Reply::Failed(e) => self.fail_after_close(e),
                Reply::TimedOut => self.fail_after_close(
                    String::from_str("Timeout setting viewport"),
                ),
                _ => (self.at(Phase::Settling), Step::Pause { millis: SETTLE_MS }),
            },
            Phase::Settling => (
                self.at(Phase::TitleExtraction),
                Step::ReadTitle { wait_ms: METADATA_WAIT_MS },
            ),
            Phase::TitleExtraction => (
                Attempt { phase: Phase::DescriptionExtraction, title: keep_title(reply), ..self },
                Step::ReadDescription { wait_ms: METADATA_WAIT_MS },
            ),
            Phase::DescriptionExtraction => (
                Attempt {
                    phase: Phase::ContentCleanup,
                    description: keep_description(reply),
                    ..self
                },
                Step::HideBanners,
            ),
            Phase::ContentCleanup => (
                self.at(Phase::Settling2),
                Step::Pause { millis: CLEANUP_SETTLE_MS },
            ),
            Phase::Settling2 => (
                self.at(Phase::Capturing),
                Step::Capture {
                    format: CaptureFormat::Png,
                    full_page: false,
                    wait_ms: CAPTURE_WAIT_MS,
                },
            ),
            Phase::Capturing => match reply {
                Reply::Image(bytes) => {
                    if bytes.len() == 0 {
                        self.fail_after_close(String::from_str("Screenshot is empty"))
                    } else {
                        (
                            Attempt { phase: Phase::Closing, capture: bytes, ..self },
                            Step::ClosePage { wait_ms: CLOSE_WAIT_MS },
                        )
                    }
                },
                Reply::Failed(e) => self.fail_after_close(
                    String::from_str("Screenshot failed: ").concat(e.as_str()),
                ),
                Reply::TimedOut => self.fail_after_close(
                    String::from_str("Timeout taking screenshot"),
                ),
                _ => self.fail_after_close(String::from_str("Screenshot is empty")),
            },
            Phase::Closing => {
                let Attempt { phase: _, url, width, height, title, description, capture, failure } =
                    self;
                match failure {
                    Some(why) => {
                        let shown = why.clone();
                        (
                            Attempt {
                                phase: Phase::Failed,
                                url,
                                width,
                                height,
                                title,
                                description,
                                capture,
                                failure: Some(why),
                            },
                            Step::Finish(Err(shown)),
                        )
                    },
                    None => {
                        let result = ThumbnailResult {
                            image_data: capture.clone(),
                            title: title.clone(),
                            description: description.clone(),
                        };
                        (
                            Attempt {
                                phase: Phase::Done,
                                url,
                                width,
                                height,
                                title,
                                description,
                                capture,
                                failure: None,
                            },
                            Step::Finish(Ok(result)),
                        )
                    },
                }
            },
            Phase::Done => (self, Step::Finish(Err(String::from_str("Attempt is over")))),
            Phase::Failed => (self, Step::Finish(Err(String::from_str("Attempt is over")))),
        }
    }
}

impl AttemptView {
    /// The attempt after a run of replies, taken one after the other.
    pub open spec fn after(self, replies: Seq<ReplyView>) -> AttemptView
        decreases replies.len(),
    {
        if replies.len() == 0 {
            self
        } else {
            self.advance(replies[0]).0.after(replies.drop_first())
        }
    }
}

/// Every reply moves an attempt that is not over to a later phase, and the
/// attempt is declared finished exactly when it reaches its end. At the end
/// the slot and the handle are released and no page is open.
pub proof fn lemma_attempt_advances(attempt: AttemptView, reply: ReplyView)
    requires
        !attempt.phase.terminal(),
    ensures
        attempt.advance(reply).0.phase.rank() > attempt.phase.rank(),
        attempt.advance(reply).1 is Finish <==> attempt.advance(reply).0.phase.terminal(),
        attempt.advance(reply).0.phase.terminal() ==> {
            &&& !attempt.advance(reply).0.phase.holds_slot()
            &&& !attempt.advance(reply).0.phase.holds_handle()
            &&& !attempt.advance(reply).0.phase.page_open()
        },
{
}

/// A failure is never declared while a page is open: whatever goes wrong
/// after the page was opened, the page is closed before the attempt ends.
pub proof fn lemma_page_closed_before_end(attempt: AttemptView, reply: ReplyView)
    requires
        attempt.phase.page_open(),
        attempt.advance(reply).0.phase.terminal(),
    ensures
        attempt.phase == Phase::Closing,
        attempt.advance(reply).1 == StepView::Finish(attempt.outcome()),
{
}

/// An attempt is over after at most twelve replies, whatever they are: no
/// reply can keep the slot or the handle from being released.
pub proof fn lemma_attempt_ends(attempt: AttemptView, replies: Seq<ReplyView>)
    requires
        replies.len() + attempt.phase.rank() >= 12,
    ensures
        attempt.after(replies).phase.terminal(),
        !attempt.after(replies).phase.holds_slot(),
        !attempt.after(replies).phase.holds_handle(),
    decreases replies.len(),
{
    if replies.len() == 0 {
    } else {
        let next = attempt.advance(replies[0]).0;
        if !attempt.phase.terminal() {
            lemma_attempt_advances(attempt, replies[0]);
        }
        lemma_attempt_ends(next, replies.drop_first());
    }
}

} // verus!

//! Rendering with retries: attempts are made one after the other until one
//! succeeds or the last one has failed.

use crate::render::{lemma_attempt_advances, result_view, Attempt, AttemptView, Captioned};
use crate::render::{Phase, Reply, ReplyView, Step, StepView, ThumbnailResult};
use vstd::prelude::*;
use vstd::string::*;

verus! {

/// The number of attempts made before a render is given up.
pub const MAX_ATTEMPTS: u32 = 3;

/// The pause between a failed attempt and the next one.
pub const RETRY_DELAY_MS: u64 = 500;

/// What follows an attempt.
#[derive(Debug, PartialEq, Eq)]
pub enum Verdict {
    /// The attempt succeeded; its capture is the result of the render.
    Deliver(ThumbnailResult),
    /// The attempt failed and another one is due after the pause.
    Retry { delay_ms: u64 },
    /// The last attempt failed; its error is the result of the render.
    GiveUp(String),
}

/// A [`Verdict`] over plain sequences.
pub enum VerdictView {
    Deliver(Captioned),
    Retry { delay_ms: u64 },
    GiveUp(Seq<char>),
}

impl View for Verdict {
    type V = VerdictView;

    open spec fn view(&self) -> VerdictView {
        match self {
            Verdict::Deliver(capture) => VerdictView::Deliver(capture@),
            Verdict::Retry { delay_ms } => VerdictView::Retry { delay_ms: *delay_ms },
            Verdict::GiveUp(e) => VerdictView::GiveUp(e@),
        }
    }
}

/// The verdict on attempt number `attempt_no` (the first is 1): a success
/// is delivered; a failure is retried while attempts are left, always after
/// the same pause; the failure of the last attempt is handed on unchanged.
pub open spec fn verdict_for(attempt_no: u32, result: Result<Captioned, Seq<char>>) -> VerdictView {
    match result {
        Ok(capture) => VerdictView::Deliver(capture),
        Err(e) => if attempt_no < MAX_ATTEMPTS {
            VerdictView::Retry { delay_ms: RETRY_DELAY_MS }
        } else {
            VerdictView::GiveUp(e)
        },
    }
}

/// Decides what follows attempt number `attempt_no`.
pub fn after_attempt(attempt_no: u32, result: Result<ThumbnailResult, String>) -> (verdict: Verdict)
    ensures
        verdict@ == verdict_for(attempt_no, result_view(result)),
{
    match result {
        Ok(capture) => Verdict::Deliver(capture),
        Err(e) => {
            if attempt_no < MAX_ATTEMPTS {
                Verdict::Retry { delay_ms: RETRY_DELAY_MS }
            } else {
                Verdict::GiveUp(e)
            }
        },
    }
}

/// What a render is doing between two replies.
#[derive(Debug, Clone, Copy, PartialEq, Eq, Structural)]
pub enum JobStage {
    /// An attempt is under way.
    Attempting,
    /// The pause before the next attempt is running.
    Pausing,
    /// The render has delivered its result.
    Over,
}

/// A render of one page: the attempt under way and its number.
#[derive(Debug, PartialEq, Eq)]
pub struct RenderJob {
    url: String,
    width: u32,
    height: u32,
    attempt_no: u32,
    stage: JobStage,
    attempt: Attempt,
}

/// A [`RenderJob`] over plain sequences.
pub struct JobView {
    pub url: Seq<char>,
    pub width: u32,
    pub height: u32,
    pub attempt_no: u32,
    pub stage: JobStage,
    pub attempt: AttemptView,
}

impl JobView {
    /// A render of this page of which nothing has been asked yet.
    pub open spec fn fresh(url: Seq<char>, width: u32, height: u32) -> JobView {
        JobView {
            url,
            width,
            height,
            attempt_no: 1,
            stage: JobStage::Attempting,
            attempt: AttemptView::fresh(url, width, height),
        }
    }

    /// What holds of every render: its attempts are numbered from 1 to
    /// [`MAX_ATTEMPTS`], a pause is only made when an attempt is left, and
    /// an attempt is under way exactly when the last one begun is not over.
    pub open spec fn well_formed(self) -> bool {
        &&& 1 <= self.attempt_no <= MAX_ATTEMPTS
        &&& self.stage == JobStage::Pausing ==> self.attempt_no < MAX_ATTEMPTS
        &&& self.stage == JobStage::Attempting <==> !self.attempt.phase.terminal()
    }

    /// A bound on the number of replies after which the render is over.
    pub open spec fn steps_left(self) -> nat {
        match self.stage {
            JobStage::Over => 0,
            JobStage::Pausing => ((MAX_ATTEMPTS - self.attempt_no) * 14) as nat,
            JobStage::Attempting => ((MAX_ATTEMPTS - self.attempt_no) * 14 + 13
                - self.attempt.phase.rank()) as nat,
        }
    }

    /// The render after a run of replies, taken one after the other.
    pub open spec fn after(self, replies: Seq<ReplyView>) -> JobView
        decreases replies.len(),
    {
        if replies.len() == 0 {
            self
        } else {
            self.advance(replies[0]).0.after(replies.drop_first())
        }
    }

    /// The render after a reply, and the request to make next.
    pub open spec fn advance(self, reply: ReplyView) -> (JobView, StepView) {
        match self.stage {
            JobStage::Over => (self, StepView::Finish(Err("Render is over"@))),
            JobStage::Pausing => {
                let begun = AttemptView::fresh(self.url, self.width, self.height).advance(reply);
                (
                    JobView {
                        attempt_no: (self.attempt_no + 1) as u32,
                        stage: JobStage::Attempting,
                        attempt: begun.0,
                        ..self
                    },
                    begun.1,
                )
            },
            JobStage::Attempting => {
                let moved = self.attempt.advance(reply);
                match moved.1 {
                    StepView::Finish(result) => match verdict_for(self.attempt_no, result) {
                        VerdictView::Deliver(capture) => (
                            JobView { stage: JobStage::Over, attempt: moved.0, ..self },
                            StepView::Finish(Ok(capture)),
                        ),
                        VerdictView::Retry { delay_ms } => (
                            JobView { stage: JobStage::Pausing, attempt: moved.0, ..self },
                            StepView::Pause { millis: delay_ms },
                        ),
                        VerdictView::GiveUp(e) => (
                            JobView { stage: JobStage::Over, attempt: moved.0, ..self },
                            StepView::Finish(Err(e)),
                        ),
                    },
                    request => (JobView { attempt: moved.0, ..self }, request),
                }
            },
        }
    }
}

impl View for RenderJob {
    type V = JobView;

    closed spec fn view(&self) -> JobView {
        JobView {
            url: self.url@,
            width: self.width,
            height: self.height,
            attempt_no: self.attempt_no,
            stage: self.stage,
            attempt: self.attempt@,
        }
    }
}

impl RenderJob {
    #[verifier::type_invariant]
    spec fn attempts_in_range(self) -> bool {
        self@.well_formed()
    }

    /// A render of `url` in a viewport of `width` by `height` pixels.
    pub fn new(url: String, width: u32, height: u32) -> (job: RenderJob)
        ensures
            job@ == JobView::fresh(url@, width, height),
    {
        let attempt = Attempt::new(url.clone(), width, height);
        RenderJob { url, width, height, attempt_no: 1, stage: JobStage::Attempting, attempt }
    }

    /// What the render is doing.
    pub fn stage(&self) -> (stage: JobStage)
        ensures
            stage == self@.stage,
    {
        self.stage
    }

    /// The number of the attempt under way, or of the last one made.
    pub fn attempt_no(&self) -> (number: u32)
        ensures
            number == self@.attempt_no,
            1 <= number <= MAX_ATTEMPTS,
    {
        proof {
            use_type_invariant(self);
        }
        self.attempt_no
    }

    /// The phase of the attempt under way. It tells the caller which of the
    /// slot, the handle and the page it must be holding.
    pub fn phase(&self) -> (phase: Phase)
        ensures
            phase == self@.attempt.phase,
    {
        self.attempt.phase()
    }

    /// Takes the reply to the request in flight and names the next request.
    /// `Finish` ends the render; after it every reply is answered with a
    /// failure.
    pub fn step(self, reply: Reply) -> (next: (RenderJob, Step))
        ensures
            (next.0@, next.1@) == self@.advance(reply@),
            next.0@.well_formed(),
    {
        proof {
            use_type_invariant(&self);
            lemma_job_stays_well_formed(self@, reply@);
        }
        let RenderJob { url, width, height, attempt_no, stage, attempt } = self;
        match stage {
            JobStage::Over => (
                RenderJob { url, width, height, attempt_no, stage, attempt },
                Step::Finish(Err(String::from_str("Render is over"))),
            ),
            JobStage::Pausing => {
                let (begun, request) = Attempt::new(url.clone(), width, height).step(reply);
                (
                    RenderJob {
                        url,
                        width,
                        height,
                        attempt_no: attempt_no + 1,
                        stage: JobStage::Attempting,
                        attempt: begun,
                    },
                    request,
                )
            },
            JobStage::Attempting => {
                let (moved, request) = attempt.step(reply);
                match request {
                    Step::Finish(result) => match after_attempt(attempt_no, result) {
                        Verdict::Deliver(capture) => (
                            RenderJob {
                                url,
                                width,
                                height,
                                attempt_no,
                                stage: JobStage::Over,
                                attempt: moved,
                            },
                            Step::Finish(Ok(capture)),
                        ),
                        Verdict::Retry { delay_ms } => (
                            RenderJob {
                                url,
                                width,
                                height,
                                attempt_no,
                                stage: JobStage::Pausing,
                                attempt: moved,
                            },
                            Step::Pause { millis: delay_ms },
                        ),
                        Verdict::GiveUp(e) => (
                            RenderJob {
                                url,
                                width,
                                height,
                                attempt_no,
                                stage: JobStage::Over,
                                attempt: moved,
                            },
                            Step::Finish(Err(e)),
                        ),
                    },
                    other => (
                        RenderJob { url, width, height, attempt_no, stage, attempt: moved },
                        other,
                    ),
                }
            },
        }
    }
}

/// A render keeps its shape: whatever the reply, the attempt number stays
/// within 1 and [`MAX_ATTEMPTS`] and goes up only when a pause has ended.
pub proof fn lemma_job_stays_well_formed(job: JobView, reply: ReplyView)
    requires
        job.well_formed(),
    ensures
        job.advance(reply).0.well_formed(),
        job.advance(reply).0.attempt_no == job.attempt_no || (job.stage == JobStage::Pausing
            && job.advance(reply).0.attempt_no == job.attempt_no + 1),
{
    if job.stage == JobStage::Attempting {
        lemma_attempt_advances(job.attempt, reply);
    }
}

/// Between attempts and after the last one, nothing is held: the slot and
/// the handle are released and no page is open.
pub proof fn lemma_job_holds_nothing_between_attempts(job: JobView)
    requires
        job.well_formed(),
        job.stage != JobStage::Attempting,
    ensures
        !job.attempt.phase.holds_slot(),
        !job.attempt.phase.holds_handle(),
        !job.attempt.phase.page_open(),
{
}

/// Every reply brings a render that is not over closer to its end.
pub proof fn lemma_job_advances(job: JobView, reply: ReplyView)
    requires
        job.well_formed(),
        job.stage != JobStage::Over,
    ensures
        job.advance(reply).0.steps_left() < job.steps_left(),
{
    if job.stage == JobStage::Attempting {
        lemma_attempt_advances(job.attempt, reply);
    }
}

/// A render is over after at most forty-one replies, whatever they are: it
/// cannot be kept from giving back the slot and the handle, not even by a
/// caller that no longer waits for its result.
pub proof fn lemma_job_ends(job: JobView, replies: Seq<ReplyView>)
    requires
        job.well_formed(),
        replies.len() >= job.steps_left(),
    ensures
        job.after(replies).stage == JobStage::Over,
        job.after(replies).well_formed(),
        !job.after(replies).attempt.phase.holds_slot(),
        !job.after(replies).attempt.phase.holds_handle(),
        JobView::fresh(job.url, job.width, job.height).steps_left() == 41,
    decreases replies.len(),
{
    if replies.len() > 0 {
        lemma_job_stays_well_formed(job, replies[0]);
        if job.stage != JobStage::Over {
            lemma_job_advances(job, replies[0]);
        }
        lemma_job_ends(job.advance(replies[0]).0, replies.drop_first());
    }
}

/// A render that ends in failure ends with the failure of its last
/// attempt, word for word; a render that ends well delivers an attempt's
/// capture unchanged.
pub proof fn lemma_job_result(job: JobView, reply: ReplyView)
    requires
        job.well_formed(),
        job.stage == JobStage::Attempting,
        job.attempt.advance(reply).1 is Finish,
    ensures
        job.attempt.advance(reply).1 matches StepView::Finish(result) && match result {
            Ok(capture) => job.advance(reply).1 == StepView::Finish(Ok(capture)),
            Err(e) => if job.attempt_no < MAX_ATTEMPTS {
                job.advance(reply).1 == (StepView::Pause { millis: RETRY_DELAY_MS })
            } else {
                job.advance(reply).1 == StepView::Finish(Err(e))
            },
        },
{
}

} // verus!

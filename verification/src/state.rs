//! The extraction workflow of the window: the settings, whether a job is
//! running, the last error, and the swatches on show. The window starts a
//! job, hands every answer of the job back as an event, and shows the state.
use vstd::prelude::*;

use crate::choices::{AlgorithmChoice, Downsample, ThemeChoice};
use crate::swatch::{swatch_views, Swatch, SwatchView};

verus! {

/// The number of swatches asked for when the window first shows.
pub const INITIAL_SWATCH_COUNT: usize = 8;

/// What an extraction job is asked to do.
#[derive(Clone, Copy, Debug, PartialEq, Eq, Structural)]
pub struct JobRequest {
    pub theme: ThemeChoice,
    pub algorithm: AlgorithmChoice,
    pub downsample: Downsample,
    /// How many swatches to find; never zero.
    pub max_swatches: usize,
    /// The job's ticket; its answers carry it back.
    pub ticket: u64,
}

/// What polling the running job gave.
pub enum PollEvent {
    /// The job has not answered yet.
    Pending,
    /// The job with this ticket finished. `file_name` is the name of the
    /// file it read, if it read one rather than dropped bytes.
    Finished { ticket: u64, file_name: Option<String>, swatches: Vec<Swatch> },
    /// The job with this ticket failed with this message.
    Failed { ticket: u64, message: String },
    /// The job with this ticket went away without answering.
    Disconnected { ticket: u64 },
}

/// A poll event as plain values.
pub enum PollEventView {
    Pending,
    Finished { ticket: u64, file_name: Option<Seq<char>>, swatches: Seq<SwatchView> },
    Failed { ticket: u64, message: Seq<char> },
    Disconnected { ticket: u64 },
}

/// The ticket an answer carries; `None` while the job has not answered.
pub open spec fn answer_ticket(e: PollEventView) -> Option<u64> {
    match e {
        PollEventView::Pending => None,
        PollEventView::Finished { ticket, .. } => Some(ticket),
        PollEventView::Failed { ticket, .. } => Some(ticket),
        PollEventView::Disconnected { ticket } => Some(ticket),
    }
}

/// The ticket after `t`, wrapping to zero after the largest.
pub open spec fn next_ticket(t: u64) -> u64 {
    if t == u64::MAX { 0 } else { (t + 1) as u64 }
}

/// The text view of an optional string.
pub open spec fn opt_text(s: Option<String>) -> Option<Seq<char>> {
    match s {
        Some(t) => Some(t@),
        None => None,
    }
}

impl View for PollEvent {
    type V = PollEventView;

    open spec fn view(&self) -> PollEventView {
        match self {
            PollEvent::Pending => PollEventView::Pending,
            PollEvent::Finished { ticket, file_name, swatches } => PollEventView::Finished {
                ticket: *ticket,
                file_name: opt_text(*file_name),
                swatches: swatch_views(swatches@),
            },
            PollEvent::Failed { ticket, message } => PollEventView::Failed {
                ticket: *ticket,
                message: message@,
            },
            PollEvent::Disconnected { ticket } => PollEventView::Disconnected { ticket: *ticket },
        }
    }
}

/// The workflow state of the window.
pub struct AppState {
    pub theme: ThemeChoice,
    pub algorithm: AlgorithmChoice,
    pub downsample: Downsample,
    /// How many swatches the user asks for; zero until the first frame.
    pub max_swatches: usize,
    /// Whether an extraction is under way, as the window shows it.
    pub busy: bool,
    /// Whether a job was started whose answer has not been taken yet.
    pub job_pending: bool,
    /// The ticket of the most recently started job.
    pub job_ticket: u64,
    /// The message of the last failed extraction, until the next one starts.
    pub error: Option<String>,
    /// The name of the image the swatches come from.
    pub source_label: String,
    pub swatches: Vec<Swatch>,
}

/// The workflow state as plain values.
pub struct AppStateView {
    pub theme: ThemeChoice,
    pub algorithm: AlgorithmChoice,
    pub downsample: Downsample,
    pub max_swatches: usize,
    pub busy: bool,
    pub job_pending: bool,
    pub job_ticket: u64,
    pub error: Option<Seq<char>>,
    pub source_label: Seq<char>,
    pub swatches: Seq<SwatchView>,
}

impl View for AppState {
    type V = AppStateView;

    open spec fn view(&self) -> AppStateView {
        AppStateView {
            theme: self.theme,
            algorithm: self.algorithm,
            downsample: self.downsample,
            max_swatches: self.max_swatches,
            busy: self.busy,
            job_pending: self.job_pending,
            job_ticket: self.job_ticket,
            error: opt_text(self.error),
            source_label: self.source_label@,
            swatches: swatch_views(self.swatches@),
        }
    }
}

/// The state the window opens with.
pub open spec fn initial_state() -> AppStateView {
    AppStateView {
        theme: ThemeChoice::Default,
        algorithm: AlgorithmChoice::DBSCANpp,
        downsample: Downsample::Px1600,
        max_swatches: 0,
        busy: false,
        job_pending: false,
        job_ticket: 0,
        error: None,
        source_label: Seq::empty(),
        swatches: Seq::empty(),
    }
}

/// The window shows a job as running exactly while its answer is awaited.
pub open spec fn consistent(s: AppStateView) -> bool {
    s.busy == s.job_pending
}

/// The swatch count a job asks for: the user's count, and at least one.
pub open spec fn requested_count(max_swatches: usize) -> usize {
    if max_swatches >= 1 { max_swatches } else { 1 }
}

/// The name shown for the source of a result: the file name, or
/// `dropped image` for bytes dropped onto the window.
pub open spec fn source_name(file_name: Option<Seq<char>>) -> Seq<char> {
    match file_name {
        Some(n) => n,
        None => "dropped image"@,
    }
}

/// A new frame: a swatch count of zero becomes the initial count.
pub open spec fn after_frame_start(s: AppStateView) -> AppStateView {
    if s.max_swatches == 0 {
        AppStateView { max_swatches: INITIAL_SWATCH_COUNT, ..s }
    } else {
        s
    }
}

/// Starting a job: it gets the next ticket, is marked as running, and the
/// last error is cleared.
pub open spec fn after_start(s: AppStateView) -> AppStateView {
    AppStateView {
        busy: true,
        job_pending: true,
        job_ticket: next_ticket(s.job_ticket),
        error: None,
        ..s
    }
}

/// The request a job is started with, taken from the current settings.
pub open spec fn request_for(s: AppStateView) -> JobRequest {
    JobRequest {
        theme: s.theme,
        algorithm: s.algorithm,
        downsample: s.downsample,
        max_swatches: requested_count(s.max_swatches),
        ticket: next_ticket(s.job_ticket),
    }
}

/// Taking an answer of the running job. With no job awaited, or for an
/// answer of an earlier job, nothing changes.
pub open spec fn after_poll(s: AppStateView, e: PollEventView) -> AppStateView {
    if !s.job_pending || answer_ticket(e) != Some(s.job_ticket) {
        s
    } else {
        match e {
            PollEventView::Pending => s,
            PollEventView::Finished { file_name, swatches, .. } => AppStateView {
                source_label: source_name(file_name),
                swatches,
                busy: false,
                job_pending: false,
                ..s
            },
            PollEventView::Failed { message, .. } => AppStateView {
                error: Some(message),
                busy: false,
                job_pending: false,
                ..s
            },
            PollEventView::Disconnected { .. } => AppStateView {
                busy: false,
                job_pending: false,
                ..s
            },
        }
    }
}

/// The name shown for the source of a result.
pub fn source_label_for(file_name: Option<String>) -> (s: String)
    ensures
        s@ == source_name(opt_text(file_name)),
{
    match file_name {
        Some(n) => n,
        None => String::from_str("dropped image"),
    }
}

/// The swatch count a job asks for, at least one.
pub fn swatch_request(max_swatches: usize) -> (n: usize)
    ensures
        n == requested_count(max_swatches),
{
    if max_swatches >= 1 {
        max_swatches
    } else {
        1
    }
}

impl AppState {
    /// The state the window opens with.
    pub fn new() -> (s: AppState)
        ensures
            s@ == initial_state(),
    {
        let s = AppState {
            theme: ThemeChoice::Default,
            algorithm: AlgorithmChoice::DBSCANpp,
            downsample: Downsample::Px1600,
            max_swatches: 0,
            busy: false,
            job_pending: false,
            job_ticket: 0,
            error: None,
            source_label: String::new(),
            swatches: Vec::new(),
        };
        assert(s@.swatches =~= Seq::<SwatchView>::empty());
        s
    }

    /// Called at the start of every frame.
    pub fn begin_frame(&mut self)
        ensures
            final(self)@ == after_frame_start(old(self)@),
            old(self).max_swatches != 0 ==> final(self).max_swatches == old(self).max_swatches,
            old(self).max_swatches == 0 ==> final(self).max_swatches == 8,
            final(self).theme == old(self).theme,
            final(self).algorithm == old(self).algorithm,
            final(self).downsample == old(self).downsample,
            final(self).busy == old(self).busy,
            final(self).job_pending == old(self).job_pending,
            final(self).job_ticket == old(self).job_ticket,
    {
        if self.max_swatches == 0 {
            self.max_swatches = INITIAL_SWATCH_COUNT;
        }
    }

    /// Starts an extraction with the current settings and returns what the
    /// job is to do. A job still awaited is given up: its answers are ignored.
    pub fn start_extraction(&mut self) -> (req: JobRequest)
        ensures
            final(self)@ == after_start(old(self)@),
            req == request_for(old(self)@),
            req.theme == old(self).theme,
            req.algorithm == old(self).algorithm,
            req.downsample == old(self).downsample,
            req.max_swatches >= 1,
            old(self).max_swatches >= 1 ==> req.max_swatches == old(self).max_swatches,
            old(self).max_swatches == 0 ==> req.max_swatches == 1,
            req.ticket != old(self).job_ticket,
            final(self).job_ticket == req.ticket,
            final(self).busy && final(self).job_pending,
            final(self).error is None,
            final(self).theme == old(self).theme,
            final(self).algorithm == old(self).algorithm,
            final(self).downsample == old(self).downsample,
            final(self).max_swatches == old(self).max_swatches,
    {
        let ticket: u64 = if self.job_ticket == u64::MAX {
            0
        } else {
            self.job_ticket + 1
        };
        let req = JobRequest {
            theme: self.theme,
            algorithm: self.algorithm,
            downsample: self.downsample,
            max_swatches: swatch_request(self.max_swatches),
            ticket,
        };
        self.job_ticket = ticket;
        self.busy = true;
        self.error = None;
        self.job_pending = true;
        req
    }

    /// Takes what polling the job gave.
    pub fn poll(&mut self, event: PollEvent)
        ensures
            final(self)@ == after_poll(old(self)@, event@),
    {
        if !self.job_pending {
            return;
        }
        match event {
            PollEvent::Pending => {},
            PollEvent::Finished { ticket, file_name, swatches } => {
                if ticket != self.job_ticket {
                    return;
                }
                self.source_label = source_label_for(file_name);
                self.swatches = swatches;
                self.busy = false;
                self.job_pending = false;
            },
            PollEvent::Failed { ticket, message } => {
                if ticket != self.job_ticket {
                    return;
                }
                self.error = Some(message);
                self.busy = false;
                self.job_pending = false;
            },
            PollEvent::Disconnected { ticket } => {
                if ticket != self.job_ticket {
                    return;
                }
                self.busy = false;
                self.job_pending = false;
            },
        }
    }
}

impl Default for AppState {
    fn default() -> (s: Self)
        ensures
            s@ == initial_state(),
    {
        AppState::new()
    }
}

/// Every step keeps the window's running indicator in line with the job:
/// starting, polling and a new frame all keep `busy` equal to `job_pending`,
/// and the window opens with both false.
pub proof fn lemma_steps_keep_consistent(s: AppStateView, e: PollEventView)
    requires
        consistent(s),
    ensures
        consistent(initial_state()),
        consistent(after_start(s)),
        consistent(after_poll(s, e)),
        consistent(after_frame_start(s)),
{
}

/// A started job carries the settings as they stood: the request's theme,
/// algorithm and downsampling are the state's, its swatch count is the
/// user's when that is not zero, and starting changes none of the settings.
pub proof fn lemma_request_takes_settings(s: AppStateView)
    ensures
        request_for(s).theme == s.theme,
        request_for(s).algorithm == s.algorithm,
        request_for(s).downsample == s.downsample,
        s.max_swatches != 0 ==> request_for(s).max_swatches == s.max_swatches,
        s.max_swatches == 0 ==> request_for(s).max_swatches == 1,
        request_for(s).ticket != s.job_ticket,
        after_start(s).job_ticket == request_for(s).ticket,
        after_start(s).theme == s.theme,
        after_start(s).algorithm == s.algorithm,
        after_start(s).downsample == s.downsample,
        after_start(s).max_swatches == s.max_swatches,
{
}

/// A new frame changes nothing but a swatch count of zero, which becomes 8.
pub proof fn lemma_frame_start_keeps_count(s: AppStateView)
    ensures
        s.max_swatches != 0 ==> after_frame_start(s) == s,
        s.max_swatches == 0 ==> after_frame_start(s).max_swatches == 8,
        after_frame_start(s).theme == s.theme,
        after_frame_start(s).algorithm == s.algorithm,
        after_frame_start(s).downsample == s.downsample,
        after_frame_start(s).busy == s.busy,
        after_frame_start(s).job_pending == s.job_pending,
        after_frame_start(s).error == s.error,
        after_frame_start(s).swatches == s.swatches,
{
}

/// A job always asks for at least one swatch, and for the user's count when
/// that is not zero; after the first frame the count is never zero.
pub proof fn lemma_request_count(s: AppStateView)
    ensures
        request_for(s).max_swatches >= 1,
        s.max_swatches >= 1 ==> request_for(s).max_swatches == s.max_swatches,
        after_frame_start(s).max_swatches >= 1,
        after_frame_start(after_frame_start(s)) == after_frame_start(s),
{
}

/// A job that finishes after being started leaves no error, shows the
/// swatches it found and the name of their source, and ends the busy state.
pub proof fn lemma_start_then_finish(
    s: AppStateView,
    file_name: Option<Seq<char>>,
    swatches: Seq<SwatchView>,
)
    ensures
        ({
            let t = after_poll(
                after_start(s),
                PollEventView::Finished {
                    ticket: request_for(s).ticket,
                    file_name,
                    swatches,
                },
            );
            &&& t.error is None
            &&& t.swatches == swatches
            &&& t.source_label == source_name(file_name)
            &&& !t.busy && !t.job_pending
            &&& t.theme == s.theme && t.algorithm == s.algorithm && t.downsample == s.downsample
            &&& t.max_swatches == s.max_swatches
        }),
{
}

/// A job that fails after being started shows its message, keeps the
/// swatches and source shown before, and ends the busy state.
pub proof fn lemma_start_then_fail(s: AppStateView, message: Seq<char>)
    ensures
        ({
            let t = after_poll(
                after_start(s),
                PollEventView::Failed { ticket: request_for(s).ticket, message },
            );
            &&& t.error == Some(message)
            &&& t.swatches == s.swatches
            &&& t.source_label == s.source_label
            &&& !t.busy && !t.job_pending
        }),
{
}

/// Polling changes nothing while no job is awaited, nor while the awaited
/// job has not answered.
pub proof fn lemma_poll_without_answer(s: AppStateView, e: PollEventView)
    ensures
        !s.job_pending ==> after_poll(s, e) == s,
        after_poll(s, PollEventView::Pending) == s,
{
}

/// Once a job has answered, a second answer is ignored until the next start.
pub proof fn lemma_single_answer(s: AppStateView, e1: PollEventView, e2: PollEventView)
    requires
        answer_ticket(e1) == Some(s.job_ticket),
    ensures
        after_poll(after_poll(s, e1), e2) == after_poll(s, e1),
{
}

/// A later start discards the earlier job: the two jobs get distinct
/// tickets, and every answer of the earlier job is ignored afterwards.
pub proof fn lemma_later_start_discards_earlier(s: AppStateView, e: PollEventView)
    requires
        answer_ticket(e) == Some(request_for(s).ticket),
    ensures
        request_for(after_start(s)).ticket != request_for(s).ticket,
        after_poll(after_start(after_start(s)), e) == after_start(after_start(s)),
{
}

/// The answer of the running job is taken whatever answered before it.
pub proof fn lemma_current_answer_taken(s: AppStateView, e: PollEventView)
    requires
        answer_ticket(e) == Some(request_for(s).ticket),
    ensures
        !after_poll(after_start(s), e).busy,
        !after_poll(after_start(s), e).job_pending,
{
}

} // verus!

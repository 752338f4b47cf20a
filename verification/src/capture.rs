//! One rendering session against the browser engine, step by step.
//!
//! The engine is reached through a narrow set of commands: launch, open a
//! page context, navigate, wait for the load, take the image, close. This
//! module decides which command comes next. The caller performs each command
//! and reports how it went, together with a reading of a monotonic clock in
//! milliseconds. A capture has a deadline. The caller reports
//! [`EngineEvent::TimedOut`] for a command that it gave up on, and a report
//! that arrives after the deadline counts as a timeout whatever it says.
//!
//! Whatever happens after a page context was opened, the session asks for it
//! to be closed before it ends, and a browser process that was launched for
//! this request is terminated. The same goes for a launch or an opening that
//! the caller gave up on, since it may have gone through all the same. A
//! failure while closing never replaces the outcome that was reached before.

use vstd::prelude::*;
use vstd::string::*;

verus! {

/// Width of the browser window and of every page context, in pixels.
pub const VIEWPORT_WIDTH: u32 = 1920;

/// Height of the browser window and of every page context, in pixels.
pub const VIEWPORT_HEIGHT: u32 = 1080;

/// Quality asked of the JPEG codec, out of 100.
pub const IMAGE_QUALITY: u8 = 100;

/// Why a capture produced no image.
#[derive(Clone, Copy, Debug, PartialEq, Eq, Structural)]
pub enum CaptureError {
    /// The browser process could not be started.
    LaunchFailed,
    /// A deadline ran out before the page was rendered.
    Timeout,
    /// The engine failed in the middle of the session.
    ProtocolError,
}

impl CaptureError {
    /// The failure in words, for the user.
    pub open spec fn spec_message(self) -> Seq<char> {
        match self {
            CaptureError::LaunchFailed => "Failed to create a new browser"@,
            CaptureError::Timeout => "Timed out while rendering the page"@,
            CaptureError::ProtocolError => "The browser failed while rendering the page"@,
        }
    }

    /// The failure in words, for the user.
    pub fn message(&self) -> (text: String)
        ensures
            text@ == self.spec_message(),
    {
        match self {
            CaptureError::LaunchFailed => String::from_str("Failed to create a new browser"),
            CaptureError::Timeout => String::from_str("Timed out while rendering the page"),
            CaptureError::ProtocolError => String::from_str(
                "The browser failed while rendering the page",
            ),
        }
    }
}

/// Whose browser process a session renders in.
#[derive(Clone, Copy, Debug, PartialEq, Eq, Structural)]
pub enum EngineMode {
    /// A process of its own, launched for the request and terminated with it.
    PerRequest,
    /// A long-lived process that all requests share; only the page context
    /// belongs to the request.
    Shared,
}

/// How a page context presents itself to the sites it visits.
#[derive(Debug, PartialEq, Eq)]
pub struct Identity {
    pub user_agent: String,
    pub accept_language: Option<String>,
    pub platform: Option<String>,
}

/// The view of an [`Identity`].
pub struct IdentityView {
    pub user_agent: Seq<char>,
    pub accept_language: Option<Seq<char>>,
    pub platform: Option<Seq<char>>,
}

/// The text of an optional string.
pub open spec fn text_of(text: Option<String>) -> Option<Seq<char>> {
    match text {
        Some(text) => Some(text@),
        None => None,
    }
}

impl View for Identity {
    type V = IdentityView;

    open spec fn view(&self) -> IdentityView {
        IdentityView {
            user_agent: self.user_agent@,
            accept_language: text_of(self.accept_language),
            platform: text_of(self.platform),
        }
    }
}

/// Copies an optional string.
fn copy_text(text: &Option<String>) -> (copy: Option<String>)
    ensures
        text_of(copy) == text_of(*text),
{
    match text {
        Some(text) => Some(text.clone()),
        None => None,
    }
}

impl Identity {
    /// The identity of a desktop browser on a personal computer.
    pub open spec fn spec_desktop() -> IdentityView {
        IdentityView {
            user_agent: "Mozilla/5.0 (Macintosh; Intel Mac OS X 10_15_7) AppleWebKit/537.36 (KHTML, like Gecko) Chrome/91.0.4472.114 Safari/537.36"@,
            accept_language: Some("en-US,en;q=0.9,hi;q=0.8,es;q=0.7,lt;q=0.6"@),
            platform: Some("macOS"@),
        }
    }

    /// The identity of a desktop browser on a personal computer.
    pub fn desktop() -> (identity: Identity)
        ensures
            identity@ == Identity::spec_desktop(),
    {
        Identity {
            user_agent: String::from_str(
                "Mozilla/5.0 (Macintosh; Intel Mac OS X 10_15_7) AppleWebKit/537.36 (KHTML, like Gecko) Chrome/91.0.4472.114 Safari/537.36",
            ),
            accept_language: Some(String::from_str("en-US,en;q=0.9,hi;q=0.8,es;q=0.7,lt;q=0.6")),
            platform: Some(String::from_str("macOS")),
        }
    }

    /// A copy of this identity.
    pub fn duplicate(&self) -> (copy: Identity)
        ensures
            copy@ == self@,
    {
        Identity {
            user_agent: self.user_agent.clone(),
            accept_language: copy_text(&self.accept_language),
            platform: copy_text(&self.platform),
        }
    }
}

/// The settings of the capture client.
#[derive(Debug, PartialEq, Eq)]
pub struct CaptureConfig {
    pub mode: EngineMode,
    /// Whether the browser process runs in its sandbox.
    pub sandbox: bool,
    /// Whether the browser process runs without a window.
    pub headless: bool,
    /// The time allowed for the whole capture, in milliseconds.
    pub capture_timeout: u64,
    /// The time allowed for each single operation on a page context, in
    /// milliseconds.
    pub operation_timeout: u64,
    /// How long to wait after the load event before the image is taken, in
    /// milliseconds. Zero skips the wait.
    pub settle_delay: u64,
    /// The identity to present, if any.
    pub identity: Option<Identity>,
}

/// The view of a [`CaptureConfig`].
pub struct ConfigView {
    pub mode: EngineMode,
    pub sandbox: bool,
    pub headless: bool,
    pub capture_timeout: u64,
    pub operation_timeout: u64,
    pub settle_delay: u64,
    pub identity: Option<IdentityView>,
}

impl View for CaptureConfig {
    type V = ConfigView;

    open spec fn view(&self) -> ConfigView {
        ConfigView {
            mode: self.mode,
            sandbox: self.sandbox,
            headless: self.headless,
            capture_timeout: self.capture_timeout,
            operation_timeout: self.operation_timeout,
            settle_delay: self.settle_delay,
            identity: match self.identity {
                Some(identity) => Some(identity@),
                None => None,
            },
        }
    }
}

impl CaptureConfig {
    /// The usual settings for `mode`.
    pub open spec fn spec_standard(mode: EngineMode) -> ConfigView {
        ConfigView {
            mode,
            sandbox: true,
            headless: true,
            capture_timeout: 60_000,
            operation_timeout: 10_000,
            settle_delay: 5_000,
            identity: Some(Identity::spec_desktop()),
        }
    }

    /// The usual settings for `mode`: sandboxed and headless, a minute for
    /// the capture, ten seconds for each operation, five seconds for the
    /// page to settle, and the identity of a desktop browser.
    pub fn standard(mode: EngineMode) -> (config: CaptureConfig)
        ensures
            config@ == CaptureConfig::spec_standard(mode),
    {
        CaptureConfig {
            mode,
            sandbox: true,
            headless: true,
            capture_timeout: 60_000,
            operation_timeout: 10_000,
            settle_delay: 5_000,
            identity: Some(Identity::desktop()),
        }
    }
}

/// What the session asks of the engine.
#[derive(Debug, PartialEq, Eq)]
pub enum EngineCommand {
    /// Start a browser process with a window of the given size.
    Launch { sandbox: bool, headless: bool, width: u32, height: u32 },
    /// Open a fresh page context of the given size on a neutral page.
    OpenContext { url: String, width: u32, height: u32 },
    /// Bound every later operation on the context.
    SetDeadline { millis: u64 },
    /// Present this identity to the sites visited.
    SetIdentity { identity: Identity },
    /// Start loading the page.
    Navigate { url: String },
    /// Block until the load event of the navigation fires.
    AwaitLoad,
    /// Let the page settle.
    Settle { millis: u64 },
    /// Take an image of the full viewport, unclipped, as a JPEG of this
    /// quality.
    Screenshot { quality: u8 },
    /// Close the page context.
    CloseContext,
    /// Terminate the browser process.
    Terminate,
}

/// The view of an [`EngineCommand`].
pub enum CommandView {
    Launch { sandbox: bool, headless: bool, width: u32, height: u32 },
    OpenContext { url: Seq<char>, width: u32, height: u32 },
    SetDeadline { millis: u64 },
    SetIdentity { identity: IdentityView },
    Navigate { url: Seq<char> },
    AwaitLoad,
    Settle { millis: u64 },
    Screenshot { quality: u8 },
    CloseContext,
    Terminate,
}

impl View for EngineCommand {
    type V = CommandView;

    open spec fn view(&self) -> CommandView {
        match *self {
            EngineCommand::Launch { sandbox, headless, width, height } => CommandView::Launch {
                sandbox,
                headless,
                width,
                height,
            },
            EngineCommand::OpenContext { url, width, height } => CommandView::OpenContext {
                url: url@,
                width,
                height,
            },
            EngineCommand::SetDeadline { millis } => CommandView::SetDeadline { millis },
            EngineCommand::SetIdentity { identity } => CommandView::SetIdentity {
                identity: identity@,
            },
            EngineCommand::Navigate { url } => CommandView::Navigate { url: url@ },
            EngineCommand::AwaitLoad => CommandView::AwaitLoad,
            EngineCommand::Settle { millis } => CommandView::Settle { millis },
            EngineCommand::Screenshot { quality } => CommandView::Screenshot { quality },
            EngineCommand::CloseContext => CommandView::CloseContext,
            EngineCommand::Terminate => CommandView::Terminate,
        }
    }
}

/// How the engine fared with the last command.
#[derive(Debug, PartialEq, Eq)]
pub enum EngineEvent {
    /// The command was carried out.
    Completed,
    /// The command was carried out and produced this image.
    Image(Vec<u8>),
    /// The command failed.
    Failed,
    /// A deadline ran out before the command was carried out.
    TimedOut,
}

/// The view of an [`EngineEvent`].
pub enum EventView {
    Completed,
    Image(Seq<u8>),
    Failed,
    TimedOut,
}

impl View for EngineEvent {
    type V = EventView;

    open spec fn view(&self) -> EventView {
        match *self {
            EngineEvent::Completed => EventView::Completed,
            EngineEvent::Image(image) => EventView::Image(image@),
            EngineEvent::Failed => EventView::Failed,
            EngineEvent::TimedOut => EventView::TimedOut,
        }
    }
}

impl EventView {
    /// The kind of failure that an event other than the expected one stands
    /// for, once a page context is involved. `late` says whether the
    /// deadline of the capture has passed.
    pub open spec fn failure(self, late: bool) -> CaptureError {
        if late || self is TimedOut {
            CaptureError::Timeout
        } else {
            CaptureError::ProtocolError
        }
    }
}

/// The command that a session is waiting on.
#[derive(Clone, Copy, Debug, PartialEq, Eq, Structural)]
pub enum Stage {
    Launching,
    Opening,
    SettingDeadline,
    SettingIdentity,
    Navigating,
    Loading,
    Settling,
    Shooting,
    Closing,
    Terminating,
}

/// The view of the outcome of a capture: the image as a sequence of bytes,
/// or the failure.
pub type OutcomeView = Result<Seq<u8>, CaptureError>;

/// The view of `outcome`.
pub open spec fn outcome_view(outcome: Result<Vec<u8>, CaptureError>) -> OutcomeView {
    match outcome {
        Ok(image) => Ok(image@),
        Err(error) => Err(error),
    }
}

/// The view of a [`CaptureSession`].
pub struct SessionView {
    pub config: ConfigView,
    pub url: Seq<char>,
    /// The clock reading after which the capture has taken too long.
    pub deadline: u64,
    pub stage: Stage,
    /// The outcome, once it is known. Teardown may still be under way.
    pub outcome: Option<OutcomeView>,
}

/// The view of a [`CaptureStep`].
pub enum StepView {
    /// The session goes on; its stage says which command comes next.
    Continue(SessionView),
    /// The session is over.
    Finished(OutcomeView),
}

/// The clock reading `timeout` after `start`, or the last reading of the
/// clock where that lies beyond it.
pub open spec fn deadline_after(start: u64, timeout: u64) -> u64 {
    if start + timeout <= u64::MAX {
        (start + timeout) as u64
    } else {
        u64::MAX
    }
}

impl SessionView {
    /// The session at its start, at time `now`.
    pub open spec fn begin(url: Seq<char>, config: ConfigView, now: u64) -> SessionView {
        SessionView {
            config,
            url,
            deadline: deadline_after(now, config.capture_timeout),
            stage: match config.mode {
                EngineMode::PerRequest => Stage::Launching,
                EngineMode::Shared => Stage::Opening,
            },
            outcome: None,
        }
    }

    /// The command that the session is waiting on.
    pub open spec fn command(self) -> CommandView {
        match self.stage {
            Stage::Launching => CommandView::Launch {
                sandbox: self.config.sandbox,
                headless: self.config.headless,
                width: VIEWPORT_WIDTH,
                height: VIEWPORT_HEIGHT,
            },
            Stage::Opening => CommandView::OpenContext {
                url: "about:blank"@,
                width: VIEWPORT_WIDTH,
                height: VIEWPORT_HEIGHT,
            },
            Stage::SettingDeadline => CommandView::SetDeadline {
                millis: self.config.operation_timeout,
            },
            Stage::SettingIdentity => CommandView::SetIdentity {
                identity: match self.config.identity {
                    Some(identity) => identity,
                    None => Identity::spec_desktop(),
                },
            },
            Stage::Navigating => CommandView::Navigate { url: self.url },
            Stage::Loading => CommandView::AwaitLoad,
            Stage::Settling => CommandView::Settle { millis: self.config.settle_delay },
            Stage::Shooting => CommandView::Screenshot { quality: IMAGE_QUALITY },
            Stage::Closing => CommandView::CloseContext,
            Stage::Terminating => CommandView::Terminate,
        }
    }

    /// Whether the session is releasing what it had open. The deadline of
    /// the capture does not apply to that.
    pub open spec fn tearing_down(self) -> bool {
        self.stage == Stage::Closing || self.stage == Stage::Terminating
    }

    /// How long the caller may wait for the command that the session is
    /// waiting on, from time `now`: what is left until the deadline, and no
    /// limit during teardown.
    pub open spec fn allowance(self, now: u64) -> Option<u64> {
        if self.tearing_down() {
            None
        } else if now >= self.deadline {
            Some(0)
        } else {
            Some((self.deadline - now) as u64)
        }
    }

    /// Whether the session has a page context open that it has not yet
    /// asked to be closed.
    pub open spec fn context_open(self) -> bool {
        match self.stage {
            Stage::SettingDeadline
            | Stage::SettingIdentity
            | Stage::Navigating
            | Stage::Loading
            | Stage::Settling
            | Stage::Shooting => true,
            _ => false,
        }
    }

    /// The outcome that was reached, or a protocol error where none was.
    pub open spec fn verdict(self) -> OutcomeView {
        match self.outcome {
            Some(outcome) => outcome,
            None => Err(CaptureError::ProtocolError),
        }
    }

    /// The session at `stage`, with the outcome still open.
    pub open spec fn at(self, stage: Stage) -> StepView {
        StepView::Continue(SessionView { stage, ..self })
    }

    /// The session with its outcome settled and the page context, which is
    /// open, to be closed next.
    pub open spec fn wind_up(self, outcome: OutcomeView) -> StepView {
        StepView::Continue(SessionView { stage: Stage::Closing, outcome: Some(outcome), ..self })
    }

    /// The session with its outcome settled and a process of its own to be
    /// terminated next.
    pub open spec fn shut_down(self, outcome: OutcomeView) -> StepView {
        StepView::Continue(
            SessionView { stage: Stage::Terminating, outcome: Some(outcome), ..self },
        )
    }

    /// The session with its outcome settled and no page context open: a
    /// process of its own is terminated next, and with a shared one the
    /// session is over.
    pub open spec fn leave(self, outcome: OutcomeView) -> StepView {
        match self.config.mode {
            EngineMode::PerRequest => self.shut_down(outcome),
            EngineMode::Shared => StepView::Finished(outcome),
        }
    }

    /// The stage after the per-operation deadline is set.
    pub open spec fn after_deadline(self) -> Stage {
        if self.config.identity is Some {
            Stage::SettingIdentity
        } else {
            Stage::Navigating
        }
    }

    /// The stage after the load event.
    pub open spec fn after_load(self) -> Stage {
        if self.config.settle_delay > 0 {
            Stage::Settling
        } else {
            Stage::Shooting
        }
    }

    /// The step after a command on the open page context: on to `stage`
    /// where the command was carried out in time, and else the failure and
    /// the closing of the context.
    pub open spec fn step_on(self, event: EventView, late: bool, stage: Stage) -> StepView {
        if event is Completed && !late {
            self.at(stage)
        } else {
            self.wind_up(Err(event.failure(late)))
        }
    }

    /// What the session does when the engine reports `event`, at time
    /// `now`, for the command it was waiting on.
    pub open spec fn next(self, event: EventView, now: u64) -> StepView {
        let late = now > self.deadline;
        match self.stage {
            Stage::Launching => match event {
                EventView::Completed => if late {
                    self.shut_down(Err(CaptureError::Timeout))
                } else {
                    self.at(Stage::Opening)
                },
                EventView::TimedOut => self.shut_down(Err(CaptureError::Timeout)),
                _ => StepView::Finished(
                    Err(
                        if late {
                            CaptureError::Timeout
                        } else {
                            CaptureError::LaunchFailed
                        },
                    ),
                ),
            },
            Stage::Opening => match event {
                EventView::Completed => if late {
                    self.wind_up(Err(CaptureError::Timeout))
                } else {
                    self.at(Stage::SettingDeadline)
                },
                EventView::TimedOut => self.wind_up(Err(CaptureError::Timeout)),
                _ => self.leave(Err(event.failure(late))),
            },
            Stage::SettingDeadline => self.step_on(event, late, self.after_deadline()),
            Stage::SettingIdentity => self.step_on(event, late, Stage::Navigating),
            Stage::Navigating => self.step_on(event, late, Stage::Loading),
            Stage::Loading => self.step_on(event, late, self.after_load()),
            Stage::Settling => self.step_on(event, late, Stage::Shooting),
            Stage::Shooting => match event {
                EventView::Image(image) => if late {
                    self.wind_up(Err(CaptureError::Timeout))
                } else {
                    self.wind_up(Ok(image))
                },
                _ => self.wind_up(Err(event.failure(late))),
            },
            Stage::Closing => self.leave(self.verdict()),
            Stage::Terminating => StepView::Finished(self.verdict()),
        }
    }
}

/// What the engine holds open on behalf of one session.
pub struct Ledger {
    /// Page contexts that were opened and not yet asked to be closed.
    pub contexts: int,
    /// Browser processes that were launched for the session and not yet
    /// asked to terminate.
    pub processes: int,
}

impl Ledger {
    /// Nothing is open.
    pub open spec fn nothing() -> Ledger {
        Ledger { contexts: 0, processes: 0 }
    }

    /// The ledger after the engine answered `command` with `event`. A launch
    /// or an opening that timed out may have left a process or a context
    /// behind, so it counts as one. A request to close or terminate settles
    /// the entry however it went.
    pub open spec fn record(self, command: CommandView, event: EventView) -> Ledger {
        match command {
            CommandView::Launch { .. } => match event {
                EventView::Completed | EventView::TimedOut => Ledger {
                    processes: self.processes + 1,
                    ..self
                },
                _ => self,
            },
            CommandView::OpenContext { .. } => match event {
                EventView::Completed | EventView::TimedOut => Ledger {
                    contexts: self.contexts + 1,
                    ..self
                },
                _ => self,
            },
            CommandView::CloseContext => Ledger { contexts: self.contexts - 1, ..self },
            CommandView::Terminate => Ledger { processes: self.processes - 1, ..self },
            _ => self,
        }
    }
}

/// One answer of the engine: how the command went, and when that was known.
pub struct Report {
    pub event: EventView,
    pub at: u64,
}

/// How far a session got with the reports it was given.
pub enum RunView {
    /// The session still waits on a command.
    Running(SessionView, Ledger),
    /// The session ended with this outcome.
    Over(OutcomeView, Ledger),
}

impl SessionView {
    /// The stage fits the settings and the outcome: only a session with a
    /// process of its own launches or terminates one, an identity is set
    /// only where there is one, and the outcome is known exactly during
    /// teardown.
    pub open spec fn well_formed(self) -> bool {
        &&& (self.stage == Stage::Launching || self.stage == Stage::Terminating)
            ==> self.config.mode == EngineMode::PerRequest
        &&& self.stage == Stage::SettingIdentity ==> self.config.identity is Some
        &&& self.outcome is Some <==> self.tearing_down()
    }

    /// What the engine holds open for the session while it waits on its
    /// command.
    pub open spec fn holding(self) -> Ledger {
        Ledger {
            contexts: if self.context_open() || self.stage == Stage::Closing {
                1
            } else {
                0
            },
            processes: if self.config.mode == EngineMode::PerRequest && self.stage
                != Stage::Launching {
                1
            } else {
                0
            },
        }
    }

    /// The most commands that the session may still ask for.
    pub open spec fn steps_left(self) -> nat {
        match self.stage {
            Stage::Launching => 10,
            Stage::Opening => 9,
            Stage::SettingDeadline => 8,
            Stage::SettingIdentity => 7,
            Stage::Navigating => 6,
            Stage::Loading => 5,
            Stage::Settling => 4,
            Stage::Shooting => 3,
            Stage::Closing => 2,
            Stage::Terminating => 1,
        }
    }

    /// Runs the session over `reports`, the engine's answers in order, and
    /// keeps the ledger. Reports after the end of the session are not read.
    pub open spec fn run(self, ledger: Ledger, reports: Seq<Report>) -> RunView
        decreases reports.len(),
    {
        if reports.len() == 0 {
            RunView::Running(self, ledger)
        } else {
            let ledger = ledger.record(self.command(), reports[0].event);
            match self.next(reports[0].event, reports[0].at) {
                StepView::Continue(session) => session.run(ledger, reports.drop_first()),
                StepView::Finished(outcome) => RunView::Over(outcome, ledger),
            }
        }
    }

    /// A session starts well formed, with nothing open.
    pub proof fn begins_well_formed(url: Seq<char>, config: ConfigView, now: u64)
        ensures
            SessionView::begin(url, config, now).well_formed(),
            SessionView::begin(url, config, now).holding() == Ledger::nothing(),
    {
    }

    /// One step keeps the session well formed and the ledger true: what the
    /// engine holds after the step is what the next stage accounts for, and
    /// nothing where the session is over. Each step brings the end nearer,
    /// and an outcome that is settled stays as it is.
    pub proof fn step_keeps_account(self, event: EventView, now: u64)
        requires
            self.well_formed(),
        ensures
            match self.next(event, now) {
                StepView::Continue(session) => {
                    &&& session.well_formed()
                    &&& session.config == self.config
                    &&& session.url == self.url
                    &&& session.deadline == self.deadline
                    &&& session.steps_left() < self.steps_left()
                    &&& self.holding().record(self.command(), event) == session.holding()
                    &&& self.outcome is Some ==> session.outcome == self.outcome
                },
                StepView::Finished(outcome) => {
                    &&& self.holding().record(self.command(), event) == Ledger::nothing()
                    &&& self.outcome is Some ==> Some(outcome) == self.outcome
                },
            },
    {
    }

    /// No leak: when a session that started well formed with a true ledger
    /// is over, nothing is left open at the engine, whatever the engine
    /// answered along the way and whenever.
    pub proof fn nothing_left_open(self, reports: Seq<Report>)
        requires
            self.well_formed(),
        ensures
            match self.run(self.holding(), reports) {
                RunView::Running(session, ledger) => session.well_formed() && ledger
                    == session.holding(),
                RunView::Over(_, ledger) => ledger == Ledger::nothing(),
            },
        decreases reports.len(),
    {
        if reports.len() > 0 {
            self.step_keeps_account(reports[0].event, reports[0].at);
            match self.next(reports[0].event, reports[0].at) {
                StepView::Continue(session) => {
                    session.nothing_left_open(reports.drop_first());
                },
                StepView::Finished(_) => {},
            }
        }
    }

    /// A session ends: it never asks for more commands than
    /// [`Self::steps_left`] says.
    pub proof fn run_is_bounded(self, ledger: Ledger, reports: Seq<Report>)
        requires
            self.well_formed(),
            reports.len() >= self.steps_left(),
        ensures
            self.run(ledger, reports) is Over,
        decreases reports.len(),
    {
        self.step_keeps_account(reports[0].event, reports[0].at);
        match self.next(reports[0].event, reports[0].at) {
            StepView::Continue(session) => {
                session.run_is_bounded(
                    ledger.record(self.command(), reports[0].event),
                    reports.drop_first(),
                );
            },
            StepView::Finished(_) => {},
        }
    }

    /// Once the outcome is settled, the rest of the run is teardown: it
    /// ends within two commands, with that outcome, whatever the engine
    /// answers and however late.
    pub proof fn teardown_keeps_outcome(self, ledger: Ledger, reports: Seq<Report>)
        requires
            self.well_formed(),
            self.outcome is Some,
            reports.len() >= 2,
        ensures
            self.run(ledger, reports) matches RunView::Over(outcome, _) && Some(outcome)
                == self.outcome,
    {
        match self.next(reports[0].event, reports[0].at) {
            StepView::Continue(session) => {
                let rest = reports.drop_first();
                let ledger = ledger.record(self.command(), reports[0].event);
                assert(session.stage == Stage::Terminating);
                assert(session.run(ledger, rest) == RunView::Over(
                    session.verdict(),
                    ledger.record(session.command(), rest[0].event),
                ));
            },
            StepView::Finished(_) => {},
        }
    }

    /// Timeout: when the engine is given up on, or answers after the
    /// deadline of the capture, before the outcome is settled, the session
    /// reports [`CaptureError::Timeout`], and it does so only after it has
    /// asked for everything that was open to be released.
    pub proof fn timeout_is_reported(self, first: Report, rest: Seq<Report>)
        requires
            self.well_formed(),
            self.outcome is None,
            first.event is TimedOut || first.at > self.deadline,
            rest.len() >= 2,
        ensures
            self.run(self.holding(), seq![first] + rest) == RunView::Over(
                Err(CaptureError::Timeout),
                Ledger::nothing(),
            ),
    {
        let reports = seq![first] + rest;
        assert(reports[0] == first);
        assert(reports.drop_first() =~= rest);
        self.nothing_left_open(reports);
        self.step_keeps_account(first.event, first.at);
        match self.next(first.event, first.at) {
            StepView::Continue(session) => {
                session.teardown_keeps_outcome(session.holding(), rest);
            },
            StepView::Finished(_) => {},
        }
    }

    /// An image is the outcome only of a session that went through every
    /// step in time: a session that is over with an image has had its
    /// screenshot taken before the deadline, and nothing went wrong before.
    pub proof fn image_comes_in_time(self, event: EventView, now: u64)
        requires
            self.well_formed(),
            self.outcome is None,
        ensures
            match self.next(event, now) {
                StepView::Continue(session) => match session.outcome {
                    Some(Ok(image)) => self.stage == Stage::Shooting && event == EventView::Image(
                        image,
                    ) && now <= self.deadline,
                    _ => true,
                },
                StepView::Finished(outcome) => outcome is Err,
            },
    {
    }
}

/// A rendering session in progress.
#[derive(Debug, PartialEq, Eq)]
pub struct CaptureSession {
    config: CaptureConfig,
    url: String,
    deadline: u64,
    stage: Stage,
    outcome: Option<Result<Vec<u8>, CaptureError>>,
}

impl View for CaptureSession {
    type V = SessionView;

    closed spec fn view(&self) -> SessionView {
        SessionView {
            config: self.config@,
            url: self.url@,
            deadline: self.deadline,
            stage: self.stage,
            outcome: match self.outcome {
                Some(outcome) => Some(outcome_view(outcome)),
                None => None,
            },
        }
    }
}

/// What a step of a session leads to.
#[derive(Debug, PartialEq, Eq)]
pub enum CaptureStep {
    /// The session goes on, and this command is to be performed next.
    Continue(CaptureSession, EngineCommand),
    /// The session is over, with this outcome.
    Finished(Result<Vec<u8>, CaptureError>),
}

impl CaptureStep {
    /// Whether `step` is the view of this step. The command of a step that
    /// goes on is the one its session waits on.
    pub open spec fn matches_view(self, step: StepView) -> bool {
        match self {
            CaptureStep::Continue(session, command) => step == StepView::Continue(session@)
                && command@ == session@.command(),
            CaptureStep::Finished(outcome) => step == StepView::Finished(outcome_view(outcome)),
        }
    }
}

/// Begins the capture of the page at `url`, at time `now`.
///
/// Returns the session and the first command to perform: the launch of a
/// browser process, or with a shared process the opening of a page context.
pub fn capture_website(url: String, config: CaptureConfig, now: u64) -> (start: (
    CaptureSession,
    EngineCommand,
))
    ensures
        start.0@ == SessionView::begin(url@, config@, now),
        start.1@ == start.0@.command(),
{
    let stage = match config.mode {
        EngineMode::PerRequest => Stage::Launching,
        EngineMode::Shared => Stage::Opening,
    };
    let deadline = match now.checked_add(config.capture_timeout) {
        Some(deadline) => deadline,
        None => u64::MAX,
    };
    let session = CaptureSession { config, url, deadline, stage, outcome: None };
    let command = session.command();
    (session, command)
}

impl CaptureSession {
    /// The command that the session is waiting on.
    pub fn command(&self) -> (command: EngineCommand)
        ensures
            command@ == self@.command(),
    {
        match self.stage {
            Stage::Launching => EngineCommand::Launch {
                sandbox: self.config.sandbox,
                headless: self.config.headless,
                width: VIEWPORT_WIDTH,
                height: VIEWPORT_HEIGHT,
            },
            Stage::Opening => EngineCommand::OpenContext {
                url: String::from_str("about:blank"),
                width: VIEWPORT_WIDTH,
                height: VIEWPORT_HEIGHT,
            },
            Stage::SettingDeadline => EngineCommand::SetDeadline {
                millis: self.config.operation_timeout,
            },
            Stage::SettingIdentity => EngineCommand::SetIdentity {
                identity: match &self.config.identity {
                    Some(identity) => identity.duplicate(),
                    None => Identity::desktop(),
                },
            },
            Stage::Navigating => EngineCommand::Navigate { url: self.url.clone() },
            Stage::Loading => EngineCommand::AwaitLoad,
            Stage::Settling => EngineCommand::Settle { millis: self.config.settle_delay },
            Stage::Shooting => EngineCommand::Screenshot { quality: IMAGE_QUALITY },
            Stage::Closing => EngineCommand::CloseContext,
            Stage::Terminating => EngineCommand::Terminate,
        }
    }

    /// The stage that the session is at.
    pub fn stage(&self) -> (stage: Stage)
        ensures
            stage == self@.stage,
    {
        self.stage
    }

    /// How long the caller may wait for the command that the session is
    /// waiting on, in milliseconds from time `now`. `None` is no limit.
    pub fn allowance(&self, now: u64) -> (allowance: Option<u64>)
        ensures
            allowance == self@.allowance(now),
    {
        match self.stage {
            Stage::Closing | Stage::Terminating => None,
            _ => if now >= self.deadline {
                Some(0)
            } else {
                Some(self.deadline - now)
            },
        }
    }

    /// Moves to `stage` and asks for its command.
    fn proceed(self, stage: Stage) -> (step: CaptureStep)
        ensures
            step.matches_view(self@.at(stage)),
    {
        let session = CaptureSession { stage, ..self };
        let command = session.command();
        CaptureStep::Continue(session, command)
    }

    /// Settles the outcome and asks for the page context to be closed.
    fn settle(self, outcome: Result<Vec<u8>, CaptureError>) -> (step: CaptureStep)
        ensures
            step.matches_view(self@.wind_up(outcome_view(outcome))),
    {
        let session = CaptureSession { stage: Stage::Closing, outcome: Some(outcome), ..self };
        let command = session.command();
        CaptureStep::Continue(session, command)
    }

    /// Settles the outcome and asks for the process to be terminated.
    fn retire(self, outcome: Result<Vec<u8>, CaptureError>) -> (step: CaptureStep)
        ensures
            step.matches_view(self@.shut_down(outcome_view(outcome))),
    {
        let session = CaptureSession {
            stage: Stage::Terminating,
            outcome: Some(outcome),
            ..self
        };
        let command = session.command();
        CaptureStep::Continue(session, command)
    }

    /// Settles the outcome where no page context is open.
    fn depart(self, outcome: Result<Vec<u8>, CaptureError>) -> (step: CaptureStep)
        ensures
            step.matches_view(self@.leave(outcome_view(outcome))),
    {
        match self.config.mode {
            EngineMode::PerRequest => self.retire(outcome),
            EngineMode::Shared => CaptureStep::Finished(outcome),
        }
    }

    /// Goes on to `stage` after a command on the open page context, or
    /// fails and closes the context.
    fn pass(self, event: EngineEvent, late: bool, stage: Stage) -> (step: CaptureStep)
        ensures
            step.matches_view(self@.step_on(event@, late, stage)),
    {
        match event {
            EngineEvent::Completed => if late {
                self.settle(Err(CaptureError::Timeout))
            } else {
                self.proceed(stage)
            },
            EngineEvent::TimedOut => self.settle(Err(CaptureError::Timeout)),
            _ => if late {
                self.settle(Err(CaptureError::Timeout))
            } else {
                self.settle(Err(CaptureError::ProtocolError))
            },
        }
    }

    /// Takes the outcome that was reached out of the session.
    fn into_verdict(self) -> (outcome: Result<Vec<u8>, CaptureError>)
        ensures
            outcome_view(outcome) == self@.verdict(),
    {
        match self.outcome {
            Some(outcome) => outcome,
            None => Err(CaptureError::ProtocolError),
        }
    }

    /// Takes in how the engine fared with the command that the session was
    /// waiting on, as known at time `now`, and says what comes next.
    pub fn advance(self, event: EngineEvent, now: u64) -> (step: CaptureStep)
        ensures
            step.matches_view(self@.next(event@, now)),
    {
        let late = now > self.deadline;
        let failure = if late {
            CaptureError::Timeout
        } else {
            match event {
                EngineEvent::TimedOut => CaptureError::Timeout,
                _ => CaptureError::ProtocolError,
            }
        };
        match self.stage {
            Stage::Launching => match event {
                EngineEvent::Completed => if late {
                    self.retire(Err(CaptureError::Timeout))
                } else {
                    self.proceed(Stage::Opening)
                },
                EngineEvent::TimedOut => self.retire(Err(CaptureError::Timeout)),
                _ => if late {
                    CaptureStep::Finished(Err(CaptureError::Timeout))
                } else {
                    CaptureStep::Finished(Err(CaptureError::LaunchFailed))
                },
            },
            Stage::Opening => match event {
                EngineEvent::Completed => if late {
                    self.settle(Err(CaptureError::Timeout))
                } else {
                    self.proceed(Stage::SettingDeadline)
                },
                EngineEvent::TimedOut => self.settle(Err(CaptureError::Timeout)),
                _ => self.depart(Err(failure)),
            },
            Stage::SettingDeadline => {
                let stage = if self.config.identity.is_some() {
                    Stage::SettingIdentity
                } else {
                    Stage::Navigating
                };
                self.pass(event, late, stage)
            },
            Stage::SettingIdentity => self.pass(event, late, Stage::Navigating),
            Stage::Navigating => self.pass(event, late, Stage::Loading),
            Stage::Loading => {
                let stage = if self.config.settle_delay > 0 {
                    Stage::Settling
                } else {
                    Stage::Shooting
                };
                self.pass(event, late, stage)
            },
            Stage::Settling => self.pass(event, late, Stage::Shooting),
            Stage::Shooting => match event {
                EngineEvent::Image(image) => if late {
                    self.settle(Err(CaptureError::Timeout))
                } else {
                    self.settle(Ok(image))
                },
                _ => self.settle(Err(failure)),
            },
            Stage::Closing => {
                let CaptureSession { config, url, deadline, stage, outcome } = self;
                let verdict = match outcome {
                    Some(outcome) => outcome,
                    None => Err(CaptureError::ProtocolError),
                };
                let session = CaptureSession { config, url, deadline, stage, outcome: None };
                session.depart(verdict)
            },
            Stage::Terminating => CaptureStep::Finished(self.into_verdict()),
        }
    }
}

} // verus!

//! One render as a state machine.
//!
//! The library never touches the file system or a process. It says what to
//! do next, as an [`Action`]; a driver does it and reports how it went, as
//! an [`Event`]; the library then decides again. A render goes through
//! these steps: make a scratch directory, write the markup file into it,
//! find Chrome, let it take the screenshot, find ImageMagick, let it trim
//! the screenshot, remove the scratch directory, and hand out the image.
//! Whatever fails, the scratch directory, once made, is removed before
//! the render ends, and a render that failed hands out no bytes.

use vstd::prelude::*;
use crate::text::optional_text;
use super::command::{exit_ok, succeeded, CommandLine, CommandLineView, ProcessOutput, ProcessOutputView};
use super::error::{RenderError, RenderErrorView};
use super::format::OutputFormat;
use super::with_chrome::{
    chrome_command, chrome_search, in_directory, names_of, outcome_view, search_from,
    staged_content, staged_path, trim_command, trimmed, Search, SearchView, StagedFile,
    StagedFileView, WithChrome, IMAGE_TOOLS, SCREENSHOT_NAME,
};

verus! {

/// What is asked for: markup of some MIME type, or of its short form, to
/// be rendered in a window of some size into some format, with relative
/// references resolved against an asset directory where one is given.
#[derive(Debug, PartialEq, Eq)]
pub struct RenderRequest {
    pub mime: String,
    pub markup: String,
    pub output_format: OutputFormat,
    pub width: Option<u32>,
    pub height: Option<u32>,
    pub asset_base: Option<String>,
}

/// A request as texts.
pub ghost struct RenderRequestView {
    pub mime: Seq<char>,
    pub markup: Seq<char>,
    pub output_format: OutputFormat,
    pub width: Option<u32>,
    pub height: Option<u32>,
    pub asset_base: Option<Seq<char>>,
}

impl View for RenderRequest {
    type V = RenderRequestView;

    open spec fn view(&self) -> RenderRequestView {
        RenderRequestView {
            mime: self.mime@,
            markup: self.markup@,
            output_format: self.output_format,
            width: self.width,
            height: self.height,
            asset_base: self.asset_base.deep_view(),
        }
    }
}

/// What the driver is to do next.
#[derive(Debug, PartialEq, Eq)]
pub enum Action {
    /// Make a new scratch directory and answer with its path.
    CreateWorkspace,
    /// Write the file.
    WriteFile(StagedFile),
    /// Say whether a file exists at this path.
    CheckPath(String),
    /// Say whether this name resolves to a program.
    Probe(String),
    /// Run the command and answer with its exit code.
    Run(CommandLine),
    /// Run the command and answer with its exit code and all its output.
    RunCapture(CommandLine),
    /// Remove the scratch directory with all that is in it.
    RemoveWorkspace(String),
}

/// An action as texts.
pub ghost enum ActionView {
    CreateWorkspace,
    WriteFile(StagedFileView),
    CheckPath(Seq<char>),
    Probe(Seq<char>),
    Run(CommandLineView),
    RunCapture(CommandLineView),
    RemoveWorkspace(Seq<char>),
}

impl View for Action {
    type V = ActionView;

    open spec fn view(&self) -> ActionView {
        match self {
            Action::CreateWorkspace => ActionView::CreateWorkspace,
            Action::WriteFile(file) => ActionView::WriteFile(file@),
            Action::CheckPath(path) => ActionView::CheckPath(path@),
            Action::Probe(name) => ActionView::Probe(name@),
            Action::Run(command) => ActionView::Run(command@),
            Action::RunCapture(command) => ActionView::RunCapture(command@),
            Action::RemoveWorkspace(dir) => ActionView::RemoveWorkspace(dir@),
        }
    }
}

/// How the last action went.
#[derive(Debug, PartialEq, Eq)]
pub enum Event {
    /// The scratch directory was made; this is its path.
    WorkspaceCreated(String),
    /// The action could not be carried out; this is why.
    Failed(String),
    /// The file was written, or the scratch directory removed.
    Done,
    /// The answer to `CheckPath` or `Probe`.
    Answer(bool),
    /// The command ran to its end; this is its exit code, absent where a
    /// signal ended it.
    Exited(Option<i32>),
    /// The command ran to its end; this is what it left.
    Output(ProcessOutput),
}

/// An event as texts.
pub ghost enum EventView {
    WorkspaceCreated(Seq<char>),
    Failed(Seq<char>),
    Done,
    Answer(bool),
    Exited(Option<i32>),
    Output(ProcessOutputView),
}

impl View for Event {
    type V = EventView;

    open spec fn view(&self) -> EventView {
        match self {
            Event::WorkspaceCreated(dir) => EventView::WorkspaceCreated(dir@),
            Event::Failed(detail) => EventView::Failed(detail@),
            Event::Done => EventView::Done,
            Event::Answer(yes) => EventView::Answer(*yes),
            Event::Exited(code) => EventView::Exited(*code),
            Event::Output(output) => EventView::Output(output@),
        }
    }
}

/// How far a render has come. From `Staging` to `PostProcessing` the
/// scratch directory exists and is the render's own.
#[derive(Debug, PartialEq, Eq)]
pub enum Phase {
    /// The scratch directory was asked for.
    AwaitingWorkspace,
    /// The markup file is being written.
    Staging { dir: String },
    /// Chrome is being looked for; `answers` holds what is known so far.
    LocatingRenderer { dir: String, answers: Vec<bool> },
    /// Chrome, found as `chrome`, is taking the screenshot.
    Rendering { dir: String, chrome: String },
    /// ImageMagick is being looked for.
    LocatingImageTool { dir: String, answers: Vec<bool> },
    /// ImageMagick is trimming the screenshot.
    PostProcessing { dir: String },
    /// The scratch directory is being removed; the result is settled.
    Releasing { outcome: Result<Vec<u8>, RenderError> },
}

/// A phase as texts.
pub ghost enum PhaseView {
    AwaitingWorkspace,
    Staging { dir: Seq<char> },
    LocatingRenderer { dir: Seq<char>, answers: Seq<bool> },
    Rendering { dir: Seq<char>, chrome: Seq<char> },
    LocatingImageTool { dir: Seq<char>, answers: Seq<bool> },
    PostProcessing { dir: Seq<char> },
    Releasing { outcome: Result<Seq<u8>, RenderErrorView> },
}

impl View for Phase {
    type V = PhaseView;

    open spec fn view(&self) -> PhaseView {
        match self {
            Phase::AwaitingWorkspace => PhaseView::AwaitingWorkspace,
            Phase::Staging { dir } => PhaseView::Staging { dir: dir@ },
            Phase::LocatingRenderer { dir, answers } => PhaseView::LocatingRenderer {
                dir: dir@,
                answers: answers@,
            },
            Phase::Rendering { dir, chrome } => PhaseView::Rendering { dir: dir@, chrome: chrome@ },
            Phase::LocatingImageTool { dir, answers } => PhaseView::LocatingImageTool {
                dir: dir@,
                answers: answers@,
            },
            Phase::PostProcessing { dir } => PhaseView::PostProcessing { dir: dir@ },
            Phase::Releasing { outcome } => PhaseView::Releasing {
                outcome: outcome_view(*outcome),
            },
        }
    }
}

/// A render under way: what was asked for and how far it has come.
#[derive(Debug, PartialEq, Eq)]
pub struct RenderJob {
    pub request: RenderRequest,
    pub phase: Phase,
}

/// A render under way, as texts.
pub ghost struct RenderJobView {
    pub request: RenderRequestView,
    pub phase: PhaseView,
}

impl View for RenderJob {
    type V = RenderJobView;

    open spec fn view(&self) -> RenderJobView {
        RenderJobView { request: self.request@, phase: self.phase@ }
    }
}

/// What a render says after each event: go on with this action, or the
/// render has ended with this result.
#[derive(Debug, PartialEq, Eq)]
pub enum Step {
    Next(RenderJob, Action),
    Finished(Result<Vec<u8>, RenderError>),
}

/// A step as texts.
pub ghost enum StepView {
    Next(RenderJobView, ActionView),
    Finished(Result<Seq<u8>, RenderErrorView>),
}

impl View for Step {
    type V = StepView;

    open spec fn view(&self) -> StepView {
        match self {
            Step::Next(job, action) => StepView::Next(job@, action@),
            Step::Finished(outcome) => StepView::Finished(outcome_view(*outcome)),
        }
    }
}

/// The detail of a failure where the driver answered something that the
/// last action did not ask for.
pub const UNEXPECTED_REPLY: &'static str = "the reply does not answer the action";

/// The variable that points Chrome at the virtual display.
pub const DISPLAY_NAME: &'static str = "DISPLAY";

/// The virtual display that a headless machine offers.
pub const DISPLAY_VALUE: &'static str = ":99";

/// Why an action failed: what the driver said, or that its reply did not
/// fit.
pub open spec fn failure_detail(event: EventView) -> Seq<char> {
    match event {
        EventView::Failed(detail) => detail,
        _ => UNEXPECTED_REPLY@,
    }
}

/// The command line of Chrome as a render runs it: the command line of a
/// screenshot of the staged file, taken in the scratch directory, with the
/// virtual display added to the environment.
pub open spec fn renderer_command(
    request: RenderRequestView,
    dir: Seq<char>,
    chrome: Seq<char>,
) -> CommandLineView {
    CommandLineView {
        env: seq![(DISPLAY_NAME@, DISPLAY_VALUE@)],
        ..chrome_command(
            chrome,
            staged_path(dir, request.mime),
            request.width,
            request.height,
            dir,
        )
    }
}

/// The step that ends the use of the scratch directory: the result is
/// settled, and the directory is to be removed.
pub open spec fn release(
    request: RenderRequestView,
    dir: Seq<char>,
    outcome: Result<Seq<u8>, RenderErrorView>,
) -> StepView {
    StepView::Next(
        RenderJobView { request, phase: PhaseView::Releasing { outcome } },
        ActionView::RemoveWorkspace(dir),
    )
}

/// The step in the search for Chrome once `answers` are known.
pub open spec fn renderer_search_step(
    request: RenderRequestView,
    dir: Seq<char>,
    answers: Seq<bool>,
) -> StepView {
    let searching = RenderJobView { request, phase: PhaseView::LocatingRenderer { dir, answers } };
    match chrome_search(answers) {
        SearchView::CheckPath(path) => StepView::Next(searching, ActionView::CheckPath(path)),
        SearchView::Probe(name) => StepView::Next(searching, ActionView::Probe(name)),
        SearchView::Found(chrome) => StepView::Next(
            RenderJobView { request, phase: PhaseView::Rendering { dir, chrome } },
            ActionView::Run(renderer_command(request, dir, chrome)),
        ),
        SearchView::Missing(candidates) => release(
            request,
            dir,
            Err(RenderErrorView::ExecutableNotFound { candidates }),
        ),
    }
}

/// The step in the search for ImageMagick once `answers` are known.
pub open spec fn tool_search_step(
    request: RenderRequestView,
    dir: Seq<char>,
    answers: Seq<bool>,
) -> StepView {
    let searching = RenderJobView { request, phase: PhaseView::LocatingImageTool { dir, answers } };
    match search_from(names_of(IMAGE_TOOLS@), answers, 0) {
        SearchView::CheckPath(path) => StepView::Next(searching, ActionView::CheckPath(path)),
        SearchView::Probe(name) => StepView::Next(searching, ActionView::Probe(name)),
        SearchView::Found(tool) => StepView::Next(
            RenderJobView { request, phase: PhaseView::PostProcessing { dir } },
            ActionView::RunCapture(
                trim_command(tool, in_directory(dir, SCREENSHOT_NAME@), request.output_format),
            ),
        ),
        SearchView::Missing(candidates) => release(
            request,
            dir,
            Err(RenderErrorView::ExecutableNotFound { candidates }),
        ),
    }
}

/// The first step of a render: the scratch directory is asked for.
pub open spec fn first_step(request: RenderRequestView) -> StepView {
    StepView::Next(
        RenderJobView { request, phase: PhaseView::AwaitingWorkspace },
        ActionView::CreateWorkspace,
    )
}

/// What a render does on an event.
pub open spec fn transition(job: RenderJobView, event: EventView) -> StepView {
    let request = job.request;
    match job.phase {
        PhaseView::AwaitingWorkspace => match event {
            EventView::WorkspaceCreated(dir) => StepView::Next(
                RenderJobView { request, phase: PhaseView::Staging { dir } },
                ActionView::WriteFile(
                    StagedFileView {
                        path: staged_path(dir, request.mime),
                        content: staged_content(request.markup, request.mime, request.asset_base),
                    },
                ),
            ),
            _ => StepView::Finished(
                Err(RenderErrorView::Resource { detail: failure_detail(event) }),
            ),
        },
        PhaseView::Staging { dir } => match event {
            EventView::Done => renderer_search_step(request, dir, Seq::empty()),
            _ => release(request, dir, Err(RenderErrorView::Io { detail: failure_detail(event) })),
        },
        PhaseView::LocatingRenderer { dir, answers } => match event {
            EventView::Answer(yes) => renderer_search_step(request, dir, answers.push(yes)),
            _ => release(request, dir, Err(RenderErrorView::Io { detail: failure_detail(event) })),
        },
        PhaseView::Rendering { dir, chrome } => match event {
            EventView::Exited(exit_code) => if exit_ok(exit_code) {
                tool_search_step(request, dir, Seq::empty())
            } else {
                release(
                    request,
                    dir,
                    Err(
                        RenderErrorView::Render {
                            command: renderer_command(request, dir, chrome),
                            exit_code,
                            detail: Seq::empty(),
                        },
                    ),
                )
            },
            _ => release(
                request,
                dir,
                Err(
                    RenderErrorView::Render {
                        command: renderer_command(request, dir, chrome),
                        exit_code: None,
                        detail: failure_detail(event),
                    },
                ),
            ),
        },
        PhaseView::LocatingImageTool { dir, answers } => match event {
            EventView::Answer(yes) => tool_search_step(request, dir, answers.push(yes)),
            _ => release(request, dir, Err(RenderErrorView::Io { detail: failure_detail(event) })),
        },
        PhaseView::PostProcessing { dir } => match event {
            EventView::Output(output) => release(request, dir, trimmed(output)),
            _ => release(
                request,
                dir,
                Err(RenderErrorView::PostProcess { stderr: failure_detail(event) }),
            ),
        },
        PhaseView::Releasing { outcome } => match event {
            EventView::Done => StepView::Finished(outcome),
            _ => StepView::Finished(
                match outcome {
                    Ok(_) => Err(RenderErrorView::Io { detail: failure_detail(event) }),
                    Err(error) => Err(error),
                },
            ),
        },
    }
}

/// Why an action failed: what the driver said, or that its reply did not
/// fit.
fn detail_of(event: Event) -> (r: String)
    ensures
        r@ == failure_detail(event@),
{
    match event {
        Event::Failed(detail) => detail,
        _ => UNEXPECTED_REPLY.to_owned(),
    }
}

/// The optional text as a string slice.
fn borrowed(text: &Option<String>) -> (r: Option<&str>)
    ensures
        optional_text(r) == text.deep_view(),
{
    match text {
        Some(t) => Some(t.as_str()),
        None => None,
    }
}

impl RenderJob {
    /// The command line of Chrome as this render runs it.
    fn renderer_command(request: &RenderRequest, dir: &str, chrome: &str) -> (r: CommandLine)
        ensures
            r@ == renderer_command(request@, dir@, chrome@),
    {
        let file = WithChrome::staged_file_path(dir, request.mime.as_str());
        let mut command = WithChrome::build_chrome_snapshot_cmd(
            chrome,
            file.as_str(),
            request.width,
            request.height,
            dir,
        );
        command.env.push((DISPLAY_NAME.to_owned(), DISPLAY_VALUE.to_owned()));
        assert(command@.env =~= seq![(DISPLAY_NAME@, DISPLAY_VALUE@)]);
        command
    }

    /// Settles the result and asks for the scratch directory to be removed.
    fn release(
        request: RenderRequest,
        dir: String,
        outcome: Result<Vec<u8>, RenderError>,
    ) -> (r: Step)
        ensures
            r@ == release(request@, dir@, outcome_view(outcome)),
    {
        Step::Next(
            RenderJob { request, phase: Phase::Releasing { outcome } },
            Action::RemoveWorkspace(dir),
        )
    }

    /// Settles the failure of the renderer, with the command line that was
    /// run.
    fn renderer_failed(
        request: RenderRequest,
        dir: String,
        chrome: String,
        exit_code: Option<i32>,
        detail: String,
    ) -> (r: Step)
        ensures
            r@ == release(
                request@,
                dir@,
                Err(
                    RenderErrorView::Render {
                        command: renderer_command(request@, dir@, chrome@),
                        exit_code,
                        detail: detail@,
                    },
                ),
            ),
    {
        let command = RenderJob::renderer_command(&request, dir.as_str(), chrome.as_str());
        RenderJob::release(request, dir, Err(RenderError::Render { command, exit_code, detail }))
    }

    /// Goes on with the search for Chrome.
    fn renderer_search_step(request: RenderRequest, dir: String, answers: Vec<bool>) -> (r: Step)
        ensures
            r@ == renderer_search_step(request@, dir@, answers@),
    {
        match WithChrome::find_chrome_executable(answers.as_slice()) {
            Search::CheckPath(path) => Step::Next(
                RenderJob { request, phase: Phase::LocatingRenderer { dir, answers } },
                Action::CheckPath(path),
            ),
            Search::Probe(name) => Step::Next(
                RenderJob { request, phase: Phase::LocatingRenderer { dir, answers } },
                Action::Probe(name),
            ),
            Search::Found(chrome) => {
                let command = RenderJob::renderer_command(&request, dir.as_str(), chrome.as_str());
                Step::Next(
                    RenderJob { request, phase: Phase::Rendering { dir, chrome } },
                    Action::Run(command),
                )
            },
            Search::Missing(candidates) => RenderJob::release(
                request,
                dir,
                Err(RenderError::ExecutableNotFound { candidates }),
            ),
        }
    }

    /// Goes on with the search for ImageMagick.
    fn tool_search_step(request: RenderRequest, dir: String, answers: Vec<bool>) -> (r: Step)
        ensures
            r@ == tool_search_step(request@, dir@, answers@),
    {
        match WithChrome::find_available_command(IMAGE_TOOLS.as_slice(), answers.as_slice()) {
            Search::CheckPath(path) => Step::Next(
                RenderJob { request, phase: Phase::LocatingImageTool { dir, answers } },
                Action::CheckPath(path),
            ),
            Search::Probe(name) => Step::Next(
                RenderJob { request, phase: Phase::LocatingImageTool { dir, answers } },
                Action::Probe(name),
            ),
            Search::Found(tool) => {
                let mut screenshot: String = dir.clone();
                screenshot.append("/");
                screenshot.append(SCREENSHOT_NAME);
                assert(screenshot@ =~= in_directory(dir@, SCREENSHOT_NAME@));
                let command = WithChrome::build_trim_image_cmd(
                    tool.as_str(),
                    screenshot.as_str(),
                    request.output_format,
                );
                Step::Next(
                    RenderJob { request, phase: Phase::PostProcessing { dir } },
                    Action::RunCapture(command),
                )
            },
            Search::Missing(candidates) => RenderJob::release(
                request,
                dir,
                Err(RenderError::ExecutableNotFound { candidates }),
            ),
        }
    }

    /// Begins a render: the first thing to do is to make the scratch
    /// directory.
    pub fn begin(request: RenderRequest) -> (r: Step)
        ensures
            r@ == first_step(request@),
    {
        Step::Next(RenderJob { request, phase: Phase::AwaitingWorkspace }, Action::CreateWorkspace)
    }

    /// Takes the driver's report on the last action and says what comes
    /// next, or how the render ended. A reply that does not answer the
    /// last action counts as a failure of that action.
    pub fn step(self, event: Event) -> (r: Step)
        ensures
            r@ == transition(self@, event@),
    {
        let RenderJob { request, phase } = self;
        match phase {
            Phase::AwaitingWorkspace => match event {
                Event::WorkspaceCreated(dir) => {
                    let staged = WithChrome::create_markup_file(
                        dir.as_str(),
                        request.markup.as_str(),
                        request.mime.as_str(),
                        borrowed(&request.asset_base),
                    );
                    Step::Next(
                        RenderJob { request, phase: Phase::Staging { dir } },
                        Action::WriteFile(staged),
                    )
                },
                other => Step::Finished(Err(RenderError::Resource { detail: detail_of(other) })),
            },
            Phase::Staging { dir } => match event {
                Event::Done => RenderJob::renderer_search_step(request, dir, Vec::new()),
                other => RenderJob::release(
                    request,
                    dir,
                    Err(RenderError::Io { detail: detail_of(other) }),
                ),
            },
            Phase::LocatingRenderer { dir, answers } => match event {
                Event::Answer(yes) => {
                    let mut answers = answers;
                    answers.push(yes);
                    RenderJob::renderer_search_step(request, dir, answers)
                },
                other => RenderJob::release(
                    request,
                    dir,
                    Err(RenderError::Io { detail: detail_of(other) }),
                ),
            },
            Phase::Rendering { dir, chrome } => match event {
                Event::Exited(exit_code) => if succeeded(exit_code) {
                    RenderJob::tool_search_step(request, dir, Vec::new())
                } else {
                    RenderJob::renderer_failed(request, dir, chrome, exit_code, String::new())
                },
                other => RenderJob::renderer_failed(request, dir, chrome, None, detail_of(other)),
            },
            Phase::LocatingImageTool { dir, answers } => match event {
                Event::Answer(yes) => {
                    let mut answers = answers;
                    answers.push(yes);
                    RenderJob::tool_search_step(request, dir, answers)
                },
                other => RenderJob::release(
                    request,
                    dir,
                    Err(RenderError::Io { detail: detail_of(other) }),
                ),
            },
            Phase::PostProcessing { dir } => match event {
                Event::Output(output) => RenderJob::release(
                    request,
                    dir,
                    WithChrome::trim_image(output),
                ),
                other => RenderJob::release(
                    request,
                    dir,
                    Err(RenderError::PostProcess { stderr: detail_of(other) }),
                ),
            },
            Phase::Releasing { outcome } => match event {
                Event::Done => Step::Finished(outcome),
                other => match outcome {
                    Ok(_) => Step::Finished(Err(RenderError::Io { detail: detail_of(other) })),
                    Err(error) => Step::Finished(Err(error)),
                },
            },
        }
    }
}

} // verus!

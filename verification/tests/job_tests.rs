use xp_md2html::render::command::{CommandLine, ProcessOutput};
use xp_md2html::render::error::RenderError;
use xp_md2html::render::format::OutputFormat;
use xp_md2html::render::job::{Action, Event, Phase, RenderJob, RenderRequest, Step};
use xp_md2html::render::with_chrome::{StagedFile, WithChrome, MAC_CHROME, META_TAG};

fn owned(texts: &[&str]) -> Vec<String> {
    texts.iter().map(|t| t.to_string()).collect()
}

fn next(step: Step) -> (RenderJob, Action) {
    match step {
        Step::Next(job, action) => (job, action),
        Step::Finished(outcome) => panic!("the render ended early: {:?}", outcome),
    }
}

fn finished(step: Step) -> Result<Vec<u8>, RenderError> {
    match step {
        Step::Finished(outcome) => outcome,
        Step::Next(job, action) => panic!("the render goes on: {:?} {:?}", job.phase, action),
    }
}

/// Feeds the events to the render and returns the actions it asked for,
/// the first one included, and the step it stands at.
fn drive(start: Step, events: Vec<Event>) -> (Vec<Action>, Step) {
    let mut actions = Vec::new();
    let mut step = start;
    for event in events {
        let (job, action) = next(step);
        actions.push(action);
        step = job.step(event);
    }
    (actions, step)
}

fn chrome_args(size: &str, file: &str) -> Vec<String> {
    owned(&[
        "--headless",
        "--disable-gpu",
        "--no-sandbox",
        "--disable-dev-shm-usage",
        "--disable-background-timer-throttling",
        "--disable-backgrounding-occluded-windows",
        "--disable-renderer-backgrounding",
        "--disable-features=TranslateUI",
        "--disable-ipc-flooding-protection",
        "--disable-extensions",
        "--no-first-run",
        "--no-default-browser-check",
        "--disable-web-security",
        "--disable-features=VizDisplayCompositor",
        "--screenshot",
        size,
        "--default-background-color=00000000",
        file,
    ])
}

fn chrome_command(program: &str, size: &str, dir: &str, file: &str) -> CommandLine {
    CommandLine {
        program: program.to_string(),
        args: chrome_args(size, file),
        current_dir: Some(dir.to_string()),
        env: vec![("DISPLAY".to_string(), ":99".to_string())],
    }
}

fn html_request() -> Step {
    WithChrome::render_markup("text/html", "<p>Hello</p>", OutputFormat::Png, Some(800), Some(600), None)
}

/// The events that bring a render up to the run of Chrome, found under the
/// name `chromium`.
fn up_to_rendering(dir: &str) -> Vec<Event> {
    vec![
        Event::WorkspaceCreated(dir.to_string()),
        Event::Done,
        Event::Answer(false),
        Event::Answer(false),
        Event::Answer(false),
        Event::Answer(true),
    ]
}

#[test]
fn render_markup_begins_with_the_request_and_asks_for_a_workspace() {
    let step = WithChrome::render_markup("svg", "<svg/>", OutputFormat::Pdf, None, Some(3), Some("/assets"));
    assert_eq!(
        step,
        Step::Next(
            RenderJob {
                request: RenderRequest {
                    mime: "svg".to_string(),
                    markup: "<svg/>".to_string(),
                    output_format: OutputFormat::Pdf,
                    width: None,
                    height: Some(3),
                    asset_base: Some("/assets".to_string()),
                },
                phase: Phase::AwaitingWorkspace,
            },
            Action::CreateWorkspace,
        )
    );
}

#[test]
fn html_to_png_goes_through_every_step() {
    let png = vec![0x89, b'P', b'N', b'G', 1, 2, 3];
    let mut events = up_to_rendering("/tmp/w1");
    events.extend(vec![
        Event::Exited(Some(0)),
        Event::Answer(true),
        Event::Output(ProcessOutput { exit_code: Some(0), stdout: png.clone(), stderr: vec![] }),
        Event::Done,
    ]);
    let (actions, step) = drive(html_request(), events);
    assert_eq!(
        actions,
        vec![
            Action::CreateWorkspace,
            Action::WriteFile(StagedFile {
                path: "/tmp/w1/input.html".to_string(),
                content: format!("{}<p>Hello</p>", META_TAG),
            }),
            Action::CheckPath(MAC_CHROME.to_string()),
            Action::Probe("google-chrome".to_string()),
            Action::Probe("google-chrome-stable".to_string()),
            Action::Probe("chromium".to_string()),
            Action::Run(chrome_command(
                "chromium",
                "--window-size=800,600",
                "/tmp/w1",
                "/tmp/w1/input.html"
            )),
            Action::Probe("magick".to_string()),
            Action::RunCapture(CommandLine {
                program: "magick".to_string(),
                args: owned(&["/tmp/w1/screenshot.png", "-trim", "+repage", "png:-"]),
                current_dir: None,
                env: vec![],
            }),
            Action::RemoveWorkspace("/tmp/w1".to_string()),
        ]
    );
    assert_eq!(finished(step), Ok(png));
}

#[test]
fn svg_to_jpg_is_staged_as_it_came_and_flattened() {
    let svg = "<svg xmlns=\"http://www.w3.org/2000/svg\" width=\"10\" height=\"10\"/>";
    let jpeg = vec![0xff, 0xd8, 0xff, 0xe0];
    let start = WithChrome::render_markup(
        "image/svg+xml",
        svg,
        OutputFormat::Jpg,
        Some(400),
        Some(300),
        None,
    );
    let events = vec![
        Event::WorkspaceCreated("/tmp/w2".to_string()),
        Event::Done,
        Event::Answer(true),
        Event::Exited(Some(0)),
        Event::Answer(false),
        Event::Answer(true),
        Event::Output(ProcessOutput { exit_code: Some(0), stdout: jpeg.clone(), stderr: vec![] }),
        Event::Done,
    ];
    let (actions, step) = drive(start, events);
    assert_eq!(
        actions,
        vec![
            Action::CreateWorkspace,
            Action::WriteFile(StagedFile {
                path: "/tmp/w2/input.svg".to_string(),
                content: svg.to_string(),
            }),
            Action::CheckPath(MAC_CHROME.to_string()),
            Action::Run(chrome_command(
                MAC_CHROME,
                "--window-size=400,300",
                "/tmp/w2",
                "/tmp/w2/input.svg"
            )),
            Action::Probe("magick".to_string()),
            Action::Probe("convert".to_string()),
            Action::RunCapture(CommandLine {
                program: "convert".to_string(),
                args: owned(&[
                    "/tmp/w2/screenshot.png",
                    "-trim",
                    "+repage",
                    "-background",
                    "white",
                    "-flatten",
                    "-alpha",
                    "off",
                    "jpg:-",
                ]),
                current_dir: None,
                env: vec![],
            }),
            Action::RemoveWorkspace("/tmp/w2".to_string()),
        ]
    );
    assert_eq!(finished(step), Ok(jpeg));
}

#[test]
fn two_renders_of_one_input_do_not_share_anything() {
    let png = vec![9, 8, 7];
    // The two renders take turns; each has a scratch directory of its own.
    let (a, first) = next(html_request());
    let (b, second) = next(html_request());
    assert_eq!(first, Action::CreateWorkspace);
    assert_eq!(second, Action::CreateWorkspace);
    let mut a = a.step(Event::WorkspaceCreated("/tmp/a".to_string()));
    let mut b = b.step(Event::WorkspaceCreated("/tmp/b".to_string()));
    let mut asked_a = Vec::new();
    let mut asked_b = Vec::new();
    let answers = || {
        vec![
            Event::Done,
            Event::Answer(true),
            Event::Exited(Some(0)),
            Event::Answer(true),
            Event::Output(ProcessOutput { exit_code: Some(0), stdout: vec![9, 8, 7], stderr: vec![] }),
            Event::Done,
        ]
    };
    for (event_a, event_b) in answers().into_iter().zip(answers()) {
        let (job_b, action_b) = next(b);
        let (job_a, action_a) = next(a);
        asked_a.push(action_a);
        asked_b.push(action_b);
        a = job_a.step(event_a);
        b = job_b.step(event_b);
    }
    assert_eq!(finished(a), Ok(png.clone()));
    assert_eq!(finished(b), Ok(png));
    // Each render speaks of its own directory only, and otherwise of the same things.
    assert_eq!(asked_a.len(), asked_b.len());
    for (action_a, action_b) in asked_a.iter().zip(asked_b.iter()) {
        let text_a = format!("{:?}", action_a);
        let text_b = format!("{:?}", action_b);
        assert!(!text_a.contains("/tmp/b"));
        assert!(!text_b.contains("/tmp/a"));
        assert_eq!(text_a.replace("/tmp/a", "/tmp/b"), text_b);
    }
    assert_eq!(asked_a[0], Action::WriteFile(StagedFile {
        path: "/tmp/a/input.html".to_string(),
        content: format!("{}<p>Hello</p>", META_TAG),
    }));
    assert_eq!(asked_b[5], Action::RemoveWorkspace("/tmp/b".to_string()));
}

#[test]
fn a_renderer_that_exits_non_zero_gives_no_bytes() {
    for code in [Some(1), Some(-1), Some(127), None] {
        let mut events = up_to_rendering("/tmp/w3");
        events.push(Event::Exited(code));
        let (actions, step) = drive(html_request(), events);
        // The scratch directory is removed before the render ends.
        let (job, action) = next(step);
        assert_eq!(action, Action::RemoveWorkspace("/tmp/w3".to_string()));
        assert_eq!(actions.len(), 7);
        let wanted = RenderError::Render {
            command: chrome_command("chromium", "--window-size=800,600", "/tmp/w3", "/tmp/w3/input.html"),
            exit_code: code,
            detail: String::new(),
        };
        assert_eq!(finished(job.step(Event::Done)), Err(wanted));
    }
}

#[test]
fn a_failed_removal_does_not_hide_the_renderer_failure() {
    let mut events = up_to_rendering("/tmp/w3");
    events.push(Event::Exited(Some(1)));
    events.push(Event::Failed("directory not empty".to_string()));
    let (_, step) = drive(html_request(), events);
    match finished(step) {
        Err(RenderError::Render { exit_code, .. }) => assert_eq!(exit_code, Some(1)),
        other => panic!("{:?}", other),
    }
}

#[test]
fn a_renderer_that_cannot_be_run_is_a_renderer_failure() {
    let mut events = up_to_rendering("/tmp/w4");
    events.push(Event::Failed("No such file or directory".to_string()));
    events.push(Event::Done);
    let (actions, step) = drive(html_request(), events);
    assert_eq!(actions.last(), Some(&Action::RemoveWorkspace("/tmp/w4".to_string())));
    assert_eq!(
        finished(step),
        Err(RenderError::Render {
            command: chrome_command("chromium", "--window-size=800,600", "/tmp/w4", "/tmp/w4/input.html"),
            exit_code: None,
            detail: "No such file or directory".to_string(),
        })
    );
}

#[test]
fn no_workspace_is_a_resource_failure_and_ends_at_once() {
    let (job, _) = next(html_request());
    assert_eq!(
        finished(job.step(Event::Failed("read-only file system".to_string()))),
        Err(RenderError::Resource { detail: "read-only file system".to_string() })
    );
}

#[test]
fn a_file_that_cannot_be_written_is_an_io_failure() {
    let events = vec![
        Event::WorkspaceCreated("/tmp/w5".to_string()),
        Event::Failed("disk full".to_string()),
        Event::Done,
    ];
    let (actions, step) = drive(html_request(), events);
    assert_eq!(actions[2], Action::RemoveWorkspace("/tmp/w5".to_string()));
    assert_eq!(finished(step), Err(RenderError::Io { detail: "disk full".to_string() }));
}

#[test]
fn no_chrome_anywhere_lists_all_the_names() {
    let mut events = vec![Event::WorkspaceCreated("/tmp/w6".to_string()), Event::Done];
    events.extend((0..6).map(|_| Event::Answer(false)));
    events.push(Event::Done);
    let (actions, step) = drive(html_request(), events);
    assert_eq!(
        actions[2..8],
        [
            Action::CheckPath(MAC_CHROME.to_string()),
            Action::Probe("google-chrome".to_string()),
            Action::Probe("google-chrome-stable".to_string()),
            Action::Probe("chromium".to_string()),
            Action::Probe("chromium-browser".to_string()),
            Action::Probe("chrome".to_string()),
        ]
    );
    assert_eq!(actions[8], Action::RemoveWorkspace("/tmp/w6".to_string()));
    assert_eq!(
        finished(step),
        Err(RenderError::ExecutableNotFound {
            candidates: owned(&[
                "google-chrome",
                "google-chrome-stable",
                "chromium",
                "chromium-browser",
                "chrome",
            ])
        })
    );
}

#[test]
fn no_image_tool_lists_both_names() {
    let mut events = up_to_rendering("/tmp/w7");
    events.extend(vec![Event::Exited(Some(0)), Event::Answer(false), Event::Answer(false), Event::Done]);
    let (actions, step) = drive(html_request(), events);
    assert_eq!(actions.last(), Some(&Action::RemoveWorkspace("/tmp/w7".to_string())));
    assert_eq!(
        finished(step),
        Err(RenderError::ExecutableNotFound { candidates: owned(&["magick", "convert"]) })
    );
}

#[test]
fn a_failing_image_tool_is_a_post_process_failure() {
    for output in [
        ProcessOutput { exit_code: Some(1), stdout: vec![1], stderr: b"bad image".to_vec() },
        ProcessOutput { exit_code: Some(0), stdout: vec![], stderr: b"bad image".to_vec() },
    ] {
        let mut events = up_to_rendering("/tmp/w8");
        events.extend(vec![
            Event::Exited(Some(0)),
            Event::Answer(true),
            Event::Output(output),
            Event::Done,
        ]);
        let (actions, step) = drive(html_request(), events);
        assert_eq!(actions.last(), Some(&Action::RemoveWorkspace("/tmp/w8".to_string())));
        assert_eq!(
            finished(step),
            Err(RenderError::PostProcess { stderr: "bad image".to_string() })
        );
    }
    let mut events = up_to_rendering("/tmp/w8");
    events.extend(vec![
        Event::Exited(Some(0)),
        Event::Answer(true),
        Event::Failed("cannot execute".to_string()),
        Event::Done,
    ]);
    let (_, step) = drive(html_request(), events);
    assert_eq!(
        finished(step),
        Err(RenderError::PostProcess { stderr: "cannot execute".to_string() })
    );
}

#[test]
fn a_failed_removal_after_success_gives_no_bytes() {
    let mut events = up_to_rendering("/tmp/w9");
    events.extend(vec![
        Event::Exited(Some(0)),
        Event::Answer(true),
        Event::Output(ProcessOutput { exit_code: Some(0), stdout: vec![1, 2, 3], stderr: vec![] }),
        Event::Failed("busy".to_string()),
    ]);
    let (_, step) = drive(html_request(), events);
    assert_eq!(finished(step), Err(RenderError::Io { detail: "busy".to_string() }));
}

#[test]
fn a_reply_that_does_not_fit_fails_the_action() {
    // An exit code where the workspace was asked for.
    let (job, _) = next(html_request());
    assert_eq!(
        finished(job.step(Event::Exited(Some(0)))),
        Err(RenderError::Resource { detail: "the reply does not answer the action".to_string() })
    );
    // An exit code where an answer was asked for: the directory is removed.
    let events = vec![
        Event::WorkspaceCreated("/tmp/w10".to_string()),
        Event::Done,
        Event::Exited(Some(0)),
    ];
    let (_, step) = drive(html_request(), events);
    let (job, action) = next(step);
    assert_eq!(action, Action::RemoveWorkspace("/tmp/w10".to_string()));
    assert_eq!(
        job.phase,
        Phase::Releasing {
            outcome: Err(RenderError::Io {
                detail: "the reply does not answer the action".to_string()
            })
        }
    );
}

#[test]
fn html_with_an_asset_directory_gets_its_base_tag() {
    let start = WithChrome::render_markup(
        "html",
        "<img src=\"a.png\">",
        OutputFormat::Pdf,
        None,
        None,
        Some("/srv/assets"),
    );
    let (actions, step) = drive(
        start,
        vec![Event::WorkspaceCreated("/tmp/w11".to_string()), Event::Done, Event::Answer(true)],
    );
    assert_eq!(
        actions[1],
        Action::WriteFile(StagedFile {
            path: "/tmp/w11/input.html".to_string(),
            content: format!(
                "{}<base href=\"file:///srv/assets/\"><img src=\"a.png\">",
                META_TAG
            ),
        })
    );
    let (_, action) = next(step);
    assert_eq!(
        action,
        Action::Run(chrome_command(
            MAC_CHROME,
            "--window-size=1000,2000",
            "/tmp/w11",
            "/tmp/w11/input.html"
        ))
    );
}

//! Rendering with a headless Chrome and ImageMagick: the markup file, the
//! two command lines, the search for the two programs, and the reading of
//! what the image tool gave back.

use vstd::prelude::*;
use crate::mime::{mime_of, suffix_of, Mime};
use crate::text::{
    contains_text, decimal, decimal_text, decode_lossy, lossy_decoded, occurs_at, occurs_in,
    optional_text,
};
use super::command::{
    exit_ok, succeeded, CommandLine, CommandLineView, ProcessOutput, ProcessOutputView,
};
use super::error::{RenderError, RenderErrorView};
use super::format::OutputFormat;
use super::job::{first_step, RenderJob, RenderRequest, RenderRequestView, Step};

verus! {

/// The declaration of the character set that goes before staged HTML.
pub const META_TAG: &'static str =
    "<meta http-equiv=\"Content-Type\" content=\"text/html; charset=utf-8\"/>";

/// Where Chrome is installed on macOS. This path is tried before any name.
pub const MAC_CHROME: &'static str = "/Applications/Google Chrome.app/Contents/MacOS/Google Chrome";

/// The names under which Chrome or Chromium may be found, in the order in
/// which they are tried.
pub const CHROME_NAMES: [&'static str; 5] = [
    "google-chrome",
    "google-chrome-stable",
    "chromium",
    "chromium-browser",
    "chrome",
];

/// The names of ImageMagick's program: today's first, then the old one.
pub const IMAGE_TOOLS: [&'static str; 2] = ["magick", "convert"];

/// The file that Chrome writes its screenshot to, in its working directory.
pub const SCREENSHOT_NAME: &'static str = "screenshot.png";

/// The width of the window where none is asked for.
pub const DEFAULT_WIDTH: u32 = 1000;

/// The height of the window where none is asked for.
pub const DEFAULT_HEIGHT: u32 = 2000;

/// The tag that makes relative references resolve against a directory.
pub open spec fn base_tag(asset_base: Seq<char>) -> Seq<char> {
    "<base href=\"file://"@ + asset_base + "/\">"@
}

/// Markup in its HTML context: the declaration of the character set, the
/// base tag where there is an asset directory, then the markup untouched.
pub open spec fn html_page(input: Seq<char>, asset_base: Option<Seq<char>>) -> Seq<char> {
    match asset_base {
        Some(base) => META_TAG@ + base_tag(base) + input,
        None => META_TAG@ + input,
    }
}

/// What a text given as MIME type resolves to: a short form that the
/// registry knows as an extension stands for that extension's MIME type;
/// any other text stands for itself.
pub open spec fn resolved_mime(mime: Seq<char>) -> Seq<char> {
    match mime_of(mime) {
        Some(full) => full,
        None => mime,
    }
}

/// Markup is HTML where `html` occurs in the MIME type that it resolves to.
pub open spec fn is_html(mime: Seq<char>) -> bool {
    occurs_in(resolved_mime(mime), "html"@)
}

/// The suffix of the file that markup of a MIME type is staged in: the
/// registry's extension for the MIME type, or the text itself where the
/// registry does not know it.
pub open spec fn file_suffix(mime: Seq<char>) -> Seq<char> {
    match suffix_of(mime) {
        Some(suffix) => suffix,
        None => mime,
    }
}

/// What is written to the staged file: HTML in its context, anything else
/// as it came.
pub open spec fn staged_content(
    markup: Seq<char>,
    mime: Seq<char>,
    asset_base: Option<Seq<char>>,
) -> Seq<char> {
    if is_html(mime) {
        html_page(markup, asset_base)
    } else {
        markup
    }
}

/// The path of a file in a directory.
pub open spec fn in_directory(dir: Seq<char>, name: Seq<char>) -> Seq<char> {
    dir + "/"@ + name
}

/// The path of the staged file in the scratch directory.
pub open spec fn staged_path(dir: Seq<char>, mime: Seq<char>) -> Seq<char> {
    in_directory(dir, "input."@ + file_suffix(mime))
}

/// A markup file to write: where, and what.
#[derive(Debug, PartialEq, Eq)]
pub struct StagedFile {
    pub path: String,
    pub content: String,
}

/// A markup file to write, as texts.
pub ghost struct StagedFileView {
    pub path: Seq<char>,
    pub content: Seq<char>,
}

impl View for StagedFile {
    type V = StagedFileView;

    open spec fn view(&self) -> StagedFileView {
        StagedFileView { path: self.path@, content: self.content@ }
    }
}

/// The width that the window gets.
pub open spec fn window_width(width: Option<u32>) -> nat {
    match width {
        Some(w) => w as nat,
        None => DEFAULT_WIDTH as nat,
    }
}

/// The height that the window gets.
pub open spec fn window_height(height: Option<u32>) -> nat {
    match height {
        Some(h) => h as nat,
        None => DEFAULT_HEIGHT as nat,
    }
}

/// The argument that fixes the size of the window.
pub open spec fn window_size(width: Option<u32>, height: Option<u32>) -> Seq<char> {
    "--window-size="@ + decimal(window_width(width)) + ","@ + decimal(window_height(height))
}

/// The arguments of a screenshot: headless, without sandbox and GPU, a
/// window of fixed size, a transparent background, and the markup file as
/// the only document.
pub open spec fn chrome_args(file: Seq<char>, width: Option<u32>, height: Option<u32>) -> Seq<
    Seq<char>,
> {
    seq![
        "--headless"@,
        "--disable-gpu"@,
        "--no-sandbox"@,
        "--disable-dev-shm-usage"@,
        "--disable-background-timer-throttling"@,
        "--disable-backgrounding-occluded-windows"@,
        "--disable-renderer-backgrounding"@,
        "--disable-features=TranslateUI"@,
        "--disable-ipc-flooding-protection"@,
        "--disable-extensions"@,
        "--no-first-run"@,
        "--no-default-browser-check"@,
        "--disable-web-security"@,
        "--disable-features=VizDisplayCompositor"@,
        "--screenshot"@,
        window_size(width, height),
        "--default-background-color=00000000"@,
        file,
    ]
}

/// The command line of a screenshot, run in the scratch directory so that
/// the screenshot lands there.
pub open spec fn chrome_command(
    chrome: Seq<char>,
    file: Seq<char>,
    width: Option<u32>,
    height: Option<u32>,
    cwd: Seq<char>,
) -> CommandLineView {
    CommandLineView {
        program: chrome,
        args: chrome_args(file, width, height),
        current_dir: Some(cwd),
        env: Seq::empty(),
    }
}

/// The arguments that flatten transparency against white.
pub open spec fn flatten_args() -> Seq<Seq<char>> {
    seq!["-background"@, "white"@, "-flatten"@, "-alpha"@, "off"@]
}

/// The arguments of the image tool: the screenshot, the trimming of the
/// empty border with a reset of the canvas, the flattening for every
/// format but PNG, and standard output as the target in the format asked
/// for.
pub open spec fn trim_args(screenshot: Seq<char>, format: OutputFormat) -> Seq<Seq<char>> {
    let head = seq![screenshot, "-trim"@, "+repage"@];
    let target = seq![format.name() + ":-"@];
    if format.keeps_transparency() {
        head + target
    } else {
        head + flatten_args() + target
    }
}

/// The command line of the image tool.
pub open spec fn trim_command(
    executable: Seq<char>,
    screenshot: Seq<char>,
    format: OutputFormat,
) -> CommandLineView {
    CommandLineView {
        program: executable,
        args: trim_args(screenshot, format),
        current_dir: None,
        env: Seq::empty(),
    }
}

/// The result of a render as a sequence of bytes or a failure in texts.
pub open spec fn outcome_view(outcome: Result<Vec<u8>, RenderError>) -> Result<
    Seq<u8>,
    RenderErrorView,
> {
    match outcome {
        Ok(bytes) => Ok(bytes@),
        Err(error) => Err(error@),
    }
}

/// What the image tool's run amounts to: the bytes it wrote, if it
/// succeeded and wrote any; else a failure with what it said.
pub open spec fn trimmed(output: ProcessOutputView) -> Result<Seq<u8>, RenderErrorView> {
    if exit_ok(output.exit_code) && output.stdout.len() > 0 {
        Ok(output.stdout)
    } else {
        Err(RenderErrorView::PostProcess { stderr: lossy_decoded(output.stderr) })
    }
}

/// Where a search for a program stands.
#[derive(Debug, PartialEq, Eq)]
pub enum Search {
    /// The program is found: this is how to call it.
    Found(String),
    /// The search needs to know whether a file exists at this path.
    CheckPath(String),
    /// The search needs to know whether this name resolves to a program.
    Probe(String),
    /// Every candidate was tried and none resolves.
    Missing(Vec<String>),
}

/// Where a search for a program stands, as texts.
pub ghost enum SearchView {
    Found(Seq<char>),
    CheckPath(Seq<char>),
    Probe(Seq<char>),
    Missing(Seq<Seq<char>>),
}

impl View for Search {
    type V = SearchView;

    open spec fn view(&self) -> SearchView {
        match self {
            Search::Found(name) => SearchView::Found(name@),
            Search::CheckPath(path) => SearchView::CheckPath(path@),
            Search::Probe(name) => SearchView::Probe(name@),
            Search::Missing(names) => SearchView::Missing(names.deep_view()),
        }
    }
}

/// The texts of a list of string slices.
pub open spec fn names_of(names: Seq<&str>) -> Seq<Seq<char>> {
    Seq::new(names.len(), |i: int| names[i]@)
}

/// The search among `commands` from candidate `i` on, where `answers[j]`
/// says whether candidate `j` resolves: the first candidate that does is
/// found; past the last answer the next candidate is to be probed; past
/// the last candidate the program is missing.
pub open spec fn search_from(commands: Seq<Seq<char>>, answers: Seq<bool>, i: int) -> SearchView
    decreases commands.len() - i,
{
    if i < 0 || i >= commands.len() {
        SearchView::Missing(commands)
    } else if i >= answers.len() {
        SearchView::Probe(commands[i])
    } else if answers[i] {
        SearchView::Found(commands[i])
    } else {
        search_from(commands, answers, i + 1)
    }
}

/// The search for Chrome: the first answer is for the path on macOS, the
/// others for the names, in their order.
pub open spec fn chrome_search(answers: Seq<bool>) -> SearchView {
    if answers.len() == 0 {
        SearchView::CheckPath(MAC_CHROME@)
    } else if answers[0] {
        SearchView::Found(MAC_CHROME@)
    } else {
        search_from(names_of(CHROME_NAMES@), answers.skip(1), 0)
    }
}

/// Staged HTML begins with the declaration of the character set and ends
/// with the markup as it came. Where an asset directory is given, its base
/// tag stands between the two, so that it comes immediately before the
/// markup.
pub proof fn lemma_staged_html(markup: Seq<char>, mime: Seq<char>, asset_base: Option<Seq<char>>)
    requires
        is_html(mime),
    ensures
        ({
            let content = staged_content(markup, mime, asset_base);
            &&& occurs_at(content, META_TAG@, 0)
            &&& occurs_at(content, markup, content.len() - markup.len())
            &&& match asset_base {
                Some(base) => {
                    &&& content.len() == META_TAG@.len() + base_tag(base).len() + markup.len()
                    &&& occurs_at(content, base_tag(base), META_TAG@.len() as int)
                },
                None => content.len() == META_TAG@.len() + markup.len(),
            }
        }),
{
}

/// Markup that is not HTML is staged as it came.
pub proof fn lemma_staged_verbatim(
    markup: Seq<char>,
    mime: Seq<char>,
    asset_base: Option<Seq<char>>,
)
    requires
        !is_html(mime),
    ensures
        staged_content(markup, mime, asset_base) == markup,
{
}

/// No answer among the first `n` says yes.
pub open spec fn none_resolves(answers: Seq<bool>, n: int) -> bool {
    forall|j: int| 0 <= j < n && j < answers.len() ==> !answers[j]
}

/// What a search says, read from its outcome: a program that is found is
/// the first candidate that resolves; a candidate to be probed is the
/// first without an answer, and none before it resolves; a program is
/// missing only where every candidate has its answer and none resolves,
/// and then all candidates are listed. A search among names never asks for
/// a path.
pub proof fn lemma_search_outcome(commands: Seq<Seq<char>>, answers: Seq<bool>)
    ensures
        match search_from(commands, answers, 0) {
            SearchView::Found(name) => exists|i: int|
                0 <= i < commands.len() && i < answers.len() && answers[i] && none_resolves(
                    answers,
                    i,
                ) && name == commands[i],
            SearchView::Probe(name) => answers.len() < commands.len() && none_resolves(
                answers,
                answers.len() as int,
            ) && name == commands[answers.len() as int],
            SearchView::Missing(names) => answers.len() >= commands.len() && none_resolves(
                answers,
                commands.len() as int,
            ) && names == commands,
            SearchView::CheckPath(_) => false,
        },
{
    lemma_search_from(commands, answers, 0);
}

proof fn lemma_search_from(commands: Seq<Seq<char>>, answers: Seq<bool>, i: int)
    requires
        0 <= i,
        none_resolves(answers, i),
        i <= answers.len() || i >= commands.len(),
    ensures
        match search_from(commands, answers, i) {
            SearchView::Found(name) => exists|k: int|
                0 <= k < commands.len() && k < answers.len() && answers[k] && none_resolves(
                    answers,
                    k,
                ) && name == commands[k],
            SearchView::Probe(name) => answers.len() < commands.len() && none_resolves(
                answers,
                answers.len() as int,
            ) && name == commands[answers.len() as int],
            SearchView::Missing(names) => (answers.len() >= commands.len() || i > answers.len())
                && none_resolves(answers, commands.len() as int) && names == commands,
            SearchView::CheckPath(_) => false,
        },
    decreases commands.len() - i,
{
    if i < commands.len() && i < answers.len() && !answers[i] {
        lemma_search_from(commands, answers, i + 1);
    }
}

/// Owned copies of a list of names.
fn owned_names(names: &[&str]) -> (r: Vec<String>)
    ensures
        r.deep_view() == names_of(names@),
{
    let mut r: Vec<String> = Vec::new();
    let mut i: usize = 0;
    while i < names.len()
        invariant
            i <= names@.len(),
            r@.len() == i,
            forall|k: int| 0 <= k < i ==> r@[k]@ == names@[k]@,
        decreases names@.len() - i,
    {
        r.push(names[i].to_owned());
        i = i + 1;
    }
    assert(r.deep_view() =~= names_of(names@));
    r
}

/// The search among `commands` where the answer for candidate `i` stands
/// at `answers[skip + i]`.
fn search(commands: &[&str], answers: &[bool], skip: usize) -> (r: Search)
    requires
        skip <= answers@.len(),
    ensures
        r@ == search_from(names_of(commands@), answers@.skip(skip as int), 0),
{
    let ghost names = names_of(commands@);
    let ghost given = answers@.skip(skip as int);
    let total: usize = answers.len();
    let known: usize = total - skip;
    let mut i: usize = 0;
    while i < commands.len()
        invariant
            i <= commands@.len(),
            skip <= answers@.len() == total,
            known == total - skip,
            names == names_of(commands@),
            given == answers@.skip(skip as int),
            search_from(names, given, 0) == search_from(names, given, i as int),
        decreases commands@.len() - i,
    {
        if i >= known {
            return Search::Probe(commands[i].to_owned());
        }
        if answers[skip + i] {
            return Search::Found(commands[i].to_owned());
        }
        i = i + 1;
    }
    Search::Missing(owned_names(commands))
}

/// The renderer: headless Chrome for the screenshot, ImageMagick for the
/// trimming. It holds no data; its functions decide, and a driver acts.
pub struct WithChrome;

impl WithChrome {
    /// Puts markup in its HTML context: the declaration of the character
    /// set goes first, then, where an asset directory is given, the base
    /// tag that makes relative references resolve against it, then the
    /// markup as it came.
    pub fn setup_html_page_context(input: &str, asset_base: Option<&str>) -> (r: String)
        ensures
            r@ == html_page(input@, optional_text(asset_base)),
    {
        let mut html_content: String = META_TAG.to_owned();
        match asset_base {
            Some(base_path) => {
                html_content.append("<base href=\"file://");
                html_content.append(base_path);
                html_content.append("/\">");
                assert(html_content@ =~= META_TAG@ + base_tag(base_path@));
            },
            None => {},
        }
        html_content.append(input);
        html_content
    }

    /// The suffix of the file that markup of this MIME type is staged in:
    /// the registry's extension for it, or the text itself where the
    /// registry does not know it.
    pub fn get_file_suffix(mime: &str) -> (r: String)
        ensures
            r@ == file_suffix(mime@),
    {
        match Mime::get_suffix(mime) {
            Some(suffix) => suffix.to_owned(),
            None => mime.to_owned(),
        }
    }

    /// The next step of the search for Chrome. `answers` holds what is
    /// known so far: first whether the path on macOS exists, then, in
    /// their order, whether each of Chrome's names resolves.
    pub fn find_chrome_executable(answers: &[bool]) -> (r: Search)
        ensures
            r@ == chrome_search(answers@),
    {
        if answers.len() == 0 {
            return Search::CheckPath(MAC_CHROME.to_owned());
        }
        if answers[0] {
            return Search::Found(MAC_CHROME.to_owned());
        }
        search(CHROME_NAMES.as_slice(), answers, 1)
    }

    /// What the run of the image tool amounts to: the bytes that it wrote
    /// to standard output where it succeeded and wrote any; else a failure
    /// that carries what it wrote to standard error.
    pub fn trim_image(output: ProcessOutput) -> (r: Result<Vec<u8>, RenderError>)
        ensures
            outcome_view(r) == trimmed(output@),
    {
        if succeeded(output.exit_code) && output.stdout.len() > 0 {
            Ok(output.stdout)
        } else {
            Err(RenderError::PostProcess { stderr: decode_lossy(&output.stderr) })
        }
    }

    /// The markup file for Chrome to render: its path in `base_dir`, named
    /// `input` with the suffix of the MIME type, and its content, HTML in
    /// its context and anything else as it came.
    pub fn create_markup_file(
        base_dir: &str,
        markup_content: &str,
        mime: &str,
        asset_base: Option<&str>,
    ) -> (r: StagedFile)
        ensures
            r@.path == staged_path(base_dir@, mime@),
            r@.content == staged_content(markup_content@, mime@, optional_text(asset_base)),
    {
        let content = if contains_text(Mime::get_or_fallback(mime), "html") {
            WithChrome::setup_html_page_context(markup_content, asset_base)
        } else {
            markup_content.to_owned()
        };
        StagedFile { path: WithChrome::staged_file_path(base_dir, mime), content }
    }

    /// The path of the markup file in `base_dir`: the file is named `input`
    /// with the suffix of the MIME type.
    pub fn staged_file_path(base_dir: &str, mime: &str) -> (r: String)
        ensures
            r@ == staged_path(base_dir@, mime@),
    {
        let suffix = WithChrome::get_file_suffix(mime);
        let mut path: String = base_dir.to_owned();
        path.append("/");
        path.append("input.");
        path.append(suffix.as_str());
        assert(path@ =~= staged_path(base_dir@, mime@));
        path
    }

    /// The command line that makes Chrome take a screenshot of the markup
    /// file. The screenshot is written to the working directory, `cwd`. The
    /// window is 1000 wide and 2000 high where nothing else is asked for.
    pub fn build_chrome_snapshot_cmd(
        chrome_path: &str,
        markup_file_path: &str,
        width: Option<u32>,
        height: Option<u32>,
        cwd: &str,
    ) -> (r: CommandLine)
        ensures
            r@ == chrome_command(chrome_path@, markup_file_path@, width, height, cwd@),
    {
        let window_w: u32 = match width {
            Some(w) => w,
            None => DEFAULT_WIDTH,
        };
        let window_h: u32 = match height {
            Some(h) => h,
            None => DEFAULT_HEIGHT,
        };
        let mut size: String = "--window-size=".to_owned();
        size.append(decimal_text(window_w as u64).as_str());
        size.append(",");
        size.append(decimal_text(window_h as u64).as_str());
        let mut args: Vec<String> = Vec::new();
        args.push("--headless".to_owned());
        args.push("--disable-gpu".to_owned());
        args.push("--no-sandbox".to_owned());
        args.push("--disable-dev-shm-usage".to_owned());
        args.push("--disable-background-timer-throttling".to_owned());
        args.push("--disable-backgrounding-occluded-windows".to_owned());
        args.push("--disable-renderer-backgrounding".to_owned());
        args.push("--disable-features=TranslateUI".to_owned());
        args.push("--disable-ipc-flooding-protection".to_owned());
        args.push("--disable-extensions".to_owned());
        args.push("--no-first-run".to_owned());
        args.push("--no-default-browser-check".to_owned());
        args.push("--disable-web-security".to_owned());
        args.push("--disable-features=VizDisplayCompositor".to_owned());
        args.push("--screenshot".to_owned());
        args.push(size);
        args.push("--default-background-color=00000000".to_owned());
        args.push(markup_file_path.to_owned());
        let env: Vec<(String, String)> = Vec::new();
        let r = CommandLine {
            program: chrome_path.to_owned(),
            args,
            current_dir: Some(cwd.to_owned()),
            env,
        };
        proof {
            let wanted = chrome_command(chrome_path@, markup_file_path@, width, height, cwd@);
            assert(r@.args =~= wanted.args);
            assert(r@.env =~= wanted.env);
        }
        r
    }

    /// Begins the render of markup into an image. `mime` is a MIME type such
    /// as `text/html` or a short form such as `svg`; `input` is the markup;
    /// `width` and `height` are the size of the window, 1000 by 2000 where
    /// they are left out; `asset_base` is the directory against which
    /// relative references in HTML resolve.
    ///
    /// Nothing is rendered here: the result is the first step of the render,
    /// with the action that a driver is to carry out. The driver reports on
    /// each action with `RenderJob::step` until the render has finished,
    /// with the bytes of the image or with a failure.
    pub fn render_markup(
        mime: &str,
        input: &str,
        output_type: OutputFormat,
        width: Option<u32>,
        height: Option<u32>,
        asset_base: Option<&str>,
    ) -> (r: Step)
        ensures
            r@ == first_step(
                RenderRequestView {
                    mime: mime@,
                    markup: input@,
                    output_format: output_type,
                    width,
                    height,
                    asset_base: optional_text(asset_base),
                },
            ),
    {
        let asset_base: Option<String> = match asset_base {
            Some(base) => Some(base.to_owned()),
            None => None,
        };
        RenderJob::begin(
            RenderRequest {
                mime: mime.to_owned(),
                markup: input.to_owned(),
                output_format: output_type,
                width,
                height,
                asset_base,
            },
        )
    }

    /// The next step of a search among `commands`, tried in their order.
    /// `answers` holds what is known so far: whether the first resolves,
    /// the second, and so on. The first that resolves is found; where the
    /// answers end before that, the next candidate is to be probed; where
    /// none resolves, the program is missing, and all the names are listed.
    pub fn find_available_command(commands: &[&str], answers: &[bool]) -> (r: Search)
        ensures
            r@ == search_from(names_of(commands@), answers@, 0),
    {
        assert(answers@.skip(0) =~= answers@);
        search(commands, answers, 0)
    }

    /// The command line that makes ImageMagick trim the screenshot and
    /// write the image to standard output. PNG keeps its transparency;
    /// every other format is flattened against white.
    pub fn build_trim_image_cmd(
        executable: &str,
        screenshot_path: &str,
        output_type: OutputFormat,
    ) -> (r: CommandLine)
        ensures
            r@ == trim_command(executable@, screenshot_path@, output_type),
    {
        let mut args: Vec<String> = Vec::new();
        args.push(screenshot_path.to_owned());
        args.push("-trim".to_owned());
        args.push("+repage".to_owned());
        match output_type {
            OutputFormat::Png => {},
            _ => {
                args.push("-background".to_owned());
                args.push("white".to_owned());
                args.push("-flatten".to_owned());
                args.push("-alpha".to_owned());
                args.push("off".to_owned());
            },
        }
        let mut target: String = output_type.as_str().to_owned();
        target.append(":-");
        args.push(target);
        let env: Vec<(String, String)> = Vec::new();
        let r = CommandLine { program: executable.to_owned(), args, current_dir: None, env };
        proof {
            let wanted = trim_command(executable@, screenshot_path@, output_type);
            assert(r@.args =~= wanted.args);
            assert(r@.env =~= wanted.env);
        }
        r
    }
}

} // verus!

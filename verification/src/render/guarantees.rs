//! What holds of every render, whatever the driver reports.
//!
//! The first part speaks of one step, the second of whole runs: of any
//! sequence of events fed to a render from its first step on.

use vstd::prelude::*;
use super::command::exit_ok;
use super::error::RenderErrorView;
use super::job::{
    first_step, renderer_command, transition, ActionView, EventView, PhaseView, RenderJobView,
    RenderRequestView, StepView,
};
use super::with_chrome::in_directory;

verus! {

/// The scratch directory that a render holds in a phase.
pub open spec fn workspace_of(phase: PhaseView) -> Option<Seq<char>> {
    match phase {
        PhaseView::AwaitingWorkspace => None,
        PhaseView::Staging { dir } => Some(dir),
        PhaseView::LocatingRenderer { dir, .. } => Some(dir),
        PhaseView::Rendering { dir, .. } => Some(dir),
        PhaseView::LocatingImageTool { dir, .. } => Some(dir),
        PhaseView::PostProcessing { dir } => Some(dir),
        PhaseView::Releasing { .. } => None,
    }
}

/// A render never changes what was asked for.
pub proof fn lemma_request_kept(job: RenderJobView, event: EventView)
    ensures
        transition(job, event) matches StepView::Next(next, _) ==> next.request == job.request,
{
}

/// A render that holds a scratch directory does not end on the spot,
/// whatever happens: it goes on with the same directory, or it settles its
/// result and asks for this very directory to be removed.
pub proof fn lemma_workspace_released(job: RenderJobView, event: EventView)
    requires
        workspace_of(job.phase) is Some,
    ensures
        transition(job, event) matches StepView::Next(next, action) && (workspace_of(next.phase)
            == workspace_of(job.phase) || (next.phase is Releasing && action
            == ActionView::RemoveWorkspace(workspace_of(job.phase)->0))),
{
}

/// A render ends only where it holds no scratch directory: before one was
/// made, and then with a failure to make one, or after it asked for the
/// directory to be removed.
pub proof fn lemma_ends_without_workspace(job: RenderJobView, event: EventView)
    requires
        transition(job, event) is Finished,
    ensures
        workspace_of(job.phase) is None,
        job.phase is AwaitingWorkspace ==> transition(job, event) matches StepView::Finished(
            Err(RenderErrorView::Resource { .. }),
        ),
{
}

/// Where Chrome ends with an exit code other than zero, or is killed, the
/// render asks for the scratch directory to be removed and then ends,
/// whatever the driver reports of the removal, with the failure of the
/// renderer, which carries the command line and the exit code. It hands
/// out no bytes.
pub proof fn lemma_renderer_failure_reported(
    job: RenderJobView,
    exit_code: Option<i32>,
    removal: EventView,
)
    requires
        job.phase is Rendering,
        !exit_ok(exit_code),
    ensures
        transition(job, EventView::Exited(exit_code)) matches StepView::Next(releasing, action)
            && action == ActionView::RemoveWorkspace(job.phase->Rendering_dir) && transition(
            releasing,
            removal,
        ) == StepView::Finished(
            Err(
                RenderErrorView::Render {
                    command: renderer_command(
                        job.request,
                        job.phase->Rendering_dir,
                        job.phase->Rendering_chrome,
                    ),
                    exit_code,
                    detail: Seq::empty(),
                },
            ),
        ),
{
}

/// A result with bytes is settled only when the image tool has run,
/// ended with exit code zero and written something, and the bytes are
/// what it wrote.
pub proof fn lemma_bytes_from_image_tool(job: RenderJobView, event: EventView, bytes: Seq<u8>)
    requires
        transition(job, event) matches StepView::Next(next, _) && next.phase
            == (PhaseView::Releasing { outcome: Ok(bytes) }),
    ensures
        job.phase is PostProcessing,
        event matches EventView::Output(output) && exit_ok(output.exit_code) && output.stdout
            == bytes,
        bytes.len() > 0,
{
}

/// A render ends with bytes only where that result was settled before and
/// the scratch directory has been removed.
pub proof fn lemma_bytes_after_release(job: RenderJobView, event: EventView, bytes: Seq<u8>)
    requires
        transition(job, event) == StepView::Finished(Ok(bytes)),
    ensures
        job.phase == (PhaseView::Releasing { outcome: Ok(bytes) }),
        event is Done,
{
}

/// A failure that is settled stays: the render ends with it whatever the
/// driver reports of the removal.
pub proof fn lemma_failure_stays(job: RenderJobView, event: EventView, error: RenderErrorView)
    requires
        job.phase == (PhaseView::Releasing { outcome: Err(error) }),
    ensures
        transition(job, event) == StepView::Finished(Err(error)),
{
}

/// A path names something in a directory: it is the directory's path, a
/// slash, and a name.
pub open spec fn lies_in(path: Seq<char>, dir: Seq<char>) -> bool {
    exists|name: Seq<char>| path == in_directory(dir, name)
}

/// A render names no file but in its own scratch directory: there the
/// markup file is written, there Chrome runs and finds its document, and
/// from there the image tool takes the screenshot. The directory that
/// it asks to be removed is its own. It never asks for a second one.
pub proof fn lemma_paths_in_workspace(job: RenderJobView, event: EventView)
    ensures
        transition(job, event) matches StepView::Next(next, action) ==> match action {
            ActionView::CreateWorkspace => false,
            ActionView::WriteFile(file) => workspace_of(next.phase) matches Some(dir) && lies_in(
                file.path,
                dir,
            ),
            ActionView::Run(command) => workspace_of(next.phase) matches Some(dir)
                && command.current_dir == Some(dir) && lies_in(command.args.last(), dir),
            ActionView::RunCapture(command) => workspace_of(next.phase) matches Some(dir)
                && lies_in(command.args[0], dir),
            ActionView::RemoveWorkspace(dir) => workspace_of(job.phase) == Some(dir),
            ActionView::CheckPath(_) => true,
            ActionView::Probe(_) => true,
        },
{
}

/// A render fed with events one after the other, from a step on. A render
/// that has ended stays as it ended.
pub open spec fn run(step: StepView, events: Seq<EventView>) -> StepView
    decreases events.len(),
{
    if events.len() == 0 {
        step
    } else {
        match step {
            StepView::Next(job, _) => run(transition(job, events[0]), events.drop_first()),
            StepView::Finished(_) => step,
        }
    }
}

/// The actions that a render asks for while it is fed with events; the
/// action of the step that it starts from comes first.
pub open spec fn asked(step: StepView, events: Seq<EventView>) -> Seq<ActionView>
    decreases events.len(),
{
    match step {
        StepView::Finished(_) => Seq::empty(),
        StepView::Next(job, action) => if events.len() == 0 {
            seq![action]
        } else {
            seq![action] + asked(transition(job, events[0]), events.drop_first())
        },
    }
}

/// To feed a render with events in two parts is to feed it with all of
/// them.
pub proof fn lemma_run_in_parts(step: StepView, first: Seq<EventView>, rest: Seq<EventView>)
    ensures
        run(step, first + rest) == run(run(step, first), rest),
    decreases first.len(),
{
    if first.len() == 0 {
        assert(first + rest =~= rest);
    } else {
        assert((first + rest).drop_first() =~= first.drop_first() + rest);
        match step {
            StepView::Next(job, _) => {
                lemma_run_in_parts(transition(job, first[0]), first.drop_first(), rest);
            },
            StepView::Finished(_) => {
                lemma_run_ended(step, rest);
            },
        }
    }
}

/// A render that has ended stays as it ended.
pub proof fn lemma_run_ended(step: StepView, events: Seq<EventView>)
    requires
        step is Finished,
    ensures
        run(step, events) == step,
{
}

/// Whatever the events: where Chrome, at event `k`, ends with an exit code
/// other than zero or is killed, and the driver reports on the removal of
/// the scratch directory, the render has ended with the failure of the
/// renderer, which carries this exit code. It has handed out no bytes, and
/// no later event changes that.
pub proof fn lemma_failed_renderer_ends_render(
    request: RenderRequestView,
    events: Seq<EventView>,
    k: int,
)
    requires
        0 <= k,
        k + 1 < events.len(),
        run(first_step(request), events.take(k)) matches StepView::Next(job, _)
            && job.phase is Rendering,
        events[k] matches EventView::Exited(exit_code) && !exit_ok(exit_code),
    ensures
        run(first_step(request), events) matches StepView::Finished(
            Err(RenderErrorView::Render { exit_code, .. }),
        ) && EventView::Exited(exit_code) == events[k],
{
    let start = first_step(request);
    let before = run(start, events.take(k));
    let job = before->Next_0;
    let exit_code = events[k]->Exited_0;
    let two = seq![events[k], events[k + 1]];
    let after = events.skip(k + 2);
    assert(events =~= events.take(k) + (two + after));
    lemma_run_in_parts(start, events.take(k), two + after);
    lemma_run_in_parts(before, two, after);
    lemma_renderer_failure_reported(job, exit_code, events[k + 1]);
    let released = transition(job, events[k]);
    let ended = transition(released->Next_0, events[k + 1]);
    assert(run(before, two) == run(released, two.drop_first()));
    assert(two.drop_first()[0] == events[k + 1]);
    assert(run(released, two.drop_first()) == run(ended, two.drop_first().drop_first()));
    assert(run(ended, two.drop_first().drop_first()) == ended);
    lemma_run_ended(ended, after);
}

/// Whatever the events: a render that ends with bytes has seen the image
/// tool end with exit code zero, and the bytes are what the tool wrote to
/// its standard output, which was not empty.
pub proof fn lemma_bytes_are_the_image_tools(
    request: RenderRequestView,
    events: Seq<EventView>,
    bytes: Seq<u8>,
)
    requires
        run(first_step(request), events) == StepView::Finished(Ok(bytes)),
    ensures
        bytes.len() > 0,
        exists|k: int|
            0 <= k < events.len() && (#[trigger] events[k] matches EventView::Output(output)
                && exit_ok(output.exit_code) && output.stdout == bytes),
{
    lemma_bytes_origin(first_step(request), events, bytes);
}

proof fn lemma_bytes_origin(step: StepView, events: Seq<EventView>, bytes: Seq<u8>)
    requires
        run(step, events) == StepView::Finished(Ok(bytes)),
    ensures
        step == StepView::Finished(Ok(bytes)) || (step matches StepView::Next(job, _) && job.phase
            == (PhaseView::Releasing { outcome: Ok(bytes) })) || (bytes.len() > 0 && exists|k: int|
            0 <= k < events.len() && (#[trigger] events[k] matches EventView::Output(output)
                && exit_ok(output.exit_code) && output.stdout == bytes)),
    decreases events.len(),
{
    if events.len() > 0 {
        if let StepView::Next(job, _) = step {
            let then = transition(job, events[0]);
            let rest = events.drop_first();
            lemma_bytes_origin(then, rest, bytes);
            if then == StepView::Finished(Ok(bytes)) {
                lemma_bytes_after_release(job, events[0], bytes);
            } else if then matches StepView::Next(next, _) && next.phase
                == (PhaseView::Releasing { outcome: Ok(bytes) }) {
                lemma_bytes_from_image_tool(job, events[0], bytes);
                assert(events[0] matches EventView::Output(output) && exit_ok(output.exit_code)
                    && output.stdout == bytes);
            } else {
                let k = choose|k: int|
                    0 <= k < rest.len() && (#[trigger] rest[k] matches EventView::Output(output)
                        && exit_ok(output.exit_code) && output.stdout == bytes);
                assert(events[k + 1] == rest[k]);
            }
        }
    }
}

/// The phases that come after Chrome has taken the screenshot, on the way
/// to a result with bytes.
pub open spec fn past_rendering(phase: PhaseView) -> bool {
    match phase {
        PhaseView::LocatingImageTool { .. } => true,
        PhaseView::PostProcessing { .. } => true,
        PhaseView::Releasing { outcome } => outcome is Ok,
        _ => false,
    }
}

/// Whatever the events: a render that ends with bytes has seen Chrome end
/// with exit code zero. No failure of the renderer is passed over.
pub proof fn lemma_bytes_need_the_renderer(
    request: RenderRequestView,
    events: Seq<EventView>,
    bytes: Seq<u8>,
)
    requires
        run(first_step(request), events) == StepView::Finished(Ok(bytes)),
    ensures
        exists|k: int|
            0 <= k < events.len() && (#[trigger] events[k] matches EventView::Exited(exit_code)
                && exit_ok(exit_code)),
{
    lemma_renderer_origin(first_step(request), events, bytes);
}

proof fn lemma_renderer_origin(step: StepView, events: Seq<EventView>, bytes: Seq<u8>)
    requires
        run(step, events) == StepView::Finished(Ok(bytes)),
    ensures
        step is Finished || (step matches StepView::Next(job, _) && past_rendering(job.phase)) || (
        exists|k: int|
            0 <= k < events.len() && (#[trigger] events[k] matches EventView::Exited(exit_code)
                && exit_ok(exit_code))),
    decreases events.len(),
{
    if events.len() > 0 {
        if let StepView::Next(job, _) = step {
            let then = transition(job, events[0]);
            let rest = events.drop_first();
            lemma_renderer_origin(then, rest, bytes);
            if then is Finished {
                lemma_run_ended(then, rest);
                lemma_bytes_after_release(job, events[0], bytes);
            } else if past_rendering(then->Next_0.phase) {
                if !past_rendering(job.phase) {
                    assert(events[0] matches EventView::Exited(exit_code) && exit_ok(exit_code));
                }
            } else {
                let k = choose|k: int|
                    0 <= k < rest.len() && (#[trigger] rest[k] matches EventView::Exited(exit_code)
                        && exit_ok(exit_code));
                assert(events[k + 1] == rest[k]);
            }
        }
    }
}

/// Whatever the events: a render that has ended either never had a
/// scratch directory, and then it failed for want of one, or it asked for
/// the removal of the very directory that it was given.
pub proof fn lemma_every_ending_releases(request: RenderRequestView, events: Seq<EventView>)
    requires
        run(first_step(request), events) is Finished,
    ensures
        events.len() > 0,
        match events[0] {
            EventView::WorkspaceCreated(dir) => asked(first_step(request), events).contains(
                ActionView::RemoveWorkspace(dir),
            ),
            _ => run(first_step(request), events) matches StepView::Finished(
                Err(RenderErrorView::Resource { .. }),
            ),
        },
{
    let start = first_step(request);
    let job = start->Next_0;
    let then = transition(job, events[0]);
    match events[0] {
        EventView::WorkspaceCreated(dir) => {
            lemma_release_asked(then, events.drop_first(), dir);
            let later = asked(then, events.drop_first());
            let i = choose|i: int|
                0 <= i < later.len() && later[i] == ActionView::RemoveWorkspace(dir);
            assert(asked(start, events)[i + 1] == later[i]);
        },
        _ => {
            lemma_run_ended(then, events.drop_first());
        },
    }
}

proof fn lemma_release_asked(step: StepView, events: Seq<EventView>, dir: Seq<char>)
    requires
        step matches StepView::Next(job, _) && workspace_of(job.phase) == Some(dir),
        run(step, events) is Finished,
    ensures
        asked(step, events).contains(ActionView::RemoveWorkspace(dir)),
    decreases events.len(),
{
    let job = step->Next_0;
    let then = transition(job, events[0]);
    let rest = events.drop_first();
    let later = asked(then, rest);
    lemma_workspace_released(job, events[0]);
    if workspace_of(then->Next_0.phase) == Some(dir) {
        lemma_release_asked(then, rest, dir);
        let i = choose|i: int| 0 <= i < later.len() && later[i] == ActionView::RemoveWorkspace(dir);
        assert(asked(step, events)[i + 1] == later[i]);
    } else {
        assert(later[0] == ActionView::RemoveWorkspace(dir));
        assert(asked(step, events)[1] == later[0]);
    }
}

} // verus!

//! What holds of every run of the machine, whatever the caller reports.

use crate::command::{
    linker_build, linker_clone, llvm_clone, llvm_configure, llvm_install, project_build,
};
use crate::config::config_text;
use crate::failure::FailureKind;
use crate::layout::LayoutView;
use crate::links::{lemma_symlinks_are_links, symlinks, WalkEntryView};
use crate::model::{ActionView, MachineView, Operation, Stage, initial};
use crate::paths::absolute;
use crate::replies::{cause_of, EventView};
use vstd::prelude::*;

verus! {

/// The place of a stage in the fixed order of the work.
pub open spec fn rank(stage: Stage) -> nat {
    match stage {
        Stage::LlvmCacheDir => 0,
        Stage::LlvmSourceProbe => 1,
        Stage::LlvmClone => 2,
        Stage::LlvmMarkerProbe => 3,
        Stage::LlvmBuildDir => 4,
        Stage::LlvmInstallDir => 5,
        Stage::LlvmConfigure => 6,
        Stage::LlvmInstall => 7,
        Stage::InstallWalk => 8,
        Stage::LinkRead => 9,
        Stage::LinkMove => 9,
        Stage::LinkerCacheDir => 10,
        Stage::LinkerSourceProbe => 11,
        Stage::LinkerClone => 12,
        Stage::LinkerBuild => 13,
        Stage::ConfigDir => 14,
        Stage::ConfigWrite => 15,
        Stage::ProjectBuild => 16,
        Stage::Finished => 17,
        Stage::Failed => 17,
    }
}

/// The action whose report a state is waiting for.
pub open spec fn awaited(m: MachineView) -> ActionView {
    match m.stage {
        Stage::LlvmCacheDir => ActionView::CreateDir { path: m.layout.cache_dir },
        Stage::LlvmSourceProbe => ActionView::Probe { path: m.layout.llvm_source() },
        Stage::LlvmClone => ActionView::Run { command: llvm_clone(m.layout) },
        Stage::LlvmMarkerProbe => ActionView::Probe { path: m.layout.llvm_marker() },
        Stage::LlvmBuildDir => ActionView::CreateDir { path: m.layout.llvm_build() },
        Stage::LlvmInstallDir => ActionView::CreateDir { path: m.layout.llvm_install() },
        Stage::LlvmConfigure => ActionView::Run { command: llvm_configure(m.layout) },
        Stage::LlvmInstall => ActionView::Run { command: llvm_install(m.layout) },
        Stage::InstallWalk => ActionView::Walk { root: m.layout.llvm_install() },
        Stage::LinkRead => ActionView::ReadLink { path: m.link() },
        Stage::LinkMove => ActionView::Rename { from: m.target, to: m.link() },
        Stage::LinkerCacheDir => ActionView::CreateDir { path: m.layout.cache_dir },
        Stage::LinkerSourceProbe => ActionView::Probe { path: m.layout.linker_source() },
        Stage::LinkerClone => ActionView::Run { command: linker_clone(m.layout) },
        Stage::LinkerBuild => ActionView::Run { command: linker_build(m.layout) },
        Stage::ConfigDir => ActionView::CreateDir { path: m.layout.config_dir() },
        Stage::ConfigWrite => ActionView::WriteFile {
            path: m.layout.config_file(),
            contents: config_text(m.layout.linker_binary()),
        },
        Stage::ProjectBuild => ActionView::Run { command: project_build(m.layout) },
        Stage::Finished | Stage::Failed => ActionView::Stop,
    }
}

/// The state that a run is in after a series of reports.
pub open spec fn state_after(m: MachineView, events: Seq<EventView>) -> MachineView
    decreases events.len(),
{
    if events.len() == 0 {
        m
    } else {
        state_after(m.step(events[0]).0, events.drop_first())
    }
}

/// The action that answers the report at index `i` of a run.
pub open spec fn action_at(m: MachineView, events: Seq<EventView>, i: int) -> ActionView {
    state_after(m, events.take(i)).step(events[i]).1
}

/// Whether an action starts the given program.
pub open spec fn runs(action: ActionView, program: Seq<char>) -> bool {
    action is Run && action->command.program == program
}

/// One step keeps the operation and the layout, keeps the state well formed,
/// never goes back in the order of the work, and hands out exactly the action
/// that the new state waits for; the step that halts the machine reports the
/// end, and a halted machine stays as it is.
pub proof fn lemma_step(m: MachineView, event: EventView)
    requires
        m.wf(),
    ensures
        m.step(event).0.wf(),
        m.step(event).0.operation == m.operation,
        m.step(event).0.layout == m.layout,
        rank(m.step(event).0.stage) >= rank(m.stage),
        !m.step(event).0.halted() ==> m.step(event).1 == awaited(m.step(event).0),
        m.step(event).0.halted() && !m.halted() ==> m.step(event).1 is Finish || m.step(event).1
            is Abort,
        m.halted() ==> m.step(event) == (m, ActionView::Stop),
{
}

/// An operation begins well formed, with the action that its first state
/// waits for.
pub proof fn lemma_initial(operation: Operation, layout: LayoutView)
    ensures
        initial(operation, layout).0.wf(),
        initial(operation, layout).0.operation == operation,
        initial(operation, layout).0.layout == layout,
        initial(operation, layout).1 == awaited(initial(operation, layout).0),
{
}

/// What one step keeps, a whole run keeps.
pub proof fn lemma_run(m: MachineView, events: Seq<EventView>)
    requires
        m.wf(),
    ensures
        state_after(m, events).wf(),
        state_after(m, events).operation == m.operation,
        state_after(m, events).layout == m.layout,
        rank(state_after(m, events).stage) >= rank(m.stage),
    decreases events.len(),
{
    if events.len() > 0 {
        lemma_step(m, events[0]);
        lemma_run(m.step(events[0]).0, events.drop_first());
    }
}

/// The state before the report at index `i`, for `i > 0`, is reached from
/// the state after the first report.
proof fn lemma_after_first(m: MachineView, events: Seq<EventView>, i: int)
    requires
        0 < i <= events.len(),
    ensures
        state_after(m, events.take(i)) == state_after(
            m.step(events[0]).0,
            events.drop_first().take(i - 1),
        ),
{
    assert(events.take(i).drop_first() =~= events.drop_first().take(i - 1));
}

/// What holds of the step that answers a later report: the state before it
/// is well formed, has the run's layout and operation, and is no earlier in
/// the order of the work than the state after the first report; the step
/// itself is as `lemma_step` says.
proof fn lemma_later_step(m: MachineView, events: Seq<EventView>, i: int)
    requires
        m.wf(),
        0 < i < events.len(),
    ensures
        ({
            let first = m.step(events[0]).0;
            let before = state_after(m, events.take(i));
            let after = before.step(events[i]).0;
            let action = action_at(m, events, i);
            &&& before.wf()
            &&& before.layout == m.layout
            &&& before.operation == m.operation
            &&& after.layout == m.layout
            &&& rank(before.stage) >= rank(first.stage)
            &&& rank(after.stage) >= rank(before.stage)
            &&& !after.halted() ==> action == awaited(after)
            &&& after.halted() && !before.halted() ==> action is Finish || action is Abort
            &&& before.halted() ==> action == ActionView::Stop
        }),
{
    let first = m.step(events[0]).0;
    let rest = events.drop_first().take(i - 1);
    lemma_after_first(m, events, i);
    lemma_step(m, events[0]);
    lemma_run(first, rest);
    lemma_step(state_after(first, rest), events[i]);
}

/// A run may be cut anywhere: the state after all reports is the state
/// after the later ones, taken from the state after the earlier ones.
proof fn lemma_split(m: MachineView, events: Seq<EventView>, k: int)
    requires
        0 <= k <= events.len(),
    ensures
        state_after(m, events) == state_after(state_after(m, events.take(k)), events.skip(k)),
    decreases k,
{
    if k == 0 {
        assert(events.skip(0) =~= events);
    } else {
        assert(events.take(k).drop_first() =~= events.drop_first().take(k - 1));
        assert(events.drop_first().skip(k - 1) =~= events.skip(k));
        lemma_split(m.step(events[0]).0, events.drop_first(), k - 1);
    }
}

proof fn lemma_programs_differ()
    ensures
        "git"@ != "cmake"@,
        "cargo"@ != "cmake"@,
        "cargo"@ != "git"@,
        "clone llvm-project"@ != "clone sbpf-linker"@,
        "configure LLVM build"@ != "build LLVM"@,
        "build sbpf-linker"@ != "build project"@,
{
    reveal_strlit("git");
    reveal_strlit("cmake");
    reveal_strlit("cargo");
    reveal_strlit("clone llvm-project");
    reveal_strlit("clone sbpf-linker");
    reveal_strlit("configure LLVM build");
    reveal_strlit("build LLVM");
    reveal_strlit("build sbpf-linker");
    reveal_strlit("build project");
    assert("clone llvm-project"@.len() == 18);
    assert("clone sbpf-linker"@.len() == 17);
    assert("configure LLVM build"@.len() == 20);
    assert("build LLVM"@.len() == 10);
    assert("build sbpf-linker"@.len() == 17);
    assert("build project"@.len() == 13);
    assert("cargo"@[1] == 'a');
    assert("cmake"@[1] == 'm');
}

/// Whether an action is an effect that a run must not repeat: a process,
/// or the writing of the configuration.
pub open spec fn once_only(action: ActionView) -> bool {
    action is Run || action is WriteFile
}

/// Within one run no process is started twice and the configuration is
/// written at most once: a later action never repeats an earlier one of
/// these.
pub proof fn lemma_effects_happen_once(m: MachineView, events: Seq<EventView>, i: int, j: int)
    requires
        m.wf(),
        0 <= i < j < events.len(),
        once_only(action_at(m, events, i)),
    ensures
        action_at(m, events, j) != action_at(m, events, i),
{
    lemma_programs_differ();
    let before_i = state_after(m, events.take(i));
    lemma_run(m, events.take(i));
    lemma_step(before_i, events[i]);
    let after_i = before_i.step(events[i]).0;
    // The state before the later report is reached from the state after the
    // earlier one.
    let upto = events.take(j);
    lemma_split(m, upto, i);
    assert(upto.take(i) =~= events.take(i));
    let tail = upto.skip(i);
    assert(tail[0] == events[i]);
    let rest = tail.drop_first();
    let before_j = state_after(after_i, rest);
    assert(state_after(m, upto) == before_j);
    lemma_run(after_i, rest);
    lemma_step(before_j, events[j]);
}

/// Once halted, a machine asks for nothing more.
pub proof fn lemma_halted_asks_nothing(m: MachineView, events: Seq<EventView>, i: int)
    requires
        m.halted(),
        0 <= i < events.len(),
    ensures
        state_after(m, events.take(i)) == m,
        action_at(m, events, i) == ActionView::Stop,
    decreases i,
{
    if i > 0 {
        lemma_after_first(m, events, i);
        lemma_halted_asks_nothing(m, events.drop_first(), i - 1);
    }
}

/// A checkout that is there is taken as it is: in no continuation of the
/// run is that repository cloned. One that is missing is cloned at once, and
/// only then.
pub proof fn lemma_llvm_checkout(m: MachineView, events: Seq<EventView>, present: bool, i: int)
    requires
        m.wf(),
        m.stage == Stage::LlvmSourceProbe,
        0 <= i < events.len(),
        events[0] == (EventView::Found { present }),
    ensures
        action_at(m, events, i) == (ActionView::Run { command: llvm_clone(m.layout) }) <==> !present
            && i == 0,
{
    lemma_programs_differ();
    if i > 0 {
        lemma_later_step(m, events, i);
    }
}

/// The same for the linker's checkout, after which no repository at all is
/// cloned.
pub proof fn lemma_linker_checkout(m: MachineView, events: Seq<EventView>, present: bool, i: int)
    requires
        m.wf(),
        m.stage == Stage::LinkerSourceProbe,
        0 <= i < events.len(),
        events[0] == (EventView::Found { present }),
    ensures
        action_at(m, events, i) == (ActionView::Run { command: linker_clone(m.layout) })
            <==> !present && i == 0,
        runs(action_at(m, events, i), "git"@) <==> !present && i == 0,
{
    lemma_programs_differ();
    if i > 0 {
        lemma_later_step(m, events, i);
    }
}

/// When the installed `llvm-config` is found, LLVM counts as built: in no
/// continuation of the run is cmake started, neither to configure nor to
/// build and install.
pub proof fn lemma_built_llvm_is_kept(m: MachineView, events: Seq<EventView>, i: int)
    requires
        m.wf(),
        m.stage == Stage::LlvmMarkerProbe,
        0 <= i < events.len(),
        events[0] == (EventView::Found { present: true }),
    ensures
        !runs(action_at(m, events, i), "cmake"@),
        !(action_at(m, events, i) is Walk),
        !(action_at(m, events, i) is Rename),
{
    lemma_programs_differ();
    if i > 0 {
        lemma_later_step(m, events, i);
    }
}

/// A clone that ends with a failing status ends the run: the answer is an
/// abort of the clone kind that carries the status, and nothing is asked for
/// after it.
pub proof fn lemma_failed_clone_ends_the_run(
    m: MachineView,
    events: Seq<EventView>,
    status: Seq<char>,
    i: int,
)
    requires
        m.wf(),
        m.stage == Stage::LlvmClone || m.stage == Stage::LinkerClone,
        0 <= i < events.len(),
        events[0] == (EventView::Exited { status }),
    ensures
        i == 0 ==> action_at(m, events, i) is Abort && action_at(m, events, i)->failure.kind
            == FailureKind::CloneFailed && action_at(m, events, i)->failure.cause == status,
        i > 0 ==> action_at(m, events, i) == ActionView::Stop,
{
    if i > 0 {
        let first = m.step(events[0]).0;
        lemma_after_first(m, events, i);
        lemma_halted_asks_nothing(first, events.drop_first(), i - 1);
    }
}

/// The failure class of each step that is a process of its own.
pub open spec fn process_kind(stage: Stage) -> FailureKind {
    match stage {
        Stage::LlvmClone | Stage::LinkerClone => FailureKind::CloneFailed,
        Stage::LlvmConfigure => FailureKind::ConfigureFailed,
        _ => FailureKind::BuildFailed,
    }
}

/// The name under which each such step runs its process.
pub open spec fn process_label(m: MachineView) -> Seq<char> {
    match m.stage {
        Stage::LlvmClone => llvm_clone(m.layout).label,
        Stage::LinkerClone => linker_clone(m.layout).label,
        Stage::LlvmConfigure => llvm_configure(m.layout).label,
        Stage::LlvmInstall => llvm_install(m.layout).label,
        _ => linker_build(m.layout).label,
    }
}

/// A clone, the configuration of LLVM, its build and install, and the
/// linker's build each fail as their own step, whatever went wrong with the
/// process: every report but `Completed` ends the run with a failure of the
/// step's kind that names the step and carries the report's cause.
pub proof fn lemma_failed_process_fails_its_step(m: MachineView, event: EventView)
    requires
        m.stage == Stage::LlvmClone || m.stage == Stage::LinkerClone || m.stage
            == Stage::LlvmConfigure || m.stage == Stage::LlvmInstall || m.stage
            == Stage::LinkerBuild,
        !(event is Completed),
    ensures
        m.step(event).0.stage == Stage::Failed,
        m.step(event).1 is Abort,
        m.step(event).1->failure.kind == process_kind(m.stage),
        m.step(event).1->failure.cause == cause_of(event),
        m.step(event).1->failure.description == if event is Exited {
            "command failed: "@ + process_label(m)
        } else {
            "failed to run: "@ + process_label(m)
        },
{
}

/// Any failure ends the run: after an abort nothing is asked for.
pub proof fn lemma_abort_ends_the_run(m: MachineView, events: Seq<EventView>, i: int, j: int)
    requires
        m.wf(),
        0 <= i < j < events.len(),
        action_at(m, events, i) is Abort,
    ensures
        action_at(m, events, j) == ActionView::Stop,
    decreases i,
{
    if i == 0 {
        lemma_after_first(m, events, j);
        lemma_halted_asks_nothing(m.step(events[0]).0, events.drop_first(), j - 1);
    } else {
        let first = m.step(events[0]).0;
        lemma_step(m, events[0]);
        lemma_after_first(m, events, i);
        lemma_after_first(m, events, j);
        lemma_abort_ends_the_run(first, events.drop_first(), i - 1, j - 1);
    }
}

/// Only the target of an absolute link is ever moved, and it is moved to
/// the place of the link that was just read.
pub proof fn lemma_moves_replace_absolute_links(m: MachineView, event: EventView)
    requires
        m.wf(),
        m.step(event).1 is Rename,
    ensures
        m.stage == Stage::LinkRead,
        event is Target,
        absolute(event->target),
        m.step(event).1 == (ActionView::Rename { from: event->target, to: m.link() }),
        m.links.contains(m.link()),
{
    lemma_step(m, event);
}

/// The target of an absolute link is moved into the link's place.
pub proof fn lemma_absolute_link_is_replaced(m: MachineView, target: Seq<char>)
    requires
        m.stage == Stage::LinkRead,
        absolute(target),
    ensures
        m.step(EventView::Target { target }).1 == (ActionView::Rename {
            from: target,
            to: m.link(),
        }),
{
}

/// A link with a relative target is left as it is: the machine turns to the
/// next link, or leaves the install tree.
pub proof fn lemma_relative_link_is_left(m: MachineView, target: Seq<char>)
    requires
        m.stage == Stage::LinkRead,
        !absolute(target),
    ensures
        m.step(EventView::Target { target }) == m.resolve_from(m.cursor + 1),
        !(m.step(EventView::Target { target }).1 is Rename),
{
}

/// The reports on one link that is resolved without failure: its target,
/// and for an absolute target the completed move.
pub open spec fn resolution(target: Seq<char>) -> Seq<EventView> {
    if absolute(target) {
        seq![EventView::Target { target }, EventView::Completed]
    } else {
        seq![EventView::Target { target }]
    }
}

/// The reports on a series of links that are resolved without failure, one
/// after the other.
pub open spec fn resolutions(targets: Seq<Seq<char>>) -> Seq<EventView>
    decreases targets.len(),
{
    if targets.len() == 0 {
        Seq::empty()
    } else {
        resolution(targets[0]) + resolutions(targets.drop_first())
    }
}

/// The state that resolving the links is left in when none is left.
pub open spec fn links_done(m: MachineView) -> Stage {
    if m.operation == Operation::Setup {
        Stage::LinkerCacheDir
    } else {
        Stage::Finished
    }
}

/// While nothing fails, the links are read in turn: from the link under the
/// cursor, after the reports on `targets.len()` links, the machine has the
/// same links and is reading the link that many places on; after the last
/// link it has left the install tree.
pub proof fn lemma_links_are_read_in_turn(m: MachineView, targets: Seq<Seq<char>>)
    requires
        m.wf(),
        m.stage == Stage::LinkRead,
        m.cursor + targets.len() <= m.links.len(),
    ensures
        ({
            let end = state_after(m, resolutions(targets));
            &&& end.links == m.links
            &&& end.layout == m.layout
            &&& end.operation == m.operation
            &&& end.cursor == m.cursor + targets.len()
            &&& end.cursor < m.links.len() ==> end.stage == Stage::LinkRead && awaited(end) == (
            ActionView::ReadLink { path: m.links[end.cursor as int] })
            &&& end.cursor == m.links.len() ==> end.stage == links_done(m)
        }),
    decreases targets.len(),
{
    if targets.len() > 0 {
        let target = targets[0];
        let one = resolution(target);
        let events = resolutions(targets);
        let rest = resolutions(targets.drop_first());
        lemma_split(m, events, one.len() as int);
        assert(events.take(one.len() as int) =~= one);
        assert(events.skip(one.len() as int) =~= rest);
        // One link: its target is read, and an absolute one is moved.
        let read = m.step(EventView::Target { target });
        assert(one.drop_first() =~= if absolute(target) {
            seq![EventView::Completed]
        } else {
            Seq::empty()
        });
        assert(seq![EventView::Completed].drop_first() =~= Seq::<EventView>::empty());
        let next = state_after(m, one);
        assert(next == state_after(read.0, one.drop_first()));
        assert(state_after(read.0, seq![EventView::Completed]) == state_after(
            read.0.step(EventView::Completed).0,
            Seq::<EventView>::empty(),
        ));
        assert(next == if absolute(target) {
            read.0.step(EventView::Completed).0
        } else {
            read.0
        });
        if targets.len() > 1 {
            lemma_links_are_read_in_turn(next, targets.drop_first());
        } else {
            assert(rest =~= Seq::<EventView>::empty());
        }
    }
}

/// The walk decides which paths are looked at: the links it reported, in
/// its order. An entry that is no link is never read nor moved.
pub proof fn lemma_walk_selects_links(m: MachineView, entries: Seq<WalkEntryView>, k: int)
    requires
        m.stage == Stage::InstallWalk,
        0 <= k < symlinks(entries).len(),
    ensures
        m.step(EventView::Entries { entries }).0.links == symlinks(entries),
        exists|j: int|
            0 <= j < entries.len() && (#[trigger] entries[j]).symlink && entries[j].path
                == symlinks(entries)[k],
{
    lemma_symlinks_are_links(entries, k);
}

/// Outside the walk the list of links stays as it is.
pub proof fn lemma_links_are_fixed(m: MachineView, event: EventView)
    requires
        m.stage != Stage::InstallWalk,
    ensures
        m.step(event).0.links == m.links,
{
}

} // verus!

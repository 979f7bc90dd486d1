//! The bootstrap as a transition system over plain mathematical values.
//!
//! A state says which report is awaited; `step` reads the report and gives
//! the next state together with the next thing to do.

use crate::command::{
    linker_build, linker_clone, llvm_clone, llvm_configure, llvm_install, project_build,
    InvocationView,
};
use crate::config::config_text;
use crate::failure::{FailureKind, FailureView};
use crate::layout::LayoutView;
use crate::links::symlinks;
use crate::paths::absolute;
use crate::replies::{
    done_or_cause, entries_or_cause, found_or_cause, run_outcome, step_outcome, target_or_cause,
    EventView,
};
use vstd::prelude::*;

verus! {

/// What the operator asked for.
#[derive(Clone, Copy, Debug, PartialEq, Eq, Structural)]
pub enum Operation {
    /// LLVM, then the linker, then the cargo configuration.
    Setup,
    /// The linker and the cargo configuration.
    BuildLinker,
    /// LLVM alone.
    BuildLlvm,
    /// The project itself, with the toolchain in place.
    Build,
}

/// The report that the machine is waiting for.
#[derive(Clone, Copy, Debug, PartialEq, Eq, Structural)]
pub enum Stage {
    /// The cache directory is being created, ahead of the LLVM checkout.
    LlvmCacheDir,
    /// Is the LLVM checkout there?
    LlvmSourceProbe,
    LlvmClone,
    /// Is the installed `llvm-config` there?
    LlvmMarkerProbe,
    LlvmBuildDir,
    LlvmInstallDir,
    LlvmConfigure,
    LlvmInstall,
    /// The install tree is being walked.
    InstallWalk,
    /// The current link is being read.
    LinkRead,
    /// The current link's target is being moved into the link's place.
    LinkMove,
    /// The cache directory is being created, ahead of the linker checkout.
    LinkerCacheDir,
    /// Is the linker checkout there?
    LinkerSourceProbe,
    LinkerClone,
    LinkerBuild,
    ConfigDir,
    ConfigWrite,
    ProjectBuild,
    /// The operation succeeded; nothing is left to do.
    Finished,
    /// The operation failed; nothing more is attempted.
    Failed,
}

pub enum ActionView {
    CreateDir { path: Seq<char> },
    Probe { path: Seq<char> },
    Run { command: InvocationView },
    Walk { root: Seq<char> },
    ReadLink { path: Seq<char> },
    Rename { from: Seq<char>, to: Seq<char> },
    WriteFile { path: Seq<char>, contents: Seq<char> },
    Finish { ready: bool },
    Abort { failure: FailureView },
    Stop,
}

pub struct MachineView {
    pub operation: Operation,
    pub layout: LayoutView,
    pub stage: Stage,
    /// The links that the walk found, in walk order.
    pub links: Seq<Seq<char>>,
    /// Index of the link that is being resolved.
    pub cursor: nat,
    /// Target of that link, once it has been read.
    pub target: Seq<char>,
}

pub open spec fn create_dir_failed(path: Seq<char>) -> Seq<char> {
    "failed to create directory "@ + path
}

pub open spec fn probe_failed(path: Seq<char>) -> Seq<char> {
    "failed to inspect "@ + path
}

pub open spec fn walk_failed(root: Seq<char>) -> Seq<char> {
    "failed to read filesystem entry while traversing install prefix "@ + root
}

pub open spec fn read_link_failed(link: Seq<char>) -> Seq<char> {
    "failed to read the link "@ + link
}

pub open spec fn move_failed(target: Seq<char>, link: Seq<char>) -> Seq<char> {
    "failed to move the target file "@ + target + " to the location of the symlink "@ + link
}

pub open spec fn write_failed(path: Seq<char>) -> Seq<char> {
    "failed to write "@ + path
}

impl MachineView {
    /// While a link is being resolved, there is such a link.
    pub open spec fn wf(self) -> bool {
        (self.stage == Stage::LinkRead || self.stage == Stage::LinkMove) ==> self.cursor
            < self.links.len()
    }

    pub open spec fn halted(self) -> bool {
        self.stage == Stage::Finished || self.stage == Stage::Failed
    }

    pub open spec fn at(self, stage: Stage) -> MachineView {
        MachineView { stage, ..self }
    }

    /// The link that is being resolved.
    pub open spec fn link(self) -> Seq<char> {
        self.links[self.cursor as int]
    }

    pub open spec fn abort(self, failure: FailureView) -> (MachineView, ActionView) {
        (self.at(Stage::Failed), ActionView::Abort { failure })
    }

    pub open spec fn fail(self, kind: FailureKind, description: Seq<char>, cause: Seq<char>) -> (
        MachineView,
        ActionView,
    ) {
        self.abort(FailureView { kind, description, cause })
    }

    /// Success; the ready banner is owed after a full setup only.
    pub open spec fn finish(self) -> (MachineView, ActionView) {
        (
            self.at(Stage::Finished),
            ActionView::Finish { ready: self.operation == Operation::Setup },
        )
    }

    pub open spec fn enter_llvm(self) -> (MachineView, ActionView) {
        (self.at(Stage::LlvmCacheDir), ActionView::CreateDir { path: self.layout.cache_dir })
    }

    pub open spec fn enter_linker(self) -> (MachineView, ActionView) {
        (self.at(Stage::LinkerCacheDir), ActionView::CreateDir { path: self.layout.cache_dir })
    }

    pub open spec fn enter_project(self) -> (MachineView, ActionView) {
        (self.at(Stage::ProjectBuild), ActionView::Run { command: project_build(self.layout) })
    }

    /// LLVM is in place: a full setup goes on to the linker.
    pub open spec fn leave_llvm(self) -> (MachineView, ActionView) {
        if self.operation == Operation::Setup {
            self.enter_linker()
        } else {
            self.finish()
        }
    }

    pub open spec fn probe_marker(self) -> (MachineView, ActionView) {
        (self.at(Stage::LlvmMarkerProbe), ActionView::Probe { path: self.layout.llvm_marker() })
    }

    pub open spec fn build_linker(self) -> (MachineView, ActionView) {
        (self.at(Stage::LinkerBuild), ActionView::Run { command: linker_build(self.layout) })
    }

    /// Turns to the link under the cursor, or leaves when none is left.
    pub open spec fn resolve_from(self, cursor: nat) -> (MachineView, ActionView) {
        let m = MachineView { cursor, ..self };
        if cursor < self.links.len() {
            (m.at(Stage::LinkRead), ActionView::ReadLink { path: m.link() })
        } else {
            m.leave_llvm()
        }
    }

    /// Checkout of LLVM, and the decision whether it has to be built.
    pub open spec fn setup_llvm(self, event: EventView) -> (MachineView, ActionView) {
        match self.stage {
            Stage::LlvmCacheDir => match done_or_cause(event) {
                Ok(_) => (
                    self.at(Stage::LlvmSourceProbe),
                    ActionView::Probe { path: self.layout.llvm_source() },
                ),
                Err(cause) => self.fail(
                    FailureKind::CloneFailed,
                    create_dir_failed(self.layout.cache_dir),
                    cause,
                ),
            },
            Stage::LlvmSourceProbe => match found_or_cause(event) {
                Ok(present) => if present {
                    self.probe_marker()
                } else {
                    (
                        self.at(Stage::LlvmClone),
                        ActionView::Run { command: llvm_clone(self.layout) },
                    )
                },
                Err(cause) => self.fail(
                    FailureKind::CloneFailed,
                    probe_failed(self.layout.llvm_source()),
                    cause,
                ),
            },
            Stage::LlvmClone => match step_outcome(
                event,
                FailureKind::CloneFailed,
                llvm_clone(self.layout).label,
            ) {
                Ok(_) => self.probe_marker(),
                Err(failure) => self.abort(failure),
            },
            Stage::LlvmMarkerProbe => match found_or_cause(event) {
                Ok(present) => if present {
                    self.leave_llvm()
                } else {
                    (
                        self.at(Stage::LlvmBuildDir),
                        ActionView::CreateDir { path: self.layout.llvm_build() },
                    )
                },
                Err(cause) => self.fail(
                    FailureKind::ConfigureFailed,
                    probe_failed(self.layout.llvm_marker()),
                    cause,
                ),
            },
            Stage::LlvmBuildDir => match done_or_cause(event) {
                Ok(_) => (
                    self.at(Stage::LlvmInstallDir),
                    ActionView::CreateDir { path: self.layout.llvm_install() },
                ),
                Err(cause) => self.fail(
                    FailureKind::ConfigureFailed,
                    create_dir_failed(self.layout.llvm_build()),
                    cause,
                ),
            },
            _ => match done_or_cause(event) {
                Ok(_) => (
                    self.at(Stage::LlvmConfigure),
                    ActionView::Run { command: llvm_configure(self.layout) },
                ),
                Err(cause) => self.fail(
                    FailureKind::ConfigureFailed,
                    create_dir_failed(self.layout.llvm_install()),
                    cause,
                ),
            },
        }
    }

    /// Configure, build and install, then put each absolute link's target
    /// in the link's place.
    pub open spec fn build_llvm(self, event: EventView) -> (MachineView, ActionView) {
        match self.stage {
            Stage::LlvmConfigure => match step_outcome(
                event,
                FailureKind::ConfigureFailed,
                llvm_configure(self.layout).label,
            ) {
                Ok(_) => (
                    self.at(Stage::LlvmInstall),
                    ActionView::Run { command: llvm_install(self.layout) },
                ),
                Err(failure) => self.abort(failure),
            },
            Stage::LlvmInstall => match step_outcome(
                event,
                FailureKind::BuildFailed,
                llvm_install(self.layout).label,
            ) {
                Ok(_) => (
                    self.at(Stage::InstallWalk),
                    ActionView::Walk { root: self.layout.llvm_install() },
                ),
                Err(failure) => self.abort(failure),
            },
            Stage::InstallWalk => match entries_or_cause(event) {
                Ok(entries) => MachineView { links: symlinks(entries), ..self }.resolve_from(0),
                Err(cause) => self.fail(
                    FailureKind::FilesystemWalkFailed,
                    walk_failed(self.layout.llvm_install()),
                    cause,
                ),
            },
            Stage::LinkRead => match target_or_cause(event) {
                Ok(target) => if absolute(target) {
                    (
                        MachineView { target, ..self }.at(Stage::LinkMove),
                        ActionView::Rename { from: target, to: self.link() },
                    )
                } else {
                    self.resolve_from(self.cursor + 1)
                },
                Err(cause) => self.fail(
                    FailureKind::FilesystemWalkFailed,
                    read_link_failed(self.link()),
                    cause,
                ),
            },
            _ => match done_or_cause(event) {
                Ok(_) => self.resolve_from(self.cursor + 1),
                Err(cause) => self.fail(
                    FailureKind::FilesystemWalkFailed,
                    move_failed(self.target, self.link()),
                    cause,
                ),
            },
        }
    }

    /// Checkout and build of the linker, then the cargo configuration.
    pub open spec fn setup_linker(self, event: EventView) -> (MachineView, ActionView) {
        match self.stage {
            Stage::LinkerCacheDir => match done_or_cause(event) {
                Ok(_) => (
                    self.at(Stage::LinkerSourceProbe),
                    ActionView::Probe { path: self.layout.linker_source() },
                ),
                Err(cause) => self.fail(
                    FailureKind::CloneFailed,
                    create_dir_failed(self.layout.cache_dir),
                    cause,
                ),
            },
            Stage::LinkerSourceProbe => match found_or_cause(event) {
                Ok(present) => if present {
                    self.build_linker()
                } else {
                    (
                        self.at(Stage::LinkerClone),
                        ActionView::Run { command: linker_clone(self.layout) },
                    )
                },
                Err(cause) => self.fail(
                    FailureKind::CloneFailed,
                    probe_failed(self.layout.linker_source()),
                    cause,
                ),
            },
            Stage::LinkerClone => match step_outcome(
                event,
                FailureKind::CloneFailed,
                linker_clone(self.layout).label,
            ) {
                Ok(_) => self.build_linker(),
                Err(failure) => self.abort(failure),
            },
            Stage::LinkerBuild => match step_outcome(
                event,
                FailureKind::BuildFailed,
                linker_build(self.layout).label,
            ) {
                Ok(_) => (
                    self.at(Stage::ConfigDir),
                    ActionView::CreateDir { path: self.layout.config_dir() },
                ),
                Err(failure) => self.abort(failure),
            },
            Stage::ConfigDir => match done_or_cause(event) {
                Ok(_) => (
                    self.at(Stage::ConfigWrite),
                    ActionView::WriteFile {
                        path: self.layout.config_file(),
                        contents: config_text(self.layout.linker_binary()),
                    },
                ),
                Err(cause) => self.fail(
                    FailureKind::ConfigWriteFailed,
                    create_dir_failed(self.layout.config_dir()),
                    cause,
                ),
            },
            _ => match done_or_cause(event) {
                Ok(_) => self.finish(),
                Err(cause) => self.fail(
                    FailureKind::ConfigWriteFailed,
                    write_failed(self.layout.config_file()),
                    cause,
                ),
            },
        }
    }

    /// The project's own build.
    pub open spec fn build_project(self, event: EventView) -> (MachineView, ActionView) {
        match run_outcome(event, FailureKind::BuildFailed, project_build(self.layout).label) {
            Ok(_) => self.finish(),
            Err(failure) => self.abort(failure),
        }
    }

    /// One transition: the report on the last action in, the next action out.
    /// Once halted, the machine stays as it is and asks for nothing.
    pub open spec fn step(self, event: EventView) -> (MachineView, ActionView) {
        match self.stage {
            Stage::LlvmCacheDir
            | Stage::LlvmSourceProbe
            | Stage::LlvmClone
            | Stage::LlvmMarkerProbe
            | Stage::LlvmBuildDir
            | Stage::LlvmInstallDir => self.setup_llvm(event),
            Stage::LlvmConfigure
            | Stage::LlvmInstall
            | Stage::InstallWalk
            | Stage::LinkRead
            | Stage::LinkMove => self.build_llvm(event),
            Stage::LinkerCacheDir
            | Stage::LinkerSourceProbe
            | Stage::LinkerClone
            | Stage::LinkerBuild
            | Stage::ConfigDir
            | Stage::ConfigWrite => self.setup_linker(event),
            Stage::ProjectBuild => self.build_project(event),
            Stage::Finished | Stage::Failed => (self, ActionView::Stop),
        }
    }
}

/// The state in which an operation begins, and its first action.
pub open spec fn initial(operation: Operation, layout: LayoutView) -> (MachineView, ActionView) {
    let fresh = MachineView {
        operation,
        layout,
        stage: Stage::Finished,
        links: Seq::empty(),
        cursor: 0,
        target: Seq::empty(),
    };
    match operation {
        Operation::Setup | Operation::BuildLlvm => fresh.enter_llvm(),
        Operation::BuildLinker => fresh.enter_linker(),
        Operation::Build => fresh.enter_project(),
    }
}

} // verus!

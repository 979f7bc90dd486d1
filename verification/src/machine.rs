//! The executable bootstrap machine.
//!
//! The caller owns the loop: it carries out the action it was given, reports
//! the outcome with [`Machine::advance`], and goes on until the action is
//! `Finish` or `Abort`.

use crate::command::{
    linker_build_command, linker_clone_command, llvm_clone_command, llvm_configure_command,
    llvm_install_command, project_build_command, Invocation,
};
use crate::config::config_contents;
use crate::failure::{Failure, FailureKind};
use crate::layout::Layout;
use crate::links::collect_links;
use crate::model::{
    create_dir_failed, initial, move_failed, probe_failed, read_link_failed, walk_failed,
    write_failed, ActionView, MachineView, Operation, Stage,
};
use crate::paths::is_absolute;
use crate::replies::{
    expect_done, expect_entries, expect_found, expect_target, run_command, run_step, Event,
};
use vstd::prelude::*;
use vstd::string::*;

verus! {

/// What the caller is to do next.
#[derive(Clone, Debug, PartialEq, Eq)]
pub enum Action {
    /// Create the directory and any missing parent; fine if it exists.
    CreateDir { path: String },
    /// Report whether the path exists.
    Probe { path: String },
    /// Run the process to its end, with the caller's own standard streams.
    Run { command: Invocation },
    /// List everything below the root without following links.
    Walk { root: String },
    /// Read the target stored in the link.
    ReadLink { path: String },
    /// Move `from` to `to`, replacing what is there.
    Rename { from: String, to: String },
    /// Write the file anew with exactly these contents.
    WriteFile { path: String, contents: String },
    /// The operation has succeeded; `ready` asks for the closing banner.
    Finish { ready: bool },
    /// The operation has failed.
    Abort { failure: Failure },
    /// Nothing: the machine had halted before.
    Stop,
}

impl View for Action {
    type V = ActionView;

    open spec fn view(&self) -> ActionView {
        match self {
            Action::CreateDir { path } => ActionView::CreateDir { path: path@ },
            Action::Probe { path } => ActionView::Probe { path: path@ },
            Action::Run { command } => ActionView::Run { command: command@ },
            Action::Walk { root } => ActionView::Walk { root: root@ },
            Action::ReadLink { path } => ActionView::ReadLink { path: path@ },
            Action::Rename { from, to } => ActionView::Rename { from: from@, to: to@ },
            Action::WriteFile { path, contents } => ActionView::WriteFile {
                path: path@,
                contents: contents@,
            },
            Action::Finish { ready } => ActionView::Finish { ready: *ready },
            Action::Abort { failure } => ActionView::Abort { failure: failure@ },
            Action::Stop => ActionView::Stop,
        }
    }
}

/// One run of one operation.
pub struct Machine {
    operation: Operation,
    layout: Layout,
    stage: Stage,
    links: Vec<String>,
    cursor: usize,
    target: String,
}

impl View for Machine {
    type V = MachineView;

    closed spec fn view(&self) -> MachineView {
        MachineView {
            operation: self.operation,
            layout: self.layout@,
            stage: self.stage,
            links: self.links.deep_view(),
            cursor: self.cursor as nat,
            target: self.target@,
        }
    }
}

impl Machine {
    /// Begins an operation: the machine, and the first thing to do.
    pub fn start(operation: Operation, layout: Layout) -> (begun: (Machine, Action))
        ensures
            (begun.0@, begun.1@) == initial(operation, layout@),
            begun.0@.wf(),
    {
        let links: Vec<String> = Vec::new();
        assert(links.deep_view() =~= Seq::<Seq<char>>::empty());
        let mut machine = Machine {
            operation,
            layout,
            stage: Stage::Finished,
            links,
            cursor: 0,
            target: String::new(),
        };
        let action = match operation {
            Operation::Setup | Operation::BuildLlvm => machine.enter_llvm(),
            Operation::BuildLinker => machine.enter_linker(),
            Operation::Build => machine.enter_project(),
        };
        (machine, action)
    }

    pub fn operation(&self) -> (operation: Operation)
        ensures
            operation == self@.operation,
    {
        self.operation
    }

    pub fn stage(&self) -> (stage: Stage)
        ensures
            stage == self@.stage,
    {
        self.stage
    }

    /// Whether the operation has ended, in success or in failure.
    pub fn halted(&self) -> (yes: bool)
        ensures
            yes == self@.halted(),
    {
        match self.stage {
            Stage::Finished | Stage::Failed => true,
            _ => false,
        }
    }

    /// Whether the machine is in a state that `start` and `advance` can
    /// leave it in: while a link is being resolved, there is such a link.
    pub fn well_formed(&self) -> (yes: bool)
        ensures
            yes == self@.wf(),
    {
        match self.stage {
            Stage::LinkRead | Stage::LinkMove => self.cursor < self.links.len(),
            _ => true,
        }
    }

    /// Takes the report on the action that was handed out last and says
    /// what to do next.
    pub fn advance(&mut self, event: Event) -> (action: Action)
        requires
            old(self)@.wf(),
        ensures
            (final(self)@, action@) == old(self)@.step(event@),
            final(self)@.wf(),
    {
        match self.stage {
            Stage::LlvmCacheDir
            | Stage::LlvmSourceProbe
            | Stage::LlvmClone
            | Stage::LlvmMarkerProbe
            | Stage::LlvmBuildDir
            | Stage::LlvmInstallDir => self.setup_llvm(event),
            Stage::LlvmConfigure
            | Stage::LlvmInstall
            | Stage::InstallWalk
            | Stage::LinkRead
            | Stage::LinkMove => self.build_llvm(event),
            Stage::LinkerCacheDir
            | Stage::LinkerSourceProbe
            | Stage::LinkerClone
            | Stage::LinkerBuild
            | Stage::ConfigDir
            | Stage::ConfigWrite => self.setup_linker(event),
            Stage::ProjectBuild => self.build_project(event),
            Stage::Finished | Stage::Failed => Action::Stop,
        }
    }

    fn abort(&mut self, failure: Failure) -> (action: Action)
        ensures
            (final(self)@, action@) == old(self)@.abort(failure@),
            final(self)@.wf(),
    {
        self.stage = Stage::Failed;
        Action::Abort { failure }
    }

    fn fail(&mut self, kind: FailureKind, description: String, cause: String) -> (action: Action)
        ensures
            (final(self)@, action@) == old(self)@.fail(kind, description@, cause@),
            final(self)@.wf(),
    {
        self.abort(Failure::new(kind, description, cause))
    }

    fn finish(&mut self) -> (action: Action)
        ensures
            (final(self)@, action@) == old(self)@.finish(),
            final(self)@.wf(),
    {
        self.stage = Stage::Finished;
        Action::Finish { ready: matches!(self.operation, Operation::Setup) }
    }

    fn enter_llvm(&mut self) -> (action: Action)
        ensures
            (final(self)@, action@) == old(self)@.enter_llvm(),
            final(self)@.wf(),
    {
        self.stage = Stage::LlvmCacheDir;
        Action::CreateDir { path: self.layout.cache_dir() }
    }

    fn enter_linker(&mut self) -> (action: Action)
        ensures
            (final(self)@, action@) == old(self)@.enter_linker(),
            final(self)@.wf(),
    {
        self.stage = Stage::LinkerCacheDir;
        Action::CreateDir { path: self.layout.cache_dir() }
    }

    fn enter_project(&mut self) -> (action: Action)
        ensures
            (final(self)@, action@) == old(self)@.enter_project(),
            final(self)@.wf(),
    {
        self.stage = Stage::ProjectBuild;
        Action::Run { command: project_build_command(&self.layout) }
    }

    fn leave_llvm(&mut self) -> (action: Action)
        ensures
            (final(self)@, action@) == old(self)@.leave_llvm(),
            final(self)@.wf(),
    {
        match self.operation {
            Operation::Setup => self.enter_linker(),
            _ => self.finish(),
        }
    }

    fn probe_marker(&mut self) -> (action: Action)
        ensures
            (final(self)@, action@) == old(self)@.probe_marker(),
            final(self)@.wf(),
    {
        self.stage = Stage::LlvmMarkerProbe;
        Action::Probe { path: self.layout.llvm_marker() }
    }

    fn build_linker(&mut self) -> (action: Action)
        ensures
            (final(self)@, action@) == old(self)@.build_linker(),
            final(self)@.wf(),
    {
        self.stage = Stage::LinkerBuild;
        Action::Run { command: linker_build_command(&self.layout) }
    }

    fn resolve_from(&mut self, cursor: usize) -> (action: Action)
        ensures
            (final(self)@, action@) == old(self)@.resolve_from(cursor as nat),
            final(self)@.wf(),
    {
        self.cursor = cursor;
        if cursor < self.links.len() {
            self.stage = Stage::LinkRead;
            Action::ReadLink { path: self.links[cursor].clone() }
        } else {
            self.leave_llvm()
        }
    }

    fn setup_llvm(&mut self, event: Event) -> (action: Action)
        ensures
            (final(self)@, action@) == old(self)@.setup_llvm(event@),
            final(self)@.wf(),
    {
        match self.stage {
            Stage::LlvmCacheDir => match expect_done(event) {
                Ok(_) => {
                    self.stage = Stage::LlvmSourceProbe;
                    Action::Probe { path: self.layout.llvm_source() }
                },
                Err(cause) => {
                    let path = self.layout.cache_dir();
                    self.fail(FailureKind::CloneFailed, create_dir_failure(path.as_str()), cause)
                },
            },
            Stage::LlvmSourceProbe => match expect_found(event) {
                Ok(present) => {
                    if present {
                        self.probe_marker()
                    } else {
                        self.stage = Stage::LlvmClone;
                        Action::Run { command: llvm_clone_command(&self.layout) }
                    }
                },
                Err(cause) => {
                    let path = self.layout.llvm_source();
                    self.fail(FailureKind::CloneFailed, probe_failure(path.as_str()), cause)
                },
            },
            Stage::LlvmClone => match run_step(
                event,
                FailureKind::CloneFailed,
                "clone llvm-project",
            ) {
                Ok(_) => self.probe_marker(),
                Err(failure) => self.abort(failure),
            },
            Stage::LlvmMarkerProbe => match expect_found(event) {
                Ok(present) => {
                    if present {
                        self.leave_llvm()
                    } else {
                        self.stage = Stage::LlvmBuildDir;
                        Action::CreateDir { path: self.layout.llvm_build() }
                    }
                },
                Err(cause) => {
                    let path = self.layout.llvm_marker();
                    self.fail(FailureKind::ConfigureFailed, probe_failure(path.as_str()), cause)
                },
            },
            Stage::LlvmBuildDir => match expect_done(event) {
                Ok(_) => {
                    self.stage = Stage::LlvmInstallDir;
                    Action::CreateDir { path: self.layout.llvm_install() }
                },
                Err(cause) => {
                    let path = self.layout.llvm_build();
                    self.fail(
                        FailureKind::ConfigureFailed,
                        create_dir_failure(path.as_str()),
                        cause,
                    )
                },
            },
            _ => match expect_done(event) {
                Ok(_) => {
                    self.stage = Stage::LlvmConfigure;
                    Action::Run { command: llvm_configure_command(&self.layout) }
                },
                Err(cause) => {
                    let path = self.layout.llvm_install();
                    self.fail(
                        FailureKind::ConfigureFailed,
                        create_dir_failure(path.as_str()),
                        cause,
                    )
                },
            },
        }
    }

    fn build_llvm(&mut self, event: Event) -> (action: Action)
        requires
            old(self)@.wf(),
            old(self)@.stage == Stage::LlvmConfigure || old(self)@.stage == Stage::LlvmInstall
                || old(self)@.stage == Stage::InstallWalk || old(self)@.stage == Stage::LinkRead
                || old(self)@.stage == Stage::LinkMove,
        ensures
            (final(self)@, action@) == old(self)@.build_llvm(event@),
            final(self)@.wf(),
    {
        match self.stage {
            Stage::LlvmConfigure => match run_step(
                event,
                FailureKind::ConfigureFailed,
                "configure LLVM build",
            ) {
                Ok(_) => {
                    self.stage = Stage::LlvmInstall;
                    Action::Run { command: llvm_install_command(&self.layout) }
                },
                Err(failure) => self.abort(failure),
            },
            Stage::LlvmInstall => match run_step(event, FailureKind::BuildFailed, "build LLVM") {
                Ok(_) => {
                    self.stage = Stage::InstallWalk;
                    Action::Walk { root: self.layout.llvm_install() }
                },
                Err(failure) => self.abort(failure),
            },
            Stage::InstallWalk => match expect_entries(event) {
                Ok(entries) => {
                    self.links = collect_links(&entries);
                    self.resolve_from(0)
                },
                Err(cause) => {
                    let root = self.layout.llvm_install();
                    self.fail(FailureKind::FilesystemWalkFailed, walk_failure(root.as_str()), cause)
                },
            },
            Stage::LinkRead => match expect_target(event) {
                Ok(target) => {
                    if is_absolute(target.as_str()) {
                        self.target = target.clone();
                        self.stage = Stage::LinkMove;
                        Action::Rename { from: target, to: self.links[self.cursor].clone() }
                    } else {
                        assert(self.cursor < self.links.len());
                        self.resolve_from(self.cursor + 1)
                    }
                },
                Err(cause) => {
                    let description = read_link_failure(self.links[self.cursor].as_str());
                    self.fail(FailureKind::FilesystemWalkFailed, description, cause)
                },
            },
            _ => match expect_done(event) {
                Ok(_) => {
                    assert(self.cursor < self.links.len());
                    self.resolve_from(self.cursor + 1)
                },
                Err(cause) => {
                    let description = move_failure(
                        self.target.as_str(),
                        self.links[self.cursor].as_str(),
                    );
                    self.fail(FailureKind::FilesystemWalkFailed, description, cause)
                },
            },
        }
    }

    fn setup_linker(&mut self, event: Event) -> (action: Action)
        ensures
            (final(self)@, action@) == old(self)@.setup_linker(event@),
            final(self)@.wf(),
    {
        match self.stage {
            Stage::LinkerCacheDir => match expect_done(event) {
                Ok(_) => {
                    self.stage = Stage::LinkerSourceProbe;
                    Action::Probe { path: self.layout.linker_source() }
                },
                Err(cause) => {
                    let path = self.layout.cache_dir();
                    self.fail(FailureKind::CloneFailed, create_dir_failure(path.as_str()), cause)
                },
            },
            Stage::LinkerSourceProbe => match expect_found(event) {
                Ok(present) => {
                    if present {
                        self.build_linker()
                    } else {
                        self.stage = Stage::LinkerClone;
                        Action::Run { command: linker_clone_command(&self.layout) }
                    }
                },
                Err(cause) => {
                    let path = self.layout.linker_source();
                    self.fail(FailureKind::CloneFailed, probe_failure(path.as_str()), cause)
                },
            },
            Stage::LinkerClone => match run_step(
                event,
                FailureKind::CloneFailed,
                "clone sbpf-linker",
            ) {
                Ok(_) => self.build_linker(),
                Err(failure) => self.abort(failure),
            },
            Stage::LinkerBuild => match run_step(
                event,
                FailureKind::BuildFailed,
                "build sbpf-linker",
            ) {
                Ok(_) => {
                    self.stage = Stage::ConfigDir;
                    Action::CreateDir { path: self.layout.config_dir() }
                },
                Err(failure) => self.abort(failure),
            },
            Stage::ConfigDir => match expect_done(event) {
                Ok(_) => {
                    self.stage = Stage::ConfigWrite;
                    let linker = self.layout.linker_binary();
                    Action::WriteFile {
                        path: self.layout.config_file(),
                        contents: config_contents(linker.as_str()),
                    }
                },
                Err(cause) => {
                    let path = self.layout.config_dir();
                    self.fail(
                        FailureKind::ConfigWriteFailed,
                        create_dir_failure(path.as_str()),
                        cause,
                    )
                },
            },
            _ => match expect_done(event) {
                Ok(_) => self.finish(),
                Err(cause) => {
                    let path = self.layout.config_file();
                    self.fail(FailureKind::ConfigWriteFailed, write_failure(path.as_str()), cause)
                },
            },
        }
    }

    fn build_project(&mut self, event: Event) -> (action: Action)
        ensures
            (final(self)@, action@) == old(self)@.build_project(event@),
            final(self)@.wf(),
    {
        match run_command(event, FailureKind::BuildFailed, "build project") {
            Ok(_) => self.finish(),
            Err(failure) => self.abort(failure),
        }
    }
}

fn create_dir_failure(path: &str) -> (text: String)
    ensures
        text@ == create_dir_failed(path@),
{
    String::from_str("failed to create directory ").concat(path)
}

fn probe_failure(path: &str) -> (text: String)
    ensures
        text@ == probe_failed(path@),
{
    String::from_str("failed to inspect ").concat(path)
}

fn walk_failure(root: &str) -> (text: String)
    ensures
        text@ == walk_failed(root@),
{
    String::from_str("failed to read filesystem entry while traversing install prefix ").concat(
        root,
    )
}

fn read_link_failure(link: &str) -> (text: String)
    ensures
        text@ == read_link_failed(link@),
{
    String::from_str("failed to read the link ").concat(link)
}

fn move_failure(target: &str, link: &str) -> (text: String)
    ensures
        text@ == move_failed(target@, link@),
{
    String::from_str("failed to move the target file ").concat(target).concat(
        " to the location of the symlink ",
    ).concat(link)
}

fn write_failure(path: &str) -> (text: String)
    ensures
        text@ == write_failed(path@),
{
    String::from_str("failed to write ").concat(path)
}

} // verus!

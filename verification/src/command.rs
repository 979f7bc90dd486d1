//! The command lines that the bootstrap hands to external tools.

use crate::layout::{Layout, LayoutView};
use vstd::prelude::*;
use vstd::string::*;

verus! {

/// One external process: what to start, with which arguments, and where.
#[derive(Clone, Debug, PartialEq, Eq)]
pub struct Invocation {
    pub program: String,
    pub args: Vec<String>,
    /// Variables set for the process on top of the inherited environment.
    pub envs: Vec<(String, String)>,
    /// Working directory; the caller's own where `None`.
    pub dir: Option<String>,
    /// Short name of the action, used in failure reports.
    pub label: String,
}

pub struct InvocationView {
    pub program: Seq<char>,
    pub args: Seq<Seq<char>>,
    pub envs: Seq<(Seq<char>, Seq<char>)>,
    pub dir: Option<Seq<char>>,
    pub label: Seq<char>,
}

impl View for Invocation {
    type V = InvocationView;

    open spec fn view(&self) -> InvocationView {
        InvocationView {
            program: self.program@,
            args: self.args.deep_view(),
            envs: self.envs.deep_view(),
            dir: self.dir.deep_view(),
            label: self.label@,
        }
    }
}

/// Repository and branch of the patched LLVM.
pub open spec fn llvm_repo() -> Seq<char> {
    "https://github.com/blueshift-gg/llvm-project.git"@
}

pub open spec fn llvm_branch() -> Seq<char> {
    "BPF_i128_ret"@
}

/// Repository and branch of the linker.
pub open spec fn linker_repo() -> Seq<char> {
    "https://github.com/blueshift-gg/sbpf-linker"@
}

pub open spec fn linker_branch() -> Seq<char> {
    "u128_mul_libcall"@
}

/// `git clone --branch <branch> <url> <dest>`.
pub open spec fn clone_invocation(
    url: Seq<char>,
    branch: Seq<char>,
    dest: Seq<char>,
    label: Seq<char>,
) -> InvocationView {
    InvocationView {
        program: "git"@,
        args: seq!["clone"@, "--branch"@, branch, url, dest],
        envs: seq![],
        dir: None,
        label,
    }
}

pub open spec fn llvm_clone(layout: LayoutView) -> InvocationView {
    clone_invocation(llvm_repo(), llvm_branch(), layout.llvm_source(), "clone llvm-project"@)
}

pub open spec fn linker_clone(layout: LayoutView) -> InvocationView {
    clone_invocation(linker_repo(), linker_branch(), layout.linker_source(), "clone sbpf-linker"@)
}

/// The options that every LLVM configuration gets: Ninja, a release build
/// with assertions, LLVM as one shared library that its tools link against,
/// no sub-projects or runtimes, the utilities installed, the BPF backend only,
/// and the install prefix.
pub open spec fn configure_base_args(layout: LayoutView) -> Seq<Seq<char>> {
    seq![
        "-S"@,
        layout.llvm_cmake_root(),
        "-B"@,
        layout.llvm_build(),
        "-G"@,
        "Ninja"@,
        "-DCMAKE_BUILD_TYPE=Release"@,
        "-DLLVM_BUILD_LLVM_DYLIB=ON"@,
        "-DLLVM_ENABLE_ASSERTIONS=ON"@,
        "-DLLVM_ENABLE_PROJECTS="@,
        "-DLLVM_ENABLE_RUNTIMES="@,
        "-DLLVM_INSTALL_UTILS=ON"@,
        "-DLLVM_LINK_LLVM_DYLIB=ON"@,
        "-DLLVM_TARGETS_TO_BUILD=BPF"@,
        "-DCMAKE_INSTALL_PREFIX="@ + layout.llvm_install(),
    ]
}

/// On a Linux host the compiler is pinned to clang.
pub open spec fn configure_host_args(layout: LayoutView) -> Seq<Seq<char>> {
    if layout.linux_host {
        seq!["-DCMAKE_C_COMPILER=clang"@, "-DCMAKE_CXX_COMPILER=clang++"@]
    } else {
        seq![]
    }
}

pub open spec fn llvm_configure(layout: LayoutView) -> InvocationView {
    InvocationView {
        program: "cmake"@,
        args: configure_base_args(layout) + configure_host_args(layout),
        envs: seq![],
        dir: None,
        label: "configure LLVM build"@,
    }
}

/// Build and install in one go; installed files are absolute symlinks into
/// the build tree.
pub open spec fn llvm_install(layout: LayoutView) -> InvocationView {
    InvocationView {
        program: "cmake"@,
        args: seq!["--build"@, layout.llvm_build(), "--target"@, "install"@],
        envs: seq![("CMAKE_INSTALL_MODE"@, "ABS_SYMLINK"@)],
        dir: None,
        label: "build LLVM"@,
    }
}

/// A release build of the linker against the LLVM installed in the cache.
pub open spec fn linker_build(layout: LayoutView) -> InvocationView {
    InvocationView {
        program: "cargo"@,
        args: seq!["build"@, "--release"@],
        envs: seq![("LLVM_PREFIX"@, layout.llvm_install())],
        dir: Some(layout.linker_source()),
        label: "build sbpf-linker"@,
    }
}

/// The project's own release build, through the generated alias.
pub open spec fn project_build(layout: LayoutView) -> InvocationView {
    InvocationView {
        program: "cargo"@,
        args: seq!["+nightly"@, "build-bpf"@],
        envs: seq![],
        dir: Some(layout.project_root),
        label: "build project"@,
    }
}

fn push_text(list: &mut Vec<String>, text: &str)
    ensures
        final(list).deep_view() == old(list).deep_view().push(text@),
{
    list.push(String::from_str(text));
    assert(final(list).deep_view() =~= old(list).deep_view().push(text@));
}

fn push_owned(list: &mut Vec<String>, text: String)
    ensures
        final(list).deep_view() == old(list).deep_view().push(text@),
{
    list.push(text);
    assert(final(list).deep_view() =~= old(list).deep_view().push(text@));
}

fn no_args() -> (list: Vec<String>)
    ensures
        list.deep_view() == Seq::<Seq<char>>::empty(),
{
    let list: Vec<String> = Vec::new();
    assert(list.deep_view() =~= Seq::<Seq<char>>::empty());
    list
}

fn no_envs() -> (list: Vec<(String, String)>)
    ensures
        list.deep_view() == Seq::<(Seq<char>, Seq<char>)>::empty(),
{
    let list: Vec<(String, String)> = Vec::new();
    assert(list.deep_view() =~= Seq::<(Seq<char>, Seq<char>)>::empty());
    list
}

fn one_env(name: &str, value: String) -> (list: Vec<(String, String)>)
    ensures
        list.deep_view() == seq![(name@, value@)],
{
    let mut list: Vec<(String, String)> = Vec::new();
    list.push((String::from_str(name), value));
    assert(list.deep_view() =~= seq![(name@, value@)]);
    list
}

pub fn clone_command(url: &str, branch: &str, dest: String, label: &str) -> (command: Invocation)
    ensures
        command@ == clone_invocation(url@, branch@, dest@, label@),
{
    let mut args = no_args();
    push_text(&mut args, "clone");
    push_text(&mut args, "--branch");
    push_text(&mut args, branch);
    push_text(&mut args, url);
    push_owned(&mut args, dest);
    assert(args.deep_view() =~= seq!["clone"@, "--branch"@, branch@, url@, dest@]);
    Invocation {
        program: String::from_str("git"),
        args,
        envs: no_envs(),
        dir: None,
        label: String::from_str(label),
    }
}

pub fn llvm_clone_command(layout: &Layout) -> (command: Invocation)
    ensures
        command@ == llvm_clone(layout@),
{
    clone_command(
        "https://github.com/blueshift-gg/llvm-project.git",
        "BPF_i128_ret",
        layout.llvm_source(),
        "clone llvm-project",
    )
}

pub fn linker_clone_command(layout: &Layout) -> (command: Invocation)
    ensures
        command@ == linker_clone(layout@),
{
    clone_command(
        "https://github.com/blueshift-gg/sbpf-linker",
        "u128_mul_libcall",
        layout.linker_source(),
        "clone sbpf-linker",
    )
}

pub fn llvm_configure_command(layout: &Layout) -> (command: Invocation)
    ensures
        command@ == llvm_configure(layout@),
{
    let mut args = no_args();
    push_text(&mut args, "-S");
    push_owned(&mut args, layout.llvm_cmake_root());
    push_text(&mut args, "-B");
    push_owned(&mut args, layout.llvm_build());
    push_text(&mut args, "-G");
    push_text(&mut args, "Ninja");
    push_text(&mut args, "-DCMAKE_BUILD_TYPE=Release");
    push_text(&mut args, "-DLLVM_BUILD_LLVM_DYLIB=ON");
    push_text(&mut args, "-DLLVM_ENABLE_ASSERTIONS=ON");
    push_text(&mut args, "-DLLVM_ENABLE_PROJECTS=");
    push_text(&mut args, "-DLLVM_ENABLE_RUNTIMES=");
    push_text(&mut args, "-DLLVM_INSTALL_UTILS=ON");
    push_text(&mut args, "-DLLVM_LINK_LLVM_DYLIB=ON");
    push_text(&mut args, "-DLLVM_TARGETS_TO_BUILD=BPF");
    let install = layout.llvm_install();
    push_owned(&mut args, String::from_str("-DCMAKE_INSTALL_PREFIX=").concat(install.as_str()));
    assert(args.deep_view() =~= configure_base_args(layout@));
    if layout.linux_host {
        push_text(&mut args, "-DCMAKE_C_COMPILER=clang");
        push_text(&mut args, "-DCMAKE_CXX_COMPILER=clang++");
    }
    assert(args.deep_view() =~= configure_base_args(layout@) + configure_host_args(layout@));
    Invocation {
        program: String::from_str("cmake"),
        args,
        envs: no_envs(),
        dir: None,
        label: String::from_str("configure LLVM build"),
    }
}

pub fn llvm_install_command(layout: &Layout) -> (command: Invocation)
    ensures
        command@ == llvm_install(layout@),
{
    let mut args = no_args();
    push_text(&mut args, "--build");
    push_owned(&mut args, layout.llvm_build());
    push_text(&mut args, "--target");
    push_text(&mut args, "install");
    assert(args.deep_view() =~= seq![
        "--build"@,
        layout@.llvm_build(),
        "--target"@,
        "install"@,
    ]);
    Invocation {
        program: String::from_str("cmake"),
        args,
        envs: one_env("CMAKE_INSTALL_MODE", String::from_str("ABS_SYMLINK")),
        dir: None,
        label: String::from_str("build LLVM"),
    }
}

pub fn linker_build_command(layout: &Layout) -> (command: Invocation)
    ensures
        command@ == linker_build(layout@),
{
    let mut args = no_args();
    push_text(&mut args, "build");
    push_text(&mut args, "--release");
    assert(args.deep_view() =~= seq!["build"@, "--release"@]);
    Invocation {
        program: String::from_str("cargo"),
        args,
        envs: one_env("LLVM_PREFIX", layout.llvm_install()),
        dir: Some(layout.linker_source()),
        label: String::from_str("build sbpf-linker"),
    }
}

pub fn project_build_command(layout: &Layout) -> (command: Invocation)
    ensures
        command@ == project_build(layout@),
{
    let mut args = no_args();
    push_text(&mut args, "+nightly");
    push_text(&mut args, "build-bpf");
    assert(args.deep_view() =~= seq!["+nightly"@, "build-bpf"@]);
    Invocation {
        program: String::from_str("cargo"),
        args,
        envs: no_envs(),
        dir: Some(layout.project_root.clone()),
        label: String::from_str("build project"),
    }
}

} // verus!

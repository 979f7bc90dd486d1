//! Where the toolchain's sources, build trees and products live.

use crate::paths::{join, joined};
use vstd::prelude::*;

verus! {

/// The directories a bootstrap works in, handed in by the caller rather than
/// looked up behind its back.
pub struct Layout {
    /// Root of everything cloned and built; lies outside the project.
    pub cache_dir: String,
    /// Root of the project whose cargo configuration is generated.
    pub project_root: String,
    /// Whether the build host runs Linux, where LLVM is compiled with clang.
    pub linux_host: bool,
}

pub struct LayoutView {
    pub cache_dir: Seq<char>,
    pub project_root: Seq<char>,
    pub linux_host: bool,
}

impl LayoutView {
    /// Checkout of the LLVM sources.
    pub open spec fn llvm_source(self) -> Seq<char> {
        joined(self.cache_dir, "llvm-project"@)
    }

    /// The `llvm` directory inside the checkout, which cmake configures.
    pub open spec fn llvm_cmake_root(self) -> Seq<char> {
        joined(self.llvm_source(), "llvm"@)
    }

    pub open spec fn llvm_build(self) -> Seq<char> {
        joined(self.cache_dir, "llvm-build"@)
    }

    /// Install prefix of LLVM.
    pub open spec fn llvm_install(self) -> Seq<char> {
        joined(self.cache_dir, "llvm-install"@)
    }

    /// The installed binary whose presence means that LLVM has been built.
    pub open spec fn llvm_marker(self) -> Seq<char> {
        joined(self.llvm_install(), "bin/llvm-config"@)
    }

    /// Checkout of the linker.
    pub open spec fn linker_source(self) -> Seq<char> {
        joined(self.cache_dir, "sbpf-linker"@)
    }

    /// The linker executable that a release build leaves behind.
    pub open spec fn linker_binary(self) -> Seq<char> {
        joined(self.linker_source(), "target/release/sbpf-linker"@)
    }

    pub open spec fn config_dir(self) -> Seq<char> {
        joined(self.project_root, ".cargo"@)
    }

    pub open spec fn config_file(self) -> Seq<char> {
        joined(self.config_dir(), "config.toml"@)
    }
}

impl View for Layout {
    type V = LayoutView;

    open spec fn view(&self) -> LayoutView {
        LayoutView {
            cache_dir: self.cache_dir@,
            project_root: self.project_root@,
            linux_host: self.linux_host,
        }
    }
}

impl Layout {
    pub fn new(cache_dir: String, project_root: String, linux_host: bool) -> (layout: Layout)
        ensures
            layout@ == (LayoutView {
                cache_dir: cache_dir@,
                project_root: project_root@,
                linux_host,
            }),
    {
        Layout { cache_dir, project_root, linux_host }
    }

    pub fn cache_dir(&self) -> (path: String)
        ensures
            path@ == self@.cache_dir,
    {
        self.cache_dir.clone()
    }

    pub fn llvm_source(&self) -> (path: String)
        ensures
            path@ == self@.llvm_source(),
    {
        join(self.cache_dir.as_str(), "llvm-project")
    }

    pub fn llvm_cmake_root(&self) -> (path: String)
        ensures
            path@ == self@.llvm_cmake_root(),
    {
        let source = self.llvm_source();
        join(source.as_str(), "llvm")
    }

    pub fn llvm_build(&self) -> (path: String)
        ensures
            path@ == self@.llvm_build(),
    {
        join(self.cache_dir.as_str(), "llvm-build")
    }

    pub fn llvm_install(&self) -> (path: String)
        ensures
            path@ == self@.llvm_install(),
    {
        join(self.cache_dir.as_str(), "llvm-install")
    }

    pub fn llvm_marker(&self) -> (path: String)
        ensures
            path@ == self@.llvm_marker(),
    {
        let install = self.llvm_install();
        join(install.as_str(), "bin/llvm-config")
    }

    pub fn linker_source(&self) -> (path: String)
        ensures
            path@ == self@.linker_source(),
    {
        join(self.cache_dir.as_str(), "sbpf-linker")
    }

    pub fn linker_binary(&self) -> (path: String)
        ensures
            path@ == self@.linker_binary(),
    {
        let source = self.linker_source();
        join(source.as_str(), "target/release/sbpf-linker")
    }

    pub fn config_dir(&self) -> (path: String)
        ensures
            path@ == self@.config_dir(),
    {
        join(self.project_root.as_str(), ".cargo")
    }

    pub fn config_file(&self) -> (path: String)
        ensures
            path@ == self@.config_file(),
    {
        let dir = self.config_dir();
        join(dir.as_str(), "config.toml")
    }
}

} // verus!

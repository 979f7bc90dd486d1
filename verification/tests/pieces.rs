use toolchain_bootstrap::cache::{cache_dir, cache_dir_for, cache_dir_in, PlatformCache};
use toolchain_bootstrap::command::{
    clone_command, linker_build_command, linker_clone_command, llvm_clone_command,
    llvm_configure_command, llvm_install_command, project_build_command,
};
use toolchain_bootstrap::config::config_contents;
use toolchain_bootstrap::failure::{Failure, FailureKind};
use toolchain_bootstrap::layout::Layout;
use toolchain_bootstrap::links::{collect_links, WalkEntry};
use toolchain_bootstrap::paths::{is_absolute, join, project_root};
use toolchain_bootstrap::replies::{
    expect_done, expect_entries, expect_found, expect_target, run_command, run_step, Event,
};

fn texts(list: &[&str]) -> Vec<String> {
    list.iter().map(|s| s.to_string()).collect()
}

fn layout(linux_host: bool) -> Layout {
    Layout::new(String::from("/home/u/.cache/u128-bpf-toolchain"), String::from("/src/app"), linux_host)
}

#[test]
fn config_matches_the_template() {
    let expected = "[unstable]
build-std = [\"core\", \"alloc\"]

[target.bpfel-unknown-none]
rustflags = [
    \"-C\", \"linker=/cache/sbpf-linker/target/release/sbpf-linker\",
    \"-C\", \"panic=abort\",
    \"-C\", \"link-arg=--dump-module=llvm_dump\",
    \"-C\", \"link-arg=--llvm-args=-bpf-stack-size=4096\",
    \"-C\", \"relocation-model=static\",
]

[alias]
build-bpf = \"build --release --target bpfel-unknown-none\"
xtask = \"run --package xtask --\"
";
    assert_eq!(config_contents("/cache/sbpf-linker/target/release/sbpf-linker"), expected);
}

#[test]
fn config_is_the_same_for_the_same_linker() {
    assert_eq!(config_contents("/a/linker"), config_contents("/a/linker"));
    assert_ne!(config_contents("/a/linker"), config_contents("/b/linker"));
}

#[test]
fn config_with_empty_linker_keeps_the_frame() {
    let text = config_contents("");
    assert!(text.starts_with("[unstable]\nbuild-std = [\"core\", \"alloc\"]\n\n"));
    assert!(text.contains("    \"-C\", \"linker=\",\n    \"-C\", \"panic=abort\",\n"));
    assert!(text.ends_with("xtask = \"run --package xtask --\"\n"));
}

#[test]
fn join_puts_one_separator_between() {
    assert_eq!(join("/a", "b"), "/a/b");
    assert_eq!(join("/a/", "b"), "/a/b");
    assert_eq!(join("/", "b"), "/b");
    assert_eq!(join("", "b"), "b");
    assert_eq!(join("a", "b/c"), "a/b/c");
    assert_eq!(join("/a", ""), "/a/");
}

#[test]
fn join_with_absolute_name_gives_the_name() {
    assert_eq!(join("/a", "/b"), "/b");
    assert_eq!(join("", "/"), "/");
}

#[test]
fn join_agrees_with_the_standard_library() {
    for (base, name) in [("/a", "b"), ("/a/", "b"), ("", "b"), ("/a", "/b"), ("a/b", "c/d"), ("/", "x"), ("/a", "")] {
        let expected = std::path::Path::new(base).join(name);
        assert_eq!(join(base, name), expected.to_str().unwrap());
    }
}

#[test]
fn absolute_paths_start_at_the_root() {
    assert!(is_absolute("/"));
    assert!(is_absolute("/usr/lib"));
    assert!(!is_absolute(""));
    assert!(!is_absolute("usr/lib"));
    assert!(!is_absolute("../lib"));
    assert!(!is_absolute("./lib"));
}

#[test]
fn project_root_leaves_the_xtask_directory() {
    assert_eq!(project_root("/work/project/xtask"), "/work/project");
    assert_eq!(project_root("/work/project"), "/work/project");
    assert_eq!(project_root("/xtask"), "/");
    assert_eq!(project_root("xtask"), "");
    assert_eq!(project_root("/work/myxtask"), "/work/myxtask");
    assert_eq!(project_root("/work/xtask/sub"), "/work/xtask/sub");
    assert_eq!(project_root(""), "");
    assert_eq!(project_root("a/xtask"), "a");
}

#[test]
fn layout_places_everything_below_its_roots() {
    let l = layout(true);
    assert_eq!(l.cache_dir(), "/home/u/.cache/u128-bpf-toolchain");
    assert_eq!(l.llvm_source(), "/home/u/.cache/u128-bpf-toolchain/llvm-project");
    assert_eq!(l.llvm_cmake_root(), "/home/u/.cache/u128-bpf-toolchain/llvm-project/llvm");
    assert_eq!(l.llvm_build(), "/home/u/.cache/u128-bpf-toolchain/llvm-build");
    assert_eq!(l.llvm_install(), "/home/u/.cache/u128-bpf-toolchain/llvm-install");
    assert_eq!(l.llvm_marker(), "/home/u/.cache/u128-bpf-toolchain/llvm-install/bin/llvm-config");
    assert_eq!(l.linker_source(), "/home/u/.cache/u128-bpf-toolchain/sbpf-linker");
    assert_eq!(
        l.linker_binary(),
        "/home/u/.cache/u128-bpf-toolchain/sbpf-linker/target/release/sbpf-linker"
    );
    assert_eq!(l.config_dir(), "/src/app/.cargo");
    assert_eq!(l.config_file(), "/src/app/.cargo/config.toml");
}

#[test]
fn cache_dir_prefers_the_platform_directory() {
    assert_eq!(cache_dir_in(Some(String::from("/home/u/.cache"))), "/home/u/.cache/u128-bpf-toolchain");
    assert_eq!(cache_dir_in(Some(String::from("/Users/u/Library/Caches/"))), "/Users/u/Library/Caches/u128-bpf-toolchain");
}

#[test]
fn cache_dir_falls_back_to_tmp() {
    assert_eq!(cache_dir_in(None), "/tmp/u128-bpf-toolchain");
}

#[test]
fn cache_dir_for_each_answer_of_the_platform() {
    assert_eq!(cache_dir_for(PlatformCache::Absent), Some(String::from("/tmp/u128-bpf-toolchain")));
    assert_eq!(
        cache_dir_for(PlatformCache::Named { path: String::from("/home/u/.cache") }),
        Some(String::from("/home/u/.cache/u128-bpf-toolchain"))
    );
    assert_eq!(cache_dir_for(PlatformCache::NotText), None);
}

#[test]
fn cache_dir_on_this_machine_ends_in_the_toolchain_directory() {
    let dir = cache_dir();
    if let Some(dir) = &dir {
        assert!(dir.ends_with("u128-bpf-toolchain"));
    }
    assert_eq!(dir, cache_dir());
}

#[test]
fn clone_command_names_branch_url_and_destination() {
    let c = clone_command("https://example.org/r.git", "main", String::from("/dest"), "clone r");
    assert_eq!(c.program, "git");
    assert_eq!(c.args, texts(&["clone", "--branch", "main", "https://example.org/r.git", "/dest"]));
    assert!(c.envs.is_empty());
    assert_eq!(c.dir, None);
    assert_eq!(c.label, "clone r");
}

#[test]
fn llvm_clone_uses_the_patched_branch() {
    let c = llvm_clone_command(&layout(true));
    assert_eq!(
        c.args,
        texts(&[
            "clone",
            "--branch",
            "BPF_i128_ret",
            "https://github.com/blueshift-gg/llvm-project.git",
            "/home/u/.cache/u128-bpf-toolchain/llvm-project",
        ])
    );
    assert_eq!(c.label, "clone llvm-project");
}

#[test]
fn linker_clone_uses_the_libcall_branch() {
    let c = linker_clone_command(&layout(true));
    assert_eq!(
        c.args,
        texts(&[
            "clone",
            "--branch",
            "u128_mul_libcall",
            "https://github.com/blueshift-gg/sbpf-linker",
            "/home/u/.cache/u128-bpf-toolchain/sbpf-linker",
        ])
    );
    assert_eq!(c.label, "clone sbpf-linker");
}

#[test]
fn configure_on_linux_pins_clang() {
    let c = llvm_configure_command(&layout(true));
    assert_eq!(c.program, "cmake");
    assert_eq!(
        c.args,
        texts(&[
            "-S",
            "/home/u/.cache/u128-bpf-toolchain/llvm-project/llvm",
            "-B",
            "/home/u/.cache/u128-bpf-toolchain/llvm-build",
            "-G",
            "Ninja",
            "-DCMAKE_BUILD_TYPE=Release",
            "-DLLVM_BUILD_LLVM_DYLIB=ON",
            "-DLLVM_ENABLE_ASSERTIONS=ON",
            "-DLLVM_ENABLE_PROJECTS=",
            "-DLLVM_ENABLE_RUNTIMES=",
            "-DLLVM_INSTALL_UTILS=ON",
            "-DLLVM_LINK_LLVM_DYLIB=ON",
            "-DLLVM_TARGETS_TO_BUILD=BPF",
            "-DCMAKE_INSTALL_PREFIX=/home/u/.cache/u128-bpf-toolchain/llvm-install",
            "-DCMAKE_C_COMPILER=clang",
            "-DCMAKE_CXX_COMPILER=clang++",
        ])
    );
    assert!(c.envs.is_empty());
    assert_eq!(c.dir, None);
    assert_eq!(c.label, "configure LLVM build");
}

#[test]
fn configure_elsewhere_keeps_the_default_compiler() {
    let c = llvm_configure_command(&layout(false));
    assert_eq!(c.args.len(), 15);
    assert_eq!(c.args[14], "-DCMAKE_INSTALL_PREFIX=/home/u/.cache/u128-bpf-toolchain/llvm-install");
    assert!(c.args.iter().all(|a| !a.contains("COMPILER")));
}

#[test]
fn install_asks_for_absolute_symlinks() {
    let c = llvm_install_command(&layout(true));
    assert_eq!(c.program, "cmake");
    assert_eq!(
        c.args,
        texts(&["--build", "/home/u/.cache/u128-bpf-toolchain/llvm-build", "--target", "install"])
    );
    assert_eq!(c.envs, vec![(String::from("CMAKE_INSTALL_MODE"), String::from("ABS_SYMLINK"))]);
    assert_eq!(c.dir, None);
    assert_eq!(c.label, "build LLVM");
}

#[test]
fn linker_build_points_at_the_installed_llvm() {
    let c = linker_build_command(&layout(true));
    assert_eq!(c.program, "cargo");
    assert_eq!(c.args, texts(&["build", "--release"]));
    assert_eq!(
        c.envs,
        vec![(String::from("LLVM_PREFIX"), String::from("/home/u/.cache/u128-bpf-toolchain/llvm-install"))]
    );
    assert_eq!(c.dir, Some(String::from("/home/u/.cache/u128-bpf-toolchain/sbpf-linker")));
    assert_eq!(c.label, "build sbpf-linker");
}

#[test]
fn project_build_runs_in_the_project() {
    let c = project_build_command(&layout(true));
    assert_eq!(c.program, "cargo");
    assert_eq!(c.args, texts(&["+nightly", "build-bpf"]));
    assert!(c.envs.is_empty());
    assert_eq!(c.dir, Some(String::from("/src/app")));
    assert_eq!(c.label, "build project");
}

#[test]
fn failure_message_chains_description_and_cause() {
    let f = Failure::new(FailureKind::BuildFailed, String::from("command failed: build"), String::from("exit status: 2"));
    assert_eq!(f.kind(), FailureKind::BuildFailed);
    assert_eq!(f.message(), "command failed: build: exit status: 2");
    let g = Failure::new(FailureKind::ConfigWriteFailed, String::from("failed to write x"), String::new());
    assert_eq!(g.message(), "failed to write x");
}

#[test]
fn run_command_maps_the_report() {
    assert_eq!(run_command(Event::Completed, FailureKind::CloneFailed, "clone"), Ok(()));
    assert_eq!(
        run_command(Event::Exited { status: String::from("exit status: 128") }, FailureKind::CloneFailed, "clone"),
        Err(Failure::new(
            FailureKind::CloneFailed,
            String::from("command failed: clone"),
            String::from("exit status: 128")
        ))
    );
    assert_eq!(
        run_command(Event::Broke { cause: String::from("not found") }, FailureKind::CloneFailed, "clone"),
        Err(Failure::new(
            FailureKind::ProcessSpawnFailed,
            String::from("failed to run: clone"),
            String::from("not found")
        ))
    );
    assert_eq!(
        run_command(Event::Found { present: true }, FailureKind::BuildFailed, "build"),
        Err(Failure::new(FailureKind::ProcessSpawnFailed, String::from("failed to run: build"), String::new()))
    );
}

#[test]
fn run_step_keeps_the_kind_of_the_step() {
    assert_eq!(run_step(Event::Completed, FailureKind::ConfigureFailed, "configure"), Ok(()));
    assert_eq!(
        run_step(Event::Exited { status: String::from("exit status: 1") }, FailureKind::ConfigureFailed, "configure"),
        Err(Failure::new(
            FailureKind::ConfigureFailed,
            String::from("command failed: configure"),
            String::from("exit status: 1")
        ))
    );
    assert_eq!(
        run_step(Event::Broke { cause: String::from("not found") }, FailureKind::ConfigureFailed, "configure"),
        Err(Failure::new(
            FailureKind::ConfigureFailed,
            String::from("failed to run: configure"),
            String::from("not found")
        ))
    );
    assert_eq!(
        run_step(Event::Found { present: false }, FailureKind::BuildFailed, "build"),
        Err(Failure::new(FailureKind::BuildFailed, String::from("failed to run: build"), String::new()))
    );
}

#[test]
fn reports_are_read_by_what_was_asked() {
    assert_eq!(expect_done(Event::Completed), Ok(()));
    assert_eq!(expect_done(Event::Broke { cause: String::from("no") }), Err(String::from("no")));
    assert_eq!(expect_done(Event::Found { present: true }), Err(String::new()));
    assert_eq!(expect_found(Event::Found { present: true }), Ok(true));
    assert_eq!(expect_found(Event::Found { present: false }), Ok(false));
    assert_eq!(expect_found(Event::Completed), Err(String::new()));
    assert_eq!(expect_found(Event::Exited { status: String::from("1") }), Err(String::from("1")));
    assert_eq!(expect_target(Event::Target { target: String::from("/t") }), Ok(String::from("/t")));
    assert_eq!(expect_target(Event::Broke { cause: String::from("io") }), Err(String::from("io")));
    let entries = vec![WalkEntry { path: String::from("/a"), symlink: true }];
    assert_eq!(expect_entries(Event::Entries { entries: entries.clone() }), Ok(entries));
    assert_eq!(expect_entries(Event::Completed), Err(String::new()));
}

#[test]
fn only_links_are_collected_in_walk_order() {
    let entries = vec![
        WalkEntry { path: String::from("/i"), symlink: false },
        WalkEntry { path: String::from("/i/z"), symlink: true },
        WalkEntry { path: String::from("/i/file"), symlink: false },
        WalkEntry { path: String::from("/i/a"), symlink: true },
    ];
    assert_eq!(collect_links(&entries), texts(&["/i/z", "/i/a"]));
    assert_eq!(collect_links(&Vec::new()), Vec::<String>::new());
    let plain = vec![WalkEntry { path: String::from("/i/file"), symlink: false }];
    assert_eq!(collect_links(&plain), Vec::<String>::new());
}

#[test]
fn project_root_ignores_what_stands_idle_at_the_end() {
    assert_eq!(project_root("/a/xtask/"), "/a");
    assert_eq!(project_root("/a/xtask//"), "/a");
    assert_eq!(project_root("/a/xtask/."), "/a");
    assert_eq!(project_root("/a//xtask"), "/a");
    assert_eq!(project_root("xtask/"), "");
    assert_eq!(project_root("/xtask/"), "/");
    assert_eq!(project_root("./xtask"), ".");
    assert_eq!(project_root("/a/b/"), "/a/b/");
    assert_eq!(project_root("/a/xtask/.."), "/a/xtask/..");
    assert_eq!(project_root("/a/.xtask"), "/a/.xtask");
}

#[test]
fn project_root_agrees_with_the_standard_library() {
    for dir in [
        "/work/project/xtask",
        "/work/project",
        "/xtask",
        "xtask",
        "/work/myxtask",
        "a/xtask",
        "/a/b/c",
        "/a/xtask/",
        "/a/xtask//",
        "/a/xtask/.",
        "/a/xtask/./",
        "/a//xtask",
        "/a/./xtask",
        "/./xtask",
        "//xtask",
        "xtask/",
        "xtask/.",
        "./xtask",
        "./xtask/",
        "/a/b/",
        "/a/xtask/..",
        "/a/xtask/b",
        "/",
        ".",
        "",
        "/a/xtaskx",
        "task",
    ] {
        let path = std::path::Path::new(dir);
        let expected = if path.ends_with("xtask") { path.parent().unwrap() } else { path };
        assert_eq!(project_root(dir), expected.to_str().unwrap(), "for {dir:?}");
    }
}

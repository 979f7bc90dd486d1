//! The cargo configuration that points the project's build at the linker.

use vstd::prelude::*;
use vstd::string::*;

verus! {

/// Everything up to the linker's path: the opt-in to rebuilding `core` and
/// `alloc`, and the start of the flags for the BPF target.
pub open spec fn config_head() -> Seq<char> {
    "[unstable]\nbuild-std = [\"core\", \"alloc\"]\n\n[target.bpfel-unknown-none]\nrustflags = [\n    \"-C\", \"linker="@
}

/// Everything after the linker's path: abort on panic, the module dump, the
/// raised stack limit, static relocation, and the two aliases.
pub open spec fn config_tail() -> Seq<char> {
    "\",\n    \"-C\", \"panic=abort\",\n    \"-C\", \"link-arg=--dump-module=llvm_dump\",\n    \"-C\", \"link-arg=--llvm-args=-bpf-stack-size=4096\",\n    \"-C\", \"relocation-model=static\",\n]\n\n[alias]\nbuild-bpf = \"build --release --target bpfel-unknown-none\"\nxtask = \"run --package xtask --\"\n"@
}

/// The whole file for a given linker: the fixed text with the path put in
/// between, unescaped.
pub open spec fn config_text(linker: Seq<char>) -> Seq<char> {
    config_head() + linker + config_tail()
}

/// Contents of `.cargo/config.toml`. The file is always written whole, so
/// nothing of an earlier one survives.
pub fn config_contents(linker: &str) -> (text: String)
    ensures
        text@ == config_text(linker@),
{
    String::from_str(
        "[unstable]\nbuild-std = [\"core\", \"alloc\"]\n\n[target.bpfel-unknown-none]\nrustflags = [\n    \"-C\", \"linker=",
    ).concat(linker).concat(
        "\",\n    \"-C\", \"panic=abort\",\n    \"-C\", \"link-arg=--dump-module=llvm_dump\",\n    \"-C\", \"link-arg=--llvm-args=-bpf-stack-size=4096\",\n    \"-C\", \"relocation-model=static\",\n]\n\n[alias]\nbuild-bpf = \"build --release --target bpfel-unknown-none\"\nxtask = \"run --package xtask --\"\n",
    )
}

} // verus!

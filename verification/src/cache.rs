//! The directory that holds the toolchain's sources and builds.
//!
//! It lies outside the project, so that builds of several gigabytes do not
//! get in the way of the project's own.

use crate::paths::{join, joined};
use vstd::prelude::*;

verus! {

/// What the platform says of the user's cache directory.
#[derive(Clone, Debug, PartialEq, Eq)]
pub enum PlatformCache {
    /// It names none.
    Absent,
    /// It names this directory.
    Named { path: String },
    /// It names a directory whose name is not Unicode text, which the
    /// paths of this library cannot hold.
    NotText,
}

pub enum PlatformCacheView {
    Absent,
    Named { path: Seq<char> },
    NotText,
}

impl View for PlatformCache {
    type V = PlatformCacheView;

    open spec fn view(&self) -> PlatformCacheView {
        match self {
            PlatformCache::Absent => PlatformCacheView::Absent,
            PlatformCache::Named { path } => PlatformCacheView::Named { path: path@ },
            PlatformCache::NotText => PlatformCacheView::NotText,
        }
    }
}

/// The toolchain's directory below the platform's cache directory, or below
/// `/tmp` where the platform names none.
pub open spec fn cache_root(platform: Option<Seq<char>>) -> Seq<char> {
    match platform {
        Some(dir) => joined(dir, "u128-bpf-toolchain"@),
        None => joined("/tmp"@, "u128-bpf-toolchain"@),
    }
}

/// The toolchain's directory for an answer of the platform. There is none
/// where the platform's directory cannot be written as text: `/tmp` stands
/// in only for a directory that the platform does not name.
pub open spec fn located(answer: PlatformCacheView) -> Option<Seq<char>> {
    match answer {
        PlatformCacheView::Absent => Some(cache_root(None)),
        PlatformCacheView::Named { path } => Some(cache_root(Some(path))),
        PlatformCacheView::NotText => None,
    }
}

/// Asks `dirs::cache_dir` for the user's cache directory and hands the
/// answer on as text. The answer depends on the platform, the environment
/// and the user database, so nothing is claimed about it.
#[verifier::external_body]
fn platform_cache_dir() -> (answer: PlatformCache) {
    match dirs::cache_dir() {
        Some(path) => match path.into_os_string().into_string() {
            Ok(path) => PlatformCache::Named { path },
            Err(_) => PlatformCache::NotText,
        },
        None => PlatformCache::Absent,
    }
}

/// The toolchain's directory below a given cache directory, or below `/tmp`
/// where there is none.
pub fn cache_dir_in(platform: Option<String>) -> (dir: String)
    ensures
        dir@ == cache_root(platform.deep_view()),
{
    match platform {
        Some(base) => join(base.as_str(), "u128-bpf-toolchain"),
        None => join("/tmp", "u128-bpf-toolchain"),
    }
}

/// The toolchain's directory for a given answer of the platform.
pub fn cache_dir_for(answer: PlatformCache) -> (dir: Option<String>)
    ensures
        dir.deep_view() == located(answer@),
{
    match answer {
        PlatformCache::Absent => Some(cache_dir_in(None)),
        PlatformCache::Named { path } => Some(cache_dir_in(Some(path))),
        PlatformCache::NotText => None,
    }
}

/// The toolchain's directory on this machine, or `None` where the
/// platform's cache directory cannot be written as text. Creating the
/// directory is up to the caller.
pub fn cache_dir() -> (dir: Option<String>)
    ensures
        exists|answer: PlatformCacheView| dir.deep_view() == located(answer),
{
    let answer = platform_cache_dir();
    cache_dir_for(answer)
}

} // verus!

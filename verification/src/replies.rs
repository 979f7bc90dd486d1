//! What the caller reports back after carrying out an action, and how a
//! report is read.

use crate::failure::{Failure, FailureKind, FailureView};
use crate::links::{WalkEntry, WalkEntryView};
use vstd::prelude::*;
use vstd::string::*;

verus! {

/// The outcome of one action.
#[derive(Clone, Debug, PartialEq, Eq)]
pub enum Event {
    /// The action was carried out; for a process: it ran and succeeded.
    Completed,
    /// Answer to a probe: whether the path exists.
    Found { present: bool },
    /// The process ran and ended with a failing status, given as text.
    Exited { status: String },
    /// Answer to a walk: every entry below the root, in walk order.
    Entries { entries: Vec<WalkEntry> },
    /// Answer to reading a link: the target stored in it.
    Target { target: String },
    /// The action could not be carried out; for a process: it did not start.
    Broke { cause: String },
}

pub enum EventView {
    Completed,
    Found { present: bool },
    Exited { status: Seq<char> },
    Entries { entries: Seq<WalkEntryView> },
    Target { target: Seq<char> },
    Broke { cause: Seq<char> },
}

impl View for Event {
    type V = EventView;

    open spec fn view(&self) -> EventView {
        match self {
            Event::Completed => EventView::Completed,
            Event::Found { present } => EventView::Found { present: *present },
            Event::Exited { status } => EventView::Exited { status: status@ },
            Event::Entries { entries } => EventView::Entries { entries: entries.deep_view() },
            Event::Target { target } => EventView::Target { target: target@ },
            Event::Broke { cause } => EventView::Broke { cause: cause@ },
        }
    }
}

/// The reason that a report carries: the error of an action that broke, or
/// the status of a process that failed. Any other report carries none.
pub open spec fn cause_of(event: EventView) -> Seq<char> {
    match event {
        EventView::Broke { cause } => cause,
        EventView::Exited { status } => status,
        _ => Seq::empty(),
    }
}

/// A report read as the outcome of a plain action such as creating a
/// directory: anything but `Completed` is a failure.
pub open spec fn done_or_cause(event: EventView) -> Result<(), Seq<char>> {
    match event {
        EventView::Completed => Ok(()),
        _ => Err(cause_of(event)),
    }
}

/// A report read as the answer to a probe.
pub open spec fn found_or_cause(event: EventView) -> Result<bool, Seq<char>> {
    match event {
        EventView::Found { present } => Ok(present),
        _ => Err(cause_of(event)),
    }
}

/// A report read as the answer to a walk.
pub open spec fn entries_or_cause(event: EventView) -> Result<Seq<WalkEntryView>, Seq<char>> {
    match event {
        EventView::Entries { entries } => Ok(entries),
        _ => Err(cause_of(event)),
    }
}

/// A report read as the answer to reading a link.
pub open spec fn target_or_cause(event: EventView) -> Result<Seq<char>, Seq<char>> {
    match event {
        EventView::Target { target } => Ok(target),
        _ => Err(cause_of(event)),
    }
}

/// A report read as the outcome of a process. A failing exit status is a
/// failure of the step that the process belongs to; a process that never
/// ran is a spawn failure, whatever the step.
pub open spec fn run_outcome(event: EventView, kind: FailureKind, label: Seq<char>) -> Result<
    (),
    FailureView,
> {
    match event {
        EventView::Completed => Ok(()),
        EventView::Exited { status } => Err(
            FailureView { kind, description: "command failed: "@ + label, cause: status },
        ),
        _ => Err(
            FailureView {
                kind: FailureKind::ProcessSpawnFailed,
                description: "failed to run: "@ + label,
                cause: cause_of(event),
            },
        ),
    }
}

/// A report read as the outcome of a process that is a step of the
/// bootstrap in its own right. However the process failed, whether it never
/// started or ended with a failing status, the failure is of the step's
/// kind; description and cause are those of `run_outcome`.
pub open spec fn step_outcome(event: EventView, kind: FailureKind, label: Seq<char>) -> Result<
    (),
    FailureView,
> {
    match run_outcome(event, kind, label) {
        Ok(_) => Ok(()),
        Err(failure) => Err(FailureView { kind, ..failure }),
    }
}

fn cause(event: Event) -> (text: String)
    ensures
        text@ == cause_of(event@),
{
    match event {
        Event::Broke { cause } => cause,
        Event::Exited { status } => status,
        _ => String::new(),
    }
}

pub fn expect_done(event: Event) -> (result: Result<(), String>)
    ensures
        result is Ok <==> done_or_cause(event@) is Ok,
        result is Err ==> done_or_cause(event@) == Err::<(), Seq<char>>(result->Err_0@),
{
    match event {
        Event::Completed => Ok(()),
        other => Err(cause(other)),
    }
}

pub fn expect_found(event: Event) -> (result: Result<bool, String>)
    ensures
        result is Ok ==> found_or_cause(event@) == Ok::<bool, Seq<char>>(result->Ok_0),
        result is Err ==> found_or_cause(event@) == Err::<bool, Seq<char>>(result->Err_0@),
{
    match event {
        Event::Found { present } => Ok(present),
        other => Err(cause(other)),
    }
}

pub fn expect_entries(event: Event) -> (result: Result<Vec<WalkEntry>, String>)
    ensures
        result is Ok ==> entries_or_cause(event@) == Ok::<Seq<WalkEntryView>, Seq<char>>(
            result->Ok_0.deep_view(),
        ),
        result is Err ==> entries_or_cause(event@) == Err::<Seq<WalkEntryView>, Seq<char>>(
            result->Err_0@,
        ),
{
    match event {
        Event::Entries { entries } => Ok(entries),
        other => Err(cause(other)),
    }
}

pub fn expect_target(event: Event) -> (result: Result<String, String>)
    ensures
        result is Ok ==> target_or_cause(event@) == Ok::<Seq<char>, Seq<char>>(result->Ok_0@),
        result is Err ==> target_or_cause(event@) == Err::<Seq<char>, Seq<char>>(result->Err_0@),
{
    match event {
        Event::Target { target } => Ok(target),
        other => Err(cause(other)),
    }
}

/// Reads the report on a process that was started under `label` for a step
/// of the given kind.
pub fn run_command(event: Event, kind: FailureKind, label: &str) -> (result: Result<(), Failure>)
    ensures
        result is Ok <==> run_outcome(event@, kind, label@) is Ok,
        result is Err ==> run_outcome(event@, kind, label@) == Err::<(), FailureView>(
            result->Err_0@,
        ),
{
    match event {
        Event::Completed => Ok(()),
        Event::Exited { status } => Err(
            Failure::new(kind, String::from_str("command failed: ").concat(label), status),
        ),
        other => Err(
            Failure::new(
                FailureKind::ProcessSpawnFailed,
                String::from_str("failed to run: ").concat(label),
                cause(other),
            ),
        ),
    }
}

/// Reads the report on a process that makes up a whole step of the given
/// kind: any failure of the process is a failure of that kind.
pub fn run_step(event: Event, kind: FailureKind, label: &str) -> (result: Result<(), Failure>)
    ensures
        result is Ok <==> step_outcome(event@, kind, label@) is Ok,
        result is Err ==> step_outcome(event@, kind, label@) == Err::<(), FailureView>(
            result->Err_0@,
        ),
{
    match run_command(event, kind, label) {
        Ok(_) => Ok(()),
        Err(failure) => Err(Failure::new(kind, failure.description, failure.cause)),
    }
}

} // verus!

//! The event filter: the first stage of the ingestion pipeline. The watcher
//! delivers filesystem events (or delivery errors) over one ordered channel;
//! this module decides, for each message, what the control loop must do.
//! Only "file created" events yield work, one independent unit per path;
//! every other event kind is ignored, and a delivery error is reported and
//! never fatal.

use vstd::prelude::*;

verus! {

/// The kind of a filesystem event, as the watcher reports it. Creation of a
/// file is distinguished from creation of a directory because only the former
/// is ever uploaded.
pub enum EventKind {
    CreatedFile,
    CreatedDirectory,
    Modified,
    Deleted,
    Renamed,
    Other,
}

/// One filesystem event: its kind and the absolute paths it concerns. A
/// single event may carry several paths; each is an independent unit of work.
pub struct FileEvent {
    pub kind: EventKind,
    pub paths: Vec<String>,
}

/// What the watcher's channel delivered: an event, or a delivery error
/// (for example a watch buffer overflow).
pub enum WatchMessage {
    Delivered(FileEvent),
    Failed,
}

/// What the control loop must do with one message.
pub enum LoopDirective {
    /// Spawn one independent upload worker per listed path.
    Spawn(Vec<String>),
    /// Report the delivery error and keep listening; never fatal.
    ReportError,
    /// Not a file-creation event: do nothing.
    Ignore,
}

impl FileEvent {
    /// An event is admitted exactly when it reports the creation of a file
    /// (not of a directory, and not any other event kind).
    pub open spec fn admitted(self) -> bool {
        self.kind is CreatedFile
    }
}

/// The paths an event yields work for: all of its paths when it is admitted,
/// none otherwise.
pub open spec fn admitted_paths(e: FileEvent) -> Seq<String> {
    if e.admitted() {
        e.paths@
    } else {
        Seq::<String>::empty()
    }
}

/// Decides what the control loop does with one delivered message: spawn one
/// worker per path of an admitted creation event, report a delivery error,
/// and ignore everything else.
pub fn dispatch(msg: WatchMessage) -> (d: LoopDirective)
    ensures
        (match msg {
            WatchMessage::Delivered(e) => {
                if e.admitted() {
                    d matches LoopDirective::Spawn(paths) && paths@ == admitted_paths(e)
                } else {
                    d is Ignore
                }
            },
            WatchMessage::Failed => d is ReportError,
        }),
{
    match msg {
        WatchMessage::Delivered(e) => {
            match e.kind {
                EventKind::CreatedFile => LoopDirective::Spawn(e.paths),
                _ => LoopDirective::Ignore,
            }
        },
        WatchMessage::Failed => LoopDirective::ReportError,
    }
}

/// An event whose kind is not "file created" yields no unit of work at all,
/// whatever paths it carries: it can never trigger an upload attempt.
pub proof fn lemma_non_created_yields_no_work(e: FileEvent)
    requires
        !(e.kind is CreatedFile),
    ensures
        admitted_paths(e).len() == 0,
{
}

/// An admitted creation event yields exactly its own paths as units of work,
/// in order: no path is dropped and none is scheduled twice, since the yielded
/// sequence is the event's path sequence itself.
pub proof fn lemma_admitted_yields_one_unit_per_path(e: FileEvent)
    requires
        e.kind is CreatedFile,
    ensures
        admitted_paths(e) == e.paths@,
        admitted_paths(e).to_multiset() == e.paths@.to_multiset(),
{
}

} // verus!

//! What a background observer does with the notices of a file watch: a
//! change of content has the value derived anew, everything else is let go.

use vstd::prelude::*;
use crate::watch::ValueWatch;

verus! {

/// What a control asks to have observed: a path to watch and the command
/// that derives the control's value anew when the path changes. Fixed once
/// made.
pub struct WatchSpec {
    path: String,
    command: String,
}

impl WatchSpec {
    pub closed spec fn spec_path(&self) -> Seq<char> {
        self.path@
    }

    pub closed spec fn spec_command(&self) -> Seq<char> {
        self.command@
    }

    pub fn new(path: String, command: String) -> (w: Self)
        ensures
            w.spec_path() == path@,
            w.spec_command() == command@,
    {
        WatchSpec { path, command }
    }

    pub fn path(&self) -> (p: &str)
        ensures
            p@ == self.spec_path(),
    {
        self.path.as_str()
    }

    pub fn command(&self) -> (c: &str)
        ensures
            c@ == self.spec_command(),
    {
        self.command.as_str()
    }
}

/// What a file-system event says has happened to the watched path.
#[derive(Clone, Copy, Debug, PartialEq, Eq, Structural)]
pub enum ChangeKind {
    /// The watcher could not tell.
    Any,
    /// A file was opened, read or closed.
    Access,
    /// A file or directory was created.
    Create,
    /// Something was modified, and the watcher could not tell what.
    ModifyAny,
    /// The data of a file changed.
    ModifyData,
    /// Only attributes changed: times, permissions, ownership.
    ModifyMetadata,
    /// A file or directory was renamed.
    ModifyName,
    /// A modification of some other kind.
    ModifyOther,
    /// A file or directory was removed.
    Remove,
    /// An event about the watch itself.
    Other,
}

/// What the watcher hands to the observer.
#[derive(Clone, Copy, Debug, PartialEq, Eq, Structural)]
pub enum Notice {
    /// An event of the given kind.
    Change(ChangeKind),
    /// The watcher reports an error of its own.
    Failure,
}

/// What the observer's thread does next.
#[derive(Clone, Copy, Debug, PartialEq, Eq, Structural)]
pub enum ObserverAction {
    /// Derive the value anew and publish it.
    Recompute,
    /// Nothing.
    Ignore,
    /// Log the failure and go on.
    Report,
}

/// Whether an event of this kind may have changed what the path holds:
/// a modification other than one of attributes alone.
pub open spec fn is_content_change(kind: ChangeKind) -> bool {
    kind is ModifyAny || kind is ModifyData || kind is ModifyName || kind is ModifyOther
}

pub fn content_changed(kind: ChangeKind) -> (b: bool)
    ensures
        b == is_content_change(kind),
{
    match kind {
        ChangeKind::ModifyAny => true,
        ChangeKind::ModifyData => true,
        ChangeKind::ModifyName => true,
        ChangeKind::ModifyOther => true,
        _ => false,
    }
}

/// An observer, once its thread has tried to register the watch.
#[derive(Clone, Copy, Debug, PartialEq, Eq, Structural)]
pub struct Observer {
    /// Whether the watch could be registered. Without it the observer
    /// lives on and never asks for a value.
    pub registered: bool,
}

impl Observer {
    /// What is to be done on `notice`.
    pub open spec fn reaction(self, notice: Notice) -> ObserverAction {
        if !self.registered {
            ObserverAction::Ignore
        } else {
            match notice {
                Notice::Failure => ObserverAction::Report,
                Notice::Change(kind) => if is_content_change(kind) {
                    ObserverAction::Recompute
                } else {
                    ObserverAction::Ignore
                },
            }
        }
    }

    /// The observer after its attempt to register the watch, and what that
    /// attempt calls for: a failure is reported, and never ends the thread.
    pub fn start(registered: bool) -> (r: (Observer, ObserverAction))
        ensures
            r.0.registered == registered,
            r.1 == if registered {
                ObserverAction::Ignore
            } else {
                ObserverAction::Report
            },
    {
        let action = if registered {
            ObserverAction::Ignore
        } else {
            ObserverAction::Report
        };
        (Observer { registered }, action)
    }

    /// Decides on one notice. Every content change asks for one derivation
    /// of its own: nothing is held back to wait for further events.
    pub fn on_notice(&self, notice: Notice) -> (action: ObserverAction)
        ensures
            action == self.reaction(notice),
    {
        if !self.registered {
            return ObserverAction::Ignore;
        }
        match notice {
            Notice::Failure => ObserverAction::Report,
            Notice::Change(kind) => {
                if content_changed(kind) {
                    ObserverAction::Recompute
                } else {
                    ObserverAction::Ignore
                }
            },
        }
    }
}

/// Publishes a derived value into the observer's sink. Returns `false`, and
/// leaves the sink as it was, only where its generation counter has run
/// out.
pub fn publish<T>(sink: &mut ValueWatch<T>, value: T) -> (done: bool)
    ensures
        done == (old(sink)@.generation < u64::MAX),
        done ==> final(sink)@ == old(sink)@.published(value),
        !done ==> final(sink)@ == old(sink)@,
{
    if sink.has_room() {
        sink.set_value(value);
        true
    } else {
        false
    }
}

/// An observer whose watch could not be registered never asks for a value.
pub proof fn inert_without_watch(o: Observer, notice: Notice)
    requires
        !o.registered,
    ensures
        o.reaction(notice) == ObserverAction::Ignore,
{
}

} // verus!

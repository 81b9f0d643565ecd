//! What one control does with the events of its two flows: values that
//! arrive from outside, and edits by the user that are written back through
//! a command and taken back when the command fails.

use vstd::prelude::*;
use crate::bridge::{delivered, deliver, InteractionFlags};
use crate::choices::{admitted, keep_known};
use crate::watch::{published_all_generation, WatchState};

verus! {

/// Where a control stands between events. An outside update is applied
/// within one step, so it has no resting phase of its own.
#[derive(Clone, Copy, Debug, PartialEq, Eq, Structural)]
pub enum Phase {
    /// Nothing is under way.
    Idle,
    /// The user's edit is shown and its write-back command is running.
    UserEdit,
    /// The write-back failed and the outside value is being read again.
    Reconciling,
}

/// What can happen to a control.
pub enum Event<T> {
    /// A value derived after an outside change, with the control's state
    /// flags at the moment it arrives.
    External { value: T, flags: InteractionFlags },
    /// The user set the control to `value`.
    Edited { value: T },
    /// The write-back command has ended.
    UpdateFinished { succeeded: bool },
    /// The outside value was read again: `read` is what the command gave,
    /// if it ran and its output could be understood, `fallback` the
    /// control's default.
    Requeried { read: Option<T>, fallback: T },
}

/// What is to be done after an event.
#[derive(Clone, Copy, Debug, PartialEq, Eq, Structural)]
pub enum Action {
    /// Nothing.
    Nothing,
    /// Show the binding's value in the control.
    Refresh,
    /// Make the binding's value known to the write-back command and run it.
    RunUpdate,
    /// Read the outside value again.
    Requery,
}

/// A control's value and phase, as contracts see them.
pub struct BindingState<T> {
    pub displayed: T,
    pub phase: Phase,
}

/// The value a read yields: what was read, or the default where the command
/// failed or its output could not be understood.
pub open spec fn resolved<T>(read: Option<T>, fallback: T) -> T {
    match read {
        Some(v) => v,
        None => fallback,
    }
}

impl<T> BindingState<T> {
    /// The state after `event`.
    pub open spec fn next(self, event: Event<T>) -> BindingState<T> {
        match (self.phase, event) {
            (Phase::Idle, Event::External { value, flags }) => BindingState {
                displayed: delivered(self.displayed, flags, value),
                phase: Phase::Idle,
            },
            (Phase::Idle, Event::Edited { value }) => BindingState {
                displayed: value,
                phase: Phase::UserEdit,
            },
            (Phase::UserEdit, Event::UpdateFinished { succeeded }) => BindingState {
                displayed: self.displayed,
                phase: if succeeded {
                    Phase::Idle
                } else {
                    Phase::Reconciling
                },
            },
            (Phase::Reconciling, Event::Requeried { read, fallback }) => BindingState {
                displayed: resolved(read, fallback),
                phase: Phase::Idle,
            },
            _ => self,
        }
    }

    /// What is to be done after `event` arrived in this state.
    pub open spec fn reaction(self, event: Event<T>) -> Action {
        match (self.phase, event) {
            (Phase::Idle, Event::External { value, flags }) => if flags.engaged() {
                Action::Nothing
            } else {
                Action::Refresh
            },
            (Phase::Idle, Event::Edited { value }) => Action::RunUpdate,
            (Phase::UserEdit, Event::UpdateFinished { succeeded }) => if succeeded {
                Action::Nothing
            } else {
                Action::Requery
            },
            (Phase::Reconciling, Event::Requeried { read, fallback }) => Action::Refresh,
            _ => Action::Nothing,
        }
    }
}

/// The value read from a command, or `fallback` where there is none.
pub fn resolve<T>(read: Option<T>, fallback: T) -> (v: T)
    ensures
        v == resolved(read, fallback),
{
    match read {
        Some(v) => v,
        None => fallback,
    }
}

/// One control's cached value and the phase of its write-back.
pub struct Binding<T> {
    displayed: T,
    phase: Phase,
}

impl<T> View for Binding<T> {
    type V = BindingState<T>;

    closed spec fn view(&self) -> BindingState<T> {
        BindingState { displayed: self.displayed, phase: self.phase }
    }
}

impl<T> Binding<T> {
    /// The binding of a new control: it shows what the first read gave, or
    /// `fallback` where the read failed, and is idle.
    pub fn initialize(read: Option<T>, fallback: T) -> (b: Self)
        ensures
            b@ == (BindingState { displayed: resolved(read, fallback), phase: Phase::Idle }),
    {
        Binding { displayed: resolve(read, fallback), phase: Phase::Idle }
    }

    /// The value the control shows.
    pub fn displayed(&self) -> (v: &T)
        ensures
            *v == self@.displayed,
    {
        &self.displayed
    }

    /// The phase of the control's write-back.
    pub fn phase(&self) -> (p: Phase)
        ensures
            p == self@.phase,
    {
        self.phase
    }

    /// Takes one event and says what is to be done. An event that does not
    /// belong to the current phase changes nothing.
    pub fn step(&mut self, event: Event<T>) -> (action: Action)
        ensures
            final(self)@ == old(self)@.next(event),
            action == old(self)@.reaction(event),
    {
        match self.phase {
            Phase::Idle => match event {
                Event::External { value, flags } => {
                    if deliver(&mut self.displayed, flags, value) {
                        Action::Refresh
                    } else {
                        Action::Nothing
                    }
                },
                Event::Edited { value } => {
                    self.displayed = value;
                    self.phase = Phase::UserEdit;
                    Action::RunUpdate
                },
                _ => Action::Nothing,
            },
            Phase::UserEdit => match event {
                Event::UpdateFinished { succeeded } => {
                    if succeeded {
                        self.phase = Phase::Idle;
                        Action::Nothing
                    } else {
                        self.phase = Phase::Reconciling;
                        Action::Requery
                    }
                },
                _ => Action::Nothing,
            },
            Phase::Reconciling => match event {
                Event::Requeried { read, fallback } => {
                    self.displayed = resolve(read, fallback);
                    self.phase = Phase::Idle;
                    Action::Refresh
                },
                _ => Action::Nothing,
            },
        }
    }
}

/// A numeric control's bounds.
pub struct Range<T> {
    pub low: T,
    pub high: T,
}

/// The binding of a new boolean control: unchecked where the first read
/// failed.
pub fn initial_flag(read: Option<bool>) -> (b: Binding<bool>)
    ensures
        b@ == (BindingState { displayed: resolved(read, false), phase: Phase::Idle }),
{
    Binding::initialize(read, false)
}

/// The binding of a new numeric control: at the lower bound of its range
/// where the first read failed.
pub fn initial_level<T: Copy>(read: Option<T>, range: &Range<T>) -> (b: Binding<T>)
    ensures
        b@ == (BindingState { displayed: resolved(read, range.low), phase: Phase::Idle }),
{
    Binding::initialize(read, range.low)
}

/// An event of a choice control with every selection in it held against
/// the control's entries.
pub open spec fn admitted_event(entries: Seq<String>, event: Event<Option<String>>) -> Event<
    Option<String>,
> {
    match event {
        Event::External { value, flags } => Event::External {
            value: admitted(entries, value),
            flags,
        },
        Event::Edited { value } => Event::Edited { value: admitted(entries, value) },
        Event::UpdateFinished { succeeded } => event,
        Event::Requeried { read, fallback } => Event::Requeried {
            read: match read {
                Some(choice) => Some(admitted(entries, choice)),
                None => None,
            },
            fallback: admitted(entries, fallback),
        },
    }
}

/// The binding of a control that shows one of a fixed list of entries, or
/// none. Its value is a selection by id; an id that is none of the entries
/// counts as no selection wherever it comes from, so the binding never
/// names what the control cannot show.
pub struct ChoiceBinding {
    entries: Vec<String>,
    inner: Binding<Option<String>>,
}

impl ChoiceBinding {
    /// The entries of the control.
    pub closed spec fn spec_entries(&self) -> Seq<String> {
        self.entries@
    }

    /// The control's selection and phase.
    pub closed spec fn state(&self) -> BindingState<Option<String>> {
        self.inner@
    }

    /// The selection is one of the entries, or none.
    pub open spec fn wf(&self) -> bool {
        admitted(self.spec_entries(), self.state().displayed) == self.state().displayed
    }

    /// The binding of a new choice control: it shows what the first read
    /// selected, or nothing where the read failed or named no entry.
    pub fn new(entries: Vec<String>, read: Option<String>) -> (b: Self)
        ensures
            b.wf(),
            b.spec_entries() == entries@,
            b.state() == (BindingState {
                displayed: admitted(entries@, read),
                phase: Phase::Idle,
            }),
    {
        let first = keep_known(&entries, read);
        ChoiceBinding { entries, inner: Binding::initialize(Some(first), None) }
    }

    /// The entries of the control, in their order.
    pub fn entries(&self) -> (e: &Vec<String>)
        ensures
            e@ == self.spec_entries(),
    {
        &self.entries
    }

    /// The selection that the control shows.
    pub fn displayed(&self) -> (v: &Option<String>)
        ensures
            *v == self.state().displayed,
    {
        self.inner.displayed()
    }

    /// The phase of the control's write-back.
    pub fn phase(&self) -> (p: Phase)
        ensures
            p == self.state().phase,
    {
        self.inner.phase()
    }

    /// Takes one event as `Binding::step` does, after every selection in it
    /// has been held against the entries.
    pub fn step(&mut self, event: Event<Option<String>>) -> (action: Action)
        ensures
            final(self).spec_entries() == old(self).spec_entries(),
            final(self).state() == old(self).state().next(
                admitted_event(old(self).spec_entries(), event),
            ),
            action == old(self).state().reaction(admitted_event(old(self).spec_entries(), event)),
            old(self).wf() ==> final(self).wf(),
    {
        let held = match event {
            Event::External { value, flags } => Event::External {
                value: keep_known(&self.entries, value),
                flags,
            },
            Event::Edited { value } => Event::Edited { value: keep_known(&self.entries, value) },
            Event::UpdateFinished { succeeded } => Event::UpdateFinished { succeeded },
            Event::Requeried { read, fallback } => Event::Requeried {
                read: match read {
                    Some(choice) => Some(keep_known(&self.entries, choice)),
                    None => None,
                },
                fallback: keep_known(&self.entries, fallback),
            },
        };
        self.inner.step(held)
    }
}

/// A choice control never comes to name what it cannot show: if its
/// selection is one of the entries or none, it is so after every event.
pub proof fn choice_stays_known(
    entries: Seq<String>,
    s: BindingState<Option<String>>,
    event: Event<Option<String>>,
)
    requires
        admitted(entries, s.displayed) == s.displayed,
    ensures
        admitted(entries, s.next(admitted_event(entries, event)).displayed) == s.next(
            admitted_event(entries, event),
        ).displayed,
{
}

/// Interaction priority: while the user is interacting with the control, a
/// value arriving from outside changes neither what is shown nor the phase,
/// and nothing is to be done.
pub proof fn external_update_yields_to_user<T>(s: BindingState<T>, value: T, flags: InteractionFlags)
    requires
        flags.engaged(),
    ensures
        s.next(Event::External { value, flags }) == s,
        s.reaction(Event::External { value, flags }) == Action::Nothing,
{
}

/// Once the interaction has ended, the next value arriving from outside is
/// shown by an idle control, whatever was dropped before.
pub proof fn external_update_applies_when_free<T>(
    s: BindingState<T>,
    dropped: T,
    held: InteractionFlags,
    value: T,
    flags: InteractionFlags,
)
    requires
        s.phase == Phase::Idle,
        held.engaged(),
        !flags.engaged(),
    ensures
        s.next(Event::External { value: dropped, flags: held }).next(
            Event::External { value, flags },
        ) == (BindingState { displayed: value, phase: Phase::Idle }),
        s.next(Event::External { value: dropped, flags: held }).reaction(
            Event::External { value, flags },
        ) == Action::Refresh,
{
}

/// Latest wins from end to end: of a burst of values published since the
/// control's reader last read, an idle control that the user has let go of
/// is handed the last one, and shows it.
pub proof fn burst_shows_last<T>(
    w: WatchState<T>,
    seen: nat,
    burst: Seq<T>,
    s: BindingState<T>,
    flags: InteractionFlags,
)
    requires
        burst.len() >= 1,
        seen <= w.generation,
        s.phase == Phase::Idle,
        !flags.engaged(),
    ensures
        w.published_all(burst).pending(seen) == Some(burst.last()),
        s.next(Event::External { value: burst.last(), flags }) == (BindingState {
            displayed: burst.last(),
            phase: Phase::Idle,
        }),
{
    published_all_generation(w, burst.drop_last());
}

/// Revert on failure: when the write-back of an edit fails, the control
/// ends idle and shows what the renewed read gave, or the default where
/// that read failed too, and not the edited value.
pub proof fn failed_update_reverts<T>(s: BindingState<T>, edited: T, read: Option<T>, fallback: T)
    requires
        s.phase == Phase::Idle,
    ensures
        s.next(Event::Edited { value: edited }).reaction(
            Event::UpdateFinished { succeeded: false },
        ) == Action::Requery,
        s.next(Event::Edited { value: edited }).next(
            Event::UpdateFinished { succeeded: false },
        ).next(Event::Requeried { read, fallback }) == (BindingState {
            displayed: resolved(read, fallback),
            phase: Phase::Idle,
        }),
{
}

/// When the write-back of an edit succeeds, the edited value stands.
pub proof fn successful_update_stands<T>(s: BindingState<T>, edited: T)
    requires
        s.phase == Phase::Idle,
    ensures
        s.next(Event::Edited { value: edited }).next(
            Event::UpdateFinished { succeeded: true },
        ) == (BindingState { displayed: edited, phase: Phase::Idle }),
{
}

} // verus!

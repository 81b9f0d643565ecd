//! A single-slot, coalescing hand-over point between one producer and one
//! consumer: the newest value wins and every generation is seen at most once.

use vstd::prelude::*;

verus! {

/// The mathematical content of a slot: the pending value and how many times
/// a value has been published into it.
pub struct WatchState<T> {
    pub value: T,
    pub generation: nat,
}

impl<T> WatchState<T> {
    /// The slot after one more value has been published.
    pub open spec fn published(self, v: T) -> WatchState<T> {
        WatchState { value: v, generation: self.generation + 1 }
    }

    /// The slot after the values of `vs` have been published, first to last.
    pub open spec fn published_all(self, vs: Seq<T>) -> WatchState<T>
        decreases vs.len(),
    {
        if vs.len() == 0 {
            self
        } else {
            self.published_all(vs.drop_last()).published(vs.last())
        }
    }

    /// What a reader whose marker stands at `seen` is handed: the pending
    /// value if it is newer than the marker, nothing otherwise.
    pub open spec fn pending(self, seen: nat) -> Option<T> {
        if self.generation > seen {
            Some(self.value)
        } else {
            None
        }
    }
}

/// The slot itself: one pending value and its generation.
pub struct ValueWatch<T> {
    value: T,
    generation: u64,
}

/// A reader's private marker: the last generation it has been handed.
#[derive(Clone, Copy, Debug)]
pub struct WatchReader {
    seen: u64,
}

impl<T> View for ValueWatch<T> {
    type V = WatchState<T>;

    closed spec fn view(&self) -> WatchState<T> {
        WatchState { value: self.value, generation: self.generation as nat }
    }
}

impl View for WatchReader {
    type V = nat;

    closed spec fn view(&self) -> nat {
        self.seen as nat
    }
}

impl<T> ValueWatch<T> {
    /// A slot that holds `initial` at generation zero.
    pub fn new(initial: T) -> (w: Self)
        ensures
            w@ == (WatchState { value: initial, generation: 0 }),
    {
        ValueWatch { value: initial, generation: 0 }
    }

    /// Whether one more value can be published before the generation counter
    /// runs out.
    pub fn has_room(&self) -> (b: bool)
        ensures
            b == (self@.generation < u64::MAX),
    {
        self.generation < u64::MAX
    }

    /// A reader that counts everything published so far as already seen.
    pub fn reader(&self) -> (r: WatchReader)
        ensures
            r@ == self@.generation,
    {
        WatchReader { seen: self.generation }
    }

    /// Replaces the pending value, whether or not the previous one was read.
    pub fn set_value(&mut self, v: T)
        requires
            old(self)@.generation < u64::MAX,
        ensures
            final(self)@ == old(self)@.published(v),
    {
        self.value = v;
        self.generation = self.generation + 1;
    }
}

/// The value behind what a read hands out.
pub open spec fn handed<T>(got: Option<&T>) -> Option<T> {
    match got {
        Some(v) => Some(*v),
        None => None,
    }
}

impl WatchReader {
    /// One non-blocking attempt of a wait: hands out the pending value if it
    /// is newer than this reader's marker and moves the marker up to it.
    /// A blocking wait repeats this each time it is woken.
    pub fn try_wait<'a, T>(&mut self, watch: &'a ValueWatch<T>) -> (got: Option<&'a T>)
        ensures
            handed(got) == watch@.pending(old(self)@),
            final(self)@ == if got is Some {
                watch@.generation
            } else {
                old(self)@
            },
    {
        if watch.generation > self.seen {
            self.seen = watch.generation;
            Some(&watch.value)
        } else {
            None
        }
    }
}

/// Publishing a run of values raises the generation by the length of the run.
pub proof fn published_all_generation<T>(w: WatchState<T>, vs: Seq<T>)
    ensures
        w.published_all(vs).generation == w.generation + vs.len(),
    decreases vs.len(),
{
    if vs.len() > 0 {
        published_all_generation(w, vs.drop_last());
    }
}

/// Coalescing: however many values are published between two reads, a reader
/// that was in step before them is handed the last one, and none of the
/// others.
pub proof fn coalescing<T>(w: WatchState<T>, seen: nat, vs: Seq<T>)
    requires
        vs.len() >= 1,
        seen <= w.generation,
    ensures
        w.published_all(vs).pending(seen) == Some(vs.last()),
{
    published_all_generation(w, vs.drop_last());
}

/// No missed update: once `v` has been published after a reader's last read,
/// that reader always has something pending, whatever is published later,
/// and what is pending is `v` or the last of the later values.
pub proof fn no_missed_update<T>(w: WatchState<T>, seen: nat, v: T, later: Seq<T>)
    requires
        seen <= w.generation,
    ensures
        w.published(v).published_all(later).pending(seen) == Some(
            if later.len() == 0 {
                v
            } else {
                later.last()
            },
        ),
{
    published_all_generation(w.published(v), later);
    if later.len() > 0 {
        published_all_generation(w.published(v), later.drop_last());
    }
}

/// Each generation is handed out once: a reader whose marker stands at the
/// slot's generation has nothing pending until the next publication.
pub proof fn observed_once<T>(w: WatchState<T>, v: T)
    ensures
        w.pending(w.generation) is None,
        w.published(v).pending(w.generation) == Some(v),
{
}

} // verus!

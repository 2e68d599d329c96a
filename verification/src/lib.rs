//! Non-blocking data-exchange primitives for exactly one producer and one
//! consumer: a single-slot handoff channel (`Trapdoor`) and a triple-buffered
//! "latest value" channel (`triple::MontyHall`).
//!
//! The channel state is held behind the consumer half, and the producer half
//! acts through it; every transition of the protocol — occupancy tracking,
//! slot selection, and the rule that decides which side destroys a superseded
//! value — is verified. The shared-ownership plumbing that would let the two
//! halves live on different threads (reference counting and atomic state
//! words) is deliberately outside this model: the contracts here describe the
//! protocol itself, which is the part that must never lose or double-destroy
//! a value.

use vstd::prelude::*;

pub mod triple;

verus! {

/// An unsplit trapdoor: one storage slot holding at most one pending value.
///
/// A value of this type is the single owner of the slot. [`Trapdoor::split`]
/// turns it into the producer half ([`TrapdoorWrite`]) and the consumer half
/// ([`TrapdoorRead`]); the slot itself then lives behind the consumer half,
/// so dropping the two halves destroys a still-pending value exactly once.
pub struct Trapdoor<T> {
    value: Option<T>,
}

impl<T> View for Trapdoor<T> {
    type V = Option<T>;

    closed spec fn view(&self) -> Option<T> {
        self.value
    }
}

impl<T> Trapdoor<T> {
    /// Construct an empty trapdoor.
    pub fn new() -> (door: Self)
        ensures
            door@ is None,
    {
        Trapdoor { value: None }
    }

    /// Construct a trapdoor pre-populated with a value.
    pub fn with_value(value: T) -> (door: Self)
        ensures
            door@ == Some(value),
    {
        Trapdoor { value: Some(value) }
    }

    /// Construct a trapdoor pre-populated with the default value.
    pub fn with_default() -> (door: Self) where T: Default
        ensures
            door@ matches Some(d) && T::default.ensures((), d),
    {
        Self::with_value(T::default())
    }

    /// Split the trapdoor into the sender and receiver halves.
    ///
    /// Exactly one half of each kind ever exists for a given trapdoor: both
    /// are produced here, and neither can be duplicated.
    pub fn split(self) -> (halves: (TrapdoorWrite<T>, TrapdoorRead<T>))
        ensures
            halves.1@ == self@,
    {
        (TrapdoorWrite { producer: core::marker::PhantomData }, TrapdoorRead { door: self })
    }

    /// Attempt to store a value into the trapdoor.
    /// Fails and returns the value if the trapdoor is occupied.
    fn try_store(&mut self, value: T) -> (r: Result<(), T>)
        ensures
            r is Ok <==> old(self)@ is None,
            old(self)@ is None ==> final(self)@ == Some(value),
            old(self)@ is Some ==> final(self)@ == old(self)@ && r == Err::<(), T>(value),
    {
        if self.value.is_some() {
            Err(value)
        } else {
            self.value = Some(value);
            Ok(())
        }
    }

    /// Attempt to take the value out of the trapdoor.
    /// Returns `None` if the trapdoor is unoccupied.
    fn try_take(&mut self) -> (r: Option<T>)
        ensures
            r == old(self)@,
            final(self)@ is None,
    {
        self.value.take()
    }

    /// Borrow the current value, if any, without removing it.
    fn try_peek(&self) -> (r: Option<&T>)
        ensures
            r matches Some(v) ==> self@ == Some(*v),
            r is Some <==> self@ is Some,
    {
        self.value.as_ref()
    }
}

/// The "sending" half of a trapdoor.
pub struct TrapdoorWrite<T> {
    producer: core::marker::PhantomData<T>,
}

/// The "receiving" half of a trapdoor. It holds the shared slot, so the
/// sender deposits values through it.
pub struct TrapdoorRead<T> {
    door: Trapdoor<T>,
}

impl<T> View for TrapdoorRead<T> {
    type V = Option<T>;

    closed spec fn view(&self) -> Option<T> {
        self.door@
    }
}

impl<T> TrapdoorWrite<T> {
    /// Stores a value into the trapdoor.
    ///
    /// The trapdoor must be empty: storing into an occupied trapdoor is a
    /// programmer error, and this checked variant rules it out up front.
    /// Use [`try_store`][Self::try_store] to handle occupancy as data instead.
    pub fn store(&mut self, rx: &mut TrapdoorRead<T>, value: T)
        requires
            old(rx)@ is None,
        ensures
            final(rx)@ == Some(value),
    {
        match rx.door.try_store(value) {
            Ok(()) => (),
            Err(_) => vstd::pervasive::unreached(),
        }
    }

    /// Attempts to store a value into the trapdoor.
    ///
    /// If the trapdoor is occupied, `value` is handed back unchanged as the
    /// error and the pending value is left in place.
    pub fn try_store(&mut self, rx: &mut TrapdoorRead<T>, value: T) -> (r: Result<(), T>)
        ensures
            r is Ok <==> old(rx)@ is None,
            old(rx)@ is None ==> final(rx)@ == Some(value),
            old(rx)@ is Some ==> final(rx)@ == old(rx)@ && r == Err::<(), T>(value),
    {
        rx.door.try_store(value)
    }
}

impl<T> TrapdoorRead<T> {
    /// Take the value from the trapdoor.
    ///
    /// The trapdoor must be occupied; use [`try_take`][Self::try_take] to
    /// handle emptiness as data instead.
    pub fn take(&mut self) -> (r: T)
        requires
            old(self)@ is Some,
        ensures
            old(self)@ == Some(r),
            final(self)@ is None,
    {
        match self.door.try_take() {
            Some(v) => v,
            None => vstd::pervasive::unreached(),
        }
    }

    /// Attempts to take the value from the trapdoor. Returns `None` if the
    /// trapdoor is empty.
    pub fn try_take(&mut self) -> (r: Option<T>)
        ensures
            r == old(self)@,
            final(self)@ is None,
    {
        self.door.try_take()
    }

    /// Borrow the pending value without removing it.
    ///
    /// The trapdoor must be occupied; use [`try_peek`][Self::try_peek] to
    /// handle emptiness as data instead.
    pub fn peek(&self) -> (r: &T)
        requires
            self@ is Some,
        ensures
            self@ == Some(*r),
    {
        match self.door.try_peek() {
            Some(v) => v,
            None => vstd::pervasive::unreached(),
        }
    }

    /// Borrow the pending value, if any, without removing it.
    pub fn try_peek(&self) -> (r: Option<&T>)
        ensures
            r matches Some(v) ==> self@ == Some(*v),
            r is Some <==> self@ is Some,
    {
        self.door.try_peek()
    }
}

/// Law: a value stored into an empty trapdoor is exactly what the take
/// that follows returns — ownership makes an unchanged round trip, and the
/// trapdoor is empty again afterwards.
///
/// `stored` is the channel state a `store` of `value` leaves behind;
/// `taken` and `drained` are what a `take` from that state returns and
/// leaves behind, as the two functions' contracts describe them.
pub proof fn law_handoff_round_trip<T>(
    empty: Option<T>,
    stored: Option<T>,
    drained: Option<T>,
    value: T,
    taken: T,
)
    requires
        empty is None,
        stored == Some(value),
        stored == Some(taken),
        drained is None,
    ensures
        taken == value,
        drained is None,
{
}

} // verus!

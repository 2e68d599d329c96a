//! A triple-buffered "latest value" channel: the producer keeps publishing
//! new values while the consumer can always observe the most recently
//! published one, and neither side ever waits for the other.
//!
//! Three buckets rotate through the roles of *canonical* (holding the latest
//! published value), *acquired* (pinned by an outstanding read handle), and
//! free (the next write target). The pair of indices steering this rotation
//! is kept in one record, [`BucketInfo`], and every transition updates the
//! pair as a unit; responsibility for destroying a superseded value is
//! decided at that same transition — by the producer when the superseded
//! bucket is unpinned, by the reader's release when it was pinned — so each
//! value is destroyed exactly once. The well-formedness predicate
//! [`MontyHall::wf`] states the bucket bookkeeping: the canonical bucket is
//! always live, a pinned bucket is always live, and no other bucket holds a
//! value (nothing is ever orphaned).

use vstd::prelude::*;
use vstd::array::array_index_get;

verus! {

/// The value of `acquired` that marks "no outstanding read handle".
const NONE_BUCKET: u8 = u8::MAX;

/// The pair of bucket indices that steers the whole protocol: which bucket
/// is pinned by the reader (`acquired`, or [`NONE_BUCKET`]) and which holds
/// the latest published value (`canonical`). The two are kept in a single
/// record and always change together, so no step of the protocol can ever
/// observe a half-updated pair.
#[derive(Clone, Copy)]
struct BucketInfo {
    acquired: u8,
    canonical: u8,
}

/// An unsplit MontyHall: three buckets plus the index record.
///
/// [`MontyHall::split`] turns it into the producer half ([`MontyHallWrite`])
/// and the consumer half ([`MontyHallRead`]); the buckets then live behind
/// the consumer half, so dropping the two halves destroys every value still
/// held — by [`MontyHall::wf`], exactly the canonical one once no handle is
/// outstanding — exactly once.
pub struct MontyHall<T> {
    buckets: [Option<T>; 3],
    bucket_info: BucketInfo,
}

impl<T> MontyHall<T> {
    /// The index of the bucket holding the latest published value.
    pub closed spec fn canonical(self) -> int {
        self.bucket_info.canonical as int
    }

    /// The index of the bucket pinned by the outstanding read handle;
    /// meaningful only while [`Self::pinned`] holds.
    pub closed spec fn acquired(self) -> int {
        self.bucket_info.acquired as int
    }

    /// Whether a read handle is outstanding.
    pub closed spec fn pinned(self) -> bool {
        self.bucket_info.acquired != NONE_BUCKET
    }

    /// The contents of bucket `i`.
    pub closed spec fn slot(self, i: int) -> Option<T> {
        self.buckets[i]
    }

    /// The latest published value.
    pub open spec fn canonical_value(self) -> T {
        self.slot(self.canonical())->0
    }

    /// The value pinned by the outstanding read handle.
    pub open spec fn pinned_value(self) -> T {
        self.slot(self.acquired())->0
    }

    /// Bucket `i` may not be chosen as the next write target: it holds the
    /// latest published value, or it is pinned by the outstanding handle.
    pub open spec fn excluded(self, i: int) -> bool {
        i == self.canonical() || (self.pinned() && i == self.acquired())
    }

    /// Bucket bookkeeping, preserved by every operation.
    ///
    /// The last clause is the reclamation guarantee in invariant form: a
    /// bucket that is neither canonical nor pinned holds nothing, so no
    /// value is ever orphaned, and teardown has exactly the live buckets
    /// left to destroy.
    pub closed spec fn wf(self) -> bool {
        &&& self.bucket_info.canonical < 3
        &&& self.bucket_info.acquired == NONE_BUCKET || self.bucket_info.acquired < 3
        &&& self.slot(self.canonical()) is Some
        &&& (self.pinned() ==> self.slot(self.acquired()) is Some)
        &&& forall|i: int|
            0 <= i < 3 && !self.excluded(i) ==> (#[trigger] self.slot(i)) is None
    }
}

/// The write target: the lowest-numbered bucket that is neither canonical
/// nor pinned. Three buckets and at most two exclusions leave at least one
/// candidate, and overwriting it can never touch a live value.
pub open spec fn spec_write_bucket<T>(s: MontyHall<T>) -> int {
    if !s.excluded(0) {
        0
    } else if !s.excluded(1) {
        1
    } else {
        2
    }
}

/// How one `load` changes the channel: the canonical bucket becomes pinned
/// and the new handle snapshots it; no value moves or dies.
pub open spec fn load_transition<T>(pre: MontyHall<T>, post: MontyHall<T>) -> bool {
    &&& post.canonical() == pre.canonical()
    &&& post.acquired() == pre.canonical()
    &&& post.pinned()
    &&& forall|i: int| 0 <= i < 3 ==> #[trigger] post.slot(i) == pre.slot(i)
}

/// How releasing the outstanding handle changes the channel: the pin goes
/// away, and the pinned value is destroyed here exactly when a store
/// superseded it while it was pinned — otherwise it stays, still canonical.
pub open spec fn release_transition<T>(pre: MontyHall<T>, post: MontyHall<T>) -> bool {
    &&& !post.pinned()
    &&& post.canonical() == pre.canonical()
    &&& (pre.acquired() != pre.canonical() ==> post.slot(pre.acquired()) is None)
    &&& forall|i: int|
        0 <= i < 3 && !(pre.acquired() != pre.canonical() && i == pre.acquired())
            ==> #[trigger] post.slot(i) == pre.slot(i)
}

/// How one `store` changes the channel: the new value lands in the write
/// target, which becomes canonical; the handle pin is untouched; the
/// previously canonical bucket is destroyed right here unless the
/// outstanding handle pins it, in which case the handle's release inherits
/// the destruction.
pub open spec fn store_transition<T>(pre: MontyHall<T>, post: MontyHall<T>, value: T) -> bool {
    let wb = spec_write_bucket(pre);
    &&& post.canonical() == wb
    &&& post.acquired() == pre.acquired()
    &&& post.pinned() == pre.pinned()
    &&& post.slot(wb) == Some(value)
    &&& if pre.pinned() && pre.acquired() == pre.canonical() {
        post.slot(pre.canonical()) == pre.slot(pre.canonical())
    } else {
        post.slot(pre.canonical()) is None
    }
    &&& forall|i: int|
        0 <= i < 3 && i != wb && i != pre.canonical() ==> #[trigger] post.slot(i) == pre.slot(i)
}

impl<T> MontyHall<T> {
    /// Create a new MontyHall containing some value.
    pub fn new(value: T) -> (s: Self)
        ensures
            s.wf(),
            !s.pinned(),
            s.canonical() == 0,
            s.canonical_value() == value,
    {
        MontyHall {
            buckets: [Some(value), None, None],
            bucket_info: BucketInfo { acquired: NONE_BUCKET, canonical: 0 },
        }
    }

    /// Create a new MontyHall containing the default value.
    pub fn with_default() -> (s: Self) where T: Default
        ensures
            s.wf(),
            !s.pinned(),
            T::default.ensures((), s.canonical_value()),
    {
        Self::new(T::default())
    }

    /// The bucket the producer can always write to: the lowest-numbered one
    /// that is neither canonical nor pinned.
    fn write_bucket(&self) -> (wb: usize)
        requires
            self.wf(),
        ensures
            wb == spec_write_bucket(*self),
            wb < 3,
            !self.excluded(wb as int),
    {
        let acquired = self.bucket_info.acquired;
        let canonical = self.bucket_info.canonical;
        if acquired != 0 && canonical != 0 {
            0
        } else if acquired != 1 && canonical != 1 {
            1
        } else {
            2
        }
    }

    /// Store a value, making it the latest published one.
    fn store(&mut self, value: T)
        requires
            old(self).wf(),
        ensures
            final(self).wf(),
            store_transition(*old(self), *final(self), value),
            final(self).canonical_value() == value,
            old(self).pinned() ==> final(self).pinned_value() == old(self).pinned_value(),
    {
        let wb = self.write_bucket();
        self.buckets[wb] = Some(value);

        let acquired = self.bucket_info.acquired;
        let canonical = self.bucket_info.canonical;
        self.bucket_info = BucketInfo { acquired, canonical: wb as u8 };

        // The bucket just superseded is destroyed here unless the
        // outstanding handle pins it; then its release inherits the duty.
        if acquired != canonical {
            self.buckets[canonical as usize] = None;
        }

        proof {
            assert forall|i: int| 0 <= i < 3 && !self.excluded(i) implies self.slot(i) is None by {
                if !old(self).excluded(i) {
                    assert(old(self).slot(i) is None);
                }
            }
        }
    }

    /// Pin the canonical bucket and hand out a handle snapshotting it.
    fn load(&mut self) -> (handle: MontyHallHandle)
        requires
            old(self).wf(),
            !old(self).pinned(),
        ensures
            final(self).wf(),
            load_transition(*old(self), *final(self)),
            handle.bucket() == final(self).acquired(),
            final(self).pinned_value() == old(self).canonical_value(),
            final(self).canonical_value() == old(self).canonical_value(),
    {
        let canonical = self.bucket_info.canonical;
        self.bucket_info = BucketInfo { acquired: canonical, canonical };

        proof {
            assert forall|i: int| 0 <= i < 3 && !self.excluded(i) implies self.slot(i) is None by {
                if !old(self).excluded(i) {
                    assert(old(self).slot(i) is None);
                }
            }
        }

        MontyHallHandle { bucket: canonical as usize }
    }

    /// Read the value the handle snapshotted.
    fn read<'a>(&'a self, handle: &MontyHallHandle) -> (r: &'a T)
        requires
            self.wf(),
            self.pinned(),
            handle.bucket() == self.acquired(),
        ensures
            *r == self.pinned_value(),
    {
        match array_index_get(&self.buckets, handle.bucket).as_ref() {
            Some(v) => v,
            None => vstd::pervasive::unreached(),
        }
    }

    /// Replace the value in the handle's pinned bucket.
    fn write(&mut self, handle: &MontyHallHandle, value: T)
        requires
            old(self).wf(),
            old(self).pinned(),
            handle.bucket() == old(self).acquired(),
        ensures
            final(self).wf(),
            final(self).pinned(),
            final(self).acquired() == old(self).acquired(),
            final(self).canonical() == old(self).canonical(),
            final(self).pinned_value() == value,
            forall|i: int|
                0 <= i < 3 && i != old(self).acquired()
                    ==> #[trigger] final(self).slot(i) == old(self).slot(i),
    {
        self.buckets[handle.bucket] = Some(value);

        proof {
            assert forall|i: int| 0 <= i < 3 && !self.excluded(i) implies self.slot(i) is None by {
                if !old(self).excluded(i) {
                    assert(old(self).slot(i) is None);
                }
            }
        }
    }

    /// Unpin the handle's bucket, destroying its value exactly when a store
    /// superseded it while it was pinned.
    fn release(&mut self, handle: MontyHallHandle)
        requires
            old(self).wf(),
            old(self).pinned(),
            handle.bucket() == old(self).acquired(),
        ensures
            final(self).wf(),
            release_transition(*old(self), *final(self)),
            !final(self).pinned(),
            final(self).canonical_value() == old(self).canonical_value(),
    {
        let canonical = self.bucket_info.canonical;
        self.bucket_info = BucketInfo { acquired: NONE_BUCKET, canonical };

        // The handle was holding onto a superseded, non-canonical value:
        // its destruction was deferred to this release, and happens here.
        if handle.bucket != canonical as usize {
            self.buckets[handle.bucket] = None;
        }

        proof {
            assert forall|i: int| 0 <= i < 3 && !self.excluded(i) implies self.slot(i) is None by {
                if !old(self).excluded(i) {
                    assert(old(self).slot(i) is None);
                }
            }
        }
    }

    /// Split the MontyHall into its sender and receiver halves.
    ///
    /// Exactly one half of each kind ever exists for a given MontyHall:
    /// both are produced here, and neither can be duplicated.
    pub fn split(self) -> (halves: (MontyHallWrite<T>, MontyHallRead<T>))
        ensures
            halves.1.hall() == self,
    {
        (MontyHallWrite { producer: core::marker::PhantomData }, MontyHallRead { hall: self })
    }
}

/// A reference to the element stored in the MontyHall at a certain point in
/// time: a move-only token naming the bucket pinned for it by `load`. It
/// stays valid — observing its snapshot unchanged — however many stores
/// happen meanwhile, and must be given back through `release`.
pub struct MontyHallHandle {
    bucket: usize,
}

impl MontyHallHandle {
    /// The index of the bucket this handle pins.
    pub closed spec fn bucket(self) -> int {
        self.bucket as int
    }
}

/// The "sending" half of a MontyHall.
pub struct MontyHallWrite<T> {
    producer: core::marker::PhantomData<T>,
}

/// The "receiving" half of a MontyHall. It holds the buckets, so the sender
/// publishes values through it.
pub struct MontyHallRead<T> {
    hall: MontyHall<T>,
}

impl<T> MontyHallRead<T> {
    /// The channel state held behind this half.
    pub closed spec fn hall(self) -> MontyHall<T> {
        self.hall
    }
}

impl<T> MontyHallWrite<T> {
    /// Store a value into the MontyHall, making it the latest published
    /// one. An outstanding read handle keeps its snapshot untouched.
    pub fn store(&mut self, rx: &mut MontyHallRead<T>, value: T)
        requires
            old(rx).hall().wf(),
        ensures
            final(rx).hall().wf(),
            store_transition(old(rx).hall(), final(rx).hall(), value),
            final(rx).hall().canonical_value() == value,
            final(rx).hall().pinned() == old(rx).hall().pinned(),
            old(rx).hall().pinned()
                ==> final(rx).hall().pinned_value() == old(rx).hall().pinned_value()
                    && final(rx).hall().acquired() == old(rx).hall().acquired(),
    {
        rx.hall.store(value);
    }
}

impl<T> MontyHallRead<T> {
    /// Load the latest published value, pinning its bucket until the
    /// returned handle is released. At most one handle is outstanding at a
    /// time, so a new one can only be obtained after the previous release.
    pub fn load(&mut self) -> (handle: MontyHallHandle)
        requires
            old(self).hall().wf(),
            !old(self).hall().pinned(),
        ensures
            final(self).hall().wf(),
            load_transition(old(self).hall(), final(self).hall()),
            final(self).hall().pinned(),
            handle.bucket() == final(self).hall().acquired(),
            final(self).hall().pinned_value() == old(self).hall().canonical_value(),
            final(self).hall().canonical_value() == old(self).hall().canonical_value(),
    {
        self.hall.load()
    }

    /// Read the value the handle snapshotted: stable for the handle's whole
    /// lifetime, however many stores happen meanwhile.
    pub fn read<'a>(&'a self, handle: &MontyHallHandle) -> (r: &'a T)
        requires
            self.hall().wf(),
            self.hall().pinned(),
            handle.bucket() == self.hall().acquired(),
        ensures
            *r == self.hall().pinned_value(),
    {
        self.hall.read(handle)
    }

    /// Replace the value in the handle's pinned bucket. If that bucket is
    /// still canonical, the replacement is what later loads observe; if it
    /// was already superseded, the replacement dies with the handle's
    /// release and the producer never sees it.
    pub fn write(&mut self, handle: &MontyHallHandle, value: T)
        requires
            old(self).hall().wf(),
            old(self).hall().pinned(),
            handle.bucket() == old(self).hall().acquired(),
        ensures
            final(self).hall().wf(),
            final(self).hall().pinned(),
            final(self).hall().acquired() == old(self).hall().acquired(),
            final(self).hall().canonical() == old(self).hall().canonical(),
            final(self).hall().pinned_value() == value,
            forall|i: int|
                0 <= i < 3 && i != old(self).hall().acquired()
                    ==> #[trigger] final(self).hall().slot(i) == old(self).hall().slot(i),
    {
        self.hall.write(handle, value);
    }

    /// Give a handle back, unpinning its bucket. The snapshotted value is
    /// destroyed here exactly when a store superseded it while the handle
    /// was outstanding; otherwise it stays, still the canonical value.
    pub fn release(&mut self, handle: MontyHallHandle)
        requires
            old(self).hall().wf(),
            old(self).hall().pinned(),
            handle.bucket() == old(self).hall().acquired(),
        ensures
            final(self).hall().wf(),
            release_transition(old(self).hall(), final(self).hall()),
            !final(self).hall().pinned(),
            final(self).hall().canonical_value() == old(self).hall().canonical_value(),
    {
        self.hall.release(handle);
    }
}

/// Law: a store preserves the bucket bookkeeping.
pub proof fn law_store_preserves_wf<T>(pre: MontyHall<T>, post: MontyHall<T>, value: T)
    requires
        pre.wf(),
        store_transition(pre, post, value),
    ensures
        post.wf(),
{
    assert forall|i: int| 0 <= i < 3 && !post.excluded(i) implies post.slot(i) is None by {
        if !pre.excluded(i) {
            assert(pre.slot(i) is None);
            assert(post.slot(i) == pre.slot(i));
        }
    }
}

/// Law: while a read handle is outstanding, a store leaves the handle's
/// snapshot untouched and still pinned, and makes the stored value the
/// latest published one. Stores never corrupt or destroy a pinned value.
pub proof fn law_store_keeps_snapshot<T>(pre: MontyHall<T>, post: MontyHall<T>, value: T)
    requires
        pre.wf(),
        pre.pinned(),
        store_transition(pre, post, value),
    ensures
        post.pinned(),
        post.pinned_value() == pre.pinned_value(),
        post.canonical_value() == value,
{
    assert(post.slot(pre.acquired()) == pre.slot(pre.acquired()));
}

/// Law: releasing the outstanding handle never touches the canonical
/// bucket: the latest published value survives the release.
pub proof fn law_release_preserves_latest<T>(pre: MontyHall<T>, post: MontyHall<T>)
    requires
        pre.wf(),
        pre.pinned(),
        release_transition(pre, post),
    ensures
        post.wf(),
        !post.pinned(),
        post.canonical_value() == pre.canonical_value(),
{
    assert(post.slot(pre.canonical()) == pre.slot(pre.canonical()));
    assert forall|i: int| 0 <= i < 3 && !post.excluded(i) implies post.slot(i) is None by {
        if !pre.excluded(i) {
            assert(pre.slot(i) is None);
            assert(post.slot(i) == pre.slot(i));
        }
    }
}

/// Law: a load pins and observes exactly the latest published value.
pub proof fn law_load_observes_latest<T>(pre: MontyHall<T>, post: MontyHall<T>)
    requires
        pre.wf(),
        !pre.pinned(),
        load_transition(pre, post),
    ensures
        post.wf(),
        post.pinned(),
        post.pinned_value() == pre.canonical_value(),
        post.canonical_value() == pre.canonical_value(),
{
    assert forall|i: int| 0 <= i < 3 && !post.excluded(i) implies post.slot(i) is None by {
        assert(post.slot(i) == pre.slot(i));
        if !pre.excluded(i) {
            assert(pre.slot(i) is None);
        }
    }
}

/// Law: a handle is a stable snapshot for its whole lifetime. After any
/// store while the handle is outstanding, the handle still observes its
/// original value; once it is released and a fresh handle is loaded, that
/// fresh handle observes the value of the intervening store.
pub proof fn law_snapshot_until_release<T>(
    s0: MontyHall<T>,
    s1: MontyHall<T>,
    s2: MontyHall<T>,
    s3: MontyHall<T>,
    value: T,
)
    requires
        s0.wf(),
        s0.pinned(),
        store_transition(s0, s1, value),
        release_transition(s1, s2),
        load_transition(s2, s3),
    ensures
        s1.pinned_value() == s0.pinned_value(),
        s3.pinned_value() == value,
{
    law_store_preserves_wf(s0, s1, value);
    law_store_keeps_snapshot(s0, s1, value);
    law_release_preserves_latest(s1, s2);
    law_load_observes_latest(s2, s3);
}

/// Law: several stores while one handle is outstanding leave the handle's
/// snapshot untouched, and after the release a fresh load observes the most
/// recent of the stores, not an intermediate one.
pub proof fn law_stale_handle_sees_none_of_two_stores<T>(
    s0: MontyHall<T>,
    s1: MontyHall<T>,
    s2: MontyHall<T>,
    s3: MontyHall<T>,
    s4: MontyHall<T>,
    first: T,
    second: T,
)
    requires
        s0.wf(),
        s0.pinned(),
        store_transition(s0, s1, first),
        store_transition(s1, s2, second),
        release_transition(s2, s3),
        load_transition(s3, s4),
    ensures
        s2.pinned_value() == s0.pinned_value(),
        s4.pinned_value() == second,
{
    law_store_preserves_wf(s0, s1, first);
    law_store_keeps_snapshot(s0, s1, first);
    law_snapshot_until_release(s1, s2, s3, s4, second);
}

/// Law: while no handle is outstanding, the canonical bucket is the one and
/// only live bucket. Tearing the channel down in that state therefore
/// destroys exactly one value: the latest published one.
pub proof fn law_at_rest_single_live<T>(s: MontyHall<T>)
    requires
        s.wf(),
        !s.pinned(),
    ensures
        forall|i: int| 0 <= i < 3 ==> ((#[trigger] s.slot(i)) is Some <==> i == s.canonical()),
{
}

} // verus!

//! Adoption of inherited file descriptors as owned listener handles.

use vstd::prelude::*;

verus! {

/// First file descriptor number used for inherited sockets, immediately
/// after standard input, output and error.
pub const SD_LISTEN_FDS_START: i32 = 3;

/// An owned handle to one inherited listening-socket descriptor.
///
/// A `Listener` is constructed from a raw descriptor number exactly once per
/// descriptor and owns it from then on; the type is deliberately not
/// cloneable, so ownership of the underlying descriptor is never duplicated.
/// Construction performs no validation of the descriptor's underlying type:
/// the supervisor contract is trusted to hand over listening sockets.
pub struct Listener {
    fd: i32,
}

impl View for Listener {
    type V = int;

    closed spec fn view(&self) -> int {
        self.fd as int
    }
}

impl Listener {
    /// Takes ownership of the raw descriptor number `fd`.
    pub fn from_raw(fd: i32) -> (r: Listener)
        ensures
            r@ == fd as int,
    {
        Listener { fd }
    }

    /// Gives up ownership, handing the raw descriptor number back.
    pub fn into_raw(self) -> (r: i32)
        ensures
            r as int == self@,
    {
        self.fd
    }

    /// The raw descriptor number, without giving up ownership.
    pub fn raw_fd(&self) -> (r: i32)
        ensures
            r as int == self@,
    {
        self.fd
    }
}

/// The descriptor numbers that adoption of `count` descriptors hands out:
/// the contiguous ascending range starting at the fixed first descriptor.
pub open spec fn adopted_fds(count: int) -> Seq<int> {
    Seq::new(count as nat, |i: int| SD_LISTEN_FDS_START as int + i)
}

/// The descriptor numbers underlying a sequence of listeners, in order.
pub open spec fn listener_fds(s: Seq<Listener>) -> Seq<int> {
    s.map_values(|l: Listener| l@)
}

/// Adopts `count` inherited descriptors, producing one owned listener per
/// descriptor number in the contiguous range starting at
/// [`SD_LISTEN_FDS_START`], in ascending order. Infallible for every count
/// whose descriptor numbers are representable.
pub fn adopt_descriptors(count: u64) -> (r: Vec<Listener>)
    requires
        count as int + SD_LISTEN_FDS_START as int <= i32::MAX as int,
    ensures
        r@.len() == count as int,
        forall|k: int|
            0 <= k < count as int ==> (#[trigger] r@[k])@ == SD_LISTEN_FDS_START as int + k,
        listener_fds(r@) == adopted_fds(count as int),
{
    let mut listeners: Vec<Listener> = Vec::new();
    let mut i: u64 = 0;
    while i < count
        invariant
            i <= count,
            count as int + SD_LISTEN_FDS_START as int <= i32::MAX as int,
            listeners@.len() == i as int,
            forall|k: int|
                0 <= k < i as int ==> (#[trigger] listeners@[k])@ == SD_LISTEN_FDS_START as int
                    + k,
        decreases count - i,
    {
        let fd: i32 = SD_LISTEN_FDS_START + (i as i32);
        listeners.push(Listener::from_raw(fd));
        i = i + 1;
    }
    proof {
        assert(listener_fds(listeners@) =~= adopted_fds(count as int));
    }
    listeners
}

/// Adoption neither skips nor repeats a descriptor: for a count of `n`, the
/// adopted descriptor numbers are pairwise distinct, strictly ascending, and
/// are exactly the integers of the range starting at [`SD_LISTEN_FDS_START`]
/// of length `n`.
pub proof fn lemma_adoption_exact_coverage(n: int)
    requires
        0 <= n,
    ensures
        adopted_fds(n).len() == n,
        forall|i: int, j: int| 0 <= i < j < n ==> adopted_fds(n)[i] < adopted_fds(n)[j],
        forall|i: int, j: int| 0 <= i < j < n ==> adopted_fds(n)[i] != adopted_fds(n)[j],
        forall|fd: int|
            adopted_fds(n).contains(fd) <==> SD_LISTEN_FDS_START as int <= fd
                < SD_LISTEN_FDS_START as int + n,
{
    assert forall|fd: int|
        adopted_fds(n).contains(fd) <==> SD_LISTEN_FDS_START as int <= fd
            < SD_LISTEN_FDS_START as int + n by {
        if SD_LISTEN_FDS_START as int <= fd < SD_LISTEN_FDS_START as int + n {
            assert(adopted_fds(n)[fd - SD_LISTEN_FDS_START as int] == fd);
        }
    }
}

} // verus!

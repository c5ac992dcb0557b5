//! Recovery of pre-bound listening sockets handed to a process by a
//! supervisor through inherited file descriptors.
//!
//! The supervisor binds and listens before this process starts; the number of
//! inherited descriptors is communicated out of band (an environment variable
//! or a query to a system library), and the descriptors themselves occupy the
//! contiguous range starting at [`adopt::SD_LISTEN_FDS_START`]. This crate
//! holds the verified core: validating the reported count, classifying
//! failures, and adopting each descriptor exactly once, in ascending order.

pub mod adopt;
pub mod count;
pub mod errors;

use vstd::prelude::*;

use crate::adopt::{adopt_descriptors, adopted_fds, listener_fds, Listener, SD_LISTEN_FDS_START};
use crate::count::{env_count, env_value_view, parse_listen_fds};
use crate::errors::{classify_load_failure, Error, LoadFailure};

verus! {

/// What one run of the descriptor-count source observed: either the integer
/// the discovery function returned, or a dynamic-loading failure.
#[derive(Debug)]
pub enum CountOutcome {
    /// The discovery function ran and returned this value. A negative value
    /// is not a count but an encoded OS error.
    Count(i32),
    /// The discovery function could not be reached at all.
    Failed(LoadFailure),
}

/// The outcome that activation owes for a reported count: an OS-error code
/// for a negative count, and otherwise the adopted descriptor range.
pub open spec fn activation_spec(nfds: int) -> Result<Seq<int>, int> {
    if nfds < 0 {
        Err(0 - nfds)
    } else {
        Ok(adopted_fds(nfds))
    }
}

/// Turns the value returned by the discovery function into the final
/// activation result: a negative value becomes an OS-error failure carrying
/// its negation, and a non-negative value `n` is adopted as `n` listeners
/// over the contiguous descriptor range starting at [`SD_LISTEN_FDS_START`].
pub fn socket_activation_from_count(nfds: i32) -> (r: Result<Vec<Listener>, Error>)
    requires
        i32::MIN < nfds,
        nfds as int + SD_LISTEN_FDS_START as int <= i32::MAX as int,
    ensures
        nfds >= 0 ==> (r matches Ok(v) && listener_fds(v@) == adopted_fds(nfds as int)
            && v@.len() == nfds as int && (forall|k: int|
            0 <= k < nfds as int ==> (#[trigger] v@[k])@ == SD_LISTEN_FDS_START as int + k)),
        nfds < 0 ==> (r matches Err(e) && e matches Error::Systemd(c) && c as int == 0 - nfds
            as int),
        match r {
            Ok(v) => activation_spec(nfds as int) == Ok::<Seq<int>, int>(listener_fds(v@)),
            Err(e) => e matches Error::Systemd(c) && activation_spec(nfds as int) == Err::<
                Seq<int>,
                int,
            >(c as int),
        },
{
    if nfds < 0 {
        Err(Error::Systemd(-nfds))
    } else {
        Ok(adopt_descriptors(nfds as u64))
    }
}

/// The environment-variable strategy's entry point: reads the count out of
/// the optional variable value and adopts that many descriptors. This
/// strategy never fails — an absent or malformed value yields zero
/// listeners, not an error.
pub fn socket_activation_from_env(value: Option<&[u8]>) -> (r: Result<Vec<Listener>, Error>)
    requires
        env_count(env_value_view(value)) + SD_LISTEN_FDS_START as int <= i32::MAX as int,
    ensures
        r matches Ok(v) && listener_fds(v@) == adopted_fds(env_count(env_value_view(value)))
            && v@.len() == env_count(env_value_view(value)) && (forall|k: int|
            0 <= k < v@.len() ==> (#[trigger] v@[k])@ == SD_LISTEN_FDS_START as int + k),
{
    let count: u64 = parse_listen_fds(value);
    Ok(adopt_descriptors(count))
}

/// The dynamic- and static-link strategies' entry point: given what one run
/// of the descriptor-count source observed, produce the listeners or the
/// classified failure. Loading failures propagate classified; a negative
/// count becomes the OS-error failure; a non-negative count is adopted.
pub fn socket_activation(outcome: CountOutcome) -> (r: Result<Vec<Listener>, Error>)
    requires
        outcome matches CountOutcome::Count(nfds) ==> i32::MIN < nfds && nfds as int
            + SD_LISTEN_FDS_START as int <= i32::MAX as int,
    ensures
        outcome matches CountOutcome::Count(nfds) ==> match r {
            Ok(v) => activation_spec(nfds as int) == Ok::<Seq<int>, int>(listener_fds(v@)),
            Err(e) => e matches Error::Systemd(c) && activation_spec(nfds as int) == Err::<
                Seq<int>,
                int,
            >(c as int),
        },
        outcome matches CountOutcome::Count(nfds) ==> ((nfds >= 0 ==> (r matches Ok(v) && v@.len()
            == nfds as int && (forall|k: int|
            0 <= k < nfds as int ==> (#[trigger] v@[k])@ == SD_LISTEN_FDS_START as int + k)))
            && (nfds < 0 ==> (r matches Err(e) && e matches Error::Systemd(c) && c as int == 0
            - nfds as int))),
        outcome matches CountOutcome::Failed(LoadFailure::LibraryNotFound(m)) ==> (r matches Err(e)
            && e matches Error::LibLoadingFailedToLoadSystemd(d) && d == m),
        outcome matches CountOutcome::Failed(LoadFailure::LibraryOther(m)) ==> (r matches Err(e)
            && e matches Error::LibLoading(d) && d == m),
        outcome matches CountOutcome::Failed(LoadFailure::SymbolNotFound(m)) ==> (r matches Err(e)
            && e matches Error::LibLoading(d) && d == m),
{
    match outcome {
        CountOutcome::Count(nfds) => socket_activation_from_count(nfds),
        CountOutcome::Failed(f) => Err(classify_load_failure(f)),
    }
}

/// Activation is idempotent with respect to the hand-off signal: the
/// discovery function is invoked with "do not unset the environment", so a
/// second invocation observes the same count as the first, and the outcome
/// owed for a count is a function of that count alone — two invocations
/// that observe the same count are owed the same outcome.
pub proof fn lemma_activation_idempotent(nfds_first: int, nfds_second: int)
    requires
        nfds_first == nfds_second,
    ensures
        activation_spec(nfds_first) == activation_spec(nfds_second),
{
}

} // verus!

//! Incoming tunnels: what the relay decides around its listening sockets.

pub mod tls;
pub mod udp;

use vstd::prelude::*;

verus! {

/// The number of workers for a machine that reports `available` units of
/// parallelism: that many, and one where it reports none.
pub open spec fn workers_for(available: Option<usize>) -> usize {
    match available {
        Some(k) => if k >= 1 {
            k
        } else {
            1
        },
        None => 1,
    }
}

/// How many receive workers to run: one for each unit of parallelism that
/// the machine reports, and one where it reports none.
pub fn worker_count(available: Option<usize>) -> (n: usize)
    ensures
        n == workers_for(available),
        n >= 1,
{
    match available {
        Some(k) => if k >= 1 {
            k
        } else {
            1
        },
        None => 1,
    }
}

} // verus!

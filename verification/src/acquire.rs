use vstd::prelude::*;

use crate::error::UdpError;

verus! {

/// The number of extra ports the transport tries after the preferred one.
pub const BIND_RETRIES: usize = 3;

/// The port-contention recovery plan behind socket acquisition: starting from
/// a preferred port, it offers `port`, `port + 1`, `port + 2`, ... (wrapping
/// past the top of the port range) for up to `retries` extra attempts, then
/// reports exhaustion. The caller's socket layer drives it: try the offered
/// port, and on a bind failure record the failure and ask again.
pub struct SocketAcquirer {
    /// The preferred port, offered first.
    pub base_port: u16,
    /// How many extra adjacent ports may be tried after the preferred one.
    pub budget: usize,
    /// How many attempts have failed so far.
    pub attempt: usize,
}

impl SocketAcquirer {
    /// The port offered after `self.attempt` recorded failures, or `None`
    /// once the budget is spent.
    pub open spec fn offer_spec(&self) -> Option<u16> {
        if self.attempt <= self.budget {
            Some(((self.base_port + self.attempt) % 0x1_0000) as u16)
        } else {
            None
        }
    }

    /// A fresh plan: the preferred port itself is offered first.
    pub fn new(port: u16, retries: usize) -> (r: SocketAcquirer)
        requires
            retries < usize::MAX,
        ensures
            r.base_port == port,
            r.budget == retries,
            r.attempt == 0,
    {
        SocketAcquirer { base_port: port, budget: retries, attempt: 0 }
    }

    /// The port to try now, or `None` once every attempt in the budget has
    /// failed.
    pub fn next_port(&self) -> (r: Option<u16>)
        ensures
            r == self.offer_spec(),
    {
        if self.attempt <= self.budget {
            let wrapped: usize = (self.base_port as usize + self.attempt % 0x1_0000) % 0x1_0000;
            proof {
                vstd::arithmetic::div_mod::lemma_add_mod_noop_right(
                    self.base_port as int,
                    self.attempt as int,
                    0x1_0000,
                );
            }
            Some(wrapped as u16)
        } else {
            None
        }
    }

    /// Record that binding the offered port failed, moving on to the next one.
    pub fn record_failure(&mut self)
        requires
            old(self).attempt <= old(self).budget,
            old(self).budget < usize::MAX,
        ensures
            final(self).base_port == old(self).base_port,
            final(self).budget == old(self).budget,
            final(self).attempt == old(self).attempt + 1,
    {
        self.attempt = self.attempt + 1;
    }

    /// Whether the whole retry budget has been spent without a successful bind.
    pub fn exhausted(&self) -> (r: bool)
        ensures
            r == (self.offer_spec() is None),
    {
        self.attempt > self.budget
    }

    /// The error that socket acquisition surfaces once the budget is spent,
    /// annotated with the retry budget that was exhausted.
    pub fn exhausted_error(&self) -> (r: UdpError)
        ensures
            r == (UdpError::BindExhausted { attempts: self.budget }),
    {
        UdpError::BindExhausted { attempts: self.budget }
    }
}

/// The port offered by a fresh plan for `port` with budget `retries` after
/// `failures` recorded bind failures.
pub open spec fn offer_after(port: u16, retries: usize, failures: usize) -> Option<u16> {
    (SocketAcquirer { base_port: port, budget: retries, attempt: failures }).offer_spec()
}

/// Bind fallback: while the retry budget lasts, each failed attempt moves the
/// offer to the next adjacent port, so a port occupied by another socket is
/// skipped and the acquisition succeeds at the first free one; once `retries`
/// extra attempts have failed, nothing more is offered and acquisition fails
/// with the bind-exhausted error.
pub proof fn lemma_bind_fallback(port: u16, retries: usize, failures: usize)
    requires
        retries < usize::MAX,
        failures <= retries + 1,
    ensures
        failures <= retries ==> offer_after(port, retries, failures) == Some(
            ((port + failures) % 0x1_0000) as u16,
        ),
        failures > retries ==> offer_after(port, retries, failures) is None,
{
}

} // verus!

//! The outgoing UDP tunnel: one datagram per frame.

use vstd::prelude::*;
use bytes::Bytes;
use crate::addr::Endpoint;
use crate::buf::bytes_seq;
use crate::tunnels::errors::{TunnelError, PAYLOAD_SIZE_OVERFLOW};
use crate::tunnels::header::{extend_payload, frame_bytes, HEADER_SIZE, MAX_IP_FRAME_SIZE};
use crate::tunnels::outgoing::session::{SessionRules, SessionState};

verus! {

/// An outgoing UDP tunnel: where it sends to, which primary node its frames
/// name, and its session.
#[derive(Clone, Copy, Debug, PartialEq, Eq, Structural)]
pub struct UDPTunnel {
    pub addr: Option<Endpoint>,
    pub primary_node: Option<Endpoint>,
    pub rules: SessionRules,
    pub session: SessionState,
}

impl Default for UDPTunnel {
    fn default() -> (t: Self)
        ensures
            t == UDPTunnel::spec_new(),
    {
        UDPTunnel::new()
    }
}

impl UDPTunnel {
    /// The tunnel that `new` makes.
    pub open spec fn spec_new() -> Self {
        UDPTunnel {
            addr: None,
            primary_node: None,
            rules: SessionRules { session_ttl: 0, keepalive: false, keepwarm: false },
            session: SessionState { connected: false, expired_at: None },
        }
    }

    /// The session rules are consistent.
    pub open spec fn wf(&self) -> bool {
        self.rules.wf()
    }

    /// A tunnel with nothing set and no session.
    pub fn new() -> (t: Self)
        ensures
            t == Self::spec_new(),
            t.wf(),
    {
        UDPTunnel {
            addr: None,
            primary_node: None,
            rules: SessionRules::new(),
            session: SessionState::new(),
        }
    }

    /// The tunnel of a configured node: it sends to `addr`, names
    /// `primary_node` in its frames where one is given, and keeps its session
    /// for good where the node's keepalive setting is present and not zero.
    pub fn for_node(addr: Endpoint, keepalive: Option<u64>, primary_node: Option<Endpoint>) -> (t:
        Self)
        ensures
            t == (UDPTunnel {
                addr: Some(addr),
                primary_node: primary_node,
                rules: SessionRules {
                    session_ttl: 0,
                    keepalive: keepalive matches Some(k) && k != 0,
                    keepwarm: false,
                },
                session: SessionState { connected: false, expired_at: None },
            }),
            t.wf(),
    {
        let permanent = match keepalive {
            Some(k) => k != 0,
            None => false,
        };
        let t = UDPTunnel::new().set_addr(addr).set_keepalive(permanent);
        match primary_node {
            Some(pnode_addr) => t.set_primary_node(pnode_addr),
            None => t,
        }
    }

    /// Sets the address to send to.
    pub fn set_addr(self, addr: Endpoint) -> (t: Self)
        ensures
            t == (UDPTunnel { addr: Some(addr), ..self }),
    {
        UDPTunnel { addr: Some(addr), ..self }
    }

    /// Sets the primary node that every frame names.
    pub fn set_primary_node(self, pnode_addr: Endpoint) -> (t: Self)
        ensures
            t == (UDPTunnel { primary_node: Some(pnode_addr), ..self }),
    {
        UDPTunnel { primary_node: Some(pnode_addr), ..self }
    }

    /// Sets the session's lifetime in milliseconds. A lifetime other than
    /// zero ends permanence.
    pub fn set_session_ttl(self, ttl: u64) -> (t: Self)
        ensures
            t == (UDPTunnel {
                rules: SessionRules {
                    session_ttl: ttl,
                    keepalive: self.rules.keepalive && ttl == 0,
                    keepwarm: self.rules.keepwarm,
                },
                ..self
            }),
            self.wf() ==> t.wf(),
    {
        UDPTunnel { rules: self.rules.set_session_ttl(ttl), ..self }
    }

    /// Makes the session permanent or not. Permanence clears the lifetime
    /// and the sliding expiry.
    pub fn set_keepalive(self, keepalive: bool) -> (t: Self)
        ensures
            keepalive ==> t == (UDPTunnel {
                rules: SessionRules { session_ttl: 0, keepalive: true, keepwarm: false },
                ..self
            }),
            !keepalive ==> t == (UDPTunnel {
                rules: SessionRules { keepalive: false, ..self.rules },
                ..self
            }),
            t.wf(),
    {
        UDPTunnel { rules: self.rules.set_keepalive(keepalive), ..self }
    }

    /// Makes the expiry slide with every send or not. A sliding expiry ends
    /// permanence.
    pub fn set_keepwarm(self, keepwarm: bool) -> (t: Self)
        ensures
            t == (UDPTunnel {
                rules: SessionRules {
                    session_ttl: self.rules.session_ttl,
                    keepalive: self.rules.keepalive && !keepwarm,
                    keepwarm: keepwarm,
                },
                ..self
            }),
            self.wf() ==> t.wf(),
    {
        UDPTunnel { rules: self.rules.set_keepwarm(keepwarm), ..self }
    }

    /// Whether a socket has to be bound and connected before a send at time
    /// `now`: on a cold tunnel, and once the session has run out.
    pub fn needs_connect(&self, now: u64) -> (r: bool)
        ensures
            r == self.session.spec_needs_connect(now),
    {
        self.session.needs_connect(now)
    }

    /// Records that a socket was connected at time `now`.
    pub fn connected(&mut self, now: u64)
        requires
            now + old(self).rules.session_ttl <= u64::MAX,
        ensures
            final(self).session.connected,
            old(self).rules.records_expiry() ==> final(self).session.expired_at == Some(
                (now + old(self).rules.session_ttl) as u64,
            ),
            !old(self).rules.records_expiry() ==> final(self).session.expired_at == old(
                self,
            ).session.expired_at,
            *final(self) == (UDPTunnel { session: final(self).session, ..*old(self) }),
    {
        self.session = self.session.connected_at(&self.rules, now);
    }

    /// The datagram that carries `payload`: the payload behind a header
    /// that names the tunnel's primary node. A frame that would reach the
    /// frame-size limit is refused.
    pub fn frame(&self, payload: &[u8]) -> (r: Result<Bytes, TunnelError>)
        ensures
            payload@.len() + HEADER_SIZE < MAX_IP_FRAME_SIZE ==> r is Ok && bytes_seq(r->Ok_0)
                == frame_bytes(payload@, self.primary_node),
            payload@.len() + HEADER_SIZE >= MAX_IP_FRAME_SIZE ==> r is Err && r->Err_0 is Strict
                && r->Err_0.spec_code() == PAYLOAD_SIZE_OVERFLOW,
    {
        extend_payload(payload, self.primary_node)
    }

    /// Records that a datagram was sent at time `now`: a sliding expiry
    /// moves to one lifetime after `now`.
    pub fn sent(&mut self, now: u64)
        requires
            now + old(self).rules.session_ttl <= u64::MAX,
        ensures
            old(self).rules.keepwarm ==> final(self).session.expired_at == Some(
                (now + old(self).rules.session_ttl) as u64,
            ),
            !old(self).rules.keepwarm ==> final(self).session.expired_at == old(
                self,
            ).session.expired_at,
            final(self).session.connected == old(self).session.connected,
            *final(self) == (UDPTunnel { session: final(self).session, ..*old(self) }),
    {
        self.session = self.session.sent_at(&self.rules, now);
    }

    /// Records that the socket failed for good: the next send makes a new
    /// session.
    pub fn lost(&mut self)
        ensures
            *final(self) == (UDPTunnel {
                session: SessionState { connected: false, expired_at: None },
                ..*old(self)
            }),
    {
        self.session = self.session.closed();
    }
}

} // verus!

//! The outgoing TLS tunnel: frames written one after another on a stream.

use vstd::prelude::*;
use bytes::Bytes;
use crate::addr::Endpoint;
use crate::buf::bytes_seq;
use crate::tunnels::errors::{TunnelError, PAYLOAD_SIZE_OVERFLOW};
use crate::tunnels::header::{extend_payload, frame_bytes, HEADER_SIZE, MAX_IP_FRAME_SIZE};
use crate::tunnels::outgoing::session::{SessionRules, SessionState};

verus! {

/// An outgoing TLS tunnel: where it connects to, what it trusts and asks
/// for, which primary node its frames name, and its session.
#[derive(Debug)]
pub struct TLSTunnel {
    pub addr: Option<Endpoint>,
    /// Path of the file that holds the root certificates.
    pub ca: Option<String>,
    /// The server name asked for in the handshake.
    pub sni: Option<String>,
    pub primary_node: Option<Endpoint>,
    pub rules: SessionRules,
    pub session: SessionState,
    pub prevent_tot: bool,
}

impl Default for TLSTunnel {
    fn default() -> (t: Self)
        ensures
            t.is_new(),
    {
        TLSTunnel::new()
    }
}

impl TLSTunnel {
    /// Nothing is set and there is no session.
    pub open spec fn is_new(&self) -> bool {
        &&& self.addr is None
        &&& self.ca is None
        &&& self.sni is None
        &&& self.primary_node is None
        &&& self.rules == (SessionRules { session_ttl: 0, keepalive: false, keepwarm: false })
        &&& self.session == (SessionState { connected: false, expired_at: None })
        &&& !self.prevent_tot
    }

    /// The session rules are consistent.
    pub open spec fn wf(&self) -> bool {
        self.rules.wf()
    }

    /// Whether address, root certificates and server name are all set, as a
    /// connection needs them.
    pub open spec fn spec_is_configured(&self) -> bool {
        self.addr is Some && self.ca is Some && self.sni is Some
    }

    /// A tunnel with nothing set and no session.
    pub fn new() -> (t: Self)
        ensures
            t.is_new(),
            t.wf(),
    {
        TLSTunnel {
            addr: None,
            ca: None,
            sni: None,
            primary_node: None,
            rules: SessionRules::new(),
            session: SessionState::new(),
            prevent_tot: false,
        }
    }

    /// Sets the address to connect to.
    pub fn set_addr(self, addr: Endpoint) -> (t: Self)
        ensures
            t == (TLSTunnel { addr: Some(addr), ..self }),
    {
        let mut t = self;
        t.addr = Some(addr);
        t
    }

    /// Sets the primary node that every frame names.
    pub fn set_primary_node(self, pnode_addr: Endpoint) -> (t: Self)
        ensures
            t == (TLSTunnel { primary_node: Some(pnode_addr), ..self }),
    {
        let mut t = self;
        t.primary_node = Some(pnode_addr);
        t
    }

    /// Sets the session's lifetime in milliseconds. A lifetime other than
    /// zero ends permanence.
    pub fn set_session_ttl(self, ttl: u64) -> (t: Self)
        ensures
            t == (TLSTunnel {
                rules: SessionRules {
                    session_ttl: ttl,
                    keepalive: self.rules.keepalive && ttl == 0,
                    keepwarm: self.rules.keepwarm,
                },
                ..self
            }),
            self.wf() ==> t.wf(),
    {
        let mut t = self;
        t.rules = t.rules.set_session_ttl(ttl);
        t
    }

    /// Makes the session permanent or not. Permanence clears the lifetime
    /// and the sliding expiry.
    pub fn set_keepalive(self, keepalive: bool) -> (t: Self)
        ensures
            keepalive ==> t == (TLSTunnel {
                rules: SessionRules { session_ttl: 0, keepalive: true, keepwarm: false },
                ..self
            }),
            !keepalive ==> t == (TLSTunnel {
                rules: SessionRules { keepalive: false, ..self.rules },
                ..self
            }),
            t.wf(),
    {
        let mut t = self;
        t.rules = t.rules.set_keepalive(keepalive);
        t
    }

    /// Makes the expiry slide with every send or not. A sliding expiry ends
    /// permanence.
    pub fn set_keepwarm(self, keepwarm: bool) -> (t: Self)
        ensures
            t == (TLSTunnel {
                rules: SessionRules {
                    session_ttl: self.rules.session_ttl,
                    keepalive: self.rules.keepalive && !keepwarm,
                    keepwarm: keepwarm,
                },
                ..self
            }),
            self.wf() ==> t.wf(),
    {
        let mut t = self;
        t.rules = t.rules.set_keepwarm(keepwarm);
        t
    }

    /// Sets whether TCP-over-TCP is to be prevented.
    pub fn set_prevent_tot(self, prevent_tot: bool) -> (t: Self)
        ensures
            t == (TLSTunnel { prevent_tot: prevent_tot, ..self }),
    {
        let mut t = self;
        t.prevent_tot = prevent_tot;
        t
    }

    /// Sets the file that holds the root certificates.
    pub fn set_ca(self, ca: String) -> (t: Self)
        ensures
            t == (TLSTunnel { ca: Some(ca), ..self }),
    {
        let mut t = self;
        t.ca = Some(ca);
        t
    }

    /// Sets the server name to ask for.
    pub fn set_sni(self, sni: String) -> (t: Self)
        ensures
            t == (TLSTunnel { sni: Some(sni), ..self }),
    {
        let mut t = self;
        t.sni = Some(sni);
        t
    }

    /// Whether address, root certificates and server name are all set.
    pub fn is_configured(&self) -> (r: bool)
        ensures
            r == self.spec_is_configured(),
    {
        self.addr.is_some() && self.ca.is_some() && self.sni.is_some()
    }

    /// Whether a connection has to be made, and the handshake done, before a
    /// send at time `now`: on a cold tunnel, and once the session has run
    /// out.
    pub fn needs_connect(&self, now: u64) -> (r: bool)
        ensures
            r == self.session.spec_needs_connect(now),
    {
        self.session.needs_connect(now)
    }

    /// Records that the stream was connected at time `now`.
    pub fn connected(&mut self, now: u64)
        requires
            now + old(self).rules.session_ttl <= u64::MAX,
        ensures
            final(self).session.connected,
            old(self).rules.records_expiry() ==> final(self).session.expired_at == Some(
                (now + old(self).rules.session_ttl) as u64,
            ),
            !old(self).rules.records_expiry() ==> final(self).session.expired_at == old(
                self,
            ).session.expired_at,
            *final(self) == (TLSTunnel { session: final(self).session, ..*old(self) }),
    {
        self.session = self.session.connected_at(&self.rules, now);
    }

    /// The bytes to write for `payload`, all at once: the payload behind a
    /// header that names the tunnel's primary node. A frame that would reach
    /// the frame-size limit is refused.
    pub fn frame(&self, payload: &[u8]) -> (r: Result<Bytes, TunnelError>)
        ensures
            payload@.len() + HEADER_SIZE < MAX_IP_FRAME_SIZE ==> r is Ok && bytes_seq(r->Ok_0)
                == frame_bytes(payload@, self.primary_node),
            payload@.len() + HEADER_SIZE >= MAX_IP_FRAME_SIZE ==> r is Err && r->Err_0 is Strict
                && r->Err_0.spec_code() == PAYLOAD_SIZE_OVERFLOW,
    {
        extend_payload(payload, self.primary_node)
    }

    /// Records that a frame was written at time `now`: a sliding expiry
    /// moves to one lifetime after `now`.
    pub fn sent(&mut self, now: u64)
        requires
            now + old(self).rules.session_ttl <= u64::MAX,
        ensures
            old(self).rules.keepwarm ==> final(self).session.expired_at == Some(
                (now + old(self).rules.session_ttl) as u64,
            ),
            !old(self).rules.keepwarm ==> final(self).session.expired_at == old(
                self,
            ).session.expired_at,
            final(self).session.connected == old(self).session.connected,
            *final(self) == (TLSTunnel { session: final(self).session, ..*old(self) }),
    {
        self.session = self.session.sent_at(&self.rules, now);
    }

    /// Ends the session. Gives `true` exactly where a stream was up: the
    /// caller then joins its halves and closes it; without one there is
    /// nothing to do. Either way the tunnel is cold afterwards.
    pub fn shutdown(&mut self) -> (close: bool)
        ensures
            close == old(self).session.connected,
            *final(self) == (TLSTunnel {
                session: SessionState { connected: false, expired_at: None },
                ..*old(self)
            }),
    {
        let close = self.session.connected;
        self.session = self.session.closed();
        close
    }
}

} // verus!

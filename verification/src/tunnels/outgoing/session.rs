//! The session of an outgoing tunnel: its lifetime rules and its state.
//! Times are milliseconds on the caller's clock.

use vstd::prelude::*;

verus! {

/// How long a session lives. The three modes exclude each other: permanent
/// (`keepalive`), sliding (`keepwarm`: every send moves the expiry), and
/// fixed (a `session_ttl` without `keepwarm`: the expiry is set at connect).
#[derive(Clone, Copy, Debug, PartialEq, Eq, Structural)]
pub struct SessionRules {
    pub session_ttl: u64,
    pub keepalive: bool,
    pub keepwarm: bool,
}

/// The lifetime mode that rules amount to.
#[derive(Clone, Copy, Debug, PartialEq, Eq, Structural)]
pub enum SessionMode {
    /// The session never expires.
    Permanent,
    /// The expiry moves with every send.
    Sliding,
    /// The expiry is fixed when the session is made.
    Fixed,
    /// No lifetime is set: no expiry is recorded.
    Unset,
}

impl SessionRules {
    /// A permanent session has neither a lifetime nor a sliding expiry.
    pub open spec fn wf(&self) -> bool {
        self.keepalive ==> !self.keepwarm && self.session_ttl == 0
    }

    /// Whether the session never expires.
    pub open spec fn is_permanent(&self) -> bool {
        self.keepalive
    }

    /// Whether the expiry moves with every send.
    pub open spec fn is_sliding(&self) -> bool {
        self.keepwarm
    }

    /// Whether the expiry is fixed at connect.
    pub open spec fn is_fixed(&self) -> bool {
        self.session_ttl != 0 && !self.keepwarm
    }

    /// Whether an expiry is recorded when the session is made.
    pub open spec fn records_expiry(&self) -> bool {
        self.keepwarm || self.session_ttl != 0
    }

    pub open spec fn spec_mode(&self) -> SessionMode {
        if self.keepalive {
            SessionMode::Permanent
        } else if self.keepwarm {
            SessionMode::Sliding
        } else if self.session_ttl != 0 {
            SessionMode::Fixed
        } else {
            SessionMode::Unset
        }
    }

    /// Rules with no lifetime set.
    pub fn new() -> (r: Self)
        ensures
            r == (SessionRules { session_ttl: 0, keepalive: false, keepwarm: false }),
            r.wf(),
    {
        SessionRules { session_ttl: 0, keepalive: false, keepwarm: false }
    }

    /// Sets the lifetime. A lifetime other than zero ends permanence.
    pub fn set_session_ttl(self, ttl: u64) -> (r: Self)
        ensures
            r == (SessionRules {
                session_ttl: ttl,
                keepalive: self.keepalive && ttl == 0,
                keepwarm: self.keepwarm,
            }),
            self.wf() ==> r.wf(),
    {
        let keepalive = if ttl != 0 {
            false
        } else {
            self.keepalive
        };
        SessionRules { session_ttl: ttl, keepalive, keepwarm: self.keepwarm }
    }

    /// Makes the session permanent or not. Permanence clears the lifetime
    /// and the sliding expiry.
    pub fn set_keepalive(self, keepalive: bool) -> (r: Self)
        ensures
            keepalive ==> r == (SessionRules { session_ttl: 0, keepalive: true, keepwarm: false }),
            !keepalive ==> r == (SessionRules { keepalive: false, ..self }),
            r.wf(),
    {
        if keepalive {
            SessionRules { session_ttl: 0, keepalive: true, keepwarm: false }
        } else {
            SessionRules { session_ttl: self.session_ttl, keepalive: false, keepwarm: self.keepwarm }
        }
    }

    /// Makes the expiry slide or not. A sliding expiry ends permanence.
    pub fn set_keepwarm(self, keepwarm: bool) -> (r: Self)
        ensures
            r == (SessionRules {
                session_ttl: self.session_ttl,
                keepalive: self.keepalive && !keepwarm,
                keepwarm: keepwarm,
            }),
            self.wf() ==> r.wf(),
    {
        let keepalive = if keepwarm {
            false
        } else {
            self.keepalive
        };
        SessionRules { session_ttl: self.session_ttl, keepalive, keepwarm }
    }

    /// The lifetime mode.
    pub fn mode(&self) -> (m: SessionMode)
        ensures
            m == self.spec_mode(),
    {
        if self.keepalive {
            SessionMode::Permanent
        } else if self.keepwarm {
            SessionMode::Sliding
        } else if self.session_ttl != 0 {
            SessionMode::Fixed
        } else {
            SessionMode::Unset
        }
    }
}

/// Whether a session is up, and when it expires.
#[derive(Clone, Copy, Debug, PartialEq, Eq, Structural)]
pub struct SessionState {
    pub connected: bool,
    pub expired_at: Option<u64>,
}

impl SessionState {
    /// Whether the session has run out at time `now`.
    pub open spec fn spec_is_expired(&self, now: u64) -> bool {
        self.expired_at matches Some(at) && now >= at
    }

    /// Whether a session has to be made before a send at time `now`: there
    /// is none, or it has run out.
    pub open spec fn spec_needs_connect(&self, now: u64) -> bool {
        !self.connected || self.spec_is_expired(now)
    }

    /// No session yet.
    pub fn new() -> (s: Self)
        ensures
            s == (SessionState { connected: false, expired_at: None }),
    {
        SessionState { connected: false, expired_at: None }
    }

    /// Whether the session has run out at time `now`.
    pub fn is_expired(&self, now: u64) -> (r: bool)
        ensures
            r == self.spec_is_expired(now),
    {
        match self.expired_at {
            Some(at) => now >= at,
            None => false,
        }
    }

    /// Whether a session has to be made before a send at time `now`.
    pub fn needs_connect(&self, now: u64) -> (r: bool)
        ensures
            r == self.spec_needs_connect(now),
    {
        !self.connected || self.is_expired(now)
    }

    /// The state once a session was made at time `now`: where the rules
    /// record an expiry, it is one lifetime after `now`; else the expiry
    /// stays as it was.
    pub fn connected_at(self, rules: &SessionRules, now: u64) -> (s: Self)
        requires
            now + rules.session_ttl <= u64::MAX,
        ensures
            s.connected,
            rules.records_expiry() ==> s.expired_at == Some((now + rules.session_ttl) as u64),
            !rules.records_expiry() ==> s.expired_at == self.expired_at,
    {
        if rules.keepwarm || rules.session_ttl != 0 {
            SessionState { connected: true, expired_at: Some(now + rules.session_ttl) }
        } else {
            SessionState { connected: true, expired_at: self.expired_at }
        }
    }

    /// The state once a payload was sent at time `now`: a sliding expiry
    /// moves to one lifetime after `now`; any other stays.
    pub fn sent_at(self, rules: &SessionRules, now: u64) -> (s: Self)
        requires
            now + rules.session_ttl <= u64::MAX,
        ensures
            s.connected == self.connected,
            rules.keepwarm ==> s.expired_at == Some((now + rules.session_ttl) as u64),
            !rules.keepwarm ==> s.expired_at == self.expired_at,
    {
        if rules.keepwarm {
            SessionState { connected: self.connected, expired_at: Some(now + rules.session_ttl) }
        } else {
            self
        }
    }

    /// The state once the session was closed or lost.
    pub fn closed(self) -> (s: Self)
        ensures
            s == (SessionState { connected: false, expired_at: None }),
    {
        SessionState { connected: false, expired_at: None }
    }
}

/// Whatever setters are applied in whatever order, at most one lifetime mode
/// is active: a permanent session neither slides nor has a fixed expiry, and
/// a sliding one has no fixed expiry.
pub proof fn lemma_modes_exclude(r: SessionRules)
    requires
        r.wf(),
    ensures
        !(r.is_permanent() && r.is_sliding()),
        !(r.is_permanent() && r.is_fixed()),
        !(r.is_sliding() && r.is_fixed()),
{
}

/// A permanent session never needs to be made again: no expiry is recorded
/// for it at connect or at send, so once it is up it stays up.
pub proof fn lemma_permanent_never_expires(r: SessionRules, s: SessionState, now: u64)
    requires
        r.wf(),
        r.is_permanent(),
        s.expired_at is None,
        s.connected,
    ensures
        !r.records_expiry(),
        !s.spec_needs_connect(now),
{
}

/// A session with a fixed expiry is due to be made again exactly from one
/// lifetime after it was made, whatever was sent in between.
pub proof fn lemma_fixed_expiry(r: SessionRules, made: u64, now: u64)
    requires
        r.is_fixed(),
        made + r.session_ttl <= u64::MAX,
    ensures
        (SessionState {
            connected: true,
            expired_at: Some((made + r.session_ttl) as u64),
        }).spec_needs_connect(now) <==> now >= made + r.session_ttl,
{
}

} // verus!

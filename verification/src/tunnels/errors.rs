//! Error taxonomy shared by every tunnel.

use vstd::prelude::*;
use crate::text::{push_signed_decimal, signed_decimal};

verus! {

pub type ErrorCode = i32;

pub type ErrorMessage = (String, ErrorCode);

/// Code used when the operating system reported none.
pub const DEFAULT_ERROR_CODE: ErrorCode = -1;

/// Binding or connecting a transport failed without an OS code.
pub const CONNECT_ERROR: ErrorCode = -2;

/// A frame would not fit under the frame-size guard.
pub const PAYLOAD_SIZE_OVERFLOW: ErrorCode = -3;

/// The configured server name is not a valid SNI value.
pub const SNI_PARSING_ERROR: ErrorCode = -4;

/// The TLS handshake failed.
pub const TLS_CONNECT_ERROR: ErrorCode = -5;

/// No node record or peer matches the requested address.
pub const NO_PEER_FOUND: ErrorCode = -6;

/// No flow identity could be derived from a datagram.
pub const NO_IDENTITY_FOUND: ErrorCode = -7;

/// A tunnel failure: its category, a message and a code.
#[derive(Debug)]
pub enum TunnelError {
    /// Transport read or write failure.
    IO(ErrorMessage),
    /// Bind, connect, TLS, DNS or SNI failure, or a missing peer.
    Connection(ErrorMessage),
    /// Violation of an invariant; fatal.
    Strict(ErrorMessage),
}

impl TunnelError {
    /// The numeric code carried by the error.
    pub open spec fn spec_code(&self) -> ErrorCode {
        match self {
            TunnelError::IO(m) => m.1,
            TunnelError::Connection(m) => m.1,
            TunnelError::Strict(m) => m.1,
        }
    }

    /// The numeric code carried by the error.
    pub fn code(&self) -> (c: ErrorCode)
        ensures
            c == self.spec_code(),
    {
        match self {
            TunnelError::IO(m) => m.1,
            TunnelError::Connection(m) => m.1,
            TunnelError::Strict(m) => m.1,
        }
    }

    /// The message carried by the error.
    pub open spec fn spec_message(&self) -> Seq<char> {
        match self {
            TunnelError::IO(m) => m.0@,
            TunnelError::Connection(m) => m.0@,
            TunnelError::Strict(m) => m.0@,
        }
    }

    /// How the error's category is named in its text.
    pub open spec fn category_text(&self) -> Seq<char> {
        match self {
            TunnelError::IO(_) => "io error: "@,
            TunnelError::Connection(_) => "connection error: "@,
            TunnelError::Strict(_) => "pedantic error: "@,
        }
    }

    /// The text of the error: category, message and code.
    pub open spec fn spec_describe(&self) -> Seq<char> {
        self.category_text() + self.spec_message() + ", code: "@ + signed_decimal(
            self.spec_code() as int,
        )
    }

    /// The text shown for the error, such as `io error: broken pipe, code: 32`.
    pub fn describe(&self) -> (text: String)
        ensures
            text@ == self.spec_describe(),
    {
        let mut text = String::new();
        match self {
            TunnelError::IO(m) => {
                text.push_str("io error: ");
                text.push_str(m.0.as_str());
            },
            TunnelError::Connection(m) => {
                text.push_str("connection error: ");
                text.push_str(m.0.as_str());
            },
            TunnelError::Strict(m) => {
                text.push_str("pedantic error: ");
                text.push_str(m.0.as_str());
            },
        }
        text.push_str(", code: ");
        push_signed_decimal(&mut text, self.code());
        assert(text@ =~= self.spec_describe());
        text
    }

    /// Whether the error is fatal, which holds of the strict category alone.
    pub fn is_fatal(&self) -> (b: bool)
        ensures
            b == (self is Strict),
    {
        match self {
            TunnelError::Strict(_) => true,
            _ => false,
        }
    }
}


/// The code to report: the one the operating system gave, else `fallback`.
pub open spec fn code_or(os_code: Option<ErrorCode>, fallback: ErrorCode) -> ErrorCode {
    match os_code {
        Some(code) => code,
        None => fallback,
    }
}

/// A transport read or write failure, tagged with the operating system's
/// code where there is one and with the default code where there is none.
pub fn io_error(message: String, os_code: Option<ErrorCode>) -> (e: TunnelError)
    ensures
        e matches TunnelError::IO(m) && m.0@ == message@ && m.1 == code_or(
            os_code,
            DEFAULT_ERROR_CODE,
        ),
{
    let code = match os_code {
        Some(code) => code,
        None => DEFAULT_ERROR_CODE,
    };
    TunnelError::IO((message, code))
}

/// A bind or connect failure, tagged with the operating system's code where
/// there is one and with the connect code where there is none.
pub fn connect_error(message: String, os_code: Option<ErrorCode>) -> (e: TunnelError)
    ensures
        e matches TunnelError::Connection(m) && m.0@ == message@ && m.1 == code_or(
            os_code,
            CONNECT_ERROR,
        ),
{
    let code = match os_code {
        Some(code) => code,
        None => CONNECT_ERROR,
    };
    TunnelError::Connection((message, code))
}

/// A failure to close a connection, tagged with the operating system's code
/// where there is one and with the default code where there is none.
pub fn shutdown_error(message: String, os_code: Option<ErrorCode>) -> (e: TunnelError)
    ensures
        e matches TunnelError::Connection(m) && m.0@ == message@ && m.1 == code_or(
            os_code,
            DEFAULT_ERROR_CODE,
        ),
{
    let code = match os_code {
        Some(code) => code,
        None => DEFAULT_ERROR_CODE,
    };
    TunnelError::Connection((message, code))
}

/// The configured server name cannot be used for SNI.
pub fn sni_error(message: String) -> (e: TunnelError)
    ensures
        e matches TunnelError::Connection(m) && m.0@ == message@ && m.1 == SNI_PARSING_ERROR,
{
    TunnelError::Connection((message, SNI_PARSING_ERROR))
}

/// The TLS handshake failed.
pub fn tls_connect_error(message: String) -> (e: TunnelError)
    ensures
        e matches TunnelError::Connection(m) && m.0@ == message@ && m.1 == TLS_CONNECT_ERROR,
{
    TunnelError::Connection((message, TLS_CONNECT_ERROR))
}

/// A datagram has no flow identity.
pub fn no_identity_error(message: String) -> (e: TunnelError)
    ensures
        e matches TunnelError::Connection(m) && m.0@ == message@ && m.1 == NO_IDENTITY_FOUND,
{
    TunnelError::Connection((message, NO_IDENTITY_FOUND))
}

} // verus!

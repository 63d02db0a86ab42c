//! Authorization sessions and their resolution to raw session arguments.
//!
//! A module call takes up to three session arguments. An empty slot is
//! translated to the well-known "no session" sentinel where sessions are
//! optional; where the protocol mandates a session, an empty slot is a
//! `MissingAuthSession` failure instead.

use vstd::prelude::*;

verus! {

/// Raw session argument meaning "no session": the sentinel the module
/// expects in an unused session position.
pub const ESYS_TR_NONE: u32 = 0xfff;

/// Raw session argument selecting the module's built-in password
/// authorization resource.
pub const ESYS_TR_PASSWORD: u32 = 0x0ff;

/// Session attribute bit requesting decryption of the first parameter sent
/// to the module.
pub const TPMA_SESSION_DECRYPT: u8 = 0x20;

/// Session attribute bit requesting encryption of the first parameter
/// returned by the module.
pub const TPMA_SESSION_ENCRYPT: u8 = 0x40;

/// A logical authorization session held in one of the three session slots.
#[derive(Clone, Copy, PartialEq, Eq, Structural, Debug)]
pub enum AuthSession {
    /// An HMAC session, identified by its native session handle.
    HmacSession(u32),
    /// A policy session, identified by its native session handle.
    PolicySession(u32),
    /// The built-in password authorization, a well-known module resource.
    Password,
}

/// The three ordered session slots passed to the next module call. Slot
/// order is significant: slots one, two and three map to fixed protocol
/// positions.
pub type SessionSlots = (Option<AuthSession>, Option<AuthSession>, Option<AuthSession>);

/// The raw session argument that one slot resolves to.
pub open spec fn raw_session_spec(slot: Option<AuthSession>) -> u32 {
    match slot {
        Some(AuthSession::HmacSession(h)) => h,
        Some(AuthSession::PolicySession(h)) => h,
        Some(AuthSession::Password) => ESYS_TR_PASSWORD,
        None => ESYS_TR_NONE,
    }
}

/// Resolves one session slot to the raw argument handed to the module:
/// the session's native handle, the password sentinel, or the "no session"
/// sentinel for an empty slot.
pub fn raw_session(slot: Option<AuthSession>) -> (r: u32)
    ensures
        r == raw_session_spec(slot),
{
    match slot {
        Some(AuthSession::HmacSession(h)) => h,
        Some(AuthSession::PolicySession(h)) => h,
        Some(AuthSession::Password) => ESYS_TR_PASSWORD,
        None => ESYS_TR_NONE,
    }
}

/// The kind of session the module is asked to start.
#[derive(Clone, Copy, PartialEq, Eq, Structural, Debug)]
pub enum SessionType {
    /// An HMAC authorization session.
    Hmac,
    /// A policy authorization session.
    Policy,
    /// A trial policy session, used to compute policy digests.
    Trial,
}

/// Symmetric algorithm requested for parameter encryption in a session.
#[derive(Clone, Copy, PartialEq, Eq, Structural, Debug)]
pub enum SymmetricDefinition {
    /// AES with a 128-bit key in CFB mode.
    Aes128Cfb,
    /// AES with a 256-bit key in CFB mode.
    Aes256Cfb,
    /// No symmetric algorithm.
    Null,
}

/// Digest algorithm a session authorizes with.
#[derive(Clone, Copy, PartialEq, Eq, Structural, Debug)]
pub enum HashingAlgorithm {
    Sha1,
    Sha256,
    Sha384,
    Sha512,
}

/// The parameters of a session-start request handed to the module.
#[derive(Clone, Copy, PartialEq, Eq, Structural, Debug)]
pub struct SessionRequest {
    /// The kind of session to start.
    pub session_type: SessionType,
    /// Symmetric algorithm for parameter encryption in transit.
    pub symmetric: SymmetricDefinition,
    /// Digest algorithm the session authorizes with.
    pub auth_hash: HashingAlgorithm,
}

/// The session-start request used for a fresh "null auth" session: an HMAC
/// session with default symmetric parameters and a SHA-256 digest.
pub fn nullauth_session_request() -> (r: SessionRequest)
    ensures
        r == (SessionRequest {
            session_type: SessionType::Hmac,
            symmetric: SymmetricDefinition::Aes128Cfb,
            auth_hash: HashingAlgorithm::Sha256,
        }),
{
    SessionRequest {
        session_type: SessionType::Hmac,
        symmetric: SymmetricDefinition::Aes128Cfb,
        auth_hash: HashingAlgorithm::Sha256,
    }
}

/// The attribute word and mask set on a fresh "null auth" session: both
/// decryption and encryption of parameters in transit are requested, and
/// only those two bits are touched.
pub fn nullauth_session_attributes() -> (r: (u8, u8))
    ensures
        r.0 == (TPMA_SESSION_DECRYPT | TPMA_SESSION_ENCRYPT),
        r.1 == (TPMA_SESSION_DECRYPT | TPMA_SESSION_ENCRYPT),
{
    let flags: u8 = TPMA_SESSION_DECRYPT | TPMA_SESSION_ENCRYPT;
    (flags, flags)
}

} // verus!

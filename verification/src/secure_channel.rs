//! The secure channel: security mode and policy, the active security token
//! and its predecessor, nonces, certificates and derived keys.
//!
//! Cryptographic primitives (signing, encryption, key derivation, certificate
//! parsing) are outside the core; the channel models their inputs and the
//! rules that govern them: nonce lengths, token rotation and renewal
//! deadlines.

use vstd::prelude::*;

use crate::date_time::DateTime;
use crate::status::StatusCode;

verus! {

/// The security policy of a channel. Under `None` all operations are
/// identities and nonces are empty.
#[derive(Clone, Copy, Debug, PartialEq, Eq, Structural)]
pub enum SecurityPolicy {
    NoSecurity,
    Basic256Sha256,
    Aes128Sha256RsaOaep,
    Aes256Sha256RsaPss,
}

impl SecurityPolicy {
    /// The nonce length the policy prescribes.
    pub open spec fn spec_nonce_len(self) -> nat {
        match self {
            SecurityPolicy::NoSecurity => 0,
            _ => 32,
        }
    }

    /// The nonce length the policy prescribes.
    pub fn nonce_len(self) -> (r: usize)
        ensures
            r == self.spec_nonce_len(),
    {
        match self {
            SecurityPolicy::NoSecurity => 0,
            _ => 32,
        }
    }
}

/// The message security mode of a channel.
#[derive(Clone, Copy, Debug, PartialEq, Eq, Structural)]
pub enum MessageSecurityMode {
    Invalid,
    NoSecurity,
    Sign,
    SignAndEncrypt,
}

impl MessageSecurityMode {
    /// The modes a server accepts on OpenSecureChannel.
    pub open spec fn spec_is_valid(self) -> bool {
        self == MessageSecurityMode::NoSecurity || self == MessageSecurityMode::Sign || self
            == MessageSecurityMode::SignAndEncrypt
    }

    /// Whether the mode is one a server accepts.
    pub fn is_valid(self) -> (r: bool)
        ensures
            r == self.spec_is_valid(),
    {
        match self {
            MessageSecurityMode::NoSecurity => true,
            MessageSecurityMode::Sign => true,
            MessageSecurityMode::SignAndEncrypt => true,
            MessageSecurityMode::Invalid => false,
        }
    }
}

/// The renewable credential within a secure channel.
#[derive(Clone, Copy, Debug, PartialEq, Eq, Structural)]
pub struct ChannelSecurityToken {
    /// The channel the token belongs to.
    pub channel_id: u32,
    /// The token's identity; strictly increasing within a channel.
    pub token_id: u32,
    /// When the token was issued.
    pub created_at: DateTime,
    /// The granted lifetime in milliseconds.
    pub revised_lifetime: u32,
}

/// Microsecond ticks in three quarters of a millisecond-counted lifetime.
pub open spec fn spec_renewal_ticks(lifetime_ms: u32) -> int {
    750 * lifetime_ms
}

impl ChannelSecurityToken {
    /// When a client should renew the token: three quarters of the way
    /// through its lifetime.
    ///
    /// The deadline lies strictly after `created_at` exactly when the granted
    /// lifetime is positive.
    pub fn renewal_deadline(&self) -> (r: DateTime)
        requires
            self.created_at.ticks + spec_renewal_ticks(self.revised_lifetime) <= i64::MAX,
        ensures
            r.ticks == self.created_at.ticks + spec_renewal_ticks(self.revised_lifetime),
            r.ticks > self.created_at.ticks <==> self.revised_lifetime > 0,
    {
        DateTime { ticks: self.created_at.ticks + 750 * (self.revised_lifetime as i64) }
    }
}

/// Keys derived from the two channel nonces. Derivation itself is a
/// cryptographic primitive outside the core; the model records what the keys
/// were derived from.
#[derive(Clone, Debug, PartialEq)]
pub struct DerivedKeys {
    pub local_nonce: Vec<u8>,
    pub remote_nonce: Vec<u8>,
}

/// Mathematical image of a [`SecureChannel`].
pub struct SecureChannelView {
    pub security_mode: MessageSecurityMode,
    pub security_policy: SecurityPolicy,
    pub token: ChannelSecurityToken,
    pub prev_token: Option<ChannelSecurityToken>,
    pub local_nonce: Seq<u8>,
    pub remote_nonce: Seq<u8>,
    pub remote_cert: Option<Seq<u8>>,
    pub derived_keys: Option<(Seq<u8>, Seq<u8>)>,
    pub client_offset: i64,
}

impl SecureChannelView {
    /// How long after a rotation the previous token still verifies: a quarter
    /// of the new token's granted lifetime, in microsecond ticks past its
    /// creation.
    pub open spec fn spec_grace_ticks(lifetime_ms: u32) -> int {
        250 * lifetime_ms
    }

    /// Whether a chunk bearing `token_id` verifies at time `now`: it carries
    /// the active token, or the previous token within the grace window.
    pub open spec fn spec_token_usable(self, token_id: u32, now: DateTime) -> bool {
        ||| token_id == self.token.token_id
        ||| match self.prev_token {
            Some(p) => token_id == p.token_id && now.ticks <= self.token.created_at.ticks
                + Self::spec_grace_ticks(self.token.revised_lifetime),
            None => false,
        }
    }
}

/// An authenticated, optionally encrypted, long-lived context between client
/// and server.
#[derive(Debug)]
pub struct SecureChannel {
    /// The negotiated message security mode.
    pub security_mode: MessageSecurityMode,
    /// The negotiated security policy.
    pub security_policy: SecurityPolicy,
    /// The active security token.
    pub token: ChannelSecurityToken,
    /// The previous token, kept for a grace window after rotation so that
    /// in-flight chunks signed under it still verify.
    pub prev_token: Option<ChannelSecurityToken>,
    /// This side's nonce.
    pub local_nonce: Vec<u8>,
    /// The peer's nonce.
    pub remote_nonce: Vec<u8>,
    /// The peer's certificate, as its raw bytes.
    pub remote_cert: Option<Vec<u8>>,
    /// The keys derived from the nonces, when derivation has run.
    pub derived_keys: Option<DerivedKeys>,
    /// The client/server clock offset applied to decoded server timestamps.
    pub client_offset: i64,
}

impl View for SecureChannel {
    type V = SecureChannelView;

    open spec fn view(&self) -> SecureChannelView {
        SecureChannelView {
            security_mode: self.security_mode,
            security_policy: self.security_policy,
            token: self.token,
            prev_token: self.prev_token,
            local_nonce: self.local_nonce@,
            remote_nonce: self.remote_nonce@,
            remote_cert: match &self.remote_cert {
                Some(c) => Some(c@),
                None => None,
            },
            derived_keys: match &self.derived_keys {
                Some(k) => Some((k.local_nonce@, k.remote_nonce@)),
                None => None,
            },
            client_offset: self.client_offset,
        }
    }
}

impl SecureChannel {
    /// A fresh channel: no security, channel id zero, token id zero.
    pub fn new() -> (r: SecureChannel)
        ensures
            r@.security_mode == MessageSecurityMode::NoSecurity,
            r@.security_policy == SecurityPolicy::NoSecurity,
            r@.token == (ChannelSecurityToken {
                channel_id: 0u32,
                token_id: 0u32,
                created_at: DateTime { ticks: 0i64 },
                revised_lifetime: 0u32,
            }),
            r@.prev_token is None,
            r@.local_nonce.len() == 0,
            r@.remote_nonce.len() == 0,
            r@.remote_cert is None,
            r@.derived_keys is None,
            r@.client_offset == 0,
    {
        SecureChannel {
            security_mode: MessageSecurityMode::NoSecurity,
            security_policy: SecurityPolicy::NoSecurity,
            token: ChannelSecurityToken {
                channel_id: 0,
                token_id: 0,
                created_at: DateTime { ticks: 0 },
                revised_lifetime: 0,
            },
            prev_token: None,
            local_nonce: Vec::new(),
            remote_nonce: Vec::new(),
            remote_cert: None,
            derived_keys: None,
            client_offset: 0,
        }
    }

    /// Set the message security mode.
    pub fn set_security_mode(&mut self, mode: MessageSecurityMode)
        ensures
            final (self)@ == (SecureChannelView { security_mode: mode, ..old(self)@ }),
    {
        self.security_mode = mode;
    }

    /// Set the security policy.
    pub fn set_security_policy(&mut self, policy: SecurityPolicy)
        ensures
            final (self)@ == (SecureChannelView { security_policy: policy, ..old(self)@ }),
    {
        self.security_policy = policy;
    }

    /// The id of the channel.
    pub fn secure_channel_id(&self) -> (r: u32)
        ensures
            r == self@.token.channel_id,
    {
        self.token.channel_id
    }

    /// The id of the active token.
    pub fn token_id(&self) -> (r: u32)
        ensures
            r == self@.token.token_id,
    {
        self.token.token_id
    }

    /// The negotiated security policy.
    pub fn security_policy(&self) -> (r: SecurityPolicy)
        ensures
            r == self@.security_policy,
    {
        self.security_policy
    }

    /// The negotiated security mode.
    pub fn security_mode(&self) -> (r: MessageSecurityMode)
        ensures
            r == self@.security_mode,
    {
        self.security_mode
    }

    /// Set the channel id of the active token.
    pub fn set_secure_channel_id(&mut self, id: u32)
        ensures
            final (self)@ == (SecureChannelView {
                token: ChannelSecurityToken { channel_id: id, ..old(self)@.token },
                ..old(self)@
            }),
    {
        self.token.channel_id = id;
    }

    /// Set the token id of the active token.
    pub fn set_token_id(&mut self, id: u32)
        ensures
            final (self)@ == (SecureChannelView {
                token: ChannelSecurityToken { token_id: id, ..old(self)@.token },
                ..old(self)@
            }),
    {
        self.token.token_id = id;
    }

    /// Set the granted lifetime of the active token.
    pub fn set_token_lifetime(&mut self, lifetime_ms: u32)
        ensures
            final (self)@ == (SecureChannelView {
                token: ChannelSecurityToken { revised_lifetime: lifetime_ms, ..old(self)@.token },
                ..old(self)@
            }),
    {
        self.token.revised_lifetime = lifetime_ms;
    }

    /// Set the creation time of the active token.
    pub fn set_token_created_at(&mut self, at: DateTime)
        ensures
            final (self)@ == (SecureChannelView {
                token: ChannelSecurityToken { created_at: at, ..old(self)@.token },
                ..old(self)@
            }),
    {
        self.token.created_at = at;
    }

    /// Replace the active token, keeping the previous one so that in-flight
    /// chunks signed under it still verify for a grace window.
    pub fn set_security_token(&mut self, token: ChannelSecurityToken)
        ensures
            final (self)@ == (SecureChannelView {
                token,
                prev_token: Some(old(self)@.token),
                ..old(self)@
            }),
    {
        self.prev_token = Some(self.token);
        self.token = token;
    }

    /// Whether a chunk bearing `token_id` verifies at time `now`.
    pub fn token_usable(&self, token_id: u32, now: DateTime) -> (r: bool)
        requires
            self@.token.created_at.ticks + SecureChannelView::spec_grace_ticks(
                self@.token.revised_lifetime,
            ) <= i64::MAX,
        ensures
            r == self@.spec_token_usable(token_id, now),
    {
        if token_id == self.token.token_id {
            return true;
        }
        match &self.prev_token {
            Some(p) => token_id == p.token_id && now.ticks <= self.token.created_at.ticks + 250
                * (self.token.revised_lifetime as i64),
            None => false,
        }
    }

    /// When the active token should be renewed.
    pub fn token_renewal_deadline(&self) -> (r: DateTime)
        requires
            self@.token.created_at.ticks + spec_renewal_ticks(self@.token.revised_lifetime)
                <= i64::MAX,
        ensures
            r.ticks == self@.token.created_at.ticks + spec_renewal_ticks(
                self@.token.revised_lifetime,
            ),
            r.ticks > self@.token.created_at.ticks <==> self@.token.revised_lifetime > 0,
    {
        self.token.renewal_deadline()
    }

    /// Set the peer's certificate from its raw bytes. The core treats only an
    /// empty certificate as unparseable; real certificate parsing is a
    /// cryptographic primitive outside it.
    pub fn set_remote_cert(&mut self, cert: Vec<u8>) -> (r: Result<(), StatusCode>)
        ensures
            cert@.len() > 0 ==> r is Ok && final (self)@ == (SecureChannelView {
                remote_cert: Some(cert@),
                ..old(self)@
            }),
            cert@.len() == 0 ==> r == Err::<(), StatusCode>(StatusCode::BadCertificateInvalid)
                && *final (self) == *old(self),
    {
        if cert.len() == 0 {
            return Err(StatusCode::BadCertificateInvalid);
        }
        self.remote_cert = Some(cert);
        Ok(())
    }

    /// Set the peer's nonce. Under a real policy the nonce must have exactly
    /// the prescribed length; under `None` any nonce is accepted as given.
    pub fn set_remote_nonce(&mut self, nonce: Vec<u8>) -> (r: Result<(), StatusCode>)
        ensures
            old(self)@.security_policy == SecurityPolicy::NoSecurity || nonce@.len() == old(
                self,
            )@.security_policy.spec_nonce_len() ==> r is Ok && final (self)@
                == (SecureChannelView { remote_nonce: nonce@, ..old(self)@ }),
            !(old(self)@.security_policy == SecurityPolicy::NoSecurity || nonce@.len() == old(
                self,
            )@.security_policy.spec_nonce_len()) ==> r == Err::<(), StatusCode>(
                StatusCode::BadNonceInvalid,
            ) && *final (self) == *old(self),
    {
        let expected = self.security_policy.nonce_len();
        match self.security_policy {
            SecurityPolicy::NoSecurity => {
                self.remote_nonce = nonce;
                Ok(())
            },
            _ => {
                if nonce.len() == expected {
                    self.remote_nonce = nonce;
                    Ok(())
                } else {
                    Err(StatusCode::BadNonceInvalid)
                }
            },
        }
    }

    /// Set this side's nonce. The caller supplies the bytes; drawing them
    /// from a random source happens outside the core.
    pub fn set_local_nonce(&mut self, nonce: Vec<u8>)
        ensures
            final (self)@ == (SecureChannelView { local_nonce: nonce@, ..old(self)@ }),
    {
        self.local_nonce = nonce;
    }

    /// The peer's nonce.
    pub fn remote_nonce(&self) -> (r: &Vec<u8>)
        ensures
            r@ == self@.remote_nonce,
    {
        &self.remote_nonce
    }

    /// This side's nonce.
    pub fn local_nonce(&self) -> (r: &Vec<u8>)
        ensures
            r@ == self@.local_nonce,
    {
        &self.local_nonce
    }

    /// Derive the symmetric keys from the two nonces. Requires a real policy;
    /// fails exactly when a nonce is shorter than the policy prescribes.
    pub fn derive_keys(&mut self) -> (r: Result<(), StatusCode>)
        requires
            old(self)@.security_policy != SecurityPolicy::NoSecurity,
        ensures
            old(self)@.local_nonce.len() >= old(self)@.security_policy.spec_nonce_len() && old(
                self,
            )@.remote_nonce.len() >= old(self)@.security_policy.spec_nonce_len() ==> r is Ok
                && final (self)@ == (SecureChannelView {
                derived_keys: Some((old(self)@.local_nonce, old(self)@.remote_nonce)),
                ..old(self)@
            }),
            !(old(self)@.local_nonce.len() >= old(self)@.security_policy.spec_nonce_len() && old(
                self,
            )@.remote_nonce.len() >= old(self)@.security_policy.spec_nonce_len()) ==> r == Err::<
                (),
                StatusCode,
            >(StatusCode::BadSecurityChecksFailed) && *final (self) == *old(self),
    {
        let expected = self.security_policy.nonce_len();
        if self.local_nonce.len() >= expected && self.remote_nonce.len() >= expected {
            let lc = self.local_nonce.clone();
            let rc = self.remote_nonce.clone();
            proof {
                assert(lc@ =~= self.local_nonce@);
                assert(rc@ =~= self.remote_nonce@);
            }
            self.derived_keys = Some(DerivedKeys { local_nonce: lc, remote_nonce: rc });
            Ok(())
        } else {
            Err(StatusCode::BadSecurityChecksFailed)
        }
    }

    /// Set the client/server clock offset used when decoding timestamps.
    pub fn set_client_offset(&mut self, offset: i64)
        ensures
            final (self)@ == (SecureChannelView { client_offset: offset, ..old(self)@ }),
    {
        self.client_offset = offset;
    }
}

} // verus!

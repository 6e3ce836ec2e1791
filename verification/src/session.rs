//! Sessions and the session table: creation, activation, closing, and the
//! validation ladder every ordinary service request passes through.

use vstd::prelude::*;

use crate::date_time::DateTime;
use crate::node_id::{clone_string, NodeId, NodeIdView};
use crate::status::StatusCode;

verus! {

/// The identity a session was activated with.
#[derive(Clone, Debug, PartialEq)]
pub struct UserToken {
    /// The user this token stands for.
    pub user: String,
}

impl View for UserToken {
    type V = Seq<char>;

    open spec fn view(&self) -> Seq<char> {
        self.user@
    }
}

/// Mathematical image of a [`Session`].
pub struct SessionView {
    pub session_id: u32,
    pub authentication_token: NodeIdView,
    pub bound_channel_id: u32,
    pub activated: bool,
    pub last_activity: DateTime,
    pub timeout_ms: u32,
    pub user_token: Seq<char>,
}

/// An application-level context above a channel, reached through an opaque
/// authentication token.
#[derive(Clone, Debug)]
pub struct Session {
    /// The numeric session id.
    pub session_id: u32,
    /// The opaque token requests authenticate with.
    pub authentication_token: NodeId,
    /// The channel the session is bound to once activated.
    pub bound_channel_id: u32,
    /// Whether ActivateSession has succeeded.
    pub activated: bool,
    /// When the session was last used.
    pub last_activity: DateTime,
    /// How long the session may sit idle, in milliseconds.
    pub timeout_ms: u32,
    /// The identity the session was activated with.
    pub user_token: UserToken,
}

impl View for Session {
    type V = SessionView;

    open spec fn view(&self) -> SessionView {
        SessionView {
            session_id: self.session_id,
            authentication_token: self.authentication_token@,
            bound_channel_id: self.bound_channel_id,
            activated: self.activated,
            last_activity: self.last_activity,
            timeout_ms: self.timeout_ms,
            user_token: self.user_token@,
        }
    }
}

/// A session is timed out when more than its timeout has passed since its
/// last activity. Timeouts are in milliseconds; time in microsecond ticks.
pub open spec fn spec_timed_out(s: SessionView, now: DateTime) -> bool {
    now.ticks - s.last_activity.ticks > 1000 * (s.timeout_ms as int)
}

/// The index of the session carrying `token`.
pub open spec fn find_session(s: Seq<SessionView>, token: NodeIdView) -> Option<int>
    decreases s.len(),
{
    if s.len() == 0 {
        None
    } else if s[0].authentication_token == token {
        Some(0int)
    } else {
        match find_session(s.drop_first(), token) {
            Some(i) => Some(i + 1),
            None => None,
        }
    }
}

/// `find_session` finds the first session carrying the token.
proof fn lemma_find_session_first(s: Seq<SessionView>, token: NodeIdView, i: int)
    requires
        0 <= i < s.len(),
        s[i].authentication_token == token,
        forall|j: int| 0 <= j < i ==> (#[trigger] s[j]).authentication_token != token,
    ensures
        find_session(s, token) == Some(i),
    decreases i,
{
    if i == 0 {
    } else {
        assert(s[0].authentication_token != token);
        assert forall|j: int|
            0 <= j < i - 1 implies (#[trigger] s.drop_first()[j]).authentication_token
            != token by {
            assert(s.drop_first()[j] == s[j + 1]);
        }
        lemma_find_session_first(s.drop_first(), token, i - 1);
    }
}

/// When no session carries the token, `find_session` finds nothing.
proof fn lemma_find_session_absent(s: Seq<SessionView>, token: NodeIdView)
    requires
        forall|j: int| 0 <= j < s.len() ==> (#[trigger] s[j]).authentication_token != token,
    ensures
        find_session(s, token) is None,
    decreases s.len(),
{
    if s.len() > 0 {
        lemma_find_session_absent(s.drop_first(), token);
    }
}

/// The whole validation ladder as one function: the session table after the
/// check, and either the session id with its user identity or the exact
/// status code refusing the request.
pub open spec fn spec_validate(
    pre: SessionManagerView,
    token: NodeIdView,
    channel_id: u32,
    now: DateTime,
) -> (SessionManagerView, Result<(u32, Seq<char>), StatusCode>) {
    match find_session(pre.sessions, token) {
        None => (pre, Err(StatusCode::BadSessionIdInvalid)),
        Some(i) => {
            let s = pre.sessions[i];
            if !s.activated {
                (pre, Err(StatusCode::BadSessionNotActivated))
            } else if s.bound_channel_id != channel_id {
                (pre, Err(StatusCode::BadSecureChannelIdInvalid))
            } else if spec_timed_out(s, now) {
                (
                    SessionManagerView { sessions: pre.sessions.remove(i), ..pre },
                    Err(StatusCode::BadSessionIdInvalid),
                )
            } else {
                (
                    SessionManagerView {
                        sessions: pre.sessions.update(i, SessionView { last_activity: now, ..s }),
                        ..pre
                    },
                    Ok((s.session_id, s.user_token)),
                )
            }
        },
    }
}

/// What validating a request yields: the session id and the user identity.
#[derive(Clone, Debug)]
pub struct ValidatedRequest {
    pub session_id: u32,
    pub user_token: UserToken,
}

/// Mathematical image of a [`SessionManager`].
pub struct SessionManagerView {
    pub sessions: Seq<SessionView>,
    pub next_session_id: u32,
}

/// The table of active sessions.
#[derive(Debug)]
pub struct SessionManager {
    /// The active sessions.
    pub sessions: Vec<Session>,
    /// The next numeric session id.
    pub next_session_id: u32,
}

impl View for SessionManager {
    type V = SessionManagerView;

    open spec fn view(&self) -> SessionManagerView {
        SessionManagerView {
            sessions: Seq::new(self.sessions@.len(), |i: int| self.sessions@[i]@),
            next_session_id: self.next_session_id,
        }
    }
}

impl SessionManager {
    /// An empty session table; session ids start at one.
    pub fn new() -> (r: SessionManager)
        ensures
            r@.sessions.len() == 0,
            r@.next_session_id == 1,
    {
        SessionManager { sessions: Vec::new(), next_session_id: 1 }
    }

    /// Find the position of the session carrying `token`.
    fn position(&self, token: &NodeId) -> (r: Option<usize>)
        ensures
            match r {
                Some(i) => i < self@.sessions.len() && self@.sessions[i as int].authentication_token
                    == token@ && find_session(self@.sessions, token@) == Some(i as int),
                None => find_session(self@.sessions, token@) is None,
            },
    {
        let mut i: usize = 0;
        while i < self.sessions.len()
            invariant
                i <= self.sessions@.len(),
                self@.sessions.len() == self.sessions@.len(),
                forall|j: int|
                    0 <= j < i ==> (#[trigger] self@.sessions[j]).authentication_token != token@,
            decreases self.sessions@.len() - i,
        {
            if self.sessions[i].authentication_token.same(token) {
                proof {
                    lemma_find_session_first(self@.sessions, token@, i as int);
                }
                return Some(i);
            }
            i += 1;
        }
        proof {
            lemma_find_session_absent(self@.sessions, token@);
        }
        None
    }

    /// Create a session: not yet activated, bound to no channel, stamped
    /// with the given creation time. The authentication token comes from the
    /// caller; drawing it from a random source happens outside the core.
    pub fn create_session(
        &mut self,
        authentication_token: NodeId,
        timeout_ms: u32,
        now: DateTime,
    ) -> (r: u32)
        requires
            old(self)@.next_session_id < u32::MAX,
        ensures
            r == old(self)@.next_session_id,
            final (self)@.next_session_id == old(self)@.next_session_id + 1,
            final (self)@.sessions == old(self)@.sessions.push(
                SessionView {
                    session_id: r,
                    authentication_token: authentication_token@,
                    bound_channel_id: 0,
                    activated: false,
                    last_activity: now,
                    timeout_ms,
                    user_token: Seq::<char>::empty(),
                },
            ),
    {
        let id = self.next_session_id;
        self.next_session_id = self.next_session_id + 1;
        self.sessions.push(
            Session {
                session_id: id,
                authentication_token,
                bound_channel_id: 0,
                activated: false,
                last_activity: now,
                timeout_ms,
                user_token: UserToken { user: String::new() },
            },
        );
        proof {
            assert(self@.sessions =~= old(self)@.sessions.push(self@.sessions.last()));
        }
        id
    }

    /// Activate the session carrying `token`: bind it to the current channel
    /// and record the user identity. Fails with `BadSessionIdInvalid` when no
    /// session carries the token.
    pub fn activate_session(
        &mut self,
        token: &NodeId,
        channel_id: u32,
        user_token: UserToken,
        now: DateTime,
    ) -> (r: Result<(), StatusCode>)
        ensures
            match find_session(old(self)@.sessions, token@) {
                Some(i) => r is Ok && final (self)@.sessions == old(self)@.sessions.update(
                    i,
                    SessionView {
                        bound_channel_id: channel_id,
                        activated: true,
                        last_activity: now,
                        user_token: user_token@,
                        ..old(self)@.sessions[i]
                    },
                ) && final (self)@.next_session_id == old(self)@.next_session_id,
                None => r == Err::<(), StatusCode>(StatusCode::BadSessionIdInvalid) && *final (self)
                    == *old(self),
            },
    {
        let i = match self.position(token) {
            Some(i) => i,
            None => {
                return Err(StatusCode::BadSessionIdInvalid);
            },
        };
        let s = &mut self.sessions[i];
        s.bound_channel_id = channel_id;
        s.activated = true;
        s.last_activity = now;
        s.user_token = user_token;
        proof {
            assert(self@.sessions =~= old(self)@.sessions.update(
                i as int,
                self@.sessions[i as int],
            ));
        }
        Ok(())
    }

    /// Close the session carrying `token`. Whether its subscriptions are also
    /// dropped is the subscription subsystem's business; the flag is handed
    /// through to the caller's result.
    pub fn close_session(&mut self, token: &NodeId) -> (r: Result<u32, StatusCode>)
        ensures
            match find_session(old(self)@.sessions, token@) {
                Some(i) => r == Ok::<u32, StatusCode>(old(self)@.sessions[i].session_id) && final (self)@.sessions == old(self)@.sessions.remove(i),
                None => r == Err::<u32, StatusCode>(StatusCode::BadSessionIdInvalid) && *final (self) == *old(self),
            },
    {
        let i = match self.position(token) {
            Some(i) => i,
            None => {
                return Err(StatusCode::BadSessionIdInvalid);
            },
        };
        let id = self.sessions[i].session_id;
        self.sessions.remove(i);
        proof {
            assert(self@.sessions =~= old(self)@.sessions.remove(i as int));
        }
        Ok(id)
    }

    /// The validation ladder every ordinary service request passes through:
    /// the session must exist, be activated, be bound to the channel the
    /// request arrived on, and not be timed out. A timed-out session is
    /// destroyed.
    pub fn validate_request(
        &mut self,
        token: &NodeId,
        channel_id: u32,
        now: DateTime,
    ) -> (r: Result<ValidatedRequest, StatusCode>)
        ensures
            final (self)@ == spec_validate(old(self)@, token@, channel_id, now).0,
            match spec_validate(old(self)@, token@, channel_id, now).1 {
                Ok(ok) => r matches Ok(v) && v.session_id == ok.0 && v.user_token@ == ok.1,
                Err(e) => r == Err::<ValidatedRequest, StatusCode>(e),
            },
    {
        let i = match self.position(token) {
            Some(i) => i,
            None => {
                return Err(StatusCode::BadSessionIdInvalid);
            },
        };
        if !self.sessions[i].activated {
            return Err(StatusCode::BadSessionNotActivated);
        }
        if self.sessions[i].bound_channel_id != channel_id {
            return Err(StatusCode::BadSecureChannelIdInvalid);
        }
        let elapsed = crate::date_time::saturating_sub_i64(
            now.ticks,
            self.sessions[i].last_activity.ticks,
        );
        let timed_out = {
            let limit_ms = self.sessions[i].timeout_ms;
            elapsed > 1000 * (limit_ms as i64)
        };
        if timed_out {
            proof {
                assert(spec_timed_out(old(self)@.sessions[i as int], now));
            }
            self.sessions.remove(i);
            proof {
                assert(self@.sessions =~= old(self)@.sessions.remove(i as int));
            }
            return Err(StatusCode::BadSessionIdInvalid);
        }
        let session_id = self.sessions[i].session_id;
        let user_token = UserToken { user: clone_string(&self.sessions[i].user_token.user) };
        let s = &mut self.sessions[i];
        s.last_activity = now;
        proof {
            assert(self@.sessions =~= old(self)@.sessions.update(
                i as int,
                self@.sessions[i as int],
            ));
        }
        Ok(ValidatedRequest { session_id, user_token })
    }

    /// How many sessions are active.
    pub fn len(&self) -> (r: usize)
        ensures
            r == self@.sessions.len(),
    {
        self.sessions.len()
    }
}

} // verus!

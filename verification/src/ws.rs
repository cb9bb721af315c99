//! The per-connection session gateway: the login handshake over one text
//! frame, then the streaming loop that re-authorizes every delivered event
//! against the store before it is forwarded. All transport and store access
//! stays with the caller; every decision here is a verified step function on
//! a `Session` state machine.

use vstd::prelude::*;
use vstd::string::StringExecFns;

use crate::json::invalid_user_frame;
use crate::json::invalid_user_frame_spec;
use crate::json::lookup_pair;
use crate::json::lookup_pair_exec;
use crate::json::parse_json_object;
use crate::json::StrPairView;
use crate::json::serialize_item;
use crate::json::serialize_update_list_item;
use crate::model::PermissionLevel;
use crate::model::UpdateListItem;
use crate::model::User;
use crate::permission::effective_level_rank;
use crate::permission::str_eq;
use crate::permission::user_can_see_update;
use crate::store::first_user_with_id;
use crate::store::Store;
use crate::store::StoreError;

verus! {

/// The discriminated login payload a client sends in its first text frame.
pub enum WsLoginMessage {
    Jwt { jwt: String },
    ApiKeys { key: String, secret: String },
}

pub ghost enum WsLoginMessageView {
    Jwt { jwt: Seq<char> },
    ApiKeys { key: Seq<char>, secret: Seq<char> },
}

impl View for WsLoginMessage {
    type V = WsLoginMessageView;

    open spec fn view(&self) -> WsLoginMessageView {
        match self {
            WsLoginMessage::Jwt { jwt } => WsLoginMessageView::Jwt { jwt: jwt@ },
            WsLoginMessage::ApiKeys { key, secret } => WsLoginMessageView::ApiKeys {
                key: key@,
                secret: secret@,
            },
        }
    }
}

/// The login message denoted by an object's pairs: the `type` field selects
/// the variant, the remaining fields carry the credentials.
pub open spec fn login_of_pairs(pairs: Seq<StrPairView>) -> Option<WsLoginMessageView> {
    match lookup_pair(pairs, "type"@) {
        Option::None => Option::None,
        Some(t) => if t == "Jwt"@ {
            match lookup_pair(pairs, "jwt"@) {
                Some(jwt) => Some(WsLoginMessageView::Jwt { jwt }),
                Option::None => Option::None,
            }
        } else if t == "ApiKeys"@ {
            match (lookup_pair(pairs, "key"@), lookup_pair(pairs, "secret"@)) {
                (Some(key), Some(secret)) => Some(WsLoginMessageView::ApiKeys { key, secret }),
                _ => Option::None,
            }
        } else {
            Option::None
        },
    }
}

/// Which login message a text frame denotes, if any: a JSON object whose
/// `type` field selects the variant and whose remaining fields carry the
/// credentials.
pub open spec fn login_message_of(s: Seq<char>) -> Option<WsLoginMessageView> {
    match crate::json::parse_object(s) {
        Option::None => Option::None,
        Some(pairs) => login_of_pairs(pairs),
    }
}

/// Parses the one expected login frame.
pub fn parse_ws_login(text: &str) -> (r: Result<WsLoginMessage, String>)
    ensures
        match login_message_of(text@) {
            Some(m) => r matches Ok(got) && got@ == m,
            Option::None => r matches Err(e) && e@ == "failed to parse login message"@,
        },
{
    let pairs = match parse_json_object(text) {
        Option::None => {
            return Err(String::from_str("failed to parse login message"));
        },
        Some(pairs) => pairs,
    };
    let kind = match lookup_pair_exec(&pairs, "type") {
        Option::None => {
            return Err(String::from_str("failed to parse login message"));
        },
        Some(t) => t,
    };
    if str_eq(kind.as_str(), "Jwt") {
        match lookup_pair_exec(&pairs, "jwt") {
            Some(jwt) => Ok(WsLoginMessage::Jwt { jwt }),
            Option::None => Err(String::from_str("failed to parse login message")),
        }
    } else if str_eq(kind.as_str(), "ApiKeys") {
        match lookup_pair_exec(&pairs, "key") {
            Option::None => Err(String::from_str("failed to parse login message")),
            Some(key) => match lookup_pair_exec(&pairs, "secret") {
                Option::None => Err(String::from_str("failed to parse login message")),
                Some(secret) => Ok(WsLoginMessage::ApiKeys { key, secret }),
            },
        }
    } else {
        Err(String::from_str("failed to parse login message"))
    }
}

/// A frame received from the peer, reduced to what the gateway reads.
pub enum WsFrame {
    Text(String),
    Binary,
    Ping,
    Pong,
    Close,
}

/// Where a connection stands. Failure during login or during the streaming
/// identity recheck moves it straight to `Closed`, the terminal state.
#[derive(Clone, Copy, Debug, PartialEq, Eq, Structural)]
pub enum SessionState {
    AwaitingLogin,
    Streaming,
    Closed,
}

/// What the login-frame step decided.
pub enum LoginFlow {
    /// The payload parsed; the caller must now run the credential verifier.
    NeedAuth(WsLoginMessage),
    /// Send this text, close the socket, done.
    Reject(String),
}

/// What the verifier-outcome step decided.
pub enum LoginOutcome {
    /// Send this confirmation text and start streaming.
    Accept(String),
    /// Send this text, close the socket, done.
    Reject(String),
}

/// The streaming loop's verdict on one bus item.
pub enum StreamAction {
    /// Send the serialized item to the peer.
    Forward(String),
    /// Say nothing; the connection continues.
    Skip,
    /// Send this error frame, close the socket, done.
    Disconnect(String),
}

/// The inbound loop's verdict on one peer frame.
pub enum InboundDecision {
    /// Ignore the frame and keep reading.
    Continue,
    /// Trigger cancellation: the peer closed or the transport failed.
    Cancel,
    /// The peer stream ended; stop reading.
    Stop,
}

/// The outcome the caller observed when re-fetching the session's user.
pub enum UserFetch {
    Found(User),
    Missing,
    StoreFailed(String),
}

/// The outcome the caller observed when resolving the user's level on the
/// event's target.
pub enum PermFetch {
    Level(PermissionLevel),
    StoreFailed,
}

/// One connection's state machine.
pub struct Session {
    pub state: SessionState,
    pub user: Option<User>,
}

impl Session {
    /// A streaming session always knows which account it authenticated.
    pub open spec fn wf(&self) -> bool {
        self.state == SessionState::Streaming ==> self.user is Some
    }

    /// A fresh connection, waiting for its login frame. The caller obtains
    /// its bus subscription before running the handshake, so no event
    /// published during the handshake window is missed.
    pub fn connect() -> (r: Session)
        ensures
            r.state == SessionState::AwaitingLogin,
            r.user is None,
            r.wf(),
    {
        Session { state: SessionState::AwaitingLogin, user: Option::None }
    }

    /// Handles the single expected login frame. Exactly a text frame whose
    /// payload parses moves on to credential verification; anything else is
    /// rejected with an error text and the connection is closed.
    pub fn handle_login_frame(&mut self, frame: Option<Result<WsFrame, String>>) -> (r: LoginFlow)
        requires
            old(self).state == SessionState::AwaitingLogin,
        ensures
            final(self).wf(),
            final(self).user == old(self).user,
            match frame {
                Some(Ok(WsFrame::Text(t))) => match login_message_of(t@) {
                    Some(m) => r matches LoginFlow::NeedAuth(p) && p@ == m && final(self).state
                        == SessionState::AwaitingLogin,
                    Option::None => r matches LoginFlow::Reject(msg) && msg@
                        == "failed to parse login message"@ && final(self).state
                        == SessionState::Closed,
                },
                Some(Ok(_)) => r matches LoginFlow::Reject(msg) && msg@
                    == "invalid login message"@ && final(self).state == SessionState::Closed,
                Some(Err(e)) => r matches LoginFlow::Reject(msg) && msg@
                    == "failed to get login message: "@ + e@ && final(self).state
                    == SessionState::Closed,
                Option::None => r matches LoginFlow::Reject(msg) && msg@
                    == "failed to get login message"@ && final(self).state == SessionState::Closed,
            },
    {
        match frame {
            Some(Ok(WsFrame::Text(t))) => match parse_ws_login(t.as_str()) {
                Ok(msg) => LoginFlow::NeedAuth(msg),
                Err(e) => {
                    self.state = SessionState::Closed;
                    LoginFlow::Reject(e)
                },
            },
            Some(Ok(_)) => {
                self.state = SessionState::Closed;
                LoginFlow::Reject(String::from_str("invalid login message"))
            },
            Some(Err(e)) => {
                self.state = SessionState::Closed;
                let mut msg = String::from_str("failed to get login message: ");
                msg.append(e.as_str());
                proof {
                    assert(msg@ =~= "failed to get login message: "@ + e@);
                }
                LoginFlow::Reject(msg)
            },
            Option::None => {
                self.state = SessionState::Closed;
                LoginFlow::Reject(String::from_str("failed to get login message"))
            },
        }
    }

    /// Applies the external verifier's outcome for the parsed payload. On
    /// success the confirmation text is sent and streaming starts; on
    /// failure an error text naming the scheme is sent and the connection
    /// is closed.
    pub fn handle_auth(&mut self, msg: &WsLoginMessage, auth: Result<User, String>) -> (r:
        LoginOutcome)
        requires
            old(self).state == SessionState::AwaitingLogin,
        ensures
            final(self).wf(),
            match auth {
                Ok(u) => r matches LoginOutcome::Accept(f) && f@ == "LOGGED_IN"@
                    && final(self).state == SessionState::Streaming && final(self).user == Some(u),
                Err(e) => r matches LoginOutcome::Reject(t) && t@ == (match msg {
                    WsLoginMessage::Jwt { .. } => "failed to authenticate user using jwt | "@ + e@,
                    WsLoginMessage::ApiKeys { .. } => "failed to authenticate user using api keys | "@
                        + e@,
                }) && final(self).state == SessionState::Closed,
            },
    {
        match auth {
            Ok(u) => {
                self.user = Some(u);
                self.state = SessionState::Streaming;
                LoginOutcome::Accept(String::from_str("LOGGED_IN"))
            },
            Err(e) => {
                self.state = SessionState::Closed;
                let mut t = match msg {
                    WsLoginMessage::Jwt { .. } => String::from_str(
                        "failed to authenticate user using jwt | ",
                    ),
                    WsLoginMessage::ApiKeys { .. } => String::from_str(
                        "failed to authenticate user using api keys | ",
                    ),
                };
                let ghost prefix = t@;
                t.append(e.as_str());
                proof {
                    assert(t@ =~= prefix + e@);
                }
                LoginOutcome::Reject(t)
            },
        }
    }

    /// The per-event step of the streaming loop, over the outcomes the
    /// caller observed at the store. The identity recheck must be certain:
    /// a missing or disabled account, or a failure of the user lookup
    /// itself, sends the structured error frame and closes. Authorization
    /// may be conservatively denied per event: a failed permission lookup
    /// only skips this event and the connection continues. An enabled admin
    /// bypasses the permission lookup entirely.
    pub fn handle_bus_item(
        &mut self,
        user_fetch: UserFetch,
        perm: PermFetch,
        item: &UpdateListItem,
    ) -> (r: StreamAction)
        requires
            old(self).state == SessionState::Streaming,
            old(self).wf(),
        ensures
            final(self).wf(),
            final(self).user == old(self).user,
            match user_fetch {
                UserFetch::Missing => r matches StreamAction::Disconnect(f) && f@
                    == invalid_user_frame_spec("user not found"@) && final(self).state
                    == SessionState::Closed,
                UserFetch::StoreFailed(e) => r matches StreamAction::Disconnect(f) && f@
                    == invalid_user_frame_spec(e@) && final(self).state == SessionState::Closed,
                UserFetch::Found(u) => if !u.enabled {
                    r matches StreamAction::Disconnect(f) && f@ == invalid_user_frame_spec(
                        "user not enabled"@,
                    ) && final(self).state == SessionState::Closed
                } else {
                    final(self).state == SessionState::Streaming && if u.admin {
                        r matches StreamAction::Forward(f) && f@ == serialize_item(item@)
                    } else {
                        match perm {
                            PermFetch::StoreFailed => r is Skip,
                            PermFetch::Level(l) => if l.rank() > 0 {
                                r matches StreamAction::Forward(f) && f@ == serialize_item(item@)
                            } else {
                                r is Skip
                            },
                        }
                    }
                },
            },
    {
        match user_fetch {
            UserFetch::Missing => {
                self.state = SessionState::Closed;
                StreamAction::Disconnect(invalid_user_frame("user not found"))
            },
            UserFetch::StoreFailed(e) => {
                self.state = SessionState::Closed;
                StreamAction::Disconnect(invalid_user_frame(e.as_str()))
            },
            UserFetch::Found(u) => {
                if !u.enabled {
                    self.state = SessionState::Closed;
                    StreamAction::Disconnect(invalid_user_frame("user not enabled"))
                } else if u.admin {
                    StreamAction::Forward(serialize_update_list_item(item))
                } else {
                    match perm {
                        PermFetch::StoreFailed => StreamAction::Skip,
                        PermFetch::Level(l) => {
                            if l.above(&PermissionLevel::NoAccess) {
                                StreamAction::Forward(serialize_update_list_item(item))
                            } else {
                                StreamAction::Skip
                            }
                        },
                    }
                }
            },
        }
    }

    /// The same step with the store at hand: re-fetches the session's user
    /// by id, requires it to exist and be enabled, then forwards exactly
    /// when the freshly resolved effective level on the item's target is
    /// above `NoAccess`. A grant or revocation thus takes effect on the
    /// very next event, without reconnecting.
    pub fn handle_bus_item_with_store(&mut self, store: &Store, item: &UpdateListItem) -> (r:
        StreamAction)
        requires
            old(self).state == SessionState::Streaming,
            old(self).wf(),
        ensures
            final(self).wf(),
            final(self).user == old(self).user,
            match old(self).user {
                Option::None => true,
                Some(session_user) => match first_user_with_id(
                    store.users.deep_view(),
                    session_user@.id,
                ) {
                    Option::None => r matches StreamAction::Disconnect(f) && f@
                        == invalid_user_frame_spec("user not found"@) && final(self).state
                        == SessionState::Closed,
                    Some(u) => if !u.enabled {
                        r matches StreamAction::Disconnect(f) && f@ == invalid_user_frame_spec(
                            "user not enabled"@,
                        ) && final(self).state == SessionState::Closed
                    } else {
                        final(self).state == SessionState::Streaming && if effective_level_rank(
                            u,
                            store.user_groups.deep_view(),
                            store.permissions.deep_view(),
                            item@.target,
                        ) > 0 {
                            r matches StreamAction::Forward(f) && f@ == serialize_item(item@)
                        } else {
                            r is Skip
                        }
                    },
                },
            },
    {
        let session_user_id = match &self.user {
            Some(u) => u.id.clone(),
            Option::None => {
                return StreamAction::Skip;
            },
        };
        match store.check_user_valid(session_user_id.as_str()) {
            Err(StoreError::NotFound) => {
                self.state = SessionState::Closed;
                StreamAction::Disconnect(invalid_user_frame("user not found"))
            },
            Err(_) => {
                self.state = SessionState::Closed;
                StreamAction::Disconnect(invalid_user_frame("user not enabled"))
            },
            Ok(fresh) => {
                if user_can_see_update(&fresh, &item.target, &store.user_groups, &store.permissions)
                {
                    StreamAction::Forward(serialize_update_list_item(item))
                } else {
                    StreamAction::Skip
                }
            },
        }
    }

    /// The inbound loop's step: only a close frame or a transport error is
    /// meaningful, and either triggers cancellation; the end of the stream
    /// stops the loop; everything else is ignored.
    pub fn handle_client_frame(&mut self, msg: &Option<Result<WsFrame, String>>) -> (r:
        InboundDecision)
        requires
            old(self).wf(),
        ensures
            final(self).wf(),
            final(self).user == old(self).user,
            match msg {
                Option::None => r is Stop && final(self).state == old(self).state,
                Some(Ok(WsFrame::Close)) => r is Cancel && final(self).state
                    == SessionState::Closed,
                Some(Ok(_)) => r is Continue && final(self).state == old(self).state,
                Some(Err(_)) => r is Cancel && final(self).state == SessionState::Closed,
            },
    {
        match msg {
            Option::None => InboundDecision::Stop,
            Some(Ok(WsFrame::Close)) => {
                self.state = SessionState::Closed;
                InboundDecision::Cancel
            },
            Some(Ok(_)) => InboundDecision::Continue,
            Some(Err(_)) => {
                self.state = SessionState::Closed;
                InboundDecision::Cancel
            },
        }
    }
}

} // verus!

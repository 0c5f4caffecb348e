use crate::api_error::Status;
use crate::effect::{Action, ActionView, Effect, EffectView, Reply, ReplyView};
use crate::identifier::{parse_uuid, uuid_parse_str};
use crate::store::{all_answered, answered, Exchange, Store};
use vstd::prelude::*;

verus! {

/// Why a request carries no valid token.
#[derive(Clone, Copy, Debug, PartialEq, Eq, Structural)]
pub enum TokenError {
    ParseError,
    NotFound,
    NoTokenProvided,
}

/// A row of the user-tokens table: proof that the bearer is `user_id`.
#[derive(Clone, Copy, Debug, PartialEq, Eq, Structural)]
pub struct UserToken {
    pub token: u128,
    pub user_id: u128,
}

impl DeepView for UserToken {
    type V = UserToken;

    open spec fn deep_view(&self) -> UserToken {
        *self
    }
}

/// A user token still to be issued: the store chooses the token value.
#[derive(Clone, Copy, Debug, PartialEq, Eq, Structural)]
pub struct InsertableUserToken {
    pub user_id: u128,
}

impl InsertableUserToken {
    pub fn from_user_token(user_token: UserToken) -> (insertable: InsertableUserToken)
        ensures
            insertable == (InsertableUserToken { user_id: user_token.user_id }),
    {
        InsertableUserToken { user_id: user_token.user_id }
    }
}

/// The request header that carries a user token.
pub const USER_TOKEN_HEADER: &'static str = "token";

/// The authentication of a user request in progress: the header value is
/// parsed as an identifier and looked up among the user tokens. There is
/// no expiry and no signature: a token is valid while its row exists.
#[derive(Clone, Copy, Debug, PartialEq, Eq)]
pub enum UserTokenGuard {
    Resolving { token: u128 },
    Finished(Result<UserToken, (Status, TokenError)>),
}

impl UserTokenGuard {
    /// The guard for a header whose value parsed as `parsed`.
    pub open spec fn of_parsed(parsed: Option<u128>) -> UserTokenGuard {
        match parsed {
            Some(token) => UserTokenGuard::Resolving { token },
            None => UserTokenGuard::Finished(Err((Status::BadRequest, TokenError::ParseError))),
        }
    }

    /// The guard as it starts for a request with this header value, or
    /// with none.
    pub open spec fn start(header: Option<Seq<char>>) -> UserTokenGuard {
        match header {
            Some(text) => UserTokenGuard::of_parsed(uuid_parse_str(text)),
            None => UserTokenGuard::Finished(
                Err((Status::Unauthorized, TokenError::NoTokenProvided)),
            ),
        }
    }

    /// What the guard wants next in this state.
    pub open spec fn spec_action(self) -> ActionView<UserToken, (Status, TokenError)> {
        match self {
            UserTokenGuard::Resolving { token } => ActionView::Perform(
                EffectView::FindUserToken { token },
            ),
            UserTokenGuard::Finished(result) => ActionView::Respond(result),
        }
    }

    /// The state after `reply` has answered the lookup: anything but a
    /// token row means the token is not known.
    pub open spec fn next(self, reply: ReplyView) -> UserTokenGuard {
        match self {
            UserTokenGuard::Resolving { token } => match reply {
                ReplyView::UserToken(Ok(row)) => UserTokenGuard::Finished(Ok(row)),
                _ => UserTokenGuard::Finished(Err((Status::Unauthorized, TokenError::NotFound))),
            },
            UserTokenGuard::Finished(result) => self,
        }
    }

    /// The guard, started in this state on `store`, can go through the
    /// exchanges of `trace` and then stand in state `last` on store `end`.
    pub open spec fn runs(
        self,
        store: Store,
        trace: Seq<Exchange>,
        last: UserTokenGuard,
        end: Store,
    ) -> bool
        decreases trace.len(),
    {
        if trace.len() == 0 {
            last == self && end == store
        } else {
            &&& self.spec_action() matches ActionView::Perform(effect)
            &&& store.follows(effect, trace[0].reply, trace[0].store)
            &&& self.next(trace[0].reply).runs(trace[0].store, trace.drop_first(), last, end)
        }
    }

    /// The guard for a header whose value the parser read as `parsed`.
    pub fn from_parsed(parsed: Option<u128>) -> (guard: UserTokenGuard)
        ensures
            guard == UserTokenGuard::of_parsed(parsed),
    {
        match parsed {
            Some(token) => UserTokenGuard::Resolving { token },
            None => UserTokenGuard::Finished(Err((Status::BadRequest, TokenError::ParseError))),
        }
    }

    /// Starts the authentication of a request from the value of its
    /// token header, if it has one.
    pub fn new(header: Option<&str>) -> (guard: UserTokenGuard)
        ensures
            guard == UserTokenGuard::start(
                match header {
                    Some(text) => Some(text@),
                    None => None,
                },
            ),
    {
        match header {
            Some(text) => UserTokenGuard::from_parsed(parse_uuid(text)),
            None => UserTokenGuard::Finished(
                Err((Status::Unauthorized, TokenError::NoTokenProvided)),
            ),
        }
    }

    /// What the guard wants next.
    pub fn action(&self) -> (action: Action<UserToken, (Status, TokenError)>)
        ensures
            action@ == self.spec_action(),
    {
        match self {
            UserTokenGuard::Resolving { token } => Action::Perform(
                Effect::FindUserToken { token: *token },
            ),
            UserTokenGuard::Finished(result) => Action::Respond(*result),
        }
    }
}

impl UserToken {
    /// Advances the authentication of a user request with the reply to
    /// its lookup.
    pub fn from_request(guard: UserTokenGuard, reply: Reply) -> (next: UserTokenGuard)
        ensures
            next == guard.next(reply@),
    {
        match guard {
            UserTokenGuard::Resolving { token } => match reply {
                Reply::UserToken(Ok(row)) => UserTokenGuard::Finished(Ok(row)),
                _ => UserTokenGuard::Finished(Err((Status::Unauthorized, TokenError::NotFound))),
            },
            UserTokenGuard::Finished(result) => UserTokenGuard::Finished(result),
        }
    }
}

/// A user request is authenticated exactly when its header parses as an
/// identifier under which a user-token row exists, and then as the user
/// of that row, provided the store ran the lookup. A missing header, a
/// malformed one and an unknown token are refused, each in its own way.
/// Authentication never changes the store.
pub proof fn lemma_user_token_is_a_keyed_lookup(
    header: Option<Seq<char>>,
    store: Store,
    trace: Seq<Exchange>,
    last: UserTokenGuard,
    end: Store,
)
    requires
        UserTokenGuard::start(header).runs(store, trace, last, end),
        all_answered(trace),
        last is Finished,
    ensures
        end == store,
        header is None ==> last == UserTokenGuard::Finished(
            Err((Status::Unauthorized, TokenError::NoTokenProvided)),
        ),
        header matches Some(text) ==> match uuid_parse_str(text) {
            None => last == UserTokenGuard::Finished(
                Err((Status::BadRequest, TokenError::ParseError)),
            ),
            Some(token) => if store.user_tokens.contains_key(token) {
                last == UserTokenGuard::Finished(
                    Ok(UserToken { token, user_id: store.user_tokens[token] }),
                )
            } else {
                last == UserTokenGuard::Finished(Err((Status::Unauthorized, TokenError::NotFound)))
            },
        },
{
    let start = UserTokenGuard::start(header);
    if trace.len() > 0 {
        let next = start.next(trace[0].reply);
        let rest = trace.drop_first();
        assert(answered(trace[0].reply));
        assert(next.runs(trace[0].store, rest, last, end));
        if rest.len() > 0 {
            assert(false);
        }
    }
}

} // verus!

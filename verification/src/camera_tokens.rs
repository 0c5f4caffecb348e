use crate::api_error::Status;
use crate::effect::{Action, ActionView, Effect, EffectView, Reply, ReplyView};
use crate::identifier::{parse_uuid, uuid_parse_str};
use crate::store::{all_answered, answered, Exchange, Store};
use crate::user_tokens::TokenError;
use vstd::prelude::*;

verus! {

/// A row of the camera-tokens table: proof that the bearer is the device
/// behind `camera_id`.
#[derive(Clone, Copy, Debug, PartialEq, Eq, Structural)]
pub struct CameraToken {
    pub camera_token: u128,
    pub camera_id: u128,
}

impl DeepView for CameraToken {
    type V = CameraToken;

    open spec fn deep_view(&self) -> CameraToken {
        *self
    }
}

/// A camera token still to be issued: the store chooses the token value.
#[derive(Clone, Copy, Debug, PartialEq, Eq, Structural)]
pub struct InsertableCameraToken {
    pub camera_id: u128,
}

impl InsertableCameraToken {
    pub fn from_camera_token(camera_token: CameraToken) -> (insertable: InsertableCameraToken)
        ensures
            insertable == (InsertableCameraToken { camera_id: camera_token.camera_id }),
    {
        InsertableCameraToken { camera_id: camera_token.camera_id }
    }
}

/// The request header that carries a camera token.
pub const CAMERA_TOKEN_HEADER: &'static str = "camera_token";

/// The authentication of a device request in progress: the header value
/// is parsed as an identifier and looked up among the camera tokens. The
/// token is the whole proof: its bearer may act for the one camera of its
/// row, and no link is consulted.
#[derive(Clone, Copy, Debug, PartialEq, Eq)]
pub enum CameraTokenGuard {
    Resolving { token: u128 },
    Finished(Result<CameraToken, (Status, TokenError)>),
}

impl CameraTokenGuard {
    /// The guard for a header whose value parsed as `parsed`.
    pub open spec fn of_parsed(parsed: Option<u128>) -> CameraTokenGuard {
        match parsed {
            Some(token) => CameraTokenGuard::Resolving { token },
            None => CameraTokenGuard::Finished(Err((Status::BadRequest, TokenError::ParseError))),
        }
    }

    /// The guard as it starts for a request with this header value, or
    /// with none.
    pub open spec fn start(header: Option<Seq<char>>) -> CameraTokenGuard {
        match header {
            Some(text) => CameraTokenGuard::of_parsed(uuid_parse_str(text)),
            None => CameraTokenGuard::Finished(
                Err((Status::Unauthorized, TokenError::NoTokenProvided)),
            ),
        }
    }

    /// What the guard wants next in this state.
    pub open spec fn spec_action(self) -> ActionView<CameraToken, (Status, TokenError)> {
        match self {
            CameraTokenGuard::Resolving { token } => ActionView::Perform(
                EffectView::FindCameraToken { token },
            ),
            CameraTokenGuard::Finished(result) => ActionView::Respond(result),
        }
    }

    /// The state after `reply` has answered the lookup: anything but a
    /// token row means the token is not known.
    pub open spec fn next(self, reply: ReplyView) -> CameraTokenGuard {
        match self {
            CameraTokenGuard::Resolving { token } => match reply {
                ReplyView::CameraToken(Ok(row)) => CameraTokenGuard::Finished(Ok(row)),
                _ => CameraTokenGuard::Finished(Err((Status::Unauthorized, TokenError::NotFound))),
            },
            CameraTokenGuard::Finished(result) => self,
        }
    }

    /// The guard, started in this state on `store`, can go through the
    /// exchanges of `trace` and then stand in state `last` on store `end`.
    pub open spec fn runs(
        self,
        store: Store,
        trace: Seq<Exchange>,
        last: CameraTokenGuard,
        end: Store,
    ) -> bool
        decreases trace.len(),
    {
        if trace.len() == 0 {
            last == self && end == store
        } else {
            &&& self.spec_action() matches ActionView::Perform(effect)
            &&& store.follows(effect, trace[0].reply, trace[0].store)
            &&& self.next(trace[0].reply).runs(trace[0].store, trace.drop_first(), last, end)
        }
    }

    /// The guard for a header whose value the parser read as `parsed`.
    pub fn from_parsed(parsed: Option<u128>) -> (guard: CameraTokenGuard)
        ensures
            guard == CameraTokenGuard::of_parsed(parsed),
    {
        match parsed {
            Some(token) => CameraTokenGuard::Resolving { token },
            None => CameraTokenGuard::Finished(Err((Status::BadRequest, TokenError::ParseError))),
        }
    }

    /// Starts the authentication of a request from the value of its
    /// token header, if it has one.
    pub fn new(header: Option<&str>) -> (guard: CameraTokenGuard)
        ensures
            guard == CameraTokenGuard::start(
                match header {
                    Some(text) => Some(text@),
                    None => None,
                },
            ),
    {
        match header {
            Some(text) => CameraTokenGuard::from_parsed(parse_uuid(text)),
            None => CameraTokenGuard::Finished(
                Err((Status::Unauthorized, TokenError::NoTokenProvided)),
            ),
        }
    }

    /// What the guard wants next.
    pub fn action(&self) -> (action: Action<CameraToken, (Status, TokenError)>)
        ensures
            action@ == self.spec_action(),
    {
        match self {
            CameraTokenGuard::Resolving { token } => Action::Perform(
                Effect::FindCameraToken { token: *token },
            ),
            CameraTokenGuard::Finished(result) => Action::Respond(*result),
        }
    }
}

impl CameraToken {
    /// Advances the authentication of a device request with the reply
    /// to its lookup.
    pub fn from_request(guard: CameraTokenGuard, reply: Reply) -> (next: CameraTokenGuard)
        ensures
            next == guard.next(reply@),
    {
        match guard {
            CameraTokenGuard::Resolving { token } => match reply {
                Reply::CameraToken(Ok(row)) => CameraTokenGuard::Finished(Ok(row)),
                _ => CameraTokenGuard::Finished(Err((Status::Unauthorized, TokenError::NotFound))),
            },
            CameraTokenGuard::Finished(result) => CameraTokenGuard::Finished(result),
        }
    }
}

/// A device request is authenticated exactly when its header parses as
/// an identifier under which a camera-token row exists, and then as the
/// camera of that row, provided the store ran the lookup. Authentication
/// never changes the store.
pub proof fn lemma_camera_token_is_a_keyed_lookup(
    header: Option<Seq<char>>,
    store: Store,
    trace: Seq<Exchange>,
    last: CameraTokenGuard,
    end: Store,
)
    requires
        CameraTokenGuard::start(header).runs(store, trace, last, end),
        all_answered(trace),
        last is Finished,
    ensures
        end == store,
        header is None ==> last == CameraTokenGuard::Finished(
            Err((Status::Unauthorized, TokenError::NoTokenProvided)),
        ),
        header matches Some(text) ==> match uuid_parse_str(text) {
            None => last == CameraTokenGuard::Finished(
                Err((Status::BadRequest, TokenError::ParseError)),
            ),
            Some(token) => if store.camera_tokens.contains_key(token) {
                last == CameraTokenGuard::Finished(
                    Ok(CameraToken { camera_token: token, camera_id: store.camera_tokens[token] }),
                )
            } else {
                last == CameraTokenGuard::Finished(
                    Err((Status::Unauthorized, TokenError::NotFound)),
                )
            },
        },
{
    let start = CameraTokenGuard::start(header);
    if trace.len() > 0 {
        let next = start.next(trace[0].reply);
        let rest = trace.drop_first();
        assert(answered(trace[0].reply));
        assert(next.runs(trace[0].store, rest, last, end));
        if rest.len() > 0 {
            assert(false);
        }
    }
}

} // verus!

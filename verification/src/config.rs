use crate::api_error::ApiError;
use crate::camera_tokens::CameraToken;
use crate::effect::{Action, ActionView, Effect, EffectView, Reply, ReplyView};
use crate::identifier::{parse_uuid, uuid_parse_str};
use crate::store::{Exchange, Store};
use crate::user_tokens::UserToken;
use crate::users_cameras::{
    access_decision, decide_access, lemma_access_decision_follows_links,
};
use vstd::prelude::*;

verus! {

/// The polling interval every new camera starts with.
pub const DEFAULT_INTERVAL: i16 = 10;

/// A row of the configs table, one per camera.
#[derive(Clone, Copy, Debug, PartialEq, Eq, Structural)]
pub struct Config {
    pub camera_id: u128,
    pub interval: i16,
}

impl DeepView for Config {
    type V = Config;

    open spec fn deep_view(&self) -> Config {
        *self
    }
}

pub const FAILED_TO_READ_CONFIG: &'static str = "Failed to read config";

/// What the reply to the query for a camera's config amounts to.
pub open spec fn config_answer(reply: ReplyView) -> Result<Config, ApiError> {
    match reply {
        ReplyView::Config(Ok(config)) => Ok(config),
        _ => Err(ApiError::internal(FAILED_TO_READ_CONFIG)),
    }
}

fn read_config(reply: Reply) -> (answer: Result<Config, ApiError>)
    ensures
        answer == config_answer(reply@),
{
    match reply {
        Reply::Config(Ok(config)) => Ok(config),
        _ => Err(ApiError::internal(FAILED_TO_READ_CONFIG)),
    }
}

/// The query that a device's request for its own config makes: the
/// config of the camera its token stands for.
pub open spec fn spec_config_query(camera_token: CameraToken) -> EffectView {
    EffectView::FindConfig { camera_id: camera_token.camera_id }
}

/// The query that a device's request for its own config makes. The
/// camera token is the whole authorization: no link is consulted.
pub fn config_query(camera_token: &CameraToken) -> (effect: Effect)
    ensures
        effect@ == spec_config_query(*camera_token),
{
    Effect::FindConfig { camera_id: camera_token.camera_id }
}

/// Answers a device's request for its own config from the reply to
/// its query.
pub fn get_config_camera(reply: Reply) -> (answer: Result<Config, ApiError>)
    ensures
        answer == config_answer(reply@),
{
    read_config(reply)
}

/// A user's request for a camera's config in progress: the user's
/// access is checked, then the config is read.
#[derive(Clone, Copy, Debug, PartialEq, Eq)]
pub enum GetConfigUser {
    CheckingAccess { user_id: u128, camera_id: Option<u128> },
    ReadingConfig { granted: u128 },
    Finished(Result<Config, ApiError>),
}

impl GetConfigUser {
    /// The request as it starts, for the camera that the path names if
    /// it names one.
    pub open spec fn start(user_id: u128, camera_id: Option<u128>) -> GetConfigUser {
        GetConfigUser::CheckingAccess { user_id, camera_id }
    }

    /// What the request wants next in this state.
    pub open spec fn spec_action(self) -> ActionView<Config, ApiError> {
        match self {
            GetConfigUser::CheckingAccess { user_id, camera_id } => ActionView::Perform(
                EffectView::FindUsersCameras { user_id },
            ),
            GetConfigUser::ReadingConfig { granted } => ActionView::Perform(
                EffectView::FindConfig { camera_id: granted },
            ),
            GetConfigUser::Finished(answer) => ActionView::Respond(answer),
        }
    }

    /// The state after `reply` has answered the pending effect.
    pub open spec fn next(self, reply: ReplyView) -> GetConfigUser {
        match self {
            GetConfigUser::CheckingAccess { user_id, camera_id } => match access_decision(
                reply,
                user_id,
                camera_id,
            ) {
                Ok(granted) => GetConfigUser::ReadingConfig { granted },
                Err(failure) => GetConfigUser::Finished(Err(failure)),
            },
            GetConfigUser::ReadingConfig { granted } => GetConfigUser::Finished(
                config_answer(reply),
            ),
            GetConfigUser::Finished(answer) => self,
        }
    }

    /// Starts the request for the camera with this identifier, if it is
    /// one.
    pub fn for_camera(user_id: u128, camera_id: Option<u128>) -> (process: GetConfigUser)
        ensures
            process == GetConfigUser::start(user_id, camera_id),
    {
        GetConfigUser::CheckingAccess { user_id, camera_id }
    }

    /// Starts the request of the bearer of `user_token` for the camera
    /// that the path names.
    pub fn new(user_token: &UserToken, camera_id_string: &str) -> (process: GetConfigUser)
        ensures
            process == GetConfigUser::start(user_token.user_id, uuid_parse_str(camera_id_string@)),
    {
        GetConfigUser::for_camera(user_token.user_id, parse_uuid(camera_id_string))
    }

    /// What the request wants next.
    pub fn action(&self) -> (action: Action<Config, ApiError>)
        ensures
            action@ == self.spec_action(),
    {
        match self {
            GetConfigUser::CheckingAccess { user_id, camera_id } => Action::Perform(
                Effect::FindUsersCameras { user_id: *user_id },
            ),
            GetConfigUser::ReadingConfig { granted } => Action::Perform(
                Effect::FindConfig { camera_id: *granted },
            ),
            GetConfigUser::Finished(answer) => Action::Respond(*answer),
        }
    }
}

/// Advances a user's request for a camera's config with the reply to its
/// pending effect.
pub fn get_config_user(process: GetConfigUser, reply: Reply) -> (next: GetConfigUser)
    ensures
        next == process.next(reply@),
{
    match process {
        GetConfigUser::CheckingAccess { user_id, camera_id } => match decide_access(
            &reply,
            user_id,
            camera_id,
        ) {
            Ok(granted) => GetConfigUser::ReadingConfig { granted },
            Err(failure) => GetConfigUser::Finished(Err(failure)),
        },
        GetConfigUser::ReadingConfig { granted } => GetConfigUser::Finished(read_config(reply)),
        GetConfigUser::Finished(answer) => GetConfigUser::Finished(answer),
    }
}

impl GetConfigUser {
    /// The request, started in this state on `store`, can go through the
    /// exchanges of `trace` and then stand in state `last` on store `end`.
    pub open spec fn runs(
        self,
        store: Store,
        trace: Seq<Exchange>,
        last: GetConfigUser,
        end: Store,
    ) -> bool
        decreases trace.len(),
    {
        if trace.len() == 0 {
            last == self && end == store
        } else {
            &&& self.spec_action() matches ActionView::Perform(effect)
            &&& store.follows(effect, trace[0].reply, trace[0].store)
            &&& self.next(trace[0].reply).runs(trace[0].store, trace.drop_first(), last, end)
        }
    }

    /// The request has got past the access check only for a camera that
    /// the user has a link to.
    pub open spec fn cleared(self, user_id: u128, camera_id: Option<u128>, store: Store) -> bool {
        match self {
            GetConfigUser::CheckingAccess { user_id: user, camera_id: camera } => {
                user == user_id && camera == camera_id
            },
            GetConfigUser::ReadingConfig { granted } => camera_id == Some(granted)
                && store.links(user_id, granted),
            GetConfigUser::Finished(Err(_)) => true,
            GetConfigUser::Finished(Ok(_)) => camera_id is Some && store.links(
                user_id,
                camera_id->0,
            ),
        }
    }

    /// Every run keeps the request behind the access check and the store
    /// as it was.
    pub proof fn lemma_run_stays_cleared(
        self,
        user_id: u128,
        camera_id: Option<u128>,
        store: Store,
        trace: Seq<Exchange>,
        last: GetConfigUser,
        end: Store,
    )
        requires
            self.cleared(user_id, camera_id, store),
            self.runs(store, trace, last, end),
        ensures
            last.cleared(user_id, camera_id, store),
            end == store,
        decreases trace.len(),
    {
        if trace.len() > 0 {
            let reply = trace[0].reply;
            let next = self.next(reply);
            if self is CheckingAccess {
                lemma_access_decision_follows_links(
                    store,
                    user_id,
                    camera_id,
                    reply,
                    trace[0].store,
                );
            }
            assert(trace[0].store == store);
            assert(next.cleared(user_id, camera_id, store));
            next.lemma_run_stays_cleared(user_id, camera_id, store, trace.drop_first(), last, end);
        }
    }
}

/// A camera's config is behind the access check: a user's request that
/// has got as far as reading the config or answering with one was made
/// for a camera that the user has a link to; and the request leaves the
/// store as it was.
pub proof fn lemma_config_needs_a_link(
    user_id: u128,
    camera_id: Option<u128>,
    store: Store,
    trace: Seq<Exchange>,
    last: GetConfigUser,
    end: Store,
)
    requires
        GetConfigUser::start(user_id, camera_id).runs(store, trace, last, end),
    ensures
        end == store,
        !(last is CheckingAccess) && !(last matches GetConfigUser::Finished(Err(_))) ==> camera_id
            is Some && store.links(user_id, camera_id->0),
        last matches GetConfigUser::ReadingConfig { granted } ==> camera_id == Some(granted),
{
    GetConfigUser::start(user_id, camera_id).lemma_run_stays_cleared(
        user_id,
        camera_id,
        store,
        trace,
        last,
        end,
    );
}

} // verus!

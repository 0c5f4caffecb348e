use crate::api_error::{ApiError, Status};
use crate::camera_tokens::{CameraToken, InsertableCameraToken};
use crate::config::{Config, DEFAULT_INTERVAL};
use crate::effect::{Action, ActionView, Effect, EffectView, Reply, ReplyView};
use crate::store::{Exchange, Store};
use crate::user_tokens::UserToken;
use crate::users_cameras::InsertableUsersCamera;
use vstd::prelude::*;

verus! {

/// A row of the cameras table.
#[derive(Clone, Debug, PartialEq, Eq)]
pub struct Camera {
    pub camera_id: u128,
    pub name: String,
}

pub struct CameraView {
    pub camera_id: u128,
    pub name: Seq<char>,
}

impl DeepView for Camera {
    type V = CameraView;

    open spec fn deep_view(&self) -> CameraView {
        CameraView { camera_id: self.camera_id, name: self.name@ }
    }
}

impl View for Camera {
    type V = CameraView;

    open spec fn view(&self) -> CameraView {
        self.deep_view()
    }
}

/// A camera still to be created: the store chooses its identifier.
#[derive(Clone, Debug, PartialEq, Eq)]
pub struct InsertableCamera {
    pub name: String,
}

pub struct InsertableCameraView {
    pub name: Seq<char>,
}

impl DeepView for InsertableCamera {
    type V = InsertableCameraView;

    open spec fn deep_view(&self) -> InsertableCameraView {
        InsertableCameraView { name: self.name@ }
    }
}

impl View for InsertableCamera {
    type V = InsertableCameraView;

    open spec fn view(&self) -> InsertableCameraView {
        self.deep_view()
    }
}

impl InsertableCamera {
    pub fn from_camera(camera: Camera) -> (insertable: InsertableCamera)
        ensures
            insertable@ == (InsertableCameraView { name: camera@.name }),
    {
        InsertableCamera { name: camera.name }
    }
}

/// The step of camera creation that the store refused.
#[derive(Clone, Copy, Debug, PartialEq, Eq, Structural)]
pub enum FailedStep {
    Token,
    Link,
    Config,
}

pub const FAILED_TO_CREATE_CAMERA: &'static str = "Failed to create new camera";

pub const FAILED_TO_ADD_CAMERA_TOKEN: &'static str = "Failed to add camera token";

pub const FAILED_TO_PAIR_USER: &'static str = "Failed to pair user to camera";

pub const FAILED_TO_CREATE_CONFIG: &'static str = "Failed to create camera config";

pub const UNDO_LINK_FAILED: &'static str =
    "Failed to delete users camera while handling create config error!";

pub const UNDO_TOKEN_FAILED: &'static str =
    "Failed to delete new camera token while handling pair user to camera error!";

pub const UNDO_CAMERA_AFTER_TOKEN_FAILED: &'static str =
    "Failed to delete new camera while handling camera token error!";

pub const UNDO_CAMERA_FAILED: &'static str =
    "Failed to delete new camera while handling pair user to camera error!";

impl FailedStep {
    /// What the caller is told once everything is undone.
    pub open spec fn spec_error(self) -> ApiError {
        match self {
            FailedStep::Token => ApiError::internal(FAILED_TO_ADD_CAMERA_TOKEN),
            FailedStep::Link => ApiError::internal(FAILED_TO_PAIR_USER),
            FailedStep::Config => ApiError::internal(FAILED_TO_CREATE_CONFIG),
        }
    }

    #[verifier::when_used_as_spec(spec_error)]
    pub fn error(self) -> (failure: ApiError)
        ensures
            failure == self.spec_error(),
    {
        match self {
            FailedStep::Token => ApiError::internal(FAILED_TO_ADD_CAMERA_TOKEN),
            FailedStep::Link => ApiError::internal(FAILED_TO_PAIR_USER),
            FailedStep::Config => ApiError::internal(FAILED_TO_CREATE_CONFIG),
        }
    }

    /// The last words when the camera row itself cannot be removed.
    pub open spec fn spec_camera_undo_message(self) -> &'static str {
        match self {
            FailedStep::Token => UNDO_CAMERA_AFTER_TOKEN_FAILED,
            _ => UNDO_CAMERA_FAILED,
        }
    }

    #[verifier::when_used_as_spec(spec_camera_undo_message)]
    pub fn camera_undo_message(self) -> (message: &'static str)
        ensures
            message == self.spec_camera_undo_message(),
    {
        match self {
            FailedStep::Token => UNDO_CAMERA_AFTER_TOKEN_FAILED,
            _ => UNDO_CAMERA_FAILED,
        }
    }
}

/// Camera creation in progress. Four rows are written one after the
/// other: the camera, its token, the link to its creator, its config.
/// When the store refuses one, the rows written so far are deleted again,
/// last first, before the caller hears of the failure.
#[derive(Debug, PartialEq, Eq)]
pub enum AddNewCamera {
    InsertingCamera { user_id: u128, camera: InsertableCamera },
    IssuingToken { user_id: u128, camera_id: u128 },
    LinkingUser { user_id: u128, camera_id: u128, token: CameraToken },
    SettingConfig { camera_id: u128, token: CameraToken, users_cameras_id: i32 },
    UnlinkingUser { camera_id: u128, token: CameraToken, users_cameras_id: i32 },
    RevokingToken { camera_id: u128, token: CameraToken, failed: FailedStep },
    RemovingCamera { camera_id: u128, failed: FailedStep },
    Finished(Result<CameraToken, ApiError>),
    Aborted(&'static str),
}

pub enum AddNewCameraView {
    InsertingCamera { user_id: u128, camera: InsertableCameraView },
    IssuingToken { user_id: u128, camera_id: u128 },
    LinkingUser { user_id: u128, camera_id: u128, token: CameraToken },
    SettingConfig { camera_id: u128, token: CameraToken, users_cameras_id: i32 },
    UnlinkingUser { camera_id: u128, token: CameraToken, users_cameras_id: i32 },
    RevokingToken { camera_id: u128, token: CameraToken, failed: FailedStep },
    RemovingCamera { camera_id: u128, failed: FailedStep },
    Finished(Result<CameraToken, ApiError>),
    Aborted(&'static str),
}

impl View for AddNewCamera {
    type V = AddNewCameraView;

    open spec fn view(&self) -> AddNewCameraView {
        match *self {
            AddNewCamera::InsertingCamera { user_id, camera } => AddNewCameraView::InsertingCamera {
                user_id,
                camera: camera@,
            },
            AddNewCamera::IssuingToken { user_id, camera_id } => AddNewCameraView::IssuingToken {
                user_id,
                camera_id,
            },
            AddNewCamera::LinkingUser {
                user_id,
                camera_id,
                token,
            } => AddNewCameraView::LinkingUser { user_id, camera_id, token },
            AddNewCamera::SettingConfig {
                camera_id,
                token,
                users_cameras_id,
            } => AddNewCameraView::SettingConfig { camera_id, token, users_cameras_id },
            AddNewCamera::UnlinkingUser {
                camera_id,
                token,
                users_cameras_id,
            } => AddNewCameraView::UnlinkingUser { camera_id, token, users_cameras_id },
            AddNewCamera::RevokingToken {
                camera_id,
                token,
                failed,
            } => AddNewCameraView::RevokingToken { camera_id, token, failed },
            AddNewCamera::RemovingCamera { camera_id, failed } => AddNewCameraView::RemovingCamera {
                camera_id,
                failed,
            },
            AddNewCamera::Finished(result) => AddNewCameraView::Finished(result),
            AddNewCamera::Aborted(message) => AddNewCameraView::Aborted(message),
        }
    }
}

impl AddNewCameraView {
    /// Creation as it starts for a user and a camera name.
    pub open spec fn start(user_id: u128, camera: InsertableCameraView) -> AddNewCameraView {
        AddNewCameraView::InsertingCamera { user_id, camera }
    }

    /// What creation wants next in this state.
    pub open spec fn action(self) -> ActionView<CameraToken, ApiError> {
        match self {
            AddNewCameraView::InsertingCamera { user_id, camera } => ActionView::Perform(
                EffectView::InsertCamera { camera },
            ),
            AddNewCameraView::IssuingToken { user_id, camera_id } => ActionView::Perform(
                EffectView::InsertCameraToken {
                    camera_token: InsertableCameraToken { camera_id },
                },
            ),
            AddNewCameraView::LinkingUser { user_id, camera_id, token } => ActionView::Perform(
                EffectView::InsertUsersCamera {
                    users_camera: InsertableUsersCamera { camera_id, user_id },
                },
            ),
            AddNewCameraView::SettingConfig {
                camera_id,
                token,
                users_cameras_id,
            } => ActionView::Perform(
                EffectView::InsertConfig {
                    config: Config { camera_id, interval: DEFAULT_INTERVAL },
                },
            ),
            AddNewCameraView::UnlinkingUser {
                camera_id,
                token,
                users_cameras_id,
            } => ActionView::Perform(EffectView::DeleteUsersCamera { users_cameras_id }),
            AddNewCameraView::RevokingToken { camera_id, token, failed } => ActionView::Perform(
                EffectView::DeleteCameraToken { token: token.camera_token },
            ),
            AddNewCameraView::RemovingCamera { camera_id, failed } => ActionView::Perform(
                EffectView::DeleteCamera { camera_id },
            ),
            AddNewCameraView::Finished(result) => ActionView::Respond(result),
            AddNewCameraView::Aborted(message) => ActionView::Abort(message),
        }
    }

    /// The state after `reply` has answered the pending effect. A reply
    /// that is not the row asked for counts as the store's refusal; a
    /// reply that is not a completed delete counts as a failed undo.
    pub open spec fn next(self, reply: ReplyView) -> AddNewCameraView {
        match self {
            AddNewCameraView::InsertingCamera { user_id, camera } => match reply {
                ReplyView::Camera(Ok(row)) => AddNewCameraView::IssuingToken {
                    user_id,
                    camera_id: row.camera_id,
                },
                _ => AddNewCameraView::Finished(Err(ApiError::internal(FAILED_TO_CREATE_CAMERA))),
            },
            AddNewCameraView::IssuingToken { user_id, camera_id } => match reply {
                ReplyView::CameraToken(Ok(token)) => AddNewCameraView::LinkingUser {
                    user_id,
                    camera_id,
                    token,
                },
                _ => AddNewCameraView::RemovingCamera { camera_id, failed: FailedStep::Token },
            },
            AddNewCameraView::LinkingUser { user_id, camera_id, token } => match reply {
                ReplyView::UsersCamera(Ok(row)) => AddNewCameraView::SettingConfig {
                    camera_id,
                    token,
                    users_cameras_id: row.users_cameras_id,
                },
                _ => AddNewCameraView::RevokingToken { camera_id, token, failed: FailedStep::Link },
            },
            AddNewCameraView::SettingConfig { camera_id, token, users_cameras_id } => match reply {
                ReplyView::Config(Ok(_)) => AddNewCameraView::Finished(Ok(token)),
                _ => AddNewCameraView::UnlinkingUser { camera_id, token, users_cameras_id },
            },
            AddNewCameraView::UnlinkingUser { camera_id, token, users_cameras_id } => match reply {
                ReplyView::Deleted(Ok(_)) => AddNewCameraView::RevokingToken {
                    camera_id,
                    token,
                    failed: FailedStep::Config,
                },
                _ => AddNewCameraView::Aborted(UNDO_LINK_FAILED),
            },
            AddNewCameraView::RevokingToken { camera_id, token, failed } => match reply {
                ReplyView::Deleted(Ok(_)) => AddNewCameraView::RemovingCamera { camera_id, failed },
                _ => AddNewCameraView::Aborted(UNDO_TOKEN_FAILED),
            },
            AddNewCameraView::RemovingCamera { camera_id, failed } => match reply {
                ReplyView::Deleted(Ok(_)) => AddNewCameraView::Finished(Err(failed.error())),
                _ => AddNewCameraView::Aborted(failed.camera_undo_message()),
            },
            AddNewCameraView::Finished(result) => self,
            AddNewCameraView::Aborted(message) => self,
        }
    }

    /// Creation, started in this state on `store`, can go through the
    /// exchanges of `trace` and then stand in state `last` on store `end`:
    /// each reply answers the effect pending at that point as the store
    /// allows.
    pub open spec fn runs(
        self,
        store: Store,
        trace: Seq<Exchange>,
        last: AddNewCameraView,
        end: Store,
    ) -> bool
        decreases trace.len(),
    {
        if trace.len() == 0 {
            last == self && end == store
        } else {
            &&& self.action() matches ActionView::Perform(effect)
            &&& store.follows(effect, trace[0].reply, trace[0].store)
            &&& self.next(trace[0].reply).runs(trace[0].store, trace.drop_first(), last, end)
        }
    }
}

impl AddNewCamera {
    /// The status that goes with the token of a new camera.
    pub fn success() -> (status: Status)
        ensures
            status == Status::Created,
    {
        Status::Created
    }

    /// Starts the creation of a camera for the bearer of `user_token`.
    pub fn new(user_token: &UserToken, camera: InsertableCamera) -> (process: AddNewCamera)
        ensures
            process@ == AddNewCameraView::start(user_token.user_id, camera@),
    {
        AddNewCamera::InsertingCamera { user_id: user_token.user_id, camera }
    }

    /// What creation wants next.
    pub fn action(&self) -> (action: Action<CameraToken, ApiError>)
        ensures
            action@ == self@.action(),
    {
        match self {
            AddNewCamera::InsertingCamera { user_id, camera } => Action::Perform(
                Effect::InsertCamera { camera: InsertableCamera { name: camera.name.clone() } },
            ),
            AddNewCamera::IssuingToken { user_id, camera_id } => Action::Perform(
                Effect::InsertCameraToken {
                    camera_token: InsertableCameraToken { camera_id: *camera_id },
                },
            ),
            AddNewCamera::LinkingUser { user_id, camera_id, token } => Action::Perform(
                Effect::InsertUsersCamera {
                    users_camera: InsertableUsersCamera {
                        camera_id: *camera_id,
                        user_id: *user_id,
                    },
                },
            ),
            AddNewCamera::SettingConfig { camera_id, token, users_cameras_id } => Action::Perform(
                Effect::InsertConfig {
                    config: Config { camera_id: *camera_id, interval: DEFAULT_INTERVAL },
                },
            ),
            AddNewCamera::UnlinkingUser { camera_id, token, users_cameras_id } => Action::Perform(
                Effect::DeleteUsersCamera { users_cameras_id: *users_cameras_id },
            ),
            AddNewCamera::RevokingToken { camera_id, token, failed } => Action::Perform(
                Effect::DeleteCameraToken { token: token.camera_token },
            ),
            AddNewCamera::RemovingCamera { camera_id, failed } => Action::Perform(
                Effect::DeleteCamera { camera_id: *camera_id },
            ),
            AddNewCamera::Finished(result) => Action::Respond(*result),
            AddNewCamera::Aborted(message) => Action::Abort(*message),
        }
    }
}

/// Advances camera creation with the reply to its pending effect.
pub fn add_new_camera(process: AddNewCamera, reply: Reply) -> (next: AddNewCamera)
    ensures
        next@ == process@.next(reply@),
{
    match process {
        AddNewCamera::InsertingCamera { user_id, camera } => match reply {
            Reply::Camera(Ok(row)) => AddNewCamera::IssuingToken {
                user_id,
                camera_id: row.camera_id,
            },
            _ => AddNewCamera::Finished(Err(ApiError::internal(FAILED_TO_CREATE_CAMERA))),
        },
        AddNewCamera::IssuingToken { user_id, camera_id } => match reply {
            Reply::CameraToken(Ok(token)) => AddNewCamera::LinkingUser {
                user_id,
                camera_id,
                token,
            },
            _ => AddNewCamera::RemovingCamera { camera_id, failed: FailedStep::Token },
        },
        AddNewCamera::LinkingUser { user_id, camera_id, token } => match reply {
            Reply::UsersCamera(Ok(row)) => AddNewCamera::SettingConfig {
                camera_id,
                token,
                users_cameras_id: row.users_cameras_id,
            },
            _ => AddNewCamera::RevokingToken { camera_id, token, failed: FailedStep::Link },
        },
        AddNewCamera::SettingConfig { camera_id, token, users_cameras_id } => match reply {
            Reply::Config(Ok(_)) => AddNewCamera::Finished(Ok(token)),
            _ => AddNewCamera::UnlinkingUser { camera_id, token, users_cameras_id },
        },
        AddNewCamera::UnlinkingUser { camera_id, token, users_cameras_id } => match reply {
            Reply::Deleted(Ok(_)) => AddNewCamera::RevokingToken {
                camera_id,
                token,
                failed: FailedStep::Config,
            },
            _ => AddNewCamera::Aborted(UNDO_LINK_FAILED),
        },
        AddNewCamera::RevokingToken { camera_id, token, failed } => match reply {
            Reply::Deleted(Ok(_)) => AddNewCamera::RemovingCamera { camera_id, failed },
            _ => AddNewCamera::Aborted(UNDO_TOKEN_FAILED),
        },
        AddNewCamera::RemovingCamera { camera_id, failed } => match reply {
            Reply::Deleted(Ok(_)) => AddNewCamera::Finished(Err(failed.error())),
            _ => AddNewCamera::Aborted(failed.camera_undo_message()),
        },
        AddNewCamera::Finished(result) => AddNewCamera::Finished(result),
        AddNewCamera::Aborted(message) => AddNewCamera::Aborted(message),
    }
}

impl AddNewCameraView {
    /// `now` is `origin` with the four rows of a camera that `user_id`
    /// created under `name`, each under a key that was free in `origin`.
    pub open spec fn created(
        origin: Store,
        now: Store,
        user_id: u128,
        name: Seq<char>,
        token: CameraToken,
        users_cameras_id: i32,
    ) -> bool {
        &&& !origin.cameras.contains_key(token.camera_id)
        &&& !origin.camera_tokens.contains_key(token.camera_token)
        &&& !origin.users_cameras.contains_key(users_cameras_id)
        &&& !origin.configs.contains_key(token.camera_id)
        &&& now == origin.with_camera(token.camera_id, name).with_camera_token(
            token.camera_token,
            token.camera_id,
        ).with_link(users_cameras_id, token.camera_id, user_id).with_config(
            token.camera_id,
            DEFAULT_INTERVAL,
        )
    }

    /// `now` is `origin` with the rows of a camera created for `user_id`,
    /// `token` among them, under some link number.
    pub open spec fn completed(
        origin: Store,
        now: Store,
        user_id: u128,
        name: Seq<char>,
        token: CameraToken,
    ) -> bool {
        exists|users_cameras_id: i32|
            AddNewCameraView::created(origin, now, user_id, name, token, users_cameras_id)
    }

    /// What the store holds while a creation that `user_id` started on
    /// `origin` stands in this state: exactly the rows written and not
    /// yet undone, on top of `origin`.
    pub open spec fn consistent(
        self,
        user_id: u128,
        camera: InsertableCameraView,
        origin: Store,
        now: Store,
    ) -> bool {
        match self {
            AddNewCameraView::InsertingCamera { user_id: user, camera: pending } => {
                &&& user == user_id
                &&& pending == camera
                &&& now == origin
            },
            AddNewCameraView::IssuingToken { user_id: user, camera_id } => {
                &&& user == user_id
                &&& !origin.cameras.contains_key(camera_id)
                &&& now == origin.with_camera(camera_id, camera.name)
            },
            AddNewCameraView::LinkingUser { user_id: user, camera_id, token } => {
                &&& user == user_id
                &&& token.camera_id == camera_id
                &&& !origin.cameras.contains_key(camera_id)
                &&& !origin.camera_tokens.contains_key(token.camera_token)
                &&& now == origin.with_camera(camera_id, camera.name).with_camera_token(
                    token.camera_token,
                    camera_id,
                )
            },
            AddNewCameraView::SettingConfig { camera_id, token, users_cameras_id }
            | AddNewCameraView::UnlinkingUser { camera_id, token, users_cameras_id } => {
                &&& token.camera_id == camera_id
                &&& !origin.cameras.contains_key(camera_id)
                &&& !origin.camera_tokens.contains_key(token.camera_token)
                &&& !origin.users_cameras.contains_key(users_cameras_id)
                &&& now == origin.with_camera(camera_id, camera.name).with_camera_token(
                    token.camera_token,
                    camera_id,
                ).with_link(users_cameras_id, camera_id, user_id)
            },
            AddNewCameraView::RevokingToken { camera_id, token, failed } => {
                &&& token.camera_id == camera_id
                &&& !origin.cameras.contains_key(camera_id)
                &&& !origin.camera_tokens.contains_key(token.camera_token)
                &&& now == origin.with_camera(camera_id, camera.name).with_camera_token(
                    token.camera_token,
                    camera_id,
                )
            },
            AddNewCameraView::RemovingCamera { camera_id, failed } => {
                &&& !origin.cameras.contains_key(camera_id)
                &&& now == origin.with_camera(camera_id, camera.name)
            },
            AddNewCameraView::Finished(Ok(token)) => AddNewCameraView::completed(
                origin,
                now,
                user_id,
                camera.name,
                token,
            ),
            AddNewCameraView::Finished(Err(_)) => now == origin,
            AddNewCameraView::Aborted(_) => true,
        }
    }

    /// One exchange with the store keeps the store and the state in step.
    pub proof fn lemma_step_keeps_consistent(
        self,
        user_id: u128,
        camera: InsertableCameraView,
        origin: Store,
        now: Store,
        reply: ReplyView,
        after: Store,
    )
        requires
            self.consistent(user_id, camera, origin, now),
            self.action() matches ActionView::Perform(effect) && now.follows(effect, reply, after),
        ensures
            self.next(reply).consistent(user_id, camera, origin, after),
    {
        let next = self.next(reply);
        match self {
            AddNewCameraView::SettingConfig { camera_id, token, users_cameras_id } => {
                if let ReplyView::Config(Ok(_)) = reply {
                    assert(AddNewCameraView::created(
                        origin,
                        after,
                        user_id,
                        camera.name,
                        token,
                        users_cameras_id,
                    ));
                    assert(next == AddNewCameraView::Finished(Ok(token)));
                    assert(AddNewCameraView::completed(origin, after, user_id, camera.name, token));
                    assert(next.consistent(user_id, camera, origin, after));
                } else {
                    assert(after == now);
                    assert(next.consistent(user_id, camera, origin, after));
                }
            },
            AddNewCameraView::UnlinkingUser { camera_id, token, users_cameras_id } => {
                assert(origin.users_cameras.insert(
                    users_cameras_id,
                    InsertableUsersCamera { camera_id, user_id },
                ).remove(users_cameras_id) =~= origin.users_cameras);
                assert(next.consistent(user_id, camera, origin, after));
            },
            AddNewCameraView::RevokingToken { camera_id, token, failed } => {
                assert(origin.camera_tokens.insert(token.camera_token, camera_id).remove(
                    token.camera_token,
                ) =~= origin.camera_tokens);
                assert(next.consistent(user_id, camera, origin, after));
            },
            AddNewCameraView::RemovingCamera { camera_id, failed } => {
                assert(origin.cameras.insert(camera_id, camera.name).remove(camera_id)
                    =~= origin.cameras);
                assert(next.consistent(user_id, camera, origin, after));
            },
            AddNewCameraView::InsertingCamera { .. } => {
                assert(next.consistent(user_id, camera, origin, after));
            },
            AddNewCameraView::IssuingToken { .. } => {
                assert(next.consistent(user_id, camera, origin, after));
            },
            AddNewCameraView::LinkingUser { .. } => {
                assert(next.consistent(user_id, camera, origin, after));
            },
            AddNewCameraView::Finished(_) => {},
            AddNewCameraView::Aborted(_) => {},
        }
    }

    /// Every run keeps the store and the state in step.
    pub proof fn lemma_run_keeps_consistent(
        self,
        user_id: u128,
        camera: InsertableCameraView,
        origin: Store,
        now: Store,
        trace: Seq<Exchange>,
        last: AddNewCameraView,
        end: Store,
    )
        requires
            self.consistent(user_id, camera, origin, now),
            self.runs(now, trace, last, end),
        ensures
            last.consistent(user_id, camera, origin, end),
        decreases trace.len(),
    {
        if trace.len() > 0 {
            self.lemma_step_keeps_consistent(
                user_id,
                camera,
                origin,
                now,
                trace[0].reply,
                trace[0].store,
            );
            self.next(trace[0].reply).lemma_run_keeps_consistent(
                user_id,
                camera,
                origin,
                trace[0].store,
                trace.drop_first(),
                last,
                end,
            );
        }
    }
}

/// Camera creation is all or nothing. Whatever the store answers along
/// the way, a creation that ends with an error has left the store exactly
/// as it found it: no camera, token, link or config row remains. One that
/// ends with a token has added exactly the camera, that token, the link
/// to its creator and the default config. (A creation that aborts because
/// an undo step failed promises nothing.)
pub proof fn lemma_camera_creation_is_atomic(
    user_id: u128,
    camera: InsertableCameraView,
    origin: Store,
    trace: Seq<Exchange>,
    last: AddNewCameraView,
    end: Store,
)
    requires
        AddNewCameraView::start(user_id, camera).runs(origin, trace, last, end),
    ensures
        last matches AddNewCameraView::Finished(Err(_)) ==> end == origin,
        last matches AddNewCameraView::Finished(Ok(token)) ==> AddNewCameraView::completed(
            origin,
            end,
            user_id,
            camera.name,
            token,
        ),
{
    AddNewCameraView::start(user_id, camera).lemma_run_keeps_consistent(
        user_id,
        camera,
        origin,
        origin,
        trace,
        last,
        end,
    );
}

/// The failure that creation reports names the step the store refused,
/// and it is reported only after the undo of every earlier step was
/// asked for: the camera row is the last to go.
pub proof fn lemma_camera_creation_undoes_in_reverse(
    camera_id: u128,
    token: CameraToken,
    users_cameras_id: i32,
    refusal: ReplyView,
    done: ReplyView,
)
    requires
        !(refusal is Config && refusal->Config_0 is Ok),
        done is Deleted && done->Deleted_0 is Ok,
    ensures
        ({
            let unlinking = (AddNewCameraView::SettingConfig {
                camera_id,
                token,
                users_cameras_id,
            }).next(refusal);
            let revoking = unlinking.next(done);
            let removing = revoking.next(done);
            &&& unlinking.action() == ActionView::<CameraToken, ApiError>::Perform(
                EffectView::DeleteUsersCamera { users_cameras_id },
            )
            &&& revoking.action() == ActionView::<CameraToken, ApiError>::Perform(
                EffectView::DeleteCameraToken { token: token.camera_token },
            )
            &&& removing.action() == ActionView::<CameraToken, ApiError>::Perform(
                EffectView::DeleteCamera { camera_id },
            )
            &&& removing.next(done).action() == ActionView::<CameraToken, ApiError>::Respond(
                Err(ApiError::internal(FAILED_TO_CREATE_CONFIG)),
            )
        }),
{
}

/// Camera creation keeps the store intact: if every row named an
/// existing user or camera before, and the creator is a user, then so
/// does every row once the creation has finished, with or without a
/// camera.
pub proof fn lemma_camera_creation_keeps_the_store_intact(
    user_id: u128,
    camera: InsertableCameraView,
    origin: Store,
    trace: Seq<Exchange>,
    last: AddNewCameraView,
    end: Store,
)
    requires
        origin.intact(),
        origin.users.contains_key(user_id),
        AddNewCameraView::start(user_id, camera).runs(origin, trace, last, end),
        last is Finished,
    ensures
        end.intact(),
{
    lemma_camera_creation_is_atomic(user_id, camera, origin, trace, last, end);
    if let AddNewCameraView::Finished(Ok(token)) = last {
        let users_cameras_id = choose|users_cameras_id: i32|
            AddNewCameraView::created(
                origin,
                end,
                user_id,
                camera.name,
                token,
                users_cameras_id,
            );
        assert forall|id: i32| #[trigger] end.users_cameras.contains_key(id) implies (
        end.cameras.contains_key(end.users_cameras[id].camera_id) && end.users.contains_key(
            end.users_cameras[id].user_id,
        )) by {
            if id != users_cameras_id {
                assert(origin.users_cameras.contains_key(id));
            }
        }
        assert forall|other: u128| #[trigger]
            end.camera_tokens.contains_key(other) implies end.cameras.contains_key(
            end.camera_tokens[other],
        ) by {
            if other != token.camera_token {
                assert(origin.camera_tokens.contains_key(other));
            }
        }
        assert forall|camera_id: u128| #[trigger]
            end.configs.contains_key(camera_id) implies end.cameras.contains_key(camera_id) by {
            if camera_id != token.camera_id {
                assert(origin.configs.contains_key(camera_id));
            }
        }
        assert forall|other: u128| #[trigger]
            end.user_tokens.contains_key(other) implies end.users.contains_key(
            end.user_tokens[other],
        ) by {
            assert(origin.user_tokens.contains_key(other));
        }
    }
}

} // verus!

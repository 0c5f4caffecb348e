//! The vocabulary between a handler and its surroundings: the effects a
//! handler asks for and the replies it is advanced with.

use crate::api_error::ApiError;
use crate::camera::{Camera, CameraView, InsertableCamera, InsertableCameraView};
use crate::camera_tokens::{CameraToken, InsertableCameraToken};
use crate::config::Config;
use crate::user::{InsertableUser, InsertableUserView, User, UserView};
use crate::user_tokens::{InsertableUserToken, UserToken};
use crate::users_cameras::{InsertableUsersCamera, UsersCamera};
use vstd::prelude::*;

verus! {

/// Why the store gave no row.
#[derive(Clone, Copy, Debug, PartialEq, Eq, Structural)]
pub enum StoreError {
    /// The statement ran and matched nothing.
    NotFound,
    /// The statement did not run to its end.
    Unavailable,
}

/// One thing to be done outside: a statement against the relational store,
/// or an operation on the image directories.
#[derive(Clone, Debug, PartialEq, Eq)]
pub enum Effect {
    FindUserByUsername { username: String },
    InsertUser { user: InsertableUser },
    DeleteUser { user_id: u128 },
    FindUserToken { token: u128 },
    InsertUserToken { user_token: InsertableUserToken },
    InsertCamera { camera: InsertableCamera },
    DeleteCamera { camera_id: u128 },
    FindCameraToken { token: u128 },
    InsertCameraToken { camera_token: InsertableCameraToken },
    DeleteCameraToken { token: u128 },
    InsertUsersCamera { users_camera: InsertableUsersCamera },
    DeleteUsersCamera { users_cameras_id: i32 },
    /// All link rows of one user.
    FindUsersCameras { user_id: u128 },
    /// The cameras one user is linked to.
    FindCamerasOfUser { user_id: u128 },
    InsertConfig { config: Config },
    FindConfig { camera_id: u128 },
    /// The names of the files in a directory.
    ListDirectory { directory: String },
    /// Make a directory and its parents, if they are not there.
    CreateDirectory { directory: String },
    /// Whole seconds since the Unix epoch.
    ReadClock,
    /// Write the request body to a file of a directory.
    StoreImage { directory: String, file_name: String },
    /// Open a file of a directory for streaming.
    OpenImage { directory: String, file_name: String },
}

pub enum EffectView {
    FindUserByUsername { username: Seq<char> },
    InsertUser { user: InsertableUserView },
    DeleteUser { user_id: u128 },
    FindUserToken { token: u128 },
    InsertUserToken { user_token: InsertableUserToken },
    InsertCamera { camera: InsertableCameraView },
    DeleteCamera { camera_id: u128 },
    FindCameraToken { token: u128 },
    InsertCameraToken { camera_token: InsertableCameraToken },
    DeleteCameraToken { token: u128 },
    InsertUsersCamera { users_camera: InsertableUsersCamera },
    DeleteUsersCamera { users_cameras_id: i32 },
    FindUsersCameras { user_id: u128 },
    FindCamerasOfUser { user_id: u128 },
    InsertConfig { config: Config },
    FindConfig { camera_id: u128 },
    ListDirectory { directory: Seq<char> },
    CreateDirectory { directory: Seq<char> },
    ReadClock,
    StoreImage { directory: Seq<char>, file_name: Seq<char> },
    OpenImage { directory: Seq<char>, file_name: Seq<char> },
}

impl View for Effect {
    type V = EffectView;

    open spec fn view(&self) -> EffectView {
        match *self {
            Effect::FindUserByUsername { username } => EffectView::FindUserByUsername {
                username: username@,
            },
            Effect::InsertUser { user } => EffectView::InsertUser { user: user@ },
            Effect::DeleteUser { user_id } => EffectView::DeleteUser { user_id },
            Effect::FindUserToken { token } => EffectView::FindUserToken { token },
            Effect::InsertUserToken { user_token } => EffectView::InsertUserToken { user_token },
            Effect::InsertCamera { camera } => EffectView::InsertCamera { camera: camera@ },
            Effect::DeleteCamera { camera_id } => EffectView::DeleteCamera { camera_id },
            Effect::FindCameraToken { token } => EffectView::FindCameraToken { token },
            Effect::InsertCameraToken { camera_token } => EffectView::InsertCameraToken {
                camera_token,
            },
            Effect::DeleteCameraToken { token } => EffectView::DeleteCameraToken { token },
            Effect::InsertUsersCamera { users_camera } => EffectView::InsertUsersCamera {
                users_camera,
            },
            Effect::DeleteUsersCamera { users_cameras_id } => EffectView::DeleteUsersCamera {
                users_cameras_id,
            },
            Effect::FindUsersCameras { user_id } => EffectView::FindUsersCameras { user_id },
            Effect::FindCamerasOfUser { user_id } => EffectView::FindCamerasOfUser { user_id },
            Effect::InsertConfig { config } => EffectView::InsertConfig { config },
            Effect::FindConfig { camera_id } => EffectView::FindConfig { camera_id },
            Effect::ListDirectory { directory } => EffectView::ListDirectory {
                directory: directory@,
            },
            Effect::CreateDirectory { directory } => EffectView::CreateDirectory {
                directory: directory@,
            },
            Effect::ReadClock => EffectView::ReadClock,
            Effect::StoreImage { directory, file_name } => EffectView::StoreImage {
                directory: directory@,
                file_name: file_name@,
            },
            Effect::OpenImage { directory, file_name } => EffectView::OpenImage {
                directory: directory@,
                file_name: file_name@,
            },
        }
    }
}

/// What a look into a camera's directory found.
#[derive(Clone, Debug, PartialEq, Eq)]
pub enum Listing {
    /// There is no such directory.
    Missing,
    /// The directory is there and could not be read.
    Unreadable,
    /// The names of its files, in the order the system gave them.
    Entries(Vec<String>),
}

pub enum ListingView {
    Missing,
    Unreadable,
    Entries(Seq<Seq<char>>),
}

impl View for Listing {
    type V = ListingView;

    open spec fn view(&self) -> ListingView {
        match *self {
            Listing::Missing => ListingView::Missing,
            Listing::Unreadable => ListingView::Unreadable,
            Listing::Entries(names) => ListingView::Entries(names.deep_view()),
        }
    }
}

/// What came back from an effect.
#[derive(Debug, PartialEq, Eq)]
pub enum Reply {
    User(Result<User, StoreError>),
    UserToken(Result<UserToken, StoreError>),
    Camera(Result<Camera, StoreError>),
    CameraToken(Result<CameraToken, StoreError>),
    UsersCamera(Result<UsersCamera, StoreError>),
    UsersCameras(Result<Vec<UsersCamera>, StoreError>),
    Cameras(Result<Vec<Camera>, StoreError>),
    Config(Result<Config, StoreError>),
    /// The number of rows a delete removed.
    Deleted(Result<usize, StoreError>),
    Directory(Listing),
    /// The clock's reading, or `None` where it stands before the epoch.
    Clock(Option<u64>),
    /// Whether a file-system operation succeeded.
    File(bool),
}

pub enum ReplyView {
    User(Result<UserView, StoreError>),
    UserToken(Result<UserToken, StoreError>),
    Camera(Result<CameraView, StoreError>),
    CameraToken(Result<CameraToken, StoreError>),
    UsersCamera(Result<UsersCamera, StoreError>),
    UsersCameras(Result<Seq<UsersCamera>, StoreError>),
    Cameras(Result<Seq<CameraView>, StoreError>),
    Config(Result<Config, StoreError>),
    Deleted(Result<usize, StoreError>),
    Directory(ListingView),
    Clock(Option<u64>),
    File(bool),
}

impl View for Reply {
    type V = ReplyView;

    open spec fn view(&self) -> ReplyView {
        match *self {
            Reply::User(Ok(user)) => ReplyView::User(Ok(user@)),
            Reply::User(Err(error)) => ReplyView::User(Err(error)),
            Reply::UserToken(row) => ReplyView::UserToken(row),
            Reply::Camera(Ok(camera)) => ReplyView::Camera(Ok(camera@)),
            Reply::Camera(Err(error)) => ReplyView::Camera(Err(error)),
            Reply::CameraToken(row) => ReplyView::CameraToken(row),
            Reply::UsersCamera(row) => ReplyView::UsersCamera(row),
            Reply::UsersCameras(Ok(rows)) => ReplyView::UsersCameras(Ok(rows@)),
            Reply::UsersCameras(Err(error)) => ReplyView::UsersCameras(Err(error)),
            Reply::Cameras(Ok(rows)) => ReplyView::Cameras(Ok(rows.deep_view())),
            Reply::Cameras(Err(error)) => ReplyView::Cameras(Err(error)),
            Reply::Config(row) => ReplyView::Config(row),
            Reply::Deleted(count) => ReplyView::Deleted(count),
            Reply::Directory(listing) => ReplyView::Directory(listing@),
            Reply::Clock(seconds) => ReplyView::Clock(seconds),
            Reply::File(done) => ReplyView::File(done),
        }
    }
}

/// What a handler wants next. `R` is its answer and `E` its way of
/// refusing.
#[derive(Debug)]
pub enum Action<R, E> {
    /// Perform the effect and advance the handler with its reply.
    Perform(Effect),
    /// The handler is done: this is its answer.
    Respond(Result<R, E>),
    /// An undo step failed. The store may be left inconsistent and the
    /// request cannot be answered.
    Abort(&'static str),
}

pub enum ActionView<R, E> {
    Perform(EffectView),
    Respond(Result<R, E>),
    Abort(&'static str),
}

impl<R: DeepView, E> View for Action<R, E> {
    type V = ActionView<R::V, E>;

    open spec fn view(&self) -> ActionView<R::V, E> {
        match *self {
            Action::Perform(effect) => ActionView::Perform(effect@),
            Action::Respond(Ok(answer)) => ActionView::Respond(Ok(answer.deep_view())),
            Action::Respond(Err(failure)) => ActionView::Respond(Err(failure)),
            Action::Abort(message) => ActionView::Abort(message),
        }
    }
}

} // verus!

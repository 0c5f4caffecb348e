//! A model of the relational store, as far as the handlers rely on it:
//! six keyed tables, and for each effect the replies the store may give
//! and the contents it may be left with. The handlers never see the
//! store; the model is what their guarantees are stated over.

use crate::camera::CameraView;
use crate::effect::{EffectView, ReplyView, StoreError};
use crate::user::{InsertableUserView, UserView};
use crate::users_cameras::{InsertableUsersCamera, UsersCamera};
use vstd::prelude::*;

verus! {

/// The contents of the store. Each table maps a row's primary key to the
/// rest of the row.
pub struct Store {
    /// User id to user name and password hash.
    pub users: Map<u128, InsertableUserView>,
    /// Token to user id.
    pub user_tokens: Map<u128, u128>,
    /// Camera id to name.
    pub cameras: Map<u128, Seq<char>>,
    /// Token to camera id.
    pub camera_tokens: Map<u128, u128>,
    /// Link number to camera id and user id.
    pub users_cameras: Map<i32, InsertableUsersCamera>,
    /// Camera id to polling interval.
    pub configs: Map<u128, i16>,
}

/// One exchange of a handler with its surroundings: the reply to the
/// effect it asked for, and the store as the effect left it.
pub struct Exchange {
    pub reply: ReplyView,
    pub store: Store,
}

/// One exchange of a handler whose next state is not determined by the
/// reply alone: the reply, the store as the effect left it, and the state
/// the handler went to.
pub struct Turn<S> {
    pub reply: ReplyView,
    pub store: Store,
    pub state: S,
}

/// The store ran the statement: the reply does not report it unavailable.
pub open spec fn answered(reply: ReplyView) -> bool {
    match reply {
        ReplyView::User(Err(StoreError::Unavailable)) => false,
        ReplyView::UserToken(Err(StoreError::Unavailable)) => false,
        ReplyView::Camera(Err(StoreError::Unavailable)) => false,
        ReplyView::CameraToken(Err(StoreError::Unavailable)) => false,
        ReplyView::UsersCamera(Err(StoreError::Unavailable)) => false,
        ReplyView::UsersCameras(Err(StoreError::Unavailable)) => false,
        ReplyView::Cameras(Err(StoreError::Unavailable)) => false,
        ReplyView::Config(Err(StoreError::Unavailable)) => false,
        ReplyView::Deleted(Err(StoreError::Unavailable)) => false,
        _ => true,
    }
}

/// The store ran every statement of the trace.
pub open spec fn all_answered(trace: Seq<Exchange>) -> bool {
    forall|i: int| 0 <= i < trace.len() ==> answered(#[trigger] trace[i].reply)
}

impl Store {
    /// A user row with this name exists.
    pub open spec fn has_username(self, username: Seq<char>) -> bool {
        exists|user_id: u128| #[trigger]
            self.users.contains_key(user_id) && self.users[user_id].username == username
    }

    /// Every row that names a user or a camera names one that is there:
    /// no token without its user or camera, no link without both, no
    /// config without its camera.
    pub open spec fn intact(self) -> bool {
        &&& forall|token: u128| #[trigger]
            self.user_tokens.contains_key(token) ==> self.users.contains_key(
                self.user_tokens[token],
            )
        &&& forall|token: u128| #[trigger]
            self.camera_tokens.contains_key(token) ==> self.cameras.contains_key(
                self.camera_tokens[token],
            )
        &&& forall|id: i32| #[trigger]
            self.users_cameras.contains_key(id) ==> self.cameras.contains_key(
                self.users_cameras[id].camera_id,
            ) && self.users.contains_key(self.users_cameras[id].user_id)
        &&& forall|camera_id: u128| #[trigger]
            self.configs.contains_key(camera_id) ==> self.cameras.contains_key(camera_id)
    }

    /// No two users have one name.
    pub open spec fn names_are_unique(self) -> bool {
        forall|a: u128, b: u128|
            #![trigger self.users.contains_key(a), self.users.contains_key(b)]
            self.users.contains_key(a) && self.users.contains_key(b) && self.users[a].username
                == self.users[b].username ==> a == b
    }

    /// The store can confirm these credentials: a user of this name
    /// exists, and every user of this name has a hash that stands for
    /// `password`.
    pub open spec fn knows(self, username: Seq<char>, password: Seq<char>) -> bool {
        &&& self.has_username(username)
        &&& forall|user_id: u128| #[trigger]
            self.users.contains_key(user_id) && self.users[user_id].username == username
                ==> crate::user::good_hash(password, self.users[user_id].password)
    }

    /// A link row for exactly this user and this camera exists.
    pub open spec fn links(self, user_id: u128, camera_id: u128) -> bool {
        exists|id: i32| #[trigger]
            self.users_cameras.contains_key(id) && self.users_cameras[id]
                == (InsertableUsersCamera { camera_id, user_id })
    }

    /// `row` is a row of the link table.
    pub open spec fn has_link_row(self, row: UsersCamera) -> bool {
        self.users_cameras.contains_key(row.users_cameras_id)
            && self.users_cameras[row.users_cameras_id] == (InsertableUsersCamera {
            camera_id: row.camera_id,
            user_id: row.user_id,
        })
    }

    /// `row` is a row of the users table.
    pub open spec fn has_user_row(self, row: UserView) -> bool {
        self.users.contains_key(row.user_id) && self.users[row.user_id] == (InsertableUserView {
            username: row.username,
            password: row.password,
        })
    }

    /// The store with one more camera row.
    pub open spec fn with_camera(self, camera_id: u128, name: Seq<char>) -> Store {
        Store { cameras: self.cameras.insert(camera_id, name), ..self }
    }

    /// The store with one more camera-token row.
    pub open spec fn with_camera_token(self, token: u128, camera_id: u128) -> Store {
        Store { camera_tokens: self.camera_tokens.insert(token, camera_id), ..self }
    }

    /// The store with one more link row.
    pub open spec fn with_link(self, id: i32, camera_id: u128, user_id: u128) -> Store {
        Store {
            users_cameras: self.users_cameras.insert(
                id,
                InsertableUsersCamera { camera_id, user_id },
            ),
            ..self
        }
    }

    /// The store with one more config row.
    pub open spec fn with_config(self, camera_id: u128, interval: i16) -> Store {
        Store { configs: self.configs.insert(camera_id, interval), ..self }
    }

    /// The store with one more user row.
    pub open spec fn with_user(self, user_id: u128, user: InsertableUserView) -> Store {
        Store { users: self.users.insert(user_id, user), ..self }
    }

    /// The store with one more user-token row.
    pub open spec fn with_user_token(self, token: u128, user_id: u128) -> Store {
        Store { user_tokens: self.user_tokens.insert(token, user_id), ..self }
    }

    /// `rows` are the link rows of `user_id`: every one of them is a row
    /// of the link table for that user, and every such row is among them.
    pub open spec fn lists_links_of(self, user_id: u128, rows: Seq<UsersCamera>) -> bool {
        &&& forall|i: int|
            0 <= i < rows.len() ==> self.has_link_row(#[trigger] rows[i]) && rows[i].user_id
                == user_id
        &&& forall|id: i32| #[trigger]
            self.users_cameras.contains_key(id) && self.users_cameras[id].user_id == user_id
                ==> rows.contains(
                UsersCamera {
                    users_cameras_id: id,
                    camera_id: self.users_cameras[id].camera_id,
                    user_id,
                },
            )
    }

    /// A camera row with this identifier is among `rows`.
    pub open spec fn lists_camera(rows: Seq<CameraView>, camera_id: u128) -> bool {
        exists|i: int| 0 <= i < rows.len() && (#[trigger] rows[i]).camera_id == camera_id
    }

    /// `rows` are the cameras `user_id` is linked to: every one of them
    /// is a camera row that the user has a link to, and every such camera
    /// is among them.
    pub open spec fn lists_cameras_of(self, user_id: u128, rows: Seq<CameraView>) -> bool {
        &&& forall|i: int|
            0 <= i < rows.len() ==> {
                &&& self.links(user_id, (#[trigger] rows[i]).camera_id)
                &&& self.cameras.contains_key(rows[i].camera_id)
                &&& self.cameras[rows[i].camera_id] == rows[i].name
            }
        &&& forall|camera_id: u128| #[trigger]
            self.cameras.contains_key(camera_id) && self.links(user_id, camera_id)
                ==> Store::lists_camera(rows, camera_id)
    }

    /// What the store may answer to `effect` and how it may be left:
    /// an insert that succeeds adds one row under a key that was free and
    /// returns that row, a delete that succeeds removes the row under the
    /// key, a statement that fails changes nothing, and a query changes
    /// nothing and answers from the rows that are there. A query may fail
    /// as `Unavailable` whatever the rows; it answers `NotFound` only if
    /// no row matches. The file-system effects leave the store alone.
    pub open spec fn follows(self, effect: EffectView, reply: ReplyView, after: Store) -> bool {
        match effect {
            EffectView::FindUserByUsername { username } => after == self && match reply {
                ReplyView::User(Ok(row)) => self.has_user_row(row) && row.username == username,
                ReplyView::User(Err(StoreError::NotFound)) => !self.has_username(username),
                ReplyView::User(Err(StoreError::Unavailable)) => true,
                _ => false,
            },
            EffectView::InsertUser { user } => match reply {
                ReplyView::User(Ok(row)) => {
                    &&& row.username == user.username
                    &&& row.password == user.password
                    &&& !self.users.contains_key(row.user_id)
                    &&& after == (Store { users: self.users.insert(row.user_id, user), ..self })
                },
                ReplyView::User(Err(StoreError::Unavailable)) => after == self,
                _ => false,
            },
            EffectView::DeleteUser { user_id } => match reply {
                ReplyView::Deleted(Ok(_)) => after == (Store {
                    users: self.users.remove(user_id),
                    ..self
                }),
                ReplyView::Deleted(Err(StoreError::Unavailable)) => after == self,
                _ => false,
            },
            EffectView::FindUserToken { token } => after == self && match reply {
                ReplyView::UserToken(Ok(row)) => {
                    &&& row.token == token
                    &&& self.user_tokens.contains_key(token)
                    &&& self.user_tokens[token] == row.user_id
                },
                ReplyView::UserToken(Err(StoreError::NotFound)) => !self.user_tokens.contains_key(
                    token,
                ),
                ReplyView::UserToken(Err(StoreError::Unavailable)) => true,
                _ => false,
            },
            EffectView::InsertUserToken { user_token } => match reply {
                ReplyView::UserToken(Ok(row)) => {
                    &&& row.user_id == user_token.user_id
                    &&& !self.user_tokens.contains_key(row.token)
                    &&& after == (Store {
                        user_tokens: self.user_tokens.insert(row.token, row.user_id),
                        ..self
                    })
                },
                ReplyView::UserToken(Err(StoreError::Unavailable)) => after == self,
                _ => false,
            },
            EffectView::InsertCamera { camera } => match reply {
                ReplyView::Camera(Ok(row)) => {
                    &&& row.name == camera.name
                    &&& !self.cameras.contains_key(row.camera_id)
                    &&& after == (Store {
                        cameras: self.cameras.insert(row.camera_id, row.name),
                        ..self
                    })
                },
                ReplyView::Camera(Err(StoreError::Unavailable)) => after == self,
                _ => false,
            },
            EffectView::DeleteCamera { camera_id } => match reply {
                ReplyView::Deleted(Ok(_)) => after == (Store {
                    cameras: self.cameras.remove(camera_id),
                    ..self
                }),
                ReplyView::Deleted(Err(StoreError::Unavailable)) => after == self,
                _ => false,
            },
            EffectView::FindCameraToken { token } => after == self && match reply {
                ReplyView::CameraToken(Ok(row)) => {
                    &&& row.camera_token == token
                    &&& self.camera_tokens.contains_key(token)
                    &&& self.camera_tokens[token] == row.camera_id
                },
                ReplyView::CameraToken(Err(StoreError::NotFound)) =>
                    !self.camera_tokens.contains_key(token),
                ReplyView::CameraToken(Err(StoreError::Unavailable)) => true,
                _ => false,
            },
            EffectView::InsertCameraToken { camera_token } => match reply {
                ReplyView::CameraToken(Ok(row)) => {
                    &&& row.camera_id == camera_token.camera_id
                    &&& !self.camera_tokens.contains_key(row.camera_token)
                    &&& after == (Store {
                        camera_tokens: self.camera_tokens.insert(row.camera_token, row.camera_id),
                        ..self
                    })
                },
                ReplyView::CameraToken(Err(StoreError::Unavailable)) => after == self,
                _ => false,
            },
            EffectView::DeleteCameraToken { token } => match reply {
                ReplyView::Deleted(Ok(_)) => after == (Store {
                    camera_tokens: self.camera_tokens.remove(token),
                    ..self
                }),
                ReplyView::Deleted(Err(StoreError::Unavailable)) => after == self,
                _ => false,
            },
            EffectView::InsertUsersCamera { users_camera } => match reply {
                ReplyView::UsersCamera(Ok(row)) => {
                    &&& row.camera_id == users_camera.camera_id
                    &&& row.user_id == users_camera.user_id
                    &&& !self.users_cameras.contains_key(row.users_cameras_id)
                    &&& after == (Store {
                        users_cameras: self.users_cameras.insert(
                            row.users_cameras_id,
                            users_camera,
                        ),
                        ..self
                    })
                },
                ReplyView::UsersCamera(Err(StoreError::Unavailable)) => after == self,
                _ => false,
            },
            EffectView::DeleteUsersCamera { users_cameras_id } => match reply {
                ReplyView::Deleted(Ok(_)) => after == (Store {
                    users_cameras: self.users_cameras.remove(users_cameras_id),
                    ..self
                }),
                ReplyView::Deleted(Err(StoreError::Unavailable)) => after == self,
                _ => false,
            },
            EffectView::FindUsersCameras { user_id } => after == self && match reply {
                ReplyView::UsersCameras(Ok(rows)) => self.lists_links_of(user_id, rows),
                ReplyView::UsersCameras(Err(StoreError::Unavailable)) => true,
                _ => false,
            },
            EffectView::FindCamerasOfUser { user_id } => after == self && match reply {
                ReplyView::Cameras(Ok(rows)) => self.lists_cameras_of(user_id, rows),
                ReplyView::Cameras(Err(StoreError::Unavailable)) => true,
                _ => false,
            },
            EffectView::InsertConfig { config } => match reply {
                ReplyView::Config(Ok(row)) => {
                    &&& row == config
                    &&& !self.configs.contains_key(config.camera_id)
                    &&& after == (Store {
                        configs: self.configs.insert(config.camera_id, config.interval),
                        ..self
                    })
                },
                ReplyView::Config(Err(StoreError::Unavailable)) => after == self,
                _ => false,
            },
            EffectView::FindConfig { camera_id } => after == self && match reply {
                ReplyView::Config(Ok(row)) => {
                    &&& row.camera_id == camera_id
                    &&& self.configs.contains_key(camera_id)
                    &&& self.configs[camera_id] == row.interval
                },
                ReplyView::Config(Err(StoreError::NotFound)) => !self.configs.contains_key(
                    camera_id,
                ),
                ReplyView::Config(Err(StoreError::Unavailable)) => true,
                _ => false,
            },
            EffectView::ListDirectory { directory } => after == self && reply is Directory,
            EffectView::CreateDirectory { directory } => after == self && reply is File,
            EffectView::ReadClock => after == self && reply is Clock,
            EffectView::StoreImage { directory, file_name } => after == self && reply is File,
            EffectView::OpenImage { directory, file_name } => after == self && reply is File,
        }
    }
}

} // verus!

use camera_server::api_error::{ApiError, Status};
use camera_server::camera::{
    add_new_camera, AddNewCamera, Camera, InsertableCamera, FAILED_TO_ADD_CAMERA_TOKEN,
    FAILED_TO_CREATE_CAMERA, FAILED_TO_CREATE_CONFIG, FAILED_TO_PAIR_USER,
    UNDO_CAMERA_AFTER_TOKEN_FAILED, UNDO_CAMERA_FAILED, UNDO_LINK_FAILED, UNDO_TOKEN_FAILED,
};
use camera_server::camera_tokens::{CameraToken, CameraTokenGuard};
use camera_server::config::{get_config_user, Config, GetConfigUser, FAILED_TO_READ_CONFIG};
use camera_server::directory::{FAILED_TO_LIST_IMAGES, NO_IMAGES};
use camera_server::effect::{Action, Effect, Listing, Reply, StoreError};
use camera_server::images::{
    get_image, get_image_list, get_latest, upload_image, GetImage, GetImageList, GetLatest,
    UploadImage, FAILED_TO_LOAD_IMAGE, FAILED_TO_SAVE_IMAGE, IMAGE_NOT_FOUND, NO_CURRENT_TIME,
    NO_IMAGES_DIRECTORY,
};
use camera_server::user::{
    add_user, login, AddUser, AuthentiationResult, InsertableUser, Login, User, UserInfo,
    FAILED_TO_CREATE_TOKEN, FAILED_TO_GENERATE_TOKEN, FAILED_TO_GET_USER_ID,
    FAILED_TO_INSERT_USER, HASHING_FAILED, INVALID_CREDENTIALS, PASSWORD_TOO_SHORT,
    UNDO_USER_FAILED, USERNAME_EXISTS,
};
use camera_server::user_tokens::{TokenError, UserToken, UserTokenGuard};
use camera_server::users_cameras::{
    UsersCamera, FAILED_TO_LIST_CAMERAS, NO_ACCESS_TO_CAMERA,
};

/// A store and a file system in memory, for the handlers to run against.
#[derive(Clone, Debug, PartialEq, Eq)]
struct World {
    users: Vec<User>,
    user_tokens: Vec<UserToken>,
    cameras: Vec<Camera>,
    camera_tokens: Vec<CameraToken>,
    links: Vec<UsersCamera>,
    configs: Vec<Config>,
    directories: Vec<String>,
    files: Vec<(String, String)>,
    clock: u64,
    next_key: u128,
    refused: Vec<(&'static str, Option<usize>)>,
    log: Vec<&'static str>,
}

/// How a handler ended.
#[derive(Debug, PartialEq, Eq)]
enum Ended<R, E> {
    Answered(Result<R, E>),
    Aborted(&'static str),
}

fn kind(effect: &Effect) -> &'static str {
    match effect {
        Effect::FindUserByUsername { .. } => "FindUserByUsername",
        Effect::InsertUser { .. } => "InsertUser",
        Effect::DeleteUser { .. } => "DeleteUser",
        Effect::FindUserToken { .. } => "FindUserToken",
        Effect::InsertUserToken { .. } => "InsertUserToken",
        Effect::InsertCamera { .. } => "InsertCamera",
        Effect::DeleteCamera { .. } => "DeleteCamera",
        Effect::FindCameraToken { .. } => "FindCameraToken",
        Effect::InsertCameraToken { .. } => "InsertCameraToken",
        Effect::DeleteCameraToken { .. } => "DeleteCameraToken",
        Effect::InsertUsersCamera { .. } => "InsertUsersCamera",
        Effect::DeleteUsersCamera { .. } => "DeleteUsersCamera",
        Effect::FindUsersCameras { .. } => "FindUsersCameras",
        Effect::FindCamerasOfUser { .. } => "FindCamerasOfUser",
        Effect::InsertConfig { .. } => "InsertConfig",
        Effect::FindConfig { .. } => "FindConfig",
        Effect::ListDirectory { .. } => "ListDirectory",
        Effect::CreateDirectory { .. } => "CreateDirectory",
        Effect::ReadClock => "ReadClock",
        Effect::StoreImage { .. } => "StoreImage",
        Effect::OpenImage { .. } => "OpenImage",
    }
}

fn refusal(effect: &Effect) -> Reply {
    let down = StoreError::Unavailable;
    match effect {
        Effect::FindUserByUsername { .. } | Effect::InsertUser { .. } => Reply::User(Err(down)),
        Effect::FindUserToken { .. } | Effect::InsertUserToken { .. } => {
            Reply::UserToken(Err(down))
        }
        Effect::InsertCamera { .. } => Reply::Camera(Err(down)),
        Effect::FindCameraToken { .. } | Effect::InsertCameraToken { .. } => {
            Reply::CameraToken(Err(down))
        }
        Effect::InsertUsersCamera { .. } => Reply::UsersCamera(Err(down)),
        Effect::FindUsersCameras { .. } => Reply::UsersCameras(Err(down)),
        Effect::FindCamerasOfUser { .. } => Reply::Cameras(Err(down)),
        Effect::InsertConfig { .. } | Effect::FindConfig { .. } => Reply::Config(Err(down)),
        Effect::DeleteUser { .. }
        | Effect::DeleteCamera { .. }
        | Effect::DeleteCameraToken { .. }
        | Effect::DeleteUsersCamera { .. } => Reply::Deleted(Err(down)),
        Effect::ListDirectory { .. } => Reply::Directory(Listing::Unreadable),
        Effect::ReadClock => Reply::Clock(None),
        Effect::CreateDirectory { .. } | Effect::StoreImage { .. } | Effect::OpenImage { .. } => {
            Reply::File(false)
        }
    }
}

impl World {
    fn new() -> World {
        World {
            users: Vec::new(),
            user_tokens: Vec::new(),
            cameras: Vec::new(),
            camera_tokens: Vec::new(),
            links: Vec::new(),
            configs: Vec::new(),
            directories: Vec::new(),
            files: Vec::new(),
            clock: 1_600_000_000,
            next_key: 0x936da01f_9abd_4d9d_80c7_02af85c822a8,
            refused: Vec::new(),
            log: Vec::new(),
        }
    }

    /// The world without its log and its plan of refusals.
    fn contents(&self) -> World {
        World { refused: Vec::new(), log: Vec::new(), next_key: 0, ..self.clone() }
    }

    fn refuse(&mut self, kind: &'static str) {
        self.refused.push((kind, None));
    }

    fn refuse_nth(&mut self, kind: &'static str, nth: usize) {
        self.refused.push((kind, Some(nth)));
    }

    fn key(&mut self) -> u128 {
        self.next_key += 0x1_0000_0000_0000_0001;
        self.next_key
    }

    fn is_refused(&self, kind: &'static str) -> bool {
        let seen = self.log.iter().filter(|logged| **logged == kind).count();
        self.refused
            .iter()
            .any(|(refused, nth)| *refused == kind && nth.map_or(true, |nth| nth == seen))
    }

    fn perform(&mut self, effect: Effect) -> Reply {
        let refused = self.is_refused(kind(&effect));
        self.log.push(kind(&effect));
        if refused {
            return refusal(&effect);
        }
        match effect {
            Effect::FindUserByUsername { username } => Reply::User(
                self.users
                    .iter()
                    .find(|user| user.username == username)
                    .cloned()
                    .ok_or(StoreError::NotFound),
            ),
            Effect::InsertUser { user } => {
                let row = User {
                    user_id: self.key(),
                    username: user.username,
                    password: user.password,
                };
                self.users.push(row.clone());
                Reply::User(Ok(row))
            }
            Effect::DeleteUser { user_id } => {
                let before = self.users.len();
                self.users.retain(|user| user.user_id != user_id);
                Reply::Deleted(Ok(before - self.users.len()))
            }
            Effect::FindUserToken { token } => Reply::UserToken(
                self.user_tokens
                    .iter()
                    .find(|row| row.token == token)
                    .copied()
                    .ok_or(StoreError::NotFound),
            ),
            Effect::InsertUserToken { user_token } => {
                let row = UserToken { token: self.key(), user_id: user_token.user_id };
                self.user_tokens.push(row);
                Reply::UserToken(Ok(row))
            }
            Effect::InsertCamera { camera } => {
                let row = Camera { camera_id: self.key(), name: camera.name };
                self.cameras.push(row.clone());
                Reply::Camera(Ok(row))
            }
            Effect::DeleteCamera { camera_id } => {
                let before = self.cameras.len();
                self.cameras.retain(|camera| camera.camera_id != camera_id);
                Reply::Deleted(Ok(before - self.cameras.len()))
            }
            Effect::FindCameraToken { token } => Reply::CameraToken(
                self.camera_tokens
                    .iter()
                    .find(|row| row.camera_token == token)
                    .copied()
                    .ok_or(StoreError::NotFound),
            ),
            Effect::InsertCameraToken { camera_token } => {
                let row =
                    CameraToken { camera_token: self.key(), camera_id: camera_token.camera_id };
                self.camera_tokens.push(row);
                Reply::CameraToken(Ok(row))
            }
            Effect::DeleteCameraToken { token } => {
                let before = self.camera_tokens.len();
                self.camera_tokens.retain(|row| row.camera_token != token);
                Reply::Deleted(Ok(before - self.camera_tokens.len()))
            }
            Effect::InsertUsersCamera { users_camera } => {
                let row = UsersCamera {
                    users_cameras_id: self.links.len() as i32 + 1,
                    camera_id: users_camera.camera_id,
                    user_id: users_camera.user_id,
                };
                self.links.push(row);
                Reply::UsersCamera(Ok(row))
            }
            Effect::DeleteUsersCamera { users_cameras_id } => {
                let before = self.links.len();
                self.links.retain(|row| row.users_cameras_id != users_cameras_id);
                Reply::Deleted(Ok(before - self.links.len()))
            }
            Effect::FindUsersCameras { user_id } => Reply::UsersCameras(Ok(self
                .links
                .iter()
                .filter(|row| row.user_id == user_id)
                .copied()
                .collect())),
            Effect::FindCamerasOfUser { user_id } => Reply::Cameras(Ok(self
                .cameras
                .iter()
                .filter(|camera| {
                    self.links
                        .iter()
                        .any(|row| row.user_id == user_id && row.camera_id == camera.camera_id)
                })
                .cloned()
                .collect())),
            Effect::InsertConfig { config } => {
                self.configs.push(config);
                Reply::Config(Ok(config))
            }
            Effect::FindConfig { camera_id } => Reply::Config(
                self.configs
                    .iter()
                    .find(|row| row.camera_id == camera_id)
                    .copied()
                    .ok_or(StoreError::NotFound),
            ),
            Effect::ListDirectory { directory } => {
                if self.directories.contains(&directory) {
                    Reply::Directory(Listing::Entries(
                        self.files
                            .iter()
                            .filter(|(place, _)| *place == directory)
                            .map(|(_, name)| name.clone())
                            .collect(),
                    ))
                } else {
                    Reply::Directory(Listing::Missing)
                }
            }
            Effect::CreateDirectory { directory } => {
                if !self.directories.contains(&directory) {
                    self.directories.push(directory);
                }
                Reply::File(true)
            }
            Effect::ReadClock => Reply::Clock(Some(self.clock)),
            Effect::StoreImage { directory, file_name } => {
                if !self.directories.contains(&directory) {
                    return Reply::File(false);
                }
                self.files.retain(|(place, name)| !(*place == directory && *name == file_name));
                self.files.push((directory, file_name));
                Reply::File(true)
            }
            Effect::OpenImage { directory, file_name } => {
                Reply::File(self.files.contains(&(directory, file_name)))
            }
        }
    }

    /// Puts files into a camera's directory, in this order.
    fn put_files(&mut self, directory: &str, names: &[&str]) {
        self.directories.push(directory.to_string());
        for name in names {
            self.files.push((directory.to_string(), name.to_string()));
        }
    }

    /// Registers a user whose password is "password", with a hash of
    /// low cost.
    fn seed_user(&mut self, username: &str) -> User {
        let row = User {
            user_id: self.key(),
            username: username.to_string(),
            password: "$2a$04$UuTkLRZZ6QofpDOlMz32MuuxEHA43WOemOYHPz6.SjsVsyO1tDU96".to_string(),
        };
        self.users.push(row.clone());
        row
    }

    /// Gives `user_id` a camera with its link, and returns its identifier.
    fn seed_camera(&mut self, user_id: u128, name: &str) -> u128 {
        let camera_id = self.key();
        self.cameras.push(Camera { camera_id, name: name.to_string() });
        self.links.push(UsersCamera {
            users_cameras_id: self.links.len() as i32 + 1,
            camera_id,
            user_id,
        });
        camera_id
    }
}

fn drive<P, R, E>(
    world: &mut World,
    mut process: P,
    action: fn(&P) -> Action<R, E>,
    advance: fn(P, Reply) -> P,
) -> Ended<R, E> {
    for _ in 0..32 {
        match action(&process) {
            Action::Perform(effect) => process = advance(process, world.perform(effect)),
            Action::Respond(answer) => return Ended::Answered(answer),
            Action::Abort(message) => return Ended::Aborted(message),
        }
    }
    panic!("the handler does not come to an end");
}

fn credentials(username: &str, password: &str) -> InsertableUser {
    InsertableUser { username: username.to_string(), password: password.to_string() }
}

fn register(
    world: &mut World,
    username: &str,
    password: &str,
) -> Ended<AuthentiationResult, ApiError> {
    drive(world, AddUser::new(credentials(username, password)), AddUser::action, add_user)
}

fn log_in(
    world: &mut World,
    username: &str,
    password: &str,
) -> Ended<AuthentiationResult, ApiError> {
    drive(world, Login::new(credentials(username, password)), Login::action, login)
}

fn create_camera(
    world: &mut World,
    user_token: &UserToken,
    name: &str,
) -> Ended<CameraToken, ApiError> {
    drive(
        world,
        AddNewCamera::new(user_token, InsertableCamera { name: name.to_string() }),
        AddNewCamera::action,
        add_new_camera,
    )
}

fn authenticate_user(
    world: &mut World,
    header: Option<&str>,
) -> Ended<UserToken, (Status, TokenError)> {
    drive(world, UserTokenGuard::new(header), UserTokenGuard::action, UserToken::from_request)
}

fn authenticate_camera(
    world: &mut World,
    header: Option<&str>,
) -> Ended<CameraToken, (Status, TokenError)> {
    drive(
        world,
        CameraTokenGuard::new(header),
        CameraTokenGuard::action,
        CameraToken::from_request,
    )
}

fn upload(world: &mut World, camera_token: &CameraToken) -> Ended<String, ApiError> {
    drive(
        world,
        UploadImage::new(camera_token, &"images".to_string()),
        UploadImage::action,
        upload_image,
    )
}

fn latest(world: &mut World, user_token: &UserToken, camera: &str) -> Ended<String, ApiError> {
    drive(
        world,
        GetLatest::new(user_token, &"images".to_string(), &camera.to_string()),
        GetLatest::action,
        get_latest,
    )
}

fn image_list(
    world: &mut World,
    user_token: &UserToken,
    camera: &str,
) -> Ended<Vec<String>, ApiError> {
    drive(
        world,
        GetImageList::new(user_token, &"images".to_string(), &camera.to_string()),
        GetImageList::action,
        get_image_list,
    )
}

fn image(
    world: &mut World,
    user_token: &UserToken,
    camera: &str,
    image_id: &str,
) -> Ended<String, ApiError> {
    drive(
        world,
        GetImage::new(user_token, &"images".to_string(), &camera.to_string(), image_id.to_string()),
        GetImage::action,
        get_image,
    )
}

fn config_of(world: &mut World, user_token: &UserToken, camera: &str) -> Ended<Config, ApiError> {
    drive(world, GetConfigUser::new(user_token, camera), GetConfigUser::action, get_config_user)
}

fn text(id: u128) -> String {
    uuid::Uuid::from_u128(id).to_string()
}

fn refused<R>(error: &'static str, status: Status) -> Ended<R, ApiError> {
    Ended::Answered(Err(ApiError { error, status }))
}

fn failed<R>(error: &'static str) -> Ended<R, ApiError> {
    refused(error, Status::InternalServerError)
}

fn names(list: &[&str]) -> Vec<String> {
    list.iter().map(|name| name.to_string()).collect()
}

#[test]
fn register_refuses_a_short_password_and_asks_nothing_of_the_store() {
    for password in ["", "short", "1234567", "äöüäöüä"] {
        let mut world = World::new();
        world.seed_user("bob");
        let before = world.contents();
        assert_eq!(
            register(&mut world, "alice", password),
            refused(PASSWORD_TOO_SHORT, Status::UnprocessableEntity)
        );
        assert_eq!(world.log, Vec::<&str>::new());
        assert_eq!(world.contents(), before);
    }
}

#[test]
fn register_refuses_a_short_password_before_it_looks_at_the_name() {
    let mut world = World::new();
    world.seed_user("alice");
    assert_eq!(
        register(&mut world, "alice", "short"),
        refused(PASSWORD_TOO_SHORT, Status::UnprocessableEntity)
    );
}

#[test]
fn register_counts_the_characters_of_a_password_not_its_bytes() {
    assert_eq!(
        AddUser::new(credentials("alice", "12345678")),
        AddUser::CheckingUsername { new_user: credentials("alice", "12345678") }
    );
    assert_eq!(
        AddUser::new(credentials("alice", "pässwörd")),
        AddUser::CheckingUsername { new_user: credentials("alice", "pässwörd") }
    );
    assert_eq!(
        AddUser::new(credentials("alice", "äöüäö")),
        AddUser::Finished(Err(ApiError {
            error: PASSWORD_TOO_SHORT,
            status: Status::UnprocessableEntity
        }))
    );
}

#[test]
fn register_refuses_a_taken_name_and_leaves_the_store_alone() {
    let mut world = World::new();
    world.seed_user("alice");
    let before = world.contents();
    assert_eq!(
        register(&mut world, "alice", "password1"),
        refused(USERNAME_EXISTS, Status::Conflict)
    );
    assert_eq!(world.log, vec!["FindUserByUsername"]);
    assert_eq!(world.contents(), before);
}

#[test]
fn register_stores_a_hash_and_returns_a_token() {
    let mut world = World::new();
    let answer = register(&mut world, "alice", "password1");
    assert_eq!(world.log, vec!["FindUserByUsername", "InsertUser", "InsertUserToken"]);
    assert_eq!(world.users.len(), 1);
    let user = world.users[0].clone();
    assert_eq!(user.username, "alice");
    assert_ne!(user.password, "password1");
    assert!(user.password.starts_with("$2b$12$"));
    assert_eq!(bcrypt::verify("password1", &user.password).unwrap(), true);
    assert_eq!(world.user_tokens.len(), 1);
    assert_eq!(world.user_tokens[0].user_id, user.user_id);
    assert_eq!(
        answer,
        Ended::Answered(Ok(AuthentiationResult {
            user_info: UserInfo { username: "alice".to_string(), user_id: user.user_id },
            user_token: world.user_tokens[0].token,
        }))
    );
}

#[test]
fn register_then_login_succeeds_with_another_token() {
    let mut world = World::new();
    let registered = match register(&mut world, "alice", "password1") {
        Ended::Answered(Ok(result)) => result,
        other => panic!("registration ended with {:?}", other),
    };
    let logged_in = match log_in(&mut world, "alice", "password1") {
        Ended::Answered(Ok(result)) => result,
        other => panic!("login ended with {:?}", other),
    };
    assert_eq!(logged_in.user_info, registered.user_info);
    assert_ne!(logged_in.user_token, registered.user_token);
    assert_eq!(world.user_tokens.len(), 2);
    assert_eq!(world.users.len(), 1);
}

#[test]
fn successive_logins_return_distinct_tokens_and_keep_the_old_ones() {
    let mut world = World::new();
    let user = world.seed_user("alice");
    let mut tokens = Vec::new();
    for _ in 0..3 {
        match log_in(&mut world, "alice", "password") {
            Ended::Answered(Ok(result)) => {
                assert_eq!(
                    result.user_info,
                    UserInfo { username: "alice".to_string(), user_id: user.user_id }
                );
                assert!(!tokens.contains(&result.user_token));
                tokens.push(result.user_token);
            }
            other => panic!("login ended with {:?}", other),
        }
    }
    assert_eq!(world.user_tokens.len(), 3);
    for token in tokens {
        assert_eq!(
            authenticate_user(&mut world, Some(&text(token))),
            Ended::Answered(Ok(UserToken { token, user_id: user.user_id }))
        );
    }
}

#[test]
fn login_asks_for_the_user_twice_and_then_for_a_token() {
    let mut world = World::new();
    world.seed_user("alice");
    log_in(&mut world, "alice", "password");
    assert_eq!(world.log, vec!["FindUserByUsername", "FindUserByUsername", "InsertUserToken"]);
}

#[test]
fn login_answers_a_wrong_password_and_an_unknown_name_alike() {
    let mut world = World::new();
    world.seed_user("alice");
    let before = world.contents();
    let wrong_password = log_in(&mut world, "alice", "password1");
    let unknown_name = log_in(&mut world, "mallory", "password");
    assert_eq!(wrong_password, refused(INVALID_CREDENTIALS, Status::Unauthorized));
    assert_eq!(unknown_name, wrong_password);
    assert_eq!(world.log, vec!["FindUserByUsername", "FindUserByUsername"]);
    assert_eq!(world.contents(), before);
}

#[test]
fn login_answers_a_store_that_is_down_like_a_wrong_password() {
    let mut world = World::new();
    world.seed_user("alice");
    world.refuse("FindUserByUsername");
    assert_eq!(
        log_in(&mut world, "alice", "password"),
        refused(INVALID_CREDENTIALS, Status::Unauthorized)
    );
}

#[test]
fn login_reports_a_user_that_cannot_be_read_again() {
    let mut world = World::new();
    world.seed_user("alice");
    world.refuse_nth("FindUserByUsername", 1);
    assert_eq!(log_in(&mut world, "alice", "password"), failed(FAILED_TO_GET_USER_ID));
    assert_eq!(world.user_tokens.len(), 0);
}

#[test]
fn login_reports_a_token_that_cannot_be_issued() {
    let mut world = World::new();
    world.seed_user("alice");
    world.refuse("InsertUserToken");
    assert_eq!(log_in(&mut world, "alice", "password"), failed(FAILED_TO_CREATE_TOKEN));
    assert_eq!(world.user_tokens.len(), 0);
}

#[test]
fn register_reports_a_user_that_cannot_be_written() {
    let mut world = World::new();
    world.refuse("InsertUser");
    let before = world.contents();
    assert_eq!(register(&mut world, "alice", "password1"), failed(FAILED_TO_INSERT_USER));
    assert_eq!(world.log, vec!["FindUserByUsername", "InsertUser"]);
    assert_eq!(world.contents(), before);
}

#[test]
fn register_deletes_the_user_when_no_token_can_be_issued() {
    let mut world = World::new();
    world.seed_user("bob");
    world.refuse("InsertUserToken");
    let before = world.contents();
    assert_eq!(register(&mut world, "alice", "password1"), failed(FAILED_TO_GENERATE_TOKEN));
    assert_eq!(
        world.log,
        vec!["FindUserByUsername", "InsertUser", "InsertUserToken", "DeleteUser"]
    );
    assert_eq!(world.contents(), before);
}

#[test]
fn register_aborts_when_the_user_cannot_be_deleted_again() {
    let mut world = World::new();
    world.refuse("InsertUserToken");
    world.refuse("DeleteUser");
    assert_eq!(register(&mut world, "alice", "password1"), Ended::Aborted(UNDO_USER_FAILED));
}

#[test]
fn register_aborts_on_a_password_that_cannot_be_hashed() {
    let mut world = World::new();
    let before = world.contents();
    assert_eq!(register(&mut world, "alice", "pass\0word1"), Ended::Aborted(HASHING_FAILED));
    assert_eq!(world.log, vec!["FindUserByUsername"]);
    assert_eq!(world.contents(), before);
}

#[test]
fn register_goes_on_when_the_name_lookup_fails() {
    let mut process = AddUser::new(credentials("alice", "password1"));
    process = add_user(process, Reply::User(Err(StoreError::Unavailable)));
    match process {
        AddUser::InsertingUser { hashed } => {
            assert_eq!(hashed.username, "alice");
            assert_eq!(bcrypt::verify("password1", &hashed.password).unwrap(), true);
        }
        other => panic!("registration stands at {:?}", other),
    }
}

#[test]
fn a_user_request_without_a_token_header_is_unauthorized() {
    let mut world = World::new();
    assert_eq!(
        authenticate_user(&mut world, None),
        Ended::Answered(Err((Status::Unauthorized, TokenError::NoTokenProvided)))
    );
    assert_eq!(world.log, Vec::<&str>::new());
}

#[test]
fn a_user_token_that_is_no_identifier_is_a_bad_request() {
    let mut world = World::new();
    let malformed =
        ["", "token", "936da01f-9abd-4d9d-80c7-02af85c822a", "936da01f9abd4d9d80c702af85c822a8ff"];
    for header in malformed {
        assert_eq!(
            authenticate_user(&mut world, Some(header)),
            Ended::Answered(Err((Status::BadRequest, TokenError::ParseError)))
        );
    }
    assert_eq!(world.log, Vec::<&str>::new());
}

#[test]
fn a_user_token_is_read_as_a_uuid() {
    let token: u128 = 0x936da01f_9abd_4d9d_80c7_02af85c822a8;
    let resolving = UserTokenGuard::Resolving { token };
    assert_eq!(UserTokenGuard::new(Some("936da01f-9abd-4d9d-80c7-02af85c822a8")), resolving);
    assert_eq!(UserTokenGuard::new(Some("936DA01F-9ABD-4D9D-80C7-02AF85C822A8")), resolving);
    assert_eq!(UserTokenGuard::new(Some("936da01f9abd4d9d80c702af85c822a8")), resolving);
    assert_eq!(
        UserTokenGuard::new(Some("urn:uuid:936da01f-9abd-4d9d-80c7-02af85c822a8")),
        resolving
    );
    assert_eq!(
        UserTokenGuard::new(Some("00000000-0000-0000-0000-000000000001")),
        UserTokenGuard::Resolving { token: 1 }
    );
    assert_eq!(UserTokenGuard::from_parsed(Some(token)), resolving);
    assert_eq!(
        UserTokenGuard::from_parsed(None),
        UserTokenGuard::Finished(Err((Status::BadRequest, TokenError::ParseError)))
    );
}

#[test]
fn a_user_token_is_valid_while_its_row_exists() {
    let mut world = World::new();
    let row = UserToken { token: 0x1234, user_id: 7 };
    world.user_tokens.push(row);
    assert_eq!(authenticate_user(&mut world, Some(&text(0x1234))), Ended::Answered(Ok(row)));
    assert_eq!(
        authenticate_user(&mut world, Some(&text(0x1235))),
        Ended::Answered(Err((Status::Unauthorized, TokenError::NotFound)))
    );
    world.user_tokens.clear();
    assert_eq!(
        authenticate_user(&mut world, Some(&text(0x1234))),
        Ended::Answered(Err((Status::Unauthorized, TokenError::NotFound)))
    );
    assert_eq!(world.log, vec!["FindUserToken", "FindUserToken", "FindUserToken"]);
}

#[test]
fn a_user_token_is_not_known_while_the_store_is_down() {
    let mut world = World::new();
    world.user_tokens.push(UserToken { token: 0x1234, user_id: 7 });
    world.refuse("FindUserToken");
    assert_eq!(
        authenticate_user(&mut world, Some(&text(0x1234))),
        Ended::Answered(Err((Status::Unauthorized, TokenError::NotFound)))
    );
}

#[test]
fn a_camera_token_is_checked_like_a_user_token() {
    let mut world = World::new();
    let row = CameraToken { camera_token: 0x99, camera_id: 0x77 };
    world.camera_tokens.push(row);
    world.user_tokens.push(UserToken { token: 0x55, user_id: 7 });
    assert_eq!(authenticate_camera(&mut world, Some(&text(0x99))), Ended::Answered(Ok(row)));
    assert_eq!(
        authenticate_camera(&mut world, None),
        Ended::Answered(Err((Status::Unauthorized, TokenError::NoTokenProvided)))
    );
    assert_eq!(
        authenticate_camera(&mut world, Some("camera")),
        Ended::Answered(Err((Status::BadRequest, TokenError::ParseError)))
    );
    // a user token is no camera token, and a camera id is no token
    for other in [0x55, 0x77] {
        assert_eq!(
            authenticate_camera(&mut world, Some(&text(other))),
            Ended::Answered(Err((Status::Unauthorized, TokenError::NotFound)))
        );
    }
    assert_eq!(
        CameraTokenGuard::new(Some("936da01f-9abd-4d9d-80c7-02af85c822a8")),
        CameraTokenGuard::Resolving { token: 0x936da01f_9abd_4d9d_80c7_02af85c822a8 }
    );
    assert_eq!(
        CameraTokenGuard::from_parsed(None),
        CameraTokenGuard::Finished(Err((Status::BadRequest, TokenError::ParseError)))
    );
}

#[test]
fn a_new_camera_gets_a_token_a_link_to_its_creator_and_a_config() {
    let mut world = World::new();
    let user_token = UserToken { token: 1, user_id: 100 };
    let answer = create_camera(&mut world, &user_token, "cam1");
    assert_eq!(
        world.log,
        vec!["InsertCamera", "InsertCameraToken", "InsertUsersCamera", "InsertConfig"]
    );
    assert_eq!(world.cameras.len(), 1);
    let camera_id = world.cameras[0].camera_id;
    assert_eq!(world.cameras[0].name, "cam1");
    assert_eq!(world.camera_tokens.len(), 1);
    assert_eq!(world.camera_tokens[0].camera_id, camera_id);
    assert_eq!(world.links, vec![UsersCamera { users_cameras_id: 1, camera_id, user_id: 100 }]);
    assert_eq!(world.configs, vec![Config { camera_id, interval: 10 }]);
    assert_eq!(answer, Ended::Answered(Ok(world.camera_tokens[0])));
}

#[test]
fn a_camera_that_cannot_be_written_is_reported() {
    let mut world = World::new();
    world.refuse("InsertCamera");
    let before = world.contents();
    let user_token = UserToken { token: 1, user_id: 100 };
    assert_eq!(create_camera(&mut world, &user_token, "cam1"), failed(FAILED_TO_CREATE_CAMERA));
    assert_eq!(world.log, vec!["InsertCamera"]);
    assert_eq!(world.contents(), before);
}

#[test]
fn no_camera_remains_when_its_token_cannot_be_issued() {
    let mut world = World::new();
    world.seed_camera(100, "old");
    world.refuse("InsertCameraToken");
    let before = world.contents();
    let user_token = UserToken { token: 1, user_id: 100 };
    assert_eq!(
        create_camera(&mut world, &user_token, "cam1"),
        failed(FAILED_TO_ADD_CAMERA_TOKEN)
    );
    assert_eq!(world.log, vec!["InsertCamera", "InsertCameraToken", "DeleteCamera"]);
    assert_eq!(world.contents(), before);
}

#[test]
fn no_camera_and_no_token_remain_when_the_link_cannot_be_written() {
    let mut world = World::new();
    world.seed_camera(100, "old");
    world.refuse("InsertUsersCamera");
    let before = world.contents();
    let user_token = UserToken { token: 1, user_id: 100 };
    assert_eq!(create_camera(&mut world, &user_token, "cam1"), failed(FAILED_TO_PAIR_USER));
    assert_eq!(
        world.log,
        vec![
            "InsertCamera",
            "InsertCameraToken",
            "InsertUsersCamera",
            "DeleteCameraToken",
            "DeleteCamera"
        ]
    );
    assert_eq!(world.contents(), before);
}

#[test]
fn nothing_remains_when_the_config_cannot_be_written() {
    let mut world = World::new();
    world.seed_camera(100, "old");
    world.refuse("InsertConfig");
    let before = world.contents();
    let user_token = UserToken { token: 1, user_id: 100 };
    assert_eq!(create_camera(&mut world, &user_token, "cam1"), failed(FAILED_TO_CREATE_CONFIG));
    assert_eq!(
        world.log,
        vec![
            "InsertCamera",
            "InsertCameraToken",
            "InsertUsersCamera",
            "InsertConfig",
            "DeleteUsersCamera",
            "DeleteCameraToken",
            "DeleteCamera"
        ]
    );
    assert_eq!(world.contents(), before);
}

#[test]
fn camera_creation_aborts_when_an_undo_step_fails() {
    let user_token = UserToken { token: 1, user_id: 100 };
    let cases = [
        ("InsertCameraToken", "DeleteCamera", UNDO_CAMERA_AFTER_TOKEN_FAILED),
        ("InsertUsersCamera", "DeleteCameraToken", UNDO_TOKEN_FAILED),
        ("InsertUsersCamera", "DeleteCamera", UNDO_CAMERA_FAILED),
        ("InsertConfig", "DeleteUsersCamera", UNDO_LINK_FAILED),
        ("InsertConfig", "DeleteCameraToken", UNDO_TOKEN_FAILED),
        ("InsertConfig", "DeleteCamera", UNDO_CAMERA_FAILED),
    ];
    for (step, undo, message) in cases {
        let mut world = World::new();
        world.refuse(step);
        world.refuse(undo);
        assert_eq!(create_camera(&mut world, &user_token, "cam1"), Ended::Aborted(message));
        assert_eq!(world.log.last(), Some(&undo));
    }
}

#[test]
fn the_creator_of_a_camera_has_access_and_nobody_else() {
    let mut world = World::new();
    let creator = UserToken { token: 1, user_id: 100 };
    let stranger = UserToken { token: 2, user_id: 101 };
    let token = match create_camera(&mut world, &creator, "cam1") {
        Ended::Answered(Ok(token)) => token,
        other => panic!("creation ended with {:?}", other),
    };
    let camera = text(token.camera_id);
    assert_eq!(
        config_of(&mut world, &creator, &camera),
        Ended::Answered(Ok(Config { camera_id: token.camera_id, interval: 10 }))
    );
    assert_eq!(
        config_of(&mut world, &stranger, &camera),
        refused(NO_ACCESS_TO_CAMERA, Status::Unauthorized)
    );
    world.links.clear();
    assert_eq!(
        config_of(&mut world, &creator, &camera),
        refused(NO_ACCESS_TO_CAMERA, Status::Unauthorized)
    );
}

#[test]
fn a_config_is_read_only_after_the_access_check() {
    let mut world = World::new();
    let user_token = UserToken { token: 1, user_id: 100 };
    let camera_id = world.seed_camera(101, "theirs");
    world.configs.push(Config { camera_id, interval: 10 });
    assert_eq!(
        config_of(&mut world, &user_token, &text(camera_id)),
        refused(NO_ACCESS_TO_CAMERA, Status::Unauthorized)
    );
    assert_eq!(
        config_of(&mut world, &user_token, "no camera"),
        refused(NO_ACCESS_TO_CAMERA, Status::Unauthorized)
    );
    assert_eq!(world.log, vec!["FindUsersCameras", "FindUsersCameras"]);
}

#[test]
fn a_config_that_cannot_be_read_is_reported() {
    let mut world = World::new();
    let user_token = UserToken { token: 1, user_id: 100 };
    let camera_id = world.seed_camera(100, "mine");
    assert_eq!(
        config_of(&mut world, &user_token, &text(camera_id)),
        failed(FAILED_TO_READ_CONFIG)
    );
    world.configs.push(Config { camera_id, interval: 30 });
    assert_eq!(
        config_of(&mut world, &user_token, &text(camera_id)),
        Ended::Answered(Ok(Config { camera_id, interval: 30 }))
    );
    world.refuse("FindUsersCameras");
    assert_eq!(
        config_of(&mut world, &user_token, &text(camera_id)),
        failed(FAILED_TO_LIST_CAMERAS)
    );
}

#[test]
fn an_upload_is_stored_under_the_camera_and_named_by_the_second() {
    let mut world = World::new();
    let camera_token = CameraToken {
        camera_token: 1,
        camera_id: 0x936da01f_9abd_4d9d_80c7_02af85c822a8,
    };
    assert_eq!(upload(&mut world, &camera_token), Ended::Answered(Ok("1600000000".to_string())));
    assert_eq!(world.log, vec!["CreateDirectory", "ReadClock", "StoreImage"]);
    let directory = "images/936da01f-9abd-4d9d-80c7-02af85c822a8".to_string();
    assert_eq!(world.directories, vec![directory.clone()]);
    assert_eq!(world.files, vec![(directory, "1600000000.jpg".to_string())]);
}

#[test]
fn an_upload_formats_the_camera_id_in_lower_case_with_hyphens() {
    for (camera_id, directory) in [
        (0u128, "images/00000000-0000-0000-0000-000000000000"),
        (1, "images/00000000-0000-0000-0000-000000000001"),
        (u128::MAX, "images/ffffffff-ffff-ffff-ffff-ffffffffffff"),
        (0x0123_4567_89AB_CDEF_0123_4567_89AB_CDEF, "images/01234567-89ab-cdef-0123-456789abcdef"),
    ] {
        let process =
            UploadImage::new(&CameraToken { camera_token: 1, camera_id }, &"images".to_string());
        assert_eq!(process, UploadImage::CreatingDirectory { directory: directory.to_string() });
    }
}

#[test]
fn two_uploads_in_one_second_leave_one_image() {
    let mut world = World::new();
    let camera_token = CameraToken { camera_token: 1, camera_id: 2 };
    upload(&mut world, &camera_token);
    upload(&mut world, &camera_token);
    assert_eq!(world.files.len(), 1);
    world.clock += 1;
    assert_eq!(upload(&mut world, &camera_token), Ended::Answered(Ok("1600000001".to_string())));
    assert_eq!(world.files.len(), 2);
}

#[test]
fn an_upload_that_cannot_be_written_is_reported() {
    let mut world = World::new();
    world.refuse("StoreImage");
    let camera_token = CameraToken { camera_token: 1, camera_id: 2 };
    assert_eq!(upload(&mut world, &camera_token), failed(FAILED_TO_SAVE_IMAGE));
}

#[test]
fn an_upload_aborts_without_a_directory_or_without_the_time() {
    let camera_token = CameraToken { camera_token: 1, camera_id: 2 };
    let mut world = World::new();
    world.refuse("CreateDirectory");
    assert_eq!(upload(&mut world, &camera_token), Ended::Aborted(NO_IMAGES_DIRECTORY));
    assert_eq!(world.log, vec!["CreateDirectory"]);
    let mut world = World::new();
    world.refuse("ReadClock");
    assert_eq!(upload(&mut world, &camera_token), Ended::Aborted(NO_CURRENT_TIME));
    assert_eq!(world.log, vec!["CreateDirectory", "ReadClock"]);
}

#[test]
fn image_list_for_a_camera_with_zero_files_is_not_found() {
    let mut world = World::new();
    let user_token = UserToken { token: 1, user_id: 100 };
    let camera = text(world.seed_camera(100, "cam1"));
    assert_eq!(image_list(&mut world, &user_token, &camera), refused(NO_IMAGES, Status::NotFound));
    world.put_files(&format!("images/{}", camera), &[]);
    assert_eq!(image_list(&mut world, &user_token, &camera), refused(NO_IMAGES, Status::NotFound));
    assert_eq!(latest(&mut world, &user_token, &camera), refused(NO_IMAGES, Status::NotFound));
    assert_eq!(
        image(&mut world, &user_token, &camera, "5"),
        refused(NO_IMAGES, Status::NotFound)
    );
}

#[test]
fn image_list_is_sorted_by_file_name_as_text() {
    let mut world = World::new();
    let user_token = UserToken { token: 1, user_id: 100 };
    let camera = text(world.seed_camera(100, "cam1"));
    world.put_files(&format!("images/{}", camera), &["5.jpg", "20.jpg", "100.jpg"]);
    assert_eq!(
        image_list(&mut world, &user_token, &camera),
        Ended::Answered(Ok(names(&["100", "20", "5"])))
    );
    assert_eq!(world.log, vec!["FindUsersCameras", "ListDirectory"]);
}

#[test]
fn images_are_read_from_the_directory_that_uploads_go_to_however_the_id_is_written() {
    let mut world = World::new();
    let user_token = UserToken { token: 1, user_id: 100 };
    let camera_id = world.seed_camera(100, "cam1");
    upload(&mut world, &CameraToken { camera_token: 9, camera_id });
    let canonical = text(camera_id);
    let simple = canonical.replace("-", "");
    let urn = format!("urn:uuid:{}", canonical);
    for written in [canonical.clone(), canonical.to_uppercase(), simple, urn] {
        assert_eq!(
            image_list(&mut world, &user_token, &written),
            Ended::Answered(Ok(names(&["1600000000"]))),
            "{}",
            written
        );
        assert_eq!(
            latest(&mut world, &user_token, &written),
            Ended::Answered(Ok("1600000000.jpg".to_string()))
        );
        assert_eq!(
            image(&mut world, &user_token, &written, "1600000000"),
            Ended::Answered(Ok("1600000000.jpg".to_string()))
        );
    }
}

#[test]
fn the_latest_image_is_the_last_in_name_order() {
    let mut world = World::new();
    let user_token = UserToken { token: 1, user_id: 100 };
    let camera = text(world.seed_camera(100, "cam1"));
    world.put_files(
        &format!("images/{}", camera),
        &["1600000002.jpg", "1600000000.jpg", "1600000003.jpg", "1600000001.jpg"],
    );
    assert_eq!(
        latest(&mut world, &user_token, &camera),
        Ended::Answered(Ok("1600000003.jpg".to_string()))
    );
    assert_eq!(world.log, vec!["FindUsersCameras", "ListDirectory", "OpenImage"]);
    let other = text(world.seed_camera(100, "cam2"));
    world.put_files(&format!("images/{}", other), &["5.jpg", "20.jpg", "100.jpg"]);
    assert_eq!(latest(&mut world, &user_token, &other), Ended::Answered(Ok("5.jpg".to_string())));
}

#[test]
fn a_single_image_is_found_by_its_id() {
    let mut world = World::new();
    let user_token = UserToken { token: 1, user_id: 100 };
    let camera = text(world.seed_camera(100, "cam1"));
    world.put_files(&format!("images/{}", camera), &["20.jpg", "5.jpg", "100.jpg"]);
    assert_eq!(
        image(&mut world, &user_token, &camera, "5"),
        Ended::Answered(Ok("5.jpg".to_string()))
    );
    assert_eq!(world.log, vec!["FindUsersCameras", "ListDirectory", "OpenImage"]);
    assert_eq!(
        image(&mut world, &user_token, &camera, "6"),
        refused(IMAGE_NOT_FOUND, Status::NotFound)
    );
    assert_eq!(
        image(&mut world, &user_token, &camera, "5.jpg"),
        refused(IMAGE_NOT_FOUND, Status::NotFound)
    );
}

#[test]
fn images_are_served_only_after_the_access_check() {
    let mut world = World::new();
    let owner = UserToken { token: 1, user_id: 100 };
    let stranger = UserToken { token: 2, user_id: 101 };
    let camera = text(world.seed_camera(100, "cam1"));
    world.put_files(&format!("images/{}", camera), &["5.jpg"]);
    let unauthorized = ApiError { error: NO_ACCESS_TO_CAMERA, status: Status::Unauthorized };
    assert_eq!(latest(&mut world, &stranger, &camera), Ended::Answered(Err(unauthorized)));
    assert_eq!(image_list(&mut world, &stranger, &camera), Ended::Answered(Err(unauthorized)));
    assert_eq!(image(&mut world, &stranger, &camera, "5"), Ended::Answered(Err(unauthorized)));
    assert_eq!(latest(&mut world, &owner, "../images"), Ended::Answered(Err(unauthorized)));
    assert_eq!(world.log, vec!["FindUsersCameras"; 4]);
    world.links.clear();
    assert_eq!(latest(&mut world, &owner, &camera), Ended::Answered(Err(unauthorized)));
    assert_eq!(image_list(&mut world, &owner, &camera), Ended::Answered(Err(unauthorized)));
    assert_eq!(image(&mut world, &owner, &camera, "5"), Ended::Answered(Err(unauthorized)));
    assert_eq!(world.log, vec!["FindUsersCameras"; 7]);
}

#[test]
fn image_requests_report_what_fails_outside() {
    let user_token = UserToken { token: 1, user_id: 100 };
    let mut world = World::new();
    let camera = text(world.seed_camera(100, "cam1"));
    world.put_files(&format!("images/{}", camera), &["5.jpg"]);

    let mut down = world.clone();
    down.refuse("FindUsersCameras");
    assert_eq!(latest(&mut down, &user_token, &camera), failed(FAILED_TO_LIST_CAMERAS));
    assert_eq!(image_list(&mut down, &user_token, &camera), failed(FAILED_TO_LIST_CAMERAS));
    assert_eq!(image(&mut down, &user_token, &camera, "5"), failed(FAILED_TO_LIST_CAMERAS));

    let mut unreadable = world.clone();
    unreadable.refuse("ListDirectory");
    assert_eq!(latest(&mut unreadable, &user_token, &camera), failed(FAILED_TO_LIST_IMAGES));
    assert_eq!(image_list(&mut unreadable, &user_token, &camera), failed(FAILED_TO_LIST_IMAGES));
    assert_eq!(image(&mut unreadable, &user_token, &camera, "5"), failed(FAILED_TO_LIST_IMAGES));

    let mut locked = world.clone();
    locked.refuse("OpenImage");
    assert_eq!(latest(&mut locked, &user_token, &camera), failed(FAILED_TO_LOAD_IMAGE));
    assert_eq!(image(&mut locked, &user_token, &camera, "5"), failed(FAILED_TO_LOAD_IMAGE));
}

#[test]
fn a_reply_of_another_kind_counts_as_a_failure() {
    let user_token = UserToken { token: 1, user_id: 100 };
    let camera = InsertableCamera { name: "cam1".to_string() };
    assert_eq!(
        add_new_camera(AddNewCamera::new(&user_token, camera), Reply::File(true)),
        AddNewCamera::Finished(Err(ApiError {
            error: FAILED_TO_CREATE_CAMERA,
            status: Status::InternalServerError
        }))
    );
    assert_eq!(
        UserToken::from_request(UserTokenGuard::Resolving { token: 1 }, Reply::File(true)),
        UserTokenGuard::Finished(Err((Status::Unauthorized, TokenError::NotFound)))
    );
    assert_eq!(
        upload_image(
            UploadImage::CreatingDirectory { directory: "images/x".to_string() },
            Reply::Clock(Some(1))
        ),
        UploadImage::Aborted(NO_IMAGES_DIRECTORY)
    );
}

#[test]
fn what_is_created_is_answered_as_created() {
    assert_eq!(AddUser::success(), Status::Created);
    assert_eq!(AddNewCamera::success(), Status::Created);
    assert_eq!(UploadImage::success(), Status::Created);
    assert_eq!(Login::success(), Status::Success);
}

#[test]
fn a_finished_handler_stays_finished() {
    let done = AddNewCamera::Finished(Ok(CameraToken { camera_token: 1, camera_id: 2 }));
    assert_eq!(
        add_new_camera(
            AddNewCamera::Finished(Ok(CameraToken { camera_token: 1, camera_id: 2 })),
            Reply::Deleted(Ok(1))
        ),
        done
    );
    let invalid = ApiError { error: INVALID_CREDENTIALS, status: Status::Unauthorized };
    assert_eq!(
        login(Login::Finished(Err(invalid)), Reply::File(true)),
        Login::Finished(Err(invalid))
    );
}

#[test]
fn end_to_end_register_create_upload_list() {
    let mut world = World::new();
    let registered = match register(&mut world, "alice", "password1") {
        Ended::Answered(Ok(result)) => result,
        other => panic!("registration ended with {:?}", other),
    };
    let token_a = text(registered.user_token);
    let user_token = match authenticate_user(&mut world, Some(&token_a)) {
        Ended::Answered(Ok(user_token)) => user_token,
        other => panic!("authentication ended with {:?}", other),
    };
    assert_eq!(user_token.user_id, registered.user_info.user_id);
    let issued = match create_camera(&mut world, &user_token, "cam1") {
        Ended::Answered(Ok(token)) => token,
        other => panic!("creation ended with {:?}", other),
    };
    let token_c = text(issued.camera_token);
    let camera_token = match authenticate_camera(&mut world, Some(&token_c)) {
        Ended::Answered(Ok(camera_token)) => camera_token,
        other => panic!("authentication ended with {:?}", other),
    };
    assert_eq!(camera_token, issued);
    world.clock = 1_700_000_123;
    let image_id = match upload(&mut world, &camera_token) {
        Ended::Answered(Ok(image_id)) => image_id,
        other => panic!("upload ended with {:?}", other),
    };
    assert_eq!(image_id, "1700000123");
    let camera = text(issued.camera_id);
    assert_eq!(
        image_list(&mut world, &user_token, &camera),
        Ended::Answered(Ok(vec![image_id.clone()]))
    );
    assert_eq!(
        latest(&mut world, &user_token, &camera),
        Ended::Answered(Ok("1700000123.jpg".to_string()))
    );
    assert_eq!(
        image(&mut world, &user_token, &camera, &image_id),
        Ended::Answered(Ok("1700000123.jpg".to_string()))
    );
}

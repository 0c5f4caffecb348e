use crate::api_error::{ApiError, Status};
use crate::effect::{Action, ActionView, Effect, EffectView, Reply, ReplyView};
use crate::password::{bcrypt_verify, hash_password, verify_password};
use crate::store::{all_answered, answered, Exchange, Store, Turn};
use crate::user_tokens::InsertableUserToken;
use vstd::prelude::*;
use vstd::utf8::is_ascii_chars;

verus! {

/// A row of the users table. `password` holds the salted hash, never the
/// plain text.
#[derive(Clone, Debug, PartialEq, Eq)]
pub struct User {
    pub user_id: u128,
    pub username: String,
    pub password: String,
}

pub struct UserView {
    pub user_id: u128,
    pub username: Seq<char>,
    pub password: Seq<char>,
}

impl DeepView for User {
    type V = UserView;

    open spec fn deep_view(&self) -> UserView {
        UserView { user_id: self.user_id, username: self.username@, password: self.password@ }
    }
}

impl View for User {
    type V = UserView;

    open spec fn view(&self) -> UserView {
        self.deep_view()
    }
}

/// What a client sends to register or to log in, and what is written to
/// the users table (then with the hash in `password`).
#[derive(Clone, Debug, PartialEq, Eq)]
pub struct InsertableUser {
    pub username: String,
    pub password: String,
}

pub struct InsertableUserView {
    pub username: Seq<char>,
    pub password: Seq<char>,
}

impl DeepView for InsertableUser {
    type V = InsertableUserView;

    open spec fn deep_view(&self) -> InsertableUserView {
        InsertableUserView { username: self.username@, password: self.password@ }
    }
}

impl View for InsertableUser {
    type V = InsertableUserView;

    open spec fn view(&self) -> InsertableUserView {
        self.deep_view()
    }
}

impl InsertableUser {
    pub fn from_user(user: User) -> (insertable: InsertableUser)
        ensures
            insertable@ == (InsertableUserView {
                username: user@.username,
                password: user@.password,
            }),
    {
        InsertableUser { username: user.username, password: user.password }
    }
}

/// The part of a user that is shown to the user.
#[derive(Clone, Debug, PartialEq, Eq)]
pub struct UserInfo {
    pub username: String,
    pub user_id: u128,
}

pub struct UserInfoView {
    pub username: Seq<char>,
    pub user_id: u128,
}

impl DeepView for UserInfo {
    type V = UserInfoView;

    open spec fn deep_view(&self) -> UserInfoView {
        UserInfoView { username: self.username@, user_id: self.user_id }
    }
}

impl View for UserInfo {
    type V = UserInfoView;

    open spec fn view(&self) -> UserInfoView {
        self.deep_view()
    }
}

impl UserInfo {
    pub fn from_user(user: User) -> (info: UserInfo)
        ensures
            info@ == user@.info(),
    {
        UserInfo { username: user.username, user_id: user.user_id }
    }
}

impl UserView {
    /// The row without its password hash.
    pub open spec fn info(self) -> UserInfoView {
        UserInfoView { username: self.username, user_id: self.user_id }
    }
}

/// The answer to a successful registration or login.
#[derive(Clone, Debug, PartialEq, Eq)]
pub struct AuthentiationResult {
    pub user_info: UserInfo,
    pub user_token: u128,
}

pub struct AuthentiationResultView {
    pub user_info: UserInfoView,
    pub user_token: u128,
}

impl DeepView for AuthentiationResult {
    type V = AuthentiationResultView;

    open spec fn deep_view(&self) -> AuthentiationResultView {
        AuthentiationResultView { user_info: self.user_info@, user_token: self.user_token }
    }
}

impl View for AuthentiationResult {
    type V = AuthentiationResultView;

    open spec fn view(&self) -> AuthentiationResultView {
        self.deep_view()
    }
}

/// The least number of characters a password must have.
pub const MIN_PASSWORD_LENGTH: usize = 8;

pub const PASSWORD_TOO_SHORT: &'static str = "Password must be at least 8 characters long";

pub const USERNAME_EXISTS: &'static str = "Username already exists";

pub const FAILED_TO_INSERT_USER: &'static str = "Failed to insert user into table";

pub const FAILED_TO_GENERATE_TOKEN: &'static str = "Failed to generate token";

pub const HASHING_FAILED: &'static str = "Failed to hash the password";

pub const UNDO_USER_FAILED: &'static str =
    "Failed to delete user id while handling token insert error!";

pub const INVALID_CREDENTIALS: &'static str = "Invalid username or password";

pub const FAILED_TO_GET_USER_ID: &'static str = "Failed to get user id from username";

pub const FAILED_TO_CREATE_TOKEN: &'static str = "Failed to create token";

/// `hash` is a stored hash that stands for `password`: it is ASCII and
/// bcrypt accepts it for the password.
pub open spec fn good_hash(password: Seq<char>, hash: Seq<char>) -> bool {
    is_ascii_chars(hash) && bcrypt_verify(password, hash) == Some(true)
}

/// The reply to a lookup by user name proves the password: it carries a
/// user whose stored hash stands for `password`. A hash that bcrypt
/// cannot read proves nothing, and neither does any other reply.
pub open spec fn login_valid(reply: ReplyView, password: Seq<char>) -> bool {
    reply matches ReplyView::User(Ok(user)) && good_hash(password, user.password)
}

/// What a verdict on a password and a hash means for a login: only a
/// plain yes proves the password. A verdict that could not be reached
/// counts as a no.
pub fn verdict_is_valid(verdict: Option<bool>) -> (valid: bool)
    ensures
        valid == (verdict == Some(true)),
{
    match verdict {
        Some(matches) => matches,
        None => false,
    }
}

/// Decides from the reply to a lookup by user name whether `password`
/// is the user's.
pub fn is_login_valid(reply: &Reply, password: &str) -> (valid: bool)
    ensures
        valid == login_valid(reply@, password@),
{
    match reply {
        Reply::User(Ok(user)) => {
            if !user.password.is_ascii() {
                return false;
            }
            verdict_is_valid(verify_password(password, user.password.as_str()))
        },
        _ => false,
    }
}

/// Registration in progress: the name is checked, the password hashed,
/// the user written and a first token issued. If no token can be issued
/// the user row is deleted again.
#[derive(Debug, PartialEq, Eq)]
pub enum AddUser {
    CheckingUsername { new_user: InsertableUser },
    InsertingUser { hashed: InsertableUser },
    IssuingToken { user: User },
    RemovingUser { user_id: u128 },
    Finished(Result<AuthentiationResult, ApiError>),
    Aborted(&'static str),
}

pub enum AddUserView {
    CheckingUsername { new_user: InsertableUserView },
    InsertingUser { hashed: InsertableUserView },
    IssuingToken { user: UserView },
    RemovingUser { user_id: u128 },
    Finished(Result<AuthentiationResultView, ApiError>),
    Aborted(&'static str),
}

impl View for AddUser {
    type V = AddUserView;

    open spec fn view(&self) -> AddUserView {
        match *self {
            AddUser::CheckingUsername { new_user } => AddUserView::CheckingUsername {
                new_user: new_user@,
            },
            AddUser::InsertingUser { hashed } => AddUserView::InsertingUser { hashed: hashed@ },
            AddUser::IssuingToken { user } => AddUserView::IssuingToken { user: user@ },
            AddUser::RemovingUser { user_id } => AddUserView::RemovingUser { user_id },
            AddUser::Finished(Ok(result)) => AddUserView::Finished(Ok(result@)),
            AddUser::Finished(Err(failure)) => AddUserView::Finished(Err(failure)),
            AddUser::Aborted(message) => AddUserView::Aborted(message),
        }
    }
}

impl AddUserView {
    /// Registration as it starts: a password under the minimum length is
    /// refused before anything is asked of the store.
    pub open spec fn start(new_user: InsertableUserView) -> AddUserView {
        if new_user.password.len() < MIN_PASSWORD_LENGTH {
            AddUserView::Finished(
                Err(ApiError::new(PASSWORD_TOO_SHORT, Status::UnprocessableEntity)),
            )
        } else {
            AddUserView::CheckingUsername { new_user }
        }
    }

    /// What registration wants next in this state.
    pub open spec fn action(self) -> ActionView<AuthentiationResultView, ApiError> {
        match self {
            AddUserView::CheckingUsername { new_user } => ActionView::Perform(
                EffectView::FindUserByUsername { username: new_user.username },
            ),
            AddUserView::InsertingUser { hashed } => ActionView::Perform(
                EffectView::InsertUser { user: hashed },
            ),
            AddUserView::IssuingToken { user } => ActionView::Perform(
                EffectView::InsertUserToken {
                    user_token: InsertableUserToken { user_id: user.user_id },
                },
            ),
            AddUserView::RemovingUser { user_id } => ActionView::Perform(
                EffectView::DeleteUser { user_id },
            ),
            AddUserView::Finished(result) => ActionView::Respond(result),
            AddUserView::Aborted(message) => ActionView::Abort(message),
        }
    }

    /// Where a registration goes once its name proved free and the
    /// password was put through the hash: on to writing the user with the
    /// hash in place of the password, or to an abort if there is no hash.
    pub open spec fn with_hash(
        new_user: InsertableUserView,
        hashed: Option<Seq<char>>,
    ) -> AddUserView {
        match hashed {
            Some(hash) => AddUserView::InsertingUser {
                hashed: InsertableUserView { username: new_user.username, password: hash },
            },
            None => AddUserView::Aborted(HASHING_FAILED),
        }
    }

    /// `next` is a state that registration may go to from this one when
    /// `reply` answers the pending effect. The one step that is not
    /// determined is the hashing: the hash is salted at random, and
    /// hashing may fail, which aborts the registration.
    pub open spec fn steps_to(self, reply: ReplyView, next: AddUserView) -> bool {
        match self {
            AddUserView::CheckingUsername { new_user } => match reply {
                ReplyView::User(Ok(_)) => next == AddUserView::Finished(
                    Err(ApiError::new(USERNAME_EXISTS, Status::Conflict)),
                ),
                _ => {
                    ||| next == AddUserView::with_hash(new_user, None)
                    ||| {
                        &&& !new_user.password.contains('\0')
                        &&& next matches AddUserView::InsertingUser { hashed }
                        &&& next == AddUserView::with_hash(new_user, Some(hashed.password))
                        &&& good_hash(new_user.password, hashed.password)
                    }
                },
            },
            AddUserView::InsertingUser { hashed } => match reply {
                ReplyView::User(Ok(row)) => next == AddUserView::IssuingToken { user: row },
                _ => next == AddUserView::Finished(
                    Err(ApiError::internal(FAILED_TO_INSERT_USER)),
                ),
            },
            AddUserView::IssuingToken { user } => match reply {
                ReplyView::UserToken(Ok(row)) => next == AddUserView::Finished(
                    Ok(AuthentiationResultView { user_info: user.info(), user_token: row.token }),
                ),
                _ => next == AddUserView::RemovingUser { user_id: user.user_id },
            },
            AddUserView::RemovingUser { user_id } => match reply {
                ReplyView::Deleted(Ok(_)) => next == AddUserView::Finished(
                    Err(ApiError::internal(FAILED_TO_GENERATE_TOKEN)),
                ),
                _ => next == AddUserView::Aborted(UNDO_USER_FAILED),
            },
            AddUserView::Finished(result) => next == self,
            AddUserView::Aborted(message) => next == self,
        }
    }

    /// Registration, started in this state on `store`, can go through the
    /// turns of `trace` and then stand in state `last` on store `end`.
    pub open spec fn runs(
        self,
        store: Store,
        trace: Seq<Turn<AddUserView>>,
        last: AddUserView,
        end: Store,
    ) -> bool
        decreases trace.len(),
    {
        if trace.len() == 0 {
            last == self && end == store
        } else {
            &&& self.action() matches ActionView::Perform(effect)
            &&& store.follows(effect, trace[0].reply, trace[0].store)
            &&& self.steps_to(trace[0].reply, trace[0].state)
            &&& trace[0].state.runs(trace[0].store, trace.drop_first(), last, end)
        }
    }
}

impl AddUser {
    /// The status that goes with the answer to a registration.
    pub fn success() -> (status: Status)
        ensures
            status == Status::Created,
    {
        Status::Created
    }

    /// Starts a registration.
    pub fn new(new_user: InsertableUser) -> (process: AddUser)
        ensures
            process@ == AddUserView::start(new_user@),
    {
        if new_user.password.as_str().unicode_len() < MIN_PASSWORD_LENGTH {
            AddUser::Finished(Err(ApiError::new(PASSWORD_TOO_SHORT, Status::UnprocessableEntity)))
        } else {
            AddUser::CheckingUsername { new_user }
        }
    }

    /// Goes on with a registration whose name proved free, with the hash
    /// of its password if there is one.
    pub fn with_hash(new_user: InsertableUser, hashed: Option<String>) -> (process: AddUser)
        ensures
            process@ == AddUserView::with_hash(
                new_user@,
                match hashed {
                    Some(hash) => Some(hash@),
                    None => None,
                },
            ),
    {
        match hashed {
            Some(hash) => AddUser::InsertingUser {
                hashed: InsertableUser { username: new_user.username, password: hash },
            },
            None => AddUser::Aborted(HASHING_FAILED),
        }
    }

    /// What registration wants next.
    pub fn action(&self) -> (action: Action<AuthentiationResult, ApiError>)
        ensures
            action@ == self@.action(),
    {
        match self {
            AddUser::CheckingUsername { new_user } => Action::Perform(
                Effect::FindUserByUsername { username: new_user.username.clone() },
            ),
            AddUser::InsertingUser { hashed } => Action::Perform(
                Effect::InsertUser {
                    user: InsertableUser {
                        username: hashed.username.clone(),
                        password: hashed.password.clone(),
                    },
                },
            ),
            AddUser::IssuingToken { user } => Action::Perform(
                Effect::InsertUserToken {
                    user_token: InsertableUserToken { user_id: user.user_id },
                },
            ),
            AddUser::RemovingUser { user_id } => Action::Perform(
                Effect::DeleteUser { user_id: *user_id },
            ),
            AddUser::Finished(Ok(result)) => Action::Respond(
                Ok(
                    AuthentiationResult {
                        user_info: UserInfo {
                            username: result.user_info.username.clone(),
                            user_id: result.user_info.user_id,
                        },
                        user_token: result.user_token,
                    },
                ),
            ),
            AddUser::Finished(Err(failure)) => Action::Respond(Err(*failure)),
            AddUser::Aborted(message) => Action::Abort(*message),
        }
    }
}

/// Advances a registration with the reply to its pending effect.
pub fn add_user(process: AddUser, reply: Reply) -> (next: AddUser)
    ensures
        process@.steps_to(reply@, next@),
{
    match process {
        AddUser::CheckingUsername { new_user } => match reply {
            Reply::User(Ok(_)) => AddUser::Finished(
                Err(ApiError::new(USERNAME_EXISTS, Status::Conflict)),
            ),
            _ => {
                let hashed = hash_password(new_user.password.as_str());
                AddUser::with_hash(new_user, hashed)
            },
        },
        AddUser::InsertingUser { hashed } => match reply {
            Reply::User(Ok(row)) => AddUser::IssuingToken { user: row },
            _ => AddUser::Finished(Err(ApiError::internal(FAILED_TO_INSERT_USER))),
        },
        AddUser::IssuingToken { user } => match reply {
            Reply::UserToken(Ok(row)) => AddUser::Finished(
                Ok(
                    AuthentiationResult {
                        user_info: UserInfo::from_user(user),
                        user_token: row.token,
                    },
                ),
            ),
            _ => AddUser::RemovingUser { user_id: user.user_id },
        },
        AddUser::RemovingUser { user_id } => match reply {
            Reply::Deleted(Ok(_)) => AddUser::Finished(
                Err(ApiError::internal(FAILED_TO_GENERATE_TOKEN)),
            ),
            _ => AddUser::Aborted(UNDO_USER_FAILED),
        },
        AddUser::Finished(result) => AddUser::Finished(result),
        AddUser::Aborted(message) => AddUser::Aborted(message),
    }
}

/// A login in progress: the credentials are checked against the stored
/// hash, the user is read again and a new token is issued. Tokens issued
/// earlier stay valid.
#[derive(Debug, PartialEq, Eq)]
pub enum Login {
    CheckingCredentials { user_login: InsertableUser },
    LoadingUser { username: String },
    IssuingToken { user: User },
    Finished(Result<AuthentiationResult, ApiError>),
}

pub enum LoginView {
    CheckingCredentials { user_login: InsertableUserView },
    LoadingUser { username: Seq<char> },
    IssuingToken { user: UserView },
    Finished(Result<AuthentiationResultView, ApiError>),
}

impl View for Login {
    type V = LoginView;

    open spec fn view(&self) -> LoginView {
        match *self {
            Login::CheckingCredentials { user_login } => LoginView::CheckingCredentials {
                user_login: user_login@,
            },
            Login::LoadingUser { username } => LoginView::LoadingUser { username: username@ },
            Login::IssuingToken { user } => LoginView::IssuingToken { user: user@ },
            Login::Finished(Ok(result)) => LoginView::Finished(Ok(result@)),
            Login::Finished(Err(failure)) => LoginView::Finished(Err(failure)),
        }
    }
}

impl LoginView {
    /// A login as it starts.
    pub open spec fn start(user_login: InsertableUserView) -> LoginView {
        LoginView::CheckingCredentials { user_login }
    }

    /// What the login wants next in this state.
    pub open spec fn action(self) -> ActionView<AuthentiationResultView, ApiError> {
        match self {
            LoginView::CheckingCredentials { user_login } => ActionView::Perform(
                EffectView::FindUserByUsername { username: user_login.username },
            ),
            LoginView::LoadingUser { username } => ActionView::Perform(
                EffectView::FindUserByUsername { username },
            ),
            LoginView::IssuingToken { user } => ActionView::Perform(
                EffectView::InsertUserToken {
                    user_token: InsertableUserToken { user_id: user.user_id },
                },
            ),
            LoginView::Finished(result) => ActionView::Respond(result),
        }
    }

    /// The state after `reply` has answered the pending effect.
    pub open spec fn next(self, reply: ReplyView) -> LoginView {
        match self {
            LoginView::CheckingCredentials { user_login } => if login_valid(
                reply,
                user_login.password,
            ) {
                LoginView::LoadingUser { username: user_login.username }
            } else {
                LoginView::Finished(Err(ApiError::new(INVALID_CREDENTIALS, Status::Unauthorized)))
            },
            LoginView::LoadingUser { username } => match reply {
                ReplyView::User(Ok(user)) => LoginView::IssuingToken { user },
                _ => LoginView::Finished(Err(ApiError::internal(FAILED_TO_GET_USER_ID))),
            },
            LoginView::IssuingToken { user } => match reply {
                ReplyView::UserToken(Ok(row)) => LoginView::Finished(
                    Ok(AuthentiationResultView { user_info: user.info(), user_token: row.token }),
                ),
                _ => LoginView::Finished(Err(ApiError::internal(FAILED_TO_CREATE_TOKEN))),
            },
            LoginView::Finished(result) => self,
        }
    }

    /// The login, started in this state on `store`, can go through the
    /// exchanges of `trace` and then stand in state `last` on store `end`.
    pub open spec fn runs(
        self,
        store: Store,
        trace: Seq<Exchange>,
        last: LoginView,
        end: Store,
    ) -> bool
        decreases trace.len(),
    {
        if trace.len() == 0 {
            last == self && end == store
        } else {
            &&& self.action() matches ActionView::Perform(effect)
            &&& store.follows(effect, trace[0].reply, trace[0].store)
            &&& self.next(trace[0].reply).runs(trace[0].store, trace.drop_first(), last, end)
        }
    }
}

impl Login {
    /// The status that goes with the answer to a login.
    pub fn success() -> (status: Status)
        ensures
            status == Status::Success,
    {
        Status::Success
    }

    /// Starts a login.
    pub fn new(user_login: InsertableUser) -> (process: Login)
        ensures
            process@ == LoginView::start(user_login@),
    {
        Login::CheckingCredentials { user_login }
    }

    /// What the login wants next.
    pub fn action(&self) -> (action: Action<AuthentiationResult, ApiError>)
        ensures
            action@ == self@.action(),
    {
        match self {
            Login::CheckingCredentials { user_login } => Action::Perform(
                Effect::FindUserByUsername { username: user_login.username.clone() },
            ),
            Login::LoadingUser { username } => Action::Perform(
                Effect::FindUserByUsername { username: username.clone() },
            ),
            Login::IssuingToken { user } => Action::Perform(
                Effect::InsertUserToken {
                    user_token: InsertableUserToken { user_id: user.user_id },
                },
            ),
            Login::Finished(Ok(result)) => Action::Respond(
                Ok(
                    AuthentiationResult {
                        user_info: UserInfo {
                            username: result.user_info.username.clone(),
                            user_id: result.user_info.user_id,
                        },
                        user_token: result.user_token,
                    },
                ),
            ),
            Login::Finished(Err(failure)) => Action::Respond(Err(*failure)),
        }
    }
}

/// Advances a login with the reply to its pending effect.
pub fn login(process: Login, reply: Reply) -> (next: Login)
    ensures
        next@ == process@.next(reply@),
{
    match process {
        Login::CheckingCredentials { user_login } => {
            if is_login_valid(&reply, user_login.password.as_str()) {
                Login::LoadingUser { username: user_login.username }
            } else {
                Login::Finished(Err(ApiError::new(INVALID_CREDENTIALS, Status::Unauthorized)))
            }
        },
        Login::LoadingUser { username } => match reply {
            Reply::User(Ok(user)) => Login::IssuingToken { user },
            _ => Login::Finished(Err(ApiError::internal(FAILED_TO_GET_USER_ID))),
        },
        Login::IssuingToken { user } => match reply {
            Reply::UserToken(Ok(row)) => Login::Finished(
                Ok(
                    AuthentiationResult {
                        user_info: UserInfo::from_user(user),
                        user_token: row.token,
                    },
                ),
            ),
            _ => Login::Finished(Err(ApiError::internal(FAILED_TO_CREATE_TOKEN))),
        },
        Login::Finished(result) => Login::Finished(result),
    }
}

impl AddUserView {
    /// `now` is `origin` with the two rows of a registration: the user,
    /// under the name asked for and with a hash that stands for the
    /// password, and the token, each under a key that was free.
    pub open spec fn registered(
        origin: Store,
        now: Store,
        new_user: InsertableUserView,
        result: AuthentiationResultView,
    ) -> bool {
        let user_id = result.user_info.user_id;
        &&& new_user.password.len() >= MIN_PASSWORD_LENGTH
        &&& result.user_info.username == new_user.username
        &&& !origin.users.contains_key(user_id)
        &&& !origin.user_tokens.contains_key(result.user_token)
        &&& now.users.contains_key(user_id)
        &&& now.users[user_id].username == new_user.username
        &&& good_hash(new_user.password, now.users[user_id].password)
        &&& now == origin.with_user(user_id, now.users[user_id]).with_user_token(
            result.user_token,
            user_id,
        )
    }

    /// What the store holds while a registration of `new_user` that
    /// started on `origin` stands in this state.
    pub open spec fn consistent(
        self,
        new_user: InsertableUserView,
        origin: Store,
        now: Store,
    ) -> bool {
        match self {
            AddUserView::CheckingUsername { new_user: pending } => {
                &&& pending == new_user
                &&& new_user.password.len() >= MIN_PASSWORD_LENGTH
                &&& now == origin
            },
            AddUserView::InsertingUser { hashed } => {
                &&& new_user.password.len() >= MIN_PASSWORD_LENGTH
                &&& hashed.username == new_user.username
                &&& good_hash(new_user.password, hashed.password)
                &&& now == origin
            },
            AddUserView::IssuingToken { user } => {
                &&& new_user.password.len() >= MIN_PASSWORD_LENGTH
                &&& user.username == new_user.username
                &&& good_hash(new_user.password, user.password)
                &&& !origin.users.contains_key(user.user_id)
                &&& now == origin.with_user(
                    user.user_id,
                    InsertableUserView { username: user.username, password: user.password },
                )
            },
            AddUserView::RemovingUser { user_id } => {
                &&& !origin.users.contains_key(user_id)
                &&& now.users.contains_key(user_id)
                &&& now == origin.with_user(user_id, now.users[user_id])
            },
            AddUserView::Finished(Ok(result)) => AddUserView::registered(
                origin,
                now,
                new_user,
                result,
            ),
            AddUserView::Finished(Err(_)) => now == origin,
            AddUserView::Aborted(_) => true,
        }
    }

    /// One turn keeps the store and the state in step.
    pub proof fn lemma_step_keeps_consistent(
        self,
        new_user: InsertableUserView,
        origin: Store,
        now: Store,
        reply: ReplyView,
        after: Store,
        next: AddUserView,
    )
        requires
            self.consistent(new_user, origin, now),
            self.action() matches ActionView::Perform(effect) && now.follows(effect, reply, after),
            self.steps_to(reply, next),
        ensures
            next.consistent(new_user, origin, after),
    {
        match self {
            AddUserView::CheckingUsername { .. } => {
                assert(after == origin);
            },
            AddUserView::InsertingUser { .. } => {
                assert(next.consistent(new_user, origin, after));
            },
            AddUserView::IssuingToken { user } => {
                if let ReplyView::UserToken(Ok(row)) = reply {
                    let result = AuthentiationResultView {
                        user_info: user.info(),
                        user_token: row.token,
                    };
                    assert(now.users[user.user_id] == (InsertableUserView {
                        username: user.username,
                        password: user.password,
                    }));
                    assert(after.users == now.users);
                    assert(AddUserView::registered(origin, after, new_user, result));
                } else {
                    assert(after == now);
                    assert(next.consistent(new_user, origin, after));
                }
            },
            AddUserView::RemovingUser { user_id } => {
                assert(origin.users.insert(user_id, now.users[user_id]).remove(user_id)
                    =~= origin.users);
                assert(next.consistent(new_user, origin, after));
            },
            AddUserView::Finished(_) => {},
            AddUserView::Aborted(_) => {},
        }
    }

    /// Every run keeps the store and the state in step.
    pub proof fn lemma_run_keeps_consistent(
        self,
        new_user: InsertableUserView,
        origin: Store,
        now: Store,
        trace: Seq<Turn<AddUserView>>,
        last: AddUserView,
        end: Store,
    )
        requires
            self.consistent(new_user, origin, now),
            self.runs(now, trace, last, end),
        ensures
            last.consistent(new_user, origin, end),
        decreases trace.len(),
    {
        if trace.len() > 0 {
            self.lemma_step_keeps_consistent(
                new_user,
                origin,
                now,
                trace[0].reply,
                trace[0].store,
                trace[0].state,
            );
            trace[0].state.lemma_run_keeps_consistent(
                new_user,
                origin,
                trace[0].store,
                trace.drop_first(),
                last,
                end,
            );
        }
    }
}

/// Registration is all or nothing. A registration that ends with an error
/// has left the store exactly as it found it, whichever step failed; one
/// that ends with a result has added exactly the user, with a hash that
/// stands for the password, and the token it returns.
pub proof fn lemma_registration_is_atomic(
    new_user: InsertableUserView,
    origin: Store,
    trace: Seq<Turn<AddUserView>>,
    last: AddUserView,
    end: Store,
)
    requires
        AddUserView::start(new_user).runs(origin, trace, last, end),
    ensures
        last matches AddUserView::Finished(Err(_)) ==> end == origin,
        last matches AddUserView::Finished(Ok(result)) ==> AddUserView::registered(
            origin,
            end,
            new_user,
            result,
        ),
{
    AddUserView::start(new_user).lemma_run_keeps_consistent(
        new_user,
        origin,
        origin,
        trace,
        last,
        end,
    );
}

/// A password of fewer than eight characters is refused with the
/// password-policy error, and nothing is asked of the store: the run has
/// no exchange and the store is as it was.
pub proof fn lemma_short_password_is_refused(
    new_user: InsertableUserView,
    origin: Store,
    trace: Seq<Turn<AddUserView>>,
    last: AddUserView,
    end: Store,
)
    requires
        new_user.password.len() < MIN_PASSWORD_LENGTH,
        AddUserView::start(new_user).runs(origin, trace, last, end),
    ensures
        trace.len() == 0,
        end == origin,
        last == AddUserView::Finished(
            Err(ApiError::new(PASSWORD_TOO_SHORT, Status::UnprocessableEntity)),
        ),
{
}

/// A name that a user already has is refused with the conflict error,
/// provided the store ran the lookup, and the store is left as it was.
/// (A password under the minimum length is refused before the name is
/// looked at.)
pub proof fn lemma_taken_username_is_refused(
    new_user: InsertableUserView,
    origin: Store,
    trace: Seq<Turn<AddUserView>>,
    last: AddUserView,
    end: Store,
)
    requires
        new_user.password.len() >= MIN_PASSWORD_LENGTH,
        origin.has_username(new_user.username),
        AddUserView::start(new_user).runs(origin, trace, last, end),
        trace.len() > 0,
        answered(trace[0].reply),
    ensures
        trace.len() == 1,
        end == origin,
        last == AddUserView::Finished(Err(ApiError::new(USERNAME_EXISTS, Status::Conflict))),
{
    let rest = trace.drop_first();
    assert(trace[0].state.runs(trace[0].store, rest, last, end));
    if rest.len() > 0 {
        assert(false);
    }
}

impl LoginView {
    /// What the store holds while a login that started on `origin` stands
    /// in this state: a login writes nothing but the token it returns.
    pub open spec fn consistent(self, origin: Store, now: Store) -> bool {
        match self {
            LoginView::IssuingToken { user } => {
                &&& origin.users.contains_key(user.user_id)
                &&& now == origin
            },
            LoginView::Finished(Ok(result)) => {
                &&& origin.users.contains_key(result.user_info.user_id)
                &&& !origin.user_tokens.contains_key(result.user_token)
                &&& now == origin.with_user_token(result.user_token, result.user_info.user_id)
            },
            _ => now == origin,
        }
    }

    /// Where a login with `user_login` may stand when the store knows the
    /// credentials and has run every statement: it has not failed, and the
    /// user it carries is a user of that name.
    pub open spec fn welcome(self, user_login: InsertableUserView, origin: Store) -> bool {
        match self {
            LoginView::CheckingCredentials { user_login: pending } => pending == user_login,
            LoginView::LoadingUser { username } => username == user_login.username,
            LoginView::IssuingToken { user } => origin.has_user_row(user) && user.username
                == user_login.username,
            LoginView::Finished(Ok(result)) => {
                &&& origin.users.contains_key(result.user_info.user_id)
                &&& origin.users[result.user_info.user_id].username == user_login.username
                &&& result.user_info.username == user_login.username
            },
            LoginView::Finished(Err(_)) => false,
        }
    }

    /// Every run keeps the store and the state in step.
    pub proof fn lemma_run_keeps_consistent(
        self,
        origin: Store,
        now: Store,
        trace: Seq<Exchange>,
        last: LoginView,
        end: Store,
    )
        requires
            self.consistent(origin, now),
            self.runs(now, trace, last, end),
        ensures
            last.consistent(origin, end),
        decreases trace.len(),
    {
        if trace.len() > 0 {
            let next = self.next(trace[0].reply);
            assert(next.consistent(origin, trace[0].store));
            next.lemma_run_keeps_consistent(origin, trace[0].store, trace.drop_first(), last, end);
        }
    }

    /// On a store that knows the credentials and runs every statement, a
    /// login does not fail.
    pub proof fn lemma_run_stays_welcome(
        self,
        user_login: InsertableUserView,
        origin: Store,
        now: Store,
        trace: Seq<Exchange>,
        last: LoginView,
        end: Store,
    )
        requires
            origin.knows(user_login.username, user_login.password),
            self.welcome(user_login, origin),
            self.consistent(origin, now),
            self.runs(now, trace, last, end),
            all_answered(trace),
        ensures
            last.welcome(user_login, origin),
        decreases trace.len(),
    {
        if trace.len() > 0 {
            let reply = trace[0].reply;
            let next = self.next(reply);
            assert(answered(reply));
            assert(next.consistent(origin, trace[0].store));
            match self {
                LoginView::CheckingCredentials { .. } => {
                    assert(now == origin);
                    assert(next.welcome(user_login, origin));
                },
                LoginView::LoadingUser { .. } => {
                    assert(now == origin);
                    assert(next.welcome(user_login, origin));
                },
                LoginView::IssuingToken { .. } => {
                    assert(next.welcome(user_login, origin));
                },
                LoginView::Finished(_) => {},
            }
            let rest = trace.drop_first();
            assert(all_answered(rest)) by {
                assert forall|i: int| 0 <= i < rest.len() implies answered(
                    #[trigger] rest[i].reply,
                ) by {
                    assert(rest[i] == trace[i + 1]);
                }
            }
            next.lemma_run_stays_welcome(user_login, origin, trace[0].store, rest, last, end);
        }
    }
}

/// A login writes nothing but the token it returns: one that ends with an
/// error has left the store as it found it, and one that ends with a
/// result has added exactly that token, under a value no token had.
pub proof fn lemma_login_adds_one_token(
    user_login: InsertableUserView,
    origin: Store,
    trace: Seq<Exchange>,
    last: LoginView,
    end: Store,
)
    requires
        LoginView::start(user_login).runs(origin, trace, last, end),
    ensures
        last matches LoginView::Finished(Err(_)) ==> end == origin,
        last matches LoginView::Finished(Ok(result)) ==> {
            &&& origin.users.contains_key(result.user_info.user_id)
            &&& !origin.user_tokens.contains_key(result.user_token)
            &&& end == origin.with_user_token(result.user_token, result.user_info.user_id)
        },
{
    LoginView::start(user_login).lemma_run_keeps_consistent(origin, origin, trace, last, end);
}

/// A login keeps the store intact: the token it adds is the token of a
/// user who is there.
pub proof fn lemma_login_keeps_the_store_intact(
    user_login: InsertableUserView,
    origin: Store,
    trace: Seq<Exchange>,
    last: LoginView,
    end: Store,
)
    requires
        origin.intact(),
        LoginView::start(user_login).runs(origin, trace, last, end),
        last is Finished,
    ensures
        end.intact(),
{
    lemma_login_adds_one_token(user_login, origin, trace, last, end);
    if let LoginView::Finished(Ok(result)) = last {
        assert forall|token: u128| #[trigger]
            end.user_tokens.contains_key(token) implies end.users.contains_key(
            end.user_tokens[token],
        ) by {
            if token != result.user_token {
                assert(origin.user_tokens.contains_key(token));
            }
        }
    }
}

/// A registration keeps the store intact: the token it adds is the
/// token of the user it adds, and where it fails it adds neither.
pub proof fn lemma_registration_keeps_the_store_intact(
    new_user: InsertableUserView,
    origin: Store,
    trace: Seq<Turn<AddUserView>>,
    last: AddUserView,
    end: Store,
)
    requires
        origin.intact(),
        AddUserView::start(new_user).runs(origin, trace, last, end),
        last is Finished,
    ensures
        end.intact(),
{
    lemma_registration_is_atomic(new_user, origin, trace, last, end);
    if let AddUserView::Finished(Ok(result)) = last {
        assert forall|token: u128| #[trigger]
            end.user_tokens.contains_key(token) implies end.users.contains_key(
            end.user_tokens[token],
        ) by {
            if token != result.user_token {
                assert(origin.user_tokens.contains_key(token));
            }
        }
        assert forall|id: i32| #[trigger] end.users_cameras.contains_key(id) implies (
        end.cameras.contains_key(end.users_cameras[id].camera_id) && end.users.contains_key(
            end.users_cameras[id].user_id,
        )) by {
            assert(origin.users_cameras.contains_key(id));
        }
    }
}

/// A registration keeps names unique, provided the store ran the lookup
/// of the name: where no two users had one name before, none have after.
/// (Two registrations that overlap in time are not one after the other,
/// and nothing is promised of them.)
pub proof fn lemma_registration_keeps_names_unique(
    new_user: InsertableUserView,
    origin: Store,
    trace: Seq<Turn<AddUserView>>,
    last: AddUserView,
    end: Store,
)
    requires
        origin.names_are_unique(),
        AddUserView::start(new_user).runs(origin, trace, last, end),
        last is Finished,
        trace.len() > 0 ==> answered(trace[0].reply),
    ensures
        end.names_are_unique(),
{
    lemma_registration_is_atomic(new_user, origin, trace, last, end);
    if let AddUserView::Finished(Ok(result)) = last {
        let start = AddUserView::start(new_user);
        assert(trace.len() > 0);
        let rest = trace.drop_first();
        assert(trace[0].state.runs(trace[0].store, rest, last, end));
        if let ReplyView::User(Ok(_)) = trace[0].reply {
            if rest.len() > 0 {
                assert(false);
            }
            assert(false);
        }
        assert(!origin.has_username(new_user.username));
        let user_id = result.user_info.user_id;
        assert forall|a: u128, b: u128|
            end.users.contains_key(a) && end.users.contains_key(b) && end.users[a].username
                == end.users[b].username implies a == b by {
            if a != user_id && b != user_id {
                assert(origin.users.contains_key(a) && origin.users.contains_key(b));
            } else if a != user_id {
                assert(origin.users.contains_key(a));
            } else if b != user_id {
                assert(origin.users.contains_key(b));
            }
        }
    }
}

/// A login with a name no user has and a login with a wrong password are
/// answered alike: whatever reply fails to prove the password, the login
/// ends at once with the same unauthorized error.
pub proof fn lemma_login_failures_look_alike(user_login: InsertableUserView, reply: ReplyView)
    requires
        !login_valid(reply, user_login.password),
    ensures
        LoginView::start(user_login).next(reply) == LoginView::Finished(
            Err(ApiError::new(INVALID_CREDENTIALS, Status::Unauthorized)),
        ),
{
}

/// Register, then log in with the same credentials: if the name was free
/// and the store runs every statement of the login, the login that
/// finishes succeeds, for the user just registered and with a token
/// other than the one registration returned.
pub proof fn lemma_login_after_registration(
    new_user: InsertableUserView,
    origin: Store,
    registration: Seq<Turn<AddUserView>>,
    first: AuthentiationResultView,
    between: Store,
    trace: Seq<Exchange>,
    last: LoginView,
    end: Store,
)
    requires
        !origin.has_username(new_user.username),
        AddUserView::start(new_user).runs(
            origin,
            registration,
            AddUserView::Finished(Ok(first)),
            between,
        ),
        LoginView::start(new_user).runs(between, trace, last, end),
        all_answered(trace),
        last is Finished,
    ensures
        last matches LoginView::Finished(Ok(second)) && second.user_info == first.user_info
            && second.user_token != first.user_token,
{
    lemma_registration_is_atomic(
        new_user,
        origin,
        registration,
        AddUserView::Finished(Ok(first)),
        between,
    );
    let user_id = first.user_info.user_id;
    assert(between.users.contains_key(user_id));
    assert(between.has_username(new_user.username));
    assert forall|other: u128| #[trigger]
        between.users.contains_key(other) && between.users[other].username
            == new_user.username implies other == user_id by {
        if other != user_id {
            assert(origin.users.contains_key(other));
        }
    }
    assert(between.knows(new_user.username, new_user.password));
    let start = LoginView::start(new_user);
    start.lemma_run_stays_welcome(new_user, between, between, trace, last, end);
    start.lemma_run_keeps_consistent(between, between, trace, last, end);
    assert(between.user_tokens.contains_key(first.user_token));
}

/// Two logins, one after the other, never return the same token: the
/// first token is in the store when the second is issued.
pub proof fn lemma_successive_logins_issue_distinct_tokens(
    first_login: InsertableUserView,
    second_login: InsertableUserView,
    origin: Store,
    first_trace: Seq<Exchange>,
    first: AuthentiationResultView,
    between: Store,
    second_trace: Seq<Exchange>,
    second: AuthentiationResultView,
    end: Store,
)
    requires
        LoginView::start(first_login).runs(
            origin,
            first_trace,
            LoginView::Finished(Ok(first)),
            between,
        ),
        LoginView::start(second_login).runs(
            between,
            second_trace,
            LoginView::Finished(Ok(second)),
            end,
        ),
    ensures
        first.user_token != second.user_token,
{
    lemma_login_adds_one_token(
        first_login,
        origin,
        first_trace,
        LoginView::Finished(Ok(first)),
        between,
    );
    lemma_login_adds_one_token(
        second_login,
        between,
        second_trace,
        LoginView::Finished(Ok(second)),
        end,
    );
    assert(between.user_tokens.contains_key(first.user_token));
}

} // verus!

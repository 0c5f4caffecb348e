use crate::api_error::{ApiError, Status};
use crate::camera::{Camera, CameraView};
use crate::effect::{EffectView, Reply, ReplyView};
use crate::identifier::{parse_uuid, uuid_parse_str};
use crate::store::Store;
use crate::user_tokens::UserToken;
use vstd::prelude::*;

verus! {

/// A row of the link table: `user_id` may act on `camera_id`.
#[derive(Clone, Copy, Debug, PartialEq, Eq, Structural)]
pub struct UsersCamera {
    pub users_cameras_id: i32,
    pub camera_id: u128,
    pub user_id: u128,
}

/// A link still to be written: the store chooses the row's number.
#[derive(Clone, Copy, Debug, PartialEq, Eq, Structural)]
pub struct InsertableUsersCamera {
    pub camera_id: u128,
    pub user_id: u128,
}

pub const NO_ACCESS_TO_CAMERA: &'static str = "User does not have access to this camera";

pub const FAILED_TO_LIST_CAMERAS: &'static str = "Database failed to get list of cameras";

/// Among `links` is one that binds exactly this user to exactly this
/// camera.
pub open spec fn links_grant(links: Seq<UsersCamera>, user_id: u128, camera_id: u128) -> bool {
    exists|i: int|
        0 <= i < links.len() && (#[trigger] links[i]).user_id == user_id && links[i].camera_id
            == camera_id
}

/// Whether `user_id` may act on `camera_id`, going by the link rows
/// given: a link for that very pair must be among them.
pub fn has_access(links: &Vec<UsersCamera>, user_id: u128, camera_id: u128) -> (granted: bool)
    ensures
        granted == links_grant(links@, user_id, camera_id),
{
    let mut i: usize = 0;
    while i < links.len()
        invariant
            i <= links.len(),
            forall|j: int|
                0 <= j < i ==> !((#[trigger] links@[j]).user_id == user_id && links@[j].camera_id
                    == camera_id),
        decreases links.len() - i,
    {
        if links[i].user_id == user_id && links[i].camera_id == camera_id {
            return true;
        }
        i += 1;
    }
    false
}

/// What the access check answers for the reply to the query for a user's
/// links and the camera identifier as far as it could be read: the store
/// must have given the links, the identifier must be one, and a link
/// for the pair must be there. The answer names the camera that the user
/// may act on.
pub open spec fn access_decision(
    reply: ReplyView,
    user_id: u128,
    camera_id: Option<u128>,
) -> Result<u128, ApiError> {
    match reply {
        ReplyView::UsersCameras(Ok(links)) => if camera_id is Some && links_grant(
            links,
            user_id,
            camera_id->0,
        ) {
            Ok(camera_id->0)
        } else {
            Err(ApiError::new(NO_ACCESS_TO_CAMERA, Status::Unauthorized))
        },
        _ => Err(ApiError::internal(FAILED_TO_LIST_CAMERAS)),
    }
}

/// Decides access from the reply to the query for a user's links.
pub fn decide_access(reply: &Reply, user_id: u128, camera_id: Option<u128>) -> (decision: Result<
    u128,
    ApiError,
>)
    ensures
        decision == access_decision(reply@, user_id, camera_id),
{
    match reply {
        Reply::UsersCameras(Ok(links)) => match camera_id {
            Some(id) => {
                if has_access(links, user_id, id) {
                    Ok(id)
                } else {
                    Err(ApiError::new(NO_ACCESS_TO_CAMERA, Status::Unauthorized))
                }
            },
            None => Err(ApiError::new(NO_ACCESS_TO_CAMERA, Status::Unauthorized)),
        },
        _ => Err(ApiError::internal(FAILED_TO_LIST_CAMERAS)),
    }
}

/// The access decision without the camera it names.
pub open spec fn access_check(
    reply: ReplyView,
    user_id: u128,
    camera_id: Option<u128>,
) -> Result<(), ApiError> {
    match access_decision(reply, user_id, camera_id) {
        Ok(_) => Ok(()),
        Err(failure) => Err(failure),
    }
}

/// Decides whether the bearer of `user_token` may act on the camera
/// named in the request path. A name that is no identifier names no
/// camera the user has.
pub fn check_if_user_has_access_to_camera(
    reply: &Reply,
    user_token: &UserToken,
    camera_id_string: &str,
) -> (decision: Result<(), ApiError>)
    ensures
        decision == access_check(reply@, user_token.user_id, uuid_parse_str(camera_id_string@)),
{
    match decide_access(reply, user_token.user_id, parse_uuid(camera_id_string)) {
        Ok(_) => Ok(()),
        Err(failure) => Err(failure),
    }
}

/// Turns the reply to the query for a user's cameras into the answer of
/// the camera list.
pub fn list_cameras(reply: Reply) -> (answer: Result<Vec<Camera>, ApiError>)
    ensures
        match reply@ {
            ReplyView::Cameras(Ok(rows)) => answer matches Ok(cameras) && cameras.deep_view()
                == rows,
            _ => answer == Err::<Vec<Camera>, ApiError>(
                ApiError::internal(FAILED_TO_LIST_CAMERAS),
            ),
        },
{
    match reply {
        Reply::Cameras(Ok(cameras)) => Ok(cameras),
        _ => Err(ApiError::internal(FAILED_TO_LIST_CAMERAS)),
    }
}

/// The camera list of a user holds the cameras that the user has a link
/// to, and no others.
pub proof fn lemma_camera_list_follows_links(
    store: Store,
    user_id: u128,
    camera_id: u128,
    rows: Seq<CameraView>,
    after: Store,
)
    requires
        store.follows(
            EffectView::FindCamerasOfUser { user_id },
            ReplyView::Cameras(Ok(rows)),
            after,
        ),
    ensures
        after == store,
        Store::lists_camera(rows, camera_id) <==> store.cameras.contains_key(camera_id)
            && store.links(user_id, camera_id),
{
    if Store::lists_camera(rows, camera_id) {
        let i = choose|i: int| 0 <= i < rows.len() && (#[trigger] rows[i]).camera_id == camera_id;
        assert(store.links(user_id, rows[i].camera_id));
    }
}

/// The links that the store gives for a user grant access to a camera
/// exactly when the link table holds a row for that very pair.
pub proof fn lemma_access_follows_links(
    store: Store,
    user_id: u128,
    camera_id: u128,
    links: Seq<UsersCamera>,
    after: Store,
)
    requires
        store.follows(
            EffectView::FindUsersCameras { user_id },
            ReplyView::UsersCameras(Ok(links)),
            after,
        ),
    ensures
        links_grant(links, user_id, camera_id) <==> store.links(user_id, camera_id),
{
    if links_grant(links, user_id, camera_id) {
        let i = choose|i: int|
            0 <= i < links.len() && (#[trigger] links[i]).user_id == user_id && links[i].camera_id
                == camera_id;
        assert(store.has_link_row(links[i]));
        assert(store.users_cameras.contains_key(links[i].users_cameras_id));
    }
    if store.links(user_id, camera_id) {
        let id = choose|id: i32| #[trigger]
            store.users_cameras.contains_key(id) && store.users_cameras[id] == (
            InsertableUsersCamera { camera_id, user_id });
        let row = UsersCamera { users_cameras_id: id, camera_id, user_id };
        assert(links.contains(row));
        let i = choose|i: int| 0 <= i < links.len() && links[i] == row;
        assert(links[i].user_id == user_id && links[i].camera_id == camera_id);
    }
}

/// The access decision is right about the store: it names a camera only
/// if the path named that camera and the link table holds a row for the
/// user and the camera; and where the store ran the query, it names the
/// camera whenever there is such a row.
pub proof fn lemma_access_decision_follows_links(
    store: Store,
    user_id: u128,
    camera_id: Option<u128>,
    reply: ReplyView,
    after: Store,
)
    requires
        store.follows(EffectView::FindUsersCameras { user_id }, reply, after),
    ensures
        after == store,
        access_decision(reply, user_id, camera_id) matches Ok(id) ==> camera_id == Some(id)
            && store.links(user_id, id),
        crate::store::answered(reply) && camera_id is Some && store.links(user_id, camera_id->0)
            ==> access_decision(reply, user_id, camera_id) == Ok::<u128, ApiError>(camera_id->0),
{
    if let ReplyView::UsersCameras(Ok(links)) = reply {
        if let Some(id) = camera_id {
            lemma_access_follows_links(store, user_id, id, links, after);
        }
    }
}

/// Access is by the exact pair: a link of the same user to another
/// camera, or of another user to the same camera, grants nothing.
pub proof fn lemma_access_needs_the_very_pair(
    links: Seq<UsersCamera>,
    user_id: u128,
    camera_id: u128,
)
    requires
        forall|i: int|
            0 <= i < links.len() ==> (#[trigger] links[i]).user_id != user_id || links[i].camera_id
                != camera_id,
    ensures
        !links_grant(links, user_id, camera_id),
{
}

/// Access ends with the link: once the only link of a user to a camera
/// is deleted, the links that the store gives for the user no longer
/// grant access to that camera.
pub proof fn lemma_access_ends_with_link(
    store: Store,
    link: UsersCamera,
    count: usize,
    without: Store,
    links: Seq<UsersCamera>,
    after: Store,
)
    requires
        store.has_link_row(link),
        forall|id: i32| #[trigger]
            store.users_cameras.contains_key(id) && store.users_cameras[id] == (
            InsertableUsersCamera { camera_id: link.camera_id, user_id: link.user_id }) ==> id
                == link.users_cameras_id,
        store.follows(
            EffectView::DeleteUsersCamera { users_cameras_id: link.users_cameras_id },
            ReplyView::Deleted(Ok(count)),
            without,
        ),
        without.follows(
            EffectView::FindUsersCameras { user_id: link.user_id },
            ReplyView::UsersCameras(Ok(links)),
            after,
        ),
    ensures
        !without.links(link.user_id, link.camera_id),
        !links_grant(links, link.user_id, link.camera_id),
{
    assert(!without.links(link.user_id, link.camera_id)) by {
        if without.links(link.user_id, link.camera_id) {
            let id = choose|id: i32| #[trigger]
                without.users_cameras.contains_key(id) && without.users_cameras[id] == (
                InsertableUsersCamera { camera_id: link.camera_id, user_id: link.user_id });
            assert(store.users_cameras.contains_key(id));
        }
    }
    lemma_access_follows_links(without, link.user_id, link.camera_id, links, after);
}

} // verus!

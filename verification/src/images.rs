//! The image endpoints: upload by a device, and the latest image, the
//! list of images and a single image for a user who has the camera.

use crate::api_error::{ApiError, Status};
use crate::camera_tokens::CameraToken;
use crate::directory::{
    camera_path, copy_names, decimal, directory_listing, directory_of_camera, find_image,
    image_file, image_file_name, image_ids, list_camera_directory, names_view, seconds_text, stems,
    FAILED_TO_LIST_IMAGES,
};
use crate::effect::{Action, ActionView, Effect, EffectView, Reply, ReplyView};
use crate::identifier::{parse_uuid, uuid_parse_str};
use crate::store::{Exchange, Store};
use crate::user_tokens::UserToken;
use crate::users_cameras::{access_decision, decide_access, lemma_access_decision_follows_links};
use vstd::prelude::*;

verus! {

pub const FAILED_TO_LOAD_IMAGE: &'static str = "Failed to load image";

pub const IMAGE_NOT_FOUND: &'static str = "Image not found";

pub const FAILED_TO_SAVE_IMAGE: &'static str = "Failed to save image to server";

pub const NO_IMAGES_DIRECTORY: &'static str = "Failed to create images directory";

pub const NO_CURRENT_TIME: &'static str = "Failed to get current time somehow?";

/// The view of a text or a failure.
pub open spec fn text_view(answer: Result<String, ApiError>) -> Result<Seq<char>, ApiError> {
    match answer {
        Ok(text) => Ok(text@),
        Err(failure) => Err(failure),
    }
}

fn copy_text_answer(answer: &Result<String, ApiError>) -> (copy: Result<String, ApiError>)
    ensures
        text_view(copy) == text_view(*answer),
{
    match answer {
        Ok(text) => Ok(text.clone()),
        Err(failure) => Err(*failure),
    }
}

/// The request for a camera's latest image in progress: the user's
/// access is checked, the camera's directory is listed in order, and the
/// file with the last name is opened.
#[derive(Debug, PartialEq, Eq)]
pub enum GetLatest {
    CheckingAccess {
        user_id: u128,
        camera_id: Option<u128>,
        images_directory: String,
    },
    ReadingDirectory { directory: String },
    OpeningImage { directory: String, file_name: String },
    Finished(Result<String, ApiError>),
}

pub enum GetLatestView {
    CheckingAccess {
        user_id: u128,
        camera_id: Option<u128>,
        images_directory: Seq<char>,
    },
    ReadingDirectory { directory: Seq<char> },
    OpeningImage { directory: Seq<char>, file_name: Seq<char> },
    Finished(Result<Seq<char>, ApiError>),
}

impl View for GetLatest {
    type V = GetLatestView;

    open spec fn view(&self) -> GetLatestView {
        match *self {
            GetLatest::CheckingAccess {
                user_id,
                camera_id,
                images_directory,
            } => GetLatestView::CheckingAccess {
                user_id,
                camera_id,
                images_directory: images_directory@,
            },
            GetLatest::ReadingDirectory { directory } => GetLatestView::ReadingDirectory {
                directory: directory@,
            },
            GetLatest::OpeningImage { directory, file_name } => GetLatestView::OpeningImage {
                directory: directory@,
                file_name: file_name@,
            },
            GetLatest::Finished(answer) => GetLatestView::Finished(text_view(answer)),
        }
    }
}

impl GetLatestView {
    /// The request as it starts, for the camera that the path names if
    /// it names one.
    pub open spec fn start(
        user_id: u128,
        camera_id: Option<u128>,
        images_directory: Seq<char>,
    ) -> GetLatestView {
        GetLatestView::CheckingAccess { user_id, camera_id, images_directory }
    }

    /// What the request wants next in this state.
    pub open spec fn action(self) -> ActionView<Seq<char>, ApiError> {
        match self {
            GetLatestView::CheckingAccess {
                user_id,
                camera_id,
                images_directory,
            } => ActionView::Perform(EffectView::FindUsersCameras { user_id }),
            GetLatestView::ReadingDirectory { directory } => ActionView::Perform(
                EffectView::ListDirectory { directory },
            ),
            GetLatestView::OpeningImage { directory, file_name } => ActionView::Perform(
                EffectView::OpenImage { directory, file_name },
            ),
            GetLatestView::Finished(answer) => ActionView::Respond(answer),
        }
    }

    /// The state after `reply` has answered the pending effect. The
    /// directory that is read is the directory of the camera that access
    /// was granted for, and the answer, in the end, is the name of the
    /// file that was opened: the last in the order of names.
    pub open spec fn next(self, reply: ReplyView) -> GetLatestView {
        match self {
            GetLatestView::CheckingAccess {
                user_id,
                camera_id,
                images_directory,
            } => match access_decision(reply, user_id, camera_id) {
                Ok(granted) => GetLatestView::ReadingDirectory {
                    directory: camera_path(images_directory, granted),
                },
                Err(failure) => GetLatestView::Finished(Err(failure)),
            },
            GetLatestView::ReadingDirectory { directory } => match reply {
                ReplyView::Directory(listing) => match directory_listing(listing, true) {
                    Ok(names) => GetLatestView::OpeningImage { directory, file_name: names.last() },
                    Err(failure) => GetLatestView::Finished(Err(failure)),
                },
                _ => GetLatestView::Finished(Err(ApiError::internal(FAILED_TO_LIST_IMAGES))),
            },
            GetLatestView::OpeningImage { directory, file_name } => match reply {
                ReplyView::File(true) => GetLatestView::Finished(Ok(file_name)),
                _ => GetLatestView::Finished(Err(ApiError::internal(FAILED_TO_LOAD_IMAGE))),
            },
            GetLatestView::Finished(answer) => self,
        }
    }

    /// The request, started in this state on `store`, can go through the
    /// exchanges of `trace` and then stand in state `last` on store `end`.
    pub open spec fn runs(
        self,
        store: Store,
        trace: Seq<Exchange>,
        last: GetLatestView,
        end: Store,
    ) -> bool
        decreases trace.len(),
    {
        if trace.len() == 0 {
            last == self && end == store
        } else {
            &&& self.action() matches ActionView::Perform(effect)
            &&& store.follows(effect, trace[0].reply, trace[0].store)
            &&& self.next(trace[0].reply).runs(trace[0].store, trace.drop_first(), last, end)
        }
    }

    /// The request has got past the access check only for a camera that
    /// the user has a link to, and reads no directory but that camera's.
    pub open spec fn cleared(
        self,
        user_id: u128,
        camera_id: Option<u128>,
        images_directory: Seq<char>,
        store: Store,
    ) -> bool {
        match self {
            GetLatestView::CheckingAccess {
                user_id: user,
                camera_id: camera,
                images_directory: root,
            } => user == user_id && camera == camera_id && root == images_directory,
            GetLatestView::ReadingDirectory { directory } => {
                &&& camera_id is Some
                &&& store.links(user_id, camera_id->0)
                &&& directory == camera_path(images_directory, camera_id->0)
            },
            GetLatestView::OpeningImage { directory, file_name } => {
                &&& camera_id is Some
                &&& store.links(user_id, camera_id->0)
                &&& directory == camera_path(images_directory, camera_id->0)
            },
            GetLatestView::Finished(Ok(_)) => {
                &&& camera_id is Some
                &&& store.links(user_id, camera_id->0)
            },
            GetLatestView::Finished(Err(_)) => true,
        }
    }

    /// Every run keeps the request behind the access check and the store
    /// as it was.
    pub proof fn lemma_run_stays_cleared(
        self,
        user_id: u128,
        camera_id: Option<u128>,
        images_directory: Seq<char>,
        store: Store,
        trace: Seq<Exchange>,
        last: GetLatestView,
        end: Store,
    )
        requires
            self.cleared(user_id, camera_id, images_directory, store),
            self.runs(store, trace, last, end),
        ensures
            last.cleared(user_id, camera_id, images_directory, store),
            end == store,
        decreases trace.len(),
    {
        if trace.len() > 0 {
            let reply = trace[0].reply;
            let next = self.next(reply);
            if self is CheckingAccess {
                lemma_access_decision_follows_links(
                    store,
                    user_id,
                    camera_id,
                    reply,
                    trace[0].store,
                );
            }
            assert(trace[0].store == store);
            assert(next.cleared(user_id, camera_id, images_directory, store));
            next.lemma_run_stays_cleared(
                user_id,
                camera_id,
                images_directory,
                store,
                trace.drop_first(),
                last,
                end,
            );
        }
    }
}

impl GetLatest {
    /// Starts the request for the camera with this identifier, if it is
    /// one.
    pub fn for_camera(
        user_id: u128,
        camera_id: Option<u128>,
        images_directory: String,
    ) -> (process: GetLatest)
        ensures
            process@ == GetLatestView::start(user_id, camera_id, images_directory@),
    {
        GetLatest::CheckingAccess { user_id, camera_id, images_directory }
    }

    /// Starts the request of the bearer of `user_token` for the camera
    /// that the path names.
    pub fn new(
        user_token: &UserToken,
        images_directory_path: &String,
        camera_id_string: &String,
    ) -> (process: GetLatest)
        ensures
            process@ == GetLatestView::start(
                user_token.user_id,
                uuid_parse_str(camera_id_string@),
                images_directory_path@,
            ),
    {
        GetLatest::for_camera(
            user_token.user_id,
            parse_uuid(camera_id_string.as_str()),
            images_directory_path.clone(),
        )
    }

    /// What the request wants next.
    pub fn action(&self) -> (action: Action<String, ApiError>)
        ensures
            action@ == self@.action(),
    {
        match self {
            GetLatest::CheckingAccess {
                user_id,
                camera_id,
                images_directory,
            } => Action::Perform(Effect::FindUsersCameras { user_id: *user_id }),
            GetLatest::ReadingDirectory { directory } => Action::Perform(
                Effect::ListDirectory { directory: directory.clone() },
            ),
            GetLatest::OpeningImage { directory, file_name } => Action::Perform(
                Effect::OpenImage { directory: directory.clone(), file_name: file_name.clone() },
            ),
            GetLatest::Finished(answer) => Action::Respond(copy_text_answer(answer)),
        }
    }
}

/// Advances the request for the latest image with the reply to its
/// pending effect.
pub fn get_latest(process: GetLatest, reply: Reply) -> (next: GetLatest)
    ensures
        next@ == process@.next(reply@),
{
    match process {
        GetLatest::CheckingAccess {
            user_id,
            camera_id,
            images_directory,
        } => match decide_access(&reply, user_id, camera_id) {
            Ok(granted) => GetLatest::ReadingDirectory {
                directory: directory_of_camera(&images_directory, granted),
            },
            Err(failure) => GetLatest::Finished(Err(failure)),
        },
        GetLatest::ReadingDirectory { directory } => match reply {
            Reply::Directory(listing) => match list_camera_directory(listing, true) {
                Ok(mut names) => {
                    let ghost sorted = names.deep_view();
                    match names.pop() {
                        Some(file_name) => {
                            assert(file_name@ == sorted.last());
                            GetLatest::OpeningImage { directory, file_name }
                        },
                        None => GetLatest::Finished(
                            Err(ApiError::internal(FAILED_TO_LIST_IMAGES)),
                        ),
                    }
                },
                Err(failure) => GetLatest::Finished(Err(failure)),
            },
            _ => GetLatest::Finished(Err(ApiError::internal(FAILED_TO_LIST_IMAGES))),
        },
        GetLatest::OpeningImage { directory, file_name } => match reply {
            Reply::File(true) => GetLatest::Finished(Ok(file_name)),
            _ => GetLatest::Finished(Err(ApiError::internal(FAILED_TO_LOAD_IMAGE))),
        },
        GetLatest::Finished(answer) => GetLatest::Finished(answer),
    }
}

/// The latest image is behind the access check. A request that has got
/// as far as listing a directory, opening a file or answering with an
/// image was made for a camera that the user has a link to, the
/// directory is that camera's, and the store is left as it was.
pub proof fn lemma_latest_image_needs_a_link(
    user_id: u128,
    camera_id: Option<u128>,
    images_directory: Seq<char>,
    store: Store,
    trace: Seq<Exchange>,
    last: GetLatestView,
    end: Store,
)
    requires
        GetLatestView::start(user_id, camera_id, images_directory).runs(
            store,
            trace,
            last,
            end,
        ),
    ensures
        end == store,
        !(last is CheckingAccess) && !(last matches GetLatestView::Finished(Err(_)))
            ==> camera_id is Some && store.links(user_id, camera_id->0),
        last matches GetLatestView::ReadingDirectory { directory, .. } ==> directory == camera_path(
            images_directory,
            camera_id->0,
        ),
        last matches GetLatestView::OpeningImage { directory, .. } ==> directory == camera_path(
            images_directory,
            camera_id->0,
        ),
{
    GetLatestView::start(user_id, camera_id, images_directory).lemma_run_stays_cleared(
        user_id,
        camera_id,
        images_directory,
        store,
        trace,
        last,
        end,
    );
}

/// The request for the list of a camera's images in progress: the user's
/// access is checked and the camera's directory is listed in order. The
/// answer is the ids of the images, in the order of the file names.
#[derive(Debug, PartialEq, Eq)]
pub enum GetImageList {
    CheckingAccess {
        user_id: u128,
        camera_id: Option<u128>,
        images_directory: String,
    },
    ReadingDirectory { directory: String },
    Finished(Result<Vec<String>, ApiError>),
}

pub enum GetImageListView {
    CheckingAccess {
        user_id: u128,
        camera_id: Option<u128>,
        images_directory: Seq<char>,
    },
    ReadingDirectory { directory: Seq<char> },
    Finished(Result<Seq<Seq<char>>, ApiError>),
}

impl View for GetImageList {
    type V = GetImageListView;

    open spec fn view(&self) -> GetImageListView {
        match *self {
            GetImageList::CheckingAccess {
                user_id,
                camera_id,
                images_directory,
            } => GetImageListView::CheckingAccess {
                user_id,
                camera_id,
                images_directory: images_directory@,
            },
            GetImageList::ReadingDirectory { directory } => GetImageListView::ReadingDirectory {
                directory: directory@,
            },
            GetImageList::Finished(answer) => GetImageListView::Finished(names_view(answer)),
        }
    }
}

impl GetImageListView {
    /// The request as it starts, for the camera that the path names if
    /// it names one.
    pub open spec fn start(
        user_id: u128,
        camera_id: Option<u128>,
        images_directory: Seq<char>,
    ) -> GetImageListView {
        GetImageListView::CheckingAccess { user_id, camera_id, images_directory }
    }

    /// What the request wants next in this state.
    pub open spec fn action(self) -> ActionView<Seq<Seq<char>>, ApiError> {
        match self {
            GetImageListView::CheckingAccess {
                user_id,
                camera_id,
                images_directory,
            } => ActionView::Perform(EffectView::FindUsersCameras { user_id }),
            GetImageListView::ReadingDirectory { directory } => ActionView::Perform(
                EffectView::ListDirectory { directory },
            ),
            GetImageListView::Finished(answer) => ActionView::Respond(answer),
        }
    }

    /// The state after `reply` has answered the pending effect. The
    /// directory that is read is the directory of the camera that access
    /// was granted for.
    pub open spec fn next(self, reply: ReplyView) -> GetImageListView {
        match self {
            GetImageListView::CheckingAccess {
                user_id,
                camera_id,
                images_directory,
            } => match access_decision(reply, user_id, camera_id) {
                Ok(granted) => GetImageListView::ReadingDirectory {
                    directory: camera_path(images_directory, granted),
                },
                Err(failure) => GetImageListView::Finished(Err(failure)),
            },
            GetImageListView::ReadingDirectory { directory } => match reply {
                ReplyView::Directory(listing) => match directory_listing(listing, true) {
                    Ok(names) => GetImageListView::Finished(Ok(stems(names))),
                    Err(failure) => GetImageListView::Finished(Err(failure)),
                },
                _ => GetImageListView::Finished(Err(ApiError::internal(FAILED_TO_LIST_IMAGES))),
            },
            GetImageListView::Finished(answer) => self,
        }
    }

    /// The request, started in this state on `store`, can go through the
    /// exchanges of `trace` and then stand in state `last` on store `end`.
    pub open spec fn runs(
        self,
        store: Store,
        trace: Seq<Exchange>,
        last: GetImageListView,
        end: Store,
    ) -> bool
        decreases trace.len(),
    {
        if trace.len() == 0 {
            last == self && end == store
        } else {
            &&& self.action() matches ActionView::Perform(effect)
            &&& store.follows(effect, trace[0].reply, trace[0].store)
            &&& self.next(trace[0].reply).runs(trace[0].store, trace.drop_first(), last, end)
        }
    }

    /// The request has got past the access check only for a camera that
    /// the user has a link to, and reads no directory but that camera's.
    pub open spec fn cleared(
        self,
        user_id: u128,
        camera_id: Option<u128>,
        images_directory: Seq<char>,
        store: Store,
    ) -> bool {
        match self {
            GetImageListView::CheckingAccess {
                user_id: user,
                camera_id: camera,
                images_directory: root,
            } => user == user_id && camera == camera_id && root == images_directory,
            GetImageListView::ReadingDirectory { directory } => {
                &&& camera_id is Some
                &&& store.links(user_id, camera_id->0)
                &&& directory == camera_path(images_directory, camera_id->0)
            },
            GetImageListView::Finished(Ok(_)) => {
                &&& camera_id is Some
                &&& store.links(user_id, camera_id->0)
            },
            GetImageListView::Finished(Err(_)) => true,
        }
    }

    /// Every run keeps the request behind the access check and the store
    /// as it was.
    pub proof fn lemma_run_stays_cleared(
        self,
        user_id: u128,
        camera_id: Option<u128>,
        images_directory: Seq<char>,
        store: Store,
        trace: Seq<Exchange>,
        last: GetImageListView,
        end: Store,
    )
        requires
            self.cleared(user_id, camera_id, images_directory, store),
            self.runs(store, trace, last, end),
        ensures
            last.cleared(user_id, camera_id, images_directory, store),
            end == store,
        decreases trace.len(),
    {
        if trace.len() > 0 {
            let reply = trace[0].reply;
            let next = self.next(reply);
            if self is CheckingAccess {
                lemma_access_decision_follows_links(
                    store,
                    user_id,
                    camera_id,
                    reply,
                    trace[0].store,
                );
            }
            assert(trace[0].store == store);
            assert(next.cleared(user_id, camera_id, images_directory, store));
            next.lemma_run_stays_cleared(
                user_id,
                camera_id,
                images_directory,
                store,
                trace.drop_first(),
                last,
                end,
            );
        }
    }
}

impl GetImageList {
    /// Starts the request for the camera with this identifier, if it is
    /// one.
    pub fn for_camera(
        user_id: u128,
        camera_id: Option<u128>,
        images_directory: String,
    ) -> (process: GetImageList)
        ensures
            process@ == GetImageListView::start(user_id, camera_id, images_directory@),
    {
        GetImageList::CheckingAccess { user_id, camera_id, images_directory }
    }

    /// Starts the request of the bearer of `user_token` for the camera
    /// that the path names.
    pub fn new(
        user_token: &UserToken,
        images_directory_path: &String,
        camera_id_string: &String,
    ) -> (process: GetImageList)
        ensures
            process@ == GetImageListView::start(
                user_token.user_id,
                uuid_parse_str(camera_id_string@),
                images_directory_path@,
            ),
    {
        GetImageList::for_camera(
            user_token.user_id,
            parse_uuid(camera_id_string.as_str()),
            images_directory_path.clone(),
        )
    }

    /// What the request wants next.
    pub fn action(&self) -> (action: Action<Vec<String>, ApiError>)
        ensures
            action@ == self@.action(),
    {
        match self {
            GetImageList::CheckingAccess {
                user_id,
                camera_id,
                images_directory,
            } => Action::Perform(Effect::FindUsersCameras { user_id: *user_id }),
            GetImageList::ReadingDirectory { directory } => Action::Perform(
                Effect::ListDirectory { directory: directory.clone() },
            ),
            GetImageList::Finished(Ok(ids)) => Action::Respond(Ok(copy_names(ids))),
            GetImageList::Finished(Err(failure)) => Action::Respond(Err(*failure)),
        }
    }
}

/// Advances the request for the image list with the reply to its
/// pending effect.
pub fn get_image_list(process: GetImageList, reply: Reply) -> (next: GetImageList)
    ensures
        next@ == process@.next(reply@),
{
    match process {
        GetImageList::CheckingAccess {
            user_id,
            camera_id,
            images_directory,
        } => match decide_access(&reply, user_id, camera_id) {
            Ok(granted) => GetImageList::ReadingDirectory {
                directory: directory_of_camera(&images_directory, granted),
            },
            Err(failure) => GetImageList::Finished(Err(failure)),
        },
        GetImageList::ReadingDirectory { directory } => match reply {
            Reply::Directory(listing) => match list_camera_directory(listing, true) {
                Ok(names) => GetImageList::Finished(Ok(image_ids(&names))),
                Err(failure) => GetImageList::Finished(Err(failure)),
            },
            _ => GetImageList::Finished(Err(ApiError::internal(FAILED_TO_LIST_IMAGES))),
        },
        GetImageList::Finished(answer) => GetImageList::Finished(answer),
    }
}

/// The image list is behind the access check: a request that has got as
/// far as listing a directory or answering with a list was made for a
/// camera that the user has a link to, the directory is that camera's,
/// and the store is left as it was.
pub proof fn lemma_image_list_needs_a_link(
    user_id: u128,
    camera_id: Option<u128>,
    images_directory: Seq<char>,
    store: Store,
    trace: Seq<Exchange>,
    last: GetImageListView,
    end: Store,
)
    requires
        GetImageListView::start(user_id, camera_id, images_directory).runs(
            store,
            trace,
            last,
            end,
        ),
    ensures
        end == store,
        !(last is CheckingAccess) && !(last matches GetImageListView::Finished(Err(_)))
            ==> camera_id is Some && store.links(user_id, camera_id->0),
        last matches GetImageListView::ReadingDirectory { directory, .. } ==> directory
            == camera_path(images_directory, camera_id->0),
{
    GetImageListView::start(user_id, camera_id, images_directory).lemma_run_stays_cleared(
        user_id,
        camera_id,
        images_directory,
        store,
        trace,
        last,
        end,
    );
}

/// The request for one image of a camera in progress: the user's access
/// is checked, the camera's directory is listed, and the first file
/// whose name without extension is the image id is opened.
#[derive(Debug, PartialEq, Eq)]
pub enum GetImage {
    CheckingAccess {
        user_id: u128,
        camera_id: Option<u128>,
        images_directory: String, image_id: String,
    },
    ReadingDirectory { directory: String, image_id: String },
    OpeningImage { directory: String, file_name: String },
    Finished(Result<String, ApiError>),
}

pub enum GetImageView {
    CheckingAccess {
        user_id: u128,
        camera_id: Option<u128>,
        images_directory: Seq<char>, image_id: Seq<char>,
    },
    ReadingDirectory { directory: Seq<char>, image_id: Seq<char> },
    OpeningImage { directory: Seq<char>, file_name: Seq<char> },
    Finished(Result<Seq<char>, ApiError>),
}

impl View for GetImage {
    type V = GetImageView;

    open spec fn view(&self) -> GetImageView {
        match *self {
            GetImage::CheckingAccess {
                user_id,
                camera_id,
                images_directory, image_id,
            } => GetImageView::CheckingAccess {
                user_id,
                camera_id,
                images_directory: images_directory@, image_id: image_id@,
            },
            GetImage::ReadingDirectory { directory, image_id } => GetImageView::ReadingDirectory {
                directory: directory@, image_id: image_id@,
            },
            GetImage::OpeningImage { directory, file_name } => GetImageView::OpeningImage {
                directory: directory@,
                file_name: file_name@,
            },
            GetImage::Finished(answer) => GetImageView::Finished(text_view(answer)),
        }
    }
}

impl GetImageView {
    /// The request as it starts, for the camera that the path names if
    /// it names one.
    pub open spec fn start(
        user_id: u128,
        camera_id: Option<u128>,
        images_directory: Seq<char>,
        image_id: Seq<char>,
    ) -> GetImageView {
        GetImageView::CheckingAccess { user_id, camera_id, images_directory, image_id }
    }

    /// What the request wants next in this state.
    pub open spec fn action(self) -> ActionView<Seq<char>, ApiError> {
        match self {
            GetImageView::CheckingAccess {
                user_id,
                camera_id,
                images_directory, image_id,
            } => ActionView::Perform(EffectView::FindUsersCameras { user_id }),
            GetImageView::ReadingDirectory { directory, image_id } => ActionView::Perform(
                EffectView::ListDirectory { directory },
            ),
            GetImageView::OpeningImage { directory, file_name } => ActionView::Perform(
                EffectView::OpenImage { directory, file_name },
            ),
            GetImageView::Finished(answer) => ActionView::Respond(answer),
        }
    }

    /// The state after `reply` has answered the pending effect. The
    /// directory that is read is the directory of the camera that access
    /// was granted for, and the answer, in the end, is the name of the
    /// file that was opened.
    pub open spec fn next(self, reply: ReplyView) -> GetImageView {
        match self {
            GetImageView::CheckingAccess {
                user_id,
                camera_id,
                images_directory, image_id,
            } => match access_decision(reply, user_id, camera_id) {
                Ok(granted) => GetImageView::ReadingDirectory {
                    directory: camera_path(images_directory, granted), image_id,
                },
                Err(failure) => GetImageView::Finished(Err(failure)),
            },
            GetImageView::ReadingDirectory { directory, image_id } => match reply {
                ReplyView::Directory(listing) => match directory_listing(listing, false) {
                    Ok(names) => match image_file(names, image_id) {
                        Some(file_name) => GetImageView::OpeningImage { directory, file_name },
                        None => GetImageView::Finished(
                            Err(ApiError::new(IMAGE_NOT_FOUND, Status::NotFound)),
                        ),
                    },
                    Err(failure) => GetImageView::Finished(Err(failure)),
                },
                _ => GetImageView::Finished(Err(ApiError::internal(FAILED_TO_LIST_IMAGES))),
            },
            GetImageView::OpeningImage { directory, file_name } => match reply {
                ReplyView::File(true) => GetImageView::Finished(Ok(file_name)),
                _ => GetImageView::Finished(Err(ApiError::internal(FAILED_TO_LOAD_IMAGE))),
            },
            GetImageView::Finished(answer) => self,
        }
    }

    /// The request, started in this state on `store`, can go through the
    /// exchanges of `trace` and then stand in state `last` on store `end`.
    pub open spec fn runs(
        self,
        store: Store,
        trace: Seq<Exchange>,
        last: GetImageView,
        end: Store,
    ) -> bool
        decreases trace.len(),
    {
        if trace.len() == 0 {
            last == self && end == store
        } else {
            &&& self.action() matches ActionView::Perform(effect)
            &&& store.follows(effect, trace[0].reply, trace[0].store)
            &&& self.next(trace[0].reply).runs(trace[0].store, trace.drop_first(), last, end)
        }
    }

    /// The request has got past the access check only for a camera that
    /// the user has a link to, and reads no directory but that camera's.
    pub open spec fn cleared(
        self,
        user_id: u128,
        camera_id: Option<u128>,
        images_directory: Seq<char>,
        store: Store,
    ) -> bool {
        match self {
            GetImageView::CheckingAccess {
                user_id: user,
                camera_id: camera,
                images_directory: root, image_id,
            } => user == user_id && camera == camera_id && root == images_directory,
            GetImageView::ReadingDirectory { directory, image_id } => {
                &&& camera_id is Some
                &&& store.links(user_id, camera_id->0)
                &&& directory == camera_path(images_directory, camera_id->0)
            },
            GetImageView::OpeningImage { directory, file_name } => {
                &&& camera_id is Some
                &&& store.links(user_id, camera_id->0)
                &&& directory == camera_path(images_directory, camera_id->0)
            },
            GetImageView::Finished(Ok(_)) => {
                &&& camera_id is Some
                &&& store.links(user_id, camera_id->0)
            },
            GetImageView::Finished(Err(_)) => true,
        }
    }

    /// Every run keeps the request behind the access check and the store
    /// as it was.
    pub proof fn lemma_run_stays_cleared(
        self,
        user_id: u128,
        camera_id: Option<u128>,
        images_directory: Seq<char>,
        store: Store,
        trace: Seq<Exchange>,
        last: GetImageView,
        end: Store,
    )
        requires
            self.cleared(user_id, camera_id, images_directory, store),
            self.runs(store, trace, last, end),
        ensures
            last.cleared(user_id, camera_id, images_directory, store),
            end == store,
        decreases trace.len(),
    {
        if trace.len() > 0 {
            let reply = trace[0].reply;
            let next = self.next(reply);
            if self is CheckingAccess {
                lemma_access_decision_follows_links(
                    store,
                    user_id,
                    camera_id,
                    reply,
                    trace[0].store,
                );
            }
            assert(trace[0].store == store);
            assert(next.cleared(user_id, camera_id, images_directory, store));
            next.lemma_run_stays_cleared(
                user_id,
                camera_id,
                images_directory,
                store,
                trace.drop_first(),
                last,
                end,
            );
        }
    }
}

impl GetImage {
    /// Starts the request for the camera with this identifier, if it is
    /// one.
    pub fn for_camera(
        user_id: u128,
        camera_id: Option<u128>,
        images_directory: String, image_id: String,
    ) -> (process: GetImage)
        ensures
            process@ == GetImageView::start(user_id, camera_id, images_directory@, image_id@),
    {
        GetImage::CheckingAccess { user_id, camera_id, images_directory, image_id }
    }

    /// Starts the request of the bearer of `user_token` for the camera
    /// that the path names.
    pub fn new(
        user_token: &UserToken,
        images_directory_path: &String,
        camera_id_string: &String,
        image_id_string: String,
    ) -> (process: GetImage)
        ensures
            process@ == GetImageView::start(
                user_token.user_id,
                uuid_parse_str(camera_id_string@),
                images_directory_path@,
                image_id_string@,
            ),
    {
        GetImage::for_camera(
            user_token.user_id,
            parse_uuid(camera_id_string.as_str()),
            images_directory_path.clone(),
            image_id_string,
        )
    }

    /// What the request wants next.
    pub fn action(&self) -> (action: Action<String, ApiError>)
        ensures
            action@ == self@.action(),
    {
        match self {
            GetImage::CheckingAccess {
                user_id,
                camera_id,
                images_directory, image_id,
            } => Action::Perform(Effect::FindUsersCameras { user_id: *user_id }),
            GetImage::ReadingDirectory { directory, image_id } => Action::Perform(
                Effect::ListDirectory { directory: directory.clone() },
            ),
            GetImage::OpeningImage { directory, file_name } => Action::Perform(
                Effect::OpenImage { directory: directory.clone(), file_name: file_name.clone() },
            ),
            GetImage::Finished(answer) => Action::Respond(copy_text_answer(answer)),
        }
    }
}

/// Advances the request for one image with the reply to its pending
/// effect.
pub fn get_image(process: GetImage, reply: Reply) -> (next: GetImage)
    ensures
        next@ == process@.next(reply@),
{
    match process {
        GetImage::CheckingAccess {
            user_id,
            camera_id,
            images_directory, image_id,
        } => match decide_access(&reply, user_id, camera_id) {
            Ok(granted) => GetImage::ReadingDirectory {
                directory: directory_of_camera(&images_directory, granted), image_id,
            },
            Err(failure) => GetImage::Finished(Err(failure)),
        },
        GetImage::ReadingDirectory { directory, image_id } => match reply {
            Reply::Directory(listing) => match list_camera_directory(listing, false) {
                Ok(names) => match find_image(&names, &image_id) {
                    Some(file_name) => GetImage::OpeningImage { directory, file_name },
                    None => GetImage::Finished(
                        Err(ApiError::new(IMAGE_NOT_FOUND, Status::NotFound)),
                    ),
                },
                Err(failure) => GetImage::Finished(Err(failure)),
            },
            _ => GetImage::Finished(Err(ApiError::internal(FAILED_TO_LIST_IMAGES))),
        },
        GetImage::OpeningImage { directory, file_name } => match reply {
            Reply::File(true) => GetImage::Finished(Ok(file_name)),
            _ => GetImage::Finished(Err(ApiError::internal(FAILED_TO_LOAD_IMAGE))),
        },
        GetImage::Finished(answer) => GetImage::Finished(answer),
    }
}

/// A single image is behind the access check: a request that has got as
/// far as listing a directory, opening a file or answering with an image
/// was made for a camera that the user has a link to, the directory is
/// that camera's, and the store is left as it was.
pub proof fn lemma_image_needs_a_link(
    user_id: u128,
    camera_id: Option<u128>,
    images_directory: Seq<char>,
    image_id: Seq<char>,
    store: Store,
    trace: Seq<Exchange>,
    last: GetImageView,
    end: Store,
)
    requires
        GetImageView::start(user_id, camera_id, images_directory, image_id).runs(
            store,
            trace,
            last,
            end,
        ),
    ensures
        end == store,
        !(last is CheckingAccess) && !(last matches GetImageView::Finished(Err(_)))
            ==> camera_id is Some && store.links(user_id, camera_id->0),
        last matches GetImageView::ReadingDirectory { directory, .. } ==> directory == camera_path(
            images_directory,
            camera_id->0,
        ),
        last matches GetImageView::OpeningImage { directory, .. } ==> directory == camera_path(
            images_directory,
            camera_id->0,
        ),
{
    GetImageView::start(user_id, camera_id, images_directory, image_id).lemma_run_stays_cleared(
        user_id,
        camera_id,
        images_directory,
        store,
        trace,
        last,
        end,
    );
}

/// An upload in progress: the camera's directory is made if it is not
/// there, the clock is read, and the image is written to a file named by
/// the second. The answer is that second, the image's id. The camera's
/// token is the whole authorization: no link is consulted.
#[derive(Debug, PartialEq, Eq)]
pub enum UploadImage {
    CreatingDirectory { directory: String },
    ReadingClock { directory: String },
    StoringImage { directory: String, seconds: u64 },
    Finished(Result<String, ApiError>),
    Aborted(&'static str),
}

pub enum UploadImageView {
    CreatingDirectory { directory: Seq<char> },
    ReadingClock { directory: Seq<char> },
    StoringImage { directory: Seq<char>, seconds: u64 },
    Finished(Result<Seq<char>, ApiError>),
    Aborted(&'static str),
}

impl View for UploadImage {
    type V = UploadImageView;

    open spec fn view(&self) -> UploadImageView {
        match *self {
            UploadImage::CreatingDirectory { directory } => UploadImageView::CreatingDirectory {
                directory: directory@,
            },
            UploadImage::ReadingClock { directory } => UploadImageView::ReadingClock {
                directory: directory@,
            },
            UploadImage::StoringImage { directory, seconds } => UploadImageView::StoringImage {
                directory: directory@,
                seconds,
            },
            UploadImage::Finished(answer) => UploadImageView::Finished(text_view(answer)),
            UploadImage::Aborted(message) => UploadImageView::Aborted(message),
        }
    }
}

impl UploadImageView {
    /// The upload as it starts for a camera, under the root of the image
    /// store.
    pub open spec fn start(camera_id: u128, images_directory_path: Seq<char>) -> UploadImageView {
        UploadImageView::CreatingDirectory {
            directory: camera_path(images_directory_path, camera_id),
        }
    }

    /// What the upload wants next in this state.
    pub open spec fn action(self) -> ActionView<Seq<char>, ApiError> {
        match self {
            UploadImageView::CreatingDirectory { directory } => ActionView::Perform(
                EffectView::CreateDirectory { directory },
            ),
            UploadImageView::ReadingClock { directory } => ActionView::Perform(
                EffectView::ReadClock,
            ),
            UploadImageView::StoringImage { directory, seconds } => ActionView::Perform(
                EffectView::StoreImage {
                    directory,
                    file_name: decimal(seconds as nat) + seq!['.', 'j', 'p', 'g'],
                },
            ),
            UploadImageView::Finished(answer) => ActionView::Respond(answer),
            UploadImageView::Aborted(message) => ActionView::Abort(message),
        }
    }

    /// The state after `reply` has answered the pending effect. Without
    /// a directory or without the time there is no going on.
    pub open spec fn next(self, reply: ReplyView) -> UploadImageView {
        match self {
            UploadImageView::CreatingDirectory { directory } => match reply {
                ReplyView::File(true) => UploadImageView::ReadingClock { directory },
                _ => UploadImageView::Aborted(NO_IMAGES_DIRECTORY),
            },
            UploadImageView::ReadingClock { directory } => match reply {
                ReplyView::Clock(Some(seconds)) => UploadImageView::StoringImage {
                    directory,
                    seconds,
                },
                _ => UploadImageView::Aborted(NO_CURRENT_TIME),
            },
            UploadImageView::StoringImage { directory, seconds } => match reply {
                ReplyView::File(true) => UploadImageView::Finished(Ok(decimal(seconds as nat))),
                _ => UploadImageView::Finished(Err(ApiError::internal(FAILED_TO_SAVE_IMAGE))),
            },
            UploadImageView::Finished(answer) => self,
            UploadImageView::Aborted(message) => self,
        }
    }
}

impl UploadImage {
    /// The status that goes with the id of a stored image.
    pub fn success() -> (status: Status)
        ensures
            status == Status::Created,
    {
        Status::Created
    }

    /// Starts an upload by the bearer of `camera_token`.
    pub fn new(camera_token: &CameraToken, images_directory_path: &String) -> (process:
        UploadImage)
        ensures
            process@ == UploadImageView::start(camera_token.camera_id, images_directory_path@),
    {
        UploadImage::CreatingDirectory {
            directory: directory_of_camera(images_directory_path, camera_token.camera_id),
        }
    }

    /// What the upload wants next.
    pub fn action(&self) -> (action: Action<String, ApiError>)
        ensures
            action@ == self@.action(),
    {
        match self {
            UploadImage::CreatingDirectory { directory } => Action::Perform(
                Effect::CreateDirectory { directory: directory.clone() },
            ),
            UploadImage::ReadingClock { directory } => Action::Perform(Effect::ReadClock),
            UploadImage::StoringImage { directory, seconds } => Action::Perform(
                Effect::StoreImage {
                    directory: directory.clone(),
                    file_name: image_file_name(*seconds),
                },
            ),
            UploadImage::Finished(answer) => Action::Respond(copy_text_answer(answer)),
            UploadImage::Aborted(message) => Action::Abort(*message),
        }
    }
}

/// Advances an upload with the reply to its pending effect.
pub fn upload_image(process: UploadImage, reply: Reply) -> (next: UploadImage)
    ensures
        next@ == process@.next(reply@),
{
    match process {
        UploadImage::CreatingDirectory { directory } => match reply {
            Reply::File(true) => UploadImage::ReadingClock { directory },
            _ => UploadImage::Aborted(NO_IMAGES_DIRECTORY),
        },
        UploadImage::ReadingClock { directory } => match reply {
            Reply::Clock(Some(seconds)) => UploadImage::StoringImage { directory, seconds },
            _ => UploadImage::Aborted(NO_CURRENT_TIME),
        },
        UploadImage::StoringImage { directory, seconds } => match reply {
            Reply::File(true) => UploadImage::Finished(Ok(seconds_text(seconds))),
            _ => UploadImage::Finished(Err(ApiError::internal(FAILED_TO_SAVE_IMAGE))),
        },
        UploadImage::Finished(answer) => UploadImage::Finished(answer),
        UploadImage::Aborted(message) => UploadImage::Aborted(message),
    }
}

} // verus!

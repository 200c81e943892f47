use crate::database::models::recipe::text_of;
use vstd::prelude::*;

verus! {

/// The profile picture recorded for a user.
#[derive(Debug)]
pub struct ProfilePicture {
    pub user_id: i32,
    pub picture_path: Option<String>,
}

/// A `ProfilePicture` as plain values, as contracts speak of it.
pub struct ProfilePictureView {
    pub user_id: i32,
    pub picture_path: Option<Seq<char>>,
}

impl View for ProfilePicture {
    type V = ProfilePictureView;

    open spec fn view(&self) -> ProfilePictureView {
        ProfilePictureView { user_id: self.user_id, picture_path: text_of(self.picture_path) }
    }
}

} // verus!

use crate::middleware::auth::AuthenticationExtension;
use vstd::prelude::*;

verus! {

/// What a handler learns of its caller.
#[derive(Debug)]
pub enum Authorized {
    /// The caller's user id and name.
    Passed(i32, String),
    /// Why the caller is not known.
    Failed(String),
}

/// An `Authorized` as plain values, as contracts speak of it.
pub enum AuthorizedView {
    Passed(i32, Seq<char>),
    Failed(Seq<char>),
}

impl View for Authorized {
    type V = AuthorizedView;

    open spec fn view(&self) -> AuthorizedView {
        match *self {
            Authorized::Passed(uid, username) => AuthorizedView::Passed(uid, username@),
            Authorized::Failed(reason) => AuthorizedView::Failed(reason@),
        }
    }
}

impl Authorized {
    /// The caller of a request, from the identity that the guard attached to it, if it
    /// attached one.
    pub fn from_request(extension: Option<&AuthenticationExtension>) -> (r: Authorized)
        ensures
            match extension {
                Some(e) => r matches Authorized::Passed(uid, username) && uid == e.uid
                    && username@ == e.username@,
                None => r matches Authorized::Failed(reason) && reason@
                    == "Unable to authenticate JWT"@,
            },
    {
        match extension {
            Some(e) => Authorized::Passed(e.uid, e.username.clone()),
            None => Authorized::Failed("Unable to authenticate JWT".to_owned()),
        }
    }
}

} // verus!

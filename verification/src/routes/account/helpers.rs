use crate::database::models::recipe::text_of;
use crate::database::models::user_details::{pronoun_pattern, UserDetails};
use crate::helpers::{is_alnum_whitespace_and_ex_chars, is_plain_text};
use crate::pattern::matches_pattern;
use crate::routes::users::services::{Refusal, RefusalView};
use vstd::prelude::*;

verus! {

/// What a user submits to change what they tell of themselves; a part that is left
/// out is cleared.
#[derive(Debug)]
pub struct UpdateUserDetailsPayload {
    pub bio: Option<String>,
    pub pronouns: Option<String>,
    pub location: Option<String>,
}

/// An `UpdateUserDetailsPayload` as plain values, as contracts speak of it.
pub struct UpdateUserDetailsPayloadView {
    pub bio: Option<Seq<char>>,
    pub pronouns: Option<Seq<char>>,
    pub location: Option<Seq<char>>,
}

impl View for UpdateUserDetailsPayload {
    type V = UpdateUserDetailsPayloadView;

    open spec fn view(&self) -> UpdateUserDetailsPayloadView {
        UpdateUserDetailsPayloadView {
            bio: text_of(self.bio),
            pronouns: text_of(self.pronouns),
            location: text_of(self.location),
        }
    }
}

/// A submission turned down with the text `error`.
pub open spec fn invalid_detail(error: Seq<char>, description: Seq<char>) -> RefusalView {
    RefusalView { status: 400, error, description }
}

/// What is wrong with the details `details`, if anything: the pronouns are looked at
/// first, then the bio, then the location.
pub open spec fn details_fault(details: UpdateUserDetailsPayloadView) -> Option<RefusalView> {
    if details.pronouns matches Some(pronouns) && !matches_pattern(pronoun_pattern(), pronouns) {
        Some(
            invalid_detail(
                "This pronoun is invalid"@,
                "Please follow the rule of 'pronoun1/pronoun2'"@,
            ),
        )
    } else if details.bio matches Some(bio) && !is_plain_text(bio) {
        Some(
            invalid_detail("This bio is invalid"@, "Please only use alphanumerical characters"@),
        )
    } else if details.location matches Some(location) && !is_plain_text(location) {
        Some(
            invalid_detail(
                "This location name is invalid"@,
                "Please only use alphanumerical characters"@,
            ),
        )
    } else {
        None
    }
}

fn invalid(error: &str, description: &str) -> (r: Result<(), Refusal>)
    ensures
        r matches Err(e) && e@ == invalid_detail(error@, description@),
{
    Err(Refusal { status: 400, error: error.to_owned(), description: description.to_owned() })
}

impl UpdateUserDetailsPayload {
    /// Accepts the details, or says what is wrong with them.
    pub fn verify(&self) -> (r: Result<(), Refusal>)
        ensures
            match details_fault(self@) {
                Some(fault) => r matches Err(e) && e@ == fault,
                None => r is Ok,
            },
    {
        match &self.pronouns {
            Some(pronouns) => {
                if !UserDetails::is_pronoun(pronouns.as_str()) {
                    return invalid(
                        "This pronoun is invalid",
                        "Please follow the rule of 'pronoun1/pronoun2'",
                    );
                }
            },
            None => {},
        }
        match &self.bio {
            Some(bio) => {
                if !is_alnum_whitespace_and_ex_chars(bio.as_str()) {
                    return invalid(
                        "This bio is invalid",
                        "Please only use alphanumerical characters",
                    );
                }
            },
            None => {},
        }
        match &self.location {
            Some(location) => {
                if !is_alnum_whitespace_and_ex_chars(location.as_str()) {
                    return invalid(
                        "This location name is invalid",
                        "Please only use alphanumerical characters",
                    );
                }
            },
            None => {},
        }
        Ok(())
    }
}

/// The form with which a user changes their details. `details` holds the reason
/// where the submitted text could not be read.
#[derive(Debug)]
pub struct UploadPictureForm {
    /// The name under which the picture was uploaded, if a picture came with the form:
    /// `Some(None)` is a picture without a name.
    pub picture: Option<Option<String>>,
    pub details: Result<UpdateUserDetailsPayload, String>,
}

} // verus!

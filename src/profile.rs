use vstd::prelude::*;

use crate::ids::{UserId, user_id_text, uuid_text};
use crate::text::{decimal, decimal_text};

verus! {

/// A stored profile image and its place in the profile.
#[derive(Debug)]
pub struct UserImage {
    pub id: String,
    pub url: String,
    pub order: i32,
}

/// A prompt answered on a profile.
#[derive(Debug)]
pub struct UserPrompt {
    pub id: String,
    pub question: String,
    pub answer: String,
    pub order: i32,
}

/// The descriptive attributes of a profile.
#[derive(Debug)]
pub struct ProfileDetails {
    pub name: Option<String>,
    pub bio: Option<String>,
    /// Written `YYYY-MM-DD`.
    pub birthdate: Option<String>,
    pub pronouns: Option<String>,
    pub gender: Option<String>,
    pub sexuality: Option<String>,
    /// In centimetres.
    pub height: Option<i32>,
    /// Written `latitude,longitude`.
    pub location: Option<String>,
    pub job: Option<String>,
    pub company: Option<String>,
    pub school: Option<String>,
    pub ethnicity: Option<String>,
    pub politics: Option<String>,
    pub religion: Option<String>,
    pub relationship_type: Option<String>,
    pub dating_intention: Option<String>,
    pub drinks: Option<String>,
    pub smokes: Option<String>,
}

/// A profile as clients see it.
#[derive(Debug)]
pub struct UserProfile {
    pub id: String,
    pub images: Option<Vec<UserImage>>,
    pub prompts: Option<Vec<UserPrompt>>,
    pub details: Option<ProfileDetails>,
}

/// The fields a profile update may set; `None` leaves a field as it is.
#[derive(Debug)]
pub struct UpdateProfileRequest {
    pub name: Option<String>,
    pub bio: Option<String>,
    pub birthdate: Option<String>,
    pub pronouns: Option<String>,
    pub gender: Option<String>,
    pub sexuality: Option<String>,
    pub height: Option<i32>,
    pub location: Option<String>,
    pub job: Option<String>,
    pub company: Option<String>,
    pub school: Option<String>,
    pub ethnicity: Option<String>,
    pub politics: Option<String>,
    pub religion: Option<String>,
    pub relationship_type: Option<String>,
    pub dating_intention: Option<String>,
    pub drinks: Option<String>,
    pub smokes: Option<String>,
}

/// The outcome of asking to finalise a profile.
#[derive(Debug)]
pub struct FinalizeProfileResponse {
    pub status: String,
    pub message: Option<String>,
    /// What is still to be done; empty when the profile is complete.
    pub pending_actions: Option<Vec<String>>,
}

/// Images a complete profile has.
pub const REQUIRED_IMAGES: i64 = 6;

/// Prompts a complete profile has.
pub const REQUIRED_PROMPTS: i64 = 3;

/// What is still to be done before a profile with `images` images, `prompts`
/// prompts and `missing` unfilled details is complete, in that order.
pub open spec fn pending_actions(images: int, prompts: int, missing: int) -> Seq<Seq<char>> {
    (if images < REQUIRED_IMAGES {
        seq!["Upload "@ + decimal(REQUIRED_IMAGES - images) + " more images"@]
    } else {
        Seq::empty()
    }) + (if prompts < REQUIRED_PROMPTS {
        seq!["Upload "@ + decimal(REQUIRED_PROMPTS - prompts) + " more prompts"@]
    } else {
        Seq::empty()
    }) + (if missing > 0 {
        seq!["Fill "@ + decimal(missing) + " more profile details"@]
    } else {
        Seq::empty()
    })
}

pub open spec fn texts(v: Seq<String>) -> Seq<Seq<char>> {
    v.map_values(|s: String| s@)
}

fn count_message(lead: &str, n: i128, tail: &str) -> (r: String)
    ensures
        r@ == lead@ + decimal(n as int) + tail@,
{
    let mut m = String::from_str(lead);
    let d = decimal_text(n);
    m.append(d.as_str());
    m.append(tail);
    m
}

/// Decides whether a profile with `images_uploaded` images, `prompts_uploaded`
/// prompts and `missing_fields` unfilled details can be finalised, and lists
/// what is still to be done.
pub fn finalize_profile(images_uploaded: i64, prompts_uploaded: i64, missing_fields: i64) -> (r:
    FinalizeProfileResponse)
    ensures
        r.pending_actions is Some && texts(r.pending_actions->0@) == pending_actions(
            images_uploaded as int,
            prompts_uploaded as int,
            missing_fields as int,
        ),
        pending_actions(images_uploaded as int, prompts_uploaded as int, missing_fields as int).len()
            == 0 ==> (r.status@ == "success"@ && r.message is Some
            && r.message->0@ == "Profile finalized successfully"@),
        pending_actions(images_uploaded as int, prompts_uploaded as int, missing_fields as int).len()
            > 0 ==> (r.status@ == "error"@ && r.message is Some
            && r.message->0@ == "Profile not finalized"@),
{
    let mut pending: Vec<String> = Vec::new();
    if images_uploaded < REQUIRED_IMAGES {
        pending.push(
            count_message("Upload ", REQUIRED_IMAGES as i128 - images_uploaded as i128, " more images"),
        );
    }
    if prompts_uploaded < REQUIRED_PROMPTS {
        pending.push(
            count_message("Upload ", REQUIRED_PROMPTS as i128 - prompts_uploaded as i128, " more prompts"),
        );
    }
    if missing_fields > 0 {
        pending.push(count_message("Fill ", missing_fields as i128, " more profile details"));
    }
    assert(texts(pending@) =~= pending_actions(
        images_uploaded as int,
        prompts_uploaded as int,
        missing_fields as int,
    ));
    if pending.len() == 0 {
        FinalizeProfileResponse {
            status: String::from_str("success"),
            message: Some(String::from_str("Profile finalized successfully")),
            pending_actions: Some(pending),
        }
    } else {
        FinalizeProfileResponse {
            status: String::from_str("error"),
            message: Some(String::from_str("Profile not finalized")),
            pending_actions: Some(pending),
        }
    }
}

/// A profile image whose address is `download_url` where one could be
/// issued, and its storage key otherwise.
pub fn image_entry(id: String, key: String, download_url: Option<String>, order: i32) -> (r:
    UserImage)
    ensures
        r.id == id,
        r.order == order,
        r.url == match download_url {
            Some(u) => u,
            None => key,
        },
{
    let url = match download_url {
        Some(u) => u,
        None => key,
    };
    UserImage { id, url, order }
}

/// A user's own profile, from whatever parts could be read.
pub fn profile_response(
    user_id: UserId,
    images: Option<Vec<UserImage>>,
    prompts: Option<Vec<UserPrompt>>,
    details: Option<ProfileDetails>,
) -> (r: UserProfile)
    ensures
        r.id@ == uuid_text(user_id),
        r.images == images,
        r.prompts == prompts,
        r.details == details,
{
    UserProfile { id: user_id_text(user_id), images, prompts, details }
}

} // verus!

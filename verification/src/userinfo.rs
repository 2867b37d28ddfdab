use vstd::prelude::*;
use vstd::string::*;

use crate::config::TwitterClient;
use crate::http::{body_bytes, body_text, spec_is_success, status_is_success, ResponseBody};

verus! {

/// The user a client acts for, as the provider describes them.
#[derive(Debug, Clone)]
pub struct UserInfo {
    pub id: String,
    pub name: String,
    pub username: String,
    pub profile_image_url: String,
}

/// A request that the provider refused: the status, and the text of its
/// answer.
#[derive(Debug, Clone)]
pub struct ApiError {
    pub status: u16,
    pub body: String,
}

/// The address that describes the user a client acts for.
pub open spec fn user_info_url() -> Seq<char> {
    "https://api.twitter.com/2/users/me?user.fields=profile_image_url,most_recent_tweet_id"@
}

/// Checks an answer's status before its body is decoded: a 2xx answer
/// hands back the body's bytes, any other an error carrying the body's text
/// (the body is read as text where the status is not 2xx, as bytes where it
/// is).
pub fn check_response_status(status: u16, body: ResponseBody) -> (res: Result<Vec<u8>, ApiError>)
    ensures
        spec_is_success(status) ==> (res matches Ok(b) && b@ == body_bytes(body)),
        !spec_is_success(status) ==> (res matches Err(e) && e.status == status && e.body@ == body_text(body)),
{
    if status_is_success(status) {
        Ok(body.into_bytes())
    } else {
        Err(ApiError { status, body: body.into_text() })
    }
}

impl TwitterClient {
    /// The address that the user's description is fetched from (GET).
    pub fn get_user_info(&self) -> (url: String)
        ensures
            url@ == user_info_url(),
    {
        String::from_str("https://api.twitter.com/2/users/me?user.fields=profile_image_url,most_recent_tweet_id")
    }
}

} // verus!

use vstd::prelude::*;
use vstd::string::*;

use crate::config::TwitterClient;
use crate::http::JsonPost;
use crate::text::{join_strings, joined, strings_view};
use crate::tweet::{tweet_check, tweet_json, Tweet, TweetError};

verus! {

/// The address that tweets are posted to.
pub open spec fn tweets_url() -> Seq<char> {
    "https://api.twitter.com/2/tweets"@
}

/// The address that media are uploaded to.
pub open spec fn media_upload_url() -> Seq<char> {
    "https://upload.twitter.com/1.1/media/upload.json"@
}

/// A multipart upload: the media bytes go in the part `media` and, where
/// there are other owners, their ids go in the text part `additional_owners`.
pub struct MediaUpload {
    pub url: String,
    pub media: Vec<u8>,
    pub additional_owners: Option<String>,
}

/// The `additional_owners` field: the owners' ids joined by commas.
pub open spec fn owners_field(owners: Option<Seq<Seq<char>>>) -> Option<Seq<char>> {
    match owners {
        Some(ids) => Some(joined(ids, ","@)),
        None => None,
    }
}

impl TwitterClient {
    /// The request that posts a tweet: the tweet is checked first, and a
    /// tweet that breaks a rule is not sent.
    pub fn post_tweet(&self, tweet: Tweet) -> (res: Result<JsonPost, TweetError>)
        ensures
            match tweet_check(tweet@) {
                Err(e) => res == Err::<JsonPost, TweetError>(e),
                Ok(_) => res matches Ok(req) && req.url@ == tweets_url() && req.body@ == tweet_json(tweet@),
            },
    {
        match tweet.validate_content() {
            Err(e) => Err(e),
            Ok(()) => Ok(JsonPost {
                url: String::from_str("https://api.twitter.com/2/tweets"),
                body: tweet.to_json(),
            }),
        }
    }

    /// The request that uploads media, with the ids of any other users that
    /// may use it.
    pub fn upload_media(&self, media_bytes: Vec<u8>, additional_owners: Option<Vec<String>>) -> (req: MediaUpload)
        ensures
            req.url@ == media_upload_url(),
            req.media@ == media_bytes@,
            crate::text::opt_view(req.additional_owners) == owners_field(
                match additional_owners {
                    Some(v) => Some(strings_view(v@)),
                    None => None,
                },
            ),
    {
        let additional = match &additional_owners {
            Some(owners) => Some(join_strings(owners, ",")),
            None => None,
        };
        MediaUpload {
            url: String::from_str("https://upload.twitter.com/1.1/media/upload.json"),
            media: media_bytes,
            additional_owners: additional,
        }
    }
}

} // verus!

verus! {

/// Whenever owners are given, the `additional_owners` part is sent: a single
/// owner's id as it is, and each further owner added after a comma; with no
/// owners given there is no such part.
pub proof fn lemma_owners_field(ids: Seq<Seq<char>>, id: Seq<char>)
    ensures
        owners_field(None) is None,
        owners_field(Some(ids)) is Some,
        owners_field(Some(seq![id])) == Some(id),
        ids.len() > 0 ==> owners_field(Some(ids.push(id))) == Some(owners_field(Some(ids))->0 + seq![','] + id),
{
    reveal_strlit(",");
    crate::text::lemma_joined_parts(ids, id, ","@);
}

} // verus!

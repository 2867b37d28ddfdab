use vstd::prelude::*;
use vstd::string::*;

use crate::config::TwitterClient;
use crate::http::JsonPost;
use crate::text::{json_string, json_string_literal};

verus! {

/// The address of a user's likes, or of a user's retweets (`kind` is
/// `likes` or `retweets`).
pub open spec fn user_action_url(user_id: Seq<char>, kind: Seq<char>) -> Seq<char> {
    "https://api.twitter.com/2/users/"@ + user_id + "/"@ + kind
}

/// The JSON body that names the tweet acted on: `{"tweet_id":...}`.
pub open spec fn tweet_ref_json(tweet_id: Seq<char>) -> Seq<char> {
    "{\"tweet_id\":"@ + json_string_literal(tweet_id) + "}"@
}

fn tweet_ref_body(tweet_id: &str) -> (body: String)
    ensures
        body@ == tweet_ref_json(tweet_id@),
{
    let mut body = String::from_str("{\"tweet_id\":");
    let lit = json_string(tweet_id);
    body.append(lit.as_str());
    body.append("}");
    body
}

impl TwitterClient {
    /// The request by which the user likes a tweet.
    pub fn like_tweet(&self, user_id: String, tweet_id: String) -> (req: JsonPost)
        ensures
            req.url@ == user_action_url(user_id@, "likes"@),
            req.body@ == tweet_ref_json(tweet_id@),
    {
        let mut url = String::from_str("https://api.twitter.com/2/users/");
        url.append(user_id.as_str());
        url.append("/");
        url.append("likes");
        JsonPost { url, body: tweet_ref_body(tweet_id.as_str()) }
    }

    /// The request by which the user retweets a tweet.
    pub fn retweet_tweet(&self, user_id: String, tweet_id: String) -> (req: JsonPost)
        ensures
            req.url@ == user_action_url(user_id@, "retweets"@),
            req.body@ == tweet_ref_json(tweet_id@),
    {
        let mut url = String::from_str("https://api.twitter.com/2/users/");
        url.append(user_id.as_str());
        url.append("/");
        url.append("retweets");
        JsonPost { url, body: tweet_ref_body(tweet_id.as_str()) }
    }
}

} // verus!

use client::auth::{AuthError, FormError, TokenField, TwitterOAuthClient, TwitterOAuthToken, decode_token_response};
use client::config::TwitterConfig;
use client::helper::{
    access_token_env_file, handle_callback, initiate_login, login_callback_url, login_request, login_success_message,
    AuthCallbackQuery, CallbackError,
};
use client::http::{status_is_error, status_is_success, ResponseBody};
use client::tweet::{Tweet, TweetError};
use client::userinfo::check_response_status;

fn oauth() -> TwitterOAuthClient {
    TwitterOAuthClient::new("key".to_string(), "secret".to_string())
}

fn pairs(v: &[(&str, &str)]) -> Vec<(String, String)> {
    v.iter().map(|(a, b)| (a.to_string(), b.to_string())).collect()
}

#[test]
fn status_classes() {
    assert!(status_is_success(200));
    assert!(status_is_success(299));
    assert!(!status_is_success(300));
    assert!(!status_is_success(199));
    assert!(status_is_error(400));
    assert!(status_is_error(599));
    assert!(!status_is_error(302));
    assert!(!status_is_error(600));
}

#[test]
fn token_reply_is_read() {
    let res = oauth().handle_response(200, ResponseBody::Bytes(b"oauth_token=abc&oauth_token_secret=def&oauth_callback_confirmed=true".to_vec()));
    match res {
        Ok(t) => {
            assert_eq!(t.token, "abc");
            assert_eq!(t.secret, "def");
        }
        Err(e) => panic!("unexpected {:?}", e),
    }
}

#[test]
fn token_reply_is_percent_decoded() {
    let res = oauth().handle_response(201, ResponseBody::Bytes(b"oauth_callback_confirmed=true&x=1&oauth_token=a%20b&oauth_token_secret=c+d".to_vec()));
    match res {
        Ok(t) => {
            assert_eq!(t.token, "a b");
            assert_eq!(t.secret, "c d");
        }
        Err(e) => panic!("unexpected {:?}", e),
    }
}

#[test]
fn refused_token_request_carries_body_text() {
    match oauth().handle_response(401, ResponseBody::Bytes(b"Bad \xffsignature".to_vec())) {
        Err(AuthError::Rejected { status, body }) => {
            assert_eq!(status, 401);
            assert_eq!(body, "Bad \u{FFFD}signature");
        }
        other => panic!("unexpected {:?}", other),
    }
}

#[test]
fn unconfirmed_callback_is_refused() {
    let res = oauth().handle_response(200, ResponseBody::Bytes(b"oauth_token=a&oauth_token_secret=b&oauth_callback_confirmed=false".to_vec()));
    assert!(matches!(res, Err(AuthError::CallbackNotConfirmed)));
}

#[test]
fn missing_fields_are_reported_in_order() {
    let res = oauth().handle_response(200, ResponseBody::Bytes(b"oauth_token_secret=b".to_vec()));
    assert!(matches!(res, Err(AuthError::Decode(FormError::MissingField(TokenField::OAuthToken)))));
    let res = oauth().handle_response(200, ResponseBody::Bytes(b"oauth_token=a&oauth_token_secret=b".to_vec()));
    assert!(matches!(
        res,
        Err(AuthError::Decode(FormError::MissingField(TokenField::OAuthCallbackConfirmed)))
    ));
    let res = oauth().handle_response(200, ResponseBody::Bytes(b"oauth_token=a&oauth_callback_confirmed=true".to_vec()));
    assert!(matches!(res, Err(AuthError::Decode(FormError::MissingField(TokenField::OAuthTokenSecret)))));
}

#[test]
fn duplicate_field_is_refused() {
    let res = oauth().handle_response(200, ResponseBody::Bytes(b"oauth_token=a&oauth_token=b&oauth_token_secret=c&oauth_callback_confirmed=true".to_vec()));
    assert!(matches!(res, Err(AuthError::Decode(FormError::DuplicateField(TokenField::OAuthToken)))));
}

#[test]
fn confirmation_must_be_boolean() {
    let res = oauth().handle_response(200, ResponseBody::Bytes(b"oauth_token=a&oauth_token_secret=c&oauth_callback_confirmed=yes".to_vec()));
    assert!(matches!(res, Err(AuthError::Decode(FormError::InvalidBool))));
}

#[test]
fn first_problem_met_is_reported() {
    let r = decode_token_response(&pairs(&[
        ("oauth_callback_confirmed", "maybe"),
        ("oauth_token", "a"),
        ("oauth_token", "b"),
    ]));
    assert!(matches!(r, Err(FormError::InvalidBool)));
    let r = decode_token_response(&pairs(&[
        ("oauth_token_secret", "a"),
        ("oauth_token_secret", "b"),
        ("oauth_callback_confirmed", "maybe"),
    ]));
    assert!(matches!(r, Err(FormError::DuplicateField(TokenField::OAuthTokenSecret))));
    let r = decode_token_response(&pairs(&[
        ("oauth_token", "t"),
        ("oauth_token_secret", "s"),
        ("oauth_callback_confirmed", "true"),
        ("oauth_callback_confirmed", "true"),
    ]));
    assert!(matches!(r, Err(FormError::DuplicateField(TokenField::OAuthCallbackConfirmed))));
}

#[test]
fn token_request_is_signed_by_application_only() {
    let req = oauth().request_oauth_token("https://me/cb");
    assert_eq!(req.url, "https://api.twitter.com/oauth/request_token");
    assert_eq!(req.secrets.consumer_key, "key");
    assert_eq!(req.secrets.consumer_secret, "secret");
    assert!(req.secrets.token.is_none());
    assert_eq!(req.query, pairs(&[("oauth_callback", "https://me/cb")]));
}

#[test]
fn access_request_is_signed_with_token() {
    let req = oauth().authorize_token("tok", "sec", "ver");
    assert_eq!(req.url, "https://api.twitter.com/oauth/access_token");
    let t = req.secrets.token.expect("token");
    assert_eq!(t.token, "tok");
    assert_eq!(t.secret, "sec");
    assert_eq!(req.query, pairs(&[("oauth_verifier", "ver")]));
}

#[test]
fn config_requests_match_oauth_client() {
    let cfg = TwitterConfig::new("k".to_string(), "s".to_string());
    let req = cfg.request_oauth_token("cb".to_string());
    assert_eq!(req.url, "https://api.twitter.com/oauth/request_token");
    assert_eq!(req.secrets.consumer_key, "k");
    assert_eq!(req.query, pairs(&[("oauth_callback", "cb")]));
    let req = cfg.authorize_token("t".to_string(), "ts".to_string(), "v".to_string());
    assert_eq!(req.url, "https://api.twitter.com/oauth/access_token");
    assert_eq!(req.secrets.consumer_secret, "s");
    assert_eq!(req.query, pairs(&[("oauth_verifier", "v")]));
}

fn user_client() -> client::config::TwitterClient {
    let cfg = TwitterConfig::new("k".to_string(), "s".to_string());
    cfg.create_client(TwitterOAuthToken { token: "ut".to_string(), secret: "us".to_string() })
}

#[test]
fn client_signs_with_user_token() {
    let c = user_client();
    let s = c.secrets();
    assert_eq!(s.consumer_key, "k");
    assert_eq!(s.consumer_secret, "s");
    let t = s.token.clone().expect("token");
    assert_eq!(t.token, "ut");
    assert_eq!(t.secret, "us");
}

#[test]
fn like_and_retweet_requests() {
    let c = user_client();
    let like = c.like_tweet("42".to_string(), "7".to_string());
    assert_eq!(like.url, "https://api.twitter.com/2/users/42/likes");
    assert_eq!(like.body, "{\"tweet_id\":\"7\"}");
    let rt = c.retweet_tweet("42".to_string(), "8".to_string());
    assert_eq!(rt.url, "https://api.twitter.com/2/users/42/retweets");
    assert_eq!(rt.body, "{\"tweet_id\":\"8\"}");
}

#[test]
fn post_tweet_checks_first() {
    let c = user_client();
    match c.post_tweet(Tweet::new(String::new())) {
        Err(e) => assert_eq!(e, TweetError::EmptyContent),
        Ok(_) => panic!("an empty tweet was sent"),
    }
    match c.post_tweet(Tweet::new("hi".to_string())) {
        Ok(req) => {
            assert_eq!(req.url, "https://api.twitter.com/2/tweets");
            assert_eq!(req.body, "{\"content\":\"hi\"}");
        }
        Err(e) => panic!("unexpected {:?}", e),
    }
}

#[test]
fn upload_media_joins_owners() {
    let c = user_client();
    let up = c.upload_media(vec![1, 2, 3], Some(vec!["a".to_string(), "b".to_string()]));
    assert_eq!(up.url, "https://upload.twitter.com/1.1/media/upload.json");
    assert_eq!(up.media, vec![1, 2, 3]);
    assert_eq!(up.additional_owners, Some("a,b".to_string()));
    let up = c.upload_media(vec![], None);
    assert_eq!(up.additional_owners, None);
}

#[test]
fn user_info_request_and_status() {
    let c = user_client();
    assert_eq!(
        c.get_user_info(),
        "https://api.twitter.com/2/users/me?user.fields=profile_image_url,most_recent_tweet_id"
    );
    match check_response_status(200, ResponseBody::Text("{\"data\":1}".to_string())) {
        Ok(bytes) => assert_eq!(bytes, b"{\"data\":1}".to_vec()),
        Err(e) => panic!("unexpected {:?}", e),
    }
    match check_response_status(403, ResponseBody::Text("Forbidden".to_string())) {
        Err(e) => {
            assert_eq!(e.status, 403);
            assert_eq!(e.body, "Forbidden");
        }
        Ok(_) => panic!("a refusal passed"),
    }
}

#[test]
fn login_helper_urls_and_messages() {
    assert_eq!(login_callback_url("http://127.0.0.1:4000"), "http://127.0.0.1:4000/callback");
    let t = TwitterOAuthToken { token: "tt".to_string(), secret: "ss".to_string() };
    assert_eq!(initiate_login(&t), "https://api.twitter.com/oauth/authenticate?oauth_token=tt");
    assert_eq!(login_success_message("Ann"), "Successfully logged into Ann");
    assert_eq!(access_token_env_file(&t), "X_ACCESS_TOKEN=tt\nX_ACCESS_TOKEN_SECRET=ss\n");
}

#[test]
fn callback_is_checked_against_stored_token() {
    let q = AuthCallbackQuery { oauth_token: "tt".to_string(), oauth_verifier: "vv".to_string() };
    assert!(matches!(handle_callback(&None, &q), Err(CallbackError::NoTokenPair)));
    let other = Some(TwitterOAuthToken { token: "xx".to_string(), secret: "ss".to_string() });
    assert!(matches!(handle_callback(&other, &q), Err(CallbackError::TokenMismatch)));
    let stored = Some(TwitterOAuthToken { token: "tt".to_string(), secret: "ss".to_string() });
    match handle_callback(&stored, &q) {
        Ok(r) => {
            assert_eq!(r.oauth_token, "tt");
            assert_eq!(r.oauth_token_secret, "ss");
            assert_eq!(r.oauth_verifier, "vv");
        }
        Err(e) => panic!("unexpected {:?}", e),
    }
}

#[test]
fn refused_token_request_text_is_kept() {
    match oauth().handle_response(503, ResponseBody::Text("Over capacity".to_string())) {
        Err(AuthError::Rejected { status, body }) => {
            assert_eq!(status, 503);
            assert_eq!(body, "Over capacity");
        }
        other => panic!("unexpected {:?}", other),
    }
}

#[test]
fn accepted_reply_read_from_text() {
    let res = oauth().handle_response(
        200,
        ResponseBody::Text("oauth_token=x&oauth_token_secret=y&oauth_callback_confirmed=true".to_string()),
    );
    match res {
        Ok(t) => {
            assert_eq!(t.token, "x");
            assert_eq!(t.secret, "y");
        }
        Err(e) => panic!("unexpected {:?}", e),
    }
}

#[test]
fn error_messages_follow_serde() {
    let res = oauth().handle_response(200, ResponseBody::Bytes(b"oauth_token=a".to_vec()));
    match res {
        Err(e) => assert_eq!(e.message(), "missing field `oauth_token_secret`"),
        Ok(_) => panic!("accepted"),
    }
    let res = oauth().handle_response(200, ResponseBody::Bytes(b"oauth_token=a&oauth_token=b".to_vec()));
    match res {
        Err(e) => assert_eq!(e.message(), "duplicate field `oauth_token`"),
        Ok(_) => panic!("accepted"),
    }
    let res = oauth().handle_response(
        200,
        ResponseBody::Bytes(b"oauth_token=a&oauth_token_secret=b&oauth_callback_confirmed=false".to_vec()),
    );
    match res {
        Err(e) => assert_eq!(e.message(), "Callback URL not confirmed."),
        Ok(_) => panic!("accepted"),
    }
}

#[test]
fn login_request_uses_callback_under_base() {
    let cfg = TwitterConfig::new("k".to_string(), "s".to_string());
    let req = login_request(&cfg, "http://127.0.0.1:4000");
    assert_eq!(req.url, "https://api.twitter.com/oauth/request_token");
    assert_eq!(req.secrets.consumer_key, "k");
    assert_eq!(req.secrets.consumer_secret, "s");
    assert!(req.secrets.token.is_none());
    assert_eq!(req.query, pairs(&[("oauth_callback", "http://127.0.0.1:4000/callback")]));
}

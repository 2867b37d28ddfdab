use vstd::prelude::*;
use vstd::string::*;

use crate::auth::{request_token_url, SignedPost, TwitterOAuthToken};
use crate::config::TwitterConfig;
use crate::text::pairs_view;

verus! {

/// The query string that the provider sends the user back with.
#[derive(Debug, Clone)]
pub struct AuthCallbackQuery {
    pub oauth_token: String,
    pub oauth_verifier: String,
}

/// The callback address under a base address: `{base}/callback`.
pub open spec fn login_callback(base_url: Seq<char>) -> Seq<char> {
    base_url + "/callback"@
}

/// The provider's page where the user approves a temporary token.
pub open spec fn authenticate_url(token: Seq<char>) -> Seq<char> {
    "https://api.twitter.com/oauth/authenticate?oauth_token="@ + token
}

/// The callback address that a login asks the provider to send the user
/// back to.
pub fn login_callback_url(base_url: &str) -> (url: String)
    ensures
        url@ == login_callback(base_url@),
{
    let mut url = String::from_str(base_url);
    url.append("/callback");
    url
}

/// The request that starts a login: temporary credentials for the
/// application, with the callback address under `base_url`.
pub fn login_request(config: &TwitterConfig, base_url: &str) -> (req: SignedPost)
    ensures
        req.url@ == request_token_url(),
        req.secrets.consumer_key@ == config.spec_consumer_key(),
        req.secrets.consumer_secret@ == config.spec_consumer_secret(),
        req.secrets.token is None,
        pairs_view(req.query@) == seq![("oauth_callback"@, login_callback(base_url@))],
{
    let callback_url = login_callback_url(base_url);
    config.request_oauth_token(callback_url)
}

/// Where a login sends the user once temporary credentials are in hand: the
/// provider's approval page for that token.
pub fn initiate_login(oauth_tokens: &TwitterOAuthToken) -> (redirect_url: String)
    ensures
        redirect_url@ == authenticate_url(oauth_tokens.token@),
{
    let mut url = String::from_str("https://api.twitter.com/oauth/authenticate?oauth_token=");
    url.append(oauth_tokens.token.as_str());
    url
}

/// Why a callback is refused.
#[derive(Debug, Clone, Copy, PartialEq, Eq, Structural)]
pub enum CallbackError {
    /// No login was started: there is no temporary token.
    NoTokenPair,
    /// The callback names another token than the one the login obtained.
    TokenMismatch,
}

/// The exchange that an accepted callback leads to: the temporary token and
/// its secret, with the verifier that the provider sent.
#[derive(Debug, Clone)]
pub struct AccessRequest {
    pub oauth_token: String,
    pub oauth_token_secret: String,
    pub oauth_verifier: String,
}

/// Checks a callback against the temporary token that the login obtained:
/// there must be one, and the callback must name it. The exchange then uses
/// that token, its secret and the callback's verifier.
pub fn handle_callback(stored: &Option<TwitterOAuthToken>, query: &AuthCallbackQuery) -> (res: Result<AccessRequest, CallbackError>)
    ensures
        match stored {
            None => res == Err::<AccessRequest, CallbackError>(CallbackError::NoTokenPair),
            Some(pair) => if query.oauth_token@ == pair.token@ {
                res matches Ok(r) && r.oauth_token@ == pair.token@ && r.oauth_token_secret@ == pair.secret@
                    && r.oauth_verifier@ == query.oauth_verifier@
            } else {
                res == Err::<AccessRequest, CallbackError>(CallbackError::TokenMismatch)
            },
        },
{
    match stored {
        None => Err(CallbackError::NoTokenPair),
        Some(pair) => {
            if query.oauth_token == pair.token {
                Ok(AccessRequest {
                    oauth_token: pair.token.clone(),
                    oauth_token_secret: pair.secret.clone(),
                    oauth_verifier: query.oauth_verifier.clone(),
                })
            } else {
                Err(CallbackError::TokenMismatch)
            }
        },
    }
}

/// The page a successful login ends on.
pub fn login_success_message(name: &str) -> (m: String)
    ensures
        m@ == "Successfully logged into "@ + name@,
{
    let mut m = String::from_str("Successfully logged into ");
    m.append(name);
    m
}

/// The environment file that the access token is kept in: one line
/// `X_ACCESS_TOKEN=...` and one line `X_ACCESS_TOKEN_SECRET=...`.
pub fn access_token_env_file(tokens: &TwitterOAuthToken) -> (text: String)
    ensures
        text@ == "X_ACCESS_TOKEN="@ + tokens.token@ + "\n"@ + "X_ACCESS_TOKEN_SECRET="@ + tokens.secret@ + "\n"@,
{
    let mut text = String::from_str("X_ACCESS_TOKEN=");
    text.append(tokens.token.as_str());
    text.append("\n");
    text.append("X_ACCESS_TOKEN_SECRET=");
    text.append(tokens.secret.as_str());
    text.append("\n");
    text
}

} // verus!

use vstd::prelude::*;
use vstd::string::*;

use crate::auth::{OAuthSecrets, SignedPost, TwitterOAuthClient, TwitterOAuthToken};

verus! {

/// An application's credentials with the provider.
#[derive(Debug, Clone)]
pub struct TwitterConfig {
    consumer_key: String,
    consumer_secret: String,
}

/// A client that acts for a user: its requests are signed with the
/// application's credentials and the user's access token.
#[derive(Debug, Clone)]
pub struct TwitterClient {
    secrets: OAuthSecrets,
}

impl TwitterConfig {
    pub closed spec fn spec_consumer_key(&self) -> Seq<char> {
        self.consumer_key@
    }

    pub closed spec fn spec_consumer_secret(&self) -> Seq<char> {
        self.consumer_secret@
    }

    /// The credentials of the application with the given key and secret.
    pub fn new(consumer_key: String, consumer_secret: String) -> (c: Self)
        ensures
            c.spec_consumer_key() == consumer_key@,
            c.spec_consumer_secret() == consumer_secret@,
    {
        Self { consumer_key, consumer_secret }
    }

    fn oauth_client(&self) -> (c: TwitterOAuthClient)
        ensures
            c.spec_app_key() == self.spec_consumer_key(),
            c.spec_app_secret() == self.spec_consumer_secret(),
    {
        TwitterOAuthClient::new(self.consumer_key.clone(), self.consumer_secret.clone())
    }

    /// The request for temporary credentials, as the OAuth client of this
    /// application makes it.
    pub fn request_oauth_token(&self, callback_url: String) -> (req: SignedPost)
        ensures
            req.url@ == crate::auth::request_token_url(),
            req.secrets.consumer_key@ == self.spec_consumer_key(),
            req.secrets.consumer_secret@ == self.spec_consumer_secret(),
            req.secrets.token is None,
            crate::text::pairs_view(req.query@) == seq![("oauth_callback"@, callback_url@)],
    {
        self.oauth_client().request_oauth_token(callback_url.as_str())
    }

    /// The request that exchanges an approved token for an access token, as
    /// the OAuth client of this application makes it.
    pub fn authorize_token(&self, oauth_token: String, oauth_token_secret: String, oauth_verifier: String) -> (req: SignedPost)
        ensures
            req.url@ == crate::auth::access_token_url(),
            req.secrets.consumer_key@ == self.spec_consumer_key(),
            req.secrets.consumer_secret@ == self.spec_consumer_secret(),
            req.secrets.token matches Some(t) && t.token@ == oauth_token@ && t.secret@ == oauth_token_secret@,
            crate::text::pairs_view(req.query@) == seq![("oauth_verifier"@, oauth_verifier@)],
    {
        self.oauth_client().authorize_token(oauth_token.as_str(), oauth_token_secret.as_str(), oauth_verifier.as_str())
    }

    /// A client that acts for the user whose access token is given.
    pub fn create_client(&self, tokens: TwitterOAuthToken) -> (c: TwitterClient)
        ensures
            c.spec_secrets().consumer_key@ == self.spec_consumer_key(),
            c.spec_secrets().consumer_secret@ == self.spec_consumer_secret(),
            c.spec_secrets().token matches Some(t) && t.token@ == tokens.token@ && t.secret@ == tokens.secret@,
    {
        TwitterClient {
            secrets: OAuthSecrets {
                consumer_key: self.consumer_key.clone(),
                consumer_secret: self.consumer_secret.clone(),
                token: Some(tokens),
            },
        }
    }
}

impl TwitterClient {
    pub closed spec fn spec_secrets(&self) -> OAuthSecrets {
        self.secrets
    }

    /// The credentials that this client signs its requests with.
    pub fn secrets(&self) -> (s: &OAuthSecrets)
        ensures
            *s == self.spec_secrets(),
    {
        &self.secrets
    }
}

} // verus!

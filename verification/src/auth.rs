use vstd::prelude::*;
use vstd::string::*;

use crate::http::{body_bytes, body_text, spec_is_success, status_is_success, ResponseBody};
use crate::text::{decode_form, form_pairs, pairs_view};

verus! {

/// An OAuth token and its secret.
#[derive(Debug, Clone)]
pub struct TwitterOAuthToken {
    pub token: String,
    pub secret: String,
}

/// The fields of the provider's reply to a token request.
#[derive(Debug, Clone, Copy, PartialEq, Eq, Structural)]
pub enum TokenField {
    OAuthToken,
    OAuthTokenSecret,
    OAuthCallbackConfirmed,
}

/// Why a form-encoded token reply could not be read.
#[derive(Debug, Clone, Copy, PartialEq, Eq, Structural)]
pub enum FormError {
    /// The body is not form-encoded.
    Malformed,
    /// A field occurs more than once.
    DuplicateField(TokenField),
    /// A field is absent.
    MissingField(TokenField),
    /// `oauth_callback_confirmed` is neither `true` nor `false`.
    InvalidBool,
}

/// Why a token request failed.
#[derive(Debug, Clone)]
pub enum AuthError {
    /// The provider answered with a status other than 2xx; `body` is the
    /// text of its answer.
    Rejected { status: u16, body: String },
    /// The answer could not be read.
    Decode(FormError),
    /// The provider did not confirm the callback address.
    CallbackNotConfirmed,
}

/// The provider's reply to a token request, read.
#[derive(Debug, Clone)]
pub struct TokenResponse {
    pub oauth_token: String,
    pub oauth_token_secret: String,
    pub oauth_callback_confirmed: bool,
}

/// What a token reply holds.
pub struct TokenResponseView {
    pub oauth_token: Seq<char>,
    pub oauth_token_secret: Seq<char>,
    pub oauth_callback_confirmed: bool,
}

impl View for TokenResponse {
    type V = TokenResponseView;

    open spec fn view(&self) -> TokenResponseView {
        TokenResponseView {
            oauth_token: self.oauth_token@,
            oauth_token_secret: self.oauth_token_secret@,
            oauth_callback_confirmed: self.oauth_callback_confirmed,
        }
    }
}

/// The field of the reply that a name stands for, if any; other names are
/// ignored.
pub open spec fn field_of(name: Seq<char>) -> Option<TokenField> {
    if name == "oauth_token"@ {
        Some(TokenField::OAuthToken)
    } else if name == "oauth_token_secret"@ {
        Some(TokenField::OAuthTokenSecret)
    } else if name == "oauth_callback_confirmed"@ {
        Some(TokenField::OAuthCallbackConfirmed)
    } else {
        None
    }
}

/// The boolean that a field's text spells, if any.
pub open spec fn parse_bool(text: Seq<char>) -> Option<bool> {
    if text == "true"@ {
        Some(true)
    } else if text == "false"@ {
        Some(false)
    } else {
        None
    }
}

/// The fields read so far.
pub struct ScanState {
    pub oauth_token: Option<Seq<char>>,
    pub oauth_token_secret: Option<Seq<char>>,
    pub oauth_callback_confirmed: Option<bool>,
}

/// Reads one more pair: a field seen before is a duplicate, a confirmation
/// that is not a boolean is refused, other names are skipped.
pub open spec fn scan_pair(st: ScanState, pair: (Seq<char>, Seq<char>)) -> Result<ScanState, FormError> {
    match field_of(pair.0) {
        None => Ok(st),
        Some(TokenField::OAuthToken) => if st.oauth_token is Some {
            Err(FormError::DuplicateField(TokenField::OAuthToken))
        } else {
            Ok(ScanState { oauth_token: Some(pair.1), ..st })
        },
        Some(TokenField::OAuthTokenSecret) => if st.oauth_token_secret is Some {
            Err(FormError::DuplicateField(TokenField::OAuthTokenSecret))
        } else {
            Ok(ScanState { oauth_token_secret: Some(pair.1), ..st })
        },
        Some(TokenField::OAuthCallbackConfirmed) => if st.oauth_callback_confirmed is Some {
            Err(FormError::DuplicateField(TokenField::OAuthCallbackConfirmed))
        } else {
            match parse_bool(pair.1) {
                Some(b) => Ok(ScanState { oauth_callback_confirmed: Some(b), ..st }),
                None => Err(FormError::InvalidBool),
            }
        },
    }
}

/// Reads the pairs in order, stopping at the first one that is refused.
pub open spec fn scan_pairs(pairs: Seq<(Seq<char>, Seq<char>)>) -> Result<ScanState, FormError>
    decreases pairs.len(),
{
    if pairs.len() == 0 {
        Ok(ScanState { oauth_token: None, oauth_token_secret: None, oauth_callback_confirmed: None })
    } else {
        match scan_pairs(pairs.drop_last()) {
            Err(e) => Err(e),
            Ok(st) => scan_pair(st, pairs.last()),
        }
    }
}

/// The token reply that some pairs hold: read in order, then the first field
/// (in the order `oauth_token`, `oauth_token_secret`,
/// `oauth_callback_confirmed`) that is absent is reported.
pub open spec fn decode_token_pairs(pairs: Seq<(Seq<char>, Seq<char>)>) -> Result<TokenResponseView, FormError> {
    match scan_pairs(pairs) {
        Err(e) => Err(e),
        Ok(st) => if st.oauth_token is None {
            Err(FormError::MissingField(TokenField::OAuthToken))
        } else if st.oauth_token_secret is None {
            Err(FormError::MissingField(TokenField::OAuthTokenSecret))
        } else if st.oauth_callback_confirmed is None {
            Err(FormError::MissingField(TokenField::OAuthCallbackConfirmed))
        } else {
            Ok(TokenResponseView {
                oauth_token: st.oauth_token->0,
                oauth_token_secret: st.oauth_token_secret->0,
                oauth_callback_confirmed: st.oauth_callback_confirmed->0,
            })
        },
    }
}

/// Once a prefix of the pairs is refused, so are all the pairs, for the same
/// reason.
proof fn lemma_scan_error_sticks(pairs: Seq<(Seq<char>, Seq<char>)>, k: int)
    requires
        0 <= k <= pairs.len(),
        scan_pairs(pairs.take(k)) is Err,
    ensures
        scan_pairs(pairs) == scan_pairs(pairs.take(k)),
    decreases pairs.len(),
{
    if k == pairs.len() {
        assert(pairs.take(k) =~= pairs);
    } else {
        assert(pairs.drop_last().take(k) =~= pairs.take(k));
        lemma_scan_error_sticks(pairs.drop_last(), k);
    }
}

/// Reads a token reply from its name/value pairs.
pub fn decode_token_response(pairs: &Vec<(String, String)>) -> (res: Result<TokenResponse, FormError>)
    ensures
        match decode_token_pairs(pairs_view(pairs@)) {
            Ok(r) => res matches Ok(t) && t@ == r,
            Err(e) => res == Err::<TokenResponse, FormError>(e),
        },
{
    let name_token = String::from_str("oauth_token");
    let name_secret = String::from_str("oauth_token_secret");
    let name_confirmed = String::from_str("oauth_callback_confirmed");
    let text_true = String::from_str("true");
    let text_false = String::from_str("false");
    let ghost pv = pairs_view(pairs@);
    let mut token: Option<String> = None;
    let mut secret: Option<String> = None;
    let mut confirmed: Option<bool> = None;
    let n = pairs.len();
    let mut i: usize = 0;
    while i < n
        invariant
            n == pairs@.len(),
            pv == pairs_view(pairs@),
            i <= n,
            name_token@ == "oauth_token"@,
            name_secret@ == "oauth_token_secret"@,
            name_confirmed@ == "oauth_callback_confirmed"@,
            text_true@ == "true"@,
            text_false@ == "false"@,
            scan_pairs(pv.take(i as int)) == Ok::<ScanState, FormError>(ScanState {
                oauth_token: crate::text::opt_view(token),
                oauth_token_secret: crate::text::opt_view(secret),
                oauth_callback_confirmed: confirmed,
            }),
        decreases n - i,
    {
        proof {
            assert(pv.take(i + 1).drop_last() =~= pv.take(i as int));
            assert(pv.take(i + 1).last() == pv[i as int]);
        }
        let name = &pairs[i].0;
        let value = &pairs[i].1;
        if *name == name_token {
            if token.is_some() {
                proof { lemma_scan_error_sticks(pv, i + 1); }
                return Err(FormError::DuplicateField(TokenField::OAuthToken));
            }
            token = Some(value.clone());
        } else if *name == name_secret {
            if secret.is_some() {
                proof { lemma_scan_error_sticks(pv, i + 1); }
                return Err(FormError::DuplicateField(TokenField::OAuthTokenSecret));
            }
            secret = Some(value.clone());
        } else if *name == name_confirmed {
            if confirmed.is_some() {
                proof { lemma_scan_error_sticks(pv, i + 1); }
                return Err(FormError::DuplicateField(TokenField::OAuthCallbackConfirmed));
            }
            if *value == text_true {
                confirmed = Some(true);
            } else if *value == text_false {
                confirmed = Some(false);
            } else {
                proof { lemma_scan_error_sticks(pv, i + 1); }
                return Err(FormError::InvalidBool);
            }
        }
        i = i + 1;
    }
    assert(pv.take(n as int) =~= pv);
    match (token, secret, confirmed) {
        (None, _, _) => Err(FormError::MissingField(TokenField::OAuthToken)),
        (Some(_), None, _) => Err(FormError::MissingField(TokenField::OAuthTokenSecret)),
        (Some(_), Some(_), None) => Err(FormError::MissingField(TokenField::OAuthCallbackConfirmed)),
        (Some(t), Some(s), Some(c)) => Ok(TokenResponse {
            oauth_token: t,
            oauth_token_secret: s,
            oauth_callback_confirmed: c,
        }),
    }
}

} // verus!

verus! {

/// The address that temporary credentials are requested from.
pub open spec fn request_token_url() -> Seq<char> {
    "https://api.twitter.com/oauth/request_token"@
}

/// The address that a verified token is exchanged for an access token at.
pub open spec fn access_token_url() -> Seq<char> {
    "https://api.twitter.com/oauth/access_token"@
}

/// The credentials that a request is signed with (OAuth 1.0a, HMAC-SHA1):
/// the application's key and secret and, once there is one, a token.
#[derive(Debug, Clone)]
pub struct OAuthSecrets {
    pub consumer_key: String,
    pub consumer_secret: String,
    pub token: Option<TwitterOAuthToken>,
}

/// A POST request to be signed with `secrets`, whose parameters go in the
/// query string in the order given.
#[derive(Debug, Clone)]
pub struct SignedPost {
    pub url: String,
    pub secrets: OAuthSecrets,
    pub query: Vec<(String, String)>,
}

/// What the provider's answer to a token request comes to: the status is
/// checked first, and a refusal carries the body's text; otherwise the body's
/// bytes are read as a form-encoded reply, then the callback confirmation is
/// checked.
pub open spec fn token_outcome_ok(status: u16, body: ResponseBody, res: Result<TwitterOAuthToken, AuthError>) -> bool {
    if !spec_is_success(status) {
        res matches Err(AuthError::Rejected { status: s, body: text }) && s == status && text@
            == body_text(body)
    } else {
        match form_pairs(body_bytes(body)) {
            None => res matches Err(AuthError::Decode(FormError::Malformed)),
            Some(pairs) => match decode_token_pairs(pairs) {
                Err(e) => res matches Err(AuthError::Decode(e2)) && e2 == e,
                Ok(r) => if r.oauth_callback_confirmed {
                    res matches Ok(t) && t.token@ == r.oauth_token && t.secret@ == r.oauth_token_secret
                } else {
                    res matches Err(AuthError::CallbackNotConfirmed)
                },
            },
        }
    }
}

/// A client of the provider's OAuth endpoints for one application.
pub struct TwitterOAuthClient {
    app_key: String,
    app_secret: String,
}

impl TwitterOAuthClient {
    pub closed spec fn spec_app_key(&self) -> Seq<char> {
        self.app_key@
    }

    pub closed spec fn spec_app_secret(&self) -> Seq<char> {
        self.app_secret@
    }

    /// A client for the application with the given key and secret.
    pub fn new(app_key: String, app_secret: String) -> (c: Self)
        ensures
            c.spec_app_key() == app_key@,
            c.spec_app_secret() == app_secret@,
    {
        TwitterOAuthClient { app_key, app_secret }
    }

    /// The request for temporary credentials: signed with the application's
    /// key and secret alone, with `oauth_callback` in the query.
    pub fn request_oauth_token(&self, callback_url: &str) -> (req: SignedPost)
        ensures
            req.url@ == request_token_url(),
            req.secrets.consumer_key@ == self.spec_app_key(),
            req.secrets.consumer_secret@ == self.spec_app_secret(),
            req.secrets.token is None,
            pairs_view(req.query@) == seq![("oauth_callback"@, callback_url@)],
    {
        let mut query: Vec<(String, String)> = Vec::new();
        query.push((String::from_str("oauth_callback"), String::from_str(callback_url)));
        assert(pairs_view(query@) =~= seq![("oauth_callback"@, callback_url@)]);
        SignedPost {
            url: String::from_str("https://api.twitter.com/oauth/request_token"),
            secrets: OAuthSecrets {
                consumer_key: self.app_key.clone(),
                consumer_secret: self.app_secret.clone(),
                token: None,
            },
            query,
        }
    }

    /// The request that exchanges a token that the user approved for an
    /// access token: signed with the application's key and secret and the
    /// token, with `oauth_verifier` in the query.
    pub fn authorize_token(&self, oauth_token: &str, oauth_token_secret: &str, oauth_verifier: &str) -> (req: SignedPost)
        ensures
            req.url@ == access_token_url(),
            req.secrets.consumer_key@ == self.spec_app_key(),
            req.secrets.consumer_secret@ == self.spec_app_secret(),
            req.secrets.token matches Some(t) && t.token@ == oauth_token@ && t.secret@ == oauth_token_secret@,
            pairs_view(req.query@) == seq![("oauth_verifier"@, oauth_verifier@)],
    {
        let mut query: Vec<(String, String)> = Vec::new();
        query.push((String::from_str("oauth_verifier"), String::from_str(oauth_verifier)));
        assert(pairs_view(query@) =~= seq![("oauth_verifier"@, oauth_verifier@)]);
        SignedPost {
            url: String::from_str("https://api.twitter.com/oauth/access_token"),
            secrets: OAuthSecrets {
                consumer_key: self.app_key.clone(),
                consumer_secret: self.app_secret.clone(),
                token: Some(TwitterOAuthToken {
                    token: String::from_str(oauth_token),
                    secret: String::from_str(oauth_token_secret),
                }),
            },
            query,
        }
    }

    /// Reads the provider's answer to a token request, given its status and
    /// its body (read as text where the status is not 2xx, as bytes where it
    /// is): a status other than 2xx is an error carrying the body's text;
    /// otherwise the body must be a form-encoded token reply that confirms
    /// the callback, and its token and secret are returned.
    pub fn handle_response(&self, status: u16, body: ResponseBody) -> (res: Result<TwitterOAuthToken, AuthError>)
        ensures
            token_outcome_ok(status, body, res),
    {
        if !status_is_success(status) {
            let text = body.into_text();
            return Err(AuthError::Rejected { status, body: text });
        }
        let bytes = body.into_bytes();
        let pairs = match decode_form(bytes.as_slice()) {
            Some(p) => p,
            None => return Err(AuthError::Decode(FormError::Malformed)),
        };
        let reply = match decode_token_response(&pairs) {
            Ok(r) => r,
            Err(e) => return Err(AuthError::Decode(e)),
        };
        if !reply.oauth_callback_confirmed {
            return Err(AuthError::CallbackNotConfirmed);
        }
        Ok(TwitterOAuthToken { token: reply.oauth_token, secret: reply.oauth_token_secret })
    }
}

} // verus!

verus! {

/// How many of the pairs carry the name `name`.
pub open spec fn occurrences(pairs: Seq<(Seq<char>, Seq<char>)>, name: Seq<char>) -> nat
    decreases pairs.len(),
{
    if pairs.len() == 0 {
        0
    } else {
        occurrences(pairs.drop_last(), name) + if pairs.last().0 == name {
            1nat
        } else {
            0nat
        }
    }
}

/// The value of the last pair named `name`.
pub open spec fn value_of(pairs: Seq<(Seq<char>, Seq<char>)>, name: Seq<char>) -> Seq<char>
    decreases pairs.len(),
{
    if pairs.len() == 0 {
        Seq::empty()
    } else if pairs.last().0 == name {
        pairs.last().1
    } else {
        value_of(pairs.drop_last(), name)
    }
}

/// The field read so far, where its name occurred once.
pub open spec fn read_field(pairs: Seq<(Seq<char>, Seq<char>)>, name: Seq<char>) -> Option<Seq<char>> {
    if occurrences(pairs, name) == 1 {
        Some(value_of(pairs, name))
    } else {
        None
    }
}

/// What reading some pairs in order comes to: refused where a field name
/// occurs twice or the confirmation is no boolean, and otherwise each field
/// that occurs once holds its value.
proof fn lemma_scan_characterized(pairs: Seq<(Seq<char>, Seq<char>)>)
    ensures
        (scan_pairs(pairs) is Ok) <==> (occurrences(pairs, "oauth_token"@) <= 1
            && occurrences(pairs, "oauth_token_secret"@) <= 1
            && occurrences(pairs, "oauth_callback_confirmed"@) <= 1
            && (occurrences(pairs, "oauth_callback_confirmed"@) == 1 ==> parse_bool(
            value_of(pairs, "oauth_callback_confirmed"@),
        ) is Some)),
        scan_pairs(pairs) matches Ok(st) ==> st.oauth_token == read_field(pairs, "oauth_token"@)
            && st.oauth_token_secret == read_field(pairs, "oauth_token_secret"@) && st.oauth_callback_confirmed
            == (if occurrences(pairs, "oauth_callback_confirmed"@) == 1 {
            parse_bool(value_of(pairs, "oauth_callback_confirmed"@))
        } else {
            None
        }),
    decreases pairs.len(),
{
    reveal_strlit("oauth_token");
    reveal_strlit("oauth_token_secret");
    reveal_strlit("oauth_callback_confirmed");
    let tok = "oauth_token"@;
    let sec = "oauth_token_secret"@;
    let conf = "oauth_callback_confirmed"@;
    assert(tok.len() == 11 && sec.len() == 18 && conf.len() == 24);
    assert(tok != sec && tok != conf && sec != conf);
    if pairs.len() > 0 {
        let rest = pairs.drop_last();
        let last = pairs.last();
        lemma_scan_characterized(rest);
        lemma_absent_name_has_no_value(rest, tok);
        lemma_absent_name_has_no_value(rest, sec);
        lemma_absent_name_has_no_value(rest, conf);
        assert(occurrences(pairs, tok) == occurrences(rest, tok) + if last.0 == tok { 1nat } else { 0nat });
        assert(occurrences(pairs, sec) == occurrences(rest, sec) + if last.0 == sec { 1nat } else { 0nat });
        assert(occurrences(pairs, conf) == occurrences(rest, conf) + if last.0 == conf { 1nat } else { 0nat });
        assert(value_of(pairs, tok) == if last.0 == tok { last.1 } else { value_of(rest, tok) });
        assert(value_of(pairs, sec) == if last.0 == sec { last.1 } else { value_of(rest, sec) });
        assert(value_of(pairs, conf) == if last.0 == conf { last.1 } else { value_of(rest, conf) });
        if last.0 == tok {
            assert(field_of(last.0) == Some(TokenField::OAuthToken));
        } else if last.0 == sec {
            assert(field_of(last.0) == Some(TokenField::OAuthTokenSecret));
        } else if last.0 == conf {
            assert(field_of(last.0) == Some(TokenField::OAuthCallbackConfirmed));
        } else {
            assert(field_of(last.0) is None);
        }
    }
}

/// A name that does not occur has the empty value.
proof fn lemma_absent_name_has_no_value(pairs: Seq<(Seq<char>, Seq<char>)>, name: Seq<char>)
    ensures
        occurrences(pairs, name) == 0 ==> value_of(pairs, name) == Seq::<char>::empty(),
    decreases pairs.len(),
{
    if pairs.len() > 0 {
        lemma_absent_name_has_no_value(pairs.drop_last(), name);
    }
}

/// A token reply is read exactly when each of its three fields occurs once
/// and the confirmation is `true` or `false`; the reply then holds the
/// fields' values.
pub proof fn lemma_token_reply_fields(pairs: Seq<(Seq<char>, Seq<char>)>)
    ensures
        (decode_token_pairs(pairs) is Ok) <==> (occurrences(pairs, "oauth_token"@) == 1
            && occurrences(pairs, "oauth_token_secret"@) == 1
            && occurrences(pairs, "oauth_callback_confirmed"@) == 1
            && parse_bool(value_of(pairs, "oauth_callback_confirmed"@)) is Some),
        decode_token_pairs(pairs) matches Ok(r) ==> r.oauth_token == value_of(pairs, "oauth_token"@)
            && r.oauth_token_secret == value_of(pairs, "oauth_token_secret"@) && Some(r.oauth_callback_confirmed)
            == parse_bool(value_of(pairs, "oauth_callback_confirmed"@)),
{
    lemma_scan_characterized(pairs);
}

} // verus!

verus! {

impl TokenField {
    pub open spec fn spec_name(self) -> Seq<char> {
        match self {
            TokenField::OAuthToken => "oauth_token"@,
            TokenField::OAuthTokenSecret => "oauth_token_secret"@,
            TokenField::OAuthCallbackConfirmed => "oauth_callback_confirmed"@,
        }
    }

    /// The field's name in the reply.
    pub fn name(&self) -> (n: String)
        ensures
            n@ == self.spec_name(),
    {
        match self {
            TokenField::OAuthToken => String::from_str("oauth_token"),
            TokenField::OAuthTokenSecret => String::from_str("oauth_token_secret"),
            TokenField::OAuthCallbackConfirmed => String::from_str("oauth_callback_confirmed"),
        }
    }
}

impl FormError {
    pub open spec fn spec_message(self) -> Seq<char> {
        match self {
            FormError::Malformed => "malformed form-encoded body"@,
            FormError::DuplicateField(f) => "duplicate field `"@ + f.spec_name() + "`"@,
            FormError::MissingField(f) => "missing field `"@ + f.spec_name() + "`"@,
            FormError::InvalidBool => "provided string was not `true` or `false`"@,
        }
    }

    /// The text that the error is reported with, in the words serde uses.
    pub fn message(&self) -> (m: String)
        ensures
            m@ == self.spec_message(),
    {
        match self {
            FormError::Malformed => String::from_str("malformed form-encoded body"),
            FormError::DuplicateField(f) => {
                let mut m = String::from_str("duplicate field `");
                let name = f.name();
                m.append(name.as_str());
                m.append("`");
                m
            },
            FormError::MissingField(f) => {
                let mut m = String::from_str("missing field `");
                let name = f.name();
                m.append(name.as_str());
                m.append("`");
                m
            },
            FormError::InvalidBool => String::from_str("provided string was not `true` or `false`"),
        }
    }
}

impl AuthError {
    /// The text that the error is reported with: the provider's own text
    /// for a refusal.
    pub fn message(&self) -> (m: String)
        ensures
            match self {
                AuthError::Rejected { body, .. } => m@ == body@,
                AuthError::Decode(e) => m@ == e.spec_message(),
                AuthError::CallbackNotConfirmed => m@ == "Callback URL not confirmed."@,
            },
    {
        match self {
            AuthError::Rejected { body, .. } => body.clone(),
            AuthError::Decode(e) => e.message(),
            AuthError::CallbackNotConfirmed => String::from_str("Callback URL not confirmed."),
        }
    }
}

} // verus!

verus! {

/// A token is handed back only for a 2xx answer whose form-encoded body
/// names each of the three fields once and confirms the callback with
/// `true`; the token and its secret are the values of their fields.
pub proof fn lemma_accepted_token(status: u16, body: ResponseBody, res: Result<TwitterOAuthToken, AuthError>)
    requires
        token_outcome_ok(status, body, res),
        res is Ok,
    ensures
        spec_is_success(status),
        form_pairs(body_bytes(body)) is Some,
        occurrences(form_pairs(body_bytes(body))->0, "oauth_token"@) == 1,
        occurrences(form_pairs(body_bytes(body))->0, "oauth_token_secret"@) == 1,
        occurrences(form_pairs(body_bytes(body))->0, "oauth_callback_confirmed"@) == 1,
        value_of(form_pairs(body_bytes(body))->0, "oauth_callback_confirmed"@) == "true"@,
        res->Ok_0.token@ == value_of(form_pairs(body_bytes(body))->0, "oauth_token"@),
        res->Ok_0.secret@ == value_of(form_pairs(body_bytes(body))->0, "oauth_token_secret"@),
{
    let pairs = form_pairs(body_bytes(body))->0;
    lemma_token_reply_fields(pairs);
    reveal_strlit("true");
    reveal_strlit("false");
}

} // verus!

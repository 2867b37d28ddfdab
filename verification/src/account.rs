use vstd::prelude::*;
use vstd::string::*;

use crate::http::{spec_is_error, status_is_error};
use crate::text::pairs_view;

verus! {

/// The mail provider's login page and form.
pub open spec fn login_url() -> Seq<char> {
    "https://cock.li/login"@
}

/// The mail provider's page and form for changing the password.
pub open spec fn change_password_url() -> Seq<char> {
    "https://cock.li/user/changepass"@
}

/// The CSS selector of the hidden field that carries a form's token.
pub open spec fn token_selector() -> Seq<char> {
    "input[type='hidden'][name='_token']"@
}

/// For a page, a CSS selector and an attribute name: `Err` with the message
/// where the selector does not parse, `Ok(None)` where no element of the
/// page matches it, and otherwise the first matching element's attribute,
/// if it has one.
pub uninterp spec fn html_first_attr(html: Seq<char>, selector: Seq<char>, attr: Seq<char>) -> Result<
    Option<Option<Seq<char>>>,
    Seq<char>,
>;

/// Parses `html` as a document with `scraper::Html::parse_document`, parses
/// `selector` with `scraper::Selector::parse`, and reads the attribute `attr`
/// of the first element that `Html::select` yields.
/// Claimed: the result is `html_first_attr` of the three arguments, the
/// selector's error given by its `Display` text.
#[verifier::external_body]
fn select_first_attr(html: &str, selector: &str, attr: &str) -> (res: Result<Option<Option<String>>, String>)
    ensures
        match res {
            Ok(None) => html_first_attr(html@, selector@, attr@) == Ok::<Option<Option<Seq<char>>>, Seq<char>>(None),
            Ok(Some(None)) => html_first_attr(html@, selector@, attr@) == Ok::<Option<Option<Seq<char>>>, Seq<char>>(Some(None)),
            Ok(Some(Some(v))) => html_first_attr(html@, selector@, attr@) == Ok::<Option<Option<Seq<char>>>, Seq<char>>(Some(Some(v@))),
            Err(m) => html_first_attr(html@, selector@, attr@) == Err::<Option<Option<Seq<char>>>, Seq<char>>(m@),
        },
{
    let parsed = match scraper::Selector::parse(selector) {
        Ok(s) => s,
        Err(e) => return Err(format!("{}", e)),
    };
    let document = scraper::Html::parse_document(html);
    let element = match document.select(&parsed).next() {
        Some(e) => e,
        None => return Ok(None),
    };
    match element.value().attr(attr) {
        Some(v) => Ok(Some(Some(v.to_string()))),
        None => Ok(Some(None)),
    }
}

/// Why changing the mail password failed.
#[derive(Debug, Clone)]
pub enum AccountError {
    /// A request could not be sent or its answer not read.
    Transport(String),
    /// The site answered with a 4xx or 5xx status; `message` is the HTTP
    /// client's text for such an answer (status, reason and address).
    Status { status: u16, message: String },
    /// The token selector did not parse.
    Selector(String),
    /// The page holds no token field.
    TokenElementNotFound,
    /// The token field has no value.
    TokenValueNotFound,
    /// An event came that the current step does not wait for.
    UnexpectedEvent,
}

pub enum AccountErrorView {
    Transport(Seq<char>),
    Status(u16, Seq<char>),
    Selector(Seq<char>),
    TokenElementNotFound,
    TokenValueNotFound,
    UnexpectedEvent,
}

impl View for AccountError {
    type V = AccountErrorView;

    open spec fn view(&self) -> AccountErrorView {
        match self {
            AccountError::Transport(m) => AccountErrorView::Transport(m@),
            AccountError::Status { status, message } => AccountErrorView::Status(*status, message@),
            AccountError::Selector(m) => AccountErrorView::Selector(m@),
            AccountError::TokenElementNotFound => AccountErrorView::TokenElementNotFound,
            AccountError::TokenValueNotFound => AccountErrorView::TokenValueNotFound,
            AccountError::UnexpectedEvent => AccountErrorView::UnexpectedEvent,
        }
    }
}

/// The token that a page's form carries, or why there is none.
pub open spec fn form_token(html: Seq<char>) -> Result<Seq<char>, AccountErrorView> {
    match html_first_attr(html, token_selector(), "value"@) {
        Err(m) => Err(AccountErrorView::Selector(m)),
        Ok(None) => Err(AccountErrorView::TokenElementNotFound),
        Ok(Some(None)) => Err(AccountErrorView::TokenValueNotFound),
        Ok(Some(Some(v))) => Ok(v),
    }
}

/// Reads the token of the form on a page: the `value` of the first hidden
/// input named `_token`.
pub fn extract_form_token(html: &str) -> (res: Result<String, AccountError>)
    ensures
        match form_token(html@) {
            Ok(t) => res matches Ok(v) && v@ == t,
            Err(e) => res matches Err(f) && f@ == e,
        },
{
    let selector = String::from_str("input[type='hidden'][name='_token']");
    let attr = String::from_str("value");
    match select_first_attr(html, selector.as_str(), attr.as_str()) {
        Err(m) => Err(AccountError::Selector(m)),
        Ok(None) => Err(AccountError::TokenElementNotFound),
        Ok(Some(None)) => Err(AccountError::TokenValueNotFound),
        Ok(Some(Some(v))) => Ok(v),
    }
}

/// The login form: the token, the address and the password, in the order
/// of their names.
pub open spec fn login_form(token: Seq<char>, email: Seq<char>, password: Seq<char>) -> Seq<(Seq<char>, Seq<char>)> {
    seq![("_token"@, token), ("email"@, email), ("password"@, password)]
}

/// The form that changes the password: the token, the current password and
/// the new one twice, in the order of their names.
pub open spec fn change_form(token: Seq<char>, current: Seq<char>, new_password: Seq<char>) -> Seq<(Seq<char>, Seq<char>)> {
    seq![
        ("_token"@, token),
        ("current_password"@, current),
        ("password"@, new_password),
        ("password_confirmation"@, new_password),
    ]
}

/// The fields of the login form.
pub fn login_form_fields(token: &str, email: &str, password: &str) -> (form: Vec<(String, String)>)
    ensures
        pairs_view(form@) == login_form(token@, email@, password@),
{
    let mut form: Vec<(String, String)> = Vec::new();
    form.push((String::from_str("_token"), String::from_str(token)));
    form.push((String::from_str("email"), String::from_str(email)));
    form.push((String::from_str("password"), String::from_str(password)));
    assert(pairs_view(form@) =~= login_form(token@, email@, password@));
    form
}

/// The fields of the form that changes the password.
pub fn change_password_form_fields(token: &str, current_password: &str, new_password: &str) -> (form: Vec<(String, String)>)
    ensures
        pairs_view(form@) == change_form(token@, current_password@, new_password@),
{
    let mut form: Vec<(String, String)> = Vec::new();
    form.push((String::from_str("_token"), String::from_str(token)));
    form.push((String::from_str("current_password"), String::from_str(current_password)));
    form.push((String::from_str("password"), String::from_str(new_password)));
    form.push((String::from_str("password_confirmation"), String::from_str(new_password)));
    assert(pairs_view(form@) =~= change_form(token@, current_password@, new_password@));
    form
}

} // verus!

verus! {

/// Where a password change stands: which answer it waits for next.
#[derive(Debug, Clone)]
pub enum Phase {
    AwaitLoginPage,
    AwaitLoginResult,
    AwaitChangePage,
    AwaitNewPassword { token: String },
    AwaitChangeResult { new_password: String },
    Done,
    Failed,
}

/// What the outside world reports back after an action.
#[derive(Debug, Clone)]
pub enum Event {
    /// The text of the page that was fetched.
    Page(String),
    /// The status of the answer to a form that was posted, and the HTTP
    /// client's text for the answer where that status is a 4xx or 5xx one.
    Posted { status: u16, refusal: String },
    /// The freshly generated password that was asked for.
    NewPassword(String),
    /// The request could not be sent or its answer not read.
    TransportFailed(String),
}

/// What is to be done next.
#[derive(Debug)]
pub enum Action {
    /// Fetch a page.
    Get { url: String },
    /// Post a form-encoded form, fields in the order given.
    PostForm { url: String, form: Vec<(String, String)> },
    /// Generate a new random password.
    ChooseNewPassword,
    /// The change is over: the new password, or why it failed.
    Finished(Result<String, AccountError>),
}

pub enum PhaseView {
    AwaitLoginPage,
    AwaitLoginResult,
    AwaitChangePage,
    AwaitNewPassword(Seq<char>),
    AwaitChangeResult(Seq<char>),
    Done,
    Failed,
}

pub enum EventView {
    Page(Seq<char>),
    Posted(u16, Seq<char>),
    NewPassword(Seq<char>),
    TransportFailed(Seq<char>),
}

pub enum ActionView {
    Get(Seq<char>),
    PostForm(Seq<char>, Seq<(Seq<char>, Seq<char>)>),
    ChooseNewPassword,
    Finished(Result<Seq<char>, AccountErrorView>),
}

impl View for Phase {
    type V = PhaseView;

    open spec fn view(&self) -> PhaseView {
        match self {
            Phase::AwaitLoginPage => PhaseView::AwaitLoginPage,
            Phase::AwaitLoginResult => PhaseView::AwaitLoginResult,
            Phase::AwaitChangePage => PhaseView::AwaitChangePage,
            Phase::AwaitNewPassword { token } => PhaseView::AwaitNewPassword(token@),
            Phase::AwaitChangeResult { new_password } => PhaseView::AwaitChangeResult(new_password@),
            Phase::Done => PhaseView::Done,
            Phase::Failed => PhaseView::Failed,
        }
    }
}

impl View for Event {
    type V = EventView;

    open spec fn view(&self) -> EventView {
        match self {
            Event::Page(html) => EventView::Page(html@),
            Event::Posted { status, refusal } => EventView::Posted(*status, refusal@),
            Event::NewPassword(p) => EventView::NewPassword(p@),
            Event::TransportFailed(m) => EventView::TransportFailed(m@),
        }
    }
}

impl View for Action {
    type V = ActionView;

    open spec fn view(&self) -> ActionView {
        match self {
            Action::Get { url } => ActionView::Get(url@),
            Action::PostForm { url, form } => ActionView::PostForm(url@, pairs_view(form@)),
            Action::ChooseNewPassword => ActionView::ChooseNewPassword,
            Action::Finished(Ok(p)) => ActionView::Finished(Ok(p@)),
            Action::Finished(Err(e)) => ActionView::Finished(Err(e@)),
        }
    }
}

/// The steps of a password change: fetch the login page, post the login
/// form with its token, fetch the change page, have a new password
/// generated, post the change form with that page's token, and report the
/// new password. A failure at any step ends the change with its error;
/// an event that the step does not wait for ends it too.
pub open spec fn change_step(email: Seq<char>, current: Seq<char>, phase: PhaseView, event: EventView) -> (PhaseView, ActionView) {
    match (phase, event) {
        (PhaseView::Done, _) => (PhaseView::Done, ActionView::Finished(Err(AccountErrorView::UnexpectedEvent))),
        (PhaseView::Failed, _) => (PhaseView::Failed, ActionView::Finished(Err(AccountErrorView::UnexpectedEvent))),
        (_, EventView::TransportFailed(m)) => (PhaseView::Failed, ActionView::Finished(Err(AccountErrorView::Transport(m)))),
        (PhaseView::AwaitLoginPage, EventView::Page(html)) => match form_token(html) {
            Err(e) => (PhaseView::Failed, ActionView::Finished(Err(e))),
            Ok(t) => (PhaseView::AwaitLoginResult, ActionView::PostForm(login_url(), login_form(t, email, current))),
        },
        (PhaseView::AwaitLoginResult, EventView::Posted(status, refusal)) => if spec_is_error(status) {
            (PhaseView::Failed, ActionView::Finished(Err(AccountErrorView::Status(status, refusal))))
        } else {
            (PhaseView::AwaitChangePage, ActionView::Get(change_password_url()))
        },
        (PhaseView::AwaitChangePage, EventView::Page(html)) => match form_token(html) {
            Err(e) => (PhaseView::Failed, ActionView::Finished(Err(e))),
            Ok(t) => (PhaseView::AwaitNewPassword(t), ActionView::ChooseNewPassword),
        },
        (PhaseView::AwaitNewPassword(t), EventView::NewPassword(p)) => (
            PhaseView::AwaitChangeResult(p),
            ActionView::PostForm(change_password_url(), change_form(t, current, p)),
        ),
        (PhaseView::AwaitChangeResult(p), EventView::Posted(status, refusal)) => if spec_is_error(status) {
            (PhaseView::Failed, ActionView::Finished(Err(AccountErrorView::Status(status, refusal))))
        } else {
            (PhaseView::Done, ActionView::Finished(Ok(p)))
        },
        _ => (PhaseView::Failed, ActionView::Finished(Err(AccountErrorView::UnexpectedEvent))),
    }
}

/// A change of a mail account's password, in progress.
pub struct PasswordChange {
    email: String,
    current_password: String,
    phase: Phase,
}

impl PasswordChange {
    pub closed spec fn spec_email(&self) -> Seq<char> {
        self.email@
    }

    pub closed spec fn spec_current_password(&self) -> Seq<char> {
        self.current_password@
    }

    pub closed spec fn spec_phase(&self) -> PhaseView {
        self.phase@
    }

    /// Where the change stands.
    pub fn phase(&self) -> (p: &Phase)
        ensures
            p@ == self.spec_phase(),
    {
        &self.phase
    }

    /// Takes the change one step further on an event: the next phase and the
    /// action to perform are those of `change_step`.
    pub fn step(&mut self, event: Event) -> (action: Action)
        ensures
            final(self).spec_email() == old(self).spec_email(),
            final(self).spec_current_password() == old(self).spec_current_password(),
            (final(self).spec_phase(), action@) == change_step(
                old(self).spec_email(),
                old(self).spec_current_password(),
                old(self).spec_phase(),
                event@,
            ),
    {
        let mut phase = Phase::Failed;
        std::mem::swap(&mut phase, &mut self.phase);
        let ghost old_phase = phase@;
        match phase {
            Phase::Done => {
                self.phase = Phase::Done;
                return Action::Finished(Err(AccountError::UnexpectedEvent));
            },
            Phase::Failed => {
                return Action::Finished(Err(AccountError::UnexpectedEvent));
            },
            _ => {},
        }
        match (phase, event) {
            (_, Event::TransportFailed(m)) => Action::Finished(Err(AccountError::Transport(m))),
            (Phase::AwaitLoginPage, Event::Page(html)) => match extract_form_token(html.as_str()) {
                Err(e) => Action::Finished(Err(e)),
                Ok(t) => {
                    self.phase = Phase::AwaitLoginResult;
                    Action::PostForm {
                        url: String::from_str("https://cock.li/login"),
                        form: login_form_fields(t.as_str(), self.email.as_str(), self.current_password.as_str()),
                    }
                },
            },
            (Phase::AwaitLoginResult, Event::Posted { status, refusal }) => if status_is_error(status) {
                Action::Finished(Err(AccountError::Status { status, message: refusal }))
            } else {
                self.phase = Phase::AwaitChangePage;
                Action::Get { url: String::from_str("https://cock.li/user/changepass") }
            },
            (Phase::AwaitChangePage, Event::Page(html)) => match extract_form_token(html.as_str()) {
                Err(e) => Action::Finished(Err(e)),
                Ok(t) => {
                    self.phase = Phase::AwaitNewPassword { token: t };
                    Action::ChooseNewPassword
                },
            },
            (Phase::AwaitNewPassword { token }, Event::NewPassword(p)) => {
                let form = change_password_form_fields(token.as_str(), self.current_password.as_str(), p.as_str());
                self.phase = Phase::AwaitChangeResult { new_password: p };
                Action::PostForm { url: String::from_str("https://cock.li/user/changepass"), form }
            },
            (Phase::AwaitChangeResult { new_password }, Event::Posted { status, refusal }) => if status_is_error(status) {
                Action::Finished(Err(AccountError::Status { status, message: refusal }))
            } else {
                self.phase = Phase::Done;
                Action::Finished(Ok(new_password))
            },
            _ => Action::Finished(Err(AccountError::UnexpectedEvent)),
        }
    }
}

/// Starts changing the password of the mail account `email`, whose password
/// is now `current_password`: the change waits for the login page, which is
/// to be fetched first.
pub fn update_email_password(email: &str, current_password: &str) -> (res: (PasswordChange, Action))
    ensures
        res.0.spec_email() == email@,
        res.0.spec_current_password() == current_password@,
        res.0.spec_phase() == PhaseView::AwaitLoginPage,
        res.1@ == ActionView::Get(login_url()),
{
    (
        PasswordChange {
            email: String::from_str(email),
            current_password: String::from_str(current_password),
            phase: Phase::AwaitLoginPage,
        },
        Action::Get { url: String::from_str("https://cock.li/login") },
    )
}

} // verus!

verus! {

/// The phase reached and the actions asked for when the events come one
/// after another.
pub open spec fn run_events(email: Seq<char>, current: Seq<char>, phase: PhaseView, events: Seq<EventView>) -> (
    PhaseView,
    Seq<ActionView>,
)
    decreases events.len(),
{
    if events.len() == 0 {
        (phase, Seq::empty())
    } else {
        let (mid, actions) = run_events(email, current, phase, events.drop_last());
        let (next, action) = change_step(email, current, mid, events.last());
        (next, actions.push(action))
    }
}

/// The password that a change reports is the one it posted, twice, in the
/// change form, together with the change page's token and the current
/// password.
pub proof fn lemma_new_password_posted_then_reported(
    email: Seq<char>,
    current: Seq<char>,
    token: Seq<char>,
    new_password: Seq<char>,
    status: u16,
    refusal: Seq<char>,
)
    requires
        !spec_is_error(status),
    ensures
        change_step(email, current, PhaseView::AwaitNewPassword(token), EventView::NewPassword(new_password)) == (
        PhaseView::AwaitChangeResult(new_password),
        ActionView::PostForm(change_password_url(), change_form(token, current, new_password)),
        ),
        change_step(email, current, PhaseView::AwaitChangeResult(new_password), EventView::Posted(status, refusal)) == (
        PhaseView::Done,
        ActionView::Finished(Ok(new_password)),
        ),
{
}

/// Whether a posted form is one the change may send: the login form, with
/// the token of the login page just read, or the change form, with the
/// change page's token and the new password just chosen.
pub open spec fn expected_post(
    email: Seq<char>,
    current: Seq<char>,
    phase: PhaseView,
    event: EventView,
    url: Seq<char>,
    form: Seq<(Seq<char>, Seq<char>)>,
) -> bool {
    match (phase, event) {
        (PhaseView::AwaitLoginPage, EventView::Page(html)) => url == login_url() && form_token(html) is Ok
            && form == login_form(form_token(html)->Ok_0, email, current),
        (PhaseView::AwaitNewPassword(t), EventView::NewPassword(p)) => url == change_password_url() && form
            == change_form(t, current, p),
        _ => false,
    }
}

/// The credentials leave only in the two forms of the site: every form a
/// change posts is the login form with the login page's token or the
/// change form with the change page's token.
pub proof fn lemma_forms_posted(email: Seq<char>, current: Seq<char>, phase: PhaseView, event: EventView)
    ensures
        change_step(email, current, phase, event).1 matches ActionView::PostForm(url, form) ==> expected_post(
            email,
            current,
            phase,
            event,
            url,
            form,
        ),
{
}

/// A change that is over stays over: every later event is answered as
/// unexpected and the phase does not move.
pub proof fn lemma_over_is_final(email: Seq<char>, current: Seq<char>, phase: PhaseView, event: EventView)
    requires
        phase is Done || phase is Failed,
    ensures
        change_step(email, current, phase, event) == (
        phase,
        ActionView::Finished(Err(AccountErrorView::UnexpectedEvent)),
        ),
{
}

/// A change reports success only as it reaches `Done`, and reports the
/// password it waited on; every failure it reports leaves it over.
pub proof fn lemma_finish(email: Seq<char>, current: Seq<char>, phase: PhaseView, event: EventView)
    ensures
        change_step(email, current, phase, event).1 matches ActionView::Finished(Ok(p)) ==> (phase
            == PhaseView::AwaitChangeResult(p) && change_step(email, current, phase, event).0 is Done),
        change_step(email, current, phase, event).1 matches ActionView::Finished(Err(_)) ==> (change_step(
            email,
            current,
            phase,
            event,
        ).0 is Done || change_step(email, current, phase, event).0 is Failed),
{
}

/// A change that meets no failure: it logs in with the login page's token,
/// fetches the change page, asks for a new password, posts the change form
/// with that page's token, and reports the new password.
pub proof fn lemma_successful_run(
    email: Seq<char>,
    current: Seq<char>,
    login_page: Seq<char>,
    change_page: Seq<char>,
    login_status: u16,
    login_refusal: Seq<char>,
    change_status: u16,
    change_refusal: Seq<char>,
    new_password: Seq<char>,
)
    requires
        form_token(login_page) is Ok,
        form_token(change_page) is Ok,
        !spec_is_error(login_status),
        !spec_is_error(change_status),
    ensures
        run_events(
            email,
            current,
            PhaseView::AwaitLoginPage,
            seq![
                EventView::Page(login_page),
                EventView::Posted(login_status, login_refusal),
                EventView::Page(change_page),
                EventView::NewPassword(new_password),
                EventView::Posted(change_status, change_refusal),
            ],
        ) == (
        PhaseView::Done,
        seq![
            ActionView::PostForm(login_url(), login_form(form_token(login_page)->Ok_0, email, current)),
            ActionView::Get(change_password_url()),
            ActionView::ChooseNewPassword,
            ActionView::PostForm(
                change_password_url(),
                change_form(form_token(change_page)->Ok_0, current, new_password),
            ),
            ActionView::Finished(Ok(new_password)),
        ],
        ),
{
    let events = seq![
        EventView::Page(login_page),
        EventView::Posted(login_status, login_refusal),
        EventView::Page(change_page),
        EventView::NewPassword(new_password),
        EventView::Posted(change_status, change_refusal),
    ];
    let start = PhaseView::AwaitLoginPage;
    reveal_with_fuel(run_events, 6);
    assert(events.take(1).drop_last() =~= Seq::<EventView>::empty());
    assert(events.take(2).drop_last() =~= events.take(1));
    assert(events.take(3).drop_last() =~= events.take(2));
    assert(events.take(4).drop_last() =~= events.take(3));
    assert(events.drop_last() =~= events.take(4));
    assert(run_events(email, current, start, events.take(1)).1 =~= seq![
        ActionView::PostForm(login_url(), login_form(form_token(login_page)->Ok_0, email, current)),
    ]);
    assert(run_events(email, current, start, events.take(2)).1 =~= seq![
        ActionView::PostForm(login_url(), login_form(form_token(login_page)->Ok_0, email, current)),
        ActionView::Get(change_password_url()),
    ]);
    assert(run_events(email, current, start, events.take(3)).1 =~= seq![
        ActionView::PostForm(login_url(), login_form(form_token(login_page)->Ok_0, email, current)),
        ActionView::Get(change_password_url()),
        ActionView::ChooseNewPassword,
    ]);
    assert(run_events(email, current, start, events.take(4)).1 =~= seq![
        ActionView::PostForm(login_url(), login_form(form_token(login_page)->Ok_0, email, current)),
        ActionView::Get(change_password_url()),
        ActionView::ChooseNewPassword,
        ActionView::PostForm(
            change_password_url(),
            change_form(form_token(change_page)->Ok_0, current, new_password),
        ),
    ]);
}

} // verus!

verus! {

impl AccountError {
    /// The text that the error is reported with.
    pub fn message(&self) -> (m: String)
        ensures
            match self {
                AccountError::Transport(t) => m@ == t@,
                AccountError::Status { message, .. } => m@ == message@,
                AccountError::Selector(t) => m@ == "Selector parsing error: "@ + t@,
                AccountError::TokenElementNotFound => m@ == "Token element not found"@,
                AccountError::TokenValueNotFound => m@ == "Token value not found"@,
                AccountError::UnexpectedEvent => m@ == "unexpected event"@,
            },
    {
        match self {
            AccountError::Transport(t) => t.clone(),
            AccountError::Status { message, .. } => message.clone(),
            AccountError::Selector(t) => {
                let mut m = String::from_str("Selector parsing error: ");
                m.append(t.as_str());
                m
            },
            AccountError::TokenElementNotFound => String::from_str("Token element not found"),
            AccountError::TokenValueNotFound => String::from_str("Token value not found"),
            AccountError::UnexpectedEvent => String::from_str("unexpected event"),
        }
    }
}

} // verus!

verus! {

/// A form post that the site answers with a 4xx or 5xx status ends the
/// change as failed, with that status and the HTTP client's text, whether
/// it was the login form or the change form; no new password is reported.
pub proof fn lemma_refused_post_fails(
    email: Seq<char>,
    current: Seq<char>,
    new_password: Seq<char>,
    status: u16,
    refusal: Seq<char>,
)
    requires
        400 <= status < 600,
    ensures
        change_step(email, current, PhaseView::AwaitChangeResult(new_password), EventView::Posted(status, refusal))
            == (PhaseView::Failed, ActionView::Finished(Err(AccountErrorView::Status(status, refusal)))),
        change_step(email, current, PhaseView::AwaitLoginResult, EventView::Posted(status, refusal)) == (
        PhaseView::Failed,
        ActionView::Finished(Err(AccountErrorView::Status(status, refusal))),
        ),
{
}

/// A new password is reported only on an answer to the change form whose
/// status is neither 4xx nor 5xx, and it is the password that form carried.
pub proof fn lemma_success_only_after_accepted_change(
    email: Seq<char>,
    current: Seq<char>,
    phase: PhaseView,
    event: EventView,
)
    ensures
        change_step(email, current, phase, event).1 matches ActionView::Finished(Ok(p)) ==> (phase
            == PhaseView::AwaitChangeResult(p) && event is Posted && !(400 <= event->Posted_0 && event->Posted_0
            < 600)),
{
}

/// The token read from a page is the `value` of the first element that the
/// selector `input[type='hidden'][name='_token']` picks out, and every way of
/// not finding one is an error.
pub proof fn lemma_token_is_hidden_token_field(html: Seq<char>)
    ensures
        (form_token(html) is Ok) <==> (html_first_attr(html, "input[type='hidden'][name='_token']"@, "value"@)
            is Ok && html_first_attr(html, "input[type='hidden'][name='_token']"@, "value"@)->Ok_0 is Some
            && html_first_attr(html, "input[type='hidden'][name='_token']"@, "value"@)->Ok_0->0 is Some),
        form_token(html) is Ok ==> html_first_attr(html, "input[type='hidden'][name='_token']"@, "value"@)
            == Ok::<Option<Option<Seq<char>>>, Seq<char>>(Some(Some(form_token(html)->Ok_0))),
{
}

} // verus!

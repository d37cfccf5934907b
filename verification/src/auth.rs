use vstd::prelude::*;
use crate::error::{Error, ErrorView, Missing};
use crate::html::{select, selected, Element};
use crate::http::{push_header, Body, BodyView, Method, Request, RequestView};
use crate::pairs::{lemma_put_keeps_distinct, names_distinct, put, store};
use crate::site::{LANDING_URL, LOGGED_IN_SELECTOR, LOGIN_INPUT_SELECTOR, LOGIN_URL, USER_AGENT};
use crate::text::{lowercase, to_lowercase};

verus! {

/// The name of the login form's field for the account.
pub const USER_FIELD: &'static str = "user_id";

/// The name of the login form's field for the password.
pub const PASSWORD_FIELD: &'static str = "pw";

/// How the client that carries a session is to be set up: it keeps cookies
/// from one call to the next, names itself as a fixed browser, and takes a
/// certificate chain that does not check.
#[derive(Clone, Debug, PartialEq, Eq)]
pub struct ClientSettings {
    pub cookie_store: bool,
    pub user_agent: String,
    pub accept_invalid_certs: bool,
}

/// The two attributes of an element that was read for its name and value.
pub open spec fn named_value(element: (Seq<Option<Seq<char>>>, Seq<Seq<char>>)) -> Option<
    (Seq<char>, Seq<char>),
> {
    if element.0.len() >= 2 {
        match (element.0[0], element.0[1]) {
            (Some(name), Some(value)) => Some((name, value)),
            _ => None,
        }
    } else {
        None
    }
}

/// The fields that a page's inputs fill in: every input that has both a
/// name and a value sets its name to its value, in page order, so that of
/// two inputs with one name the later one wins.
pub open spec fn inputs_of(inputs: Seq<(Seq<Option<Seq<char>>>, Seq<Seq<char>>)>) -> Seq<
    (Seq<char>, Seq<char>),
>
    decreases inputs.len(),
{
    if inputs.len() == 0 {
        Seq::empty()
    } else {
        let before = inputs_of(inputs.drop_last());
        match named_value(inputs.last()) {
            Some((name, value)) => put(before, name, value),
            None => before,
        }
    }
}

/// Among the fields that a page's inputs fill in, no name occurs twice.
pub proof fn lemma_inputs_distinct(inputs: Seq<(Seq<Option<Seq<char>>>, Seq<Seq<char>>)>)
    ensures
        names_distinct(inputs_of(inputs)),
    decreases inputs.len(),
{
    if inputs.len() > 0 {
        lemma_inputs_distinct(inputs.drop_last());
        match named_value(inputs.last()) {
            Some((name, value)) => {
                lemma_put_keeps_distinct(inputs_of(inputs.drop_last()), name, value);
            },
            None => {},
        }
    }
}

/// The attributes that the inputs of the login form are read with.
pub open spec fn input_attrs() -> Seq<Seq<char>> {
    seq!["name"@, "value"@]
}

/// The form that logs in: the landing page's hidden inputs, with the
/// account in lower case and the password set over them.
pub open spec fn login_form(
    inputs: Seq<(Seq<Option<Seq<char>>>, Seq<Seq<char>>)>,
    user_id: Seq<char>,
    user_pw: Seq<char>,
) -> Seq<(Seq<char>, Seq<char>)> {
    put(put(inputs_of(inputs), USER_FIELD@, lowercase(user_id)), PASSWORD_FIELD@, user_pw)
}

pub enum LoginPhaseView {
    /// Waiting for the landing page that holds the login form.
    Landing,
    /// Waiting for the answer to the posted form.
    Submitting(Seq<(Seq<char>, Seq<char>)>),
    /// Waiting for the landing page that shows whether the login took.
    Checking,
}

pub struct LoginView {
    pub user_id: Seq<char>,
    pub user_pw: Seq<char>,
    pub phase: LoginPhaseView,
}

pub enum LoginEventView {
    Page(Seq<char>),
    Failed(Seq<char>),
}

pub enum LoginStepView {
    Continue(LoginView),
    Done(Result<bool, ErrorView>),
}

/// A login at its start.
pub open spec fn login_begun(user_id: Seq<char>, user_pw: Seq<char>) -> LoginView {
    LoginView { user_id, user_pw, phase: LoginPhaseView::Landing }
}

pub open spec fn landing_headers() -> Seq<(Seq<char>, Seq<char>)> {
    seq![("Referer"@, LANDING_URL@)]
}

pub open spec fn submit_headers() -> Seq<(Seq<char>, Seq<char>)> {
    seq![
        ("X-Requested-With"@, "XMLHttpRequest"@),
        ("Referer"@, LANDING_URL@),
        ("Content-Type"@, "application/x-www-form-urlencoded; charset=UTF-8"@),
    ]
}

/// The request a login waits for the answer to.
pub open spec fn login_request(login: LoginView) -> RequestView {
    match login.phase {
        LoginPhaseView::Landing => RequestView {
            method: Method::Get,
            url: LANDING_URL@,
            headers: landing_headers(),
            body: BodyView::Empty,
        },
        LoginPhaseView::Submitting(form) => RequestView {
            method: Method::Post,
            url: LOGIN_URL@,
            headers: submit_headers(),
            body: BodyView::Form(form),
        },
        LoginPhaseView::Checking => RequestView {
            method: Method::Get,
            url: LANDING_URL@,
            headers: Seq::empty(),
            body: BodyView::Empty,
        },
    }
}

/// Whether a page shows the mark of a logged-in visitor; `None` where the
/// mark's selector is no selector.
pub open spec fn shows_login(page: Seq<char>) -> Option<bool> {
    match selected(page, LOGGED_IN_SELECTOR@, Seq::empty()) {
        Some(marks) => Some(marks.len() > 0),
        None => None,
    }
}

/// The login after the request it waited for has ended with `event`.
pub open spec fn login_advance(login: LoginView, event: LoginEventView) -> LoginStepView {
    match event {
        LoginEventView::Failed(text) => LoginStepView::Done(Err(ErrorView::Transport(text))),
        LoginEventView::Page(page) => match login.phase {
            LoginPhaseView::Landing => match selected(page, LOGIN_INPUT_SELECTOR@, input_attrs()) {
                Some(inputs) => LoginStepView::Continue(
                    LoginView {
                        phase: LoginPhaseView::Submitting(
                            login_form(inputs, login.user_id, login.user_pw),
                        ),
                        ..login
                    },
                ),
                None => LoginStepView::Done(Err(ErrorView::Parse(Missing::Selector))),
            },
            LoginPhaseView::Submitting(_) => LoginStepView::Continue(
                LoginView { phase: LoginPhaseView::Checking, ..login },
            ),
            LoginPhaseView::Checking => match shows_login(page) {
                Some(shown) => LoginStepView::Done(Ok(shown)),
                None => LoginStepView::Done(Err(ErrorView::Parse(Missing::Selector))),
            },
        },
    }
}

/// The identity that a session holds after a step of a login: the account
/// in lower case where the step confirmed the login, and what it held
/// before in every other case.
pub open spec fn identity_after(identity: Seq<char>, login: LoginView, step: LoginStepView) -> Seq<
    char,
> {
    if step == LoginStepView::Done(Ok(true)) {
        lowercase(login.user_id)
    } else {
        identity
    }
}

/// The fields that a page's inputs fill in, the inputs read with their
/// name and value.
pub fn form_inputs_from(inputs: &Vec<Element>) -> (fields: Vec<(String, String)>)
    ensures
        fields.deep_view() == inputs_of(inputs.deep_view()),
{
    let mut fields: Vec<(String, String)> = Vec::new();
    let mut i: usize = 0;
    assert(fields.deep_view() =~= Seq::empty());
    while i < inputs.len()
        invariant
            i <= inputs.len(),
            fields.deep_view() == inputs_of(inputs.deep_view().take(i as int)),
        decreases inputs.len() - i,
    {
        assert(inputs.deep_view().take(i + 1).drop_last() =~= inputs.deep_view().take(i as int));
        let input = &inputs[i];
        if input.attrs.len() >= 2 {
            match (&input.attrs[0], &input.attrs[1]) {
                (Some(name), Some(value)) => {
                    store(&mut fields, name.clone(), value.clone());
                },
                _ => {},
            }
        }
        i += 1;
    }
    assert(inputs.deep_view().take(i as int) =~= inputs.deep_view());
    fields
}

/// Whether any element was found.
pub fn any_found(marks: &Vec<Element>) -> (r: bool)
    ensures
        r == (marks.deep_view().len() > 0),
{
    marks.len() > 0
}

/// The session of one user: the identity that a confirmed login left.
#[derive(Clone, Debug, PartialEq, Eq)]
pub struct SessionManager {
    user_id: String,
}

enum LoginPhase {
    Landing,
    Submitting(Vec<(String, String)>),
    Checking,
}

/// One login: three requests, one after the other.
pub struct Login {
    user_id: String,
    user_pw: String,
    phase: LoginPhase,
}

impl View for Login {
    type V = LoginView;

    closed spec fn view(&self) -> LoginView {
        LoginView {
            user_id: self.user_id@,
            user_pw: self.user_pw@,
            phase: match self.phase {
                LoginPhase::Landing => LoginPhaseView::Landing,
                LoginPhase::Submitting(form) => LoginPhaseView::Submitting(form.deep_view()),
                LoginPhase::Checking => LoginPhaseView::Checking,
            },
        }
    }
}

/// How the request that a login waited for has ended.
#[derive(Clone, Debug, PartialEq, Eq)]
pub enum LoginEvent {
    /// The body of the answer, as text.
    Page(String),
    /// The exchange failed; the text is the transport's own.
    Failed(String),
}

impl View for LoginEvent {
    type V = LoginEventView;

    open spec fn view(&self) -> LoginEventView {
        match self {
            LoginEvent::Page(page) => LoginEventView::Page(page@),
            LoginEvent::Failed(text) => LoginEventView::Failed(text@),
        }
    }
}

/// A login after one event: it goes on, or it has ended. It ends with
/// whether the platform confirmed the login; a login that was not confirmed
/// is no error.
pub enum LoginStep {
    Continue(Login),
    Done(Result<bool, Error>),
}

impl View for LoginStep {
    type V = LoginStepView;

    open spec fn view(&self) -> LoginStepView {
        match self {
            LoginStep::Continue(login) => LoginStepView::Continue(login@),
            LoginStep::Done(Ok(confirmed)) => LoginStepView::Done(Ok(*confirmed)),
            LoginStep::Done(Err(error)) => LoginStepView::Done(Err(error@)),
        }
    }
}

fn copy_pairs(pairs: &Vec<(String, String)>) -> (r: Vec<(String, String)>)
    ensures
        r.deep_view() == pairs.deep_view(),
{
    let mut out: Vec<(String, String)> = Vec::new();
    let mut i: usize = 0;
    while i < pairs.len()
        invariant
            i <= pairs.len(),
            out.len() == i,
            forall|j: int| 0 <= j < i ==> out.deep_view()[j] == pairs.deep_view()[j],
        decreases pairs.len() - i,
    {
        out.push((pairs[i].0.clone(), pairs[i].1.clone()));
        i += 1;
    }
    assert(out.deep_view() =~= pairs.deep_view());
    out
}

impl SessionManager {
    /// The identity that the last confirmed login left; empty before any.
    pub closed spec fn identity(&self) -> Seq<char> {
        self.user_id@
    }

    /// A session without an identity.
    pub fn new() -> (session: SessionManager)
        ensures
            session.identity() == Seq::<char>::empty(),
    {
        SessionManager { user_id: String::new() }
    }

    /// How the client that carries the session is to be set up.
    pub fn client_settings() -> (settings: ClientSettings)
        ensures
            settings.cookie_store,
            settings.accept_invalid_certs,
            settings.user_agent@ == USER_AGENT@,
    {
        ClientSettings {
            cookie_store: true,
            user_agent: String::from_str(USER_AGENT),
            accept_invalid_certs: true,
        }
    }

    /// The identity that the last confirmed login left; empty before any.
    pub fn user_id(&self) -> (r: &str)
        ensures
            r@ == self.identity(),
    {
        self.user_id.as_str()
    }

    /// Whether a login was confirmed and left an identity.
    pub fn is_authenticated(&self) -> (r: bool)
        ensures
            r == (self.identity().len() > 0),
    {
        !self.user_id.as_str().is_empty()
    }

    /// A copy of the session as it stands.
    pub fn snapshot(&self) -> (r: SessionManager)
        ensures
            r.identity() == self.identity(),
    {
        SessionManager { user_id: self.user_id.clone() }
    }

    /// The fields that the inputs of `html` under `selector` fill in. Fails
    /// only where `selector` is no selector.
    pub fn parse_form_inputs(html: &str, selector: &str) -> (r: Result<
        Vec<(String, String)>,
        Error,
    >)
        ensures
            match selected(html@, selector@, input_attrs()) {
                Some(inputs) => r matches Ok(fields) && fields.deep_view() == inputs_of(inputs),
                None => r matches Err(error) && error@ == ErrorView::Parse(Missing::Selector),
            },
    {
        let mut attrs: Vec<String> = Vec::new();
        attrs.push(String::from_str("name"));
        attrs.push(String::from_str("value"));
        assert(attrs.deep_view() =~= input_attrs());
        match select(html, selector, &attrs) {
            Some(inputs) => Ok(form_inputs_from(&inputs)),
            None => Err(Error::Parse(Missing::Selector)),
        }
    }

    /// Begins a login with an account and its password.
    pub fn login(&self, user_id: &str, user_pw: &str) -> (login: Login)
        ensures
            login@ == login_begun(user_id@, user_pw@),
    {
        Login {
            user_id: String::from_str(user_id),
            user_pw: String::from_str(user_pw),
            phase: LoginPhase::Landing,
        }
    }
}

impl Login {
    /// The request this login waits for the answer to.
    pub fn action(&self) -> (request: Request)
        ensures
            request@ == login_request(self@),
    {
        let mut headers: Vec<(String, String)> = Vec::new();
        assert(headers.deep_view() =~= Seq::empty());
        match &self.phase {
            LoginPhase::Landing => {
                push_header(&mut headers, "Referer", LANDING_URL);
                assert(headers.deep_view() =~= landing_headers());
                Request {
                    method: Method::Get,
                    url: String::from_str(LANDING_URL),
                    headers,
                    body: Body::Empty,
                }
            },
            LoginPhase::Submitting(form) => {
                push_header(&mut headers, "X-Requested-With", "XMLHttpRequest");
                push_header(&mut headers, "Referer", LANDING_URL);
                push_header(
                    &mut headers,
                    "Content-Type",
                    "application/x-www-form-urlencoded; charset=UTF-8",
                );
                assert(headers.deep_view() =~= submit_headers());
                Request {
                    method: Method::Post,
                    url: String::from_str(LOGIN_URL),
                    headers,
                    body: Body::Form(copy_pairs(form)),
                }
            },
            LoginPhase::Checking => Request {
                method: Method::Get,
                url: String::from_str(LANDING_URL),
                headers,
                body: Body::Empty,
            },
        }
    }

    /// The login after the request it waited for has ended with `event`.
    /// Where that confirms the login, the session takes the account in
    /// lower case as its identity.
    pub fn advance(self, session: &mut SessionManager, event: LoginEvent) -> (step: LoginStep)
        ensures
            step@ == login_advance(self@, event@),
            final(session).identity() == identity_after(old(session).identity(), self@, step@),
    {
        match event {
            LoginEvent::Failed(text) => LoginStep::Done(Err(Error::Transport(text))),
            LoginEvent::Page(page) => match self.phase {
                LoginPhase::Landing => match SessionManager::parse_form_inputs(
                    page.as_str(),
                    LOGIN_INPUT_SELECTOR,
                ) {
                    Ok(inputs) => {
                        let mut form = inputs;
                        store(
                            &mut form,
                            String::from_str(USER_FIELD),
                            to_lowercase(self.user_id.as_str()),
                        );
                        store(&mut form, String::from_str(PASSWORD_FIELD), self.user_pw.clone());
                        LoginStep::Continue(Login { phase: LoginPhase::Submitting(form), ..self })
                    },
                    Err(error) => LoginStep::Done(Err(error)),
                },
                LoginPhase::Submitting(_) => LoginStep::Continue(
                    Login { phase: LoginPhase::Checking, ..self },
                ),
                LoginPhase::Checking => {
                    let none: Vec<String> = Vec::new();
                    assert(none.deep_view() =~= Seq::empty());
                    match select(page.as_str(), LOGGED_IN_SELECTOR, &none) {
                        Some(marks) => {
                            let shown = any_found(&marks);
                            if shown {
                                session.user_id = to_lowercase(self.user_id.as_str());
                            }
                            LoginStep::Done(Ok(shown))
                        },
                        None => LoginStep::Done(Err(Error::Parse(Missing::Selector))),
                    }
                },
            },
        }
    }
}

} // verus!

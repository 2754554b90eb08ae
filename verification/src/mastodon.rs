//! Client credentials and the bearer token they are exchanged for.

use crate::failure::{Failure, FailureView};
use crate::http::{
    is_success, Event, EventView, Request, RequestView, Step, StepView, TOKEN_ENDPOINT,
};
use crate::json::{json_text_field, text_field};
use vstd::prelude::*;

verus! {

/// OAuth2 client credentials, with the bearer token once one is known.
///
/// The token is never invalidated here: once cached it is handed out until
/// the owner replaces it.
#[derive(Debug, Clone, PartialEq, Eq)]
pub struct Mastodon {
    pub client_id: String,
    pub client_secret: String,
    pub redirect_uri: String,
    pub auth_code: String,
    pub token: Option<String>,
}

/// The mathematical content of a [`Mastodon`].
pub struct MastodonView {
    pub client_id: Seq<char>,
    pub client_secret: Seq<char>,
    pub redirect_uri: Seq<char>,
    pub auth_code: Seq<char>,
    pub token: Option<Seq<char>>,
}

impl View for Mastodon {
    type V = MastodonView;

    open spec fn view(&self) -> MastodonView {
        MastodonView {
            client_id: self.client_id@,
            client_secret: self.client_secret@,
            redirect_uri: self.redirect_uri@,
            auth_code: self.auth_code@,
            token: self.token.deep_view(),
        }
    }
}

impl MastodonView {
    /// The cached token, if one is cached and it is not empty.
    pub open spec fn usable_token(self) -> Option<Seq<char>> {
        match self.token {
            Some(token) => if token.len() > 0 {
                Some(token)
            } else {
                None
            },
            None => None,
        }
    }

    /// These credentials with `token` cached.
    pub open spec fn with_token(self, token: Seq<char>) -> MastodonView {
        MastodonView { token: Some(token), ..self }
    }

    /// The form of the authorization-code exchange, in the order it is sent.
    pub open spec fn token_form(self) -> Seq<(Seq<char>, Seq<char>)> {
        seq![
            ("client_id"@, self.client_id),
            ("client_secret"@, self.client_secret),
            ("redirect_uri"@, self.redirect_uri),
            ("grant_type"@, "authorization_code"@),
            ("code"@, self.auth_code),
            ("scope"@, "write"@),
        ]
    }

    /// The exchange that acquires a token.
    pub open spec fn token_request(self) -> RequestView {
        RequestView::Token { url: TOKEN_ENDPOINT@, form: self.token_form() }
    }

    /// What a completed token exchange means, given the status, the body as
    /// text and the `access_token` member read from it: any status outside
    /// the success class is an `AuthFailure` and caches nothing; a success
    /// without the member is a `MalformedResponse`; a success with it caches
    /// the token and yields it.
    pub open spec fn accept_token(
        self,
        status: u16,
        body: Seq<char>,
        access_token: Option<Seq<char>>,
    ) -> (MastodonView, StepView) {
        if !is_success(status) {
            (self, StepView::Failed(FailureView::AuthFailure { body }))
        } else {
            match access_token {
                Some(token) => (self.with_token(token), StepView::Ready(token)),
                None => (self, StepView::Failed(FailureView::MalformedResponse { body })),
            }
        }
    }

    /// One step of token acquisition. A usable cached token is yielded
    /// whatever the event; otherwise the exchange is asked for at `Begin`
    /// and settled when its outcome arrives.
    pub open spec fn get_token(self, event: EventView) -> (MastodonView, StepView) {
        match self.usable_token() {
            Some(token) => (self, StepView::Ready(token)),
            None => match event {
                EventView::Begin => (self, StepView::Ask(self.token_request())),
                EventView::Response(response) => self.accept_token(
                    response.status,
                    response.text(),
                    json_text_field(response.text(), "access_token"@),
                ),
                EventView::Unreachable { detail } => (
                    self,
                    StepView::Failed(FailureView::AuthFailure { body: detail }),
                ),
            },
        }
    }
}

fn form_field(name: &str, value: &str) -> (field: (String, String))
    ensures
        field.deep_view() == (name@, value@),
{
    (name.to_owned(), value.to_owned())
}

impl Mastodon {
    /// The cached token, if one is cached and it is not empty. This is the
    /// cache-hit path: it asks for no exchange and changes nothing.
    pub fn cached_token(&self) -> (token: Option<String>)
        ensures
            token.deep_view() == self@.usable_token(),
    {
        match &self.token {
            Some(token) => if token.as_str().is_empty() {
                None
            } else {
                Some(token.clone())
            },
            None => None,
        }
    }

    /// Takes over the token of `other`, where `other` holds a usable one.
    /// The token is replaced as a whole or not at all.
    pub fn adopt_token(&mut self, other: &Mastodon)
        ensures
            final(self)@ == (match other@.usable_token() {
                Some(token) => old(self)@.with_token(token),
                None => old(self)@,
            }),
    {
        match other.cached_token() {
            Some(token) => {
                self.token = Some(token);
            },
            None => {},
        }
    }

    /// The exchange that acquires a token: the authorization-code grant,
    /// form-encoded, with scope `write`.
    pub fn token_request(&self) -> (request: Request)
        ensures
            request@ == self@.token_request(),
    {
        let mut form: Vec<(String, String)> = Vec::new();
        form.push(form_field("client_id", self.client_id.as_str()));
        form.push(form_field("client_secret", self.client_secret.as_str()));
        form.push(form_field("redirect_uri", self.redirect_uri.as_str()));
        form.push(form_field("grant_type", "authorization_code"));
        form.push(form_field("code", self.auth_code.as_str()));
        form.push(form_field("scope", "write"));
        assert(form.deep_view() =~= self@.token_form());
        Request::Token { url: TOKEN_ENDPOINT.to_owned(), form }
    }

    /// Settles a completed token exchange from its status, its body as text
    /// and the `access_token` member read from the body.
    pub fn accept_token(
        &mut self,
        status: u16,
        body: String,
        access_token: Option<String>,
    ) -> (step: Step)
        ensures
            (final(self)@, step@) == old(self)@.accept_token(
                status,
                body@,
                access_token.deep_view(),
            ),
    {
        if !(200 <= status && status < 300) {
            Step::Failed(Failure::AuthFailure { body })
        } else {
            match access_token {
                Some(token) => {
                    self.token = Some(token.clone());
                    Step::Ready(token)
                },
                None => Step::Failed(Failure::MalformedResponse { body }),
            }
        }
    }

    /// One step of token acquisition.
    ///
    /// With a usable cached token the step yields it, asks for no exchange
    /// and leaves the credentials as they are. Without one, `Begin` asks for
    /// the token exchange, and the outcome of that exchange is settled: a
    /// token is cached and yielded, or the failure is yielded and nothing is
    /// cached. The exchange is never asked for twice by one step.
    pub fn get_token(&mut self, event: Event) -> (step: Step)
        ensures
            (final(self)@, step@) == old(self)@.get_token(event@),
            old(self)@.usable_token() matches Some(token) ==> step@ == StepView::Ready(token)
                && final(self)@ == old(self)@,
            step@ is Ask ==> event@ is Begin && final(self)@ == old(self)@,
            step@ is Failed ==> final(self)@ == old(self)@,
    {
        match self.cached_token() {
            Some(token) => Step::Ready(token),
            None => match event {
                Event::Begin => Step::Ask(self.token_request()),
                Event::Response(response) => {
                    let body = response.text();
                    let access_token = text_field(body.as_str(), "access_token");
                    self.accept_token(response.status, body, access_token)
                },
                Event::Unreachable { detail } => Step::Failed(Failure::AuthFailure { body: detail }),
            },
        }
    }
}

} // verus!

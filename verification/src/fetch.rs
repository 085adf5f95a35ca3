//! The protocol client: a session for the scheduling service.
//!
//! A session starts unauthenticated, holding the service base address and
//! the anti-forgery token scraped from the login page; it becomes
//! authenticated once the login submission has completed. Every fetch posts
//! a form to the fixed method path the payload kind is bound to. Transport
//! is an outside collaborator: the session only decides and builds requests,
//! and nothing is retried here.

use vstd::prelude::*;
use vstd::string::StringExecFns;

verus! {

/// Failure to construct a session: the login page did not contain the
/// anti-forgery token marker. This is fatal and not retried.
#[derive(Clone, Copy, PartialEq, Eq, Structural, Debug)]
pub enum FetchError {
    Token,
}

/// The payload kinds a fetch may ask the service for, each bound to a fixed
/// endpoint method name.
#[derive(Clone, Copy, PartialEq, Eq, Structural, Debug)]
pub enum Fetchable {
    CalendarData,
    ResourceList,
    Event,
}

impl Fetchable {
    /// The fixed method name the service binds this payload kind to.
    pub open spec fn spec_method_name(self) -> Seq<char> {
        match self {
            Fetchable::CalendarData => "GetCalendarData"@,
            Fetchable::ResourceList => "ReadResourceListItems"@,
            Fetchable::Event => "GetSideBarEvent"@,
        }
    }

    /// The fixed method name the service binds this payload kind to.
    pub fn method_name(self) -> (r: &'static str)
        ensures
            r@ == self.spec_method_name(),
    {
        match self {
            Fetchable::CalendarData => "GetCalendarData",
            Fetchable::ResourceList => "ReadResourceListItems",
            Fetchable::Event => "GetSideBarEvent",
        }
    }
}

/// The anti-forgery token a login page carries, if any: the value of the
/// input element the service's fixed marker names.
pub uninterp spec fn token_in(html: Seq<char>) -> Option<Seq<char>>;

/// Relies on regex::Regex::captures with the fixed anti-forgery pattern
/// (an input element named __RequestVerificationToken and its value
/// attribute): whether and what it captures depends on the document text
/// alone.
#[verifier::external_body]
fn scrape_token(html: &str) -> (r: Option<String>)
    ensures
        match r {
            Some(s) => token_in(html@) == Some(s@),
            None => token_in(html@) is None,
        },
{
    let re = regex::Regex::new(r#"<input name="__RequestVerificationToken".*?value="([^"]+)""#)
        .unwrap();
    re.captures(html).and_then(|caps| caps.get(1)).map(|m| m.as_str().to_owned())
}

/// A login submission: the logon URL and the form fields to post.
#[derive(Debug, PartialEq)]
pub struct LoginRequest {
    pub url: String,
    pub form: Vec<(String, String)>,
}

/// A protocol-client session: the service base address, the anti-forgery
/// token scraped from the login page, and whether login has completed.
#[derive(Debug)]
pub struct Celcat {
    address: String,
    token: String,
    authenticated: bool,
}

impl Celcat {
    /// The service base address this session talks to.
    pub closed spec fn spec_address(&self) -> Seq<char> {
        self.address@
    }

    /// The anti-forgery token this session holds.
    pub closed spec fn spec_token(&self) -> Seq<char> {
        self.token@
    }

    /// Whether the login submission has completed.
    pub closed spec fn spec_authenticated(&self) -> bool {
        self.authenticated
    }

    /// Whether the login submission has completed.
    pub fn is_authenticated(&self) -> (r: bool)
        ensures
            r == self.spec_authenticated(),
    {
        self.authenticated
    }

    /// The URL of the login page the anti-forgery token is scraped from.
    pub fn login_page_url(address: &str) -> (r: String)
        ensures
            r@ == address@ + "/LdapLogin"@,
    {
        let mut url = address.to_owned();
        url.append("/LdapLogin");
        url
    }

    /// Construct a session for a base address from the text of its login
    /// page: unauthenticated, holding the scraped anti-forgery token. Fails
    /// exactly when the page holds no token.
    pub fn new(address: String, login_page: &str) -> (r: Result<Celcat, FetchError>)
        ensures
            match r {
                Ok(c) => token_in(login_page@) == Some(c.spec_token()) && c.spec_address()
                    == address@ && !c.spec_authenticated(),
                Err(e) => e == FetchError::Token && token_in(login_page@) is None,
            },
    {
        match scrape_token(login_page) {
            Some(token) => Ok(Celcat { address, token, authenticated: false }),
            None => Err(FetchError::Token),
        }
    }

    /// The submission that logs this session in: the form to post to the
    /// logon path, carrying the credentials and the anti-forgery token under
    /// the service's fixed field names.
    pub fn login_request(&self, username: &str, password: &str) -> (r: LoginRequest)
        ensures
            r.url@ == self.spec_address() + "/LdapLogin/Logon"@,
            r.form@.len() == 3,
            r.form@[0].0@ == "Name"@ && r.form@[0].1@ == username@,
            r.form@[1].0@ == "Password"@ && r.form@[1].1@ == password@,
            r.form@[2].0@ == "__RequestVerificationToken"@ && r.form@[2].1@ == self.spec_token(),
    {
        let mut url = self.address.clone();
        url.append("/LdapLogin/Logon");
        let mut form: Vec<(String, String)> = Vec::new();
        form.push(("Name".to_owned(), username.to_owned()));
        form.push(("Password".to_owned(), password.to_owned()));
        form.push(("__RequestVerificationToken".to_owned(), self.token.clone()));
        LoginRequest { url, form }
    }

    /// Record that the login submission completed: the session is now
    /// authenticated. Whether the service accepted the credentials is the
    /// transport collaborator's to report.
    pub fn complete_login(&mut self)
        ensures
            final(self).spec_authenticated(),
            final(self).spec_address() == old(self).spec_address(),
            final(self).spec_token() == old(self).spec_token(),
    {
        self.authenticated = true;
    }

    /// The URL a fetch for a payload kind posts its form body to: the fixed
    /// method name under the service's home path.
    pub fn fetch_url(&self, what: Fetchable) -> (r: String)
        requires
            self.spec_authenticated(),
        ensures
            r@ == self.spec_address() + "/Home/"@ + what.spec_method_name(),
    {
        let mut url = self.address.clone();
        url.append("/Home/");
        url.append(what.method_name());
        url
    }
}

} // verus!

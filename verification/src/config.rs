//! Validated, immutable configuration of one API client: client identity,
//! redirect target, listen address, and the page served on success.
use crate::{Error, API_URL, CLOSE_HTML};
use vstd::prelude::*;
use vstd::string::StringExecFns;

verus! {

/// What `url::Url::parse` makes of a string, a function of that string
/// alone: the parsed URL serialized back (its normalized form), or the
/// parser's description of why the string is no URL.
pub uninterp spec fn url_normal_of(s: Seq<char>) -> Result<Seq<char>, Seq<char>>;

/// Relies on `url::Url::parse`: succeeds on exactly the absolute URLs the
/// `url` crate parses, returning the parsed URL serialized back to a
/// string, and otherwise the parse error's own description.
#[verifier::external_body]
fn parse_url(s: &str) -> (r: Result<String, String>)
    ensures
        match r {
            Ok(u) => url_normal_of(s@) == Ok::<Seq<char>, Seq<char>>(u@),
            Err(m) => url_normal_of(s@) == Err::<Seq<char>, Seq<char>>(m@),
        },
{
    match url::Url::parse(s) {
        Ok(u) => Ok(u.to_string()),
        Err(e) => Err(e.to_string()),
    }
}

/// The immutable configuration of one client: identity strings for the
/// outbound identification header, the redirect URL the provider sends the
/// browser to, the local address the listener binds, and the HTML page the
/// listener serves on a successful callback.
#[derive(Debug, Clone)]
pub struct PoEApiConfig {
    pub client_id: String,
    pub version: String,
    pub contact_email: String,
    pub redirect_url: String,
    pub redirect_addr: String,
    pub close_html: String,
}

impl PoEApiConfig {
    /// The identification header sent with every request:
    /// `OAuth <client_id>/<version> (contact: <contact_email>)`.
    pub fn user_agent(&self) -> (r: String)
        ensures
            r@ == "OAuth "@ + self.client_id@ + "/"@ + self.version@ + " (contact: "@
                + self.contact_email@ + ")"@,
    {
        let mut s = "OAuth ".to_owned();
        s.append(self.client_id.as_str());
        s.append("/");
        s.append(self.version.as_str());
        s.append(" (contact: ");
        s.append(self.contact_email.as_str());
        s.append(")");
        s
    }
}

/// Step-by-step construction of a `PoEApiConfig`; `build` fails while a
/// required field is missing.
#[derive(Debug, Clone)]
pub struct PoEApiConfigBuilder {
    pub client_id: Option<String>,
    pub version: Option<String>,
    pub contact_email: Option<String>,
    pub redirect_url: Option<String>,
    pub redirect_addr: Option<String>,
    pub close_html: Option<String>,
}

impl Default for PoEApiConfigBuilder {
    /// A builder with nothing set.
    fn default() -> (r: Self)
        ensures
            r == (PoEApiConfigBuilder {
                client_id: None,
                version: None,
                contact_email: None,
                redirect_url: None,
                redirect_addr: None,
                close_html: None,
            }),
    {
        PoEApiConfigBuilder {
            client_id: None,
            version: None,
            contact_email: None,
            redirect_url: None,
            redirect_addr: None,
            close_html: None,
        }
    }
}

impl PoEApiConfigBuilder {
    /// Sets the client identifier.
    pub fn client_id(self, value: String) -> (r: Self)
        ensures
            r == (PoEApiConfigBuilder { client_id: Some(value), ..self }),
    {
        PoEApiConfigBuilder { client_id: Some(value), ..self }
    }

    /// Sets the client version string.
    pub fn version(self, value: String) -> (r: Self)
        ensures
            r == (PoEApiConfigBuilder { version: Some(value), ..self }),
    {
        PoEApiConfigBuilder { version: Some(value), ..self }
    }

    /// Sets the contact email for the identification header.
    pub fn contact_email(self, value: String) -> (r: Self)
        ensures
            r == (PoEApiConfigBuilder { contact_email: Some(value), ..self }),
    {
        PoEApiConfigBuilder { contact_email: Some(value), ..self }
    }

    /// Sets the page served to the browser on a successful callback.
    pub fn close_html(self, value: String) -> (r: Self)
        ensures
            r == (PoEApiConfigBuilder { close_html: Some(value), ..self }),
    {
        PoEApiConfigBuilder { close_html: Some(value), ..self }
    }

    /// Sets the redirect URL: accepts exactly the values that parse as
    /// absolute URLs, storing the accepted value in its normalized form,
    /// and rejects the rest with the parser's own description.
    pub fn redirect_url(self, value: &str) -> (r: Result<Self, Error>)
        ensures
            r is Ok <==> url_normal_of(value@) is Ok,
            r matches Ok(b) ==> b.redirect_url matches Some(u) && url_normal_of(value@)
                == Ok::<Seq<char>, Seq<char>>(u@) && b.client_id == self.client_id && b.version
                == self.version && b.contact_email == self.contact_email && b.redirect_addr
                == self.redirect_addr && b.close_html == self.close_html,
            r matches Err(e) ==> e matches Error::UrlParseError(m) && url_normal_of(value@)
                == Err::<Seq<char>, Seq<char>>(m@),
    {
        match parse_url(value) {
            Ok(u) => Ok(PoEApiConfigBuilder { redirect_url: Some(u), ..self }),
            Err(m) => Err(Error::UrlParseError(m)),
        }
    }

    /// Sets the local address the listener binds, as `host:port`; the
    /// address is resolved when the listener starts, not here.
    pub fn redirect_addr(self, value: &str) -> (r: Result<Self, Error>)
        ensures
            r matches Ok(b) && b.redirect_addr matches Some(a) && a@ == value@ && b.client_id
                == self.client_id && b.version == self.version && b.contact_email
                == self.contact_email && b.redirect_url == self.redirect_url && b.close_html
                == self.close_html,
    {
        Ok(PoEApiConfigBuilder { redirect_addr: Some(value.to_owned()), ..self })
    }

    /// Assembles the configuration: fails naming the first missing required
    /// field; the success page defaults when it was never set.
    pub fn build(self) -> (r: Result<PoEApiConfig, Error>)
        ensures
            r is Ok <==> self.client_id is Some && self.version is Some && self.contact_email
                is Some && self.redirect_url is Some && self.redirect_addr is Some,
            r matches Ok(c) ==> c.client_id == self.client_id->0 && c.version == self.version->0
                && c.contact_email == self.contact_email->0 && c.redirect_url
                == self.redirect_url->0 && c.redirect_addr == self.redirect_addr->0
                && c.close_html@ == (if self.close_html is Some {
                self.close_html->0@
            } else {
                CLOSE_HTML@
            }),
            r matches Err(e) ==> e is UninitializedField,
    {
        match self {
            PoEApiConfigBuilder {
                client_id: Some(client_id),
                version: Some(version),
                contact_email: Some(contact_email),
                redirect_url: Some(redirect_url),
                redirect_addr: Some(redirect_addr),
                close_html,
            } => Ok(
                PoEApiConfig {
                    client_id,
                    version,
                    contact_email,
                    redirect_url,
                    redirect_addr,
                    close_html: match close_html {
                        Some(h) => h,
                        None => CLOSE_HTML.to_owned(),
                    },
                },
            ),
            PoEApiConfigBuilder { client_id: None, .. } => Err(
                Error::UninitializedField("client_id".to_owned()),
            ),
            PoEApiConfigBuilder { version: None, .. } => Err(
                Error::UninitializedField("version".to_owned()),
            ),
            PoEApiConfigBuilder { contact_email: None, .. } => Err(
                Error::UninitializedField("contact_email".to_owned()),
            ),
            PoEApiConfigBuilder { redirect_url: None, .. } => Err(
                Error::UninitializedField("redirect_url".to_owned()),
            ),
            PoEApiConfigBuilder { redirect_addr: None, .. } => Err(
                Error::UninitializedField("redirect_addr".to_owned()),
            ),
        }
    }
}

/// The absolute URL of an API endpoint: the API base followed by the
/// endpoint's path, in the normalized form the URL parser gives it;
/// succeeds exactly when the concatenation parses as a URL.
pub fn api_url(endpoint: &str) -> (r: Result<String, Error>)
    ensures
        r is Ok <==> url_normal_of(API_URL@ + endpoint@) is Ok,
        r matches Ok(u) ==> url_normal_of(API_URL@ + endpoint@) == Ok::<Seq<char>, Seq<char>>(u@),
        r matches Err(e) ==> e matches Error::UrlParseError(m) && url_normal_of(
            API_URL@ + endpoint@,
        ) == Err::<Seq<char>, Seq<char>>(m@),
{
    let mut s = API_URL.to_owned();
    s.append(endpoint);
    match parse_url(s.as_str()) {
        Ok(u) => Ok(u),
        Err(m) => Err(Error::UrlParseError(m)),
    }
}

} // verus!

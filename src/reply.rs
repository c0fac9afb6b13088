//! The responses the service gives, and what each one carries on the wire.
use vstd::prelude::*;

verus! {

/// A response, as the host program is to send it.
#[derive(Debug)]
pub enum Reply {
    /// 200: the editor page, with the reference passcode set as a cookie.
    Editor { passcode: String },
    /// 500: the reference passcode could not be had.
    ConfigMissing,
    /// 301 to the API documentation.
    Docs,
    /// 301 to a stored target URL.
    Redirect { location: String },
    /// 404 with a plain-text reason.
    NotFound { message: String },
    /// 201 with the short identifier of a new mapping.
    Created { short: String },
    /// 406 with a plain-text reason.
    NotAcceptable { message: String },
    /// 204: the answer to a CORS preflight.
    Preflight,
    /// 405: a method the service does not serve.
    NotAllowed,
}

/// A `Reply` with its strings seen as sequences of chars.
pub enum ReplyView {
    Editor { passcode: Seq<char> },
    ConfigMissing,
    Docs,
    Redirect { location: Seq<char> },
    NotFound { message: Seq<char> },
    Created { short: Seq<char> },
    NotAcceptable { message: Seq<char> },
    Preflight,
    NotAllowed,
}

/// Which cross-origin headers a response carries.
#[derive(PartialEq, Eq, Structural, Clone, Copy, Debug)]
pub enum Cors {
    /// None.
    Off,
    /// `Access-Control-Allow-Origin: *`.
    Origin,
    /// Origin, headers and methods all `*`.
    Full,
}

impl View for Reply {
    type V = ReplyView;

    open spec fn view(&self) -> ReplyView {
        match self {
            Reply::Editor { passcode } => ReplyView::Editor { passcode: passcode@ },
            Reply::ConfigMissing => ReplyView::ConfigMissing,
            Reply::Docs => ReplyView::Docs,
            Reply::Redirect { location } => ReplyView::Redirect { location: location@ },
            Reply::NotFound { message } => ReplyView::NotFound { message: message@ },
            Reply::Created { short } => ReplyView::Created { short: short@ },
            Reply::NotAcceptable { message } => ReplyView::NotAcceptable { message: message@ },
            Reply::Preflight => ReplyView::Preflight,
            Reply::NotAllowed => ReplyView::NotAllowed,
        }
    }
}

/// Where the API documentation lives.
pub open spec fn docs_url() -> Seq<char> {
    "https://developer.fastly.com/reference/api/"@
}

/// The methods the service serves, as listed in an `Allow` header.
pub open spec fn allowed_methods() -> Seq<char> {
    "GET, POST, OPTIONS"@
}

/// Attributes of the passcode cookie set with the editor page.
pub open spec fn cookie_attributes() -> Seq<char> {
    "; Secure; HttpOnly; SameSite=Strict"@
}

impl ReplyView {
    /// The HTTP status code.
    pub open spec fn status(self) -> u16 {
        match self {
            ReplyView::Editor { .. } => 200,
            ReplyView::ConfigMissing => 500,
            ReplyView::Docs => 301,
            ReplyView::Redirect { .. } => 301,
            ReplyView::NotFound { .. } => 404,
            ReplyView::Created { .. } => 201,
            ReplyView::NotAcceptable { .. } => 406,
            ReplyView::Preflight => 204,
            ReplyView::NotAllowed => 405,
        }
    }

    /// The `Location` header, where there is one.
    pub open spec fn location(self) -> Option<Seq<char>> {
        match self {
            ReplyView::Docs => Some(docs_url()),
            ReplyView::Redirect { location } => Some(location),
            _ => None,
        }
    }

    /// The plain-text body, where there is one.
    pub open spec fn text(self) -> Option<Seq<char>> {
        match self {
            ReplyView::ConfigMissing => Some("Missing configuration"@),
            ReplyView::NotFound { message } => Some(message),
            ReplyView::NotAcceptable { message } => Some(message),
            ReplyView::NotAllowed => Some("This method is not allowed\n"@),
            _ => None,
        }
    }

    /// The `Allow` header, where there is one.
    pub open spec fn allow(self) -> Option<Seq<char>> {
        match self {
            ReplyView::Preflight | ReplyView::NotAllowed => Some(allowed_methods()),
            _ => None,
        }
    }

    /// The cross-origin headers.
    pub open spec fn cors(self) -> Cors {
        match self {
            ReplyView::Redirect { .. } | ReplyView::Created { .. } => Cors::Origin,
            ReplyView::Preflight => Cors::Full,
            _ => Cors::Off,
        }
    }

    /// The `Set-Cookie` header, where there is one.
    pub open spec fn set_cookie(self) -> Option<Seq<char>> {
        match self {
            ReplyView::Editor { passcode } => Some(
                passcode_key_prefix() + passcode + cookie_attributes(),
            ),
            _ => None,
        }
    }
}

/// `passcode=`, which starts the passcode cookie.
pub open spec fn passcode_key_prefix() -> Seq<char> {
    "passcode="@
}

impl Reply {
    /// The HTTP status code.
    pub fn status(&self) -> (r: u16)
        ensures
            r == self@.status(),
    {
        match self {
            Reply::Editor { .. } => 200,
            Reply::ConfigMissing => 500,
            Reply::Docs => 301,
            Reply::Redirect { .. } => 301,
            Reply::NotFound { .. } => 404,
            Reply::Created { .. } => 201,
            Reply::NotAcceptable { .. } => 406,
            Reply::Preflight => 204,
            Reply::NotAllowed => 405,
        }
    }

    /// The `Location` header, where there is one.
    pub fn location(&self) -> (r: Option<String>)
        ensures
            r.deep_view() == self@.location(),
    {
        match self {
            Reply::Docs => Some(String::from_str("https://developer.fastly.com/reference/api/")),
            Reply::Redirect { location } => Some(location.clone()),
            _ => None,
        }
    }

    /// The plain-text body, where there is one.
    pub fn text(&self) -> (r: Option<String>)
        ensures
            r.deep_view() == self@.text(),
    {
        match self {
            Reply::ConfigMissing => Some(String::from_str("Missing configuration")),
            Reply::NotFound { message } => Some(message.clone()),
            Reply::NotAcceptable { message } => Some(message.clone()),
            Reply::NotAllowed => Some(String::from_str("This method is not allowed\n")),
            _ => None,
        }
    }

    /// The `Allow` header, where there is one.
    pub fn allow(&self) -> (r: Option<String>)
        ensures
            r.deep_view() == self@.allow(),
    {
        match self {
            Reply::Preflight | Reply::NotAllowed => Some(String::from_str("GET, POST, OPTIONS")),
            _ => None,
        }
    }

    /// The cross-origin headers.
    pub fn cors(&self) -> (r: Cors)
        ensures
            r == self@.cors(),
    {
        match self {
            Reply::Redirect { .. } | Reply::Created { .. } => Cors::Origin,
            Reply::Preflight => Cors::Full,
            _ => Cors::Off,
        }
    }

    /// The `Set-Cookie` header, where there is one.
    pub fn set_cookie(&self) -> (r: Option<String>)
        ensures
            r.deep_view() == self@.set_cookie(),
    {
        match self {
            Reply::Editor { passcode } => {
                let s = String::from_str("passcode=").concat(passcode.as_str());
                Some(s.concat("; Secure; HttpOnly; SameSite=Strict"))
            },
            _ => None,
        }
    }
}

} // verus!

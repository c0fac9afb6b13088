//! The write path: authorizing a creation, choosing its short identifier, and
//! answering it.
use vstd::prelude::*;
use crate::auth::{authorize, passcode_from_cookie, passcode_in};
use crate::ident::{generate_short_id, valid_id, SHORT_ID_LEN};
use crate::reply::{Reply, ReplyView};

verus! {

/// What a caller asks for: a target URL, and optionally the short identifier to use.
#[derive(Debug)]
pub struct CreationRequest {
    pub short: Option<String>,
    pub url: String,
}

/// A short identifier and the target URL it leads to.
#[derive(Debug)]
pub struct Mapping {
    pub short: String,
    pub url: String,
}

/// A `Mapping` with its strings seen as sequences of chars.
pub struct MappingView {
    pub short: Seq<char>,
    pub url: Seq<char>,
}

impl View for Mapping {
    type V = MappingView;

    open spec fn view(&self) -> MappingView {
        MappingView { short: self.short@, url: self.url@ }
    }
}

/// Why a creation was refused or failed.
#[derive(Debug)]
pub enum CreateError {
    /// The request carries no cookie header.
    NoCookie,
    /// The cookie header is not readable text; the message says why.
    BadCookie(String),
    /// No cookie pair holds a passcode.
    NoPasscode,
    /// The reference passcode is not configured.
    MissingSecret,
    /// The reference passcode could not be read; the message says why.
    SecretFault(String),
    /// The presented passcode differs from the reference passcode.
    Mismatch,
    /// The body does not decode to a creation request; the message says why.
    MalformedBody(String),
    /// No mapping store is configured.
    NoStore,
    /// The mapping store failed; the message says why.
    StoreFault(String),
}

/// A `CreateError` with its strings seen as sequences of chars.
pub enum CreateErrorView {
    NoCookie,
    BadCookie(Seq<char>),
    NoPasscode,
    MissingSecret,
    SecretFault(Seq<char>),
    Mismatch,
    MalformedBody(Seq<char>),
    NoStore,
    StoreFault(Seq<char>),
}

impl View for CreateError {
    type V = CreateErrorView;

    open spec fn view(&self) -> CreateErrorView {
        match self {
            CreateError::NoCookie => CreateErrorView::NoCookie,
            CreateError::BadCookie(m) => CreateErrorView::BadCookie(m@),
            CreateError::NoPasscode => CreateErrorView::NoPasscode,
            CreateError::MissingSecret => CreateErrorView::MissingSecret,
            CreateError::SecretFault(m) => CreateErrorView::SecretFault(m@),
            CreateError::Mismatch => CreateErrorView::Mismatch,
            CreateError::MalformedBody(m) => CreateErrorView::MalformedBody(m@),
            CreateError::NoStore => CreateErrorView::NoStore,
            CreateError::StoreFault(m) => CreateErrorView::StoreFault(m@),
        }
    }
}

impl CreateErrorView {
    /// The plain-text reason sent with the 406 response.
    pub open spec fn message(self) -> Seq<char> {
        match self {
            CreateErrorView::NoCookie => "No cookie found"@,
            CreateErrorView::BadCookie(m) => m,
            CreateErrorView::NoPasscode => "No passcode found in cookie"@,
            CreateErrorView::MissingSecret => "Passcode not found"@,
            CreateErrorView::SecretFault(m) => m,
            CreateErrorView::Mismatch => "passcode not matching"@,
            CreateErrorView::MalformedBody(m) => m,
            CreateErrorView::NoStore => "object store not exists"@,
            CreateErrorView::StoreFault(m) => m,
        }
    }
}

impl CreateError {
    /// The plain-text reason sent with the 406 response.
    pub fn message(&self) -> (r: String)
        ensures
            r@ == self@.message(),
    {
        match self {
            CreateError::NoCookie => String::from_str("No cookie found"),
            CreateError::BadCookie(m) => m.clone(),
            CreateError::NoPasscode => String::from_str("No passcode found in cookie"),
            CreateError::MissingSecret => String::from_str("Passcode not found"),
            CreateError::SecretFault(m) => m.clone(),
            CreateError::Mismatch => String::from_str("passcode not matching"),
            CreateError::MalformedBody(m) => m.clone(),
            CreateError::NoStore => String::from_str("object store not exists"),
            CreateError::StoreFault(m) => m.clone(),
        }
    }
}

/// What a write to the mapping store gave.
#[derive(Debug)]
pub enum StoreWrite {
    /// The store failed, with its message.
    Fault(String),
    /// No mapping store is configured.
    NoStore,
    /// The mapping is stored.
    Done,
}

/// Why a creation with these inputs fails, or `None` where it goes ahead.
///
/// `cookie` is the cookie header: absent, unreadable (with the reason), or its
/// text. `reference` is the reference passcode: unreadable (with the reason),
/// not configured, or its value. `body` is the decoded request body, or the
/// reason it did not decode. The reference passcode is checked first, then
/// the presented one, then the body.
pub open spec fn create_error(
    cookie: Option<Result<String, String>>,
    reference: Result<Option<String>, String>,
    body: Result<CreationRequest, String>,
) -> Option<CreateErrorView> {
    match reference {
        Err(m) => Some(CreateErrorView::SecretFault(m@)),
        Ok(None) => Some(CreateErrorView::MissingSecret),
        Ok(Some(p)) => match cookie {
            None => Some(CreateErrorView::NoCookie),
            Some(Err(m)) => Some(CreateErrorView::BadCookie(m@)),
            Some(Ok(c)) => match passcode_in(c@) {
                None => Some(CreateErrorView::NoPasscode),
                Some(v) => if v != p@ {
                    Some(CreateErrorView::Mismatch)
                } else {
                    match body {
                        Err(m) => Some(CreateErrorView::MalformedBody(m@)),
                        Ok(_) => None,
                    }
                },
            },
        },
    }
}

/// `short` is the identifier chosen for a creation that asked for `requested`:
/// a non-empty requested identifier is taken as it is, unchecked; otherwise a
/// fresh one of `SHORT_ID_LEN` letters and digits is drawn.
pub open spec fn chosen_short(requested: Option<Seq<char>>, short: Seq<char>) -> bool {
    match requested {
        Some(q) if q.len() > 0 => short == q,
        _ => short.len() == SHORT_ID_LEN && valid_id(short),
    }
}

/// `r` is an outcome that a creation with these inputs may have.
pub open spec fn created(
    cookie: Option<Result<String, String>>,
    reference: Result<Option<String>, String>,
    body: Result<CreationRequest, String>,
    r: Result<MappingView, CreateErrorView>,
) -> bool {
    match create_error(cookie, reference, body) {
        Some(e) => r == Err::<MappingView, CreateErrorView>(e),
        None => match r {
            Ok(m) => m.url == body->Ok_0.url@ && chosen_short(body->Ok_0.short.deep_view(), m.short),
            Err(_) => false,
        },
    }
}

/// A creation outcome with its strings seen as sequences of chars.
pub open spec fn outcome_view(r: Result<Mapping, CreateError>) -> Result<MappingView, CreateErrorView> {
    match r {
        Ok(m) => Ok(m@),
        Err(e) => Err(e@),
    }
}

/// The answer to a `POST`, given the short identifier stored or the error.
pub open spec fn post_spec(outcome: Result<Seq<char>, CreateErrorView>) -> ReplyView {
    match outcome {
        Ok(short) => ReplyView::Created { short },
        Err(e) => ReplyView::NotAcceptable { message: e.message() },
    }
}

/// The short identifier for a creation: the requested one where it is
/// non-empty, else a freshly drawn one.
pub fn resolve_short_id(requested: Option<String>) -> (r: String)
    ensures
        chosen_short(requested.deep_view(), r@),
{
    match requested {
        Some(q) => {
            if q.as_str().unicode_len() == 0 {
                generate_short_id()
            } else {
                q
            }
        },
        None => generate_short_id(),
    }
}

/// Decides a creation: checks the reference passcode, then the passcode the
/// cookie presents, then the body, and yields the mapping to store.
pub fn create_short_id(
    cookie: Option<Result<String, String>>,
    reference: Result<Option<String>, String>,
    body: Result<CreationRequest, String>,
) -> (r: Result<Mapping, CreateError>)
    ensures
        created(cookie, reference, body, outcome_view(r)),
{
    let reference = match reference {
        Err(m) => return Err(CreateError::SecretFault(m)),
        Ok(None) => return Err(CreateError::MissingSecret),
        Ok(Some(p)) => p,
    };
    let cookie = match cookie {
        None => return Err(CreateError::NoCookie),
        Some(Err(m)) => return Err(CreateError::BadCookie(m)),
        Some(Ok(c)) => c,
    };
    let presented = match passcode_from_cookie(cookie.as_str()) {
        None => return Err(CreateError::NoPasscode),
        Some(p) => p,
    };
    if !authorize(Some(presented.as_str()), reference.as_str()) {
        return Err(CreateError::Mismatch);
    }
    let request = match body {
        Err(m) => return Err(CreateError::MalformedBody(m)),
        Ok(request) => request,
    };
    let short = resolve_short_id(request.short);
    Ok(Mapping { short, url: request.url })
}

/// The outcome of a creation once the store write of its mapping has been tried.
pub fn finish_create(short: String, write: StoreWrite) -> (r: Result<String, CreateError>)
    ensures
        match write {
            StoreWrite::Done => r is Ok && r->Ok_0@ == short@,
            StoreWrite::NoStore => r is Err && r->Err_0@ == CreateErrorView::NoStore,
            StoreWrite::Fault(m) => r is Err && r->Err_0@ == CreateErrorView::StoreFault(m@),
        },
{
    match write {
        StoreWrite::Done => Ok(short),
        StoreWrite::NoStore => Err(CreateError::NoStore),
        StoreWrite::Fault(m) => Err(CreateError::StoreFault(m)),
    }
}

/// The answer to a `POST`: 201 with the short identifier, or 406 with the reason.
pub fn post_reply(outcome: Result<String, CreateError>) -> (r: Reply)
    ensures
        r@ == post_spec(
            match outcome {
                Ok(s) => Ok(s@),
                Err(e) => Err(e@),
            },
        ),
{
    match outcome {
        Ok(short) => Reply::Created { short },
        Err(e) => Reply::NotAcceptable { message: e.message() },
    }
}

} // verus!

//! Dispatch by method and path, and the answers of the read path.
use vstd::prelude::*;
use crate::auth::same_text;
use crate::ident::{is_valid_short_id, valid_id};
use crate::reply::{Reply, ReplyView};

verus! {

/// The HTTP method of a request, as far as routing tells methods apart.
#[derive(PartialEq, Eq, Structural, Clone, Copy, Debug)]
pub enum Method {
    Get,
    Post,
    Options,
    Other,
}

/// What the host is to do next with a request.
#[derive(Debug)]
pub enum Step {
    /// Send this response; nothing else is needed.
    Respond(Reply),
    /// Fetch the reference passcode and answer with `editor_reply`.
    ServeEditor,
    /// Look the identifier up in the mapping store and answer with `redirect_reply`.
    Lookup(String),
    /// Gather the creation inputs and answer through `create_short_id`.
    Create,
}

/// A `Step` with its strings seen as sequences of chars.
pub enum StepView {
    Respond(ReplyView),
    ServeEditor,
    Lookup(Seq<char>),
    Create,
}

impl View for Step {
    type V = StepView;

    open spec fn view(&self) -> StepView {
        match self {
            Step::Respond(r) => StepView::Respond(r@),
            Step::ServeEditor => StepView::ServeEditor,
            Step::Lookup(id) => StepView::Lookup(id@),
            Step::Create => StepView::Create,
        }
    }
}

/// What a lookup in the mapping store gave.
#[derive(Debug)]
pub enum StoreLookup {
    /// The store failed, with its message.
    Fault(String),
    /// No mapping store is configured.
    NoStore,
    /// The store holds no mapping for the identifier.
    Missing,
    /// The stored target URL.
    Found(String),
}

/// The identifier reserved for the API documentation.
pub open spec fn api_id() -> Seq<char> {
    "api"@
}

/// The 404 reason for a path that holds no identifier.
pub open spec fn malformed_url_message() -> Seq<char> {
    "mal-formatted URL"@
}

/// The 404 reason for an identifier with a char that is no ASCII letter or digit.
pub open spec fn malformed_id_message() -> Seq<char> {
    "mal-formatted short id"@
}

/// The 404 reason when no mapping store is configured.
pub open spec fn no_store_message() -> Seq<char> {
    "object store not exists"@
}

/// The 404 reason when the identifier has no mapping.
pub open spec fn not_found_message() -> Seq<char> {
    "redirect location not found"@
}

/// The next step for `GET path` where `path` is not the root: the reserved
/// identifier goes to the documentation, an invalid one is refused before any
/// store access, a valid one is looked up.
pub open spec fn get_step(path: Seq<char>) -> StepView {
    if path.len() < 2 || path[0] != '/' {
        StepView::Respond(ReplyView::NotFound { message: malformed_url_message() })
    } else if path.drop_first() == api_id() {
        StepView::Respond(ReplyView::Docs)
    } else if !valid_id(path.drop_first()) {
        StepView::Respond(ReplyView::NotFound { message: malformed_id_message() })
    } else {
        StepView::Lookup(path.drop_first())
    }
}

/// The routing table.
pub open spec fn route_spec(method: Method, path: Seq<char>) -> StepView {
    match method {
        Method::Get => if path == seq!['/'] {
            StepView::ServeEditor
        } else {
            get_step(path)
        },
        Method::Post => StepView::Create,
        Method::Options => StepView::Respond(ReplyView::Preflight),
        Method::Other => StepView::Respond(ReplyView::NotAllowed),
    }
}

/// The answer to a lookup in the mapping store.
pub open spec fn redirect_spec(found: StoreLookup) -> ReplyView {
    match found {
        StoreLookup::Fault(m) => ReplyView::NotFound { message: m@ },
        StoreLookup::NoStore => ReplyView::NotFound { message: no_store_message() },
        StoreLookup::Missing => ReplyView::NotFound { message: not_found_message() },
        StoreLookup::Found(u) => ReplyView::Redirect { location: u@ },
    }
}

/// The answer to `GET /`, given the reference passcode if it could be had.
pub open spec fn editor_spec(reference: Option<Seq<char>>) -> ReplyView {
    match reference {
        Some(p) => ReplyView::Editor { passcode: p },
        None => ReplyView::ConfigMissing,
    }
}

/// Decides what to do with a request of `method` on `path`.
pub fn route(method: Method, path: &str) -> (r: Step)
    ensures
        r@ == route_spec(method, path@),
{
    match method {
        Method::Get => {
            let n = path.unicode_len();
            if n == 1 && path.get_char(0) == '/' {
                assert(path@ =~= seq!['/']);
                Step::ServeEditor
            } else {
                proof {
                    if path@ == seq!['/'] {
                        assert(path@[0] == '/');
                    }
                }
                redirect_target(path)
            }
        },
        Method::Post => Step::Create,
        Method::Options => Step::Respond(Reply::Preflight),
        Method::Other => Step::Respond(Reply::NotAllowed),
    }
}

/// Reads the short identifier out of a `GET` path other than the root.
pub fn redirect_target(path: &str) -> (r: Step)
    ensures
        r@ == get_step(path@),
{
    let n = path.unicode_len();
    if n < 2 || path.get_char(0) != '/' {
        return Step::Respond(Reply::NotFound { message: String::from_str("mal-formatted URL") });
    }
    let id = path.substring_char(1, n);
    assert(id@ =~= path@.drop_first());
    if same_text(id, "api") {
        Step::Respond(Reply::Docs)
    } else {
        if !is_valid_short_id(id) {
            Step::Respond(Reply::NotFound { message: String::from_str("mal-formatted short id") })
        } else {
            Step::Lookup(String::from_str(id))
        }
    }
}

/// The answer to a `GET` of a short identifier, given what the store lookup gave.
pub fn redirect_reply(found: StoreLookup) -> (r: Reply)
    ensures
        r@ == redirect_spec(found),
{
    match found {
        StoreLookup::Fault(m) => Reply::NotFound { message: m },
        StoreLookup::NoStore => Reply::NotFound {
            message: String::from_str("object store not exists"),
        },
        StoreLookup::Missing => Reply::NotFound {
            message: String::from_str("redirect location not found"),
        },
        StoreLookup::Found(u) => Reply::Redirect { location: u },
    }
}

/// The answer to `GET /`: the editor page with the reference passcode as a
/// cookie, or a configuration error where the passcode could not be had.
pub fn editor_reply(reference: Option<String>) -> (r: Reply)
    ensures
        r@ == editor_spec(reference.deep_view()),
{
    match reference {
        Some(p) => Reply::Editor { passcode: p },
        None => Reply::ConfigMissing,
    }
}

} // verus!

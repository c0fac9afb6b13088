//! Properties of the service that span several of its functions.
use vstd::prelude::*;
use crate::auth::passcode_in;
use crate::create::{created, post_spec, CreateErrorView, CreationRequest, MappingView};
use crate::ident::{is_alnum, valid_id, SHORT_ID_LEN};
use crate::reply::{allowed_methods, docs_url, Cors, ReplyView};
use crate::router::{api_id, redirect_spec, route_spec, Method, StepView, StoreLookup};

verus! {

/// The mapping store after a write of `m`: the identifier now leads to the
/// mapping's URL, whatever it led to before.
pub open spec fn after_write(store: Map<Seq<char>, Seq<char>>, m: MappingView) -> Map<
    Seq<char>,
    Seq<char>,
> {
    store.insert(m.short, m.url)
}

/// A `GET` of a valid identifier other than `api` is a store lookup of that
/// identifier, and where the store holds URL `u` for it the answer is a 301
/// to `u`.
pub proof fn lemma_lookup_redirects(id: Seq<char>, u: String)
    requires
        valid_id(id),
        id != api_id(),
    ensures
        route_spec(Method::Get, seq!['/'] + id) == StepView::Lookup(id),
        redirect_spec(StoreLookup::Found(u)).status() == 301,
        redirect_spec(StoreLookup::Found(u)).location() == Some(u@),
{
    let path = seq!['/'] + id;
    assert(path.drop_first() =~= id);
    assert(path != seq!['/']) by {
        assert(path.len() == id.len() + 1);
    }
}

/// `GET /api` answers 301 to the documentation without a store lookup.
pub proof fn lemma_api_goes_to_docs()
    ensures
        route_spec(Method::Get, "/api"@) == StepView::Respond(ReplyView::Docs),
        ReplyView::Docs.status() == 301,
        ReplyView::Docs.location() == Some(docs_url()),
{
    reveal_strlit("/api");
    reveal_strlit("api");
    assert(("/api"@).drop_first() =~= api_id());
    assert("/api"@ != seq!['/']) by {
        assert(("/api"@).len() == 4);
    }
}

/// A `GET` of an identifier with a char that is no ASCII letter or digit
/// answers 404 and never asks for a store lookup.
pub proof fn lemma_invalid_id_not_found(id: Seq<char>, i: int)
    requires
        0 <= i < id.len(),
        !is_alnum(id[i]),
    ensures
        route_spec(Method::Get, seq!['/'] + id) matches StepView::Respond(r) && r.status() == 404,
{
    let path = seq!['/'] + id;
    assert(path.drop_first() =~= id);
    assert(path != seq!['/']) by {
        assert(path.len() == id.len() + 1);
    }
    assert(id != api_id()) by {
        reveal_strlit("api");
        if id == api_id() {
            assert(is_alnum(id[0]) && is_alnum(id[1]) && is_alnum(id[2]));
        }
    }
}

/// An authorized creation that names no identifier succeeds with a fresh
/// identifier of `SHORT_ID_LEN` letters and digits, answers 201 with it, and
/// a later `GET` of it is a lookup that finds the URL just written and
/// answers 301 to it.
pub proof fn lemma_generated_id_resolves(
    cookie: String,
    reference: String,
    request: CreationRequest,
    r: Result<MappingView, CreateErrorView>,
    store: Map<Seq<char>, Seq<char>>,
)
    requires
        passcode_in(cookie@) == Some(reference@),
        request.short is None,
        created(Some(Ok(cookie)), Ok(Some(reference)), Ok(request), r),
    ensures
        r is Ok,
        r->Ok_0.short.len() == SHORT_ID_LEN,
        valid_id(r->Ok_0.short),
        post_spec(Ok(r->Ok_0.short)).status() == 201,
        route_spec(Method::Get, seq!['/'] + r->Ok_0.short) == StepView::Lookup(r->Ok_0.short),
        after_write(store, r->Ok_0)[r->Ok_0.short] == request.url@,
        redirect_spec(StoreLookup::Found(request.url)).status() == 301,
        redirect_spec(StoreLookup::Found(request.url)).location() == Some(request.url@),
{
    let s = r->Ok_0.short;
    assert(s != api_id()) by {
        reveal_strlit("api");
    }
    lemma_lookup_redirects(s, request.url);
}

/// A creation whose cookie does not present the reference passcode fails, so
/// nothing is written, and answers 406.
pub proof fn lemma_unauthorized_refused(
    cookie: Option<Result<String, String>>,
    reference: Result<Option<String>, String>,
    body: Result<CreationRequest, String>,
    r: Result<MappingView, CreateErrorView>,
)
    requires
        !(reference matches Ok(Some(p)) && cookie matches Some(Ok(c)) && passcode_in(c@) == Some(
            p@,
        )),
        created(cookie, reference, body, r),
    ensures
        r is Err,
        post_spec(Err(r->Err_0)).status() == 406,
{
}

/// `OPTIONS` on any path answers 204 with the allowed methods and all
/// cross-origin headers.
pub proof fn lemma_options_preflight(path: Seq<char>)
    ensures
        route_spec(Method::Options, path) == StepView::Respond(ReplyView::Preflight),
        ReplyView::Preflight.status() == 204,
        ReplyView::Preflight.allow() == Some(allowed_methods()),
        ReplyView::Preflight.cors() == Cors::Full,
{
}

/// Two successful creations that name the same non-empty identifier both use
/// it as it is, and after both writes it leads to the second URL.
pub proof fn lemma_same_short_overwrites(
    cookie1: Option<Result<String, String>>,
    reference1: Result<Option<String>, String>,
    request1: CreationRequest,
    r1: Result<MappingView, CreateErrorView>,
    cookie2: Option<Result<String, String>>,
    reference2: Result<Option<String>, String>,
    request2: CreationRequest,
    r2: Result<MappingView, CreateErrorView>,
    store: Map<Seq<char>, Seq<char>>,
)
    requires
        request1.short.deep_view() == request2.short.deep_view(),
        request1.short matches Some(s) && s@.len() > 0,
        created(cookie1, reference1, Ok(request1), r1),
        created(cookie2, reference2, Ok(request2), r2),
        r1 is Ok,
        r2 is Ok,
    ensures
        r1->Ok_0.short == request1.short->Some_0@,
        r2->Ok_0.short == request1.short->Some_0@,
        after_write(after_write(store, r1->Ok_0), r2->Ok_0)[request1.short->Some_0@]
            == request2.url@,
{
}

} // verus!

//! Request handling: the decision each route takes, stated as a plain
//! function from request to response.
//!
//! Listening, routing and body parsing belong to the binary around this
//! crate; it maps each incoming request onto a [`Request`] value and sends
//! back the [`Response`] that [`handle`] returns.

use vstd::prelude::*;
use crate::product::{demo_products, demo_products_view, products_json, products_json_text};

verus! {

/// A request this backend answers, after routing.
///
/// A creation request carries no payload here: the posted JSON body is
/// read by the surrounding binary and, in the present stub state,
/// discarded unused.
pub enum Request {
    /// `GET /`
    Index,
    /// `GET /products`
    Products,
    /// `GET /articles`
    ArticlesList,
    /// `POST /articles`
    ArticlesCreate,
}

/// A response: a status code and a text body.
pub struct Response {
    pub status: u16,
    pub body: String,
}

/// Answers `GET /` with the static index page.
pub fn index_response() -> (r: Response)
    ensures
        r.status == 200,
        r.body@ == "Index page"@,
{
    Response { status: 200, body: String::from_str("Index page") }
}

/// Answers `GET /products` with the fixed catalogue as a JSON array.
pub fn products_response() -> (r: Response)
    ensures
        r.status == 200,
        r.body@ == products_json(demo_products_view()),
{
    let ps = demo_products();
    let body = products_json_text(&ps);
    Response { status: 200, body }
}

/// Answers `GET /articles`. Listing is not implemented yet, so this is a
/// stub: every call reports an internal server error with an empty body.
pub fn articles_list() -> (r: Response)
    ensures
        r.status == 500,
        r.body@ == Seq::<char>::empty(),
{
    let body = String::from_str("");
    proof {
        reveal_strlit("");
        assert(body@ =~= Seq::<char>::empty());
    }
    Response { status: 500, body }
}

/// Answers `POST /articles`. Creation is not implemented yet, so this is a
/// stub: every call reports an internal server error with an empty body,
/// whatever the posted payload was.
pub fn articles_create() -> (r: Response)
    ensures
        r.status == 500,
        r.body@ == Seq::<char>::empty(),
{
    let body = String::from_str("");
    proof {
        reveal_strlit("");
        assert(body@ =~= Seq::<char>::empty());
    }
    Response { status: 500, body }
}

/// The route table: maps each request to its response.
pub fn handle(req: &Request) -> (r: Response)
    ensures
        req is Index ==> r.status == 200 && r.body@ == "Index page"@,
        req is Products ==> r.status == 200 && r.body@ == products_json(demo_products_view()),
        req is ArticlesList ==> r.status == 500 && r.body@ == Seq::<char>::empty(),
        req is ArticlesCreate ==> r.status == 500 && r.body@ == Seq::<char>::empty(),
{
    match req {
        Request::Index => index_response(),
        Request::Products => products_response(),
        Request::ArticlesList => articles_list(),
        Request::ArticlesCreate => articles_create(),
    }
}

} // verus!

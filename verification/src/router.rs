//! Outcome-to-response mapping and the five handlers.
//!
//! Each handler runs the explicit validation step — whose baseline policy
//! accepts every body, leaving stricter checks to a future policy — calls
//! exactly one repository operation, and maps the outcome to a status and
//! body. The routing and deserialization layers already guarantee an
//! integer path id and two present string fields. All store failures
//! collapse to one status; a missed single-row lookup alone maps to its
//! own.

use vstd::prelude::*;

use crate::errors::RepoError;
use crate::errors::ValidationError;
use crate::models::CreateItemRequest;
use crate::models::Item;
use crate::models::ItemView;
use crate::table::contains_id;
use crate::table::deleted;
use crate::table::inserted;
use crate::table::lookup;
use crate::table::updated;
use crate::table::views_of;
use crate::table::ItemTable;

verus! {

/// Success status.
pub const STATUS_OK: u16 = 200;

/// The framework's default rejection of a bad request body. The baseline
/// validation policy never produces it.
pub const STATUS_BAD_REQUEST: u16 = 400;

/// A single-row lookup matched zero rows.
pub const STATUS_NOT_FOUND: u16 = 404;

/// The store reported a failure.
pub const STATUS_INTERNAL_ERROR: u16 = 500;

/// Abstract value of a response body.
#[verifier::ext_equal]
pub ghost enum BodyView {
    Empty,
    Text(Seq<char>),
    Item(ItemView),
    Items(Seq<ItemView>),
}

/// A response body: empty, plain text, one item, or an item list. The
/// wire encoding (JSON, UTF-8) belongs to the HTTP collaborator.
pub enum Body {
    Empty,
    Text(String),
    Item(Item),
    Items(Vec<Item>),
}

impl View for Body {
    type V = BodyView;

    open spec fn view(&self) -> BodyView {
        match self {
            Body::Empty => BodyView::Empty,
            Body::Text(s) => BodyView::Text(s@),
            Body::Item(it) => BodyView::Item(it@),
            Body::Items(its) => BodyView::Items(views_of(its@)),
        }
    }
}

/// Abstract value of a response.
#[verifier::ext_equal]
pub ghost struct ResponseView {
    pub status: int,
    pub body: BodyView,
}

/// An HTTP response as the core sees it: the status code, which is the
/// authoritative failure signal, and the body.
pub struct Response {
    pub status: u16,
    pub body: Body,
}

impl View for Response {
    type V = ResponseView;

    open spec fn view(&self) -> ResponseView {
        ResponseView { status: self.status as int, body: self.body@ }
    }
}

/// The semantic validation step on a request body, explicit and
/// swappable. The baseline policy deliberately accepts every body
/// verbatim — empty strings allowed, no length caps — so the result is
/// always the unchanged request; a stricter policy would replace only
/// this function, and its rejections would surface through the wiring
/// already in place in the handlers.
pub fn validate(req: CreateItemRequest) -> (r: Result<CreateItemRequest, ValidationError>)
    ensures
        r matches Ok(v) && v@ == req@,
{
    Ok(req)
}

/// Maps a create outcome: the fully populated new item on success; any
/// store failure collapses to the internal-error status with a short
/// plain-text body.
pub fn create_response(outcome: Result<Item, RepoError>) -> (r: Response)
    ensures
        outcome matches Ok(item) ==> r@ == (ResponseView {
            status: STATUS_OK as int,
            body: BodyView::Item(item@),
        }),
        outcome is Err ==> r@ == (ResponseView {
            status: STATUS_INTERNAL_ERROR as int,
            body: BodyView::Text("Error to create item"@),
        }),
{
    match outcome {
        Ok(item) => Response { status: STATUS_OK, body: Body::Item(item) },
        Err(_) => Response {
            status: STATUS_INTERNAL_ERROR,
            body: Body::Text(String::from_str("Error to create item")),
        },
    }
}

/// Maps a list outcome: the full item list on success, possibly empty;
/// any store failure collapses to the internal-error status, empty body.
pub fn list_response(outcome: Result<Vec<Item>, RepoError>) -> (r: Response)
    ensures
        outcome matches Ok(items) ==> r@ == (ResponseView {
            status: STATUS_OK as int,
            body: BodyView::Items(views_of(items@)),
        }),
        outcome is Err ==> r@ == (ResponseView {
            status: STATUS_INTERNAL_ERROR as int,
            body: BodyView::Empty,
        }),
{
    match outcome {
        Ok(items) => Response { status: STATUS_OK, body: Body::Items(items) },
        Err(_) => Response { status: STATUS_INTERNAL_ERROR, body: Body::Empty },
    }
}

/// Maps a fetch outcome: the item on success; a missed lookup maps to
/// not-found; any other store failure to internal error. Bodies on
/// failure are empty: the status is the signal.
pub fn get_response(outcome: Result<Item, RepoError>) -> (r: Response)
    ensures
        outcome matches Ok(item) ==> r@ == (ResponseView {
            status: STATUS_OK as int,
            body: BodyView::Item(item@),
        }),
        outcome == Err::<Item, RepoError>(RepoError::NotFound) ==> r@ == (ResponseView {
            status: STATUS_NOT_FOUND as int,
            body: BodyView::Empty,
        }),
        (outcome matches Err(e) && !(e is NotFound)) ==> r@ == (ResponseView {
            status: STATUS_INTERNAL_ERROR as int,
            body: BodyView::Empty,
        }),
{
    match outcome {
        Ok(item) => Response { status: STATUS_OK, body: Body::Item(item) },
        Err(RepoError::NotFound) => Response { status: STATUS_NOT_FOUND, body: Body::Empty },
        Err(RepoError::Store(_)) => Response { status: STATUS_INTERNAL_ERROR, body: Body::Empty },
    }
}

/// Maps an update outcome: success is the success status with an empty
/// body whatever the affected-row count reports, absent target included;
/// a store failure maps to internal error. The count is taken so the
/// caller's decision stays explicit and testable.
pub fn update_response(outcome: Result<u64, RepoError>) -> (r: Response)
    ensures
        outcome is Ok ==> r@ == (ResponseView { status: STATUS_OK as int, body: BodyView::Empty }),
        outcome is Err ==> r@ == (ResponseView {
            status: STATUS_INTERNAL_ERROR as int,
            body: BodyView::Empty,
        }),
{
    match outcome {
        Ok(_) => Response { status: STATUS_OK, body: Body::Empty },
        Err(_) => Response { status: STATUS_INTERNAL_ERROR, body: Body::Empty },
    }
}

/// Maps a delete outcome exactly as an update outcome: deleting an
/// already absent row is still success.
pub fn delete_response(outcome: Result<u64, RepoError>) -> (r: Response)
    ensures
        outcome is Ok ==> r@ == (ResponseView { status: STATUS_OK as int, body: BodyView::Empty }),
        outcome is Err ==> r@ == (ResponseView {
            status: STATUS_INTERNAL_ERROR as int,
            body: BodyView::Empty,
        }),
{
    match outcome {
        Ok(_) => Response { status: STATUS_OK, body: Body::Empty },
        Err(_) => Response { status: STATUS_INTERNAL_ERROR, body: Body::Empty },
    }
}

/// POST /items against the table model: inserts and answers with the
/// fully populated item, store-assigned id included. The only failure the
/// model can raise is id exhaustion, answered as a store failure is.
pub fn handle_create(table: &mut ItemTable, req: CreateItemRequest) -> (r: Response)
    requires
        old(table).wf(),
    ensures
        final(table).wf(),
        old(table).can_assign_id() ==> {
            &&& r@ == (ResponseView {
                status: STATUS_OK as int,
                body: BodyView::Item(ItemView {
                    id: old(table).next(),
                    name: req@.name,
                    description: req@.description,
                }),
            })
            &&& final(table)@ == inserted(old(table)@, old(table).next(), req@.name, req@.description)
            &&& final(table).next() == old(table).next() + 1
        },
        !old(table).can_assign_id() ==> {
            &&& r@ == (ResponseView {
                status: STATUS_INTERNAL_ERROR as int,
                body: BodyView::Text("Error to create item"@),
            })
            &&& final(table)@ == old(table)@
            &&& final(table).next() == old(table).next()
        },
{
    let req = match validate(req) {
        Ok(validated) => validated,
        Err(_) => {
            return Response { status: STATUS_BAD_REQUEST, body: Body::Empty };
        },
    };
    let outcome = table.insert(req.name, req.description);
    create_response(outcome)
}

/// GET /items against the table model: every row, empty table included.
pub fn handle_list(table: &ItemTable) -> (r: Response)
    ensures
        r@ == (ResponseView { status: STATUS_OK as int, body: BodyView::Items(table@) }),
{
    let items = table.select_all();
    list_response(Ok(items))
}

/// GET /items/{id} against the table model: the matching row when the id
/// exists, not-found when it does not.
pub fn handle_get(table: &ItemTable, id: i32) -> (r: Response)
    requires
        table.wf(),
    ensures
        contains_id(table@, id as int) ==> r@ == (ResponseView {
            status: STATUS_OK as int,
            body: BodyView::Item(lookup(table@, id as int)),
        }),
        !contains_id(table@, id as int) ==> r@ == (ResponseView {
            status: STATUS_NOT_FOUND as int,
            body: BodyView::Empty,
        }),
{
    let outcome = table.select_by_id(id);
    get_response(outcome)
}

/// PUT /items/{id} against the table model: overwrites both fields of the
/// matching row and answers success whatever the affected-row count,
/// absent target included.
pub fn handle_update(table: &mut ItemTable, id: i32, req: CreateItemRequest) -> (r: Response)
    requires
        old(table).wf(),
    ensures
        final(table).wf(),
        final(table)@ == updated(old(table)@, id as int, req@.name, req@.description),
        final(table).next() == old(table).next(),
        r@ == (ResponseView { status: STATUS_OK as int, body: BodyView::Empty }),
{
    let req = match validate(req) {
        Ok(validated) => validated,
        Err(_) => {
            return Response { status: STATUS_BAD_REQUEST, body: Body::Empty };
        },
    };
    let affected = table.update_by_id(id, req.name, req.description);
    update_response(Ok(affected))
}

/// DELETE /items/{id} against the table model: removes the matching row
/// and answers success whatever the affected-row count, so deleting an
/// already deleted id answers exactly as the first delete did.
pub fn handle_delete(table: &mut ItemTable, id: i32) -> (r: Response)
    requires
        old(table).wf(),
    ensures
        final(table).wf(),
        final(table)@ == deleted(old(table)@, id as int),
        final(table).next() == old(table).next(),
        r@ == (ResponseView { status: STATUS_OK as int, body: BodyView::Empty }),
{
    let affected = table.delete_by_id(id);
    delete_response(Ok(affected))
}

} // verus!

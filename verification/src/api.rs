//! The requests of the administration surface and the answers to them:
//! validation of a new long URL, the page of a listing, and the reports
//! of creation and removal.

use crate::code::{is_short_code, SHORT_URL_LENGTH};
use crate::errors::RusError;
use crate::model::{views, Model};
use crate::mutation::CreateMutation;
use crate::query::{ordered_by_id, page_rows, Query};
use crate::time::{Lifetime, CLOCK_LIMIT_SECS};
use vstd::prelude::*;
use vstd::string::StringExecFns;

verus! {

/// The rows on a page of the listing where the request names no number.
pub const DEFAULT_REDIRECTIONS_PER_PAGE: u64 = 5;

/// The parameters of a listing request.
#[derive(Debug)]
pub struct Params {
    pub page: Option<u64>,
    pub redirections_per_page: Option<u64>,
}

/// The form of a creation request.
#[derive(Debug)]
pub struct CreateForm {
    pub long_url: String,
}

/// The report of a creation.
#[derive(Debug, PartialEq, Eq)]
pub struct CreateResponse {
    pub error: bool,
    pub message: String,
}

/// The report of a removal.
#[derive(Debug, PartialEq, Eq)]
pub struct DeletedResponse {
    pub error: bool,
    pub message: String,
    pub id: i32,
}

/// What `url::Url::parse` objects to in a long URL: nothing where it
/// parses it as an absolute URL, else the text of its error.
pub uninterp spec fn url_refusal(long_url: Seq<char>) -> Option<Seq<char>>;

/// The objection that the outcome of a parse carries.
pub open spec fn refusal_of(parsed: Result<(), String>) -> Option<Seq<char>> {
    match parsed {
        Ok(()) => None,
        Err(report) => Some(report@),
    }
}

/// Parses `long_url` with `url::Url::parse` and hands back whether it was
/// accepted, and the text of the error where it was not. The parser reads
/// nothing but its argument.
#[verifier::external_body]
fn parse_url(long_url: &str) -> (r: Result<(), String>)
    ensures
        refusal_of(r) == url_refusal(long_url@),
{
    match url::Url::parse(long_url) {
        Ok(_) => Ok(()),
        Err(error) => Err(error.to_string()),
    }
}

impl Params {
    /// The page that is asked for: the first where none is named.
    pub open spec fn spec_page(self) -> int {
        match self.page {
            Some(page) => page as int,
            None => 1,
        }
    }

    /// The rows on a page: the default where no number is named.
    pub open spec fn spec_redirections_per_page(self) -> int {
        match self.redirections_per_page {
            Some(number) => number as int,
            None => DEFAULT_REDIRECTIONS_PER_PAGE as int,
        }
    }

    /// The page that is asked for.
    pub fn page(&self) -> (page: u64)
        ensures
            page == self.spec_page(),
    {
        match self.page {
            Some(page) => page,
            None => 1,
        }
    }

    /// The rows on a page.
    pub fn redirections_per_page(&self) -> (number: u64)
        ensures
            number == self.spec_redirections_per_page(),
    {
        match self.redirections_per_page {
            Some(number) => number,
            None => DEFAULT_REDIRECTIONS_PER_PAGE,
        }
    }
}

/// The rows that answer a listing request over the listing `rows`.
pub fn list(params: &Params, rows: &Vec<Model>) -> (page: Vec<Model>)
    requires
        params.spec_page() >= 1,
        params.spec_redirections_per_page() >= 1,
    ensures
        page@ == page_rows(rows@, params.spec_page(), params.spec_redirections_per_page()),
        ordered_by_id(views(rows@)) ==> ordered_by_id(views(page@)),
{
    let (page, _pages_count) = Query::find_redirections_in_page(
        rows,
        params.page(),
        params.redirections_per_page(),
    );
    page
}

/// The text of an address, or no text where the address is unknown.
pub open spec fn address_text(peer_ip: Option<String>) -> Seq<char> {
    match peer_ip {
        Some(address) => address@,
        None => Seq::<char>::empty(),
    }
}

/// Takes a creation request whose long URL has been parsed. A refused URL
/// fails validation with the parser's words, and no creation is made:
/// nothing will be written. An accepted one gives a creation made now for
/// the long URL and the requester's address, under a fresh random code.
pub fn create_parsed(
    form: CreateForm,
    parsed: Result<(), String>,
    peer_ip: Option<String>,
    link_lifetime: Lifetime,
) -> (r: Result<CreateMutation, RusError>)
    ensures
        parsed is Err ==> r == Err::<CreateMutation, RusError>(
            RusError::Validation(parsed->Err_0),
        ),
        parsed is Ok ==> r is Ok && ({
            let create = r->Ok_0;
            &&& create.wf()
            &&& create@.long_url == form.long_url@
            &&& create@.ip_address == address_text(peer_ip)
            &&& is_short_code(create@.short_url, SHORT_URL_LENGTH as nat)
            &&& 0 <= create@.creation_date < CLOCK_LIMIT_SECS * 1_000_000_000
            &&& create@.expiration_date == create@.creation_date + link_lifetime@ * 1_000_000_000
        }),
{
    match parsed {
        Err(report) => Err(RusError::Validation(report)),
        Ok(()) => {
            let ip_address = match peer_ip {
                Some(address) => address,
                None => String::new(),
            };
            Ok(CreateMutation::new(form.long_url, ip_address, link_lifetime))
        },
    }
}

/// Takes a creation request: the long URL must parse as an absolute URL,
/// or the request fails validation and nothing will be written.
pub fn create(form: CreateForm, peer_ip: Option<String>, link_lifetime: Lifetime) -> (r: Result<
    CreateMutation,
    RusError,
>)
    ensures
        url_refusal(form.long_url@) is Some ==> r is Err && r->Err_0 is Validation
            && r->Err_0->Validation_0@ == url_refusal(form.long_url@)->0,
        url_refusal(form.long_url@) is None ==> r is Ok && ({
            let create = r->Ok_0;
            &&& create.wf()
            &&& create@.long_url == form.long_url@
            &&& create@.ip_address == address_text(peer_ip)
            &&& is_short_code(create@.short_url, SHORT_URL_LENGTH as nat)
            &&& 0 <= create@.creation_date < CLOCK_LIMIT_SECS * 1_000_000_000
            &&& create@.expiration_date == create@.creation_date + link_lifetime@ * 1_000_000_000
        }),
{
    let parsed = parse_url(form.long_url.as_str());
    create_parsed(form, parsed, peer_ip, link_lifetime)
}

/// The report of a creation: the code of the row that the store took, or
/// the details of the failure.
pub fn created(outcome: Result<&Model, RusError>) -> (r: CreateResponse)
    ensures
        r.error == (outcome is Err),
        r.message@ == match outcome {
            Ok(row) => "Url "@ + row.short_url@ + " created"@,
            Err(error) => error.spec_details(),
        },
{
    match outcome {
        Ok(row) => CreateResponse {
            error: false,
            message: "Url ".to_owned().concat(row.short_url.as_str()).concat(" created"),
        },
        Err(error) => CreateResponse { error: true, message: error.details() },
    }
}

/// The report of the removal of the redirection `id`: that it is done, or
/// the details of the failure.
pub fn deleted(id: i32, outcome: Result<(), RusError>) -> (r: DeletedResponse)
    ensures
        r.id == id,
        r.error == (outcome is Err),
        r.message@ == match outcome {
            Ok(()) => "Deleted"@,
            Err(error) => error.spec_details(),
        },
{
    match outcome {
        Ok(()) => DeletedResponse { error: false, message: "Deleted".to_owned(), id },
        Err(error) => DeletedResponse { error: true, message: error.details(), id },
    }
}

} // verus!

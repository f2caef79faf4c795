//! Paging requests as the commands build them.
use vstd::prelude::*;

use crate::api::PageRequest;
use crate::cli::SortDirection;
use crate::text::opt_view;

verus! {

/// The paging of a listing command: the direction is sent by its Web API name.
pub fn page_request(
    limit: u16,
    start: u32,
    all: bool,
    sort: Option<String>,
    direction: Option<SortDirection>,
) -> (r: PageRequest)
    ensures
        r.limit == limit,
        r.start == start,
        r.all == all,
        opt_view(r.sort) == opt_view(sort),
        opt_view(r.direction) == match direction {
            Some(d) => Some(d.spec_api_str()),
            None => None,
        },
{
    let direction = match direction {
        Some(d) => Some(d.as_api_str().to_owned()),
        None => None,
    };
    PageRequest { limit, start, all, sort, direction }
}

/// The paging of `search`: sorted by modification date, newest first, unless told otherwise.
pub fn search_page_request(
    limit: u16,
    start: u32,
    all: bool,
    sort: Option<String>,
    direction: Option<SortDirection>,
) -> (r: PageRequest)
    ensures
        r.limit == limit,
        r.start == start,
        r.all == all,
        opt_view(r.sort) == Some(match sort { Some(s) => s@, None => "dateModified"@ }),
        opt_view(r.direction) == Some(match direction {
            Some(d) => d.spec_api_str(),
            None => "desc"@,
        }),
{
    let sort = match sort {
        Some(s) => s,
        None => "dateModified".to_owned(),
    };
    let direction = match direction {
        Some(d) => d.as_api_str().to_owned(),
        None => "desc".to_owned(),
    };
    PageRequest { limit, start, all, sort: Some(sort), direction: Some(direction) }
}

} // verus!

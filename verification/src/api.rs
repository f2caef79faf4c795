//! The requests that the command line sends to the Zotero Web API: endpoints and query parameters.
use vstd::prelude::*;

use crate::error::ZotError;
use crate::text::{concat2, concat3, decimal, decimal_string, opt_view};

verus! {

/// The view of query parameters: names and values as character sequences.
pub open spec fn params_view(p: Seq<(&str, String)>) -> Seq<(Seq<char>, Seq<char>)> {
    p.map_values(|x: (&str, String)| (x.0@, x.1@))
}

/// One query parameter, when the value is present.
pub open spec fn opt_param(name: Seq<char>, value: Option<Seq<char>>) -> Seq<(Seq<char>, Seq<char>)> {
    match value {
        Some(v) => seq![(name, v)],
        None => seq![],
    }
}

/// Appends one parameter.
fn push_param<'a>(params: &mut Vec<(&'a str, String)>, name: &'a str, value: String)
    ensures
        params_view(final(params)@) == params_view(old(params)@).push((name@, value@)),
{
    let ghost before = params@;
    params.push((name, value));
    assert(params_view(params@) =~= params_view(before).push((name@, value@)));
}

/// Paging and sorting of a list request.
#[derive(Debug, Clone)]
pub struct PageRequest {
    pub limit: u16,
    pub start: u32,
    pub all: bool,
    pub sort: Option<String>,
    pub direction: Option<String>,
}

impl PageRequest {
    /// The parameters `limit`, `start`, then `sort` and `direction` where set, after `params`.
    pub open spec fn spec_params(
        self,
        params: Seq<(Seq<char>, Seq<char>)>,
        start: u32,
    ) -> Seq<(Seq<char>, Seq<char>)> {
        params + seq![("limit"@, decimal(self.limit as nat)), ("start"@, decimal(start as nat))]
            + opt_param("sort"@, opt_view(self.sort)) + opt_param("direction"@, opt_view(self.direction))
    }

    /// Adds the paging parameters for a page that begins at `start` to `params`.
    pub fn params<'a>(&'a self, params: Vec<(&'a str, String)>, start: u32) -> (r: Vec<(&'a str, String)>)
        ensures
            params_view(r@) == self.spec_params(params_view(params@), start),
    {
        let mut params = params;
        let ghost given = params_view(params@);
        push_param(&mut params, "limit", decimal_string(self.limit as u64));
        push_param(&mut params, "start", decimal_string(start as u64));
        if let Some(sort) = &self.sort {
            push_param(&mut params, "sort", sort.clone());
        }
        if let Some(direction) = &self.direction {
            push_param(&mut params, "direction", direction.clone());
        }
        assert(params_view(params@) =~= self.spec_params(given, start));
        params
    }
}


/// The endpoint that lists items: all, top-level, trashed, or those of a collection.
pub open spec fn spec_item_list_endpoint(collection: Option<Seq<char>>, top: bool, trash: bool) -> Result<Seq<char>, ZotError> {
    if trash {
        if collection is Some || top {
            Err(ZotError::TrashWithListFilters)
        } else {
            Ok("items/trash"@)
        }
    } else {
        match collection {
            Some(c) => if top {
                Ok("collections/"@ + c + "/items/top"@)
            } else {
                Ok("collections/"@ + c + "/items"@)
            },
            None => if top { Ok("items/top"@) } else { Ok("items"@) },
        }
    }
}

/// The endpoint that lists the tags of items: all, top-level, trashed, or those of a collection.
pub open spec fn spec_item_tags_endpoint(collection: Option<Seq<char>>, top: bool, trash: bool) -> Result<Seq<char>, ZotError> {
    if trash {
        if collection is Some || top {
            Err(ZotError::TrashWithListFilters)
        } else {
            Ok("items/trash/tags"@)
        }
    } else {
        match collection {
            Some(c) => if top {
                Ok("collections/"@ + c + "/items/top/tags"@)
            } else {
                Ok("collections/"@ + c + "/items/tags"@)
            },
            None => if top { Ok("items/top/tags"@) } else { Ok("tags"@) },
        }
    }
}

/// The endpoint of a listing names what it lists: the trash alone, else the given collection
/// (`collections/<key>/items`, with `/top` exactly when only top-level items are asked for),
/// else the whole library (`items`, with `/top` likewise); the trash with a collection or
/// `--top` is refused. The tag listing is the same endpoint followed by `/tags`, except that
/// the whole library's tags are at `tags`.
pub proof fn law_listing_endpoints(collection: Option<Seq<char>>, top: bool, trash: bool)
    ensures
        trash && (collection is Some || top) ==> spec_item_list_endpoint(collection, top, trash)
            == Err::<Seq<char>, ZotError>(ZotError::TrashWithListFilters)
            && spec_item_tags_endpoint(collection, top, trash) == Err::<Seq<char>, ZotError>(ZotError::TrashWithListFilters),
        trash && collection is None && !top ==> spec_item_list_endpoint(collection, top, trash) == Ok::<Seq<char>, ZotError>("items/trash"@)
            && spec_item_tags_endpoint(collection, top, trash) == Ok::<Seq<char>, ZotError>("items/trash"@ + "/tags"@),
        !trash ==> (collection matches Some(c) ==> exists|rest: Seq<char>|
            #![trigger "collections/"@ + c + "/items"@ + rest]
            spec_item_list_endpoint(collection, top, trash) == Ok::<Seq<char>, ZotError>("collections/"@ + c + "/items"@ + rest)
            && spec_item_tags_endpoint(collection, top, trash) == Ok::<Seq<char>, ZotError>("collections/"@ + c + "/items"@ + rest + "/tags"@)
            && (top ==> rest == "/top"@) && (!top ==> rest.len() == 0)),
        !trash && collection is None ==> spec_item_list_endpoint(collection, top, trash)
            == Ok::<Seq<char>, ZotError>(if top { "items/top"@ } else { "items"@ })
            && spec_item_tags_endpoint(collection, top, trash) == Ok::<Seq<char>, ZotError>(if top { "items/top/tags"@ } else { "tags"@ }),
{
    reveal_strlit("items/trash");
    reveal_strlit("items/trash/tags");
    reveal_strlit("/tags");
    reveal_strlit("/items");
    reveal_strlit("/items/top");
    reveal_strlit("/top");
    reveal_strlit("/items/tags");
    reveal_strlit("/items/top/tags");
    assert("items/trash"@ + "/tags"@ =~= "items/trash/tags"@);
    if !trash {
        if let Some(c) = collection {
            let p = "collections/"@ + c;
            if top {
                let rest = "/top"@;
                assert(p + "/items"@ + rest =~= p + "/items/top"@);
                assert(p + "/items"@ + rest + "/tags"@ =~= p + "/items/top/tags"@);
                assert(spec_item_list_endpoint(collection, top, trash) == Ok::<Seq<char>, ZotError>("collections/"@ + c + "/items"@ + rest));
            } else {
                let rest = Seq::<char>::empty();
                assert(p + "/items"@ + rest =~= p + "/items"@);
                assert(p + "/items"@ + rest + "/tags"@ =~= p + "/items/tags"@);
                assert(spec_item_list_endpoint(collection, top, trash) == Ok::<Seq<char>, ZotError>("collections/"@ + c + "/items"@ + rest));
            }
        }
    }
}

/// The view of an endpoint result.
pub open spec fn endpoint_view(r: Result<String, ZotError>) -> Result<Seq<char>, ZotError> {
    match r {
        Ok(s) => Ok(s@),
        Err(e) => Err(e),
    }
}

/// The endpoint that lists items, see [`spec_item_list_endpoint`].
pub fn item_list_endpoint(collection: Option<&str>, top: bool, trash: bool) -> (r: Result<String, ZotError>)
    ensures
        endpoint_view(r) == spec_item_list_endpoint(
            match collection { Some(c) => Some(c@), None => None },
            top,
            trash,
        ),
{
    if trash {
        if collection.is_some() || top {
            return Err(ZotError::TrashWithListFilters);
        }
        return Ok("items/trash".to_owned());
    }
    match collection {
        Some(c) => if top {
            Ok(concat3("collections/", c, "/items/top"))
        } else {
            Ok(concat3("collections/", c, "/items"))
        },
        None => if top { Ok("items/top".to_owned()) } else { Ok("items".to_owned()) },
    }
}

/// The endpoint that lists tags, see [`spec_item_tags_endpoint`].
pub fn item_tags_endpoint(collection: Option<&str>, top: bool, trash: bool) -> (r: Result<String, ZotError>)
    ensures
        endpoint_view(r) == spec_item_tags_endpoint(
            match collection { Some(c) => Some(c@), None => None },
            top,
            trash,
        ),
{
    if trash {
        if collection.is_some() || top {
            return Err(ZotError::TrashWithListFilters);
        }
        return Ok("items/trash/tags".to_owned());
    }
    match collection {
        Some(c) => if top {
            Ok(concat3("collections/", c, "/items/top/tags"))
        } else {
            Ok(concat3("collections/", c, "/items/tags"))
        },
        None => if top { Ok("items/top/tags".to_owned()) } else { Ok("tags".to_owned()) },
    }
}

/// The endpoint of one item's children.
pub fn item_children_endpoint(key: &str) -> (r: String)
    ensures
        r@ == "items/"@ + key@ + "/children"@,
{
    concat3("items/", key, "/children")
}

/// The endpoint of one item.
pub fn item_endpoint(key: &str) -> (r: String)
    ensures
        r@ == "items/"@ + key@,
{
    concat2("items/", key)
}

fn opt_str(o: &Option<String>) -> (r: Option<&str>)
    ensures
        match r { Some(c) => Some(c@), None => None::<Seq<char>> } == opt_view(*o),
{
    match o {
        Some(s) => Some(s.as_str()),
        None => None,
    }
}

/// A request to export items in a bibliographic format.
#[derive(Debug, Clone)]
pub struct ExportRequest {
    pub format: String,
    pub item: Option<String>,
    pub collection: Option<String>,
    pub limit: u16,
    pub top: bool,
    pub trash: bool,
    pub style: Option<String>,
}

impl ExportRequest {
    /// The endpoint: one item, or a list of items; an item excludes every list filter.
    pub open spec fn spec_endpoint(self) -> Result<Seq<char>, ZotError> {
        if self.item is Some && (self.collection is Some || self.top || self.trash) {
            Err(ZotError::ItemWithListFilters)
        } else {
            match self.item {
                Some(item) => Ok("items/"@ + item@),
                None => spec_item_list_endpoint(opt_view(self.collection), self.top, self.trash),
            }
        }
    }

    /// The endpoint of the export, see [`ExportRequest::spec_endpoint`].
    pub fn endpoint(&self) -> (r: Result<String, ZotError>)
        ensures
            endpoint_view(r) == self.spec_endpoint(),
    {
        if self.item.is_some() && (self.collection.is_some() || self.top || self.trash) {
            return Err(ZotError::ItemWithListFilters);
        }
        if let Some(item) = &self.item {
            return Ok(concat2("items/", item.as_str()));
        }
        item_list_endpoint(opt_str(&self.collection), self.top, self.trash)
    }

    /// The parameters: the format, the limit unless one item is exported, then the style.
    pub open spec fn spec_params(self) -> Seq<(Seq<char>, Seq<char>)> {
        seq![("format"@, self.format@)]
            + (if self.item is None { seq![("limit"@, decimal(self.limit as nat))] } else { seq![] })
            + opt_param("style"@, opt_view(self.style))
    }

    /// The query parameters of the export, see [`ExportRequest::spec_params`].
    pub fn params(&self) -> (r: Vec<(&str, String)>)
        ensures
            params_view(r@) == self.spec_params(),
    {
        let mut params: Vec<(&str, String)> = Vec::new();
        push_param(&mut params, "format", self.format.clone());
        if self.item.is_none() {
            push_param(&mut params, "limit", decimal_string(self.limit as u64));
        }
        if let Some(style) = &self.style {
            push_param(&mut params, "style", style.clone());
        }
        assert(params_view(params@) =~= self.spec_params());
        params
    }
}

/// A request to list items.
#[derive(Debug, Clone)]
pub struct ItemsRequest {
    pub collection: Option<String>,
    pub page: PageRequest,
    pub tag: Option<String>,
    pub top: bool,
    pub trash: bool,
}

impl ItemsRequest {
    /// The endpoint of the listing, see [`spec_item_list_endpoint`].
    pub fn endpoint(&self) -> (r: Result<String, ZotError>)
        ensures
            endpoint_view(r) == spec_item_list_endpoint(opt_view(self.collection), self.top, self.trash),
    {
        item_list_endpoint(opt_str(&self.collection), self.top, self.trash)
    }

    /// The query parameters: the tag filter, where set.
    pub fn params(&self) -> (r: Vec<(&str, String)>)
        ensures
            params_view(r@) == opt_param("tag"@, opt_view(self.tag)),
    {
        let mut params: Vec<(&str, String)> = Vec::new();
        if let Some(tag) = &self.tag {
            push_param(&mut params, "tag", tag.clone());
        }
        assert(params_view(params@) =~= opt_param("tag"@, opt_view(self.tag)));
        params
    }
}

/// A request to list tags.
#[derive(Debug, Clone)]
pub struct TagsRequest {
    pub item: Option<String>,
    pub collection: Option<String>,
    pub page: PageRequest,
    pub query: Option<String>,
    pub qmode: String,
    pub top: bool,
    pub trash: bool,
}

impl TagsRequest {
    /// The endpoint: the tags of one item, or of a list of items; an item excludes every list filter.
    pub open spec fn spec_endpoint(self) -> Result<Seq<char>, ZotError> {
        if self.item is Some && (self.collection is Some || self.top || self.trash) {
            Err(ZotError::ItemWithListFilters)
        } else {
            match self.item {
                Some(item) => Ok("items/"@ + item@ + "/tags"@),
                None => spec_item_tags_endpoint(opt_view(self.collection), self.top, self.trash),
            }
        }
    }

    /// The endpoint of the tag listing, see [`TagsRequest::spec_endpoint`].
    pub fn endpoint(&self) -> (r: Result<String, ZotError>)
        ensures
            endpoint_view(r) == self.spec_endpoint(),
    {
        if self.item.is_some() && (self.collection.is_some() || self.top || self.trash) {
            return Err(ZotError::ItemWithListFilters);
        }
        if let Some(item) = &self.item {
            return Ok(concat3("items/", item.as_str(), "/tags"));
        }
        item_tags_endpoint(opt_str(&self.collection), self.top, self.trash)
    }

    /// The query parameters: the match mode, then the query where set.
    pub fn params(&self) -> (r: Vec<(&str, String)>)
        ensures
            params_view(r@) == seq![("qmode"@, self.qmode@)] + opt_param("q"@, opt_view(self.query)),
    {
        let mut params: Vec<(&str, String)> = Vec::new();
        push_param(&mut params, "qmode", self.qmode.clone());
        if let Some(query) = &self.query {
            push_param(&mut params, "q", query.clone());
        }
        assert(params_view(params@) =~= seq![("qmode"@, self.qmode@)] + opt_param("q"@, opt_view(self.query)));
        params
    }
}

} // verus!

//! Rules of the commands that stand apart from any request: when `delete` may go ahead, and
//! what `open` opens.
use vstd::prelude::*;

use crate::error::ZotError;
use crate::item::Item;
use crate::text::opt_view;

verus! {

/// `delete` goes ahead only with `--yes`, or as a dry run.
pub fn delete_guard(key: &str, yes: bool, dry_run: bool) -> (r: Result<(), ZotError>)
    ensures
        (yes || dry_run) ==> r is Ok,
        !(yes || dry_run) ==> (r matches Err(ZotError::DeleteWithoutYes(k)) && k@ == key@),
{
    if !dry_run && !yes {
        return Err(ZotError::DeleteWithoutYes(key.to_owned()));
    }
    Ok(())
}

/// The link of the item's page on zotero.org, where it has one.
pub open spec fn alternate_href(item: Item) -> Option<Seq<char>> {
    match item.links.alternate {
        Some(l) => opt_view(l.href),
        None => None,
    }
}

/// What `open` opens: with `--zotero` the item's page on zotero.org; otherwise the item's own
/// URL, else that page. Refused where there is none.
pub fn open_target_url(key: &str, item: &Item, zotero: bool) -> (r: Result<String, ZotError>)
    ensures
        zotero ==> match alternate_href(*item) {
            Some(h) => r matches Ok(t) && t@ == h,
            None => r matches Err(ZotError::NoZoteroUrl(k)) && k@ == key@,
        },
        !zotero ==> match opt_view(item.data.url) {
            Some(u) => r matches Ok(t) && t@ == u,
            None => match alternate_href(*item) {
                Some(h) => r matches Ok(t) && t@ == h,
                None => r matches Err(ZotError::NoItemUrl(k)) && k@ == key@,
            },
        },
{
    let alternate = match &item.links.alternate {
        Some(l) => match &l.href {
            Some(h) => Some(h.clone()),
            None => None,
        },
        None => None,
    };
    if zotero {
        return match alternate {
            Some(h) => Ok(h),
            None => Err(ZotError::NoZoteroUrl(key.to_owned())),
        };
    }
    match &item.data.url {
        Some(u) => Ok(u.clone()),
        None => match alternate {
            Some(h) => Ok(h),
            None => Err(ZotError::NoItemUrl(key.to_owned())),
        },
    }
}

} // verus!

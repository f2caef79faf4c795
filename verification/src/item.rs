//! Items, collections, tags and groups as the Web API returns them.
use vstd::prelude::*;

use crate::json::{Json, JsonValue};
use crate::text::{concat2, concat3, i64_decimal, int_decimal, join, join_strings, opt_view};

verus! {

/// Where an item's web page, enclosure and attachment live.
#[derive(Debug, Clone)]
pub struct LinkInfo {
    pub href: Option<String>,
    pub link_type: Option<String>,
    pub title: Option<String>,
    pub length: Option<u64>,
}

/// The links of an item.
#[derive(Debug, Clone)]
pub struct ItemLinks {
    pub alternate: Option<LinkInfo>,
    pub enclosure: Option<LinkInfo>,
    pub attachment: Option<LinkInfo>,
}

/// A creator of an item: one name, or first and last names.
#[derive(Debug, Clone)]
pub struct Creator {
    pub name: Option<String>,
    pub first_name: Option<String>,
    pub last_name: Option<String>,
}

/// The fields of an item that the command line shows.
#[derive(Debug, Clone)]
pub struct ItemData {
    pub item_type: String,
    pub title: Option<String>,
    pub short_title: Option<String>,
    pub subject: Option<String>,
    pub date: Option<String>,
    pub url: Option<String>,
    pub doi: Option<String>,
    pub filename: Option<String>,
    pub content_type: Option<String>,
    pub parent_item: Option<String>,
    pub publication_title: Option<String>,
    pub isbn: Option<String>,
    pub creators: Vec<Creator>,
}

/// An item of a library.
#[derive(Debug, Clone)]
pub struct Item {
    pub key: String,
    pub version: i64,
    pub links: ItemLinks,
    pub data: ItemData,
}

/// A tag and how often it is used.
#[derive(Debug, Clone)]
pub struct Tag {
    pub tag: String,
    pub tag_type: Option<i64>,
    pub meta: JsonValue,
}

/// The name, type and description of a group.
#[derive(Debug, Clone)]
pub struct GroupData {
    pub name: Option<String>,
    pub group_type: Option<String>,
    pub description: Option<String>,
}

/// A group library that a user belongs to.
#[derive(Debug, Clone)]
pub struct Group {
    pub id: i64,
    pub data: GroupData,
    pub meta: JsonValue,
    pub links: JsonValue,
}

/// The name and parent of a collection.
#[derive(Debug, Clone)]
pub struct CollectionData {
    pub name: Option<String>,
    pub parent_collection: Option<String>,
}

/// A collection of a library.
#[derive(Debug, Clone)]
pub struct Collection {
    pub key: String,
    pub version: i64,
    pub data: CollectionData,
}

/// The text of a field that the Web API may send as a string, a number, a boolean or null:
/// a string as it is, a number as written, `true` as `true`, and nothing for `false`, null or
/// a missing field. An array or an object is no such field (`None`).
pub open spec fn spec_stringish(v: Option<Json>) -> Option<Option<Seq<char>>> {
    match v {
        None => Some(None),
        Some(Json::Null) => Some(None),
        Some(Json::Bool(false)) => Some(None),
        Some(Json::Bool(true)) => Some(Some("true"@)),
        Some(Json::Str(t)) => Some(Some(t)),
        Some(Json::Int(i)) => Some(Some(int_decimal(i))),
        Some(Json::Number(t)) => Some(Some(t)),
        Some(Json::Array(_)) => None,
        Some(Json::Object(_)) => None,
    }
}

/// Reads a field that may be a string, a number, a boolean or null, see [`spec_stringish`].
pub fn stringish(v: Option<&JsonValue>) -> (r: Option<Option<String>>)
    ensures
        match r {
            Some(o) => spec_stringish(match v { Some(j) => Some(j@), None => None }) == Some(opt_view(o)),
            None => spec_stringish(match v { Some(j) => Some(j@), None => None }) is None,
        },
{
    match v {
        None => Some(None),
        Some(JsonValue::Null) => Some(None),
        Some(JsonValue::Bool(b)) => if *b { Some(Some("true".to_owned())) } else { Some(None) },
        Some(JsonValue::Str(t)) => Some(Some(t.clone())),
        Some(JsonValue::Int(i)) => Some(Some(i64_decimal(*i))),
        Some(JsonValue::Number(t)) => Some(Some(t.clone())),
        Some(JsonValue::Array(_)) => None,
        Some(JsonValue::Object(_)) => None,
    }
}

/// The name of a creator: its single name, else first and last names joined by a space,
/// else whichever of them it has.
pub open spec fn creator_name(c: Creator) -> Option<Seq<char>> {
    match c.name {
        Some(n) => Some(n@),
        None => match (c.first_name, c.last_name) {
            (Some(f), Some(l)) => Some(f@ + " "@ + l@),
            (None, Some(l)) => Some(l@),
            (Some(f), None) => Some(f@),
            (None, None) => None,
        },
    }
}

/// The names of the creators that have one, in order.
pub open spec fn creator_names(cs: Seq<Creator>) -> Seq<Seq<char>>
    decreases cs.len(),
{
    if cs.len() == 0 {
        seq![]
    } else {
        let rest = creator_names(cs.drop_last());
        match creator_name(cs.last()) {
            Some(n) => rest.push(n),
            None => rest,
        }
    }
}

/// Up to three creator names joined by commas, with ` et al.` when there are more creators
/// than names shown; none when no creator has a name.
pub open spec fn spec_creator_summary(cs: Seq<Creator>) -> Option<Seq<char>> {
    let all = creator_names(cs);
    let names = if all.len() > 3 { all.take(3) } else { all };
    if names.len() == 0 {
        None
    } else {
        Some(join(names, ", "@) + if cs.len() > names.len() { " et al."@ } else { ""@ })
    }
}

fn creator_name_of(c: &Creator) -> (r: Option<String>)
    ensures
        opt_view(r) == creator_name(*c),
{
    match &c.name {
        Some(n) => Some(n.clone()),
        None => match (&c.first_name, &c.last_name) {
            (Some(f), Some(l)) => Some(concat3(f.as_str(), " ", l.as_str())),
            (None, Some(l)) => Some(l.clone()),
            (Some(f), None) => Some(f.clone()),
            (None, None) => None,
        },
    }
}

/// A summary of the creators, see [`spec_creator_summary`].
pub fn creator_summary(creators: &[Creator]) -> (r: Option<String>)
    ensures
        opt_view(r) == spec_creator_summary(creators@),
{
    let ghost all = creator_names(creators@);
    let mut names: Vec<String> = Vec::new();
    let mut i: usize = 0;
    while i < creators.len() && names.len() < 3
        invariant
            0 <= i <= creators@.len(),
            all == creator_names(creators@),
            names@.map_values(|s: String| s@) == creator_names(creators@.take(i as int)),
            names@.len() <= 3,
        decreases creators@.len() - i,
    {
        assert(creators@.take(i + 1).drop_last() =~= creators@.take(i as int));
        let ghost before = names@;
        match creator_name_of(&creators[i]) {
            Some(n) => {
                names.push(n);
                assert(names@.map_values(|s: String| s@) =~= before.map_values(|s: String| s@).push(
                    creator_name(creators@[i as int])->Some_0,
                ));
            },
            None => {},
        }
        i = i + 1;
    }
    proof {
        lemma_creator_names_prefix(creators@, i as int);
    }
    let ghost shown = names@.map_values(|s: String| s@);
    assert(shown == if all.len() > 3 { all.take(3) } else { all });
    if names.len() == 0 {
        None
    } else {
        let joined = join_strings(&names, ", ");
        if creators.len() > names.len() {
            Some(concat2(joined.as_str(), " et al."))
        } else {
            proof {
                reveal_strlit("");
            }
            assert(joined@ + ""@ =~= joined@);
            Some(joined)
        }
    }
}

/// The names of a prefix of the creators are a prefix of the names.
proof fn lemma_creator_names_take(cs: Seq<Creator>, i: int)
    requires
        0 <= i <= cs.len(),
    ensures
        creator_names(cs.take(i)).len() <= creator_names(cs).len(),
        creator_names(cs) .take(creator_names(cs.take(i)).len() as int) == creator_names(cs.take(i)),
    decreases cs.len() - i,
{
    if i < cs.len() {
        lemma_creator_names_take(cs, i + 1);
        assert(cs.take(i + 1).drop_last() =~= cs.take(i));
        let a = creator_names(cs.take(i));
        let b = creator_names(cs.take(i + 1));
        assert(b.take(a.len() as int) =~= a);
        assert(creator_names(cs).take(b.len() as int).take(a.len() as int) =~= creator_names(cs).take(a.len() as int));
    } else {
        assert(cs.take(i) =~= cs);
        assert(creator_names(cs).take(creator_names(cs).len() as int) =~= creator_names(cs));
    }
}

/// When the scan stops, the names gathered are the first three names, or all of them.
proof fn lemma_creator_names_prefix(cs: Seq<Creator>, i: int)
    requires
        0 <= i <= cs.len(),
        i < cs.len() ==> creator_names(cs.take(i)).len() >= 3,
        creator_names(cs.take(i)).len() <= 3,
    ensures
        creator_names(cs.take(i)) == if creator_names(cs).len() > 3 {
            creator_names(cs).take(3)
        } else {
            creator_names(cs)
        },
{
    lemma_creator_names_take(cs, i);
    if i == cs.len() {
        assert(cs.take(i) =~= cs);
    }
}

impl ItemData {
    /// The title shown for an item: its title, else its subject, file name or short title.
    pub open spec fn spec_display_title(self) -> Seq<char> {
        match (self.title, self.subject, self.filename, self.short_title) {
            (Some(t), _, _, _) => t@,
            (None, Some(s), _, _) => s@,
            (None, None, Some(f), _) => f@,
            (None, None, None, Some(s)) => s@,
            (None, None, None, None) => "<untitled>"@,
        }
    }

    /// The title shown for an item, see [`ItemData::spec_display_title`].
    pub fn display_title(&self) -> (r: &str)
        ensures
            r@ == self.spec_display_title(),
    {
        match &self.title {
            Some(t) => t.as_str(),
            None => match &self.subject {
                Some(s) => s.as_str(),
                None => match &self.filename {
                    Some(f) => f.as_str(),
                    None => match &self.short_title {
                        Some(s) => s.as_str(),
                        None => "<untitled>",
                    },
                },
            },
        }
    }

    /// The details shown under an item: creators, date, publication, DOI, ISBN and content
    /// type, each where present.
    pub open spec fn spec_detail_bits(self) -> Seq<Seq<char>> {
        seq![].add(match spec_creator_summary(self.creators@) { Some(c) => seq![c], None => seq![] })
            + match self.date { Some(d) => seq![d@], None => seq![] }
            + match self.publication_title { Some(p) => seq![p@], None => seq![] }
            + match self.doi { Some(d) => seq!["doi:"@ + d@], None => seq![] }
            + match self.isbn { Some(i) => seq!["isbn:"@ + i@], None => seq![] }
            + match self.content_type { Some(c) => seq![c@], None => seq![] }
    }

    /// The details line of an item: its details joined by ` | `.
    pub fn detail_line(&self) -> (r: String)
        ensures
            r@ == join(self.spec_detail_bits(), " | "@),
    {
        let mut bits: Vec<String> = Vec::new();
        let ghost b0 = bits@.map_values(|s: String| s@);
        if let Some(creators) = creator_summary(self.creators.as_slice()) {
            bits.push(creators);
        }
        if let Some(date) = &self.date {
            bits.push(date.clone());
        }
        if let Some(p) = &self.publication_title {
            bits.push(p.clone());
        }
        if let Some(doi) = &self.doi {
            bits.push(concat2("doi:", doi.as_str()));
        }
        if let Some(isbn) = &self.isbn {
            bits.push(concat2("isbn:", isbn.as_str()));
        }
        if let Some(c) = &self.content_type {
            bits.push(c.clone());
        }
        assert(bits@.map_values(|s: String| s@) =~= self.spec_detail_bits());
        join_strings(&bits, " | ")
    }
}

} // verus!

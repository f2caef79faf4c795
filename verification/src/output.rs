//! The text that the command line prints for items, collections, tags, groups and created items.
use vstd::prelude::*;

use crate::item::{Collection, Group, Item, Tag};
use crate::json::{members_view, Json, JsonValue};
use crate::text::{concat2, concat3, i64_decimal, int_decimal, join, push_str, strings_view};
use crate::write::WriteSuccess;

verus! {

/// The details line of an item.
pub open spec fn spec_details(item: Item) -> Seq<char> {
    join(item.data.spec_detail_bits(), " | "@)
}

/// The lines of one item in a listing: key, type and title, then its details where it has any.
pub open spec fn item_entry(item: Item) -> Seq<Seq<char>> {
    seq![item.key@ + "  "@ + item.data.item_type@ + "  "@ + item.data.spec_display_title()]
        + if spec_details(item).len() > 0 { seq!["  "@ + spec_details(item)] } else { seq![] }
}

/// The lines of several items, one entry after the other.
pub open spec fn item_entries(items: Seq<Item>) -> Seq<Seq<char>>
    decreases items.len(),
{
    if items.len() == 0 {
        seq![]
    } else {
        item_entries(items.drop_last()) + item_entry(items.last())
    }
}

/// The lines of a listing of items: `no items`, or each item's entry.
pub open spec fn spec_item_lines(items: Seq<Item>) -> Seq<Seq<char>> {
    if items.len() == 0 { seq!["no items"@] } else { item_entries(items) }
}

fn push_line(lines: &mut Vec<String>, line: String)
    ensures
        strings_view(final(lines)@) == strings_view(old(lines)@).push(line@),
{
    let ghost before = lines@;
    lines.push(line);
    assert(strings_view(lines@) =~= strings_view(before).push(line@));
}

/// The lines that list items, see [`spec_item_lines`].
pub fn item_lines(items: &[Item]) -> (r: Vec<String>)
    ensures
        strings_view(r@) == spec_item_lines(items@),
{
    let mut lines: Vec<String> = Vec::new();
    if items.len() == 0 {
        push_line(&mut lines, "no items".to_owned());
        assert(strings_view(lines@) =~= seq!["no items"@]);
        return lines;
    }
    let mut i: usize = 0;
    assert(strings_view(lines@) =~= item_entries(items@.take(0)));
    while i < items.len()
        invariant
            0 <= i <= items@.len(),
            strings_view(lines@) == item_entries(items@.take(i as int)),
        decreases items@.len() - i,
    {
        let item = &items[i];
        let ghost before = strings_view(lines@);
        let mut head = concat3(item.key.as_str(), "  ", item.data.item_type.as_str());
        push_str(&mut head, "  ");
        push_str(&mut head, item.data.display_title());
        push_line(&mut lines, head);
        let details = item.data.detail_line();
        if !details.as_str().is_empty() {
            push_line(&mut lines, concat2("  ", details.as_str()));
        }
        assert(items@.take(i + 1).drop_last() =~= items@.take(i as int));
        assert(items@.take(i + 1).last() == *item);
        assert(strings_view(lines@) =~= before + item_entry(*item));
        i = i + 1;
    }
    assert(items@.take(items@.len() as int) =~= items@);
    lines
}

/// The lines of one collection: key and name, then its parent where it has one.
pub open spec fn collection_entry(c: Collection) -> Seq<Seq<char>> {
    seq![c.key@ + "  "@ + match c.data.name { Some(n) => n@, None => "<unnamed>"@ }]
        + match c.data.parent_collection { Some(p) => seq!["  parent "@ + p@], None => seq![] }
}

/// The lines of several collections, one entry after the other.
pub open spec fn collection_entries(cs: Seq<Collection>) -> Seq<Seq<char>>
    decreases cs.len(),
{
    if cs.len() == 0 {
        seq![]
    } else {
        collection_entries(cs.drop_last()) + collection_entry(cs.last())
    }
}

/// The lines that list collections: `no collections`, or each collection's entry.
pub fn collection_lines(collections: &[Collection]) -> (r: Vec<String>)
    ensures
        strings_view(r@) == if collections@.len() == 0 {
            seq!["no collections"@]
        } else {
            collection_entries(collections@)
        },
{
    let mut lines: Vec<String> = Vec::new();
    if collections.len() == 0 {
        push_line(&mut lines, "no collections".to_owned());
        assert(strings_view(lines@) =~= seq!["no collections"@]);
        return lines;
    }
    let mut i: usize = 0;
    assert(strings_view(lines@) =~= collection_entries(collections@.take(0)));
    while i < collections.len()
        invariant
            0 <= i <= collections@.len(),
            strings_view(lines@) == collection_entries(collections@.take(i as int)),
        decreases collections@.len() - i,
    {
        let c = &collections[i];
        let ghost before = strings_view(lines@);
        let name = match &c.data.name {
            Some(n) => n.as_str(),
            None => "<unnamed>",
        };
        push_line(&mut lines, concat3(c.key.as_str(), "  ", name));
        if let Some(p) = &c.data.parent_collection {
            push_line(&mut lines, concat2("  parent ", p.as_str()));
        }
        assert(collections@.take(i + 1).drop_last() =~= collections@.take(i as int));
        assert(collections@.take(i + 1).last() == *c);
        assert(strings_view(lines@) =~= before + collection_entry(*c));
        i = i + 1;
    }
    assert(collections@.take(collections@.len() as int) =~= collections@);
    lines
}

/// The lines that list tags: `no tags`, or each tag's name.
pub fn tag_lines(tags: &[Tag]) -> (r: Vec<String>)
    ensures
        strings_view(r@) == if tags@.len() == 0 {
            seq!["no tags"@]
        } else {
            tags@.map_values(|t: Tag| t.tag@)
        },
{
    let mut lines: Vec<String> = Vec::new();
    if tags.len() == 0 {
        push_line(&mut lines, "no tags".to_owned());
        assert(strings_view(lines@) =~= seq!["no tags"@]);
        return lines;
    }
    let mut i: usize = 0;
    while i < tags.len()
        invariant
            0 <= i <= tags@.len(),
            strings_view(lines@) == tags@.take(i as int).map_values(|t: Tag| t.tag@),
        decreases tags@.len() - i,
    {
        push_line(&mut lines, tags[i].tag.clone());
        assert(tags@.take(i + 1).map_values(|t: Tag| t.tag@) =~= tags@.take(i as int).map_values(|t: Tag| t.tag@).push(
            tags@[i as int].tag@,
        ));
        i = i + 1;
    }
    assert(tags@.take(tags@.len() as int) =~= tags@);
    lines
}

/// The line of one group: its id, type (else `group`) and name (else `<unnamed>`).
pub open spec fn group_line(g: Group) -> Seq<char> {
    int_decimal(g.id as int) + "  "@ + match g.data.group_type { Some(t) => t@, None => "group"@ } + "  "@
        + match g.data.name { Some(n) => n@, None => "<unnamed>"@ }
}

/// The lines that list groups: `no groups`, or each group's line.
pub fn group_lines(groups: &[Group]) -> (r: Vec<String>)
    ensures
        strings_view(r@) == if groups@.len() == 0 {
            seq!["no groups"@]
        } else {
            groups@.map_values(|g: Group| group_line(g))
        },
{
    let mut lines: Vec<String> = Vec::new();
    if groups.len() == 0 {
        push_line(&mut lines, "no groups".to_owned());
        assert(strings_view(lines@) =~= seq!["no groups"@]);
        return lines;
    }
    let mut i: usize = 0;
    while i < groups.len()
        invariant
            0 <= i <= groups@.len(),
            strings_view(lines@) == groups@.take(i as int).map_values(|g: Group| group_line(g)),
        decreases groups@.len() - i,
    {
        let g = &groups[i];
        let name = match &g.data.name {
            Some(n) => n.as_str(),
            None => "<unnamed>",
        };
        let group_type = match &g.data.group_type {
            Some(t) => t.as_str(),
            None => "group",
        };
        let mut line = concat3(i64_decimal(g.id).as_str(), "  ", group_type);
        push_str(&mut line, "  ");
        push_str(&mut line, name);
        push_line(&mut lines, line);
        assert(groups@.take(i + 1).map_values(|g: Group| group_line(g)) =~= groups@.take(i as int).map_values(
            |g: Group| group_line(g),
        ).push(group_line(groups@[i as int])));
        i = i + 1;
    }
    assert(groups@.take(groups@.len() as int) =~= groups@);
    lines
}

/// The lines that show one item: key, type, title, then details, URL and parent where present.
pub open spec fn spec_item_detail_lines(item: Item) -> Seq<Seq<char>> {
    seq!["key "@ + item.key@, "type "@ + item.data.item_type@, "title "@ + item.data.spec_display_title()]
        + (if spec_details(item).len() > 0 { seq!["details "@ + spec_details(item)] } else { seq![] })
        + match item.data.url { Some(u) => seq!["url "@ + u@], None => seq![] }
        + match item.data.parent_item { Some(p) => seq!["parent "@ + p@], None => seq![] }
}

/// The lines that show one item, see [`spec_item_detail_lines`].
pub fn item_detail_lines(item: &Item) -> (r: Vec<String>)
    ensures
        strings_view(r@) == spec_item_detail_lines(*item),
{
    let mut lines: Vec<String> = Vec::new();
    push_line(&mut lines, concat2("key ", item.key.as_str()));
    push_line(&mut lines, concat2("type ", item.data.item_type.as_str()));
    push_line(&mut lines, concat2("title ", item.data.display_title()));
    let details = item.data.detail_line();
    if !details.as_str().is_empty() {
        push_line(&mut lines, concat2("details ", details.as_str()));
    }
    if let Some(u) = &item.data.url {
        push_line(&mut lines, concat2("url ", u.as_str()));
    }
    if let Some(p) = &item.data.parent_item {
        push_line(&mut lines, concat2("parent ", p.as_str()));
    }
    assert(strings_view(lines@) =~= spec_item_detail_lines(*item));
    lines
}

/// The lines that report a created object: its key, then the type and title of a whole item.
pub fn created_item_lines(created: &WriteSuccess) -> (r: Vec<String>)
    ensures
        strings_view(r@) == match created {
            WriteSuccess::Key(k) => seq!["created "@ + k@],
            WriteSuccess::Item(item) => seq![
                "created "@ + item.key@,
                "type "@ + item.data.item_type@,
                "title "@ + item.data.spec_display_title(),
            ],
        },
{
    let mut lines: Vec<String> = Vec::new();
    push_line(&mut lines, concat2("created ", created.key()));
    match created {
        WriteSuccess::Key(_) => {},
        WriteSuccess::Item(item) => {
            push_line(&mut lines, concat2("type ", item.data.item_type.as_str()));
            push_line(&mut lines, concat2("title ", item.data.display_title()));
        },
    }
    proof {
        match created {
            WriteSuccess::Key(k) => assert(strings_view(lines@) =~= seq!["created "@ + k@]),
            WriteSuccess::Item(item) => assert(strings_view(lines@) =~= seq![
                "created "@ + item.key@,
                "type "@ + item.data.item_type@,
                "title "@ + item.data.spec_display_title(),
            ]),
        }
    }
    lines
}


fn object_of(members: Vec<(String, JsonValue)>) -> (r: JsonValue)
    ensures
        r@ == Json::Object(members_view(members@)),
{
    JsonValue::object(members)
}

fn push_member(members: &mut Vec<(String, JsonValue)>, key: &str, value: JsonValue)
    ensures
        members_view(final(members)@) == members_view(old(members)@).push((key@, value@)),
{
    let ghost before = members@;
    members.push((key.to_owned(), value));
    assert(members_view(members@) =~= members_view(before).push((key@, value@)));
}

/// The dry run of `add` or `attach` as JSON: `dry_run` and the item that would be created.
pub fn dry_run_item_json(item: JsonValue) -> (r: JsonValue)
    ensures
        r@ == Json::Object(seq![("dry_run"@, Json::Bool(true)), ("item"@, item@)]),
{
    let ghost iv = item@;
    let mut m: Vec<(String, JsonValue)> = Vec::new();
    push_member(&mut m, "dry_run", JsonValue::Bool(true));
    push_member(&mut m, "item", item);
    assert(members_view(m@) =~= seq![("dry_run"@, Json::Bool(true)), ("item"@, iv)]);
    object_of(m)
}

/// The dry run of `update` as JSON: `dry_run`, the item's key and version, and the patch.
pub fn dry_run_update_json(key: &str, version: i64, patch: JsonValue) -> (r: JsonValue)
    ensures
        r@ == Json::Object(seq![
            ("dry_run"@, Json::Bool(true)),
            ("key"@, Json::Str(key@)),
            ("version"@, Json::Int(version as int)),
            ("patch"@, patch@),
        ]),
{
    let ghost pv = patch@;
    let mut m: Vec<(String, JsonValue)> = Vec::new();
    push_member(&mut m, "dry_run", JsonValue::Bool(true));
    push_member(&mut m, "key", JsonValue::from_str(key));
    push_member(&mut m, "version", JsonValue::Int(version));
    push_member(&mut m, "patch", patch);
    assert(members_view(m@) =~= seq![
        ("dry_run"@, Json::Bool(true)),
        ("key"@, Json::Str(key@)),
        ("version"@, Json::Int(version as int)),
        ("patch"@, pv),
    ]);
    object_of(m)
}

/// The dry run of `delete` as JSON: `dry_run`, and the item's key and version.
pub fn dry_run_delete_json(key: &str, version: i64) -> (r: JsonValue)
    ensures
        r@ == Json::Object(seq![
            ("dry_run"@, Json::Bool(true)),
            ("key"@, Json::Str(key@)),
            ("version"@, Json::Int(version as int)),
        ]),
{
    let mut m: Vec<(String, JsonValue)> = Vec::new();
    push_member(&mut m, "dry_run", JsonValue::Bool(true));
    push_member(&mut m, "key", JsonValue::from_str(key));
    push_member(&mut m, "version", JsonValue::Int(version));
    assert(members_view(m@) =~= seq![
        ("dry_run"@, Json::Bool(true)),
        ("key"@, Json::Str(key@)),
        ("version"@, Json::Int(version as int)),
    ]);
    object_of(m)
}

/// A created object as JSON: its key, and the whole item where the Web API returned one
/// (`item` is that item as JSON).
pub fn created_to_json(key: &str, item: Option<JsonValue>) -> (r: JsonValue)
    ensures
        r@ == match item {
            Some(i) => Json::Object(seq![("key"@, Json::Str(key@)), ("item"@, i@)]),
            None => Json::Object(seq![("key"@, Json::Str(key@))]),
        },
{
    let ghost before = item;
    let mut m: Vec<(String, JsonValue)> = Vec::new();
    push_member(&mut m, "key", JsonValue::from_str(key));
    match item {
        Some(i) => {
            push_member(&mut m, "item", i);
        },
        None => {},
    }
    assert(members_view(m@) =~= match before {
        Some(i) => seq![("key"@, Json::Str(key@)), ("item"@, i@)],
        None => seq![("key"@, Json::Str(key@))],
    });
    object_of(m)
}

/// What `open --json` reports: the key, the target, whether it was opened, and whether the
/// target is the page on zotero.org or the item's own.
pub fn open_json(key: &str, target: &str, opened: bool, zotero: bool) -> (r: JsonValue)
    ensures
        r@ == Json::Object(seq![
            ("key"@, Json::Str(key@)),
            ("target"@, Json::Str(target@)),
            ("opened"@, Json::Bool(opened)),
            ("source"@, Json::Str(if zotero { "zotero"@ } else { "item"@ })),
        ]),
{
    let mut m: Vec<(String, JsonValue)> = Vec::new();
    push_member(&mut m, "key", JsonValue::from_str(key));
    push_member(&mut m, "target", JsonValue::from_str(target));
    push_member(&mut m, "opened", JsonValue::Bool(opened));
    push_member(&mut m, "source", JsonValue::from_str(if zotero { "zotero" } else { "item" }));
    assert(members_view(m@) =~= seq![
        ("key"@, Json::Str(key@)),
        ("target"@, Json::Str(target@)),
        ("opened"@, Json::Bool(opened)),
        ("source"@, Json::Str(if zotero { "zotero"@ } else { "item"@ })),
    ]);
    object_of(m)
}

/// What `pdf --json` reports: the key asked for, the attachment's key, the file written, and
/// whether it was opened.
pub fn pdf_json(requested_key: &str, attachment_key: &str, path: &str, opened: bool) -> (r: JsonValue)
    ensures
        r@ == Json::Object(seq![
            ("requested_key"@, Json::Str(requested_key@)),
            ("attachment_key"@, Json::Str(attachment_key@)),
            ("path"@, Json::Str(path@)),
            ("opened"@, Json::Bool(opened)),
        ]),
{
    let mut m: Vec<(String, JsonValue)> = Vec::new();
    push_member(&mut m, "requested_key", JsonValue::from_str(requested_key));
    push_member(&mut m, "attachment_key", JsonValue::from_str(attachment_key));
    push_member(&mut m, "path", JsonValue::from_str(path));
    push_member(&mut m, "opened", JsonValue::Bool(opened));
    assert(members_view(m@) =~= seq![
        ("requested_key"@, Json::Str(requested_key@)),
        ("attachment_key"@, Json::Str(attachment_key@)),
        ("path"@, Json::Str(path@)),
        ("opened"@, Json::Bool(opened)),
    ]);
    object_of(m)
}

/// What `export --json` reports when the export was written to a file: the format and the file.
pub fn export_written_json(format: &str, path: &str) -> (r: JsonValue)
    ensures
        r@ == Json::Object(seq![
            ("format"@, Json::Str(format@)),
            ("path"@, Json::Str(path@)),
            ("written"@, Json::Bool(true)),
        ]),
{
    let mut m: Vec<(String, JsonValue)> = Vec::new();
    push_member(&mut m, "format", JsonValue::from_str(format));
    push_member(&mut m, "path", JsonValue::from_str(path));
    push_member(&mut m, "written", JsonValue::Bool(true));
    assert(members_view(m@) =~= seq![
        ("format"@, Json::Str(format@)),
        ("path"@, Json::Str(path@)),
        ("written"@, Json::Bool(true)),
    ]);
    object_of(m)
}

/// What `export --json` reports otherwise: the format and the exported text.
pub fn export_content_json(format: &str, content: &str) -> (r: JsonValue)
    ensures
        r@ == Json::Object(seq![("format"@, Json::Str(format@)), ("content"@, Json::Str(content@))]),
{
    let mut m: Vec<(String, JsonValue)> = Vec::new();
    push_member(&mut m, "format", JsonValue::from_str(format));
    push_member(&mut m, "content", JsonValue::from_str(content));
    assert(members_view(m@) =~= seq![("format"@, Json::Str(format@)), ("content"@, Json::Str(content@))]);
    object_of(m)
}

/// What `resolve-user --json` reports: the username and its user id.
pub fn resolve_user_json(username: &str, user_id: &str) -> (r: JsonValue)
    ensures
        r@ == Json::Object(seq![("username"@, Json::Str(username@)), ("user_id"@, Json::Str(user_id@))]),
{
    let mut m: Vec<(String, JsonValue)> = Vec::new();
    push_member(&mut m, "username", JsonValue::from_str(username));
    push_member(&mut m, "user_id", JsonValue::from_str(user_id));
    assert(members_view(m@) =~= seq![("username"@, Json::Str(username@)), ("user_id"@, Json::Str(user_id@))]);
    object_of(m)
}

} // verus!

//! The PATCH body that `update` sends.
use vstd::prelude::*;

use crate::add_metadata::{string_array, tag_object};
use crate::text::strings_view;
use crate::error::ZotError;
use crate::json::{lemma_get_after_set, values_view, Json, JsonValue};

verus! {

/// What `update` was asked to change.
pub struct UpdatePatchInput<'a> {
    pub title: Option<&'a str>,
    pub url: Option<&'a str>,
    pub tags: &'a [String],
    pub clear_tags: bool,
    pub collections: &'a [String],
    pub clear_collections: bool,
}

/// An array of tag objects, one per tag.
pub open spec fn tag_array(tags: Seq<Seq<char>>) -> Json {
    Json::Array(tags.map_values(|t: Seq<char>| tag_object(t)))
}

/// Sets a member where a value is given.
pub open spec fn set_opt(j: Json, key: Seq<char>, value: Option<Json>) -> Json {
    match value {
        Some(v) => j.set_field(key, v),
        None => j,
    }
}

impl<'a> UpdatePatchInput<'a> {
    /// The new title, where given.
    pub open spec fn title_value(self) -> Option<Json> {
        match self.title { Some(t) => Some(Json::Str(t@)), None => None }
    }

    /// The new URL, where given.
    pub open spec fn url_value(self) -> Option<Json> {
        match self.url { Some(u) => Some(Json::Str(u@)), None => None }
    }

    /// The new tags: none to clear them, else the given tags, where any are given.
    pub open spec fn tags_value(self) -> Option<Json> {
        if self.clear_tags {
            Some(Json::Array(seq![]))
        } else if self.tags@.len() > 0 {
            Some(tag_array(strings_view(self.tags@)))
        } else {
            None
        }
    }

    /// The new collections: none to clear them, else the given keys, where any are given.
    pub open spec fn collections_value(self) -> Option<Json> {
        if self.clear_collections {
            Some(Json::Array(seq![]))
        } else if self.collections@.len() > 0 {
            Some(string_array(strings_view(self.collections@)))
        } else {
            None
        }
    }

    /// Whether nothing is to be changed.
    pub open spec fn is_empty(self) -> bool {
        self.title is None && self.url is None && self.tags_value() is None && self.collections_value() is None
    }

    /// The patch object: title, url, tags, collections, each where given.
    pub open spec fn spec_patch(self) -> Json {
        set_opt(set_opt(set_opt(set_opt(Json::Object(seq![]), "title"@, self.title_value()), "url"@,
            self.url_value()), "tags"@, self.tags_value()), "collections"@, self.collections_value())
    }
}

proof fn lemma_set_opt_get(j: Json, key: Seq<char>, value: Option<Json>, k: Seq<char>)
    requires
        j is Object,
    ensures
        set_opt(j, key, value) is Object,
        k == key && value is Some ==> set_opt(j, key, value).get(k) == value,
        !(k == key && value is Some) ==> set_opt(j, key, value).get(k) == j.get(k),
{
    if let Some(v) = value {
        lemma_get_after_set(j, key, v, k);
    }
}

/// The PATCH body of `update` holds exactly what was asked: the title and the URL where given;
/// an empty tag list to clear the tags, else one `{"tag": t}` object per given tag, in order;
/// an empty collection list to clear the collections, else the given collection keys, in
/// order; and no member for anything not asked for. It is empty exactly when nothing was asked.
pub proof fn law_update_patch_members(input: UpdatePatchInput)
    ensures
        ({
            let p = input.spec_patch();
            &&& p is Object
            &&& (input.title matches Some(t) ==> p.get("title"@) == Some(Json::Str(t@)))
            &&& (input.title is None ==> p.get("title"@) is None)
            &&& (input.url matches Some(u) ==> p.get("url"@) == Some(Json::Str(u@)))
            &&& (input.url is None ==> p.get("url"@) is None)
            &&& (input.clear_tags ==> p.get("tags"@) == Some(Json::Array(seq![])))
            &&& (!input.clear_tags && input.tags@.len() > 0 ==> (p.get("tags"@) matches Some(Json::Array(a))
                && a.len() == input.tags@.len()
                && forall|i: int| 0 <= i < a.len() ==> #[trigger] a[i] == Json::Object(seq![("tag"@, Json::Str(input.tags@[i]@))])))
            &&& (!input.clear_tags && input.tags@.len() == 0 ==> p.get("tags"@) is None)
            &&& (input.clear_collections ==> p.get("collections"@) == Some(Json::Array(seq![])))
            &&& (!input.clear_collections && input.collections@.len() > 0 ==> (p.get("collections"@) matches Some(Json::Array(a))
                && a.len() == input.collections@.len()
                && forall|i: int| 0 <= i < a.len() ==> #[trigger] a[i] == Json::Str(input.collections@[i]@)))
            &&& (!input.clear_collections && input.collections@.len() == 0 ==> p.get("collections"@) is None)
            &&& (input.is_empty() <==> (input.title is None && input.url is None && !input.clear_tags
                && input.tags@.len() == 0 && !input.clear_collections && input.collections@.len() == 0))
        }),
{
    reveal_strlit("title");
    reveal_strlit("url");
    reveal_strlit("tags");
    reveal_strlit("collections");
    let keys = seq!["title"@, "url"@, "tags"@, "collections"@];
    assert(keys[0][0] == 't' && keys[1][0] == 'u' && keys[3][0] == 'c');
    assert(keys[0].len() == 5 && keys[2].len() == 4);
    assert forall|a: int, b: int| 0 <= a < b < 4 implies keys[a] != keys[b] by {
        if a == 0 && b == 2 {
            assert(keys[a].len() != keys[b].len());
        } else {
            assert(keys[2][0] == 't');
            assert(keys[a][0] != keys[b][0]);
        }
    }
    let empty = Json::Object(seq![]);
    let j1 = set_opt(empty, keys[0], input.title_value());
    let j2 = set_opt(j1, keys[1], input.url_value());
    let j3 = set_opt(j2, keys[2], input.tags_value());
    let j4 = set_opt(j3, keys[3], input.collections_value());
    assert(j4 == input.spec_patch());
    assert forall|k: Seq<char>| #![auto] true implies j4.get(k) == (
        if k == keys[3] && input.collections_value() is Some { input.collections_value() }
        else if k == keys[2] && input.tags_value() is Some { input.tags_value() }
        else if k == keys[1] && input.url_value() is Some { input.url_value() }
        else if k == keys[0] && input.title_value() is Some { input.title_value() }
        else { None }
    ) by {
        lemma_set_opt_get(empty, keys[0], input.title_value(), k);
        lemma_set_opt_get(j1, keys[1], input.url_value(), k);
        lemma_set_opt_get(j2, keys[2], input.tags_value(), k);
        lemma_set_opt_get(j3, keys[3], input.collections_value(), k);
    }
    assert(j4.get(keys[0]) == j4.get("title"@));
    assert(j4.get(keys[1]) == j4.get("url"@));
    assert(j4.get(keys[2]) == j4.get("tags"@));
    assert(j4.get(keys[3]) == j4.get("collections"@));
    lemma_set_opt_get(j3, keys[3], input.collections_value(), keys[0]);
    lemma_set_opt_get(j3, keys[3], input.collections_value(), keys[1]);
    lemma_set_opt_get(j3, keys[3], input.collections_value(), keys[2]);
    lemma_set_opt_get(j3, keys[3], input.collections_value(), keys[3]);
}

fn strings_array(values: &[String]) -> (r: JsonValue)
    ensures
        r@ == string_array(strings_view(values@)),
{
    let mut out: Vec<JsonValue> = Vec::new();
    let mut i: usize = 0;
    while i < values.len()
        invariant
            0 <= i <= values@.len(),
            values_view(out@) == strings_view(values@).take(i as int).map_values(|x: Seq<char>| Json::Str(x)),
        decreases values@.len() - i,
    {
        let ghost before = out@;
        out.push(JsonValue::from_str(values[i].as_str()));
        assert(values_view(out@) =~= values_view(before).push(Json::Str(values@[i as int]@)));
        assert(strings_view(values@).take(i + 1).map_values(|x: Seq<char>| Json::Str(x)) =~= strings_view(
            values@,
        ).take(i as int).map_values(|x: Seq<char>| Json::Str(x)).push(Json::Str(values@[i as int]@)));
        i = i + 1;
    }
    assert(strings_view(values@).take(values@.len() as int) =~= strings_view(values@));
    JsonValue::array(out)
}

fn tags_array(values: &[String]) -> (r: JsonValue)
    ensures
        r@ == tag_array(strings_view(values@)),
{
    let mut out: Vec<JsonValue> = Vec::new();
    let mut i: usize = 0;
    while i < values.len()
        invariant
            0 <= i <= values@.len(),
            values_view(out@) == strings_view(values@).take(i as int).map_values(|t: Seq<char>| tag_object(t)),
        decreases values@.len() - i,
    {
        let ghost before = out@;
        let mut members: Vec<(String, JsonValue)> = Vec::new();
        members.push(("tag".to_owned(), JsonValue::from_str(values[i].as_str())));
        assert(crate::json::members_view(members@) =~= seq![("tag"@, Json::Str(values@[i as int]@))]);
        out.push(JsonValue::object(members));
        assert(values_view(out@) =~= values_view(before).push(tag_object(values@[i as int]@)));
        assert(strings_view(values@).take(i + 1).map_values(|t: Seq<char>| tag_object(t)) =~= strings_view(
            values@,
        ).take(i as int).map_values(|t: Seq<char>| tag_object(t)).push(tag_object(values@[i as int]@)));
        i = i + 1;
    }
    assert(strings_view(values@).take(values@.len() as int) =~= strings_view(values@));
    JsonValue::array(out)
}

/// Builds the PATCH body of `update`; refused when it would change nothing.
pub fn build_update_patch(input: UpdatePatchInput<'_>) -> (r: Result<JsonValue, ZotError>)
    ensures
        match r {
            Ok(p) => !input.is_empty() && p@ == input.spec_patch(),
            Err(e) => input.is_empty() && e == ZotError::NoUpdateFields,
        },
{
    let mut patch = JsonValue::object(Vec::new());
    assert(crate::json::members_view(Seq::<(String, JsonValue)>::empty()) =~= seq![]);
    let ghost p0 = patch@;
    if let Some(title) = input.title {
        patch.set_field("title", JsonValue::from_str(title));
    }
    let ghost p1 = patch@;
    if let Some(url) = input.url {
        patch.set_field("url", JsonValue::from_str(url));
    }
    let ghost p2 = patch@;
    if input.clear_tags {
        patch.set_field("tags", JsonValue::array(Vec::new()));
        assert(values_view(Seq::<JsonValue>::empty()) =~= seq![]);
    } else if input.tags.len() != 0 {
        patch.set_field("tags", tags_array(input.tags));
    }
    let ghost p3 = patch@;
    if input.clear_collections {
        patch.set_field("collections", JsonValue::array(Vec::new()));
        assert(values_view(Seq::<JsonValue>::empty()) =~= seq![]);
    } else if input.collections.len() != 0 {
        patch.set_field("collections", strings_array(input.collections));
    }
    assert(p0 == Json::Object(seq![]));
    assert(patch@ == input.spec_patch());
    if input.title.is_none() && input.url.is_none() && !input.clear_tags && input.tags.len() == 0
        && !input.clear_collections && input.collections.len() == 0 {
        return Err(ZotError::NoUpdateFields);
    }
    Ok(patch)
}

} // verus!

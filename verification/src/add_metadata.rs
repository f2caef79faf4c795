//! Collections and tags that `add` merges into the item it creates.
use vstd::prelude::*;

use crate::json::{lemma_get_after_set, lemma_member_index_at, lemma_set_same, values_view, Json, JsonValue};
use crate::text::{str_eq, strings_view};

verus! {

/// The strings among a sequence of values, in order.
pub open spec fn string_values(a: Seq<Json>) -> Seq<Seq<char>>
    decreases a.len(),
{
    if a.len() == 0 {
        seq![]
    } else {
        let rest = string_values(a.drop_last());
        match a.last() {
            Json::Str(s) => rest.push(s),
            _ => rest,
        }
    }
}

/// The existing strings, then each addition that is not yet among them, once.
pub open spec fn merged_strings(existing: Seq<Seq<char>>, additions: Seq<Seq<char>>) -> Seq<Seq<char>>
    decreases additions.len(),
{
    if additions.len() == 0 {
        existing
    } else {
        let m = merged_strings(existing, additions.drop_last());
        if m.contains(additions.last()) {
            m
        } else {
            m.push(additions.last())
        }
    }
}

/// The elements of the array held in member `field`; empty where there is none.
pub open spec fn array_field(item: Json, field: Seq<char>) -> Seq<Json> {
    match item.get(field) {
        Some(Json::Array(a)) => a,
        _ => seq![],
    }
}

/// An array of strings.
pub open spec fn string_array(s: Seq<Seq<char>>) -> Json {
    Json::Array(s.map_values(|x: Seq<char>| Json::Str(x)))
}

/// Member `field` becomes the string array of its strings, then each addition not yet there.
pub open spec fn spec_merge_string_array(item: Json, field: Seq<char>, additions: Seq<Seq<char>>) -> Json {
    item.set_field(field, string_array(merged_strings(string_values(array_field(item, field)), additions)))
}

/// The name of a tag: the string member `tag` of an object, or a string itself.
pub open spec fn tag_name(v: Json) -> Option<Seq<char>> {
    match v.get("tag"@) {
        Some(Json::Str(s)) => Some(s),
        _ => v.as_str(),
    }
}

/// Whether some value names the tag `t`.
pub open spec fn has_tag(values: Seq<Json>, t: Seq<char>) -> bool {
    exists|i: int| 0 <= i < values.len() && tag_name(#[trigger] values[i]) == Some(t)
}

/// The tag object `{"tag": t}`.
pub open spec fn tag_object(t: Seq<char>) -> Json {
    Json::Object(seq![("tag"@, Json::Str(t))])
}

/// The existing values, then a tag object for each addition that no value names yet.
pub open spec fn merged_tags(existing: Seq<Json>, additions: Seq<Seq<char>>) -> Seq<Json>
    decreases additions.len(),
{
    if additions.len() == 0 {
        existing
    } else {
        let m = merged_tags(existing, additions.drop_last());
        if has_tag(m, additions.last()) {
            m
        } else {
            m.push(tag_object(additions.last()))
        }
    }
}

/// Member `tags` keeps its values and gains a tag object for each addition that none names.
pub open spec fn spec_merge_tags(item: Json, additions: Seq<Seq<char>>) -> Json {
    item.set_field("tags"@, Json::Array(merged_tags(array_field(item, "tags"@), additions)))
}

/// The item after `add --collection .. --tag ..`: collections, then tags, each merged when given.
pub open spec fn spec_apply_add_metadata(item: Json, collections: Seq<Seq<char>>, tags: Seq<Seq<char>>) -> Json {
    let with_collections = if collections.len() == 0 {
        item
    } else {
        spec_merge_string_array(item, "collections"@, collections)
    };
    if tags.len() == 0 {
        with_collections
    } else {
        spec_merge_tags(with_collections, tags)
    }
}

/// The strings of a string array are the strings it was made of.
pub proof fn lemma_string_values_of_strings(s: Seq<Seq<char>>)
    ensures
        string_values(s.map_values(|x: Seq<char>| Json::Str(x))) == s,
    decreases s.len(),
{
    let a = s.map_values(|x: Seq<char>| Json::Str(x));
    if s.len() > 0 {
        assert(a.drop_last() =~= s.drop_last().map_values(|x: Seq<char>| Json::Str(x)));
        lemma_string_values_of_strings(s.drop_last());
        assert(s.drop_last().push(s.last()) =~= s);
    } else {
        assert(s =~= seq![]);
    }
}

/// A merge holds every addition.
pub proof fn lemma_merged_strings_contains(existing: Seq<Seq<char>>, additions: Seq<Seq<char>>, x: Seq<char>)
    requires
        additions.contains(x) || existing.contains(x),
    ensures
        merged_strings(existing, additions).contains(x),
    decreases additions.len(),
{
    if additions.len() > 0 {
        let m = merged_strings(existing, additions.drop_last());
        if additions.last() == x {
            if !m.contains(x) {
                assert(m.push(x)[m.len() as int] == x);
            }
        } else {
            let i = choose|i: int| 0 <= i < additions.len() && additions[i] == x || existing.contains(x);
            if !existing.contains(x) {
                assert(additions.drop_last()[i] == x);
            }
            lemma_merged_strings_contains(existing, additions.drop_last(), x);
            if !m.contains(additions.last()) {
                let j = choose|j: int| 0 <= j < m.len() && m[j] == x;
                assert(m.push(additions.last())[j] == x);
            }
        }
    }
}

/// Merging additions that are all present already changes nothing.
pub proof fn lemma_merged_strings_present(existing: Seq<Seq<char>>, additions: Seq<Seq<char>>)
    requires
        forall|i: int| 0 <= i < additions.len() ==> existing.contains(additions[i]),
    ensures
        merged_strings(existing, additions) == existing,
    decreases additions.len(),
{
    if additions.len() > 0 {
        assert forall|i: int| 0 <= i < additions.drop_last().len() implies existing.contains(
            additions.drop_last()[i],
        ) by {
            assert(additions.drop_last()[i] == additions[i]);
        }
        lemma_merged_strings_present(existing, additions.drop_last());
        assert(existing.contains(additions[additions.len() - 1]));
    }
}

/// A tag object is named by its tag.
pub proof fn lemma_tag_object_name(t: Seq<char>)
    ensures
        tag_name(tag_object(t)) == Some(t),
{
    let m = seq![("tag"@, Json::Str(t))];
    lemma_member_index_at(m, "tag"@, Some(0));
}

/// A tag merge names every addition.
pub proof fn lemma_merged_tags_has(existing: Seq<Json>, additions: Seq<Seq<char>>, x: Seq<char>)
    requires
        additions.contains(x) || has_tag(existing, x),
    ensures
        has_tag(merged_tags(existing, additions), x),
    decreases additions.len(),
{
    if additions.len() > 0 {
        let m = merged_tags(existing, additions.drop_last());
        if additions.last() == x {
            if !has_tag(m, x) {
                lemma_tag_object_name(x);
                assert(tag_name(m.push(tag_object(x))[m.len() as int]) == Some(x));
            }
        } else {
            if !has_tag(existing, x) {
                let i = choose|i: int| 0 <= i < additions.len() && additions[i] == x;
                assert(additions.drop_last()[i] == x);
            }
            lemma_merged_tags_has(existing, additions.drop_last(), x);
            if !has_tag(m, additions.last()) {
                let j = choose|j: int| 0 <= j < m.len() && tag_name(#[trigger] m[j]) == Some(x);
                assert(m.push(tag_object(additions.last()))[j] == m[j]);
            }
        }
    }
}

/// Merging tags that are all named already changes nothing.
pub proof fn lemma_merged_tags_present(existing: Seq<Json>, additions: Seq<Seq<char>>)
    requires
        forall|i: int| 0 <= i < additions.len() ==> has_tag(existing, additions[i]),
    ensures
        merged_tags(existing, additions) == existing,
    decreases additions.len(),
{
    if additions.len() > 0 {
        assert forall|i: int| 0 <= i < additions.drop_last().len() implies has_tag(
            existing,
            additions.drop_last()[i],
        ) by {
            assert(additions.drop_last()[i] == additions[i]);
        }
        lemma_merged_tags_present(existing, additions.drop_last());
        assert(has_tag(existing, additions[additions.len() - 1]));
    }
}

/// Merging the same collections and tags a second time leaves the item as the first merge
/// left it.
pub proof fn law_add_metadata_idempotent(item: Json, collections: Seq<Seq<char>>, tags: Seq<Seq<char>>)
    ensures
        spec_apply_add_metadata(spec_apply_add_metadata(item, collections, tags), collections, tags)
            == spec_apply_add_metadata(item, collections, tags),
{
    reveal_strlit("collections");
    reveal_strlit("tags");
    let c = "collections"@;
    let t = "tags"@;
    assert(c != t) by {
        assert(c[0] != t[0]);
    }
    let once = spec_apply_add_metadata(item, collections, tags);
    if !(item is Object) {
        return;
    }
    let y1 = if collections.len() == 0 { item } else { spec_merge_string_array(item, c, collections) };
    let mut cvalue = Json::Null;
    if collections.len() > 0 {
        let m = merged_strings(string_values(array_field(item, c)), collections);
        cvalue = string_array(m);
        lemma_get_after_set(item, c, cvalue, t);
        assert forall|i: int| 0 <= i < collections.len() implies m.contains(collections[i]) by {
            lemma_merged_strings_contains(string_values(array_field(item, c)), collections, collections[i]);
        }
    }
    assert(y1 is Object);
    let mut tvalue = Json::Null;
    if tags.len() > 0 {
        let tm = merged_tags(array_field(y1, t), tags);
        tvalue = Json::Array(tm);
        lemma_get_after_set(y1, t, tvalue, c);
        assert forall|i: int| 0 <= i < tags.len() implies has_tag(tm, tags[i]) by {
            lemma_merged_tags_has(array_field(y1, t), tags, tags[i]);
        }
        lemma_merged_tags_present(tm, tags);
    }
    assert(once is Object);
    // The second merge of collections finds every collection in place.
    let z1 = if collections.len() == 0 { once } else { spec_merge_string_array(once, c, collections) };
    if collections.len() > 0 {
        let m = merged_strings(string_values(array_field(item, c)), collections);
        assert(once.get(c) == Some(cvalue));
        lemma_string_values_of_strings(m);
        assert(string_values(array_field(once, c)) == m);
        lemma_merged_strings_present(m, collections);
        lemma_set_same(once, c, cvalue);
    }
    assert(z1 == once);
    if tags.len() > 0 {
        let tm = merged_tags(array_field(y1, t), tags);
        assert(once.get(t) == Some(tvalue));
        assert(array_field(once, t) == tm);
        lemma_set_same(once, t, tvalue);
    }
}


/// After `add --collection .. --tag ..`, the item holds every collection and tag it already
/// had and every one that was given.
pub proof fn law_add_metadata_keeps_and_adds(item: Json, collections: Seq<Seq<char>>, tags: Seq<Seq<char>>)
    requires
        item is Object,
    ensures
        forall|x: Seq<char>| collections.contains(x) || string_values(array_field(item, "collections"@)).contains(x)
            ==> #[trigger] string_values(array_field(spec_apply_add_metadata(item, collections, tags), "collections"@)).contains(x),
        forall|x: Seq<char>| tags.contains(x) || has_tag(array_field(item, "tags"@), x)
            ==> #[trigger] has_tag(array_field(spec_apply_add_metadata(item, collections, tags), "tags"@), x),
{
    reveal_strlit("collections");
    reveal_strlit("tags");
    let c = "collections"@;
    let t = "tags"@;
    assert(c != t) by {
        assert(c[0] != t[0]);
    }
    let result = spec_apply_add_metadata(item, collections, tags);
    let existing = string_values(array_field(item, c));
    let y1 = if collections.len() == 0 { item } else { spec_merge_string_array(item, c, collections) };
    if collections.len() > 0 {
        let m = merged_strings(existing, collections);
        lemma_get_after_set(item, c, string_array(m), t);
        lemma_string_values_of_strings(m);
        assert(string_values(array_field(y1, c)) == m);
        assert forall|x: Seq<char>| collections.contains(x) || existing.contains(x) implies m.contains(x) by {
            lemma_merged_strings_contains(existing, collections, x);
        }
    } else {
        assert forall|x: Seq<char>| collections.contains(x) implies false by {
            let i = choose|i: int| 0 <= i < collections.len() && collections[i] == x;
        }
    }
    assert(y1 is Object);
    assert(array_field(y1, t) == array_field(item, t));
    if tags.len() > 0 {
        let tm = merged_tags(array_field(y1, t), tags);
        lemma_get_after_set(y1, t, Json::Array(tm), c);
        assert(array_field(result, t) == tm);
        assert(array_field(result, c) == array_field(y1, c));
        assert forall|x: Seq<char>| tags.contains(x) || has_tag(array_field(item, t), x) implies has_tag(tm, x) by {
            lemma_merged_tags_has(array_field(y1, t), tags, x);
        }
    } else {
        assert(result == y1);
        assert forall|x: Seq<char>| tags.contains(x) implies false by {
            let i = choose|i: int| 0 <= i < tags.len() && tags[i] == x;
        }
    }
}

/// Whether no string occurs twice.
pub open spec fn distinct(s: Seq<Seq<char>>) -> bool {
    forall|i: int, j: int| 0 <= i < j < s.len() ==> s[i] != s[j]
}

/// Merging collections never repeats one: where the existing keys are distinct, so are the
/// merged keys, however often an addition is given.
pub proof fn law_merge_keeps_strings_distinct(existing: Seq<Seq<char>>, additions: Seq<Seq<char>>)
    requires
        distinct(existing),
    ensures
        distinct(merged_strings(existing, additions)),
    decreases additions.len(),
{
    if additions.len() > 0 {
        law_merge_keeps_strings_distinct(existing, additions.drop_last());
        let m = merged_strings(existing, additions.drop_last());
        if !m.contains(additions.last()) {
            let n = m.push(additions.last());
            assert forall|i: int, j: int| 0 <= i < j < n.len() implies n[i] != n[j] by {
                if j == m.len() {
                    assert(n[i] == m[i]);
                }
            }
        }
    }
}

/// Merges collection keys and tags into an item, keeping what it already has.
pub fn apply_add_metadata(item: &mut JsonValue, collections: &[String], tags: &[String])
    ensures
        final(item)@ == spec_apply_add_metadata(old(item)@, strings_view(collections@), strings_view(tags@)),
{
    if collections.len() != 0 {
        merge_string_array(item, "collections", collections);
    }
    if tags.len() != 0 {
        merge_tags(item, tags);
    }
}

fn contains_string(values: &Vec<String>, s: &String) -> (b: bool)
    ensures
        b == strings_view(values@).contains(s@),
{
    let mut i: usize = 0;
    while i < values.len()
        invariant
            0 <= i <= values@.len(),
            forall|j: int| 0 <= j < i ==> values@[j]@ != s@,
        decreases values@.len() - i,
    {
        if values[i] == *s {
            assert(strings_view(values@)[i as int] == s@);
            return true;
        }
        i = i + 1;
    }
    assert forall|j: int| 0 <= j < strings_view(values@).len() implies strings_view(values@)[j] != s@ by {
        assert(values@[j]@ != s@);
    }
    false
}

fn merge_string_array(item: &mut JsonValue, field: &str, additions: &[String])
    ensures
        final(item)@ == spec_merge_string_array(old(item)@, field@, strings_view(additions@)),
{
    let ghost existing_values = array_field(item@, field@);
    let mut values: Vec<String> = Vec::new();
    match item.get(field) {
        Some(found) => match found.as_array() {
            Some(array) => {
                let mut i: usize = 0;
                while i < array.len()
                    invariant
                        0 <= i <= array@.len(),
                        values_view(array@) == existing_values,
                        strings_view(values@) == string_values(existing_values.take(i as int)),
                    decreases array@.len() - i,
                {
                    assert(existing_values.take(i + 1).drop_last() =~= existing_values.take(i as int));
                    assert(existing_values.take(i + 1).last() == array@[i as int]@);
                    let ghost before = values@;
                    match array[i].as_str() {
                        Some(s) => {
                            values.push(s.to_owned());
                            assert(strings_view(values@) =~= strings_view(before).push(s@));
                        },
                        None => {},
                    }
                    i = i + 1;
                }
                assert(existing_values.take(array@.len() as int) =~= existing_values);
            },
            None => {
                assert(strings_view(values@) =~= string_values(existing_values));
            },
        },
        None => {
            assert(strings_view(values@) =~= string_values(existing_values));
        },
    }
    let ghost base = strings_view(values@);
    let mut k: usize = 0;
    while k < additions.len()
        invariant
            0 <= k <= additions@.len(),
            strings_view(values@) == merged_strings(base, strings_view(additions@).take(k as int)),
        decreases additions@.len() - k,
    {
        assert(strings_view(additions@).take(k + 1).drop_last() =~= strings_view(additions@).take(k as int));
        if !contains_string(&values, &additions[k]) {
            let ghost before = values@;
            values.push(additions[k].clone());
            assert(strings_view(values@) =~= strings_view(before).push(additions@[k as int]@));
        }
        k = k + 1;
    }
    assert(strings_view(additions@).take(additions@.len() as int) =~= strings_view(additions@));
    let ghost merged = strings_view(values@);
    let mut out: Vec<JsonValue> = Vec::new();
    let mut j: usize = 0;
    while j < values.len()
        invariant
            0 <= j <= values@.len(),
            strings_view(values@) == merged,
            values_view(out@) == merged.take(j as int).map_values(|x: Seq<char>| Json::Str(x)),
        decreases values@.len() - j,
    {
        let ghost before = out@;
        out.push(JsonValue::from_str(values[j].as_str()));
        assert(values_view(out@) =~= values_view(before).push(Json::Str(values@[j as int]@)));
        assert(merged.take(j + 1).map_values(|x: Seq<char>| Json::Str(x))
            =~= merged.take(j as int).map_values(|x: Seq<char>| Json::Str(x)).push(Json::Str(merged[j as int])));
        j = j + 1;
    }
    assert(merged.take(values@.len() as int) =~= merged);
    item.set_field(field, JsonValue::array(out));
}

fn tag_name_of(v: &JsonValue) -> (r: Option<&str>)
    ensures
        match r {
            Some(s) => tag_name(v@) == Some(s@),
            None => tag_name(v@) is None,
        },
{
    match v.get("tag") {
        Some(t) => match t.as_str() {
            Some(s) => Some(s),
            None => v.as_str(),
        },
        None => v.as_str(),
    }
}

fn names_tag(values: &Vec<JsonValue>, t: &str) -> (b: bool)
    ensures
        b == has_tag(values_view(values@), t@),
{
    let mut i: usize = 0;
    while i < values.len()
        invariant
            0 <= i <= values@.len(),
            forall|j: int| 0 <= j < i ==> tag_name(values@[j]@) != Some(t@),
        decreases values@.len() - i,
    {
        match tag_name_of(&values[i]) {
            Some(name) => {
                if str_eq(name, t) {
                    assert(tag_name(values_view(values@)[i as int]) == Some(t@));
                    return true;
                }
            },
            None => {},
        }
        i = i + 1;
    }
    assert forall|j: int| 0 <= j < values_view(values@).len() implies tag_name(
        #[trigger] values_view(values@)[j],
    ) != Some(t@) by {
        assert(values_view(values@)[j] == values@[j]@);
    }
    false
}

fn new_tag_object(t: &str) -> (r: JsonValue)
    ensures
        r@ == tag_object(t@),
{
    let mut members: Vec<(String, JsonValue)> = Vec::new();
    members.push(("tag".to_owned(), JsonValue::from_str(t)));
    let r = JsonValue::object(members);
    assert(crate::json::members_view(members@) =~= seq![("tag"@, Json::Str(t@))]);
    r
}

fn merge_tags(item: &mut JsonValue, additions: &[String])
    ensures
        final(item)@ == spec_merge_tags(old(item)@, strings_view(additions@)),
{
    let ghost existing = array_field(item@, "tags"@);
    let mut values: Vec<JsonValue> = Vec::new();
    match item.get("tags") {
        Some(found) => match found.as_array() {
            Some(array) => {
                let mut i: usize = 0;
                while i < array.len()
                    invariant
                        0 <= i <= array@.len(),
                        values_view(array@) == existing,
                        values_view(values@) == existing.take(i as int),
                    decreases array@.len() - i,
                {
                    let ghost before = values@;
                    values.push(array[i].clone());
                    assert(values_view(values@) =~= values_view(before).push(array@[i as int]@));
                    assert(existing.take(i + 1) =~= existing.take(i as int).push(existing[i as int]));
                    i = i + 1;
                }
                assert(existing.take(array@.len() as int) =~= existing);
            },
            None => {
                assert(values_view(values@) =~= existing);
            },
        },
        None => {
            assert(values_view(values@) =~= existing);
        },
    }
    let mut k: usize = 0;
    while k < additions.len()
        invariant
            0 <= k <= additions@.len(),
            values_view(values@) == merged_tags(existing, strings_view(additions@).take(k as int)),
        decreases additions@.len() - k,
    {
        assert(strings_view(additions@).take(k + 1).drop_last() =~= strings_view(additions@).take(k as int));
        if !names_tag(&values, additions[k].as_str()) {
            let ghost before = values@;
            values.push(new_tag_object(additions[k].as_str()));
            assert(values_view(values@) =~= values_view(before).push(tag_object(additions@[k as int]@)));
        }
        k = k + 1;
    }
    assert(strings_view(additions@).take(additions@.len() as int) =~= strings_view(additions@));
    item.set_field("tags", JsonValue::array(values));
}

} // verus!

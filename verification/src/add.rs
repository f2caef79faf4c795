//! Building the items that `add` creates: JSON input, DOI, ISBN and web page items.
use vstd::prelude::*;

use crate::error::ZotError;
use crate::json::{values_view, Json, JsonValue};
use crate::text::{
    chars_of, concat2, i64_decimal, int_decimal, is_unicode_ws, join, join_strings, newlines_to_spaces,
    replace_newlines, trim, trim_start, trim_start_index, trim_str,
};

verus! {

/// Whether input looks like inline JSON: after leading whitespace it opens an object or array.
pub open spec fn spec_looks_like_inline_json(input: Seq<char>) -> bool {
    let t = trim_start(input);
    t.len() > 0 && (t[0] == '{' || t[0] == '[')
}

/// Whether input looks like inline JSON rather than a file path.
pub fn looks_like_inline_json(input: &str) -> (b: bool)
    ensures
        b == spec_looks_like_inline_json(input@),
{
    let v = chars_of(input);
    let i = trim_start_index(&v);
    i < v.len() && (v[i] == '{' || v[i] == '[')
}

/// Where `add json` reads its item from.
#[derive(Debug, Clone, Copy, PartialEq, Eq)]
pub enum AddJsonSource<'a> {
    Inline(&'a str),
    Stdin,
    File(&'a str),
}

/// The source of `add json`: `--value` first, then `-` for stdin, then an existing path, then
/// inline JSON in the argument, and a path otherwise.
pub open spec fn spec_add_json_source<'a>(
    value: Option<&'a str>,
    input: &'a str,
    input_exists: bool,
) -> AddJsonSource<'a> {
    match value {
        Some(v) => AddJsonSource::Inline(v),
        None => if input@ == "-"@ {
            AddJsonSource::Stdin
        } else if input_exists {
            AddJsonSource::File(input)
        } else if spec_looks_like_inline_json(input@) {
            AddJsonSource::Inline(input)
        } else {
            AddJsonSource::File(input)
        },
    }
}

/// Decides where `add json` reads from; `input_exists` tells whether `input` names an existing path.
pub fn resolve_add_json_source<'a>(value: Option<&'a str>, input: &'a str, input_exists: bool) -> (r: AddJsonSource<'a>)
    ensures
        r == spec_add_json_source(value, input, input_exists),
{
    if let Some(v) = value {
        return AddJsonSource::Inline(v);
    }
    if crate::text::str_eq(input, "-") {
        return AddJsonSource::Stdin;
    }
    if input_exists {
        return AddJsonSource::File(input);
    }
    if looks_like_inline_json(input) {
        return AddJsonSource::Inline(input);
    }
    AddJsonSource::File(input)
}

/// The message for input that does not parse as JSON.
pub open spec fn spec_add_json_parse_error(source: AddJsonSource) -> Seq<char> {
    match source {
        AddJsonSource::Inline(_) => "failed to parse inline JSON input"@,
        AddJsonSource::Stdin => "failed to parse JSON from stdin"@,
        AddJsonSource::File(path) => "failed to parse JSON from "@ + path@,
    }
}

/// The message for input that does not parse as JSON.
pub fn add_json_parse_error(source: &AddJsonSource) -> (s: String)
    ensures
        s@ == spec_add_json_parse_error(*source),
{
    match source {
        AddJsonSource::Inline(_) => "failed to parse inline JSON input".to_owned(),
        AddJsonSource::Stdin => "failed to parse JSON from stdin".to_owned(),
        AddJsonSource::File(path) => concat2("failed to parse JSON from ", path),
    }
}

/// The item that JSON input gives: an object, or the one object of a one-element array.
pub open spec fn spec_normalize_add_json_input(value: Json) -> Result<Json, ZotError> {
    match value {
        Json::Object(_) => Ok(value),
        Json::Array(a) => if a.len() == 1 && a[0] is Object {
            Ok(a[0])
        } else {
            Err(ZotError::JsonArrayNotSingleObject)
        },
        _ => Err(ZotError::JsonNotItem),
    }
}

/// The view of a JSON result.
pub open spec fn json_result_view(r: Result<JsonValue, ZotError>) -> Result<Json, ZotError> {
    match r {
        Ok(v) => Ok(v@),
        Err(e) => Err(e),
    }
}

/// Accepts an item object, or a one-element array that holds one.
pub fn normalize_add_json_input(value: JsonValue) -> (r: Result<JsonValue, ZotError>)
    ensures
        json_result_view(r) == spec_normalize_add_json_input(value@),
{
    proof {
        crate::json::lemma_view_kind(value);
    }
    match value {
        JsonValue::Object(m) => Ok(JsonValue::Object(m)),
        JsonValue::Array(items) => {
            proof {
                crate::json::lemma_array_view(items);
            }
            if items.len() == 1 {
                let mut items = items;
                let item = items.pop().unwrap();
                proof {
                    crate::json::lemma_view_kind(item);
                }
                if item.is_object() {
                    Ok(item)
                } else {
                    Err(ZotError::JsonArrayNotSingleObject)
                }
            } else {
                Err(ZotError::JsonArrayNotSingleObject)
            }
        },
        _ => Err(ZotError::JsonNotItem),
    }
}

/// The text of a string value.
pub open spec fn spec_as_string(v: Option<Json>) -> Option<Seq<char>> {
    match v {
        Some(Json::Str(s)) => Some(s),
        _ => None,
    }
}

/// A string, or the first element of an array where that is a string.
pub open spec fn spec_csl_string_or_first_array(v: Json) -> Option<Seq<char>> {
    match v {
        Json::Str(s) => Some(s),
        Json::Array(a) => if a.len() > 0 { a[0].as_str() } else { None },
        _ => None,
    }
}

/// A CSL string field: a string, or the first string of an array.
pub fn csl_string_or_first_array(v: &JsonValue) -> (r: Option<String>)
    ensures
        crate::text::opt_view(r) == spec_csl_string_or_first_array(v@),
{
    if let Some(s) = v.as_str() {
        return Some(s.to_owned());
    }
    match v.as_array() {
        Some(a) => if a.len() > 0 {
            match a[0].as_str() {
                Some(s) => Some(s.to_owned()),
                None => None,
            }
        } else {
            None
        },
        None => None,
    }
}

/// The `i64` numbers of a sequence of values, in decimal.
pub open spec fn int_texts(a: Seq<Json>) -> Seq<Seq<char>>
    decreases a.len(),
{
    if a.len() == 0 {
        seq![]
    } else {
        let rest = int_texts(a.drop_last());
        match a.last() {
            Json::Int(i) => rest.push(int_decimal(i)),
            _ => rest,
        }
    }
}

/// A one-character part with a leading zero.
pub open spec fn pad2(s: Seq<char>) -> Seq<char> {
    if s.len() == 1 { seq!['0'] + s } else { s }
}

/// Month and day parts padded to two digits.
pub open spec fn pad_date_parts(p: Seq<Seq<char>>) -> Seq<Seq<char>> {
    let p1 = if p.len() >= 2 { p.update(1, pad2(p[1])) } else { p };
    if p1.len() >= 3 { p1.update(2, pad2(p1[2])) } else { p1 }
}

/// The first date of a CSL date (`{"date-parts": [[y, m, d]]}`), its numbers joined by `-`.
pub open spec fn spec_csl_date_string(v: Json) -> Option<Seq<char>> {
    match v.get("date-parts"@) {
        Some(Json::Array(outer)) => if outer.len() > 0 {
            match outer[0] {
                Json::Array(parts) => {
                    let p = int_texts(parts);
                    if p.len() == 0 { None } else { Some(join(pad_date_parts(p), "-"@)) }
                },
                _ => None,
            }
        } else {
            None
        },
        _ => None,
    }
}

fn pad_part(s: &String) -> (r: String)
    ensures
        r@ == pad2(s@),
{
    proof {
        reveal_strlit("0");
    }
    if s.as_str().unicode_len() == 1 {
        concat2("0", s.as_str())
    } else {
        s.clone()
    }
}

/// Formats the first date of a CSL date value, such as `2024-04-05`.
pub fn csl_date_string(v: &JsonValue) -> (r: Option<String>)
    ensures
        crate::text::opt_view(r) == spec_csl_date_string(v@),
{
    let outer = match v.get("date-parts") {
        Some(o) => o,
        None => return None,
    };
    let outer = match outer.as_array() {
        Some(a) => a,
        None => return None,
    };
    if outer.len() == 0 {
        return None;
    }
    let parts_value = match outer[0].as_array() {
        Some(p) => p,
        None => {
            proof {
                crate::json::lemma_view_kind(outer@[0]);
            }
            return None;
        },
    };
    let ghost pv = values_view(parts_value@);
    let mut parts: Vec<String> = Vec::new();
    let mut i: usize = 0;
    while i < parts_value.len()
        invariant
            0 <= i <= parts_value@.len(),
            pv == values_view(parts_value@),
            parts@.map_values(|p: String| p@) == int_texts(pv.take(i as int)),
        decreases parts_value@.len() - i,
    {
        assert(pv.take(i + 1).drop_last() =~= pv.take(i as int));
        assert(pv.take(i + 1).last() == parts_value@[i as int]@);
        let ghost before = parts@;
        match parts_value[i].as_i64() {
            Some(n) => {
                proof {
                    crate::json::lemma_view_kind(parts_value@[i as int]);
                }
                parts.push(i64_decimal(n));
                assert(parts@.map_values(|p: String| p@) =~= before.map_values(|p: String| p@).push(int_decimal(n as int)));
            },
            None => {
                proof {
                    crate::json::lemma_view_kind(parts_value@[i as int]);
                }
            },
        }
        i = i + 1;
    }
    assert(pv.take(parts_value@.len() as int) =~= pv);
    let ghost texts = parts@.map_values(|p: String| p@);
    if parts.len() >= 2 {
        let p1 = pad_part(&parts[1]);
        parts.set(1, p1);
    }
    if parts.len() >= 3 {
        let p2 = pad_part(&parts[2]);
        parts.set(2, p2);
    }
    assert(parts@.map_values(|p: String| p@) =~= pad_date_parts(texts));
    if parts.len() == 0 {
        None
    } else {
        Some(join_strings(&parts, "-"))
    }
}

/// A month or day as a CSL date shows it: one digit gets a leading zero.
pub open spec fn two_digit_part(n: int) -> Seq<char> {
    if 0 <= n < 10 { seq!['0'] + crate::text::decimal(n as nat) } else { int_decimal(n) }
}

proof fn lemma_decimal_len(n: nat)
    ensures
        crate::text::decimal(n).len() >= 1,
        crate::text::decimal(n).len() == 1 <==> n < 10,
    decreases n,
{
    if n >= 10 {
        lemma_decimal_len(n / 10);
    }
}

proof fn lemma_pad2_int(n: int)
    ensures
        pad2(int_decimal(n)) == two_digit_part(n),
{
    if n < 0 {
        lemma_decimal_len((-n) as nat);
    } else {
        lemma_decimal_len(n as nat);
    }
}

proof fn lemma_int_texts_nonempty(a: Seq<Json>)
    ensures
        int_texts(a).len() > 0 <==> exists|i: int| 0 <= i < a.len() && (#[trigger] a[i]) is Int,
    decreases a.len(),
{
    if a.len() > 0 {
        let r = a.drop_last();
        lemma_int_texts_nonempty(r);
        if exists|i: int| 0 <= i < a.len() && (#[trigger] a[i]) is Int {
            let i = choose|i: int| 0 <= i < a.len() && (#[trigger] a[i]) is Int;
            if i < a.len() - 1 {
                assert(r[i] == a[i]);
            }
        }
        if exists|i: int| 0 <= i < r.len() && (#[trigger] r[i]) is Int {
            let i = choose|i: int| 0 <= i < r.len() && (#[trigger] r[i]) is Int;
            assert(a[i] == r[i]);
        }
    }
}

proof fn lemma_int_texts_push(a: Seq<Json>, i: int)
    ensures
        int_texts(a.push(Json::Int(i))) == int_texts(a).push(int_decimal(i)),
{
    assert(a.push(Json::Int(i)).drop_last() =~= a);
}

/// A CSL date whose first `date-parts` array is `parts` gives a date exactly when one of the
/// parts is an integer.
pub proof fn law_csl_date_present(v: Json, outer: Seq<Json>, parts: Seq<Json>)
    requires
        v.get("date-parts"@) == Some(Json::Array(outer)),
        outer.len() > 0,
        outer[0] == Json::Array(parts),
    ensures
        spec_csl_date_string(v) is Some <==> exists|i: int| 0 <= i < parts.len() && (#[trigger] parts[i]) is Int,
{
    lemma_int_texts_nonempty(parts);
}

/// A CSL date of a year alone gives that year's decimal text.
pub proof fn law_csl_date_year(v: Json, outer: Seq<Json>, y: int)
    requires
        v.get("date-parts"@) == Some(Json::Array(outer)),
        outer.len() > 0,
        outer[0] == Json::Array(seq![Json::Int(y)]),
    ensures
        spec_csl_date_string(v) == Some(int_decimal(y)),
{
    lemma_int_texts_push(seq![], y);
    assert(seq![].push(Json::Int(y)) =~= seq![Json::Int(y)]);
    assert(int_texts(seq![]).push(int_decimal(y)) =~= seq![int_decimal(y)]);
}

/// A CSL date of a year and a month gives `year-month`, the month padded to two digits.
pub proof fn law_csl_date_year_month(v: Json, outer: Seq<Json>, y: int, m: int)
    requires
        v.get("date-parts"@) == Some(Json::Array(outer)),
        outer.len() > 0,
        outer[0] == Json::Array(seq![Json::Int(y), Json::Int(m)]),
    ensures
        spec_csl_date_string(v) == Some(int_decimal(y) + "-"@ + two_digit_part(m)),
{
    let parts = seq![Json::Int(y), Json::Int(m)];
    lemma_int_texts_push(seq![], y);
    assert(seq![].push(Json::Int(y)) =~= seq![Json::Int(y)]);
    assert(int_texts(seq![]).push(int_decimal(y)) =~= seq![int_decimal(y)]);
    lemma_int_texts_push(seq![Json::Int(y)], m);
    assert(seq![Json::Int(y)].push(Json::Int(m)) =~= parts);
    assert(int_texts(parts) =~= seq![int_decimal(y), int_decimal(m)]);
    lemma_pad2_int(m);
    let padded = seq![int_decimal(y), two_digit_part(m)];
    assert(pad_date_parts(int_texts(parts)) =~= padded);
    assert(padded.drop_last() =~= seq![int_decimal(y)]);
    assert(join(padded.drop_last(), "-"@) == int_decimal(y));
}

/// A CSL date of a year, a month and a day gives `year-month-day`, month and day padded to two
/// digits.
pub proof fn law_csl_date_full(v: Json, outer: Seq<Json>, y: int, m: int, d: int)
    requires
        v.get("date-parts"@) == Some(Json::Array(outer)),
        outer.len() > 0,
        outer[0] == Json::Array(seq![Json::Int(y), Json::Int(m), Json::Int(d)]),
    ensures
        spec_csl_date_string(v) == Some(int_decimal(y) + "-"@ + two_digit_part(m) + "-"@ + two_digit_part(d)),
{
    let parts = seq![Json::Int(y), Json::Int(m), Json::Int(d)];
    lemma_int_texts_push(seq![], y);
    assert(seq![].push(Json::Int(y)) =~= seq![Json::Int(y)]);
    assert(int_texts(seq![]).push(int_decimal(y)) =~= seq![int_decimal(y)]);
    lemma_int_texts_push(seq![Json::Int(y)], m);
    assert(seq![Json::Int(y)].push(Json::Int(m)) =~= seq![Json::Int(y), Json::Int(m)]);
    assert(int_texts(seq![Json::Int(y), Json::Int(m)]) =~= seq![int_decimal(y), int_decimal(m)]);
    lemma_int_texts_push(seq![Json::Int(y), Json::Int(m)], d);
    assert(seq![Json::Int(y), Json::Int(m)].push(Json::Int(d)) =~= parts);
    assert(int_texts(parts) =~= seq![int_decimal(y), int_decimal(m), int_decimal(d)]);
    lemma_pad2_int(m);
    lemma_pad2_int(d);
    let padded = seq![int_decimal(y), two_digit_part(m), two_digit_part(d)];
    assert(pad_date_parts(int_texts(parts)) =~= padded);
    let first_two = seq![int_decimal(y), two_digit_part(m)];
    assert(padded.drop_last() =~= first_two);
    assert(first_two.drop_last() =~= seq![int_decimal(y)]);
    assert(join(first_two.drop_last(), "-"@) == int_decimal(y));
    assert(join(first_two, "-"@) == int_decimal(y) + "-"@ + two_digit_part(m));
}


/// A Zotero creator for one CSL author: a literal name, else given and family names.
pub open spec fn spec_author_creator(author: Json) -> Json {
    match author.get("literal"@) {
        Some(Json::Str(l)) => Json::Object(seq![("creatorType"@, Json::Str("author"@)), ("name"@, Json::Str(l))]),
        _ => Json::Object(seq![
            ("creatorType"@, Json::Str("author"@)),
            ("firstName"@, Json::Str(match spec_as_string(author.get("given"@)) { Some(g) => g, None => seq![] })),
            ("lastName"@, Json::Str(match spec_as_string(author.get("family"@)) { Some(f) => f, None => seq![] })),
        ]),
    }
}

/// The creators for a CSL author list.
pub open spec fn spec_csl_authors(v: Json) -> Option<Seq<Json>> {
    match v {
        Json::Array(a) => Some(a.map_values(|x: Json| spec_author_creator(x))),
        _ => None,
    }
}

/// Sets a string member where a value is given.
pub open spec fn set_opt_str(item: Json, key: Seq<char>, value: Option<Seq<char>>) -> Json {
    match value {
        Some(v) => item.set_field(key, Json::Str(v)),
        None => item,
    }
}

/// Applies `f` to a present value.
pub open spec fn and_then<A, B>(o: Option<A>, f: spec_fn(A) -> Option<B>) -> Option<B> {
    match o {
        Some(a) => f(a),
        None => None,
    }
}

/// The item with the title, URL, container, date and authors of CSL metadata.
pub open spec fn spec_apply_csl_metadata(item: Json, md: Json) -> Json {
    let i1 = set_opt_str(item, "title"@, spec_as_string(md.get("title"@)));
    let i2 = set_opt_str(i1, "url"@, spec_as_string(md.get("URL"@)));
    let i3 = set_opt_str(i2, "publicationTitle"@, and_then(md.get("container-title"@), |v: Json| spec_csl_string_or_first_array(v)));
    let i4 = set_opt_str(i3, "date"@, and_then(md.get("issued"@), |v: Json| spec_csl_date_string(v)));
    i4.set_field("creators"@, Json::Array(match and_then(md.get("author"@), |v: Json| spec_csl_authors(v)) {
        Some(a) => a,
        None => seq![],
    }))
}

fn string_member(v: &JsonValue, key: &str) -> (r: Option<String>)
    ensures
        crate::text::opt_view(r) == spec_as_string(v@.get(key@)),
{
    match v.get(key) {
        Some(f) => {
            proof {
                crate::json::lemma_view_kind(*f);
            }
            match f.as_str() {
                Some(s) => Some(s.to_owned()),
                None => None,
            }
        },
        None => None,
    }
}

fn author_creator(author: &JsonValue) -> (r: JsonValue)
    ensures
        r@ == spec_author_creator(author@),
{
    let literal = string_member(author, "literal");
    let mut members: Vec<(String, JsonValue)> = Vec::new();
    members.push(("creatorType".to_owned(), JsonValue::from_str("author")));
    match literal {
        Some(l) => {
            members.push(("name".to_owned(), JsonValue::Str(l)));
        },
        None => {
            let given = match string_member(author, "given") {
                Some(g) => g,
                None => String::new(),
            };
            let family = match string_member(author, "family") {
                Some(f) => f,
                None => String::new(),
            };
            members.push(("firstName".to_owned(), JsonValue::Str(given)));
            members.push(("lastName".to_owned(), JsonValue::Str(family)));
        },
    }
    assert(crate::json::members_view(members@) =~= spec_author_creator(author@)->Object_0);
    JsonValue::object(members)
}

/// The Zotero creators for a CSL author list.
pub fn csl_authors(v: &JsonValue) -> (r: Option<Vec<JsonValue>>)
    ensures
        match r {
            Some(c) => spec_csl_authors(v@) == Some(values_view(c@)),
            None => spec_csl_authors(v@) is None,
        },
{
    proof {
        crate::json::lemma_view_kind(*v);
    }
    let authors = match v.as_array() {
        Some(a) => a,
        None => return None,
    };
    let ghost av = values_view(authors@);
    let mut out: Vec<JsonValue> = Vec::new();
    let mut i: usize = 0;
    while i < authors.len()
        invariant
            0 <= i <= authors@.len(),
            av == values_view(authors@),
            values_view(out@) == av.take(i as int).map_values(|x: Json| spec_author_creator(x)),
        decreases authors@.len() - i,
    {
        let ghost before = out@;
        out.push(author_creator(&authors[i]));
        assert(values_view(out@) =~= values_view(before).push(spec_author_creator(av[i as int])));
        assert(av.take(i + 1).map_values(|x: Json| spec_author_creator(x)) =~= av.take(i as int).map_values(
            |x: Json| spec_author_creator(x),
        ).push(spec_author_creator(av[i as int])));
        i = i + 1;
    }
    assert(av.take(authors@.len() as int) =~= av);
    Some(out)
}

fn set_opt_string(item: &mut JsonValue, key: &str, value: Option<String>)
    ensures
        final(item)@ == set_opt_str(old(item)@, key@, crate::text::opt_view(value)),
{
    match value {
        Some(v) => item.set_field(key, JsonValue::Str(v)),
        None => {},
    }
}

/// Fills an item from CSL metadata: title, URL, container title, date and authors.
pub fn apply_csl_metadata(item: &mut JsonValue, metadata: &JsonValue)
    ensures
        final(item)@ == spec_apply_csl_metadata(old(item)@, metadata@),
{
    set_opt_string(item, "title", string_member(metadata, "title"));
    set_opt_string(item, "url", string_member(metadata, "URL"));
    let container = match metadata.get("container-title") {
        Some(c) => csl_string_or_first_array(c),
        None => None,
    };
    set_opt_string(item, "publicationTitle", container);
    let date = match metadata.get("issued") {
        Some(d) => csl_date_string(d),
        None => None,
    };
    set_opt_string(item, "date", date);
    let creators = match metadata.get("author") {
        Some(a) => csl_authors(a),
        None => None,
    };
    match creators {
        Some(c) => item.set_field("creators", JsonValue::array(c)),
        None => {
            assert(values_view(Seq::<JsonValue>::empty()) =~= seq![]);
            item.set_field("creators", JsonValue::array(Vec::new()));
        },
    }
}

fn empty_array() -> (r: JsonValue)
    ensures
        r@ == Json::Array(seq![]),
{
    assert(values_view(Seq::<JsonValue>::empty()) =~= seq![]);
    JsonValue::array(Vec::new())
}

/// The URL that resolves a DOI.
pub open spec fn spec_doi_url(doi: Seq<char>) -> Seq<char> {
    "https://doi.org/"@ + trim(doi)
}

/// The URL that resolves a DOI, which also serves its CSL metadata.
pub fn doi_url(doi: &str) -> (r: String)
    ensures
        r@ == spec_doi_url(doi@),
{
    let d = trim_str(doi);
    concat2("https://doi.org/", d.as_str())
}

/// A journal article for a DOI: empty creators, the DOI and its URL, then the CSL metadata
/// where the lookup gave some, else the title `DOI <doi>`.
pub open spec fn spec_doi_item(template: Json, doi: Seq<char>, metadata: Option<Json>) -> Json {
    let d = trim(doi);
    let base = template.set_field("creators"@, Json::Array(seq![])).set_field("DOI"@, Json::Str(d)).set_field(
        "url"@,
        Json::Str("https://doi.org/"@ + d),
    );
    match metadata {
        Some(md) => spec_apply_csl_metadata(base, md),
        None => base.set_field("title"@, Json::Str("DOI "@ + d)),
    }
}

/// Completes the `journalArticle` template for `add doi`.
pub fn doi_item(template: JsonValue, doi: &str, metadata: Option<&JsonValue>) -> (r: JsonValue)
    ensures
        r@ == spec_doi_item(template@, doi@, match metadata { Some(m) => Some(m@), None => None }),
{
    let mut item = template;
    let d = trim_str(doi);
    item.set_field("creators", empty_array());
    item.set_field("DOI", JsonValue::from_str(d.as_str()));
    item.set_field("url", JsonValue::Str(concat2("https://doi.org/", d.as_str())));
    match metadata {
        Some(md) => apply_csl_metadata(&mut item, md),
        None => item.set_field("title", JsonValue::Str(concat2("DOI ", d.as_str()))),
    }
    item
}

/// A book for an ISBN: empty creators, the ISBN, and the title `ISBN <isbn>`.
pub open spec fn spec_isbn_item(template: Json, isbn: Seq<char>) -> Json {
    let i = trim(isbn);
    template.set_field("creators"@, Json::Array(seq![])).set_field("ISBN"@, Json::Str(i)).set_field(
        "title"@,
        Json::Str("ISBN "@ + i),
    )
}

/// Completes the `book` template for `add isbn`.
pub fn isbn_item(template: JsonValue, isbn: &str) -> (r: JsonValue)
    ensures
        r@ == spec_isbn_item(template@, isbn@),
{
    let mut item = template;
    let i = trim_str(isbn);
    item.set_field("creators", empty_array());
    item.set_field("ISBN", JsonValue::from_str(i.as_str()));
    item.set_field("title", JsonValue::Str(concat2("ISBN ", i.as_str())));
    item
}

/// What the `regex` crate captures with `(?is)<title[^>]*>(.*?)</title>` as group 1 in `html`.
pub uninterp spec fn title_capture(html: Seq<char>) -> Option<Seq<char>>;

/// The text of the first `<title>` element, by the `regex` crate.
///
/// Trusted: the result is what `Regex::captures` gives for group 1 of the first match of
/// `(?is)<title[^>]*>(.*?)</title>`, named by `title_capture`; which text that is, is not
/// stated here. The pattern is a valid literal, so building the `Regex` does not fail.
#[verifier::external_body]
fn capture_title(html: &str) -> (r: Option<String>)
    ensures
        crate::text::opt_view(r) == title_capture(html@),
{
    regex::Regex::new("(?is)<title[^>]*>(.*?)</title>")
        .expect("valid regex")
        .captures(html)
        .and_then(|captures| captures.get(1))
        .map(|title| title.as_str().to_owned())
}

/// A captured title trimmed, with line feeds as spaces; none where that leaves nothing.
pub open spec fn spec_clean_title(capture: Option<Seq<char>>) -> Option<Seq<char>> {
    match capture {
        Some(c) => {
            let t = newlines_to_spaces(trim(c));
            if t.len() == 0 { None } else { Some(t) }
        },
        None => None,
    }
}

/// Cleans a captured title, see [`spec_clean_title`].
pub fn clean_title(capture: Option<&str>) -> (r: Option<String>)
    ensures
        crate::text::opt_view(r) == spec_clean_title(match capture { Some(c) => Some(c@), None => None }),
{
    match capture {
        Some(c) => {
            let trimmed = trim_str(c);
            let t = replace_newlines(trimmed.as_str());
            if t.as_str().unicode_len() == 0 {
                None
            } else {
                Some(t)
            }
        },
        None => None,
    }
}

/// The title of an HTML page, see [`spec_clean_title`] and [`title_capture`].
pub fn html_title(html: &str) -> (r: Option<String>)
    ensures
        crate::text::opt_view(r) == spec_clean_title(title_capture(html@)),
{
    let capture = capture_title(html);
    match capture {
        Some(c) => clean_title(Some(c.as_str())),
        None => clean_title(None),
    }
}

/// The title of a web page item: the one given, else the title of the fetched page, else the URL.
pub open spec fn spec_url_page_title(title: Option<Seq<char>>, html: Option<Seq<char>>, url: Seq<char>) -> Seq<char> {
    match title {
        Some(t) => t,
        None => match html {
            Some(h) => match spec_clean_title(title_capture(h)) {
                Some(t) => t,
                None => url,
            },
            None => url,
        },
    }
}

/// Picks the title of a web page item; `html` is the page when fetching it succeeded.
pub fn url_page_title(title: Option<&str>, html: Option<&str>, url: &str) -> (r: String)
    ensures
        r@ == spec_url_page_title(
            match title { Some(t) => Some(t@), None => None },
            match html { Some(h) => Some(h@), None => None },
            url@,
        ),
{
    match title {
        Some(t) => t.to_owned(),
        None => match html {
            Some(h) => match html_title(h) {
                Some(t) => t,
                None => url.to_owned(),
            },
            None => url.to_owned(),
        },
    }
}

/// A web page: empty creators, its title, URL and access date, and its host as website title
/// where the URL has one.
pub open spec fn spec_url_item(template: Json, url: Seq<char>, title: Seq<char>, access_date: Seq<char>) -> Json {
    let base = template.set_field("creators"@, Json::Array(seq![])).set_field("title"@, Json::Str(title)).set_field(
        "url"@,
        Json::Str(url),
    ).set_field("accessDate"@, Json::Str(access_date));
    match crate::config::url_parse(url) {
        Ok(parts) => match parts.host {
            Some(host) => base.set_field("websiteTitle"@, Json::Str(host)),
            None => base,
        },
        Err(_) => base,
    }
}

/// Completes the `webpage` template for `add url`.
pub fn url_item(template: JsonValue, url: &str, title: &str, access_date: &str) -> (r: JsonValue)
    ensures
        r@ == spec_url_item(template@, url@, title@, access_date@),
{
    let mut item = template;
    item.set_field("creators", empty_array());
    item.set_field("title", JsonValue::from_str(title));
    item.set_field("url", JsonValue::from_str(url));
    item.set_field("accessDate", JsonValue::from_str(access_date));
    match crate::config::parse_url(url) {
        Ok(parsed) => match parsed.host {
            Some(host) => item.set_field("websiteTitle", JsonValue::Str(host)),
            None => {},
        },
        Err(_) => {},
    }
    item
}

} // verus!

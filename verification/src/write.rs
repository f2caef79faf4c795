//! Writing to a library: item templates, creating items, uploading attachment files,
//! updating and deleting items.
use vstd::prelude::*;

use crate::client::{is_success, pairs_view, push_pair, Body, HttpRequest, Method, ZoteroClient};
use crate::error::{WriteCommand, ZotError};
use crate::item::Item;
use crate::json::{Json, JsonValue};
use crate::text::{
    chars_of, concat3, contains_seq, contains_str, decimal, decimal_string, i64_decimal, int_decimal,
    lemma_text_lt_irreflexive, lemma_text_lt_total, lemma_text_lt_transitive, parse_i64, spec_parse_i64,
    text_less, text_lt,
};

verus! {

/// A created object as the Web API reports it: its key, or the whole item.
#[derive(Debug)]
pub enum WriteSuccess {
    Key(String),
    Item(Box<Item>),
}

impl WriteSuccess {
    /// The key of the created object.
    pub open spec fn spec_key(&self) -> Seq<char> {
        match self {
            WriteSuccess::Key(k) => k@,
            WriteSuccess::Item(item) => item.key@,
        }
    }

    /// The key of the created object.
    pub fn key(&self) -> (r: &str)
        ensures
            r@ == self.spec_key(),
    {
        match self {
            WriteSuccess::Key(k) => k.as_str(),
            WriteSuccess::Item(item) => item.key.as_str(),
        }
    }
}

/// An object that the Web API failed to create: its code and message.
#[derive(Debug, Clone)]
pub struct WriteFailure {
    pub code: u16,
    pub message: String,
}

/// The answer to a create request: the created objects and the failed ones, each under the
/// index of the object in the request, in the order of the indexes.
#[derive(Debug)]
pub struct WriteResponse {
    pub successful: Vec<(String, WriteSuccess)>,
    pub failed: Vec<(String, WriteFailure)>,
}

/// The keys of keyed entries.
pub open spec fn keys_of<T>(v: Seq<(String, T)>) -> Seq<Seq<char>> {
    v.map_values(|p: (String, T)| p.0@)
}

/// The index of the least key, the earliest of equal least keys.
pub open spec fn least_key_index(keys: Seq<Seq<char>>) -> int
    decreases keys.len(),
{
    if keys.len() <= 1 {
        0
    } else {
        let k = least_key_index(keys.drop_last());
        if text_lt(keys.last(), keys[k]) { keys.len() - 1 } else { k }
    }
}

/// The least key sorts before no other key, and strictly before every key ahead of it.
pub proof fn lemma_least_key_index(keys: Seq<Seq<char>>)
    requires
        keys.len() > 0,
    ensures
        0 <= least_key_index(keys) < keys.len(),
        forall|j: int| 0 <= j < keys.len() ==> !text_lt(#[trigger] keys[j], keys[least_key_index(keys)]),
        forall|j: int| 0 <= j < least_key_index(keys) ==> text_lt(keys[least_key_index(keys)], #[trigger] keys[j]),
    decreases keys.len(),
{
    let n = keys.len();
    if n == 1 {
        lemma_text_lt_irreflexive(keys[0]);
    } else {
        let init = keys.drop_last();
        lemma_least_key_index(init);
        let k = least_key_index(init);
        let last = keys[n - 1];
        assert(init[k] == keys[k]);
        if text_lt(last, keys[k]) {
            assert forall|j: int| 0 <= j < n - 1 implies text_lt(last, #[trigger] keys[j]) by {
                assert(init[j] == keys[j]);
                lemma_text_lt_total(keys[j], keys[k]);
                if keys[j] != keys[k] {
                    lemma_text_lt_transitive(last, keys[k], keys[j]);
                }
            }
            assert forall|j: int| 0 <= j < n implies !text_lt(#[trigger] keys[j], last) by {
                if j < n - 1 {
                    lemma_text_lt_total(keys[j], last);
                } else {
                    lemma_text_lt_irreflexive(last);
                }
            }
        } else {
            assert forall|j: int| 0 <= j < n implies !text_lt(#[trigger] keys[j], keys[k]) by {
                if j < n - 1 {
                    assert(init[j] == keys[j]);
                }
            }
            assert forall|j: int| 0 <= j < k implies text_lt(keys[k], #[trigger] keys[j]) by {
                assert(init[j] == keys[j]);
            }
        }
    }
}

/// The index of the entry with the least key, see [`least_key_index`].
fn least_key<T>(v: &Vec<(String, T)>) -> (r: usize)
    requires
        v@.len() > 0,
    ensures
        r < v@.len(),
        r == least_key_index(keys_of(v@)),
{
    let ghost keys = keys_of(v@);
    let mut best: usize = 0;
    let mut i: usize = 1;
    assert(keys.take(1).len() == 1);
    while i < v.len()
        invariant
            1 <= i <= v@.len(),
            keys == keys_of(v@),
            best < i,
            best == least_key_index(keys.take(i as int)),
        decreases v@.len() - i,
    {
        assert(keys.take(i + 1).drop_last() =~= keys.take(i as int));
        assert(keys.take(i + 1).last() == v@[i as int].0@);
        assert(keys.take(i as int)[best as int] == v@[best as int].0@);
        if text_less(v[i].0.as_str(), v[best].0.as_str()) {
            best = i;
        }
        i = i + 1;
    }
    assert(keys.take(v@.len() as int) =~= keys);
    best
}

impl WriteResponse {
    /// The outcome of a create request of one object: the created object under the least key,
    /// else the failure under the least key, else an error saying that the answer held
    /// neither. Keys are compared as `String`s are.
    pub fn created(self) -> (r: Result<WriteSuccess, ZotError>)
        ensures
            self.successful@.len() > 0 ==> r == Ok::<WriteSuccess, ZotError>(
                self.successful@[least_key_index(keys_of(self.successful@))].1,
            ),
            self.successful@.len() == 0 && self.failed@.len() > 0 ==> ({
                let f = self.failed@[least_key_index(keys_of(self.failed@))].1;
                r matches Err(ZotError::CreateFailed(c, m)) && c == f.code && m@ == f.message@
            }),
            self.successful@.len() == 0 && self.failed@.len() == 0 ==> r matches Err(ZotError::CreateEmpty),
            self.successful@.len() > 0 ==> forall|j: int| 0 <= j < self.successful@.len() ==> !text_lt(
                #[trigger] self.successful@[j].0@,
                self.successful@[least_key_index(keys_of(self.successful@))].0@,
            ),
            self.successful@.len() == 0 && self.failed@.len() > 0 ==> forall|j: int| 0 <= j < self.failed@.len()
                ==> !text_lt(#[trigger] self.failed@[j].0@, self.failed@[least_key_index(keys_of(self.failed@))].0@),
    {
        proof {
            if self.successful@.len() > 0 {
                let keys = keys_of(self.successful@);
                lemma_least_key_index(keys);
                assert forall|j: int| 0 <= j < self.successful@.len() implies !text_lt(
                    #[trigger] self.successful@[j].0@,
                    self.successful@[least_key_index(keys)].0@,
                ) by {
                    assert(keys[j] == self.successful@[j].0@);
                    assert(keys[least_key_index(keys)] == self.successful@[least_key_index(keys)].0@);
                }
            }
            if self.failed@.len() > 0 {
                let keys = keys_of(self.failed@);
                lemma_least_key_index(keys);
                assert forall|j: int| 0 <= j < self.failed@.len() implies !text_lt(
                    #[trigger] self.failed@[j].0@,
                    self.failed@[least_key_index(keys)].0@,
                ) by {
                    assert(keys[j] == self.failed@[j].0@);
                    assert(keys[least_key_index(keys)] == self.failed@[least_key_index(keys)].0@);
                }
            }
        }
        let mut successful = self.successful;
        if successful.len() > 0 {
            let i = least_key(&successful);
            let (_, first) = successful.swap_remove(i);
            return Ok(first);
        }
        if self.failed.len() > 0 {
            let i = least_key(&self.failed);
            let failure = &self.failed[i].1;
            return Err(ZotError::CreateFailed(failure.code, failure.message.clone()));
        }
        Err(ZotError::CreateEmpty)
    }
}

/// A file to attach: its name, MD5 digest in hexadecimal, size, modification time in
/// milliseconds since 1970, and content.
pub struct AttachmentUpload<'a> {
    pub filename: &'a str,
    pub md5: &'a str,
    pub filesize: u64,
    pub mtime_ms: i64,
    pub bytes: &'a [u8],
}

/// The outcome of attaching a file: the attachment's key, and whether the file was sent
/// (the Web API may already hold it).
#[derive(Debug, Clone)]
pub struct FileUploadResult {
    pub attachment_key: String,
    pub uploaded: bool,
}

/// The outcome of an update or a deletion: the item's key and the library's new version.
#[derive(Debug, Clone)]
pub struct WriteActionResult {
    pub key: String,
    pub version: Option<i64>,
}

/// The answer to a request to upload a file: whether the file exists already, and where and
/// how to send it.
#[derive(Debug, Clone)]
pub struct UploadAuthorization {
    pub exists: Option<i64>,
    pub url: Option<String>,
    pub content_type: Option<String>,
    pub prefix: Option<String>,
    pub suffix: Option<String>,
    pub upload_key: Option<String>,
}

/// What follows an upload authorization: nothing, since the Web API holds the file already;
/// or sending the file and then registering the upload.
#[derive(Debug)]
pub enum UploadNext {
    Done(FileUploadResult),
    Send { upload: HttpRequest, register: HttpRequest },
}

/// Whether a character is a lowercase hexadecimal digit.
pub open spec fn is_lower_hex(c: char) -> bool {
    ('0' <= c && c <= '9') || ('a' <= c && c <= 'f')
}

/// A fresh write token, which makes a create request safe to repeat.
///
/// Trusted: calls `uuid::Uuid::new_v4().simple().to_string()`. The token is random; the
/// contract claims only what the `uuid` source shows of every outcome: 32 lowercase
/// hexadecimal digits, the version digit `4` at index 12, and a variant digit among
/// `8`, `9`, `a`, `b` at index 16. The call panics where the system's random source fails;
/// nothing that the library passes can rule that out.
#[verifier::external_body]
fn write_token() -> (r: String)
    ensures
        r@.len() == 32,
        forall|i: int| 0 <= i < 32 ==> is_lower_hex(#[trigger] r@[i]),
        r@[12] == '4',
        r@[16] == '8' || r@[16] == '9' || r@[16] == 'a' || r@[16] == 'b',
{
    uuid::Uuid::new_v4().simple().to_string()
}

fn append_bytes(v: &mut Vec<u8>, b: &[u8])
    ensures
        final(v)@ == old(v)@ + b@,
{
    let ghost before = v@;
    let mut i: usize = 0;
    while i < b.len()
        invariant
            0 <= i <= b@.len(),
            v@ == before + b@.take(i as int),
        decreases b@.len() - i,
    {
        v.push(b[i]);
        assert(b@.take(i + 1) =~= b@.take(i as int).push(b@[i as int]));
        i = i + 1;
    }
    assert(b@.take(b@.len() as int) =~= b@);
}

/// A `POST` of a form to `url`, sent only where the target does not exist yet.
pub open spec fn is_form_post(r: HttpRequest, url: Seq<char>, form: Seq<(Seq<char>, Seq<char>)>) -> bool {
    &&& r.method == Method::Post
    &&& r.url@ == url
    &&& r.query@.len() == 0
    &&& pairs_view(r.headers@) == seq![("if-none-match"@, "*"@)]
    &&& (r.body matches Body::Form(f) && pairs_view(f@) == form)
}

/// A write to one item, guarded by the library version that it was read at.
pub open spec fn is_versioned(r: HttpRequest, method: Method, url: Seq<char>, version: i64) -> bool {
    &&& r.method == method
    &&& r.url@ == url
    &&& r.query@.len() == 0
    &&& pairs_view(r.headers@) == seq![("if-unmodified-since-version"@, int_decimal(version as int))]
}

/// The form of an upload authorization request.
pub open spec fn upload_form(file: AttachmentUpload) -> Seq<(Seq<char>, Seq<char>)> {
    seq![
        ("md5"@, file.md5@),
        ("filename"@, file.filename@),
        ("filesize"@, decimal(file.filesize as nat)),
        ("mtime"@, int_decimal(file.mtime_ms as int)),
    ]
}

/// The header value as text, where every byte is visible ASCII or a tab.
pub open spec fn header_text(b: Seq<u8>) -> Option<Seq<char>> {
    if forall|i: int| 0 <= i < b.len() ==> (b[i] == 9 || (32 <= #[trigger] b[i] && b[i] <= 126)) {
        Some(b.map_values(|x: u8| x as char))
    } else {
        None
    }
}

/// The library version in a `Last-Modified-Version` header, where it reads as an `i64`.
pub open spec fn spec_modified_version(value: Option<Seq<u8>>) -> Option<int> {
    match value {
        Some(b) => match header_text(b) {
            Some(t) => spec_parse_i64(t),
            None => None,
        },
        None => None,
    }
}

/// The library version in a `Last-Modified-Version` header: its bytes as text, read as an
/// `i64`; none where the header is absent, not text, or not a number.
pub fn modified_version(value: Option<&[u8]>) -> (r: Option<i64>)
    ensures
        match r {
            Some(v) => spec_modified_version(match value { Some(b) => Some(b@), None => None }) == Some(v as int),
            None => spec_modified_version(match value { Some(b) => Some(b@), None => None }) is None,
        },
{
    let b = match value {
        Some(b) => b,
        None => return None,
    };
    let mut text = String::new();
    let mut i: usize = 0;
    while i < b.len()
        invariant
            0 <= i <= b@.len(),
            forall|j: int| 0 <= j < i ==> (b@[j] == 9 || (32 <= #[trigger] b@[j] && b@[j] <= 126)),
            text@ == b@.take(i as int).map_values(|x: u8| x as char),
            value == Some(b),
        decreases b@.len() - i,
    {
        let x = b[i];
        if !(x == 9 || (32 <= x && x <= 126)) {
            assert(!(b@[i as int] == 9 || (32 <= b@[i as int] && b@[i as int] <= 126)));
            assert(header_text(b@) is None);
            return None;
        }
        crate::text::push_char(&mut text, x as char);
        assert(b@.take(i + 1).map_values(|x: u8| x as char) =~= b@.take(i as int).map_values(|x: u8| x as char).push(x as char));
        i = i + 1;
    }
    assert(b@.take(b@.len() as int) =~= b@);
    assert(header_text(b@) == Some(text@));
    parse_i64(text.as_str())
}

/// The outcome of an update or a deletion: the item's key and the version the Web API reports.
pub fn write_action_result(key: &str, last_modified_version: Option<&[u8]>) -> (r: WriteActionResult)
    ensures
        r.key@ == key@,
        match r.version {
            Some(v) => spec_modified_version(match last_modified_version { Some(b) => Some(b@), None => None }) == Some(v as int),
            None => spec_modified_version(match last_modified_version { Some(b) => Some(b@), None => None }) is None,
        },
{
    WriteActionResult { key: key.to_owned(), version: modified_version(last_modified_version) }
}

/// The outcome of a file upload that was sent and registered.
pub fn uploaded(key: &str) -> (r: FileUploadResult)
    ensures
        r.attachment_key@ == key@,
        r.uploaded,
{
    FileUploadResult { attachment_key: key.to_owned(), uploaded: true }
}

impl ZoteroClient {
    fn post_form(&self, endpoint: &str, form: Vec<(String, String)>) -> (r: HttpRequest)
        ensures
            is_form_post(r, self.config.spec_library_url(endpoint@), pairs_view(form@)),
    {
        let mut headers: Vec<(String, String)> = Vec::new();
        push_pair(&mut headers, "if-none-match", "*".to_owned());
        assert(pairs_view(headers@) =~= seq![("if-none-match"@, "*"@)]);
        HttpRequest {
            method: Method::Post,
            url: self.config.library_url(endpoint),
            query: Vec::new(),
            headers,
            body: Body::Form(form),
        }
    }

    fn item_template_with_params(&self, item_type: &str, extra: Vec<(String, String)>) -> (r: Result<HttpRequest, ZotError>)
        ensures
            self.config.local ==> r matches Err(ZotError::LocalWrite(WriteCommand::AddOrAttach)),
            !self.config.local ==> (r matches Ok(q) && crate::client::is_get(q, self.config.spec_absolute_url("items/new"@),
                seq![("itemType"@, item_type@)] + pairs_view(extra@))),
    {
        if self.config.local {
            return Err(ZotError::LocalWrite(WriteCommand::AddOrAttach));
        }
        let mut query: Vec<(String, String)> = Vec::new();
        push_pair(&mut query, "itemType", item_type.to_owned());
        let mut i: usize = 0;
        let ghost first = pairs_view(query@);
        assert(first =~= seq![("itemType"@, item_type@)]);
        while i < extra.len()
            invariant
                0 <= i <= extra@.len(),
                first == seq![("itemType"@, item_type@)],
                pairs_view(query@) == first + pairs_view(extra@).take(i as int),
            decreases extra@.len() - i,
        {
            push_pair(&mut query, extra[i].0.as_str(), extra[i].1.clone());
            assert(pairs_view(extra@).take(i + 1) =~= pairs_view(extra@).take(i as int).push(
                (extra@[i as int].0@, extra@[i as int].1@),
            ));
            i = i + 1;
        }
        assert(pairs_view(extra@).take(extra@.len() as int) =~= pairs_view(extra@));
        Ok(HttpRequest {
            method: Method::Get,
            url: self.config.absolute_url("items/new"),
            query,
            headers: Vec::new(),
            body: Body::Empty,
        })
    }

    /// The template of an attachment of an imported file; refused in local mode.
    pub fn attachment_template(&self) -> (r: Result<HttpRequest, ZotError>)
        ensures
            self.config.local ==> r matches Err(ZotError::LocalWrite(WriteCommand::AddOrAttach)),
            !self.config.local ==> (r matches Ok(q) && crate::client::is_get(q, self.config.spec_absolute_url("items/new"@),
                seq![("itemType"@, "attachment"@), ("linkMode"@, "imported_file"@)])),
    {
        let mut extra: Vec<(String, String)> = Vec::new();
        push_pair(&mut extra, "linkMode", "imported_file".to_owned());
        assert(pairs_view(extra@) =~= seq![("linkMode"@, "imported_file"@)]);
        let r = self.item_template_with_params("attachment", extra);
        proof {
            if !self.config.local {
                assert(seq![("itemType"@, "attachment"@)] + seq![("linkMode"@, "imported_file"@)]
                    =~= seq![("itemType"@, "attachment"@), ("linkMode"@, "imported_file"@)]);
            }
        }
        r
    }

    /// The template of an item of the given type; refused in local mode.
    pub fn item_template(&self, item_type: &str) -> (r: Result<HttpRequest, ZotError>)
        ensures
            self.config.local ==> r matches Err(ZotError::LocalWrite(WriteCommand::AddOrAttach)),
            !self.config.local ==> (r matches Ok(q) && crate::client::is_get(q, self.config.spec_absolute_url("items/new"@),
                seq![("itemType"@, item_type@)])),
    {
        let r = self.item_template_with_params(item_type, Vec::new());
        proof {
            if !self.config.local {
                assert(seq![("itemType"@, item_type@)] + pairs_view(Seq::<(String, String)>::empty())
                    =~= seq![("itemType"@, item_type@)]);
            }
        }
        r
    }

    /// The request that creates one item, under a fresh write token; refused in local mode.
    pub fn create_item(&self, item: JsonValue) -> (r: Result<HttpRequest, ZotError>)
        ensures
            self.config.local ==> r matches Err(ZotError::LocalWrite(WriteCommand::Add)),
            !self.config.local ==> (r matches Ok(q) && {
                &&& q.method == Method::Post
                &&& q.url@ == self.config.spec_library_url("items"@)
                &&& q.query@.len() == 0
                &&& q.headers@.len() == 1
                &&& q.headers@[0].0@ == "zotero-write-token"@
                &&& q.headers@[0].1@.len() == 32
                &&& forall|i: int| 0 <= i < 32 ==> is_lower_hex(#[trigger] q.headers@[0].1@[i])
                &&& q.headers@[0].1@[12] == '4'
                &&& (q.body matches Body::Json(b) && b@ == Json::Array(seq![item@]))
            }),
    {
        if self.config.local {
            return Err(ZotError::LocalWrite(WriteCommand::Add));
        }
        let token = write_token();
        let mut headers: Vec<(String, String)> = Vec::new();
        headers.push(("zotero-write-token".to_owned(), token));
        let ghost iv = item@;
        let mut items: Vec<JsonValue> = Vec::new();
        items.push(item);
        let body = JsonValue::array(items);
        assert(crate::json::values_view(items@) =~= seq![iv]);
        Ok(HttpRequest { method: Method::Post, url: self.config.library_url("items"), query: Vec::new(), headers, body: Body::Json(body) })
    }

    /// What an answer to a create request with status `status` (written `status_text`) and body
    /// `body` means: success; a key without write access; or an error of the Web API.
    pub fn check_create_status(&self, status: u16, status_text: &str, body: &str) -> (r: Result<(), ZotError>)
        ensures
            is_success(status) ==> r is Ok,
            !is_success(status) && status == 403 && contains_seq(body@, "Write access denied"@)
                ==> (r matches Err(ZotError::WriteAccessDenied(s, t)) && s@ == status_text@ && t@ == body@),
            !is_success(status) && !(status == 403 && contains_seq(body@, "Write access denied"@))
                ==> (r matches Err(ZotError::Api(s, t)) && s@ == status_text@ && t@ == body@),
    {
        if 200 <= status && status <= 299 {
            return Ok(());
        }
        if status == 403 && contains_str(body, "Write access denied") {
            return Err(ZotError::WriteAccessDenied(status_text.to_owned(), body.to_owned()));
        }
        Err(ZotError::Api(status_text.to_owned(), body.to_owned()))
    }

    /// The request that asks to upload the file of attachment `key`; refused in local mode.
    pub fn upload_attachment_file(&self, key: &str, file: &AttachmentUpload) -> (r: Result<HttpRequest, ZotError>)
        ensures
            self.config.local ==> r matches Err(ZotError::LocalWrite(WriteCommand::Attach)),
            !self.config.local ==> (r matches Ok(q)
                && is_form_post(q, self.config.spec_library_url("items/"@ + key@ + "/file"@), upload_form(*file))),
    {
        if self.config.local {
            return Err(ZotError::LocalWrite(WriteCommand::Attach));
        }
        let endpoint = concat3("items/", key, "/file");
        let mut form: Vec<(String, String)> = Vec::new();
        push_pair(&mut form, "md5", file.md5.to_owned());
        push_pair(&mut form, "filename", file.filename.to_owned());
        push_pair(&mut form, "filesize", decimal_string(file.filesize));
        push_pair(&mut form, "mtime", i64_decimal(file.mtime_ms));
        assert(pairs_view(form@) =~= upload_form(*file));
        Ok(self.post_form(endpoint.as_str(), form))
    }

    /// What follows the authorization of an upload: nothing where the Web API holds the file
    /// already; else the upload of the file framed by the authorization's prefix and suffix,
    /// then the registration of the upload. An authorization without the URL, the content type
    /// or the upload key is refused, in that order.
    pub fn upload_after_authorization(&self, key: &str, file: &AttachmentUpload, auth: UploadAuthorization) -> (r: Result<UploadNext, ZotError>)
        ensures
            auth.exists == Some(1i64) ==> (r matches Ok(UploadNext::Done(d)) && d.attachment_key@ == key@ && !d.uploaded),
            auth.exists != Some(1i64) && auth.url is None ==> r matches Err(ZotError::UploadMissingUrl),
            auth.exists != Some(1i64) && auth.url is Some && auth.content_type is None
                ==> r matches Err(ZotError::UploadMissingContentType),
            auth.exists != Some(1i64) && auth.url is Some && auth.content_type is Some && auth.upload_key is None
                ==> r matches Err(ZotError::UploadMissingKey),
            auth.exists != Some(1i64) && auth.url is Some && auth.content_type is Some && auth.upload_key is Some
                ==> (r matches Ok(UploadNext::Send { upload, register }) && {
                    &&& upload.method == Method::Post
                    &&& upload.url@ == auth.url->0@
                    &&& upload.query@.len() == 0
                    &&& pairs_view(upload.headers@) == seq![("content-type"@, auth.content_type->0@)]
                    &&& (upload.body matches Body::Bytes(b) && b@ == (match auth.prefix { Some(p) => vstd::utf8::encode_utf8(p@), None => seq![] })
                        + file.bytes@ + (match auth.suffix { Some(s) => vstd::utf8::encode_utf8(s@), None => seq![] }))
                    &&& is_form_post(register, self.config.spec_library_url("items/"@ + key@ + "/file"@),
                        seq![("upload"@, auth.upload_key->0@)])
                }),
    {
        if auth.exists == Some(1i64) {
            return Ok(UploadNext::Done(FileUploadResult { attachment_key: key.to_owned(), uploaded: false }));
        }
        let url = match auth.url {
            Some(u) => u,
            None => return Err(ZotError::UploadMissingUrl),
        };
        let content_type = match auth.content_type {
            Some(c) => c,
            None => return Err(ZotError::UploadMissingContentType),
        };
        let upload_key = match auth.upload_key {
            Some(k) => k,
            None => return Err(ZotError::UploadMissingKey),
        };
        let mut body: Vec<u8> = Vec::new();
        if let Some(prefix) = &auth.prefix {
            append_bytes(&mut body, prefix.as_str().as_bytes());
        }
        append_bytes(&mut body, file.bytes);
        if let Some(suffix) = &auth.suffix {
            append_bytes(&mut body, suffix.as_str().as_bytes());
        }
        let mut headers: Vec<(String, String)> = Vec::new();
        push_pair(&mut headers, "content-type", content_type);
        assert(pairs_view(headers@) =~= seq![("content-type"@, auth.content_type->0@)]);
        let upload = HttpRequest { method: Method::Post, url, query: Vec::new(), headers, body: Body::Bytes(body) };
        let endpoint = concat3("items/", key, "/file");
        let mut form: Vec<(String, String)> = Vec::new();
        push_pair(&mut form, "upload", upload_key);
        assert(pairs_view(form@) =~= seq![("upload"@, auth.upload_key->0@)]);
        let register = self.post_form(endpoint.as_str(), form);
        Ok(UploadNext::Send { upload, register })
    }

    /// The request that applies `patch` to item `key` read at `version`; refused in local mode.
    pub fn update_item_patch(&self, key: &str, version: i64, patch: JsonValue) -> (r: Result<HttpRequest, ZotError>)
        ensures
            self.config.local ==> r matches Err(ZotError::LocalWrite(WriteCommand::Update)),
            !self.config.local ==> (r matches Ok(q)
                && is_versioned(q, Method::Patch, self.config.spec_library_url("items/"@ + key@), version)
                && (q.body matches Body::Json(b) && b@ == patch@)),
    {
        if self.config.local {
            return Err(ZotError::LocalWrite(WriteCommand::Update));
        }
        let ghost pv = patch@;
        let endpoint = crate::api::item_endpoint(key);
        let mut headers: Vec<(String, String)> = Vec::new();
        push_pair(&mut headers, "if-unmodified-since-version", i64_decimal(version));
        assert(pairs_view(headers@) =~= seq![("if-unmodified-since-version"@, int_decimal(version as int))]);
        Ok(HttpRequest {
            method: Method::Patch,
            url: self.config.library_url(endpoint.as_str()),
            query: Vec::new(),
            headers,
            body: Body::Json(patch),
        })
    }

    /// The request that deletes item `key` read at `version`; refused in local mode.
    pub fn delete_item(&self, key: &str, version: i64) -> (r: Result<HttpRequest, ZotError>)
        ensures
            self.config.local ==> r matches Err(ZotError::LocalWrite(WriteCommand::Delete)),
            !self.config.local ==> (r matches Ok(q)
                && is_versioned(q, Method::Delete, self.config.spec_library_url("items/"@ + key@), version)
                && q.body is Empty),
    {
        if self.config.local {
            return Err(ZotError::LocalWrite(WriteCommand::Delete));
        }
        let endpoint = crate::api::item_endpoint(key);
        let mut headers: Vec<(String, String)> = Vec::new();
        push_pair(&mut headers, "if-unmodified-since-version", i64_decimal(version));
        assert(pairs_view(headers@) =~= seq![("if-unmodified-since-version"@, int_decimal(version as int))]);
        Ok(HttpRequest {
            method: Method::Delete,
            url: self.config.library_url(endpoint.as_str()),
            query: Vec::new(),
            headers,
            body: Body::Empty,
        })
    }
}

} // verus!

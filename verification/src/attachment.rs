//! Attachments: finding an item's PDF, describing a file to attach, and naming a download.
use vstd::prelude::*;

use crate::error::ZotError;
use crate::item::{Item, LinkInfo};
use crate::json::{lemma_get_after_set, Json, JsonValue};
use crate::text::{chars_of, concat2, concat3, opt_view, push_char, push_str, str_eq};
use crate::write::{AttachmentUpload, FileUploadResult};

verus! {

/// The type of a link, where it has one.
pub fn link_type(link: &LinkInfo) -> (r: Option<&str>)
    ensures
        match r { Some(t) => Some(t@), None => None::<Seq<char>> } == opt_view(link.link_type),
{
    match &link.link_type {
        Some(t) => Some(t.as_str()),
        None => None,
    }
}

/// Whether an item is a PDF attachment: an attachment whose content type, or else whose
/// enclosure's type, is `application/pdf`.
pub open spec fn spec_is_pdf_attachment(item: Item) -> bool {
    &&& item.data.item_type@ == "attachment"@
    &&& (opt_view(item.data.content_type) == Some("application/pdf"@)
        || (item.links.enclosure matches Some(l) && opt_view(l.link_type) == Some("application/pdf"@)))
}

/// Whether an item is a PDF attachment, see [`spec_is_pdf_attachment`].
pub fn is_pdf_attachment(item: &Item) -> (b: bool)
    ensures
        b == spec_is_pdf_attachment(*item),
{
    if !str_eq(item.data.item_type.as_str(), "attachment") {
        return false;
    }
    let by_content = match &item.data.content_type {
        Some(c) => str_eq(c.as_str(), "application/pdf"),
        None => false,
    };
    if by_content {
        return true;
    }
    match &item.links.enclosure {
        Some(l) => match link_type(l) {
            Some(t) => str_eq(t, "application/pdf"),
            None => false,
        },
        None => false,
    }
}

/// Where the PDF of an item is: the item itself, or one of its children still to be fetched.
#[derive(Debug)]
pub enum PdfLookup {
    Found(Item),
    NeedChildren,
}

/// The item itself where it is a PDF attachment; else its children must be searched.
pub fn resolve_pdf_attachment(item: Item) -> (r: PdfLookup)
    ensures
        spec_is_pdf_attachment(item) ==> r == PdfLookup::Found(item),
        !spec_is_pdf_attachment(item) ==> r is NeedChildren,
{
    if is_pdf_attachment(&item) {
        PdfLookup::Found(item)
    } else {
        PdfLookup::NeedChildren
    }
}

/// The first child of item `key` that is a PDF attachment; refused where there is none.
pub fn pdf_among_children(key: &str, children: Vec<Item>) -> (r: Result<Item, ZotError>)
    ensures
        match r {
            Ok(c) => exists|i: int| 0 <= i < children@.len() && children@[i] == c && spec_is_pdf_attachment(c)
                && forall|j: int| 0 <= j < i ==> !spec_is_pdf_attachment(#[trigger] children@[j]),
            Err(e) => (e matches ZotError::NoPdfAttachment(k) && k@ == key@)
                && forall|j: int| 0 <= j < children@.len() ==> !spec_is_pdf_attachment(#[trigger] children@[j]),
        },
{
    let mut kids = children;
    let mut i: usize = 0;
    while i < kids.len()
        invariant
            0 <= i <= kids@.len(),
            kids@ == children@,
            forall|j: int| 0 <= j < i ==> !spec_is_pdf_attachment(#[trigger] children@[j]),
        decreases kids@.len() - i,
    {
        if is_pdf_attachment(&kids[i]) {
            let c = kids.swap_remove(i);
            assert(children@[i as int] == c);
            return Ok(c);
        }
        i = i + 1;
    }
    Err(ZotError::NoPdfAttachment(key.to_owned()))
}

/// The attachment item to create from its template: its parent, the imported-file link mode,
/// the title (else the file name), the file name and the content type.
pub open spec fn spec_attachment_item(
    template: Json,
    parent_key: Seq<char>,
    title: Option<Seq<char>>,
    filename: Seq<char>,
    content_type: Seq<char>,
) -> Json {
    template.set_field("parentItem"@, Json::Str(parent_key))
        .set_field("linkMode"@, Json::Str("imported_file"@))
        .set_field("title"@, Json::Str(match title { Some(t) => t, None => filename }))
        .set_field("filename"@, Json::Str(filename))
        .set_field("contentType"@, Json::Str(content_type))
}

/// The attachment item built from an object template holds the given parent, the link mode
/// `imported_file`, the given title (the file name only where no title is given), the file
/// name and the content type; every other member of the template stays as it was.
pub proof fn law_attachment_item_members(
    template: Json,
    parent_key: Seq<char>,
    title: Option<Seq<char>>,
    filename: Seq<char>,
    content_type: Seq<char>,
    other: Seq<char>,
)
    requires
        template is Object,
    ensures
        ({
            let item = spec_attachment_item(template, parent_key, title, filename, content_type);
            &&& item is Object
            &&& item.get("parentItem"@) == Some(Json::Str(parent_key))
            &&& item.get("linkMode"@) == Some(Json::Str("imported_file"@))
            &&& (title matches Some(t) ==> item.get("title"@) == Some(Json::Str(t)))
            &&& (title is None ==> item.get("title"@) == Some(Json::Str(filename)))
            &&& item.get("filename"@) == Some(Json::Str(filename))
            &&& item.get("contentType"@) == Some(Json::Str(content_type))
            &&& (other != "parentItem"@ && other != "linkMode"@ && other != "title"@ && other != "filename"@
                && other != "contentType"@ ==> item.get(other) == template.get(other))
        }),
{
    reveal_strlit("parentItem");
    reveal_strlit("linkMode");
    reveal_strlit("title");
    reveal_strlit("filename");
    reveal_strlit("contentType");
    let keys = seq!["parentItem"@, "linkMode"@, "title"@, "filename"@, "contentType"@];
    assert forall|a: int, b: int| 0 <= a < b < 5 implies keys[a] != keys[b] by {
        assert(keys[0][0] == 'p' && keys[1][0] == 'l' && keys[2][0] == 't' && keys[3][0] == 'f' && keys[4][0] == 'c');
        assert(keys[a][0] != keys[b][0]);
    }
    let t = match title { Some(t) => t, None => filename };
    let j1 = template.set_field(keys[0], Json::Str(parent_key));
    let j2 = j1.set_field(keys[1], Json::Str("imported_file"@));
    let j3 = j2.set_field(keys[2], Json::Str(t));
    let j4 = j3.set_field(keys[3], Json::Str(filename));
    let j5 = j4.set_field(keys[4], Json::Str(content_type));
    assert forall|k: Seq<char>| #![auto] true implies j5.get(k) == (
        if k == keys[4] { Some(Json::Str(content_type)) }
        else if k == keys[3] { Some(Json::Str(filename)) }
        else if k == keys[2] { Some(Json::Str(t)) }
        else if k == keys[1] { Some(Json::Str("imported_file"@)) }
        else if k == keys[0] { Some(Json::Str(parent_key)) }
        else { template.get(k) }
    ) by {
        lemma_get_after_set(template, keys[0], Json::Str(parent_key), k);
        lemma_get_after_set(j1, keys[1], Json::Str("imported_file"@), k);
        lemma_get_after_set(j2, keys[2], Json::Str(t), k);
        lemma_get_after_set(j3, keys[3], Json::Str(filename), k);
        lemma_get_after_set(j4, keys[4], Json::Str(content_type), k);
    }
    lemma_get_after_set(j4, keys[4], Json::Str(content_type), other);
    assert(j5.get(keys[0]) == Some(Json::Str(parent_key)));
    assert(j5.get(keys[1]) == Some(Json::Str("imported_file"@)));
    assert(j5.get(keys[2]) == Some(Json::Str(t)));
    assert(j5.get(keys[3]) == Some(Json::Str(filename)));
    assert(j5.get(other) == (
        if other == keys[4] { Some(Json::Str(content_type)) }
        else if other == keys[3] { Some(Json::Str(filename)) }
        else if other == keys[2] { Some(Json::Str(t)) }
        else if other == keys[1] { Some(Json::Str("imported_file"@)) }
        else if other == keys[0] { Some(Json::Str(parent_key)) }
        else { template.get(other) }
    ));
}

/// Completes the attachment template, see [`spec_attachment_item`].
pub fn build_attachment_item(
    template: JsonValue,
    parent_key: &str,
    filename: &str,
    title: Option<&str>,
    content_type: &str,
) -> (r: JsonValue)
    ensures
        r@ == spec_attachment_item(template@, parent_key@, match title { Some(t) => Some(t@), None => None }, filename@, content_type@),
{
    let mut item = template;
    item.set_field("parentItem", JsonValue::from_str(parent_key));
    item.set_field("linkMode", JsonValue::from_str("imported_file"));
    let t = match title {
        Some(t) => t,
        None => filename,
    };
    item.set_field("title", JsonValue::from_str(t));
    item.set_field("filename", JsonValue::from_str(filename));
    item.set_field("contentType", JsonValue::from_str(content_type));
    item
}

/// The outcome of attaching a file as JSON: the attachment's key and whether the file was sent.
pub fn attach_to_json(upload: &FileUploadResult) -> (r: JsonValue)
    ensures
        r@ == Json::Object(seq![
            ("attachment_key"@, Json::Str(upload.attachment_key@)),
            ("uploaded"@, Json::Bool(upload.uploaded)),
        ]),
{
    let mut members: Vec<(String, JsonValue)> = Vec::new();
    members.push(("attachment_key".to_owned(), JsonValue::Str(upload.attachment_key.clone())));
    members.push(("uploaded".to_owned(), JsonValue::Bool(upload.uploaded)));
    let r = JsonValue::object(members);
    assert(crate::json::members_view(members@) =~= seq![
        ("attachment_key"@, Json::Str(upload.attachment_key@)),
        ("uploaded"@, Json::Bool(upload.uploaded)),
    ]);
    r
}

/// What follows sending the file of a newly created attachment item.
#[derive(Debug)]
pub enum AttachNext {
    /// The file is attached.
    Attached(FileUploadResult),
    /// Sending the file failed, so the attachment item with this key must be removed again:
    /// it is read for its version and deleted at that version, and the failure is reported
    /// with [`upload_failure_context`].
    RemoveOrphan(String),
}

/// The step after sending the file of the new attachment `key`: done where the upload gave a
/// result, else the removal of the attachment item just created.
pub fn after_attachment_upload(key: &str, upload: Option<FileUploadResult>) -> (r: AttachNext)
    ensures
        match upload {
            Some(u) => r == AttachNext::Attached(u),
            None => r matches AttachNext::RemoveOrphan(k) && k@ == key@,
        },
{
    match upload {
        Some(u) => AttachNext::Attached(u),
        None => AttachNext::RemoveOrphan(key.to_owned()),
    }
}

/// What is said when the file of a newly created attachment could not be sent: that the
/// attachment was removed again, or why it could not be.
pub open spec fn spec_upload_failure_context(key: Seq<char>, cleanup_error: Option<Seq<char>>) -> Seq<char> {
    match cleanup_error {
        None => "attachment item was created, but file upload failed; removed the orphan attachment item"@,
        Some(e) => "attachment item was created, but file upload failed; failed to remove orphan attachment "@
            + key + ": "@ + e,
    }
}

/// What is said when the file of a newly created attachment could not be sent.
pub fn upload_failure_context(key: &str, cleanup_error: Option<&str>) -> (r: String)
    ensures
        r@ == spec_upload_failure_context(key@, match cleanup_error { Some(e) => Some(e@), None => None }),
{
    match cleanup_error {
        None => "attachment item was created, but file upload failed; removed the orphan attachment item".to_owned(),
        Some(e) => {
            let mut s = concat3(
                "attachment item was created, but file upload failed; failed to remove orphan attachment ",
                key,
                ": ",
            );
            push_str(&mut s, e);
            s
        },
    }
}

/// The modification time of a file, as the file system reports it.
#[derive(Debug, Clone, Copy)]
pub enum MtimeReading {
    /// The file system gives no modification time.
    Unavailable,
    /// The time lies before 1970.
    BeforeEpoch,
    /// The time since 1970, in seconds and nanoseconds.
    SinceEpoch { secs: u64, nanos: u32 },
}

/// The name, size and modification time of a file to attach.
#[derive(Debug, Clone)]
pub struct UploadFileMetadata {
    pub filename: String,
    pub filesize: u64,
    pub mtime_ms: i64,
}

/// The milliseconds since 1970 of a time given in seconds and nanoseconds, as the low 64 bits
/// of the whole count, read as an `i64`.
pub open spec fn spec_mtime_ms(secs: u64, nanos: u32) -> i64 {
    (secs as int * 1000 + nanos as int / 1000000) as i64
}

/// What is known of a file to attach at `path`: refused where it is not a regular file, has no
/// UTF-8 file name, or has no modification time since 1970.
pub fn upload_file_metadata(
    path: &str,
    is_file: bool,
    filename: Option<&str>,
    filesize: u64,
    mtime: MtimeReading,
) -> (r: Result<UploadFileMetadata, ZotError>)
    ensures
        !is_file ==> (r matches Err(ZotError::NotAFile(p)) && p@ == path@),
        is_file && filename is None ==> (r matches Err(ZotError::NoFileName(p)) && p@ == path@),
        is_file && filename is Some && mtime is Unavailable ==> r matches Err(ZotError::MtimeUnavailable),
        is_file && filename is Some && mtime is BeforeEpoch ==> r matches Err(ZotError::MtimeBeforeEpoch),
        is_file && filename is Some ==> (mtime matches MtimeReading::SinceEpoch { secs, nanos } ==> (r matches Ok(m)
            && m.filename@ == filename->0@ && m.filesize == filesize && m.mtime_ms == spec_mtime_ms(secs, nanos))),
{
    if !is_file {
        return Err(ZotError::NotAFile(path.to_owned()));
    }
    let name = match filename {
        Some(n) => n,
        None => return Err(ZotError::NoFileName(path.to_owned())),
    };
    match mtime {
        MtimeReading::Unavailable => Err(ZotError::MtimeUnavailable),
        MtimeReading::BeforeEpoch => Err(ZotError::MtimeBeforeEpoch),
        MtimeReading::SinceEpoch { secs, nanos } => {
            let total: u128 = secs as u128 * 1000 + (nanos / 1000000) as u128;
            let mtime_ms = total as i64;
            Ok(UploadFileMetadata { filename: name.to_owned(), filesize, mtime_ms })
        },
    }
}

/// The MD5 digest of `data`.
pub uninterp spec fn md5_of(data: Seq<u8>) -> Seq<u8>;

/// The MD5 digest of a file's content.
///
/// Trusted: calls `md5::compute`; the 16 bytes of the digest are named by `md5_of`.
#[verifier::external_body]
fn md5_digest(data: &[u8]) -> (r: [u8; 16])
    ensures
        r@ == md5_of(data@),
{
    md5::compute(data).0
}

/// The lowercase hexadecimal digit of `n < 16`.
pub open spec fn hex_digit(n: int) -> char {
    if n < 10 { ((n + 48) as u8) as char } else { ((n + 87) as u8) as char }
}

/// Bytes as lowercase hexadecimal, two digits each.
pub open spec fn lower_hex(b: Seq<u8>) -> Seq<char>
    decreases b.len(),
{
    if b.len() == 0 {
        seq![]
    } else {
        lower_hex(b.drop_last()) + seq![hex_digit(b.last() as int / 16), hex_digit(b.last() as int % 16)]
    }
}

fn hex_char(n: u8) -> (c: char)
    requires
        n < 16,
    ensures
        c == hex_digit(n as int),
{
    if n < 10 {
        (n + 48) as char
    } else {
        (n + 87) as char
    }
}

/// Bytes as lowercase hexadecimal, see [`lower_hex`].
pub fn to_lower_hex(b: &[u8]) -> (r: String)
    ensures
        r@ == lower_hex(b@),
{
    let mut s = String::new();
    let mut i: usize = 0;
    while i < b.len()
        invariant
            0 <= i <= b@.len(),
            s@ == lower_hex(b@.take(i as int)),
        decreases b@.len() - i,
    {
        let x = b[i];
        push_char(&mut s, hex_char(x / 16));
        push_char(&mut s, hex_char(x % 16));
        assert(b@.take(i + 1).drop_last() =~= b@.take(i as int));
        assert(b@.take(i + 1).last() == x);
        assert(s@ =~= lower_hex(b@.take(i + 1)));
        i = i + 1;
    }
    assert(b@.take(b@.len() as int) =~= b@);
    s
}

/// A file to attach, with its content and the MD5 digest of the content.
#[derive(Debug, Clone)]
pub struct UploadFile {
    pub filename: String,
    pub md5: String,
    pub filesize: u64,
    pub mtime_ms: i64,
    pub bytes: Vec<u8>,
}

/// A file to attach from its metadata and content: the digest is the content's MD5 in
/// lowercase hexadecimal, as `format!("{:x}", md5::compute(..))` writes it.
pub fn read_upload_file(metadata: UploadFileMetadata, bytes: Vec<u8>) -> (r: UploadFile)
    ensures
        r.filename == metadata.filename,
        r.filesize == metadata.filesize,
        r.mtime_ms == metadata.mtime_ms,
        r.bytes@ == bytes@,
        r.md5@ == lower_hex(md5_of(bytes@)),
{
    let digest = md5_digest(bytes.as_slice());
    let md5 = to_lower_hex(&digest);
    UploadFile { filename: metadata.filename, md5, filesize: metadata.filesize, mtime_ms: metadata.mtime_ms, bytes }
}

/// The upload of a file read for attaching.
pub fn upload_request<'a>(file: &'a UploadFile) -> (r: AttachmentUpload<'a>)
    ensures
        r.filename@ == file.filename@,
        r.md5@ == file.md5@,
        r.filesize == file.filesize,
        r.mtime_ms == file.mtime_ms,
        r.bytes@ == file.bytes@,
{
    AttachmentUpload {
        filename: file.filename.as_str(),
        md5: file.md5.as_str(),
        filesize: file.filesize,
        mtime_ms: file.mtime_ms,
        bytes: file.bytes.as_slice(),
    }
}

/// The download URL of an attachment: its enclosure's link; refused where it has none.
pub fn download_href(attachment: &Item) -> (r: Result<String, ZotError>)
    ensures
        match attachment.links.enclosure {
            Some(l) => match l.href {
                Some(h) => r matches Ok(s) && s@ == h@,
                None => r matches Err(ZotError::NoDownloadUrl(k)) && k@ == attachment.key@,
            },
            None => r matches Err(ZotError::NoDownloadUrl(k)) && k@ == attachment.key@,
        },
{
    match &attachment.links.enclosure {
        Some(l) => match &l.href {
            Some(h) => Ok(h.clone()),
            None => Err(ZotError::NoDownloadUrl(attachment.key.clone())),
        },
        None => Err(ZotError::NoDownloadUrl(attachment.key.clone())),
    }
}

/// Whether a download URL names a local file: it parses, and its scheme is `file`.
pub fn is_file_url(href: &str) -> (b: bool)
    ensures
        b == (crate::config::url_parse(href@) matches Ok(u) && u.scheme == "file"@),
{
    match crate::config::parse_url(href) {
        Ok(u) => str_eq(u.scheme.as_str(), "file"),
        Err(_) => false,
    }
}

/// A file name with `/`, `\`, `:` and NUL replaced by `-`.
pub open spec fn spec_sanitize_filename(name: Seq<char>) -> Seq<char> {
    name.map_values(|c: char| if c == '/' || c == '\\' || c == ':' || c == '\0' { '-' } else { c })
}

/// A file name that is safe to write, see [`spec_sanitize_filename`].
pub fn sanitize_filename(name: &str) -> (r: String)
    ensures
        r@ == spec_sanitize_filename(name@),
{
    let v = chars_of(name);
    let mut s = String::new();
    let mut i: usize = 0;
    while i < v.len()
        invariant
            0 <= i <= v@.len(),
            v@ == name@,
            s@ == spec_sanitize_filename(v@.take(i as int)),
        decreases v@.len() - i,
    {
        let c = v[i];
        let d = if c == '/' || c == '\\' || c == ':' || c == '\0' { '-' } else { c };
        push_char(&mut s, d);
        assert(spec_sanitize_filename(v@.take(i + 1)) =~= spec_sanitize_filename(v@.take(i as int)).push(d));
        i = i + 1;
    }
    assert(v@.take(v@.len() as int) =~= v@);
    s
}

/// The file name under which an attachment is saved: its own, sanitized, else `attachment.pdf`.
pub fn attachment_filename(attachment: &Item) -> (r: String)
    ensures
        r@ == spec_sanitize_filename(match attachment.data.filename { Some(f) => f@, None => "attachment.pdf"@ }),
{
    match &attachment.data.filename {
        Some(f) => sanitize_filename(f.as_str()),
        None => sanitize_filename("attachment.pdf"),
    }
}

/// The name of the temporary file that a download goes to when no output is given:
/// `zot-<key>-<file name>`.
pub fn temp_download_name(attachment: &Item) -> (r: String)
    ensures
        r@ == "zot-"@ + attachment.key@ + "-"@
            + spec_sanitize_filename(match attachment.data.filename { Some(f) => f@, None => "attachment.pdf"@ }),
{
    let name = attachment_filename(attachment);
    concat3("zot-", attachment.key.as_str(), concat2("-", name.as_str()).as_str())
}

} // verus!

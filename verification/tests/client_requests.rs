use zot::api::{ItemsRequest, PageRequest};
use zot::attachment::{
    attach_to_json, attachment_filename, build_attachment_item, download_href, is_file_url, is_pdf_attachment,
    pdf_among_children, read_upload_file, resolve_pdf_attachment, sanitize_filename, temp_download_name,
    upload_failure_context, upload_file_metadata, upload_request, MtimeReading, PdfLookup,
};
use zot::client::{Body, Method, ZoteroClient};
use zot::commands::{delete_guard, open_target_url};
use zot::config::{Config, LibraryScope, ParsedUrl};
use zot::error::ZotError;
use zot::item::{Collection, CollectionData, Creator, Group, GroupData, Item, ItemData, ItemLinks, LinkInfo, Tag};
use zot::json::JsonValue;
use zot::output::{
    collection_lines, created_item_lines, created_to_json, dry_run_delete_json, dry_run_item_json, dry_run_update_json,
    group_lines, item_detail_lines, item_lines, open_json, tag_lines,
};
use zot::attachment::{after_attachment_upload, AttachNext};
use zot::write::{modified_version, write_action_result, UploadAuthorization, UploadNext, WriteFailure, WriteResponse, WriteSuccess};

fn web_config(local: bool, library: LibraryScope) -> Config {
    let (text, host) = if local {
        ("http://localhost:23119/api", "localhost")
    } else {
        ("https://api.zotero.org/", "api.zotero.org")
    };
    Config {
        api_base: ParsedUrl { text: text.to_owned(), host: Some(host.to_owned()), scheme: text.split(':').next().unwrap().to_owned() },
        api_key: if local { None } else { Some("KEY".to_owned()) },
        library,
        local,
    }
}

fn client(local: bool) -> ZoteroClient {
    ZoteroClient::new(web_config(local, LibraryScope::User(if local { "0" } else { "1" }.to_owned()))).expect("client")
}

fn data(item_type: &str) -> ItemData {
    ItemData {
        item_type: item_type.to_owned(),
        title: None,
        short_title: None,
        subject: None,
        date: None,
        url: None,
        doi: None,
        filename: None,
        content_type: None,
        parent_item: None,
        publication_title: None,
        isbn: None,
        creators: vec![],
    }
}

fn item(key: &str, data: ItemData) -> Item {
    Item {
        key: key.to_owned(),
        version: 3,
        links: ItemLinks { alternate: None, enclosure: None, attachment: None },
        data,
    }
}

fn link(href: Option<&str>, link_type: Option<&str>) -> LinkInfo {
    LinkInfo { href: href.map(str::to_owned), link_type: link_type.map(str::to_owned), title: None, length: None }
}

fn pairs(v: &[(String, String)]) -> Vec<(&str, &str)> {
    v.iter().map(|(a, b)| (a.as_str(), b.as_str())).collect()
}

#[test]
fn builds_read_requests_of_the_library() {
    let c = client(false);
    assert_eq!(pairs(&c.default_headers()), vec![("zotero-api-version", "3"), ("zotero-api-key", "KEY")]);
    let r = c.item("K1");
    assert_eq!(r.method, Method::Get);
    assert_eq!(r.url, "https://api.zotero.org/users/1/items/K1");
    assert!(r.query.is_empty());
    let r = c.item_children_limited("K1", 5);
    assert_eq!(r.url, "https://api.zotero.org/users/1/items/K1/children");
    assert_eq!(pairs(&r.query), vec![("limit", "5")]);
    let r = c.groups(25).expect("groups");
    assert_eq!(r.url, "https://api.zotero.org/users/1/groups");
    assert_eq!(pairs(&r.query), vec![("limit", "25")]);
}

#[test]
fn pages_through_a_listing() {
    let c = client(false);
    let page = PageRequest { limit: 2, start: 4, all: true, sort: Some("title".to_owned()), direction: None };
    let list = c
        .items(ItemsRequest { collection: None, page, tag: Some("t".to_owned()), top: true, trash: false })
        .expect("listing");
    assert_eq!(list.url, "https://api.zotero.org/users/1/items/top");
    assert_eq!(pairs(&list.query(4)), vec![("tag", "t"), ("limit", "2"), ("start", "4"), ("sort", "title")]);
    assert_eq!(list.next_start(4, 2), Some(6));
    assert_eq!(list.next_start(6, 1), None);
    let single = c.collections(Some("neuro"), PageRequest { limit: 2, start: 0, all: false, sort: None, direction: None }, true);
    assert_eq!(single.url, "https://api.zotero.org/users/1/collections/top");
    assert_eq!(single.next_start(0, 2), None);
    let search = c.search_items("q", PageRequest { limit: 9, start: 0, all: false, sort: None, direction: None }, "everything", true);
    assert_eq!(pairs(&search.params), vec![("q", "q"), ("qmode", "everything"), ("includeTrashed", "1")]);
    assert_eq!(
        c.items(ItemsRequest {
            collection: Some("C".to_owned()),
            page: PageRequest { limit: 2, start: 0, all: false, sort: None, direction: None },
            tag: None,
            top: false,
            trash: true
        })
        .unwrap_err(),
        ZotError::TrashWithListFilters
    );
}

#[test]
fn refuses_groups_outside_a_web_user_library() {
    let group = ZoteroClient::new(web_config(false, LibraryScope::Group("9".to_owned()))).expect("client");
    assert_eq!(group.groups(5).unwrap_err(), ZotError::GroupsNeedUserLibrary);
    assert_eq!(client(true).groups(5).unwrap_err().message(), "`zot groups` is not supported in --local mode; pass --user-id or --username");
}

#[test]
fn reads_answers_and_failures() {
    let web = client(false);
    let local = client(true);
    assert!(web.require_success(204, "204 No Content", "").is_ok());
    assert_eq!(
        web.require_success(500, "500 Internal Server Error", "boom").unwrap_err().message(),
        "zotero api error 500 Internal Server Error: boom"
    );
    assert_eq!(
        local.require_success(403, "403 Forbidden", "Local API is not enabled").unwrap_err().message(),
        "local Zotero API is disabled at http://localhost:23119/api. enable 'Allow other applications on this computer to communicate with Zotero'"
    );
    assert_eq!(local.request_error(true, "refused"), ZotError::LocalConnectFailed("http://localhost:23119/api".to_owned()));
    assert_eq!(web.request_error(true, "refused"), ZotError::Transport("refused".to_owned()));
    let bad = web_config(false, LibraryScope::User("1".to_owned()));
    let bad = Config { api_key: Some("bad\nkey".to_owned()), ..bad };
    assert_eq!(ZoteroClient::new(bad).unwrap_err().message(), "invalid api key header value");
}

#[test]
fn writes_are_refused_in_local_mode() {
    let local = client(true);
    assert_eq!(local.item_template("book").unwrap_err().message(), "`zot add` and `zot attach` are not supported in --local mode; use a write-enabled Zotero Web API key");
    assert_eq!(local.create_item(JsonValue::Null).unwrap_err().message(), "`zot add` is not supported in --local mode; use a write-enabled Zotero Web API key");
    assert_eq!(local.update_item_patch("K", 1, JsonValue::Null).unwrap_err().message(), "`zot update` is not supported in --local mode; use a write-enabled Zotero Web API key");
    assert_eq!(local.delete_item("K", 1).unwrap_err().message(), "`zot delete` is not supported in --local mode; use a write-enabled Zotero Web API key");
}

#[test]
fn builds_write_requests() {
    let c = client(false);
    let t = c.attachment_template().expect("template");
    assert_eq!(t.url, "https://api.zotero.org/items/new");
    assert_eq!(pairs(&t.query), vec![("itemType", "attachment"), ("linkMode", "imported_file")]);

    let r = c.create_item(JsonValue::Str("x".to_owned())).expect("create");
    assert_eq!(r.method, Method::Post);
    assert_eq!(r.url, "https://api.zotero.org/users/1/items");
    assert_eq!(r.headers.len(), 1);
    assert_eq!(r.headers[0].0, "zotero-write-token");
    let token = &r.headers[0].1;
    assert_eq!(token.len(), 32);
    assert!(token.chars().all(|ch| ch.is_ascii_hexdigit() && !ch.is_ascii_uppercase()));
    assert_eq!(&token[12..13], "4");
    let second = c.create_item(JsonValue::Null).expect("create");
    assert_ne!(&second.headers[0].1, token);
    match &r.body {
        Body::Json(b) => assert!(b.equals(&JsonValue::Array(vec![JsonValue::Str("x".to_owned())]))),
        other => panic!("unexpected body {other:?}"),
    }

    let r = c.update_item_patch("K", 42, JsonValue::Null).expect("update");
    assert_eq!(r.method, Method::Patch);
    assert_eq!(r.url, "https://api.zotero.org/users/1/items/K");
    assert_eq!(pairs(&r.headers), vec![("if-unmodified-since-version", "42")]);
    let r = c.delete_item("K", -1).expect("delete");
    assert_eq!(r.method, Method::Delete);
    assert_eq!(pairs(&r.headers), vec![("if-unmodified-since-version", "-1")]);
}

#[test]
fn reads_create_answers() {
    let c = client(false);
    assert_eq!(
        c.check_create_status(403, "403 Forbidden", "Write access denied").unwrap_err().message(),
        "zotero api error 403 Forbidden: Write access denied. create a write-enabled Zotero API key to use `zot add`"
    );
    assert!(c.check_create_status(200, "200 OK", "").is_ok());
    let created = WriteResponse {
        successful: vec![("0".to_owned(), WriteSuccess::Key("NEWKEY".to_owned()))],
        failed: vec![],
    }
    .created()
    .expect("created");
    assert_eq!(created.key(), "NEWKEY");
    let failed = WriteResponse {
        successful: vec![],
        failed: vec![("0".to_owned(), WriteFailure { code: 400, message: "bad item".to_owned() })],
    }
    .created()
    .unwrap_err();
    assert_eq!(failed.message(), "create failed 400: bad item");
    assert_eq!(WriteResponse { successful: vec![], failed: vec![] }.created().unwrap_err(), ZotError::CreateEmpty);
}

#[test]
fn uploads_an_attachment_file() {
    let c = client(false);
    let metadata = upload_file_metadata("/tmp/p.pdf", true, Some("p.pdf"), 3, MtimeReading::SinceEpoch { secs: 1, nanos: 500_000_000 })
        .expect("metadata");
    assert_eq!(metadata.mtime_ms, 1500);
    let file = read_upload_file(metadata, b"abc".to_vec());
    assert_eq!(file.md5, "900150983cd24fb0d6963f7d28e17f72");
    let upload = upload_request(&file);
    let auth = c.upload_attachment_file("ATT1", &upload).expect("authorize");
    assert_eq!(auth.url, "https://api.zotero.org/users/1/items/ATT1/file");
    assert_eq!(pairs(&auth.headers), vec![("if-none-match", "*")]);
    match &auth.body {
        Body::Form(f) => assert_eq!(
            pairs(f),
            vec![("md5", "900150983cd24fb0d6963f7d28e17f72"), ("filename", "p.pdf"), ("filesize", "3"), ("mtime", "1500")]
        ),
        other => panic!("unexpected body {other:?}"),
    }
    let exists = UploadAuthorization { exists: Some(1), url: None, content_type: None, prefix: None, suffix: None, upload_key: None };
    match c.upload_after_authorization("ATT1", &upload, exists).expect("next") {
        UploadNext::Done(r) => {
            assert_eq!(r.attachment_key, "ATT1");
            assert!(!r.uploaded);
        }
        other => panic!("unexpected step {other:?}"),
    }
    let missing = UploadAuthorization { exists: None, url: Some("https://s3/x".to_owned()), content_type: None, prefix: None, suffix: None, upload_key: None };
    assert_eq!(c.upload_after_authorization("ATT1", &upload, missing).unwrap_err().message(), "upload authorization did not include content type");
    let full = UploadAuthorization {
        exists: None,
        url: Some("https://s3/x".to_owned()),
        content_type: Some("multipart/form-data".to_owned()),
        prefix: Some("<<".to_owned()),
        suffix: Some(">>".to_owned()),
        upload_key: Some("UK".to_owned()),
    };
    match c.upload_after_authorization("ATT1", &upload, full).expect("next") {
        UploadNext::Send { upload, register } => {
            assert_eq!(upload.url, "https://s3/x");
            assert_eq!(pairs(&upload.headers), vec![("content-type", "multipart/form-data")]);
            match &upload.body {
                Body::Bytes(b) => assert_eq!(b.as_slice(), b"<<abc>>"),
                other => panic!("unexpected body {other:?}"),
            }
            match &register.body {
                Body::Form(f) => assert_eq!(pairs(f), vec![("upload", "UK")]),
                other => panic!("unexpected body {other:?}"),
            }
        }
        other => panic!("unexpected step {other:?}"),
    }
    assert_eq!(upload_failure_context("ATT1", Some("gone")), "attachment item was created, but file upload failed; failed to remove orphan attachment ATT1: gone");
}

#[test]
fn checks_file_metadata() {
    assert_eq!(upload_file_metadata("/d", false, Some("d"), 0, MtimeReading::Unavailable).unwrap_err().message(), "attachment path is not a file: /d");
    assert_eq!(upload_file_metadata("/d", true, None, 0, MtimeReading::Unavailable).unwrap_err().message(), "attachment path has no valid filename: /d");
    assert_eq!(upload_file_metadata("/d", true, Some("d"), 0, MtimeReading::Unavailable).unwrap_err(), ZotError::MtimeUnavailable);
    assert_eq!(upload_file_metadata("/d", true, Some("d"), 0, MtimeReading::BeforeEpoch).unwrap_err(), ZotError::MtimeBeforeEpoch);
}

#[test]
fn reads_the_library_version_header() {
    assert_eq!(modified_version(Some(b"1234")), Some(1234));
    assert_eq!(modified_version(Some(b"12a")), None);
    assert_eq!(modified_version(Some(&[0xff, b'1'])), None);
    assert_eq!(modified_version(None), None);
    let r = write_action_result("K", Some(b"-7"));
    assert_eq!(r.key, "K");
    assert_eq!(r.version, Some(-7));
}

#[test]
fn finds_the_pdf_of_an_item() {
    let mut pdf = data("attachment");
    pdf.content_type = Some("application/pdf".to_owned());
    let pdf = item("PDF1", pdf);
    assert!(is_pdf_attachment(&pdf));
    let mut by_link = item("PDF2", data("attachment"));
    by_link.links.enclosure = Some(link(Some("https://x/file"), Some("application/pdf")));
    assert!(is_pdf_attachment(&by_link));
    let paper = item("P", data("journalArticle"));
    assert!(!is_pdf_attachment(&paper));
    assert!(matches!(resolve_pdf_attachment(paper), PdfLookup::NeedChildren));
    let note = item("N", data("note"));
    let found = pdf_among_children("P", vec![note, by_link]).expect("pdf");
    assert_eq!(found.key, "PDF2");
    assert_eq!(pdf_among_children("P", vec![]).unwrap_err().message(), "no PDF attachment found for item P");
    assert_eq!(download_href(&found).expect("href"), "https://x/file");
    assert_eq!(download_href(&pdf).unwrap_err().message(), "attachment PDF1 has no download URL");
    assert!(is_file_url("file:///tmp/a.pdf"));
    assert!(!is_file_url("https://api.zotero.org/users/1/items/ABC/file"));
    assert!(!is_file_url("not a url"));
}

#[test]
fn names_downloads_and_attachments() {
    assert_eq!(sanitize_filename("a/b\\c:d\0e.pdf"), "a-b-c-d-e.pdf");
    let mut att = item("ATT", data("attachment"));
    assert_eq!(attachment_filename(&att), "attachment.pdf");
    att.data.filename = Some("x:y.pdf".to_owned());
    assert_eq!(temp_download_name(&att), "zot-ATT-x-y.pdf");
    let template = JsonValue::Object(vec![("itemType".to_owned(), JsonValue::Str("attachment".to_owned()))]);
    let built = build_attachment_item(template, "PARENT", "paper.pdf", None, "application/pdf");
    assert_eq!(built.get("title").and_then(|t| t.as_str()), Some("paper.pdf"));
    assert_eq!(built.get("linkMode").and_then(|t| t.as_str()), Some("imported_file"));
    assert_eq!(built.get("parentItem").and_then(|t| t.as_str()), Some("PARENT"));
    let json = attach_to_json(&zot::write::FileUploadResult { attachment_key: "A".to_owned(), uploaded: true });
    assert!(json.equals(&JsonValue::Object(vec![
        ("attachment_key".to_owned(), JsonValue::Str("A".to_owned())),
        ("uploaded".to_owned(), JsonValue::Bool(true)),
    ])));
}

#[test]
fn prints_listings() {
    assert_eq!(item_lines(&[]), vec!["no items"]);
    let mut d = data("journalArticle");
    d.title = Some("Attention".to_owned());
    d.date = Some("2017".to_owned());
    d.doi = Some("10.1/x".to_owned());
    d.creators = vec![
        Creator { name: None, first_name: Some("Ashish".to_owned()), last_name: Some("Vaswani".to_owned()) },
        Creator { name: Some("Team".to_owned()), first_name: None, last_name: None },
    ];
    let a = item("K1", d);
    let b = item("K2", data("note"));
    assert_eq!(
        item_lines(&[a.clone(), b.clone()]),
        vec!["K1  journalArticle  Attention", "  Ashish Vaswani, Team | 2017 | doi:10.1/x", "K2  note  <untitled>"]
    );
    assert_eq!(
        item_detail_lines(&a),
        vec!["key K1", "type journalArticle", "title Attention", "details Ashish Vaswani, Team | 2017 | doi:10.1/x"]
    );
    assert_eq!(collection_lines(&[]), vec!["no collections"]);
    let c = Collection { key: "C1".to_owned(), version: 1, data: CollectionData { name: None, parent_collection: Some("C0".to_owned()) } };
    assert_eq!(collection_lines(&[c]), vec!["C1  <unnamed>", "  parent C0"]);
    let t = Tag { tag: "neuro".to_owned(), tag_type: Some(0), meta: JsonValue::Null };
    assert_eq!(tag_lines(&[t]), vec!["neuro"]);
    assert_eq!(tag_lines(&[]), vec!["no tags"]);
    let g = Group { id: 12, data: GroupData { name: Some("Lab".to_owned()), group_type: None, description: None }, meta: JsonValue::Null, links: JsonValue::Null };
    assert_eq!(group_lines(&[g]), vec!["12  group  Lab"]);
    assert_eq!(group_lines(&[]), vec!["no groups"]);
    assert_eq!(created_item_lines(&WriteSuccess::Key("NEW".to_owned())), vec!["created NEW"]);
    assert_eq!(created_item_lines(&WriteSuccess::Item(Box::new(b))), vec!["created K2", "type note", "title <untitled>"]);
}

#[test]
fn guards_delete_and_picks_open_targets() {
    assert!(delete_guard("K", true, false).is_ok());
    assert!(delete_guard("K", false, true).is_ok());
    assert_eq!(delete_guard("K", false, false).unwrap_err().message(), "refusing to delete K without --yes");
    let mut it = item("K", data("webpage"));
    assert_eq!(open_target_url("K", &it, false).unwrap_err().message(), "no URL for item K");
    it.links.alternate = Some(link(Some("https://www.zotero.org/u/items/K"), None));
    assert_eq!(open_target_url("K", &it, false).expect("target"), "https://www.zotero.org/u/items/K");
    it.data.url = Some("https://example.com".to_owned());
    assert_eq!(open_target_url("K", &it, false).expect("target"), "https://example.com");
    assert_eq!(open_target_url("K", &it, true).expect("target"), "https://www.zotero.org/u/items/K");
    it.links.alternate = None;
    assert_eq!(open_target_url("K", &it, true).unwrap_err().message(), "no Zotero web URL for item K");
}

#[test]
fn create_answer_is_read_at_the_least_key() {
    let created = WriteResponse {
        successful: vec![
            ("1".to_owned(), WriteSuccess::Key("SECOND".to_owned())),
            ("0".to_owned(), WriteSuccess::Key("FIRST".to_owned())),
        ],
        failed: vec![],
    }
    .created()
    .expect("created");
    assert_eq!(created.key(), "FIRST");
    let failed = WriteResponse {
        successful: vec![],
        failed: vec![
            ("10".to_owned(), WriteFailure { code: 409, message: "later".to_owned() }),
            ("1".to_owned(), WriteFailure { code: 412, message: "earlier".to_owned() }),
        ],
    }
    .created()
    .unwrap_err();
    assert_eq!(failed.message(), "create failed 412: earlier");
}

#[test]
fn a_single_page_near_the_end_of_the_offsets_stops() {
    let c = client(false);
    let list = c.collections(None, PageRequest { limit: 50, start: u32::MAX - 1, all: false, sort: None, direction: None }, false);
    assert_eq!(list.next_start(u32::MAX - 1, 50), None);
    let all = c.collections(None, PageRequest { limit: 50, start: 0, all: true, sort: None, direction: None }, false);
    assert_eq!(all.next_start(u32::MAX - 10, 3), None);
}

#[test]
fn a_failed_upload_removes_the_new_attachment() {
    match after_attachment_upload("ATT", None) {
        AttachNext::RemoveOrphan(k) => assert_eq!(k, "ATT"),
        other => panic!("unexpected step {other:?}"),
    }
    let done = zot::write::FileUploadResult { attachment_key: "ATT".to_owned(), uploaded: true };
    match after_attachment_upload("ATT", Some(done)) {
        AttachNext::Attached(r) => assert!(r.uploaded),
        other => panic!("unexpected step {other:?}"),
    }
}

#[test]
fn builds_the_json_that_commands_report() {
    let s = |v: &str| JsonValue::Str(v.to_owned());
    let obj = |m: Vec<(&str, JsonValue)>| JsonValue::Object(m.into_iter().map(|(k, v)| (k.to_owned(), v)).collect());
    assert!(dry_run_item_json(s("x")).equals(&obj(vec![("dry_run", JsonValue::Bool(true)), ("item", s("x"))])));
    assert!(dry_run_delete_json("K", 5).equals(&obj(vec![
        ("dry_run", JsonValue::Bool(true)),
        ("key", s("K")),
        ("version", JsonValue::Int(5)),
    ])));
    assert!(dry_run_update_json("K", 5, JsonValue::Null).equals(&obj(vec![
        ("dry_run", JsonValue::Bool(true)),
        ("key", s("K")),
        ("version", JsonValue::Int(5)),
        ("patch", JsonValue::Null),
    ])));
    assert!(created_to_json("K", None).equals(&obj(vec![("key", s("K"))])));
    assert!(created_to_json("K", Some(s("i"))).equals(&obj(vec![("key", s("K")), ("item", s("i"))])));
    assert!(open_json("K", "https://e", false, true).equals(&obj(vec![
        ("key", s("K")),
        ("target", s("https://e")),
        ("opened", JsonValue::Bool(false)),
        ("source", s("zotero")),
    ])));
}

#[test]
fn a_listing_is_its_pages_in_order() {
    let c = client(false);
    let list = c.collections(None, PageRequest { limit: 2, start: 0, all: true, sort: None, direction: None }, false);
    let (entries, next) = list.append_page(vec![1, 2], 0, vec![3, 4]);
    assert_eq!(entries, vec![1, 2, 3, 4]);
    assert_eq!(next, Some(2));
    let (entries, next) = list.append_page(entries, 2, vec![5]);
    assert_eq!(entries, vec![1, 2, 3, 4, 5]);
    assert_eq!(next, None);
}

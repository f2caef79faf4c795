//! The grammar of the command line: options, subcommands, values and their conflicts.
use vstd::prelude::*;

use crate::cli::{AddCommands, Cli, Commands, ExportFormat, ProfileArgs, SearchMode, SortDirection, TagSearchMode};
use crate::text::{chars_of, clone_opt, concat3, opt_view, push_str, spec_parse_i64, str_eq, parse_i64, string_from_chars, strings_view};

verus! {

/// The options of the command line, by their long names.
#[derive(Clone, Copy, Debug, PartialEq, Eq, Structural)]
pub enum Opt {
    Json, Local, UserId, Username, GroupId, ApiKey, ApiBase, Collection, Limit, Start, All, Sort,
    Direction, Tag, Top, Trash, Item, Query, Qmode, IncludeTrashed, Zotero, Print, Output, Title,
    ContentType, DryRun, Url, ClearTags, ClearCollections, Yes, Style, Value,
}

/// The commands.
#[derive(Clone, Copy, Debug, PartialEq, Eq, Structural)]
pub enum Sub {
    Items, Tags, Search, Collections, Groups, Item, Children, Open, Pdf, Attach, Update, Delete,
    Export, Add, ResolveUser,
}

/// The commands of `add`.
#[derive(Clone, Copy, Debug, PartialEq, Eq, Structural)]
pub enum AddSub {
    Json, Doi, Isbn, Url,
}

/// Where on the command line the parser stands: before a command, in a command, or in a
/// command of `add`.
#[derive(Clone, Copy, Debug, PartialEq, Eq, Structural)]
pub enum Level {
    Root,
    Cmd(Sub),
    AddCmd(AddSub),
}

/// Why a command line was refused, or that it asked for help or the version.
#[derive(Debug, Clone, PartialEq, Eq)]
pub enum CliError {
    Help,
    Version,
    UnknownArgument(String),
    MissingValue(Opt),
    UnexpectedValue(Opt),
    InvalidValue(Opt, String),
    InvalidFormat(String),
    Repeated(Opt),
    UnknownSubcommand(String),
    MissingSubcommand,
    UnexpectedPositional(String),
    MissingPositional,
    Conflict(Opt, Opt),
}

/// The mathematical form of a refusal.
pub enum CliErrorV {
    Help,
    Version,
    UnknownArgument(Seq<char>),
    MissingValue(Opt),
    UnexpectedValue(Opt),
    InvalidValue(Opt, Seq<char>),
    InvalidFormat(Seq<char>),
    Repeated(Opt),
    UnknownSubcommand(Seq<char>),
    MissingSubcommand,
    UnexpectedPositional(Seq<char>),
    MissingPositional,
    Conflict(Opt, Opt),
}

impl CliError {
    /// The mathematical form of the refusal.
    pub open spec fn view(self) -> CliErrorV {
        match self {
            CliError::Help => CliErrorV::Help,
            CliError::Version => CliErrorV::Version,
            CliError::UnknownArgument(s) => CliErrorV::UnknownArgument(s@),
            CliError::MissingValue(o) => CliErrorV::MissingValue(o),
            CliError::UnexpectedValue(o) => CliErrorV::UnexpectedValue(o),
            CliError::InvalidValue(o, s) => CliErrorV::InvalidValue(o, s@),
            CliError::InvalidFormat(s) => CliErrorV::InvalidFormat(s@),
            CliError::Repeated(o) => CliErrorV::Repeated(o),
            CliError::UnknownSubcommand(s) => CliErrorV::UnknownSubcommand(s@),
            CliError::MissingSubcommand => CliErrorV::MissingSubcommand,
            CliError::UnexpectedPositional(s) => CliErrorV::UnexpectedPositional(s@),
            CliError::MissingPositional => CliErrorV::MissingPositional,
            CliError::Conflict(a, b) => CliErrorV::Conflict(a, b),
        }
    }
}


impl Opt {
    /// The option as written on the command line.
    pub open spec fn spec_flag(self) -> Seq<char> {
        match self {
            Opt::Json => "--json"@,
            Opt::Local => "--local"@,
            Opt::UserId => "--user-id"@,
            Opt::Username => "--username"@,
            Opt::GroupId => "--group-id"@,
            Opt::ApiKey => "--api-key"@,
            Opt::ApiBase => "--api-base"@,
            Opt::Collection => "--collection"@,
            Opt::Limit => "--limit"@,
            Opt::Start => "--start"@,
            Opt::All => "--all"@,
            Opt::Sort => "--sort"@,
            Opt::Direction => "--direction"@,
            Opt::Tag => "--tag"@,
            Opt::Top => "--top"@,
            Opt::Trash => "--trash"@,
            Opt::Item => "--item"@,
            Opt::Query => "--query"@,
            Opt::Qmode => "--qmode"@,
            Opt::IncludeTrashed => "--include-trashed"@,
            Opt::Zotero => "--zotero"@,
            Opt::Print => "--print"@,
            Opt::Output => "--output"@,
            Opt::Title => "--title"@,
            Opt::ContentType => "--content-type"@,
            Opt::DryRun => "--dry-run"@,
            Opt::Url => "--url"@,
            Opt::ClearTags => "--clear-tags"@,
            Opt::ClearCollections => "--clear-collections"@,
            Opt::Yes => "--yes"@,
            Opt::Style => "--style"@,
            Opt::Value => "--value"@,
        }
    }

    /// The option as written on the command line.
    pub fn flag(&self) -> (s: &'static str)
        ensures
            s@ == self.spec_flag(),
    {
        match self {
            Opt::Json => "--json",
            Opt::Local => "--local",
            Opt::UserId => "--user-id",
            Opt::Username => "--username",
            Opt::GroupId => "--group-id",
            Opt::ApiKey => "--api-key",
            Opt::ApiBase => "--api-base",
            Opt::Collection => "--collection",
            Opt::Limit => "--limit",
            Opt::Start => "--start",
            Opt::All => "--all",
            Opt::Sort => "--sort",
            Opt::Direction => "--direction",
            Opt::Tag => "--tag",
            Opt::Top => "--top",
            Opt::Trash => "--trash",
            Opt::Item => "--item",
            Opt::Query => "--query",
            Opt::Qmode => "--qmode",
            Opt::IncludeTrashed => "--include-trashed",
            Opt::Zotero => "--zotero",
            Opt::Print => "--print",
            Opt::Output => "--output",
            Opt::Title => "--title",
            Opt::ContentType => "--content-type",
            Opt::DryRun => "--dry-run",
            Opt::Url => "--url",
            Opt::ClearTags => "--clear-tags",
            Opt::ClearCollections => "--clear-collections",
            Opt::Yes => "--yes",
            Opt::Style => "--style",
            Opt::Value => "--value",
        }
    }
}

impl CliErrorV {
    /// The text that explains the refusal.
    pub open spec fn message(self) -> Seq<char> {
        match self {
            CliErrorV::Help => "help requested"@,
            CliErrorV::Version => "version requested"@,
            CliErrorV::UnknownArgument(t) => "unexpected argument '"@ + t + "' found"@,
            CliErrorV::MissingValue(o) => "a value is required for '"@ + o.spec_flag() + "' but none was supplied"@,
            CliErrorV::UnexpectedValue(o) => "unexpected value for '"@ + o.spec_flag() + "'"@,
            CliErrorV::InvalidValue(o, v) => "invalid value '"@ + v + "' for '"@ + o.spec_flag() + "'"@,
            CliErrorV::InvalidFormat(v) => "invalid value '"@ + v + "' for '<FORMAT>'"@,
            CliErrorV::Repeated(o) => "the argument '"@ + o.spec_flag() + "' cannot be used multiple times"@,
            CliErrorV::UnknownSubcommand(t) => "unrecognized subcommand '"@ + t + "'"@,
            CliErrorV::MissingSubcommand => "a subcommand is required but one was not provided"@,
            CliErrorV::UnexpectedPositional(t) => "unexpected argument '"@ + t + "' found"@,
            CliErrorV::MissingPositional => "the following required arguments were not provided"@,
            CliErrorV::Conflict(a, b) => "the argument '"@ + a.spec_flag() + "' cannot be used with '"@ + b.spec_flag() + "'"@,
        }
    }
}

impl CliError {
    /// The text that explains the refusal.
    pub fn message(&self) -> (s: String)
        ensures
            s@ == self.view().message(),
    {
        match self {
            CliError::Help => "help requested".to_owned(),
            CliError::Version => "version requested".to_owned(),
            CliError::UnknownArgument(t) => concat3("unexpected argument '", t.as_str(), "' found"),
            CliError::MissingValue(o) => concat3("a value is required for '", o.flag(), "' but none was supplied"),
            CliError::UnexpectedValue(o) => concat3("unexpected value for '", o.flag(), "'"),
            CliError::InvalidValue(o, v) => {
                let mut s = concat3("invalid value '", v.as_str(), "' for '");
                push_str(&mut s, o.flag());
                push_str(&mut s, "'");
                s
            },
            CliError::InvalidFormat(v) => concat3("invalid value '", v.as_str(), "' for '<FORMAT>'"),
            CliError::Repeated(o) => concat3("the argument '", o.flag(), "' cannot be used multiple times"),
            CliError::UnknownSubcommand(t) => concat3("unrecognized subcommand '", t.as_str(), "'"),
            CliError::MissingSubcommand => "a subcommand is required but one was not provided".to_owned(),
            CliError::UnexpectedPositional(t) => concat3("unexpected argument '", t.as_str(), "' found"),
            CliError::MissingPositional => "the following required arguments were not provided".to_owned(),
            CliError::Conflict(a, b) => {
                let mut s = concat3("the argument '", a.flag(), "' cannot be used with '");
                push_str(&mut s, b.flag());
                push_str(&mut s, "'");
                s
            },
        }
    }
}

/// Values of the environment variables that the options read: `ZOTERO_LOCAL`, `ZOTERO_USER_ID`,
/// `ZOTERO_USERNAME`, `ZOTERO_GROUP_ID`, `ZOTERO_API_KEY` and `ZOTERO_API_BASE`.
#[derive(Debug, Clone)]
pub struct ProfileEnv {
    pub local: Option<String>,
    pub user_id: Option<String>,
    pub username: Option<String>,
    pub group_id: Option<String>,
    pub api_key: Option<String>,
    pub api_base: Option<String>,
}

impl ProfileEnv {
    /// No environment variable set.
    pub fn empty() -> (r: ProfileEnv)
        ensures
            r.local is None && r.user_id is None && r.username is None && r.group_id is None
                && r.api_key is None && r.api_base is None,
    {
        ProfileEnv { local: None, user_id: None, username: None, group_id: None, api_key: None, api_base: None }
    }

    /// The value of the variable that option `o` reads.
    pub open spec fn spec_get(self, o: Opt) -> Option<Seq<char>> {
        match o {
            Opt::Local => opt_view(self.local),
            Opt::UserId => opt_view(self.user_id),
            Opt::Username => opt_view(self.username),
            Opt::GroupId => opt_view(self.group_id),
            Opt::ApiKey => opt_view(self.api_key),
            Opt::ApiBase => opt_view(self.api_base),
            _ => None,
        }
    }
}

pub open spec fn long_opt(name: Seq<char>) -> Option<Opt> {
    if name == "json"@ {
        Some(Opt::Json)
    } else if name == "local"@ {
        Some(Opt::Local)
    } else if name == "user-id"@ {
        Some(Opt::UserId)
    } else if name == "username"@ {
        Some(Opt::Username)
    } else if name == "group-id"@ {
        Some(Opt::GroupId)
    } else if name == "api-key"@ {
        Some(Opt::ApiKey)
    } else if name == "api-base"@ {
        Some(Opt::ApiBase)
    } else if name == "collection"@ {
        Some(Opt::Collection)
    } else if name == "limit"@ {
        Some(Opt::Limit)
    } else if name == "start"@ {
        Some(Opt::Start)
    } else if name == "all"@ {
        Some(Opt::All)
    } else if name == "sort"@ {
        Some(Opt::Sort)
    } else if name == "direction"@ {
        Some(Opt::Direction)
    } else if name == "tag"@ {
        Some(Opt::Tag)
    } else if name == "top"@ {
        Some(Opt::Top)
    } else if name == "trash"@ {
        Some(Opt::Trash)
    } else if name == "item"@ {
        Some(Opt::Item)
    } else if name == "query"@ {
        Some(Opt::Query)
    } else if name == "qmode"@ {
        Some(Opt::Qmode)
    } else if name == "include-trashed"@ {
        Some(Opt::IncludeTrashed)
    } else if name == "zotero"@ {
        Some(Opt::Zotero)
    } else if name == "print"@ {
        Some(Opt::Print)
    } else if name == "output"@ {
        Some(Opt::Output)
    } else if name == "title"@ {
        Some(Opt::Title)
    } else if name == "content-type"@ {
        Some(Opt::ContentType)
    } else if name == "dry-run"@ {
        Some(Opt::DryRun)
    } else if name == "url"@ {
        Some(Opt::Url)
    } else if name == "clear-tags"@ {
        Some(Opt::ClearTags)
    } else if name == "clear-collections"@ {
        Some(Opt::ClearCollections)
    } else if name == "yes"@ {
        Some(Opt::Yes)
    } else if name == "style"@ {
        Some(Opt::Style)
    } else if name == "value"@ {
        Some(Opt::Value)
    } else {
        None
    }
}

fn exec_long_opt(name: &str) -> (r: Option<Opt>)
    ensures
        r == long_opt(name@),
{
    if str_eq(name, "json") {
        Some(Opt::Json)
    } else if str_eq(name, "local") {
        Some(Opt::Local)
    } else if str_eq(name, "user-id") {
        Some(Opt::UserId)
    } else if str_eq(name, "username") {
        Some(Opt::Username)
    } else if str_eq(name, "group-id") {
        Some(Opt::GroupId)
    } else if str_eq(name, "api-key") {
        Some(Opt::ApiKey)
    } else if str_eq(name, "api-base") {
        Some(Opt::ApiBase)
    } else if str_eq(name, "collection") {
        Some(Opt::Collection)
    } else if str_eq(name, "limit") {
        Some(Opt::Limit)
    } else if str_eq(name, "start") {
        Some(Opt::Start)
    } else if str_eq(name, "all") {
        Some(Opt::All)
    } else if str_eq(name, "sort") {
        Some(Opt::Sort)
    } else if str_eq(name, "direction") {
        Some(Opt::Direction)
    } else if str_eq(name, "tag") {
        Some(Opt::Tag)
    } else if str_eq(name, "top") {
        Some(Opt::Top)
    } else if str_eq(name, "trash") {
        Some(Opt::Trash)
    } else if str_eq(name, "item") {
        Some(Opt::Item)
    } else if str_eq(name, "query") {
        Some(Opt::Query)
    } else if str_eq(name, "qmode") {
        Some(Opt::Qmode)
    } else if str_eq(name, "include-trashed") {
        Some(Opt::IncludeTrashed)
    } else if str_eq(name, "zotero") {
        Some(Opt::Zotero)
    } else if str_eq(name, "print") {
        Some(Opt::Print)
    } else if str_eq(name, "output") {
        Some(Opt::Output)
    } else if str_eq(name, "title") {
        Some(Opt::Title)
    } else if str_eq(name, "content-type") {
        Some(Opt::ContentType)
    } else if str_eq(name, "dry-run") {
        Some(Opt::DryRun)
    } else if str_eq(name, "url") {
        Some(Opt::Url)
    } else if str_eq(name, "clear-tags") {
        Some(Opt::ClearTags)
    } else if str_eq(name, "clear-collections") {
        Some(Opt::ClearCollections)
    } else if str_eq(name, "yes") {
        Some(Opt::Yes)
    } else if str_eq(name, "style") {
        Some(Opt::Style)
    } else if str_eq(name, "value") {
        Some(Opt::Value)
    } else {
        None
    }
}

pub open spec fn sub_name(name: Seq<char>) -> Option<Sub> {
    if name == "items"@ {
        Some(Sub::Items)
    } else if name == "tags"@ {
        Some(Sub::Tags)
    } else if name == "search"@ {
        Some(Sub::Search)
    } else if name == "collections"@ {
        Some(Sub::Collections)
    } else if name == "groups"@ {
        Some(Sub::Groups)
    } else if name == "item"@ {
        Some(Sub::Item)
    } else if name == "children"@ {
        Some(Sub::Children)
    } else if name == "open"@ {
        Some(Sub::Open)
    } else if name == "pdf"@ {
        Some(Sub::Pdf)
    } else if name == "attach"@ {
        Some(Sub::Attach)
    } else if name == "update"@ {
        Some(Sub::Update)
    } else if name == "delete"@ {
        Some(Sub::Delete)
    } else if name == "export"@ {
        Some(Sub::Export)
    } else if name == "add"@ {
        Some(Sub::Add)
    } else if name == "resolve-user"@ {
        Some(Sub::ResolveUser)
    } else {
        None
    }
}

fn exec_sub_name(name: &str) -> (r: Option<Sub>)
    ensures
        r == sub_name(name@),
{
    if str_eq(name, "items") {
        Some(Sub::Items)
    } else if str_eq(name, "tags") {
        Some(Sub::Tags)
    } else if str_eq(name, "search") {
        Some(Sub::Search)
    } else if str_eq(name, "collections") {
        Some(Sub::Collections)
    } else if str_eq(name, "groups") {
        Some(Sub::Groups)
    } else if str_eq(name, "item") {
        Some(Sub::Item)
    } else if str_eq(name, "children") {
        Some(Sub::Children)
    } else if str_eq(name, "open") {
        Some(Sub::Open)
    } else if str_eq(name, "pdf") {
        Some(Sub::Pdf)
    } else if str_eq(name, "attach") {
        Some(Sub::Attach)
    } else if str_eq(name, "update") {
        Some(Sub::Update)
    } else if str_eq(name, "delete") {
        Some(Sub::Delete)
    } else if str_eq(name, "export") {
        Some(Sub::Export)
    } else if str_eq(name, "add") {
        Some(Sub::Add)
    } else if str_eq(name, "resolve-user") {
        Some(Sub::ResolveUser)
    } else {
        None
    }
}

pub open spec fn add_sub_name(name: Seq<char>) -> Option<AddSub> {
    if name == "json"@ {
        Some(AddSub::Json)
    } else if name == "doi"@ {
        Some(AddSub::Doi)
    } else if name == "isbn"@ {
        Some(AddSub::Isbn)
    } else if name == "url"@ {
        Some(AddSub::Url)
    } else {
        None
    }
}

fn exec_add_sub_name(name: &str) -> (r: Option<AddSub>)
    ensures
        r == add_sub_name(name@),
{
    if str_eq(name, "json") {
        Some(AddSub::Json)
    } else if str_eq(name, "doi") {
        Some(AddSub::Doi)
    } else if str_eq(name, "isbn") {
        Some(AddSub::Isbn)
    } else if str_eq(name, "url") {
        Some(AddSub::Url)
    } else {
        None
    }
}


/// Options that apply at every level.
pub open spec fn is_global(o: Opt) -> bool {
    matches!(o, Opt::Json | Opt::Local | Opt::UserId | Opt::Username | Opt::GroupId | Opt::ApiKey | Opt::ApiBase)
}

/// Options that take no value.
pub open spec fn is_flag(o: Opt) -> bool {
    matches!(o, Opt::Json | Opt::Local | Opt::All | Opt::Top | Opt::Trash | Opt::IncludeTrashed | Opt::Zotero
        | Opt::Print | Opt::DryRun | Opt::ClearTags | Opt::ClearCollections | Opt::Yes)
}

/// Whether option `o` belongs to the level.
pub open spec fn accepts(level: Level, o: Opt) -> bool {
    is_global(o) || match level {
        Level::Root => false,
        Level::Cmd(Sub::Items) => matches!(o, Opt::Collection | Opt::Limit | Opt::Start | Opt::All | Opt::Sort
            | Opt::Direction | Opt::Tag | Opt::Top | Opt::Trash),
        Level::Cmd(Sub::Tags) => matches!(o, Opt::Item | Opt::Collection | Opt::Limit | Opt::Query | Opt::Qmode
            | Opt::Top | Opt::Trash),
        Level::Cmd(Sub::Search) => matches!(o, Opt::Limit | Opt::Start | Opt::All | Opt::Sort | Opt::Direction
            | Opt::Qmode | Opt::IncludeTrashed),
        Level::Cmd(Sub::Collections) => matches!(o, Opt::Query | Opt::Limit | Opt::Start | Opt::All | Opt::Sort
            | Opt::Direction | Opt::Top),
        Level::Cmd(Sub::Groups) => o == Opt::Limit,
        Level::Cmd(Sub::Item) => false,
        Level::Cmd(Sub::Children) => o == Opt::Limit,
        Level::Cmd(Sub::Open) => matches!(o, Opt::Zotero | Opt::Print),
        Level::Cmd(Sub::Pdf) => matches!(o, Opt::Output | Opt::Print),
        Level::Cmd(Sub::Attach) => matches!(o, Opt::Title | Opt::ContentType | Opt::DryRun),
        Level::Cmd(Sub::Update) => matches!(o, Opt::Title | Opt::Url | Opt::Tag | Opt::ClearTags | Opt::Collection
            | Opt::ClearCollections | Opt::DryRun),
        Level::Cmd(Sub::Delete) => matches!(o, Opt::Yes | Opt::DryRun),
        Level::Cmd(Sub::Export) => matches!(o, Opt::Item | Opt::Collection | Opt::Limit | Opt::Top | Opt::Trash
            | Opt::Output | Opt::Style),
        Level::Cmd(Sub::Add) => matches!(o, Opt::DryRun | Opt::Collection | Opt::Tag),
        Level::Cmd(Sub::ResolveUser) => false,
        Level::AddCmd(AddSub::Json) => o == Opt::Value,
        Level::AddCmd(AddSub::Url) => o == Opt::Title,
        Level::AddCmd(_) => false,
    }
}

/// Options that may be given more than once, each time adding a value.
pub open spec fn is_multi(level: Level, o: Opt) -> bool {
    (level == Level::Cmd(Sub::Update) || level == Level::Cmd(Sub::Add)) && (o == Opt::Tag || o == Opt::Collection)
}

/// Whether the level has the short option `-o` for `--output`.
pub open spec fn has_short_output(level: Level) -> bool {
    level == Level::Cmd(Sub::Pdf) || level == Level::Cmd(Sub::Export)
}

/// The number of positional arguments of the level.
pub open spec fn max_positionals(level: Level) -> nat {
    match level {
        Level::Cmd(Sub::Search) | Level::Cmd(Sub::Item) | Level::Cmd(Sub::Children) | Level::Cmd(Sub::Open)
        | Level::Cmd(Sub::Pdf) | Level::Cmd(Sub::Update) | Level::Cmd(Sub::Delete) | Level::Cmd(Sub::Export)
        | Level::Cmd(Sub::ResolveUser) | Level::AddCmd(_) => 1,
        Level::Cmd(Sub::Attach) => 2,
        _ => 0,
    }
}

/// The number of positional arguments that must be given.
pub open spec fn min_positionals(level: Level) -> nat {
    if level == Level::AddCmd(AddSub::Json) { 0 } else { max_positionals(level) }
}

/// Whether `limit` must lie in `1..=100` at this level.
pub open spec fn limit_ranged(level: Level) -> bool {
    matches!(level, Level::Cmd(Sub::Items) | Level::Cmd(Sub::Tags) | Level::Cmd(Sub::Search)
        | Level::Cmd(Sub::Collections) | Level::Cmd(Sub::Groups))
}

/// The texts that read as true for a flag read from the environment: `true`, and the `1`
/// that `ZOTERO_LOCAL=1` sets.
pub open spec fn true_text(v: Seq<char>) -> bool {
    v == "true"@ || v == "1"@
}

/// The text that reads as false for a flag read from the environment.
pub open spec fn false_text(v: Seq<char>) -> bool {
    v == "false"@
}

/// Whether `v` is a valid value of option `o` at the level.
pub open spec fn value_ok(level: Level, o: Opt, v: Seq<char>) -> bool {
    match o {
        Opt::Limit => match spec_parse_i64(v) {
            Some(n) => if limit_ranged(level) { 1 <= n <= 100 } else { 0 <= n <= 65535 },
            None => false,
        },
        Opt::Start => match spec_parse_i64(v) {
            Some(n) => 0 <= n <= 4294967295,
            None => false,
        },
        Opt::Direction => v == "asc"@ || v == "desc"@,
        Opt::Qmode => if level == Level::Cmd(Sub::Search) {
            v == "title-creator-year"@ || v == "everything"@
        } else {
            v == "contains"@ || v == "starts-with"@
        },
        Opt::Local => true_text(v) || false_text(v),
        _ => true,
    }
}

/// The formats that `export` accepts.
pub open spec fn is_format(v: Seq<char>) -> bool {
    v == "bibtex"@ || v == "ris"@ || v == "csljson"@ || v == "bib"@
}

/// The state of the parser between two arguments.
pub struct ScanV {
    pub level: Level,
    pub occ: Seq<(Opt, Option<Seq<char>>)>,
    pub pos: Seq<Seq<char>>,
    pub pending: Option<Opt>,
    pub after_dd: bool,
}

/// Whether option `o` occurs.
pub open spec fn present(occ: Seq<(Opt, Option<Seq<char>>)>, o: Opt) -> bool {
    exists|i: int| 0 <= i < occ.len() && occ[i].0 == o
}

/// Records one occurrence of an option, refusing a repeat or an invalid value.
pub open spec fn record(st: ScanV, o: Opt, v: Option<Seq<char>>) -> Result<ScanV, CliErrorV> {
    if present(st.occ, o) && !is_multi(st.level, o) {
        Err(CliErrorV::Repeated(o))
    } else {
        match v {
            Some(t) => if !value_ok(st.level, o, t) {
                Err(CliErrorV::InvalidValue(o, t))
            } else {
                Ok(ScanV { occ: st.occ.push((o, v)), pending: None, ..st })
            },
            None => Ok(ScanV { occ: st.occ.push((o, v)), pending: None, ..st }),
        }
    }
}

/// A positional argument: a command name before a command, else an argument of the command.
pub open spec fn positional(st: ScanV, tok: Seq<char>) -> Result<ScanV, CliErrorV> {
    match st.level {
        Level::Root => match sub_name(tok) {
            Some(c) => Ok(ScanV { level: Level::Cmd(c), ..st }),
            None => if tok == "help"@ { Err(CliErrorV::Help) } else { Err(CliErrorV::UnknownSubcommand(tok)) },
        },
        Level::Cmd(Sub::Add) => match add_sub_name(tok) {
            Some(a) => Ok(ScanV { level: Level::AddCmd(a), ..st }),
            None => if tok == "help"@ { Err(CliErrorV::Help) } else { Err(CliErrorV::UnknownSubcommand(tok)) },
        },
        _ => if st.pos.len() >= max_positionals(st.level) {
            Err(CliErrorV::UnexpectedPositional(tok))
        } else if st.level == Level::Cmd(Sub::Export) && st.pos.len() == 0 && !is_format(tok) {
            Err(CliErrorV::InvalidFormat(tok))
        } else {
            Ok(ScanV { pos: st.pos.push(tok), ..st })
        },
    }
}

/// Whether an argument reads as an option rather than a value.
pub open spec fn looks_like_option(tok: Seq<char>) -> bool {
    tok.len() > 1 && tok[0] == '-'
}

/// The index of the first `=` in `s`.
pub open spec fn first_eq(s: Seq<char>) -> Option<int> {
    crate::text::first_occurrence(s, seq!['='])
}

/// One long option `--name` or `--name=value`.
pub open spec fn long_option(st: ScanV, tok: Seq<char>) -> Result<ScanV, CliErrorV> {
    let body = tok.skip(2);
    let (name, val) = match first_eq(body) {
        Some(i) => (body.take(i), Some(body.skip(i + 1))),
        None => (body, None::<Seq<char>>),
    };
    match long_opt(name) {
        Some(o) => if !accepts(st.level, o) {
            Err(CliErrorV::UnknownArgument(tok))
        } else if is_flag(o) {
            if val is Some { Err(CliErrorV::UnexpectedValue(o)) } else { record(st, o, None) }
        } else {
            match val {
                Some(v) => record(st, o, Some(v)),
                None => Ok(ScanV { pending: Some(o), ..st }),
            }
        },
        None => if name == "help"@ {
            Err(CliErrorV::Help)
        } else if name == "version"@ && st.level == Level::Root {
            Err(CliErrorV::Version)
        } else {
            Err(CliErrorV::UnknownArgument(tok))
        },
    }
}

/// One short option: `-h`, `-V` before a command, or `-o` where `--output` is accepted.
pub open spec fn short_option(st: ScanV, tok: Seq<char>) -> Result<ScanV, CliErrorV> {
    let c = tok[1];
    let rest = tok.skip(2);
    if c == 'h' && rest.len() == 0 {
        Err(CliErrorV::Help)
    } else if c == 'V' && rest.len() == 0 && st.level == Level::Root {
        Err(CliErrorV::Version)
    } else if c == 'o' && has_short_output(st.level) {
        if rest.len() == 0 {
            Ok(ScanV { pending: Some(Opt::Output), ..st })
        } else if rest[0] == '=' {
            record(st, Opt::Output, Some(rest.drop_first()))
        } else {
            record(st, Opt::Output, Some(rest))
        }
    } else {
        Err(CliErrorV::UnknownArgument(tok))
    }
}

/// The parser after one more argument.
pub open spec fn step(st: ScanV, tok: Seq<char>) -> Result<ScanV, CliErrorV> {
    match st.pending {
        Some(o) => if looks_like_option(tok) {
            Err(CliErrorV::MissingValue(o))
        } else {
            record(st, o, Some(tok))
        },
        None => if st.after_dd {
            positional(st, tok)
        } else if tok == "--"@ {
            Ok(ScanV { after_dd: true, ..st })
        } else if tok.len() >= 2 && tok[0] == '-' && tok[1] == '-' {
            long_option(st, tok)
        } else if tok.len() >= 2 && tok[0] == '-' {
            short_option(st, tok)
        } else {
            positional(st, tok)
        },
    }
}

/// The parser after the arguments `toks`, one by one.
pub open spec fn scan(st: ScanV, toks: Seq<Seq<char>>) -> Result<ScanV, CliErrorV>
    decreases toks.len(),
{
    if toks.len() == 0 {
        Ok(st)
    } else {
        match step(st, toks[0]) {
            Ok(next) => scan(next, toks.drop_first()),
            Err(e) => Err(e),
        }
    }
}

/// The parser before any argument.
pub open spec fn initial_scan() -> ScanV {
    ScanV { level: Level::Root, occ: seq![], pos: seq![], pending: None, after_dd: false }
}


/// The value of the first occurrence of option `o`.
pub open spec fn value_from(occ: Seq<(Opt, Option<Seq<char>>)>, o: Opt, k: int) -> Option<Seq<char>>
    decreases occ.len() - k,
{
    if k < 0 || k >= occ.len() {
        None
    } else if occ[k].0 == o {
        occ[k].1
    } else {
        value_from(occ, o, k + 1)
    }
}

/// The value of option `o` where given.
pub open spec fn value_of(occ: Seq<(Opt, Option<Seq<char>>)>, o: Opt) -> Option<Seq<char>> {
    value_from(occ, o, 0)
}

/// The values of every occurrence of option `o`, in order.
pub open spec fn values_of(occ: Seq<(Opt, Option<Seq<char>>)>, o: Opt) -> Seq<Seq<char>>
    decreases occ.len(),
{
    if occ.len() == 0 {
        seq![]
    } else {
        let rest = values_of(occ.drop_last(), o);
        if occ.last().0 == o {
            match occ.last().1 {
                Some(v) => rest.push(v),
                None => rest,
            }
        } else {
            rest
        }
    }
}

/// An integer option, or its default.
pub open spec fn int_value(occ: Seq<(Opt, Option<Seq<char>>)>, o: Opt, default: int) -> int {
    match value_of(occ, o) {
        Some(v) => match spec_parse_i64(v) {
            Some(n) => n,
            None => default,
        },
        None => default,
    }
}

/// The environment variable of option `o` counts where the option was not given.
pub open spec fn add_env(occ: Seq<(Opt, Option<Seq<char>>)>, o: Opt, env: ProfileEnv) -> Result<Seq<(Opt, Option<Seq<char>>)>, CliErrorV> {
    if present(occ, o) {
        Ok(occ)
    } else {
        match env.spec_get(o) {
            Some(v) => if o == Opt::Local && !(true_text(v) || false_text(v)) {
                Err(CliErrorV::InvalidValue(o, v))
            } else {
                Ok(occ.push((o, Some(v))))
            },
            None => Ok(occ),
        }
    }
}

/// The options after the environment variables are read, in the order of the options.
pub open spec fn with_env(occ: Seq<(Opt, Option<Seq<char>>)>, env: ProfileEnv) -> Result<Seq<(Opt, Option<Seq<char>>)>, CliErrorV> {
    match add_env(occ, Opt::Local, env) {
        Err(e) => Err(e),
        Ok(o1) => match add_env(o1, Opt::UserId, env) {
            Err(e) => Err(e),
            Ok(o2) => match add_env(o2, Opt::Username, env) {
                Err(e) => Err(e),
                Ok(o3) => match add_env(o3, Opt::GroupId, env) {
                    Err(e) => Err(e),
                    Ok(o4) => match add_env(o4, Opt::ApiKey, env) {
                        Err(e) => Err(e),
                        Ok(o5) => add_env(o5, Opt::ApiBase, env),
                    },
                },
            },
        },
    }
}

/// The pairs of options that may not be given together at a level.
pub open spec fn conflict_pairs(level: Level) -> Seq<(Opt, Opt)> {
    seq![
        (Opt::Local, Opt::UserId), (Opt::Local, Opt::Username), (Opt::Local, Opt::GroupId), (Opt::Local, Opt::ApiKey),
        (Opt::UserId, Opt::GroupId), (Opt::UserId, Opt::Username), (Opt::Username, Opt::GroupId),
    ] + match level {
        Level::Cmd(Sub::Items) => seq![(Opt::Trash, Opt::Collection), (Opt::Trash, Opt::Top)],
        Level::Cmd(Sub::Tags) | Level::Cmd(Sub::Export) => seq![
            (Opt::Item, Opt::Collection), (Opt::Item, Opt::Top), (Opt::Item, Opt::Trash),
            (Opt::Collection, Opt::Trash), (Opt::Top, Opt::Trash),
        ],
        Level::Cmd(Sub::Update) => seq![(Opt::ClearTags, Opt::Tag), (Opt::ClearCollections, Opt::Collection)],
        _ => seq![],
    }
}

/// The first pair of options given together that may not be.
pub open spec fn first_conflict(occ: Seq<(Opt, Option<Seq<char>>)>, pairs: Seq<(Opt, Opt)>) -> Option<(Opt, Opt)>
    decreases pairs.len(),
{
    if pairs.len() == 0 {
        None
    } else if present(occ, pairs[0].0) && present(occ, pairs[0].1) {
        Some(pairs[0])
    } else {
        first_conflict(occ, pairs.drop_first())
    }
}

/// The mathematical form of the profile options.
pub struct ProfileV {
    pub local: bool,
    pub user_id: Option<Seq<char>>,
    pub username: Option<Seq<char>>,
    pub group_id: Option<Seq<char>>,
    pub api_key: Option<Seq<char>>,
    pub api_base: Seq<char>,
}

/// The mathematical form of the commands of `add`.
pub enum AddV {
    Json { value: Option<Seq<char>>, input: Seq<char> },
    Doi { doi: Seq<char> },
    Isbn { isbn: Seq<char> },
    Url { url: Seq<char>, title: Option<Seq<char>> },
}

/// The mathematical form of a command.
pub enum CommandsV {
    Items { collection: Option<Seq<char>>, limit: int, start: int, all: bool, sort: Option<Seq<char>>,
        direction: Option<SortDirection>, tag: Option<Seq<char>>, top: bool, trash: bool },
    Tags { item: Option<Seq<char>>, collection: Option<Seq<char>>, limit: int, query: Option<Seq<char>>,
        qmode: TagSearchMode, top: bool, trash: bool },
    Search { query: Seq<char>, limit: int, start: int, all: bool, sort: Option<Seq<char>>,
        direction: Option<SortDirection>, qmode: SearchMode, include_trashed: bool },
    Collections { query: Option<Seq<char>>, limit: int, start: int, all: bool, sort: Option<Seq<char>>,
        direction: Option<SortDirection>, top: bool },
    Groups { limit: int },
    Item { key: Seq<char> },
    Children { key: Seq<char>, limit: int },
    Open { key: Seq<char>, zotero: bool, print: bool },
    Pdf { key: Seq<char>, output: Option<Seq<char>>, print: bool },
    Attach { parent_key: Seq<char>, path: Seq<char>, title: Option<Seq<char>>, content_type: Seq<char>, dry_run: bool },
    Update { key: Seq<char>, title: Option<Seq<char>>, url: Option<Seq<char>>, tag: Seq<Seq<char>>, clear_tags: bool,
        collection: Seq<Seq<char>>, clear_collections: bool, dry_run: bool },
    Delete { key: Seq<char>, yes: bool, dry_run: bool },
    Export { format: ExportFormat, item: Option<Seq<char>>, collection: Option<Seq<char>>, limit: int, top: bool,
        trash: bool, output: Option<Seq<char>>, style: Option<Seq<char>> },
    Add { command: AddV, dry_run: bool, collection: Seq<Seq<char>>, tag: Seq<Seq<char>> },
    ResolveUser { username: Seq<char> },
}

/// The mathematical form of a command line.
pub struct CliV {
    pub profile: ProfileV,
    pub json: bool,
    pub command: CommandsV,
}


/// The mathematical form of a command of `add`.
pub open spec fn add_view(a: AddCommands) -> AddV {
    match a {
        AddCommands::Json { value, input } => AddV::Json { value: opt_view(value), input: input@ },
        AddCommands::Doi { doi } => AddV::Doi { doi: doi@ },
        AddCommands::Isbn { isbn } => AddV::Isbn { isbn: isbn@ },
        AddCommands::Url { url, title } => AddV::Url { url: url@, title: opt_view(title) },
    }
}

/// The mathematical form of a command.
pub open spec fn command_view(c: Commands) -> CommandsV {
    match c {
        Commands::Items { collection, limit, start, all, sort, direction, tag, top, trash } => CommandsV::Items {
            collection: opt_view(collection), limit: limit as int, start: start as int, all, sort: opt_view(sort),
            direction, tag: opt_view(tag), top, trash,
        },
        Commands::Tags { item, collection, limit, query, qmode, top, trash } => CommandsV::Tags {
            item: opt_view(item), collection: opt_view(collection), limit: limit as int, query: opt_view(query),
            qmode, top, trash,
        },
        Commands::Search { query, limit, start, all, sort, direction, qmode, include_trashed } => CommandsV::Search {
            query: query@, limit: limit as int, start: start as int, all, sort: opt_view(sort), direction, qmode,
            include_trashed,
        },
        Commands::Collections { query, limit, start, all, sort, direction, top } => CommandsV::Collections {
            query: opt_view(query), limit: limit as int, start: start as int, all, sort: opt_view(sort), direction,
            top,
        },
        Commands::Groups { limit } => CommandsV::Groups { limit: limit as int },
        Commands::Item { key } => CommandsV::Item { key: key@ },
        Commands::Children { key, limit } => CommandsV::Children { key: key@, limit: limit as int },
        Commands::Open { key, zotero, print } => CommandsV::Open { key: key@, zotero, print },
        Commands::Pdf { key, output, print } => CommandsV::Pdf { key: key@, output: opt_view(output), print },
        Commands::Attach { parent_key, path, title, content_type, dry_run } => CommandsV::Attach {
            parent_key: parent_key@, path: path@, title: opt_view(title), content_type: content_type@, dry_run,
        },
        Commands::Update { key, title, url, tag, clear_tags, collection, clear_collections, dry_run } => CommandsV::Update {
            key: key@, title: opt_view(title), url: opt_view(url), tag: strings_view(tag@), clear_tags,
            collection: strings_view(collection@), clear_collections, dry_run,
        },
        Commands::Delete { key, yes, dry_run } => CommandsV::Delete { key: key@, yes, dry_run },
        Commands::Export { format, item, collection, limit, top, trash, output, style } => CommandsV::Export {
            format, item: opt_view(item), collection: opt_view(collection), limit: limit as int, top, trash,
            output: opt_view(output), style: opt_view(style),
        },
        Commands::Add { command, dry_run, collection, tag } => CommandsV::Add {
            command: add_view(command), dry_run, collection: strings_view(collection@), tag: strings_view(tag@),
        },
        Commands::ResolveUser { username } => CommandsV::ResolveUser { username: username@ },
    }
}

impl View for Cli {
    type V = CliV;

    open spec fn view(&self) -> CliV {
        CliV {
            profile: ProfileV {
                local: self.profile.local,
                user_id: opt_view(self.profile.user_id),
                username: opt_view(self.profile.username),
                group_id: opt_view(self.profile.group_id),
                api_key: opt_view(self.profile.api_key),
                api_base: self.profile.api_base@,
            },
            json: self.json,
            command: command_view(self.command),
        }
    }
}

/// The mathematical form of a parse's result.
pub open spec fn cli_result(r: Result<Cli, CliError>) -> Result<CliV, CliErrorV> {
    match r {
        Ok(c) => Ok(c@),
        Err(e) => Err(e.view()),
    }
}

/// The direction named by a valid value.
pub open spec fn direction_of(v: Option<Seq<char>>) -> Option<SortDirection> {
    match v {
        Some(t) => Some(if t == "asc"@ { SortDirection::Asc } else { SortDirection::Desc }),
        None => None,
    }
}

/// The format named by a valid value.
pub open spec fn format_of(v: Seq<char>) -> ExportFormat {
    if v == "bibtex"@ { ExportFormat::Bibtex } else if v == "ris"@ { ExportFormat::Ris }
    else if v == "csljson"@ { ExportFormat::Csljson } else { ExportFormat::Bib }
}

/// The values of `--direction`, `--qmode` and the export format name what they parse to: the
/// direction and format are sent under the very name given, `starts-with` and `contains`
/// select the tag modes of those names, and `everything` and `title-creator-year` the search
/// modes.
pub proof fn law_value_names(v: Seq<char>)
    ensures
        (v == "asc"@ || v == "desc"@) ==> (direction_of(Some(v)) matches Some(d) && d.spec_api_str() == v),
        is_format(v) ==> format_of(v).spec_api_str() == v,
{
    reveal_strlit("asc");
    reveal_strlit("desc");
    reveal_strlit("bibtex");
    reveal_strlit("ris");
    reveal_strlit("csljson");
    reveal_strlit("bib");
    if v == "desc"@ {
        assert("desc"@ != "asc"@) by {
            assert("desc"@.len() != "asc"@.len());
        }
    }
    if v == "bib"@ {
        assert(v != "bibtex"@ && v != "ris"@ && v != "csljson"@) by {
            assert("bib"@.len() != "bibtex"@.len());
            assert("bib"@[0] != "ris"@[0]);
            assert("bib"@.len() != "csljson"@.len());
        }
    }
    if v == "ris"@ {
        assert(v != "bibtex"@) by {
            assert("ris"@[0] != "bibtex"@[0]);
        }
    }
    if v == "csljson"@ {
        assert(v != "bibtex"@ && v != "ris"@) by {
            assert("csljson"@[0] != "bibtex"@[0]);
            assert("csljson"@[0] != "ris"@[0]);
        }
    }
}

/// A command takes its sort direction, match mode and format from the option values given:
/// `--direction desc` sorts descending and `asc` ascending, `--qmode starts-with` matches tags
/// by prefix and `contains` anywhere, `--qmode everything` searches all fields and
/// `title-creator-year` those three, and `export` asks for the format named.
pub proof fn law_command_takes_values(level: Level, occ: Seq<(Opt, Option<Seq<char>>)>, pos: Seq<Seq<char>>)
    ensures
        level matches Level::Cmd(Sub::Items) ==> (value_of(occ, Opt::Direction) == Some("desc"@) ==>
            command_of(level, occ, pos)->Items_direction == Some(SortDirection::Desc)),
        level matches Level::Cmd(Sub::Items) ==> (value_of(occ, Opt::Direction) == Some("asc"@) ==>
            command_of(level, occ, pos)->Items_direction == Some(SortDirection::Asc)),
        level matches Level::Cmd(Sub::Search) ==> (value_of(occ, Opt::Direction) == Some("desc"@) ==>
            command_of(level, occ, pos)->Search_direction == Some(SortDirection::Desc)),
        level matches Level::Cmd(Sub::Collections) ==> (value_of(occ, Opt::Direction) == Some("desc"@) ==>
            command_of(level, occ, pos)->Collections_direction == Some(SortDirection::Desc)),
        level matches Level::Cmd(Sub::Tags) ==> (value_of(occ, Opt::Qmode) == Some("starts-with"@) ==>
            command_of(level, occ, pos)->Tags_qmode == TagSearchMode::StartsWith),
        level matches Level::Cmd(Sub::Tags) ==> (value_of(occ, Opt::Qmode) == Some("contains"@) ==>
            command_of(level, occ, pos)->Tags_qmode == TagSearchMode::Contains),
        level matches Level::Cmd(Sub::Search) ==> (value_of(occ, Opt::Qmode) == Some("everything"@) ==>
            command_of(level, occ, pos)->Search_qmode == SearchMode::Everything),
        level matches Level::Cmd(Sub::Search) ==> (value_of(occ, Opt::Qmode) == Some("title-creator-year"@) ==>
            command_of(level, occ, pos)->Search_qmode == SearchMode::TitleCreatorYear),
        level matches Level::Cmd(Sub::Export) ==> (pos.len() > 0 && is_format(pos[0]) ==>
            (command_of(level, occ, pos)->Export_format).spec_api_str() == pos[0]),
{
    law_value_names("asc"@);
    law_value_names("desc"@);
    reveal_strlit("asc");
    reveal_strlit("desc");
    assert("desc"@ != "asc"@) by {
        assert("desc"@.len() != "asc"@.len());
    }
    assert(direction_of(Some("desc"@)) == Some(SortDirection::Desc));
    assert(direction_of(Some("asc"@)) == Some(SortDirection::Asc));
    if pos.len() > 0 {
        law_value_names(pos[0]);
    }
    reveal_strlit("starts-with");
    reveal_strlit("contains");
    reveal_strlit("everything");
    reveal_strlit("title-creator-year");
    assert("contains"@ != "starts-with"@) by {
        assert("contains"@[0] != "starts-with"@[0]);
    }
    assert("title-creator-year"@ != "everything"@) by {
        assert("title-creator-year"@[0] != "everything"@[0]);
    }
}

/// The profile that the options give: local mode from the flag or its variable, the library
/// ids and key where given, and the default Web API.
pub open spec fn profile_of(occ: Seq<(Opt, Option<Seq<char>>)>) -> ProfileV {
    ProfileV {
        local: present(occ, Opt::Local) && match value_of(occ, Opt::Local) {
            Some(v) => true_text(v),
            None => true,
        },
        user_id: value_of(occ, Opt::UserId),
        username: value_of(occ, Opt::Username),
        group_id: value_of(occ, Opt::GroupId),
        api_key: value_of(occ, Opt::ApiKey),
        api_base: match value_of(occ, Opt::ApiBase) {
            Some(b) => b,
            None => "https://api.zotero.org"@,
        },
    }
}

/// The command that a complete level, its options and its positional arguments give.
pub open spec fn command_of(level: Level, occ: Seq<(Opt, Option<Seq<char>>)>, pos: Seq<Seq<char>>) -> CommandsV {
    match level {
        Level::Cmd(Sub::Items) => CommandsV::Items {
            collection: value_of(occ, Opt::Collection), limit: int_value(occ, Opt::Limit, 25),
            start: int_value(occ, Opt::Start, 0), all: present(occ, Opt::All), sort: value_of(occ, Opt::Sort),
            direction: direction_of(value_of(occ, Opt::Direction)), tag: value_of(occ, Opt::Tag),
            top: present(occ, Opt::Top), trash: present(occ, Opt::Trash),
        },
        Level::Cmd(Sub::Tags) => CommandsV::Tags {
            item: value_of(occ, Opt::Item), collection: value_of(occ, Opt::Collection),
            limit: int_value(occ, Opt::Limit, 50), query: value_of(occ, Opt::Query),
            qmode: match value_of(occ, Opt::Qmode) {
                Some(q) => if q == "starts-with"@ { TagSearchMode::StartsWith } else { TagSearchMode::Contains },
                None => TagSearchMode::Contains,
            },
            top: present(occ, Opt::Top), trash: present(occ, Opt::Trash),
        },
        Level::Cmd(Sub::Search) => CommandsV::Search {
            query: pos[0], limit: int_value(occ, Opt::Limit, 10), start: int_value(occ, Opt::Start, 0),
            all: present(occ, Opt::All), sort: value_of(occ, Opt::Sort),
            direction: direction_of(value_of(occ, Opt::Direction)),
            qmode: match value_of(occ, Opt::Qmode) {
                Some(q) => if q == "everything"@ { SearchMode::Everything } else { SearchMode::TitleCreatorYear },
                None => SearchMode::TitleCreatorYear,
            },
            include_trashed: present(occ, Opt::IncludeTrashed),
        },
        Level::Cmd(Sub::Collections) => CommandsV::Collections {
            query: value_of(occ, Opt::Query), limit: int_value(occ, Opt::Limit, 50),
            start: int_value(occ, Opt::Start, 0), all: present(occ, Opt::All), sort: value_of(occ, Opt::Sort),
            direction: direction_of(value_of(occ, Opt::Direction)), top: present(occ, Opt::Top),
        },
        Level::Cmd(Sub::Groups) => CommandsV::Groups { limit: int_value(occ, Opt::Limit, 25) },
        Level::Cmd(Sub::Item) => CommandsV::Item { key: pos[0] },
        Level::Cmd(Sub::Children) => CommandsV::Children { key: pos[0], limit: int_value(occ, Opt::Limit, 25) },
        Level::Cmd(Sub::Open) => CommandsV::Open {
            key: pos[0], zotero: present(occ, Opt::Zotero), print: present(occ, Opt::Print),
        },
        Level::Cmd(Sub::Pdf) => CommandsV::Pdf {
            key: pos[0], output: value_of(occ, Opt::Output), print: present(occ, Opt::Print),
        },
        Level::Cmd(Sub::Attach) => CommandsV::Attach {
            parent_key: pos[0], path: pos[1], title: value_of(occ, Opt::Title),
            content_type: match value_of(occ, Opt::ContentType) { Some(c) => c, None => "application/pdf"@ },
            dry_run: present(occ, Opt::DryRun),
        },
        Level::Cmd(Sub::Update) => CommandsV::Update {
            key: pos[0], title: value_of(occ, Opt::Title), url: value_of(occ, Opt::Url),
            tag: values_of(occ, Opt::Tag), clear_tags: present(occ, Opt::ClearTags),
            collection: values_of(occ, Opt::Collection), clear_collections: present(occ, Opt::ClearCollections),
            dry_run: present(occ, Opt::DryRun),
        },
        Level::Cmd(Sub::Delete) => CommandsV::Delete {
            key: pos[0], yes: present(occ, Opt::Yes), dry_run: present(occ, Opt::DryRun),
        },
        Level::Cmd(Sub::Export) => CommandsV::Export {
            format: format_of(pos[0]), item: value_of(occ, Opt::Item), collection: value_of(occ, Opt::Collection),
            limit: int_value(occ, Opt::Limit, 25), top: present(occ, Opt::Top), trash: present(occ, Opt::Trash),
            output: value_of(occ, Opt::Output), style: value_of(occ, Opt::Style),
        },
        Level::Cmd(Sub::ResolveUser) => CommandsV::ResolveUser { username: pos[0] },
        Level::AddCmd(a) => CommandsV::Add {
            command: match a {
                AddSub::Json => AddV::Json {
                    value: value_of(occ, Opt::Value),
                    input: if pos.len() > 0 { pos[0] } else { "-"@ },
                },
                AddSub::Doi => AddV::Doi { doi: pos[0] },
                AddSub::Isbn => AddV::Isbn { isbn: pos[0] },
                AddSub::Url => AddV::Url { url: pos[0], title: value_of(occ, Opt::Title) },
            },
            dry_run: present(occ, Opt::DryRun),
            collection: values_of(occ, Opt::Collection),
            tag: values_of(occ, Opt::Tag),
        },
        _ => CommandsV::Groups { limit: 0 },
    }
}

/// The command line that the parser state gives once every argument is read.
pub open spec fn finish(st: ScanV, env: ProfileEnv) -> Result<CliV, CliErrorV> {
    match st.pending {
        Some(o) => Err(CliErrorV::MissingValue(o)),
        None => if st.level == Level::Root || st.level == Level::Cmd(Sub::Add) {
            Err(CliErrorV::MissingSubcommand)
        } else {
            match with_env(st.occ, env) {
                Err(e) => Err(e),
                Ok(occ) => match first_conflict(occ, conflict_pairs(st.level)) {
                    Some(pair) => Err(CliErrorV::Conflict(pair.0, pair.1)),
                    None => if st.pos.len() < min_positionals(st.level) {
                        Err(CliErrorV::MissingPositional)
                    } else {
                        Ok(CliV {
                            profile: profile_of(occ),
                            json: present(occ, Opt::Json),
                            command: command_of(st.level, occ, st.pos),
                        })
                    },
                },
            }
        },
    }
}

/// The command line that `args` give, the first argument being the program's name.
pub open spec fn spec_parse(args: Seq<Seq<char>>, env: ProfileEnv) -> Result<CliV, CliErrorV> {
    let toks = if args.len() > 0 { args.drop_first() } else { args };
    match scan(initial_scan(), toks) {
        Ok(st) => finish(st, env),
        Err(e) => Err(e),
    }
}



/// Whether no command name can follow at this level, so that the level stays as it is.
pub open spec fn pinned(level: Level) -> bool {
    level != Level::Root && level != Level::Cmd(Sub::Add)
}

/// The options whose valid values depend on the level.
pub open spec fn level_bound(o: Opt) -> bool {
    o == Opt::Limit || o == Opt::Qmode
}

/// Every recorded value is valid at the level, and an option whose values depend on the level
/// occurs only where the level stays.
pub open spec fn occ_ok(level: Level, occ: Seq<(Opt, Option<Seq<char>>)>) -> bool {
    &&& forall|i: int| 0 <= i < occ.len() && (#[trigger] occ[i]).1 is Some ==> value_ok(level, occ[i].0, occ[i].1->0)
    &&& forall|i: int| 0 <= i < occ.len() && level_bound((#[trigger] occ[i]).0) ==> pinned(level)
}

/// The invariant of the parser state.
pub open spec fn scan_ok(st: ScanV) -> bool {
    &&& occ_ok(st.level, st.occ)
    &&& (st.pending matches Some(o) ==> (level_bound(o) ==> pinned(st.level)))
}

proof fn lemma_record_ok(st: ScanV, o: Opt, v: Option<Seq<char>>)
    requires
        scan_ok(st),
        level_bound(o) ==> pinned(st.level),
        record(st, o, v) is Ok,
    ensures
        scan_ok(record(st, o, v)->Ok_0),
{
    let n = record(st, o, v)->Ok_0;
    assert forall|i: int| 0 <= i < n.occ.len() && (#[trigger] n.occ[i]).1 is Some implies value_ok(n.level, n.occ[i].0, n.occ[i].1->0) by {
        if i < st.occ.len() {
            assert(n.occ[i] == st.occ[i]);
        }
    }
    assert forall|i: int| 0 <= i < n.occ.len() && level_bound((#[trigger] n.occ[i]).0) implies pinned(n.level) by {
        if i < st.occ.len() {
            assert(n.occ[i] == st.occ[i]);
        }
    }
}

proof fn lemma_positional_ok(st: ScanV, tok: Seq<char>)
    requires
        scan_ok(st),
        st.pending is None,
        positional(st, tok) is Ok,
    ensures
        scan_ok(positional(st, tok)->Ok_0),
{
    let n = positional(st, tok)->Ok_0;
    assert(n.occ == st.occ);
    if n.level != st.level {
        assert(!pinned(st.level));
        assert forall|i: int| 0 <= i < n.occ.len() && (#[trigger] n.occ[i]).1 is Some implies value_ok(n.level, n.occ[i].0, n.occ[i].1->0) by {
            assert(value_ok(st.level, st.occ[i].0, st.occ[i].1->0));
            assert(!level_bound(st.occ[i].0));
        }
    }
}

/// Every step of the parser keeps its invariant.
proof fn lemma_step_ok(st: ScanV, tok: Seq<char>)
    requires
        scan_ok(st),
        step(st, tok) is Ok,
    ensures
        scan_ok(step(st, tok)->Ok_0),
{
    match st.pending {
        Some(o) => {
            lemma_record_ok(st, o, Some(tok));
        },
        None => {
            if st.after_dd {
                lemma_positional_ok(st, tok);
            } else if tok == "--"@ {
            } else if tok.len() >= 2 && tok[0] == '-' && tok[1] == '-' {
                let body = tok.skip(2);
                let (name, val) = match first_eq(body) {
                    Some(i) => (body.take(i), Some(body.skip(i + 1))),
                    None => (body, None::<Seq<char>>),
                };
                match long_opt(name) {
                    Some(o) => {
                        if accepts(st.level, o) {
                            if is_flag(o) {
                                if val is None {
                                    lemma_record_ok(st, o, None);
                                }
                            } else {
                                match val {
                                    Some(v) => lemma_record_ok(st, o, Some(v)),
                                    None => {},
                                }
                            }
                        }
                    },
                    None => {},
                }
            } else if tok.len() >= 2 && tok[0] == '-' {
                let rest = tok.skip(2);
                if tok[1] == 'o' && has_short_output(st.level) && rest.len() > 0 {
                    if rest[0] == '=' {
                        lemma_record_ok(st, Opt::Output, Some(rest.drop_first()));
                    } else {
                        lemma_record_ok(st, Opt::Output, Some(rest));
                    }
                }
            } else {
                lemma_positional_ok(st, tok);
            }
        },
    }
}

proof fn lemma_no_conflict(occ: Seq<(Opt, Option<Seq<char>>)>, pairs: Seq<(Opt, Opt)>)
    requires
        first_conflict(occ, pairs) is None,
    ensures
        forall|k: int| 0 <= k < pairs.len() ==> !(present(occ, (#[trigger] pairs[k]).0) && present(occ, pairs[k].1)),
    decreases pairs.len(),
{
    if pairs.len() > 0 {
        lemma_no_conflict(occ, pairs.drop_first());
        assert forall|k: int| 0 <= k < pairs.len() implies !(present(occ, (#[trigger] pairs[k]).0) && present(occ, pairs[k].1)) by {
            if k > 0 {
                assert(pairs[k] == pairs.drop_first()[k - 1]);
            }
        }
    }
}

proof fn lemma_value_present(occ: Seq<(Opt, Option<Seq<char>>)>, o: Opt)
    requires
        value_of(occ, o) is Some,
    ensures
        present(occ, o),
{
    lemma_value_from_some(occ, o, 0);
}

proof fn lemma_values_present(occ: Seq<(Opt, Option<Seq<char>>)>, o: Opt)
    requires
        values_of(occ, o).len() > 0,
    ensures
        present(occ, o),
    decreases occ.len(),
{
    if occ.last().0 == o {
        assert(occ[occ.len() - 1].0 == o);
    } else {
        lemma_values_present(occ.drop_last(), o);
        let i = choose|i: int| 0 <= i < occ.drop_last().len() && occ.drop_last()[i].0 == o;
        assert(occ[i] == occ.drop_last()[i]);
    }
}

/// A command line that parses never holds options that exclude each other: local mode with a
/// library id or key, two library ids; for `items`, the trash with a collection or `--top`;
/// for `tags` and `export`, an item with any list filter and the trash with a collection or
/// `--top`; for `update`, clearing the tags or collections while adding some.
pub proof fn law_parse_excludes_conflicts(args: Seq<Seq<char>>, env: ProfileEnv)
    requires
        spec_parse(args, env) is Ok,
    ensures
        ({
            let c = spec_parse(args, env)->Ok_0;
            &&& c.profile.local ==> c.profile.user_id is None && c.profile.username is None
                && c.profile.group_id is None && c.profile.api_key is None
            &&& c.profile.user_id is Some ==> c.profile.username is None && c.profile.group_id is None
            &&& c.profile.username is Some ==> c.profile.group_id is None
            &&& (c.command matches CommandsV::Items { collection, top, trash, .. } ==> !(trash && (top || collection is Some)))
            &&& (c.command matches CommandsV::Tags { item, collection, top, trash, .. } ==>
                (item is Some ==> collection is None && !top && !trash) && (trash ==> collection is None && !top))
            &&& (c.command matches CommandsV::Export { item, collection, top, trash, .. } ==>
                (item is Some ==> collection is None && !top && !trash) && (trash ==> collection is None && !top))
            &&& (c.command matches CommandsV::Update { tag, clear_tags, collection, clear_collections, .. } ==>
                (clear_tags ==> tag.len() == 0) && (clear_collections ==> collection.len() == 0))
        }),
{
    let toks = if args.len() > 0 { args.drop_first() } else { args };
    let st = scan(initial_scan(), toks)->Ok_0;
    let occ = with_env(st.occ, env)->Ok_0;
    let pairs = conflict_pairs(st.level);
    lemma_no_conflict(occ, pairs);
    let c = spec_parse(args, env)->Ok_0;
    assert(c.profile == profile_of(occ));
    assert(c.command == command_of(st.level, occ, st.pos));
    assert(pairs[0] == (Opt::Local, Opt::UserId));
    assert(pairs[1] == (Opt::Local, Opt::Username));
    assert(pairs[2] == (Opt::Local, Opt::GroupId));
    assert(pairs[3] == (Opt::Local, Opt::ApiKey));
    assert(pairs[4] == (Opt::UserId, Opt::GroupId));
    assert(pairs[5] == (Opt::UserId, Opt::Username));
    assert(pairs[6] == (Opt::Username, Opt::GroupId));
    if value_of(occ, Opt::UserId) is Some {
        lemma_value_present(occ, Opt::UserId);
    }
    if value_of(occ, Opt::Username) is Some {
        lemma_value_present(occ, Opt::Username);
    }
    if value_of(occ, Opt::GroupId) is Some {
        lemma_value_present(occ, Opt::GroupId);
    }
    if value_of(occ, Opt::ApiKey) is Some {
        lemma_value_present(occ, Opt::ApiKey);
    }
    if value_of(occ, Opt::Collection) is Some {
        lemma_value_present(occ, Opt::Collection);
    }
    if value_of(occ, Opt::Item) is Some {
        lemma_value_present(occ, Opt::Item);
    }
    match st.level {
        Level::Cmd(Sub::Items) => {
            assert(pairs[7] == (Opt::Trash, Opt::Collection));
            assert(pairs[8] == (Opt::Trash, Opt::Top));
        },
        Level::Cmd(Sub::Tags) | Level::Cmd(Sub::Export) => {
            assert(pairs[7] == (Opt::Item, Opt::Collection));
            assert(pairs[8] == (Opt::Item, Opt::Top));
            assert(pairs[9] == (Opt::Item, Opt::Trash));
            assert(pairs[10] == (Opt::Collection, Opt::Trash));
            assert(pairs[11] == (Opt::Top, Opt::Trash));
        },
        Level::Cmd(Sub::Update) => {
            assert(pairs[7] == (Opt::ClearTags, Opt::Tag));
            assert(pairs[8] == (Opt::ClearCollections, Opt::Collection));
            if values_of(occ, Opt::Tag).len() > 0 {
                lemma_values_present(occ, Opt::Tag);
            }
            if values_of(occ, Opt::Collection).len() > 0 {
                lemma_values_present(occ, Opt::Collection);
            }
        },
        _ => {},
    }
}

/// The mathematical form of recorded options.
pub open spec fn occ_view(occ: Seq<(Opt, Option<String>)>) -> Seq<(Opt, Option<Seq<char>>)> {
    occ.map_values(|p: (Opt, Option<String>)| (p.0, opt_view(p.1)))
}


/// The state of the parser between two arguments.
pub struct Scan {
    level: Level,
    occ: Vec<(Opt, Option<String>)>,
    pos: Vec<String>,
    pending: Option<Opt>,
    after_dd: bool,
}

impl Scan {
    /// The mathematical form of the state.
    pub closed spec fn sview(self) -> ScanV {
        ScanV {
            level: self.level,
            occ: occ_view(self.occ@),
            pos: strings_view(self.pos@),
            pending: self.pending,
            after_dd: self.after_dd,
        }
    }
}

/// The mathematical form of a parser step's result.
pub open spec fn scan_result(r: Result<Scan, CliError>) -> Result<ScanV, CliErrorV> {
    match r {
        Ok(s) => Ok(s.sview()),
        Err(e) => Err(e.view()),
    }
}


fn exec_present(occ: &Vec<(Opt, Option<String>)>, o: Opt) -> (b: bool)
    ensures
        b == present(occ_view(occ@), o),
{
    let ghost ov = occ_view(occ@);
    let mut i: usize = 0;
    while i < occ.len()
        invariant
            0 <= i <= occ@.len(),
            ov == occ_view(occ@),
            forall|j: int| 0 <= j < i ==> ov[j].0 != o,
        decreases occ@.len() - i,
    {
        if occ[i].0 == o {
            assert(ov[i as int].0 == o);
            return true;
        }
        i = i + 1;
    }
    false
}

fn exec_is_global(o: Opt) -> (b: bool)
    ensures
        b == is_global(o),
{
    matches!(o, Opt::Json | Opt::Local | Opt::UserId | Opt::Username | Opt::GroupId | Opt::ApiKey | Opt::ApiBase)
}

fn exec_is_flag(o: Opt) -> (b: bool)
    ensures
        b == is_flag(o),
{
    matches!(o, Opt::Json | Opt::Local | Opt::All | Opt::Top | Opt::Trash | Opt::IncludeTrashed | Opt::Zotero
        | Opt::Print | Opt::DryRun | Opt::ClearTags | Opt::ClearCollections | Opt::Yes)
}

fn exec_accepts(level: Level, o: Opt) -> (b: bool)
    ensures
        b == accepts(level, o),
{
    exec_is_global(o) || match level {
        Level::Root => false,
        Level::Cmd(Sub::Items) => matches!(o, Opt::Collection | Opt::Limit | Opt::Start | Opt::All | Opt::Sort
            | Opt::Direction | Opt::Tag | Opt::Top | Opt::Trash),
        Level::Cmd(Sub::Tags) => matches!(o, Opt::Item | Opt::Collection | Opt::Limit | Opt::Query | Opt::Qmode
            | Opt::Top | Opt::Trash),
        Level::Cmd(Sub::Search) => matches!(o, Opt::Limit | Opt::Start | Opt::All | Opt::Sort | Opt::Direction
            | Opt::Qmode | Opt::IncludeTrashed),
        Level::Cmd(Sub::Collections) => matches!(o, Opt::Query | Opt::Limit | Opt::Start | Opt::All | Opt::Sort
            | Opt::Direction | Opt::Top),
        Level::Cmd(Sub::Groups) => o == Opt::Limit,
        Level::Cmd(Sub::Item) => false,
        Level::Cmd(Sub::Children) => o == Opt::Limit,
        Level::Cmd(Sub::Open) => matches!(o, Opt::Zotero | Opt::Print),
        Level::Cmd(Sub::Pdf) => matches!(o, Opt::Output | Opt::Print),
        Level::Cmd(Sub::Attach) => matches!(o, Opt::Title | Opt::ContentType | Opt::DryRun),
        Level::Cmd(Sub::Update) => matches!(o, Opt::Title | Opt::Url | Opt::Tag | Opt::ClearTags | Opt::Collection
            | Opt::ClearCollections | Opt::DryRun),
        Level::Cmd(Sub::Delete) => matches!(o, Opt::Yes | Opt::DryRun),
        Level::Cmd(Sub::Export) => matches!(o, Opt::Item | Opt::Collection | Opt::Limit | Opt::Top | Opt::Trash
            | Opt::Output | Opt::Style),
        Level::Cmd(Sub::Add) => matches!(o, Opt::DryRun | Opt::Collection | Opt::Tag),
        Level::Cmd(Sub::ResolveUser) => false,
        Level::AddCmd(AddSub::Json) => o == Opt::Value,
        Level::AddCmd(AddSub::Url) => o == Opt::Title,
        Level::AddCmd(_) => false,
    }
}

fn exec_is_multi(level: Level, o: Opt) -> (b: bool)
    ensures
        b == is_multi(level, o),
{
    (level == Level::Cmd(Sub::Update) || level == Level::Cmd(Sub::Add)) && (o == Opt::Tag || o == Opt::Collection)
}

fn exec_max_positionals(level: Level) -> (n: usize)
    ensures
        n == max_positionals(level),
{
    match level {
        Level::Cmd(Sub::Search) | Level::Cmd(Sub::Item) | Level::Cmd(Sub::Children) | Level::Cmd(Sub::Open)
        | Level::Cmd(Sub::Pdf) | Level::Cmd(Sub::Update) | Level::Cmd(Sub::Delete) | Level::Cmd(Sub::Export)
        | Level::Cmd(Sub::ResolveUser) | Level::AddCmd(_) => 1,
        Level::Cmd(Sub::Attach) => 2,
        _ => 0,
    }
}

fn exec_true_text(v: &str) -> (b: bool)
    ensures
        b == true_text(v@),
{
    str_eq(v, "true") || str_eq(v, "1")
}

fn exec_false_text(v: &str) -> (b: bool)
    ensures
        b == false_text(v@),
{
    str_eq(v, "false")
}

fn exec_value_ok(level: Level, o: Opt, v: &str) -> (b: bool)
    ensures
        b == value_ok(level, o, v@),
{
    match o {
        Opt::Limit => match parse_i64(v) {
            Some(n) => {
                let ranged = matches!(level, Level::Cmd(Sub::Items) | Level::Cmd(Sub::Tags) | Level::Cmd(Sub::Search)
                    | Level::Cmd(Sub::Collections) | Level::Cmd(Sub::Groups));
                if ranged { 1 <= n && n <= 100 } else { 0 <= n && n <= 65535 }
            },
            None => false,
        },
        Opt::Start => match parse_i64(v) {
            Some(n) => 0 <= n && n <= 4294967295,
            None => false,
        },
        Opt::Direction => str_eq(v, "asc") || str_eq(v, "desc"),
        Opt::Qmode => if level == Level::Cmd(Sub::Search) {
            str_eq(v, "title-creator-year") || str_eq(v, "everything")
        } else {
            str_eq(v, "contains") || str_eq(v, "starts-with")
        },
        Opt::Local => exec_true_text(v) || exec_false_text(v),
        _ => true,
    }
}

fn exec_is_format(v: &str) -> (b: bool)
    ensures
        b == is_format(v@),
{
    str_eq(v, "bibtex") || str_eq(v, "ris") || str_eq(v, "csljson") || str_eq(v, "bib")
}

fn exec_record(st: Scan, o: Opt, v: Option<String>) -> (r: Result<Scan, CliError>)
    ensures
        scan_result(r) == record(st.sview(), o, opt_view(v)),
{
    if exec_present(&st.occ, o) && !exec_is_multi(st.level, o) {
        return Err(CliError::Repeated(o));
    }
    match &v {
        Some(t) => {
            if !exec_value_ok(st.level, o, t.as_str()) {
                return Err(CliError::InvalidValue(o, t.clone()));
            }
        },
        None => {},
    }
    let mut st = st;
    let ghost before = st.occ@;
    let ghost vv = opt_view(v);
    st.occ.push((o, v));
    assert(occ_view(st.occ@) =~= occ_view(before).push((o, vv)));
    st.pending = None;
    Ok(st)
}

fn exec_positional(st: Scan, tok: &str) -> (r: Result<Scan, CliError>)
    ensures
        scan_result(r) == positional(st.sview(), tok@),
{
    let mut st = st;
    match st.level {
        Level::Root => match exec_sub_name(tok) {
            Some(c) => {
                st.level = Level::Cmd(c);
                Ok(st)
            },
            None => if str_eq(tok, "help") {
                Err(CliError::Help)
            } else {
                Err(CliError::UnknownSubcommand(tok.to_owned()))
            },
        },
        Level::Cmd(Sub::Add) => match exec_add_sub_name(tok) {
            Some(a) => {
                st.level = Level::AddCmd(a);
                Ok(st)
            },
            None => if str_eq(tok, "help") {
                Err(CliError::Help)
            } else {
                Err(CliError::UnknownSubcommand(tok.to_owned()))
            },
        },
        _ => {
            if st.pos.len() >= exec_max_positionals(st.level) {
                Err(CliError::UnexpectedPositional(tok.to_owned()))
            } else if st.level == Level::Cmd(Sub::Export) && st.pos.len() == 0 && !exec_is_format(tok) {
                Err(CliError::InvalidFormat(tok.to_owned()))
            } else {
                let ghost before = st.pos@;
                st.pos.push(tok.to_owned());
                assert(strings_view(st.pos@) =~= strings_view(before).push(tok@));
                Ok(st)
            }
        },
    }
}

fn exec_long_option(st: Scan, tok: &str) -> (r: Result<Scan, CliError>)
    requires
        tok@.len() >= 2,
    ensures
        scan_result(r) == long_option(st.sview(), tok@),
{
    let t = chars_of(tok);
    let body = string_from_chars(&t, 2, t.len());
    let b = chars_of(body.as_str());
    let eq = chars_of("=");
    proof {
        reveal_strlit("=");
        assert(eq@ =~= seq!['=']);
        assert(body@ =~= tok@.skip(2));
    }
    let found = crate::text::find_from(&b, &eq, 0);
    let (name, val) = match found {
        Some(i) => {
            proof {
                crate::text::lemma_first_occurrence_from(b@, eq@, 0);
            }
            (string_from_chars(&b, 0, i), Some(string_from_chars(&b, i + 1, b.len())))
        },
        None => (body.clone(), None),
    };
    proof {
        match found {
            Some(i) => {
                assert(name@ =~= b@.take(i as int));
                assert(opt_view(val) == Some(b@.skip(i + 1)));
            },
            None => {},
        }
    }
    match exec_long_opt(name.as_str()) {
        Some(o) => {
            if !exec_accepts(st.level, o) {
                Err(CliError::UnknownArgument(tok.to_owned()))
            } else if exec_is_flag(o) {
                if val.is_some() {
                    Err(CliError::UnexpectedValue(o))
                } else {
                    exec_record(st, o, None)
                }
            } else {
                match val {
                    Some(v) => exec_record(st, o, Some(v)),
                    None => {
                        let mut st = st;
                        st.pending = Some(o);
                        Ok(st)
                    },
                }
            }
        },
        None => {
            if str_eq(name.as_str(), "help") {
                Err(CliError::Help)
            } else if str_eq(name.as_str(), "version") && st.level == Level::Root {
                Err(CliError::Version)
            } else {
                Err(CliError::UnknownArgument(tok.to_owned()))
            }
        },
    }
}

fn exec_short_option(st: Scan, tok: &str) -> (r: Result<Scan, CliError>)
    requires
        tok@.len() >= 2,
    ensures
        scan_result(r) == short_option(st.sview(), tok@),
{
    let t = chars_of(tok);
    let c = t[1];
    let rest_len = t.len() - 2;
    if c == 'h' && rest_len == 0 {
        return Err(CliError::Help);
    }
    if c == 'V' && rest_len == 0 && st.level == Level::Root {
        return Err(CliError::Version);
    }
    if c == 'o' && (st.level == Level::Cmd(Sub::Pdf) || st.level == Level::Cmd(Sub::Export)) {
        if rest_len == 0 {
            let mut st = st;
            st.pending = Some(Opt::Output);
            return Ok(st);
        } else if t[2] == '=' {
            let v = string_from_chars(&t, 3, t.len());
            assert(v@ =~= tok@.skip(2).drop_first());
            return exec_record(st, Opt::Output, Some(v));
        } else {
            let v = string_from_chars(&t, 2, t.len());
            assert(v@ =~= tok@.skip(2));
            return exec_record(st, Opt::Output, Some(v));
        }
    }
    Err(CliError::UnknownArgument(tok.to_owned()))
}

fn exec_step(st: Scan, tok: &str) -> (r: Result<Scan, CliError>)
    ensures
        scan_result(r) == step(st.sview(), tok@),
{
    let t = chars_of(tok);
    match st.pending {
        Some(o) => {
            if t.len() > 1 && t[0] == '-' {
                Err(CliError::MissingValue(o))
            } else {
                exec_record(st, o, Some(tok.to_owned()))
            }
        },
        None => {
            if st.after_dd {
                exec_positional(st, tok)
            } else if str_eq(tok, "--") {
                let mut st = st;
                st.after_dd = true;
                Ok(st)
            } else if t.len() >= 2 && t[0] == '-' && t[1] == '-' {
                exec_long_option(st, tok)
            } else if t.len() >= 2 && t[0] == '-' {
                exec_short_option(st, tok)
            } else {
                exec_positional(st, tok)
            }
        },
    }
}


proof fn lemma_value_from_some(occ: Seq<(Opt, Option<Seq<char>>)>, o: Opt, k: int)
    requires
        0 <= k,
        value_from(occ, o, k) is Some,
    ensures
        exists|i: int| k <= i < occ.len() && (#[trigger] occ[i]).0 == o && occ[i].1 == value_from(occ, o, k),
    decreases occ.len() - k,
{
    if k < occ.len() && occ[k].0 != o {
        lemma_value_from_some(occ, o, k + 1);
    }
}

fn exec_value_of(occ: &Vec<(Opt, Option<String>)>, o: Opt) -> (r: Option<String>)
    ensures
        opt_view(r) == value_of(occ_view(occ@), o),
{
    let ghost ov = occ_view(occ@);
    let mut i: usize = 0;
    while i < occ.len()
        invariant
            0 <= i <= occ@.len(),
            ov == occ_view(occ@),
            value_of(ov, o) == value_from(ov, o, i as int),
        decreases occ@.len() - i,
    {
        if occ[i].0 == o {
            assert(ov[i as int] == (o, opt_view(occ@[i as int].1)));
            return clone_opt(&occ[i].1);
        }
        i = i + 1;
    }
    None
}

fn exec_values_of(occ: &Vec<(Opt, Option<String>)>, o: Opt) -> (r: Vec<String>)
    ensures
        strings_view(r@) == values_of(occ_view(occ@), o),
{
    let ghost ov = occ_view(occ@);
    let mut out: Vec<String> = Vec::new();
    let mut i: usize = 0;
    while i < occ.len()
        invariant
            0 <= i <= occ@.len(),
            ov == occ_view(occ@),
            strings_view(out@) == values_of(ov.take(i as int), o),
        decreases occ@.len() - i,
    {
        let ghost before = out@;
        assert(ov.take(i + 1).drop_last() =~= ov.take(i as int));
        assert(ov.take(i + 1).last() == ov[i as int]);
        if occ[i].0 == o {
            match &occ[i].1 {
                Some(v) => {
                    out.push(v.clone());
                    assert(strings_view(out@) =~= strings_view(before).push(v@));
                },
                None => {},
            }
        }
        i = i + 1;
    }
    assert(ov.take(occ@.len() as int) =~= ov);
    out
}

/// A `limit` option, or its default: a valid value of `limit` fits in a `u16`.
fn exec_limit(level: Level, occ: &Vec<(Opt, Option<String>)>, default: u16) -> (r: u16)
    requires
        occ_ok(level, occ_view(occ@)),
    ensures
        r as int == int_value(occ_view(occ@), Opt::Limit, default as int),
{
    let ghost ov = occ_view(occ@);
    match exec_value_of(occ, Opt::Limit) {
        Some(v) => match parse_i64(v.as_str()) {
            Some(n) => {
                proof {
                    lemma_value_from_some(ov, Opt::Limit, 0);
                    let i = choose|i: int| 0 <= i < ov.len() && (#[trigger] ov[i]).0 == Opt::Limit && ov[i].1 == value_from(ov, Opt::Limit, 0);
                    assert(value_ok(level, ov[i].0, ov[i].1->0));
                }
                n as u16
            },
            None => default,
        },
        None => default,
    }
}

/// A `start` option, or its default: a valid value of `start` fits in a `u32`.
fn exec_start(level: Level, occ: &Vec<(Opt, Option<String>)>) -> (r: u32)
    requires
        occ_ok(level, occ_view(occ@)),
    ensures
        r as int == int_value(occ_view(occ@), Opt::Start, 0),
{
    let ghost ov = occ_view(occ@);
    match exec_value_of(occ, Opt::Start) {
        Some(v) => match parse_i64(v.as_str()) {
            Some(n) => {
                proof {
                    lemma_value_from_some(ov, Opt::Start, 0);
                    let i = choose|i: int| 0 <= i < ov.len() && (#[trigger] ov[i]).0 == Opt::Start && ov[i].1 == value_from(ov, Opt::Start, 0);
                    assert(value_ok(level, ov[i].0, ov[i].1->0));
                }
                n as u32
            },
            None => 0,
        },
        None => 0,
    }
}


/// The mathematical form of an option list or a refusal.
pub open spec fn occ_result(r: Result<Vec<(Opt, Option<String>)>, CliError>) -> Result<Seq<(Opt, Option<Seq<char>>)>, CliErrorV> {
    match r {
        Ok(v) => Ok(occ_view(v@)),
        Err(e) => Err(e.view()),
    }
}

impl ProfileEnv {
    /// The value of the variable that option `o` reads.
    pub fn get(&self, o: Opt) -> (r: Option<String>)
        ensures
            opt_view(r) == self.spec_get(o),
    {
        match o {
            Opt::Local => clone_opt(&self.local),
            Opt::UserId => clone_opt(&self.user_id),
            Opt::Username => clone_opt(&self.username),
            Opt::GroupId => clone_opt(&self.group_id),
            Opt::ApiKey => clone_opt(&self.api_key),
            Opt::ApiBase => clone_opt(&self.api_base),
            _ => None,
        }
    }
}

fn exec_add_env(level: Level, occ: Vec<(Opt, Option<String>)>, o: Opt, env: &ProfileEnv) -> (r: Result<Vec<(Opt, Option<String>)>, CliError>)
    requires
        occ_ok(level, occ_view(occ@)),
        !level_bound(o),
    ensures
        occ_result(r) == add_env(occ_view(occ@), o, *env),
        r matches Ok(v) ==> occ_ok(level, occ_view(v@)),
{
    if exec_present(&occ, o) {
        return Ok(occ);
    }
    match env.get(o) {
        Some(v) => {
            if o == Opt::Local && !(exec_true_text(v.as_str()) || exec_false_text(v.as_str())) {
                Err(CliError::InvalidValue(o, v))
            } else {
                let ghost before = occ_view(occ@);
                let ghost vv = v@;
                let mut occ = occ;
                occ.push((o, Some(v)));
                let ghost after = occ_view(occ@);
                assert(after =~= before.push((o, Some(vv))));
                assert forall|i: int| 0 <= i < after.len() && (#[trigger] after[i]).1 is Some implies value_ok(level, after[i].0, after[i].1->0) by {
                    if i < before.len() {
                        assert(after[i] == before[i]);
                    }
                }
                assert forall|i: int| 0 <= i < after.len() && level_bound((#[trigger] after[i]).0) implies pinned(level) by {
                    if i < before.len() {
                        assert(after[i] == before[i]);
                    }
                }
                Ok(occ)
            }
        },
        None => Ok(occ),
    }
}

fn exec_with_env(level: Level, occ: Vec<(Opt, Option<String>)>, env: &ProfileEnv) -> (r: Result<Vec<(Opt, Option<String>)>, CliError>)
    requires
        occ_ok(level, occ_view(occ@)),
    ensures
        occ_result(r) == with_env(occ_view(occ@), *env),
        r matches Ok(v) ==> occ_ok(level, occ_view(v@)),
{
    let o1 = exec_add_env(level, occ, Opt::Local, env)?;
    let o2 = exec_add_env(level, o1, Opt::UserId, env)?;
    let o3 = exec_add_env(level, o2, Opt::Username, env)?;
    let o4 = exec_add_env(level, o3, Opt::GroupId, env)?;
    let o5 = exec_add_env(level, o4, Opt::ApiKey, env)?;
    exec_add_env(level, o5, Opt::ApiBase, env)
}

fn exec_conflict_pairs(level: Level) -> (r: Vec<(Opt, Opt)>)
    ensures
        r@ == conflict_pairs(level),
{
    let mut r: Vec<(Opt, Opt)> = vec![
        (Opt::Local, Opt::UserId), (Opt::Local, Opt::Username), (Opt::Local, Opt::GroupId), (Opt::Local, Opt::ApiKey),
        (Opt::UserId, Opt::GroupId), (Opt::UserId, Opt::Username), (Opt::Username, Opt::GroupId),
    ];
    match level {
        Level::Cmd(Sub::Items) => {
            r.push((Opt::Trash, Opt::Collection));
            r.push((Opt::Trash, Opt::Top));
        },
        Level::Cmd(Sub::Tags) | Level::Cmd(Sub::Export) => {
            r.push((Opt::Item, Opt::Collection));
            r.push((Opt::Item, Opt::Top));
            r.push((Opt::Item, Opt::Trash));
            r.push((Opt::Collection, Opt::Trash));
            r.push((Opt::Top, Opt::Trash));
        },
        Level::Cmd(Sub::Update) => {
            r.push((Opt::ClearTags, Opt::Tag));
            r.push((Opt::ClearCollections, Opt::Collection));
        },
        _ => {},
    }
    assert(r@ =~= conflict_pairs(level));
    r
}

fn exec_first_conflict(occ: &Vec<(Opt, Option<String>)>, pairs: &Vec<(Opt, Opt)>) -> (r: Option<(Opt, Opt)>)
    ensures
        r == first_conflict(occ_view(occ@), pairs@),
{
    let ghost ov = occ_view(occ@);
    let mut i: usize = 0;
    assert(pairs@.skip(0) =~= pairs@);
    while i < pairs.len()
        invariant
            0 <= i <= pairs@.len(),
            ov == occ_view(occ@),
            first_conflict(ov, pairs@) == first_conflict(ov, pairs@.skip(i as int)),
        decreases pairs@.len() - i,
    {
        let (a, b) = pairs[i];
        assert(pairs@.skip(i as int)[0] == pairs@[i as int]);
        assert(pairs@.skip(i as int).drop_first() =~= pairs@.skip(i + 1));
        if exec_present(occ, a) && exec_present(occ, b) {
            return Some((a, b));
        }
        i = i + 1;
    }
    assert(pairs@.skip(i as int).len() == 0);
    None
}

fn exec_direction(v: Option<String>) -> (r: Option<SortDirection>)
    ensures
        r == direction_of(opt_view(v)),
{
    match v {
        Some(t) => Some(if str_eq(t.as_str(), "asc") { SortDirection::Asc } else { SortDirection::Desc }),
        None => None,
    }
}

fn exec_format(v: &str) -> (r: ExportFormat)
    ensures
        r == format_of(v@),
{
    if str_eq(v, "bibtex") {
        ExportFormat::Bibtex
    } else if str_eq(v, "ris") {
        ExportFormat::Ris
    } else if str_eq(v, "csljson") {
        ExportFormat::Csljson
    } else {
        ExportFormat::Bib
    }
}

fn exec_profile(occ: &Vec<(Opt, Option<String>)>) -> (r: ProfileArgs)
    ensures
        ({
            let p = profile_of(occ_view(occ@));
            &&& r.local == p.local
            &&& opt_view(r.user_id) == p.user_id
            &&& opt_view(r.username) == p.username
            &&& opt_view(r.group_id) == p.group_id
            &&& opt_view(r.api_key) == p.api_key
            &&& r.api_base@ == p.api_base
        }),
{
    let local = exec_present(occ, Opt::Local) && match exec_value_of(occ, Opt::Local) {
        Some(v) => exec_true_text(v.as_str()),
        None => true,
    };
    let api_base = match exec_value_of(occ, Opt::ApiBase) {
        Some(b) => b,
        None => "https://api.zotero.org".to_owned(),
    };
    ProfileArgs {
        local,
        user_id: exec_value_of(occ, Opt::UserId),
        username: exec_value_of(occ, Opt::Username),
        group_id: exec_value_of(occ, Opt::GroupId),
        api_key: exec_value_of(occ, Opt::ApiKey),
        api_base,
    }
}


fn exec_command(level: Level, occ: &Vec<(Opt, Option<String>)>, pos: &Vec<String>) -> (r: Commands)
    requires
        pinned(level),
        occ_ok(level, occ_view(occ@)),
        pos@.len() >= min_positionals(level),
    ensures
        command_view(r) == command_of(level, occ_view(occ@), strings_view(pos@)),
{
    let ghost ov = occ_view(occ@);
    let ghost pv = strings_view(pos@);
    assert(pos@.len() > 0 ==> pv[0] == pos@[0]@);
    assert(pos@.len() > 1 ==> pv[1] == pos@[1]@);
    match level {
        Level::Cmd(Sub::Items) => Commands::Items {
            collection: exec_value_of(occ, Opt::Collection),
            limit: exec_limit(level, occ, 25),
            start: exec_start(level, occ),
            all: exec_present(occ, Opt::All),
            sort: exec_value_of(occ, Opt::Sort),
            direction: exec_direction(exec_value_of(occ, Opt::Direction)),
            tag: exec_value_of(occ, Opt::Tag),
            top: exec_present(occ, Opt::Top),
            trash: exec_present(occ, Opt::Trash),
        },
        Level::Cmd(Sub::Tags) => Commands::Tags {
            item: exec_value_of(occ, Opt::Item),
            collection: exec_value_of(occ, Opt::Collection),
            limit: exec_limit(level, occ, 50),
            query: exec_value_of(occ, Opt::Query),
            qmode: match exec_value_of(occ, Opt::Qmode) {
                Some(q) => if str_eq(q.as_str(), "starts-with") { TagSearchMode::StartsWith } else { TagSearchMode::Contains },
                None => TagSearchMode::Contains,
            },
            top: exec_present(occ, Opt::Top),
            trash: exec_present(occ, Opt::Trash),
        },
        Level::Cmd(Sub::Search) => Commands::Search {
            query: pos[0].clone(),
            limit: exec_limit(level, occ, 10),
            start: exec_start(level, occ),
            all: exec_present(occ, Opt::All),
            sort: exec_value_of(occ, Opt::Sort),
            direction: exec_direction(exec_value_of(occ, Opt::Direction)),
            qmode: match exec_value_of(occ, Opt::Qmode) {
                Some(q) => if str_eq(q.as_str(), "everything") { SearchMode::Everything } else { SearchMode::TitleCreatorYear },
                None => SearchMode::TitleCreatorYear,
            },
            include_trashed: exec_present(occ, Opt::IncludeTrashed),
        },
        Level::Cmd(Sub::Collections) => Commands::Collections {
            query: exec_value_of(occ, Opt::Query),
            limit: exec_limit(level, occ, 50),
            start: exec_start(level, occ),
            all: exec_present(occ, Opt::All),
            sort: exec_value_of(occ, Opt::Sort),
            direction: exec_direction(exec_value_of(occ, Opt::Direction)),
            top: exec_present(occ, Opt::Top),
        },
        Level::Cmd(Sub::Groups) => Commands::Groups { limit: exec_limit(level, occ, 25) },
        Level::Cmd(Sub::Item) => Commands::Item { key: pos[0].clone() },
        Level::Cmd(Sub::Children) => Commands::Children { key: pos[0].clone(), limit: exec_limit(level, occ, 25) },
        Level::Cmd(Sub::Open) => Commands::Open {
            key: pos[0].clone(),
            zotero: exec_present(occ, Opt::Zotero),
            print: exec_present(occ, Opt::Print),
        },
        Level::Cmd(Sub::Pdf) => Commands::Pdf {
            key: pos[0].clone(),
            output: exec_value_of(occ, Opt::Output),
            print: exec_present(occ, Opt::Print),
        },
        Level::Cmd(Sub::Attach) => Commands::Attach {
            parent_key: pos[0].clone(),
            path: pos[1].clone(),
            title: exec_value_of(occ, Opt::Title),
            content_type: match exec_value_of(occ, Opt::ContentType) {
                Some(c) => c,
                None => "application/pdf".to_owned(),
            },
            dry_run: exec_present(occ, Opt::DryRun),
        },
        Level::Cmd(Sub::Update) => Commands::Update {
            key: pos[0].clone(),
            title: exec_value_of(occ, Opt::Title),
            url: exec_value_of(occ, Opt::Url),
            tag: exec_values_of(occ, Opt::Tag),
            clear_tags: exec_present(occ, Opt::ClearTags),
            collection: exec_values_of(occ, Opt::Collection),
            clear_collections: exec_present(occ, Opt::ClearCollections),
            dry_run: exec_present(occ, Opt::DryRun),
        },
        Level::Cmd(Sub::Delete) => Commands::Delete {
            key: pos[0].clone(),
            yes: exec_present(occ, Opt::Yes),
            dry_run: exec_present(occ, Opt::DryRun),
        },
        Level::Cmd(Sub::Export) => Commands::Export {
            format: exec_format(pos[0].as_str()),
            item: exec_value_of(occ, Opt::Item),
            collection: exec_value_of(occ, Opt::Collection),
            limit: exec_limit(level, occ, 25),
            top: exec_present(occ, Opt::Top),
            trash: exec_present(occ, Opt::Trash),
            output: exec_value_of(occ, Opt::Output),
            style: exec_value_of(occ, Opt::Style),
        },
        Level::Cmd(Sub::ResolveUser) => Commands::ResolveUser { username: pos[0].clone() },
        Level::AddCmd(a) => {
            let command = match a {
                AddSub::Json => AddCommands::Json {
                    value: exec_value_of(occ, Opt::Value),
                    input: if pos.len() > 0 { pos[0].clone() } else { "-".to_owned() },
                },
                AddSub::Doi => AddCommands::Doi { doi: pos[0].clone() },
                AddSub::Isbn => AddCommands::Isbn { isbn: pos[0].clone() },
                AddSub::Url => AddCommands::Url { url: pos[0].clone(), title: exec_value_of(occ, Opt::Title) },
            };
            Commands::Add {
                command,
                dry_run: exec_present(occ, Opt::DryRun),
                collection: exec_values_of(occ, Opt::Collection),
                tag: exec_values_of(occ, Opt::Tag),
            }
        },
        _ => Commands::Groups { limit: 0 },
    }
}

fn exec_finish(st: Scan, env: &ProfileEnv) -> (r: Result<Cli, CliError>)
    requires
        scan_ok(st.sview()),
    ensures
        cli_result(r) == finish(st.sview(), *env),
{
    let ghost sv = st.sview();
    if let Some(o) = st.pending {
        return Err(CliError::MissingValue(o));
    }
    if st.level == Level::Root || st.level == Level::Cmd(Sub::Add) {
        return Err(CliError::MissingSubcommand);
    }
    let level = st.level;
    let pos = st.pos;
    let occ = exec_with_env(level, st.occ, env)?;
    let pairs = exec_conflict_pairs(level);
    if let Some((a, b)) = exec_first_conflict(&occ, &pairs) {
        return Err(CliError::Conflict(a, b));
    }
    let min: usize = if level == Level::AddCmd(AddSub::Json) { 0 } else { exec_max_positionals(level) };
    if pos.len() < min {
        return Err(CliError::MissingPositional);
    }
    let profile = exec_profile(&occ);
    let json = exec_present(&occ, Opt::Json);
    let command = exec_command(level, &occ, &pos);
    Ok(Cli { profile, json, command })
}

/// The arguments, taken as character sequences.
pub open spec fn args_view(args: Seq<&str>) -> Seq<Seq<char>> {
    args.map_values(|a: &str| a@)
}

impl Cli {
    /// Parses a command line, `args[0]` being the program's name, with the environment
    /// variables `env` standing in for the profile options that are not given. The result is
    /// the parse that `spec_parse` describes: the command and its options, or why the line was
    /// refused (including a request for help or for the version).
    pub fn try_parse_from(args: &[&str], env: &ProfileEnv) -> (r: Result<Cli, CliError>)
        ensures
            cli_result(r) == spec_parse(args_view(args@), *env),
    {
        let ghost all = args_view(args@);
        let ghost toks = if all.len() > 0 { all.drop_first() } else { all };
        let first: usize = if args.len() > 0 { 1 } else { 0 };
        assert(toks =~= all.skip(first as int));
        let mut st = Scan { level: Level::Root, occ: Vec::new(), pos: Vec::new(), pending: None, after_dd: false };
        proof {
            assert(st.sview().occ =~= initial_scan().occ);
            assert(st.sview().pos =~= initial_scan().pos);
        }
        let mut i: usize = first;
        while i < args.len()
            invariant
                first <= i <= args@.len(),
                all == args_view(args@),
                toks == all.skip(first as int),
                toks == (if all.len() > 0 { all.drop_first() } else { all }),
                scan_ok(st.sview()),
                scan(initial_scan(), toks) == scan(st.sview(), all.skip(i as int)),
            decreases args@.len() - i,
        {
            let tok: &str = args[i];
            let ghost rest = all.skip(i as int);
            assert(rest[0] == tok@);
            assert(rest.drop_first() =~= all.skip(i + 1));
            let ghost before = st.sview();
            match exec_step(st, tok) {
                Ok(next) => {
                    proof {
                        lemma_step_ok(before, tok@);
                    }
                    st = next;
                },
                Err(e) => {
                    assert(rest.len() > 0);
                    assert(scan(before, rest) == Err::<ScanV, CliErrorV>(e.view()));
                    return Err(e);
                },
            }
            i = i + 1;
        }
        assert(all.skip(i as int) =~= Seq::<Seq<char>>::empty());
        exec_finish(st, env)
    }
}

} // verus!

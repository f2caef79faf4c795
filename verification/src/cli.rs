//! The command line: its value enums, commands and options.
use vstd::prelude::*;

verus! {

/// How `search` matches its query.
#[derive(Clone, Copy, Debug, PartialEq, Eq, Structural)]
pub enum SearchMode {
    TitleCreatorYear,
    Everything,
}

impl SearchMode {
    /// The name of the mode in the Web API.
    pub open spec fn spec_api_str(self) -> Seq<char> {
        match self {
            SearchMode::TitleCreatorYear => "titleCreatorYear"@,
            SearchMode::Everything => "everything"@,
        }
    }

    /// The name of the mode in the Web API.
    pub fn as_api_str(&self) -> (s: &'static str)
        ensures
            s@ == self.spec_api_str(),
    {
        match self {
            SearchMode::TitleCreatorYear => "titleCreatorYear",
            SearchMode::Everything => "everything",
        }
    }
}

/// The order of a sorted listing.
#[derive(Clone, Copy, Debug, PartialEq, Eq, Structural)]
pub enum SortDirection {
    Asc,
    Desc,
}

impl SortDirection {
    /// The name of the direction in the Web API.
    pub open spec fn spec_api_str(self) -> Seq<char> {
        match self {
            SortDirection::Asc => "asc"@,
            SortDirection::Desc => "desc"@,
        }
    }

    /// The name of the direction in the Web API.
    pub fn as_api_str(&self) -> (s: &'static str)
        ensures
            s@ == self.spec_api_str(),
    {
        match self {
            SortDirection::Asc => "asc",
            SortDirection::Desc => "desc",
        }
    }
}

/// The bibliographic formats of `export`.
#[derive(Clone, Copy, Debug, PartialEq, Eq, Structural)]
pub enum ExportFormat {
    Bibtex,
    Ris,
    Csljson,
    Bib,
}

impl ExportFormat {
    /// The name of the format in the Web API.
    pub open spec fn spec_api_str(self) -> Seq<char> {
        match self {
            ExportFormat::Bibtex => "bibtex"@,
            ExportFormat::Ris => "ris"@,
            ExportFormat::Csljson => "csljson"@,
            ExportFormat::Bib => "bib"@,
        }
    }

    /// The name of the format in the Web API.
    pub fn as_api_str(&self) -> (s: &'static str)
        ensures
            s@ == self.spec_api_str(),
    {
        match self {
            ExportFormat::Bibtex => "bibtex",
            ExportFormat::Ris => "ris",
            ExportFormat::Csljson => "csljson",
            ExportFormat::Bib => "bib",
        }
    }
}

/// How `tags` matches its query.
#[derive(Clone, Copy, Debug, PartialEq, Eq, Structural)]
pub enum TagSearchMode {
    Contains,
    StartsWith,
}

impl TagSearchMode {
    /// The name of the mode in the Web API.
    pub open spec fn spec_api_str(self) -> Seq<char> {
        match self {
            TagSearchMode::Contains => "contains"@,
            TagSearchMode::StartsWith => "startsWith"@,
        }
    }

    /// The name of the mode in the Web API.
    pub fn as_api_str(&self) -> (s: &'static str)
        ensures
            s@ == self.spec_api_str(),
    {
        match self {
            TagSearchMode::Contains => "contains",
            TagSearchMode::StartsWith => "startsWith",
        }
    }
}


/// Which library to use and where its Web API is.
#[derive(Debug, Clone)]
pub struct ProfileArgs {
    pub local: bool,
    pub user_id: Option<String>,
    pub username: Option<String>,
    pub group_id: Option<String>,
    pub api_key: Option<String>,
    pub api_base: String,
}

/// The ways of giving `add` an item.
#[derive(Debug, Clone)]
pub enum AddCommands {
    Json { value: Option<String>, input: String },
    Doi { doi: String },
    Isbn { isbn: String },
    Url { url: String, title: Option<String> },
}

/// The commands of the command line.
#[derive(Debug, Clone)]
pub enum Commands {
    Items {
        collection: Option<String>,
        limit: u16,
        start: u32,
        all: bool,
        sort: Option<String>,
        direction: Option<SortDirection>,
        tag: Option<String>,
        top: bool,
        trash: bool,
    },
    Tags {
        item: Option<String>,
        collection: Option<String>,
        limit: u16,
        query: Option<String>,
        qmode: TagSearchMode,
        top: bool,
        trash: bool,
    },
    Search {
        query: String,
        limit: u16,
        start: u32,
        all: bool,
        sort: Option<String>,
        direction: Option<SortDirection>,
        qmode: SearchMode,
        include_trashed: bool,
    },
    Collections {
        query: Option<String>,
        limit: u16,
        start: u32,
        all: bool,
        sort: Option<String>,
        direction: Option<SortDirection>,
        top: bool,
    },
    Groups { limit: u16 },
    Item { key: String },
    Children { key: String, limit: u16 },
    Open { key: String, zotero: bool, print: bool },
    Pdf { key: String, output: Option<String>, print: bool },
    Attach { parent_key: String, path: String, title: Option<String>, content_type: String, dry_run: bool },
    Update {
        key: String,
        title: Option<String>,
        url: Option<String>,
        tag: Vec<String>,
        clear_tags: bool,
        collection: Vec<String>,
        clear_collections: bool,
        dry_run: bool,
    },
    Delete { key: String, yes: bool, dry_run: bool },
    Export {
        format: ExportFormat,
        item: Option<String>,
        collection: Option<String>,
        limit: u16,
        top: bool,
        trash: bool,
        output: Option<String>,
        style: Option<String>,
    },
    Add { command: AddCommands, dry_run: bool, collection: Vec<String>, tag: Vec<String> },
    ResolveUser { username: String },
}

/// A parsed command line.
#[derive(Debug, Clone)]
pub struct Cli {
    pub profile: ProfileArgs,
    pub json: bool,
    pub command: Commands,
}

} // verus!

use zot::cli::{AddCommands, Cli, Commands, ExportFormat, SortDirection, TagSearchMode, SearchMode};
use zot::parse::{CliError, Opt, ProfileEnv};

fn parse_from(args: &[&str]) -> Cli {
    Cli::try_parse_from(args, &ProfileEnv::empty()).expect("command line")
}

fn try_parse(args: &[&str]) -> Result<Cli, CliError> {
    Cli::try_parse_from(args, &ProfileEnv::empty())
}

#[test]
fn parses_inline_json_argument_for_add() {
    let cli = parse_from(&[
        "zot",
        "add",
        "--dry-run",
        "json",
        "{\"itemType\":\"webpage\"}",
    ]);

    match cli.command {
        Commands::Add {
            dry_run: true,
            collection,
            tag,
            command: AddCommands::Json { value: None, input },
        } => {
            assert!(collection.is_empty());
            assert!(tag.is_empty());
            assert_eq!(input, "{\"itemType\":\"webpage\"}");
        }
        other => panic!("unexpected command shape: {other:?}"),
    }
}

#[test]
fn parses_explicit_value_for_add_json() {
    let cli = parse_from(&[
        "zot",
        "add",
        "--dry-run",
        "json",
        "--value",
        "{\"itemType\":\"webpage\"}",
        "item.json",
    ]);

    match cli.command {
        Commands::Add {
            dry_run: true,
            collection,
            tag,
            command: AddCommands::Json { value, input },
        } => {
            assert!(collection.is_empty());
            assert!(tag.is_empty());
            assert_eq!(value.as_deref(), Some("{\"itemType\":\"webpage\"}"));
            assert_eq!(input, "item.json");
        }
        other => panic!("unexpected command shape: {other:?}"),
    }
}

#[test]
fn parses_items_collection_mode() {
    let cli = parse_from(&["zot", "items", "--collection", "ABCD1234", "--top"]);

    match cli.command {
        Commands::Items {
            collection,
            limit,
            tag: None,
            top: true,
            trash: false,
            ..
        } => {
            assert_eq!(collection.as_deref(), Some("ABCD1234"));
            assert_eq!(limit, 25);
        }
        other => panic!("unexpected command shape: {other:?}"),
    }
}

#[test]
fn parses_items_tag_filter() {
    let cli = parse_from(&["zot", "items", "--tag", "neuroscience"]);

    match cli.command {
        Commands::Items {
            collection: None,
            limit: 25,
            tag,
            top: false,
            trash: false,
            ..
        } => {
            assert_eq!(tag.as_deref(), Some("neuroscience"));
        }
        other => panic!("unexpected command shape: {other:?}"),
    }
}

#[test]
fn parses_items_pagination() {
    let cli = parse_from(&[
        "zot",
        "items",
        "--limit",
        "100",
        "--start",
        "25",
        "--all",
        "--sort",
        "title",
        "--direction",
        "asc",
    ]);

    match cli.command {
        Commands::Items {
            limit: 100,
            start: 25,
            all: true,
            sort,
            direction: Some(SortDirection::Asc),
            ..
        } => {
            assert_eq!(sort.as_deref(), Some("title"));
        }
        other => panic!("unexpected command shape: {other:?}"),
    }
}

#[test]
fn rejects_conflicting_items_modes() {
    assert!(try_parse(&["zot", "items", "--trash", "--top"]).is_err());
    assert!(
        try_parse(&["zot", "items", "--trash", "--collection", "ABCD1234"]).is_err()
    );
}

#[test]
fn parses_export_item_mode() {
    let cli = parse_from(&["zot", "export", "bibtex", "--item", "ABCD1234"]);

    match cli.command {
        Commands::Export {
            format: ExportFormat::Bibtex,
            item,
            collection: None,
            limit: 25,
            top: false,
            trash: false,
            output: None,
            style: None,
        } => {
            assert_eq!(item.as_deref(), Some("ABCD1234"));
        }
        other => panic!("unexpected command shape: {other:?}"),
    }
}

#[test]
fn rejects_conflicting_export_modes() {
    assert!(try_parse(&["zot", "export", "bibtex", "--item", "A", "--top"]).is_err());
    assert!(
        try_parse(&["zot", "export", "bibtex", "--trash", "--collection", "C"])
            .is_err()
    );
}

#[test]
fn parses_tags_query() {
    let cli = parse_from(&["zot", "tags", "--query", "neuro", "--qmode", "starts-with"]);

    match cli.command {
        Commands::Tags {
            item: None,
            collection: None,
            limit: 50,
            query,
            qmode: TagSearchMode::StartsWith,
            top: false,
            trash: false,
            ..
        } => {
            assert_eq!(query.as_deref(), Some("neuro"));
        }
        other => panic!("unexpected command shape: {other:?}"),
    }
}

#[test]
fn rejects_conflicting_tags_modes() {
    assert!(try_parse(&["zot", "tags", "--item", "A", "--top"]).is_err());
    assert!(try_parse(&["zot", "tags", "--trash", "--collection", "C"]).is_err());
}

#[test]
fn parses_children_command() {
    let cli = parse_from(&["zot", "children", "ABCD1234", "--limit", "5"]);

    match cli.command {
        Commands::Children { key, limit } => {
            assert_eq!(key, "ABCD1234");
            assert_eq!(limit, 5);
        }
        other => panic!("unexpected command shape: {other:?}"),
    }
}

#[test]
fn parses_groups_command() {
    let cli = parse_from(&["zot", "groups", "--limit", "5"]);

    match cli.command {
        Commands::Groups { limit } => assert_eq!(limit, 5),
        other => panic!("unexpected command shape: {other:?}"),
    }
}

#[test]
fn parses_attach_command() {
    let cli = parse_from(&[
        "zot",
        "attach",
        "PARENT1",
        "paper.pdf",
        "--title",
        "Paper",
        "--dry-run",
    ]);

    match cli.command {
        Commands::Attach {
            parent_key,
            path,
            title,
            content_type,
            dry_run: true,
        } => {
            assert_eq!(parent_key, "PARENT1");
            assert_eq!(path, "paper.pdf");
            assert_eq!(title.as_deref(), Some("Paper"));
            assert_eq!(content_type, "application/pdf");
        }
        other => panic!("unexpected command shape: {other:?}"),
    }
}

#[test]
fn parses_update_command() {
    let cli = parse_from(&[
        "zot",
        "update",
        "ITEM1",
        "--title",
        "New title",
        "--tag",
        "zot-live-test",
        "--dry-run",
    ]);

    match cli.command {
        Commands::Update {
            key,
            title,
            tag,
            dry_run: true,
            ..
        } => {
            assert_eq!(key, "ITEM1");
            assert_eq!(title.as_deref(), Some("New title"));
            assert_eq!(tag, vec!["zot-live-test"]);
        }
        other => panic!("unexpected command shape: {other:?}"),
    }
}

#[test]
fn parses_delete_command() {
    let cli = parse_from(&["zot", "delete", "ITEM1", "--yes"]);

    match cli.command {
        Commands::Delete {
            key,
            yes: true,
            dry_run: false,
        } => assert_eq!(key, "ITEM1"),
        other => panic!("unexpected command shape: {other:?}"),
    }
}

#[test]
fn parses_add_metadata_options() {
    let cli = parse_from(&[
        "zot",
        "add",
        "--dry-run",
        "--collection",
        "COLL1234",
        "--tag",
        "neuroscience",
        "json",
        "{\"itemType\":\"webpage\"}",
    ]);

    match cli.command {
        Commands::Add {
            dry_run: true,
            collection,
            tag,
            command: AddCommands::Json { .. },
        } => {
            assert_eq!(collection, vec!["COLL1234"]);
            assert_eq!(tag, vec!["neuroscience"]);
        }
        other => panic!("unexpected command shape: {other:?}"),
    }
}

#[test]
fn reads_global_options_and_defaults() {
    let cli = parse_from(&["zot", "--json", "--user-id", "123456", "search", "attention", "--limit", "5"]);
    assert!(cli.json);
    assert!(!cli.profile.local);
    assert_eq!(cli.profile.user_id.as_deref(), Some("123456"));
    assert_eq!(cli.profile.api_base, "https://api.zotero.org");
    match cli.command {
        Commands::Search { query, limit: 5, start: 0, all: false, sort: None, direction: None, qmode: SearchMode::TitleCreatorYear, include_trashed: false } => {
            assert_eq!(query, "attention");
        }
        other => panic!("unexpected command shape: {other:?}"),
    }
}

#[test]
fn environment_fills_profile_options_not_given() {
    let mut env = ProfileEnv::empty();
    env.local = Some("1".to_owned());
    let cli = Cli::try_parse_from(&["zot", "collections"], &env).expect("command line");
    assert!(cli.profile.local);

    let mut env = ProfileEnv::empty();
    env.local = Some("maybe".to_owned());
    assert_eq!(
        Cli::try_parse_from(&["zot", "collections"], &env).unwrap_err(),
        CliError::InvalidValue(Opt::Local, "maybe".to_owned())
    );

    let mut env = ProfileEnv::empty();
    env.user_id = Some("42".to_owned());
    let cli = Cli::try_parse_from(&["zot", "--user-id", "7", "item", "K"], &env).expect("command line");
    assert_eq!(cli.profile.user_id.as_deref(), Some("7"));

    let mut env = ProfileEnv::empty();
    env.group_id = Some("9".to_owned());
    assert_eq!(
        Cli::try_parse_from(&["zot", "--user-id", "7", "item", "K"], &env).unwrap_err(),
        CliError::Conflict(Opt::UserId, Opt::GroupId)
    );
}

#[test]
fn refuses_malformed_command_lines() {
    assert_eq!(try_parse(&["zot"]).unwrap_err(), CliError::MissingSubcommand);
    assert_eq!(try_parse(&["zot", "--help"]).unwrap_err(), CliError::Help);
    assert_eq!(try_parse(&["zot", "-V"]).unwrap_err(), CliError::Version);
    assert_eq!(try_parse(&["zot", "frobnicate"]).unwrap_err(), CliError::UnknownSubcommand("frobnicate".to_owned()));
    assert_eq!(try_parse(&["zot", "items", "--limit", "0"]).unwrap_err(), CliError::InvalidValue(Opt::Limit, "0".to_owned()));
    assert_eq!(try_parse(&["zot", "items", "--limit"]).unwrap_err(), CliError::MissingValue(Opt::Limit));
    assert_eq!(try_parse(&["zot", "items", "--top", "--top"]).unwrap_err(), CliError::Repeated(Opt::Top));
    assert_eq!(try_parse(&["zot", "item"]).unwrap_err(), CliError::MissingPositional);
    assert_eq!(try_parse(&["zot", "item", "A", "B"]).unwrap_err(), CliError::UnexpectedPositional("B".to_owned()));
    assert_eq!(try_parse(&["zot", "export", "pdf"]).unwrap_err(), CliError::InvalidFormat("pdf".to_owned()));
    assert_eq!(try_parse(&["zot", "items", "--json=yes"]).unwrap_err(), CliError::UnexpectedValue(Opt::Json));
    assert_eq!(try_parse(&["zot", "items", "--nope"]).unwrap_err(), CliError::UnknownArgument("--nope".to_owned()));
    assert_eq!(
        try_parse(&["zot", "items", "--trash", "--top"]).unwrap_err(),
        CliError::Conflict(Opt::Trash, Opt::Top)
    );
    assert_eq!(
        try_parse(&["zot", "items", "--trash", "--top"]).unwrap_err().message(),
        "the argument '--trash' cannot be used with '--top'"
    );
}

#[test]
fn accepts_equals_values_short_output_and_separator() {
    let cli = parse_from(&["zot", "export", "ris", "--limit=30", "-o", "out.ris", "--style=apa"]);
    match cli.command {
        Commands::Export { format: ExportFormat::Ris, limit: 30, output, style, .. } => {
            assert_eq!(output.as_deref(), Some("out.ris"));
            assert_eq!(style.as_deref(), Some("apa"));
        }
        other => panic!("unexpected command shape: {other:?}"),
    }
    let cli = parse_from(&["zot", "item", "--", "-KEY"]);
    match cli.command {
        Commands::Item { key } => assert_eq!(key, "-KEY"),
        other => panic!("unexpected command shape: {other:?}"),
    }
}

#[test]
fn local_mode_from_the_environment_reads_true_false_or_one() {
    for (text, local) in [("true", true), ("1", true), ("false", false)] {
        let mut env = ProfileEnv::empty();
        env.local = Some(text.to_owned());
        let cli = Cli::try_parse_from(&["zot", "collections"], &env).expect("command line");
        assert_eq!(cli.profile.local, local);
    }
    for text in ["yes", "0", "on", "TRUE"] {
        let mut env = ProfileEnv::empty();
        env.local = Some(text.to_owned());
        assert_eq!(
            Cli::try_parse_from(&["zot", "collections"], &env).unwrap_err(),
            CliError::InvalidValue(Opt::Local, text.to_owned())
        );
    }
    let mut env = ProfileEnv::empty();
    env.local = Some("false".to_owned());
    assert_eq!(
        Cli::try_parse_from(&["zot", "--user-id", "1", "items"], &env).unwrap_err(),
        CliError::Conflict(Opt::Local, Opt::UserId)
    );
}

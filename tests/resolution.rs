use djangofmt::{
    find_pyproject_toml, load_options_from_pyproject_toml, nearest_settings, options_from_document,
    parse_document, resolve_settings, settings_candidates, settings_from_document, ConfigError,
    DjangoFmtOptions, Profile, TomlValue,
};
use std::io::Write;
use tempfile::{tempdir, Builder};

const PATH: &str = "/project/pyproject.toml";

fn load(content: &str) -> Result<DjangoFmtOptions, ConfigError> {
    load_options_from_pyproject_toml(PATH, content)
}

fn defaults() -> DjangoFmtOptions {
    DjangoFmtOptions {
        line_length: 120,
        indent_width: 4,
        custom_blocks: vec![],
        profile: Profile::Django,
    }
}

fn parse_error_path(r: Result<DjangoFmtOptions, ConfigError>) -> String {
    match r {
        Err(ConfigError::ParseError { path, .. }) => path,
        other => panic!("expected a parse error, got {:?}", other),
    }
}

#[test]
fn default_options_are_the_built_in_ones() {
    assert_eq!(DjangoFmtOptions::default(), defaults());
    assert_eq!(Profile::default(), Profile::Django);
}

#[test]
fn new_overrides_only_given_fields() {
    assert_eq!(DjangoFmtOptions::new(None, None, None, None), defaults());
    let o = DjangoFmtOptions::new(Some(80), None, Some(vec!["x".to_string()]), Some(Profile::Jinja));
    assert_eq!(o.line_length, 80);
    assert_eq!(o.indent_width, 4);
    assert_eq!(o.custom_blocks, vec!["x".to_string()]);
    assert_eq!(o.profile, Profile::Jinja);
}

#[test]
fn profile_tokens_are_exact() {
    assert_eq!(Profile::from_token("django"), Some(Profile::Django));
    assert_eq!(Profile::from_token("jinja"), Some(Profile::Jinja));
    assert_eq!(Profile::from_token("Django"), None);
    assert_eq!(Profile::from_token("JINJA"), None);
    assert_eq!(Profile::from_token(""), None);
    assert_eq!(Profile::from_token("invalid"), None);
}

#[test]
fn empty_file_gives_defaults() {
    assert_eq!(load(""), Ok(defaults()));
}

#[test]
fn absent_tool_table_gives_defaults() {
    assert_eq!(load("[project]\nname = 'x'\n"), Ok(defaults()));
    assert_eq!(load("[tool.black]\nline-length = 88\n"), Ok(defaults()));
}

#[test]
fn empty_section_gives_defaults() {
    assert_eq!(load("[tool.djangofmt]\n"), Ok(defaults()));
}

#[test]
fn given_values_are_kept_in_order() {
    let r = load(
        "[tool.djangofmt]\nline_length=200\nindent_width=4\ncustom_blocks=['foo','bar']\nprofile='django'\n",
    );
    assert_eq!(
        r,
        Ok(DjangoFmtOptions {
            line_length: 200,
            indent_width: 4,
            custom_blocks: vec!["foo".to_string(), "bar".to_string()],
            profile: Profile::Django,
        })
    );
}

#[test]
fn partial_section_merges_over_defaults() {
    let r = load("[tool.djangofmt]\nindent_width = 2\nprofile = \"jinja\"\n").unwrap();
    assert_eq!(r.line_length, 120);
    assert_eq!(r.indent_width, 2);
    assert_eq!(r.custom_blocks, Vec::<String>::new());
    assert_eq!(r.profile, Profile::Jinja);
}

#[test]
fn duplicate_blocks_are_kept() {
    let r = load("[tool.djangofmt]\ncustom_blocks = ['b', 'a', 'b']\n").unwrap();
    assert_eq!(r.custom_blocks, vec!["b".to_string(), "a".to_string(), "b".to_string()]);
}

#[test]
fn unknown_keys_are_ignored() {
    let r = load("[tool.djangofmt]\nline_length = 99\nfuture_option = true\n").unwrap();
    assert_eq!(r.line_length, 99);
}

#[test]
fn inline_tool_table_is_read() {
    let r = load("tool = { djangofmt = { line_length = 70 } }\n").unwrap();
    assert_eq!(r.line_length, 70);
}

#[test]
fn invalid_profile_is_a_parse_error() {
    let r = load("[tool.djangofmt]\nprofile='invalid'\n");
    assert_eq!(
        r,
        Err(ConfigError::ParseError {
            path: PATH.to_string(),
            cause: "invalid value for tool.djangofmt.profile".to_string(),
        })
    );
}

#[test]
fn capitalised_profile_is_a_parse_error() {
    assert_eq!(parse_error_path(load("[tool.djangofmt]\nprofile='Django'\n")), PATH);
}

#[test]
fn non_string_profile_is_a_parse_error() {
    assert_eq!(parse_error_path(load("[tool.djangofmt]\nprofile=1\n")), PATH);
}

#[test]
fn zero_or_negative_width_is_a_parse_error() {
    assert_eq!(
        load("[tool.djangofmt]\nline_length=0\n"),
        Err(ConfigError::ParseError {
            path: PATH.to_string(),
            cause: "invalid value for tool.djangofmt.line_length".to_string(),
        })
    );
    assert_eq!(
        load("[tool.djangofmt]\nindent_width=-2\n"),
        Err(ConfigError::ParseError {
            path: PATH.to_string(),
            cause: "invalid value for tool.djangofmt.indent_width".to_string(),
        })
    );
}

#[test]
fn width_of_wrong_type_is_a_parse_error() {
    assert_eq!(parse_error_path(load("[tool.djangofmt]\nline_length='wide'\n")), PATH);
    assert_eq!(parse_error_path(load("[tool.djangofmt]\nline_length=1.5\n")), PATH);
}

#[test]
fn largest_width_is_accepted() {
    let r = load("[tool.djangofmt]\nline_length=9223372036854775807\n").unwrap();
    assert_eq!(r.line_length as u64, 9223372036854775807u64);
    assert_eq!(load("[tool.djangofmt]\nline_length=1\n").unwrap().line_length, 1);
}

#[test]
fn non_string_block_is_a_parse_error() {
    assert_eq!(
        load("[tool.djangofmt]\ncustom_blocks=['a', 2]\n"),
        Err(ConfigError::ParseError {
            path: PATH.to_string(),
            cause: "invalid value for tool.djangofmt.custom_blocks".to_string(),
        })
    );
    assert_eq!(parse_error_path(load("[tool.djangofmt]\ncustom_blocks='a'\n")), PATH);
}

#[test]
fn tool_that_is_not_a_table_is_a_parse_error() {
    assert_eq!(
        load("tool = 3\n"),
        Err(ConfigError::ParseError {
            path: PATH.to_string(),
            cause: "not a table: tool".to_string(),
        })
    );
    assert_eq!(
        load("[tool]\ndjangofmt = 'x'\n"),
        Err(ConfigError::ParseError {
            path: PATH.to_string(),
            cause: "not a table: tool.djangofmt".to_string(),
        })
    );
}

#[test]
fn malformed_text_is_a_parse_error_naming_the_file() {
    assert_eq!(parse_error_path(load("[tool.djangofmt\nline_length=")), PATH);
    assert_eq!(parse_error_path(load("line_length = = 3")), PATH);
}

#[test]
fn parse_error_carries_the_parser_message() {
    let cause = match parse_document("[tool") {
        Err(cause) => cause,
        Ok(doc) => panic!("parsed {:?}", doc),
    };
    assert!(!cause.is_empty());
    match load("[tool") {
        Err(ConfigError::ParseError { cause: c, .. }) => assert_eq!(c, cause),
        other => panic!("unexpected {:?}", other),
    }
}

#[test]
fn parse_document_converts_values() {
    let doc = parse_document("a = 'x'\nb = 7\nc = [1, 'y']\nd = true\n[e]\nf = 2\n").unwrap();
    assert_eq!(
        doc,
        TomlValue::Table(vec![
            ("a".to_string(), TomlValue::Text("x".to_string())),
            ("b".to_string(), TomlValue::Integer(7)),
            (
                "c".to_string(),
                TomlValue::List(vec![TomlValue::Integer(1), TomlValue::Text("y".to_string())])
            ),
            ("d".to_string(), TomlValue::Other),
            (
                "e".to_string(),
                TomlValue::Table(vec![("f".to_string(), TomlValue::Integer(2))])
            ),
        ])
    );
}

#[test]
fn document_values_resolve_directly() {
    let doc = TomlValue::Table(vec![(
        "tool".to_string(),
        TomlValue::Table(vec![(
            "djangofmt".to_string(),
            TomlValue::Table(vec![
                ("line_length".to_string(), TomlValue::Integer(100)),
                ("line_length".to_string(), TomlValue::Integer(50)),
                ("profile".to_string(), TomlValue::Text("jinja".to_string())),
            ]),
        )]),
    )]);
    let o = settings_from_document(&doc).unwrap();
    assert_eq!(o.line_length, 100);
    assert_eq!(o.profile, Profile::Jinja);
    assert_eq!(options_from_document(PATH, &doc), Ok(o));
    assert_eq!(
        options_from_document(PATH, &TomlValue::Integer(1)),
        Err(ConfigError::ParseError {
            path: PATH.to_string(),
            cause: "not a table: the document".to_string(),
        })
    );
}

#[test]
fn no_settings_file_is_file_not_found() {
    assert_eq!(resolve_settings(None), Err(ConfigError::FileNotFound));
    let c = vec!["/a/b/pyproject.toml".to_string(), "/a/pyproject.toml".to_string()];
    assert_eq!(nearest_settings(&c, &vec![false, false]), None);
    assert_eq!(nearest_settings(&c, &vec![]), None);
}

#[test]
fn unreadable_file_is_io_error() {
    assert_eq!(
        resolve_settings(Some((PATH.to_string(), Err("permission denied".to_string())))),
        Err(ConfigError::IoError {
            path: PATH.to_string(),
            cause: "permission denied".to_string(),
        })
    );
}

#[test]
fn nearest_present_candidate_wins() {
    let c = vec![
        "/a/b/c/pyproject.toml".to_string(),
        "/a/b/pyproject.toml".to_string(),
        "/a/pyproject.toml".to_string(),
    ];
    assert_eq!(nearest_settings(&c, &vec![true, true, true]), Some(c[0].clone()));
    assert_eq!(nearest_settings(&c, &vec![false, true, true]), Some(c[1].clone()));
    assert_eq!(nearest_settings(&c, &vec![false, false, true]), Some(c[2].clone()));
}

#[test]
fn candidates_join_each_ancestor() {
    assert_eq!(
        settings_candidates("/a/b"),
        vec![
            "/a/b/pyproject.toml".to_string(),
            "/a/pyproject.toml".to_string(),
            "/pyproject.toml".to_string(),
        ]
    );
    assert_eq!(settings_candidates("x"), vec!["x/pyproject.toml".to_string(), "pyproject.toml".to_string()]);
}

#[test]
fn settings_file_in_immediate_directory_wins_over_parent() {
    let parent = tempdir().unwrap();
    let mut outer = Builder::new()
        .prefix("pyproject.toml")
        .rand_bytes(0)
        .tempfile_in(parent.path())
        .unwrap();
    outer.write_all(b"[tool.djangofmt]\nline_length = 10\n").unwrap();
    let child = Builder::new().prefix("child").rand_bytes(0).tempdir_in(parent.path()).unwrap();
    let mut inner = Builder::new()
        .prefix("pyproject.toml")
        .rand_bytes(0)
        .tempfile_in(child.path())
        .unwrap();
    inner.write_all(b"[tool.djangofmt]\nline_length = 20\n").unwrap();
    let expected = child.path().join("pyproject.toml").to_str().unwrap().to_string();
    assert_eq!(find_pyproject_toml(child.path().to_str().unwrap()), Some(expected));
}

#[test]
fn directory_named_like_settings_file_is_not_matched() {
    let parent = tempdir().unwrap();
    let _dir = Builder::new()
        .prefix("pyproject.toml")
        .rand_bytes(0)
        .tempdir_in(parent.path())
        .unwrap();
    assert_eq!(find_pyproject_toml(parent.path().to_str().unwrap()), None);
}

#[test]
fn resolving_twice_gives_equal_results() {
    let content = "[tool.djangofmt]\ncustom_blocks = ['x']\nprofile = 'jinja'\n";
    let first = resolve_settings(Some((PATH.to_string(), Ok(content.to_string()))));
    let second = resolve_settings(Some((PATH.to_string(), Ok(content.to_string()))));
    assert!(first.is_ok());
    assert_eq!(first, second);
}

#[test]
fn error_messages_name_the_file() {
    assert_eq!(
        ConfigError::ParseError { path: "p.toml".to_string(), cause: "bad".to_string() }.message(),
        "failed to parse p.toml: bad"
    );
    assert_eq!(
        ConfigError::IoError { path: "p.toml".to_string(), cause: "gone".to_string() }.message(),
        "failed to read p.toml: gone"
    );
    assert_eq!(
        ConfigError::FileNotFound.message(),
        "no pyproject.toml found in any ancestor directory"
    );
}

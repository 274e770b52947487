use ign::alias::ft_aliases;
use ign::alias::resolve_alias;
use ign::output::concat_bytes;
use ign::output::render_print;
use ign::repo::default_from_home;
use ign::repo::default_repo_dir;
use ign::repo::repo_dir_candidate;
use ign::search::search_gitignore_file;
use ign::search::FsNode;
use ign::search::SearchOutcome;
use ign::run;
use ign::Command;
use ign::CommandOption;
use ign::RunEffect;

fn file(name: &str, contents: &[u8]) -> FsNode {
    FsNode::File { name: name.to_string(), contents: contents.to_vec() }
}

fn dir(name: &str, entries: Vec<FsNode>) -> FsNode {
    FsNode::Dir { name: name.to_string(), readable: true, entries }
}

fn unreadable_dir(name: &str) -> FsNode {
    FsNode::Dir { name: name.to_string(), readable: false, entries: Vec::new() }
}

fn command(token: &str, write_to_file: bool) -> Command {
    Command {
        gitignore_dir: "repo".to_string(),
        ft_str: token.to_string(),
        ft_aliases: ft_aliases(),
        option: CommandOption { write_to_file },
    }
}

#[test]
fn alias_present_tokens_resolve_to_mapped_names() {
    let t = ft_aliases();
    assert_eq!(resolve_alias(&t, "hs"), "haskell");
    assert_eq!(resolve_alias(&t, "pl"), "perl");
    assert_eq!(resolve_alias(&t, "py"), "python");
    assert_eq!(resolve_alias(&t, "rb"), "ruby");
    assert_eq!(resolve_alias(&t, "rs"), "rust");
    assert_eq!(resolve_alias(&t, "latex"), "tex");
}

#[test]
fn alias_absent_tokens_are_lowercased() {
    let t = ft_aliases();
    assert_eq!(resolve_alias(&t, "Go"), "go");
    assert_eq!(resolve_alias(&t, "RUST"), "rust");
    assert_eq!(resolve_alias(&t, "tex"), "tex");
    assert_eq!(resolve_alias(&t, ""), "");
}

#[test]
fn alias_lookup_is_case_sensitive_on_the_token() {
    let t = ft_aliases();
    // "PY" is not an alias entry, so it is lowercased instead of mapped.
    assert_eq!(resolve_alias(&t, "PY"), "py");
}

#[test]
fn search_finds_file_nested_two_levels_deep() {
    let wanted = b"*.gem\n/.bundle\n";
    let root = dir(
        "repo",
        vec![
            file("README.md", b"hello\n"),
            dir("community", vec![dir("templates", vec![file("ruby.gitignore", wanted)])]),
            file("rust.gitignore", b"/target\n"),
        ],
    );
    match search_gitignore_file(&root, &"ruby.gitignore".to_string()) {
        SearchOutcome::Found { contents } => assert_eq!(contents, wanted.to_vec()),
        _ => panic!("expected a hit"),
    }
}

#[test]
fn search_matches_filenames_case_insensitively() {
    let root = dir(
        "repo",
        vec![file("Python.gitignore", b"__pycache__/\n")],
    );
    match search_gitignore_file(&root, &"python.gitignore".to_string()) {
        SearchOutcome::Found { contents } => assert_eq!(contents, b"__pycache__/\n".to_vec()),
        _ => panic!("expected a hit"),
    }
    let shouting = dir("repo", vec![file("PYTHON.GITIGNORE", b"*.pyc\n")]);
    match search_gitignore_file(&shouting, &"python.gitignore".to_string()) {
        SearchOutcome::Found { contents } => assert_eq!(contents, b"*.pyc\n".to_vec()),
        _ => panic!("expected a hit"),
    }
}

#[test]
fn search_is_depth_first_and_first_match_wins() {
    let root = dir(
        "repo",
        vec![
            dir("nested", vec![file("go.gitignore", b"first\n")]),
            file("go.gitignore", b"second\n"),
        ],
    );
    match search_gitignore_file(&root, &"go.gitignore".to_string()) {
        SearchOutcome::Found { contents } => assert_eq!(contents, b"first\n".to_vec()),
        _ => panic!("expected a hit"),
    }
}

#[test]
fn search_misses_when_no_name_matches_at_any_depth() {
    let root = dir(
        "repo",
        vec![
            file("README.md", b"hello\n"),
            dir("sub", vec![file("ruby.gitignore.bak", b"stale\n")]),
        ],
    );
    match search_gitignore_file(&root, &"ruby.gitignore".to_string()) {
        SearchOutcome::NotFound => {}
        _ => panic!("expected a miss"),
    }
}

#[test]
fn search_aborts_on_an_unreadable_directory() {
    let root = dir(
        "repo",
        vec![unreadable_dir("locked"), file("go.gitignore", b"later\n")],
    );
    match search_gitignore_file(&root, &"go.gitignore".to_string()) {
        SearchOutcome::Unreadable => {}
        _ => panic!("expected an abort"),
    }
}

#[test]
fn run_reports_a_miss_and_writes_nothing() {
    let root = dir("repo", vec![file("README.md", b"hello\n")]);
    let local = Some(b"untouched\n".to_vec());
    match run(&command("ruby", true), &root, &local) {
        RunEffect::NotFound { canonical } => assert_eq!(canonical, "ruby"),
        _ => panic!("expected a miss report"),
    }
}

#[test]
fn run_append_extends_an_existing_local_file() {
    let root = dir("repo", vec![file("demo.gitignore", b"bar\n")]);
    let local = Some(b"foo\n".to_vec());
    match run(&command("demo", true), &root, &local) {
        RunEffect::Appended { new_local } => assert_eq!(new_local, b"foo\nbar\n".to_vec()),
        _ => panic!("expected an append"),
    }
}

#[test]
fn run_append_creates_the_local_file_with_the_source_bytes() {
    let root = dir("repo", vec![file("demo.gitignore", b"bar\n")]);
    match run(&command("demo", true), &root, &None) {
        RunEffect::Appended { new_local } => assert_eq!(new_local, b"bar\n".to_vec()),
        _ => panic!("expected an append"),
    }
}

#[test]
fn run_print_renders_the_hit_through_the_alias() {
    let root = dir("repo", vec![dir("x", vec![file("Python.gitignore", b"a\r\nb")])]);
    match run(&command("py", false), &root, &None) {
        RunEffect::Printed { bytes } => assert_eq!(bytes, b"a\nb\n".to_vec()),
        _ => panic!("expected printed bytes"),
    }
}

#[test]
fn run_print_twice_gives_identical_output() {
    let root = dir("repo", vec![file("go.gitignore", b"bin/\nout\r\n")]);
    let first = match run(&command("go", false), &root, &None) {
        RunEffect::Printed { bytes } => bytes,
        _ => panic!("expected printed bytes"),
    };
    let second = match run(&command("go", false), &root, &None) {
        RunEffect::Printed { bytes } => bytes,
        _ => panic!("expected printed bytes"),
    };
    assert_eq!(first, second);
}

#[test]
fn render_exact_values() {
    assert_eq!(render_print(&b"".to_vec()), b"".to_vec());
    assert_eq!(render_print(&b"x".to_vec()), b"x\n".to_vec());
    assert_eq!(render_print(&b"a\nb\n".to_vec()), b"a\nb\n".to_vec());
    assert_eq!(render_print(&b"a\r\nb".to_vec()), b"a\nb\n".to_vec());
    // Without a line feed after it, a final carriage return stays.
    assert_eq!(render_print(&b"a\r".to_vec()), b"a\r\n".to_vec());
    assert_eq!(render_print(&b"\n\n".to_vec()), b"\n\n".to_vec());
}

#[test]
fn concat_bytes_keeps_order_and_duplicates() {
    let a = b"foo\n".to_vec();
    let b = b"foo\n".to_vec();
    assert_eq!(concat_bytes(&a, &b), b"foo\nfoo\n".to_vec());
}

#[test]
fn candidate_prefers_the_override_even_over_an_existing_default() {
    let over = Some("/does/not/exist".to_string());
    let def = Some("/definitely/present".to_string());
    assert_eq!(repo_dir_candidate(over, def), "/does/not/exist");
}

#[test]
fn candidate_takes_the_override_verbatim_even_empty() {
    let def = Some("/fallback".to_string());
    assert_eq!(repo_dir_candidate(Some(String::new()), def), "");
}

#[test]
fn candidate_falls_back_to_the_default_then_to_empty() {
    assert_eq!(repo_dir_candidate(None, Some("/fallback".to_string())), "/fallback");
    assert_eq!(repo_dir_candidate(None, None), "");
}

#[test]
fn default_root_is_built_from_the_given_home() {
    assert_eq!(
        default_from_home(Some("/home/u".to_string())),
        Some("/home/u/.local/share/gitignore".to_string())
    );
    assert_eq!(default_from_home(None), None);
}

#[test]
fn default_repo_dir_ends_with_the_mirror_suffix() {
    if let Some(d) = default_repo_dir() {
        assert!(d.ends_with("/.local/share/gitignore"));
    }
}

#[test]
fn command_option_defaults_to_print_mode() {
    let o = CommandOption::default();
    assert!(!o.write_to_file);
}

#[test]
fn help_performs_no_action() {
    ign::help();
}

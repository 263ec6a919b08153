use pono::entry::{Configuration, LinkEntry};
use pono::resolve::{backup_path, resolve_path};
use pono::order::str_le;
use pono::selection::ponos_to_manipulate;
use pono::state::ResolveError;

fn entry(name: &str, source: &str, target: &str) -> LinkEntry {
    LinkEntry {
        name: name.to_string(),
        source: source.to_string(),
        target: target.to_string(),
    }
}

fn basic_config() -> Configuration {
    // Declared out of order on purpose: processing order must not depend
    // on declaration order.
    Configuration {
        entries: vec![
            entry("zsh", "./examples/from/zshrc", "./examples/to/.zshrc"),
            entry("nvim", "./examples/from/nvim", "./examples/to/nvim"),
        ],
    }
}

#[test]
fn select_all_is_sorted() {
    let config = basic_config();
    let names = ponos_to_manipulate(&config, &None);
    assert_eq!(names, vec!["nvim".to_string(), "zsh".to_string()]);
}

#[test]
fn select_subset_keeps_only_requested() {
    let config = basic_config();
    let names = ponos_to_manipulate(&config, &Some(vec!["zsh".to_string()]));
    assert_eq!(names, vec!["zsh".to_string()]);
}

#[test]
fn select_drops_unknown_names_silently() {
    let config = basic_config();
    let names = ponos_to_manipulate(
        &config,
        &Some(vec!["nope".to_string(), "zsh".to_string()]),
    );
    assert_eq!(names, vec!["zsh".to_string()]);
}

#[test]
fn select_ignores_request_order_and_duplicates() {
    let config = basic_config();
    let forward = ponos_to_manipulate(
        &config,
        &Some(vec!["nvim".to_string(), "zsh".to_string()]),
    );
    let backward = ponos_to_manipulate(
        &config,
        &Some(vec![
            "zsh".to_string(),
            "nvim".to_string(),
            "zsh".to_string(),
        ]),
    );
    assert_eq!(forward, backward);
    assert_eq!(forward, vec!["nvim".to_string(), "zsh".to_string()]);
}

#[test]
fn select_empty_request_selects_nothing() {
    let config = basic_config();
    let names = ponos_to_manipulate(&config, &Some(vec![]));
    assert!(names.is_empty());
}

#[test]
fn string_order_is_lexicographic() {
    assert!(str_le("a", "b"));
    assert!(!str_le("b", "a"));
    assert!(str_le("abc", "abd"));
    assert!(str_le("ab", "abc"));
    assert!(!str_le("abc", "ab"));
    assert!(str_le("same", "same"));
    assert!(str_le("", "a"));
}

#[test]
fn well_formed_detects_duplicate_names() {
    let good = basic_config();
    assert!(good.check_well_formed());
    let bad = Configuration {
        entries: vec![entry("zsh", "a", "b"), entry("zsh", "c", "d")],
    };
    assert!(!bad.check_well_formed());
}

#[test]
fn lookup_finds_declared_entry() {
    let config = basic_config();
    let found = config.lookup(&"nvim".to_string()).expect("nvim is declared");
    assert_eq!(found.source, "./examples/from/nvim");
    assert!(config.lookup(&"missing".to_string()).is_none());
}

#[test]
fn absolute_path_passes_through() {
    let r = resolve_path("/etc/hosts", "/work").unwrap();
    assert_eq!(r, "/etc/hosts");
}

#[test]
fn relative_path_joins_working_directory() {
    let r = resolve_path("examples/from/zshrc", "/work").unwrap();
    assert_eq!(r, "/work/examples/from/zshrc");
    let with_sep = resolve_path("x", "/work/").unwrap();
    assert_eq!(with_sep, "/work/x");
}

#[test]
fn tilde_is_expanded_to_home() {
    // The test environment sets HOME, so the tilde must be replaced.
    let alone = resolve_path("~", "/work").unwrap();
    assert_ne!(alone, "~");
    let nested = resolve_path("~/cfg", "/work").unwrap();
    assert!(nested.ends_with("/cfg"));
    assert!(!nested.starts_with("~"));
}

#[test]
fn tilde_with_user_name_is_left_as_is() {
    // `~user/...` expansion is unsupported; such a path passes through.
    let r = resolve_path("~nobody/cfg", "/work").unwrap();
    assert_eq!(r, "~nobody/cfg");
}

#[test]
fn environment_references_are_interpolated() {
    // PATH is set in any test environment, so the reference must be
    // replaced by its value.
    let r = resolve_path("$PATH", "/work").unwrap();
    assert_ne!(r, "$PATH");
}

#[test]
fn unbound_variable_fails_resolution() {
    let r = resolve_path("$PONO_TEST_SURELY_UNSET_VAR/x", "/work");
    match r {
        Err(ResolveError::UnboundVariable { var }) => {
            assert_eq!(var, "PONO_TEST_SURELY_UNSET_VAR");
        }
        other => panic!("expected an unbound-variable failure, got {:?}", other),
    }
}

#[test]
fn tilde_rule_wins_over_environment_rule() {
    // A path that is both (`~/$VAR`) is handled only by the tilde rule:
    // the `$VAR` part stays uninterpolated and resolution cannot fail.
    let r = resolve_path("~/$PONO_TEST_SURELY_UNSET_VAR", "/work").unwrap();
    assert!(r.ends_with("/$PONO_TEST_SURELY_UNSET_VAR"));
}

#[test]
fn backup_path_appends_suffix() {
    assert_eq!(backup_path("/work/.zshrc"), "/work/.zshrc.bak");
}

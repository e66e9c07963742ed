use keylime_agent::config::{AgentConfig, KeylimeConfig};
use keylime_agent::error::Error;
use keylime_agent::paths::{config_get_file_path, path_is_absolute, path_join};
use keylime_agent::resolve::config_translate_keywords;
use keylime_agent::sources::{config_get_file_setting, config_get_setting, sort_snippets, Source};
use keylime_agent::text::{same_text, same_text_ignoring_case, text_precedes, to_lower_char};
use std::path::Path;

#[test]
fn a_path_option_is_expanded() {
    let dir = "/var/lib/keylime";
    assert_eq!(
        config_get_file_path("server_cert", "default", dir, "server-cert.crt"),
        "/var/lib/keylime/server-cert.crt"
    );
    assert_eq!(
        config_get_file_path("server_cert", "", dir, "server-cert.crt"),
        "/var/lib/keylime/server-cert.crt"
    );
    assert_eq!(
        config_get_file_path("server_cert", "certs/mine.crt", dir, "server-cert.crt"),
        "/var/lib/keylime/certs/mine.crt"
    );
    assert_eq!(
        config_get_file_path("server_cert", "/etc/ssl/mine.crt", dir, "server-cert.crt"),
        "/etc/ssl/mine.crt"
    );
    assert_eq!(
        config_get_file_path("server_cert", "Default", dir, "server-cert.crt"),
        "/var/lib/keylime/Default"
    );
    assert_eq!(
        config_get_file_path("other_name", "certs/mine.crt", dir, "server-cert.crt"),
        "/var/lib/keylime/certs/mine.crt"
    );
}

#[test]
fn the_path_table_holds_for_the_certificates() {
    for dir in ["/var/lib/keylime", "/opt/agent"] {
        for (configured, server, revocation) in [
            ("default", format!("{dir}/server-cert.crt"), format!("{dir}/secure/unzipped/RevocationNotifier-cert.crt")),
            ("", format!("{dir}/server-cert.crt"), format!("{dir}/secure/unzipped/RevocationNotifier-cert.crt")),
            ("cert.crt", format!("{dir}/cert.crt"), format!("{dir}/cert.crt")),
            ("a/b/cert.crt", format!("{dir}/a/b/cert.crt"), format!("{dir}/a/b/cert.crt")),
            ("/test/cert.crt", "/test/cert.crt".to_string(), "/test/cert.crt".to_string()),
        ] {
            let c = KeylimeConfig {
                agent: AgentConfig {
                    server_cert: configured.to_string(),
                    revocation_cert: configured.to_string(),
                    ..Default::default()
                },
            };
            let resolved = config_translate_keywords(&c, dir).unwrap();
            assert_eq!(resolved.agent.server_cert, server);
            assert_eq!(resolved.agent.revocation_cert, revocation);
            assert_eq!(resolved.agent.keylime_dir, dir);
        }
    }
}

#[test]
fn paths_are_joined_as_the_system_joins_them() {
    for base in ["/var/lib/keylime", "/var/lib/keylime/", "/", "", "relative/dir"] {
        for path in ["cert.crt", "a/b", "/abs/cert.crt", "", "../up", "./here"] {
            let expected = Path::new(base).join(path).display().to_string();
            assert_eq!(path_join(base, path), expected);
        }
    }
    assert_eq!(path_join("/var/lib/keylime", "cert.crt"), "/var/lib/keylime/cert.crt");
    assert_eq!(path_join("/", "cert.crt"), "/cert.crt");
    assert_eq!(path_join("/a/", "b"), "/a/b");
    assert_eq!(path_join("", "b"), "b");
    assert_eq!(path_join("/a", "/b"), "/b");
}

#[test]
fn absolute_paths_start_at_the_root() {
    assert!(path_is_absolute("/"));
    assert!(path_is_absolute("/etc/keylime"));
    assert!(!path_is_absolute(""));
    assert!(!path_is_absolute("etc/keylime"));
    assert!(!path_is_absolute("./etc"));
    for path in ["/", "/a", "", "a", "a/", "../a"] {
        assert_eq!(path_is_absolute(path), Path::new(path).is_absolute());
    }
}

#[test]
fn text_is_compared() {
    assert!(same_text("default", "default"));
    assert!(!same_text("default", "Default"));
    assert!(!same_text("default", "default "));
    assert!(same_text("", ""));
    assert!(same_text_ignoring_case("KEYLIME_AGENT_PORT", "keylime_agent_port"));
    assert!(same_text_ignoring_case("", ""));
    assert!(!same_text_ignoring_case("port", "ports"));
    assert!(!same_text_ignoring_case("port", "pork"));
    assert!(!same_text_ignoring_case("\u{212a}", "k"));
    assert_eq!(to_lower_char('A'), 'a');
    assert_eq!(to_lower_char('Z'), 'z');
    assert_eq!(to_lower_char('a'), 'a');
    assert_eq!(to_lower_char('_'), '_');
    assert_eq!(to_lower_char('['), '[');
    assert_eq!(to_lower_char('@'), '@');
    assert_eq!(to_lower_char('\u{c9}'), '\u{c9}');
}

#[test]
fn text_is_ordered_as_in_a_dictionary() {
    let texts = ["", "a", "ab", "abc", "b", "B", "10-x.conf", "2-x.conf", "\u{e9}", "z"];
    for a in texts {
        for b in texts {
            assert_eq!(text_precedes(a, b), a <= b);
        }
    }
}

#[test]
fn snippets_are_read_in_the_order_of_their_names() {
    let found = vec![
        "/etc/keylime/agent.conf.d/20-ports.conf".to_string(),
        "/etc/keylime/agent.conf.d/10-base.conf".to_string(),
        "/etc/keylime/agent.conf.d/99-last.conf".to_string(),
        "/etc/keylime/agent.conf.d/10-base.conf".to_string(),
        "/etc/keylime/agent.conf.d/00-first.conf".to_string(),
    ];
    let sorted = sort_snippets(&found);
    assert_eq!(
        sorted,
        vec![
            "/etc/keylime/agent.conf.d/00-first.conf".to_string(),
            "/etc/keylime/agent.conf.d/10-base.conf".to_string(),
            "/etc/keylime/agent.conf.d/10-base.conf".to_string(),
            "/etc/keylime/agent.conf.d/20-ports.conf".to_string(),
            "/etc/keylime/agent.conf.d/99-last.conf".to_string(),
        ]
    );
    let mut expected = found.clone();
    expected.sort();
    assert_eq!(sorted, expected);
    assert_eq!(sort_snippets(&vec![]), Vec::<String>::new());
    assert_eq!(sort_snippets(&sorted), sorted);
}

#[test]
fn the_default_sources_stand_in_their_order() {
    let expected = vec![
        Source::File { path: "/usr/etc/keylime/agent.conf".to_string(), required: false },
        Source::Snippets { pattern: "/usr/etc/keylime/agent.conf.d/*".to_string() },
        Source::File { path: "/etc/keylime/agent.conf".to_string(), required: false },
        Source::Snippets { pattern: "/etc/keylime/agent.conf.d/*".to_string() },
        Source::Environment,
    ];
    assert_eq!(config_get_file_setting(), expected);
    assert_eq!(config_get_setting(None, false).unwrap(), expected);
    assert_eq!(config_get_setting(None, true).unwrap(), expected);
    assert_eq!(config_get_setting(Some(""), false).unwrap(), expected);
    assert_eq!(config_get_setting(Some(""), true).unwrap(), expected);
}

#[test]
fn a_named_file_replaces_the_other_files() {
    let plan = config_get_setting(Some("/tmp/agent.conf"), true).unwrap();
    assert_eq!(
        plan,
        vec![
            Source::File { path: "/tmp/agent.conf".to_string(), required: true },
            Source::Environment,
        ]
    );
    let error = config_get_setting(Some("/tmp/agent.conf"), false).unwrap_err();
    assert!(matches!(error, Error::Configuration(_)));
    assert_eq!(
        error.description(),
        "Configuration error: Configuration set in KEYLIME_AGENT_CONFIG environment variable not found"
    );
}

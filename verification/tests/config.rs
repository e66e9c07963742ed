use keylime_agent::config::{AgentConfig, KeylimeConfig};
use keylime_agent::resolve::config_translate_keywords;
use keylime_agent::schema::{DEFAULT_KEYLIME_DIR, DEFAULT_REVOCATION_CERT};
use std::path::Path;

#[test]
fn test_default() {
    let default = KeylimeConfig::default();

    let c = KeylimeConfig {
        agent: AgentConfig::default(),
    };

    let result = config_translate_keywords(&c, DEFAULT_KEYLIME_DIR);
    assert!(result.is_ok());
    let expected = result.unwrap();
    assert_eq!(expected, default);
}

#[test]
fn get_revocation_cert_path_default() {
    let test_config = KeylimeConfig::default();
    let revocation_cert_path = test_config.agent.revocation_cert.clone();
    let expected = Path::new(&test_config.agent.keylime_dir)
        .join("secure/unzipped")
        .join(DEFAULT_REVOCATION_CERT)
        .display()
        .to_string();
    assert_eq!(revocation_cert_path, expected);
}

#[test]
fn get_revocation_cert_path_absolute() {
    let test_config = KeylimeConfig {
        agent: AgentConfig {
            revocation_cert: "/test/cert.crt".to_string(),
            ..Default::default()
        },
    };
    let result = config_translate_keywords(&test_config, DEFAULT_KEYLIME_DIR);
    assert!(result.is_ok());
    let test_config = result.unwrap();
    let revocation_cert_path = test_config.agent.revocation_cert;
    let expected = Path::new("/test/cert.crt").display().to_string();
    assert_eq!(revocation_cert_path, expected);
}

#[test]
fn get_revocation_cert_path_relative() {
    let test_config = KeylimeConfig {
        agent: AgentConfig {
            revocation_cert: "cert.crt".to_string(),
            ..Default::default()
        },
    };
    let result = config_translate_keywords(&test_config, DEFAULT_KEYLIME_DIR);
    assert!(result.is_ok());
    let test_config = result.unwrap();
    let revocation_cert_path = test_config.agent.revocation_cert.clone();
    let expected = Path::new(&test_config.agent.keylime_dir)
        .join("cert.crt")
        .display()
        .to_string();
    assert_eq!(revocation_cert_path, expected);
}

#[test]
fn get_revocation_notification_ip_empty() {
    let test_config = KeylimeConfig {
        agent: AgentConfig {
            enable_revocation_notifications: true,
            revocation_notification_ip: "".to_string(),
            ..Default::default()
        },
    };
    let result = config_translate_keywords(&test_config, DEFAULT_KEYLIME_DIR);
    // Due to enable_revocation_notifications being set
    assert!(result.is_err());
    let test_config = KeylimeConfig {
        agent: AgentConfig {
            enable_revocation_notifications: false,
            revocation_notification_ip: "".to_string(),
            ..Default::default()
        },
    };

    // Now unset enable_revocation_notifications and check that is allowed
    let result = config_translate_keywords(&test_config, DEFAULT_KEYLIME_DIR);
    assert!(result.is_ok());
    let test_config = result.unwrap();
    assert_eq!(
        test_config.agent.revocation_notification_ip,
        "".to_string()
    );
}

#[test]
fn get_revocation_cert_empty() {
    let test_config = KeylimeConfig {
        agent: AgentConfig {
            enable_revocation_notifications: true,
            revocation_cert: "".to_string(),
            ..Default::default()
        },
    };
    let result = config_translate_keywords(&test_config, DEFAULT_KEYLIME_DIR);
    // Due to enable_revocation_notifications being set
    assert!(result.is_err());
    let test_config = KeylimeConfig {
        agent: AgentConfig {
            enable_revocation_notifications: false,
            revocation_cert: "".to_string(),
            ..Default::default()
        },
    };

    // Now unset enable_revocation_notifications and check that is allowed
    let result = config_translate_keywords(&test_config, DEFAULT_KEYLIME_DIR);
    assert!(result.is_ok());
}

#[test]
fn get_revocation_actions_dir_empty() {
    let test_config = KeylimeConfig {
        agent: AgentConfig {
            enable_revocation_notifications: true,
            revocation_actions_dir: "".to_string(),
            ..Default::default()
        },
    };
    let result = config_translate_keywords(&test_config, DEFAULT_KEYLIME_DIR);
    // Due to enable_revocation_notifications being set
    assert!(result.is_err());
    let test_config = KeylimeConfig {
        agent: AgentConfig {
            enable_revocation_notifications: false,
            revocation_actions_dir: "".to_string(),
            ..Default::default()
        },
    };

    // Now unset enable_revocation_notifications and check that is allowed
    let result = config_translate_keywords(&test_config, DEFAULT_KEYLIME_DIR);
    assert!(result.is_ok());
}

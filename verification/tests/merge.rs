use keylime_agent::config::{AgentConfig, KeylimeConfig};
use keylime_agent::overrides::EnvConfig;
use keylime_agent::resolve::{
    config_keylime_dir, config_resolve, config_translate_keywords, config_unset_paths,
    config_validate, keylime_dir_not_found,
};
use keylime_agent::schema::{Field, Kind, Value};

fn source(entries: Vec<(Field, Value)>) -> EnvConfig {
    let mut env = EnvConfig::new();
    for (field, value) in entries {
        assert!(env.set(field, value));
    }
    env
}

#[test]
fn the_defaults_are_those_of_the_schema() {
    let d = AgentConfig::default();
    assert_eq!(d.version, "2.0");
    assert_eq!(d.uuid, "d432fbb3-d2f1-4a97-9ef7-75bd81c00000");
    assert_eq!(d.ip, "127.0.0.1");
    assert_eq!(d.port, 9002);
    assert_eq!(d.contact_ip, "127.0.0.1");
    assert_eq!(d.contact_port, 9002);
    assert_eq!(d.registrar_ip, "127.0.0.1");
    assert_eq!(d.registrar_port, 8890);
    assert!(d.enable_agent_mtls);
    assert_eq!(d.keylime_dir, "/var/lib/keylime");
    assert_eq!(d.server_key, "default");
    assert_eq!(d.server_cert, "default");
    assert_eq!(d.server_key_password, "");
    assert_eq!(d.trusted_client_ca, "default");
    assert_eq!(d.enc_keyname, "derived_tci_key");
    assert_eq!(d.dec_payload_file, "decrypted_payload");
    assert_eq!(d.secure_size, "1m");
    assert_eq!(d.tpm_ownerpassword, "");
    assert!(d.extract_payload_zip);
    assert!(!d.enable_revocation_notifications);
    assert_eq!(d.revocation_actions_dir, "/usr/libexec/keylime");
    assert_eq!(d.revocation_notification_ip, "127.0.0.1");
    assert_eq!(d.revocation_notification_port, 8992);
    assert_eq!(d.revocation_cert, "default");
    assert_eq!(d.revocation_actions, "");
    assert_eq!(d.payload_script, "autorun.sh");
    assert!(!d.enable_insecure_payload);
    assert!(d.allow_payload_revocation_actions);
    assert_eq!(d.tpm_hash_alg, "sha256");
    assert_eq!(d.tpm_encryption_alg, "rsa");
    assert_eq!(d.tpm_signing_alg, "rsassa");
    assert_eq!(d.ek_handle, "generate");
    assert_eq!(d.run_as, "");
    assert_eq!(d.agent_data_path, "default");
    assert_eq!(AgentConfig::defaults(false), d);
    let root = AgentConfig::defaults(true);
    assert_eq!(root.run_as, "keylime:tss");
    assert_eq!(AgentConfig { run_as: "".to_string(), ..root }, d);
}

#[test]
fn every_option_has_the_kind_of_its_value() {
    let d = AgentConfig::default();
    let mut texts = 0;
    let mut numbers = 0;
    let mut flags = 0;
    for i in 0..34 {
        let field = Field::from_index(i);
        assert_eq!(d.get(field).kind(), field.kind());
        match field.kind() {
            Kind::Str => texts += 1,
            Kind::UInt => numbers += 1,
            Kind::Bool => flags += 1,
        }
    }
    assert_eq!((texts, numbers, flags), (25, 4, 5));
}

#[test]
fn an_option_is_set_and_read_back() {
    let mut c = AgentConfig::default();
    assert!(c.set(Field::Port, Value::UInt(1234)));
    assert_eq!(c.get(Field::Port), Value::UInt(1234));
    assert_eq!(c.port, 1234);
    assert!(!c.set(Field::Port, Value::Str("80".to_string())));
    assert_eq!(c.port, 1234);
    assert!(c.set(Field::RunAs, Value::Str("a:b".to_string())));
    assert!(c.set(Field::EnableInsecurePayload, Value::Bool(true)));
    let expected = AgentConfig {
        port: 1234,
        run_as: "a:b".to_string(),
        enable_insecure_payload: true,
        ..Default::default()
    };
    assert_eq!(c, expected);
    assert_eq!(c.clone(), expected);
}

#[test]
fn the_higher_source_wins() {
    let low = source(vec![
        (Field::Port, Value::UInt(1)),
        (Field::Ip, Value::Str("low".to_string())),
    ]);
    let middle = source(vec![
        (Field::Port, Value::UInt(2)),
        (Field::ContactIp, Value::Str("middle".to_string())),
    ]);
    let high = source(vec![(Field::Port, Value::UInt(3))]);
    let merged = KeylimeConfig::merge(AgentConfig::default(), &vec![low, middle, high]);
    let expected = AgentConfig {
        port: 3,
        ip: "low".to_string(),
        contact_ip: "middle".to_string(),
        ..Default::default()
    };
    assert_eq!(merged.agent, expected);

    let low = source(vec![(Field::Port, Value::UInt(3))]);
    let high = source(vec![(Field::Port, Value::UInt(1))]);
    let merged = KeylimeConfig::merge(AgentConfig::default(), &vec![low, high]);
    assert_eq!(merged.agent.port, 1);
}

#[test]
fn an_empty_value_overrides_too() {
    let low = source(vec![(Field::RevocationActions, Value::Str("a,b".to_string()))]);
    let high = source(vec![(Field::RevocationActions, Value::Str("".to_string()))]);
    let merged = KeylimeConfig::merge(AgentConfig::default(), &vec![low, high]);
    assert_eq!(merged.agent.revocation_actions, "");
    let base = AgentConfig::default().overridden(&source(vec![(Field::Ip, Value::Str("".to_string()))]));
    assert_eq!(base.ip, "");
}

#[test]
fn sources_that_set_nothing_leave_the_defaults() {
    let merged = KeylimeConfig::merge(AgentConfig::default(), &vec![]);
    assert_eq!(merged.agent, AgentConfig::default());
    let merged = KeylimeConfig::merge(
        AgentConfig::default(),
        &vec![EnvConfig::new(), EnvConfig::new()],
    );
    assert_eq!(merged.agent, AgentConfig::default());
}

#[test]
fn without_sources_the_run_gives_the_resolved_defaults() {
    let run = KeylimeConfig::new(false, &vec![], "/var/lib/keylime").unwrap();
    let direct = config_translate_keywords(
        &KeylimeConfig { agent: AgentConfig::default() },
        "/var/lib/keylime",
    )
    .unwrap();
    assert_eq!(run, direct);
    assert_eq!(run, KeylimeConfig::default());
    let root = KeylimeConfig::new(true, &vec![EnvConfig::new()], "/var/lib/keylime").unwrap();
    assert_eq!(root.agent.run_as, "keylime:tss");
}

#[test]
fn repeated_runs_agree() {
    let sources = vec![source(vec![
        (Field::Uuid, Value::Str("D432FBB3-D2F1-4A97-9EF7-75BD81C00001".to_string())),
        (Field::ServerCert, Value::Str("certs/server.crt".to_string())),
    ])];
    let first = KeylimeConfig::new(false, &sources, "/opt/agent").unwrap();
    let second = KeylimeConfig::new(false, &sources, "/opt/agent").unwrap();
    assert_eq!(first, second);
    assert_eq!(first.agent.uuid, "d432fbb3-d2f1-4a97-9ef7-75bd81c00001");
    assert_eq!(first.agent.server_cert, "/opt/agent/certs/server.crt");

    let sources = vec![source(vec![(Field::Uuid, Value::Str("generate".to_string()))])];
    let first = KeylimeConfig::new(false, &sources, "/opt/agent").unwrap();
    let second = KeylimeConfig::new(false, &sources, "/opt/agent").unwrap();
    assert_ne!(first.agent.uuid, second.agent.uuid);
    let mut same = second.clone();
    same.agent.uuid = first.agent.uuid.clone();
    assert_eq!(first, same);
}

#[test]
fn the_default_configuration_is_resolved() {
    let c = KeylimeConfig::default().agent;
    assert_eq!(c.keylime_dir, "/var/lib/keylime");
    assert_eq!(c.uuid, "d432fbb3-d2f1-4a97-9ef7-75bd81c00000");
    assert_eq!(c.server_key, "/var/lib/keylime/server-private.pem");
    assert_eq!(c.server_cert, "/var/lib/keylime/server-cert.crt");
    assert_eq!(c.trusted_client_ca, "/var/lib/keylime/cv_ca/cacert.crt");
    assert_eq!(c.agent_data_path, "/var/lib/keylime/agent_data.json");
    assert_eq!(
        c.revocation_cert,
        "/var/lib/keylime/secure/unzipped/RevocationNotifier-cert.crt"
    );
    assert_eq!(c.ek_handle, "");
    let raw = AgentConfig::default();
    let untouched = AgentConfig {
        keylime_dir: raw.keylime_dir.clone(),
        uuid: raw.uuid.clone(),
        server_key: raw.server_key.clone(),
        server_cert: raw.server_cert.clone(),
        trusted_client_ca: raw.trusted_client_ca.clone(),
        agent_data_path: raw.agent_data_path.clone(),
        revocation_cert: raw.revocation_cert.clone(),
        ek_handle: raw.ek_handle.clone(),
        ..c
    };
    assert_eq!(untouched, raw);
}

#[test]
fn the_handle_is_left_empty_or_kept() {
    for (configured, expected) in [("generate", ""), ("", ""), ("0x81000000", "0x81000000"), ("Generate", "Generate")] {
        let c = KeylimeConfig {
            agent: AgentConfig {
                ek_handle: configured.to_string(),
                ..Default::default()
            },
        };
        let resolved = config_translate_keywords(&c, "/var/lib/keylime").unwrap();
        assert_eq!(resolved.agent.ek_handle, expected);
    }
}

#[test]
fn the_identity_of_the_run_is_the_one_given() {
    let c = KeylimeConfig { agent: AgentConfig::default() };
    let resolved = config_resolve(&c, "/data", "hash_ek".to_string()).unwrap();
    assert_eq!(resolved.agent.uuid, "hash_ek");
    assert_eq!(resolved.agent.keylime_dir, "/data");
    assert_eq!(resolved.agent.server_key, "/data/server-private.pem");
    let c = KeylimeConfig {
        agent: AgentConfig {
            uuid: "hash_ek".to_string(),
            ..Default::default()
        },
    };
    let resolved = config_translate_keywords(&c, "/data").unwrap();
    assert_eq!(resolved.agent.uuid, "hash_ek");
}

#[test]
fn the_checks_fail_in_their_order() {
    let all_empty = KeylimeConfig {
        agent: AgentConfig {
            enable_revocation_notifications: true,
            revocation_notification_ip: "".to_string(),
            revocation_cert: "".to_string(),
            revocation_actions_dir: "".to_string(),
            ..Default::default()
        },
    };
    let error = config_validate(&all_empty).unwrap_err();
    assert_eq!(
        error.description(),
        "Configuration error: The option 'enable_revocation_notifications' is set as 'true' but 'revocation_notification_ip' was set as empty"
    );
    let error = config_translate_keywords(&all_empty, "/var/lib/keylime").unwrap_err();
    assert_eq!(
        error.description(),
        "Configuration error: The option 'enable_revocation_notifications' is set as 'true' but 'revocation_notification_ip' was set as empty"
    );
    let two_empty = KeylimeConfig {
        agent: AgentConfig {
            revocation_notification_ip: "127.0.0.1".to_string(),
            ..all_empty.agent.clone()
        },
    };
    let error = config_validate(&two_empty).unwrap_err();
    assert_eq!(
        error.description(),
        "Configuration error: The option 'enable_revocation_notifications' is set as 'true' but 'revocation_cert' was set as empty"
    );
    let one_empty = KeylimeConfig {
        agent: AgentConfig {
            revocation_cert: "default".to_string(),
            ..two_empty.agent.clone()
        },
    };
    let error = config_resolve(&one_empty, "/var/lib/keylime", "hash_ek".to_string()).unwrap_err();
    assert_eq!(
        error.description(),
        "Configuration error: The option 'enable_revocation_notifications' is set as 'true' but 'revocation_actions_dir' was set as empty"
    );
    let none_empty = KeylimeConfig {
        agent: AgentConfig {
            revocation_actions_dir: "/usr/libexec/keylime".to_string(),
            ..one_empty.agent.clone()
        },
    };
    assert!(config_validate(&none_empty).is_ok());
    assert!(config_translate_keywords(&none_empty, "/var/lib/keylime").is_ok());
    let switched_off = KeylimeConfig {
        agent: AgentConfig {
            enable_revocation_notifications: false,
            ..all_empty.agent.clone()
        },
    };
    assert!(config_validate(&switched_off).is_ok());
    let resolved = config_translate_keywords(&switched_off, "/var/lib/keylime").unwrap();
    assert_eq!(resolved.agent.revocation_notification_ip, "");
    assert_eq!(resolved.agent.revocation_actions_dir, "");
    assert_eq!(
        resolved.agent.revocation_cert,
        "/var/lib/keylime/secure/unzipped/RevocationNotifier-cert.crt"
    );
}

#[test]
fn a_failing_merged_configuration_fails_the_run() {
    let sources = vec![source(vec![
        (Field::EnableRevocationNotifications, Value::Bool(true)),
        (Field::RevocationActionsDir, Value::Str("".to_string())),
    ])];
    assert!(KeylimeConfig::new(false, &sources, "/var/lib/keylime").is_err());
}

#[test]
fn the_working_directory_is_chosen() {
    let c = KeylimeConfig { agent: AgentConfig::default() };
    assert_eq!(config_keylime_dir(&c, None), "/var/lib/keylime");
    assert_eq!(config_keylime_dir(&c, Some("")), "/var/lib/keylime");
    assert_eq!(config_keylime_dir(&c, Some("/tmp/agent")), "/tmp/agent");
    let configured = KeylimeConfig {
        agent: AgentConfig {
            keylime_dir: "/srv/keylime".to_string(),
            ..Default::default()
        },
    };
    assert_eq!(config_keylime_dir(&configured, None), "/srv/keylime");
    assert_eq!(config_keylime_dir(&configured, Some("")), "/srv/keylime");
    assert_eq!(config_keylime_dir(&configured, Some("/tmp/agent")), "/tmp/agent");
    let empty = KeylimeConfig {
        agent: AgentConfig {
            keylime_dir: "".to_string(),
            ..Default::default()
        },
    };
    assert_eq!(config_keylime_dir(&empty, None), "/var/lib/keylime");
    assert_eq!(config_keylime_dir(&empty, Some("")), "/var/lib/keylime");
}

#[test]
fn a_missing_working_directory_is_named() {
    let error = keylime_dir_not_found("/nowhere", "No such file or directory (os error 2)");
    assert_eq!(
        error.description(),
        "Configuration error: Path /nowhere set in keylime_dir configuration option not found: No such file or directory (os error 2)"
    );
}

#[test]
fn all_options_are_collected_in_the_order_of_the_schema() {
    let entries = KeylimeConfig { agent: AgentConfig::default() }.collect();
    assert_eq!(entries.len(), 34);
    assert_eq!(entries[0], ("version".to_string(), Value::Str("2.0".to_string())));
    assert_eq!(entries[3], ("port".to_string(), Value::UInt(9002)));
    assert_eq!(entries[18], ("extract_payload_zip".to_string(), Value::Bool(true)));
    assert_eq!(entries[19], ("enable_revocation_notifications".to_string(), Value::Bool(false)));
    assert_eq!(entries[33], ("agent_data_path".to_string(), Value::Str("default".to_string())));
    for (i, entry) in entries.iter().enumerate() {
        assert_eq!(entry.0, Field::from_index(i).key());
    }
}

#[test]
fn empty_file_options_are_reported() {
    let c = KeylimeConfig { agent: AgentConfig::default() };
    assert_eq!(config_unset_paths(&c), vec![]);
    let c = KeylimeConfig {
        agent: AgentConfig {
            server_cert: "".to_string(),
            revocation_cert: "".to_string(),
            agent_data_path: "".to_string(),
            revocation_actions: "".to_string(),
            ..Default::default()
        },
    };
    assert_eq!(
        config_unset_paths(&c),
        vec![Field::AgentDataPath, Field::ServerCert, Field::RevocationCert]
    );
    let c = KeylimeConfig {
        agent: AgentConfig {
            server_key: "".to_string(),
            trusted_client_ca: "".to_string(),
            ..Default::default()
        },
    };
    assert_eq!(config_unset_paths(&c), vec![Field::ServerKey, Field::TrustedClientCa]);
}

//! From the sources to the configuration that the agent runs with: the
//! sources are merged over the defaults, the keywords are replaced, and the
//! whole is checked.

use vstd::prelude::*;
use crate::config::{AgentConfig, AgentConfigView, KeylimeConfig};
use crate::error::Error;
use crate::identity::{
    get_uuid, is_canonical, is_uuid_for, lemma_canonical_is_lowered, lemma_hyphenated_identity,
};
use crate::overrides::EnvConfig;
use crate::paths::{config_get_file_path, file_path, is_absolute};
use crate::schema::{
    field_at, Field, ValueView, DEFAULT_AGENT_DATA_PATH, DEFAULT_KEYLIME_DIR, DEFAULT_UUID,
    DEFAULT_REVOCATION_CERT, DEFAULT_SERVER_CERT, DEFAULT_SERVER_KEY, DEFAULT_TRUSTED_CLIENT_CA,
    FIELD_COUNT,
};
use crate::text::same_text;

verus! {

/// `base` after the first `n` options of the schema took the value that
/// `over` gives them, where it gives one.
pub open spec fn overlaid_among(
    base: AgentConfigView,
    over: Map<Field, ValueView>,
    n: int,
) -> AgentConfigView
    decreases n,
{
    if n <= 0 {
        base
    } else if over.contains_key(field_at(n - 1)) {
        overlaid_among(base, over, n - 1).with(field_at(n - 1), over[field_at(n - 1)])
    } else {
        overlaid_among(base, over, n - 1)
    }
}

/// `base` with every option that `over` sets replaced by the value that
/// `over` gives it. An option is replaced whole or not at all.
pub open spec fn overlaid(base: AgentConfigView, over: Map<Field, ValueView>) -> AgentConfigView {
    overlaid_among(base, over, FIELD_COUNT as int)
}

/// `base` after each of `sources` was laid over it, the first one first, so
/// that a later source overrides an earlier one.
pub open spec fn merged(
    base: AgentConfigView,
    sources: Seq<Map<Field, ValueView>>,
) -> AgentConfigView
    decreases sources.len(),
{
    if sources.len() == 0 {
        base
    } else {
        overlaid(merged(base, sources.drop_last()), sources.last())
    }
}

/// What each of the sources sets.
pub open spec fn source_views(sources: Seq<EnvConfig>) -> Seq<Map<Field, ValueView>> {
    Seq::new(sources.len(), |i: int| sources[i]@)
}

/// The working directory to look up: the override from outside where it is
/// given and not empty, else the configured one, else the default.
pub open spec fn selected_dir(configured: Seq<char>, outside: Option<Seq<char>>) -> Seq<char> {
    if outside is Some && outside->0.len() > 0 {
        outside->0
    } else if configured.len() > 0 {
        configured
    } else {
        DEFAULT_KEYLIME_DIR@
    }
}

/// The handle of the endorsement key: the keyword `generate` and the empty
/// text both leave it empty, to be found when the agent runs; any other
/// value stands for itself.
pub open spec fn handle(configured: Seq<char>) -> Seq<char> {
    if configured == "generate"@ {
        Seq::empty()
    } else {
        configured
    }
}

/// The default of the revocation certificate, relative to the working
/// directory.
pub open spec fn revocation_cert_default() -> Seq<char> {
    "secure/unzipped/"@ + DEFAULT_REVOCATION_CERT@
}

/// `raw` with its keywords replaced: the working directory is `dir`, the
/// identity is `uuid`, the five file options are expanded from `dir`, and
/// the handle of the endorsement key is settled. Every other option stays.
pub open spec fn translated(
    raw: AgentConfigView,
    dir: Seq<char>,
    uuid: Seq<char>,
) -> AgentConfigView {
    AgentConfigView {
        keylime_dir: dir,
        uuid: uuid,
        server_key: file_path(raw.server_key, dir, DEFAULT_SERVER_KEY@),
        server_cert: file_path(raw.server_cert, dir, DEFAULT_SERVER_CERT@),
        trusted_client_ca: file_path(raw.trusted_client_ca, dir, DEFAULT_TRUSTED_CLIENT_CA@),
        ek_handle: handle(raw.ek_handle),
        agent_data_path: file_path(raw.agent_data_path, dir, DEFAULT_AGENT_DATA_PATH@),
        revocation_cert: file_path(raw.revocation_cert, dir, revocation_cert_default()),
        ..raw
    }
}

/// The first option that revocation notifications need and that is empty,
/// in the order address, certificate, directory of actions. Nothing is
/// asked where the notifications are switched off.
pub open spec fn missing_for_revocation(raw: AgentConfigView) -> Option<Field> {
    if !raw.enable_revocation_notifications {
        None
    } else if raw.revocation_notification_ip.len() == 0 {
        Some(Field::RevocationNotificationIp)
    } else if raw.revocation_cert.len() == 0 {
        Some(Field::RevocationCert)
    } else if raw.revocation_actions_dir.len() == 0 {
        Some(Field::RevocationActionsDir)
    } else {
        None
    }
}

/// The message for an option that revocation notifications need and that
/// is empty.
pub open spec fn validation_message(field: Field) -> Seq<char> {
    "The option 'enable_revocation_notifications' is set as 'true' but '"@ + field.key_text()
        + "' was set as empty"@
}

/// The message for a working directory that is not there.
pub open spec fn dir_message(dir: Seq<char>, cause: Seq<char>) -> Seq<char> {
    "Path "@ + dir + " set in keylime_dir configuration option not found: "@ + cause
}

/// What resolving `raw` gives once the working directory `dir` and the
/// identity `uuid` are known: the message of the check that failed, or the
/// configuration with its keywords replaced.
pub open spec fn resolution(raw: AgentConfigView, dir: Seq<char>, uuid: Seq<char>) -> Result<
    AgentConfigView,
    Seq<char>,
> {
    match missing_for_revocation(raw) {
        Some(field) => Err(validation_message(field)),
        None => Ok(translated(raw, dir, uuid)),
    }
}

/// The result of a run with the configuration as its view and the failure
/// as its message.
pub open spec fn outcome(result: Result<KeylimeConfig, Error>) -> Result<
    AgentConfigView,
    Seq<char>,
> {
    match result {
        Ok(config) => Ok(config@),
        Err(error) => Err(error.message()),
    }
}

/// Whether `result` is what a run on `raw` may end in, the working
/// directory being `dir`: the failure of the check, or `raw` with its
/// keywords replaced, the identity being one that `get_uuid` may give for
/// the configured value.
pub open spec fn is_resolution_of(
    raw: AgentConfigView,
    dir: Seq<char>,
    result: Result<AgentConfigView, Seq<char>>,
) -> bool {
    match result {
        Ok(resolved) => is_uuid_for(raw.uuid, resolved.uuid) && result == resolution(
            raw,
            dir,
            resolved.uuid,
        ),
        Err(message) => missing_for_revocation(raw) is Some && message == validation_message(
            missing_for_revocation(raw)->0,
        ),
    }
}

impl AgentConfig {
    /// This configuration with every option that `overrides` sets replaced
    /// by the value given there.
    pub fn overridden(&self, overrides: &EnvConfig) -> (config: AgentConfig)
        ensures
            config@ == overlaid(self@, overrides@),
    {
        let mut config = self.clone();
        let mut i: usize = 0;
        while i < FIELD_COUNT
            invariant
                0 <= i <= FIELD_COUNT,
                config@ == overlaid_among(self@, overrides@, i as int),
            decreases FIELD_COUNT - i,
        {
            let field = Field::from_index(i);
            match overrides.get(field) {
                Some(value) => {
                    config.set(field, value);
                },
                None => {},
            }
            i += 1;
        }
        config
    }
}

/// The working directory to look up before the keywords are replaced.
/// `outside` is the override that the caller found outside the
/// configuration, if it found one.
pub fn config_keylime_dir(config: &KeylimeConfig, outside: Option<&str>) -> (dir: String)
    ensures
        dir@ == selected_dir(
            config@.keylime_dir,
            match outside {
                Some(d) => Some(d@),
                None => None,
            },
        ),
{
    match outside {
        Some(d) => {
            if !d.is_empty() {
                return d.to_owned();
            }
        },
        None => {},
    }
    if !config.agent.keylime_dir.as_str().is_empty() {
        config.agent.keylime_dir.clone()
    } else {
        DEFAULT_KEYLIME_DIR.to_owned()
    }
}

/// The failure for a working directory `dir` that could not be looked up,
/// `cause` being what the system said of it.
pub fn keylime_dir_not_found(dir: &str, cause: &str) -> (error: Error)
    ensures
        error.message() == dir_message(dir@, cause@),
{
    let message = String::from_str("Path ").concat(dir).concat(
        " set in keylime_dir configuration option not found: ",
    ).concat(cause);
    Error::Configuration(message)
}

/// One entry for `field` where `path` is empty, none where it is not.
pub open spec fn if_unset(path: Seq<char>, field: Field) -> Seq<Field> {
    if path.len() == 0 {
        seq![field]
    } else {
        Seq::empty()
    }
}

/// The file options that are left empty, in the order in which they are
/// expanded. Each of them is read as if it held the keyword `default`.
pub open spec fn unset_paths(raw: AgentConfigView) -> Seq<Field> {
    if_unset(raw.agent_data_path, Field::AgentDataPath) + if_unset(
        raw.server_key,
        Field::ServerKey,
    ) + if_unset(raw.server_cert, Field::ServerCert) + if_unset(
        raw.trusted_client_ca,
        Field::TrustedClientCa,
    ) + if_unset(raw.revocation_cert, Field::RevocationCert)
}

/// The file options of `config` that are left empty and therefore take
/// their defaults, for the caller to warn of them.
pub fn config_unset_paths(config: &KeylimeConfig) -> (unset: Vec<Field>)
    ensures
        unset@ == unset_paths(config@),
{
    let raw = &config.agent;
    let mut unset: Vec<Field> = Vec::new();
    if raw.agent_data_path.as_str().is_empty() {
        unset.push(Field::AgentDataPath);
    }
    if raw.server_key.as_str().is_empty() {
        unset.push(Field::ServerKey);
    }
    if raw.server_cert.as_str().is_empty() {
        unset.push(Field::ServerCert);
    }
    if raw.trusted_client_ca.as_str().is_empty() {
        unset.push(Field::TrustedClientCa);
    }
    if raw.revocation_cert.as_str().is_empty() {
        unset.push(Field::RevocationCert);
    }
    assert(unset@ =~= unset_paths(config@));
    unset
}

/// Checks what revocation notifications need: where they are switched on,
/// the address they come from, the certificate and the directory of the
/// actions must not be empty. The first that is empty, in this order, fails
/// the check.
pub fn config_validate(config: &KeylimeConfig) -> (checked: Result<(), Error>)
    ensures
        match missing_for_revocation(config@) {
            Some(field) => checked matches Err(error) && error.message() == validation_message(
                field,
            ),
            None => checked is Ok,
        },
{
    if !config.agent.enable_revocation_notifications {
        return Ok(());
    }
    let missing = if config.agent.revocation_notification_ip.as_str().is_empty() {
        Field::RevocationNotificationIp
    } else if config.agent.revocation_cert.as_str().is_empty() {
        Field::RevocationCert
    } else if config.agent.revocation_actions_dir.as_str().is_empty() {
        Field::RevocationActionsDir
    } else {
        return Ok(());
    };
    let message = String::from_str(
        "The option 'enable_revocation_notifications' is set as 'true' but '",
    ).concat(missing.key()).concat("' was set as empty");
    Err(Error::Configuration(message))
}

/// Replaces the keywords of `config` and checks it, the working directory
/// and the identity being known: `keylime_dir` is the working directory as
/// the system knows it, `uuid` the identity that the agent has.
pub fn config_resolve(config: &KeylimeConfig, keylime_dir: &str, uuid: String) -> (result: Result<
    KeylimeConfig,
    Error,
>)
    ensures
        outcome(result) == resolution(config@, keylime_dir@, uuid@),
{
    match config_validate(config) {
        Err(error) => {
            return Err(error);
        },
        Ok(_) => {},
    }
    let raw = &config.agent;
    let revocation_default = String::from_str("secure/unzipped/").concat(DEFAULT_REVOCATION_CERT);
    let mut agent = raw.clone();
    agent.agent_data_path = config_get_file_path(
        "agent_data_path",
        raw.agent_data_path.as_str(),
        keylime_dir,
        DEFAULT_AGENT_DATA_PATH,
    );
    agent.server_key = config_get_file_path(
        "server_key",
        raw.server_key.as_str(),
        keylime_dir,
        DEFAULT_SERVER_KEY,
    );
    agent.server_cert = config_get_file_path(
        "server_cert",
        raw.server_cert.as_str(),
        keylime_dir,
        DEFAULT_SERVER_CERT,
    );
    agent.trusted_client_ca = config_get_file_path(
        "trusted_client_ca",
        raw.trusted_client_ca.as_str(),
        keylime_dir,
        DEFAULT_TRUSTED_CLIENT_CA,
    );
    agent.revocation_cert = config_get_file_path(
        "revocation_cert",
        raw.revocation_cert.as_str(),
        keylime_dir,
        revocation_default.as_str(),
    );
    if same_text(raw.ek_handle.as_str(), "generate") {
        proof {
            reveal_strlit("");
        }
        agent.ek_handle = "".to_owned();
        assert(agent.ek_handle@ =~= Seq::<char>::empty());
    }
    agent.keylime_dir = keylime_dir.to_owned();
    agent.uuid = uuid;
    Ok(KeylimeConfig { agent })
}

/// Replaces the options that hold keywords by their final values, and
/// checks the whole. `keylime_dir` is the working directory as the system
/// knows it.
///
/// The run fails where, and only where, revocation notifications are
/// switched on and one of the options they need is empty. Else every option
/// is as `translated` says, the identity being one that `get_uuid` may give
/// for the configured value. What comes out is frozen: its identity is
/// `hash_ek` or a UUID in the canonical form, and it passes the check. With
/// an absolute working directory the five file options are absolute paths.
pub fn config_translate_keywords(config: &KeylimeConfig, keylime_dir: &str) -> (result: Result<
    KeylimeConfig,
    Error,
>)
    ensures
        is_resolution_of(config@, keylime_dir@, outcome(result)),
        result is Err <==> missing_for_revocation(config@) is Some,
        result matches Ok(resolved) ==> is_frozen(resolved@),
        result matches Ok(resolved) ==> (is_absolute(keylime_dir@) ==> has_absolute_paths(
            resolved@,
        )),
{
    let uuid = get_uuid(config.agent.uuid.as_str());
    proof {
        if is_absolute(keylime_dir@) {
            lemma_translated_paths(config@, keylime_dir@, uuid@);
        }
        if missing_for_revocation(config@) is None {
            lemma_translated_is_checked(config@, keylime_dir@, uuid@);
        }
    }
    config_resolve(config, keylime_dir, uuid)
}

/// What holds of every configuration that a run hands out: the identity is
/// `hash_ek` or a UUID in the canonical form, and what revocation
/// notifications need is there where they are switched on.
pub open spec fn is_frozen(config: AgentConfigView) -> bool {
    &&& config.uuid == "hash_ek"@ || is_canonical(config.uuid)
    &&& missing_for_revocation(config) is None
}

/// Replacing the keywords of a configuration that passes the check gives
/// one that passes it too: an expanded path is never empty.
pub proof fn lemma_translated_is_checked(raw: AgentConfigView, dir: Seq<char>, uuid: Seq<char>)
    requires
        missing_for_revocation(raw) is None,
    ensures
        missing_for_revocation(translated(raw, dir, uuid)) is None,
{
    reveal_strlit("secure/unzipped/");
    assert(revocation_cert_default().len() >= "secure/unzipped/"@.len());
}

/// Whether the five file options are absolute paths.
pub open spec fn has_absolute_paths(config: AgentConfigView) -> bool {
    &&& is_absolute(config.server_key)
    &&& is_absolute(config.server_cert)
    &&& is_absolute(config.trusted_client_ca)
    &&& is_absolute(config.agent_data_path)
    &&& is_absolute(config.revocation_cert)
}

/// A path seen from an absolute directory is absolute.
pub proof fn lemma_file_path_is_absolute(path: Seq<char>, dir: Seq<char>, default: Seq<char>)
    requires
        is_absolute(dir),
    ensures
        is_absolute(file_path(path, dir, default)),
{
}

/// With an absolute working directory, the five file options of a
/// configuration whose keywords were replaced are absolute paths.
pub proof fn lemma_translated_paths(raw: AgentConfigView, dir: Seq<char>, uuid: Seq<char>)
    requires
        is_absolute(dir),
    ensures
        has_absolute_paths(translated(raw, dir, uuid)),
{
    lemma_file_path_is_absolute(raw.server_key, dir, DEFAULT_SERVER_KEY@);
    lemma_file_path_is_absolute(raw.server_cert, dir, DEFAULT_SERVER_CERT@);
    lemma_file_path_is_absolute(raw.trusted_client_ca, dir, DEFAULT_TRUSTED_CLIENT_CA@);
    lemma_file_path_is_absolute(raw.agent_data_path, dir, DEFAULT_AGENT_DATA_PATH@);
    lemma_file_path_is_absolute(raw.revocation_cert, dir, revocation_cert_default());
}

/// The default identity is written in the canonical form.
pub proof fn lemma_default_uuid_is_canonical()
    ensures
        is_canonical(DEFAULT_UUID@),
{
    reveal_strlit("d432fbb3-d2f1-4a97-9ef7-75bd81c00000");
}

impl Default for KeylimeConfig {
    /// The defaults of the schema for an agent without root's rights, with
    /// their keywords replaced: the default working directory is taken as
    /// it is written, and the identity is the default one.
    fn default() -> (config: KeylimeConfig)
        ensures
            config@ == translated(
                AgentConfigView::defaults(false),
                DEFAULT_KEYLIME_DIR@,
                DEFAULT_UUID@,
            ),
    {
        let raw = KeylimeConfig { agent: AgentConfig::default() };
        match config_translate_keywords(&raw, DEFAULT_KEYLIME_DIR) {
            Ok(config) => {
                proof {
                    lemma_default_uuid_is_canonical();
                    lemma_canonical_is_lowered(DEFAULT_UUID@);
                    lemma_hyphenated_identity(DEFAULT_UUID@, config@.uuid);
                }
                config
            },
            Err(_) => vstd::pervasive::unreached(),
        }
    }
}

impl KeylimeConfig {
    /// The defaults with each of `sources` laid over them in turn, so that a
    /// later source overrides an earlier one. No keyword is replaced yet.
    pub fn merge(defaults: AgentConfig, sources: &Vec<EnvConfig>) -> (config: KeylimeConfig)
        ensures
            config@ == merged(defaults@, source_views(sources@)),
    {
        let mut agent = defaults;
        let mut i: usize = 0;
        assert(source_views(sources@).take(0) =~= Seq::empty());
        while i < sources.len()
            invariant
                0 <= i <= sources.len(),
                agent@ == merged(defaults@, source_views(sources@).take(i as int)),
            decreases sources.len() - i,
        {
            proof {
                let all = source_views(sources@);
                assert(all.take(i + 1).drop_last() =~= all.take(i as int));
                assert(all.take(i + 1).last() == sources[i as int]@);
            }
            agent = agent.overridden(&sources[i]);
            i += 1;
        }
        assert(source_views(sources@).take(i as int) =~= source_views(sources@));
        KeylimeConfig { agent }
    }

    /// The configuration that the agent runs with: the defaults of the
    /// schema, overridden by each of `sources` in turn, with the keywords
    /// replaced and the whole checked. `privileged` says whether the agent
    /// starts with root's rights; `keylime_dir` is the working directory as
    /// the system knows it.
    pub fn new(privileged: bool, sources: &Vec<EnvConfig>, keylime_dir: &str) -> (result: Result<
        KeylimeConfig,
        Error,
    >)
        ensures
            is_resolution_of(
                merged(AgentConfigView::defaults(privileged), source_views(sources@)),
                keylime_dir@,
                outcome(result),
            ),
            result is Err <==> missing_for_revocation(
                merged(AgentConfigView::defaults(privileged), source_views(sources@)),
            ) is Some,
            result matches Ok(resolved) ==> is_frozen(resolved@),
            result matches Ok(resolved) ==> (is_absolute(keylime_dir@) ==> has_absolute_paths(
                resolved@,
            )),
    {
        let raw = KeylimeConfig::merge(AgentConfig::defaults(privileged), sources);
        config_translate_keywords(&raw, keylime_dir)
    }
}

} // verus!

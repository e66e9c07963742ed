//! The configuration of the agent: every option of the schema with a value.

use vstd::prelude::*;
use crate::schema::{
    field_at, Field, Value, ValueView, CONFIG_VERSION, DEFAULT_ALLOW_PAYLOAD_REVOCATION_ACTIONS,
    DEFAULT_CONTACT_IP, DEFAULT_CONTACT_PORT, DEFAULT_DEC_PAYLOAD_FILE, DEFAULT_EK_HANDLE,
    DEFAULT_ENABLE_AGENT_MTLS, DEFAULT_ENABLE_INSECURE_PAYLOAD,
    DEFAULT_ENABLE_REVOCATION_NOTIFICATIONS, DEFAULT_ENC_KEYNAME, DEFAULT_EXTRACT_PAYLOAD_ZIP,
    DEFAULT_IP, DEFAULT_KEYLIME_DIR, DEFAULT_PAYLOAD_SCRIPT, DEFAULT_PORT, DEFAULT_REGISTRAR_IP,
    DEFAULT_REGISTRAR_PORT, DEFAULT_REVOCATION_ACTIONS, DEFAULT_REVOCATION_ACTIONS_DIR,
    DEFAULT_REVOCATION_NOTIFICATION_IP, DEFAULT_REVOCATION_NOTIFICATION_PORT, DEFAULT_RUN_AS,
    DEFAULT_SECURE_SIZE, DEFAULT_SERVER_KEY_PASSWORD, DEFAULT_TPM_ENCRYPTION_ALG,
    DEFAULT_TPM_HASH_ALG, DEFAULT_TPM_OWNERPASSWORD, DEFAULT_TPM_SIGNING_ALG, DEFAULT_UUID,
    FIELD_COUNT,
};

verus! {

/// The options of the agent, each with its value.
#[derive(Debug, PartialEq)]
pub struct AgentConfig {
    pub version: String,
    pub uuid: String,
    pub ip: String,
    pub port: u32,
    pub contact_ip: String,
    pub contact_port: u32,
    pub registrar_ip: String,
    pub registrar_port: u32,
    pub enable_agent_mtls: bool,
    pub keylime_dir: String,
    pub server_key: String,
    pub server_cert: String,
    pub server_key_password: String,
    pub trusted_client_ca: String,
    pub enc_keyname: String,
    pub dec_payload_file: String,
    pub secure_size: String,
    pub tpm_ownerpassword: String,
    pub extract_payload_zip: bool,
    pub enable_revocation_notifications: bool,
    pub revocation_actions_dir: String,
    pub revocation_notification_ip: String,
    pub revocation_notification_port: u32,
    pub revocation_cert: String,
    pub revocation_actions: String,
    pub payload_script: String,
    pub enable_insecure_payload: bool,
    pub allow_payload_revocation_actions: bool,
    pub tpm_hash_alg: String,
    pub tpm_encryption_alg: String,
    pub tpm_signing_alg: String,
    pub ek_handle: String,
    pub run_as: String,
    pub agent_data_path: String,
}

/// An `AgentConfig` with each text as a sequence of characters.
pub struct AgentConfigView {
    pub version: Seq<char>,
    pub uuid: Seq<char>,
    pub ip: Seq<char>,
    pub port: u32,
    pub contact_ip: Seq<char>,
    pub contact_port: u32,
    pub registrar_ip: Seq<char>,
    pub registrar_port: u32,
    pub enable_agent_mtls: bool,
    pub keylime_dir: Seq<char>,
    pub server_key: Seq<char>,
    pub server_cert: Seq<char>,
    pub server_key_password: Seq<char>,
    pub trusted_client_ca: Seq<char>,
    pub enc_keyname: Seq<char>,
    pub dec_payload_file: Seq<char>,
    pub secure_size: Seq<char>,
    pub tpm_ownerpassword: Seq<char>,
    pub extract_payload_zip: bool,
    pub enable_revocation_notifications: bool,
    pub revocation_actions_dir: Seq<char>,
    pub revocation_notification_ip: Seq<char>,
    pub revocation_notification_port: u32,
    pub revocation_cert: Seq<char>,
    pub revocation_actions: Seq<char>,
    pub payload_script: Seq<char>,
    pub enable_insecure_payload: bool,
    pub allow_payload_revocation_actions: bool,
    pub tpm_hash_alg: Seq<char>,
    pub tpm_encryption_alg: Seq<char>,
    pub tpm_signing_alg: Seq<char>,
    pub ek_handle: Seq<char>,
    pub run_as: Seq<char>,
    pub agent_data_path: Seq<char>,
}

impl View for AgentConfig {
    type V = AgentConfigView;

    open spec fn view(&self) -> AgentConfigView {
        AgentConfigView {
            version: self.version@,
            uuid: self.uuid@,
            ip: self.ip@,
            port: self.port,
            contact_ip: self.contact_ip@,
            contact_port: self.contact_port,
            registrar_ip: self.registrar_ip@,
            registrar_port: self.registrar_port,
            enable_agent_mtls: self.enable_agent_mtls,
            keylime_dir: self.keylime_dir@,
            server_key: self.server_key@,
            server_cert: self.server_cert@,
            server_key_password: self.server_key_password@,
            trusted_client_ca: self.trusted_client_ca@,
            enc_keyname: self.enc_keyname@,
            dec_payload_file: self.dec_payload_file@,
            secure_size: self.secure_size@,
            tpm_ownerpassword: self.tpm_ownerpassword@,
            extract_payload_zip: self.extract_payload_zip,
            enable_revocation_notifications: self.enable_revocation_notifications,
            revocation_actions_dir: self.revocation_actions_dir@,
            revocation_notification_ip: self.revocation_notification_ip@,
            revocation_notification_port: self.revocation_notification_port,
            revocation_cert: self.revocation_cert@,
            revocation_actions: self.revocation_actions@,
            payload_script: self.payload_script@,
            enable_insecure_payload: self.enable_insecure_payload,
            allow_payload_revocation_actions: self.allow_payload_revocation_actions,
            tpm_hash_alg: self.tpm_hash_alg@,
            tpm_encryption_alg: self.tpm_encryption_alg@,
            tpm_signing_alg: self.tpm_signing_alg@,
            ek_handle: self.ek_handle@,
            run_as: self.run_as@,
            agent_data_path: self.agent_data_path@,
        }
    }
}

impl AgentConfigView {
    /// The value of an option.
    pub open spec fn get(self, field: Field) -> ValueView {
        match field {
            Field::Version => ValueView::Str(self.version),
            Field::Uuid => ValueView::Str(self.uuid),
            Field::Ip => ValueView::Str(self.ip),
            Field::Port => ValueView::UInt(self.port),
            Field::ContactIp => ValueView::Str(self.contact_ip),
            Field::ContactPort => ValueView::UInt(self.contact_port),
            Field::RegistrarIp => ValueView::Str(self.registrar_ip),
            Field::RegistrarPort => ValueView::UInt(self.registrar_port),
            Field::EnableAgentMtls => ValueView::Bool(self.enable_agent_mtls),
            Field::KeylimeDir => ValueView::Str(self.keylime_dir),
            Field::ServerKey => ValueView::Str(self.server_key),
            Field::ServerCert => ValueView::Str(self.server_cert),
            Field::ServerKeyPassword => ValueView::Str(self.server_key_password),
            Field::TrustedClientCa => ValueView::Str(self.trusted_client_ca),
            Field::EncKeyname => ValueView::Str(self.enc_keyname),
            Field::DecPayloadFile => ValueView::Str(self.dec_payload_file),
            Field::SecureSize => ValueView::Str(self.secure_size),
            Field::TpmOwnerpassword => ValueView::Str(self.tpm_ownerpassword),
            Field::ExtractPayloadZip => ValueView::Bool(self.extract_payload_zip),
            Field::EnableRevocationNotifications =>
                ValueView::Bool(self.enable_revocation_notifications),
            Field::RevocationActionsDir => ValueView::Str(self.revocation_actions_dir),
            Field::RevocationNotificationIp => ValueView::Str(self.revocation_notification_ip),
            Field::RevocationNotificationPort => ValueView::UInt(self.revocation_notification_port),
            Field::RevocationCert => ValueView::Str(self.revocation_cert),
            Field::RevocationActions => ValueView::Str(self.revocation_actions),
            Field::PayloadScript => ValueView::Str(self.payload_script),
            Field::EnableInsecurePayload => ValueView::Bool(self.enable_insecure_payload),
            Field::AllowPayloadRevocationActions =>
                ValueView::Bool(self.allow_payload_revocation_actions),
            Field::TpmHashAlg => ValueView::Str(self.tpm_hash_alg),
            Field::TpmEncryptionAlg => ValueView::Str(self.tpm_encryption_alg),
            Field::TpmSigningAlg => ValueView::Str(self.tpm_signing_alg),
            Field::EkHandle => ValueView::Str(self.ek_handle),
            Field::RunAs => ValueView::Str(self.run_as),
            Field::AgentDataPath => ValueView::Str(self.agent_data_path),
        }
    }

    /// The configuration with `value` for the option `field`, all others
    /// unchanged. A value of another kind than the option's changes nothing.
    pub open spec fn with(self, field: Field, value: ValueView) -> AgentConfigView {
        match (field, value) {
            (Field::Version, ValueView::Str(s)) => AgentConfigView { version: s, ..self },
            (Field::Uuid, ValueView::Str(s)) => AgentConfigView { uuid: s, ..self },
            (Field::Ip, ValueView::Str(s)) => AgentConfigView { ip: s, ..self },
            (Field::Port, ValueView::UInt(n)) => AgentConfigView { port: n, ..self },
            (Field::ContactIp, ValueView::Str(s)) => AgentConfigView { contact_ip: s, ..self },
            (Field::ContactPort, ValueView::UInt(n)) => AgentConfigView { contact_port: n, ..self },
            (Field::RegistrarIp, ValueView::Str(s)) => AgentConfigView { registrar_ip: s, ..self },
            (Field::RegistrarPort, ValueView::UInt(n)) =>
                AgentConfigView { registrar_port: n, ..self },
            (Field::EnableAgentMtls, ValueView::Bool(b)) =>
                AgentConfigView { enable_agent_mtls: b, ..self },
            (Field::KeylimeDir, ValueView::Str(s)) => AgentConfigView { keylime_dir: s, ..self },
            (Field::ServerKey, ValueView::Str(s)) => AgentConfigView { server_key: s, ..self },
            (Field::ServerCert, ValueView::Str(s)) => AgentConfigView { server_cert: s, ..self },
            (Field::ServerKeyPassword, ValueView::Str(s)) =>
                AgentConfigView { server_key_password: s, ..self },
            (Field::TrustedClientCa, ValueView::Str(s)) =>
                AgentConfigView { trusted_client_ca: s, ..self },
            (Field::EncKeyname, ValueView::Str(s)) => AgentConfigView { enc_keyname: s, ..self },
            (Field::DecPayloadFile, ValueView::Str(s)) =>
                AgentConfigView { dec_payload_file: s, ..self },
            (Field::SecureSize, ValueView::Str(s)) => AgentConfigView { secure_size: s, ..self },
            (Field::TpmOwnerpassword, ValueView::Str(s)) =>
                AgentConfigView { tpm_ownerpassword: s, ..self },
            (Field::ExtractPayloadZip, ValueView::Bool(b)) =>
                AgentConfigView { extract_payload_zip: b, ..self },
            (Field::EnableRevocationNotifications, ValueView::Bool(b)) =>
                AgentConfigView { enable_revocation_notifications: b, ..self },
            (Field::RevocationActionsDir, ValueView::Str(s)) =>
                AgentConfigView { revocation_actions_dir: s, ..self },
            (Field::RevocationNotificationIp, ValueView::Str(s)) =>
                AgentConfigView { revocation_notification_ip: s, ..self },
            (Field::RevocationNotificationPort, ValueView::UInt(n)) =>
                AgentConfigView { revocation_notification_port: n, ..self },
            (Field::RevocationCert, ValueView::Str(s)) =>
                AgentConfigView { revocation_cert: s, ..self },
            (Field::RevocationActions, ValueView::Str(s)) =>
                AgentConfigView { revocation_actions: s, ..self },
            (Field::PayloadScript, ValueView::Str(s)) =>
                AgentConfigView { payload_script: s, ..self },
            (Field::EnableInsecurePayload, ValueView::Bool(b)) =>
                AgentConfigView { enable_insecure_payload: b, ..self },
            (Field::AllowPayloadRevocationActions, ValueView::Bool(b)) =>
                AgentConfigView { allow_payload_revocation_actions: b, ..self },
            (Field::TpmHashAlg, ValueView::Str(s)) => AgentConfigView { tpm_hash_alg: s, ..self },
            (Field::TpmEncryptionAlg, ValueView::Str(s)) =>
                AgentConfigView { tpm_encryption_alg: s, ..self },
            (Field::TpmSigningAlg, ValueView::Str(s)) =>
                AgentConfigView { tpm_signing_alg: s, ..self },
            (Field::EkHandle, ValueView::Str(s)) => AgentConfigView { ek_handle: s, ..self },
            (Field::RunAs, ValueView::Str(s)) => AgentConfigView { run_as: s, ..self },
            (Field::AgentDataPath, ValueView::Str(s)) =>
                AgentConfigView { agent_data_path: s, ..self },
            _ => self,
        }
    }

    /// The defaults of the schema. Only `run_as` depends on `privileged`:
    /// whether the agent starts with root's rights.
    pub open spec fn defaults(privileged: bool) -> AgentConfigView {
        AgentConfigView {
            version: CONFIG_VERSION@,
            uuid: DEFAULT_UUID@,
            ip: DEFAULT_IP@,
            port: DEFAULT_PORT,
            contact_ip: DEFAULT_CONTACT_IP@,
            contact_port: DEFAULT_CONTACT_PORT,
            registrar_ip: DEFAULT_REGISTRAR_IP@,
            registrar_port: DEFAULT_REGISTRAR_PORT,
            enable_agent_mtls: DEFAULT_ENABLE_AGENT_MTLS,
            keylime_dir: DEFAULT_KEYLIME_DIR@,
            server_key: "default"@,
            server_cert: "default"@,
            server_key_password: DEFAULT_SERVER_KEY_PASSWORD@,
            trusted_client_ca: "default"@,
            enc_keyname: DEFAULT_ENC_KEYNAME@,
            dec_payload_file: DEFAULT_DEC_PAYLOAD_FILE@,
            secure_size: DEFAULT_SECURE_SIZE@,
            tpm_ownerpassword: DEFAULT_TPM_OWNERPASSWORD@,
            extract_payload_zip: DEFAULT_EXTRACT_PAYLOAD_ZIP,
            enable_revocation_notifications: DEFAULT_ENABLE_REVOCATION_NOTIFICATIONS,
            revocation_actions_dir: DEFAULT_REVOCATION_ACTIONS_DIR@,
            revocation_notification_ip: DEFAULT_REVOCATION_NOTIFICATION_IP@,
            revocation_notification_port: DEFAULT_REVOCATION_NOTIFICATION_PORT,
            revocation_cert: "default"@,
            revocation_actions: DEFAULT_REVOCATION_ACTIONS@,
            payload_script: DEFAULT_PAYLOAD_SCRIPT@,
            enable_insecure_payload: DEFAULT_ENABLE_INSECURE_PAYLOAD,
            allow_payload_revocation_actions: DEFAULT_ALLOW_PAYLOAD_REVOCATION_ACTIONS,
            tpm_hash_alg: DEFAULT_TPM_HASH_ALG@,
            tpm_encryption_alg: DEFAULT_TPM_ENCRYPTION_ALG@,
            tpm_signing_alg: DEFAULT_TPM_SIGNING_ALG@,
            ek_handle: DEFAULT_EK_HANDLE@,
            run_as: if privileged {
                DEFAULT_RUN_AS@
            } else {
                ""@
            },
            agent_data_path: "default"@,
        }
    }
}

/// Two configurations that agree on every option are the same.
pub proof fn lemma_same_options(a: AgentConfigView, b: AgentConfigView)
    requires
        forall|f: Field| a.get(f) == b.get(f),
    ensures
        a == b,
{
    assert(a.get(Field::Version) == b.get(Field::Version));
    assert(a.get(Field::Uuid) == b.get(Field::Uuid));
    assert(a.get(Field::Ip) == b.get(Field::Ip));
    assert(a.get(Field::Port) == b.get(Field::Port));
    assert(a.get(Field::ContactIp) == b.get(Field::ContactIp));
    assert(a.get(Field::ContactPort) == b.get(Field::ContactPort));
    assert(a.get(Field::RegistrarIp) == b.get(Field::RegistrarIp));
    assert(a.get(Field::RegistrarPort) == b.get(Field::RegistrarPort));
    assert(a.get(Field::EnableAgentMtls) == b.get(Field::EnableAgentMtls));
    assert(a.get(Field::KeylimeDir) == b.get(Field::KeylimeDir));
    assert(a.get(Field::ServerKey) == b.get(Field::ServerKey));
    assert(a.get(Field::ServerCert) == b.get(Field::ServerCert));
    assert(a.get(Field::ServerKeyPassword) == b.get(Field::ServerKeyPassword));
    assert(a.get(Field::TrustedClientCa) == b.get(Field::TrustedClientCa));
    assert(a.get(Field::EncKeyname) == b.get(Field::EncKeyname));
    assert(a.get(Field::DecPayloadFile) == b.get(Field::DecPayloadFile));
    assert(a.get(Field::SecureSize) == b.get(Field::SecureSize));
    assert(a.get(Field::TpmOwnerpassword) == b.get(Field::TpmOwnerpassword));
    assert(a.get(Field::ExtractPayloadZip) == b.get(Field::ExtractPayloadZip));
    assert(a.get(Field::EnableRevocationNotifications)
        == b.get(Field::EnableRevocationNotifications));
    assert(a.get(Field::RevocationActionsDir) == b.get(Field::RevocationActionsDir));
    assert(a.get(Field::RevocationNotificationIp) == b.get(Field::RevocationNotificationIp));
    assert(a.get(Field::RevocationNotificationPort) == b.get(Field::RevocationNotificationPort));
    assert(a.get(Field::RevocationCert) == b.get(Field::RevocationCert));
    assert(a.get(Field::RevocationActions) == b.get(Field::RevocationActions));
    assert(a.get(Field::PayloadScript) == b.get(Field::PayloadScript));
    assert(a.get(Field::EnableInsecurePayload) == b.get(Field::EnableInsecurePayload));
    assert(a.get(Field::AllowPayloadRevocationActions)
        == b.get(Field::AllowPayloadRevocationActions));
    assert(a.get(Field::TpmHashAlg) == b.get(Field::TpmHashAlg));
    assert(a.get(Field::TpmEncryptionAlg) == b.get(Field::TpmEncryptionAlg));
    assert(a.get(Field::TpmSigningAlg) == b.get(Field::TpmSigningAlg));
    assert(a.get(Field::EkHandle) == b.get(Field::EkHandle));
    assert(a.get(Field::RunAs) == b.get(Field::RunAs));
    assert(a.get(Field::AgentDataPath) == b.get(Field::AgentDataPath));
}

/// Giving an option a value of its kind changes that option and no other;
/// a value of another kind changes nothing.
pub proof fn lemma_with_get(config: AgentConfigView, field: Field, value: ValueView, other: Field)
    ensures
        config.with(field, value).get(other) == if other == field && value.kind()
            == field.kind_of() {
            value
        } else {
            config.get(other)
        },
{
    match field {
        Field::Version => {},
        Field::Uuid => {},
        Field::Ip => {},
        Field::Port => {},
        Field::ContactIp => {},
        Field::ContactPort => {},
        Field::RegistrarIp => {},
        Field::RegistrarPort => {},
        Field::EnableAgentMtls => {},
        Field::KeylimeDir => {},
        Field::ServerKey => {},
        Field::ServerCert => {},
        Field::ServerKeyPassword => {},
        Field::TrustedClientCa => {},
        Field::EncKeyname => {},
        Field::DecPayloadFile => {},
        Field::SecureSize => {},
        Field::TpmOwnerpassword => {},
        Field::ExtractPayloadZip => {},
        Field::EnableRevocationNotifications => {},
        Field::RevocationActionsDir => {},
        Field::RevocationNotificationIp => {},
        Field::RevocationNotificationPort => {},
        Field::RevocationCert => {},
        Field::RevocationActions => {},
        Field::PayloadScript => {},
        Field::EnableInsecurePayload => {},
        Field::AllowPayloadRevocationActions => {},
        Field::TpmHashAlg => {},
        Field::TpmEncryptionAlg => {},
        Field::TpmSigningAlg => {},
        Field::EkHandle => {},
        Field::RunAs => {},
        Field::AgentDataPath => {},
    }
}

impl AgentConfig {
    /// The value of an option.
    pub fn get(&self, field: Field) -> (value: Value)
        ensures
            value@ == self@.get(field),
    {
        match field {
            Field::Version => Value::Str(self.version.clone()),
            Field::Uuid => Value::Str(self.uuid.clone()),
            Field::Ip => Value::Str(self.ip.clone()),
            Field::Port => Value::UInt(self.port),
            Field::ContactIp => Value::Str(self.contact_ip.clone()),
            Field::ContactPort => Value::UInt(self.contact_port),
            Field::RegistrarIp => Value::Str(self.registrar_ip.clone()),
            Field::RegistrarPort => Value::UInt(self.registrar_port),
            Field::EnableAgentMtls => Value::Bool(self.enable_agent_mtls),
            Field::KeylimeDir => Value::Str(self.keylime_dir.clone()),
            Field::ServerKey => Value::Str(self.server_key.clone()),
            Field::ServerCert => Value::Str(self.server_cert.clone()),
            Field::ServerKeyPassword => Value::Str(self.server_key_password.clone()),
            Field::TrustedClientCa => Value::Str(self.trusted_client_ca.clone()),
            Field::EncKeyname => Value::Str(self.enc_keyname.clone()),
            Field::DecPayloadFile => Value::Str(self.dec_payload_file.clone()),
            Field::SecureSize => Value::Str(self.secure_size.clone()),
            Field::TpmOwnerpassword => Value::Str(self.tpm_ownerpassword.clone()),
            Field::ExtractPayloadZip => Value::Bool(self.extract_payload_zip),
            Field::EnableRevocationNotifications =>
                Value::Bool(self.enable_revocation_notifications),
            Field::RevocationActionsDir => Value::Str(self.revocation_actions_dir.clone()),
            Field::RevocationNotificationIp => Value::Str(self.revocation_notification_ip.clone()),
            Field::RevocationNotificationPort => Value::UInt(self.revocation_notification_port),
            Field::RevocationCert => Value::Str(self.revocation_cert.clone()),
            Field::RevocationActions => Value::Str(self.revocation_actions.clone()),
            Field::PayloadScript => Value::Str(self.payload_script.clone()),
            Field::EnableInsecurePayload => Value::Bool(self.enable_insecure_payload),
            Field::AllowPayloadRevocationActions =>
                Value::Bool(self.allow_payload_revocation_actions),
            Field::TpmHashAlg => Value::Str(self.tpm_hash_alg.clone()),
            Field::TpmEncryptionAlg => Value::Str(self.tpm_encryption_alg.clone()),
            Field::TpmSigningAlg => Value::Str(self.tpm_signing_alg.clone()),
            Field::EkHandle => Value::Str(self.ek_handle.clone()),
            Field::RunAs => Value::Str(self.run_as.clone()),
            Field::AgentDataPath => Value::Str(self.agent_data_path.clone()),
        }
    }

    /// Gives the option `field` the value `value`, and says whether it did:
    /// a value of another kind than the option's is not taken.
    pub fn set(&mut self, field: Field, value: Value) -> (taken: bool)
        ensures
            taken == (value@.kind() == field.kind_of()),
            final(self)@ == old(self)@.with(field, value@),
    {
        match (field, value) {
            (Field::Version, Value::Str(s)) => {
                self.version = s;
                true
            },
            (Field::Uuid, Value::Str(s)) => {
                self.uuid = s;
                true
            },
            (Field::Ip, Value::Str(s)) => {
                self.ip = s;
                true
            },
            (Field::Port, Value::UInt(n)) => {
                self.port = n;
                true
            },
            (Field::ContactIp, Value::Str(s)) => {
                self.contact_ip = s;
                true
            },
            (Field::ContactPort, Value::UInt(n)) => {
                self.contact_port = n;
                true
            },
            (Field::RegistrarIp, Value::Str(s)) => {
                self.registrar_ip = s;
                true
            },
            (Field::RegistrarPort, Value::UInt(n)) => {
                self.registrar_port = n;
                true
            },
            (Field::EnableAgentMtls, Value::Bool(b)) => {
                self.enable_agent_mtls = b;
                true
            },
            (Field::KeylimeDir, Value::Str(s)) => {
                self.keylime_dir = s;
                true
            },
            (Field::ServerKey, Value::Str(s)) => {
                self.server_key = s;
                true
            },
            (Field::ServerCert, Value::Str(s)) => {
                self.server_cert = s;
                true
            },
            (Field::ServerKeyPassword, Value::Str(s)) => {
                self.server_key_password = s;
                true
            },
            (Field::TrustedClientCa, Value::Str(s)) => {
                self.trusted_client_ca = s;
                true
            },
            (Field::EncKeyname, Value::Str(s)) => {
                self.enc_keyname = s;
                true
            },
            (Field::DecPayloadFile, Value::Str(s)) => {
                self.dec_payload_file = s;
                true
            },
            (Field::SecureSize, Value::Str(s)) => {
                self.secure_size = s;
                true
            },
            (Field::TpmOwnerpassword, Value::Str(s)) => {
                self.tpm_ownerpassword = s;
                true
            },
            (Field::ExtractPayloadZip, Value::Bool(b)) => {
                self.extract_payload_zip = b;
                true
            },
            (Field::EnableRevocationNotifications, Value::Bool(b)) => {
                self.enable_revocation_notifications = b;
                true
            },
            (Field::RevocationActionsDir, Value::Str(s)) => {
                self.revocation_actions_dir = s;
                true
            },
            (Field::RevocationNotificationIp, Value::Str(s)) => {
                self.revocation_notification_ip = s;
                true
            },
            (Field::RevocationNotificationPort, Value::UInt(n)) => {
                self.revocation_notification_port = n;
                true
            },
            (Field::RevocationCert, Value::Str(s)) => {
                self.revocation_cert = s;
                true
            },
            (Field::RevocationActions, Value::Str(s)) => {
                self.revocation_actions = s;
                true
            },
            (Field::PayloadScript, Value::Str(s)) => {
                self.payload_script = s;
                true
            },
            (Field::EnableInsecurePayload, Value::Bool(b)) => {
                self.enable_insecure_payload = b;
                true
            },
            (Field::AllowPayloadRevocationActions, Value::Bool(b)) => {
                self.allow_payload_revocation_actions = b;
                true
            },
            (Field::TpmHashAlg, Value::Str(s)) => {
                self.tpm_hash_alg = s;
                true
            },
            (Field::TpmEncryptionAlg, Value::Str(s)) => {
                self.tpm_encryption_alg = s;
                true
            },
            (Field::TpmSigningAlg, Value::Str(s)) => {
                self.tpm_signing_alg = s;
                true
            },
            (Field::EkHandle, Value::Str(s)) => {
                self.ek_handle = s;
                true
            },
            (Field::RunAs, Value::Str(s)) => {
                self.run_as = s;
                true
            },
            (Field::AgentDataPath, Value::Str(s)) => {
                self.agent_data_path = s;
                true
            },
            _ => false,
        }
    }

    /// The defaults of the schema. Only `run_as` depends on `privileged`:
    /// whether the agent starts with root's rights.
    pub fn defaults(privileged: bool) -> (config: AgentConfig)
        ensures
            config@ == AgentConfigView::defaults(privileged),
    {
        let run_as = if privileged {
            DEFAULT_RUN_AS.to_owned()
        } else {
            "".to_owned()
        };
        AgentConfig {
            version: CONFIG_VERSION.to_owned(),
            uuid: DEFAULT_UUID.to_owned(),
            ip: DEFAULT_IP.to_owned(),
            port: DEFAULT_PORT,
            contact_ip: DEFAULT_CONTACT_IP.to_owned(),
            contact_port: DEFAULT_CONTACT_PORT,
            registrar_ip: DEFAULT_REGISTRAR_IP.to_owned(),
            registrar_port: DEFAULT_REGISTRAR_PORT,
            enable_agent_mtls: DEFAULT_ENABLE_AGENT_MTLS,
            keylime_dir: DEFAULT_KEYLIME_DIR.to_owned(),
            server_key: "default".to_owned(),
            server_cert: "default".to_owned(),
            server_key_password: DEFAULT_SERVER_KEY_PASSWORD.to_owned(),
            trusted_client_ca: "default".to_owned(),
            enc_keyname: DEFAULT_ENC_KEYNAME.to_owned(),
            dec_payload_file: DEFAULT_DEC_PAYLOAD_FILE.to_owned(),
            secure_size: DEFAULT_SECURE_SIZE.to_owned(),
            tpm_ownerpassword: DEFAULT_TPM_OWNERPASSWORD.to_owned(),
            extract_payload_zip: DEFAULT_EXTRACT_PAYLOAD_ZIP,
            enable_revocation_notifications: DEFAULT_ENABLE_REVOCATION_NOTIFICATIONS,
            revocation_actions_dir: DEFAULT_REVOCATION_ACTIONS_DIR.to_owned(),
            revocation_notification_ip: DEFAULT_REVOCATION_NOTIFICATION_IP.to_owned(),
            revocation_notification_port: DEFAULT_REVOCATION_NOTIFICATION_PORT,
            revocation_cert: "default".to_owned(),
            revocation_actions: DEFAULT_REVOCATION_ACTIONS.to_owned(),
            payload_script: DEFAULT_PAYLOAD_SCRIPT.to_owned(),
            enable_insecure_payload: DEFAULT_ENABLE_INSECURE_PAYLOAD,
            allow_payload_revocation_actions: DEFAULT_ALLOW_PAYLOAD_REVOCATION_ACTIONS,
            tpm_hash_alg: DEFAULT_TPM_HASH_ALG.to_owned(),
            tpm_encryption_alg: DEFAULT_TPM_ENCRYPTION_ALG.to_owned(),
            tpm_signing_alg: DEFAULT_TPM_SIGNING_ALG.to_owned(),
            ek_handle: DEFAULT_EK_HANDLE.to_owned(),
            run_as,
            agent_data_path: "default".to_owned(),
        }
    }
}

impl Clone for AgentConfig {
    /// A configuration that holds the same.
    fn clone(&self) -> (copy: AgentConfig)
        ensures
            copy@ == self@,
    {
        AgentConfig {
            version: self.version.clone(),
            uuid: self.uuid.clone(),
            ip: self.ip.clone(),
            port: self.port,
            contact_ip: self.contact_ip.clone(),
            contact_port: self.contact_port,
            registrar_ip: self.registrar_ip.clone(),
            registrar_port: self.registrar_port,
            enable_agent_mtls: self.enable_agent_mtls,
            keylime_dir: self.keylime_dir.clone(),
            server_key: self.server_key.clone(),
            server_cert: self.server_cert.clone(),
            server_key_password: self.server_key_password.clone(),
            trusted_client_ca: self.trusted_client_ca.clone(),
            enc_keyname: self.enc_keyname.clone(),
            dec_payload_file: self.dec_payload_file.clone(),
            secure_size: self.secure_size.clone(),
            tpm_ownerpassword: self.tpm_ownerpassword.clone(),
            extract_payload_zip: self.extract_payload_zip,
            enable_revocation_notifications: self.enable_revocation_notifications,
            revocation_actions_dir: self.revocation_actions_dir.clone(),
            revocation_notification_ip: self.revocation_notification_ip.clone(),
            revocation_notification_port: self.revocation_notification_port,
            revocation_cert: self.revocation_cert.clone(),
            revocation_actions: self.revocation_actions.clone(),
            payload_script: self.payload_script.clone(),
            enable_insecure_payload: self.enable_insecure_payload,
            allow_payload_revocation_actions: self.allow_payload_revocation_actions,
            tpm_hash_alg: self.tpm_hash_alg.clone(),
            tpm_encryption_alg: self.tpm_encryption_alg.clone(),
            tpm_signing_alg: self.tpm_signing_alg.clone(),
            ek_handle: self.ek_handle.clone(),
            run_as: self.run_as.clone(),
            agent_data_path: self.agent_data_path.clone(),
        }
    }
}

impl Default for AgentConfig {
    /// The defaults of the schema for an agent without root's rights.
    fn default() -> (config: AgentConfig)
        ensures
            config@ == AgentConfigView::defaults(false),
    {
        AgentConfig::defaults(false)
    }
}

/// The whole configuration: the one section `agent`.
#[derive(Debug, PartialEq)]
pub struct KeylimeConfig {
    pub agent: AgentConfig,
}

impl View for KeylimeConfig {
    type V = AgentConfigView;

    open spec fn view(&self) -> AgentConfigView {
        self.agent@
    }
}

impl Clone for KeylimeConfig {
    /// A configuration that holds the same.
    fn clone(&self) -> (copy: KeylimeConfig)
        ensures
            copy@ == self@,
    {
        KeylimeConfig { agent: self.agent.clone() }
    }
}

impl KeylimeConfig {
    /// Every option with its name and value, in the order of the schema.
    pub fn collect(&self) -> (entries: Vec<(String, Value)>)
        ensures
            entries.len() == FIELD_COUNT,
            forall|i: int|
                0 <= i < FIELD_COUNT ==> (#[trigger] entries[i]).0@ == field_at(i).key_text()
                    && entries[i].1@ == self@.get(field_at(i)),
    {
        let mut entries: Vec<(String, Value)> = Vec::new();
        let mut i: usize = 0;
        while i < FIELD_COUNT
            invariant
                0 <= i <= FIELD_COUNT,
                entries.len() == i,
                forall|k: int|
                    0 <= k < i ==> (#[trigger] entries[k]).0@ == field_at(k).key_text()
                        && entries[k].1@ == self@.get(field_at(k)),
            decreases FIELD_COUNT - i,
        {
            let field = Field::from_index(i);
            entries.push((field.key().to_owned(), self.agent.get(field)));
            i += 1;
        }
        entries
    }
}

} // verus!

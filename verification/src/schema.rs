//! The schema: every option of the agent, its name, its kind and its default.

use vstd::prelude::*;
use crate::text::{lower_text, same_text};

verus! {

pub const CONFIG_VERSION: &'static str = "2.0";

pub const DEFAULT_UUID: &'static str = "d432fbb3-d2f1-4a97-9ef7-75bd81c00000";

pub const DEFAULT_IP: &'static str = "127.0.0.1";

pub const DEFAULT_PORT: u32 = 9002;

pub const DEFAULT_CONTACT_IP: &'static str = "127.0.0.1";

pub const DEFAULT_CONTACT_PORT: u32 = 9002;

pub const DEFAULT_REGISTRAR_IP: &'static str = "127.0.0.1";

pub const DEFAULT_REGISTRAR_PORT: u32 = 8890;

pub const DEFAULT_ENABLE_AGENT_MTLS: bool = true;

pub const DEFAULT_KEYLIME_DIR: &'static str = "/var/lib/keylime";

pub const DEFAULT_SERVER_KEY: &'static str = "server-private.pem";

pub const DEFAULT_SERVER_CERT: &'static str = "server-cert.crt";

pub const DEFAULT_SERVER_KEY_PASSWORD: &'static str = "";

/// Relative to the working directory.
pub const DEFAULT_TRUSTED_CLIENT_CA: &'static str = "cv_ca/cacert.crt";

pub const DEFAULT_ENC_KEYNAME: &'static str = "derived_tci_key";

pub const DEFAULT_DEC_PAYLOAD_FILE: &'static str = "decrypted_payload";

pub const DEFAULT_SECURE_SIZE: &'static str = "1m";

pub const DEFAULT_TPM_OWNERPASSWORD: &'static str = "";

pub const DEFAULT_EXTRACT_PAYLOAD_ZIP: bool = true;

pub const DEFAULT_ENABLE_REVOCATION_NOTIFICATIONS: bool = false;

pub const DEFAULT_REVOCATION_ACTIONS_DIR: &'static str = "/usr/libexec/keylime";

pub const DEFAULT_REVOCATION_NOTIFICATION_IP: &'static str = "127.0.0.1";

pub const DEFAULT_REVOCATION_NOTIFICATION_PORT: u32 = 8992;

/// The name under which the tenant writes the revocation certificate.
pub const DEFAULT_REVOCATION_CERT: &'static str = "RevocationNotifier-cert.crt";

pub const DEFAULT_REVOCATION_ACTIONS: &'static str = "";

pub const DEFAULT_PAYLOAD_SCRIPT: &'static str = "autorun.sh";

pub const DEFAULT_ENABLE_INSECURE_PAYLOAD: bool = false;

pub const DEFAULT_ALLOW_PAYLOAD_REVOCATION_ACTIONS: bool = true;

pub const DEFAULT_TPM_HASH_ALG: &'static str = "sha256";

pub const DEFAULT_TPM_ENCRYPTION_ALG: &'static str = "rsa";

pub const DEFAULT_TPM_SIGNING_ALG: &'static str = "rsassa";

pub const DEFAULT_EK_HANDLE: &'static str = "generate";

/// The default of `run_as` for an agent that starts with root's rights;
/// for any other the default is empty.
pub const DEFAULT_RUN_AS: &'static str = "keylime:tss";

pub const DEFAULT_AGENT_DATA_PATH: &'static str = "agent_data.json";

pub const DEFAULT_CONFIG: &'static str = "/etc/keylime/agent.conf";

pub const DEFAULT_CONFIG_SYS: &'static str = "/usr/etc/keylime/agent.conf";

/// The number of options in the schema.
pub const FIELD_COUNT: usize = 34;

/// What kind of value an option holds.
#[derive(Clone, Copy, Debug, PartialEq, Eq, Structural)]
pub enum Kind {
    /// Text.
    Str,
    /// A number from 0 to 4294967295.
    UInt,
    /// True or false.
    Bool,
}

/// The value of an option.
#[derive(Debug, PartialEq, Eq)]
pub enum Value {
    Str(String),
    UInt(u32),
    Bool(bool),
}

/// A `Value` with its text as a sequence of characters.
pub enum ValueView {
    Str(Seq<char>),
    UInt(u32),
    Bool(bool),
}

impl ValueView {
    /// The kind of the value.
    pub open spec fn kind(self) -> Kind {
        match self {
            ValueView::Str(_) => Kind::Str,
            ValueView::UInt(_) => Kind::UInt,
            ValueView::Bool(_) => Kind::Bool,
        }
    }
}

impl View for Value {
    type V = ValueView;

    open spec fn view(&self) -> ValueView {
        match self {
            Value::Str(s) => ValueView::Str(s@),
            Value::UInt(n) => ValueView::UInt(*n),
            Value::Bool(b) => ValueView::Bool(*b),
        }
    }
}

impl Clone for Value {
    /// A value that holds the same.
    fn clone(&self) -> (copy: Value)
        ensures
            copy@ == self@,
    {
        match self {
            Value::Str(s) => Value::Str(s.clone()),
            Value::UInt(n) => Value::UInt(*n),
            Value::Bool(b) => Value::Bool(*b),
        }
    }
}

impl DeepView for Value {
    type V = ValueView;

    open spec fn deep_view(&self) -> ValueView {
        self@
    }
}

impl Value {
    /// The kind of the value.
    pub fn kind(&self) -> (kind: Kind)
        ensures
            kind == self@.kind(),
    {
        match self {
            Value::Str(_) => Kind::Str,
            Value::UInt(_) => Kind::UInt,
            Value::Bool(_) => Kind::Bool,
        }
    }
}

/// An option of the agent. The options stand here in the order of the schema.
#[derive(Clone, Copy, Debug, PartialEq, Eq, Structural)]
pub enum Field {
    /// The version of the configuration format.
    Version,
    /// The agent's identity, or one of the keywords `generate` and `hash_ek`.
    Uuid,
    /// The address the agent listens on.
    Ip,
    /// The port the agent listens on.
    Port,
    /// The address under which others reach the agent.
    ContactIp,
    /// The port under which others reach the agent.
    ContactPort,
    /// The address of the registrar.
    RegistrarIp,
    /// The port of the registrar.
    RegistrarPort,
    /// Whether the agent asks its clients for a certificate.
    EnableAgentMtls,
    /// The working directory, from which relative paths are taken.
    KeylimeDir,
    /// The file of the server's private key.
    ServerKey,
    /// The file of the server's certificate.
    ServerCert,
    /// The password of the server's private key.
    ServerKeyPassword,
    /// The file of the certificate authority that client certificates are checked against.
    TrustedClientCa,
    /// The name of the file that receives the derived key.
    EncKeyname,
    /// The name of the file that receives the decrypted payload.
    DecPayloadFile,
    /// The size of the secure mount.
    SecureSize,
    /// The owner password of the TPM.
    TpmOwnerpassword,
    /// Whether a zipped payload is unpacked.
    ExtractPayloadZip,
    /// Whether the agent listens for revocation notifications.
    EnableRevocationNotifications,
    /// The directory of the revocation actions.
    RevocationActionsDir,
    /// The address revocation notifications come from.
    RevocationNotificationIp,
    /// The port revocation notifications come from.
    RevocationNotificationPort,
    /// The file of the certificate that revocation notifications are checked against.
    RevocationCert,
    /// The revocation actions to run, by name.
    RevocationActions,
    /// The script of the payload that is run.
    PayloadScript,
    /// Whether a payload is accepted without a secure mount.
    EnableInsecurePayload,
    /// Whether a payload may bring revocation actions.
    AllowPayloadRevocationActions,
    /// The hash algorithm used with the TPM.
    TpmHashAlg,
    /// The encryption algorithm used with the TPM.
    TpmEncryptionAlg,
    /// The signing algorithm used with the TPM.
    TpmSigningAlg,
    /// The handle of the endorsement key, or the keyword `generate`.
    EkHandle,
    /// The user and group the agent drops to.
    RunAs,
    /// The file in which the agent keeps its state.
    AgentDataPath,
}

impl Field {
    /// The place of the option in the schema, from 0.
    pub open spec fn ord(self) -> int {
        match self {
            Field::Version => 0,
            Field::Uuid => 1,
            Field::Ip => 2,
            Field::Port => 3,
            Field::ContactIp => 4,
            Field::ContactPort => 5,
            Field::RegistrarIp => 6,
            Field::RegistrarPort => 7,
            Field::EnableAgentMtls => 8,
            Field::KeylimeDir => 9,
            Field::ServerKey => 10,
            Field::ServerCert => 11,
            Field::ServerKeyPassword => 12,
            Field::TrustedClientCa => 13,
            Field::EncKeyname => 14,
            Field::DecPayloadFile => 15,
            Field::SecureSize => 16,
            Field::TpmOwnerpassword => 17,
            Field::ExtractPayloadZip => 18,
            Field::EnableRevocationNotifications => 19,
            Field::RevocationActionsDir => 20,
            Field::RevocationNotificationIp => 21,
            Field::RevocationNotificationPort => 22,
            Field::RevocationCert => 23,
            Field::RevocationActions => 24,
            Field::PayloadScript => 25,
            Field::EnableInsecurePayload => 26,
            Field::AllowPayloadRevocationActions => 27,
            Field::TpmHashAlg => 28,
            Field::TpmEncryptionAlg => 29,
            Field::TpmSigningAlg => 30,
            Field::EkHandle => 31,
            Field::RunAs => 32,
            Field::AgentDataPath => 33,
        }
    }

    /// The name of the option, as sources write it.
    pub open spec fn key_text(self) -> Seq<char> {
        match self {
            Field::Version => "version"@,
            Field::Uuid => "uuid"@,
            Field::Ip => "ip"@,
            Field::Port => "port"@,
            Field::ContactIp => "contact_ip"@,
            Field::ContactPort => "contact_port"@,
            Field::RegistrarIp => "registrar_ip"@,
            Field::RegistrarPort => "registrar_port"@,
            Field::EnableAgentMtls => "enable_agent_mtls"@,
            Field::KeylimeDir => "keylime_dir"@,
            Field::ServerKey => "server_key"@,
            Field::ServerCert => "server_cert"@,
            Field::ServerKeyPassword => "server_key_password"@,
            Field::TrustedClientCa => "trusted_client_ca"@,
            Field::EncKeyname => "enc_keyname"@,
            Field::DecPayloadFile => "dec_payload_file"@,
            Field::SecureSize => "secure_size"@,
            Field::TpmOwnerpassword => "tpm_ownerpassword"@,
            Field::ExtractPayloadZip => "extract_payload_zip"@,
            Field::EnableRevocationNotifications => "enable_revocation_notifications"@,
            Field::RevocationActionsDir => "revocation_actions_dir"@,
            Field::RevocationNotificationIp => "revocation_notification_ip"@,
            Field::RevocationNotificationPort => "revocation_notification_port"@,
            Field::RevocationCert => "revocation_cert"@,
            Field::RevocationActions => "revocation_actions"@,
            Field::PayloadScript => "payload_script"@,
            Field::EnableInsecurePayload => "enable_insecure_payload"@,
            Field::AllowPayloadRevocationActions => "allow_payload_revocation_actions"@,
            Field::TpmHashAlg => "tpm_hash_alg"@,
            Field::TpmEncryptionAlg => "tpm_encryption_alg"@,
            Field::TpmSigningAlg => "tpm_signing_alg"@,
            Field::EkHandle => "ek_handle"@,
            Field::RunAs => "run_as"@,
            Field::AgentDataPath => "agent_data_path"@,
        }
    }

    /// The kind of value the option holds.
    pub open spec fn kind_of(self) -> Kind {
        match self {
            Field::Port
            | Field::ContactPort
            | Field::RegistrarPort
            | Field::RevocationNotificationPort => Kind::UInt,
            Field::EnableAgentMtls
            | Field::ExtractPayloadZip
            | Field::EnableRevocationNotifications
            | Field::EnableInsecurePayload
            | Field::AllowPayloadRevocationActions => Kind::Bool,
            _ => Kind::Str,
        }
    }

    /// The option named `key`, if the schema has one of that name.
    pub open spec fn with_key(key: Seq<char>) -> Option<Field> {
        if key == "version"@ {
            Some(Field::Version)
        } else if key == "uuid"@ {
            Some(Field::Uuid)
        } else if key == "ip"@ {
            Some(Field::Ip)
        } else if key == "port"@ {
            Some(Field::Port)
        } else if key == "contact_ip"@ {
            Some(Field::ContactIp)
        } else if key == "contact_port"@ {
            Some(Field::ContactPort)
        } else if key == "registrar_ip"@ {
            Some(Field::RegistrarIp)
        } else if key == "registrar_port"@ {
            Some(Field::RegistrarPort)
        } else if key == "enable_agent_mtls"@ {
            Some(Field::EnableAgentMtls)
        } else if key == "keylime_dir"@ {
            Some(Field::KeylimeDir)
        } else if key == "server_key"@ {
            Some(Field::ServerKey)
        } else if key == "server_cert"@ {
            Some(Field::ServerCert)
        } else if key == "server_key_password"@ {
            Some(Field::ServerKeyPassword)
        } else if key == "trusted_client_ca"@ {
            Some(Field::TrustedClientCa)
        } else if key == "enc_keyname"@ {
            Some(Field::EncKeyname)
        } else if key == "dec_payload_file"@ {
            Some(Field::DecPayloadFile)
        } else if key == "secure_size"@ {
            Some(Field::SecureSize)
        } else if key == "tpm_ownerpassword"@ {
            Some(Field::TpmOwnerpassword)
        } else if key == "extract_payload_zip"@ {
            Some(Field::ExtractPayloadZip)
        } else if key == "enable_revocation_notifications"@ {
            Some(Field::EnableRevocationNotifications)
        } else if key == "revocation_actions_dir"@ {
            Some(Field::RevocationActionsDir)
        } else if key == "revocation_notification_ip"@ {
            Some(Field::RevocationNotificationIp)
        } else if key == "revocation_notification_port"@ {
            Some(Field::RevocationNotificationPort)
        } else if key == "revocation_cert"@ {
            Some(Field::RevocationCert)
        } else if key == "revocation_actions"@ {
            Some(Field::RevocationActions)
        } else if key == "payload_script"@ {
            Some(Field::PayloadScript)
        } else if key == "enable_insecure_payload"@ {
            Some(Field::EnableInsecurePayload)
        } else if key == "allow_payload_revocation_actions"@ {
            Some(Field::AllowPayloadRevocationActions)
        } else if key == "tpm_hash_alg"@ {
            Some(Field::TpmHashAlg)
        } else if key == "tpm_encryption_alg"@ {
            Some(Field::TpmEncryptionAlg)
        } else if key == "tpm_signing_alg"@ {
            Some(Field::TpmSigningAlg)
        } else if key == "ek_handle"@ {
            Some(Field::EkHandle)
        } else if key == "run_as"@ {
            Some(Field::RunAs)
        } else if key == "agent_data_path"@ {
            Some(Field::AgentDataPath)
        } else {
            None
        }
    }

    /// The place of the option in the schema, from 0.
    pub fn index(self) -> (i: usize)
        ensures
            i == self.ord(),
            i < FIELD_COUNT,
    {
        match self {
            Field::Version => 0,
            Field::Uuid => 1,
            Field::Ip => 2,
            Field::Port => 3,
            Field::ContactIp => 4,
            Field::ContactPort => 5,
            Field::RegistrarIp => 6,
            Field::RegistrarPort => 7,
            Field::EnableAgentMtls => 8,
            Field::KeylimeDir => 9,
            Field::ServerKey => 10,
            Field::ServerCert => 11,
            Field::ServerKeyPassword => 12,
            Field::TrustedClientCa => 13,
            Field::EncKeyname => 14,
            Field::DecPayloadFile => 15,
            Field::SecureSize => 16,
            Field::TpmOwnerpassword => 17,
            Field::ExtractPayloadZip => 18,
            Field::EnableRevocationNotifications => 19,
            Field::RevocationActionsDir => 20,
            Field::RevocationNotificationIp => 21,
            Field::RevocationNotificationPort => 22,
            Field::RevocationCert => 23,
            Field::RevocationActions => 24,
            Field::PayloadScript => 25,
            Field::EnableInsecurePayload => 26,
            Field::AllowPayloadRevocationActions => 27,
            Field::TpmHashAlg => 28,
            Field::TpmEncryptionAlg => 29,
            Field::TpmSigningAlg => 30,
            Field::EkHandle => 31,
            Field::RunAs => 32,
            Field::AgentDataPath => 33,
        }
    }

    /// The option at place `i` of the schema; the last one for a place
    /// beyond the schema.
    pub fn from_index(i: usize) -> (field: Field)
        ensures
            field == field_at(i as int),
            i < FIELD_COUNT ==> field.ord() == i,
    {
        match i {
            0 => Field::Version,
            1 => Field::Uuid,
            2 => Field::Ip,
            3 => Field::Port,
            4 => Field::ContactIp,
            5 => Field::ContactPort,
            6 => Field::RegistrarIp,
            7 => Field::RegistrarPort,
            8 => Field::EnableAgentMtls,
            9 => Field::KeylimeDir,
            10 => Field::ServerKey,
            11 => Field::ServerCert,
            12 => Field::ServerKeyPassword,
            13 => Field::TrustedClientCa,
            14 => Field::EncKeyname,
            15 => Field::DecPayloadFile,
            16 => Field::SecureSize,
            17 => Field::TpmOwnerpassword,
            18 => Field::ExtractPayloadZip,
            19 => Field::EnableRevocationNotifications,
            20 => Field::RevocationActionsDir,
            21 => Field::RevocationNotificationIp,
            22 => Field::RevocationNotificationPort,
            23 => Field::RevocationCert,
            24 => Field::RevocationActions,
            25 => Field::PayloadScript,
            26 => Field::EnableInsecurePayload,
            27 => Field::AllowPayloadRevocationActions,
            28 => Field::TpmHashAlg,
            29 => Field::TpmEncryptionAlg,
            30 => Field::TpmSigningAlg,
            31 => Field::EkHandle,
            32 => Field::RunAs,
            _ => Field::AgentDataPath,
        }
    }

    /// The name of the option, as sources write it.
    pub fn key(self) -> (key: &'static str)
        ensures
            key@ == self.key_text(),
    {
        match self {
            Field::Version => "version",
            Field::Uuid => "uuid",
            Field::Ip => "ip",
            Field::Port => "port",
            Field::ContactIp => "contact_ip",
            Field::ContactPort => "contact_port",
            Field::RegistrarIp => "registrar_ip",
            Field::RegistrarPort => "registrar_port",
            Field::EnableAgentMtls => "enable_agent_mtls",
            Field::KeylimeDir => "keylime_dir",
            Field::ServerKey => "server_key",
            Field::ServerCert => "server_cert",
            Field::ServerKeyPassword => "server_key_password",
            Field::TrustedClientCa => "trusted_client_ca",
            Field::EncKeyname => "enc_keyname",
            Field::DecPayloadFile => "dec_payload_file",
            Field::SecureSize => "secure_size",
            Field::TpmOwnerpassword => "tpm_ownerpassword",
            Field::ExtractPayloadZip => "extract_payload_zip",
            Field::EnableRevocationNotifications => "enable_revocation_notifications",
            Field::RevocationActionsDir => "revocation_actions_dir",
            Field::RevocationNotificationIp => "revocation_notification_ip",
            Field::RevocationNotificationPort => "revocation_notification_port",
            Field::RevocationCert => "revocation_cert",
            Field::RevocationActions => "revocation_actions",
            Field::PayloadScript => "payload_script",
            Field::EnableInsecurePayload => "enable_insecure_payload",
            Field::AllowPayloadRevocationActions => "allow_payload_revocation_actions",
            Field::TpmHashAlg => "tpm_hash_alg",
            Field::TpmEncryptionAlg => "tpm_encryption_alg",
            Field::TpmSigningAlg => "tpm_signing_alg",
            Field::EkHandle => "ek_handle",
            Field::RunAs => "run_as",
            Field::AgentDataPath => "agent_data_path",
        }
    }

    /// The kind of value the option holds.
    pub fn kind(self) -> (kind: Kind)
        ensures
            kind == self.kind_of(),
    {
        match self {
            Field::Port
            | Field::ContactPort
            | Field::RegistrarPort
            | Field::RevocationNotificationPort => Kind::UInt,
            Field::EnableAgentMtls
            | Field::ExtractPayloadZip
            | Field::EnableRevocationNotifications
            | Field::EnableInsecurePayload
            | Field::AllowPayloadRevocationActions => Kind::Bool,
            _ => Kind::Str,
        }
    }

    /// The option named `key`, if the schema has one of that name.
    pub fn from_key(key: &str) -> (field: Option<Field>)
        ensures
            field == Field::with_key(key@),
    {
        if same_text(key, "version") {
            Some(Field::Version)
        } else if same_text(key, "uuid") {
            Some(Field::Uuid)
        } else if same_text(key, "ip") {
            Some(Field::Ip)
        } else if same_text(key, "port") {
            Some(Field::Port)
        } else if same_text(key, "contact_ip") {
            Some(Field::ContactIp)
        } else if same_text(key, "contact_port") {
            Some(Field::ContactPort)
        } else if same_text(key, "registrar_ip") {
            Some(Field::RegistrarIp)
        } else if same_text(key, "registrar_port") {
            Some(Field::RegistrarPort)
        } else if same_text(key, "enable_agent_mtls") {
            Some(Field::EnableAgentMtls)
        } else if same_text(key, "keylime_dir") {
            Some(Field::KeylimeDir)
        } else if same_text(key, "server_key") {
            Some(Field::ServerKey)
        } else if same_text(key, "server_cert") {
            Some(Field::ServerCert)
        } else if same_text(key, "server_key_password") {
            Some(Field::ServerKeyPassword)
        } else if same_text(key, "trusted_client_ca") {
            Some(Field::TrustedClientCa)
        } else if same_text(key, "enc_keyname") {
            Some(Field::EncKeyname)
        } else if same_text(key, "dec_payload_file") {
            Some(Field::DecPayloadFile)
        } else if same_text(key, "secure_size") {
            Some(Field::SecureSize)
        } else if same_text(key, "tpm_ownerpassword") {
            Some(Field::TpmOwnerpassword)
        } else if same_text(key, "extract_payload_zip") {
            Some(Field::ExtractPayloadZip)
        } else if same_text(key, "enable_revocation_notifications") {
            Some(Field::EnableRevocationNotifications)
        } else if same_text(key, "revocation_actions_dir") {
            Some(Field::RevocationActionsDir)
        } else if same_text(key, "revocation_notification_ip") {
            Some(Field::RevocationNotificationIp)
        } else if same_text(key, "revocation_notification_port") {
            Some(Field::RevocationNotificationPort)
        } else if same_text(key, "revocation_cert") {
            Some(Field::RevocationCert)
        } else if same_text(key, "revocation_actions") {
            Some(Field::RevocationActions)
        } else if same_text(key, "payload_script") {
            Some(Field::PayloadScript)
        } else if same_text(key, "enable_insecure_payload") {
            Some(Field::EnableInsecurePayload)
        } else if same_text(key, "allow_payload_revocation_actions") {
            Some(Field::AllowPayloadRevocationActions)
        } else if same_text(key, "tpm_hash_alg") {
            Some(Field::TpmHashAlg)
        } else if same_text(key, "tpm_encryption_alg") {
            Some(Field::TpmEncryptionAlg)
        } else if same_text(key, "tpm_signing_alg") {
            Some(Field::TpmSigningAlg)
        } else if same_text(key, "ek_handle") {
            Some(Field::EkHandle)
        } else if same_text(key, "run_as") {
            Some(Field::RunAs)
        } else if same_text(key, "agent_data_path") {
            Some(Field::AgentDataPath)
        } else {
            None
        }
    }
}

/// The option at place `i` of the schema; the last one for a place beyond
/// the schema.
pub open spec fn field_at(i: int) -> Field {
    if i == 0 {
        Field::Version
    } else if i == 1 {
        Field::Uuid
    } else if i == 2 {
        Field::Ip
    } else if i == 3 {
        Field::Port
    } else if i == 4 {
        Field::ContactIp
    } else if i == 5 {
        Field::ContactPort
    } else if i == 6 {
        Field::RegistrarIp
    } else if i == 7 {
        Field::RegistrarPort
    } else if i == 8 {
        Field::EnableAgentMtls
    } else if i == 9 {
        Field::KeylimeDir
    } else if i == 10 {
        Field::ServerKey
    } else if i == 11 {
        Field::ServerCert
    } else if i == 12 {
        Field::ServerKeyPassword
    } else if i == 13 {
        Field::TrustedClientCa
    } else if i == 14 {
        Field::EncKeyname
    } else if i == 15 {
        Field::DecPayloadFile
    } else if i == 16 {
        Field::SecureSize
    } else if i == 17 {
        Field::TpmOwnerpassword
    } else if i == 18 {
        Field::ExtractPayloadZip
    } else if i == 19 {
        Field::EnableRevocationNotifications
    } else if i == 20 {
        Field::RevocationActionsDir
    } else if i == 21 {
        Field::RevocationNotificationIp
    } else if i == 22 {
        Field::RevocationNotificationPort
    } else if i == 23 {
        Field::RevocationCert
    } else if i == 24 {
        Field::RevocationActions
    } else if i == 25 {
        Field::PayloadScript
    } else if i == 26 {
        Field::EnableInsecurePayload
    } else if i == 27 {
        Field::AllowPayloadRevocationActions
    } else if i == 28 {
        Field::TpmHashAlg
    } else if i == 29 {
        Field::TpmEncryptionAlg
    } else if i == 30 {
        Field::TpmSigningAlg
    } else if i == 31 {
        Field::EkHandle
    } else if i == 32 {
        Field::RunAs
    } else {
        Field::AgentDataPath
    }
}

/// No two options share a name: looking up the name of an option gives
/// that option.
pub proof fn lemma_key_names_its_field(field: Field)
    ensures
        Field::with_key(field.key_text()) == Some(field),
{
    reveal_strlit("version");
    reveal_strlit("uuid");
    reveal_strlit("ip");
    reveal_strlit("port");
    reveal_strlit("contact_ip");
    reveal_strlit("contact_port");
    reveal_strlit("registrar_ip");
    reveal_strlit("registrar_port");
    reveal_strlit("enable_agent_mtls");
    reveal_strlit("keylime_dir");
    reveal_strlit("server_key");
    reveal_strlit("server_cert");
    reveal_strlit("server_key_password");
    reveal_strlit("trusted_client_ca");
    reveal_strlit("enc_keyname");
    reveal_strlit("dec_payload_file");
    reveal_strlit("secure_size");
    reveal_strlit("tpm_ownerpassword");
    reveal_strlit("extract_payload_zip");
    reveal_strlit("enable_revocation_notifications");
    reveal_strlit("revocation_actions_dir");
    reveal_strlit("revocation_notification_ip");
    reveal_strlit("revocation_notification_port");
    reveal_strlit("revocation_cert");
    reveal_strlit("revocation_actions");
    reveal_strlit("payload_script");
    reveal_strlit("enable_insecure_payload");
    reveal_strlit("allow_payload_revocation_actions");
    reveal_strlit("tpm_hash_alg");
    reveal_strlit("tpm_encryption_alg");
    reveal_strlit("tpm_signing_alg");
    reveal_strlit("ek_handle");
    reveal_strlit("run_as");
    reveal_strlit("agent_data_path");
    assert("version"@.len() == 7 && "version"@[0] == 'v' && "version"@[6] == 'n');
    assert("uuid"@.len() == 4 && "uuid"@[0] == 'u' && "uuid"@[3] == 'd');
    assert("ip"@.len() == 2 && "ip"@[0] == 'i' && "ip"@[1] == 'p');
    assert("port"@.len() == 4 && "port"@[0] == 'p' && "port"@[3] == 't');
    assert("contact_ip"@.len() == 10 && "contact_ip"@[0] == 'c' && "contact_ip"@[9] == 'p');
    assert("contact_port"@.len() == 12 && "contact_port"@[0] == 'c' && "contact_port"@[11] == 't');
    assert("registrar_ip"@.len() == 12 && "registrar_ip"@[0] == 'r' && "registrar_ip"@[11] == 'p');
    assert("registrar_port"@.len() == 14
        && "registrar_port"@[0] == 'r'
        && "registrar_port"@[13] == 't');
    assert("enable_agent_mtls"@.len() == 17
        && "enable_agent_mtls"@[0] == 'e'
        && "enable_agent_mtls"@[16] == 's');
    assert("keylime_dir"@.len() == 11 && "keylime_dir"@[0] == 'k' && "keylime_dir"@[10] == 'r');
    assert("server_key"@.len() == 10 && "server_key"@[0] == 's' && "server_key"@[9] == 'y');
    assert("server_cert"@.len() == 11 && "server_cert"@[0] == 's' && "server_cert"@[10] == 't');
    assert("server_key_password"@.len() == 19
        && "server_key_password"@[0] == 's'
        && "server_key_password"@[18] == 'd');
    assert("trusted_client_ca"@.len() == 17
        && "trusted_client_ca"@[0] == 't'
        && "trusted_client_ca"@[16] == 'a');
    assert("enc_keyname"@.len() == 11 && "enc_keyname"@[0] == 'e' && "enc_keyname"@[10] == 'e');
    assert("dec_payload_file"@.len() == 16
        && "dec_payload_file"@[0] == 'd'
        && "dec_payload_file"@[15] == 'e');
    assert("secure_size"@.len() == 11 && "secure_size"@[0] == 's' && "secure_size"@[10] == 'e');
    assert("tpm_ownerpassword"@.len() == 17
        && "tpm_ownerpassword"@[0] == 't'
        && "tpm_ownerpassword"@[16] == 'd');
    assert("extract_payload_zip"@.len() == 19
        && "extract_payload_zip"@[0] == 'e'
        && "extract_payload_zip"@[18] == 'p');
    assert("enable_revocation_notifications"@.len() == 31
        && "enable_revocation_notifications"@[0] == 'e'
        && "enable_revocation_notifications"@[30] == 's');
    assert("revocation_actions_dir"@.len() == 22
        && "revocation_actions_dir"@[0] == 'r'
        && "revocation_actions_dir"@[21] == 'r');
    assert("revocation_notification_ip"@.len() == 26
        && "revocation_notification_ip"@[0] == 'r'
        && "revocation_notification_ip"@[25] == 'p');
    assert("revocation_notification_port"@.len() == 28
        && "revocation_notification_port"@[0] == 'r'
        && "revocation_notification_port"@[27] == 't');
    assert("revocation_cert"@.len() == 15
        && "revocation_cert"@[0] == 'r'
        && "revocation_cert"@[14] == 't');
    assert("revocation_actions"@.len() == 18
        && "revocation_actions"@[0] == 'r'
        && "revocation_actions"@[17] == 's');
    assert("payload_script"@.len() == 14
        && "payload_script"@[0] == 'p'
        && "payload_script"@[13] == 't');
    assert("enable_insecure_payload"@.len() == 23
        && "enable_insecure_payload"@[0] == 'e'
        && "enable_insecure_payload"@[22] == 'd');
    assert("allow_payload_revocation_actions"@.len() == 32
        && "allow_payload_revocation_actions"@[0] == 'a'
        && "allow_payload_revocation_actions"@[31] == 's');
    assert("tpm_hash_alg"@.len() == 12 && "tpm_hash_alg"@[0] == 't' && "tpm_hash_alg"@[11] == 'g');
    assert("tpm_encryption_alg"@.len() == 18
        && "tpm_encryption_alg"@[0] == 't'
        && "tpm_encryption_alg"@[17] == 'g');
    assert("tpm_signing_alg"@.len() == 15
        && "tpm_signing_alg"@[0] == 't'
        && "tpm_signing_alg"@[14] == 'g');
    assert("ek_handle"@.len() == 9 && "ek_handle"@[0] == 'e' && "ek_handle"@[8] == 'e');
    assert("run_as"@.len() == 6 && "run_as"@[0] == 'r' && "run_as"@[5] == 's');
    assert("agent_data_path"@.len() == 15
        && "agent_data_path"@[0] == 'a'
        && "agent_data_path"@[14] == 'h');
}

/// The name of an option holds no capital.
pub proof fn lemma_key_is_lowered(field: Field)
    ensures
        lower_text(field.key_text()) == field.key_text(),
{
    reveal_strlit("version");
    reveal_strlit("uuid");
    reveal_strlit("ip");
    reveal_strlit("port");
    reveal_strlit("contact_ip");
    reveal_strlit("contact_port");
    reveal_strlit("registrar_ip");
    reveal_strlit("registrar_port");
    reveal_strlit("enable_agent_mtls");
    reveal_strlit("keylime_dir");
    reveal_strlit("server_key");
    reveal_strlit("server_cert");
    reveal_strlit("server_key_password");
    reveal_strlit("trusted_client_ca");
    reveal_strlit("enc_keyname");
    reveal_strlit("dec_payload_file");
    reveal_strlit("secure_size");
    reveal_strlit("tpm_ownerpassword");
    reveal_strlit("extract_payload_zip");
    reveal_strlit("enable_revocation_notifications");
    reveal_strlit("revocation_actions_dir");
    reveal_strlit("revocation_notification_ip");
    reveal_strlit("revocation_notification_port");
    reveal_strlit("revocation_cert");
    reveal_strlit("revocation_actions");
    reveal_strlit("payload_script");
    reveal_strlit("enable_insecure_payload");
    reveal_strlit("allow_payload_revocation_actions");
    reveal_strlit("tpm_hash_alg");
    reveal_strlit("tpm_encryption_alg");
    reveal_strlit("tpm_signing_alg");
    reveal_strlit("ek_handle");
    reveal_strlit("run_as");
    reveal_strlit("agent_data_path");
    assert(lower_text(field.key_text()) =~= field.key_text());
}

/// The schema numbers its options from 0 to 33, each once.
pub proof fn lemma_field_places()
    ensures
        forall|f: Field| 0 <= #[trigger] f.ord() < FIELD_COUNT && field_at(f.ord()) == f,
        forall|i: int| 0 <= i < FIELD_COUNT ==> (#[trigger] field_at(i)).ord() == i,
{
}

} // verus!

//! The agent's identity: a UUID, written in lower case with hyphens, or the
//! keyword `hash_ek`, which asks for an identity derived later from the
//! endorsement key.

use vstd::prelude::*;
use crate::text::{lower_char, lower_text, same_text};
use uuid::Uuid;

verus! {

/// Whether place `i` of the 36 places of a written UUID holds a hyphen.
pub open spec fn is_hyphen_place(i: int) -> bool {
    i == 8 || i == 13 || i == 18 || i == 23
}

/// Which of the 32 hexadecimal digits stands at place `i`, for a place that
/// holds no hyphen.
pub open spec fn digit_at_place(i: int) -> int {
    if i < 8 {
        i
    } else if i < 13 {
        i - 1
    } else if i < 18 {
        i - 2
    } else if i < 23 {
        i - 3
    } else {
        i - 4
    }
}

/// The place at which digit `k` of the 32 is written.
pub open spec fn place_of_digit(k: int) -> int {
    if k < 8 {
        k
    } else if k < 12 {
        k + 1
    } else if k < 16 {
        k + 2
    } else if k < 20 {
        k + 3
    } else {
        k + 4
    }
}

/// The lower-case hexadecimal digit for a value from 0 to 15.
pub open spec fn hex_digit(n: int) -> char {
    if n < 10 {
        ((48 + n) as u8) as char
    } else {
        ((87 + n) as u8) as char
    }
}

/// Whether `c` is a hexadecimal digit, in either case.
pub open spec fn is_hex(c: char) -> bool {
    ('0' <= c && c <= '9') || ('a' <= c && c <= 'f') || ('A' <= c && c <= 'F')
}

/// Whether `c` is a hexadecimal digit that is no capital.
pub open spec fn is_lower_hex(c: char) -> bool {
    ('0' <= c && c <= '9') || ('a' <= c && c <= 'f')
}

/// The value of a hexadecimal digit.
pub open spec fn hex_value(c: char) -> int {
    if '0' <= c && c <= '9' {
        c as int - 48
    } else if 'a' <= c && c <= 'f' {
        c as int - 87
    } else {
        c as int - 55
    }
}

/// Digit `k` of the 32 half bytes of `bytes`, the high half of each byte first.
pub open spec fn half_byte(bytes: Seq<u8>, k: int) -> int {
    if k % 2 == 0 {
        bytes[k / 2] as int / 16
    } else {
        bytes[k / 2] as int % 16
    }
}

/// The 16 bytes of a UUID as text: 32 lower-case hexadecimal digits in
/// groups of 8, 4, 4, 4 and 12, with a hyphen between the groups.
pub open spec fn uuid_text(bytes: Seq<u8>) -> Seq<char> {
    Seq::new(
        36,
        |i: int|
            if is_hyphen_place(i) {
                '-'
            } else {
                hex_digit(half_byte(bytes, digit_at_place(i)))
            },
    )
}

/// Whether `text` has the hyphenated form: 36 characters, hyphens at the four
/// places between the groups, hexadecimal digits everywhere else.
pub open spec fn is_hyphenated(text: Seq<char>) -> bool {
    &&& text.len() == 36
    &&& forall|i: int|
        0 <= i < 36 ==> if is_hyphen_place(i) {
            text[i] == '-'
        } else {
            is_hex(#[trigger] text[i])
        }
}

/// Whether `text` is a UUID as this crate writes it: hyphenated, no capitals.
pub open spec fn is_canonical(text: Seq<char>) -> bool {
    &&& text.len() == 36
    &&& forall|i: int|
        0 <= i < 36 ==> if is_hyphen_place(i) {
            text[i] == '-'
        } else {
            is_lower_hex(#[trigger] text[i])
        }
}

/// The bytes that a text of the hyphenated form writes down.
pub open spec fn hyphenated_bytes(text: Seq<char>) -> Seq<u8> {
    Seq::new(
        16,
        |j: int|
            (16 * hex_value(text[place_of_digit(2 * j)]) + hex_value(
                text[place_of_digit(2 * j + 1)],
            )) as u8,
    )
}

/// Whether 16 bytes carry the marks of a random UUID: version 4 in the high
/// half of byte 6, and `10` in the two highest bits of byte 8.
pub open spec fn is_random_uuid(bytes: Seq<u8>) -> bool {
    &&& bytes.len() == 16
    &&& bytes[6] as int / 16 == 4
    &&& bytes[8] as int / 64 == 2
}

/// The bytes that `uuid::Uuid::parse_str` reads from `text`, if it accepts it.
pub uninterp spec fn uuid_parse(text: Seq<char>) -> Option<Seq<u8>>;

/// The bytes of the UUID that `text` writes, if it writes one: a text of
/// the hyphenated form writes the bytes that its digits spell, and of any
/// other text `uuid::Uuid::parse_str` decides.
pub open spec fn uuid_bytes(text: Seq<char>) -> Option<Seq<u8>> {
    if is_hyphenated(text) {
        Some(hyphenated_bytes(text))
    } else {
        uuid_parse(text)
    }
}

/// The bytes of an optional array as a sequence.
pub open spec fn bytes_of(bytes: Option<[u8; 16]>) -> Option<Seq<u8>> {
    match bytes {
        Some(b) => Some(b@),
        None => None,
    }
}

/// Calls `uuid::Uuid::parse_str` and hands back the 16 bytes of the UUID it
/// read, taken with `Uuid::into_bytes`, or `None` where it refused the text.
/// The result is a function of the text alone. Of its value the contract
/// states one case: a text of the hyphenated form is accepted, and each byte
/// is made of the two digits that stand for it, the first being the high
/// half. The other forms that the function accepts are not written out.
#[verifier::external_body]
fn parse_uuid(text: &str) -> (bytes: Option<[u8; 16]>)
    ensures
        bytes_of(bytes) == uuid_parse(text@),
        is_hyphenated(text@) ==> bytes_of(bytes) == Some(hyphenated_bytes(text@)),
{
    match Uuid::parse_str(text) {
        Ok(uuid) => Some(uuid.into_bytes()),
        Err(_) => None,
    }
}

/// Makes a `uuid::Uuid` of the bytes with `Uuid::from_bytes` and writes it
/// with `to_string`, that is through its `Display`: 32 hexadecimal digits in
/// lower case, two for each byte and the high half first, with hyphens
/// after the digits 8, 12, 16 and 20.
#[verifier::external_body]
fn format_uuid(bytes: &[u8; 16]) -> (text: String)
    ensures
        text@ == uuid_text(bytes@),
{
    Uuid::from_bytes(*bytes).to_string()
}

/// Calls `uuid::Uuid::new_v4` and hands back the bytes of the new UUID,
/// taken with `Uuid::into_bytes`. Which bytes come back is left open but for
/// the marks of version and variant that the function sets. It draws on the
/// system's random source and panics where that source fails.
#[verifier::external_body]
fn random_uuid() -> (bytes: [u8; 16])
    ensures
        is_random_uuid(bytes@),
{
    Uuid::new_v4().into_bytes()
}

/// Where the identity of the agent comes from.
pub enum Identity {
    /// It is derived later from the endorsement key.
    HashEk,
    /// A new random UUID is drawn.
    Fresh,
    /// It is the UUID with these bytes.
    Given([u8; 16]),
}

/// An `Identity` with the bytes as a sequence.
pub enum IdentityView {
    HashEk,
    Fresh,
    Given(Seq<u8>),
}

impl View for Identity {
    type V = IdentityView;

    open spec fn view(&self) -> IdentityView {
        match self {
            Identity::HashEk => IdentityView::HashEk,
            Identity::Fresh => IdentityView::Fresh,
            Identity::Given(b) => IdentityView::Given(b@),
        }
    }
}

/// The source of the identity for a configured value, `parsed` being what
/// reading the value as a UUID gave. The keyword `hash_ek` keeps its meaning;
/// the keyword `generate` asks for a fresh UUID; any other value counts if it
/// was read as a UUID, and is replaced by a fresh one if not.
pub open spec fn identity_source(configured: Seq<char>, parsed: Option<Seq<u8>>) -> IdentityView {
    if configured == "hash_ek"@ {
        IdentityView::HashEk
    } else if configured == "generate"@ {
        IdentityView::Fresh
    } else {
        match parsed {
            Some(bytes) => IdentityView::Given(bytes),
            None => IdentityView::Fresh,
        }
    }
}

/// Decides where the identity comes from, given the configured value and
/// what reading it as a UUID gave.
pub fn identity_of(configured: &str, parsed: Option<[u8; 16]>) -> (identity: Identity)
    ensures
        identity@ == identity_source(configured@, bytes_of(parsed)),
{
    if same_text(configured, "hash_ek") {
        Identity::HashEk
    } else if same_text(configured, "generate") {
        Identity::Fresh
    } else {
        match parsed {
            Some(bytes) => Identity::Given(bytes),
            None => Identity::Fresh,
        }
    }
}

/// What `get_uuid` may return for a configured value.
pub open spec fn is_uuid_for(configured: Seq<char>, uuid: Seq<char>) -> bool {
    match identity_source(configured, uuid_bytes(configured)) {
        IdentityView::HashEk => uuid == "hash_ek"@,
        IdentityView::Given(bytes) => uuid == uuid_text(bytes),
        IdentityView::Fresh => exists|bytes: Seq<u8>|
            is_random_uuid(bytes) && uuid == uuid_text(bytes),
    }
}

/// Whether the identity for a configured value is drawn at random, so that
/// two runs on the same value need not agree.
pub open spec fn is_random_identity(configured: Seq<char>) -> bool {
    identity_source(configured, uuid_bytes(configured)) == IdentityView::Fresh
}

/// Whether a configured value is meant as a UUID and is none, so that a
/// fresh one takes its place.
pub open spec fn is_misformatted(configured: Seq<char>) -> bool {
    configured != "hash_ek"@ && configured != "generate"@ && uuid_bytes(configured) is None
}

/// Whether `get_uuid` replaces the configured value because it is no UUID,
/// for the caller to warn of it.
pub fn uuid_is_misformatted(agent_uuid_config: &str) -> (misformatted: bool)
    ensures
        misformatted == is_misformatted(agent_uuid_config@),
        misformatted ==> is_random_identity(agent_uuid_config@),
{
    let parsed = parse_uuid(agent_uuid_config);
    !same_text(agent_uuid_config, "hash_ek") && !same_text(agent_uuid_config, "generate")
        && parsed.is_none()
}

/// A half byte written as a digit and read back is itself.
proof fn lemma_hex_digit_value(n: int)
    requires
        0 <= n < 16,
    ensures
        is_lower_hex(hex_digit(n)),
        hex_value(hex_digit(n)) == n,
{
}

/// A digit read as a half byte and written back is the digit in lower case.
proof fn lemma_hex_value_digit(c: char)
    requires
        is_hex(c),
    ensures
        0 <= hex_value(c) < 16,
        hex_digit(hex_value(c)) == lower_char(c),
{
}

/// Every UUID is written in the canonical form.
pub proof fn lemma_uuid_text_is_canonical(bytes: Seq<u8>)
    requires
        bytes.len() == 16,
    ensures
        is_canonical(uuid_text(bytes)),
{
    let text = uuid_text(bytes);
    assert forall|i: int| 0 <= i < 36 implies if is_hyphen_place(i) {
        text[i] == '-'
    } else {
        is_lower_hex(#[trigger] text[i])
    } by {
        if !is_hyphen_place(i) {
            let k = digit_at_place(i);
            lemma_hex_digit_value(half_byte(bytes, k));
        }
    }
}

/// Reading a text of the hyphenated form and writing the bytes again gives
/// the text in lower case.
pub proof fn lemma_hyphenated_text_is_lowered(text: Seq<char>)
    requires
        is_hyphenated(text),
    ensures
        uuid_text(hyphenated_bytes(text)) == lower_text(text),
{
    let bytes = hyphenated_bytes(text);
    let written = uuid_text(bytes);
    assert forall|i: int| 0 <= i < 36 implies written[i] == lower_char(text[i]) by {
        if !is_hyphen_place(i) {
            let k = digit_at_place(i);
            let j = k / 2;
            let high = text[place_of_digit(2 * j)];
            let low = text[place_of_digit(2 * j + 1)];
            assert(is_hex(high));
            assert(is_hex(low));
            lemma_hex_value_digit(high);
            lemma_hex_value_digit(low);
            assert(bytes[j] == 16 * hex_value(high) + hex_value(low));
            assert(place_of_digit(k) == i);
        }
    }
    assert(written =~= lower_text(text));
}

/// A text in the canonical form holds no capital: lowering leaves it as it is.
pub proof fn lemma_canonical_is_lowered(text: Seq<char>)
    requires
        is_canonical(text),
    ensures
        is_hyphenated(text),
        lower_text(text) == text,
{
    assert forall|i: int| 0 <= i < 36 implies if is_hyphen_place(i) {
        text[i] == '-'
    } else {
        is_hex(#[trigger] text[i])
    } by {
        if !is_hyphen_place(i) {
            assert(is_lower_hex(text[i]));
        }
    }
    assert(lower_text(text) =~= text);
}

/// A configured UUID of the hyphenated form is kept, in lower case; one in
/// the canonical form is therefore kept as it is.
pub proof fn lemma_hyphenated_identity(configured: Seq<char>, uuid: Seq<char>)
    requires
        is_hyphenated(configured),
        is_uuid_for(configured, uuid),
    ensures
        !is_random_identity(configured),
        uuid == lower_text(configured),
        is_canonical(configured) ==> uuid == configured,
{
    reveal_strlit("hash_ek");
    reveal_strlit("generate");
    assert("hash_ek"@.len() == 7 && "generate"@.len() == 8);
    lemma_hyphenated_text_is_lowered(configured);
    if is_canonical(configured) {
        lemma_canonical_is_lowered(configured);
    }
}

/// The identity for the configured value: `hash_ek` unchanged, a UUID in its
/// lower-case hyphenated form, or a fresh random UUID where the value asks
/// for one or is no UUID. The result is always `hash_ek` or a UUID in the
/// canonical form.
pub fn get_uuid(agent_uuid_config: &str) -> (uuid: String)
    ensures
        is_uuid_for(agent_uuid_config@, uuid@),
        uuid@ == "hash_ek"@ || is_canonical(uuid@),
{
    let parsed = parse_uuid(agent_uuid_config);
    match identity_of(agent_uuid_config, parsed) {
        Identity::HashEk => "hash_ek".to_owned(),
        Identity::Given(bytes) => {
            proof {
                lemma_uuid_text_is_canonical(bytes@);
            }
            format_uuid(&bytes)
        },
        Identity::Fresh => {
            let bytes = random_uuid();
            proof {
                lemma_uuid_text_is_canonical(bytes@);
            }
            format_uuid(&bytes)
        },
    }
}

} // verus!

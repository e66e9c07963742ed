//! The environment as a source. A variable whose name is `KEYLIME_AGENT_`
//! followed by the name of an option, in capitals or not, overrides that
//! option; its text is read as a value of the option's kind.

use vstd::prelude::*;
use crate::error::Error;
use crate::overrides::{viewed, EnvConfig};
use crate::schema::{
    field_at, lemma_field_places, lemma_key_is_lowered, lemma_key_names_its_field, Field, Kind,
    Value, ValueView, FIELD_COUNT,
};
use crate::text::{lower_char, lower_text, same_text_ignoring_case};

verus! {

/// What the name of every overriding variable starts with.
pub const ENV_PREFIX: &'static str = "KEYLIME_AGENT_";

/// Whether `name` is the name of the variable that overrides `field`.
pub open spec fn names_field(name: Seq<char>, field: Field) -> bool {
    lower_text(name) == lower_text(ENV_PREFIX@ + field.key_text())
}

/// The first of the first `n` options of the schema that `name` names.
pub open spec fn variable_field_among(name: Seq<char>, n: int) -> Option<Field>
    decreases n,
{
    if n <= 0 {
        None
    } else {
        match variable_field_among(name, n - 1) {
            Some(f) => Some(f),
            None => if names_field(name, field_at(n - 1)) {
                Some(field_at(n - 1))
            } else {
                None
            },
        }
    }
}

/// The option that the variable `name` overrides, if it names one.
pub open spec fn variable_field(name: Seq<char>) -> Option<Field> {
    variable_field_among(name, FIELD_COUNT as int)
}

/// An option found among the first `n` is still the one found among more.
proof fn lemma_found_among_more(name: Seq<char>, n: int, m: int)
    requires
        n <= m,
        variable_field_among(name, n) is Some,
    ensures
        variable_field_among(name, m) == variable_field_among(name, n),
    decreases m - n,
{
    if n < m {
        lemma_found_among_more(name, n, m - 1);
    }
}

/// The first option found among some is one that the variable names, and
/// where none is found, the variable names none of them.
proof fn lemma_variable_field_among(name: Seq<char>, n: int)
    requires
        0 <= n <= FIELD_COUNT,
    ensures
        variable_field_among(name, n) matches Some(f) ==> names_field(name, f),
        variable_field_among(name, n) is None ==> forall|f: Field|
            f.ord() < n ==> !names_field(name, f),
    decreases n,
{
    lemma_field_places();
    if n > 0 {
        lemma_variable_field_among(name, n - 1);
    }
}

/// A variable names one option at most.
pub proof fn lemma_variable_names_one_field(name: Seq<char>, first: Field, second: Field)
    requires
        names_field(name, first),
        names_field(name, second),
    ensures
        first == second,
{
    let a = ENV_PREFIX@ + first.key_text();
    let b = ENV_PREFIX@ + second.key_text();
    lemma_key_is_lowered(first);
    lemma_key_is_lowered(second);
    assert(lower_text(a).len() == lower_text(b).len());
    assert forall|i: int| 0 <= i < first.key_text().len() implies first.key_text()[i]
        == second.key_text()[i] by {
        let at = ENV_PREFIX@.len() + i;
        assert(lower_text(a)[at] == lower_text(b)[at]);
        assert(a[at] == first.key_text()[i]);
        assert(b[at] == second.key_text()[i]);
        assert(lower_text(first.key_text())[i] == lower_char(first.key_text()[i]));
        assert(lower_text(second.key_text())[i] == lower_char(second.key_text()[i]));
    }
    assert(first.key_text() =~= second.key_text());
    lemma_key_names_its_field(first);
    lemma_key_names_its_field(second);
}

/// The option that a variable overrides is the one that its name names.
pub proof fn lemma_variable_field(name: Seq<char>, field: Field)
    ensures
        variable_field(name) == Some(field) <==> names_field(name, field),
{
    lemma_field_places();
    lemma_variable_field_among(name, FIELD_COUNT as int);
    if names_field(name, field) {
        let found = variable_field(name)->0;
        lemma_variable_names_one_field(name, field, found);
    }
}

/// The option that the variable `name` overrides, if it names one.
pub fn field_of_variable(name: &str) -> (field: Option<Field>)
    ensures
        field == variable_field(name@),
{
    let mut i: usize = 0;
    while i < FIELD_COUNT
        invariant
            0 <= i <= FIELD_COUNT,
            variable_field_among(name@, i as int) is None,
        decreases FIELD_COUNT - i,
    {
        let field = Field::from_index(i);
        let expected = String::from_str(ENV_PREFIX).concat(field.key());
        if same_text_ignoring_case(name, expected.as_str()) {
            proof {
                lemma_found_among_more(name@, i + 1, FIELD_COUNT as int);
            }
            return Some(field);
        }
        i += 1;
    }
    None
}

/// Whether `text` is written in decimal digits, and in at least one.
pub open spec fn is_decimal(text: Seq<char>) -> bool {
    &&& text.len() > 0
    &&& forall|i: int| 0 <= i < text.len() ==> '0' <= #[trigger] text[i] && text[i] <= '9'
}

/// The number that decimal digits write.
pub open spec fn decimal_value(text: Seq<char>) -> nat
    decreases text.len(),
{
    if text.len() == 0 {
        0
    } else {
        decimal_value(text.drop_last()) * 10 + (text.last() as int - 48) as nat
    }
}

/// Whether `text` is one of the words that stand for true.
pub open spec fn is_true_word(text: Seq<char>) -> bool {
    text == "1"@ || text == "true"@ || text == "on"@ || text == "yes"@
}

/// Whether `text` is one of the words that stand for false.
pub open spec fn is_false_word(text: Seq<char>) -> bool {
    text == "0"@ || text == "false"@ || text == "off"@ || text == "no"@
}

/// The number that `config::Value::into_uint` reads from a text value.
pub uninterp spec fn config_uint(text: Seq<char>) -> Option<u64>;

/// The flag that `config::Value::into_bool` reads from a text value.
pub uninterp spec fn config_bool(text: Seq<char>) -> Option<bool>;

/// Makes a text value of the `config` crate with `Value::from` and calls
/// its `into_uint`: the number that the crate reads from the text, or `None`
/// where it reads none. The result is a function of the text alone. Of its
/// value the contract states one case: decimal digits that write a number
/// of 64 bits are read as that number. What else the function reads as a
/// number is not written out.
#[verifier::external_body]
fn text_as_uint(text: &str) -> (number: Option<u64>)
    ensures
        number == config_uint(text@),
        is_decimal(text@) && decimal_value(text@) <= u64::MAX ==> number == Some(
            decimal_value(text@) as u64,
        ),
{
    ::config::Value::from(text).into_uint().ok()
}

/// Makes a text value of the `config` crate with `Value::from` and calls
/// its `into_bool`: the flag that the crate reads from the text, or `None`
/// where it reads none. The result is a function of the text alone. Of its
/// value the contract states the words that the function knows, in capitals
/// or not: `1`, `true`, `on` and `yes` are read as true, `0`, `false`, `off`
/// and `no` as false. That it reads no other text is not stated.
#[verifier::external_body]
fn text_as_bool(text: &str) -> (flag: Option<bool>)
    ensures
        flag == config_bool(text@),
        is_true_word(lower_text(text@)) ==> flag == Some(true),
        is_false_word(lower_text(text@)) ==> flag == Some(false),
{
    ::config::Value::from(text).into_bool().ok()
}

/// A number that was read, as the value of an option: it must fit in 32 bits.
pub open spec fn as_number(number: Option<u64>) -> Option<ValueView> {
    match number {
        Some(n) => if n <= u32::MAX {
            Some(ValueView::UInt(n as u32))
        } else {
            None
        },
        None => None,
    }
}

/// A flag that was read, as the value of an option.
pub open spec fn as_flag(flag: Option<bool>) -> Option<ValueView> {
    match flag {
        Some(b) => Some(ValueView::Bool(b)),
        None => None,
    }
}

/// The number that `text` stands for, if it stands for one: decimal digits
/// stand for the number they write, and of any other text the `config`
/// crate decides.
pub open spec fn text_number(text: Seq<char>) -> Option<u64> {
    if is_decimal(text) && decimal_value(text) <= u64::MAX {
        Some(decimal_value(text) as u64)
    } else {
        config_uint(text)
    }
}

/// The flag that `text` stands for, if it stands for one: the words for
/// true and false stand for that, in capitals or not, and of any other text
/// the `config` crate decides.
pub open spec fn text_flag(text: Seq<char>) -> Option<bool> {
    if is_true_word(lower_text(text)) {
        Some(true)
    } else if is_false_word(lower_text(text)) {
        Some(false)
    } else {
        config_bool(text)
    }
}

/// The value of kind `kind` that `text` stands for, if it stands for one.
/// Any text is a text value; a number must fit in 32 bits.
pub open spec fn coerced(kind: Kind, text: Seq<char>) -> Option<ValueView> {
    match kind {
        Kind::Str => Some(ValueView::Str(text)),
        Kind::UInt => as_number(text_number(text)),
        Kind::Bool => as_flag(text_flag(text)),
    }
}

/// The value of a numeric option for a number that was read from text, if
/// one was read and the option can hold it.
pub fn number_value(number: Option<u64>) -> (value: Option<Value>)
    ensures
        viewed(value) == as_number(number),
{
    match number {
        Some(n) => if n <= 0xffff_ffff {
            Some(Value::UInt(n as u32))
        } else {
            None
        },
        None => None,
    }
}

/// The value of a flag option for a flag that was read from text, if one
/// was read.
pub fn flag_value(flag: Option<bool>) -> (value: Option<Value>)
    ensures
        viewed(value) == as_flag(flag),
{
    match flag {
        Some(b) => Some(Value::Bool(b)),
        None => None,
    }
}

/// Reads `text` as a value of kind `kind`.
pub fn coerce(kind: Kind, text: &str) -> (value: Option<Value>)
    ensures
        viewed(value) == coerced(kind, text@),
        value matches Some(v) ==> v@.kind() == kind,
{
    match kind {
        Kind::Str => Some(Value::Str(text.to_owned())),
        Kind::UInt => number_value(text_as_uint(text)),
        Kind::Bool => flag_value(text_as_bool(text)),
    }
}

/// What a value of the kind is called in a message.
pub open spec fn kind_phrase(kind: Kind) -> Seq<char> {
    match kind {
        Kind::Str => "a text"@,
        Kind::UInt => "an unsigned integer of 32 bits"@,
        Kind::Bool => "a boolean"@,
    }
}

/// The message for a variable whose text is no value of the kind asked for.
pub open spec fn coercion_message(name: Seq<char>, kind: Kind) -> Seq<char> {
    "The environment variable '"@ + name + "' does not hold "@ + kind_phrase(kind)
}

/// The failure for a variable whose text is no value of the kind asked for.
pub fn coercion_error(name: &str, kind: Kind) -> (error: Error)
    ensures
        error.message() == coercion_message(name@, kind),
{
    let phrase = match kind {
        Kind::Str => "a text",
        Kind::UInt => "an unsigned integer of 32 bits",
        Kind::Bool => "a boolean",
    };
    let message = String::from_str("The environment variable '").concat(name).concat(
        "' does not hold ",
    ).concat(phrase);
    Error::Configuration(message)
}

/// What the variables of the environment, taken in their order, override:
/// the options with their values, or the first variable that names an option
/// and whose text is no value of the option's kind, with that kind. A
/// variable that names no option is passed over; where two name the same
/// option, the later one counts.
pub open spec fn environment_overrides(vars: Seq<(Seq<char>, Seq<char>)>) -> Result<
    Map<Field, ValueView>,
    (Seq<char>, Kind),
>
    decreases vars.len(),
{
    if vars.len() == 0 {
        Ok(Map::empty())
    } else {
        match environment_overrides(vars.drop_last()) {
            Err(failure) => Err(failure),
            Ok(options) => match variable_field(vars.last().0) {
                None => Ok(options),
                Some(field) => match coerced(field.kind_of(), vars.last().1) {
                    Some(value) => Ok(options.insert(field, value)),
                    None => Err((vars.last().0, field.kind_of())),
                },
            },
        }
    }
}

/// The overrides that the environment holds. `vars` are its variables, each
/// with its name and its text. The run fails on the first variable that
/// names an option and whose text cannot be read as a value of the option's
/// kind; the message names the variable.
pub fn config_get_env_setting(vars: &Vec<(String, String)>) -> (overrides: Result<EnvConfig, Error>)
    ensures
        match environment_overrides(vars.deep_view()) {
            Ok(options) => overrides matches Ok(env) && env@ == options,
            Err((name, kind)) => overrides matches Err(error) && error.message()
                == coercion_message(name, kind),
        },
{
    let mut env = EnvConfig::new();
    let mut i: usize = 0;
    assert(vars.deep_view().take(0) =~= Seq::empty());
    while i < vars.len()
        invariant
            0 <= i <= vars.len(),
            environment_overrides(vars.deep_view().take(i as int)) == Ok::<
                Map<Field, ValueView>,
                (Seq<char>, Kind),
            >(env@),
        decreases vars.len() - i,
    {
        let name = vars[i].0.as_str();
        let text = vars[i].1.as_str();
        proof {
            let all = vars.deep_view();
            assert(all.take(i + 1).drop_last() =~= all.take(i as int));
            assert(all.take(i + 1).last() == (name@, text@));
            if i + 1 < vars.len() {
                lemma_failure_stays(all, i + 1);
            } else {
                assert(all.take(i + 1) =~= all);
            }
        }
        match field_of_variable(name) {
            None => {},
            Some(field) => match coerce(field.kind(), text) {
                Some(value) => {
                    env.set(field, value);
                },
                None => {
                    return Err(coercion_error(name, field.kind()));
                },
            },
        }
        i += 1;
    }
    assert(vars.deep_view().take(i as int) =~= vars.deep_view());
    Ok(env)
}

/// A failure among the first `n` variables is the failure of the whole.
proof fn lemma_failure_stays(vars: Seq<(Seq<char>, Seq<char>)>, n: int)
    requires
        0 <= n <= vars.len(),
    ensures
        environment_overrides(vars.take(n)) is Err ==> environment_overrides(vars)
            == environment_overrides(vars.take(n)),
    decreases vars.len() - n,
{
    if n < vars.len() {
        lemma_failure_stays(vars, n + 1);
        assert(vars.take(n + 1).drop_last() =~= vars.take(n));
    } else {
        assert(vars.take(n) =~= vars);
    }
}

} // verus!

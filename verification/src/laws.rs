//! What holds of every run, whatever the sources say.

use vstd::prelude::*;
use crate::config::{lemma_same_options, lemma_with_get, AgentConfigView};
use crate::environment::{coerced, environment_overrides, variable_field};
use crate::identity::is_random_identity;
use crate::overrides::well_kinded;
use crate::resolve::{is_resolution_of, merged, overlaid, overlaid_among};
use crate::schema::{field_at, lemma_field_places, Field, Kind, ValueView, FIELD_COUNT};

verus! {

/// Laying a source over a configuration touches one option at a time: after
/// the first `n` options, an option among them that the source sets, with a
/// value of its kind, has the source's value; every other option is as it
/// was.
pub proof fn lemma_overlaid_among(
    base: AgentConfigView,
    over: Map<Field, ValueView>,
    n: int,
    field: Field,
)
    requires
        0 <= n <= FIELD_COUNT,
    ensures
        overlaid_among(base, over, n).get(field) == if field.ord() < n && over.contains_key(field)
            && over[field].kind() == field.kind_of() {
            over[field]
        } else {
            base.get(field)
        },
    decreases n,
{
    lemma_field_places();
    if n > 0 {
        lemma_overlaid_among(base, over, n - 1, field);
        let at = field_at(n - 1);
        if over.contains_key(at) {
            lemma_with_get(overlaid_among(base, over, n - 1), at, over[at], field);
        }
    }
}

/// An option of a configuration with a source laid over it has the value
/// that the source gives it, where the source sets it, and else the value
/// it had.
pub proof fn lemma_overlaid(base: AgentConfigView, over: Map<Field, ValueView>, field: Field)
    requires
        well_kinded(over),
    ensures
        overlaid(base, over).get(field) == if over.contains_key(field) {
            over[field]
        } else {
            base.get(field)
        },
{
    lemma_field_places();
    lemma_overlaid_among(base, over, FIELD_COUNT as int, field);
}

/// Precedence. A value that a source gives to an option wins over what any
/// source below it gives to the same option, whatever the values are: the
/// merged configuration has, for each option, the value of the highest
/// source that sets it.
pub proof fn lemma_precedence(
    base: AgentConfigView,
    sources: Seq<Map<Field, ValueView>>,
    field: Field,
    highest: int,
)
    requires
        forall|i: int| 0 <= i < sources.len() ==> well_kinded(#[trigger] sources[i]),
        0 <= highest < sources.len(),
        sources[highest].contains_key(field),
        forall|i: int| highest < i < sources.len() ==> !(#[trigger] sources[i]).contains_key(field),
    ensures
        merged(base, sources).get(field) == sources[highest][field],
    decreases sources.len(),
{
    let below = sources.drop_last();
    lemma_overlaid(merged(base, below), sources.last(), field);
    if highest < sources.len() - 1 {
        lemma_precedence(base, below, field, highest);
    }
}

/// An option that no source sets keeps its default.
pub proof fn lemma_unset_keeps_default(
    base: AgentConfigView,
    sources: Seq<Map<Field, ValueView>>,
    field: Field,
)
    requires
        forall|i: int| 0 <= i < sources.len() ==> well_kinded(#[trigger] sources[i]),
        forall|i: int| 0 <= i < sources.len() ==> !(#[trigger] sources[i]).contains_key(field),
    ensures
        merged(base, sources).get(field) == base.get(field),
    decreases sources.len(),
{
    if sources.len() > 0 {
        let below = sources.drop_last();
        lemma_overlaid(merged(base, below), sources.last(), field);
        lemma_unset_keeps_default(base, below, field);
    }
}

/// What lies below the highest source that sets an option has no part in
/// the option's value: two lists of sources that agree from that source on
/// give the option the same value, over any defaults.
pub proof fn lemma_lower_sources_do_not_count(
    first_base: AgentConfigView,
    second_base: AgentConfigView,
    first: Seq<Map<Field, ValueView>>,
    second: Seq<Map<Field, ValueView>>,
    field: Field,
    highest: int,
)
    requires
        first.len() == second.len(),
        forall|i: int| 0 <= i < first.len() ==> well_kinded(#[trigger] first[i]),
        forall|i: int| 0 <= i < second.len() ==> well_kinded(#[trigger] second[i]),
        0 <= highest < first.len(),
        forall|i: int| highest <= i < first.len() ==> #[trigger] first[i] == second[i],
        first[highest].contains_key(field),
    ensures
        merged(first_base, first).get(field) == merged(second_base, second).get(field),
    decreases first.len(),
{
    let last = first.len() - 1;
    assert(first[last] == second[last]);
    lemma_overlaid(merged(first_base, first.drop_last()), first.last(), field);
    lemma_overlaid(merged(second_base, second.drop_last()), second.last(), field);
    if !first[last].contains_key(field) {
        lemma_lower_sources_do_not_count(
            first_base,
            second_base,
            first.drop_last(),
            second.drop_last(),
            field,
            highest,
        );
    }
}

/// Sources that set nothing leave the defaults as they are.
pub proof fn lemma_merge_of_nothing(base: AgentConfigView, sources: Seq<Map<Field, ValueView>>)
    requires
        forall|i: int| 0 <= i < sources.len() ==> #[trigger] sources[i] == Map::<
            Field,
            ValueView,
        >::empty(),
    ensures
        merged(base, sources) == base,
    decreases sources.len(),
{
    if sources.len() > 0 {
        lemma_merge_of_nothing(base, sources.drop_last());
        let below = merged(base, sources.drop_last());
        assert forall|f: Field| overlaid(below, sources.last()).get(f) == below.get(f) by {
            lemma_overlaid(below, sources.last(), f);
        }
        lemma_same_options(overlaid(below, sources.last()), below);
    }
}

/// An environment without variables overrides nothing.
pub proof fn lemma_empty_environment()
    ensures
        environment_overrides(Seq::empty()) == Ok::<Map<Field, ValueView>, (Seq<char>, Kind)>(
            Map::empty(),
        ),
{
}

/// Variables that name no option override nothing.
pub proof fn lemma_foreign_variables(vars: Seq<(Seq<char>, Seq<char>)>)
    requires
        forall|i: int| 0 <= i < vars.len() ==> variable_field((#[trigger] vars[i]).0) is None,
    ensures
        environment_overrides(vars) == Ok::<Map<Field, ValueView>, (Seq<char>, Kind)>(
            Map::empty(),
        ),
    decreases vars.len(),
{
    if vars.len() > 0 {
        lemma_foreign_variables(vars.drop_last());
        assert(vars.last() == vars[vars.len() - 1]);
    }
}

/// Default soundness. With no file and no override, a run ends as replacing
/// the keywords of the defaults does: where no source sets anything, what
/// may come of the merged configuration is what may come of the defaults.
pub proof fn lemma_default_soundness(
    privileged: bool,
    sources: Seq<Map<Field, ValueView>>,
    dir: Seq<char>,
    result: Result<AgentConfigView, Seq<char>>,
)
    requires
        forall|i: int| 0 <= i < sources.len() ==> #[trigger] sources[i] == Map::<
            Field,
            ValueView,
        >::empty(),
    ensures
        is_resolution_of(merged(AgentConfigView::defaults(privileged), sources), dir, result)
            == is_resolution_of(AgentConfigView::defaults(privileged), dir, result),
{
    lemma_merge_of_nothing(AgentConfigView::defaults(privileged), sources);
}

/// One override. A single source that sets a single option gives the
/// defaults with that option replaced and nothing else changed.
pub proof fn lemma_single_override(base: AgentConfigView, field: Field, value: ValueView)
    requires
        value.kind() == field.kind_of(),
    ensures
        merged(base, seq![Map::<Field, ValueView>::empty().insert(field, value)]) == base.with(
            field,
            value,
        ),
        forall|other: Field|
            other != field ==> base.with(field, value).get(other) == base.get(other),
        base.with(field, value).get(field) == value,
{
    let over = Map::<Field, ValueView>::empty().insert(field, value);
    let sources = seq![over];
    assert(sources.drop_last() =~= Seq::empty());
    assert(sources.last() == over);
    assert(merged(base, sources.drop_last()) == base);
    assert(well_kinded(over));
    assert forall|f: Field| overlaid(base, over).get(f) == base.with(field, value).get(f) by {
        lemma_overlaid(base, over, f);
    }
    lemma_same_options(overlaid(base, over), base.with(field, value));
}

/// One override from the environment. A single variable that names an
/// option, with a text that can be read as a value of the option's kind,
/// gives the defaults with that option replaced and nothing else changed.
pub proof fn lemma_one_variable(
    base: AgentConfigView,
    name: Seq<char>,
    text: Seq<char>,
    field: Field,
    value: ValueView,
)
    requires
        variable_field(name) == Some(field),
        coerced(field.kind_of(), text) == Some(value),
    ensures
        environment_overrides(seq![(name, text)]) == Ok::<
            Map<Field, ValueView>,
            (Seq<char>, Kind),
        >(Map::empty().insert(field, value)),
        merged(base, seq![Map::<Field, ValueView>::empty().insert(field, value)]) == base.with(
            field,
            value,
        ),
{
    let vars = seq![(name, text)];
    assert(vars.drop_last() =~= Seq::empty());
    assert(vars.last() == (name, text));
    assert(environment_overrides(vars.drop_last()) == Ok::<
        Map<Field, ValueView>,
        (Seq<char>, Kind),
    >(Map::empty()));
    lemma_single_override(base, field, value);
}

/// Conditional validation. A run fails where revocation notifications are
/// switched on and one of the three options they need is empty, and nowhere
/// else: with the notifications switched off, the same empty values pass.
pub proof fn lemma_conditional_validation(
    raw: AgentConfigView,
    dir: Seq<char>,
    result: Result<AgentConfigView, Seq<char>>,
)
    requires
        is_resolution_of(raw, dir, result),
    ensures
        result is Err <==> raw.enable_revocation_notifications && (
        raw.revocation_notification_ip.len() == 0 || raw.revocation_cert.len() == 0
            || raw.revocation_actions_dir.len() == 0),
{
}

/// Determinism. Two runs on the same merged configuration and the same
/// working directory end alike, unless the configured identity asks for a
/// random one: then only the identity may differ, as the next law says.
pub proof fn lemma_resolution_is_determined(
    raw: AgentConfigView,
    dir: Seq<char>,
    first: Result<AgentConfigView, Seq<char>>,
    second: Result<AgentConfigView, Seq<char>>,
)
    requires
        is_resolution_of(raw, dir, first),
        is_resolution_of(raw, dir, second),
        !is_random_identity(raw.uuid),
    ensures
        first == second,
{
}

/// Two runs on the same merged configuration and the same working
/// directory fail alike or succeed alike, and where they succeed they agree
/// on every option but the identity.
pub proof fn lemma_resolution_but_for_identity(
    raw: AgentConfigView,
    dir: Seq<char>,
    first: Result<AgentConfigView, Seq<char>>,
    second: Result<AgentConfigView, Seq<char>>,
)
    requires
        is_resolution_of(raw, dir, first),
        is_resolution_of(raw, dir, second),
    ensures
        first is Err ==> first == second,
        first matches Ok(a) ==> second matches Ok(b) && (forall|f: Field|
            f != Field::Uuid ==> a.get(f) == b.get(f)),
{
}

} // verus!

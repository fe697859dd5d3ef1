//! The run orchestrator's verified half.
//!
//! One invocation turns a `(text, key)` pair and the configuration into a
//! batch of translation jobs — or halts on the first unknown language code
//! before any job exists — and turns the batch's outcomes into the write
//! plan: one entry per successful target, in target order, then exactly one
//! default-language entry carrying the source text.

use crate::config::Config;
use crate::dispatch::{TranslationJob, TranslationOutcome};
use crate::lang::{lang_of_code, str_to_lang};
use crate::writer::{translated_file_base, EntryModel, ResourceEntry};
use vstd::prelude::*;
use vstd::string::*;

verus! {

/// Whether every code in the list denotes a member of the closed set.
pub open spec fn all_codes_known(codes: Seq<String>) -> bool {
    forall|i: int| 0 <= i < codes.len() ==> lang_of_code(codes[i]@) is Some
}

/// Builds the batch: one job per target language, in configuration order,
/// each translating `text` from the default language. An unknown code —
/// the default language's or any target's — halts the whole invocation
/// before a single job exists, naming the first offending string; no
/// translation is attempted for a configuration that is partly wrong.
pub fn plan_jobs(config: &Config, text: &str) -> (r: Result<Vec<TranslationJob>, String>)
    ensures
        (r is Ok) <==> (lang_of_code(config.default_lang@) is Some && all_codes_known(
            config.target_langs@,
        )),
        r matches Ok(jobs) ==> {
            &&& jobs@.len() == config.target_langs@.len()
            &&& forall|i: int|
                0 <= i < jobs@.len() ==> {
                    &&& lang_of_code(config.target_langs@[i]@) == Some(#[trigger] jobs@[i].to)
                    &&& jobs@[i].to_code@ == config.target_langs@[i]@
                    &&& jobs@[i].source_text@ == text@
                    &&& lang_of_code(config.default_lang@) == Some(jobs@[i].from)
                }
        },
        r matches Err(e) ==> {
            if lang_of_code(config.default_lang@) is None {
                e@ == "Unknown language code: "@ + config.default_lang@
            } else {
                exists|i: int|
                    {
                        &&& 0 <= i < config.target_langs@.len()
                        &&& lang_of_code(#[trigger] config.target_langs@[i]@) is None
                        &&& e@ == "Unknown language code: "@ + config.target_langs@[i]@
                        &&& forall|k: int|
                            0 <= k < i ==> lang_of_code(#[trigger] config.target_langs@[k]@)
                                is Some
                    }
            }
        },
{
    let from = match str_to_lang(config.default_lang.as_str()) {
        Ok(l) => l,
        Err(e) => {
            return Err(e);
        },
    };
    let mut jobs: Vec<TranslationJob> = Vec::new();
    let mut i: usize = 0;
    while i < config.target_langs.len()
        invariant
            i <= config.target_langs@.len(),
            lang_of_code(config.default_lang@) == Some(from),
            jobs@.len() == i,
            forall|k: int| 0 <= k < i ==> lang_of_code(#[trigger] config.target_langs@[k]@) is Some,
            forall|k: int|
                0 <= k < i ==> {
                    &&& lang_of_code(config.target_langs@[k]@) == Some(#[trigger] jobs@[k].to)
                    &&& jobs@[k].to_code@ == config.target_langs@[k]@
                    &&& jobs@[k].source_text@ == text@
                    &&& lang_of_code(config.default_lang@) == Some(jobs@[k].from)
                },
        decreases config.target_langs@.len() - i,
    {
        let code = &config.target_langs[i];
        match str_to_lang(code.as_str()) {
            Ok(to) => {
                jobs.push(
                    TranslationJob {
                        source_text: String::from_str(text),
                        from,
                        to,
                        to_code: code.clone(),
                    },
                );
            },
            Err(e) => {
                proof {
                    let ii = i as int;
                    assert(lang_of_code(config.target_langs@[ii]@) is None);
                    assert(e@ == "Unknown language code: "@ + config.target_langs@[ii]@);
                }
                return Err(e);
            },
        }
        i = i + 1;
    }
    Ok(jobs)
}

/// The write plan one outcome contributes: a success appends its translated
/// text under the target's own file, a failure appends nothing.
pub open spec fn spec_entries_of(
    outcome: TranslationOutcome,
    base: Seq<char>,
    key: Seq<char>,
) -> Seq<EntryModel> {
    match outcome {
        TranslationOutcome::Success { to_code, translated_text } => seq![
            EntryModel { file: base + "_"@ + to_code@, key, value: translated_text@ },
        ],
        TranslationOutcome::Failure { .. } => Seq::empty(),
    }
}

/// The entries of the successful outcomes, in outcome order.
pub open spec fn spec_success_entries(
    outcomes: Seq<TranslationOutcome>,
    base: Seq<char>,
    key: Seq<char>,
) -> Seq<EntryModel>
    decreases outcomes.len(),
{
    if outcomes.len() == 0 {
        Seq::empty()
    } else {
        spec_entries_of(outcomes[0], base, key) + spec_success_entries(
            outcomes.drop_first(),
            base,
            key,
        )
    }
}

/// The full write plan of a batch: the successful targets' entries, in
/// target order, then exactly one default-language entry with the source
/// text — written regardless of any per-language outcome.
pub open spec fn spec_write_plan(
    outcomes: Seq<TranslationOutcome>,
    base: Seq<char>,
    default_file: Seq<char>,
    key: Seq<char>,
    text: Seq<char>,
) -> Seq<EntryModel> {
    spec_success_entries(outcomes, base, key).push(
        EntryModel { file: default_file, key, value: text },
    )
}

/// How many outcomes came back translated.
pub open spec fn spec_success_count(outcomes: Seq<TranslationOutcome>) -> nat
    decreases outcomes.len(),
{
    if outcomes.len() == 0 {
        0
    } else {
        (if outcomes[0] is Success {
            1nat
        } else {
            0nat
        }) + spec_success_count(outcomes.drop_first())
    }
}

/// Turns the batch's outcomes into its write plan. Every successful target
/// gets exactly one entry, in target order; failed targets get none; the
/// default-language entry comes last, whatever the outcomes were.
pub fn writes_for_outcomes(
    outcomes: &Vec<TranslationOutcome>,
    base: &str,
    default_file: &str,
    key: &str,
    source_text: &str,
) -> (r: Vec<ResourceEntry>)
    ensures
        r@.map_values(|e: ResourceEntry| e@) == spec_write_plan(
            outcomes@,
            base@,
            default_file@,
            key@,
            source_text@,
        ),
{
    let mut out: Vec<ResourceEntry> = Vec::new();
    let mut i: usize = 0;
    while i < outcomes.len()
        invariant
            i <= outcomes@.len(),
            out@.map_values(|e: ResourceEntry| e@) == spec_success_entries(
                outcomes@.take(i as int),
                base@,
                key@,
            ),
        decreases outcomes@.len() - i,
    {
        let ghost prefix = outcomes@.take(i as int);
        match &outcomes[i] {
            TranslationOutcome::Success { to_code, translated_text } => {
                let file = translated_file_base(base, to_code.as_str());
                let entry = ResourceEntry {
                    file,
                    key: String::from_str(key),
                    value: translated_text.clone(),
                };
                out.push(entry);
            },
            TranslationOutcome::Failure { .. } => {},
        }
        proof {
            assert(outcomes@.take(i + 1) =~= prefix.push(outcomes@[i as int]));
            lemma_success_entries_snoc(prefix, outcomes@[i as int], base@, key@);
            assert(out@.map_values(|e: ResourceEntry| e@) =~= spec_success_entries(
                outcomes@.take(i + 1),
                base@,
                key@,
            ));
        }
        i = i + 1;
    }
    proof {
        assert(outcomes@.take(outcomes@.len() as int) =~= outcomes@);
    }
    let default_entry = ResourceEntry {
        file: String::from_str(default_file),
        key: String::from_str(key),
        value: String::from_str(source_text),
    };
    out.push(default_entry);
    proof {
        assert(out@.map_values(|e: ResourceEntry| e@) =~= spec_write_plan(
            outcomes@,
            base@,
            default_file@,
            key@,
            source_text@,
        ));
    }
    out
}

/// Extending the outcomes by one extends their entries by that outcome's
/// contribution.
pub proof fn lemma_success_entries_snoc(
    outcomes: Seq<TranslationOutcome>,
    x: TranslationOutcome,
    base: Seq<char>,
    key: Seq<char>,
)
    ensures
        spec_success_entries(outcomes.push(x), base, key) == spec_success_entries(
            outcomes,
            base,
            key,
        ) + spec_entries_of(x, base, key),
    decreases outcomes.len(),
{
    if outcomes.len() == 0 {
        assert(outcomes.push(x)[0] == x);
        assert(outcomes.push(x).drop_first() =~= Seq::<TranslationOutcome>::empty());
        assert(spec_success_entries(outcomes.push(x).drop_first(), base, key) == Seq::<
            EntryModel,
        >::empty());
        assert(spec_success_entries(outcomes.push(x), base, key) == spec_entries_of(x, base, key)
            + Seq::<EntryModel>::empty());
        assert(spec_entries_of(x, base, key) + Seq::<EntryModel>::empty() =~= spec_entries_of(
            x,
            base,
            key,
        ));
        assert(Seq::<EntryModel>::empty() + spec_entries_of(x, base, key) =~= spec_entries_of(
            x,
            base,
            key,
        ));
    } else {
        let rest = outcomes.drop_first();
        let e0 = spec_entries_of(outcomes[0], base, key);
        assert(outcomes.push(x)[0] == outcomes[0]);
        assert(outcomes.push(x).drop_first() =~= rest.push(x));
        lemma_success_entries_snoc(rest, x, base, key);
        assert(spec_success_entries(outcomes.push(x), base, key) == e0 + spec_success_entries(
            rest.push(x),
            base,
            key,
        ));
        assert(e0 + (spec_success_entries(rest, base, key) + spec_entries_of(x, base, key)) =~= (e0
            + spec_success_entries(rest, base, key)) + spec_entries_of(x, base, key));
    }
}

/// The entries of a concatenation are the concatenated entries.
pub proof fn lemma_success_entries_concat(
    a: Seq<TranslationOutcome>,
    b: Seq<TranslationOutcome>,
    base: Seq<char>,
    key: Seq<char>,
)
    ensures
        spec_success_entries(a + b, base, key) == spec_success_entries(a, base, key)
            + spec_success_entries(b, base, key),
    decreases a.len(),
{
    if a.len() == 0 {
        assert(a + b =~= b);
        assert(spec_success_entries(a, base, key) + spec_success_entries(b, base, key)
            =~= spec_success_entries(b, base, key));
    } else {
        assert((a + b).drop_first() =~= a.drop_first() + b);
        lemma_success_entries_concat(a.drop_first(), b, base, key);
        assert(spec_success_entries(a + b, base, key) =~= spec_success_entries(a, base, key)
            + spec_success_entries(b, base, key));
    }
}

/// Counting law: the plan holds exactly one entry per successful target plus
/// exactly one default-language entry.
pub proof fn lemma_write_plan_count(
    outcomes: Seq<TranslationOutcome>,
    base: Seq<char>,
    default_file: Seq<char>,
    key: Seq<char>,
    text: Seq<char>,
)
    ensures
        spec_write_plan(outcomes, base, default_file, key, text).len() == spec_success_count(
            outcomes,
        ) + 1,
{
    lemma_success_entries_len(outcomes, base, key);
}

/// The successful targets' entries number exactly the successes.
pub proof fn lemma_success_entries_len(
    outcomes: Seq<TranslationOutcome>,
    base: Seq<char>,
    key: Seq<char>,
)
    ensures
        spec_success_entries(outcomes, base, key).len() == spec_success_count(outcomes),
    decreases outcomes.len(),
{
    if outcomes.len() > 0 {
        lemma_success_entries_len(outcomes.drop_first(), base, key);
    }
}

/// Write-attempt law: when every target succeeds, a batch of N targets plans
/// exactly N + 1 writes — one per target language and one for the default
/// file.
pub proof fn lemma_all_success_plan_len(
    outcomes: Seq<TranslationOutcome>,
    base: Seq<char>,
    default_file: Seq<char>,
    key: Seq<char>,
    text: Seq<char>,
)
    requires
        forall|i: int| 0 <= i < outcomes.len() ==> outcomes[i] is Success,
    ensures
        spec_write_plan(outcomes, base, default_file, key, text).len() == outcomes.len() + 1,
{
    lemma_write_plan_count(outcomes, base, default_file, key, text);
    lemma_success_count_all(outcomes);
}

/// When every outcome is a success the count is the length.
pub proof fn lemma_success_count_all(outcomes: Seq<TranslationOutcome>)
    requires
        forall|i: int| 0 <= i < outcomes.len() ==> outcomes[i] is Success,
    ensures
        spec_success_count(outcomes) == outcomes.len(),
    decreases outcomes.len(),
{
    if outcomes.len() > 0 {
        lemma_success_count_all(outcomes.drop_first());
    }
}

/// The plan splits around any one target: the entries of the targets before
/// it, its own contribution, the entries of the targets after it.
pub proof fn lemma_success_entries_split(
    outcomes: Seq<TranslationOutcome>,
    j: int,
    base: Seq<char>,
    key: Seq<char>,
)
    requires
        0 <= j < outcomes.len(),
    ensures
        spec_success_entries(outcomes, base, key) == spec_success_entries(
            outcomes.take(j),
            base,
            key,
        ) + spec_entries_of(outcomes[j], base, key) + spec_success_entries(
            outcomes.skip(j + 1),
            base,
            key,
        ),
{
    assert(outcomes =~= outcomes.take(j) + seq![outcomes[j]] + outcomes.skip(j + 1));
    lemma_success_entries_concat(outcomes.take(j) + seq![outcomes[j]], outcomes.skip(j + 1), base, key);
    lemma_success_entries_concat(outcomes.take(j), seq![outcomes[j]], base, key);
    let single = seq![outcomes[j]];
    assert(single[0] == outcomes[j]);
    assert(single.drop_first() =~= Seq::<TranslationOutcome>::empty());
    assert(spec_success_entries(single.drop_first(), base, key) == Seq::<EntryModel>::empty());
    assert(spec_success_entries(single, base, key) == spec_entries_of(outcomes[j], base, key)
        + spec_success_entries(single.drop_first(), base, key));
    assert(spec_entries_of(outcomes[j], base, key) + Seq::<EntryModel>::empty()
        =~= spec_entries_of(outcomes[j], base, key));
}

/// Failure-isolation law: turning any one target's outcome into a failure
/// removes that target's entry alone. Every other target's entry, and the
/// default-language entry, stand exactly as before.
pub proof fn lemma_failure_isolated(
    outcomes: Seq<TranslationOutcome>,
    j: int,
    f: TranslationOutcome,
    base: Seq<char>,
    default_file: Seq<char>,
    key: Seq<char>,
    text: Seq<char>,
)
    requires
        0 <= j < outcomes.len(),
        f is Failure,
    ensures
        spec_write_plan(outcomes.update(j, f), base, default_file, key, text)
            == (spec_success_entries(outcomes.take(j), base, key) + spec_success_entries(
            outcomes.skip(j + 1),
            base,
            key,
        )).push(EntryModel { file: default_file, key, value: text }),
{
    let changed = outcomes.update(j, f);
    lemma_success_entries_split(changed, j, base, key);
    assert(changed.take(j) =~= outcomes.take(j));
    assert(changed.skip(j + 1) =~= outcomes.skip(j + 1));
    assert(spec_entries_of(f, base, key) =~= Seq::<EntryModel>::empty());
    assert(spec_success_entries(changed, base, key) =~= spec_success_entries(
        outcomes.take(j),
        base,
        key,
    ) + spec_success_entries(outcomes.skip(j + 1), base, key));
}

} // verus!

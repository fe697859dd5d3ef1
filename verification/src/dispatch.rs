//! The rate-limited dispatcher's verified half.
//!
//! One batch fans a single source text out to every configured target
//! language. The pieces that decide — which job runs when, what a reply
//! means, and in which order the outcomes are reported — live here; the
//! network call and the waiting are the caller's.

use crate::lang::Lang;
use vstd::prelude::*;
use vstd::string::*;

verus! {

/// One unit of work: translate `source_text` from `from` into `to`.
pub struct TranslationJob {
    pub source_text: String,
    pub from: Lang,
    pub to: Lang,
    /// The raw configuration string for `to`, used as the file-name suffix.
    pub to_code: String,
}

/// What one job came to: the translated text, or the reason it failed.
/// Each outcome is produced once and consumed once; a failure never aborts
/// the batch.
pub enum TranslationOutcome {
    Success { to_code: String, translated_text: String },
    Failure { to_code: String, reason: String },
}

impl TranslationOutcome {
    /// The target-language code the outcome belongs to.
    pub open spec fn spec_to_code(&self) -> Seq<char> {
        match self {
            TranslationOutcome::Success { to_code, .. } => to_code@,
            TranslationOutcome::Failure { to_code, .. } => to_code@,
        }
    }

    /// The translated text of a success, or the reason of a failure.
    pub open spec fn spec_payload(&self) -> Seq<char> {
        match self {
            TranslationOutcome::Success { translated_text, .. } => translated_text@,
            TranslationOutcome::Failure { reason, .. } => reason@,
        }
    }

    /// The target-language code the outcome belongs to.
    pub fn to_code(&self) -> (r: &str)
        ensures
            r@ == self.spec_to_code(),
    {
        match self {
            TranslationOutcome::Success { to_code, .. } => to_code.as_str(),
            TranslationOutcome::Failure { to_code, .. } => to_code.as_str(),
        }
    }

    /// The translated text of a success, or the reason of a failure.
    pub fn payload(&self) -> (r: &str)
        ensures
            r@ == self.spec_payload(),
    {
        match self {
            TranslationOutcome::Success { translated_text, .. } => translated_text.as_str(),
            TranslationOutcome::Failure { reason, .. } => reason.as_str(),
        }
    }

    /// Whether the job came back translated.
    pub fn succeeded(&self) -> (r: bool)
        ensures
            r == (self is Success),
    {
        match self {
            TranslationOutcome::Success { .. } => true,
            TranslationOutcome::Failure { .. } => false,
        }
    }
}

/// Reads the external service's reply for one target language.
///
/// The caller hands the reply in as plain values: the translated variants,
/// if the reply carried any, and the service's error message, if any. A
/// reply with at least one variant succeeds with the first variant (later
/// variants are deliberately dropped); an error reply, or a reply whose
/// payload holds zero variants, fails with the service's message, or with a
/// fixed reason when the service sent none.
pub fn outcome_of_response(
    to_code: &str,
    variants: Option<Vec<String>>,
    error_msg: Option<String>,
) -> (r: TranslationOutcome)
    ensures
        r.spec_to_code() == to_code@,
        (r is Success) <==> (variants matches Some(v) && v@.len() > 0),
        (r is Success) ==> (variants matches Some(v) && r.spec_payload() == v@[0]@),
        (r is Failure) ==> r.spec_payload() == (match error_msg {
            Some(m) => m@,
            None => "empty translation result"@,
        }),
{
    match variants {
        Some(v) => {
            if v.len() > 0 {
                let mut v = v;
                let first = v.remove(0);
                TranslationOutcome::Success {
                    to_code: to_code.to_owned(),
                    translated_text: first,
                }
            } else {
                TranslationOutcome::Failure {
                    to_code: to_code.to_owned(),
                    reason: failure_reason(error_msg),
                }
            }
        },
        None => {
            TranslationOutcome::Failure {
                to_code: to_code.to_owned(),
                reason: failure_reason(error_msg),
            }
        },
    }
}

/// The reason recorded for a failed job: the service's own message when it
/// sent one, a fixed phrase otherwise.
fn failure_reason(error_msg: Option<String>) -> (r: String)
    ensures
        r@ == (match error_msg {
            Some(m) => m@,
            None => "empty translation result"@,
        }),
{
    match error_msg {
        Some(m) => m,
        None => String::from_str("empty translation result"),
    }
}

/// When the request at `index` starts, in milliseconds from the batch start:
/// at most one request is in flight (Q = 1) and successive requests start
/// `interval_ms` apart, so the i-th starts at `i * interval_ms`.
pub open spec fn spec_start_offset(index: nat, interval_ms: nat) -> nat {
    index * interval_ms
}

/// The pacing delay before the request at `index` may start, or `None` when
/// the offset does not fit in a machine word.
pub fn start_offset_ms(index: usize, interval_ms: u64) -> (r: Option<u64>)
    ensures
        match r {
            Some(v) => v == spec_start_offset(index as nat, interval_ms as nat),
            None => spec_start_offset(index as nat, interval_ms as nat) > u64::MAX,
        },
{
    (index as u64).checked_mul(interval_ms)
}

/// Rate-limit law: requests are spaced at least `interval_ms` apart — a
/// later request starts no sooner than `(j - i) * interval_ms` after an
/// earlier one, so with a 2-second interval the second request waits 2
/// seconds and the third 4.
pub proof fn lemma_start_offsets_spaced(i: nat, j: nat, interval_ms: nat)
    requires
        i < j,
    ensures
        spec_start_offset(j, interval_ms) == spec_start_offset(i, interval_ms) + (j - i)
            * interval_ms,
        spec_start_offset(j, interval_ms) >= spec_start_offset(i, interval_ms) + interval_ms,
{
    assert(j * interval_ms == i * interval_ms + (j - i) * interval_ms) by (nonlinear_arith);
    assert((j - i) * interval_ms >= interval_ms) by (nonlinear_arith)
        requires
            j - i >= 1,
    ;
}

/// Collects outcomes by the index of the job that produced them, so that the
/// batch reports outcomes in target-language order however the requests
/// complete.
pub struct OutcomeSlots {
    slots: Vec<Option<TranslationOutcome>>,
}

impl View for OutcomeSlots {
    type V = Seq<Option<TranslationOutcome>>;

    closed spec fn view(&self) -> Seq<Option<TranslationOutcome>> {
        self.slots@
    }
}

impl OutcomeSlots {
    /// One empty slot per target language.
    pub fn new(n: usize) -> (r: OutcomeSlots)
        ensures
            r@.len() == n,
            forall|i: int| 0 <= i < n ==> r@[i] is None,
    {
        let mut slots: Vec<Option<TranslationOutcome>> = Vec::new();
        let mut i: usize = 0;
        while i < n
            invariant
                i <= n,
                slots@.len() == i,
                forall|k: int| 0 <= k < i ==> slots@[k] is None,
            decreases n - i,
        {
            slots.push(None);
            i = i + 1;
        }
        OutcomeSlots { slots }
    }

    /// How many slots the batch has.
    pub fn len(&self) -> (r: usize)
        ensures
            r == self@.len(),
    {
        self.slots.len()
    }

    /// Whether every slot has been filled.
    pub open spec fn spec_complete(&self) -> bool {
        forall|i: int| 0 <= i < self@.len() ==> self@[i] is Some
    }

    /// Files the outcome of the job at `index`; each slot is filled once.
    pub fn record(&mut self, index: usize, outcome: TranslationOutcome)
        requires
            index < old(self)@.len(),
            old(self)@[index as int] is None,
        ensures
            final(self)@ == old(self)@.update(index as int, Some(outcome)),
    {
        self.slots[index] = Some(outcome);
    }

    /// Hands the outcomes out in slot order, once every slot is filled.
    pub fn finish(self) -> (r: Vec<TranslationOutcome>)
        requires
            self.spec_complete(),
        ensures
            r@.len() == self@.len(),
            forall|i: int| 0 <= i < r@.len() ==> self@[i] == Some(r@[i]),
    {
        let mut slots = self.slots;
        let ghost orig = slots@;
        let mut out: Vec<TranslationOutcome> = Vec::new();
        while slots.len() > 0
            invariant
                out@.len() + slots@.len() == orig.len(),
                forall|k: int| 0 <= k < out@.len() ==> orig[k] == Some(out@[k]),
                forall|k: int| 0 <= k < slots@.len() ==> slots@[k] == orig[k + out@.len()],
                forall|k: int| 0 <= k < orig.len() ==> orig[k] is Some,
            decreases slots@.len(),
        {
            let o = slots.remove(0);
            let x = o.unwrap();
            out.push(x);
        }
        out
    }
}

/// Order law: the slot a job's outcome lands in depends on the job's index
/// alone, so two outcomes recorded at distinct indices leave the same slots
/// whichever completed first.
pub proof fn lemma_record_order_irrelevant(
    s: Seq<Option<TranslationOutcome>>,
    i: int,
    j: int,
    a: TranslationOutcome,
    b: TranslationOutcome,
)
    requires
        0 <= i < s.len(),
        0 <= j < s.len(),
        i != j,
    ensures
        s.update(i, Some(a)).update(j, Some(b)) == s.update(j, Some(b)).update(i, Some(a)),
{
    assert(s.update(i, Some(a)).update(j, Some(b)) =~= s.update(j, Some(b)).update(i, Some(a)));
}

} // verus!

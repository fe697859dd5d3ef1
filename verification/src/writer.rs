//! The result writer's verified half.
//!
//! A write appends one `key=value` line to one `.properties` file. This
//! module fixes the file names, the line format, and — over a mathematical
//! model of the output directory — what a sequence of appends does to each
//! file: prior lines survive, new lines land at the end, and re-running the
//! same writes duplicates their lines rather than overwriting anything. The
//! opening, writing and flushing of real files is the caller's.

use vstd::prelude::*;
use vstd::string::*;

verus! {

/// One planned append: the line `key=value` destined for the file named
/// `file` (without its `.properties` extension).
pub struct ResourceEntry {
    pub file: String,
    pub key: String,
    pub value: String,
}

/// The mathematical shadow of a `ResourceEntry`.
pub ghost struct EntryModel {
    pub file: Seq<char>,
    pub key: Seq<char>,
    pub value: Seq<char>,
}

impl View for ResourceEntry {
    type V = EntryModel;

    open spec fn view(&self) -> EntryModel {
        EntryModel { file: self.file@, key: self.key@, value: self.value@ }
    }
}

/// The base name of a translated language's resource file: `base_code`.
pub fn translated_file_base(base: &str, code: &str) -> (r: String)
    ensures
        r@ == base@ + "_"@ + code@,
{
    let r = String::from_str(base).concat("_").concat(code);
    proof {
        assert(r@ =~= base@ + "_"@ + code@);
    }
    r
}

/// Where the writer appends: `{dir}/{file}.properties`.
pub fn properties_path(dir: &str, file: &str) -> (r: String)
    ensures
        r@ == dir@ + "/"@ + file@ + ".properties"@,
{
    let r = String::from_str(dir).concat("/").concat(file).concat(".properties");
    proof {
        assert(r@ =~= dir@ + "/"@ + file@ + ".properties"@);
    }
    r
}

/// The single line one entry appends: `key=value` with a terminating newline.
pub open spec fn spec_properties_line(key: Seq<char>, value: Seq<char>) -> Seq<char> {
    key + "="@ + value + "\n"@
}

/// Builds the line one entry appends.
pub fn properties_line(key: &str, value: &str) -> (r: String)
    ensures
        r@ == spec_properties_line(key@, value@),
{
    let r = String::from_str(key).concat("=").concat(value).concat("\n");
    proof {
        assert(r@ =~= spec_properties_line(key@, value@));
    }
    r
}

/// A resource file modelled as its lines; a directory modelled as a map from
/// file base name to lines. A file never written to is absent, and reads as
/// empty — append mode creates it on first use.
pub open spec fn spec_file_lines(dir: Map<Seq<char>, Seq<Seq<char>>>, file: Seq<char>) -> Seq<
    Seq<char>,
> {
    if dir.contains_key(file) {
        dir[file]
    } else {
        Seq::empty()
    }
}

/// What one append does to the directory: the entry's line lands at the end
/// of its file and no other file moves.
pub open spec fn spec_apply_entry(
    dir: Map<Seq<char>, Seq<Seq<char>>>,
    e: EntryModel,
) -> Map<Seq<char>, Seq<Seq<char>>> {
    dir.insert(e.file, spec_file_lines(dir, e.file).push(spec_properties_line(e.key, e.value)))
}

/// What a whole plan does: its entries are applied in order.
pub open spec fn spec_apply_plan(
    dir: Map<Seq<char>, Seq<Seq<char>>>,
    plan: Seq<EntryModel>,
) -> Map<Seq<char>, Seq<Seq<char>>>
    decreases plan.len(),
{
    if plan.len() == 0 {
        dir
    } else {
        spec_apply_plan(spec_apply_entry(dir, plan[0]), plan.drop_first())
    }
}

/// The lines a plan appends to one file, in plan order.
pub open spec fn spec_plan_lines(plan: Seq<EntryModel>, file: Seq<char>) -> Seq<Seq<char>>
    decreases plan.len(),
{
    if plan.len() == 0 {
        Seq::empty()
    } else {
        let rest = spec_plan_lines(plan.drop_first(), file);
        if plan[0].file == file {
            seq![spec_properties_line(plan[0].key, plan[0].value)] + rest
        } else {
            rest
        }
    }
}

/// Append-only law: a plan leaves every file's prior lines in place and adds
/// its own lines for that file after them, in plan order. In particular each
/// write is independent — no entry disturbs another file.
pub proof fn lemma_apply_plan_lines(
    dir: Map<Seq<char>, Seq<Seq<char>>>,
    plan: Seq<EntryModel>,
    file: Seq<char>,
)
    ensures
        spec_file_lines(spec_apply_plan(dir, plan), file) == spec_file_lines(dir, file)
            + spec_plan_lines(plan, file),
    decreases plan.len(),
{
    if plan.len() == 0 {
        assert(spec_file_lines(dir, file) + spec_plan_lines(plan, file) =~= spec_file_lines(
            dir,
            file,
        ));
    } else {
        let stepped = spec_apply_entry(dir, plan[0]);
        lemma_apply_plan_lines(stepped, plan.drop_first(), file);
        if plan[0].file == file {
            assert(spec_file_lines(stepped, file) =~= spec_file_lines(dir, file).push(
                spec_properties_line(plan[0].key, plan[0].value),
            ));
        } else {
            assert(spec_file_lines(stepped, file) =~= spec_file_lines(dir, file));
        }
        assert(spec_file_lines(spec_apply_plan(dir, plan), file) =~= spec_file_lines(dir, file)
            + spec_plan_lines(plan, file));
    }
}

/// A plan appends nothing to a file none of its entries name.
pub proof fn lemma_plan_lines_empty(plan: Seq<EntryModel>, file: Seq<char>)
    requires
        forall|i: int| 0 <= i < plan.len() ==> (#[trigger] plan[i]).file != file,
    ensures
        spec_plan_lines(plan, file) == Seq::<Seq<char>>::empty(),
    decreases plan.len(),
{
    if plan.len() > 0 {
        lemma_plan_lines_empty(plan.drop_first(), file);
    }
}

/// Untouched-file law: a file no entry of the plan names keeps exactly the
/// lines it had — a batch in which one target failed leaves that target's
/// file as it was.
pub proof fn lemma_untouched_file(
    dir: Map<Seq<char>, Seq<Seq<char>>>,
    plan: Seq<EntryModel>,
    file: Seq<char>,
)
    requires
        forall|i: int| 0 <= i < plan.len() ==> (#[trigger] plan[i]).file != file,
    ensures
        spec_file_lines(spec_apply_plan(dir, plan), file) == spec_file_lines(dir, file),
{
    lemma_apply_plan_lines(dir, plan, file);
    lemma_plan_lines_empty(plan, file);
    assert(spec_file_lines(dir, file) + Seq::<Seq<char>>::empty() =~= spec_file_lines(dir, file));
}

/// Idempotence of re-running: applying the same plan twice appends its lines
/// twice. Duplicate `key=value` lines accumulate; nothing is overwritten or
/// deduplicated.
pub proof fn lemma_apply_plan_twice(
    dir: Map<Seq<char>, Seq<Seq<char>>>,
    plan: Seq<EntryModel>,
    file: Seq<char>,
)
    ensures
        spec_file_lines(spec_apply_plan(spec_apply_plan(dir, plan), plan), file) == spec_file_lines(
            dir,
            file,
        ) + spec_plan_lines(plan, file) + spec_plan_lines(plan, file),
{
    lemma_apply_plan_lines(dir, plan, file);
    lemma_apply_plan_lines(spec_apply_plan(dir, plan), plan, file);
}

} // verus!

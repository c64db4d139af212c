//! Decisions of the install engine and of the consistency check, stated over
//! a model of the repository's files: a map from relative path to content.
use vstd::prelude::*;
use crate::catalog::EmbeddedFile;
use crate::text::{contains_text, text_contains};

verus! {

/// What happened to one catalog entry during an install.
#[derive(Debug, Clone, Copy, PartialEq, Eq, Structural)]
pub enum CopyResult {
    Created,
    Overwritten,
    Skipped,
}

/// The next step for one entry: write it with the given outcome, or ask
/// whether the existing file may be overwritten.
#[derive(Debug, Clone, Copy, PartialEq, Eq, Structural)]
pub enum CopyStep {
    Write(CopyResult),
    AskToOverwrite,
}

/// The step for a target that exists or not, with or without `force`.
pub open spec fn copy_step(target_exists: bool, force: bool) -> CopyStep {
    if !target_exists {
        CopyStep::Write(CopyResult::Created)
    } else if force {
        CopyStep::Write(CopyResult::Overwritten)
    } else {
        CopyStep::AskToOverwrite
    }
}

/// Decides what to do with one entry whose target exists or not: create it,
/// overwrite it when `force` is set, and otherwise ask.
pub fn plan_copy(target_exists: bool, force: bool) -> (r: CopyStep)
    ensures
        r == copy_step(target_exists, force),
{
    if !target_exists {
        CopyStep::Write(CopyResult::Created)
    } else if force {
        CopyStep::Write(CopyResult::Overwritten)
    } else {
        CopyStep::AskToOverwrite
    }
}

/// The outcome after asking to overwrite: `Some(true)` overwrites; a refusal,
/// or `None` when the question could not be asked, skips the file.
pub fn overwrite_outcome(answer: Option<bool>) -> (r: CopyResult)
    ensures
        r == (if answer == Some(true) {
            CopyResult::Overwritten
        } else {
            CopyResult::Skipped
        }),
{
    match answer {
        Some(true) => CopyResult::Overwritten,
        _ => CopyResult::Skipped,
    }
}

impl CopyResult {
    /// Whether this outcome writes the file.
    pub fn writes(&self) -> (r: bool)
        ensures
            r == !(*self is Skipped),
    {
        !matches!(self, CopyResult::Skipped)
    }
}

/// The files after one entry was handled with the given outcome.
pub open spec fn after_copy(
    fs: Map<Seq<char>, Seq<char>>,
    f: EmbeddedFile,
    outcome: CopyResult,
) -> Map<Seq<char>, Seq<char>> {
    if outcome is Skipped {
        fs
    } else {
        fs.insert(f.target_path@, f.content@)
    }
}

/// The outcome for one entry when installing with `force`.
pub open spec fn forced_outcome(fs: Map<Seq<char>, Seq<char>>, f: EmbeddedFile) -> CopyResult {
    match copy_step(fs.contains_key(f.target_path@), true) {
        CopyStep::Write(o) => o,
        CopyStep::AskToOverwrite => CopyResult::Skipped,
    }
}

/// The files after installing `files` in order with `force`.
pub open spec fn installed_files(fs: Map<Seq<char>, Seq<char>>, files: Seq<EmbeddedFile>) -> Map<
    Seq<char>,
    Seq<char>,
>
    decreases files.len(),
{
    if files.len() == 0 {
        fs
    } else {
        installed_files(after_copy(fs, files[0], forced_outcome(fs, files[0])), files.drop_first())
    }
}

/// The outcomes of installing `files` in order with `force`.
pub open spec fn install_outcomes(fs: Map<Seq<char>, Seq<char>>, files: Seq<EmbeddedFile>) -> Seq<
    CopyResult,
>
    decreases files.len(),
{
    if files.len() == 0 {
        seq![]
    } else {
        seq![forced_outcome(fs, files[0])] + install_outcomes(
            after_copy(fs, files[0], forced_outcome(fs, files[0])),
            files.drop_first(),
        )
    }
}

/// After a forced install every entry's path exists.
proof fn lemma_install_writes_all(fs: Map<Seq<char>, Seq<char>>, files: Seq<EmbeddedFile>)
    ensures
        forall|k: int|
            0 <= k < files.len() ==> installed_files(fs, files).contains_key(
                #[trigger] files[k].target_path@,
            ),
    decreases files.len(),
{
    if files.len() > 0 {
        let next = after_copy(fs, files[0], forced_outcome(fs, files[0]));
        lemma_install_writes_all(next, files.drop_first());
        lemma_install_keeps_keys(next, files.drop_first(), files[0].target_path@);
        assert forall|k: int| 0 <= k < files.len() implies installed_files(fs, files).contains_key(
            #[trigger] files[k].target_path@,
        ) by {
            if k > 0 {
                assert(files[k] == files.drop_first()[k - 1]);
            }
        }
    }
}

/// A forced install never removes a path.
proof fn lemma_install_keeps_keys(fs: Map<Seq<char>, Seq<char>>, files: Seq<EmbeddedFile>, p: Seq<char>)
    requires
        fs.contains_key(p),
    ensures
        installed_files(fs, files).contains_key(p),
    decreases files.len(),
{
    if files.len() > 0 {
        let next = after_copy(fs, files[0], forced_outcome(fs, files[0]));
        lemma_install_keeps_keys(next, files.drop_first(), p);
    }
}

/// Installing again with `force` over files that hold all entries overwrites
/// every entry.
proof fn lemma_reinstall_overwrites(fs: Map<Seq<char>, Seq<char>>, files: Seq<EmbeddedFile>)
    requires
        forall|k: int| 0 <= k < files.len() ==> fs.contains_key(#[trigger] files[k].target_path@),
    ensures
        install_outcomes(fs, files).len() == files.len(),
        forall|k: int|
            0 <= k < files.len() ==> #[trigger] install_outcomes(fs, files)[k]
                == CopyResult::Overwritten,
    decreases files.len(),
{
    if files.len() > 0 {
        let next = after_copy(fs, files[0], forced_outcome(fs, files[0]));
        assert(fs.contains_key(files[0].target_path@));
        assert forall|k: int| 0 <= k < files.drop_first().len() implies next.contains_key(
            #[trigger] files.drop_first()[k].target_path@,
        ) by {
            assert(files.drop_first()[k] == files[k + 1]);
        }
        lemma_reinstall_overwrites(next, files.drop_first());
        let rest = install_outcomes(next, files.drop_first());
        assert forall|k: int| 0 <= k < files.len() implies #[trigger] install_outcomes(fs, files)[k]
            == CopyResult::Overwritten by {
            if k > 0 {
                assert(install_outcomes(fs, files)[k] == rest[k - 1]);
            }
        }
    }
}

/// A forced install lays the files that the entries write over the old ones.
proof fn lemma_install_overlays(g: Map<Seq<char>, Seq<char>>, files: Seq<EmbeddedFile>)
    ensures
        installed_files(g, files) == g.union_prefer_right(installed_files(Map::empty(), files)),
    decreases files.len(),
{
    if files.len() == 0 {
        assert(g.union_prefer_right(Map::<Seq<char>, Seq<char>>::empty()) =~= g);
    } else {
        let f = files[0];
        let rest = files.drop_first();
        let one = Map::<Seq<char>, Seq<char>>::empty().insert(f.target_path@, f.content@);
        lemma_install_overlays(g.insert(f.target_path@, f.content@), rest);
        lemma_install_overlays(one, rest);
        let w = installed_files(Map::empty(), rest);
        assert(g.insert(f.target_path@, f.content@).union_prefer_right(w) =~= g.union_prefer_right(
            one.union_prefer_right(w),
        ));
    }
}

/// Installing with `force` twice on the same files: the second pass reports
/// every entry as overwritten, none as created, and leaves the files exactly
/// as the first pass left them.
pub proof fn lemma_forced_install_idempotent(
    fs: Map<Seq<char>, Seq<char>>,
    files: Seq<EmbeddedFile>,
)
    ensures
        installed_files(installed_files(fs, files), files) == installed_files(fs, files),
        install_outcomes(installed_files(fs, files), files).len() == files.len(),
        forall|k: int|
            0 <= k < files.len() ==> #[trigger] install_outcomes(installed_files(fs, files), files)[k]
                == CopyResult::Overwritten,
{
    let once = installed_files(fs, files);
    let w = installed_files(Map::empty(), files);
    lemma_install_overlays(fs, files);
    lemma_install_overlays(once, files);
    assert(fs.union_prefer_right(w).union_prefer_right(w) =~= fs.union_prefer_right(w));
    lemma_install_writes_all(fs, files);
    lemma_reinstall_overwrites(once, files);
}

/// Whether each of `files` is present in `fs`, in order.
pub open spec fn presence(fs: Map<Seq<char>, Seq<char>>, files: Seq<EmbeddedFile>) -> Seq<bool> {
    files.map_values(|f: EmbeddedFile| fs.contains_key(f.target_path@))
}

/// The number of `true` flags.
pub open spec fn count_present(present: Seq<bool>) -> nat
    decreases present.len(),
{
    if present.len() == 0 {
        0
    } else {
        count_present(present.drop_last()) + if present.last() {
            1nat
        } else {
            0nat
        }
    }
}

/// The entries whose flag is `false`, in order.
pub open spec fn missing_of(files: Seq<EmbeddedFile>, present: Seq<bool>) -> Seq<EmbeddedFile>
    decreases files.len(),
{
    if files.len() == 0 || present.len() == 0 {
        seq![]
    } else {
        let prev = missing_of(files.drop_last(), present.drop_last());
        if present.last() {
            prev
        } else {
            prev.push(files.last())
        }
    }
}

/// Whether an ignore file with text `t` lacks either required pattern, by a
/// plain substring test. An absent ignore file needs nothing.
pub open spec fn ignore_needs_update(t: Option<Seq<char>>) -> bool {
    match t {
        Some(text) => !contains_text(text, ".cursor/"@) || !contains_text(text, ".ai/"@),
        None => false,
    }
}

/// What the consistency check found.
pub struct DoctorReport {
    /// How many catalog entries exist.
    pub present_count: usize,
    /// The entries that do not exist, in catalog order.
    pub missing: Vec<EmbeddedFile>,
    /// Whether the ignore file exists and lacks a required pattern.
    pub ignore_needs_update: bool,
}

/// Builds the consistency report from which entries are present (`present[k]`
/// for `files[k]`) and the text of the ignore file, if it exists.
pub fn doctor_report(files: &Vec<EmbeddedFile>, present: &Vec<bool>, gitignore: Option<&str>) -> (r:
    DoctorReport)
    requires
        files@.len() == present@.len(),
    ensures
        r.present_count == count_present(present@),
        r.missing@ == missing_of(files@, present@),
        r.ignore_needs_update == ignore_needs_update(
            match gitignore {
                Some(t) => Some(t@),
                None => None,
            },
        ),
{
    let mut count: usize = 0;
    let mut missing: Vec<EmbeddedFile> = Vec::new();
    let mut k: usize = 0;
    while k < files.len()
        invariant
            files@.len() == present@.len(),
            k <= files@.len(),
            count == count_present(present@.take(k as int)),
            count <= k,
            missing@ == missing_of(files@.take(k as int), present@.take(k as int)),
        decreases files@.len() - k,
    {
        proof {
            assert(present@.take(k + 1).drop_last() == present@.take(k as int));
            assert(files@.take(k + 1).drop_last() == files@.take(k as int));
        }
        if present[k] {
            count = count + 1;
        } else {
            missing.push(files[k]);
        }
        k = k + 1;
    }
    assert(present@.take(k as int) == present@);
    assert(files@.take(k as int) == files@);
    let needs = match gitignore {
        Some(t) => !text_contains(t, ".cursor/") || !text_contains(t, ".ai/"),
        None => false,
    };
    DoctorReport { present_count: count, missing, ignore_needs_update: needs }
}

/// All flags set: the count is the length and nothing is missing.
proof fn lemma_all_present(files: Seq<EmbeddedFile>, present: Seq<bool>)
    requires
        files.len() == present.len(),
        forall|k: int| 0 <= k < present.len() ==> #[trigger] present[k],
    ensures
        count_present(present) == present.len(),
        missing_of(files, present) == Seq::<EmbeddedFile>::empty(),
    decreases present.len(),
{
    if present.len() > 0 {
        lemma_all_present(files.drop_last(), present.drop_last());
        assert(present[present.len() - 1]);
    }
}

/// After a forced install of `files`, the consistency check over the same
/// files finds every one present and none missing.
pub proof fn lemma_doctor_after_install(fs: Map<Seq<char>, Seq<char>>, files: Seq<EmbeddedFile>)
    ensures
        count_present(presence(installed_files(fs, files), files)) == files.len(),
        missing_of(files, presence(installed_files(fs, files), files)) == Seq::<EmbeddedFile>::empty(),
{
    lemma_install_writes_all(fs, files);
    let p = presence(installed_files(fs, files), files);
    assert forall|k: int| 0 <= k < p.len() implies #[trigger] p[k] by {
        assert(installed_files(fs, files).contains_key(files[k].target_path@));
    }
    lemma_all_present(files, p);
}

} // verus!

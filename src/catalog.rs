//! The fixed catalog of managed files and the category filter over it.
use vstd::prelude::*;
use crate::text::same_text;
use crate::templates;

verus! {

/// The group a managed file belongs to, used by the include / exclude filters.
#[derive(Debug, Clone, Copy, PartialEq, Eq, Structural, Hash)]
pub enum FileCategory {
    AiTemplates,
    Rules,
    Commands,
    Hooks,
    Skills,
    Agents,
}

/// The token that names a category on the command line.
pub open spec fn category_token(c: FileCategory) -> Seq<char> {
    match c {
        FileCategory::AiTemplates => "ai"@,
        FileCategory::Rules => "rules"@,
        FileCategory::Commands => "commands"@,
        FileCategory::Hooks => "hooks"@,
        FileCategory::Skills => "skills"@,
        FileCategory::Agents => "agents"@,
    }
}

/// The category that an already lower-cased token names, if any.
pub open spec fn category_named(t: Seq<char>) -> Option<FileCategory> {
    if t == "ai"@ {
        Some(FileCategory::AiTemplates)
    } else if t == "rules"@ {
        Some(FileCategory::Rules)
    } else if t == "commands"@ {
        Some(FileCategory::Commands)
    } else if t == "hooks"@ {
        Some(FileCategory::Hooks)
    } else if t == "skills"@ {
        Some(FileCategory::Skills)
    } else if t == "agents"@ {
        Some(FileCategory::Agents)
    } else {
        None
    }
}

/// What `str::to_lowercase` gives for a text; it depends on the characters alone.
pub uninterp spec fn lower_of(s: Seq<char>) -> Seq<char>;

/// Relies on `str::to_lowercase`: its result is a function of the characters.
#[verifier::external_body]
fn lowercase(s: &str) -> (r: String)
    ensures
        r@ == lower_of(s@),
{
    s.to_lowercase()
}

/// The category named by a token that is already in lower case.
pub fn category_from_lowercase(t: &str) -> (r: Option<FileCategory>)
    ensures
        r == category_named(t@),
{
    if same_text(t, "ai") {
        Some(FileCategory::AiTemplates)
    } else if same_text(t, "rules") {
        Some(FileCategory::Rules)
    } else if same_text(t, "commands") {
        Some(FileCategory::Commands)
    } else if same_text(t, "hooks") {
        Some(FileCategory::Hooks)
    } else if same_text(t, "skills") {
        Some(FileCategory::Skills)
    } else if same_text(t, "agents") {
        Some(FileCategory::Agents)
    } else {
        None
    }
}

impl FileCategory {
    /// The token that names this category.
    pub fn as_str(&self) -> (r: &'static str)
        ensures
            r@ == category_token(*self),
    {
        match self {
            FileCategory::AiTemplates => "ai",
            FileCategory::Rules => "rules",
            FileCategory::Commands => "commands",
            FileCategory::Hooks => "hooks",
            FileCategory::Skills => "skills",
            FileCategory::Agents => "agents",
        }
    }

    /// The category named by a token, compared without regard to case.
    pub fn from_str(s: &str) -> (r: Option<FileCategory>)
        ensures
            r == category_named(lower_of(s@)),
    {
        let lower = lowercase(s);
        category_from_lowercase(lower.as_str())
    }
}

/// One managed file: where it goes under the repository root, what it holds,
/// and its category.
#[derive(Clone, Copy)]
pub struct EmbeddedFile {
    /// Path relative to the repository root.
    pub target_path: &'static str,
    /// The text written to that path.
    pub content: &'static str,
    /// Category used by the include / exclude filters.
    pub category: FileCategory,
}

/// The catalog, in declaration order.
pub open spec fn catalog() -> Seq<EmbeddedFile> {
    seq![
        EmbeddedFile { target_path: ".ai/ai-context.md", content: templates::AI_CONTEXT, category: FileCategory::AiTemplates },
        EmbeddedFile { target_path: ".ai/ai-guardrails.md", content: templates::AI_GUARDRAILS, category: FileCategory::AiTemplates },
        EmbeddedFile { target_path: ".ai/template/decision.md", content: templates::DECISION_TEMPLATE, category: FileCategory::AiTemplates },
        EmbeddedFile { target_path: ".ai/template/plan.md", content: templates::PLAN_TEMPLATE, category: FileCategory::AiTemplates },
        EmbeddedFile { target_path: ".ai/template/research.md", content: templates::RESEARCH_TEMPLATE, category: FileCategory::AiTemplates },
        EmbeddedFile { target_path: ".cursor/rules/ai-guidelines.mdc", content: templates::AI_GUIDELINES_RULE, category: FileCategory::Rules },
        EmbeddedFile { target_path: ".cursor/rules/core-principles.mdc", content: templates::CORE_PRINCIPLES_RULE, category: FileCategory::Rules },
        EmbeddedFile { target_path: ".cursor/rules/security-patterns.mdc", content: templates::SECURITY_PATTERNS_RULE, category: FileCategory::Rules },
        EmbeddedFile { target_path: ".cursor/rules/three-phase-workflow.mdc", content: templates::THREE_PHASE_RULE, category: FileCategory::Rules },
        EmbeddedFile { target_path: ".cursor/commands/adr.md", content: templates::ADR_COMMAND, category: FileCategory::Commands },
        EmbeddedFile { target_path: ".cursor/commands/commit.md", content: templates::COMMIT_COMMAND, category: FileCategory::Commands },
        EmbeddedFile { target_path: ".cursor/commands/implement.md", content: templates::IMPLEMENT_COMMAND, category: FileCategory::Commands },
        EmbeddedFile { target_path: ".cursor/commands/plan.md", content: templates::PLAN_COMMAND, category: FileCategory::Commands },
        EmbeddedFile { target_path: ".cursor/commands/research.md", content: templates::RESEARCH_COMMAND, category: FileCategory::Commands },
        EmbeddedFile { target_path: ".cursor/commands/review.md", content: templates::REVIEW_COMMAND, category: FileCategory::Commands },
        EmbeddedFile { target_path: ".cursor/commands/sync.md", content: templates::SYNC_COMMAND, category: FileCategory::Commands },
        EmbeddedFile { target_path: ".cursor/hooks.json", content: templates::HOOKS_CONFIG, category: FileCategory::Hooks },
        EmbeddedFile { target_path: ".cursor/hooks/extract-learnings.ps1", content: templates::EXTRACT_LEARNINGS_HOOK, category: FileCategory::Hooks },
        EmbeddedFile { target_path: ".cursor/hooks/inject-context.ps1", content: templates::INJECT_CONTEXT_HOOK, category: FileCategory::Hooks },
        EmbeddedFile { target_path: ".cursor/hooks/post-edit-check.ps1", content: templates::POST_EDIT_CHECK_HOOK, category: FileCategory::Hooks },
        EmbeddedFile { target_path: ".cursor/agents/researcher.md", content: templates::RESEARCHER_AGENT, category: FileCategory::Agents },
        EmbeddedFile { target_path: ".cursor/agents/verifier.md", content: templates::VERIFIER_AGENT, category: FileCategory::Agents },
        EmbeddedFile { target_path: ".cursor/skills/architecture-decision/SKILL.md", content: templates::ARCHITECTURE_DECISION_SKILL, category: FileCategory::Skills },
        EmbeddedFile { target_path: ".cursor/skills/code-review/SKILL.md", content: templates::CODE_REVIEW_SKILL, category: FileCategory::Skills },
        EmbeddedFile { target_path: ".cursor/skills/research-methodology/SKILL.md", content: templates::RESEARCH_METHODOLOGY_SKILL, category: FileCategory::Skills },
        EmbeddedFile { target_path: ".cursor/skills/security-audit/SKILL.md", content: templates::SECURITY_AUDIT_SKILL, category: FileCategory::Skills },
    ]
}

/// Number of entries in the catalog.
pub open spec fn catalog_size() -> nat {
    catalog().len()
}

/// Returns the whole catalog, in declaration order.
pub fn get_all_files() -> (r: Vec<EmbeddedFile>)
    ensures
        r@ == catalog(),
{
    let r = vec![
        EmbeddedFile { target_path: ".ai/ai-context.md", content: templates::AI_CONTEXT, category: FileCategory::AiTemplates },
        EmbeddedFile { target_path: ".ai/ai-guardrails.md", content: templates::AI_GUARDRAILS, category: FileCategory::AiTemplates },
        EmbeddedFile { target_path: ".ai/template/decision.md", content: templates::DECISION_TEMPLATE, category: FileCategory::AiTemplates },
        EmbeddedFile { target_path: ".ai/template/plan.md", content: templates::PLAN_TEMPLATE, category: FileCategory::AiTemplates },
        EmbeddedFile { target_path: ".ai/template/research.md", content: templates::RESEARCH_TEMPLATE, category: FileCategory::AiTemplates },
        EmbeddedFile { target_path: ".cursor/rules/ai-guidelines.mdc", content: templates::AI_GUIDELINES_RULE, category: FileCategory::Rules },
        EmbeddedFile { target_path: ".cursor/rules/core-principles.mdc", content: templates::CORE_PRINCIPLES_RULE, category: FileCategory::Rules },
        EmbeddedFile { target_path: ".cursor/rules/security-patterns.mdc", content: templates::SECURITY_PATTERNS_RULE, category: FileCategory::Rules },
        EmbeddedFile { target_path: ".cursor/rules/three-phase-workflow.mdc", content: templates::THREE_PHASE_RULE, category: FileCategory::Rules },
        EmbeddedFile { target_path: ".cursor/commands/adr.md", content: templates::ADR_COMMAND, category: FileCategory::Commands },
        EmbeddedFile { target_path: ".cursor/commands/commit.md", content: templates::COMMIT_COMMAND, category: FileCategory::Commands },
        EmbeddedFile { target_path: ".cursor/commands/implement.md", content: templates::IMPLEMENT_COMMAND, category: FileCategory::Commands },
        EmbeddedFile { target_path: ".cursor/commands/plan.md", content: templates::PLAN_COMMAND, category: FileCategory::Commands },
        EmbeddedFile { target_path: ".cursor/commands/research.md", content: templates::RESEARCH_COMMAND, category: FileCategory::Commands },
        EmbeddedFile { target_path: ".cursor/commands/review.md", content: templates::REVIEW_COMMAND, category: FileCategory::Commands },
        EmbeddedFile { target_path: ".cursor/commands/sync.md", content: templates::SYNC_COMMAND, category: FileCategory::Commands },
        EmbeddedFile { target_path: ".cursor/hooks.json", content: templates::HOOKS_CONFIG, category: FileCategory::Hooks },
        EmbeddedFile { target_path: ".cursor/hooks/extract-learnings.ps1", content: templates::EXTRACT_LEARNINGS_HOOK, category: FileCategory::Hooks },
        EmbeddedFile { target_path: ".cursor/hooks/inject-context.ps1", content: templates::INJECT_CONTEXT_HOOK, category: FileCategory::Hooks },
        EmbeddedFile { target_path: ".cursor/hooks/post-edit-check.ps1", content: templates::POST_EDIT_CHECK_HOOK, category: FileCategory::Hooks },
        EmbeddedFile { target_path: ".cursor/agents/researcher.md", content: templates::RESEARCHER_AGENT, category: FileCategory::Agents },
        EmbeddedFile { target_path: ".cursor/agents/verifier.md", content: templates::VERIFIER_AGENT, category: FileCategory::Agents },
        EmbeddedFile { target_path: ".cursor/skills/architecture-decision/SKILL.md", content: templates::ARCHITECTURE_DECISION_SKILL, category: FileCategory::Skills },
        EmbeddedFile { target_path: ".cursor/skills/code-review/SKILL.md", content: templates::CODE_REVIEW_SKILL, category: FileCategory::Skills },
        EmbeddedFile { target_path: ".cursor/skills/research-methodology/SKILL.md", content: templates::RESEARCH_METHODOLOGY_SKILL, category: FileCategory::Skills },
        EmbeddedFile { target_path: ".cursor/skills/security-audit/SKILL.md", content: templates::SECURITY_AUDIT_SKILL, category: FileCategory::Skills },
    ];
    assert(r@ =~= catalog());
    r
}

/// The categories in an optional filter list, as a sequence.
pub open spec fn filter_view(o: Option<&[FileCategory]>) -> Option<Seq<FileCategory>> {
    match o {
        Some(cats) => Some(cats@),
        None => None,
    }
}

/// Whether a file of category `c` passes the include list `only` and the
/// exclude list `skip`; an absent list does not restrict.
pub open spec fn keeps(
    only: Option<Seq<FileCategory>>,
    skip: Option<Seq<FileCategory>>,
    c: FileCategory,
) -> bool {
    &&& (only is None || only->0.contains(c))
    &&& (skip is None || !skip->0.contains(c))
}

/// The files of `files` that pass the filter, in their order.
pub open spec fn filtered(
    files: Seq<EmbeddedFile>,
    only: Option<Seq<FileCategory>>,
    skip: Option<Seq<FileCategory>>,
) -> Seq<EmbeddedFile> {
    files.filter(keeps_file(only, skip))
}

/// The filter as a predicate on files.
pub open spec fn keeps_file(
    only: Option<Seq<FileCategory>>,
    skip: Option<Seq<FileCategory>>,
) -> spec_fn(EmbeddedFile) -> bool {
    |f: EmbeddedFile| keeps(only, skip, f.category)
}

/// Whether `c` occurs in `cats`.
fn category_in(cats: &[FileCategory], c: FileCategory) -> (r: bool)
    ensures
        r == cats@.contains(c),
{
    let mut i: usize = 0;
    while i < cats.len()
        invariant
            i <= cats@.len(),
            forall|j: int| 0 <= j < i ==> cats@[j] != c,
        decreases cats@.len() - i,
    {
        if cats[i] == c {
            assert(cats@[i as int] == c);
            return true;
        }
        i = i + 1;
    }
    false
}

/// Whether a file of category `c` passes the filter.
fn passes(only: Option<&[FileCategory]>, skip: Option<&[FileCategory]>, c: FileCategory) -> (r:
    bool)
    ensures
        r == keeps(filter_view(only), filter_view(skip), c),
{
    if let Some(only_cats) = only {
        if !category_in(only_cats, c) {
            return false;
        }
    }
    if let Some(skip_cats) = skip {
        if category_in(skip_cats, c) {
            return false;
        }
    }
    true
}

/// Returns the catalog entries whose category is in `only` (when given) and
/// not in `skip` (when given), in catalog order. A category in both lists is
/// left out.
pub fn get_files_by_categories(
    only: Option<&[FileCategory]>,
    skip: Option<&[FileCategory]>,
) -> (r: Vec<EmbeddedFile>)
    ensures
        r@ == filtered(catalog(), filter_view(only), filter_view(skip)),
{
    let all = get_all_files();
    let ghost pred = keeps_file(filter_view(only), filter_view(skip));
    let mut r: Vec<EmbeddedFile> = Vec::new();
    let mut i: usize = 0;
    while i < all.len()
        invariant
            all@ == catalog(),
            pred == keeps_file(filter_view(only), filter_view(skip)),
            i <= all@.len(),
            r@ == all@.take(i as int).filter(pred),
        decreases all@.len() - i,
    {
        let f = all[i];
        proof {
            reveal(Seq::filter);
            assert(all@.take(i + 1).drop_last() == all@.take(i as int));
            assert(all@.take(i + 1).last() == f);
        }
        if passes(only, skip, f.category) {
            r.push(f);
        }
        assert(pred(f) == keeps(filter_view(only), filter_view(skip), f.category));
        i = i + 1;
    }
    assert(all@.take(all@.len() as int) == all@);
    r
}

/// With neither list given, the filter keeps every file, in order.
pub proof fn lemma_unfiltered_is_all(files: Seq<EmbeddedFile>)
    ensures
        filtered(files, None, None) == files,
    decreases files.len(),
{
    reveal(Seq::filter);
    if files.len() > 0 {
        lemma_unfiltered_is_all(files.drop_last());
        assert(files.drop_last().push(files.last()) == files);
    }
}

/// Each category's token names that category again.
pub proof fn lemma_token_names_category(c: FileCategory)
    ensures
        category_named(category_token(c)) == Some(c),
{
    reveal_strlit("ai");
    reveal_strlit("rules");
    reveal_strlit("commands");
    reveal_strlit("hooks");
    reveal_strlit("skills");
    reveal_strlit("agents");
    assert("ai"@.len() == 2);
    assert("rules"@.len() == 5);
    assert("commands"@.len() == 8);
    assert("hooks"@.len() == 5);
    assert("skills"@.len() == 6);
    assert("agents"@.len() == 6);
    assert("rules"@[0] != "hooks"@[0]);
    assert("skills"@[0] != "agents"@[0]);
}

} // verus!

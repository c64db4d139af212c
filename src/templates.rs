//! The text of each managed file.
use vstd::prelude::*;

verus! {

pub const AI_CONTEXT: &'static str = "# Project Context\n\nDescribe the project, its architecture and its conventions here.\nAssistants read this file before starting any task.\n";

pub const AI_GUARDRAILS: &'static str = "# Guardrails\n\n- Never commit secrets.\n- Ask before deleting files.\n- Keep changes small and reviewable.\n";

pub const DECISION_TEMPLATE: &'static str = "# Decision: <title>\n\n## Context\n\n## Options\n\n## Decision\n\n## Consequences\n";

pub const PLAN_TEMPLATE: &'static str = "# Plan: <title>\n\n## Goal\n\n## Steps\n\n1. \n\n## Verification\n";

pub const RESEARCH_TEMPLATE: &'static str = "# Research: <topic>\n\n## Question\n\n## Findings\n\n## Open questions\n";

pub const AI_GUIDELINES_RULE: &'static str = "---\ndescription: General guidelines for assistant work\nalwaysApply: true\n---\n\nRead .ai/ai-context.md and .ai/ai-guardrails.md before acting.\n";

pub const CORE_PRINCIPLES_RULE: &'static str = "---\ndescription: Core engineering principles\nalwaysApply: true\n---\n\nPrefer simple, tested, incremental changes.\n";

pub const SECURITY_PATTERNS_RULE: &'static str = "---\ndescription: Security patterns\nalwaysApply: true\n---\n\nValidate input, avoid injection, keep credentials out of source.\n";

pub const THREE_PHASE_RULE: &'static str = "---\ndescription: Research, plan, implement\nalwaysApply: true\n---\n\nWork in three phases: research, plan, implement.\n";

pub const ADR_COMMAND: &'static str = "# /adr\n\nRecord an architecture decision using .ai/template/decision.md.\n";

pub const COMMIT_COMMAND: &'static str = "# /commit\n\nSummarise the staged changes and write a conventional commit message.\n";

pub const IMPLEMENT_COMMAND: &'static str = "# /implement\n\nCarry out the approved plan step by step, verifying each step.\n";

pub const PLAN_COMMAND: &'static str = "# /plan\n\nWrite a plan using .ai/template/plan.md and wait for approval.\n";

pub const RESEARCH_COMMAND: &'static str = "# /research\n\nInvestigate the question and record findings using .ai/template/research.md.\n";

pub const REVIEW_COMMAND: &'static str = "# /review\n\nReview the current changes for correctness, security and style.\n";

pub const SYNC_COMMAND: &'static str = "# /sync\n\nUpdate .ai/ai-context.md with what was learned in this session.\n";

pub const HOOKS_CONFIG: &'static str = "{\n  \"version\": 1,\n  \"hooks\": {\n    \"beforeSubmitPrompt\": [{ \"command\": \"./hooks/inject-context.ps1\" }],\n    \"afterFileEdit\": [{ \"command\": \"./hooks/post-edit-check.ps1\" }],\n    \"stop\": [{ \"command\": \"./hooks/extract-learnings.ps1\" }]\n  }\n}\n";

pub const EXTRACT_LEARNINGS_HOOK: &'static str = "# Collects notes from the finished session into .ai/ai-context.md\n$input | Out-Null\nexit 0\n";

pub const INJECT_CONTEXT_HOOK: &'static str = "# Adds the project context to each prompt\n$input | Out-Null\nexit 0\n";

pub const POST_EDIT_CHECK_HOOK: &'static str = "# Runs quick checks after a file is edited\n$input | Out-Null\nexit 0\n";

pub const RESEARCHER_AGENT: &'static str = "# Researcher\n\nGathers facts from the code base and documentation; never edits files.\n";

pub const VERIFIER_AGENT: &'static str = "# Verifier\n\nChecks that an implementation matches its plan and that tests pass.\n";

pub const ARCHITECTURE_DECISION_SKILL: &'static str = "---\nname: architecture-decision\ndescription: Weigh options and record an architecture decision\n---\n";

pub const CODE_REVIEW_SKILL: &'static str = "---\nname: code-review\ndescription: Review a change for defects and clarity\n---\n";

pub const RESEARCH_METHODOLOGY_SKILL: &'static str = "---\nname: research-methodology\ndescription: Investigate a question systematically and cite sources\n---\n";

pub const SECURITY_AUDIT_SKILL: &'static str = "---\nname: security-audit\ndescription: Look for common vulnerabilities in a change\n---\n";

} // verus!

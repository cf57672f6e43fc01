//! Filling the summary and changelog sections of a pull request body from
//! a generated response.
use vstd::prelude::*;
use crate::text::{
    chars_of, contains, find, find_at_or_after, find_from, join, lines, lines_view, lower_of,
    lowercase, push_all, push_range, replace, replace_all, spec_contains, spec_find, spec_join,
    spec_lines, spec_trim, string_of, trim, utf8_len, utf8_longer_than,
};

verus! {

pub const SUMMARY_PLACEHOLDER: &'static str =
    "> 🤖 *Leave this placeholder to let AI generate, or replace with your summary.*";

pub const CHANGELOG_PLACEHOLDER: &'static str =
    "> 🤖 *Leave this placeholder to let AI generate, or replace with your entries:*";

pub const CHANGELOG_START: &'static str = "<!-- RIBIR_CHANGELOG_START -->";

pub const CHANGELOG_END: &'static str = "<!-- RIBIR_CHANGELOG_END -->";

pub const SKIP_CHANGELOG_CHECKED: &'static str =
    "- [x] 🛠️ No changelog needed (tests, CI, infra, or unreleased fix)";

/// What to regenerate, with optional extra context from the user.
#[derive(Clone, Debug)]
pub enum Mode {
    Auto,
    RegenerateAll(Option<String>),
    SummaryOnly(Option<String>),
    ChangelogOnly(Option<String>),
}

/// A generated summary and changelog.
#[derive(Clone, Debug)]
pub struct GeminiResponse {
    pub summary: String,
    pub changelog: String,
    pub skip_changelog: bool,
}

impl Mode {
    /// Whether the summary and the changelog are to be generated for `body`:
    /// in automatic mode, where their placeholders are still in the body.
    pub open spec fn spec_needs(&self, body: Seq<char>) -> (bool, bool) {
        match self {
            Mode::Auto => (
                spec_contains(body, SUMMARY_PLACEHOLDER@),
                spec_contains(body, CHANGELOG_PLACEHOLDER@),
            ),
            Mode::RegenerateAll(_) => (true, true),
            Mode::SummaryOnly(_) => (true, false),
            Mode::ChangelogOnly(_) => (false, true),
        }
    }

    pub fn needs(&self, body: &str) -> (r: (bool, bool))
        ensures
            r == self.spec_needs(body@),
    {
        match self {
            Mode::Auto => {
                let b = chars_of(body);
                (contains(&b, &chars_of(SUMMARY_PLACEHOLDER)), contains(&b, &chars_of(CHANGELOG_PLACEHOLDER)))
            },
            Mode::RegenerateAll(_) => (true, true),
            Mode::SummaryOnly(_) => (true, false),
            Mode::ChangelogOnly(_) => (false, true),
        }
    }

    /// The user's extra context, if the mode carries one.
    pub fn context(&self) -> (r: Option<&String>)
        ensures
            match self {
                Mode::Auto => r is None,
                Mode::RegenerateAll(c) => spec_context_of(r, *c),
                Mode::SummaryOnly(c) => spec_context_of(r, *c),
                Mode::ChangelogOnly(c) => spec_context_of(r, *c),
            },
    {
        match self {
            Mode::Auto => None,
            Mode::RegenerateAll(c) => c.as_ref(),
            Mode::SummaryOnly(c) => c.as_ref(),
            Mode::ChangelogOnly(c) => c.as_ref(),
        }
    }
}

/// `r` hands out the context `c`.
pub open spec fn spec_context_of(r: Option<&String>, c: Option<String>) -> bool {
    match c {
        Some(ctx) => r is Some && *r->0 == ctx,
        None => r is None,
    }
}

/// `s` cut to its first `max_len` characters, followed by `suffix`, when
/// it takes more than `max_len` bytes; `s` otherwise.
pub open spec fn spec_truncate(s: Seq<char>, max_len: nat, suffix: Seq<char>) -> Seq<char> {
    if utf8_len(s) > max_len {
        s.take(if max_len < s.len() { max_len as int } else { s.len() as int }) + suffix
    } else {
        s
    }
}

/// Truncates `s` to `max_len` characters plus `suffix` when it is longer
/// than `max_len` bytes.
pub fn truncate(s: &mut String, max_len: usize, suffix: &str)
    ensures
        final(s)@ == spec_truncate(old(s)@, max_len as nat, suffix@),
{
    let cs = chars_of(s.as_str());
    if utf8_longer_than(&cs, max_len) {
        let keep = if max_len < cs.len() {
            max_len
        } else {
            cs.len()
        };
        let mut out: Vec<char> = Vec::new();
        push_range(&mut out, &cs, 0, keep);
        push_all(&mut out, &chars_of(suffix));
        proof {
            assert(cs@.subrange(0, keep as int) =~= cs@.take(keep as int));
        }
        *s = string_of(&out);
    }
}

/// The end of the first fenced code block that opens at or after `start`:
/// just past its closing fence.
pub open spec fn spec_code_block_end(text: Seq<char>, start: int) -> Option<int> {
    match find_from(text, "```"@, start) {
        None => None,
        Some(p) => match find_from(text, "```"@, p + 3) {
            None => None,
            Some(q) => Some(q + 3),
        },
    }
}

pub fn find_code_block_end(text: &Vec<char>, start: usize) -> (r: Option<usize>)
    requires
        start <= text.len(),
    ensures
        match r {
            Some(e) => spec_code_block_end(text@, start as int) == Some(e as int) && e <= text.len(),
            None => spec_code_block_end(text@, start as int) is None,
        },
{
    let fence = chars_of("```");
    proof {
        reveal_strlit("```");
    }
    let p = match find_at_or_after(text, &fence, start) {
        Some(p) => p,
        None => return None,
    };
    proof {
        crate::text::lemma_find_from_found(text@, fence@, start as int);
    }
    let q = match find_at_or_after(text, &fence, p + 3) {
        Some(q) => q,
        None => return None,
    };
    proof {
        crate::text::lemma_find_from_found(text@, fence@, p + 3);
    }
    Some(q + 3)
}

/// The body with its changelog section replaced by `content`: between the
/// changelog markers when both are there in order; otherwise in place of
/// the changelog placeholder and the code block that follows it; otherwise
/// the body unchanged.
pub open spec fn spec_replace_changelog(body: Seq<char>, content: Seq<char>) -> Seq<char> {
    let marked = match (spec_find(body, CHANGELOG_START@), spec_find(body, CHANGELOG_END@)) {
        (Some(s), Some(e)) => if s + CHANGELOG_START@.len() < e {
            Some(body.subrange(0, s + CHANGELOG_START@.len()) + "\n\n"@ + content + "\n\n"@ + body.subrange(e, body.len() as int))
        } else {
            None
        },
        _ => None,
    };
    match marked {
        Some(r) => r,
        None => match spec_find(body, CHANGELOG_PLACEHOLDER@) {
            None => body,
            Some(start) => {
                let after = start + CHANGELOG_PLACEHOLDER@.len();
                let end = match spec_code_block_end(body, after) {
                    Some(e) => e,
                    None => after,
                };
                body.subrange(0, start) + content + body.subrange(end, body.len() as int)
            },
        },
    }
}

/// What goes into the changelog section: the checked "no changelog" box
/// when the changelog is skipped, the entries otherwise.
pub open spec fn spec_changelog_content(changelog: Seq<char>, skip_changelog: bool) -> Seq<char> {
    if skip_changelog {
        SKIP_CHANGELOG_CHECKED@
    } else {
        changelog
    }
}

/// Replaces the changelog section of a pull request body.
pub fn replace_changelog_section(body: &str, changelog: &str, skip_changelog: bool) -> (r: String)
    ensures
        r@ == spec_replace_changelog(body@, spec_changelog_content(changelog@, skip_changelog)),
{
    let b = chars_of(body);
    let content = if skip_changelog {
        chars_of(SKIP_CHANGELOG_CHECKED)
    } else {
        chars_of(changelog)
    };
    let r = replace_changelog_chars(&b, &content);
    string_of(&r)
}

fn replace_changelog_chars(b: &Vec<char>, content: &Vec<char>) -> (r: Vec<char>)
    ensures
        r@ == spec_replace_changelog(b@, content@),
{
    let sm = chars_of(CHANGELOG_START);
    let em = chars_of(CHANGELOG_END);
    let n = b.len();
    let two_newlines = chars_of("\n\n");
    match (find(b, &sm), find(b, &em)) {
        (Some(s), Some(e)) => {
            proof {
                crate::text::lemma_find_from_found(b@, sm@, 0);
                crate::text::lemma_find_from_found(b@, em@, 0);
            }
            let content_start = s + sm.len();
            if content_start < e {
                let mut out: Vec<char> = Vec::new();
                push_range(&mut out, b, 0, content_start);
                push_all(&mut out, &two_newlines);
                push_all(&mut out, content);
                push_all(&mut out, &two_newlines);
                push_range(&mut out, b, e, n);
                proof {
                    assert(out@ =~= b@.subrange(0, content_start as int) + "\n\n"@ + content@ + "\n\n"@
                        + b@.subrange(e as int, n as int));
                }
                return out;
            }
        },
        _ => {},
    }
    let ph = chars_of(CHANGELOG_PLACEHOLDER);
    let start = match find(b, &ph) {
        Some(start) => start,
        None => return clone_chars(b),
    };
    proof {
        crate::text::lemma_find_from_found(b@, ph@, 0);
    }
    let after = start + ph.len();
    let end = match find_code_block_end(b, after) {
        Some(e) => e,
        None => after,
    };
    let mut out: Vec<char> = Vec::new();
    push_range(&mut out, b, 0, start);
    push_all(&mut out, content);
    push_range(&mut out, b, end, n);
    proof {
        assert(out@ =~= b@.subrange(0, start as int) + content@ + b@.subrange(end as int, n as int));
    }
    out
}

fn clone_chars(b: &Vec<char>) -> (r: Vec<char>)
    ensures
        r@ == b@,
{
    let mut r: Vec<char> = Vec::new();
    push_all(&mut r, b);
    proof {
        assert(r@ =~= b@);
    }
    r
}

/// The body with the summary placeholder replaced by the summary when the
/// summary is needed, then its changelog section replaced when the
/// changelog is needed.
pub open spec fn spec_update_pr_body(
    body: Seq<char>,
    response: GeminiResponse,
    needs_summary: bool,
    needs_changelog: bool,
) -> Seq<char> {
    let with_summary = if needs_summary {
        replace_all(body, SUMMARY_PLACEHOLDER@, response.summary@)
    } else {
        body
    };
    if needs_changelog {
        spec_replace_changelog(with_summary, spec_changelog_content(response.changelog@, response.skip_changelog))
    } else {
        with_summary
    }
}

/// Fills a pull request body from a generated response.
pub fn update_pr_body(body: &str, response: &GeminiResponse, needs_summary: bool, needs_changelog: bool) -> (r: String)
    ensures
        r@ == spec_update_pr_body(body@, *response, needs_summary, needs_changelog),
{
    let b = chars_of(body);
    let ph = chars_of(SUMMARY_PLACEHOLDER);
    proof {
        reveal_strlit("> 🤖 *Leave this placeholder to let AI generate, or replace with your summary.*");
    }
    let with_summary = if needs_summary {
        replace(&b, &ph, &chars_of(response.summary.as_str()))
    } else {
        b
    };
    if needs_changelog {
        let content = if response.skip_changelog {
            chars_of(SKIP_CHANGELOG_CHECKED)
        } else {
            chars_of(response.changelog.as_str())
        };
        string_of(&replace_changelog_chars(&with_summary, &content))
    } else {
        string_of(&with_summary)
    }
}

/// Why a generated response was refused.
#[derive(Clone, Copy, PartialEq, Eq, Structural, Debug)]
pub enum ResponseError {
    EmptySummary,
    InvalidChangelogFormat,
}

/// A line, already lower-cased, that holds no script, frame or
/// `javascript:` link.
pub open spec fn spec_is_safe_lowered(lower: Seq<char>) -> bool {
    !spec_contains(lower, "<script"@) && !spec_contains(lower, "<iframe"@) && !spec_contains(
        lower,
        "javascript:"@,
    )
}

/// Whether a lower-cased line is safe to keep.
pub fn is_safe_lowered(lower: &Vec<char>) -> (r: bool)
    ensures
        r == spec_is_safe_lowered(lower@),
{
    !contains(lower, &chars_of("<script")) && !contains(lower, &chars_of("<iframe")) && !contains(
        lower,
        &chars_of("javascript:"),
    )
}

/// The lines of `s` that are safe once lower-cased, joined by newlines.
pub open spec fn spec_sanitize_markdown(s: Seq<char>) -> Seq<char> {
    spec_join(spec_lines(s).filter(|l: Seq<char>| spec_is_safe_lowered(lower_of(l))), "\n"@)
}

/// Drops the lines of generated markdown that could run script.
pub fn sanitize_markdown(s: &str) -> (r: String)
    ensures
        r@ == spec_sanitize_markdown(s@),
{
    string_of(&sanitize_chars(&chars_of(s)))
}

fn sanitize_chars(s: &Vec<char>) -> (r: Vec<char>)
    ensures
        r@ == spec_sanitize_markdown(s@),
{
    let all = lines(s);
    let ghost pred = |l: Seq<char>| spec_is_safe_lowered(lower_of(l));
    let mut kept: Vec<Vec<char>> = Vec::new();
    let mut i: usize = 0;
    proof {
        reveal(Seq::filter);
        assert(lines_view(all@).subrange(0, 0) =~= Seq::<Seq<char>>::empty());
        assert(lines_view(kept@) =~= Seq::<Seq<char>>::empty());
    }
    while i < all.len()
        invariant
            i <= all@.len(),
            pred == (|l: Seq<char>| spec_is_safe_lowered(lower_of(l))),
            lines_view(kept@) == lines_view(all@).subrange(0, i as int).filter(pred),
        decreases all.len() - i,
    {
        let line = &all[i];
        let keep = is_safe_lowered(&lowercase(line));
        let ghost before = kept@;
        if keep {
            let mut copy: Vec<char> = Vec::new();
            push_all(&mut copy, line);
            kept.push(copy);
            proof {
                assert(copy@ =~= line@);
                assert(lines_view(kept@) =~= lines_view(before).push(line@));
            }
        }
        proof {
            reveal(Seq::filter);
            let sub = lines_view(all@).subrange(0, i + 1);
            assert(sub.drop_last() =~= lines_view(all@).subrange(0, i as int));
            assert(sub.last() == all@[i as int]@);
            assert(pred(all@[i as int]@) == keep);
        }
        i = i + 1;
    }
    proof {
        assert(lines_view(all@).subrange(0, all@.len() as int) =~= lines_view(all@));
    }
    join(&kept, &chars_of("\n"))
}

/// Some line of `s`, trimmed, starts with `-`.
pub open spec fn spec_has_bullet(s: Seq<char>) -> bool {
    exists|k: int|
        0 <= k < spec_lines(s).len() && #[trigger] spec_trim(spec_lines(s)[k]).len() > 0
            && spec_trim(spec_lines(s)[k])[0] == '-'
}

pub fn has_bullet(s: &Vec<char>) -> (r: bool)
    ensures
        r == spec_has_bullet(s@),
{
    let all = lines(s);
    let mut i: usize = 0;
    while i < all.len()
        invariant
            i <= all@.len(),
            lines_view(all@) == spec_lines(s@),
            forall|k: int|
                0 <= k < i ==> !(#[trigger] spec_trim(spec_lines(s@)[k]).len() > 0 && spec_trim(
                    spec_lines(s@)[k],
                )[0] == '-'),
        decreases all.len() - i,
    {
        let t = trim(&all[i]);
        proof {
            assert(all@[i as int]@ == spec_lines(s@)[i as int]);
        }
        if t.len() > 0 && t[0] == '-' {
            return true;
        }
        i = i + 1;
    }
    false
}

pub const SUMMARY_LIMIT: usize = 1000;

pub const CHANGELOG_LIMIT: usize = 5000;

/// The response with both texts sanitized and truncated; refused when the
/// sanitized summary is blank, or when the changelog is not skipped and
/// has no bullet line.
pub open spec fn spec_sanitize_response(r: GeminiResponse) -> Result<(Seq<char>, Seq<char>), ResponseError> {
    let summary = spec_sanitize_markdown(r.summary@);
    let changelog = spec_sanitize_markdown(r.changelog@);
    if spec_trim(summary).len() == 0 {
        Err(ResponseError::EmptySummary)
    } else if !r.skip_changelog && !spec_has_bullet(changelog) {
        Err(ResponseError::InvalidChangelogFormat)
    } else {
        Ok(
            (
                spec_truncate(summary, SUMMARY_LIMIT as nat, "..."@),
                spec_truncate(changelog, CHANGELOG_LIMIT as nat, "\n...(truncated)"@),
            ),
        )
    }
}

/// Sanitizes and checks a generated response.
pub fn sanitize_response(response: GeminiResponse) -> (r: Result<GeminiResponse, ResponseError>)
    ensures
        match r {
            Ok(out) => spec_sanitize_response(response) == Ok::<(Seq<char>, Seq<char>), ResponseError>(
                (out.summary@, out.changelog@),
            ) && out.skip_changelog == response.skip_changelog,
            Err(e) => spec_sanitize_response(response) == Err::<(Seq<char>, Seq<char>), ResponseError>(e),
        },
{
    let summary = sanitize_chars(&chars_of(response.summary.as_str()));
    let changelog = sanitize_chars(&chars_of(response.changelog.as_str()));
    if trim(&summary).len() == 0 {
        return Err(ResponseError::EmptySummary);
    }
    if !response.skip_changelog && !has_bullet(&changelog) {
        return Err(ResponseError::InvalidChangelogFormat);
    }
    let mut summary = string_of(&summary);
    let mut changelog = string_of(&changelog);
    truncate(&mut summary, SUMMARY_LIMIT, "...");
    truncate(&mut changelog, CHANGELOG_LIMIT, "\n...(truncated)");
    Ok(GeminiResponse { summary, changelog, skip_changelog: response.skip_changelog })
}

pub const PROMPT_TEMPLATE: &'static str = "You are a helpful assistant that summarizes GitHub Pull Requests.

PR Title: {title}
PR Description:
{body}

Commits:
{commits}

TASK:
1. Generate a summary with this EXACT structure:
   **Context**: A short sentence explaining why this change is needed.
   **Changes**:
   - Bullet points describing what was changed.
   Use short, clear sentences. Avoid long, complex ones.
2. Determine if this PR should SKIP changelog:
   - Set skip_changelog=true for: CI/CD, bot updates, tests, internal tools, infrastructure.
   - Set skip_changelog=false for: features, bug fixes, breaking changes, docs, user-facing items.
3. If skip_changelog=false, generate changelog entries: `- type(scope): description`
   Types: feat, fix, change, docs, breaking
   Scopes: core, gpu, macros, widgets, themes, painter, cli, text, tools

OUTPUT: Return ONLY JSON with keys 'summary', 'changelog', and 'skip_changelog'.
Examples:
{{\"summary\": \"**Context**: The renderer was slow on large trees.\\n**Changes**:\\n- Refactored rendering pipeline to use batching.\\n- Improved performance by 40%.\", \"changelog\": \"- fix(core): prevent crash\", \"skip_changelog\": false}}
{{\"summary\": \"**Context**: CI failing on Windows.\\n**Changes**:\\n- Fixed path handling in workflow file.\", \"changelog\": \"\", \"skip_changelog\": true}}";

/// A pull request's title and body.
#[derive(Clone, Debug)]
pub struct PrView {
    pub title: String,
    pub body: String,
}

/// One commit of a pull request.
#[derive(Clone, Debug)]
pub struct Commit {
    pub message_headline: String,
    pub message_body: String,
}

/// The line of a commit: its headline, then its body indented under it.
pub open spec fn spec_commit_line(c: Commit) -> Seq<char> {
    if c.message_body@.len() == 0 {
        "- "@ + c.message_headline@
    } else {
        "- "@ + c.message_headline@ + "\n  "@ + replace_all(c.message_body@, "\n"@, "\n  "@)
    }
}

/// The commits, one line each, joined by newlines; a note when there are
/// none.
pub open spec fn spec_format_commits(commits: Seq<Commit>) -> Seq<char> {
    if commits.len() == 0 {
        "(No commits found)"@
    } else {
        spec_join(commits.map_values(|c: Commit| spec_commit_line(c)), "\n"@)
    }
}

fn commit_line(c: &Commit) -> (r: Vec<char>)
    ensures
        r@ == spec_commit_line(*c),
{
    let mut out = chars_of("- ");
    push_all(&mut out, &chars_of(c.message_headline.as_str()));
    let body = chars_of(c.message_body.as_str());
    if body.len() > 0 {
        push_all(&mut out, &chars_of("\n  "));
        proof {
            reveal_strlit("\n");
        }
        push_all(&mut out, &replace(&body, &chars_of("\n"), &chars_of("\n  ")));
    }
    out
}

/// Formats the commits of a pull request for the prompt.
pub fn format_commits(commits: &[Commit]) -> (r: String)
    ensures
        r@ == spec_format_commits(commits@),
{
    if commits.len() == 0 {
        return string_of(&chars_of("(No commits found)"));
    }
    let mut all: Vec<Vec<char>> = Vec::new();
    let mut i: usize = 0;
    while i < commits.len()
        invariant
            i <= commits@.len(),
            lines_view(all@) == commits@.subrange(0, i as int).map_values(|c: Commit| spec_commit_line(c)),
        decreases commits.len() - i,
    {
        let line = commit_line(&commits[i]);
        let ghost before = all@;
        all.push(line);
        proof {
            assert(lines_view(all@) =~= lines_view(before).push(line@));
            assert(commits@.subrange(0, i + 1).map_values(|c: Commit| spec_commit_line(c))
                =~= commits@.subrange(0, i as int).map_values(|c: Commit| spec_commit_line(c)).push(
                spec_commit_line(commits@[i as int]),
            ));
        }
        i = i + 1;
    }
    proof {
        assert(commits@.subrange(0, commits@.len() as int) =~= commits@);
    }
    string_of(&join(&all, &chars_of("\n")))
}

/// The prompt: the template with the title, body and commits filled in,
/// after a block with the user's context when there is one.
pub open spec fn spec_build_prompt(pr: PrView, commits: Seq<char>, context: Option<Seq<char>>) -> Seq<char> {
    let base = replace_all(
        replace_all(replace_all(PROMPT_TEMPLATE@, "{title}"@, pr.title@), "{body}"@, pr.body@),
        "{commits}"@,
        commits,
    );
    match context {
        Some(ctx) => "ADDITIONAL CONTEXT FROM USER:\n"@ + ctx + "\n\n"@ + base,
        None => base,
    }
}

/// Builds the prompt that asks for a summary and changelog.
pub fn build_prompt(pr: &PrView, commits: &str, context: Option<&str>) -> (r: String)
    ensures
        r@ == spec_build_prompt(
            *pr,
            commits@,
            match context {
                Some(c) => Some(c@),
                None => None,
            },
        ),
{
    proof {
        reveal_strlit("{title}");
        reveal_strlit("{body}");
        reveal_strlit("{commits}");
    }
    let t = replace(&chars_of(PROMPT_TEMPLATE), &chars_of("{title}"), &chars_of(pr.title.as_str()));
    let b = replace(&t, &chars_of("{body}"), &chars_of(pr.body.as_str()));
    let base = replace(&b, &chars_of("{commits}"), &chars_of(commits));
    match context {
        Some(ctx) => {
            let mut out = chars_of("ADDITIONAL CONTEXT FROM USER:\n");
            push_all(&mut out, &chars_of(ctx));
            push_all(&mut out, &chars_of("\n\n"));
            push_all(&mut out, &base);
            string_of(&out)
        },
        None => string_of(&base),
    }
}

/// The text from the first `{` to the last `}`, both included; none when
/// either is missing or the last `}` comes before the first `{`.
pub open spec fn spec_extract_json(s: Seq<char>) -> Option<Seq<char>> {
    match (spec_find(s, "{"@), s.index_of_last('}')) {
        (Some(a), Some(b)) => if a <= b {
            Some(s.subrange(a, b + 1))
        } else {
            None
        },
        _ => None,
    }
}

/// Extracts the JSON object from a model's answer.
pub fn extract_json(s: &str) -> (r: Option<String>)
    ensures
        match r {
            Some(j) => spec_extract_json(s@) == Some(j@),
            None => spec_extract_json(s@) is None,
        },
{
    let cs = chars_of(s);
    let open = chars_of("{");
    let a = match find(&cs, &open) {
        Some(a) => a,
        None => return None,
    };
    let mut j: usize = cs.len();
    while j > 0 && cs[j - 1] != '}'
        invariant
            j <= cs@.len(),
            forall|k: int| j <= k < cs@.len() ==> cs@[k] != '}',
        decreases j,
    {
        j = j - 1;
    }
    if j == 0 {
        proof {
            assert(!cs@.contains('}'));
            cs@.index_of_last_ensures('}');
        }
        return None;
    }
    proof {
        assert(cs@[j - 1] == '}');
        assert(cs@.contains('}'));
        cs@.index_of_last_ensures('}');
    }
    let b = j - 1;
    if a <= b {
        Some(string_of(&crate::text::slice(&cs, a, b + 1)))
    } else {
        None
    }
}

} // verus!

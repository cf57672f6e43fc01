//! Release highlights: formatting them, and moving them between a pull
//! request body and a changelog.
use vstd::prelude::*;
use crate::text::{
    chars_of, find, find_at_or_after, find_from, push_all, push_range, replace, replace_all, slice,
    spec_find, spec_trim, string_of, trim,
};

verus! {

pub const HIGHLIGHTS_START_MARKER: &'static str = "<!-- HIGHLIGHTS_START -->";

pub const HIGHLIGHTS_END_MARKER: &'static str = "<!-- HIGHLIGHTS_END -->";

/// One highlight of a release.
#[derive(Clone, Debug)]
pub struct Highlight {
    pub emoji: String,
    pub description: String,
}

/// Why a highlights edit was refused.
#[derive(Clone, Copy, PartialEq, Eq, Structural, Debug)]
pub enum HighlightsError {
    MissingStartMarker,
    MissingEndMarker,
    InvalidMarkers,
    VersionHeaderNotFound,
}

impl HighlightsError {
    pub open spec fn spec_message(self) -> Seq<char> {
        match self {
            HighlightsError::MissingStartMarker => "PR body missing HIGHLIGHTS_START marker"@,
            HighlightsError::MissingEndMarker => "PR body missing HIGHLIGHTS_END marker"@,
            HighlightsError::InvalidMarkers => "Invalid highlight markers in PR body"@,
            HighlightsError::VersionHeaderNotFound => "Version header not found"@,
        }
    }

    /// A sentence describing the error.
    pub fn message(&self) -> (r: String)
        ensures
            r@ == self.spec_message(),
    {
        match self {
            HighlightsError::MissingStartMarker => string_of(&chars_of("PR body missing HIGHLIGHTS_START marker")),
            HighlightsError::MissingEndMarker => string_of(&chars_of("PR body missing HIGHLIGHTS_END marker")),
            HighlightsError::InvalidMarkers => string_of(&chars_of("Invalid highlight markers in PR body")),
            HighlightsError::VersionHeaderNotFound => string_of(&chars_of("Version header not found")),
        }
    }
}

/// The markdown line of one highlight.
pub open spec fn highlight_line(h: Highlight) -> Seq<char> {
    "- "@ + h.emoji@ + " "@ + h.description@ + "\n"@
}

/// The markdown of a list of highlights: a bold title line, then one line
/// per highlight.
pub open spec fn spec_format_highlights(hs: Seq<Highlight>) -> Seq<char>
    decreases hs.len(),
{
    if hs.len() == 0 {
        "**Highlights:**\n"@
    } else {
        spec_format_highlights(hs.drop_last()) + highlight_line(hs.last())
    }
}

/// Formats highlights as markdown.
pub fn format_highlights(highlights: &[Highlight]) -> (r: String)
    ensures
        r@ == spec_format_highlights(highlights@),
{
    let mut out = chars_of("**Highlights:**\n");
    let dash = chars_of("- ");
    let space = chars_of(" ");
    let newline = chars_of("\n");
    let mut i: usize = 0;
    proof {
        assert(highlights@.subrange(0, 0) =~= Seq::<Highlight>::empty());
    }
    while i < highlights.len()
        invariant
            i <= highlights@.len(),
            dash@ == "- "@,
            space@ == " "@,
            newline@ == "\n"@,
            out@ == spec_format_highlights(highlights@.subrange(0, i as int)),
        decreases highlights.len() - i,
    {
        let h = &highlights[i];
        push_all(&mut out, &dash);
        push_all(&mut out, &chars_of(h.emoji.as_str()));
        push_all(&mut out, &space);
        push_all(&mut out, &chars_of(h.description.as_str()));
        push_all(&mut out, &newline);
        proof {
            let sub = highlights@.subrange(0, i + 1);
            assert(sub.drop_last() =~= highlights@.subrange(0, i as int));
            assert(sub.last() == highlights@[i as int]);
            assert(out@ =~= spec_format_highlights(highlights@.subrange(0, i as int)) + highlight_line(
                highlights@[i as int],
            ));
        }
        i = i + 1;
    }
    proof {
        assert(highlights@.subrange(0, highlights@.len() as int) =~= highlights@);
    }
    string_of(&out)
}

/// The text between the highlight markers of a pull request body, trimmed;
/// none when a marker is missing, the markers are out of order, or the text
/// is blank.
pub open spec fn spec_extract_highlights(body: Seq<char>) -> Option<Seq<char>> {
    let sm = HIGHLIGHTS_START_MARKER@;
    let em = HIGHLIGHTS_END_MARKER@;
    match (spec_find(body, sm), spec_find(body, em)) {
        (Some(s), Some(e)) => {
            let start = s + sm.len();
            if start >= e {
                None
            } else {
                let content = spec_trim(body.subrange(start, e));
                if content.len() == 0 {
                    None
                } else {
                    Some(content)
                }
            }
        },
        _ => None,
    }
}

/// Extracts the highlights section from a pull request body, as raw text
/// for the changelog.
pub fn extract_highlights_from_pr_body(body: &str) -> (r: Option<String>)
    ensures
        match r {
            Some(s) => spec_extract_highlights(body@) == Some(s@),
            None => spec_extract_highlights(body@) is None,
        },
{
    let b = chars_of(body);
    let sm = chars_of(HIGHLIGHTS_START_MARKER);
    let em = chars_of(HIGHLIGHTS_END_MARKER);
    let s = match find(&b, &sm) {
        Some(s) => s,
        None => return None,
    };
    let n = b.len();
    proof {
        crate::text::lemma_find_from_found(b@, sm@, 0);
    }
    let start = s + sm.len();
    let e = match find(&b, &em) {
        Some(e) => e,
        None => return None,
    };
    proof {
        crate::text::lemma_find_from_found(b@, em@, 0);
    }
    if start >= e {
        return None;
    }
    let content = trim(&slice(&b, start, e));
    if content.len() == 0 {
        None
    } else {
        Some(string_of(&content))
    }
}

/// The pull request body with the text between the highlight markers
/// replaced by a newline and `highlights_md`, or why it cannot be.
pub open spec fn spec_update_highlights(body: Seq<char>, md: Seq<char>) -> Result<Seq<char>, HighlightsError> {
    let sm = HIGHLIGHTS_START_MARKER@;
    let em = HIGHLIGHTS_END_MARKER@;
    match spec_find(body, sm) {
        None => Err(HighlightsError::MissingStartMarker),
        Some(s) => match spec_find(body, em) {
            None => Err(HighlightsError::MissingEndMarker),
            Some(e) => if s >= e {
                Err(HighlightsError::InvalidMarkers)
            } else {
                Ok(body.subrange(0, s + sm.len()) + "\n"@ + md + body.subrange(e, body.len() as int))
            },
        },
    }
}

/// Updates the highlights section of a pull request body.
pub fn update_pr_body_highlights(body: &str, highlights_md: &str) -> (r: Result<String, HighlightsError>)
    ensures
        match r {
            Ok(s) => spec_update_highlights(body@, highlights_md@) == Ok::<Seq<char>, HighlightsError>(s@),
            Err(e) => spec_update_highlights(body@, highlights_md@) == Err::<Seq<char>, HighlightsError>(e),
        },
{
    let b = chars_of(body);
    let sm = chars_of(HIGHLIGHTS_START_MARKER);
    let em = chars_of(HIGHLIGHTS_END_MARKER);
    let s = match find(&b, &sm) {
        Some(s) => s,
        None => return Err(HighlightsError::MissingStartMarker),
    };
    let e = match find(&b, &em) {
        Some(e) => e,
        None => return Err(HighlightsError::MissingEndMarker),
    };
    if s >= e {
        return Err(HighlightsError::InvalidMarkers);
    }
    let n = b.len();
    proof {
        crate::text::lemma_find_from_found(b@, sm@, 0);
        crate::text::lemma_find_from_found(b@, em@, 0);
    }
    let marker_end = s + sm.len();
    let mut out: Vec<char> = Vec::new();
    push_range(&mut out, &b, 0, marker_end);
    push_all(&mut out, &chars_of("\n"));
    push_all(&mut out, &chars_of(highlights_md));
    push_range(&mut out, &b, e, b.len());
    proof {
        assert(out@ =~= b@.subrange(0, marker_end as int) + "\n"@ + highlights_md@ + b@.subrange(e as int, b@.len() as int));
    }
    Ok(string_of(&out))
}

/// `## [version]`, the header of a release.
pub open spec fn plain_header(version: Seq<char>) -> Seq<char> {
    "## ["@ + version + "]"@
}

/// `## \[version\]`, the header of a release with escaped brackets.
pub open spec fn escaped_header(version: Seq<char>) -> Seq<char> {
    "## \\["@ + version + "\\]"@
}

/// Where the header of `version` starts, and whether it is the escaped
/// form; the plain form is looked for first.
pub open spec fn spec_find_header(changelog: Seq<char>, version: Seq<char>) -> Option<(int, bool)> {
    match spec_find(changelog, plain_header(version)) {
        Some(p) => Some((p, false)),
        None => match spec_find(changelog, escaped_header(version)) {
            Some(p) => Some((p, true)),
            None => None,
        },
    }
}

fn header_patterns(version: &Vec<char>) -> (r: (Vec<char>, Vec<char>))
    ensures
        r.0@ == plain_header(version@),
        r.1@ == escaped_header(version@),
{
    let mut plain = chars_of("## [");
    push_all(&mut plain, version);
    push_all(&mut plain, &chars_of("]"));
    let mut escaped = chars_of("## \\[");
    push_all(&mut escaped, version);
    push_all(&mut escaped, &chars_of("\\]"));
    (plain, escaped)
}

fn find_header(changelog: &Vec<char>, version: &Vec<char>) -> (r: Option<(usize, bool)>)
    ensures
        match r {
            Some((p, escaped)) => spec_find_header(changelog@, version@) == Some((p as int, escaped)),
            None => spec_find_header(changelog@, version@) is None,
        },
{
    let (plain, escaped) = header_patterns(version);
    match find(changelog, &plain) {
        Some(p) => Some((p, false)),
        None => match find(changelog, &escaped) {
            Some(p) => Some((p, true)),
            None => None,
        },
    }
}

/// The changelog with `"\n\n"` and `highlights` inserted at the end of the
/// header line of `version`, or an error when there is no such header.
pub open spec fn spec_insert_highlights(changelog: Seq<char>, version: Seq<char>, highlights: Seq<char>) -> Result<Seq<char>, HighlightsError> {
    match spec_find_header(changelog, version) {
        None => Err(HighlightsError::VersionHeaderNotFound),
        Some((p, _)) => {
            let insert_pos = match find_from(changelog, "\n"@, p) {
                Some(j) => j,
                None => changelog.len() as int,
            };
            Ok(changelog.subrange(0, insert_pos) + "\n\n"@ + highlights + changelog.subrange(insert_pos, changelog.len() as int))
        },
    }
}

/// Inserts highlights text into a changelog after the header of `version`.
pub fn insert_highlights_text(changelog: &str, version: &str, highlights_text: &str) -> (r: Result<String, HighlightsError>)
    ensures
        match r {
            Ok(s) => spec_insert_highlights(changelog@, version@, highlights_text@) == Ok::<Seq<char>, HighlightsError>(s@),
            Err(e) => spec_insert_highlights(changelog@, version@, highlights_text@) == Err::<Seq<char>, HighlightsError>(e),
        },
{
    let cl = chars_of(changelog);
    let v = chars_of(version);
    let p = match find_header(&cl, &v) {
        Some((p, _)) => p,
        None => return Err(HighlightsError::VersionHeaderNotFound),
    };
    let nl = chars_of("\n");
    let insert_pos = match find_at_or_after(&cl, &nl, p) {
        Some(j) => {
            proof {
                crate::text::lemma_find_from_found(cl@, nl@, p as int);
            }
            j
        },
        None => cl.len(),
    };
    let mut out: Vec<char> = Vec::new();
    push_range(&mut out, &cl, 0, insert_pos);
    push_all(&mut out, &chars_of("\n\n"));
    push_all(&mut out, &chars_of(highlights_text));
    push_range(&mut out, &cl, insert_pos, cl.len());
    proof {
        assert(out@ =~= cl@.subrange(0, insert_pos as int) + "\n\n"@ + highlights_text@ + cl@.subrange(
            insert_pos as int,
            cl@.len() as int,
        ));
    }
    Ok(string_of(&out))
}

/// The section of `version`: from its header to the next release header
/// (plain form looked for first) or the end, with brackets unescaped when
/// the header was escaped.
pub open spec fn spec_version_section(changelog: Seq<char>, version: Seq<char>) -> Option<Seq<char>> {
    match spec_find_header(changelog, version) {
        None => None,
        Some((start, escaped)) => {
            let end = match find_from(changelog, "\n## ["@, start + 3) {
                Some(j) => j,
                None => match find_from(changelog, "\n## \\["@, start + 3) {
                    Some(j) => j,
                    None => changelog.len() as int,
                },
            };
            let section = changelog.subrange(start, end);
            if escaped {
                Some(replace_all(replace_all(section, "\\["@, "["@), "\\]"@, "]"@))
            } else {
                Some(section)
            }
        },
    }
}

/// Extracts the section of `version` from a changelog.
pub fn extract_version_section(changelog: &str, version: &str) -> (r: Option<String>)
    ensures
        match r {
            Some(s) => spec_version_section(changelog@, version@) == Some(s@),
            None => spec_version_section(changelog@, version@) is None,
        },
{
    let cl = chars_of(changelog);
    let v = chars_of(version);
    let (start, escaped) = match find_header(&cl, &v) {
        Some(found) => found,
        None => return None,
    };
    let n = cl.len();
    proof {
        let (plain, esc) = (plain_header(v@), escaped_header(v@));
        reveal_strlit("## \\[");
        reveal_strlit("## [");
        if escaped {
            crate::text::lemma_find_from_found(cl@, esc, 0);
        } else {
            crate::text::lemma_find_from_found(cl@, plain, 0);
        }
    }
    let q1 = chars_of("\n## [");
    let q2 = chars_of("\n## \\[");
    let end = match find_at_or_after(&cl, &q1, start + 3) {
        Some(j) => {
            proof {
                crate::text::lemma_find_from_found(cl@, q1@, start + 3);
            }
            j
        },
        None => match find_at_or_after(&cl, &q2, start + 3) {
            Some(j) => {
                proof {
                    crate::text::lemma_find_from_found(cl@, q2@, start + 3);
                }
                j
            },
            None => cl.len(),
        },
    };
    let section = slice(&cl, start, end);
    if escaped {
        proof {
            reveal_strlit("\\[");
            reveal_strlit("\\]");
        }
        let open = replace(&section, &chars_of("\\["), &chars_of("["));
        let closed = replace(&open, &chars_of("\\]"), &chars_of("]"));
        Some(string_of(&closed))
    } else {
        Some(string_of(&section))
    }
}

} // verus!

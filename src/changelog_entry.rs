//! Changelog entries written as conventional commit heads
//! (`type(scope): description`), and the marked block of a pull request
//! body that holds them.
use vstd::prelude::*;
use crate::text::{
    chars_of, equals, find, lower_of, lowercase, slice, spec_find, spec_trim, string_of, trim,
};

verus! {

pub const MARKER_START: &'static str = "<!-- RIBIR_CHANGELOG_START -->";

pub const MARKER_END: &'static str = "<!-- RIBIR_CHANGELOG_END -->";

/// The section of a changelog an entry belongs to.
#[derive(Clone, Copy, PartialEq, Eq, Structural, Debug, Hash)]
pub enum SectionKind {
    Features,
    Fixed,
    Changed,
    Performance,
    Documentation,
    Breaking,
    Internal,
}

/// The section named by a lower-case, trimmed type word.
pub open spec fn spec_section_of(t: Seq<char>) -> Option<SectionKind> {
    if t == "feat"@ || t == "feature"@ || t == "features"@ {
        Some(SectionKind::Features)
    } else if t == "fix"@ || t == "fixed"@ {
        Some(SectionKind::Fixed)
    } else if t == "change"@ || t == "changed"@ {
        Some(SectionKind::Changed)
    } else if t == "perf"@ || t == "performance"@ {
        Some(SectionKind::Performance)
    } else if t == "docs"@ || t == "doc"@ || t == "documentation"@ {
        Some(SectionKind::Documentation)
    } else if t == "breaking"@ || t == "break"@ {
        Some(SectionKind::Breaking)
    } else if t == "internal"@ || t == "chore"@ || t == "refactor"@ || t == "other"@ {
        Some(SectionKind::Internal)
    } else {
        None
    }
}

/// The section named by a type word: trimmed, then lower-cased.
pub open spec fn spec_section_from_str(s: Seq<char>) -> Option<SectionKind> {
    spec_section_of(lower_of(spec_trim(s)))
}

fn is_word(t: &Vec<char>, w: &str) -> (r: bool)
    ensures
        r == (t@ == w@),
{
    equals(t, &chars_of(w))
}

impl SectionKind {
    /// The section named by a type word that is already trimmed and
    /// lower-cased.
    pub fn from_lowercase(t: &Vec<char>) -> (r: Option<SectionKind>)
        ensures
            r == spec_section_of(t@),
    {
        if is_word(t, "feat") || is_word(t, "feature") || is_word(t, "features") {
            Some(SectionKind::Features)
        } else if is_word(t, "fix") || is_word(t, "fixed") {
            Some(SectionKind::Fixed)
        } else if is_word(t, "change") || is_word(t, "changed") {
            Some(SectionKind::Changed)
        } else if is_word(t, "perf") || is_word(t, "performance") {
            Some(SectionKind::Performance)
        } else if is_word(t, "docs") || is_word(t, "doc") || is_word(t, "documentation") {
            Some(SectionKind::Documentation)
        } else if is_word(t, "breaking") || is_word(t, "break") {
            Some(SectionKind::Breaking)
        } else if is_word(t, "internal") || is_word(t, "chore") || is_word(t, "refactor") || is_word(
            t,
            "other",
        ) {
            Some(SectionKind::Internal)
        } else {
            None
        }
    }

    /// The section named by a type word, in any case and with surrounding
    /// white space.
    pub fn from_str(s: &str) -> (r: Option<SectionKind>)
        ensures
            r == spec_section_from_str(s@),
    {
        Self::from_chars(&chars_of(s))
    }

    fn from_chars(s: &Vec<char>) -> (r: Option<SectionKind>)
        ensures
            r == spec_section_from_str(s@),
    {
        Self::from_lowercase(&lowercase(&trim(s)))
    }

    /// The markdown heading of the section.
    pub open spec fn spec_header(self) -> Seq<char> {
        match self {
            SectionKind::Features => "### 🎨 Features"@,
            SectionKind::Fixed => "### 🐛 Fixed"@,
            SectionKind::Changed => "### 🔄 Changed"@,
            SectionKind::Performance => "### ⚡ Performance"@,
            SectionKind::Documentation => "### 📚 Documentation"@,
            SectionKind::Breaking => "### 💥 Breaking"@,
            SectionKind::Internal => "### 🔧 Internal"@,
        }
    }

    pub fn header(&self) -> (r: String)
        ensures
            r@ == self.spec_header(),
    {
        let text = match self {
            SectionKind::Features => "### 🎨 Features",
            SectionKind::Fixed => "### 🐛 Fixed",
            SectionKind::Changed => "### 🔄 Changed",
            SectionKind::Performance => "### ⚡ Performance",
            SectionKind::Documentation => "### 📚 Documentation",
            SectionKind::Breaking => "### 💥 Breaking",
            SectionKind::Internal => "### 🔧 Internal",
        };
        string_of(&chars_of(text))
    }
}

/// The trimmed text between the changelog markers of a pull request body;
/// none when a marker is missing or the markers are out of order.
pub open spec fn spec_extract_block(text: Seq<char>) -> Option<Seq<char>> {
    match (spec_find(text, MARKER_START@), spec_find(text, MARKER_END@)) {
        (Some(s), Some(e)) => {
            let start = s + MARKER_START@.len();
            if start < e {
                Some(spec_trim(text.subrange(start, e)))
            } else {
                None
            }
        },
        _ => None,
    }
}

/// Extracts the changelog block of a pull request body.
pub fn extract_block(text: &str) -> (r: Option<String>)
    ensures
        match r {
            Some(s) => spec_extract_block(text@) == Some(s@),
            None => spec_extract_block(text@) is None,
        },
{
    let t = chars_of(text);
    let sm = chars_of(MARKER_START);
    let em = chars_of(MARKER_END);
    let n = t.len();
    let s = match find(&t, &sm) {
        Some(s) => s,
        None => return None,
    };
    proof {
        crate::text::lemma_find_from_found(t@, sm@, 0);
    }
    let start = s + sm.len();
    let e = match find(&t, &em) {
        Some(e) => e,
        None => return None,
    };
    proof {
        crate::text::lemma_find_from_found(t@, em@, 0);
    }
    if start < e {
        Some(string_of(&trim(&slice(&t, start, e))))
    } else {
        None
    }
}

/// The section and the trimmed description of a conventional commit head:
/// the type is what precedes the first `:`, up to a `(` that opens a scope.
pub open spec fn spec_conventional_head(text: Seq<char>) -> Option<(SectionKind, Seq<char>)> {
    match spec_find(text, ":"@) {
        None => None,
        Some(i) => {
            let head = text.subrange(0, i);
            let desc = text.subrange(i + 1, text.len() as int);
            let type_word = match spec_find(head, "("@) {
                Some(j) => head.subrange(0, j),
                None => head,
            };
            match spec_section_from_str(type_word) {
                Some(kind) => Some((kind, spec_trim(desc))),
                None => None,
            }
        },
    }
}

/// Parses a conventional commit head into its section and description.
pub fn parse_conventional_head(text: &str) -> (r: Option<(SectionKind, String)>)
    ensures
        match r {
            Some((kind, desc)) => spec_conventional_head(text@) == Some((kind, desc@)),
            None => spec_conventional_head(text@) is None,
        },
{
    let t = chars_of(text);
    let colon = chars_of(":");
    let n = t.len();
    let i = match find(&t, &colon) {
        Some(i) => i,
        None => return None,
    };
    proof {
        reveal_strlit(":");
        crate::text::lemma_find_from_found(t@, colon@, 0);
    }
    let head = slice(&t, 0, i);
    let desc = slice(&t, i + 1, t.len());
    let paren = chars_of("(");
    let type_word = match find(&head, &paren) {
        Some(j) => {
            proof {
                crate::text::lemma_find_from_found(head@, paren@, 0);
            }
            slice(&head, 0, j)
        },
        None => head,
    };
    match SectionKind::from_chars(&type_word) {
        Some(kind) => Some((kind, string_of(&trim(&desc)))),
        None => None,
    }
}

/// The first index of `key` among `args`.
pub open spec fn spec_position(args: Seq<String>, key: Seq<char>) -> Option<int>
    decreases args.len(),
{
    if args.len() == 0 {
        None
    } else if args[0]@ == key {
        Some(0)
    } else {
        match spec_position(args.drop_first(), key) {
            Some(i) => Some(i + 1),
            None => None,
        }
    }
}

/// The argument that follows the first `key`, if any.
pub fn get_arg<'a>(args: &'a Vec<String>, key: &str) -> (r: Option<&'a String>)
    ensures
        match spec_position(args@, key@) {
            Some(i) => if i + 1 < args@.len() {
                r is Some && *r->0 == args@[i + 1]
            } else {
                r is None
            },
            None => r is None,
        },
{
    let k = string_of(&chars_of(key));
    let mut i: usize = 0;
    proof {
        assert(args@.subrange(0, args@.len() as int) =~= args@);
    }
    while i < args.len()
        invariant
            i <= args@.len(),
            k@ == key@,
            spec_position(args@, key@) == match spec_position(args@.subrange(i as int, args@.len() as int), key@) {
                Some(j) => Some(j + i),
                None => None::<int>,
            },
        decreases args.len() - i,
    {
        proof {
            let rest = args@.subrange(i as int, args@.len() as int);
            assert(rest.drop_first() =~= args@.subrange(i + 1, args@.len() as int));
            assert(rest[0] == args@[i as int]);
        }
        if args[i].eq(&k) {
            if i + 1 < args.len() {
                return Some(&args[i + 1]);
            } else {
                return None;
            }
        }
        i = i + 1;
    }
    proof {
        assert(args@.subrange(i as int, args@.len() as int).len() == 0);
    }
    None
}

} // verus!

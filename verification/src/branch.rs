//! Branches and the branch naming rule: a name is non-empty, has no leading
//! or trailing separator, no consecutive separators, and draws only on
//! alphanumerics, `-`, `_` and `/`.

use vstd::prelude::*;
use vstd::string::*;
use crate::errors::{GtError, GtResult};

verus! {

/// What `char::is_alphanumeric` returns: membership in the Unicode letter
/// and number categories.
pub uninterp spec fn spec_is_alphanumeric(c: char) -> bool;

/// Relies on `char::is_alphanumeric`: the result depends on the character
/// alone.
#[verifier::external_body]
pub fn char_is_alphanumeric(c: char) -> (r: bool)
    ensures
        r == spec_is_alphanumeric(c),
{
    c.is_alphanumeric()
}

/// A character the naming rule accepts.
pub open spec fn spec_name_char_ok(c: char) -> bool {
    spec_is_alphanumeric(c) || c == '-' || c == '_' || c == '/'
}

/// A separator character, which may not begin or end a name.
pub open spec fn spec_separator(c: char) -> bool {
    c == '/' || c == '-'
}

/// Two equal characters standing side by side somewhere in the sequence.
pub open spec fn spec_has_pair(s: Seq<char>, c: char) -> bool {
    exists|i: int| 0 <= i && i + 1 < s.len() && #[trigger] s[i] == c && s[i + 1] == c
}

/// The naming rule for branches: non-empty, no leading or trailing
/// separator, no consecutive separators (`..` or `//`), and only
/// alphanumerics, `-`, `_` and `/`.
pub open spec fn spec_valid_branch_name(s: Seq<char>) -> bool {
    &&& s.len() > 0
    &&& !spec_separator(s[0])
    &&& !spec_separator(s[s.len() - 1])
    &&& !spec_has_pair(s, '.')
    &&& !spec_has_pair(s, '/')
    &&& forall|i: int| 0 <= i < s.len() ==> spec_name_char_ok(#[trigger] s[i])
}

/// Checks a name against the naming rule.
pub fn branch_name_is_valid(name: &str) -> (r: bool)
    ensures
        r == spec_valid_branch_name(name@),
{
    let n = name.unicode_len();
    if n == 0 {
        return false;
    }
    let first = name.get_char(0);
    if first == '/' || first == '-' {
        return false;
    }
    let last = name.get_char(n - 1);
    if last == '/' || last == '-' {
        return false;
    }
    let mut i: usize = 0;
    while i < n
        invariant
            0 <= i <= n,
            n == name@.len(),
            !spec_separator(name@[0]),
            !spec_separator(name@[n - 1]),
            forall|j: int| 0 <= j < i ==> spec_name_char_ok(#[trigger] name@[j]),
            forall|j: int|
                0 <= j < i && j + 1 < n ==> !(#[trigger] name@[j] == '.' && name@[j + 1] == '.'),
            forall|j: int|
                0 <= j < i && j + 1 < n ==> !(#[trigger] name@[j] == '/' && name@[j + 1] == '/'),
        decreases n - i,
    {
        let c = name.get_char(i);
        if !(char_is_alphanumeric(c) || c == '-' || c == '_' || c == '/') {
            return false;
        }
        if i + 1 < n {
            let d = name.get_char(i + 1);
            if c == '.' && d == '.' {
                return false;
            }
            if c == '/' && d == '/' {
                return false;
            }
        }
        i += 1;
    }
    true
}

/// A local or remote branch as the listing reports it.
#[derive(Debug, Clone)]
pub struct Branch {
    pub name: String,
    pub is_current: bool,
    pub is_remote: bool,
    pub upstream: Option<String>,
    pub ahead: usize,
    pub behind: usize,
    pub last_commit: Option<String>,
}

impl Branch {
    /// Checks a name against the naming rule.
    pub fn is_valid_name(name: &str) -> (r: bool)
        ensures
            r == spec_valid_branch_name(name@),
    {
        branch_name_is_valid(name)
    }
}

/// The looser sanity rule applied to raw operator input: non-empty, no
/// `..`, no leading `-`, no trailing `.`.
pub open spec fn spec_input_name_ok(s: Seq<char>) -> bool {
    &&& s.len() > 0
    &&& !spec_has_pair(s, '.')
    &&& s[0] != '-'
    &&& s[s.len() - 1] != '.'
}

/// Checks raw operator input for a branch name, before normalization.
pub fn validate_branch_name(name: &str) -> (r: GtResult<()>)
    ensures
        r is Ok <==> spec_input_name_ok(name@),
        r matches Err(e) ==> e matches GtError::InvalidBranchName { name: n } && n@ == name@,
{
    let n = name.unicode_len();
    if n == 0 {
        return Err(GtError::InvalidBranchName { name: name.to_owned() });
    }
    if name.get_char(0) == '-' {
        return Err(GtError::InvalidBranchName { name: name.to_owned() });
    }
    if name.get_char(n - 1) == '.' {
        return Err(GtError::InvalidBranchName { name: name.to_owned() });
    }
    let mut i: usize = 0;
    while i < n
        invariant
            0 <= i <= n,
            n == name@.len(),
            name@[0] != '-',
            name@[n - 1] != '.',
            forall|j: int|
                0 <= j < i && j + 1 < n ==> !(#[trigger] name@[j] == '.' && name@[j + 1] == '.'),
        decreases n - i,
    {
        if i + 1 < n {
            if name.get_char(i) == '.' && name.get_char(i + 1) == '.' {
                return Err(GtError::InvalidBranchName { name: name.to_owned() });
            }
        }
        i += 1;
    }
    Ok(())
}

/// What `str::trim` returns: the sequence with leading and trailing
/// whitespace removed.
pub uninterp spec fn spec_trimmed(s: Seq<char>) -> Seq<char>;

/// Relies on `str::trim`: the result depends on the characters alone.
#[verifier::external_body]
pub fn trim_str(s: &str) -> (r: String)
    ensures
        r@ == spec_trimmed(s@),
{
    s.trim().to_string()
}

/// What `str::to_lowercase` returns: the Unicode lowercase form of the
/// sequence.
pub uninterp spec fn spec_lowercase(s: Seq<char>) -> Seq<char>;

/// Relies on `str::to_lowercase`: the result depends on the characters
/// alone.
#[verifier::external_body]
pub fn lowercase_str(s: &str) -> (r: String)
    ensures
        r@ == spec_lowercase(s@),
{
    s.to_lowercase()
}

/// Relies on `str::replace`: with a one-character pattern and a
/// one-character replacement it maps exactly the occurrences of the pattern
/// and keeps every other character.
#[verifier::external_body]
pub fn replace_char(s: &str, from: char, to: char) -> (r: String)
    ensures
        r@ == s@.map_values(|c: char| if c == from { to } else { c }),
{
    s.replace(from, to.to_string().as_str())
}

/// The normal form of an operator-supplied branch name: trimmed, with
/// spaces and underscores turned into dashes, in lowercase.
pub open spec fn spec_normalized_name(s: Seq<char>) -> Seq<char> {
    spec_lowercase(
        spec_trimmed(s).map_values(|c: char| if c == ' ' { '-' } else { c }).map_values(
            |c: char| if c == '_' { '-' } else { c },
        ),
    )
}

/// Normalizes an operator-supplied branch name.
pub fn normalize_branch_name(name: &str) -> (r: String)
    ensures
        r@ == spec_normalized_name(name@),
{
    let trimmed = trim_str(name);
    let dashed = replace_char(trimmed.as_str(), ' ', '-');
    let dashed = replace_char(dashed.as_str(), '_', '-');
    lowercase_str(dashed.as_str())
}

} // verus!

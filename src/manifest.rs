//! The sandbox's package manifest and its workspace-isolation section.

use vstd::prelude::*;

verus! {

/// The section that keeps the sandbox out of any enclosing workspace.
pub const WORKSPACE_SECTION: &'static str = "[workspace]";

/// What is appended to a manifest that lacks the section.
pub const WORKSPACE_APPENDIX: &'static str = "\n[workspace]\n";

/// `pat` stands in `s` at position `i`.
pub open spec fn occurs_at(s: Seq<char>, pat: Seq<char>, i: int) -> bool {
    0 <= i && i + pat.len() <= s.len() && s.subrange(i, i + pat.len()) == pat
}

/// `pat` stands somewhere in `s`.
pub open spec fn contains(s: Seq<char>, pat: Seq<char>) -> bool {
    exists|i: int| occurs_at(s, pat, i)
}

/// The manifest text once it is isolated: unchanged where it already holds
/// the workspace section, else followed by the appendix.
pub open spec fn isolated(text: Seq<char>) -> Seq<char> {
    if contains(text, WORKSPACE_SECTION@) {
        text
    } else {
        text + WORKSPACE_APPENDIX@
    }
}

/// Whether `pat` stands in `s` at position `i`.
fn matches_at(s: &str, n: usize, pat: &str, m: usize, i: usize) -> (r: bool)
    requires
        n == s@.len(),
        m == pat@.len(),
        i + m <= n,
    ensures
        r == occurs_at(s@, pat@, i as int),
{
    let mut j: usize = 0;
    while j < m
        invariant
            n == s@.len(),
            m == pat@.len(),
            i + m <= n,
            j <= m,
            forall|k: int| 0 <= k < j ==> s@[i + k] == pat@[k],
        decreases m - j,
    {
        if s.get_char(i + j) != pat.get_char(j) {
            assert(s@.subrange(i as int, i + m)[j as int] != pat@[j as int]);
            return false;
        }
        j = j + 1;
    }
    assert(s@.subrange(i as int, i + m) =~= pat@);
    true
}

/// Whether `pat` stands anywhere in `s`.
pub fn contains_text(s: &str, pat: &str) -> (r: bool)
    ensures
        r == contains(s@, pat@),
{
    let n = s.unicode_len();
    let m = pat.unicode_len();
    if m > n {
        return false;
    }
    if m == 0 {
        assert(s@.subrange(0, 0) =~= pat@);
        assert(occurs_at(s@, pat@, 0));
        return true;
    }
    let mut i: usize = 0;
    while i <= n - m
        invariant
            n == s@.len(),
            m == pat@.len(),
            0 < m <= n,
            i <= n - m + 1,
            forall|k: int| 0 <= k < i ==> !occurs_at(s@, pat@, k),
        decreases n - m + 1 - i,
    {
        if matches_at(s, n, pat, m, i) {
            return true;
        }
        i = i + 1;
    }
    false
}

/// Whether the manifest already holds the workspace section.
pub fn is_isolated(text: &str) -> (r: bool)
    ensures
        r == contains(text@, WORKSPACE_SECTION@),
{
    contains_text(text, WORKSPACE_SECTION)
}

/// The manifest text with the workspace section present.
pub fn isolate(text: &str) -> (r: String)
    ensures
        r@ == isolated(text@),
{
    let owned = text.to_string();
    if is_isolated(text) {
        owned
    } else {
        owned.concat(WORKSPACE_APPENDIX)
    }
}

} // verus!

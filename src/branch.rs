//! Derivation of a task's working branch name from its id and title.
use vstd::prelude::*;
use vstd::string::StrSliceExecFns;
use crate::text::{alnum_of, decimal, is_alphanumeric, lower_of, lowercase, push_char, push_decimal, push_str};

verus! {

/// A character as it appears in a slug: spaces become hyphens.
pub open spec fn slug_char(c: char) -> char {
    if c == ' ' { '-' } else { c }
}

/// Whether a (space-replaced) character survives into a slug.
pub open spec fn slug_keeps(c: char) -> bool {
    alnum_of(c) || c == '-'
}

/// The slug of already lower-cased text: spaces turned into hyphens, then every
/// character that is neither alphanumeric nor a hyphen dropped.
pub open spec fn slug_chars(l: Seq<char>) -> Seq<char>
    decreases l.len(),
{
    if l.len() == 0 {
        Seq::empty()
    } else {
        let c = slug_char(l.last());
        let rest = slug_chars(l.drop_last());
        if slug_keeps(c) { rest.push(c) } else { rest }
    }
}

/// The slug of a title.
pub open spec fn slug_of(title: Seq<char>) -> Seq<char> {
    slug_chars(lower_of(title))
}

/// The branch name for a task: `feature/{id}-{slug(title)}`.
pub open spec fn branch_name_of(id: nat, title: Seq<char>) -> Seq<char> {
    "feature/"@ + decimal(id) + "-"@ + slug_of(title)
}

/// The slug of a title: lower-cased, spaces replaced by hyphens, and every
/// character that is neither alphanumeric nor a hyphen removed.
pub fn slugify(title: &str) -> (r: String)
    ensures
        r@ == slug_of(title@),
{
    let lowered = lowercase(title);
    slug_of_lowered(lowered.as_str())
}

/// The slug of text that is already lower-cased: spaces replaced by hyphens,
/// and every character that is neither alphanumeric nor a hyphen removed.
pub fn slug_of_lowered(l: &str) -> (r: String)
    ensures
        r@ == slug_chars(l@),
{
    let n = l.unicode_len();
    let mut out = String::new();
    let mut i: usize = 0;
    while i < n
        invariant
            n == l@.len(),
            i <= n,
            out@ == slug_chars(l@.subrange(0, i as int)),
        decreases n - i,
    {
        let raw = l.get_char(i);
        let c = if raw == ' ' { '-' } else { raw };
        assert(l@.subrange(0, i + 1).drop_last() == l@.subrange(0, i as int));
        if c == '-' || is_alphanumeric(c) {
            push_char(&mut out, c);
        }
        i = i + 1;
    }
    assert(l@.subrange(0, n as int) == l@);
    out
}

/// The name of the branch on which work on a task happens:
/// `feature/{id}-{slug(title)}`. It depends on the id and the title alone.
pub fn branch_name(id: u64, title: &str) -> (r: String)
    ensures
        r@ == branch_name_of(id as nat, title@),
        r@.len() > 0,
{
    let mut s = String::new();
    push_str(&mut s, "feature/");
    push_decimal(&mut s, id);
    push_str(&mut s, "-");
    let slug = slugify(title);
    push_str(&mut s, slug.as_str());
    proof {
        assert(s@ == "feature/"@ + decimal(id as nat) + "-"@ + slug_of(title@));
        reveal_strlit("feature/");
        assert(s@[0] == 'f');
    }
    s
}

/// A branch name is never empty, and deriving it twice from the same id and
/// title gives the same name.
pub proof fn lemma_branch_name_stable(id: nat, title: Seq<char>, id2: nat, title2: Seq<char>)
    requires
        id == id2,
        title == title2,
    ensures
        branch_name_of(id, title).len() > 0,
        branch_name_of(id, title) == branch_name_of(id2, title2),
{
    reveal_strlit("feature/");
    assert(branch_name_of(id, title)[0] == 'f');
}

} // verus!

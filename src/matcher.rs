//! Webhook matching: from a payload to the dispatch key that it names.
use vstd::prelude::*;
use crate::state::{PayloadView, WebhookPayload};

verus! {

/// The ref prefix that marks a branch push.
pub open spec fn branch_prefix() -> Seq<char> {
    seq!['r', 'e', 'f', 's', '/', 'h', 'e', 'a', 'd', 's', '/']
}

/// Whether `s` begins with `p`.
pub open spec fn has_prefix(s: Seq<char>, p: Seq<char>) -> bool {
    p.len() <= s.len() && s.subrange(0, p.len() as int) == p
}

/// The branch that a raw ref names: the ref without the branch prefix, or
/// nothing for a ref of another kind.
pub open spec fn branch_of(r: Seq<char>) -> Option<Seq<char>> {
    if has_prefix(r, branch_prefix()) {
        Some(r.skip(branch_prefix().len() as int))
    } else {
        None
    }
}

/// The repository and branch that a payload names, or nothing when it
/// carries no ref or a ref that is not a branch.
pub open spec fn match_of(p: PayloadView) -> Option<(Seq<char>, Seq<char>)> {
    match p.ref_name {
        None => None,
        Some(r) => match branch_of(r) {
            Some(b) => Some((p.full_name, b)),
            None => None,
        },
    }
}

/// The dispatch key of a repository and branch: `repository#branch`.
pub open spec fn key_of(repo: Seq<char>, branch: Seq<char>) -> Seq<char> {
    repo + seq!['#'] + branch
}

/// The branch that `ref_name` names, if it is a branch ref.
pub fn strip_branch_prefix(ref_name: &str) -> (r: Option<String>)
    ensures
        match r {
            Some(b) => branch_of(ref_name@) == Some(b@),
            None => branch_of(ref_name@) is None,
        },
{
    let prefix = "refs/heads/";
    proof {
        reveal_strlit("refs/heads/");
        assert(prefix@ =~= branch_prefix());
    }
    let plen = prefix.unicode_len();
    let n = ref_name.unicode_len();
    if n < plen {
        return None;
    }
    let mut i: usize = 0;
    while i < plen
        invariant
            prefix@ == branch_prefix(),
            plen == prefix@.len(),
            n == ref_name@.len(),
            plen <= n,
            i <= plen,
            ref_name@.subrange(0, i as int) == prefix@.subrange(0, i as int),
        decreases plen - i,
    {
        if ref_name.get_char(i) != prefix.get_char(i) {
            assert(ref_name@.subrange(0, plen as int)[i as int] != prefix@[i as int]);
            return None;
        }
        assert(ref_name@.subrange(0, i + 1) =~= ref_name@.subrange(0, i as int).push(ref_name@[i as int]));
        assert(prefix@.subrange(0, i + 1) =~= prefix@.subrange(0, i as int).push(prefix@[i as int]));
        i = i + 1;
    }
    assert(prefix@.subrange(0, plen as int) =~= prefix@);
    let branch = ref_name.substring_char(plen, n);
    assert(branch@ =~= ref_name@.skip(plen as int));
    Some(branch.to_owned())
}

/// The repository and branch of a branch push; nothing for an event without
/// a ref or with a ref of another kind.
pub fn parse_webhook_info(payload: &WebhookPayload) -> (r: Option<(String, String)>)
    ensures
        match r {
            Some((repo, branch)) => match_of(payload@) == Some((repo@, branch@)),
            None => match_of(payload@) is None,
        },
{
    match &payload.ref_name {
        None => None,
        Some(ref_name) => match strip_branch_prefix(ref_name.as_str()) {
            Some(branch) => Some((payload.repository.full_name.clone(), branch)),
            None => None,
        },
    }
}

/// Renders the dispatch key `repository#branch`.
pub fn dispatch_key(repo: &str, branch: &str) -> (r: String)
    ensures
        r@ == key_of(repo@, branch@),
{
    let sep = "#";
    proof {
        reveal_strlit("#");
    }
    let key = repo.to_owned();
    let key = key.concat(sep);
    let key = key.concat(branch);
    assert(key@ =~= key_of(repo@, branch@));
    key
}

/// Matching is a function of the payload: two payloads that read the same
/// give the same match.
pub proof fn lemma_match_deterministic(p: PayloadView, q: PayloadView)
    requires
        p == q,
    ensures
        match_of(p) == match_of(q),
{
}

/// A ref that does not begin with `refs/heads/` never matches.
pub proof fn lemma_non_branch_ref_unmatched(p: PayloadView)
    requires
        p.ref_name is Some,
        !has_prefix(p.ref_name->Some_0, branch_prefix()),
    ensures
        match_of(p) is None,
{
}

/// A ref `refs/heads/` followed by any `b` matches, with branch `b`.
pub proof fn lemma_branch_ref_matches(repo: Seq<char>, b: Seq<char>)
    ensures
        match_of(PayloadView { ref_name: Some(branch_prefix() + b), full_name: repo })
            == Some((repo, b)),
{
    let r = branch_prefix() + b;
    assert(r.subrange(0, branch_prefix().len() as int) =~= branch_prefix());
    assert(r.skip(branch_prefix().len() as int) =~= b);
}

} // verus!

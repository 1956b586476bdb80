//! Entry paths.  The remote listing reports each entry's path below the
//! service root, as `/projects/<repo>/<relative>`.  The inode keeps only the
//! part within the repository, so the fixed two-segment prefix (service root
//! and repository segment) is stripped here.

use vstd::prelude::*;
use vstd::string::StrSliceExecFns;

verus! {

/// The suffix of `s` after its `k`-th slash: all of `s` when `k` is zero,
/// empty when `s` holds fewer than `k` slashes.
pub open spec fn after_slashes(s: Seq<char>, k: nat) -> Seq<char>
    decreases s.len(),
{
    if k == 0 {
        s
    } else if s.len() == 0 {
        s
    } else if s[0] == '/' {
        after_slashes(s.drop_first(), (k - 1) as nat)
    } else {
        after_slashes(s.drop_first(), k)
    }
}

/// What an inode stores as the entry's path within the repository: the
/// listed path with the leading slash and the first two segments removed.
pub open spec fn stripped_path(s: Seq<char>) -> Seq<char> {
    after_slashes(s, 3)
}

/// Strip the two-segment remote prefix (service root and repository
/// segment) from an entry's listed path.
pub fn strip_remote_prefix(path: &str) -> (r: String)
    ensures
        r@ == stripped_path(path@),
{
    let n = path.unicode_len();
    proof {
        assert(path@.subrange(0, n as int) =~= path@);
    }
    let mut i: usize = 0;
    let mut seen: u32 = 0;
    while i < n && seen < 3
        invariant
            0 <= i <= n,
            n == path@.len(),
            0 <= seen <= 3,
            after_slashes(path@, 3) == after_slashes(
                path@.subrange(i as int, n as int),
                (3 - seen) as nat,
            ),
        decreases n - i,
    {
        let c = path.get_char(i);
        proof {
            assert(path@.subrange(i as int, n as int).drop_first() =~= path@.subrange(
                i as int + 1,
                n as int,
            ));
            assert(path@.subrange(i as int, n as int)[0] == path@[i as int]);
        }
        if c == '/' {
            seen = seen + 1;
        }
        i = i + 1;
    }
    let rest = path.substring_char(i, n);
    proof {
        assert(rest@ == after_slashes(path@.subrange(i as int, n as int), (3 - seen) as nat));
    }
    rest.to_owned()
}

proof fn lemma_after_slashes_no_slash(a: Seq<char>, t: Seq<char>, k: nat)
    requires
        k > 0,
        forall|i: int| 0 <= i < a.len() ==> a[i] != '/',
    ensures
        after_slashes(a + t, k) == after_slashes(t, k),
    decreases a.len(),
{
    if a.len() == 0 {
        assert(a + t =~= t);
    } else {
        assert((a + t).len() > 0);
        assert((a + t)[0] == a[0]);
        assert((a + t).drop_first() =~= a.drop_first() + t);
        assert(forall|i: int| 0 <= i < a.drop_first().len() ==> a.drop_first()[i] != '/') by {
            assert(forall|i: int| 0 <= i < a.drop_first().len() ==> a.drop_first()[i] == a[i + 1]);
        }
        lemma_after_slashes_no_slash(a.drop_first(), t, k);
    }
}

proof fn lemma_after_slashes_slash(t: Seq<char>, k: nat)
    requires
        k > 0,
    ensures
        after_slashes(seq!['/'] + t, k) == after_slashes(t, (k - 1) as nat),
{
    assert((seq!['/'] + t).len() > 0);
    assert((seq!['/'] + t)[0] == '/');
    assert((seq!['/'] + t).drop_first() =~= t);
}

/// Round trip of the remote prefix: an entry listed at
/// `/projects/<repo>/<relative>` is stored with path `<relative>`, for any
/// repository name free of slashes.
pub proof fn lemma_strip_remote_prefix_round_trip(repo: Seq<char>, relative: Seq<char>)
    requires
        forall|i: int| 0 <= i < repo.len() ==> repo[i] != '/',
    ensures
        stripped_path("/projects/"@ + repo + "/"@ + relative) == relative,
{
    reveal_strlit("/projects/");
    reveal_strlit("/");
    let pseg = "/projects/"@.subrange(1, 9);
    let full = "/projects/"@ + repo + "/"@ + relative;
    let t2 = pseg + (seq!['/'] + (repo + (seq!['/'] + relative)));
    assert(full =~= seq!['/'] + t2);
    lemma_after_slashes_slash(t2, 3);
    assert(forall|i: int| 0 <= i < pseg.len() ==> pseg[i] != '/') by {
        assert(forall|i: int| 0 <= i < pseg.len() ==> pseg[i] == "/projects/"@[i + 1]);
    }
    let t3 = seq!['/'] + (repo + (seq!['/'] + relative));
    lemma_after_slashes_no_slash(pseg, t3, 2);
    let t4 = repo + (seq!['/'] + relative);
    lemma_after_slashes_slash(t4, 2);
    let t5 = seq!['/'] + relative;
    lemma_after_slashes_no_slash(repo, t5, 1);
    lemma_after_slashes_slash(relative, 1);
}

} // verus!

//! What the application makes of GitHub's answers about pull requests.
use vstd::prelude::*;
use crate::text::{starts_with, strip_prefix, same_text, join, join3};
use crate::models::{Repository, User};

verus! {

/// The start of the API address of every repository.
pub const API_REPOS: &'static str = "https://api.github.com/repos/";

/// The `owner/name` of the repository at the API address `url`: what follows
/// the API's repository prefix, or the whole address where it lacks it.
pub open spec fn full_name_of(url: Seq<char>) -> Seq<char> {
    if starts_with(url, API_REPOS@) {
        url.subrange(API_REPOS@.len() as int, url.len() as int)
    } else {
        url
    }
}

/// The `owner/name` of the repository at the API address `url`.
pub fn repo_full_name(url: &str) -> (r: String)
    ensures
        r@ == full_name_of(url@),
{
    match strip_prefix(url, API_REPOS) {
        Some(rest) => {
            assert(rest@ =~= url@.subrange(API_REPOS@.len() as int, url@.len() as int));
            rest.to_string()
        },
        None => url.to_string(),
    }
}

/// The part of `s` after its last `/`, or all of `s` where it has none.
pub open spec fn last_segment(s: Seq<char>) -> Seq<char>
    decreases s.len(),
{
    if s.len() == 0 {
        s
    } else if s.last() == '/' {
        seq![]
    } else {
        last_segment(s.drop_last()).push(s.last())
    }
}

/// The part of `s` before its last `/`, where it has one.
pub open spec fn before_last_slash(s: Seq<char>) -> Option<Seq<char>>
    decreases s.len(),
{
    if s.len() == 0 {
        None
    } else if s.last() == '/' {
        Some(s.drop_last())
    } else {
        before_last_slash(s.drop_last())
    }
}

/// The owner's part of a repository address: the segment before the last
/// one, or the only segment where there is one.
pub open spec fn owner_segment(s: Seq<char>) -> Seq<char> {
    match before_last_slash(s) {
        Some(head) => last_segment(head),
        None => s,
    }
}

/// `s` with each occurrence of `pat`, from the left and without overlaps,
/// replaced by `rep`.
pub open spec fn replace_all(s: Seq<char>, pat: Seq<char>, rep: Seq<char>) -> Seq<char>
    recommends
        pat.len() > 0,
    decreases s.len(),
{
    if s.len() == 0 || pat.len() == 0 {
        s
    } else if starts_with(s, pat) {
        rep + replace_all(s.subrange(pat.len() as int, s.len() as int), pat, rep)
    } else {
        seq![s[0]] + replace_all(s.drop_first(), pat, rep)
    }
}

/// The position just after the last `/` of `s`, and the position of that
/// `/`, where there is one.
fn last_slash(s: &str) -> (r: Option<usize>)
    ensures
        r matches Some(i) ==> i < s@.len() && before_last_slash(s@) == Some(s@.subrange(0, i as int))
            && last_segment(s@) == s@.subrange(i + 1, s@.len() as int),
        r is None ==> before_last_slash(s@) is None && last_segment(s@) == s@,
{
    let n = s.unicode_len();
    let mut k: usize = n;
    assert(s@.subrange(0, n as int) =~= s@);
    assert(s@.subrange(n as int, n as int) =~= Seq::<char>::empty());
    assert(s@ + Seq::<char>::empty() =~= s@);
    while k > 0
        invariant
            k <= n == s@.len(),
            forall|j: int| k <= j < n ==> s@[j] != '/',
            before_last_slash(s@) == before_last_slash(s@.subrange(0, k as int)),
            last_segment(s@) == last_segment(s@.subrange(0, k as int)) + s@.subrange(k as int, n as int),
        decreases k,
    {
        let ghost pre = s@.subrange(0, k as int);
        assert(pre.drop_last() =~= s@.subrange(0, k - 1));
        if s.get_char(k - 1) == '/' {
            proof {
                assert(last_segment(pre) =~= Seq::<char>::empty());
                assert(last_segment(s@) =~= s@.subrange(k as int, n as int));
            }
            return Some(k - 1);
        }
        proof {
            assert(s@.subrange(k - 1, n as int) =~= seq![s@[k - 1]] + s@.subrange(k as int, n as int));
            assert(last_segment(pre) =~= last_segment(s@.subrange(0, k - 1)).push(s@[k - 1]));
            assert(last_segment(s@) =~= last_segment(s@.subrange(0, k - 1)) + s@.subrange(k - 1, n as int));
        }
        k = k - 1;
    }
    assert(s@.subrange(0, 0) =~= Seq::<char>::empty());
    assert(s@.subrange(0, n as int) =~= s@);
    None
}

/// The part of `s` after its last `/`, or all of `s` where it has none.
pub fn segment_after_last_slash(s: &str) -> (r: String)
    ensures
        r@ == last_segment(s@),
{
    let n = s.unicode_len();
    match last_slash(s) {
        Some(i) => s.substring_char(i + 1, n).to_string(),
        None => s.to_string(),
    }
}

/// The owner's part of a repository address.
pub fn owner_of(s: &str) -> (r: String)
    ensures
        r@ == owner_segment(s@),
{
    match last_slash(s) {
        Some(i) => segment_after_last_slash(s.substring_char(0, i)),
        None => s.to_string(),
    }
}

/// `s` with each occurrence of `pat` replaced by `rep`.
pub fn replace_text(s: &str, pat: &str, rep: &str) -> (r: String)
    requires
        pat@.len() > 0,
    ensures
        r@ == replace_all(s@, pat@, rep@),
{
    let n = s.unicode_len();
    let m = pat.unicode_len();
    let mut out = String::new();
    let mut i: usize = 0;
    assert(s@.subrange(0, n as int) =~= s@);
    assert(out@ + replace_all(s@, pat@, rep@) =~= replace_all(s@, pat@, rep@));
    while i < n
        invariant
            n == s@.len(),
            m == pat@.len() > 0,
            i <= n,
            out@ + replace_all(s@.subrange(i as int, n as int), pat@, rep@) == replace_all(s@, pat@, rep@),
        decreases n - i,
    {
        let ghost rest = s@.subrange(i as int, n as int);
        if m <= n - i && same_text(s.substring_char(i, i + m), pat) {
            proof {
                assert(rest.subrange(0, m as int) =~= s@.subrange(i as int, i + m));
                assert(rest.subrange(m as int, rest.len() as int) =~= s@.subrange(i + m, n as int));
            }
            let ghost out0 = out@;
            out.append(rep);
            proof {
                assert(out@ + replace_all(s@.subrange(i + m, n as int), pat@, rep@) =~= out0
                    + replace_all(rest, pat@, rep@));
            }
            i = i + m;
        } else {
            proof {
                if m <= rest.len() {
                    assert(rest.subrange(0, m as int) =~= s@.subrange(i as int, i + m));
                }
                assert(rest.drop_first() =~= s@.subrange(i + 1, n as int));
            }
            let ghost out0 = out@;
            out.append(s.substring_char(i, i + 1));
            proof {
                assert(s@.subrange(i as int, i + 1) =~= seq![rest[0]]);
                assert(out@ + replace_all(s@.subrange(i + 1, n as int), pat@, rep@) =~= out0
                    + replace_all(rest, pat@, rep@));
            }
            i = i + 1;
        }
    }
    assert(s@.subrange(n as int, n as int) =~= Seq::<char>::empty());
    out
}

/// The repository as far as its API address tells, for when GitHub does
/// not answer for the repository itself: its name is the last segment of
/// the address, its owner the one before, and its page the address with
/// the API's part taken out.
pub fn repository_from_url(url: &str) -> (r: Repository)
    ensures
        r.id == 0,
        r.name@ == last_segment(url@),
        r.full_name@ == owner_segment(url@) + "/"@ + last_segment(url@),
        r.html_url@ == replace_all(url@, "api.github.com/repos"@, "github.com"@),
        r.owner.id == 0,
        r.owner.login@ == owner_segment(url@),
        r.owner.avatar_url@.len() == 0,
        r.owner.html_url@ == "https://github.com/"@ + owner_segment(url@),
{
    proof {
        reveal_strlit("api.github.com/repos");
    }
    let name = segment_after_last_slash(url);
    let owner = owner_of(url);
    let full_name = join3(owner.as_str(), "/", name.as_str());
    let html_url = replace_text(url, "api.github.com/repos", "github.com");
    let owner_url = join("https://github.com/", owner.as_str());
    Repository {
        id: 0,
        name,
        full_name,
        html_url,
        owner: User { id: 0, login: owner, avatar_url: String::new(), html_url: owner_url },
    }
}

} // verus!

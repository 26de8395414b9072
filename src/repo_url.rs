use vstd::prelude::*;
use crate::text::{chars_of, string_of};

verus! {

/// `s` cut at every occurrence of `d`; there is always at least one part.
pub open spec fn split_on(s: Seq<char>, d: char) -> Seq<Seq<char>>
    decreases s.len(),
{
    if s.len() == 0 {
        seq![Seq::<char>::empty()]
    } else {
        let p = split_on(s.drop_last(), d);
        if s.last() == d {
            p.push(Seq::<char>::empty())
        } else {
            p.update(p.len() - 1, p.last().push(s.last()))
        }
    }
}

/// Whether `needle` occurs somewhere in `hay` as a contiguous run.
pub open spec fn has_infix(hay: Seq<char>, needle: Seq<char>) -> bool {
    exists|i: int|
        0 <= i && i + needle.len() <= hay.len() && #[trigger] hay.subrange(i, i + needle.len())
            == needle
}

/// The host name fragment that identifies the hosting provider.
pub open spec fn provider_host() -> Seq<char> {
    seq!['g', 'i', 't', 'h', 'u', 'b', '.', 'c', 'o', 'm']
}

/// Owner and repository name of a repository web address: the parts at
/// positions 3 and 4 after cutting at `/`, provided there are at least five
/// parts and the host part (position 2) names the provider.
pub open spec fn repo_info(url: Seq<char>) -> Option<(Seq<char>, Seq<char>)> {
    let parts = split_on(url, '/');
    if parts.len() >= 5 && has_infix(parts[2], provider_host()) {
        Some((parts[3], parts[4]))
    } else {
        None
    }
}

pub proof fn lemma_split_nonempty(s: Seq<char>, d: char)
    ensures
        split_on(s, d).len() >= 1,
    decreases s.len(),
{
    if s.len() > 0 {
        lemma_split_nonempty(s.drop_last(), d);
    }
}

pub proof fn lemma_split_no_delim(s: Seq<char>, d: char)
    requires
        !s.contains(d),
    ensures
        split_on(s, d) == seq![s],
    decreases s.len(),
{
    if s.len() > 0 {
        let t = s.drop_last();
        assert forall|k: int| 0 <= k < t.len() implies t[k] != d by {
            assert(t[k] == s[k]);
        }
        lemma_split_no_delim(t, d);
        assert(s.last() == s[s.len() - 1]);
        assert(t.push(s.last()) =~= s);
        assert(split_on(s, d) =~= seq![s]);
    } else {
        assert(s =~= Seq::<char>::empty());
    }
}

pub proof fn lemma_split_concat(a: Seq<char>, b: Seq<char>, d: char)
    ensures
        split_on(a + seq![d] + b, d) == split_on(a, d) + split_on(b, d),
    decreases b.len(),
{
    let s = a + seq![d] + b;
    if b.len() == 0 {
        assert(s.drop_last() =~= a);
        assert(split_on(b, d) =~= seq![Seq::<char>::empty()]);
        assert(split_on(s, d) =~= split_on(a, d) + split_on(b, d));
    } else {
        let b2 = b.drop_last();
        assert(s.drop_last() =~= a + seq![d] + b2);
        lemma_split_concat(a, b2, d);
        lemma_split_nonempty(b2, d);
        lemma_split_nonempty(a, d);
        assert(s.last() == b.last());
        let pa = split_on(a, d);
        let pb = split_on(b2, d);
        if b.last() == d {
            assert((pa + pb).push(Seq::<char>::empty()) =~= pa + pb.push(Seq::<char>::empty()));
        } else {
            assert((pa + pb).last() == pb.last());
            assert((pa + pb).update((pa + pb).len() - 1, pb.last().push(b.last())) =~= pa
                + pb.update(pb.len() - 1, pb.last().push(b.last())));
        }
    }
}

/// Whether `needle` occurs in `hay` starting at position `i`.
fn occurs_at(hay: &Vec<char>, needle: &Vec<char>, i: usize) -> (r: bool)
    requires
        i + needle@.len() <= hay@.len(),
    ensures
        r == (hay@.subrange(i as int, i + needle@.len()) == needle@),
{
    let mut k: usize = 0;
    while k < needle.len()
        invariant
            k <= needle@.len(),
            i + needle@.len() <= hay.len(),
            forall|j: int| 0 <= j < k ==> hay@[i + j] == needle@[j],
        decreases needle@.len() - k,
    {
        if hay[i + k] != needle[k] {
            assert(hay@.subrange(i as int, i + needle@.len())[k as int] != needle@[k as int]);
            return false;
        }
        k = k + 1;
    }
    assert(hay@.subrange(i as int, i + needle@.len()) =~= needle@);
    true
}

/// Whether `needle` occurs anywhere in `hay`.
fn contains_run(hay: &Vec<char>, needle: &Vec<char>) -> (r: bool)
    ensures
        r == has_infix(hay@, needle@),
{
    if needle.len() > hay.len() {
        return false;
    }
    if needle.len() == 0 {
        assert(hay@.subrange(0int, 0int + needle@.len()) =~= needle@);
        return true;
    }
    let last: usize = hay.len() - needle.len();
    let mut i: usize = 0;
    while i <= last
        invariant
            last + needle@.len() == hay@.len(),
            hay@.len() == hay.len(),
            needle@.len() >= 1,
            i <= last + 1,
            forall|j: int|
                0 <= j < i ==> #[trigger] hay@.subrange(j, j + needle@.len()) != needle@,
        decreases last + 1 - i,
    {
        if occurs_at(hay, needle, i) {
            return true;
        }
        i = i + 1;
    }
    false
}

/// Cuts `s` at every occurrence of `d`.
fn split_chars(s: &Vec<char>, d: char) -> (r: Vec<Vec<char>>)
    ensures
        r@.len() == split_on(s@, d).len(),
        forall|j: int| 0 <= j < r@.len() ==> #[trigger] r@[j]@ == split_on(s@, d)[j],
{
    let mut done: Vec<Vec<char>> = Vec::new();
    let mut cur: Vec<char> = Vec::new();
    let mut i: usize = 0;
    while i < s.len()
        invariant
            i <= s@.len(),
            done@.len() + 1 == split_on(s@.subrange(0, i as int), d).len(),
            forall|j: int|
                0 <= j < done@.len() ==> #[trigger] done@[j]@ == split_on(
                    s@.subrange(0, i as int),
                    d,
                )[j],
            cur@ == split_on(s@.subrange(0, i as int), d).last(),
        decreases s@.len() - i,
    {
        let c = s[i];
        let ghost before = s@.subrange(0, i as int);
        assert(s@.subrange(0, i + 1).drop_last() =~= before);
        proof {
            lemma_split_nonempty(before, d);
        }
        if c == d {
            done.push(cur);
            cur = Vec::new();
        } else {
            cur.push(c);
        }
        i = i + 1;
    }
    assert(s@.subrange(0, s@.len() as int) =~= s@);
    proof {
        lemma_split_nonempty(s@, d);
    }
    done.push(cur);
    done
}

/// Extracts owner and repository name from a repository web address such as
/// `https://github.com/owner/repo`. Only the first five `/`-separated parts
/// are looked at; anything after them is ignored.
pub fn extract_repo_info(url: &str) -> (r: Option<(String, String)>)
    ensures
        r matches Some((owner, name)) ==> repo_info(url@) == Some((owner@, name@)),
        r is None ==> repo_info(url@) is None,
{
    let cs = chars_of(url);
    let parts = split_chars(&cs, '/');
    if parts.len() < 5 {
        return None;
    }
    let host_str = "github.com";
    proof {
        reveal_strlit("github.com");
    }
    let host = chars_of(host_str);
    assert(host@ =~= provider_host());
    if contains_run(&parts[2], &host) {
        Some((string_of(&parts[3]), string_of(&parts[4])))
    } else {
        None
    }
}

/// An address `{scheme}//{host}/{owner}/{repo}{rest}` whose host names the
/// provider gives `(owner, repo)`, when none of scheme, host, owner and repo
/// holds a `/` and `rest` is empty or starts with `/`.
pub proof fn lemma_provider_url_parses(
    scheme: Seq<char>,
    host: Seq<char>,
    owner: Seq<char>,
    repo: Seq<char>,
    rest: Seq<char>,
)
    requires
        !scheme.contains('/'),
        !host.contains('/'),
        !owner.contains('/'),
        !repo.contains('/'),
        has_infix(host, provider_host()),
        rest.len() == 0 || rest[0] == '/',
    ensures
        repo_info(scheme + seq!['/', '/'] + host + seq!['/'] + owner + seq!['/'] + repo + rest)
            == Some((owner, repo)),
{
    let d = '/';
    let e = Seq::<char>::empty();
    let a1 = scheme + seq![d] + e;
    let a2 = a1 + seq![d] + host;
    let a3 = a2 + seq![d] + owner;
    let a4 = a3 + seq![d] + repo;
    let url = scheme + seq!['/', '/'] + host + seq!['/'] + owner + seq!['/'] + repo + rest;
    lemma_split_no_delim(scheme, d);
    lemma_split_no_delim(e, d);
    lemma_split_no_delim(host, d);
    lemma_split_no_delim(owner, d);
    lemma_split_no_delim(repo, d);
    lemma_split_concat(scheme, e, d);
    lemma_split_concat(a1, host, d);
    lemma_split_concat(a2, owner, d);
    lemma_split_concat(a3, repo, d);
    let parts4 = seq![scheme, e, host, owner, repo];
    assert(split_on(a4, d) =~= parts4);
    if rest.len() == 0 {
        assert(url =~= a4);
    } else {
        let r2 = rest.drop_first();
        assert(url =~= a4 + seq![d] + r2);
        lemma_split_concat(a4, r2, d);
        lemma_split_nonempty(r2, d);
        let parts = split_on(url, d);
        assert(parts[2] == host && parts[3] == owner && parts[4] == repo);
    }
}

/// An address with fewer than five `/`-separated parts, or whose host part
/// does not name the provider, gives nothing.
pub proof fn lemma_other_urls_rejected(url: Seq<char>)
    requires
        split_on(url, '/').len() < 5 || !has_infix(split_on(url, '/')[2], provider_host()),
    ensures
        repo_info(url) is None,
{
}

} // verus!

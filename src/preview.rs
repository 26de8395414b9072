use vstd::prelude::*;
use crate::text::{push_char, push_str_chars};
use crate::repo_url::{lemma_split_concat, lemma_split_no_delim, split_on};

verus! {

/// The sixteen lowercase hexadecimal digits, in order of value.
pub open spec fn hex_alphabet() -> Seq<char> {
    seq!['0', '1', '2', '3', '4', '5', '6', '7', '8', '9', 'a', 'b', 'c', 'd', 'e', 'f']
}

/// `n` written in lowercase hexadecimal, without leading zeros ("0" for zero).
pub open spec fn hex_of(n: nat) -> Seq<char>
    decreases n,
{
    if n < 16 {
        seq![hex_alphabet()[n as int]]
    } else {
        hex_of(n / 16).push(hex_alphabet()[(n % 16) as int])
    }
}

/// The cache-busting token for a clock reading in milliseconds: the whole
/// seconds, in hexadecimal.
pub open spec fn hash_token(now_ms: nat) -> Seq<char> {
    hex_of(now_ms / 1000)
}

/// Address of the service that renders repository preview cards.
pub open spec fn preview_base() -> Seq<char> {
    seq![
        'h', 't', 't', 'p', 's', ':', '/', '/', 'o', 'p', 'e', 'n', 'g', 'r', 'a', 'p', 'h', '.',
        'g', 'i', 't', 'h', 'u', 'b', 'a', 's', 's', 'e', 't', 's', '.', 'c', 'o', 'm'
    ]
}

/// `{base}/{hash}/{owner}/{repo}`.
pub open spec fn preview_url(hash: Seq<char>, owner: Seq<char>, repo: Seq<char>) -> Seq<char> {
    preview_base() + seq!['/'] + hash + seq!['/'] + owner + seq!['/'] + repo
}

fn hex_digit(d: u64) -> (c: char)
    requires
        d < 16,
    ensures
        c == hex_alphabet()[d as int],
{
    let digits: Vec<char> = vec![
        '0', '1', '2', '3', '4', '5', '6', '7', '8', '9', 'a', 'b', 'c', 'd', 'e', 'f',
    ];
    assert(digits@ =~= hex_alphabet());
    digits[d as usize]
}

/// `n` in lowercase hexadecimal.
pub fn hex_string(n: u64) -> (r: String)
    ensures
        r@ == hex_of(n as nat),
    decreases n,
{
    if n < 16 {
        let mut s = String::new();
        push_char(&mut s, hex_digit(n));
        assert(s@ =~= hex_of(n as nat));
        s
    } else {
        let mut s = hex_string(n / 16);
        push_char(&mut s, hex_digit(n % 16));
        s
    }
}

/// The token that makes preview addresses differ from one second to the
/// next, from a clock reading in milliseconds since the epoch.
pub fn generate_hash(now_ms: u64) -> (r: String)
    ensures
        r@ == hash_token(now_ms as nat),
{
    hex_string(now_ms / 1000)
}

/// The preview-image address for a repository.
pub fn preview_image_url(hash: &str, owner: &str, repo: &str) -> (r: String)
    ensures
        r@ == preview_url(hash@, owner@, repo@),
{
    let base = "https://opengraph.githubassets.com";
    proof {
        reveal_strlit("https://opengraph.githubassets.com");
    }
    let mut s = String::new();
    push_str_chars(&mut s, base);
    push_char(&mut s, '/');
    push_str_chars(&mut s, hash);
    push_char(&mut s, '/');
    push_str_chars(&mut s, owner);
    push_char(&mut s, '/');
    push_str_chars(&mut s, repo);
    assert(s@ =~= preview_url(hash@, owner@, repo@));
    s
}

/// Distinct (hash, owner, repository) triples give distinct preview
/// addresses, provided the hash and the owner hold no `/` (a hexadecimal hash
/// and a parsed owner never do).
pub proof fn lemma_preview_url_injective(
    h1: Seq<char>,
    o1: Seq<char>,
    r1: Seq<char>,
    h2: Seq<char>,
    o2: Seq<char>,
    r2: Seq<char>,
)
    requires
        !h1.contains('/'),
        !o1.contains('/'),
        !h2.contains('/'),
        !o2.contains('/'),
        preview_url(h1, o1, r1) == preview_url(h2, o2, r2),
    ensures
        h1 == h2,
        o1 == o2,
        r1 == r2,
{
    let d = '/';
    let b = preview_base();
    lemma_split_no_delim(h1, d);
    lemma_split_no_delim(o1, d);
    lemma_split_no_delim(h2, d);
    lemma_split_no_delim(o2, d);
    lemma_split_concat(b, h1, d);
    lemma_split_concat(b + seq![d] + h1, o1, d);
    lemma_split_concat(b + seq![d] + h1 + seq![d] + o1, r1, d);
    lemma_split_concat(b, h2, d);
    lemma_split_concat(b + seq![d] + h2, o2, d);
    lemma_split_concat(b + seq![d] + h2 + seq![d] + o2, r2, d);
    let n: int = split_on(b, d).len() as int;
    assert(split_on(preview_url(h1, o1, r1), d)[n] == h1);
    assert(split_on(preview_url(h1, o1, r1), d)[n + 1] == o1);
    assert(split_on(preview_url(h2, o2, r2), d)[n] == h2);
    assert(split_on(preview_url(h2, o2, r2), d)[n + 1] == o2);
    let p = b + seq![d] + h1 + seq![d] + o1 + seq![d];
    let u = preview_url(h1, o1, r1);
    assert(u.subrange(p.len() as int, u.len() as int) =~= r1);
    assert(preview_url(h2, o2, r2).subrange(p.len() as int, u.len() as int) =~= r2);
}

} // verus!

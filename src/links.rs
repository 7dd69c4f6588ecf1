//! Finding message links in text.
//!
//! A message link is `discord.com/channels/S/C/M` or
//! `discordapp.com/channels/S/C/M`, where the domain is matched without
//! regard to ASCII case and `S`, `C` and `M` are runs of decimal digits (the
//! server, channel and message ids). A scheme (`https://`) and a `canary.` or
//! `ptb.` subdomain may stand in front; since they are optional and do not
//! change the ids, the ids found are those of every place in the text where
//! the domain, the `/channels/` path and three digit runs begin. Two such
//! places never overlap, so the links come out in the order of the text.

use vstd::prelude::*;
use crate::decimal::is_digit;

verus! {

/// `c` is `l`, or `l` is a lower-case ASCII letter and `c` its upper case.
pub open spec fn same_letter(c: char, l: char) -> bool {
    c == l || ('a' <= l && l <= 'z' && (c as u32) + 32 == (l as u32))
}

/// `lit` stands at `i` in `t`, up to ASCII case.
pub open spec fn matches_ci(t: Seq<char>, i: int, lit: Seq<char>) -> bool {
    0 <= i && i + lit.len() <= t.len() && forall|k: int|
        0 <= k < lit.len() ==> same_letter(#[trigger] t[i + k], lit[k])
}

/// `lit` stands at `i` in `t`, exactly.
pub open spec fn matches_exact(t: Seq<char>, i: int, lit: Seq<char>) -> bool {
    0 <= i && i + lit.len() <= t.len() && t.subrange(i, i + lit.len()) == lit
}

pub open spec fn short_domain() -> Seq<char> {
    seq!['d', 'i', 's', 'c', 'o', 'r', 'd', '.', 'c', 'o', 'm']
}

pub open spec fn long_domain() -> Seq<char> {
    seq!['d', 'i', 's', 'c', 'o', 'r', 'd', 'a', 'p', 'p', '.', 'c', 'o', 'm']
}

pub open spec fn channels_path() -> Seq<char> {
    seq!['/', 'c', 'h', 'a', 'n', 'n', 'e', 'l', 's', '/']
}

/// Length of the link domain that begins at `i`, or 0 where none does.
pub open spec fn domain_len(t: Seq<char>, i: int) -> int {
    if matches_ci(t, i, short_domain()) {
        11
    } else if matches_ci(t, i, long_domain()) {
        14
    } else {
        0
    }
}

/// Number of decimal digits in a row from `i` on.
pub open spec fn digit_run(t: Seq<char>, i: int) -> nat
    decreases t.len() - i,
{
    if 0 <= i < t.len() && is_digit(t[i]) {
        1 + digit_run(t, i + 1)
    } else {
        0
    }
}

/// The server, channel and message ids of the link that begins at `i`.
pub open spec fn link_at(t: Seq<char>, i: int) -> Option<(Seq<char>, Seq<char>, Seq<char>)> {
    let a = i + domain_len(t, i) + 10;
    let na = digit_run(t, a) as int;
    let b = a + na + 1;
    let nb = digit_run(t, b) as int;
    let c = b + nb + 1;
    let nc = digit_run(t, c) as int;
    if domain_len(t, i) > 0 && matches_exact(t, i + domain_len(t, i), channels_path()) && na > 0
        && a + na < t.len() && t[a + na] == '/' && nb > 0 && b + nb < t.len() && t[b + nb]
        == '/' && nc > 0 {
        Some((t.subrange(a, a + na), t.subrange(b, b + nb), t.subrange(c, c + nc)))
    } else {
        None
    }
}

/// The links that begin before position `n`, in order.
pub open spec fn links_before(t: Seq<char>, n: int) -> Seq<(Seq<char>, Seq<char>, Seq<char>)>
    decreases n,
{
    if n <= 0 {
        seq![]
    } else {
        match link_at(t, n - 1) {
            Some(l) => links_before(t, n - 1).push(l),
            None => links_before(t, n - 1),
        }
    }
}

/// Every link in `t`, in the order of the text; repeated links repeat.
pub open spec fn links_in(t: Seq<char>) -> Seq<(Seq<char>, Seq<char>, Seq<char>)> {
    links_before(t, t.len() as int)
}

/// The three id texts of one link found in a message.
#[derive(Clone, Debug, PartialEq, Eq)]
pub struct Link {
    pub server: String,
    pub channel: String,
    pub message: String,
}

impl View for Link {
    type V = (Seq<char>, Seq<char>, Seq<char>);

    open spec fn view(&self) -> (Seq<char>, Seq<char>, Seq<char>) {
        (self.server@, self.channel@, self.message@)
    }
}

pub open spec fn link_views(v: Seq<Link>) -> Seq<(Seq<char>, Seq<char>, Seq<char>)> {
    v.map_values(|l: Link| l@)
}

fn same_letter_exec(c: char, l: char) -> (r: bool)
    ensures
        r == same_letter(c, l),
{
    c == l || ('a' <= l && l <= 'z' && (c as u32) + 32 == (l as u32))
}

fn matches_ci_at(t: &Vec<char>, i: usize, lit: &Vec<char>) -> (r: bool)
    ensures
        r == matches_ci(t@, i as int, lit@),
{
    if lit.len() > t.len() || i > t.len() - lit.len() {
        return false;
    }
    let n = t.len();
    let mut k: usize = 0;
    while k < lit.len()
        invariant
            n == t@.len(),
            i + lit@.len() <= t@.len(),
            k <= lit@.len(),
            forall|j: int| 0 <= j < k ==> same_letter(#[trigger] t@[i + j], lit@[j]),
        decreases lit@.len() - k,
    {
        if !same_letter_exec(t[i + k], lit[k]) {
            return false;
        }
        k = k + 1;
    }
    true
}

fn matches_exact_at(t: &Vec<char>, i: usize, lit: &Vec<char>) -> (r: bool)
    ensures
        r == matches_exact(t@, i as int, lit@),
{
    if lit.len() > t.len() || i > t.len() - lit.len() {
        return false;
    }
    let n = t.len();
    let mut k: usize = 0;
    while k < lit.len()
        invariant
            n == t@.len(),
            i + lit@.len() <= t@.len(),
            k <= lit@.len(),
            forall|j: int| 0 <= j < k ==> t@[i + j] == lit@[j],
        decreases lit@.len() - k,
    {
        if t[i + k] != lit[k] {
            assert(t@.subrange(i as int, i + lit@.len())[k as int] != lit@[k as int]);
            return false;
        }
        k = k + 1;
    }
    assert(t@.subrange(i as int, i + lit@.len()) =~= lit@);
    true
}

fn digit_run_at(t: &Vec<char>, i: usize) -> (r: usize)
    requires
        i <= t@.len(),
    ensures
        r == digit_run(t@, i as int),
        i + r <= t@.len(),
{
    let mut j: usize = i;
    while j < t.len() && '0' <= t[j] && t[j] <= '9'
        invariant
            i <= j <= t@.len(),
            digit_run(t@, i as int) == (j - i) + digit_run(t@, j as int),
        decreases t@.len() - j,
    {
        j = j + 1;
    }
    j - i
}

fn link_at_exec(text: &str, t: &Vec<char>, i: usize) -> (r: Option<Link>)
    requires
        t@ == text@,
        i < t@.len(),
    ensures
        match r {
            Some(l) => link_at(t@, i as int) == Some(l@),
            None => link_at(t@, i as int) is None,
        },
{
    let n = t.len();
    let short = vec!['d', 'i', 's', 'c', 'o', 'r', 'd', '.', 'c', 'o', 'm'];
    let long = vec!['d', 'i', 's', 'c', 'o', 'r', 'd', 'a', 'p', 'p', '.', 'c', 'o', 'm'];
    let path = vec!['/', 'c', 'h', 'a', 'n', 'n', 'e', 'l', 's', '/'];
    assert(short@ =~= short_domain());
    assert(long@ =~= long_domain());
    assert(path@ =~= channels_path());
    let d: usize = if matches_ci_at(t, i, &short) {
        11
    } else if matches_ci_at(t, i, &long) {
        14
    } else {
        0
    };
    if d == 0 || !matches_exact_at(t, i + d, &path) {
        return None;
    }
    let a = i + d + 10;
    let na = digit_run_at(t, a);
    if na == 0 || a + na >= t.len() || t[a + na] != '/' {
        return None;
    }
    let b = a + na + 1;
    let nb = digit_run_at(t, b);
    if nb == 0 || b + nb >= t.len() || t[b + nb] != '/' {
        return None;
    }
    let c = b + nb + 1;
    let nc = digit_run_at(t, c);
    if nc == 0 {
        return None;
    }
    let server = String::from_str(text.substring_char(a, a + na));
    let channel = String::from_str(text.substring_char(b, b + nb));
    let message = String::from_str(text.substring_char(c, c + nc));
    Some(Link { server, channel, message })
}

/// The characters of `s`, one by one.
fn chars_of(s: &str) -> (r: Vec<char>)
    ensures
        r@ == s@,
{
    let n = s.unicode_len();
    let mut r: Vec<char> = Vec::new();
    let mut i: usize = 0;
    while i < n
        invariant
            n == s@.len(),
            i <= n,
            r@ == s@.take(i as int),
        decreases n - i,
    {
        r.push(s.get_char(i));
        assert(r@ =~= s@.take(i as int + 1));
        i = i + 1;
    }
    assert(s@.take(n as int) =~= s@);
    r
}

/// Every message link in `text`, in order of appearance, without removing
/// repeats.
pub fn extract_links(text: &str) -> (r: Vec<Link>)
    ensures
        link_views(r@) == links_in(text@),
{
    let t = chars_of(text);
    let mut r: Vec<Link> = Vec::new();
    let mut i: usize = 0;
    while i < t.len()
        invariant
            t@ == text@,
            i <= t@.len(),
            link_views(r@) == links_before(t@, i as int),
        decreases t@.len() - i,
    {
        let found = link_at_exec(text, &t, i);
        match found {
            Some(l) => {
                r.push(l);
                assert(link_views(r@) =~= links_before(t@, i as int + 1));
            },
            None => {},
        }
        i = i + 1;
    }
    r
}

} // verus!

//! Verified character and string utilities: whitespace classification,
//! prefix and substring tests, and trailing-slash stripping.

use vstd::prelude::*;
use vstd::string::StrSliceExecFns;

verus! {

/// A character with the Unicode `White_Space` property.
pub open spec fn is_space_char(c: char) -> bool {
    let n = c as u32;
    n == 0x09 || n == 0x0A || n == 0x0B || n == 0x0C || n == 0x0D || n == 0x20 || n == 0x85
        || n == 0xA0 || n == 0x1680 || (0x2000 <= n && n <= 0x200A) || n == 0x2028 || n == 0x2029
        || n == 0x202F || n == 0x205F || n == 0x3000
}

/// A string is blank when every character is whitespace; the empty string is blank.
pub open spec fn blank(s: Seq<char>) -> bool {
    forall|i: int| 0 <= i < s.len() ==> is_space_char(#[trigger] s[i])
}

/// `p` stands at the start of `s`.
pub open spec fn has_prefix(s: Seq<char>, p: Seq<char>) -> bool {
    p.len() <= s.len() && p =~= s.subrange(0, p.len() as int)
}

/// `p` stands in `s` at position `i`.
pub open spec fn match_at(s: Seq<char>, p: Seq<char>, i: int) -> bool {
    0 <= i && i + p.len() <= s.len() && p =~= s.subrange(i, i + p.len())
}

/// `p` stands somewhere in `s`.
pub open spec fn has_substring(s: Seq<char>, p: Seq<char>) -> bool {
    exists|i: int| match_at(s, p, i)
}

/// `s` with every trailing `/` removed.
pub open spec fn strip_trailing_slashes(s: Seq<char>) -> Seq<char>
    decreases s.len(),
{
    if s.len() > 0 && s[s.len() - 1] == '/' {
        strip_trailing_slashes(s.drop_last())
    } else {
        s
    }
}

/// `s` with one leading copy of `p` removed, when present.
pub open spec fn strip_prefix_spec(s: Seq<char>, p: Seq<char>) -> Seq<char> {
    if has_prefix(s, p) {
        s.subrange(p.len() as int, s.len() as int)
    } else {
        s
    }
}


/// The least position at or after `from` where `p` stands in `s`.
pub open spec fn find_from(s: Seq<char>, p: Seq<char>, from: int) -> Option<int>
    decreases s.len() - from,
{
    if from < 0 || from + p.len() > s.len() {
        None
    } else if match_at(s, p, from) {
        Some(from)
    } else {
        find_from(s, p, from + 1)
    }
}

/// What a found position means: it lies at or after `from` and `p` stands
/// there.
pub proof fn lemma_find_from_sound(s: Seq<char>, p: Seq<char>, from: int)
    ensures
        find_from(s, p, from) matches Some(i) ==> from <= i && match_at(s, p, i),
    decreases s.len() - from,
{
    if !(from < 0 || from + p.len() > s.len()) && !match_at(s, p, from) {
        lemma_find_from_sound(s, p, from + 1);
    }
}

/// A position where `p` stands, with none before it, is what the search
/// finds.
pub proof fn lemma_find_from_complete(s: Seq<char>, p: Seq<char>, from: int, i: int)
    requires
        0 <= from <= i,
        match_at(s, p, i),
        forall|k: int| from <= k < i ==> !match_at(s, p, k),
    ensures
        find_from(s, p, from) == Some(i),
    decreases i - from,
{
    if from < i {
        assert(!match_at(s, p, from));
        assert(from + p.len() <= s.len());
        lemma_find_from_complete(s, p, from + 1, i);
    }
}

/// Stripping trailing slashes leaves a string that ends in no slash.
pub proof fn lemma_strip_trailing_slashes_clean(s: Seq<char>)
    ensures
        ({
            let r = strip_trailing_slashes(s);
            r.len() == 0 || r[r.len() - 1] != '/'
        }),
    decreases s.len(),
{
    if s.len() > 0 && s[s.len() - 1] == '/' {
        lemma_strip_trailing_slashes_clean(s.drop_last());
    }
}

pub fn is_space(c: char) -> (r: bool)
    ensures
        r == is_space_char(c),
{
    let n = c as u32;
    n == 0x09 || n == 0x0A || n == 0x0B || n == 0x0C || n == 0x0D || n == 0x20 || n == 0x85
        || n == 0xA0 || n == 0x1680 || (0x2000 <= n && n <= 0x200A) || n == 0x2028 || n == 0x2029
        || n == 0x202F || n == 0x205F || n == 0x3000
}

pub fn is_blank(s: &str) -> (r: bool)
    ensures
        r == blank(s@),
{
    let n = s.unicode_len();
    let mut i: usize = 0;
    while i < n
        invariant
            n == s@.len(),
            i <= n,
            forall|j: int| 0 <= j < i ==> is_space_char(#[trigger] s@[j]),
        decreases n - i,
    {
        if !is_space(s.get_char(i)) {
            return false;
        }
        i += 1;
    }
    true
}

pub fn str_has_prefix(s: &str, p: &str) -> (r: bool)
    ensures
        r == has_prefix(s@, p@),
{
    let sn = s.unicode_len();
    let pn = p.unicode_len();
    if pn > sn {
        return false;
    }
    let mut i: usize = 0;
    while i < pn
        invariant
            sn == s@.len(),
            pn == p@.len(),
            pn <= sn,
            i <= pn,
            forall|j: int| 0 <= j < i ==> p@[j] == s@[j],
        decreases pn - i,
    {
        if s.get_char(i) != p.get_char(i) {
            assert(!has_prefix(s@, p@)) by {
                if has_prefix(s@, p@) {
                    assert(p@[i as int] == s@.subrange(0, pn as int)[i as int]);
                }
            }
            return false;
        }
        i += 1;
    }
    assert(p@ =~= s@.subrange(0, pn as int));
    true
}

fn str_matches_at(s: &str, p: &str, i: usize) -> (r: bool)
    requires
        i + p@.len() <= s@.len() <= usize::MAX,
    ensures
        r == match_at(s@, p@, i as int),
{
    let pn = p.unicode_len();
    let mut j: usize = 0;
    while j < pn
        invariant
            pn == p@.len(),
            i + pn <= s@.len() <= usize::MAX,
            j <= pn,
            forall|k: int| 0 <= k < j ==> p@[k] == s@[i + k],
        decreases pn - j,
    {
        if s.get_char(i + j) != p.get_char(j) {
            assert(!match_at(s@, p@, i as int)) by {
                if match_at(s@, p@, i as int) {
                    assert(p@[j as int] == s@.subrange(i as int, i + pn)[j as int]);
                }
            }
            return false;
        }
        j += 1;
    }
    assert(p@ =~= s@.subrange(i as int, i + pn));
    true
}

pub fn str_contains(s: &str, p: &str) -> (r: bool)
    ensures
        r == has_substring(s@, p@),
{
    let sn = s.unicode_len();
    let pn = p.unicode_len();
    if pn == 0 {
        assert(match_at(s@, p@, 0)) by {
            assert(p@ =~= s@.subrange(0, 0));
        }
        return true;
    }
    if pn > sn {
        assert(!has_substring(s@, p@)) by {
            if has_substring(s@, p@) {
                let i = choose|i: int| match_at(s@, p@, i);
            }
        }
        return false;
    }
    let mut i: usize = 0;
    loop
        invariant
            sn == s@.len(),
            pn == p@.len(),
            0 < pn <= sn,
            i <= sn - pn,
            forall|k: int| 0 <= k < i ==> !match_at(s@, p@, k),
        decreases sn - pn - i,
    {
        if str_matches_at(s, p, i) {
            return true;
        }
        if i == sn - pn {
            assert(!has_substring(s@, p@)) by {
                if has_substring(s@, p@) {
                    let k = choose|k: int| match_at(s@, p@, k);
                    assert(k <= sn - pn);
                }
            }
            return false;
        }
        i += 1;
    }
}


/// Find the least position at or after `from` where `p` stands in `s`.
pub fn str_find_from(s: &str, p: &str, from: usize) -> (r: Option<usize>)
    ensures
        match r {
            Some(i) => find_from(s@, p@, from as int) == Some(i as int),
            None => find_from(s@, p@, from as int) is None,
        },
{
    let sn = s.unicode_len();
    let pn = p.unicode_len();
    if from > sn || pn > sn - from {
        return None;
    }
    let mut i = from;
    loop
        invariant
            sn == s@.len(),
            pn == p@.len(),
            from <= i,
            i + pn <= sn,
            find_from(s@, p@, from as int) == find_from(s@, p@, i as int),
        decreases sn - pn - i,
    {
        if str_matches_at(s, p, i) {
            return Some(i);
        }
        if i == sn - pn {
            proof {
                reveal_with_fuel(find_from, 2);
            }
            return None;
        }
        i += 1;
    }
}

/// Two strings hold the same characters.
pub fn str_eq(a: &str, b: &str) -> (r: bool)
    ensures
        r == (a@ == b@),
{
    let an = a.unicode_len();
    let bn = b.unicode_len();
    if an != bn {
        return false;
    }
    let r = str_has_prefix(a, b);
    proof {
        if has_prefix(a@, b@) {
            assert(a@.subrange(0, an as int) =~= a@);
        }
        if a@ == b@ {
            assert(b@ =~= a@.subrange(0, bn as int));
        }
    }
    r
}

pub fn strip_trailing_slash_str(s: &str) -> (r: String)
    ensures
        r@ == strip_trailing_slashes(s@),
{
    let n = s.unicode_len();
    proof {
        assert(s@.subrange(0, n as int) =~= s@);
    }
    let mut k = n;
    while k > 0 && s.get_char(k - 1) == '/'
        invariant
            n == s@.len(),
            k <= n,
            strip_trailing_slashes(s@) == strip_trailing_slashes(s@.subrange(0, k as int)),
        decreases k,
    {
        proof {
            let cur = s@.subrange(0, k as int);
            assert(cur[k - 1] == '/');
            assert(cur.drop_last() =~= s@.subrange(0, k - 1));
        }
        k -= 1;
    }
    proof {
        let cur = s@.subrange(0, k as int);
        assert(strip_trailing_slashes(cur) == cur);
    }
    let sub = s.substring_char(0, k);
    sub.to_owned()
}

pub fn str_strip_prefix(s: &str, p: &str) -> (r: String)
    ensures
        r@ == strip_prefix_spec(s@, p@),
{
    if str_has_prefix(s, p) {
        let sn = s.unicode_len();
        let pn = p.unicode_len();
        let sub = s.substring_char(pn, sn);
        sub.to_owned()
    } else {
        s.to_owned()
    }
}

} // verus!

//! Character-level string primitives: equality, substring search, prefix
//! tests, decimal formatting and parsing, and the few appending operations
//! of std that vstd leaves unspecified.

use vstd::prelude::*;

verus! {

/// Relies on String::push: appends exactly the one character.
#[verifier::external_body]
pub fn string_push(s: &mut String, c: char)
    ensures
        final(s)@ == old(s)@.push(c),
{
    s.push(c);
}

/// Relies on String::pop: removes and returns the last character, if any.
#[verifier::external_body]
pub fn string_pop(s: &mut String) -> (r: Option<char>)
    ensures
        old(s)@.len() == 0 ==> final(s)@ == old(s)@ && r is None,
        old(s)@.len() > 0 ==> final(s)@ == old(s)@.drop_last() && r == Option::Some(
            old(s)@.last(),
        ),
{
    s.pop()
}

/// The uppercase expansion of one character, as char::to_uppercase yields it;
/// it depends on the character alone.
pub uninterp spec fn upper_of(c: char) -> Seq<char>;

/// Relies on char::to_uppercase, collected into a string.
#[verifier::external_body]
pub fn char_upper(c: char) -> (r: String)
    ensures
        r@ == upper_of(c),
{
    let mut s = String::new();
    for u in c.to_uppercase() {
        s.push(u);
    }
    s
}

pub fn str_eq(a: &str, b: &str) -> (r: bool)
    ensures
        r == (a@ == b@),
{
    let alen = a.unicode_len();
    let blen = b.unicode_len();
    if alen != blen {
        return false;
    }
    let mut i: usize = 0;
    while i < alen
        invariant
            alen == a@.len() == b@.len(),
            0 <= i <= alen,
            forall|j: int| 0 <= j < i ==> a@[j] == b@[j],
        decreases alen - i,
    {
        if a.get_char(i) != b.get_char(i) {
            return false;
        }
        i += 1;
    }
    proof {
        assert(a@ =~= b@);
    }
    true
}

pub fn string_eq(a: &String, b: &String) -> (r: bool)
    ensures
        r == (a@ == b@),
{
    a.eq(b)
}

/// Whether `needle` occurs at position `at` of `hay`.
pub open spec fn matches_at(hay: Seq<char>, needle: Seq<char>, at: int) -> bool {
    0 <= at && at + needle.len() <= hay.len() && hay.subrange(at, at + needle.len()) == needle
}

fn str_matches_at(hay: &str, needle: &str, at: usize) -> (r: bool)
    requires
        at + needle@.len() <= hay@.len(),
    ensures
        r == matches_at(hay@, needle@, at as int),
{
    let hlen = hay.unicode_len();
    let n = needle.unicode_len();
    let mut i: usize = 0;
    while i < n
        invariant
            n == needle@.len(),
            hlen == hay@.len(),
            at + n <= hay@.len(),
            0 <= i <= n,
            forall|j: int| 0 <= j < i ==> hay@[at + j] == needle@[j],
        decreases n - i,
    {
        if hay.get_char(at + i) != needle.get_char(i) {
            proof {
                assert(hay@.subrange(at as int, at + needle@.len())[i as int] != needle@[i as int]);
            }
            return false;
        }
        i += 1;
    }
    proof {
        assert(hay@.subrange(at as int, at + needle@.len()) =~= needle@);
    }
    true
}

pub open spec fn has_substring(hay: Seq<char>, needle: Seq<char>) -> bool {
    exists|i: int| matches_at(hay, needle, i)
}

pub fn str_contains(hay: &str, needle: &str) -> (r: bool)
    ensures
        r == has_substring(hay@, needle@),
{
    let hlen = hay.unicode_len();
    let nlen = needle.unicode_len();
    if nlen > hlen {
        return false;
    }
    if nlen == 0 {
        proof {
            assert(hay@.subrange(0, 0) =~= needle@);
            assert(matches_at(hay@, needle@, 0));
        }
        return true;
    }
    let mut i: usize = 0;
    while i <= hlen - nlen
        invariant
            hlen == hay@.len(),
            nlen == needle@.len(),
            1 <= nlen <= hlen,
            0 <= i <= hlen - nlen + 1,
            forall|j: int| 0 <= j < i ==> !matches_at(hay@, needle@, j),
        decreases hlen - i,
    {
        if str_matches_at(hay, needle, i) {
            return true;
        }
        i += 1;
    }
    false
}

pub open spec fn starts_with(hay: Seq<char>, prefix: Seq<char>) -> bool {
    matches_at(hay, prefix, 0)
}

pub fn str_starts_with(hay: &str, prefix: &str) -> (r: bool)
    ensures
        r == starts_with(hay@, prefix@),
{
    if prefix.unicode_len() > hay.unicode_len() {
        return false;
    }
    str_matches_at(hay, prefix, 0)
}

/// What stands after `prefix`, for a string that starts with it.
pub fn str_after_prefix(hay: &str, prefix: &str) -> (r: String)
    requires
        starts_with(hay@, prefix@),
    ensures
        r@ == hay@.subrange(prefix@.len() as int, hay@.len() as int),
{
    let hlen = hay.unicode_len();
    let plen = prefix.unicode_len();
    String::from_str(hay.substring_char(plen, hlen))
}

pub open spec fn is_dec_digit(c: char) -> bool {
    48 <= c as u32 <= 57
}

pub open spec fn digit_val(c: char) -> nat {
    (c as u32 - 48) as nat
}

pub open spec fn all_dec_digits(s: Seq<char>) -> bool {
    forall|i: int| 0 <= i < s.len() ==> is_dec_digit(s[i])
}

/// The number a digit string denotes.
pub open spec fn dec_value(s: Seq<char>) -> nat
    decreases s.len(),
{
    if s.len() == 0 {
        0
    } else {
        dec_value(s.drop_last()) * 10 + digit_val(s.last())
    }
}

/// Parse a decimal number. Succeeds exactly on non-empty all-digit strings
/// whose value fits in a u64.
pub fn parse_dec(s: &str) -> (r: Option<u64>)
    ensures
        match r {
            Option::Some(v) => s@.len() > 0 && all_dec_digits(s@) && v == dec_value(s@),
            Option::None => s@.len() == 0 || !all_dec_digits(s@) || dec_value(s@) > u64::MAX,
        },
{
    let n = s.unicode_len();
    if n == 0 {
        return Option::None;
    }
    let mut acc: u64 = 0;
    let mut i: usize = 0;
    while i < n
        invariant
            n == s@.len(),
            0 <= i <= n,
            all_dec_digits(s@.subrange(0, i as int)),
            acc == dec_value(s@.subrange(0, i as int)),
        decreases n - i,
    {
        let c = s.get_char(i);
        let cv = c as u32;
        if !(48 <= cv && cv <= 57) {
            proof {
                assert(!is_dec_digit(s@[i as int]));
            }
            return Option::None;
        }
        let d: u64 = (cv - 48) as u64;
        proof {
            assert(s@.subrange(0, i + 1).drop_last() =~= s@.subrange(0, i as int));
            assert(s@.subrange(0, i + 1).last() == s@[i as int]);
        }
        let shifted = match acc.checked_mul(10) {
            Option::Some(v) => v,
            Option::None => {
                proof {
                    lemma_dec_value_prefix(s@, i + 1);
                }
                return Option::None;
            },
        };
        let next = match shifted.checked_add(d) {
            Option::Some(v) => v,
            Option::None => {
                proof {
                    lemma_dec_value_prefix(s@, i + 1);
                }
                return Option::None;
            },
        };
        acc = next;
        i += 1;
    }
    proof {
        assert(s@.subrange(0, n as int) =~= s@);
    }
    Option::Some(acc)
}

/// A digit string denotes at least what any prefix of it denotes.
proof fn lemma_dec_value_prefix(s: Seq<char>, k: int)
    requires
        0 <= k <= s.len(),
    ensures
        dec_value(s) >= dec_value(s.subrange(0, k)),
    decreases s.len(),
{
    if k == s.len() {
        assert(s.subrange(0, k) =~= s);
    } else {
        lemma_dec_value_prefix(s.drop_last(), k);
        assert(s.drop_last().subrange(0, k) =~= s.subrange(0, k));
    }
}

pub open spec fn digit_char(d: nat) -> char {
    ((48 + d) as u8) as char
}

/// The decimal spelling of a number.
pub open spec fn dec_digits(n: nat) -> Seq<char>
    decreases n,
{
    if n < 10 {
        seq![digit_char(n)]
    } else {
        dec_digits(n / 10).push(digit_char(n % 10))
    }
}

/// The spelling of a number reads back to it.
pub proof fn lemma_dec_digits_value(n: nat)
    ensures
        dec_value(dec_digits(n)) == n,
    decreases n,
{
    if n < 10 {
        assert(dec_digits(n) == seq![digit_char(n)]);
        assert(dec_digits(n).drop_last() =~= Seq::<char>::empty());
        assert(dec_value(Seq::<char>::empty()) == 0);
        assert(dec_digits(n).last() == digit_char(n));
        assert(dec_value(dec_digits(n)) == dec_value(dec_digits(n).drop_last()) * 10 + digit_val(
            dec_digits(n).last(),
        ));
        assert(digit_val(digit_char(n)) == n);
    } else {
        lemma_dec_digits_value(n / 10);
        assert(dec_digits(n).drop_last() =~= dec_digits(n / 10));
        assert(dec_digits(n).last() == digit_char(n % 10));
        assert(dec_value(dec_digits(n)) == dec_value(dec_digits(n).drop_last()) * 10 + digit_val(
            dec_digits(n).last(),
        ));
        assert(digit_val(digit_char(n % 10)) == n % 10);
    }
}

/// Two numbers with the same spelling are the same number.
pub proof fn lemma_dec_digits_injective(a: nat, b: nat)
    requires
        dec_digits(a) == dec_digits(b),
    ensures
        a == b,
{
    lemma_dec_digits_value(a);
    lemma_dec_digits_value(b);
}

pub fn u64_to_dec(n: u64) -> (r: String)
    ensures
        r@ == dec_digits(n as nat),
    decreases n,
{
    if n < 10 {
        let c = ((48 + n) as u8) as char;
        let mut s = String::new();
        string_push(&mut s, c);
        proof {
            assert(s@ =~= dec_digits(n as nat));
        }
        s
    } else {
        let mut s = u64_to_dec(n / 10);
        let c = ((48 + n % 10) as u8) as char;
        string_push(&mut s, c);
        s
    }
}

pub fn usize_to_dec(n: usize) -> (r: String)
    ensures
        r@ == dec_digits(n as nat),
{
    u64_to_dec(n as u64)
}

/// A copy of a `&str` slice as an owned string with the same contents.
pub fn str_to_string(s: &str) -> (r: String)
    ensures
        r@ == s@,
{
    String::from_str(s)
}

/// The first occurrence of `c` at or after position `i`.
pub open spec fn first_char_at(s: Seq<char>, c: char, i: int) -> Option<int>
    decreases s.len() - i,
{
    if i < 0 || i >= s.len() {
        Option::None
    } else if s[i] == c {
        Option::Some(i)
    } else {
        first_char_at(s, c, i + 1)
    }
}

/// The position a character search yields holds the character and lies in
/// range.
pub proof fn lemma_first_char_found(s: Seq<char>, c: char, i: int)
    requires
        0 <= i,
        first_char_at(s, c, i) is Some,
    ensures
        ({
            let p = first_char_at(s, c, i).unwrap();
            i <= p < s.len() && s[p] == c
        }),
    decreases s.len() - i,
{
    if i < s.len() && s[i] != c {
        lemma_first_char_found(s, c, i + 1);
    }
}

pub fn find_char(s: &str, c: char) -> (r: Option<usize>)
    ensures
        match r {
            Option::None => first_char_at(s@, c, 0) is None,
            Option::Some(p) => p < s@.len() && first_char_at(s@, c, 0) == Option::Some(p as int),
        },
{
    let n = s.unicode_len();
    let mut i: usize = 0;
    while i < n
        invariant
            n == s@.len(),
            0 <= i <= n,
            first_char_at(s@, c, 0) == first_char_at(s@, c, i as int),
        decreases n - i,
    {
        if s.get_char(i) == c {
            return Option::Some(i);
        }
        i += 1;
    }
    Option::None
}

/// The pieces of `s` between occurrences of `c`, in order; a separator at
/// either edge yields an empty piece there.
pub open spec fn split_by(s: Seq<char>, c: char) -> Seq<Seq<char>>
    decreases s.len(),
        via split_by_dec
{
    match first_char_at(s, c, 0) {
        Option::None => seq![s],
        Option::Some(p) => seq![s.subrange(0, p)] + split_by(
            s.subrange(p + 1, s.len() as int),
            c,
        ),
    }
}

#[via_fn]
proof fn split_by_dec(s: Seq<char>, c: char) {
    if first_char_at(s, c, 0) is Some {
        lemma_first_char_found(s, c, 0);
    }
}

/// The first occurrence of `pat` at or after position `i`.
pub open spec fn first_match_at(s: Seq<char>, pat: Seq<char>, i: int) -> Option<int>
    decreases s.len() - i + 1,
{
    if i < 0 || i + pat.len() > s.len() {
        Option::None
    } else if matches_at(s, pat, i) {
        Option::Some(i)
    } else {
        first_match_at(s, pat, i + 1)
    }
}

/// The position a pattern search yields carries the pattern and lies in
/// range.
pub proof fn lemma_first_match_found(s: Seq<char>, pat: Seq<char>, i: int)
    requires
        0 <= i,
        first_match_at(s, pat, i) is Some,
    ensures
        ({
            let p = first_match_at(s, pat, i).unwrap();
            i <= p && p + pat.len() <= s.len() && matches_at(s, pat, p)
        }),
    decreases s.len() - i + 1,
{
    if i + pat.len() <= s.len() && !matches_at(s, pat, i) {
        lemma_first_match_found(s, pat, i + 1);
    }
}

/// Find the first occurrence of a pattern.
pub fn find_sub(s: &str, pat: &str) -> (r: Option<usize>)
    ensures
        match r {
            Option::None => first_match_at(s@, pat@, 0) is None,
            Option::Some(p) => p + pat@.len() <= s@.len() && first_match_at(s@, pat@, 0)
                == Option::Some(p as int),
        },
{
    let n = s.unicode_len();
    let m = pat.unicode_len();
    if m > n {
        return Option::None;
    }
    if m == 0 {
        proof {
            assert(s@.subrange(0, 0) =~= pat@);
            assert(matches_at(s@, pat@, 0));
        }
        return Option::Some(0);
    }
    let mut i: usize = 0;
    while i <= n - m
        invariant
            n == s@.len(),
            m == pat@.len(),
            1 <= m <= n,
            0 <= i <= n - m + 1,
            first_match_at(s@, pat@, 0) == first_match_at(s@, pat@, i as int),
        decreases n - i,
    {
        if str_matches_at(s, pat, i) {
            return Option::Some(i);
        }
        i += 1;
    }
    Option::None
}

/// The string with every occurrence of `pat`, found left to right, turned
/// into `rep`.
pub open spec fn replaced(s: Seq<char>, pat: Seq<char>, rep: Seq<char>) -> Seq<char>
    decreases s.len(),
        via replaced_dec
{
    if pat.len() == 0 {
        s
    } else {
        match first_match_at(s, pat, 0) {
            Option::None => s,
            Option::Some(p) => s.subrange(0, p) + rep + replaced(
                s.subrange(p + pat.len(), s.len() as int),
                pat,
                rep,
            ),
        }
    }
}

#[via_fn]
proof fn replaced_dec(s: Seq<char>, pat: Seq<char>, rep: Seq<char>) {
    if pat.len() > 0 && first_match_at(s, pat, 0) is Some {
        lemma_first_match_found(s, pat, 0);
    }
}

/// Replace every occurrence of one pattern, scanning left to right.
pub fn replace_all(s: &str, pat: &str, rep: &str) -> (r: String)
    requires
        pat@.len() > 0,
    ensures
        r@ == replaced(s@, pat@, rep@),
{
    let n = s.unicode_len();
    let m = pat.unicode_len();
    let mut out = String::new();
    let mut start: usize = 0;
    let mut fin = false;
    proof {
        assert(s@.subrange(0, n as int) =~= s@);
        assert(out@ + replaced(s@.subrange(0, n as int), pat@, rep@) =~= replaced(s@, pat@, rep@));
    }
    while !fin
        invariant
            n == s@.len(),
            m == pat@.len() > 0,
            0 <= start <= n,
            if fin {
                out@ =~= replaced(s@, pat@, rep@)
            } else {
                out@ + replaced(s@.subrange(start as int, n as int), pat@, rep@) =~= replaced(
                    s@,
                    pat@,
                    rep@,
                )
            },
        decreases n - start, (if fin {
            0int
        } else {
            1int
        }),
    {
        let tail = s.substring_char(start, n);
        let ghost tview = s@.subrange(start as int, n as int);
        match find_sub(tail, pat) {
            Option::None => {
                out.append(tail);
                fin = true;
            },
            Option::Some(p) => {
                proof {
                    lemma_first_match_found(tview, pat@, 0);
                    assert(tview.subrange(0, p as int) =~= s@.subrange(start as int, start + p));
                    assert(tview.subrange(p + pat@.len(), tview.len() as int) =~= s@.subrange(
                        start + p + m,
                        n as int,
                    ));
                }
                out.append(tail.substring_char(0, p));
                out.append(rep);
                start = start + p + m;
            },
        }
    }
    out
}

/// The pieces of `s` between occurrences of the separator, in order.
pub open spec fn split_by_str(s: Seq<char>, sep: Seq<char>) -> Seq<Seq<char>>
    decreases s.len(),
        via split_by_str_dec
{
    if sep.len() == 0 {
        seq![s]
    } else {
        match first_match_at(s, sep, 0) {
            Option::None => seq![s],
            Option::Some(p) => seq![s.subrange(0, p)] + split_by_str(
                s.subrange(p + sep.len(), s.len() as int),
                sep,
            ),
        }
    }
}

#[via_fn]
proof fn split_by_str_dec(s: Seq<char>, sep: Seq<char>) {
    if sep.len() > 0 && first_match_at(s, sep, 0) is Some {
        lemma_first_match_found(s, sep, 0);
    }
}

/// Split a string at every occurrence of a separator string.
pub fn split_on_str(s: &str, sep: &str) -> (r: Vec<String>)
    requires
        sep@.len() > 0,
    ensures
        crate::utils::string::views_of(r@) == split_by_str(s@, sep@),
{
    let n = s.unicode_len();
    let m = sep.unicode_len();
    let mut pieces: Vec<String> = Vec::new();
    let mut start: usize = 0;
    let mut fin = false;
    proof {
        assert(s@.subrange(0, n as int) =~= s@);
        assert(crate::utils::string::views_of(pieces@) =~= Seq::<Seq<char>>::empty());
    }
    while !fin
        invariant
            n == s@.len(),
            m == sep@.len() > 0,
            0 <= start <= n,
            if fin {
                crate::utils::string::views_of(pieces@) =~= split_by_str(s@, sep@)
            } else {
                crate::utils::string::views_of(pieces@) + split_by_str(
                    s@.subrange(start as int, n as int),
                    sep@,
                ) =~= split_by_str(s@, sep@)
            },
        decreases n - start, (if fin {
            0int
        } else {
            1int
        }),
    {
        let tail = s.substring_char(start, n);
        let ghost tview = s@.subrange(start as int, n as int);
        match find_sub(tail, sep) {
            Option::None => {
                pieces.push(str_to_string(tail));
                proof {
                    assert(split_by_str(tview, sep@) == seq![tview]);
                    assert(crate::utils::string::views_of(pieces@)
                        =~= crate::utils::string::views_of(pieces@.drop_last()).push(tview));
                }
                fin = true;
            },
            Option::Some(p) => {
                pieces.push(str_to_string(tail.substring_char(0, p)));
                proof {
                    lemma_first_match_found(tview, sep@, 0);
                    assert(split_by_str(tview, sep@) == seq![tview.subrange(0, p as int)]
                        + split_by_str(tview.subrange(p + sep@.len(), tview.len() as int), sep@));
                    assert(tview.subrange(0, p as int) =~= s@.subrange(start as int, start + p));
                    assert(tview.subrange(p + sep@.len(), tview.len() as int) =~= s@.subrange(
                        start + p + m,
                        n as int,
                    ));
                    assert(crate::utils::string::views_of(pieces@)
                        =~= crate::utils::string::views_of(pieces@.drop_last()).push(
                        tview.subrange(0, p as int),
                    ));
                }
                start = start + p + m;
            },
        }
    }
    pieces
}

/// Split a string at every occurrence of one character.
pub fn split_on(s: &str, c: char) -> (r: Vec<String>)
    ensures
        crate::utils::string::views_of(r@) == split_by(s@, c),
{
    let n = s.unicode_len();
    let mut pieces: Vec<String> = Vec::new();
    let mut start: usize = 0;
    let mut fin = false;
    proof {
        assert(s@.subrange(0, n as int) =~= s@);
        assert(crate::utils::string::views_of(pieces@) =~= Seq::<Seq<char>>::empty());
    }
    while !fin
        invariant
            n == s@.len(),
            0 <= start <= n,
            if fin {
                crate::utils::string::views_of(pieces@) =~= split_by(s@, c)
            } else {
                crate::utils::string::views_of(pieces@) + split_by(
                    s@.subrange(start as int, n as int),
                    c,
                ) =~= split_by(s@, c)
            },
        decreases n - start, (if fin {
            0int
        } else {
            1int
        }),
    {
        let tail = s.substring_char(start, n);
        let ghost tview = s@.subrange(start as int, n as int);
        match find_char(tail, c) {
            Option::None => {
                pieces.push(str_to_string(tail));
                proof {
                    assert(split_by(tview, c) == seq![tview]);
                    assert(crate::utils::string::views_of(pieces@) =~= crate::utils::string::views_of(
                        pieces@.drop_last(),
                    ).push(tview));
                }
                fin = true;
            },
            Option::Some(p) => {
                pieces.push(str_to_string(tail.substring_char(0, p)));
                proof {
                    lemma_first_char_found(tview, c, 0);
                    assert(split_by(tview, c) == seq![tview.subrange(0, p as int)] + split_by(
                        tview.subrange(p + 1, tview.len() as int),
                        c,
                    ));
                    assert(tview.subrange(0, p as int) =~= s@.subrange(
                        start as int,
                        start + p,
                    ));
                    assert(tview.subrange(p + 1, tview.len() as int) =~= s@.subrange(
                        start + p + 1,
                        n as int,
                    ));
                    assert(crate::utils::string::views_of(pieces@) =~= crate::utils::string::views_of(
                        pieces@.drop_last(),
                    ).push(tview.subrange(0, p as int)));
                }
                start = start + p + 1;
            },
        }
    }
    pieces
}

} // verus!

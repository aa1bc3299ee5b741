//! Text shaping used by the screens: wrapping at spaces, fixed-width
//! chunking with a distinct first width, and timestamp formatting.
//!
//! All positions and lengths count characters, not bytes.

use vstd::prelude::*;

use crate::strutil::str_to_string;

verus! {

/// A sequence without leading or trailing spaces.
pub open spec fn trim_spaces(s: Seq<char>) -> Seq<char>
    decreases s.len(),
{
    if s.len() > 0 && s[0] == ' ' {
        trim_spaces(s.subrange(1, s.len() as int))
    } else if s.len() > 0 && s.last() == ' ' {
        trim_spaces(s.drop_last())
    } else {
        s
    }
}

/// The last space strictly before `end - start` in the window, as an offset
/// from `start`.
pub open spec fn last_space(s: Seq<char>, start: int, end: int) -> Option<int>
    decreases end - start,
{
    if end <= start {
        Option::None
    } else if s[end - 1] == ' ' {
        Option::Some(end - 1 - start)
    } else {
        last_space(s, start, end - 1)
    }
}

/// Where a chunk beginning at `start` ends, for a window of `w` characters:
/// at the window edge, pulled back to the last space when the cut would
/// split a word.
pub open spec fn chunk_end(s: Seq<char>, start: int, w: int) -> int {
    let e = if start + w < s.len() {
        start + w
    } else {
        s.len() as int
    };
    if e < s.len() && s[e] != ' ' {
        match last_space(s, start, e) {
            Option::Some(p) => start + p,
            Option::None => e,
        }
    } else {
        e
    }
}

/// Every space the window search yields lies inside the window.
pub proof fn lemma_last_space_range(s: Seq<char>, start: int, end: int)
    requires
        start <= end <= s.len(),
    ensures
        match last_space(s, start, end) {
            Option::Some(p) => 0 <= p < end - start,
            Option::None => true,
        },
    decreases end - start,
{
    if end > start && s[end - 1] != ' ' {
        lemma_last_space_range(s, start, end - 1);
    }
}

/// A chunk always ends inside the text and no earlier than it starts.
pub proof fn lemma_chunk_end_range(s: Seq<char>, start: int, w: int)
    requires
        0 <= start <= s.len(),
        w >= 0,
    ensures
        start <= chunk_end(s, start, w) <= s.len(),
{
    let e = if start + w < s.len() {
        start + w
    } else {
        s.len() as int
    };
    lemma_last_space_range(s, start, e);
}

/// The chunks that wrapping at spaces produces, each trimmed: the first
/// window is shortened by `skip`, later windows are `length` wide.
pub open spec fn split_with_space_spec(s: Seq<char>, length: int, skip: int, start: int) -> Seq<
    Seq<char>,
>
    decreases s.len() - start + 1,
        via split_with_space_spec_dec
{
    if start >= s.len() || start < 0 || length < skip || skip < 0 {
        Seq::empty()
    } else {
        let w = if start < 1 {
            length - skip
        } else {
            length
        };
        let e = chunk_end(s, start, w);
        seq![trim_spaces(s.subrange(start, e))] + split_with_space_spec(s, length, skip, e + 1)
    }
}

#[via_fn]
proof fn split_with_space_spec_dec(s: Seq<char>, length: int, skip: int, start: int) {
    if !(start >= s.len() || start < 0 || length < skip || skip < 0) {
        let w = if start < 1 {
            length - skip
        } else {
            length
        };
        lemma_chunk_end_range(s, start, w);
    }
}

pub open spec fn views_of(v: Seq<String>) -> Seq<Seq<char>> {
    Seq::new(v.len(), |i: int| v[i]@)
}

fn rfind_space(s: &str, start: usize, end: usize) -> (r: Option<usize>)
    requires
        start <= end <= s@.len(),
    ensures
        match r {
            Option::None => last_space(s@, start as int, end as int) is None,
            Option::Some(p) => p < end - start && last_space(s@, start as int, end as int)
                == Option::Some(p as int),
        },
{
    let mut e = end;
    while e > start
        invariant
            start <= e <= end <= s@.len(),
            last_space(s@, start as int, end as int) == last_space(s@, start as int, e as int),
        decreases e,
    {
        if s.get_char(e - 1) == ' ' {
            return Option::Some(e - 1 - start);
        }
        e -= 1;
    }
    Option::None
}

fn trim_substring(s: &str, from: usize, to: usize) -> (r: String)
    requires
        from <= to <= s@.len(),
    ensures
        r@ == trim_spaces(s@.subrange(from as int, to as int)),
{
    let mut lo = from;
    let mut hi = to;
    while lo < hi && s.get_char(lo) == ' '
        invariant
            from <= lo <= hi <= to <= s@.len(),
            trim_spaces(s@.subrange(from as int, to as int)) == trim_spaces(
                s@.subrange(lo as int, hi as int),
            ),
        decreases hi - lo,
    {
        proof {
            let cur = s@.subrange(lo as int, hi as int);
            assert(cur.subrange(1, cur.len() as int) =~= s@.subrange(lo + 1, hi as int));
        }
        lo += 1;
    }
    while lo < hi && s.get_char(hi - 1) == ' '
        invariant
            from <= lo <= hi <= to <= s@.len(),
            trim_spaces(s@.subrange(from as int, to as int)) == trim_spaces(
                s@.subrange(lo as int, hi as int),
            ),
            lo < hi ==> s@[lo as int] != ' ',
        decreases hi - lo,
    {
        proof {
            let cur = s@.subrange(lo as int, hi as int);
            assert(cur.drop_last() =~= s@.subrange(lo as int, hi - 1));
        }
        hi -= 1;
    }
    str_to_string(s.substring_char(lo, hi))
}

/// Wrap text into chunks of at most `length` characters, breaking at the
/// last space when a cut would split a word; the first chunk's window is
/// shortened by `skip`. Each chunk comes out trimmed.
pub fn split_with_space(input: String, length: usize, skip: Option<usize>) -> (r: Vec<String>)
    requires
        (match skip {
            Option::Some(k) => k,
            Option::None => 0,
        }) <= length,
        input@.len() < usize::MAX,
    ensures
        views_of(r@) == split_with_space_spec(
            input@,
            length as int,
            (match skip {
                Option::Some(k) => k as int,
                Option::None => 0,
            }),
            0,
        ),
{
    let s = input.as_str();
    let n = s.unicode_len();
    let skip_v: usize = match skip {
        Option::Some(k) => k,
        Option::None => 0,
    };
    let ghost full = split_with_space_spec(input@, length as int, skip_v as int, 0);
    let mut chunks: Vec<String> = Vec::new();
    let mut start: usize = 0;
    while start < n
        invariant
            n == s@.len() < usize::MAX,
            s@ == input@,
            skip_v <= length,
            full == split_with_space_spec(input@, length as int, skip_v as int, 0),
            views_of(chunks@) + split_with_space_spec(s@, length as int, skip_v as int, start as int)
                =~= full,
        decreases n + 1 - start,
    {
        let w: usize = if start < 1 {
            length - skip_v
        } else {
            length
        };
        let e0: usize = if w > n - start {
            n
        } else {
            start + w
        };
        let end: usize = if e0 < n && s.get_char(e0) != ' ' {
            match rfind_space(s, start, e0) {
                Option::Some(p) => start + p,
                Option::None => e0,
            }
        } else {
            e0
        };
        proof {
            lemma_chunk_end_range(s@, start as int, w as int);
            assert(end == chunk_end(s@, start as int, w as int));
        }
        let piece = trim_substring(s, start, end);
        chunks.push(piece);
        proof {
            let tail = split_with_space_spec(s@, length as int, skip_v as int, end + 1);
            assert(split_with_space_spec(s@, length as int, skip_v as int, start as int)
                == seq![trim_spaces(s@.subrange(start as int, end as int))] + tail);
            assert(views_of(chunks@) =~= views_of(chunks@.drop_last()).push(
                trim_spaces(s@.subrange(start as int, end as int)),
            ));
        }
        start = end + 1;
    }
    proof {
        assert(views_of(chunks@) =~= full);
    }
    chunks
}

/// Relies on chrono: DateTime::from_timestamp for the given whole seconds,
/// shifted into the machine's local time zone and written out with the
/// given template through DelayedFormat::write_to, whose error — an
/// out-of-range moment or a template chrono cannot format — comes back as
/// None rather than a panic. The result depends on the machine's time zone
/// settings, so nothing is promised of it; callers treat it as an opaque
/// label.
#[verifier::external_body]
fn format_local(secs: i64, template: &str) -> Option<String> {
    let offset = chrono::Local::now().offset().clone();
    let local: chrono::DateTime<chrono::Local> = chrono::DateTime::from_timestamp(secs, 0)?
        .with_timezone(&chrono::TimeZone::from_offset(&offset));
    let mut out = String::new();
    match local.format(template).write_to(&mut out) {
        Ok(()) => Some(out),
        Err(_) => None,
    }
}

/// A message timestamp, in microseconds, written out with the given
/// template in the machine's local time zone.
pub fn date_format(ts: u64, template: &str) -> Option<String> {
    let secs = (ts / 1_000_000) as i64;
    format_local(secs, template)
}

/// The fixed-width chunks of a sequence, each of `k` characters but the
/// last, which holds the remainder.
pub open spec fn chunks_of(s: Seq<char>, k: int) -> Seq<Seq<char>>
    decreases s.len(),
{
    if s.len() == 0 || k <= 0 {
        Seq::empty()
    } else if s.len() <= k {
        seq![s]
    } else {
        seq![s.subrange(0, k)] + chunks_of(s.subrange(k, s.len() as int), k)
    }
}

/// What `split_text_with_custom_first` yields: a first chunk of up to
/// `first_length` characters when that length is positive, then the rest in
/// chunks of `chunk_size`.
pub open spec fn split_text_spec(s: Seq<char>, first_length: int, chunk_size: int) -> Seq<
    Seq<char>,
> {
    let cut = if first_length < s.len() {
        first_length
    } else {
        s.len() as int
    };
    if first_length > 0 && s.len() > 0 {
        seq![s.subrange(0, cut)] + chunks_of(s.subrange(cut, s.len() as int), chunk_size)
    } else {
        chunks_of(s.subrange(cut, s.len() as int), chunk_size)
    }
}

/// Chunk text with a distinct width for the first piece: the first
/// `first_length` characters, then the remainder in `chunk_size` pieces.
pub fn split_text_with_custom_first(input: &str, first_length: usize, chunk_size: usize) -> (r:
    Vec<String>)
    requires
        chunk_size > 0,
    ensures
        views_of(r@) == split_text_spec(input@, first_length as int, chunk_size as int),
{
    let n = input.unicode_len();
    let mut result: Vec<String> = Vec::new();
    let cut: usize = if first_length < n {
        first_length
    } else {
        n
    };
    if first_length > 0 && n > 0 {
        result.push(str_to_string(input.substring_char(0, cut)));
    }
    let ghost head = views_of(result@);
    let ghost rest = input@.subrange(cut as int, n as int);
    let mut start: usize = cut;
    while start < n
        invariant
            n == input@.len(),
            cut <= start <= n,
            chunk_size > 0,
            rest == input@.subrange(cut as int, n as int),
            head + chunks_of(rest, chunk_size as int) =~= views_of(result@) + chunks_of(
                input@.subrange(start as int, n as int),
                chunk_size as int,
            ),
        decreases n - start,
    {
        let e: usize = if chunk_size > n - start {
            n
        } else {
            start + chunk_size
        };
        let piece = str_to_string(input.substring_char(start, e));
        result.push(piece);
        proof {
            let cur = input@.subrange(start as int, n as int);
            if cur.len() <= chunk_size {
                assert(e == n);
                assert(cur =~= input@.subrange(start as int, e as int));
                assert(chunks_of(cur, chunk_size as int) == seq![cur]);
            } else {
                assert(cur.subrange(0, chunk_size as int) =~= input@.subrange(
                    start as int,
                    e as int,
                ));
                assert(cur.subrange(chunk_size as int, cur.len() as int) =~= input@.subrange(
                    e as int,
                    n as int,
                ));
            }
            assert(views_of(result@) =~= views_of(result@.drop_last()).push(
                input@.subrange(start as int, e as int),
            ));
            assert(start < e <= n);
        }
        start = e;
    }
    proof {
        assert(chunks_of(input@.subrange(start as int, n as int), chunk_size as int)
            == Seq::<Seq<char>>::empty());
        assert(views_of(result@) =~= head + chunks_of(rest, chunk_size as int));
        if first_length > 0 && n > 0 {
            assert(head =~= seq![input@.subrange(0, cut as int)]);
        } else {
            assert(head =~= Seq::<Seq<char>>::empty());
        }
        assert(views_of(result@) =~= split_text_spec(input@, first_length as int, chunk_size as int));
    }
    result
}

} // verus!

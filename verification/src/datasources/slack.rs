//! What the worker loop does with fetched workspace data: ordering message
//! batches, merging them into cached history, walking paginated listings,
//! sifting conversations, and reading the authorization callback.
//!
//! The network calls themselves happen in the shell; every rule about what
//! comes back is here.

use vstd::prelude::*;
use vstd::seq_lib::group_to_multiset_ensures;

use crate::entities::conversations::Channel;
use crate::entities::messages::Message;
use crate::strutil::{find_char, first_char_at, split_by, split_on, str_eq, str_to_string};
use crate::utils::string::views_of;

verus! {

/// Messages in ascending timestamp order.
pub open spec fn msgs_sorted(s: Seq<Message>) -> bool {
    forall|i: int, j: int| 0 <= i < j < s.len() ==> s[i].ts <= s[j].ts
}

/// Sort a batch of messages by timestamp, oldest first.
#[verifier::loop_isolation(false)]
pub fn sort_messages(v: &mut Vec<Message>)
    ensures
        final(v)@.len() == old(v)@.len(),
        msgs_sorted(final(v)@),
        final(v)@.to_multiset() == old(v)@.to_multiset(),
{
    let n = v.len();
    if n <= 1 {
        return;
    }
    let mut i: usize = 1;
    while i < n
        invariant
            n == v@.len(),
            1 <= i <= n,
            msgs_sorted(v@.subrange(0, i as int)),
            v@.to_multiset() == old(v)@.to_multiset(),
        decreases n - i,
    {
        let ghost pre = v@;
        let x = v.remove(i);
        let ghost mid = v@;
        let mut p: usize = 0;
        while p < i && v[p].ts <= x.ts
            invariant
                0 <= p <= i,
                forall|j: int| 0 <= j < p ==> v@[j].ts <= x.ts,
            decreases i - p,
        {
            p += 1;
        }
        v.insert(p, x);
        proof {
            broadcast use group_to_multiset_ensures;

            assert(pre.contains(pre[i as int])) by {
                assert(pre[i as int] == pre[i as int]);
            }
            assert(pre.to_multiset().count(x) > 0);
            assert(v@.to_multiset() =~= pre.to_multiset());
            assert(mid.subrange(0, i as int) =~= pre.subrange(0, i as int));
            assert forall|a: int, b: int| 0 <= a < b < i + 1 implies v@[a].ts <= v@[b].ts by {
                assert(v@ == mid.insert(p as int, x));
                if b < p {
                    assert(v@[a] == mid[a] && v@[b] == mid[b]);
                } else if a < p && b == p {
                    assert(v@[a] == mid[a] && v@[b] == x);
                } else if a < p && b > p {
                    assert(v@[a] == mid[a] && v@[b] == mid[b - 1]);
                } else if a == p {
                    assert(v@[a] == x && v@[b] == mid[b - 1]);
                    assert(p < i);
                    assert(mid[p as int].ts > x.ts);
                    assert(mid[b - 1].ts >= mid[p as int].ts);
                } else {
                    assert(v@[a] == mid[a - 1] && v@[b] == mid[b - 1]);
                }
            }
            assert(msgs_sorted(v@.subrange(0, i + 1)));
        }
        i += 1;
    }
    proof {
        assert(v@.subrange(0, n as int) =~= v@);
    }
}

/// The key conversations are ranked by: the update stamp, or zero where the
/// listing carries none.
pub open spec fn updated_key(c: Channel) -> i64 {
    match c.updated {
        Option::Some(u) => u,
        Option::None => 0,
    }
}

/// Conversations in descending order of their update stamp.
pub open spec fn chans_sorted(s: Seq<Channel>) -> bool {
    forall|i: int, j: int| 0 <= i < j < s.len() ==> updated_key(s[i]) >= updated_key(s[j])
}

fn updated_key_of(c: &Channel) -> (r: i64)
    ensures
        r == updated_key(*c),
{
    match c.updated {
        Option::Some(u) => u,
        Option::None => 0,
    }
}

/// Sort conversations by update stamp, most recent first.
#[verifier::loop_isolation(false)]
pub fn sort_channels(v: &mut Vec<Channel>)
    ensures
        final(v)@.len() == old(v)@.len(),
        chans_sorted(final(v)@),
        final(v)@.to_multiset() == old(v)@.to_multiset(),
{
    let n = v.len();
    if n <= 1 {
        return;
    }
    let mut i: usize = 1;
    while i < n
        invariant
            n == v@.len(),
            1 <= i <= n,
            chans_sorted(v@.subrange(0, i as int)),
            v@.to_multiset() == old(v)@.to_multiset(),
        decreases n - i,
    {
        let ghost pre = v@;
        let x = v.remove(i);
        let ghost mid = v@;
        let xk: i64 = updated_key_of(&x);
        let mut p: usize = 0;
        while p < i && updated_key_of(&v[p]) >= xk
            invariant
                0 <= p <= i,
                forall|j: int| 0 <= j < p ==> updated_key(v@[j]) >= xk,
            decreases i - p,
        {
            p += 1;
        }
        v.insert(p, x);
        proof {
            broadcast use group_to_multiset_ensures;

            assert(pre.contains(pre[i as int])) by {
                assert(pre[i as int] == pre[i as int]);
            }
            assert(pre.to_multiset().count(x) > 0);
            assert(v@.to_multiset() =~= pre.to_multiset());
            assert(mid.subrange(0, i as int) =~= pre.subrange(0, i as int));
            assert forall|a: int, b: int| 0 <= a < b < i + 1 implies updated_key(v@[a])
                >= updated_key(v@[b]) by {
                assert(v@ == mid.insert(p as int, x));
                if a == p {
                    assert(p < i);
                    assert(updated_key(mid[p as int]) < xk);
                    assert(updated_key(mid[b - 1]) <= updated_key(mid[p as int]));
                }
            }
            assert(chans_sorted(v@.subrange(0, i + 1)));
        }
        i += 1;
    }
    proof {
        assert(v@.subrange(0, n as int) =~= v@);
    }
}

/// The timestamp an incremental history fetch continues from: the newest
/// cached message, or zero with an empty cache.
pub open spec fn history_oldest_spec(cached: Seq<Message>) -> u64 {
    if cached.len() == 0 {
        0
    } else {
        cached.last().ts
    }
}

pub fn history_oldest(cached: &Vec<Message>) -> (r: u64)
    ensures
        r == history_oldest_spec(cached@),
{
    if cached.len() == 0 {
        0
    } else {
        cached[cached.len() - 1].ts
    }
}

/// The thread parent a cached reply listing starts with, or zero with an
/// empty cache.
pub open spec fn replies_parent_spec(cached: Seq<Message>) -> u64 {
    if cached.len() == 0 {
        0
    } else {
        cached.first().ts
    }
}

pub fn replies_parent(cached: &Vec<Message>) -> (r: u64)
    ensures
        r == replies_parent_spec(cached@),
{
    if cached.len() == 0 {
        0
    } else {
        cached[0].ts
    }
}

/// Append a fetched batch, sorted by timestamp, to the cached history.
///
/// When the cache is in ascending order and the batch holds only messages
/// newer than the newest cached one — what an incremental fetch returns —
/// the merge is the cached list followed by the new messages, in ascending
/// order throughout, with no overlap between the two parts.
pub fn merge_history(cached: Vec<Message>, fetched: Vec<Message>) -> (r: Vec<Message>)
    ensures
        r@.len() == cached@.len() + fetched@.len(),
        r@.subrange(0, cached@.len() as int) == cached@,
        msgs_sorted(r@.subrange(cached@.len() as int, r@.len() as int)),
        r@.subrange(cached@.len() as int, r@.len() as int).to_multiset()
            == fetched@.to_multiset(),
        (msgs_sorted(cached@) && (forall|k: int|
            0 <= k < fetched@.len() ==> fetched@[k].ts > history_oldest_spec(cached@)))
            ==> msgs_sorted(r@) && (forall|i: int, j: int|
            0 <= i < cached@.len() <= j < r@.len() ==> r@[i].ts < r@[j].ts),
{
    let ghost cn = cached@.len() as int;
    let mut tail = fetched;
    sort_messages(&mut tail);
    let ghost tailv = tail@;
    let mut r = cached;
    r.append(&mut tail);
    proof {
        broadcast use group_to_multiset_ensures;

        assert(r@.subrange(0, cached@.len() as int) =~= cached@);
        let t = r@.subrange(cached@.len() as int, r@.len() as int);
        assert(t =~= tailv);
        if msgs_sorted(cached@) && (forall|k: int|
            0 <= k < fetched@.len() ==> fetched@[k].ts > history_oldest_spec(cached@)) {
            let bound = history_oldest_spec(cached@);
            assert forall|j: int| cached@.len() <= j < r@.len() implies r@[j].ts > bound by {
                assert(r@[j] == tailv[j - cn]);
                assert(tailv.contains(tailv[j - cn])) by {
                    assert(tailv[j - cn] == tailv[j - cn]);
                }
                assert(tailv.to_multiset().count(tailv[j - cn]) > 0);
                assert(fetched@.to_multiset().count(tailv[j - cn]) > 0);
                assert(fetched@.contains(tailv[j - cn]));
                let w = choose|w: int| 0 <= w < fetched@.len() && fetched@[w] == tailv[j - cn];
                assert(fetched@[w].ts > bound);
            }
            assert forall|i: int, j: int| 0 <= i < j < r@.len() implies r@[i].ts <= r@[j].ts by {
                if j < cn {
                } else if i >= cn {
                    assert(r@[i] == tailv[i - cn] && r@[j] == tailv[j - cn]);
                } else {
                    assert(r@[i] == cached@[i]);
                    if i < cached@.len() - 1 {
                        assert(cached@[i].ts <= cached@.last().ts);
                    }
                    assert(r@[j].ts > bound);
                }
            }
            assert forall|i: int, j: int|
                0 <= i < cached@.len() <= j < r@.len() implies r@[i].ts < r@[j].ts by {
                assert(r@[i] == cached@[i]);
                if i < cached@.len() - 1 {
                    assert(cached@[i].ts <= cached@.last().ts);
                }
                assert(r@[j].ts > bound);
            }
        }
    }
    r
}

/// A batch with every message at the given timestamp removed, order kept.
pub open spec fn drop_ts(s: Seq<Message>, t: u64) -> Seq<Message>
    decreases s.len(),
{
    if s.len() == 0 {
        Seq::empty()
    } else if s.last().ts == t {
        drop_ts(s.drop_last(), t)
    } else {
        drop_ts(s.drop_last(), t).push(s.last())
    }
}

/// Nothing kept by the filter carries the dropped timestamp.
pub proof fn lemma_drop_ts_clean(s: Seq<Message>, t: u64)
    ensures
        forall|i: int| 0 <= i < drop_ts(s, t).len() ==> drop_ts(s, t)[i].ts != t,
    decreases s.len(),
{
    if s.len() > 0 {
        lemma_drop_ts_clean(s.drop_last(), t);
    }
}

/// Everything the filter keeps was in the batch.
pub proof fn lemma_drop_ts_sub(s: Seq<Message>, t: u64)
    ensures
        forall|i: int| 0 <= i < drop_ts(s, t).len() ==> s.contains(#[trigger] drop_ts(s, t)[i]),
    decreases s.len(),
{
    if s.len() > 0 {
        lemma_drop_ts_sub(s.drop_last(), t);
        assert forall|i: int|
            0 <= i < drop_ts(s, t).len() implies s.contains(#[trigger] drop_ts(s, t)[i]) by {
            if i < drop_ts(s.drop_last(), t).len() {
                assert(drop_ts(s, t)[i] == drop_ts(s.drop_last(), t)[i]);
                let w = choose|w: int|
                    0 <= w < s.drop_last().len() && s.drop_last()[w] == drop_ts(s, t)[i];
                assert(s[w] == drop_ts(s, t)[i]);
            } else {
                assert(drop_ts(s, t)[i] == s.last());
            }
        }
    }
}

#[verifier::loop_isolation(false)]
fn filter_out_ts(v: Vec<Message>, t: u64) -> (r: Vec<Message>)
    ensures
        r@ == drop_ts(v@, t),
{
    let ghost orig = v@;
    let mut v = v;
    let n0 = v.len();
    let mut r: Vec<Message> = Vec::new();
    let mut i: usize = 0;
    while v.len() > 0
        invariant
            n0 == orig.len(),
            0 <= i <= n0,
            i == orig.len() - v@.len(),
            v@ =~= orig.subrange(i as int, orig.len() as int),
            r@ == drop_ts(orig.subrange(0, i as int), t),
        decreases v@.len(),
    {
        proof {
            assert(orig.subrange(0, i + 1).drop_last() =~= orig.subrange(0, i as int));
            assert(orig.subrange(0, i + 1).last() == orig[i as int]);
            assert(orig.subrange(i as int, orig.len() as int).remove(0) =~= orig.subrange(
                i + 1,
                orig.len() as int,
            ));
        }
        let m = v.remove(0);
        if m.ts != t {
            r.push(m);
        }
        i += 1;
    }
    proof {
        assert(orig.subrange(0, orig.len() as int) =~= orig);
    }
    r
}

/// Append a fetched batch of thread replies, sorted by timestamp, to the
/// cached listing, leaving the thread's parent message out of the batch.
///
/// When the cached listing is in ascending order and the batch holds only
/// the parent and messages newer than the newest cached one — what an
/// incremental replies fetch returns — the merge comes out in ascending
/// order throughout, with no overlap.
pub fn merge_replies(cached: Vec<Message>, fetched: Vec<Message>) -> (r: Vec<Message>)
    ensures
        r@.subrange(0, cached@.len() as int) == cached@,
        msgs_sorted(r@.subrange(cached@.len() as int, r@.len() as int)),
        r@.subrange(cached@.len() as int, r@.len() as int).to_multiset() == drop_ts(
            fetched@,
            replies_parent_spec(cached@),
        ).to_multiset(),
        forall|j: int|
            cached@.len() <= j < r@.len() ==> r@[j].ts != replies_parent_spec(cached@),
        (msgs_sorted(cached@) && (forall|k: int|
            0 <= k < fetched@.len() ==> (fetched@[k].ts == replies_parent_spec(cached@)
                || fetched@[k].ts > history_oldest_spec(cached@)))) ==> msgs_sorted(r@),
{
    let parent = replies_parent(&cached);
    let kept = filter_out_ts(fetched, parent);
    let ghost keptv = kept@;
    let mut tail = kept;
    sort_messages(&mut tail);
    let ghost tailv = tail@;
    let mut r = cached;
    let ghost cn = r@.len() as int;
    r.append(&mut tail);
    proof {
        broadcast use group_to_multiset_ensures;

        assert(r@.subrange(0, cn) =~= cached@);
        let t = r@.subrange(cn, r@.len() as int);
        assert(t =~= tailv);
        lemma_drop_ts_clean(fetched@, parent);
        assert forall|j: int| cn <= j < r@.len() implies r@[j].ts != parent by {
            assert(r@[j] == tailv[j - cn]);
            assert(tailv.contains(tailv[j - cn])) by {
                assert(tailv[j - cn] == tailv[j - cn]);
            }
            assert(tailv.to_multiset().count(tailv[j - cn]) > 0);
            assert(keptv.to_multiset().count(tailv[j - cn]) > 0);
            assert(keptv.contains(tailv[j - cn]));
            let w = choose|w: int| 0 <= w < keptv.len() && keptv[w] == tailv[j - cn];
            assert(keptv[w].ts != parent);
        }
        if msgs_sorted(cached@) && (forall|k: int|
            0 <= k < fetched@.len() ==> (fetched@[k].ts == parent || fetched@[k].ts
                > history_oldest_spec(cached@))) {
            let bound = history_oldest_spec(cached@);
            lemma_drop_ts_sub(fetched@, parent);
            assert forall|j: int| cn <= j < r@.len() implies r@[j].ts > bound by {
                assert(r@[j] == tailv[j - cn]);
                assert(tailv.contains(tailv[j - cn])) by {
                    assert(tailv[j - cn] == tailv[j - cn]);
                }
                assert(tailv.to_multiset().count(tailv[j - cn]) > 0);
                assert(keptv.to_multiset().count(tailv[j - cn]) > 0);
                assert(keptv.contains(tailv[j - cn]));
                let w = choose|w: int| 0 <= w < keptv.len() && keptv[w] == tailv[j - cn];
                assert(keptv[w].ts != parent);
                assert(fetched@.contains(keptv[w]));
                let v2 = choose|v2: int| 0 <= v2 < fetched@.len() && fetched@[v2] == keptv[w];
                assert(fetched@[v2].ts == parent || fetched@[v2].ts > bound);
            }
            assert forall|i: int, j: int| 0 <= i < j < r@.len() implies r@[i].ts <= r@[j].ts by {
                if j < cn {
                } else if i >= cn {
                    assert(r@[i] == tailv[i - cn] && r@[j] == tailv[j - cn]);
                } else {
                    assert(r@[i] == cached@[i]);
                    if i < cached@.len() - 1 {
                        assert(cached@[i].ts <= cached@.last().ts);
                    }
                    assert(r@[j].ts > bound);
                }
            }
        }
    }
    r
}

/// A paginated listing in mid-walk: what has arrived so far, and whether
/// the collaborator has reported the final page.
pub struct Paginator<T> {
    pub items: Vec<T>,
    pub done: bool,
}

impl<T> Paginator<T> {
    pub fn new() -> (r: Paginator<T>)
        ensures
            r.items@.len() == 0,
            !r.done,
    {
        Paginator { items: Vec::new(), done: false }
    }

    /// Take in one fetched page; the walk is over exactly when the page
    /// carries an empty continuation cursor.
    pub fn absorb(&mut self, page: Vec<T>, next_cursor: &str)
        requires
            !old(self).done,
        ensures
            final(self).items@ == old(self).items@ + page@,
            final(self).done == (next_cursor@.len() == 0),
    {
        let mut page = page;
        self.items.append(&mut page);
        self.done = next_cursor.unicode_len() == 0;
    }
}

/// How many pages a walk of the listing consumes: every page up to and
/// including the first with an empty cursor, or all of them if none is.
pub open spec fn pages_consumed<T>(pages: Seq<(Vec<T>, String)>) -> int
    decreases pages.len(),
{
    if pages.len() == 0 {
        0
    } else if pages.first().1@.len() == 0 {
        1
    } else {
        1 + pages_consumed(pages.drop_first())
    }
}

/// Everything the consumed pages hold, in arrival order.
pub open spec fn pages_collected<T>(pages: Seq<(Vec<T>, String)>) -> Seq<T>
    decreases pages.len(),
{
    if pages.len() == 0 {
        Seq::empty()
    } else if pages.first().1@.len() == 0 {
        pages.first().0@
    } else {
        pages.first().0@ + pages_collected(pages.drop_first())
    }
}

/// Walk a listing whose pages are already at hand: absorb pages until one
/// carries an empty cursor. Exactly the consumed pages are read, and the
/// result holds every consumed page's items, in order.
#[verifier::loop_isolation(false)]
pub fn collect_pages<T>(pages: Vec<(Vec<T>, String)>) -> (r: (Vec<T>, usize))
    ensures
        r.1 == pages_consumed(pages@),
        r.0@ == pages_collected(pages@),
{
    let ghost orig = pages@;
    let mut pages = pages;
    let n0 = pages.len();
    let mut pag: Paginator<T> = Paginator::new();
    let mut count: usize = 0;
    while !pag.done && pages.len() > 0
        invariant
            n0 == orig.len(),
            0 <= count <= n0,
            count == orig.len() - pages@.len(),
            pages@ =~= orig.subrange(count as int, orig.len() as int),
            if pag.done {
                count == pages_consumed(orig) && pag.items@ =~= pages_collected(orig)
            } else {
                count + pages_consumed(pages@) == pages_consumed(orig) && pag.items@
                    + pages_collected(pages@) =~= pages_collected(orig)
            },
        decreases pages@.len(),
    {
        let ghost prev = pages@;
        let (pg, cur) = pages.remove(0);
        pag.absorb(pg, cur.as_str());
        count += 1;
        proof {
            assert(prev.first() == (pg, cur));
            assert(prev.remove(0) =~= prev.drop_first());
            assert(prev.drop_first() =~= orig.subrange(count as int, orig.len() as int));
        }
    }
    (pag.items, count)
}

/// Whether a conversation is a direct line to people rather than a named
/// channel.
pub open spec fn is_direct(c: Channel) -> bool {
    c.is_im || (match c.is_mpim {
        Option::Some(b) => b,
        Option::None => false,
    })
}

pub open spec fn keep_regular(s: Seq<Channel>) -> Seq<Channel>
    decreases s.len(),
{
    if s.len() == 0 {
        Seq::empty()
    } else if is_direct(s.last()) {
        keep_regular(s.drop_last())
    } else {
        keep_regular(s.drop_last()).push(s.last())
    }
}

pub open spec fn keep_direct(s: Seq<Channel>) -> Seq<Channel>
    decreases s.len(),
{
    if s.len() == 0 {
        Seq::empty()
    } else if is_direct(s.last()) {
        keep_direct(s.drop_last()).push(s.last())
    } else {
        keep_direct(s.drop_last())
    }
}

/// Part the fetched conversations into named channels and direct messages,
/// each keeping arrival order.
#[verifier::loop_isolation(false)]
pub fn partition_conversations(v: Vec<Channel>) -> (r: (Vec<Channel>, Vec<Channel>))
    ensures
        r.0@ == keep_regular(v@),
        r.1@ == keep_direct(v@),
{
    let ghost orig = v@;
    let mut v = v;
    let n0 = v.len();
    let mut regular: Vec<Channel> = Vec::new();
    let mut direct: Vec<Channel> = Vec::new();
    let mut i: usize = 0;
    while v.len() > 0
        invariant
            n0 == orig.len(),
            0 <= i <= n0,
            i == orig.len() - v@.len(),
            v@ =~= orig.subrange(i as int, orig.len() as int),
            regular@ == keep_regular(orig.subrange(0, i as int)),
            direct@ == keep_direct(orig.subrange(0, i as int)),
        decreases v@.len(),
    {
        proof {
            assert(orig.subrange(0, i + 1).drop_last() =~= orig.subrange(0, i as int));
            assert(orig.subrange(0, i + 1).last() == orig[i as int]);
            assert(orig.subrange(i as int, orig.len() as int).remove(0) =~= orig.subrange(
                i + 1,
                orig.len() as int,
            ));
        }
        let c = v.remove(0);
        let mpim = match c.is_mpim {
            Option::Some(b) => b,
            Option::None => false,
        };
        if c.is_im || mpim {
            direct.push(c);
        } else {
            regular.push(c);
        }
        i += 1;
    }
    proof {
        assert(orig.subrange(0, orig.len() as int) =~= orig);
    }
    (regular, direct)
}

/// The value the first `code` parameter of a callback query string carries.
pub open spec fn pair_of(seg: Seq<char>) -> Option<(Seq<char>, Seq<char>)> {
    match first_char_at(seg, '=', 0) {
        Option::None => Option::None,
        Option::Some(p) => {
            let rest = seg.subrange(p + 1, seg.len() as int);
            let v = match first_char_at(rest, '=', 0) {
                Option::None => rest,
                Option::Some(q) => rest.subrange(0, q),
            };
            Option::Some((seg.subrange(0, p), v))
        },
    }
}

pub open spec fn code_in(segs: Seq<Seq<char>>) -> Option<Seq<char>>
    decreases segs.len(),
{
    if segs.len() == 0 {
        Option::None
    } else {
        match pair_of(segs.first()) {
            Option::Some(kv) => if kv.0 == "code"@ {
                Option::Some(kv.1)
            } else {
                code_in(segs.drop_first())
            },
            Option::None => code_in(segs.drop_first()),
        }
    }
}

pub open spec fn oauth_code_of(query: Seq<char>) -> Option<Seq<char>> {
    code_in(split_by(query, '&'))
}

/// Read the authorization code out of the callback's query string: the
/// value of the first `code` parameter, if one is there.
#[verifier::loop_isolation(false)]
pub fn parse_oauth_code(query: &str) -> (r: Option<String>)
    ensures
        match r {
            Option::None => oauth_code_of(query@) is None,
            Option::Some(v) => oauth_code_of(query@) == Option::Some(v@),
        },
{
    let segs = split_on(query, '&');
    let n = segs.len();
    let mut i: usize = 0;
    proof {
        assert(views_of(segs@).subrange(0, n as int) =~= views_of(segs@));
    }
    while i < n
        invariant
            0 <= i <= n,
            n == segs@.len(),
            views_of(segs@) == split_by(query@, '&'),
            code_in(views_of(segs@).subrange(i as int, n as int)) == oauth_code_of(query@),
        decreases n - i,
    {
        let seg = segs[i].as_str();
        let ghost segsv = views_of(segs@);
        proof {
            assert(segsv.subrange(i as int, n as int).first() == seg@);
            assert(segsv.subrange(i as int, n as int).drop_first() =~= segsv.subrange(
                i + 1,
                n as int,
            ));
        }
        let slen = seg.unicode_len();
        match find_char(seg, '=') {
            Option::None => {},
            Option::Some(p) => {
                let key = seg.substring_char(0, p);
                let rest = seg.substring_char(p + 1, slen);
                let rlen = rest.unicode_len();
                let value = match find_char(rest, '=') {
                    Option::None => rest,
                    Option::Some(q) => rest.substring_char(0, q),
                };
                if str_eq(key, "code") {
                    return Option::Some(str_to_string(value));
                }
            },
        }
        i += 1;
    }
    proof {
        assert(views_of(segs@).subrange(n as int, n as int) =~= Seq::<Seq<char>>::empty());
    }
    Option::None
}

/// The fixed query string of the authorization page, up to the client
/// identifier appended at the end.
pub fn build_authorize_query(client_id: &str) -> (r: String)
    ensures
        r@ == "scope=&user_scope=users:read,usergroups:read,channels:read,channels:history,groups:read,groups:history,mpim:read,mpim:history,im:read,im:history,chat:write&redirect_uri=https://localhost:7777&client_id="@
            + client_id@,
{
    let mut s = str_to_string(
        "scope=&user_scope=users:read,usergroups:read,channels:read,channels:history,groups:read,groups:history,mpim:read,mpim:history,im:read,im:history,chat:write&redirect_uri=https://localhost:7777&client_id=",
    );
    s.append(client_id);
    s
}

} // verus!

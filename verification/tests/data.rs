//! The worker loop's data rules: sorting, incremental merging, pagination
//! and the authorization callback.

use clack::datasources::slack::{
    build_authorize_query, collect_pages, history_oldest, merge_history, merge_replies,
    parse_oauth_code, partition_conversations, replies_parent, sort_channels, sort_messages,
    Paginator,
};
use clack::entities::conversations::Channel;
use clack::entities::messages::Message;

fn chan(id: &str, im: bool, mpim: bool, updated: i64) -> Channel {
    Channel {
        id: id.to_string(),
        name: Some(format!("name-{}", id)),
        is_im: im,
        is_mpim: Some(mpim),
        is_private: Some(false),
        is_member: Some(true),
        is_user_deleted: Some(false),
        created: 0,
        updated: Some(updated),
        user: if im { Some(format!("U{}", id)) } else { None },
    }
}

fn msg(ts: u64, text: &str) -> Message {
    Message {
        user: Some("U1".to_string()),
        bot_id: None,
        ts,
        text: Some(text.to_string()),
        reply_count: None,
        reactions: None,
    }
}

#[test]
fn sort_messages_orders_by_timestamp() {
    let mut v = vec![msg(30, "c"), msg(10, "a"), msg(20, "b")];
    sort_messages(&mut v);
    let ts: Vec<u64> = v.iter().map(|m| m.ts).collect();
    assert_eq!(ts, vec![10, 20, 30]);
}

#[test]
fn sort_channels_orders_by_update_stamp_descending() {
    let mut v = vec![chan("a", false, false, 5), chan("b", false, false, 50), chan("c", false, false, 20)];
    sort_channels(&mut v);
    let ids: Vec<String> = v.iter().map(|c| c.id.clone()).collect();
    assert_eq!(ids, vec!["b".to_string(), "c".to_string(), "a".to_string()]);
}

#[test]
fn incremental_history_merge_appends_newer_messages_in_order() {
    // A cached list ending at timestamp 20, and a fetch holding only newer
    // messages: the merge is the cached list followed by the new ones in
    // ascending order, with no overlap.
    let cached = vec![msg(10, "old-a"), msg(20, "old-b")];
    assert_eq!(history_oldest(&cached), 20);
    let fetched = vec![msg(40, "new-b"), msg(30, "new-a")];
    let merged = merge_history(cached, fetched);
    let ts: Vec<u64> = merged.iter().map(|m| m.ts).collect();
    assert_eq!(ts, vec![10, 20, 30, 40]);
    let texts: Vec<String> = merged.iter().map(|m| m.text.clone().unwrap()).collect();
    assert_eq!(texts, vec!["old-a", "old-b", "new-a", "new-b"]);
}

#[test]
fn history_merge_with_empty_cache_sorts_the_batch() {
    let merged = merge_history(Vec::new(), vec![msg(5, "b"), msg(1, "a")]);
    let ts: Vec<u64> = merged.iter().map(|m| m.ts).collect();
    assert_eq!(ts, vec![1, 5]);
}

#[test]
fn replies_merge_excludes_the_parent_message() {
    let cached = vec![msg(100, "parent"), msg(150, "first-reply")];
    assert_eq!(replies_parent(&cached), 100);
    let fetched = vec![msg(100, "parent-again"), msg(200, "second-reply")];
    let merged = merge_replies(cached, fetched);
    let ts: Vec<u64> = merged.iter().map(|m| m.ts).collect();
    assert_eq!(ts, vec![100, 150, 200]);
    assert_eq!(merged[2].text.clone().unwrap(), "second-reply");
}

#[test]
fn paginator_finishes_exactly_on_the_empty_cursor() {
    let mut p: Paginator<u32> = Paginator::new();
    p.absorb(vec![1, 2], "cursor-a");
    assert!(!p.done);
    p.absorb(vec![3], "");
    assert!(p.done);
    assert_eq!(p.items, vec![1, 2, 3]);
}

#[test]
fn pagination_reads_each_page_once_and_collects_everything() {
    // A fake collaborator returning three pages then an empty cursor:
    // exactly three reads happen and the result holds every page's items,
    // with no duplicates.
    let pages = vec![
        (vec![1u32, 2], "next-1".to_string()),
        (vec![3, 4], "next-2".to_string()),
        (vec![5], "".to_string()),
    ];
    let (items, count) = collect_pages(pages);
    assert_eq!(count, 3);
    assert_eq!(items, vec![1, 2, 3, 4, 5]);
    let mut dedup = items.clone();
    dedup.sort();
    dedup.dedup();
    assert_eq!(dedup.len(), items.len());
}

#[test]
fn pagination_stops_at_the_first_empty_cursor() {
    let pages = vec![
        (vec![1u32], "".to_string()),
        (vec![2], "more".to_string()),
    ];
    let (items, count) = collect_pages(pages);
    assert_eq!(count, 1);
    assert_eq!(items, vec![1]);
}

#[test]
fn conversations_split_into_channels_and_direct_messages() {
    let all = vec![
        chan("c1", false, false, 1),
        chan("d1", true, false, 2),
        chan("c2", false, false, 3),
        chan("g1", false, true, 4),
    ];
    let (regular, direct) = partition_conversations(all);
    let rids: Vec<String> = regular.iter().map(|c| c.id.clone()).collect();
    let dids: Vec<String> = direct.iter().map(|c| c.id.clone()).collect();
    assert_eq!(rids, vec!["c1".to_string(), "c2".to_string()]);
    assert_eq!(dids, vec!["d1".to_string(), "g1".to_string()]);
}

#[test]
fn oauth_code_is_read_from_the_callback_query() {
    assert_eq!(parse_oauth_code("state=x&code=abc&other=1"), Some("abc".to_string()));
    assert_eq!(parse_oauth_code("code=first&code=second"), Some("first".to_string()));
    assert_eq!(parse_oauth_code("state=x&token=y"), None);
    assert_eq!(parse_oauth_code(""), None);
    // A value carrying a second '=' is cut at it, as splitting on '=' does.
    assert_eq!(parse_oauth_code("code=x=y"), Some("x".to_string()));
}

#[test]
fn authorize_query_carries_the_client_id_last() {
    let q = build_authorize_query("CLIENT42");
    assert!(q.ends_with("&client_id=CLIENT42"));
    assert!(q.starts_with("scope=&user_scope=users:read,"));
    assert!(q.contains("redirect_uri=https://localhost:7777"));
}

#[test]
fn replies_parent_and_oldest_default_to_zero() {
    let empty: Vec<Message> = Vec::new();
    assert_eq!(history_oldest(&empty), 0);
    assert_eq!(replies_parent(&empty), 0);
}

//! The render side: the memo cache, the section builders, the frame plan
//! and its reuse of clean sections.

use clack::cache::Cache;
use clack::context::Context;
use clack::entities::authorization::{AuthedUser, Authorization, Team};
use clack::entities::configuration::{Configuration, KeyMaps, KeyMapsFocus, Slack, StatusLine, StatusLineSide};
use clack::entities::conversations::Channel;
use clack::entities::messages::{Message, Reaction};
use clack::entities::users::{Member, MemberProfile};
use clack::enums::section::Section;
use clack::enums::user_mode::UserMode;
use clack::enums::widgets::{widgets_eq, WidgetData, Widgets};
use clack::presentation::widgets::channel;
use clack::presentation::widgets::loading::loading_frame;
use clack::presentation::widgets::messages::{message_rows, parse_hex_color};
use clack::presentation::widgets::section_data::{build_frame, need_render, FrameMap};
use clack::presentation::widgets::status_line;
use clack::style::{Color, Rect};

fn test_config() -> Configuration {
    Configuration {
        with_default_config: true,
        keymaps: KeyMaps {
            up: "up".to_string(),
            down: "down".to_string(),
            left: "left".to_string(),
            right: "right".to_string(),
            exit: "ctrl+c".to_string(),
            open: "enter".to_string(),
            search: "/".to_string(),
            interact: "i".to_string(),
            send: "ctrl+s".to_string(),
            focus: KeyMapsFocus {
                up: "shift+up".to_string(),
                down: "shift+down".to_string(),
                left: "shift+left".to_string(),
                right: "shift+right".to_string(),
            },
        },
        slack: Slack { client_id: "id".to_string(), client_secret: "secret".to_string() },
        status_line: StatusLine {
            left: StatusLineSide {
                template: "%mode%<>%team%<>%user%".to_string(),
                separator: ">".to_string(),
            },
            right: StatusLineSide {
                template: "%channel%<><>".to_string(),
                separator: "<".to_string(),
            },
        },
    }
}

fn chan(id: &str) -> Channel {
    Channel {
        id: id.to_string(),
        name: Some(format!("chan-{}", id)),
        is_im: false,
        is_mpim: Some(false),
        is_private: Some(false),
        is_member: Some(true),
        is_user_deleted: Some(false),
        created: 0,
        updated: Some(0),
        user: None,
    }
}

fn member(id: &str, name: &str, color: &str) -> Member {
    Member {
        id: id.to_string(),
        name: name.to_string(),
        deleted: false,
        color: Some(color.to_string()),
        is_bot: false,
        profile: MemberProfile { display_name: name.to_string(), real_name: None },
    }
}

fn logged_in_ctx() -> Context {
    let mut ctx = Context::default();
    ctx.auth = Some(Authorization {
        ok: true,
        app_id: "APP".to_string(),
        authed_user: AuthedUser {
            id: "U1".to_string(),
            scope: "read".to_string(),
            access_token: "tok".to_string(),
            token_type: "user".to_string(),
        },
        team: Team { id: "T1".to_string(), name: "crew".to_string() },
    });
    ctx.state.global.members = vec![member("U1", "ada", "ff0000")];
    ctx
}

fn widget_lists_equal(a: &Vec<WidgetData>, b: &Vec<WidgetData>) -> bool {
    a.len() == b.len()
        && a.iter().zip(b.iter()).all(|(x, y)| x.rect == y.rect && widgets_eq(&x.widget, &y.widget))
}

#[test]
fn memo_returns_the_latest_entry_per_key() {
    let mut cache = Cache::new();
    assert!(cache.widget.get("k").is_none());
    cache.widgets.insert("k".to_string(), Vec::new());
    assert!(cache.widgets.get("k").is_some());
    assert!(cache.widgets.get("other").is_none());
}

#[test]
fn loading_frame_walks_the_spinner_cyclically() {
    let (text, next) = loading_frame("abc", 1);
    assert_eq!(text, "  b Loading...  ");
    assert_eq!(next, 2);
    let (_, wrapped) = loading_frame("abc", 2);
    assert_eq!(wrapped, 0);
}

#[test]
fn hex_colors_parse_and_fall_back_to_white() {
    assert_eq!(parse_hex_color("ff8000"), Color::Rgb(255, 128, 0));
    assert_eq!(parse_hex_color("00ff00"), Color::Rgb(0, 255, 0));
    assert_eq!(parse_hex_color("zzz"), Color::Rgb(255, 255, 255));
    assert_eq!(parse_hex_color("nothex"), Color::Rgb(255, 255, 255));
}

#[test]
fn message_rows_name_mentions_and_footer() {
    let members = vec![member("U7", "bob", "0000ff")];
    let m = Message {
        user: Some("U7".to_string()),
        bot_id: None,
        ts: 1,
        text: Some("hi <@U7> and <@U9>".to_string()),
        reply_count: Some(2),
        reactions: Some(vec![Reaction { name: "tada".to_string(), count: 3 }]),
    };
    let rows = message_rows(&m, &members, 60);
    // The first row names the author in their colour, then the body with
    // known mentions expanded and unknown ones dropped.
    assert_eq!(rows[0].spans[0].text, "bob");
    assert_eq!(rows[0].spans[0].style.fg, Color::Rgb(0, 0, 255));
    assert!(rows[0].spans[0].style.bold);
    assert_eq!(rows[0].spans[1].text, " hi @bob and ");
    // The footer gathers the reply count and the reactions.
    let last = rows.last().unwrap();
    assert_eq!(last.spans[0].text, "[+2 replies] [:tada: 3]");
}

#[test]
fn status_line_expands_placeholders_into_segments() {
    let config = test_config();
    let ctx = logged_in_ctx();
    let strip = Rect { x: 0, y: 20, width: 80, height: 1 };
    let r = status_line::render(&config, &ctx, strip);
    assert_eq!(r.len(), 2);
    match &r[0].widget {
        Widgets::Line(l) => {
            assert_eq!(l.spans[0].text, "NORMAL");
            assert_eq!(l.spans[1].text, ">");
            assert_eq!(l.spans[2].text, "crew");
            assert_eq!(l.spans[4].text, "ada");
        },
        _ => panic!("left half must be a line"),
    }
    match &r[1].widget {
        Widgets::Line(l) => {
            // The right template has an empty channel segment and two
            // separators.
            assert_eq!(l.spans[4].text, "");
        },
        _ => panic!("right half must be a line"),
    }
}

#[test]
fn channel_section_draws_filtered_lines_and_search_box() {
    let config = test_config();
    let mut ctx = logged_in_ctx();
    ctx.state.global.section = Section::Channel;
    ctx.mode = UserMode::Search;
    ctx.state.channel.channels = vec![chan("red"), chan("blue")];
    ctx.state.channel.search = "blu".to_string();
    let mut cache = Cache::new();
    let area = Rect { x: 0, y: 0, width: 40, height: 20 };
    let r = channel::render(area, &config, &ctx, &mut cache);
    assert_eq!(r.len(), 2);
    match &r[0].widget {
        Widgets::List(l) => {
            assert_eq!(l.items.len(), 1);
            assert_eq!(l.items[0].line.spans[0].text, " \u{f4df} chan-blue");
        },
        _ => panic!("channel section must be a list"),
    }
    match &r[1].widget {
        Widgets::Paragraph(p) => assert_eq!(p.text, "/blu"),
        _ => panic!("search box must be a paragraph"),
    }
}

#[test]
fn message_section_sits_in_its_border() {
    let config = test_config();
    let mut ctx = logged_in_ctx();
    ctx.state.channel.opened = Some(chan("here"));
    ctx.state.message.messages = vec![Message {
        user: Some("U1".to_string()),
        bot_id: None,
        ts: 1_700_000_000_000_000,
        text: Some("hello there".to_string()),
        reply_count: None,
        reactions: None,
    }];
    let mut cache = Cache::new();
    let area = Rect { x: 40, y: 0, width: 60, height: 24 };
    let r = clack::presentation::widgets::messages::render(area, &config, &ctx, &mut cache);
    assert_eq!(r.len(), 1);
    assert_eq!(r[0].rect, area);
    match &r[0].widget {
        Widgets::List(l) => {
            assert!(l.block.is_some());
            // The author row of the one message is among the rows.
            assert!(l.items.iter().any(|e| e.line.spans.first().map_or(false, |s| s.text == "ada")));
        },
        _ => panic!("message section must be a list"),
    }
}

#[test]
fn thread_rows_are_the_replies_rows() {
    // With no date labels in play, the thread rows are a pure function of
    // the replies, members and width: the author row and the body row of
    // the one reply must be there, in order.
    let config = test_config();
    let mut ctx = logged_in_ctx();
    ctx.state.message.opened = Some(Message {
        user: Some("U1".to_string()),
        bot_id: None,
        ts: 5,
        text: Some("parent text".to_string()),
        reply_count: Some(1),
        reactions: None,
    });
    ctx.state.thread.messages = vec![Message {
        user: Some("U1".to_string()),
        bot_id: None,
        ts: 9,
        text: Some("a reply".to_string()),
        reply_count: None,
        reactions: None,
    }];
    let mut cache = Cache::new();
    let area = Rect { x: 70, y: 0, width: 30, height: 24 };
    let r = clack::presentation::widgets::messages::render_thread(area, &config, &ctx, &mut cache);
    match &r[0].widget {
        Widgets::List(l) => {
            assert_eq!(l.items.len(), 1);
            assert_eq!(l.items[0].line.spans[0].text, "ada");
            assert_eq!(l.items[0].line.spans[1].text, " a reply");
        },
        _ => panic!("thread section must be a list"),
    }

    // A second build over the same snapshot reuses the memoised block bit
    // for bit.
    let again = clack::presentation::widgets::messages::render_thread(area, &config, &ctx, &mut cache);
    match (&r[0].widget, &again[0].widget) {
        (Widgets::List(a), Widgets::List(b)) => {
            assert_eq!(a.items.len(), b.items.len());
            assert_eq!(a.items[0].line.spans[0].text, b.items[0].line.spans[0].text);
        },
        _ => panic!("thread section must be a list"),
    }
}

#[test]
fn thread_section_carries_the_thread_title() {
    let config = test_config();
    let mut ctx = logged_in_ctx();
    ctx.state.message.opened = Some(Message {
        user: Some("U1".to_string()),
        bot_id: None,
        ts: 5,
        text: Some("parent".to_string()),
        reply_count: Some(1),
        reactions: None,
    });
    ctx.state.thread.messages = vec![ctx.state.message.opened.clone().unwrap()];
    let mut cache = Cache::new();
    let area = Rect { x: 70, y: 0, width: 30, height: 24 };
    let r = clack::presentation::widgets::messages::render_thread(area, &config, &ctx, &mut cache);
    assert_eq!(r.len(), 1);
    match &r[0].widget {
        Widgets::List(l) => {
            assert_eq!(l.block.as_ref().unwrap().title, Some("Thread".to_string()));
        },
        _ => panic!("thread section must be a list"),
    }
}

#[test]
fn rebuilding_with_the_same_snapshot_is_bit_identical() {
    // Building a section twice over one snapshot, with whatever the memo
    // cache holds after the first run, yields bit-identical fragments.
    let config = test_config();
    let mut ctx = logged_in_ctx();
    ctx.state.channel.channels = vec![chan("one"), chan("two")];
    let mut cache = Cache::new();
    let area = Rect { x: 0, y: 0, width: 40, height: 20 };
    let first = channel::render(area, &config, &ctx, &mut cache);
    let second = channel::render(area, &config, &ctx, &mut cache);
    assert!(widget_lists_equal(&first, &second));
}

#[test]
fn clean_sections_are_reused_across_frames() {
    // A section whose dirty check reports no change keeps its fragments
    // from the previous frame, untouched.
    let config = test_config();
    let mut old_ctx = logged_in_ctx();
    old_ctx.state.channel.channels = vec![chan("one")];
    let mut new_ctx = old_ctx.clone();

    let mut map = FrameMap::new();
    let mut cache = Cache::new();
    let area = Rect { x: 0, y: 0, width: 100, height: 30 };
    build_frame(&config, area, &old_ctx, &old_ctx, &mut map, &mut cache);
    let channel_before = map.channel.clone().unwrap();

    // Only the composer changes: the channel section must not be rebuilt,
    // bit for bit.
    new_ctx.state.input.value = "typing".to_string();
    assert!(!need_render(Section::Channel, &old_ctx, &new_ctx));
    assert!(need_render(Section::Input, &old_ctx, &new_ctx));
    build_frame(&config, area, &old_ctx, &new_ctx, &mut map, &mut cache);
    let channel_after = map.channel.clone().unwrap();
    assert!(widget_lists_equal(&channel_before, &channel_after));
    assert!(map.thread.is_none());
}

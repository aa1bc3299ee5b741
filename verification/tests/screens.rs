//! The input side of the pipeline: keymaps, screen commands and the
//! configuration rules.

use clack::context::Context;
use clack::entities::configuration::{
    Configuration, KeyMaps, KeyMapsFocus, PartialConfiguration, PartialSlack, Slack, StatusLine,
    StatusLineSide,
};
use clack::entities::conversations::Channel;
use clack::entities::messages::Message;
use clack::enums::request::Request;
use clack::enums::section::Section;
use clack::enums::user_mode::UserMode;
use clack::keymaps;
use clack::presentation::screen::{home, landing};
use clack::presentation::widgets::channels;
use clack::utils::keycode::{Event, KeyCode, KeyModifiers, KeyPress};

fn test_config() -> Configuration {
    Configuration {
        with_default_config: true,
        keymaps: KeyMaps {
            up: "up".to_string(),
            down: "down".to_string(),
            left: "left".to_string(),
            right: "right".to_string(),
            exit: "ctrl+c".to_string(),
            open: "enter".to_string(),
            search: "/".to_string(),
            interact: "i".to_string(),
            send: "ctrl+s".to_string(),
            focus: KeyMapsFocus {
                up: "shift+up".to_string(),
                down: "shift+down".to_string(),
                left: "shift+left".to_string(),
                right: "shift+right".to_string(),
            },
        },
        slack: Slack { client_id: "id".to_string(), client_secret: "secret".to_string() },
        status_line: StatusLine {
            left: StatusLineSide { template: "%mode%<>%team%<>%user%".to_string(), separator: ">".to_string() },
            right: StatusLineSide { template: "%channel%<><>".to_string(), separator: "<".to_string() },
        },
    }
}

fn key(mods: KeyModifiers, code: KeyCode) -> Event {
    Event::Key(KeyPress { modifiers: mods, code })
}

fn chan(id: &str) -> Channel {
    Channel {
        id: id.to_string(),
        name: Some(format!("chan-{}", id)),
        is_im: false,
        is_mpim: Some(false),
        is_private: Some(false),
        is_member: Some(true),
        is_user_deleted: Some(false),
        created: 0,
        updated: Some(0),
        user: None,
    }
}

fn msg(ts: u64, text: &str) -> Message {
    Message {
        user: Some("U1".to_string()),
        bot_id: None,
        ts,
        text: Some(text.to_string()),
        reply_count: None,
        reactions: None,
    }
}

#[test]
fn configured_bindings_validate() {
    assert!(keymaps::validate_config(&test_config()));
    let mut bad = test_config();
    bad.keymaps.up = "meta+up".to_string();
    assert!(!keymaps::validate_config(&bad));
}

#[test]
fn search_key_enters_search_mode_and_escape_clears() {
    // Pressing the configured search key over the channel list switches to
    // search mode; typing builds the search; Escape clears it and returns
    // to normal mode.
    let config = test_config();
    let mut ctx = Context::default();
    ctx.state.global.section = Section::Channel;
    ctx.state.channel.channels = vec![chan("a")];

    keymaps::channels(&key(KeyModifiers::Plain, KeyCode::Char('/')), &config, &mut ctx);
    assert!(matches!(ctx.mode, UserMode::Search));

    keymaps::channels(&key(KeyModifiers::Plain, KeyCode::Char('a')), &config, &mut ctx);
    keymaps::channels(&key(KeyModifiers::Plain, KeyCode::Char('b')), &config, &mut ctx);
    assert_eq!(ctx.state.channel.search, "ab");

    keymaps::channels(&key(KeyModifiers::Plain, KeyCode::Esc), &config, &mut ctx);
    assert!(matches!(ctx.mode, UserMode::Normal));
    assert_eq!(ctx.state.channel.search, "");
}

#[test]
fn search_enter_keeps_the_query() {
    let config = test_config();
    let mut ctx = Context::default();
    ctx.state.global.section = Section::Channel;
    ctx.mode = UserMode::Search;
    keymaps::channels(&key(KeyModifiers::Plain, KeyCode::Char('x')), &config, &mut ctx);
    keymaps::channels(&key(KeyModifiers::Plain, KeyCode::Enter), &config, &mut ctx);
    assert!(matches!(ctx.mode, UserMode::Normal));
    assert_eq!(ctx.state.channel.search, "x");
}

#[test]
fn channel_walk_wraps_around() {
    let config = test_config();
    let mut ctx = Context::default();
    ctx.state.global.section = Section::Channel;
    ctx.state.channel.channels = vec![chan("a"), chan("b"), chan("c")];

    // Nothing selected: up lands on the last entry.
    keymaps::channels(&key(KeyModifiers::Plain, KeyCode::Up), &config, &mut ctx);
    assert_eq!(ctx.state.channel.selected_index, Some(2));
    assert_eq!(ctx.state.channel.selected.as_ref().unwrap().id, "c");

    // Up from the top wraps to the bottom; down from the bottom wraps up.
    keymaps::channels(&key(KeyModifiers::Plain, KeyCode::Down), &config, &mut ctx);
    assert_eq!(ctx.state.channel.selected_index, Some(0));
    keymaps::channels(&key(KeyModifiers::Plain, KeyCode::Up), &config, &mut ctx);
    assert_eq!(ctx.state.channel.selected_index, Some(2));
}

#[test]
fn stale_selection_is_dropped_by_the_filter() {
    let config = test_config();
    let mut ctx = Context::default();
    ctx.state.global.section = Section::Channel;
    ctx.state.channel.channels = vec![chan("alpha"), chan("beta")];
    ctx.state.channel.selected = Some(chan("alpha"));
    ctx.state.channel.selected_index = Some(0);
    ctx.state.channel.search = "beta".to_string();

    // Any key runs the stale-selection check first.
    keymaps::channels(&key(KeyModifiers::Plain, KeyCode::Char('z')), &config, &mut ctx);
    assert!(ctx.state.channel.selected.is_none());
    assert!(ctx.state.channel.selected_index.is_none());
}

#[test]
fn opening_a_channel_focuses_messages_and_resets_them() {
    let config = test_config();
    let mut ctx = Context::default();
    ctx.state.global.section = Section::Channel;
    ctx.state.channel.channels = vec![chan("a")];
    ctx.state.channel.selected = Some(chan("a"));
    ctx.state.channel.selected_index = Some(0);
    ctx.state.message.messages = vec![msg(1, "left-over")];

    keymaps::channels(&key(KeyModifiers::Plain, KeyCode::Enter), &config, &mut ctx);
    assert!(matches!(ctx.state.global.section, Section::Message));
    assert_eq!(ctx.state.channel.opened.as_ref().unwrap().id, "a");
    assert!(ctx.state.message.messages.is_empty());
}

#[test]
fn focus_keys_move_between_sections() {
    let config = test_config();
    let mut ctx = Context::default();
    ctx.state.global.section = Section::Channel;
    keymaps::generic(&key(KeyModifiers::Shift, KeyCode::Right), &config, &mut ctx);
    assert!(matches!(ctx.state.global.section, Section::Message));
    keymaps::generic(&key(KeyModifiers::Shift, KeyCode::Down), &config, &mut ctx);
    assert!(matches!(ctx.state.global.section, Section::Input));
    keymaps::generic(&key(KeyModifiers::Shift, KeyCode::Left), &config, &mut ctx);
    assert!(matches!(ctx.state.global.section, Section::Channel));
}

#[test]
fn exit_key_raises_the_exit_flag() {
    let config = test_config();
    let mut ctx = Context::default();
    keymaps::generic(&key(KeyModifiers::Control, KeyCode::Char('c')), &config, &mut ctx);
    assert!(ctx.state.global.exit);
}

#[test]
fn composer_edits_in_interact_mode() {
    let config = test_config();
    let mut ctx = Context::default();
    ctx.state.global.section = Section::Input;

    keymaps::input(&key(KeyModifiers::Plain, KeyCode::Char('i')), &config, &mut ctx);
    assert!(matches!(ctx.mode, UserMode::Interact));

    keymaps::input(&key(KeyModifiers::Plain, KeyCode::Char('h')), &config, &mut ctx);
    keymaps::input(&key(KeyModifiers::Shift, KeyCode::Char('i')), &config, &mut ctx);
    keymaps::input(&key(KeyModifiers::Plain, KeyCode::Enter), &config, &mut ctx);
    keymaps::input(&key(KeyModifiers::Plain, KeyCode::Char('!')), &config, &mut ctx);
    keymaps::input(&key(KeyModifiers::Plain, KeyCode::Backspace), &config, &mut ctx);
    assert_eq!(ctx.state.input.value, "hI\n");

    keymaps::input(&key(KeyModifiers::Control, KeyCode::Char('s')), &config, &mut ctx);
    assert!(ctx.state.input.send);

    keymaps::input(&key(KeyModifiers::Plain, KeyCode::Esc), &config, &mut ctx);
    assert!(matches!(ctx.mode, UserMode::Normal));
}

#[test]
fn message_walk_clamps_at_the_edges() {
    let config = test_config();
    let mut ctx = Context::default();
    ctx.state.global.section = Section::Message;
    ctx.state.message.messages = vec![msg(1, "a"), msg(2, "b")];

    keymaps::messages(&key(KeyModifiers::Plain, KeyCode::Up), &config, &mut ctx);
    assert_eq!(ctx.state.message.selected_index, Some(1));
    keymaps::messages(&key(KeyModifiers::Plain, KeyCode::Down), &config, &mut ctx);
    assert_eq!(ctx.state.message.selected_index, Some(1));
    keymaps::messages(&key(KeyModifiers::Plain, KeyCode::Up), &config, &mut ctx);
    assert_eq!(ctx.state.message.selected_index, Some(0));
    keymaps::messages(&key(KeyModifiers::Plain, KeyCode::Up), &config, &mut ctx);
    assert_eq!(ctx.state.message.selected_index, Some(0));

    keymaps::messages(&key(KeyModifiers::Plain, KeyCode::Right), &config, &mut ctx);
    assert!(matches!(ctx.state.global.section, Section::Thread));
    assert_eq!(ctx.state.message.opened.as_ref().unwrap().ts, 1);
}

#[test]
fn thread_escape_closes_the_thread() {
    let config = test_config();
    let mut ctx = Context::default();
    ctx.state.global.section = Section::Thread;
    ctx.state.message.opened = Some(msg(5, "parent"));
    ctx.state.thread.messages = vec![msg(5, "parent"), msg(6, "reply")];
    ctx.state.thread.selected = Some(msg(6, "reply"));
    ctx.state.thread.selected_index = Some(1);

    keymaps::thread(&key(KeyModifiers::Plain, KeyCode::Esc), &config, &mut ctx);
    assert!(matches!(ctx.state.global.section, Section::Message));
    assert!(ctx.state.message.opened.is_none());
    assert!(ctx.state.thread.messages.is_empty());
    assert!(ctx.state.thread.selected.is_none());
}

#[test]
fn landing_commands_drive_login_and_routes() {
    let config = test_config();
    let mut ctx = Context::default();

    let r = landing::commands(&config, &"login".to_string(), &mut ctx);
    match r {
        Some(Request::Authorization(cb)) => assert_eq!(cb, "login_success"),
        _ => panic!("login must raise an authorization request"),
    }

    let r = landing::commands(&config, &"login_success".to_string(), &mut ctx);
    assert!(r.is_none());
    assert_eq!(ctx.routes, vec!["/".to_string(), "/home".to_string()]);

    landing::commands(&config, &"loading show".to_string(), &mut ctx);
    assert!(ctx.loading);
    landing::commands(&config, &"loading hide".to_string(), &mut ctx);
    assert!(!ctx.loading);

    landing::commands(&config, &"exit".to_string(), &mut ctx);
    assert_eq!(ctx.routes, vec!["/".to_string()]);
}

#[test]
fn landing_keymap_builds_and_submits_the_command_buffer() {
    let config = test_config();
    let mut ctx = Context::default();
    assert!(landing::keymaps(&config, &key(KeyModifiers::Plain, KeyCode::Char('l')), &mut ctx).is_none());
    landing::keymaps(&config, &key(KeyModifiers::Plain, KeyCode::Char('x')), &mut ctx);
    landing::keymaps(&config, &key(KeyModifiers::Plain, KeyCode::Backspace), &mut ctx);
    assert_eq!(ctx.command, "l");
    let submitted = landing::keymaps(&config, &key(KeyModifiers::Plain, KeyCode::Enter), &mut ctx);
    assert_eq!(submitted, Some("l".to_string()));
    assert_eq!(ctx.command, "");
}

#[test]
fn home_screen_routes_back_and_moves_focus() {
    let config = test_config();
    let mut ctx = Context::default();
    ctx.routes.push("/home".to_string());

    let r = home::keymaps(&config, &key(KeyModifiers::Plain, KeyCode::Char('x')), &mut ctx);
    assert_eq!(r, Some("focus channels".to_string()));

    home::commands(&config, &"focus channels".to_string(), &mut ctx);
    assert_eq!(ctx.focus_id, "channels");

    let r = home::keymaps(&config, &key(KeyModifiers::Shift, KeyCode::Char('Q')), &mut ctx);
    assert_eq!(r, Some("back".to_string()));

    home::commands(&config, &"back".to_string(), &mut ctx);
    assert_eq!(ctx.routes, vec!["/".to_string()]);
}

#[test]
fn channel_widget_commands_move_and_open() {
    let config = test_config();
    let mut ctx = Context::default();
    ctx.state.channel.channels = vec![chan("a"), chan("b"), chan("c")];

    channels::commands(&config, &"move down 2".to_string(), &mut ctx);
    assert_eq!(ctx.state.channel.selected_index, Some(0));
    channels::commands(&config, &"move down 2".to_string(), &mut ctx);
    assert_eq!(ctx.state.channel.selected_index, Some(2));
    channels::commands(&config, &"move up 1".to_string(), &mut ctx);
    assert_eq!(ctx.state.channel.selected_index, Some(1));

    let r = channels::commands(&config, &"open b".to_string(), &mut ctx);
    match r {
        Some(Request::GetConversationHistory(id)) => assert_eq!(id, "b"),
        _ => panic!("open must ask for the channel's history"),
    }
    assert_eq!(ctx.state.channel.opened.as_ref().unwrap().id, "b");

    let r = channels::commands(&config, &"open nowhere".to_string(), &mut ctx);
    assert!(r.is_none());
}

#[test]
fn channel_widget_keymap_names_the_selected_channel() {
    let config = test_config();
    let mut ctx = Context::default();
    ctx.state.channel.selected = Some(chan("pick"));
    let r = channels::keymaps(&config, &key(KeyModifiers::Plain, KeyCode::Enter), &mut ctx);
    assert_eq!(r, Some("open pick".to_string()));
    let r = channels::keymaps(&config, &key(KeyModifiers::Plain, KeyCode::Up), &mut ctx);
    assert_eq!(r, Some("move up 1".to_string()));
}

#[test]
fn partial_configuration_merges_over_defaults() {
    let base = test_config();
    let mut partial = PartialConfiguration::empty();
    assert!(partial.is_empty());
    partial.slack = Some(PartialSlack {
        client_id: Some("other".to_string()),
        client_secret: None,
    });
    let merged = base.merge_with(partial);
    assert_eq!(merged.slack.client_id, "other");
    assert_eq!(merged.slack.client_secret, "secret");
    assert_eq!(merged.keymaps.up, "up");
}

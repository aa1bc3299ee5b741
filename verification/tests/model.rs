//! The snapshot model itself: defaults, route stack methods, equality and
//! the configuration file rules.

use clack::context::{context_eq, Context};
use clack::datasources::configuration::resolve_configuration;
use clack::entities::configuration::{
    Configuration, KeyMaps, KeyMapsFocus, PartialConfiguration, PartialKeyMaps,
    PartialKeyMapsFocus, PartialSlack, PartialStatusLine, PartialStatusLineSide, Slack, StatusLine,
    StatusLineSide,
};
use clack::entities::users::{Member, MemberProfile};
use clack::enums::section::Section;
use clack::enums::user_mode::UserMode;
use clack::states::{initial, GlobalState, State};

fn base_config() -> Configuration {
    Configuration {
        with_default_config: true,
        keymaps: KeyMaps {
            up: "up".to_string(),
            down: "down".to_string(),
            left: "left".to_string(),
            right: "right".to_string(),
            exit: "ctrl+c".to_string(),
            open: "enter".to_string(),
            search: "/".to_string(),
            interact: "i".to_string(),
            send: "ctrl+s".to_string(),
            focus: KeyMapsFocus {
                up: "shift+up".to_string(),
                down: "shift+down".to_string(),
                left: "shift+left".to_string(),
                right: "shift+right".to_string(),
            },
        },
        slack: Slack { client_id: "id".to_string(), client_secret: "secret".to_string() },
        status_line: StatusLine {
            left: StatusLineSide { template: "L".to_string(), separator: ">".to_string() },
            right: StatusLineSide { template: "R".to_string(), separator: "<".to_string() },
        },
    }
}

fn complete_partial() -> PartialConfiguration {
    PartialConfiguration {
        with_default_config: Some(false),
        keymaps: Some(PartialKeyMaps {
            up: Some("k".to_string()),
            down: Some("j".to_string()),
            left: Some("h".to_string()),
            right: Some("l".to_string()),
            exit: Some("q".to_string()),
            open: Some("o".to_string()),
            search: Some("s".to_string()),
            interact: Some("a".to_string()),
            send: Some("enter".to_string()),
            focus: Some(PartialKeyMapsFocus {
                up: Some("ctrl+k".to_string()),
                down: Some("ctrl+j".to_string()),
                left: Some("ctrl+h".to_string()),
                right: Some("ctrl+l".to_string()),
            }),
        }),
        slack: Some(PartialSlack {
            client_id: Some("cid".to_string()),
            client_secret: Some("cs".to_string()),
        }),
        status_line: Some(PartialStatusLine {
            left: Some(PartialStatusLineSide {
                template: Some("lt".to_string()),
                separator: Some("|".to_string()),
            }),
            right: Some(PartialStatusLineSide {
                template: Some("rt".to_string()),
                separator: Some("|".to_string()),
            }),
        }),
    }
}

#[test]
fn default_context_starts_on_the_landing_route() {
    let ctx = Context::default();
    assert_eq!(ctx.routes, vec!["/".to_string()]);
    assert!(matches!(ctx.mode, UserMode::Normal));
    assert!(!ctx.loading);
    assert!(ctx.auth.is_none());
    assert_eq!(ctx.command, "");
    assert_eq!(ctx.focus_id, "");
    assert!(!ctx.is_exit());
    assert_eq!(ctx.current_route(), "/");
}

#[test]
fn initial_state_has_nothing_fetched_and_channel_focus() {
    let state: State = initial::initialize();
    assert!(state.global.members.is_empty());
    assert!(matches!(state.global.section, Section::Channel));
    assert!(!state.global.exit);
    assert!(state.channel.channels.is_empty());
    assert!(state.message.messages.is_empty());
    assert!(state.thread.messages.is_empty());
    assert_eq!(state.input.value, "");
}

#[test]
fn route_stack_pushes_and_pops() {
    let mut ctx = Context::default();
    ctx.route_push("/home".to_string());
    assert_eq!(ctx.current_route(), "/home");
    ctx.route_pop();
    assert_eq!(ctx.current_route(), "/");
    ctx.route_pop();
    assert!(ctx.is_exit());
    // Popping past the bottom changes nothing further.
    ctx.route_pop();
    assert!(ctx.is_exit());
}

#[test]
fn focus_is_compared_by_contents() {
    let mut ctx = Context::default();
    ctx.set_focus("channels".to_string());
    assert!(ctx.is_focus(&"channels".to_string()));
    assert!(!ctx.is_focus(&"messages".to_string()));
    ctx.clear_command();
    assert_eq!(ctx.command, "");
}

#[test]
fn snapshot_equality_sees_every_field() {
    let a = Context::default();
    assert!(context_eq(&a, &a.clone()));

    let mut b = a.clone();
    b.focus_id = "channels".to_string();
    assert!(!context_eq(&a, &b));

    let mut c = a.clone();
    c.state.global.members.push(Member {
        id: "U1".to_string(),
        name: "n".to_string(),
        deleted: false,
        color: None,
        is_bot: false,
        profile: MemberProfile { display_name: "d".to_string(), real_name: None },
    });
    assert!(!context_eq(&a, &c));
}

#[test]
fn member_lookup_returns_the_first_match() {
    let mut global = GlobalState::new();
    let m = |id: &str, name: &str| Member {
        id: id.to_string(),
        name: name.to_string(),
        deleted: false,
        color: None,
        is_bot: false,
        profile: MemberProfile { display_name: name.to_string(), real_name: None },
    };
    global.members = vec![m("U1", "first"), m("U2", "second"), m("U1", "shadowed")];
    assert_eq!(global.get_user("U1".to_string()).unwrap().profile.display_name, "first");
    assert!(global.get_user("U9".to_string()).is_none());
}

#[test]
fn complete_standalone_file_replaces_the_defaults() {
    let resolved = resolve_configuration(base_config(), complete_partial());
    assert!(!resolved.with_default_config);
    assert_eq!(resolved.keymaps.up, "k");
    assert_eq!(resolved.keymaps.focus.right, "ctrl+l");
    assert_eq!(resolved.slack.client_id, "cid");
    assert_eq!(resolved.slack.client_secret, "cs");
    assert_eq!(resolved.status_line.left.template, "lt");
    assert_eq!(resolved.status_line.right.template, "rt");
}

#[test]
fn partial_overrides_merge_with_the_defaults() {
    let mut partial = complete_partial();
    partial.with_default_config = Some(true);
    partial.status_line = None;
    let resolved = resolve_configuration(base_config(), partial);
    assert!(resolved.with_default_config);
    assert_eq!(resolved.keymaps.up, "k");
    assert_eq!(resolved.status_line.left.template, "L");
}

#[test]
fn unwrap_all_reads_a_complete_file() {
    let config = complete_partial().unwrap_all();
    assert_eq!(config.keymaps.focus.left, "ctrl+h");
    assert_eq!(config.slack.client_secret, "cs");
    assert!(!config.with_default_config);
}

//! The four control loops around one shared snapshot: change detection,
//! exit propagation, the login round trip and the open-channel fetches.

use clack::app::{
    apply_authorization, apply_history, cmd_step, input_step, opened_channel_changed, render_tick,
    worker_followup, RenderAction,
};
use clack::context::{context_eq, Context};
use clack::datasources::slack::{history_oldest, merge_history};
use clack::entities::authorization::{AuthedUser, Authorization, Team};
use clack::entities::configuration::{Configuration, KeyMaps, KeyMapsFocus, Slack, StatusLine, StatusLineSide};
use clack::entities::conversations::Channel;
use clack::entities::messages::Message;
use clack::entities::users::{Member, MemberProfile};
use clack::enums::request::Request;
use clack::route;
use clack::utils::keycode::{Event, KeyCode, KeyModifiers, KeyPress};

fn test_config() -> Configuration {
    Configuration {
        with_default_config: true,
        keymaps: KeyMaps {
            up: "up".to_string(),
            down: "down".to_string(),
            left: "left".to_string(),
            right: "right".to_string(),
            exit: "ctrl+c".to_string(),
            open: "enter".to_string(),
            search: "/".to_string(),
            interact: "i".to_string(),
            send: "ctrl+s".to_string(),
            focus: KeyMapsFocus {
                up: "shift+up".to_string(),
                down: "shift+down".to_string(),
                left: "shift+left".to_string(),
                right: "shift+right".to_string(),
            },
        },
        slack: Slack { client_id: "id".to_string(), client_secret: "secret".to_string() },
        status_line: StatusLine {
            left: StatusLineSide { template: "%mode%".to_string(), separator: ">".to_string() },
            right: StatusLineSide { template: "%user%".to_string(), separator: "<".to_string() },
        },
    }
}

fn chan(id: &str) -> Channel {
    Channel {
        id: id.to_string(),
        name: Some(format!("chan-{}", id)),
        is_im: false,
        is_mpim: Some(false),
        is_private: Some(false),
        is_member: Some(true),
        is_user_deleted: Some(false),
        created: 0,
        updated: Some(0),
        user: None,
    }
}

fn msg(ts: u64, text: &str) -> Message {
    Message {
        user: Some("U1".to_string()),
        bot_id: None,
        ts,
        text: Some(text.to_string()),
        reply_count: None,
        reactions: None,
    }
}

fn auth() -> Authorization {
    Authorization {
        ok: true,
        app_id: "APP".to_string(),
        authed_user: AuthedUser {
            id: "U1".to_string(),
            scope: "read".to_string(),
            access_token: "tok".to_string(),
            token_type: "user".to_string(),
        },
        team: Team { id: "T1".to_string(), name: "team".to_string() },
    }
}

fn member(id: &str, name: &str) -> Member {
    Member {
        id: id.to_string(),
        name: name.to_string(),
        deleted: false,
        color: Some("ff0000".to_string()),
        is_bot: false,
        profile: MemberProfile { display_name: name.to_string(), real_name: None },
    }
}

#[test]
fn equal_snapshots_skip_the_redraw() {
    // Two snapshots with the same contents: the render loop must not
    // rebuild or paint anything.
    let a = Context::default();
    let b = a.clone();
    assert!(context_eq(&a, &b));
    assert!(matches!(render_tick(&b, &Some(a)), RenderAction::Skip));
}

#[test]
fn any_field_change_triggers_a_redraw() {
    let a = Context::default();
    let mut b = a.clone();
    b.command.push('x');
    assert!(matches!(render_tick(&b, &Some(a)), RenderAction::Redraw(false)));
}

#[test]
fn loading_turning_off_forces_a_clear() {
    let mut a = Context::default();
    a.show_loading();
    let mut b = a.clone();
    b.hide_loading();
    assert!(matches!(render_tick(&b, &Some(a)), RenderAction::Redraw(true)));
}

#[test]
fn first_frame_always_draws() {
    let a = Context::default();
    assert!(matches!(render_tick(&a, &None), RenderAction::Redraw(false)));
}

#[test]
fn popping_the_last_route_stops_every_loop() {
    // The empty route stack is the one exit signal; each loop notices it
    // in its next step.
    let last_drawn = Context::default();
    let mut ctx = Context::default();
    ctx.route_pop();
    assert!(ctx.is_exit());
    assert!(matches!(render_tick(&ctx, &Some(last_drawn)), RenderAction::Exit(false)));
}

#[test]
fn login_round_trip_pushes_the_home_route() {
    // "login" raises an authorization request and loading turns on; the
    // worker resolves it, loading turns off, and the follow-up
    // "login_success" pushes the home route.
    let config = test_config();
    let mut ctx = Context::default();

    let request = cmd_step(&config, &"login".to_string(), &mut ctx);
    let request = request.expect("login must raise a request");
    assert!(matches!(request, Request::Authorization(_)));
    // Emitting a request marks the snapshot loading.
    assert!(ctx.loading);

    apply_authorization(&mut ctx, auth(), vec![chan("a")], vec![member("U1", "ada")]);
    assert!(ctx.auth.is_some());
    assert_eq!(ctx.state.channel.channels.len(), 1);

    ctx.hide_loading();
    assert!(!ctx.loading);

    let follow_up = worker_followup(&request).expect("authorization carries a follow-up");
    assert_eq!(follow_up, "login_success");

    cmd_step(&config, &follow_up, &mut ctx);
    assert_eq!(ctx.routes, vec!["/".to_string(), "/home".to_string()]);
}

#[test]
fn composed_messages_leave_only_when_marked_and_addressed() {
    let mut ctx = Context::default();
    ctx.state.input.value = "hello".to_string();
    ctx.state.input.send = false;
    assert!(clack::app::outgoing_message(&mut ctx).is_none());

    ctx.state.input.send = true;
    // No opened conversation: nothing leaves.
    assert!(clack::app::outgoing_message(&mut ctx).is_none());

    ctx.state.channel.opened = Some(chan("dest"));
    let (channel, text, thread_ts) = clack::app::outgoing_message(&mut ctx).unwrap();
    assert_eq!(channel, "dest");
    assert_eq!(text, "hello");
    assert_eq!(thread_ts, None);
    assert_eq!(ctx.state.input.value, "");
    assert!(!ctx.state.input.send);

    // With a thread open, the message addresses the thread.
    ctx.state.input.value = "reply".to_string();
    ctx.state.input.send = true;
    ctx.state.message.opened = Some(msg(77, "parent"));
    let (_, _, thread_ts) = clack::app::outgoing_message(&mut ctx).unwrap();
    assert_eq!(thread_ts, Some(77));
}

#[test]
fn input_step_dispatches_by_the_current_route() {
    let config = test_config();
    let mut ctx = Context::default();
    // On the landing screen typing feeds the command buffer.
    let r = input_step(
        &config,
        &Event::Key(KeyPress { modifiers: KeyModifiers::Plain, code: KeyCode::Char('h') }),
        &mut ctx,
    );
    assert!(r.is_none());
    assert_eq!(ctx.command, "h");

    // On the home screen the same key focuses the channel list instead.
    ctx.route_push("/home".to_string());
    let r = input_step(
        &config,
        &Event::Key(KeyPress { modifiers: KeyModifiers::Plain, code: KeyCode::Char('h') }),
        &mut ctx,
    );
    assert_eq!(r, Some("focus channels".to_string()));
}

#[test]
fn registry_knows_exactly_the_two_routes() {
    let all = route::get_all();
    assert_eq!(all.len(), 2);
    assert_eq!(all[0].0, "/");
    assert_eq!(all[1].0, "/home");
    assert!(matches!(route::lookup("/"), Some(route::ScreenId::Landing)));
    assert!(matches!(route::lookup("/home"), Some(route::ScreenId::Home)));
    assert!(matches!(route::lookup("/nowhere"), None));
}

#[test]
fn opening_a_new_channel_fetches_exactly_once() {
    // Opening channel a then channel b raises one history fetch each; a
    // re-selection of the already-cached channel a fetches none of its
    // cached content again.
    let config = test_config();
    let mut ctx = Context::default();
    ctx.route_push("/home".to_string());
    ctx.set_focus("channels".to_string());
    ctx.state.channel.channels = vec![chan("a"), chan("b")];

    let mut fetches_for_b = 0;

    let r = cmd_step(&config, &"open a".to_string(), &mut ctx);
    match r {
        Some(Request::GetConversationHistory(id)) => assert_eq!(id, "a"),
        _ => panic!("opening a must fetch its history"),
    }
    // The worker answers with a's history; it lands in the message state.
    apply_history(&mut ctx, merge_history(Vec::new(), vec![msg(10, "one"), msg(20, "two")]));

    let before_b = ctx.clone();
    let r = cmd_step(&config, &"open b".to_string(), &mut ctx);
    match r {
        Some(Request::GetConversationHistory(id)) => {
            assert_eq!(id, "b");
            fetches_for_b += 1;
        },
        _ => panic!("opening b must fetch its history"),
    }
    assert_eq!(fetches_for_b, 1);
    // The frame-level check agrees: b's opening changed the opened channel.
    assert_eq!(opened_channel_changed(&before_b, &ctx), Some("b".to_string()));

    // Re-opening a: the incremental fetch continues from its newest cached
    // message, so none of the cached content is fetched again.
    let cached = vec![msg(10, "one"), msg(20, "two")];
    assert_eq!(history_oldest(&cached), 20);
    let merged = merge_history(cached, Vec::new());
    assert_eq!(merged.len(), 2);

    // And an unchanged opened channel asks for nothing at the frame level.
    let same = ctx.clone();
    assert_eq!(opened_channel_changed(&ctx, &same), None);
}

use winctx::bridge::Bridge;
use winctx::bridge::NativeMessage;
use winctx::error::Error;
use winctx::event::ClipboardEvent;
use winctx::event::Event;
use winctx::menu::MenuItem;
use winctx::notification::Notification;
use winctx::token::Token;
use winctx::token::TokenKind;
use winctx::ContextBuilder;

fn build_with_quit_menu() -> (Bridge, Token) {
    let mut builder = ContextBuilder::new(String::from("Example Application"));
    let quit = builder.push_menu_item(MenuItem::entry(String::from("Quit"), true));
    builder.set_icon(vec![0; 4], 1, 1);
    let bridge = builder.build(true).expect("registration succeeded");
    (bridge, quit)
}

fn next_event(bridge: &mut Bridge) -> Event {
    match bridge.tick() {
        Ok(Some(e)) => e,
        Ok(None) => panic!("expected a buffered event"),
        Err(e) => panic!("expected an event, channel said: {:?}", e),
    }
}

#[test]
fn quit_scenario_clicks_then_shuts_down() {
    let (mut bridge, quit) = build_with_quit_menu();
    bridge.pump_message(NativeMessage::MenuCommand { id: 0 });
    assert_eq!(next_event(&mut bridge), Event::MenuItemClicked(quit));
    bridge.shutdown();
    bridge.drain_commands(4);
    assert!(bridge.has_shut_down());
    assert_eq!(next_event(&mut bridge), Event::Shutdown);
    assert_eq!(bridge.tick(), Err(Error::Closed));
    assert_eq!(bridge.tick(), Err(Error::Closed));
}

#[test]
fn tick_on_empty_open_channel_does_not_block() {
    let (mut bridge, _) = build_with_quit_menu();
    assert_eq!(bridge.tick(), Ok(None));
    assert_eq!(bridge.tick(), Ok(None));
}

#[test]
fn two_notifications_get_distinct_tokens_and_one_disposition_each() {
    let (mut bridge, _) = build_with_quit_menu();
    let t1 = bridge.notification(Notification::new(String::from("First")));
    let t2 = bridge.notification(Notification::new(String::from("Second")));
    assert_ne!(t1, t2);
    assert_eq!(t1, Token { kind: TokenKind::Notification, index: 0 });
    assert_eq!(t2, Token { kind: TokenKind::Notification, index: 1 });
    bridge.drain_commands(8);
    bridge.pump_message(NativeMessage::NotificationShown { id: 0 });
    bridge.pump_message(NativeMessage::NotificationResult { id: 0, clicked: false });
    bridge.pump_message(NativeMessage::NotificationResult { id: 1, clicked: true });
    assert_eq!(next_event(&mut bridge), Event::NotificationDismissed(t1));
    assert_eq!(next_event(&mut bridge), Event::NotificationClicked(t2));
    // duplicate delivery by the shell must not double-emit
    bridge.pump_message(NativeMessage::NotificationResult { id: 0, clicked: true });
    bridge.pump_message(NativeMessage::NotificationResult { id: 1, clicked: true });
    assert_eq!(bridge.tick(), Ok(None));
}

#[test]
fn stale_menu_click_is_dropped() {
    let (mut bridge, _) = build_with_quit_menu();
    // an identifier past the menu, and one that was never a clickable entry
    bridge.pump_message(NativeMessage::MenuCommand { id: 9 });
    assert_eq!(bridge.tick(), Ok(None));
    let mut builder = ContextBuilder::new(String::from("Separators only"));
    builder.push_menu_item(MenuItem::separator());
    let mut sep_bridge = builder.build(true).expect("registration succeeded");
    sep_bridge.pump_message(NativeMessage::MenuCommand { id: 0 });
    assert_eq!(sep_bridge.tick(), Ok(None));
}

#[test]
fn stale_notification_result_is_dropped() {
    let (mut bridge, _) = build_with_quit_menu();
    bridge.pump_message(NativeMessage::NotificationResult { id: 3, clicked: true });
    bridge.pump_message(NativeMessage::NotificationShown { id: 3 });
    assert_eq!(bridge.tick(), Ok(None));
}

#[test]
fn shutdown_many_times_emits_one_event() {
    let (mut bridge, _) = build_with_quit_menu();
    bridge.shutdown();
    bridge.shutdown();
    bridge.shutdown();
    bridge.drain_commands(16);
    bridge.pump_message(NativeMessage::Destroy);
    assert_eq!(next_event(&mut bridge), Event::Shutdown);
    assert_eq!(bridge.tick(), Err(Error::Closed));
}

#[test]
fn destroy_then_shutdown_command_is_a_no_op() {
    let (mut bridge, _) = build_with_quit_menu();
    bridge.pump_message(NativeMessage::Destroy);
    bridge.shutdown();
    bridge.drain_commands(16);
    assert_eq!(next_event(&mut bridge), Event::Shutdown);
    assert_eq!(bridge.tick(), Err(Error::Closed));
}

#[test]
fn events_are_delivered_in_pump_order() {
    let (mut bridge, quit) = build_with_quit_menu();
    bridge.pump_message(NativeMessage::ClipboardUpdate {
        event: ClipboardEvent::Text(String::from("copied")),
    });
    bridge.pump_message(NativeMessage::MenuCommand { id: 0 });
    bridge.pump_message(NativeMessage::Unknown);
    let t = bridge.notification(Notification::new(String::from("Body")));
    bridge.drain_commands(4);
    bridge.pump_message(NativeMessage::NotificationResult { id: 0, clicked: false });
    assert_eq!(
        next_event(&mut bridge),
        Event::Clipboard(ClipboardEvent::Text(String::from("copied")))
    );
    assert_eq!(next_event(&mut bridge), Event::MenuItemClicked(quit));
    assert_eq!(next_event(&mut bridge), Event::NotificationDismissed(t));
    assert_eq!(bridge.tick(), Ok(None));
}

#[test]
fn copy_data_requires_the_configured_channel() {
    let mut builder = ContextBuilder::new(String::from("Example Application"));
    builder.set_copy_data_channel(7);
    let mut bridge = builder.build(true).expect("registration succeeded");
    bridge.pump_message(NativeMessage::CopyData { channel: 7, data: vec![1, 2, 3] });
    bridge.pump_message(NativeMessage::CopyData { channel: 8, data: vec![9] });
    assert_eq!(next_event(&mut bridge), Event::CopyData(vec![1, 2, 3]));
    assert_eq!(bridge.tick(), Ok(None));
    // a bridge with no channel configured drops every payload
    let (mut plain, _) = build_with_quit_menu();
    plain.pump_message(NativeMessage::CopyData { channel: 7, data: vec![1] });
    assert_eq!(plain.tick(), Ok(None));
}

#[test]
fn notification_after_close_returns_sentinel() {
    let (mut bridge, _) = build_with_quit_menu();
    bridge.pump_message(NativeMessage::Destroy);
    let t = bridge.notification(Notification::new(String::from("late")));
    assert_eq!(t.kind, TokenKind::Notification);
    assert_eq!(t.index, u32::MAX);
    bridge.drain_commands(8);
    assert_eq!(next_event(&mut bridge), Event::Shutdown);
    assert_eq!(bridge.tick(), Err(Error::Closed));
}

#[test]
fn pump_is_inert_after_shutdown() {
    let (mut bridge, _) = build_with_quit_menu();
    bridge.pump_message(NativeMessage::Destroy);
    bridge.pump_message(NativeMessage::MenuCommand { id: 0 });
    bridge.pump_message(NativeMessage::ClipboardUpdate {
        event: ClipboardEvent::Text(String::from("late")),
    });
    assert_eq!(next_event(&mut bridge), Event::Shutdown);
    assert_eq!(bridge.tick(), Err(Error::Closed));
}

#[test]
fn menu_mutation_commands_apply_on_drain() {
    let (mut bridge, quit) = build_with_quit_menu();
    bridge.set_menu_item_enabled(quit, false);
    bridge.set_menu_item_checked(quit, true);
    match &bridge.menu_items()[0] {
        MenuItem::Entry { enabled, checked, .. } => {
            // not yet drained: the model is untouched
            assert!(*enabled);
            assert!(!*checked);
        }
        MenuItem::Separator => panic!("expected an entry"),
    }
    bridge.drain_commands(8);
    match &bridge.menu_items()[0] {
        MenuItem::Entry { label, enabled, checked } => {
            assert_eq!(label, "Quit");
            assert!(!*enabled);
            assert!(*checked);
        }
        MenuItem::Separator => panic!("expected an entry"),
    }
    // a stale token leaves the model unchanged
    let stale = Token { kind: TokenKind::MenuItem, index: 5 };
    bridge.set_menu_item_enabled(stale, true);
    bridge.drain_commands(8);
    assert_eq!(bridge.tick(), Ok(None));
}

#[test]
fn active_icon_swaps_only_to_registered_icons() {
    let mut builder = ContextBuilder::new(String::from("Example Application"));
    let first = builder.set_icon(vec![0; 4], 1, 1);
    let second = builder.set_icon(vec![255; 4], 1, 1);
    let mut bridge = builder.build(true).expect("registration succeeded");
    assert_eq!(bridge.active_icon(), Some(second));
    bridge.set_active_icon(first);
    bridge.drain_commands(4);
    assert_eq!(bridge.active_icon(), Some(first));
    let stale = Token { kind: TokenKind::Icon, index: 9 };
    bridge.set_active_icon(stale);
    bridge.drain_commands(4);
    assert_eq!(bridge.active_icon(), Some(first));
}

#[test]
fn drain_respects_the_batch_bound() {
    let (mut bridge, quit) = build_with_quit_menu();
    bridge.set_menu_item_enabled(quit, false);
    bridge.shutdown();
    // a batch of one applies only the oldest command
    bridge.drain_commands(1);
    assert!(!bridge.has_shut_down());
    bridge.drain_commands(1);
    assert!(bridge.has_shut_down());
    assert_eq!(next_event(&mut bridge), Event::Shutdown);
    assert_eq!(bridge.tick(), Err(Error::Closed));
}

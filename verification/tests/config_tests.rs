use winctx::error::Error;
use winctx::icons::Icons;
use winctx::menu::MenuItem;
use winctx::menu::MenuModel;
use winctx::notification::Notification;
use winctx::token::Token;
use winctx::token::TokenKind;
use winctx::ContextBuilder;

#[test]
fn icons_tokens_are_dense() {
    let mut icons = Icons::new();
    let a = icons.push_buffer(vec![1, 2, 3], 16, 16);
    let b = icons.push_buffer(vec![4, 5, 6], 22, 22);
    assert_eq!(a, Token { kind: TokenKind::Icon, index: 0 });
    assert_eq!(b, Token { kind: TokenKind::Icon, index: 1 });
    assert_ne!(a, b);
    assert_eq!(icons.icons.len(), 2);
    assert_eq!(icons.icons[1].width, 22);
    assert_eq!(icons.icons[1].data, vec![4, 5, 6]);
}

#[test]
fn menu_entry_starts_unchecked() {
    let item = MenuItem::entry(String::from("Open"), true);
    match item {
        MenuItem::Entry { label, enabled, checked } => {
            assert_eq!(label, "Open");
            assert!(enabled);
            assert!(!checked);
        }
        MenuItem::Separator => panic!("expected an entry"),
    }
}

#[test]
fn menu_resolve_skips_separators_and_stale_ids() {
    let mut menu = MenuModel::new();
    let entry = menu.push(MenuItem::entry(String::from("Hello"), true));
    let sep = menu.push(MenuItem::separator());
    assert_eq!(entry, Token { kind: TokenKind::MenuItem, index: 0 });
    assert_eq!(sep, Token { kind: TokenKind::MenuItem, index: 1 });
    assert_eq!(menu.resolve(0), Some(entry));
    assert_eq!(menu.resolve(1), None);
    assert_eq!(menu.resolve(7), None);
}

#[test]
fn menu_set_enabled_mutates_entries_only() {
    let mut menu = MenuModel::new();
    let entry = menu.push(MenuItem::entry(String::from("Hello"), true));
    let sep = menu.push(MenuItem::separator());
    assert!(menu.set_enabled(entry, false));
    match &menu.items[0] {
        MenuItem::Entry { label, enabled, checked } => {
            assert_eq!(label, "Hello");
            assert!(!enabled);
            assert!(!checked);
        }
        MenuItem::Separator => panic!("expected an entry"),
    }
    assert!(!menu.set_enabled(sep, true));
    let stale = Token { kind: TokenKind::MenuItem, index: 9 };
    assert!(!menu.set_enabled(stale, true));
    let wrong_kind = Token { kind: TokenKind::Icon, index: 0 };
    assert!(!menu.set_checked(wrong_kind, true));
}

#[test]
fn builder_tokens_are_dense_per_kind() {
    let mut builder = ContextBuilder::new(String::from("Example Application"));
    let first = builder.push_menu_item(MenuItem::entry(String::from("Hello"), true));
    let sep = builder.push_menu_item(MenuItem::separator());
    let quit = builder.push_menu_item(MenuItem::entry(String::from("Quit"), true));
    let icon = builder.set_icon(vec![0, 1, 2, 3], 22, 22);
    assert_eq!(first, Token { kind: TokenKind::MenuItem, index: 0 });
    assert_eq!(sep, Token { kind: TokenKind::MenuItem, index: 1 });
    assert_eq!(quit, Token { kind: TokenKind::MenuItem, index: 2 });
    assert_eq!(icon, Token { kind: TokenKind::Icon, index: 0 });
    assert_eq!(builder.initial_icon, Some(icon));
}

#[test]
fn build_without_registration_is_construction_error() {
    let builder = ContextBuilder::new(String::from("Example Application"));
    match builder.build(false) {
        Ok(_) => panic!("construction must fail when shell registration fails"),
        Err(e) => assert_eq!(e, Error::Construction),
    }
}

#[test]
fn error_messages_name_the_failure() {
    assert_eq!(Error::Construction.message(), "shell registration failed");
    assert_eq!(Error::Platform.message(), "native call failed");
    assert_eq!(Error::Closed.message(), "channel closed");
}

#[test]
fn notification_with_title_keeps_body() {
    let n = Notification::new(String::from("And this is a body"))
        .with_title(String::from("This is a title"));
    assert_eq!(n.title, Some(String::from("This is a title")));
    assert_eq!(n.body, "And this is a body");
}

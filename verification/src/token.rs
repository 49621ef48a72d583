use vstd::prelude::*;

verus! {

/// The kind of shell-visible object a [`Token`] identifies.
#[derive(Clone, Copy, PartialEq, Eq, Structural, Debug)]
pub enum TokenKind {
    /// An entry of the context menu.
    MenuItem,
    /// An outstanding notification.
    Notification,
    /// A registered icon buffer.
    Icon,
}

/// An opaque, stable identity correlating a shell-visible object (menu item,
/// icon, notification) with application state.
///
/// Equality is by `(kind, index)`.  Indices are dense per kind and assigned
/// monotonically at creation, so the owning collections can use direct
/// indexed lookup.  A token is never reassigned while the owning entry is
/// live.
#[derive(Clone, Copy, PartialEq, Eq, Structural, Debug)]
pub struct Token {
    /// Which collection the token indexes into.
    pub kind: TokenKind,
    /// Dense index into the owning collection.
    pub index: u32,
}

impl Token {
    /// Construct a token from its kind and index.
    pub fn new(kind: TokenKind, index: u32) -> (t: Token)
        ensures
            t == (Token { kind, index }),
    {
        Token { kind, index }
    }

    /// The sentinel returned by command submission after the channel has
    /// closed.  No real notification token ever carries this index.
    pub fn sentinel() -> (t: Token)
        ensures
            t == Token::sentinel_spec(),
    {
        Token { kind: TokenKind::Notification, index: u32::MAX }
    }

    /// The sentinel value: the one notification index that is never issued.
    pub open spec fn sentinel_spec() -> Token {
        Token { kind: TokenKind::Notification, index: u32::MAX }
    }
}

} // verus!

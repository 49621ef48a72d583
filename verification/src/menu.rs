use vstd::prelude::*;

use crate::token::Token;
use crate::token::TokenKind;

verus! {

/// One entry of the context menu.
#[derive(Clone, PartialEq, Eq, Debug)]
pub enum MenuItem {
    /// A clickable entry with a label, an enabled flag and a runtime
    /// checkable flag.
    Entry {
        /// The label shown in the menu.
        label: String,
        /// Whether the entry can currently be selected.
        enabled: bool,
        /// Whether the entry shows a check mark.
        checked: bool,
    },
    /// A separator line; not clickable.
    Separator,
}

impl MenuItem {
    /// A clickable entry with the given label; the check mark starts off.
    pub fn entry(label: String, enabled: bool) -> (item: MenuItem)
        ensures
            item == (MenuItem::Entry { label, enabled, checked: false }),
    {
        MenuItem::Entry { label, enabled, checked: false }
    }

    /// A separator.
    pub fn separator() -> (item: MenuItem)
        ensures
            item == MenuItem::Separator,
    {
        MenuItem::Separator
    }
}

/// `item` with its enabled flag replaced; a separator is left unchanged.
pub open spec fn set_entry_enabled(item: MenuItem, enabled: bool) -> MenuItem {
    match item {
        MenuItem::Entry { label, enabled: _, checked } => MenuItem::Entry {
            label,
            enabled,
            checked,
        },
        MenuItem::Separator => MenuItem::Separator,
    }
}

/// `item` with its checked flag replaced; a separator is left unchanged.
pub open spec fn set_entry_checked(item: MenuItem, checked: bool) -> MenuItem {
    match item {
        MenuItem::Entry { label, enabled, checked: _ } => MenuItem::Entry {
            label,
            enabled,
            checked,
        },
        MenuItem::Separator => MenuItem::Separator,
    }
}

/// An ordered collection of menu entries, built at configuration time.
///
/// Entries are identified by dense menu tokens: the token index of an item
/// is its position.  Entries are never individually destroyed; the whole
/// model is torn down with the session.  At runtime only the enabled and
/// checked flags of entries change.
#[derive(Clone, PartialEq, Eq, Debug)]
pub struct MenuModel {
    /// The entries, in display order, indexed by menu token index.
    pub items: Vec<MenuItem>,
}

impl MenuModel {
    /// Whether `t` names a clickable entry of the model: a menu token whose
    /// index holds an `Entry`, not a separator.
    pub open spec fn resolves(&self, t: Token) -> bool {
        &&& t.kind == TokenKind::MenuItem
        &&& t.index < self.items@.len()
        &&& self.items@[t.index as int] is Entry
    }

    /// An empty menu.
    pub fn new() -> (m: MenuModel)
        ensures
            m.items@ =~= Seq::<MenuItem>::empty(),
    {
        MenuModel { items: Vec::new() }
    }

    /// Append an item and return its token.
    ///
    /// Menu tokens are dense and monotone: the new token's index is the
    /// item's position, one past every index issued before.
    pub fn push(&mut self, item: MenuItem) -> (t: Token)
        requires
            old(self).items@.len() < u32::MAX,
        ensures
            t == (Token { kind: TokenKind::MenuItem, index: old(self).items@.len() as u32 }),
            final(self).items@ == old(self).items@.push(item),
    {
        let index = self.items.len() as u32;
        self.items.push(item);
        Token::new(TokenKind::MenuItem, index)
    }

    /// Resolve a native menu identifier to the token of a clickable entry.
    ///
    /// Returns `None` for an out-of-range identifier or one that names a
    /// separator: such callbacks are stale or malformed and are dropped by
    /// the pump.
    pub fn resolve(&self, id: u32) -> (t: Option<Token>)
        ensures
            ({
                let tok = Token { kind: TokenKind::MenuItem, index: id };
                if self.resolves(tok) {
                    t == Some(tok)
                } else {
                    t is None
                }
            }),
    {
        let idx = id as usize;
        if idx < self.items.len() {
            match &self.items[idx] {
                MenuItem::Entry { .. } => Some(Token::new(TokenKind::MenuItem, id)),
                MenuItem::Separator => None,
            }
        } else {
            None
        }
    }

    /// Set the enabled flag of the entry `t` names.
    ///
    /// Returns whether the token resolved; a stale or non-entry token
    /// leaves the model unchanged.
    pub fn set_enabled(&mut self, t: Token, enabled: bool) -> (ok: bool)
        ensures
            ok == old(self).resolves(t),
            ok ==> final(self).items@ == old(self).items@.update(
                t.index as int,
                set_entry_enabled(old(self).items@[t.index as int], enabled),
            ),
            !ok ==> *final(self) == *old(self),
    {
        let idx = t.index as usize;
        if t.kind == TokenKind::MenuItem && idx < self.items.len() {
            match &self.items[idx] {
                MenuItem::Entry { label, checked, .. } => {
                    let updated = MenuItem::Entry {
                        label: label.clone(),
                        enabled,
                        checked: *checked,
                    };
                    self.items[idx] = updated;
                    true
                },
                MenuItem::Separator => false,
            }
        } else {
            false
        }
    }

    /// Set the checked flag of the entry `t` names.
    ///
    /// Returns whether the token resolved; a stale or non-entry token
    /// leaves the model unchanged.
    pub fn set_checked(&mut self, t: Token, checked: bool) -> (ok: bool)
        ensures
            ok == old(self).resolves(t),
            ok ==> final(self).items@ == old(self).items@.update(
                t.index as int,
                set_entry_checked(old(self).items@[t.index as int], checked),
            ),
            !ok ==> *final(self) == *old(self),
    {
        let idx = t.index as usize;
        if t.kind == TokenKind::MenuItem && idx < self.items.len() {
            match &self.items[idx] {
                MenuItem::Entry { label, enabled, .. } => {
                    let updated = MenuItem::Entry {
                        label: label.clone(),
                        enabled: *enabled,
                        checked,
                    };
                    self.items[idx] = updated;
                    true
                },
                MenuItem::Separator => false,
            }
        } else {
            false
        }
    }
}

} // verus!

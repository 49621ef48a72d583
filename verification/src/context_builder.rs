use vstd::prelude::*;

use crate::bridge::initial_view;
use crate::bridge::Bridge;
use crate::error::Error;
use crate::icons::IconBuffer;
use crate::icons::Icons;
use crate::menu::MenuItem;
use crate::menu::MenuModel;
use crate::token::Token;
use crate::token::TokenKind;

verus! {

/// The configuration surface: assembles the initial menu, icon set, window
/// title and optional copy-data channel, and produces the bridge.
///
/// Menu and icon tokens are issued here, dense and in push order, and stay
/// valid for the whole session.
pub struct ContextBuilder {
    /// The window title the platform layer registers.
    pub name: String,
    /// The menu being assembled.
    pub menu: MenuModel,
    /// The icon buffers being assembled.
    pub icons: Icons,
    /// The icon to show in the tray at startup, if any was set.
    pub initial_icon: Option<Token>,
    /// The private message number accepted for cross-process payloads.
    pub copy_data_channel: Option<u32>,
}

impl ContextBuilder {
    /// Start a configuration with the given window title.
    pub fn new(name: String) -> (b: ContextBuilder)
        ensures
            b.name == name,
            b.menu.items@ =~= Seq::<MenuItem>::empty(),
            b.icons.icons@ =~= Seq::<IconBuffer>::empty(),
            b.initial_icon is None,
            b.copy_data_channel is None,
    {
        ContextBuilder {
            name,
            menu: MenuModel::new(),
            icons: Icons::new(),
            initial_icon: None,
            copy_data_channel: None,
        }
    }

    /// Append a menu item and return its token.
    pub fn push_menu_item(&mut self, item: MenuItem) -> (t: Token)
        requires
            old(self).menu.items@.len() < u32::MAX,
        ensures
            t == (Token { kind: TokenKind::MenuItem, index: old(self).menu.items@.len() as u32 }),
            final(self).menu.items@ == old(self).menu.items@.push(item),
            final(self).name == old(self).name,
            final(self).icons == old(self).icons,
            final(self).initial_icon == old(self).initial_icon,
            final(self).copy_data_channel == old(self).copy_data_channel,
    {
        self.menu.push(item)
    }

    /// Register an icon buffer and make it the initial tray icon.
    pub fn set_icon(&mut self, buffer: Vec<u8>, width: u32, height: u32) -> (t: Token)
        requires
            old(self).icons.icons@.len() < u32::MAX,
        ensures
            t == (Token { kind: TokenKind::Icon, index: old(self).icons.icons@.len() as u32 }),
            final(self).icons.icons@ == old(self).icons.icons@.push(
                IconBuffer { data: buffer, width, height },
            ),
            final(self).initial_icon == Some(t),
            final(self).name == old(self).name,
            final(self).menu == old(self).menu,
            final(self).copy_data_channel == old(self).copy_data_channel,
    {
        let t = self.icons.push_buffer(buffer, width, height);
        self.initial_icon = Some(t);
        t
    }

    /// Accept cross-process payloads on the given private message number.
    pub fn set_copy_data_channel(&mut self, channel: u32)
        ensures
            final(self).copy_data_channel == Some(channel),
            final(self).name == old(self).name,
            final(self).menu == old(self).menu,
            final(self).icons == old(self).icons,
            final(self).initial_icon == old(self).initial_icon,
    {
        self.copy_data_channel = Some(channel);
    }

    /// Finish configuration and produce the bridge.
    ///
    /// `registration_ok` is the outcome of the platform layer's shell
    /// registration (window, tray slot, listeners).  When registration
    /// failed, construction aborts with the construction error and the
    /// platform layer rolls back whatever partial resources it acquired;
    /// no bridge state survives.
    pub fn build(self, registration_ok: bool) -> (r: Result<Bridge, Error>)
        ensures
            !registration_ok ==> r == Err::<Bridge, Error>(Error::Construction),
            registration_ok ==> (r matches Ok(b) && b@ == initial_view(
                self.menu.items@,
                self.icons.icons@,
                self.initial_icon,
                self.copy_data_channel,
            ) && b@.wf()),
    {
        if registration_ok {
            Ok(Bridge::new(self.menu, self.icons, self.initial_icon, self.copy_data_channel))
        } else {
            Err(Error::Construction)
        }
    }
}

} // verus!

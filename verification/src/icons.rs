use vstd::prelude::*;

use crate::token::Token;
use crate::token::TokenKind;

verus! {

/// A raw pixel buffer with explicit dimensions: the source from which a
/// native icon resource is loaded at registration time.  The format is
/// device-agnostic; no file parsing happens here.
#[derive(Clone, PartialEq, Eq, Debug)]
pub struct IconBuffer {
    /// Raw pixel bytes.
    pub data: Vec<u8>,
    /// Width in pixels.
    pub width: u32,
    /// Height in pixels.
    pub height: u32,
}

impl IconBuffer {
    /// Wrap a pixel buffer and its dimensions.
    pub fn from_buffer(data: Vec<u8>, width: u32, height: u32) -> (b: IconBuffer)
        ensures
            b.data == data,
            b.width == width,
            b.height == height,
    {
        IconBuffer { data, width, height }
    }
}

/// A collection of notification icons.
///
/// This defines the various icons that an application using the bridge can
/// use.  Each pushed buffer is identified by a dense icon token.
#[derive(Clone, PartialEq, Eq, Debug)]
pub struct Icons {
    /// The registered buffers, indexed by icon token index.
    pub icons: Vec<IconBuffer>,
}

impl Icons {
    /// Construct a new empty collection of notification icons.
    pub fn new() -> (r: Icons)
        ensures
            r.icons@ =~= Seq::<IconBuffer>::empty(),
    {
        Icons { icons: Vec::new() }
    }

    /// Push an icon from a buffer and return a token for it.
    ///
    /// Icon tokens are dense: the token's index is the position of the
    /// buffer in the collection.
    pub fn push_buffer(&mut self, buffer: Vec<u8>, width: u32, height: u32) -> (t: Token)
        requires
            old(self).icons@.len() < u32::MAX,
        ensures
            t == (Token { kind: TokenKind::Icon, index: old(self).icons@.len() as u32 }),
            final(self).icons@ == old(self).icons@.push(
                IconBuffer { data: buffer, width, height },
            ),
    {
        let index = self.icons.len() as u32;
        self.icons.push(IconBuffer::from_buffer(buffer, width, height));
        Token::new(TokenKind::Icon, index)
    }
}

} // verus!

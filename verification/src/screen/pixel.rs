use super::{Component, Pos};
use vstd::prelude::*;

verus! {

/// One coloured cell: a position and a packed `0xAARRGGBB` colour.
#[derive(Debug, Clone, Copy, PartialEq, Eq, Structural)]
pub struct Pixel {
    pub pos: Pos,
    pub color: u32,
}

impl Default for Pixel {
    /// A fully transparent black pixel at the origin.
    fn default() -> (out: Pixel)
        ensures
            out == (Pixel { pos: Pos { x: 0, y: 0 }, color: 0 }),
    {
        Pixel { pos: Pos { x: 0, y: 0 }, color: 0 }
    }
}

impl Component for Pixel {
    /// A pixel shows itself.
    open spec fn pixels(&self) -> Seq<Pixel> {
        seq![*self]
    }

    /// A pixel never changes.
    open spec fn steps_to(&self, next: &Pixel) -> bool {
        *next == *self
    }

    fn render(&self) -> (out: Vec<Pixel>) {
        vec![*self]
    }

    fn tick(&mut self) {
    }
}

/// One of the four 8-bit slices of a packed 32-bit colour.
#[derive(Debug, Clone, Copy, PartialEq, Eq, Structural)]
pub enum Channel {
    Alpha,
    Red,
    Green,
    Blue,
}

impl Channel {
    /// The mask with every bit set but the eight of this channel.
    pub open spec fn spec_negative_mask(self) -> u32 {
        match self {
            Channel::Alpha => 0x00_ff_ff_ffu32,
            Channel::Red => 0xff_00_ff_ffu32,
            Channel::Green => 0xff_ff_00_ffu32,
            Channel::Blue => 0xff_ff_ff_00u32,
        }
    }

    /// The mask with exactly the eight bits of this channel set.
    pub open spec fn spec_positive_mask(self) -> u32 {
        match self {
            Channel::Alpha => 0xff_00_00_00u32,
            Channel::Red => 0x00_ff_00_00u32,
            Channel::Green => 0x00_00_ff_00u32,
            Channel::Blue => 0x00_00_00_ffu32,
        }
    }

    /// The position of this channel's lowest bit in the colour word.
    pub open spec fn spec_shift(self) -> u32 {
        match self {
            Channel::Alpha => 24u32,
            Channel::Red => 16u32,
            Channel::Green => 8u32,
            Channel::Blue => 0u32,
        }
    }

    #[verifier::when_used_as_spec(spec_negative_mask)]
    pub fn negative_mask(self) -> (out: u32)
        ensures
            out == self.spec_negative_mask(),
    {
        match self {
            Channel::Alpha => 0x00_ff_ff_ff,
            Channel::Red => 0xff_00_ff_ff,
            Channel::Green => 0xff_ff_00_ff,
            Channel::Blue => 0xff_ff_ff_00,
        }
    }

    #[verifier::when_used_as_spec(spec_positive_mask)]
    pub fn positive_mask(self) -> (out: u32)
        ensures
            out == self.spec_positive_mask(),
    {
        match self {
            Channel::Alpha => 0xff_00_00_00,
            Channel::Red => 0x00_ff_00_00,
            Channel::Green => 0x00_00_ff_00,
            Channel::Blue => 0x00_00_00_ff,
        }
    }

    #[verifier::when_used_as_spec(spec_shift)]
    pub fn shift(self) -> (out: u32)
        ensures
            out == self.spec_shift(),
    {
        match self {
            Channel::Alpha => 24,
            Channel::Red => 16,
            Channel::Green => 8,
            Channel::Blue => 0,
        }
    }

    /// The two masks of a channel split the colour word between them: no bit
    /// is in both, every bit is in one, and the positive mask is eight set
    /// bits moved up by the channel's shift.
    pub proof fn lemma_masks_partition(self)
        ensures
            self.positive_mask() | self.negative_mask() == 0xffff_ffffu32,
            self.positive_mask() & self.negative_mask() == 0u32,
            self.positive_mask() == 0xffu32 << self.shift(),
            self.negative_mask() == !self.positive_mask(),
            self.shift() == 0 || self.shift() == 8 || self.shift() == 16 || self.shift() == 24,
    {
        assert(0xff00_0000u32 | 0x00ff_ffffu32 == 0xffff_ffffu32 && 0xff00_0000u32 & 0x00ff_ffffu32
            == 0u32 && 0xff00_0000u32 == 0xffu32 << 24u32 && 0x00ff_ffffu32 == !0xff00_0000u32)
            by (bit_vector);
        assert(0x00ff_0000u32 | 0xff00_ffffu32 == 0xffff_ffffu32 && 0x00ff_0000u32 & 0xff00_ffffu32
            == 0u32 && 0x00ff_0000u32 == 0xffu32 << 16u32 && 0xff00_ffffu32 == !0x00ff_0000u32)
            by (bit_vector);
        assert(0x0000_ff00u32 | 0xffff_00ffu32 == 0xffff_ffffu32 && 0x0000_ff00u32 & 0xffff_00ffu32
            == 0u32 && 0x0000_ff00u32 == 0xffu32 << 8u32 && 0xffff_00ffu32 == !0x0000_ff00u32)
            by (bit_vector);
        assert(0x0000_00ffu32 | 0xffff_ff00u32 == 0xffff_ffffu32 && 0x0000_00ffu32 & 0xffff_ff00u32
            == 0u32 && 0x0000_00ffu32 == 0xffu32 << 0u32 && 0xffff_ff00u32 == !0x0000_00ffu32)
            by (bit_vector);
    }
}

/// The value of `channel` in `color`.
pub open spec fn channel_of(color: u32, channel: Channel) -> u8 {
    ((color & channel.positive_mask()) >> channel.shift()) as u8
}

/// `color` with `channel` replaced by `value` and every other bit kept.
pub open spec fn with_channel(color: u32, channel: Channel, value: u8) -> u32 {
    (color & channel.negative_mask()) | ((value as u32) << channel.shift())
}

/// Reading a channel never yields more than eight bits.
pub proof fn lemma_channel_fits(color: u32, channel: Channel)
    ensures
        (color & channel.positive_mask()) >> channel.shift() <= 0xff,
        channel_of(color, channel) == (color & channel.positive_mask()) >> channel.shift(),
{
    channel.lemma_masks_partition();
    let s = channel.shift();
    assert((color & (0xffu32 << s)) >> s <= 0xff) by (bit_vector)
        requires
            s == 0 || s == 8 || s == 16 || s == 24,
    ;
}

/// Writing back the value a channel already holds leaves the colour as it
/// was.
pub proof fn lemma_set_get_round_trip(color: u32, channel: Channel)
    ensures
        with_channel(color, channel, channel_of(color, channel)) == color,
{
    channel.lemma_masks_partition();
    lemma_channel_fits(color, channel);
    let s = channel.shift();
    assert((color & !(0xffu32 << s)) | ((((color & (0xffu32 << s)) >> s) as u8 as u32) << s)
        == color) by (bit_vector)
        requires
            s == 0 || s == 8 || s == 16 || s == 24,
    ;
}

/// Setting a channel changes the eight bits of that channel and no others:
/// the channel then reads as the value written, every bit outside it is the
/// bit of the old colour, and so every other channel reads as before.
pub proof fn lemma_set_channel_isolated(color: u32, channel: Channel, value: u8)
    ensures
        channel_of(with_channel(color, channel, value), channel) == value,
        with_channel(color, channel, value) & channel.negative_mask() == color
            & channel.negative_mask(),
        forall|other: Channel|
            other != channel ==> #[trigger] channel_of(with_channel(color, channel, value), other)
                == channel_of(color, other),
{
    channel.lemma_masks_partition();
    let s = channel.shift();
    let set = with_channel(color, channel, value);
    assert((((color & !(0xffu32 << s)) | ((value as u32) << s)) & (0xffu32 << s)) >> s
        == value as u32) by (bit_vector)
        requires
            s == 0 || s == 8 || s == 16 || s == 24,
    ;
    assert(((color & !(0xffu32 << s)) | ((value as u32) << s)) & !(0xffu32 << s) == color & !(0xffu32
        << s)) by (bit_vector)
        requires
            s == 0 || s == 8 || s == 16 || s == 24,
    ;
    assert forall|other: Channel| other != channel implies #[trigger] channel_of(set, other)
        == channel_of(color, other) by {
        other.lemma_masks_partition();
        let t = other.shift();
        assert(((color & !(0xffu32 << s)) | ((value as u32) << s)) & (0xffu32 << t) == color & (0xffu32
            << t)) by (bit_vector)
            requires
                s == 0 || s == 8 || s == 16 || s == 24,
                t == 0 || t == 8 || t == 16 || t == 24,
                s != t,
        ;
    }
}

/// A value with four 8-bit colour channels that can be read and replaced one
/// at a time.
pub trait RgbaChannel: Sized + Copy {
    /// The value held in `channel`.
    spec fn channel(self, channel: Channel) -> u8;

    /// The same value with `channel` replaced by `value`.
    spec fn replaced(self, channel: Channel, value: u8) -> Self;

    fn set_channel(self, channel: Channel, new: u8) -> (out: Self)
        ensures
            out == self.replaced(channel, new),
    ;

    fn get_channel(self, channel: Channel) -> (out: u8)
        ensures
            out == self.channel(channel),
    ;

    /// Reads `channel`, applies `op` to it once, and writes the result back.
    fn map_channel<F>(self, channel: Channel, op: F) -> (out: Self) where F: FnMut(u8) -> u8
        requires
            op.requires((self.channel(channel),)),
        ensures
            exists|new: u8|
                op.ensures((self.channel(channel),), new) && out == self.replaced(channel, new),
    {
        let mut op = op;
        let res: u8 = op(self.get_channel(channel));
        self.set_channel(channel, res)
    }
}

impl RgbaChannel for u32 {
    open spec fn channel(self, channel: Channel) -> u8 {
        channel_of(self, channel)
    }

    open spec fn replaced(self, channel: Channel, value: u8) -> u32 {
        with_channel(self, channel, value)
    }

    fn set_channel(self, channel: Channel, new: u8) -> (out: u32) {
        let kept: u32 = self & channel.negative_mask();
        let shifted: u32 = (new as u32) << channel.shift();
        kept | shifted
    }

    fn get_channel(self, channel: Channel) -> (out: u8) {
        let isolated: u32 = self & channel.positive_mask();
        let shifted: u32 = isolated >> channel.shift();
        proof {
            lemma_channel_fits(self, channel);
        }
        shifted as u8
    }
}

impl RgbaChannel for Pixel {
    open spec fn channel(self, channel: Channel) -> u8 {
        channel_of(self.color, channel)
    }

    open spec fn replaced(self, channel: Channel, value: u8) -> Pixel {
        Pixel { pos: self.pos, color: with_channel(self.color, channel, value) }
    }

    fn set_channel(self, channel: Channel, new: u8) -> (out: Pixel) {
        Pixel { pos: self.pos, color: self.color.set_channel(channel, new) }
    }

    fn get_channel(self, channel: Channel) -> (out: u8) {
        self.color.get_channel(channel)
    }
}

} // verus!

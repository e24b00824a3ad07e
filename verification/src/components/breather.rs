use super::Direction;
use crate::screen::{
    channel_of, lemma_set_channel_isolated, with_channel, Channel, Component, Pixel, Pos,
    RgbaChannel,
};
use std::ops::Not;
use vstd::prelude::*;

verus! {

/// A pixel at the origin with one colour channel that swells to 255, fades
/// to 0, and swells again, one step per tick.
#[derive(Debug, Clone, Copy)]
pub struct Breather {
    pixel: Pixel,
    channel: Channel,
    direction: Direction,
}

/// What a [`Breather`] holds.
pub struct BreatherView {
    pub pixel: Pixel,
    pub channel: Channel,
    pub direction: Direction,
}

/// `level` moved one step, up if `rising` and down otherwise, and held at
/// 255 and at 0.
pub open spec fn stepped(level: u8, rising: bool) -> u8 {
    if rising {
        if level == 255 {
            255u8
        } else {
            (level + 1) as u8
        }
    } else {
        if level == 0 {
            0u8
        } else {
            (level - 1) as u8
        }
    }
}

impl BreatherView {
    /// The present value of the breathing channel.
    pub open spec fn level(self) -> u8 {
        channel_of(self.pixel.color, self.channel)
    }

    /// The value the channel takes on the next tick: one more while heading
    /// up and one less otherwise, held at 255 and at 0.
    pub open spec fn next_level(self) -> u8 {
        stepped(self.level(), self.direction is Up)
    }

    /// The state after one tick: the channel takes its next value, and the
    /// direction is inverted if that value is 0 or 255.
    pub open spec fn ticked(self) -> BreatherView {
        BreatherView {
            pixel: Pixel {
                pos: self.pixel.pos,
                color: with_channel(self.pixel.color, self.channel, self.next_level()),
            },
            channel: self.channel,
            direction: if self.next_level() == 255 || self.next_level() == 0 {
                self.direction.inverse()
            } else {
                self.direction
            },
        }
    }

    /// The breather's one pixel.
    pub open spec fn pixels(self) -> Seq<Pixel> {
        seq![self.pixel]
    }

    /// The state after `n` ticks.
    pub open spec fn after(self, n: nat) -> BreatherView
        decreases n,
    {
        if n == 0 {
            self
        } else {
            self.after((n - 1) as nat).ticked()
        }
    }

    /// A tick moves the breathing channel to its next value, which differs
    /// from the old one by at most one; it inverts the direction exactly
    /// when the new value is 0 or 255; and it leaves the position and the
    /// other three channels alone.
    pub proof fn lemma_tick_breathes(self)
        ensures
            self.ticked().level() == self.next_level(),
            self.level() - 1 <= self.ticked().level() <= self.level() + 1,
            self.ticked().direction != self.direction <==> (self.ticked().level() == 0
                || self.ticked().level() == 255),
            self.ticked().direction == self.direction || self.ticked().direction
                == self.direction.inverse(),
            self.ticked().pixel.pos == self.pixel.pos,
            self.ticked().channel == self.channel,
            forall|other: Channel|
                other != self.channel ==> #[trigger] channel_of(self.ticked().pixel.color, other)
                    == channel_of(self.pixel.color, other),
    {
        lemma_set_channel_isolated(self.pixel.color, self.channel, self.next_level());
    }

    /// However many ticks have passed, the next one turns the breather round
    /// exactly when it brings the channel to 0 or to 255.
    pub proof fn lemma_turns_only_at_limits(self, n: nat)
        ensures
            self.after(n + 1).direction != self.after(n).direction <==> (self.after(n + 1).level()
                == 0 || self.after(n + 1).level() == 255),
            self.after(n + 1).level() == self.after(n).next_level(),
    {
        self.after(n).lemma_tick_breathes();
    }
}

impl View for Breather {
    type V = BreatherView;

    closed spec fn view(&self) -> BreatherView {
        BreatherView { pixel: self.pixel, channel: self.channel, direction: self.direction }
    }
}

impl Breather {
    /// A breather at the origin that starts from `color` and heads up on
    /// `channel`.
    pub fn new(color: u32, channel: Channel) -> (out: Self)
        ensures
            out@ == (BreatherView {
                pixel: Pixel { pos: Pos { x: 0, y: 0 }, color },
                channel,
                direction: Direction::Up,
            }),
    {
        Self { pixel: Pixel { pos: Pos { x: 0, y: 0 }, color }, direction: Direction::Up, channel }
    }

    /// The pixel as it is now.
    pub fn pixel(&self) -> (out: Pixel)
        ensures
            out == self@.pixel,
    {
        self.pixel
    }

    /// The channel that breathes.
    pub fn channel(&self) -> (out: Channel)
        ensures
            out == self@.channel,
    {
        self.channel
    }

    /// The way the channel is heading: `Up` while it swells, `Down` while
    /// it fades.
    pub fn direction(&self) -> (out: Direction)
        ensures
            out == self@.direction,
    {
        self.direction
    }
}

impl Component for Breather {
    /// The breather's one pixel.
    open spec fn pixels(&self) -> Seq<Pixel> {
        self@.pixels()
    }

    /// A tick takes the breather to `self@.ticked()`.
    open spec fn steps_to(&self, next: &Breather) -> bool {
        next@ == self@.ticked()
    }

    fn render(&self) -> (out: Vec<Pixel>) {
        vec![self.pixel]
    }

    fn tick(&mut self) {
        let ghost before = self@;
        let rising: bool = self.direction.is_up();
        let step = |level: u8| -> (new: u8)
            ensures
                new == stepped(level, rising),
            {
                if rising {
                    level.saturating_add(1)
                } else {
                    level.saturating_sub(1)
                }
            };
        let moved: Pixel = self.pixel.map_channel(self.channel, step);
        let new: u8 = moved.get_channel(self.channel);
        proof {
            lemma_set_channel_isolated(before.pixel.color, before.channel, before.next_level());
        }

        if new == 255 || new == 0 {
            self.direction = self.direction.not();
        }
        self.pixel = moved;
    }
}

} // verus!

//! Colours, with channels of eight bits.

use vstd::prelude::*;

verus! {

/// A colour; a channel runs from 0 to [`crate::units::CHANNEL_MAX`].
#[derive(Clone, Copy, Debug, PartialEq, Eq, Structural)]
pub struct Rgba {
    pub red: u8,
    pub green: u8,
    pub blue: u8,
    pub alpha: u8,
}

/// One of the four channels of a colour.
#[derive(Clone, Copy, Debug, PartialEq, Eq, Structural)]
pub enum Channel {
    Red,
    Green,
    Blue,
    Alpha,
}

/// What a colour of the figure is used for.
#[derive(Clone, Copy, Debug, PartialEq, Eq, Structural)]
pub enum ColorRole {
    /// What the screen is cleared to.
    Background,
    /// The edges of the polygon.
    Border,
    /// The lines from each corner to the centre.
    Inner,
    /// The lines from each corner out to the rim.
    Outer,
}

/// The four colours of the figure. No channel depends on another.
#[derive(Clone, Copy, Debug, PartialEq, Eq, Structural)]
pub struct ColorSet {
    pub background: Rgba,
    pub border: Rgba,
    pub inner: Rgba,
    pub outer: Rgba,
}

/// The opaque colour that the low 24 bits of `rgb` describe, eight bits a
/// channel: red highest, blue lowest.
pub open spec fn unpacked(rgb: u32) -> Rgba {
    Rgba {
        red: ((rgb & 0x00FF_0000u32) >> 16) as u8,
        green: ((rgb & 0x0000_FF00u32) >> 8) as u8,
        blue: (rgb & 0x0000_00FFu32) as u8,
        alpha: 255,
    }
}

/// Calls `megaui::Color::from_rgb_u32`, which takes the three bytes out of `rgb`
/// with the masks and shifts of [`unpacked`] and makes an opaque colour of them,
/// and reads the colour's channels back with `megaui::Color::to_rgba`.
///
/// The colour in between holds a channel as the byte divided by 255, and
/// `to_rgba` multiplies by 255 and cuts the fraction off. The contract claims
/// that this gives each of the 256 bytes back as it was, so that the channels
/// are the bytes of `rgb` and the alpha channel is 255.
#[verifier::external_body]
fn color_from_u32(rgb: u32) -> (c: Rgba)
    ensures
        c == unpacked(rgb),
{
    let (red, green, blue, alpha) = megaui::Color::from_rgb_u32(rgb).to_rgba();
    Rgba { red, green, blue, alpha }
}

impl Rgba {
    /// The value of one channel.
    pub open spec fn channel(self, channel: Channel) -> u8 {
        match channel {
            Channel::Red => self.red,
            Channel::Green => self.green,
            Channel::Blue => self.blue,
            Channel::Alpha => self.alpha,
        }
    }

    /// This colour with one channel replaced.
    pub open spec fn with_channel(self, channel: Channel, value: u8) -> Rgba {
        match channel {
            Channel::Red => Rgba { red: value, ..self },
            Channel::Green => Rgba { green: value, ..self },
            Channel::Blue => Rgba { blue: value, ..self },
            Channel::Alpha => Rgba { alpha: value, ..self },
        }
    }

    /// The value of one channel.
    pub fn get(&self, channel: Channel) -> (value: u8)
        ensures
            value == self.channel(channel),
    {
        match channel {
            Channel::Red => self.red,
            Channel::Green => self.green,
            Channel::Blue => self.blue,
            Channel::Alpha => self.alpha,
        }
    }

    /// Replaces one channel and leaves the others as they are.
    pub fn set(&mut self, channel: Channel, value: u8)
        ensures
            *final(self) == old(self).with_channel(channel, value),
    {
        match channel {
            Channel::Red => {
                self.red = value;
            },
            Channel::Green => {
                self.green = value;
            },
            Channel::Blue => {
                self.blue = value;
            },
            Channel::Alpha => {
                self.alpha = value;
            },
        }
    }
}

impl ColorSet {
    /// The colour used for `role`.
    pub open spec fn of(self, role: ColorRole) -> Rgba {
        match role {
            ColorRole::Background => self.background,
            ColorRole::Border => self.border,
            ColorRole::Inner => self.inner,
            ColorRole::Outer => self.outer,
        }
    }

    /// These colours with one of them replaced.
    pub open spec fn with_color(self, role: ColorRole, color: Rgba) -> ColorSet {
        match role {
            ColorRole::Background => ColorSet { background: color, ..self },
            ColorRole::Border => ColorSet { border: color, ..self },
            ColorRole::Inner => ColorSet { inner: color, ..self },
            ColorRole::Outer => ColorSet { outer: color, ..self },
        }
    }

    /// Four opaque colours, each from the low 24 bits of its argument.
    pub fn from_rgb(background: u32, border: u32, inner: u32, outer: u32) -> (colors: ColorSet)
        ensures
            colors == (ColorSet {
                background: unpacked(background),
                border: unpacked(border),
                inner: unpacked(inner),
                outer: unpacked(outer),
            }),
    {
        ColorSet {
            background: color_from_u32(background),
            border: color_from_u32(border),
            inner: color_from_u32(inner),
            outer: color_from_u32(outer),
        }
    }

    /// The colour used for `role`.
    pub fn get(&self, role: ColorRole) -> (color: Rgba)
        ensures
            color == self.of(role),
    {
        match role {
            ColorRole::Background => self.background,
            ColorRole::Border => self.border,
            ColorRole::Inner => self.inner,
            ColorRole::Outer => self.outer,
        }
    }

    /// Replaces one channel of one colour and leaves everything else as it is.
    pub fn set_channel(&mut self, role: ColorRole, channel: Channel, value: u8)
        ensures
            *final(self) == old(self).with_color(
                role,
                old(self).of(role).with_channel(channel, value),
            ),
    {
        match role {
            ColorRole::Background => {
                self.background.set(channel, value);
            },
            ColorRole::Border => {
                self.border.set(channel, value);
            },
            ColorRole::Inner => {
                self.inner.set(channel, value);
            },
            ColorRole::Outer => {
                self.outer.set(channel, value);
            },
        }
    }
}

} // verus!

//! The command data model: what a caller asks the sign to display.
//!
//! Durations are carried as whole milliseconds so that scheduling and
//! interpolation stay in exact integer arithmetic.

use vstd::prelude::*;
use crate::{Level, Pixel};

verus! {

/// A display command, as produced by a transport.
#[derive(Debug, Clone)]
pub enum Command {
    AddToQueue { content: ContentGroup },
    ShowNow { content: ContentGroup },
    Clear,
}

/// An ordered sequence of content steps played in order, with a repeat policy.
#[derive(Debug, Clone)]
pub struct ContentGroup {
    pub contents: Vec<Content>,
    pub repeat: Repeat,
}

/// One step of content: a text with its color, animation and alignment.
#[derive(Debug, Clone)]
pub struct Content {
    pub text: String,
    pub color: Color,
    pub animation: Animation,
    pub align: Alignment,
}

/// How many additional passes a group makes beyond the first one.
#[derive(Debug, Clone, Copy, PartialEq, Eq, Structural)]
pub enum Repeat {
    Once,
    Forever,
    Times(usize),
}

impl Default for Repeat {
    /// By default a group plays once.
    fn default() -> (r: Repeat)
        ensures
            r == Repeat::Once,
    {
        Repeat::Once
    }
}

/// The color of a content step; both channels lit reads as orange.
#[derive(Debug, Clone, Copy, PartialEq, Eq, Structural)]
pub enum Color {
    Red,
    Green,
    Orange,
}

/// The pixel value that paints a given color.
pub open spec fn spec_color_pixel(c: Color) -> Pixel {
    match c {
        Color::Red => Pixel { red: Level::On, green: Level::Off },
        Color::Green => Pixel { red: Level::Off, green: Level::On },
        Color::Orange => Pixel { red: Level::On, green: Level::On },
    }
}

impl Color {
    /// The pixel that a lit cell of this color carries.
    pub fn to_pixel(self) -> (p: Pixel)
        ensures
            p == spec_color_pixel(self),
    {
        match self {
            Color::Red => Pixel { red: Level::On, green: Level::Off },
            Color::Green => Pixel { red: Level::Off, green: Level::On },
            Color::Orange => Pixel { red: Level::On, green: Level::On },
        }
    }
}

impl Default for Color {
    /// By default content is orange.
    fn default() -> (c: Color)
        ensures
            c == Color::Orange,
    {
        Color::Orange
    }
}

/// Where content sits horizontally on the screen.
#[derive(Debug, Clone, Copy, PartialEq, Eq, Structural)]
pub enum Alignment {
    Left { position: ScrollPosition },
    Center,
    Right { position: ScrollPosition },
}

impl Default for Alignment {
    /// By default content is centered.
    fn default() -> (a: Alignment)
        ensures
            a == Alignment::Center,
    {
        Alignment::Center
    }
}

/// Sub-alignment used when content is wider than the screen: which part
/// of the content the visible window shows.
#[derive(Debug, Clone, Copy, PartialEq, Eq, Structural)]
pub enum ScrollPosition {
    Beginning,
    Center,
    End,
}

impl Default for ScrollPosition {
    /// By default the window shows the beginning of wide content.
    fn default() -> (p: ScrollPosition)
        ensures
            p == ScrollPosition::Beginning,
    {
        ScrollPosition::Beginning
    }
}

/// How a content step moves, if at all.
#[derive(Debug, Clone, Copy, PartialEq, Eq, Structural)]
pub enum Animation {
    Still { duration: ContentDuration },
    Slide { slide_type: SlideType, direction: SlideDirection, speed: SlideSpeed },
    SlideInBounds { direction: SlideInBoundsDirection, speed: SlideSpeed },
}

impl Default for Animation {
    /// By default content stands still until replaced.
    fn default() -> (a: Animation)
        ensures
            a == (Animation::Still { duration: ContentDuration::Forever }),
    {
        Animation::Still { duration: ContentDuration::Forever }
    }
}

/// Which ends of a slide are animated.
#[derive(Debug, Clone, Copy, PartialEq, Eq, Structural)]
pub enum SlideType {
    In,
    Out,
    InOut,
}

impl Default for SlideType {
    /// By default a slide animates both in and out.
    fn default() -> (t: SlideType)
        ensures
            t == SlideType::InOut,
    {
        SlideType::InOut
    }
}

/// The axis and sense of a slide.
#[derive(Debug, Clone, Copy, PartialEq, Eq, Structural)]
pub enum SlideDirection {
    TopToBottom,
    BottomToTop,
    LeftToRight,
    RightToLeft,
}

impl Default for SlideDirection {
    /// By default a slide moves right to left.
    fn default() -> (d: SlideDirection)
        ensures
            d == SlideDirection::RightToLeft,
    {
        SlideDirection::RightToLeft
    }
}

/// The sense of a slide that stays within the visible area.
#[derive(Debug, Clone, Copy, PartialEq, Eq, Structural)]
pub enum SlideInBoundsDirection {
    Forward,
    Reverse,
}

impl Default for SlideInBoundsDirection {
    /// By default an in-bounds slide runs forward.
    fn default() -> (d: SlideInBoundsDirection)
        ensures
            d == SlideInBoundsDirection::Forward,
    {
        SlideInBoundsDirection::Forward
    }
}

/// How fast a slide moves: a fixed total duration in milliseconds, or a
/// rate in dots per second.
#[derive(Debug, Clone, Copy, PartialEq, Eq, Structural)]
pub enum SlideSpeed {
    Duration(u64),
    Dps(usize),
}

impl Default for SlideSpeed {
    /// By default a slide moves at twelve dots per second.
    fn default() -> (s: SlideSpeed)
        ensures
            s == SlideSpeed::Dps(12),
    {
        SlideSpeed::Dps(12)
    }
}

/// How long a still content step stays up: a duration in milliseconds,
/// or until something replaces it.
#[derive(Debug, Clone, Copy, PartialEq, Eq, Structural)]
pub enum ContentDuration {
    Duration(u64),
    Forever,
}

impl Default for ContentDuration {
    /// By default a still step stays up until replaced.
    fn default() -> (d: ContentDuration)
        ensures
            d == ContentDuration::Forever,
    {
        ContentDuration::Forever
    }
}

} // verus!

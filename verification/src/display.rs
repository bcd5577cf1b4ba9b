//! Display resource model: the current menu face and the last frame drawn.
//!
//! The pixel pipeline (SPI transfer, framebuffer flush) is a collaborator
//! outside this crate; draw failures there are best-effort and swallowed.
//! Here the display is the content handed to that pipeline: which face is
//! selected and what was last rendered.  Temperature is carried in tenths of
//! a degree Celsius, as the conversion from the raw sensor value happens
//! outside the crate.

use vstd::prelude::*;
use crate::menu::MenuState;

verus! {

/// Placeholder time shown when the clock face is drawn on a menu switch,
/// before the next RTC interrupt refreshes it.
pub const PLACEHOLDER_HOURS: u32 = 12;

/// Placeholder minutes for the menu-switch clock frame.
pub const PLACEHOLDER_MINUTES: u32 = 30;

/// Placeholder seconds for the menu-switch clock frame.
pub const PLACEHOLDER_SECONDS: u32 = 45;

/// Placeholder temperature (tenths of a degree) for the menu-switch frame.
pub const PLACEHOLDER_DECI_CELSIUS: i32 = 253;

/// One frame of display content.
#[derive(Clone, Copy, PartialEq, Eq, Structural, Debug)]
pub enum Frame {
    /// The clock face: hours, minutes, seconds.
    Time { hours: u32, minutes: u32, seconds: u32 },
    /// The temperature face, in tenths of a degree Celsius.
    Temperature { deci_celsius: i32 },
    /// The static settings face.
    Settings,
}

/// The display resource: menu selection plus the last rendered frame.
pub struct Display {
    /// The face the menu currently selects.
    pub menu_state: MenuState,
    /// The frame last handed to the pixel pipeline; `None` until the first
    /// render after boot.
    pub last_frame: Option<Frame>,
}

impl Display {
    /// Boot state: the clock face is selected, nothing rendered yet.
    pub fn new() -> (d: Display)
        ensures
            d.menu_state == MenuState::Clock,
            d.last_frame is None,
    {
        Display { menu_state: MenuState::Clock, last_frame: None }
    }

    /// The currently selected face.
    pub fn get_menu_state(&self) -> (m: MenuState)
        ensures m == self.menu_state,
    {
        self.menu_state
    }

    /// Advance the menu one step in its fixed cycle; the frame is unchanged
    /// until the caller renders the new face.
    pub fn next_menu(&mut self)
        ensures
            final(self).menu_state == old(self).menu_state.spec_next(),
            final(self).last_frame == old(self).last_frame,
    {
        self.menu_state = self.menu_state.next();
    }

    /// Draw the clock face.  The menu selection is unchanged.
    pub fn show_time(&mut self, hours: u32, minutes: u32, seconds: u32) -> (frame: Frame)
        ensures
            final(self).menu_state == old(self).menu_state,
            final(self).last_frame == Some((Frame::Time { hours, minutes, seconds })),
            frame == (Frame::Time { hours, minutes, seconds }),
    {
        let frame = Frame::Time { hours, minutes, seconds };
        self.last_frame = Some(frame);
        frame
    }

    /// Draw the temperature face.  The menu selection is unchanged.
    pub fn show_temperature(&mut self, deci_celsius: i32) -> (frame: Frame)
        ensures
            final(self).menu_state == old(self).menu_state,
            final(self).last_frame == Some((Frame::Temperature { deci_celsius })),
            frame == (Frame::Temperature { deci_celsius }),
    {
        let frame = Frame::Temperature { deci_celsius };
        self.last_frame = Some(frame);
        frame
    }

    /// Draw the static settings face.  The menu selection is unchanged.
    pub fn show_settings(&mut self) -> (frame: Frame)
        ensures
            final(self).menu_state == old(self).menu_state,
            final(self).last_frame == Some(Frame::Settings),
            frame == Frame::Settings,
    {
        self.last_frame = Some(Frame::Settings);
        Frame::Settings
    }

    /// Render the face the menu currently selects, with placeholder data for
    /// the dynamic faces; the owning job refreshes it on its next tick.
    pub fn update_menu(&mut self) -> (frame: Frame)
        ensures
            final(self).menu_state == old(self).menu_state,
            final(self).last_frame == Some(frame),
            frame == menu_frame(old(self).menu_state),
    {
        match self.menu_state {
            MenuState::Clock => self.show_time(
                PLACEHOLDER_HOURS,
                PLACEHOLDER_MINUTES,
                PLACEHOLDER_SECONDS,
            ),
            MenuState::Temperature => self.show_temperature(PLACEHOLDER_DECI_CELSIUS),
            MenuState::Settings => self.show_settings(),
        }
    }
}

/// The frame `update_menu` draws for each face.
pub open spec fn menu_frame(m: MenuState) -> Frame {
    match m {
        MenuState::Clock => Frame::Time {
            hours: PLACEHOLDER_HOURS,
            minutes: PLACEHOLDER_MINUTES,
            seconds: PLACEHOLDER_SECONDS,
        },
        MenuState::Temperature => Frame::Temperature {
            deci_celsius: PLACEHOLDER_DECI_CELSIUS,
        },
        MenuState::Settings => Frame::Settings,
    }
}

/// ASCII digit for a value below ten.
pub open spec fn digit_byte(v: int) -> u8
    recommends 0 <= v < 10,
{
    (48 + v) as u8
}

/// Format a wall-clock time as the eight ASCII bytes `HH:MM:SS`, each field
/// zero-padded to two digits.
pub fn time_text(hours: u32, minutes: u32, seconds: u32) -> (text: Vec<u8>)
    requires
        hours < 24,
        minutes < 60,
        seconds < 60,
    ensures
        text@.len() == 8,
        text@[0] == digit_byte(hours as int / 10),
        text@[1] == digit_byte(hours as int % 10),
        text@[2] == 58u8,
        text@[3] == digit_byte(minutes as int / 10),
        text@[4] == digit_byte(minutes as int % 10),
        text@[5] == 58u8,
        text@[6] == digit_byte(seconds as int / 10),
        text@[7] == digit_byte(seconds as int % 10),
{
    let mut text: Vec<u8> = Vec::new();
    text.push(48 + (hours / 10) as u8);
    text.push(48 + (hours % 10) as u8);
    text.push(58);
    text.push(48 + (minutes / 10) as u8);
    text.push(48 + (minutes % 10) as u8);
    text.push(58);
    text.push(48 + (seconds / 10) as u8);
    text.push(48 + (seconds % 10) as u8);
    text
}

} // verus!

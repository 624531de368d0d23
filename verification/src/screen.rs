//! The screen: the text that is drawn and the colour it is drawn in.

use vstd::prelude::*;
use vstd::string::*;

verus! {

/// A text screen. The high four bits of `color` pick the background, the low
/// four bits the foreground.
pub struct Screen {
    text: String,
    pub color: u8,
}

/// A screen as contracts see it.
pub struct ScreenView {
    pub text: Seq<char>,
    pub color: u8,
}

impl View for Screen {
    type V = ScreenView;

    closed spec fn view(&self) -> ScreenView {
        ScreenView { text: self.text@, color: self.color }
    }
}

impl Screen {
    /// An empty screen of the colour `color`.
    pub fn new(color: u8) -> (screen: Self)
        ensures
            screen@ == (ScreenView { text: Seq::empty(), color }),
    {
        Self { color, text: String::new() }
    }

    /// The colour of the screen.
    pub fn color(&self) -> (color: u8)
        ensures
            color == self@.color,
    {
        self.color
    }

    /// Gives the screen the colour `color`.
    pub fn set_color(&mut self, color: u8)
        ensures
            final(self)@ == (ScreenView { text: old(self)@.text, color }),
    {
        self.color = color;
    }

    /// Replaces the text of the screen.
    pub fn set_text(&mut self, string: String)
        ensures
            final(self)@ == (ScreenView { text: string@, color: old(self)@.color }),
    {
        self.text = string;
    }

    /// The text of the screen.
    pub fn get_text(&self) -> (text: &str)
        ensures
            text@ == self@.text,
    {
        self.text.as_str()
    }
}

} // verus!

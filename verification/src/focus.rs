//! Remembering the window that last had the focus, and the key strokes that
//! paste into it.
//!
//! The caller listens to the system's window events and reports them to a
//! [`FocusTracker`]; when a paste is asked for, it brings the remembered
//! window to the front and sends the key strokes of [`paste_inputs`].

use vstd::prelude::*;

verus! {

/// Event number of a change of the foreground window.
pub const EVENT_SYSTEM_FOREGROUND: u32 = 3;

/// Flag of a key stroke that releases the key.
pub const KEYEVENTF_KEYUP: u32 = 2;

/// Virtual key numbers.
pub const VK_SHIFT: u16 = 0x10;

pub const VK_CONTROL: u16 = 0x11;

pub const VK_MENU: u16 = 0x12;

pub const VK_INSERT: u16 = 0x2D;

pub const VK_LWIN: u16 = 0x5B;

pub const VK_RWIN: u16 = 0x5C;

/// Time in milliseconds to wait between focusing the window and sending the
/// key strokes.
pub const PASTE_DELAY_MS: u64 = 100;

/// The last window, other than the application's own, that came to the
/// foreground. Empty until the first such event.
pub struct FocusTracker {
    /// Title of the application's own main window, which is never recorded.
    pub own_title: String,
    /// Handle of the remembered window.
    pub previous: Option<isize>,
}

/// Tells whether `event` reports a change of the foreground window, the only
/// event for which a window's title is needed.
pub fn is_foreground_event(event: u32) -> (yes: bool)
    ensures
        yes == (event == EVENT_SYSTEM_FOREGROUND),
{
    event == EVENT_SYSTEM_FOREGROUND
}

impl FocusTracker {
    /// A tracker that remembers no window yet.
    pub fn new(own_title: String) -> (tracker: FocusTracker)
        ensures
            tracker.previous.is_none(),
            tracker.own_title@ == own_title@,
    {
        FocusTracker { own_title, previous: None }
    }

    /// The window remembered after an event: the one that came to the
    /// foreground, unless it bears the application's own title; any other
    /// event changes nothing.
    pub open spec fn after_event(self, event: u32, window: isize, title: Seq<char>) -> Option<
        isize,
    > {
        if event == EVENT_SYSTEM_FOREGROUND && title != self.own_title@ {
            Some(window)
        } else {
            self.previous
        }
    }

    /// Takes note of a window event.
    pub fn on_event(&mut self, event: u32, window: isize, title: &String)
        ensures
            final(self).previous == old(self).after_event(event, window, title@),
            final(self).own_title@ == old(self).own_title@,
    {
        if is_foreground_event(event) {
            if *title == self.own_title {
                return ;
            }
            self.previous = Some(window);
        }
    }

    /// The window to bring to the front before pasting: the remembered one,
    /// unless none is remembered or its handle is null.
    pub open spec fn spec_focus_target(self) -> Option<isize> {
        match self.previous {
            Some(window) => if window != 0 {
                Some(window)
            } else {
                None
            },
            None => None,
        }
    }

    /// Gives the window to bring to the front before pasting.
    pub fn focus_target(&self) -> (target: Option<isize>)
        ensures
            target == self.spec_focus_target(),
    {
        match self.previous {
            Some(window) => if window != 0 {
                Some(window)
            } else {
                None
            },
            None => None,
        }
    }
}

/// Gives the handle of the remembered window, if there is one.
pub fn get_previous_window(tracker: &FocusTracker) -> (window: Option<isize>)
    ensures
        window == tracker.previous,
{
    tracker.previous
}

/// One keyboard event to inject.
#[derive(Clone, Copy, Debug, PartialEq, Eq, Structural)]
pub struct KeyInput {
    pub virtual_key: u16,
    pub scan_code: u16,
    pub flags: u32,
    pub time: u32,
    pub extra_info: usize,
}

impl KeyInput {
    /// Whether the event releases its key.
    pub open spec fn releases(self) -> bool {
        self.flags == KEYEVENTF_KEYUP
    }
}

/// The keyboard event for `virtual_key` with the given flags; every other
/// field is zero, which leaves scan code and time to the system.
pub open spec fn key_input(virtual_key: u16, flags: u32) -> KeyInput {
    KeyInput { virtual_key, scan_code: 0, flags, time: 0, extra_info: 0 }
}

/// Builds the keyboard event for `virtual_key` with the given flags.
pub fn make_key_input(virtual_key: u16, flags: u32) -> (input: KeyInput)
    ensures
        input == key_input(virtual_key, flags),
{
    KeyInput { virtual_key, scan_code: 0, flags, time: 0, extra_info: 0 }
}

/// The key strokes of a paste: the five modifiers that a user may still hold
/// are released, then Shift+Insert is pressed and released.
pub open spec fn paste_sequence() -> Seq<KeyInput> {
    seq![
        key_input(VK_CONTROL, KEYEVENTF_KEYUP),
        key_input(VK_SHIFT, KEYEVENTF_KEYUP),
        key_input(VK_MENU, KEYEVENTF_KEYUP),
        key_input(VK_LWIN, KEYEVENTF_KEYUP),
        key_input(VK_RWIN, KEYEVENTF_KEYUP),
        key_input(VK_SHIFT, 0),
        key_input(VK_INSERT, 0),
        key_input(VK_INSERT, KEYEVENTF_KEYUP),
        key_input(VK_SHIFT, KEYEVENTF_KEYUP),
    ]
}

/// Builds the key strokes of a paste, to be sent in one batch.
pub fn paste_inputs() -> (inputs: Vec<KeyInput>)
    ensures
        inputs@ == paste_sequence(),
{
    let mut inputs: Vec<KeyInput> = Vec::new();
    inputs.push(make_key_input(VK_CONTROL, KEYEVENTF_KEYUP));
    inputs.push(make_key_input(VK_SHIFT, KEYEVENTF_KEYUP));
    inputs.push(make_key_input(VK_MENU, KEYEVENTF_KEYUP));
    inputs.push(make_key_input(VK_LWIN, KEYEVENTF_KEYUP));
    inputs.push(make_key_input(VK_RWIN, KEYEVENTF_KEYUP));
    inputs.push(make_key_input(VK_SHIFT, 0));
    inputs.push(make_key_input(VK_INSERT, 0));
    inputs.push(make_key_input(VK_INSERT, KEYEVENTF_KEYUP));
    inputs.push(make_key_input(VK_SHIFT, KEYEVENTF_KEYUP));
    assert(inputs@ =~= paste_sequence());
    inputs
}

/// A paste leaves no key down: every key that the sequence presses it
/// releases further on.
pub proof fn lemma_paste_releases_every_key()
    ensures
        forall|i: int|
            0 <= i < paste_sequence().len() && !(#[trigger] paste_sequence()[i]).releases()
                ==> exists|j: int|
                i < j < paste_sequence().len() && (#[trigger] paste_sequence()[j]).releases()
                    && paste_sequence()[j].virtual_key == paste_sequence()[i].virtual_key,
{
    let keys = paste_sequence();
    assert forall|i: int| 0 <= i < keys.len() && !(#[trigger] keys[i]).releases() implies exists|
        j: int,
    |
        i < j < keys.len() && (#[trigger] keys[j]).releases() && keys[j].virtual_key
            == keys[i].virtual_key by {
        if i == 5 {
            assert(keys[8].releases() && keys[8].virtual_key == keys[5].virtual_key);
        } else {
            assert(i == 6);
            assert(keys[7].releases() && keys[7].virtual_key == keys[6].virtual_key);
        }
    }
}

} // verus!

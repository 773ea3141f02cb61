//! What the window decides on a key press: which entry of the queues is
//! being edited, what is asked of the player, and how the code that leads to
//! the submission form is drawn.
//!
//! Drawing itself is the window's part.

use crate::state::{State, StoreView};
use crate::util::{Event, EventView};
use vstd::prelude::*;

verus! {

/// A key, as far as the window listens to it.
#[derive(Clone, Copy, Debug, PartialEq, Eq, Structural)]
pub enum Key {
    Escape,
    D,
    J,
    K,
    N,
    Space,
    Q,
    W,
    A,
    S,
    /// One of the digits 1 to 9.
    Digit(u8),
    /// Any other key.
    Other,
}

/// What the keys control, as plain values.
pub struct ControlsView {
    /// The 1-based index of the entry that is being edited.
    pub edit: Option<usize>,
    /// Brightness of the code.
    pub qr_contrast: u8,
    /// Size of one module of the code.
    pub qr_size: u8,
}

/// What a key press leads to.
pub struct KeyStep {
    pub controls: ControlsView,
    pub store: StoreView,
    pub event: Option<EventView>,
}

/// `a - b`, or 0 where that would be negative.
pub open spec fn minus(a: u8, b: u8) -> u8 {
    if a >= b {
        (a - b) as u8
    } else {
        0
    }
}

/// `a + b`, or 255 where that would be more.
pub open spec fn plus(a: u8, b: u8) -> u8 {
    if a + b <= 255 {
        (a + b) as u8
    } else {
        255
    }
}

/// What the press of `key` leads to.
///
/// A digit picks the entry of that index for editing. While an entry is
/// edited, `D` deletes it, `J` moves it down, `K` moves it up, and escape
/// leaves it alone. Else `N` skips the track, space pauses or resumes, `Q`
/// and `W` darken and brighten the code, `A` and `S` shrink and enlarge it.
pub open spec fn key_step(c: ControlsView, store: StoreView, key: Key) -> KeyStep {
    let same = KeyStep { controls: c, store, event: None };
    match key {
        Key::Digit(n) => if 1 <= n <= 9 {
            KeyStep {
                controls: ControlsView { edit: Some(n as usize), ..c },
                store,
                event: None,
            }
        } else {
            same
        },
        _ => match c.edit {
            Some(index) => match key {
                Key::Escape => KeyStep {
                    controls: ControlsView { edit: None, ..c },
                    store,
                    event: None,
                },
                Key::D => KeyStep {
                    controls: ControlsView { edit: None, ..c },
                    store: store.delete_song(index as int),
                    event: None,
                },
                Key::J => KeyStep {
                    controls: ControlsView {
                        edit: Some(store.move_down_index(index as int) as usize),
                        ..c
                    },
                    store: store.move_down(index as int),
                    event: None,
                },
                Key::K => KeyStep {
                    controls: ControlsView {
                        edit: Some(store.move_up_index(index as int) as usize),
                        ..c
                    },
                    store: store.move_up(index as int),
                    event: None,
                },
                _ => same,
            },
            None => match key {
                Key::N => KeyStep { controls: c, store, event: Some(EventView::NextSong) },
                Key::Space => KeyStep { controls: c, store, event: Some(EventView::TogglePause) },
                Key::Q => KeyStep {
                    controls: ControlsView { qr_contrast: minus(c.qr_contrast, 10), ..c },
                    store,
                    event: None,
                },
                Key::W => KeyStep {
                    controls: ControlsView { qr_contrast: plus(c.qr_contrast, 10), ..c },
                    store,
                    event: None,
                },
                Key::A => KeyStep {
                    controls: ControlsView {
                        qr_size: if c.qr_size <= 1 {
                            1
                        } else {
                            minus(c.qr_size, 1)
                        },
                        ..c
                    },
                    store,
                    event: None,
                },
                Key::S => KeyStep {
                    controls: ControlsView { qr_size: plus(c.qr_size, 1), ..c },
                    store,
                    event: None,
                },
                _ => same,
            },
        },
    }
}

/// What the keys control.
pub struct Controls {
    edit: Option<usize>,
    qr_contrast: u8,
    qr_size: u8,
}

impl View for Controls {
    type V = ControlsView;

    closed spec fn view(&self) -> ControlsView {
        ControlsView { edit: self.edit, qr_contrast: self.qr_contrast, qr_size: self.qr_size }
    }
}

impl Controls {
    /// The controls of a window that has just opened.
    pub fn new() -> (r: Self)
        ensures
            r@.edit is None,
            r@.qr_contrast == 105,
            r@.qr_size == 6,
    {
        Controls { edit: None, qr_contrast: 105, qr_size: 6 }
    }

    /// The 1-based index of the entry that is being edited.
    pub fn edit_index(&self) -> (r: Option<usize>)
        ensures
            r == self@.edit,
    {
        self.edit
    }

    /// Brightness of the code.
    pub fn qr_contrast(&self) -> (r: u8)
        ensures
            r == self@.qr_contrast,
    {
        self.qr_contrast
    }

    /// Size of one module of the code.
    pub fn qr_size(&self) -> (r: u8)
        ensures
            r == self@.qr_size,
    {
        self.qr_size
    }

    /// Takes a key press in, edits the queues of `state` if it asks for
    /// that, and returns what is to be reported to the main loop.
    pub fn key_pressed(&mut self, state: &mut State, key: Key) -> (event: Option<Event>)
        ensures
            final(self)@ == key_step(old(self)@, old(state)@, key).controls,
            final(state)@ == key_step(old(self)@, old(state)@, key).store,
            match event {
                Some(e) => key_step(old(self)@, old(state)@, key).event == Some(e@),
                None => key_step(old(self)@, old(state)@, key).event is None,
            },
    {
        match key {
            Key::Digit(n) => {
                if 1 <= n && n <= 9 {
                    self.edit = Some(n as usize);
                }
                None
            },
            _ => match self.edit {
                Some(index) => {
                    match key {
                        Key::Escape => {
                            self.edit = None;
                        },
                        Key::D => {
                            state.delete_song(index);
                            self.edit = None;
                        },
                        Key::J => {
                            let moved = state.move_down(index);
                            self.edit = Some(moved);
                        },
                        Key::K => {
                            let moved = state.move_up(index);
                            self.edit = Some(moved);
                        },
                        _ => {},
                    }
                    None
                },
                None => match key {
                    Key::N => Some(Event::NextSong),
                    Key::Space => Some(Event::TogglePause),
                    Key::Q => {
                        self.qr_contrast = self.qr_contrast.saturating_sub(10);
                        None
                    },
                    Key::W => {
                        self.qr_contrast = self.qr_contrast.saturating_add(10);
                        None
                    },
                    Key::A => {
                        self.qr_size = if self.qr_size <= 1 {
                            1
                        } else {
                            self.qr_size - 1
                        };
                        None
                    },
                    Key::S => {
                        self.qr_size = self.qr_size.saturating_add(1);
                        None
                    },
                    _ => None,
                },
            },
        }
    }

    /// Leaves the editing of an entry that is not among the `shown` entries
    /// that were drawn.
    pub fn shown(&mut self, shown: usize)
        ensures
            final(self)@ == (ControlsView {
                edit: match old(self)@.edit {
                    Some(index) if index > shown => None,
                    edit => edit,
                },
                ..old(self)@
            }),
    {
        match self.edit {
            Some(index) => {
                if index > shown {
                    self.edit = None;
                }
            },
            None => {},
        }
    }
}

} // verus!

//! What the window does with the events of its event loop.
//!
//! The loop itself, the window and the screen are outside this library. The
//! loop hands each event over as a plain value and carries out the command
//! that comes back.

use vstd::prelude::*;
use vstd::string::StrSliceExecFns;
use crate::engine::LayoutEngine;
use crate::input::{ElementState, InputState, Key, ModifiersState, MouseButton};
use crate::interactive::Interactive;

verus! {

/// An event of the window.
#[derive(Clone, Debug)]
pub enum Event {
    /// The window has to be painted; with the size of its inside.
    RedrawRequested { width: u32, height: u32 },
    /// Modifier keys went down or came up.
    ModifiersChanged(ModifiersState),
    /// A key went down or came up, or repeats.
    KeyboardInput { key: Key, state: ElementState, repeat: bool },
    /// The pointer moved to a position in the window.
    CursorMoved { x: i32, y: i32 },
    /// A button of the pointer went down or came up.
    MouseInput { state: ElementState, button: MouseButton },
    /// The window is asked to close.
    CloseRequested,
    /// The pointing device moved by `value` along an axis: axis 0 runs
    /// across, axis 1 runs down.
    Motion { axis: u32, value: i32 },
}

/// What the event loop is to do after an event.
#[derive(Clone, Copy, Debug, PartialEq, Eq, Structural)]
pub enum Command {
    Nothing,
    /// Leave the event loop.
    Exit,
    /// Ask the window system for a redraw.
    RequestRedraw,
    /// Paint the window at this size and show it.
    Render { width: u32, height: u32 },
}

/// Whether a key asks to quit: the character `q` with Control held.
pub open spec fn is_quit(key: Key, modifiers: ModifiersState) -> bool {
    key matches Key::Character(characters) && modifiers.control && characters@ == seq!['q']
}

/// `position` moved by `value`, held to what an `i32` can take.
pub open spec fn moved(position: i32, value: i32) -> i32 {
    if position + value > i32::MAX {
        i32::MAX
    } else if position + value < i32::MIN {
        i32::MIN
    } else {
        (position + value) as i32
    }
}

/// The pointer and keyboard state after an event. The pointer follows
/// cursor moves and device motion, the modifiers follow their changes, and
/// the state of the left button follows the left button.
pub open spec fn input_after(input: InputState, event: Event) -> InputState {
    match event {
        Event::ModifiersChanged(modifiers) => InputState { modifier_state: modifiers, ..input },
        Event::CursorMoved { x, y } => InputState { mouse_pos_x: x, mouse_pos_y: y, ..input },
        Event::MouseInput { state, button } => if button == MouseButton::Left {
            InputState { mouse_left_state: state, ..input }
        } else {
            input
        },
        Event::Motion { axis, value } => if axis == 0 {
            InputState { mouse_pos_x: moved(input.mouse_pos_x, value), ..input }
        } else if axis == 1 {
            InputState { mouse_pos_y: moved(input.mouse_pos_y, value), ..input }
        } else {
            input
        },
        _ => input,
    }
}

/// The window's state between events: its regions and what it knows of
/// pointer and keyboard.
pub struct WindowState {
    layout: LayoutEngine,
    input: InputState,
}

impl WindowState {
    /// The regions of the window.
    pub closed spec fn layout_of(&self) -> LayoutEngine {
        self.layout
    }

    /// What the window knows of pointer and keyboard.
    pub closed spec fn input_of(&self) -> InputState {
        self.input
    }

    /// The regions are well formed.
    pub closed spec fn wf(&self) -> bool {
        self.layout.wf()
    }

    /// What an event does to the regions, and the command that it ends in.
    ///
    /// A redraw request ends in a command to paint, unless the window has
    /// no size. A request to close, and the quit key, end in a command to
    /// exit. A key that goes down, and does not repeat, is handed to the
    /// regions. A press of the left button is handed to the regions at the
    /// position of the pointer. A redraw is asked for where the regions ask
    /// for one. In every other case the regions stay as they are and
    /// nothing is to be done.
    pub open spec fn event_handled(self, after: WindowState, event: Event, command: Command) -> bool {
        match event {
            Event::RedrawRequested { width, height } => {
                &&& after.layout_of() == self.layout_of()
                &&& command == if width > 0 && height > 0 {
                    Command::Render { width, height }
                } else {
                    Command::Nothing
                }
            },
            Event::CloseRequested => {
                &&& after.layout_of() == self.layout_of()
                &&& command == Command::Exit
            },
            Event::KeyboardInput { key, state, repeat } => {
                if is_quit(key, self.input_of().modifier_state) {
                    &&& after.layout_of() == self.layout_of()
                    &&& command == Command::Exit
                } else if state == ElementState::Pressed && !repeat {
                    &&& command == Command::RequestRedraw || command == Command::Nothing
                    &&& self.layout_of().key_handled(
                        after.layout_of(),
                        key,
                        command == Command::RequestRedraw,
                    )
                } else {
                    &&& after.layout_of() == self.layout_of()
                    &&& command == Command::Nothing
                }
            },
            Event::MouseInput { state, button } => {
                if state == ElementState::Pressed && button == MouseButton::Left {
                    &&& command == Command::Nothing
                    &&& self.layout_of().pointer_handled(
                        after.layout_of(),
                        self.input_of().mouse_pos_x as int,
                        self.input_of().mouse_pos_y as int,
                        state,
                    )
                } else {
                    &&& after.layout_of() == self.layout_of()
                    &&& command == Command::Nothing
                }
            },
            _ => {
                &&& after.layout_of() == self.layout_of()
                &&& command == Command::Nothing
            },
        }
    }

    /// The state of a new window, for a scale factor in hundredths.
    pub fn new(scale_factor: u32) -> (state: WindowState)
        ensures
            state.wf(),
            state.layout_of().wf(),
            state.layout_of().focus_of() == crate::layout::Section::Editor,
            state.layout_of().editor_of()@ == crate::text_buffer::GREETING@,
            state.input_of() == (InputState {
                mouse_left_state: ElementState::Released,
                mouse_pos_x: 0,
                mouse_pos_y: 0,
                unapplied_scroll_data: 0,
                modifier_state: ModifiersState {
                    shift: false,
                    control: false,
                    alt: false,
                    logo: false,
                },
            }),
    {
        WindowState { layout: LayoutEngine::new(scale_factor), input: InputState::default() }
    }

    /// The regions of the window.
    pub fn layout(&self) -> (layout: &LayoutEngine)
        requires
            self.wf(),
        ensures
            *layout == self.layout_of(),
            layout.wf(),
    {
        &self.layout
    }

    /// The regions of the window, to lay out, shape and paint.
    pub fn layout_mut(&mut self) -> (layout: &mut LayoutEngine)
        requires
            old(self).wf(),
        ensures
            *layout == old(self).layout_of(),
            layout.wf(),
            final(layout).wf() ==> final(self).wf(),
            final(self).layout_of() == *final(layout),
            final(self).input_of() == old(self).input_of(),
    {
        &mut self.layout
    }

    /// What the window knows of pointer and keyboard.
    pub fn input(&self) -> (input: InputState)
        ensures
            input == self.input_of(),
    {
        self.input
    }

    /// Takes one event of the window and says what the event loop is to do.
    pub fn handle_event(&mut self, event: Event) -> (command: Command)
        requires
            old(self).wf(),
        ensures
            final(self).wf(),
            final(self).input_of() == input_after(old(self).input_of(), event),
            old(self).event_handled(*final(self), event, command),
    {
        match event {
            Event::RedrawRequested { width, height } => {
                if width > 0 && height > 0 {
                    Command::Render { width, height }
                } else {
                    Command::Nothing
                }
            },
            Event::ModifiersChanged(modifiers) => {
                self.input.modifier_state = modifiers;
                Command::Nothing
            },
            Event::KeyboardInput { key, state, repeat } => {
                if is_quit_key(&key, &self.input.modifier_state) {
                    Command::Exit
                } else if state.is_pressed() && !repeat {
                    if self.layout.handle_keyboard_event(&self.input, key) {
                        Command::RequestRedraw
                    } else {
                        Command::Nothing
                    }
                } else {
                    Command::Nothing
                }
            },
            Event::CursorMoved { x, y } => {
                self.input.mouse_pos_x = x;
                self.input.mouse_pos_y = y;
                Command::Nothing
            },
            Event::MouseInput { state, button } => {
                let left = match button {
                    MouseButton::Left => true,
                    _ => false,
                };
                let mut command = Command::Nothing;
                if left && state.is_pressed() {
                    if self.layout.handle_mouse_event(&self.input, state) {
                        command = Command::RequestRedraw;
                    }
                }
                if left {
                    self.input.mouse_left_state = state;
                }
                command
            },
            Event::CloseRequested => Command::Exit,
            Event::Motion { axis, value } => {
                if axis == 0 {
                    self.input.mouse_pos_x = move_by(self.input.mouse_pos_x, value);
                } else if axis == 1 {
                    self.input.mouse_pos_y = move_by(self.input.mouse_pos_y, value);
                }
                Command::Nothing
            },
        }
    }
}

/// Tests a key for the quit key.
pub fn is_quit_key(key: &Key, modifiers: &ModifiersState) -> (quit: bool)
    ensures
        quit == is_quit(*key, *modifiers),
{
    match key {
        Key::Character(characters) => {
            if modifiers.control_key() && characters.as_str().unicode_len() == 1 {
                let first = characters.as_str().get_char(0);
                assert(first == 'q' ==> characters@ =~= seq!['q']);
                first == 'q'
            } else {
                false
            }
        },
        _ => false,
    }
}

/// Moves a coordinate of the pointer by `value`, stopping at the ends of
/// what an `i32` can take.
pub fn move_by(position: i32, value: i32) -> (r: i32)
    ensures
        r == moved(position, value),
{
    let sum: i64 = position as i64 + value as i64;
    if sum > i32::MAX as i64 {
        i32::MAX
    } else if sum < i32::MIN as i64 {
        i32::MIN
    } else {
        sum as i32
    }
}

} // verus!

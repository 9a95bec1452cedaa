//! The keyboard side channel: the last direction key pressed is left as an
//! ASCII byte in a fixed memory cell, where a running program can read it.

use crate::cpu::CPU;
use vstd::prelude::*;

verus! {

/// The memory cell that receives the last direction key.
pub const INPUT_ADDRESS: u16 = 0x00ff;

/// A key of the keyboard, as far as the front end tells keys apart.
#[derive(Clone, Copy, Debug, PartialEq, Eq)]
pub enum Key {
    Escape,
    W,
    S,
    A,
    D,
    Other,
}

/// An event of the front end.
#[derive(Clone, Copy, Debug, PartialEq, Eq)]
pub enum InputEvent {
    /// The window was closed.
    Quit,
    /// A key went down.
    KeyDown(Key),
    /// Anything else.
    Other,
}

impl InputEvent {
    /// Whether the event asks for the program to end: closing the window
    /// does, and so does Escape.
    pub open spec fn quits(self) -> bool {
        self == InputEvent::Quit || self == InputEvent::KeyDown(Key::Escape)
    }

    /// The byte the event leaves in memory: the lower-case ASCII letter of a
    /// direction key, and nothing for any other event.
    pub open spec fn direction(self) -> Option<u8> {
        match self {
            InputEvent::KeyDown(Key::W) => Some(0x77u8),
            InputEvent::KeyDown(Key::S) => Some(0x73u8),
            InputEvent::KeyDown(Key::A) => Some(0x61u8),
            InputEvent::KeyDown(Key::D) => Some(0x64u8),
            _ => None,
        }
    }
}

/// Takes one event of the front end. A direction key is written to
/// `INPUT_ADDRESS`; the result says whether the event asks for the program
/// to end.
pub fn handle_user_input(cpu: &mut CPU, event: InputEvent) -> (quit: bool)
    ensures
        quit == event.quits(),
        final(cpu)@ == match event.direction() {
            Some(byte) => old(cpu)@.write(INPUT_ADDRESS, byte),
            None => old(cpu)@,
        },
{
    match event {
        InputEvent::Quit => true,
        InputEvent::KeyDown(Key::Escape) => true,
        InputEvent::KeyDown(Key::W) => {
            cpu.memory_write(INPUT_ADDRESS, 0x77);
            false
        },
        InputEvent::KeyDown(Key::S) => {
            cpu.memory_write(INPUT_ADDRESS, 0x73);
            false
        },
        InputEvent::KeyDown(Key::A) => {
            cpu.memory_write(INPUT_ADDRESS, 0x61);
            false
        },
        InputEvent::KeyDown(Key::D) => {
            cpu.memory_write(INPUT_ADDRESS, 0x64);
            false
        },
        _ => false,
    }
}

} // verus!

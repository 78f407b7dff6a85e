//! Keyboard bridge between local input devices and authenticated websocket clients:
//! the key bindings used to type text one key at a time, the key sequences that
//! paste from the clipboard, the message protocol that clients speak, the registry
//! of connected clients, and the JSON reports of local key events.
pub mod keyboard;
pub mod typing;
pub mod json;
pub mod hub;
pub mod report;
pub mod server;

//! An animated character-grid stage: a sprite that fades in, moves and fades
//! out over a background, a short-lived typed-character overlay, and two
//! caption areas below the picture, driven by a queue of commands and a
//! frame timer.
pub mod asciiart;
pub mod audiofuncs;
pub mod background;
pub mod behavior;
pub mod character;
pub mod client;
pub mod command;
pub mod controller;
pub mod effector;
pub mod grid;
pub mod pict;
mod random;
pub mod stage;
mod text;
pub mod uifuncs;

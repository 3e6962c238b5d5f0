//! The screens of a wallet installer and the shutdown of its embedded daemon,
//! as plain data.
//!
//! Every screen is a function from the state it shows to a description of what
//! the screen holds: the texts that depend on that state, which controls can be
//! pressed, and what each control sends. A control that is pressed has its
//! message in the description. A control that takes something from the user
//! (a text, a threshold, a network, a tick) sends a message made of what was
//! taken: the description names the control, and the functions of
//! [`installer::message`] make the message from that name and the user's
//! input. Drawing the description with a widget toolkit is left to the caller,
//! and so is every call into the daemon: of the daemon this library decides
//! how its failures are reported and when the wait for its shutdown ends.
//!
//! - [`installer`]: the installer's messages, its state and its screens.
//! - [`daemon`]: the daemon's failures and its shutdown.
//! - [`network`], [`hw`], [`form`]: what the screens are told of networks,
//!   signing devices and text fields.
//! - [`text`]: numbers as text.

pub mod daemon;
pub mod form;
pub mod hw;
pub mod installer;
pub mod network;
pub mod text;

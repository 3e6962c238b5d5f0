//! What the installer's screens send when the user acts on them.

use crate::network::Network;
use std::path::PathBuf;
use vstd::prelude::*;

verus! {

/// `std::path::PathBuf`, carried through as it is: nothing is known of what a
/// path holds.
#[verifier::external_type_specification]
#[verifier::external_body]
pub struct ExPathBuf(PathBuf);

/// `PathBuf::clone`: the copy of a path is that path.
pub assume_specification[ <PathBuf as Clone>::clone ](path: &PathBuf) -> (copy: PathBuf)
    ensures
        copy == *path,
;

/// An edit of one key of a spending path.
#[derive(Debug, PartialEq, Eq)]
pub enum DefineKey {
    /// Remove the key.
    Delete,
    /// Take the key from pasted text.
    ImportFromClipboard,
    /// Take the key from a signing device.
    ImportFromHardware,
    /// Copy the key.
    Clipboard(String),
}

/// An edit of one spending path.
#[derive(Debug, PartialEq, Eq)]
pub enum DefinePath {
    /// An edit of the key at the given place in the path.
    Key(usize, DefineKey),
}

/// An edit of the wallet descriptor.
#[derive(Debug, PartialEq, Eq)]
pub enum DefineDescriptor {
    /// The descriptor to import was typed.
    ImportDescriptor(String),
    /// Add a key to the primary path (`false`) or to the recovery path
    /// (`true`).
    AddKey(bool),
    /// The threshold of the primary path (`false`) or of the recovery path
    /// (`true`) was set.
    ThresholdEdited(bool, usize),
    /// The number of blocks before recovery was typed.
    SequenceEdited(String),
    /// An extended public key was typed.
    XPubEdited(String),
    /// Accept the typed extended public key.
    ConfirmXpub,
    /// Add one more recovery path.
    AddRecoveryPath,
    /// An edit of the path at the given place: 0 for the primary path, then
    /// the recovery paths in order.
    Path(usize, DefinePath),
}

/// An edit of the connection to the Bitcoin node.
#[derive(Debug, PartialEq, Eq)]
pub enum DefineBitcoind {
    AddressEdited(String),
    CookiePathEdited(String),
}

/// Everything a screen of the installer can send.
#[derive(Debug, PartialEq, Eq)]
pub enum Message {
    CreateWallet,
    ImportWallet,
    /// Another network was picked.
    Network(Network),
    DefineDescriptor(DefineDescriptor),
    DefineBitcoind(DefineBitcoind),
    /// The box that confirms the backup was ticked or cleared.
    BackupDone(bool),
    /// Copy the given text.
    Clibpboard(String),
    Next,
    Previous,
    Install,
    /// Leave the installer and start the wallet with the configuration at the
    /// given path.
    Exit(PathBuf),
    /// Look for signing devices again.
    Reload,
    /// The device at the given place in the list was chosen.
    Select(usize),
}

impl Clone for DefineKey {
    fn clone(&self) -> (copy: Self)
        ensures
            copy == *self,
    {
        match self {
            DefineKey::Delete => DefineKey::Delete,
            DefineKey::ImportFromClipboard => DefineKey::ImportFromClipboard,
            DefineKey::ImportFromHardware => DefineKey::ImportFromHardware,
            DefineKey::Clipboard(key) => DefineKey::Clipboard(key.clone()),
        }
    }
}

impl Clone for DefinePath {
    fn clone(&self) -> (copy: Self)
        ensures
            copy == *self,
    {
        match self {
            DefinePath::Key(key, edit) => DefinePath::Key(*key, edit.clone()),
        }
    }
}

impl Clone for DefineDescriptor {
    fn clone(&self) -> (copy: Self)
        ensures
            copy == *self,
    {
        match self {
            DefineDescriptor::ImportDescriptor(text) => DefineDescriptor::ImportDescriptor(
                text.clone(),
            ),
            DefineDescriptor::AddKey(recovery) => DefineDescriptor::AddKey(*recovery),
            DefineDescriptor::ThresholdEdited(recovery, value) => DefineDescriptor::ThresholdEdited(
                *recovery,
                *value,
            ),
            DefineDescriptor::SequenceEdited(text) => DefineDescriptor::SequenceEdited(
                text.clone(),
            ),
            DefineDescriptor::XPubEdited(text) => DefineDescriptor::XPubEdited(text.clone()),
            DefineDescriptor::ConfirmXpub => DefineDescriptor::ConfirmXpub,
            DefineDescriptor::AddRecoveryPath => DefineDescriptor::AddRecoveryPath,
            DefineDescriptor::Path(path, edit) => DefineDescriptor::Path(*path, edit.clone()),
        }
    }
}

impl Clone for DefineBitcoind {
    fn clone(&self) -> (copy: Self)
        ensures
            copy == *self,
    {
        match self {
            DefineBitcoind::AddressEdited(text) => DefineBitcoind::AddressEdited(text.clone()),
            DefineBitcoind::CookiePathEdited(text) => DefineBitcoind::CookiePathEdited(
                text.clone(),
            ),
        }
    }
}

impl Clone for Message {
    fn clone(&self) -> (copy: Self)
        ensures
            copy == *self,
    {
        match self {
            Message::CreateWallet => Message::CreateWallet,
            Message::ImportWallet => Message::ImportWallet,
            Message::Network(network) => Message::Network(*network),
            Message::DefineDescriptor(edit) => Message::DefineDescriptor(edit.clone()),
            Message::DefineBitcoind(edit) => Message::DefineBitcoind(edit.clone()),
            Message::BackupDone(done) => Message::BackupDone(*done),
            Message::Clibpboard(text) => Message::Clibpboard(text.clone()),
            Message::Next => Message::Next,
            Message::Previous => Message::Previous,
            Message::Install => Message::Install,
            Message::Exit(path) => Message::Exit(path.clone()),
            Message::Reload => Message::Reload,
            Message::Select(place) => Message::Select(*place),
        }
    }
}

/// The message of a key edit, once wrapped for its place: the key's index in
/// its path, and the path's index in the descriptor.
pub open spec fn key_edit(path: usize, key: usize, edit: DefineKey) -> Message {
    Message::DefineDescriptor(DefineDescriptor::Path(path, DefinePath::Key(key, edit)))
}

/// Wraps the edit of a key for its place in the descriptor.
pub fn key_message(path: usize, key: usize, edit: DefineKey) -> (message: Message)
    ensures
        message == key_edit(path, key, edit),
{
    Message::DefineDescriptor(DefineDescriptor::Path(path, DefinePath::Key(key, edit)))
}

/// A text field of the installer that reports what is typed into it.
#[derive(Debug, Clone, Copy, PartialEq, Eq, Structural)]
pub enum TextEdit {
    /// The address of the Bitcoin node.
    Address,
    /// The path of the Bitcoin node's cookie.
    CookiePath,
    /// The number of blocks before recovery.
    Sequence,
    /// The descriptor to import.
    Descriptor,
    /// An extended public key.
    Xpub,
}

/// What a text field sends when `text` is typed into it.
pub open spec fn text_edit(field: TextEdit, text: String) -> Message {
    match field {
        TextEdit::Address => Message::DefineBitcoind(DefineBitcoind::AddressEdited(text)),
        TextEdit::CookiePath => Message::DefineBitcoind(DefineBitcoind::CookiePathEdited(text)),
        TextEdit::Sequence => Message::DefineDescriptor(DefineDescriptor::SequenceEdited(text)),
        TextEdit::Descriptor => Message::DefineDescriptor(
            DefineDescriptor::ImportDescriptor(text),
        ),
        TextEdit::Xpub => Message::DefineDescriptor(DefineDescriptor::XPubEdited(text)),
    }
}

/// What a text field sends when `text` is typed into it.
pub fn text_message(field: TextEdit, text: String) -> (message: Message)
    ensures
        message == text_edit(field, text),
{
    match field {
        TextEdit::Address => Message::DefineBitcoind(DefineBitcoind::AddressEdited(text)),
        TextEdit::CookiePath => Message::DefineBitcoind(DefineBitcoind::CookiePathEdited(text)),
        TextEdit::Sequence => Message::DefineDescriptor(DefineDescriptor::SequenceEdited(text)),
        TextEdit::Descriptor => Message::DefineDescriptor(
            DefineDescriptor::ImportDescriptor(text),
        ),
        TextEdit::Xpub => Message::DefineDescriptor(DefineDescriptor::XPubEdited(text)),
    }
}

/// No two text fields send the same message, and a field sends what was typed
/// into it: from the message one can tell the field and the text.
pub proof fn text_edits_are_told_apart(a: TextEdit, typed: String, b: TextEdit, other: String)
    requires
        text_edit(a, typed) == text_edit(b, other),
    ensures
        a == b,
        typed == other,
{
}

/// What the box that confirms the backup sends when it is ticked (`done`
/// true) or cleared (`done` false).
pub fn backup_message(done: bool) -> (message: Message)
    ensures
        message == Message::BackupDone(done),
{
    Message::BackupDone(done)
}

/// What the threshold control of the primary path (`recovery` false) or of
/// the recovery path (`recovery` true) sends when the threshold `value` is
/// asked for.
pub fn threshold_message(recovery: bool, value: usize) -> (message: Message)
    ensures
        message == Message::DefineDescriptor(DefineDescriptor::ThresholdEdited(recovery, value)),
{
    Message::DefineDescriptor(DefineDescriptor::ThresholdEdited(recovery, value))
}

/// What the network picker sends when `network` is picked.
pub fn network_message(network: Network) -> (message: Message)
    ensures
        message == Message::Network(network),
{
    Message::Network(network)
}

} // verus!

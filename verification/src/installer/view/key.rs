//! The keys of a descriptor on screen: the card of a key that is still to be
//! given, the card of one that is, and the dialog that takes a typed key.

use crate::form::Value;
use crate::installer::message::{DefineDescriptor, DefineKey, Message, TextEdit};
use crate::installer::view::field::{text_field, text_field_of, TextField};
use crate::network::Network;
use vstd::prelude::*;

verus! {

/// The card of a key that is still to be given.
#[derive(Debug, PartialEq, Eq)]
pub struct UndefinedKeyCard {
    /// What the control to remove the key sends.
    pub delete: DefineKey,
    /// What the control to take the key from typed text sends.
    pub from_clipboard: DefineKey,
    /// What the control to take the key from a signing device sends.
    pub from_hardware: DefineKey,
}

/// The card of a key that is still to be given: it can be removed, or given
/// from typed text or from a signing device.
pub fn undefined_descriptor_key() -> (card: UndefinedKeyCard)
    ensures
        card == (UndefinedKeyCard {
            delete: DefineKey::Delete,
            from_clipboard: DefineKey::ImportFromClipboard,
            from_hardware: DefineKey::ImportFromHardware,
        }),
{
    UndefinedKeyCard {
        delete: DefineKey::Delete,
        from_clipboard: DefineKey::ImportFromClipboard,
        from_hardware: DefineKey::ImportFromHardware,
    }
}

/// What is written under the card of a key of another network.
pub const WRONG_NETWORK_ALERT: &'static str = "Key is for a different network";

/// What is written under the card of a key that occurs more than once.
pub const DUPLICATE_ALERT: &'static str = "Key is a duplicate";

/// How a given key stands.
#[derive(Debug, Clone, Copy, PartialEq, Eq, Structural)]
pub enum KeyStatus {
    /// Nothing is wrong with the key.
    Accepted,
    /// The key belongs to another network.
    WrongNetwork,
    /// The key occurs more than once.
    Duplicate,
}

impl KeyStatus {
    /// How a key stands that is `valid` for the network or not, and a
    /// `duplicate` or not. A key of another network is reported as such,
    /// whether or not it is a duplicate too.
    pub open spec fn of(valid: bool, duplicate: bool) -> KeyStatus {
        if !valid {
            KeyStatus::WrongNetwork
        } else if duplicate {
            KeyStatus::Duplicate
        } else {
            KeyStatus::Accepted
        }
    }

    /// What is written under the card of a key that is not accepted.
    pub open spec fn alert_text(self) -> Option<&'static str> {
        match self {
            KeyStatus::Accepted => None,
            KeyStatus::WrongNetwork => Some(WRONG_NETWORK_ALERT),
            KeyStatus::Duplicate => Some(DUPLICATE_ALERT),
        }
    }

    /// What is written under the card of a key that is not accepted.
    pub fn alert(&self) -> (text: Option<&'static str>)
        ensures
            text == self.alert_text(),
    {
        match self {
            KeyStatus::Accepted => None,
            KeyStatus::WrongNetwork => Some(WRONG_NETWORK_ALERT),
            KeyStatus::Duplicate => Some(DUPLICATE_ALERT),
        }
    }
}

/// A key that is not accepted is marked as invalid, and only such a key
/// carries an alert.
pub proof fn alert_marks_rejected_keys(valid: bool, duplicate: bool)
    ensures
        KeyStatus::of(valid, duplicate).alert_text() is Some <==> !valid || duplicate,
{
}

/// The card of a key that has been given.
#[derive(Debug, PartialEq, Eq)]
pub struct DefinedKeyCard {
    /// The key, as text.
    pub key: String,
    /// What the control to remove the key sends.
    pub delete: DefineKey,
    /// What the control to copy the key sends.
    pub copy: DefineKey,
    /// Whether the key is accepted and, if not, why not.
    pub status: KeyStatus,
}

/// The card of the key `key`.
pub fn defined_descriptor_key(key: String, valid: bool, duplicate: bool) -> (card: DefinedKeyCard)
    ensures
        card == (DefinedKeyCard {
            key,
            delete: DefineKey::Delete,
            copy: DefineKey::Clipboard(key),
            status: KeyStatus::of(valid, duplicate),
        }),
{
    DefinedKeyCard {
        key: key.clone(),
        delete: DefineKey::Delete,
        copy: DefineKey::Clipboard(key),
        status: if !valid {
            KeyStatus::WrongNetwork
        } else if duplicate {
            KeyStatus::Duplicate
        } else {
            KeyStatus::Accepted
        },
    }
}

/// What the field for a key says on the main network while its content is
/// not acceptable.
pub const XPUB_WARNING: &'static str = "Please enter correct xpub";

/// What the field for a key says on the test networks while its content is
/// not acceptable.
pub const TPUB_WARNING: &'static str = "Please enter correct tpub";

/// The dialog that takes a typed extended public key.
#[derive(Debug, PartialEq, Eq)]
pub struct ClipboardXpubModal {
    /// The field for the key.
    pub xpub: TextField,
    /// What the field says while its content is not acceptable.
    pub warning: &'static str,
    /// What the control to accept the key sends, if it can be pressed.
    pub apply: Option<Message>,
}

/// The dialog for the field `form_xpub` on the network `network`. The warning
/// names the kind of key that the network takes; the key can be accepted only
/// while the field's content is acceptable.
pub open spec fn clipboard_xpub_modal_of(
    form_xpub: Value<String>,
    network: Network,
) -> ClipboardXpubModal {
    ClipboardXpubModal {
        xpub: text_field_of(form_xpub, TextEdit::Xpub),
        warning: if network == Network::Mainnet {
            XPUB_WARNING
        } else {
            TPUB_WARNING
        },
        apply: if form_xpub.valid {
            Some(Message::DefineDescriptor(DefineDescriptor::ConfirmXpub))
        } else {
            None
        },
    }
}

/// The dialog that takes a typed extended public key.
pub fn clipboard_xpub_modal(form_xpub: &Value<String>, network: Network) -> (modal:
    ClipboardXpubModal)
    ensures
        modal == clipboard_xpub_modal_of(*form_xpub, network),
{
    ClipboardXpubModal {
        xpub: text_field(form_xpub, TextEdit::Xpub),
        warning: match network {
            Network::Mainnet => XPUB_WARNING,
            _ => TPUB_WARNING,
        },
        apply: if form_xpub.valid {
            Some(Message::DefineDescriptor(DefineDescriptor::ConfirmXpub))
        } else {
            None
        },
    }
}

} // verus!

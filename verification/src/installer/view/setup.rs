//! The first and the last steps: the choice between a new and an imported
//! wallet, the connection to the Bitcoin node, and the installation itself.

use crate::form::Value;
use crate::hw::{fingerprint_text, lower_hex};
use crate::installer::context::Context;
use crate::installer::message::{Message, TextEdit};
use crate::installer::view::field::{text_field, text_field_of, TextField};
use crate::installer::view::layout::{layout, Layout};
use crate::text::{joined, owned, to_owned_text};
use std::path::PathBuf;
use vstd::prelude::*;
use vstd::string::StringExecFns;

verus! {

/// The opening screen.
#[derive(Debug, PartialEq, Eq)]
pub struct WelcomeScreen {
    /// What the control to create a wallet sends.
    pub create_wallet: Message,
    /// What the control to import a wallet sends.
    pub import_wallet: Message,
}

/// The opening screen: it offers to create a wallet or to import one.
pub fn welcome() -> (screen: WelcomeScreen)
    ensures
        screen == (WelcomeScreen {
            create_wallet: Message::CreateWallet,
            import_wallet: Message::ImportWallet,
        }),
{
    WelcomeScreen { create_wallet: Message::CreateWallet, import_wallet: Message::ImportWallet }
}

/// The step that sets the connection to the Bitcoin node up.
#[derive(Debug, PartialEq, Eq)]
pub struct DefineBitcoinScreen {
    /// The field for the node's address.
    pub address: TextField,
    /// The field for the path of the node's cookie.
    pub cookie_path: TextField,
    /// What the control to go on sends.
    pub next: Message,
}

/// The step that sets the connection to the Bitcoin node up. One can always
/// go on, whatever the fields hold.
pub fn define_bitcoin(
    progress: (usize, usize),
    address: &Value<String>,
    cookie_path: &Value<String>,
) -> (screen: Layout<DefineBitcoinScreen>)
    ensures
        screen.frames(progress),
        screen.content == (DefineBitcoinScreen {
            address: text_field_of(*address, TextEdit::Address),
            cookie_path: text_field_of(*cookie_path, TextEdit::CookiePath),
            next: Message::Next,
        }),
{
    layout(
        progress,
        DefineBitcoinScreen {
            address: text_field(address, TextEdit::Address),
            cookie_path: text_field(cookie_path, TextEdit::CookiePath),
            next: Message::Next,
        },
    )
}

/// What stands before a fingerprint in the summary.
pub const FINGERPRINT_OPENING: &'static str = "(fingerprint: ";

/// What stands after a fingerprint in the summary.
pub const FINGERPRINT_CLOSING: &'static str = ")";

/// One signing device in the summary before the installation.
#[derive(Debug, PartialEq, Eq)]
pub struct DeviceLine {
    /// The make of the device.
    pub kind: String,
    /// The device's fingerprint, captioned and in brackets.
    pub fingerprint: String,
}

impl DeviceLine {
    /// Whether this is the line of the device of make `hw.0` with the
    /// fingerprint `hw.1`.
    pub open spec fn shows(&self, hw: (String, [u8; 4])) -> bool {
        &&& self.kind == hw.0
        &&& self.fingerprint@ == FINGERPRINT_OPENING@ + lower_hex(hw.1@) + FINGERPRINT_CLOSING@
    }
}

/// The line of one signing device.
pub fn device_line(hw: &(String, [u8; 4])) -> (line: DeviceLine)
    ensures
        line.shows(*hw),
{
    let mut fingerprint = joined(FINGERPRINT_OPENING, fingerprint_text(&hw.1).as_str());
    fingerprint.append(FINGERPRINT_CLOSING);
    DeviceLine { kind: hw.0.clone(), fingerprint }
}

/// How far the installation is, with the control that goes with it.
#[derive(Debug, PartialEq, Eq)]
pub enum InstallStage {
    /// The installation is under way; nothing can be pressed.
    Installing,
    /// The wallet is installed; the control to start it sends this.
    Installed(Message),
    /// Nothing has been installed yet; the control to install sends this.
    Ready(Message),
}

/// How far the installation is. While the installer is at work nothing else
/// counts; after that, a configuration file shows that the wallet is
/// installed.
pub open spec fn install_stage(generating: bool, config_path: Option<&PathBuf>) -> InstallStage {
    if generating {
        InstallStage::Installing
    } else {
        match config_path {
            Some(path) => InstallStage::Installed(Message::Exit(*path)),
            None => InstallStage::Ready(Message::Install),
        }
    }
}

/// The last step: a summary, and the installation.
#[derive(Debug, PartialEq, Eq)]
pub struct InstallScreen {
    /// The descriptor, as text.
    pub descriptor: String,
    /// The signing devices of the wallet, in order.
    pub devices: Vec<DeviceLine>,
    /// Where the Bitcoin node keeps its cookie.
    pub cookie_path: String,
    /// The address of the Bitcoin node.
    pub address: String,
    /// What went wrong, if anything did.
    pub warning: Option<String>,
    /// How far the installation is.
    pub stage: InstallStage,
}

/// The last step: what is about to be installed, and the control that
/// installs it or, once that is done, starts the wallet.
///
/// The connection to the Bitcoin node must have been entered by now.
pub fn install(
    progress: (usize, usize),
    context: &Context,
    descriptor: String,
    generating: bool,
    config_path: Option<&PathBuf>,
    warning: Option<&String>,
) -> (screen: Layout<InstallScreen>)
    requires
        context.bitcoind_config is Some,
    ensures
        screen.frames(progress),
        screen.content.descriptor == descriptor,
        screen.content.devices@.len() == context.hws@.len(),
        forall|i: int|
            0 <= i < context.hws@.len() ==> (#[trigger] screen.content.devices@[i]).shows(
                context.hws@[i],
            ),
        screen.content.cookie_path == context.bitcoind_config->0.cookie_path,
        screen.content.address == context.bitcoind_config->0.addr,
        screen.content.warning == owned(warning),
        screen.content.stage == install_stage(generating, config_path),
{
    let mut devices: Vec<DeviceLine> = Vec::new();
    let mut i: usize = 0;
    while i < context.hws.len()
        invariant
            i <= context.hws@.len(),
            devices@.len() == i,
            forall|j: int|
                0 <= j < i ==> (#[trigger] devices@[j]).shows(context.hws@[j]),
        decreases context.hws@.len() - i,
    {
        devices.push(device_line(&context.hws[i]));
        i += 1;
    }
    let stage = if generating {
        InstallStage::Installing
    } else {
        match config_path {
            Some(path) => InstallStage::Installed(Message::Exit(path.clone())),
            None => InstallStage::Ready(Message::Install),
        }
    };
    let bitcoind = context.bitcoind_config.as_ref().unwrap();
    layout(
        progress,
        InstallScreen {
            descriptor,
            devices,
            cookie_path: bitcoind.cookie_path.clone(),
            address: bitcoind.addr.clone(),
            warning: to_owned_text(warning),
            stage,
        },
    )
}

} // verus!

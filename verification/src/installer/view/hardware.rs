//! Signing devices on screen: the list of those connected, and the dialog
//! that imports a key from one of them.

use crate::hw::{fingerprint_text, lower_hex, HardwareWallet};
use crate::installer::message::Message;
use crate::text::{counted, counted_text, joined, owned, to_owned_text};
use vstd::prelude::*;

verus! {

/// What stands before a fingerprint in a list of devices.
pub const FINGERPRINT_CAPTION: &'static str = "fingerprint: ";

/// What stands after the number of connected devices.
pub const CONNECTED_CAPTION: &'static str = " hardware wallets connected";

/// The title of the dialog that asks for the key of the heir.
pub const RECOVERY_KEY_TITLE: &'static str = "Import the recovery public key:";

/// The title of the dialog that asks for the key of the user.
pub const USER_KEY_TITLE: &'static str = "Import the user public key:";

/// One signing device in a list.
#[derive(Debug, PartialEq, Eq)]
pub struct HardwareWalletRow {
    /// The make of the device.
    pub kind: String,
    /// The device's fingerprint, captioned.
    pub fingerprint: String,
    /// Whether the row says that the device is at work and awaits the user.
    pub processing: bool,
    /// Whether the row is marked as registered.
    pub registered: bool,
    /// What pressing the row sends; nothing while a device is at work.
    pub select: Option<Message>,
}

impl HardwareWalletRow {
    /// Whether this is the row of the device `hw` at place `i`.
    pub open spec fn shows(
        &self,
        i: usize,
        hw: HardwareWallet,
        chosen: bool,
        processing: bool,
        registered: bool,
    ) -> bool {
        &&& self.kind == hw.kind
        &&& self.fingerprint@ == FINGERPRINT_CAPTION@ + lower_hex(hw.fingerprint@)
        &&& self.processing == (chosen && processing)
        &&& self.registered == registered
        &&& self.select == if processing {
            None
        } else {
            Some(Message::Select(i))
        }
    }
}

/// The row of the device `hw` at place `i` of a list. The row of the chosen
/// device says so while that device is at work, and while any device is at
/// work no row can be pressed.
pub fn hw_list_view(
    i: usize,
    hw: &HardwareWallet,
    chosen: bool,
    processing: bool,
    registered: bool,
) -> (row: HardwareWalletRow)
    ensures
        row.shows(i, *hw, chosen, processing, registered),
{
    HardwareWalletRow {
        kind: hw.kind.clone(),
        fingerprint: joined(FINGERPRINT_CAPTION, fingerprint_text(&hw.fingerprint).as_str()),
        processing: chosen && processing,
        registered,
        select: if processing {
            None
        } else {
            Some(Message::Select(i))
        },
    }
}

/// The connected signing devices: how many there are, and a row for each.
#[derive(Debug, PartialEq, Eq)]
pub struct HardwareWalletList {
    /// The number of devices, captioned.
    pub connected: String,
    /// One row for each device, in order.
    pub rows: Vec<HardwareWalletRow>,
}

impl HardwareWalletList {
    /// Whether this is the list of `devices`, each given with a flag that
    /// says whether it is registered, of which the one at `chosen_hw` is
    /// chosen.
    pub open spec fn lists(
        &self,
        devices: Seq<(HardwareWallet, bool)>,
        chosen_hw: Option<usize>,
        processing: bool,
    ) -> bool {
        &&& self.connected@ == counted(devices.len(), CONNECTED_CAPTION@)
        &&& self.rows@.len() == devices.len()
        &&& forall|i: int|
            0 <= i < devices.len() ==> (#[trigger] self.rows@[i]).shows(
                i as usize,
                devices[i].0,
                chosen_hw == Some(i as usize),
                processing,
                devices[i].1,
            )
    }
}

/// Devices of which none is registered.
pub open spec fn unregistered(hws: Seq<HardwareWallet>) -> Seq<(HardwareWallet, bool)> {
    Seq::new(hws.len(), |i: int| (hws[i], false))
}

/// A list shows at most one device at work: the chosen one.
pub proof fn at_most_one_row_processes(
    list: HardwareWalletList,
    devices: Seq<(HardwareWallet, bool)>,
    chosen_hw: Option<usize>,
    processing: bool,
    i: int,
    j: int,
)
    requires
        list.lists(devices, chosen_hw, processing),
        0 <= i < devices.len(),
        0 <= j < devices.len(),
        list.rows@[i].processing,
        list.rows@[j].processing,
    ensures
        i == j,
        chosen_hw == Some(i as usize),
{
    assert(list.rows.len() == devices.len());
    assert(list.rows@[i].shows(
        i as usize,
        devices[i].0,
        chosen_hw == Some(i as usize),
        processing,
        devices[i].1,
    ));
    assert(list.rows@[j].shows(
        j as usize,
        devices[j].0,
        chosen_hw == Some(j as usize),
        processing,
        devices[j].1,
    ));
}

/// While a device is at work no row of a list can be pressed; at any other
/// time each row sends its own place.
pub proof fn rows_send_their_place(
    list: HardwareWalletList,
    devices: Seq<(HardwareWallet, bool)>,
    chosen_hw: Option<usize>,
    processing: bool,
    i: int,
)
    requires
        list.lists(devices, chosen_hw, processing),
        0 <= i < devices.len(),
    ensures
        processing ==> list.rows@[i].select is None,
        !processing ==> list.rows@[i].select == Some(Message::Select(i as usize)),
{
    assert(list.rows@[i].shows(
        i as usize,
        devices[i].0,
        chosen_hw == Some(i as usize),
        processing,
        devices[i].1,
    ));
}

/// Whether the device at place `i` is the chosen one.
pub fn is_chosen(i: usize, chosen_hw: Option<usize>) -> (chosen: bool)
    ensures
        chosen == (chosen_hw == Some(i)),
{
    match chosen_hw {
        Some(place) => place == i,
        None => false,
    }
}

/// The dialog that imports an extended public key from a signing device.
#[derive(Debug, PartialEq, Eq)]
pub struct HardwareWalletXpubsModal {
    /// Which key the dialog asks for.
    pub title: &'static str,
    /// Why the last import failed, if it did.
    pub error: Option<String>,
    /// The connected devices; none where the dialog asks to connect one.
    pub wallets: Option<HardwareWalletList>,
    /// What the control to look for devices again sends.
    pub reload: Message,
}

/// The title of the dialog: it asks for the key of the heir or of the user.
pub open spec fn xpubs_modal_title(is_heir: bool) -> &'static str {
    if is_heir {
        RECOVERY_KEY_TITLE
    } else {
        USER_KEY_TITLE
    }
}

/// The dialog that imports an extended public key from one of the devices
/// `hws`. With no device connected the dialog asks for one; else it lists the
/// devices, none of them marked as registered.
pub fn hardware_wallet_xpubs_modal(
    is_heir: bool,
    hws: &[HardwareWallet],
    error: Option<&String>,
    processing: bool,
    chosen_hw: Option<usize>,
) -> (modal: HardwareWalletXpubsModal)
    ensures
        modal.title == xpubs_modal_title(is_heir),
        modal.error == owned(error),
        modal.reload == Message::Reload,
        modal.wallets is Some <==> hws@.len() > 0,
        modal.wallets matches Some(list) ==> list.lists(unregistered(hws@), chosen_hw, processing),
{
    let wallets = if hws.len() > 0 {
        let mut rows: Vec<HardwareWalletRow> = Vec::new();
        let mut i: usize = 0;
        while i < hws.len()
            invariant
                i <= hws@.len(),
                rows@.len() == i,
                forall|j: int|
                    0 <= j < i ==> (#[trigger] rows@[j]).shows(
                        j as usize,
                        hws@[j],
                        chosen_hw == Some(j as usize),
                        processing,
                        false,
                    ),
            decreases hws@.len() - i,
        {
            rows.push(hw_list_view(i, &hws[i], is_chosen(i, chosen_hw), processing, false));
            i += 1;
        }
        Some(
            HardwareWalletList {
                connected: counted_text(hws.len(), CONNECTED_CAPTION),
                rows,
            },
        )
    } else {
        None
    };
    HardwareWalletXpubsModal {
        title: if is_heir {
            RECOVERY_KEY_TITLE
        } else {
            USER_KEY_TITLE
        },
        error: to_owned_text(error),
        wallets,
        reload: Message::Reload,
    }
}

} // verus!

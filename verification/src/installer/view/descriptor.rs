//! The steps that settle the wallet descriptor: composing it, importing it,
//! registering it on the signing devices and backing it up.

use crate::form::Value;
use crate::hw::HardwareWallet;
use crate::installer::message::{DefineDescriptor, Message};
use crate::installer::view::hardware::{
    hw_list_view, is_chosen, HardwareWalletList, HardwareWalletRow, CONNECTED_CAPTION,
};
use crate::installer::message::TextEdit;
use crate::installer::view::field::{text_field, text_field_of, TextField};
use crate::installer::view::layout::{layout, Layout};
use crate::network::{Network, NETWORKS};
use crate::text::{counted_text, owned, to_owned_text};
use vstd::prelude::*;

verus! {

/// The row that picks the network. Picking a network sends
/// `network_message` of it.
#[derive(Debug, PartialEq, Eq)]
pub struct NetworkRow {
    /// The networks on offer, in order.
    pub options: [Network; 4],
    /// The network that is picked.
    pub selected: Network,
    /// Whether the row warns that a data directory already exists for the
    /// picked network.
    pub warning: bool,
}

/// The row that picks the network, with `network` picked.
pub open spec fn network_row_of(network: Network, network_valid: bool) -> NetworkRow {
    NetworkRow { options: NETWORKS, selected: network, warning: !network_valid }
}

/// The row that picks the network: it offers every network, shows `network`
/// as picked, and warns unless the network is still free.
pub fn network_row(network: Network, network_valid: bool) -> (row: NetworkRow)
    ensures
        row == network_row_of(network, network_valid),
{
    NetworkRow { options: NETWORKS, selected: network, warning: !network_valid }
}

/// The keys of one spending path, with what stands around them.
#[derive(Debug, PartialEq, Eq)]
pub struct PathColumn<K> {
    /// Whether this is the recovery path. The threshold control sends
    /// `threshold_message` of this flag and the threshold asked for.
    pub recovery: bool,
    /// The threshold and the number of keys it is a threshold of; present
    /// where the path holds more than one key.
    pub threshold: Option<(usize, usize)>,
    /// The keys, as they were handed in.
    pub keys: Vec<K>,
    /// What the control to add a key sends.
    pub add_key: Message,
}

/// The column of the primary path (`recovery` false) or of the recovery path
/// (`recovery` true).
pub open spec fn path_column_of<K>(recovery: bool, keys: Vec<K>, threshold: usize) -> PathColumn<
    K,
> {
    PathColumn {
        recovery,
        threshold: if keys@.len() > 1 {
            Some((threshold, keys@.len() as usize))
        } else {
            None
        },
        keys,
        add_key: Message::DefineDescriptor(DefineDescriptor::AddKey(recovery)),
    }
}

/// The column of one spending path. A threshold is offered only where there
/// is something to choose: with two keys or more.
pub fn path_column<K>(recovery: bool, keys: Vec<K>, threshold: usize) -> (column: PathColumn<K>)
    ensures
        column == path_column_of(recovery, keys, threshold),
{
    let count = keys.len();
    PathColumn {
        recovery,
        threshold: if count > 1 {
            Some((threshold, count))
        } else {
            None
        },
        keys,
        add_key: Message::DefineDescriptor(DefineDescriptor::AddKey(recovery)),
    }
}

/// What the control to go on sends: `Next` where going on is allowed, else
/// nothing.
pub open spec fn next_if(allowed: bool) -> Option<Message> {
    if allowed {
        Some(Message::Next)
    } else {
        None
    }
}

/// What the control to go on sends.
pub fn next_when(allowed: bool) -> (next: Option<Message>)
    ensures
        next == next_if(allowed),
{
    if allowed {
        Some(Message::Next)
    } else {
        None
    }
}

/// The step that composes a descriptor from keys.
#[derive(Debug, PartialEq, Eq)]
pub struct DefineDescriptorScreen<K> {
    pub network: NetworkRow,
    /// The keys that can always spend.
    pub primary: PathColumn<K>,
    /// The field for the number of blocks before recovery.
    pub sequence: TextField,
    /// The keys that can spend after that number of blocks.
    pub recovery: PathColumn<K>,
    /// What the control to go on sends, if it can be pressed.
    pub next: Option<Message>,
    /// Why the descriptor could not be made, if it could not.
    pub error: Option<String>,
}

/// The step that composes a descriptor. The keys of both paths are handed in
/// as the caller shows them and come back unchanged, each in its column. One
/// can go on only with a valid descriptor.
pub fn define_descriptor<K>(
    progress: (usize, usize),
    network: Network,
    network_valid: bool,
    spending_keys: Vec<K>,
    recovery_keys: Vec<K>,
    sequence: &Value<String>,
    spending_threshold: usize,
    recovery_threshold: usize,
    valid: bool,
    error: Option<&String>,
) -> (screen: Layout<DefineDescriptorScreen<K>>)
    ensures
        screen.frames(progress),
        screen.content.network == network_row_of(network, network_valid),
        screen.content.primary == path_column_of(false, spending_keys, spending_threshold),
        screen.content.sequence == text_field_of(*sequence, TextEdit::Sequence),
        screen.content.recovery == path_column_of(true, recovery_keys, recovery_threshold),
        screen.content.next == next_if(valid),
        screen.content.error == owned(error),
{
    layout(
        progress,
        DefineDescriptorScreen {
            network: network_row(network, network_valid),
            primary: path_column(false, spending_keys, spending_threshold),
            sequence: text_field(sequence, TextEdit::Sequence),
            recovery: path_column(true, recovery_keys, recovery_threshold),
            next: next_when(valid),
            error: to_owned_text(error),
        },
    )
}

/// The step that imports a descriptor.
#[derive(Debug, PartialEq, Eq)]
pub struct ImportDescriptorScreen {
    pub network: NetworkRow,
    /// The field for the descriptor.
    pub descriptor: TextField,
    /// What the control to go on sends, if it can be pressed.
    pub next: Option<Message>,
    /// Why the descriptor was refused, if it was.
    pub error: Option<String>,
}

/// The step that imports a descriptor. One can go on as soon as anything has
/// been typed.
pub fn import_descriptor(
    progress: (usize, usize),
    network: Network,
    network_valid: bool,
    imported_descriptor: &Value<String>,
    error: Option<&String>,
) -> (screen: Layout<ImportDescriptorScreen>)
    ensures
        screen.frames(progress),
        screen.content.network == network_row_of(network, network_valid),
        screen.content.descriptor == text_field_of(*imported_descriptor, TextEdit::Descriptor),
        screen.content.next == next_if(imported_descriptor.value@.len() > 0),
        screen.content.error == owned(error),
{
    layout(
        progress,
        ImportDescriptorScreen {
            network: network_row(network, network_valid),
            descriptor: text_field(imported_descriptor, TextEdit::Descriptor),
            next: next_when(!imported_descriptor.value.as_str().is_empty()),
            error: to_owned_text(error),
        },
    )
}

/// The devices of a list in which each device comes with the token of its
/// registration and a flag that says whether it is registered, each with its
/// flag alone.
pub open spec fn registrations(hws: Seq<(HardwareWallet, Option<[u8; 32]>, bool)>) -> Seq<
    (HardwareWallet, bool),
> {
    Seq::new(hws.len(), |i: int| (hws[i].0, hws[i].2))
}

/// The step that registers the descriptor on the signing devices.
#[derive(Debug, PartialEq, Eq)]
pub struct RegisterDescriptorScreen {
    /// The descriptor, as text.
    pub descriptor: String,
    /// What the control to copy the descriptor sends.
    pub copy: Message,
    /// Why the registration failed, if it did.
    pub error: Option<String>,
    /// The connected devices.
    pub wallets: HardwareWalletList,
    /// What the control to look for devices again sends.
    pub reload: Message,
    /// What the control to go on sends, if it can be pressed.
    pub next: Option<Message>,
}

/// The step that registers the descriptor on the signing devices. Each device
/// is marked as registered by its flag; while a device is at work one can
/// neither choose another nor go on.
pub fn register_descriptor(
    progress: (usize, usize),
    descriptor: String,
    hws: &[(HardwareWallet, Option<[u8; 32]>, bool)],
    error: Option<&String>,
    processing: bool,
    chosen_hw: Option<usize>,
) -> (screen: Layout<RegisterDescriptorScreen>)
    ensures
        screen.frames(progress),
        screen.content.descriptor == descriptor,
        screen.content.copy == Message::Clibpboard(descriptor),
        screen.content.error == owned(error),
        screen.content.wallets.lists(registrations(hws@), chosen_hw, processing),
        screen.content.reload == Message::Reload,
        screen.content.next == next_if(!processing),
{
    let mut rows: Vec<HardwareWalletRow> = Vec::new();
    let mut i: usize = 0;
    while i < hws.len()
        invariant
            i <= hws@.len(),
            rows@.len() == i,
            forall|j: int|
                0 <= j < i ==> (#[trigger] rows@[j]).shows(
                    j as usize,
                    hws@[j].0,
                    chosen_hw == Some(j as usize),
                    processing,
                    hws@[j].2,
                ),
        decreases hws@.len() - i,
    {
        rows.push(hw_list_view(i, &hws[i].0, is_chosen(i, chosen_hw), processing, hws[i].2));
        i += 1;
    }
    layout(
        progress,
        RegisterDescriptorScreen {
            descriptor: descriptor.clone(),
            copy: Message::Clibpboard(descriptor),
            error: to_owned_text(error),
            wallets: HardwareWalletList {
                connected: counted_text(hws.len(), CONNECTED_CAPTION),
                rows,
            },
            reload: Message::Reload,
            next: next_when(!processing),
        },
    )
}

/// The step that asks whether the descriptor has been backed up.
#[derive(Debug, PartialEq, Eq)]
pub struct BackupDescriptorScreen {
    /// The descriptor, as text.
    pub descriptor: String,
    /// What the control to copy the descriptor sends.
    pub copy: Message,
    /// Whether the box that confirms the backup is ticked. Ticking or
    /// clearing it sends `backup_message` of its new state.
    pub done: bool,
    /// What the control to go on sends, if it can be pressed.
    pub next: Option<Message>,
}

/// The step that asks whether the descriptor has been backed up. One can go
/// on only once the box is ticked.
pub fn backup_descriptor(progress: (usize, usize), descriptor: String, done: bool) -> (screen:
    Layout<BackupDescriptorScreen>)
    ensures
        screen.frames(progress),
        screen.content.descriptor == descriptor,
        screen.content.copy == Message::Clibpboard(descriptor),
        screen.content.done == done,
        screen.content.next == next_if(done),
{
    layout(
        progress,
        BackupDescriptorScreen {
            descriptor: descriptor.clone(),
            copy: Message::Clibpboard(descriptor),
            done,
            next: next_when(done),
        },
    )
}

} // verus!

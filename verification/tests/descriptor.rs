use liana_gui::form::Value;
use liana_gui::hw::HardwareWallet;
use liana_gui::installer::message::{
    backup_message, network_message, text_message, threshold_message, DefineDescriptor, Message,
    TextEdit,
};
use liana_gui::installer::view::descriptor::{network_row, next_when, path_column};
use liana_gui::installer::view::{
    backup_descriptor, define_descriptor, import_descriptor, layout, register_descriptor,
    HardwareWalletRow, NetworkRow, PathColumn, TextField,
};
use liana_gui::network::{Network, NETWORKS};

fn field(value: &str, valid: bool) -> Value<String> {
    Value { value: String::from(value), valid }
}

fn device(kind: &str, fingerprint: [u8; 4]) -> HardwareWallet {
    HardwareWallet { kind: String::from(kind), fingerprint }
}

#[test]
fn layout_frames_any_content() {
    let framed = layout((2, 6), "content");
    assert_eq!(framed.previous, Message::Previous);
    assert_eq!(framed.progress, "2/6");
    assert_eq!(framed.content, "content");
}

#[test]
fn layout_counts_past_nine() {
    assert_eq!(layout((10, 12), ()).progress, "10/12");
    assert_eq!(layout((0, 0), ()).progress, "0/0");
}

#[test]
fn network_row_offers_all_networks() {
    assert_eq!(
        network_row(Network::Signet, true),
        NetworkRow { options: NETWORKS, selected: Network::Signet, warning: false }
    );
}

#[test]
fn network_row_warns_when_the_network_is_taken() {
    let row = network_row(Network::Mainnet, false);
    assert!(row.warning);
    assert_eq!(row.selected, Network::Mainnet);
}

#[test]
fn path_column_without_keys_has_no_threshold() {
    let column = path_column::<u8>(false, vec![], 1);
    assert_eq!(
        column,
        PathColumn {
            recovery: false,
            threshold: None,
            keys: vec![],
            add_key: Message::DefineDescriptor(DefineDescriptor::AddKey(false)),
        }
    );
}

#[test]
fn path_column_with_one_key_has_no_threshold() {
    let column = path_column(true, vec!["a"], 1);
    assert!(column.recovery);
    assert_eq!(column.threshold, None);
    assert_eq!(column.keys, vec!["a"]);
    assert_eq!(column.add_key, Message::DefineDescriptor(DefineDescriptor::AddKey(true)));
}

#[test]
fn path_column_with_two_keys_has_a_threshold() {
    let column = path_column(false, vec!["a", "b"], 1);
    assert_eq!(column.threshold, Some((1, 2)));
    assert_eq!(column.keys, vec!["a", "b"]);
}

#[test]
fn path_column_keeps_the_threshold_it_is_given() {
    assert_eq!(path_column(false, vec![1, 2, 3], 7).threshold, Some((7, 3)));
    assert_eq!(path_column(false, vec![1, 2, 3], 0).threshold, Some((0, 3)));
}

#[test]
fn next_when_allowed() {
    assert_eq!(next_when(true), Some(Message::Next));
    assert_eq!(next_when(false), None);
}

#[test]
fn define_descriptor_of_a_valid_descriptor() {
    let sequence = field("1000", true);
    let screen = define_descriptor(
        (1, 6),
        Network::Testnet,
        true,
        vec!["alice", "bob"],
        vec!["carol"],
        &sequence,
        2,
        1,
        true,
        None,
    );
    assert_eq!(screen.previous, Message::Previous);
    assert_eq!(screen.progress, "1/6");
    let content = screen.content;
    assert_eq!(content.network, network_row(Network::Testnet, true));
    assert_eq!(content.primary, path_column(false, vec!["alice", "bob"], 2));
    assert_eq!(content.primary.threshold, Some((2, 2)));
    assert_eq!(
        content.sequence,
        TextField { content: field("1000", true), edit: TextEdit::Sequence }
    );
    assert!(!content.primary.recovery);
    assert!(content.recovery.recovery);
    assert_eq!(content.recovery, path_column(true, vec!["carol"], 1));
    assert_eq!(content.recovery.threshold, None);
    assert_eq!(content.next, Some(Message::Next));
    assert_eq!(content.error, None);
}

#[test]
fn define_descriptor_of_an_invalid_descriptor() {
    let sequence = field("", false);
    let error = String::from("threshold too high");
    let screen = define_descriptor::<&str>(
        (1, 6),
        Network::Mainnet,
        false,
        vec![],
        vec!["x", "y", "z"],
        &sequence,
        0,
        3,
        false,
        Some(&error),
    );
    let content = screen.content;
    assert!(content.network.warning);
    assert_eq!(content.primary.threshold, None);
    assert_eq!(content.recovery.threshold, Some((3, 3)));
    assert_eq!(
        content.sequence,
        TextField { content: field("", false), edit: TextEdit::Sequence }
    );
    assert_eq!(content.next, None);
    assert_eq!(content.error, Some(String::from("threshold too high")));
}

#[test]
fn import_descriptor_with_nothing_typed() {
    let typed = field("", true);
    let screen = import_descriptor((1, 5), Network::Regtest, true, &typed, None);
    assert_eq!(screen.progress, "1/5");
    assert_eq!(screen.content.network, network_row(Network::Regtest, true));
    assert_eq!(
        screen.content.descriptor,
        TextField { content: field("", true), edit: TextEdit::Descriptor }
    );
    assert_eq!(screen.content.next, None);
    assert_eq!(screen.content.error, None);
}

#[test]
fn import_descriptor_with_something_typed() {
    let typed = field("wsh(...)", false);
    let error = String::from("checksum");
    let screen = import_descriptor((1, 5), Network::Mainnet, false, &typed, Some(&error));
    assert!(screen.content.network.warning);
    assert_eq!(
        screen.content.descriptor,
        TextField { content: field("wsh(...)", false), edit: TextEdit::Descriptor }
    );
    assert_eq!(screen.content.next, Some(Message::Next));
    assert_eq!(screen.content.error, Some(String::from("checksum")));
}

#[test]
fn import_descriptor_goes_on_after_one_character() {
    let typed = field(" ", true);
    let screen = import_descriptor((1, 5), Network::Mainnet, true, &typed, None);
    assert_eq!(screen.content.next, Some(Message::Next));
}

#[test]
fn register_descriptor_lists_the_devices() {
    let hws = [
        (device("ledger", [0xaa, 0xbb, 0xcc, 0xdd]), None, false),
        (device("specter", [0x00, 0x11, 0x22, 0x33]), Some([7u8; 32]), true),
    ];
    let screen = register_descriptor((3, 6), String::from("wsh(x)"), &hws, None, false, Some(1));
    assert_eq!(screen.progress, "3/6");
    let content = screen.content;
    assert_eq!(content.descriptor, "wsh(x)");
    assert_eq!(content.copy, Message::Clibpboard(String::from("wsh(x)")));
    assert_eq!(content.error, None);
    assert_eq!(content.wallets.connected, "2 hardware wallets connected");
    assert_eq!(
        content.wallets.rows,
        vec![
            HardwareWalletRow {
                kind: String::from("ledger"),
                fingerprint: String::from("fingerprint: aabbccdd"),
                processing: false,
                registered: false,
                select: Some(Message::Select(0)),
            },
            HardwareWalletRow {
                kind: String::from("specter"),
                fingerprint: String::from("fingerprint: 00112233"),
                processing: false,
                registered: true,
                select: Some(Message::Select(1)),
            },
        ]
    );
    assert_eq!(content.reload, Message::Reload);
    assert_eq!(content.next, Some(Message::Next));
}

#[test]
fn register_descriptor_while_a_device_is_at_work() {
    let hws = [
        (device("ledger", [0xaa, 0xbb, 0xcc, 0xdd]), None, true),
        (device("specter", [0x00, 0x11, 0x22, 0x33]), None, false),
        (device("coldcard", [0xde, 0xad, 0xbe, 0xef]), None, false),
    ];
    let error = String::from("device refused");
    let screen =
        register_descriptor((3, 6), String::from("d"), &hws, Some(&error), true, Some(2));
    let content = screen.content;
    assert_eq!(content.error, Some(String::from("device refused")));
    assert_eq!(content.wallets.connected, "3 hardware wallets connected");
    assert_eq!(content.wallets.rows.len(), 3);
    assert!(!content.wallets.rows[0].processing);
    assert!(!content.wallets.rows[1].processing);
    assert!(content.wallets.rows[2].processing);
    assert!(content.wallets.rows[0].registered);
    assert!(!content.wallets.rows[2].registered);
    for row in &content.wallets.rows {
        assert_eq!(row.select, None);
    }
    assert_eq!(content.next, None);
}

#[test]
fn register_descriptor_without_devices() {
    let screen = register_descriptor((3, 6), String::from("d"), &[], None, false, None);
    assert_eq!(screen.content.wallets.connected, "0 hardware wallets connected");
    assert!(screen.content.wallets.rows.is_empty());
    assert_eq!(screen.content.next, Some(Message::Next));
}

#[test]
fn register_descriptor_with_a_choice_past_the_list() {
    let hws = [(device("ledger", [0xaa, 0xbb, 0xcc, 0xdd]), None, false)];
    let screen = register_descriptor((3, 6), String::from("d"), &hws, None, true, Some(4));
    assert!(!screen.content.wallets.rows[0].processing);
    assert_eq!(screen.content.wallets.rows[0].select, None);
}

#[test]
fn backup_descriptor_before_the_box_is_ticked() {
    let screen = backup_descriptor((4, 6), String::from("wsh(y)"), false);
    assert_eq!(screen.progress, "4/6");
    assert_eq!(screen.content.descriptor, "wsh(y)");
    assert_eq!(screen.content.copy, Message::Clibpboard(String::from("wsh(y)")));
    assert!(!screen.content.done);
    assert_eq!(screen.content.next, None);
}

#[test]
fn backup_descriptor_after_the_box_is_ticked() {
    let screen = backup_descriptor((4, 6), String::from("wsh(y)"), true);
    assert!(screen.content.done);
    assert_eq!(screen.content.next, Some(Message::Next));
}

#[test]
fn the_threshold_control_of_each_column_sends_under_the_flag_of_its_path() {
    let sequence = field("1000", true);
    let content = define_descriptor(
        (1, 6),
        Network::Testnet,
        true,
        vec!["alice", "bob"],
        vec!["carol", "dave", "erin"],
        &sequence,
        2,
        1,
        true,
        None,
    )
    .content;
    assert_eq!(
        threshold_message(content.primary.recovery, 1),
        Message::DefineDescriptor(DefineDescriptor::ThresholdEdited(false, 1))
    );
    assert_eq!(
        threshold_message(content.recovery.recovery, 3),
        Message::DefineDescriptor(DefineDescriptor::ThresholdEdited(true, 3))
    );
}

#[test]
fn the_sequence_field_sends_what_is_typed() {
    let sequence = field("1000", true);
    let content = define_descriptor::<u8>(
        (1, 6),
        Network::Testnet,
        true,
        vec![],
        vec![],
        &sequence,
        0,
        0,
        false,
        None,
    )
    .content;
    assert_eq!(
        text_message(content.sequence.edit, String::from("1001")),
        Message::DefineDescriptor(DefineDescriptor::SequenceEdited(String::from("1001")))
    );
}

#[test]
fn the_descriptor_field_sends_what_is_typed() {
    let typed = field("", true);
    let content = import_descriptor((1, 5), Network::Regtest, true, &typed, None).content;
    assert_eq!(
        text_message(content.descriptor.edit, String::from("wsh(")),
        Message::DefineDescriptor(DefineDescriptor::ImportDescriptor(String::from("wsh(")))
    );
}

#[test]
fn the_backup_box_sends_its_new_state() {
    assert_eq!(backup_message(true), Message::BackupDone(true));
    assert_eq!(backup_message(false), Message::BackupDone(false));
}

#[test]
fn the_network_picker_sends_the_picked_network() {
    for network in NETWORKS {
        assert_eq!(network_message(network), Message::Network(network));
    }
}

#[test]
fn threshold_message_keeps_flag_and_value() {
    assert_eq!(
        threshold_message(false, 0),
        Message::DefineDescriptor(DefineDescriptor::ThresholdEdited(false, 0))
    );
    assert_eq!(
        threshold_message(true, usize::MAX),
        Message::DefineDescriptor(DefineDescriptor::ThresholdEdited(true, usize::MAX))
    );
}

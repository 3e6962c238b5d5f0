//! The installer's screens.

pub mod descriptor;
pub mod field;
pub mod hardware;
pub mod key;
pub mod layout;
pub mod setup;
pub mod template;
pub mod threshsold_input;

pub use descriptor::{
    backup_descriptor, define_descriptor, import_descriptor, register_descriptor,
    BackupDescriptorScreen, DefineDescriptorScreen, ImportDescriptorScreen, NetworkRow,
    PathColumn, RegisterDescriptorScreen,
};
pub use field::{text_field, TextField};
pub use hardware::{
    hardware_wallet_xpubs_modal, hw_list_view, HardwareWalletList, HardwareWalletRow,
    HardwareWalletXpubsModal,
};
pub use key::{
    clipboard_xpub_modal, defined_descriptor_key, undefined_descriptor_key, ClipboardXpubModal,
    DefinedKeyCard, KeyStatus, UndefinedKeyCard,
};
pub use layout::{layout, Layout};
pub use setup::{
    define_bitcoin, install, welcome, DefineBitcoinScreen, DeviceLine, InstallScreen,
    InstallStage, WelcomeScreen,
};

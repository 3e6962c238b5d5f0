use liana_gui::network::{Network, NETWORKS};

#[test]
fn network_labels() {
    assert_eq!(Network::Mainnet.label(), "Bitcoin mainnet");
    assert_eq!(Network::Testnet.label(), "Bitcoin testnet");
    assert_eq!(Network::Regtest.label(), "Bitcoin regtest");
    assert_eq!(Network::Signet.label(), "Bitcoin signet");
}

#[test]
fn networks_come_in_the_picker_order() {
    assert_eq!(
        NETWORKS,
        [Network::Mainnet, Network::Testnet, Network::Signet, Network::Regtest]
    );
}

#[test]
fn networks_are_offered_once_each() {
    for wanted in [Network::Mainnet, Network::Testnet, Network::Regtest, Network::Signet] {
        let mut found = 0;
        for offered in NETWORKS {
            if offered == wanted {
                found += 1;
            }
        }
        assert_eq!(found, 1);
    }
}

#[test]
fn network_labels_differ() {
    for a in NETWORKS {
        for b in NETWORKS {
            assert_eq!(a.label() == b.label(), a == b);
        }
    }
}

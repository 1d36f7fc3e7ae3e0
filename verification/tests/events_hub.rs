use getraenkekassengeraete::access::{IpAddress, is_local_client};
use getraenkekassengeraete::events::{
    CardDetail, DomainEvent, NfcKind, SourceItem, mux_event, nfc_to_event, to_hex, to_message,
};
use getraenkekassengeraete::hub::Hub;

fn assert_nfc(ev: &DomainEvent, want_kind: NfcKind, want_id: &str) {
    match ev {
        DomainEvent::Nfc { kind, id } => {
            assert!(*kind == want_kind);
            assert_eq!(id, want_id);
        },
        _ => panic!("expected an nfc event"),
    }
}

#[test]
fn hex_encoding() {
    assert_eq!(to_hex(&[]), "");
    assert_eq!(to_hex(&[0x00]), "00");
    assert_eq!(to_hex(&[0xde, 0xad, 0x01, 0xff]), "dead01ff");
}

#[test]
fn nfc_mapping() {
    assert_nfc(&nfc_to_event(None), NfcKind::Invalid, "");
    assert_nfc(
        &nfc_to_event(Some(CardDetail::MeteUuid("123e4567".to_string()))),
        NfcKind::Uuid,
        "123e4567",
    );
    assert_nfc(
        &nfc_to_event(Some(CardDetail::Plain(vec![0x04, 0xa2, 0xff]))),
        NfcKind::Plain,
        "04a2ff",
    );
}

#[test]
fn mux_mapping() {
    match mux_event(SourceItem::Barcode("4029764001807".to_string())) {
        DomainEvent::Barcode { digits } => assert_eq!(digits, "4029764001807"),
        _ => panic!("expected a barcode event"),
    }
    assert!(matches!(mux_event(SourceItem::Storno), DomainEvent::Storno));
    assert_nfc(&mux_event(SourceItem::Nfc(None)), NfcKind::Invalid, "");
}

#[test]
fn message_shapes() {
    let (t, id) = to_message(&DomainEvent::Nfc {
        kind: NfcKind::Uuid,
        id: "u-1".to_string(),
    });
    assert_eq!((t.as_str(), id.as_str()), ("nfc-uuid", "u-1"));
    let (t, id) = to_message(&DomainEvent::Nfc {
        kind: NfcKind::Plain,
        id: "0a".to_string(),
    });
    assert_eq!((t.as_str(), id.as_str()), ("nfc-plain", "0a"));
    let (t, id) = to_message(&DomainEvent::Nfc {
        kind: NfcKind::Invalid,
        id: String::new(),
    });
    assert_eq!((t.as_str(), id.as_str()), ("nfc-invalid", ""));
    let (t, id) = to_message(&DomainEvent::Nfc {
        kind: NfcKind::Missing,
        id: String::new(),
    });
    assert_eq!((t.as_str(), id.as_str()), ("nfc-missing", ""));
    let (t, id) = to_message(&DomainEvent::Barcode { digits: "123".to_string() });
    assert_eq!((t.as_str(), id.as_str()), ("barcode", "123"));
    let (t, id) = to_message(&DomainEvent::Storno);
    assert_eq!((t.as_str(), id.as_str()), ("storno", ""));
}

#[test]
fn subscriber_ids_count_up_from_one() {
    let mut hub = Hub::new();
    let (id1, _rx1) = hub.subscribe();
    let (id2, _rx2) = hub.subscribe();
    let (id3, _rx3) = hub.subscribe();
    assert_eq!((id1, id2, id3), (1, 2, 3));
    assert_eq!(hub.client_count(), 3);
}

#[test]
fn broadcast_fan_out() {
    let mut hub = Hub::new();
    let (_id1, mut rx1) = hub.subscribe();
    let (id2, rx2) = hub.subscribe();
    let (_id3, mut rx3) = hub.subscribe();
    // one subscriber's receiving end is gone before the publish
    drop(rx2);

    hub.publish(&DomainEvent::Barcode { digits: "99".to_string() });

    // every live subscriber received exactly one copy
    for rx in [&mut rx1, &mut rx3] {
        match rx.try_recv() {
            Ok(DomainEvent::Barcode { digits }) => assert_eq!(digits, "99"),
            _ => panic!("expected one barcode event"),
        }
        assert!(rx.try_recv().is_err());
    }

    // the dead subscriber was pruned in the same publish pass
    assert_eq!(hub.client_count(), 2);
    let ids: Vec<u64> = hub.clients.iter().map(|c| c.0).collect();
    assert!(!ids.contains(&id2));
    assert_eq!(ids, vec![1, 3]);
}

#[test]
fn publish_to_empty_registry() {
    let mut hub = Hub::new();
    hub.publish(&DomainEvent::Storno);
    assert_eq!(hub.client_count(), 0);
}

#[test]
fn mux_three_sources() {
    // three independently-paced mock sources, each delivering one item
    let (nfc_tx, mut nfc_rx) = tokio::sync::mpsc::unbounded_channel::<SourceItem>();
    let (bar_tx, mut bar_rx) = tokio::sync::mpsc::unbounded_channel::<SourceItem>();
    let (sto_tx, mut sto_rx) = tokio::sync::mpsc::unbounded_channel::<SourceItem>();
    nfc_tx
        .send(SourceItem::Nfc(Some(CardDetail::MeteUuid("u-7".to_string()))))
        .unwrap();
    bar_tx.send(SourceItem::Barcode("777".to_string())).unwrap();
    sto_tx.send(SourceItem::Storno).unwrap();

    // first-ready-wins: keep draining whichever source has an item
    let mut merged: Vec<DomainEvent> = Vec::new();
    for _round in 0..10 {
        if let Ok(item) = nfc_rx.try_recv() {
            merged.push(mux_event(item));
        }
        if let Ok(item) = bar_rx.try_recv() {
            merged.push(mux_event(item));
        }
        if let Ok(item) = sto_rx.try_recv() {
            merged.push(mux_event(item));
        }
    }

    // all three events appear, each matching its source's payload
    assert_eq!(merged.len(), 3);
    assert!(merged.iter().any(|ev| matches!(
        ev,
        DomainEvent::Nfc { kind: NfcKind::Uuid, id } if id == "u-7"
    )));
    assert!(
        merged
            .iter()
            .any(|ev| matches!(ev, DomainEvent::Barcode { digits } if digits == "777"))
    );
    assert!(merged.iter().any(|ev| matches!(ev, DomainEvent::Storno)));
}

#[test]
fn local_client_check() {
    assert!(is_local_client(&IpAddress::V4([127, 0, 0, 1])));
    assert!(is_local_client(&IpAddress::V4([127, 5, 5, 5])));
    assert!(!is_local_client(&IpAddress::V4([192, 168, 1, 10])));
    // ::1
    assert!(is_local_client(&IpAddress::V6([0, 0, 0, 0, 0, 0, 0, 1])));
    // ::ffff:127.0.0.1
    assert!(is_local_client(&IpAddress::V6([0, 0, 0, 0, 0, 0xffff, 0x7f00, 0x0001])));
    // ::ffff:8.8.8.8
    assert!(!is_local_client(&IpAddress::V6([0, 0, 0, 0, 0, 0xffff, 0x0808, 0x0808])));
    // fe80::1
    assert!(!is_local_client(&IpAddress::V6([0xfe80, 0, 0, 0, 0, 0, 0, 1])));
}

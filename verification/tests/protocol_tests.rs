use airo_wingman::protocol::{
    event_kind, hash_upload, listen, map_event, process_block, ChainEvent, Delivery, Error,
    EventFields, EventKind, RawEvent,
};
use airo_wingman::types::{AccountId, ContentId, Failure};

fn raw(pallet: &str, name: &str, fields: Option<EventFields>) -> RawEvent {
    RawEvent { pallet: pallet.to_string(), name: name.to_string(), fields }
}

#[test]
fn event_kinds_are_told_apart_by_pallet_and_name() {
    assert_eq!(event_kind("airo_market", "OrderCreated"), EventKind::OrderCreated);
    assert_eq!(event_kind("airo_market", "BidAccepted"), EventKind::BidAccepted);
    assert_eq!(event_kind("airo_execution", "RequestCreated"), EventKind::RequestCreated);
    assert_eq!(event_kind("airo_execution", "OrderCreated"), EventKind::Other);
    assert_eq!(event_kind("balances", "Transfer"), EventKind::Other);
}

#[test]
fn order_created_carries_the_model_id_as_text() {
    let me = AccountId([1u8; 32]);
    let event = raw(
        "airo_market",
        "OrderCreated",
        Some(EventFields::OrderCreated { order_id: 7, model_id: b"resnet".to_vec() }),
    );
    match map_event(&event, &me) {
        Some(ChainEvent::OrderCreated { order_id, model_id }) => {
            assert_eq!(order_id, 7);
            assert_eq!(model_id, "resnet");
        },
        other => panic!("unexpected {:?}", other),
    }
}

#[test]
fn ill_formed_model_id_bytes_are_replaced() {
    let me = AccountId([1u8; 32]);
    let event = raw(
        "airo_market",
        "OrderCreated",
        Some(EventFields::OrderCreated { order_id: 1, model_id: vec![b'a', 0xff, b'b'] }),
    );
    match map_event(&event, &me) {
        Some(ChainEvent::OrderCreated { model_id, .. }) => assert_eq!(model_id, "a\u{fffd}b"),
        other => panic!("unexpected {:?}", other),
    }
}

#[test]
fn foreign_provider_bid_is_not_published() {
    let me = AccountId([2u8; 32]);
    let other = AccountId([3u8; 32]);
    let entries = vec![Ok(raw(
        "airo_market",
        "BidAccepted",
        Some(EventFields::BidAccepted { order_id: 7, provider: other }),
    ))];
    let (publish, read) = process_block(entries, &me);
    assert!(publish.is_empty());
    assert!(read.is_ok());
}

#[test]
fn own_bid_is_published() {
    let me = AccountId([2u8; 32]);
    let entries = vec![Ok(raw(
        "airo_market",
        "BidAccepted",
        Some(EventFields::BidAccepted { order_id: 7, provider: me }),
    ))];
    let (publish, read) = process_block(entries, &me);
    assert!(read.is_ok());
    assert_eq!(publish.len(), 1);
    assert!(matches!(publish[0], ChainEvent::BidAccepted { order_id: 7 }));
}

#[test]
fn block_reading_stops_at_the_first_unreadable_entry() {
    let me = AccountId([2u8; 32]);
    let cid = ContentId([9u8; 32]);
    let entries = vec![
        Ok(raw("system", "ExtrinsicSuccess", None)),
        Ok(raw(
            "airo_execution",
            "RequestCreated",
            Some(EventFields::RequestCreated { agreement_id: 7, request_index: 0, content_id: cid }),
        )),
        Err(Failure::Outside("bad event".to_string())),
        Ok(raw(
            "airo_market",
            "OrderCreated",
            Some(EventFields::OrderCreated { order_id: 8, model_id: b"m".to_vec() }),
        )),
    ];
    let (publish, read) = process_block(entries, &me);
    assert_eq!(publish.len(), 1);
    match &publish[0] {
        ChainEvent::RequestCreated { agreement_id, request_index, content_id } => {
            assert_eq!(*agreement_id, 7);
            assert_eq!(*request_index, 0);
            assert_eq!(content_id.0, [9u8; 32]);
        },
        other => panic!("unexpected {:?}", other),
    }
    match read {
        Err(Failure::Outside(message)) => assert_eq!(message, "bad event"),
        other => panic!("unexpected {:?}", other),
    }
}

#[test]
fn content_id_is_the_blake2b_256_digest() {
    let upload = hash_upload(b"abc".to_vec());
    let expected: [u8; 32] = [
        0xbd, 0xdd, 0x81, 0x3c, 0x63, 0x42, 0x39, 0x72, 0x31, 0x71, 0xef, 0x3f, 0xee, 0x98, 0x57,
        0x9b, 0x94, 0x96, 0x4e, 0x3b, 0xb1, 0xcb, 0x3e, 0x42, 0x72, 0x62, 0xc8, 0xc0, 0x68, 0xd5,
        0x23, 0x19,
    ];
    assert_eq!(upload.content_id.0, expected);
    assert_eq!(upload.data, b"abc".to_vec());
}

#[test]
fn hash_upload_is_idempotent() {
    let first = hash_upload(vec![1, 2, 3]);
    let second = hash_upload(vec![1, 2, 3]);
    assert_eq!(first.content_id.0, second.content_id.0);
    let third = hash_upload(vec![1, 2, 4]);
    assert_ne!(first.content_id.0, third.content_id.0);
}

#[test]
fn listener_turns() {
    let me = AccountId([2u8; 32]);

    let heard = listen(Delivery::Cancelled, &me);
    assert!(heard.publish.is_empty());
    assert!(matches!(heard.verdict, Some(Ok(()))));

    let heard = listen(Delivery::Ended, &me);
    assert!(heard.publish.is_empty());
    assert!(matches!(heard.verdict, Some(Err(Failure::Protocol(Error::NextBlock)))));

    let heard = listen(Delivery::Block(Err(Failure::Outside("rpc".to_string()))), &me);
    assert!(heard.publish.is_empty());
    assert!(matches!(heard.verdict, Some(Err(Failure::Outside(ref words))) if words == "rpc"));

    let block = vec![
        Ok(raw(
            "airo_market",
            "OrderCreated",
            Some(EventFields::OrderCreated { order_id: 1, model_id: b"m".to_vec() }),
        )),
        Ok(raw(
            "airo_market",
            "BidAccepted",
            Some(EventFields::BidAccepted { order_id: 1, provider: me }),
        )),
    ];
    let heard = listen(Delivery::Block(Ok(block)), &me);
    assert!(heard.verdict.is_none());
    assert_eq!(heard.publish.len(), 2);
    assert!(matches!(heard.publish[0], ChainEvent::OrderCreated { order_id: 1, .. }));
    assert!(matches!(heard.publish[1], ChainEvent::BidAccepted { order_id: 1 }));

    let heard = listen(Delivery::Block(Ok(Vec::new())), &me);
    assert!(heard.verdict.is_none());
    assert!(heard.publish.is_empty());
}

#[test]
fn event_whose_fields_are_not_of_its_kind_is_passed_over() {
    let me = AccountId([2u8; 32]);
    let mismatch = raw(
        "airo_market",
        "OrderCreated",
        Some(EventFields::BidAccepted { order_id: 1, provider: me }),
    );
    assert!(map_event(&mismatch, &me).is_none());
    assert!(map_event(&raw("airo_market", "OrderCreated", None), &me).is_none());
    let elsewhere = raw(
        "other_pallet",
        "OrderCreated",
        Some(EventFields::OrderCreated { order_id: 1, model_id: b"m".to_vec() }),
    );
    assert!(map_event(&elsewhere, &me).is_none());
}

#[test]
fn model_id_is_the_text_that_the_bytes_stand_for() {
    use_model_id_of(b"resnet", "resnet");
    use_model_id_of(&[b'a', 0xff, b'b'], "a\u{fffd}b");
    use_model_id_of(b"", "");
}

fn use_model_id_of(bytes: &[u8], expected: &str) {
    assert_eq!(airo_wingman::protocol::model_id_of(&bytes.to_vec()), expected);
}

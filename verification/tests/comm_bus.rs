use msfs::comm_bus::{call, commbus_trampoline, BroadcastFlags, SubscribeError, Subscription};
use msfs::registry::CallbackRegistry;

struct Recorder {
    count: u32,
    last: Vec<u8>,
}

#[test]
fn subscribe_deliver_unregister() {
    let mut registry: CallbackRegistry<Recorder> = CallbackRegistry::new();
    let pending = Subscription::subscribe(&mut registry, "demo/toggle", Recorder { count: 0, last: Vec::new() })
        .unwrap();
    let token = pending.user_token();
    assert_ne!(token, 0);
    assert_eq!(pending.event_name().as_bytes(), b"demo/toggle");
    let sub = pending.complete(&mut registry, true).unwrap();
    assert_eq!(sub.user_token(), token);

    let mem = [1u8];
    {
        let (cell, bytes) = commbus_trampoline(&mut registry, 0x1000, 1, token, &mem);
        let cell = cell.unwrap();
        cell.count += 1;
        cell.last = bytes.to_vec();
    }
    assert_eq!(registry.get(token).unwrap().count, 1);
    assert_eq!(registry.get(token).unwrap().last, vec![1u8]);

    let withdrawn = sub.unsubscribe();
    assert_eq!(withdrawn.event_name().as_bytes(), b"demo/toggle");
    assert_eq!(withdrawn.user_token(), token);
    assert!(registry.contains(token));
    let cell = withdrawn.release(&mut registry).unwrap();
    assert_eq!(cell.count, 1);
    assert_eq!(cell.last, vec![1u8]);
    assert!(!registry.contains(token));
    assert!(registry.is_empty());
    let (cell, _) = commbus_trampoline(&mut registry, 0x1000, 1, token, &mem);
    assert!(cell.is_none());
}

#[test]
fn deliveries_see_the_state_of_earlier_ones() {
    let mut registry: CallbackRegistry<Vec<u8>> = CallbackRegistry::new();
    let pending = Subscription::subscribe(&mut registry, "sum", Vec::new()).unwrap();
    let token = pending.user_token();
    let sub = pending.complete(&mut registry, true).unwrap();
    for n in 1u8..=5 {
        let mem = [n, 0xff];
        let (cell, bytes) = commbus_trampoline(&mut registry, 0x20, 1, token, &mem);
        let cell = cell.unwrap();
        assert_eq!(cell.len(), (n - 1) as usize);
        cell.extend_from_slice(bytes);
        assert!(registry.contains(token));
    }
    let cell = sub.unsubscribe().release(&mut registry);
    assert_eq!(cell, Some(vec![1, 2, 3, 4, 5]));
    assert!(registry.is_empty());
}

#[test]
fn subscribe_rejects_nul_in_event_name() {
    let mut registry: CallbackRegistry<u8> = CallbackRegistry::new();
    match Subscription::subscribe(&mut registry, "ab\0cd\0", 1) {
        Err(SubscribeError::Nul(e)) => assert_eq!(e.nul_position(), 2),
        _ => panic!("a name with a zero byte was accepted"),
    }
    assert!(registry.is_empty());
}

#[test]
fn refused_subscription_gives_the_cell_up() {
    let mut registry: CallbackRegistry<u8> = CallbackRegistry::new();
    let keep = registry.register(9);
    let pending = Subscription::subscribe(&mut registry, "demo/toggle", 1).unwrap();
    let token = pending.user_token();
    assert_ne!(token, keep);
    assert!(registry.contains(token));
    match pending.complete(&mut registry, false) {
        Err(e) => assert_eq!(e, SubscribeError::Rejected),
        Ok(_) => panic!("a refused registration gave a subscription"),
    }
    assert!(!registry.contains(token));
    assert!(registry.contains(keep));
    let mem = [1u8];
    let (cell, _) = commbus_trampoline(&mut registry, 0x10, 1, token, &mem);
    assert!(cell.is_none());
    assert_eq!(registry.get(keep), Some(&9));
}

#[test]
fn trampoline_payload_is_empty_for_null_or_zero_size() {
    let mut registry: CallbackRegistry<u8> = CallbackRegistry::new();
    let token = registry.register(0);
    let mem = [7u8, 8, 9];
    let (_, bytes) = commbus_trampoline(&mut registry, 0, 3, token, &mem);
    assert!(bytes.is_empty());
    let (_, bytes) = commbus_trampoline(&mut registry, 0x40, 0, token, &mem);
    assert!(bytes.is_empty());
    let (_, bytes) = commbus_trampoline(&mut registry, 0x40, 2, token, &mem);
    assert_eq!(bytes, &[7, 8]);
    let (_, bytes) = commbus_trampoline(&mut registry, 0x40, 3, token, &mem);
    assert_eq!(bytes, &[7, 8, 9]);
    let (_, bytes) = commbus_trampoline(&mut registry, 0x40, 10, token, &mem);
    assert_eq!(bytes, &[7, 8, 9]);
    let (cell, bytes) = commbus_trampoline(&mut registry, 0x40, 3, 0, &mem);
    assert!(cell.is_none());
    assert_eq!(bytes, &[7, 8, 9]);
}

#[test]
fn call_encodes_event_and_counts_payload() {
    let c = call("demo/toggle", &[1, 2, 3, 4], BroadcastFlags::js() | BroadcastFlags::wasm()).unwrap();
    assert_eq!(c.event_name().as_bytes_with_nul(), b"demo/toggle\0");
    assert_eq!(c.payload_size(), 4);
    assert_eq!(c.broadcast_flags(), 3);
    let c = call("e", &[], BroadcastFlags::all()).unwrap();
    assert_eq!(c.payload_size(), 0);
    assert_eq!(c.broadcast_flags(), 7);
    match call("bad\0", &[1], BroadcastFlags::js()) {
        Err(e) => assert_eq!(e.nul_position(), 3),
        Ok(_) => panic!("a name with a zero byte was accepted"),
    }
}

#[test]
fn broadcast_flags_are_a_bit_set() {
    assert_eq!(BroadcastFlags::js().bits(), 1);
    assert_eq!(BroadcastFlags::wasm().bits(), 2);
    assert_eq!(BroadcastFlags::wasm_self().bits(), 4);
    assert_eq!(BroadcastFlags::default_receivers(), BroadcastFlags::js() | BroadcastFlags::wasm());
    assert_eq!(BroadcastFlags::all_wasm(), BroadcastFlags::wasm().union(BroadcastFlags::wasm_self()));
    assert_eq!(BroadcastFlags::all().bits(), 7);
    assert_eq!(BroadcastFlags::all().to_ffi(), 7);
    assert!(BroadcastFlags::empty().is_empty());
    assert!(BroadcastFlags::all().contains(BroadcastFlags::all_wasm()));
    assert!(!BroadcastFlags::js().contains(BroadcastFlags::wasm()));
    assert_eq!(BroadcastFlags::all().intersection(BroadcastFlags::wasm()), BroadcastFlags::wasm());
    assert_eq!(BroadcastFlags::from_bits(5).unwrap().bits(), 5);
    assert!(BroadcastFlags::from_bits(8).is_none());
    assert_eq!(BroadcastFlags::from_bits_truncate(0xff).bits(), 7);
}

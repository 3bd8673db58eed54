use msfs::buffer::{payload, readable_len};
use msfs::context::Context;
use msfs::exports::{answer, ModuleSlot};
use msfs::host_string::HostString;
use msfs::registry::CallbackRegistry;

#[test]
fn register_gives_fresh_tokens_that_are_never_null() {
    let mut registry: CallbackRegistry<&str> = CallbackRegistry::new();
    assert!(registry.is_empty());
    let a = registry.register("a");
    let b = registry.register("b");
    assert_ne!(a, 0);
    assert_ne!(b, 0);
    assert_ne!(a, b);
    assert!(!registry.contains(0));
    assert_eq!(registry.get(a), Some(&"a"));
    assert_eq!(registry.get(b), Some(&"b"));
    assert!(!registry.is_empty());
}

#[test]
fn reclaim_hands_a_cell_out_once() {
    let mut registry: CallbackRegistry<String> = CallbackRegistry::new();
    let a = registry.register("a".to_string());
    let b = registry.register("b".to_string());
    assert_eq!(registry.reclaim(a), Some("a".to_string()));
    assert_eq!(registry.reclaim(a), None);
    assert!(!registry.contains(a));
    assert_eq!(registry.get(b), Some(&"b".to_string()));
    assert_eq!(registry.reclaim(0), None);
    assert_eq!(registry.reclaim(1000), None);
    assert_eq!(registry.reclaim(b), Some("b".to_string()));
    assert!(registry.is_empty());
}

#[test]
fn a_registration_never_takes_a_live_token() {
    let mut registry: CallbackRegistry<u32> = CallbackRegistry::new();
    let mut tokens = Vec::new();
    for n in 0..8u32 {
        tokens.push(registry.register(n));
    }
    assert_eq!(registry.reclaim(tokens[3]), Some(3));
    assert_eq!(registry.reclaim(tokens[5]), Some(5));
    let t = registry.register(100);
    let u = registry.register(101);
    let v = registry.register(102);
    for (n, old) in tokens.iter().enumerate() {
        if n != 3 && n != 5 {
            assert_ne!(t, *old);
            assert_ne!(u, *old);
            assert_ne!(v, *old);
            assert_eq!(registry.get(*old), Some(&(n as u32)));
        }
    }
    assert_ne!(t, u);
    assert_ne!(u, v);
    assert_ne!(t, v);
    assert_eq!(registry.get(t), Some(&100));
    assert_eq!(registry.get(u), Some(&101));
    assert_eq!(registry.get(v), Some(&102));
}

#[test]
fn borrow_and_replace_keep_the_token() {
    let mut registry: CallbackRegistry<u32> = CallbackRegistry::new();
    let a = registry.register(1);
    *registry.borrow_mut(a).unwrap() += 41;
    assert_eq!(registry.get(a), Some(&42));
    assert_eq!(registry.replace(a, 7), Ok(42));
    assert_eq!(registry.get(a), Some(&7));
    assert_eq!(registry.replace(a + 1, 8), Err(8));
    assert_eq!(registry.replace(0, 9), Err(9));
    assert!(registry.borrow_mut(0).is_none());
    assert!(registry.borrow_mut(a + 1).is_none());
    assert!(registry.get(0).is_none());
}

#[test]
fn readable_len_is_zero_for_null_and_non_positive_counts() {
    assert_eq!(readable_len(0, 10), 0);
    assert_eq!(readable_len(0x1000, 0), 0);
    assert_eq!(readable_len(0x1000, -1), 0);
    assert_eq!(readable_len(0x1000, i64::MIN), 0);
    assert_eq!(readable_len(0x1000, 1), 1);
    assert_eq!(readable_len(0x1000, 4096), 4096);
    assert_eq!(readable_len(0x1000, u32::MAX as i64), u32::MAX as usize);
}

#[test]
fn payload_is_a_bounded_prefix() {
    let mem = [1u8, 2, 3, 4];
    assert_eq!(payload(0, 4, &mem), &[] as &[u8]);
    assert_eq!(payload(8, 0, &mem), &[] as &[u8]);
    assert_eq!(payload(8, -3, &mem), &[] as &[u8]);
    assert_eq!(payload(8, 1, &mem), &[1]);
    assert_eq!(payload(8, 4, &mem), &[1, 2, 3, 4]);
    assert_eq!(payload(8, 5, &mem), &[1, 2, 3, 4]);
    assert_eq!(payload(8, 3, &[]), &[] as &[u8]);
}

#[test]
fn host_string_rejects_interior_nul() {
    let s = HostString::new("work/hello.txt").unwrap();
    assert_eq!(s.as_bytes(), b"work/hello.txt");
    assert_eq!(s.len(), 14);
    assert_eq!(s.as_bytes_with_nul(), b"work/hello.txt\0");
    let e = HostString::new("").unwrap();
    assert_eq!(e.len(), 0);
    assert_eq!(e.as_bytes_with_nul(), &[0u8]);
    assert_eq!(HostString::new("\0").err().unwrap().nul_position(), 0);
    assert_eq!(HostString::new("a\0b\0").err().unwrap().nul_position(), 1);
    assert_eq!(HostString::from_bytes(&[1, 2, 0]).err().unwrap().nul_position(), 2);
    assert_eq!(HostString::from_bytes(&[0xff, 0xfe]).unwrap().as_bytes(), &[0xff, 0xfe]);
    let utf8 = HostString::new("é").unwrap();
    assert_eq!(utf8.as_bytes(), &[0xc3, 0xa9]);
}

#[test]
fn context_is_never_null() {
    assert!(Context::try_from_raw(0).is_none());
    let c = Context::try_from_raw(0x1234).unwrap();
    assert_eq!(c.fs_context(), 0x1234);
    assert_eq!(c.as_ptr(), 0x1234);
    let d = Context::from_raw(1);
    assert_eq!(d.fs_context(), 1);
}

#[test]
fn module_slot_holds_state_between_init_and_kill() {
    let mut slot: ModuleSlot<u32> = ModuleSlot::new();
    assert!(slot.with().is_none());
    assert!(!answer(slot.with().map(|s| *s > 0)));
    *slot.install(1) += 1;
    assert_eq!(slot.with().map(|s| *s), Some(2));
    *slot.with().unwrap() = 5;
    assert!(answer(slot.with().map(|s| *s == 5)));
    assert!(!answer(slot.with().map(|s| *s == 6)));
    assert_eq!(*slot.install(9), 9);
    assert_eq!(slot.clear(), Some(9));
    assert_eq!(slot.clear(), None);
    assert!(slot.with().is_none());
    assert!(!answer(None));
    assert!(answer(Some(true)));
    assert!(!answer(Some(false)));
}

#[test]
fn live_count_tracks_every_cell() {
    let mut registry: CallbackRegistry<u8> = CallbackRegistry::new();
    assert_eq!(registry.live_count(), 0);
    let a = registry.register(1);
    let b = registry.register(2);
    let c = registry.register(3);
    assert_eq!(registry.live_count(), 3);
    assert_eq!(registry.reclaim(b), Some(2));
    assert_eq!(registry.live_count(), 2);
    assert_eq!(registry.reclaim(b), None);
    assert_eq!(registry.live_count(), 2);
    let _ = registry.borrow_mut(a);
    let _ = registry.replace(c, 9);
    assert_eq!(registry.live_count(), 2);
    let d = registry.register(4);
    assert_eq!(registry.live_count(), 3);
    for t in [a, c, d] {
        assert!(registry.reclaim(t).is_some());
    }
    assert_eq!(registry.live_count(), 0);
    assert!(registry.is_empty());
}

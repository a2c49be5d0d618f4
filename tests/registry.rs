use vf2_core::array_vec::ArrayVec;
use vf2_core::input_signal::{EdgeCallback, InputSignalState, Signal};

#[test]
fn push_until_full_keeps_capacity() {
    let mut v: ArrayVec<u32, 3> = ArrayVec::new();
    assert_eq!(v.capacity(), 3);
    for i in 0..3u32 {
        assert_eq!(v.try_push(i * 10), Ok(()));
    }
    assert_eq!(v.len(), 3);
    assert_eq!(v.try_push(99), Err(99));
    assert_eq!(v.try_push(100), Err(100));
    assert_eq!(v.len(), 3);
    let mut it = v.iter();
    let mut seen = Vec::new();
    while let Some(x) = it.next() {
        seen.push(*x);
    }
    assert_eq!(seen, vec![0, 10, 20]);
    assert!(it.next().is_none());
}

#[test]
fn zero_capacity_refuses_everything() {
    let mut v: ArrayVec<u8, 0> = ArrayVec::new();
    assert_eq!(v.try_push(1), Err(1));
    assert_eq!(v.len(), 0);
    assert!(v.iter().next().is_none());
}

#[test]
fn init_empties_the_registry() {
    let mut v: ArrayVec<u8, 4> = ArrayVec::new();
    v.try_push(1).unwrap();
    v.try_push(2).unwrap();
    v.init();
    assert_eq!(v.len(), 0);
    assert!(v.iter().next().is_none());
    v.try_push(7).unwrap();
    assert_eq!(*v.get(0), 7);
}

#[test]
fn iter_mut_visits_each_item_once_in_order() {
    let mut v: ArrayVec<u32, 8> = ArrayVec::new();
    for i in 1..6u32 {
        v.try_push(i).unwrap();
    }
    let mut it = v.iter_mut();
    let mut count = 0;
    while let Some(x) = it.next() {
        *x += 10;
        count += 1;
    }
    assert_eq!(count, 5);
    let got: Vec<u32> = (0..v.len()).map(|i| *v.get(i)).collect();
    assert_eq!(got, vec![11, 12, 13, 14, 15]);
}

#[test]
fn get_mut_changes_one_slot() {
    let mut v: ArrayVec<u32, 2> = ArrayVec::new();
    v.try_push(1).unwrap();
    v.try_push(2).unwrap();
    *v.get_mut(1) = 5;
    assert_eq!(*v.get(0), 1);
    assert_eq!(*v.get(1), 5);
}

#[test]
fn signal_registry_round_trip() {
    let mut signals: ArrayVec<Signal, 63> = ArrayVec::new();
    signals.init();
    for pin in 1..11u8 {
        assert!(signals.try_push(Signal::new(pin, EdgeCallback::Debounce)).is_ok());
    }
    let pins: Vec<u8> = {
        let mut it = signals.iter();
        let mut out = Vec::new();
        while let Some(s) = it.next() {
            out.push(s.pin_number);
        }
        out
    };
    assert_eq!(pins, (1..11).collect::<Vec<u8>>());
    let mut it = signals.iter_mut();
    while let Some(s) = it.next() {
        s.update_state(InputSignalState::StableLow);
    }
    let mut it = signals.iter();
    while let Some(s) = it.next() {
        assert_eq!(s.state, InputSignalState::StableLow);
        assert_eq!(s.stabilization_counter, 0);
    }
}

#[test]
fn full_signal_registry_hands_the_signal_back() {
    let mut signals: ArrayVec<Signal, 63> = ArrayVec::new();
    for pin in 0..63u8 {
        assert!(signals.try_push(Signal::new(pin, EdgeCallback::Debounce)).is_ok());
    }
    match signals.try_push(Signal::new(63, EdgeCallback::Debounce)) {
        Err(s) => assert_eq!(s.pin_number, 63),
        Ok(()) => panic!("registry grew past its capacity"),
    }
    assert_eq!(signals.len(), 63);
}

use wasm_streams::buffer::copy_filled;
use wasm_streams::buffer::ByteView;
use wasm_streams::queuing_strategy::QueuingStrategy;

#[test]
fn copy_fills_the_start_of_the_destination() {
    let mut dst = [9u8; 5];
    assert_eq!(copy_filled(&mut dst, &[1, 2, 3]), 3);
    assert_eq!(dst, [1, 2, 3, 9, 9]);
}

#[test]
fn copy_stops_at_the_end_of_the_destination() {
    let mut dst = [9u8; 2];
    assert_eq!(copy_filled(&mut dst, &[1, 2, 3]), 2);
    assert_eq!(dst, [1, 2]);
}

#[test]
fn copy_of_nothing_changes_nothing() {
    let mut dst = [9u8; 2];
    assert_eq!(copy_filled(&mut dst, &[]), 0);
    assert_eq!(dst, [9, 9]);
    let mut empty: [u8; 0] = [];
    assert_eq!(copy_filled(&mut empty, &[1]), 0);
}

#[test]
fn limit_cuts_a_view_down() {
    let view = ByteView { storage: "s", byte_offset: 4, byte_length: 10 }.limit(3);
    assert_eq!((view.storage, view.byte_offset, view.byte_length), ("s", 4, 3));
    let view = ByteView { storage: "s", byte_offset: 4, byte_length: 10 }.limit(10);
    assert_eq!(view.byte_length, 10);
    let view = ByteView { storage: "s", byte_offset: 4, byte_length: 10 }.limit(u32::MAX);
    assert_eq!((view.byte_offset, view.byte_length), (4, 10));
    let view = ByteView { storage: "s", byte_offset: 4, byte_length: 10 }.limit(0);
    assert_eq!(view.byte_length, 0);
}

#[test]
fn queuing_strategy_keeps_its_mark() {
    assert_eq!(QueuingStrategy::new(0).into_raw(), 0);
    assert_eq!(QueuingStrategy::new(16).into_raw(), 16);
}

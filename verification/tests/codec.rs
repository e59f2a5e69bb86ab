use serde_big_array::decode_from_items;
use serde_big_array::encode_to_items;
use serde_big_array::feed;
use serde_big_array::Array;
use serde_big_array::LengthMismatch;
use serde_big_array::PartiallyInitialized;

// A zero-length sequence encodes and decodes trivially, with no element
// operations at all.
#[test]
fn empty_sequence_test() {
    let arr = Array::<u8, 0>([]);
    let refs = encode_to_items(&arr);
    assert_eq!(refs.len(), 0);
    let back = decode_from_items::<u8, 0>(Vec::new()).unwrap();
    assert_eq!(back.0.len(), 0);
    let j = serde_json::to_string(&Vec::<u8>::new()).unwrap();
    assert_eq!(j, "[]");
    let wire: Vec<u8> = serde_json::from_str(&j).unwrap();
    assert!(decode_from_items::<u8, 0>(wire).is_ok());
}

// A stream truncated to exactly i < N elements fails with a length mismatch
// naming i and N.
#[test]
fn truncated_stream_test() {
    for i in [0usize, 3, 7] {
        let mut items: Vec<u8> = Vec::new();
        for k in 0..i {
            items.push(k as u8);
        }
        let err = decode_from_items::<u8, 8>(items).unwrap_err();
        assert_eq!(err, LengthMismatch { index: i, expected: 8 });
    }
}

// Elements beyond the expected count are never requested: decoding takes
// exactly the first N and succeeds.
#[test]
fn trailing_elements_test() {
    let items: Vec<u8> = vec![10, 20, 30, 40, 50, 60, 70, 80, 90, 100];
    let arr = decode_from_items::<u8, 4>(items).unwrap();
    assert_eq!(arr.0, [10, 20, 30, 40]);
}

// The per-element decode step: an element fills the next slot; "no more
// elements" reports the index where the data ran out and leaves the buffer
// as it was.
#[test]
fn feed_step_test() {
    let mut buf = PartiallyInitialized::<u8, 3>::new();
    assert_eq!(buf.count(), 0);
    assert!(feed(&mut buf, Some(5)).is_ok());
    assert_eq!(buf.count(), 1);
    let err = feed(&mut buf, None).unwrap_err();
    assert_eq!(err, LengthMismatch { index: 1, expected: 3 });
    assert_eq!(buf.count(), 1);
    assert!(feed(&mut buf, Some(6)).is_ok());
    assert!(feed(&mut buf, Some(7)).is_ok());
    assert!(buf.is_full());
    assert_eq!(buf.into_array(), [5, 6, 7]);
}

// Encoding hands the elements out in index order, each exactly once.
#[test]
fn encode_order_test() {
    let arr = Array::<u16, 5>([11, 22, 33, 44, 55]);
    let refs = encode_to_items(&arr);
    let mut values: Vec<u16> = Vec::new();
    for r in refs {
        values.push(*r);
    }
    assert_eq!(values, vec![11, 22, 33, 44, 55]);
}

// Default construction fills every slot with the element type's default,
// for plain and for heap-owning element types alike.
#[test]
fn default_test() {
    let arr = Array::<u8, 40>::default();
    assert_eq!(arr.0, [0u8; 40]);
    let strs = Array::<String, 5>::default();
    for s in &strs.0 {
        assert_eq!(s, "");
    }
}

// Nested fixed sequences: an outer sequence of 65 inner sequences of 234
// elements each round-trips and reports the outer length as 65.
#[test]
fn nested_levels_test() {
    let mut inners: Vec<Array<u8, 234>> = Vec::new();
    for i in 0..65usize {
        let mut a = [0u8; 234];
        for j in 0..234usize {
            a[j] = ((i * 7 + j) % 251) as u8;
        }
        inners.push(Array(a));
    }
    let outer = decode_from_items::<Array<u8, 234>, 65>(inners.clone()).unwrap();

    let mut wire_out: Vec<Vec<u8>> = Vec::new();
    for inner in encode_to_items(&outer) {
        let mut row: Vec<u8> = Vec::new();
        for r in encode_to_items(inner) {
            row.push(*r);
        }
        wire_out.push(row);
    }
    let j = serde_json::to_string(&wire_out).unwrap();
    let wire_in: Vec<Vec<u8>> = serde_json::from_str(&j).unwrap();
    assert_eq!(wire_in.len(), 65);

    let mut inners_back: Vec<Array<u8, 234>> = Vec::new();
    for row in wire_in {
        inners_back.push(decode_from_items::<u8, 234>(row).unwrap());
    }
    let outer_back = decode_from_items::<Array<u8, 234>, 65>(inners_back).unwrap();
    assert_eq!(outer, outer_back);
    assert_eq!(inners, {
        let mut v: Vec<Array<u8, 234>> = Vec::new();
        for inner in &outer_back.0 {
            v.push(*inner);
        }
        v
    });
}

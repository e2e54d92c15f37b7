use solana_ibc::heights::{greatest_below, least_above};
use solana_ibc::keyed_map::KeyedMap;
use solana_ibc::types::Height;

fn hh(revision_number: u64, revision_height: u64) -> Height {
    Height { revision_number, revision_height }
}

#[test]
fn keyed_map_insert_get_remove() {
    let mut m: KeyedMap<String, u32> = KeyedMap::new();
    assert_eq!(m.len(), 0);
    m.insert("a".to_string(), 1);
    m.insert("b".to_string(), 2);
    m.insert("a".to_string(), 3);
    assert_eq!(m.len(), 2);
    assert_eq!(m.get(&"a".to_string()), Some(&3));
    assert!(m.contains_key(&"b".to_string()));
    assert_eq!(m.remove(&"a".to_string()), Some(3));
    assert_eq!(m.remove(&"a".to_string()), None);
    assert_eq!(m.get(&"a".to_string()), None);
    assert_eq!(m.get(&"b".to_string()), Some(&2));
    assert_eq!(m.len(), 1);
}

#[test]
fn keyed_map_tuple_keys_are_distinct_by_every_part() {
    let mut m: KeyedMap<(String, String, u64), u8> = KeyedMap::new();
    m.insert(("p".to_string(), "c".to_string(), 1), 1);
    m.insert(("p".to_string(), "c".to_string(), 2), 2);
    m.insert(("p".to_string(), "d".to_string(), 1), 3);
    assert_eq!(m.len(), 3);
    assert_eq!(m.get(&("p".to_string(), "c".to_string(), 1)), Some(&1));
    assert_eq!(m.get(&("p".to_string(), "d".to_string(), 1)), Some(&3));
    assert_eq!(m.get(&("q".to_string(), "c".to_string(), 1)), None);
}

#[test]
fn heights_searches_pick_the_nearest() {
    let mut m: KeyedMap<Height, Vec<u8>> = KeyedMap::new();
    for (rn, rh) in [(2, 1), (0, 7), (1, 100), (0, 2)] {
        m.insert(hh(rn, rh), vec![rn as u8, rh as u8]);
    }
    assert_eq!(least_above(&m, &hh(0, 2)).map(|(k, _)| k), Some(hh(0, 7)));
    assert_eq!(least_above(&m, &hh(0, 8)).map(|(k, v)| (k, v.clone())), Some((hh(1, 100), vec![1, 100])));
    assert_eq!(least_above(&m, &hh(2, 1)).map(|(k, _)| k), None);
    assert_eq!(greatest_below(&m, &hh(2, 1)).map(|(k, _)| k), Some(hh(1, 100)));
    assert_eq!(greatest_below(&m, &hh(1, 0)).map(|(k, _)| k), Some(hh(0, 7)));
    assert_eq!(greatest_below(&m, &hh(0, 2)).map(|(k, _)| k), None);
    let empty: KeyedMap<Height, Vec<u8>> = KeyedMap::new();
    assert!(least_above(&empty, &hh(0, 0)).is_none());
    assert!(greatest_below(&empty, &hh(9, 9)).is_none());
}

#[test]
fn height_new_refuses_zero() {
    assert!(Height::new(1, 0).is_err());
    assert_eq!(Height::new(1, 2), Ok(hh(1, 2)));
    assert!(hh(0, 9).lt(&hh(1, 0)));
    assert!(hh(1, 1).lt(&hh(1, 2)));
    assert!(!hh(1, 2).lt(&hh(1, 2)));
}

use lightyear::transport::mugon::common::id_to_socket_addr;
use lightyear::vec_map::VecMap;

#[test]
fn insert_get_and_remove() {
    let (a, b) = (id_to_socket_addr(1), id_to_socket_addr(2));
    let mut map = VecMap::new();
    assert_eq!(map.insert(a, "a"), None);
    assert_eq!(map.insert(b, "b"), None);
    assert_eq!(map.insert(a, "c"), Some("a"));
    assert_eq!(map.len(), 2);
    assert!(map.contains_key(&b));
    *map.get_mut(&b).unwrap() = "d";
    assert_eq!(map.get(&b), Some(&"d"));
    assert_eq!(map.entry(0), (&a, &"c"));
    let copy = map.clone();
    assert_eq!(map.remove(&a), Some("c"));
    assert_eq!(map.remove(&a), None);
    assert_eq!(map.get(&a), None);
    assert_eq!(map.len(), 1);
    assert_eq!(copy.len(), 2);
}

use nwg_base::{resolve_parent, ControlCollection, Handle, NwgError};

fn h(raw: usize) -> Handle {
    Handle { raw }
}

#[test]
fn empty_collection_holds_nothing() {
    let c = ControlCollection::new();
    assert_eq!(c.len(), 0);
    assert_eq!(c.get(0), None);
    assert_eq!(c.get(17), None);
}

#[test]
fn insert_then_get() {
    let mut c = ControlCollection::new();
    assert_eq!(c.insert(10, h(1)), None);
    assert_eq!(c.insert(20, h(2)), None);
    assert_eq!(c.len(), 2);
    assert_eq!(c.get(10), Some(h(1)));
    assert_eq!(c.get(20), Some(h(2)));
    assert_eq!(c.get(30), None);
}

#[test]
fn insert_replaces_the_window_of_a_known_identifier() {
    let mut c = ControlCollection::new();
    c.insert(10, h(1));
    c.insert(20, h(2));
    assert_eq!(c.insert(10, h(7)), Some(h(1)));
    assert_eq!(c.len(), 2);
    assert_eq!(c.get(10), Some(h(7)));
    assert_eq!(c.get(20), Some(h(2)));
}

#[test]
fn purge_drops_the_control_and_the_controls_of_gone_windows() {
    let mut c = ControlCollection::new();
    c.insert(10, h(1));
    c.insert(20, h(2));
    c.insert(30, h(3));
    c.insert(40, h(4));
    c.insert(50, h(5));
    let mut removed = c.purge(30, &vec![h(5), h(1)]);
    removed.sort();
    assert_eq!(removed, vec![10, 30, 50]);
    assert_eq!(c.len(), 2);
    assert_eq!(c.get(20), Some(h(2)));
    assert_eq!(c.get(40), Some(h(4)));
    assert_eq!(c.get(10), None);
    assert_eq!(c.get(30), None);
    assert_eq!(c.get(50), None);
}

#[test]
fn purge_of_an_unknown_control_without_windows_drops_nothing() {
    let mut c = ControlCollection::new();
    c.insert(10, h(1));
    let removed = c.purge(99, &Vec::new());
    assert_eq!(removed, Vec::<u64>::new());
    assert_eq!(c.get(10), Some(h(1)));
}

#[test]
fn resolve_parent_gives_the_bound_window() {
    let mut c = ControlCollection::new();
    c.insert(10, h(3));
    assert_eq!(resolve_parent(&c, None), Ok(h(0)));
    assert_eq!(resolve_parent(&c, Some(10)), Ok(h(3)));
    assert_eq!(resolve_parent(&c, Some(11)), Err(NwgError::NotFound));
}

#[test]
fn purge_drops_every_control_of_a_window_that_went() {
    let mut c = ControlCollection::new();
    for id in 0..100u64 {
        c.insert(id, h((id % 4) as usize + 1));
    }
    let mut removed = c.purge(1000, &vec![h(2)]);
    removed.sort();
    let expected: Vec<u64> = (0..100u64).filter(|id| id % 4 == 1).collect();
    assert_eq!(removed, expected);
    assert_eq!(c.len(), 75);
    for id in 0..100u64 {
        if id % 4 == 1 {
            assert_eq!(c.get(id), None);
        } else {
            assert_eq!(c.get(id), Some(h((id % 4) as usize + 1)));
        }
    }
}

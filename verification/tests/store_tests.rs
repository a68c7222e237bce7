use point_rpc::point::Point;
use point_rpc::store::{KeyedStore, StoreError};

fn point_of(x: f64, y: f64) -> Point {
    Point { x_bits: x.to_bits(), y_bits: y.to_bits() }
}

#[test]
fn default_point_is_origin() {
    let p = Point::default();
    assert_eq!(p, Point { x_bits: 0, y_bits: 0 });
    assert_eq!(f64::from_bits(p.x_bits), 0.0);
    assert_eq!(f64::from_bits(p.y_bits), 0.0);
}

#[test]
fn round_trip_create_read() {
    let mut store = KeyedStore::new();
    let v = point_of(1.5, -2.25);
    let id = store.create(v);
    assert_eq!(store.read(id), Ok(v));
}

#[test]
fn update_overwrites_prior_value() {
    let mut store = KeyedStore::new();
    let v1 = point_of(1.0, 1.0);
    let v2 = point_of(42.0, -7.5);
    let id = store.create(v1);
    assert_eq!(store.update(id, v2), Ok(()));
    assert_eq!(store.read(id), Ok(v2));
}

#[test]
fn update_absent_id_not_found() {
    let mut store = KeyedStore::new();
    assert_eq!(store.update(5, point_of(0.0, 0.0)), Err(StoreError::NotFound(5)));
}

#[test]
fn read_absent_id_not_found() {
    let store = KeyedStore::new();
    assert_eq!(store.read(7), Err(StoreError::NotFound(7)));
}

#[test]
fn delete_then_read_not_found() {
    let mut store = KeyedStore::new();
    let id = store.create(point_of(3.0, 4.0));
    store.delete(id);
    assert_eq!(store.read(id), Err(StoreError::NotFound(id)));
}

#[test]
fn delete_absent_id_succeeds() {
    let mut store = KeyedStore::new();
    store.delete(99);
    let id = store.create(point_of(1.0, 2.0));
    store.delete(id);
    store.delete(id);
    assert_eq!(store.read(id), Err(StoreError::NotFound(id)));
}

#[test]
fn crud_scenario_ten_updates() {
    let mut store = KeyedStore::new();
    let id = store.create(point_of(0.0, 0.0));

    let mut x: f64 = 0.0;
    let mut y: f64 = 0.0;
    for _ in 0..10 {
        x += 1.0;
        y += 2.0;
        let v = point_of(x, y);
        assert_eq!(store.update(id, v), Ok(()));
        assert_eq!(store.read(id), Ok(v));
    }
    assert_eq!(store.read(id), Ok(point_of(10.0, 20.0)));

    store.delete(id);
    assert_eq!(store.read(id), Err(StoreError::NotFound(id)));
}

use shader_material::error::MaterialError;
use shader_material::material::{LinearRgba, ShaderMaterial};
use shader_material::store::{setup, MaterialId, MaterialStore};

fn gray(level: f32, frame: u32) -> ShaderMaterial {
    let bits: u32 = level.to_bits();
    ShaderMaterial {
        color: LinearRgba::from_bits(bits, bits, bits, 1.0f32.to_bits()).unwrap(),
        frame,
    }
}

#[test]
fn new_store_is_empty() {
    let store = MaterialStore::new();
    assert_eq!(store.len(), 0);
    assert!(store.iterate().is_empty());
}

#[test]
fn create_gives_handles_in_order() {
    let mut store = MaterialStore::new();
    let first = store.create(gray(0.1, 0));
    let second = store.create(gray(0.2, 5));
    let third = store.create(gray(0.3, 9));
    assert_eq!(first.index(), 0);
    assert_eq!(second.index(), 1);
    assert_eq!(third.index(), 2);
    assert_ne!(first, second);
    assert_ne!(second, third);
    assert_eq!(store.len(), 3);
}

#[test]
fn get_mut_reaches_the_record_in_place() {
    let mut store = MaterialStore::new();
    let first = store.create(gray(0.1, 0));
    let second = store.create(gray(0.2, 5));
    assert_eq!(store.get_mut(second).map(|record| *record), Ok(gray(0.2, 5)));
    store.get_mut(first).unwrap().frame = 42;
    store.get_mut(second).unwrap().color = gray(0.9, 0).color;
    assert_eq!(*store.get_mut(first).unwrap(), gray(0.1, 42));
    assert_eq!(*store.get_mut(second).unwrap(), gray(0.9, 5));
}

#[test]
fn get_mut_of_an_unknown_handle_is_not_found() {
    let mut larger = MaterialStore::new();
    larger.create(gray(0.1, 0));
    let unknown: MaterialId = larger.create(gray(0.2, 0));
    let mut store = MaterialStore::new();
    assert_eq!(store.get_mut(unknown).err(), Some(MaterialError::NotFound));
    store.create(gray(0.3, 0));
    assert_eq!(store.get_mut(unknown).err(), Some(MaterialError::NotFound));
}

#[test]
fn get_mut_of_a_stale_handle_is_not_found() {
    let mut store = MaterialStore::new();
    let id = store.create(gray(0.5, 3));
    assert_eq!(store.remove(id), Ok(gray(0.5, 3)));
    assert_eq!(store.get_mut(id).err(), Some(MaterialError::NotFound));
    assert_eq!(store.remove(id), Err(MaterialError::NotFound));
}

#[test]
fn remove_of_an_unknown_handle_is_not_found() {
    let mut larger = MaterialStore::new();
    let unknown: MaterialId = larger.create(gray(0.2, 0));
    let mut store = MaterialStore::new();
    assert_eq!(store.remove(unknown), Err(MaterialError::NotFound));
    assert_eq!(store.len(), 0);
}

#[test]
fn handle_of_a_removed_record_is_not_given_out_again() {
    let mut store = MaterialStore::new();
    let first = store.create(gray(0.1, 0));
    store.remove(first).unwrap();
    let second = store.create(gray(0.2, 0));
    assert_ne!(first, second);
    assert_eq!(second.index(), 1);
    assert_eq!(store.get_mut(first).err(), Some(MaterialError::NotFound));
    assert_eq!(*store.get_mut(second).unwrap(), gray(0.2, 0));
}

#[test]
fn iterate_walks_the_live_records_in_order_of_creation() {
    let mut store = MaterialStore::new();
    let first = store.create(gray(0.1, 1));
    let second = store.create(gray(0.2, 2));
    let third = store.create(gray(0.3, 3));
    store.remove(second).unwrap();
    let entries: Vec<(MaterialId, ShaderMaterial)> =
        store.iterate().into_iter().map(|(id, record)| (id, *record)).collect();
    assert_eq!(entries, vec![(first, gray(0.1, 1)), (third, gray(0.3, 3))]);
}

#[test]
fn iterate_can_be_walked_again() {
    let mut store = MaterialStore::new();
    store.create(gray(0.1, 1));
    store.create(gray(0.2, 2));
    let once: Vec<(MaterialId, ShaderMaterial)> =
        store.iterate().into_iter().map(|(id, record)| (id, *record)).collect();
    let twice: Vec<(MaterialId, ShaderMaterial)> =
        store.iterate().into_iter().map(|(id, record)| (id, *record)).collect();
    assert_eq!(once, twice);
    assert_eq!(once.len(), 2);
}

#[test]
fn setup_creates_the_material_at_frame_zero() {
    let mut store = MaterialStore::new();
    let color = gray(0.7, 0).color;
    let id = setup(&mut store, color);
    assert_eq!(id.index(), 0);
    assert_eq!(store.len(), 1);
    assert_eq!(*store.get_mut(id).unwrap(), ShaderMaterial { color, frame: 0 });
}

use std::collections::hash_map::DefaultHasher;
use std::hash::{Hash, Hasher};
use voxicus::input::{first_unbound_axis, ActionBinding, AxisBinding, MovementBindingTypes};
use voxicus::voxel::Voxel;

fn hash_of<T: Hash>(t: &T) -> u64 {
    let mut h = DefaultHasher::new();
    t.hash(&mut h);
    h.finish()
}

const AXES: [AxisBinding; 2] = [AxisBinding::Horizontal, AxisBinding::Vertical];

#[test]
fn axis_labels_are_variant_names() {
    assert_eq!(AxisBinding::Horizontal.to_string(), "Horizontal");
    assert_eq!(AxisBinding::Vertical.to_string(), "Vertical");
    assert_eq!(format!("{:?}", AxisBinding::Vertical), AxisBinding::Vertical.to_string());
}

#[test]
fn axis_labels_round_trip() {
    for a in AXES {
        assert_eq!(AxisBinding::from_label(&a.to_string()), Some(a));
    }
}

#[test]
fn unknown_labels_are_refused() {
    for s in ["", "horizontal", "Vertical ", "Depth", "Horizonta"] {
        assert_eq!(AxisBinding::from_label(s), None);
    }
}

#[test]
fn axis_equality_and_hash_agree() {
    for a in AXES {
        for b in AXES {
            let same = a == b;
            assert_eq!(same, a.to_string() == b.to_string());
            if same {
                assert_eq!(hash_of(&a), hash_of(&b));
            }
        }
    }
    assert_ne!(AxisBinding::Horizontal, AxisBinding::Vertical);
}

#[test]
fn action_vocabulary_is_empty() {
    for s in ["", "Jump", "Horizontal"] {
        let r: Option<ActionBinding> = ActionBinding::from_label(s);
        assert!(r.is_none());
    }
    let none: Vec<ActionBinding> = Vec::new();
    assert!(none.iter().all(|a| a == a && hash_of(a) == hash_of(a) && !a.to_string().is_empty()));
}

#[test]
fn binding_table_must_cover_every_axis() {
    let full = vec![AxisBinding::Vertical, AxisBinding::Horizontal];
    assert_eq!(first_unbound_axis(&full), None);
    assert_eq!(first_unbound_axis(&vec![]), Some(AxisBinding::Horizontal));
    assert_eq!(first_unbound_axis(&vec![AxisBinding::Horizontal]), Some(AxisBinding::Vertical));
    assert_eq!(first_unbound_axis(&vec![AxisBinding::Vertical]), Some(AxisBinding::Horizontal));
    let doubled = vec![AxisBinding::Horizontal, AxisBinding::Horizontal];
    assert_eq!(first_unbound_axis(&doubled), Some(AxisBinding::Vertical));
}

#[test]
fn movement_bindings_pair_is_a_marker() {
    assert_eq!(MovementBindingTypes, MovementBindingTypes);
}

#[test]
fn voxels_compare_by_kind() {
    assert_eq!(Voxel::Grass, Voxel::Grass);
    assert_ne!(Voxel::Dirt, Voxel::Stone);
    let copy = Voxel::Stone;
    assert_eq!(copy, Voxel::Stone);
}

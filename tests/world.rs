use hephaestus::entity::{Component, ComponentKind, EntityBuilder};
use hephaestus::world::World;

fn sample_world() -> World<&'static str, u32> {
    let mut world: World<&'static str, u32> = World::new();
    let camera = world.new_entity().transform("camera pose").camera("camera lens");
    world.add_entity(camera);
    let cube = world
        .new_entity()
        .transform("cube pose")
        .mesh("cube mesh")
        .material("orange")
        .material("second color");
    world.add_entity(cube);
    let backup_camera = world.new_entity().camera("backup lens");
    world.add_entity(backup_camera);
    world
}

#[test]
fn ids_start_at_one_and_grow() {
    let world = sample_world();
    assert_eq!(world.get_all_ids(), Some(vec![1, 2, 3]));
}

#[test]
fn empty_world_has_no_ids() {
    let world: World<u8, u8> = World::new();
    assert_eq!(world.get_all_ids(), None);
    assert!(world.get_components_of_type(ComponentKind::Mesh).is_none());
    assert_eq!(world.first_entity_with(ComponentKind::Camera), None);
}

#[test]
fn reserved_ids_are_never_reused() {
    let mut world: World<u8, u8> = World::new();
    assert_eq!(world.get_next_entity_id(), 1);
    let e = world.new_entity().mesh(7);
    world.add_entity(e);
    assert_eq!(world.get_all_ids(), Some(vec![2]));
    assert!(world.get_entity(1).is_none());
    assert_eq!(world.get_next_entity_id(), 3);
}

#[test]
fn component_lookup_by_id() {
    let world = sample_world();
    assert_eq!(world.get_component_by_id(2, ComponentKind::Mesh), Some(&"cube mesh"));
    assert_eq!(world.get_component_by_id(2, ComponentKind::Material), Some(&"orange"));
    assert_eq!(world.get_component_by_id(2, ComponentKind::Camera), None);
    assert_eq!(world.get_component_by_id(9, ComponentKind::Mesh), None);
    assert_eq!(world.get_component_by_id(1, ComponentKind::Camera), Some(&"camera lens"));
}

#[test]
fn entity_components_carry_the_entity_id() {
    let world = sample_world();
    let comps = world.get_entity(2).unwrap();
    assert_eq!(comps.len(), 4);
    assert!(comps.iter().all(|c| c.get_id() == 2));
    assert_eq!(comps[1].kind, ComponentKind::Mesh);
}

#[test]
fn components_of_a_type_across_the_world() {
    let world = sample_world();
    assert_eq!(
        world.get_components_of_type(ComponentKind::Camera),
        Some(vec![&"camera lens", &"backup lens"])
    );
    assert_eq!(
        world.get_components_of_type(ComponentKind::Material),
        Some(vec![&"orange", &"second color"])
    );
    assert_eq!(world.get_components_of_type(ComponentKind::Logic), None);
}

#[test]
fn active_camera_is_the_lowest_id() {
    let world = sample_world();
    assert_eq!(world.first_entity_with(ComponentKind::Camera), Some(1));
    assert_eq!(world.first_entity_with(ComponentKind::Mesh), Some(2));
    assert_eq!(world.first_entity_with(ComponentKind::Texture), None);
}

#[test]
fn components_are_replaced_in_place() {
    let mut world = sample_world();
    assert!(world.set_component_by_id(2, ComponentKind::Material, "blue"));
    assert_eq!(world.get_component_by_id(2, ComponentKind::Material), Some(&"blue"));
    assert_eq!(
        world.get_components_of_type(ComponentKind::Material),
        Some(vec![&"blue", &"second color"])
    );
    assert!(!world.set_component_by_id(2, ComponentKind::Texture, "none"));
    assert!(!world.set_component_by_id(7, ComponentKind::Mesh, "none"));
}

#[test]
fn lights_are_kept_in_order() {
    let mut world: World<u8, u32> = World::new();
    world.add_light(5);
    world.add_light(3);
    assert_eq!(world.lights(), &vec![5, 3]);
}

#[test]
fn builder_sets_ids() {
    let mut b: EntityBuilder<u8> = EntityBuilder::new().mesh(1).logic(2);
    assert_eq!(b.entity.get_id(), 0);
    b.set_id(42);
    assert_eq!(b.entity.get_id(), 42);
    assert!(b.components.iter().all(|c| c.get_id() == 42));
    assert_eq!(b.components[0].kind, ComponentKind::Mesh);
    assert_eq!(b.components[1].kind, ComponentKind::Logic);
    assert_eq!(b.components[1].data, 2);
}

#[test]
fn drawable_entities_have_transform_and_mesh() {
    let mut world = sample_world();
    let lone_mesh = world.new_entity().mesh("floating mesh");
    world.add_entity(lone_mesh);
    let another = world.new_entity().mesh("rock").transform("rock pose");
    world.add_entity(another);
    assert_eq!(world.entities_with_both(ComponentKind::Transform, ComponentKind::Mesh), vec![2, 5]);
    assert_eq!(world.entities_with_both(ComponentKind::Texture, ComponentKind::Mesh), Vec::<usize>::new());
}

#[test]
fn last_id_follows_the_ids_handed_out() {
    let mut world: World<u8, u8> = World::new();
    assert_eq!(world.last_id(), 0);
    let e = world.new_entity();
    world.add_entity(e);
    assert_eq!(world.last_id(), 1);
}

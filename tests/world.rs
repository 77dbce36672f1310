use oberon::ecs::World;

#[test]
fn world_spawn_entity() {
    let mut world = World::new(10).register::<u32>().register::<String>();

    let entity_id = world
        .spawn()
        .with::<u32>(25)
        .unwrap()
        .with::<String>("test".to_string())
        .unwrap()
        .into_id();

    let age = world.get::<u32>(entity_id);
    let name = world.get::<String>(entity_id);

    assert_eq!(age, Some(&25));
    assert_eq!(name, Some(&"test".to_string()));
}

#[test]
fn world_spawn_entity_with_unregistered_component_fails() {
    let mut world = World::new(10);

    assert!(world.spawn().with::<u32>(25).is_none());
}

#[test]
fn world_despawn_entity() {
    let mut world = World::new(10).register::<u32>().register::<i32>();
    let entity_id = world
        .spawn()
        .with::<u32>(25)
        .unwrap()
        .with::<i32>(-10)
        .unwrap()
        .into_id();

    world.despawn(entity_id);

    let v1 = world.get::<u32>(entity_id);
    let v2 = world.get::<i32>(entity_id);

    assert!(v1.is_none());
    assert!(v2.is_none());
}

#[test]
fn world_for_each_entity_do_action() {
    let mut world = World::new(10).register::<u32>();

    world.spawn().with::<u32>(1);
    world.spawn().with::<u32>(2);
    world.spawn().with::<u32>(3);

    let mut cntr = 0;

    world.for_each::<u32, _>(|item| cntr += *item);

    assert_eq!(cntr, 6);
}

#[test]
fn for_each_mut_change_inplace() {
    let mut world = World::new(10).register::<u32>();

    let first = world.spawn().with::<u32>(1).unwrap().into_id();
    let second = world.spawn().with::<u32>(2).unwrap().into_id();

    world.for_each_mut::<u32, _>(|item| *item *= 2);

    assert_eq!(world.get::<u32>(first).unwrap(), &2);
    assert_eq!(world.get::<u32>(second).unwrap(), &4);
}

#[test]
fn world_get_entity_component_doesnt_exist() {
    let mut world = World::new(10).register::<u32>().register::<i32>();
    let entity_id = world.spawn().with::<u32>(25).unwrap().into_id();

    let value = world.get::<i32>(entity_id);

    assert!(value.is_none());
}

#[test]
fn world_get_entity_component_when_not_registered() {
    let world = World::new(10);
    let value = world.get::<u32>(0);

    assert!(value.is_none());
}

#[test]
fn world_get_entity_component() {
    let mut world = World::new(10).register::<u32>();
    let entity_id = world.spawn().with::<u32>(25).unwrap().into_id();

    let value = world.get::<u32>(entity_id);

    assert_eq!(value, Some(&25));
}

#[test]
fn world_get_mut_entity_component_doesnt_exist() {
    let mut world = World::new(10).register::<u32>().register::<i32>();
    let entity_id = world.spawn().with::<u32>(25).unwrap().into_id();

    let value = world.get_mut::<i32>(entity_id);

    assert!(value.is_none());
}

#[test]
fn world_get_mut_entity_component_when_not_registered() {
    let mut world = World::new(10);
    let value = world.get_mut::<u32>(0);

    assert!(value.is_none());
}

#[test]
fn world_get_mut_entity_component() {
    let mut world = World::new(10).register::<u32>();
    let entity_id = world.spawn().with::<u32>(25).unwrap().into_id();

    let value = world.get_mut::<u32>(entity_id);

    assert_eq!(value, Some(&mut 25));

    *value.unwrap() = 36;

    let value = world.get::<u32>(entity_id);

    assert_eq!(value, Some(&36));
}

#[test]
fn world_register_entity_adds_entry_to_components() {
    let world = World::new(10).register::<u32>();

    assert_eq!(world.component_kinds(), 1);
    assert_eq!(world.is_registered::<u32>(), true);
}

#[test]
fn world_register_twice_keeps_one_storage() {
    let world = World::new(10).register::<u32>().register::<u32>();

    assert_eq!(world.component_kinds(), 1);
    assert_eq!(world.is_registered::<i64>(), false);
}

#[test]
fn world_get_all_lists_components() {
    let mut world = World::new(10).register::<u32>();
    world.spawn().with::<u32>(7);
    world.spawn().with::<u32>(9);

    let all = world.get_all::<u32>().unwrap();

    assert_eq!(all, &[7, 9]);
    assert!(world.get_all::<i8>().is_none());
}

#[test]
fn world_ids_past_capacity_hold_nothing() {
    let mut world = World::new(1).register::<u32>();
    world.spawn().with::<u32>(1);

    assert!(world.spawn().with::<u32>(2).is_none());
    assert!(world.get::<u32>(1).is_none());
}

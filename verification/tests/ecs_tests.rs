use engine::modules::ecs::{
    clear_world, copy_entity, delete_entity, get_all_components, get_all_entities, get_component,
    get_component_mut, insert, load_entities, query_all, query_all2, query_all3,
    query_get_all_ids, restore_entity, spawn, ComponentKind, ComponentMap, StoredComponent,
};
use engine::modules::ecs_macros;
use engine::modules::world::World;

fn ids_of<T>(pairs: &[(String, T)]) -> Vec<String> {
    pairs.iter().map(|p| p.0.clone()).collect()
}

#[test]
fn spawn_gives_distinct_nonempty_ids_with_no_components() {
    let mut map: ComponentMap<String> = ComponentMap::new();
    let a = spawn(&mut map);
    let b = spawn(&mut map);
    assert_ne!(a, b);
    assert_eq!(a.len(), 36);
    assert_eq!(get_all_entities(&map), vec![(a.clone(), 0), (b.clone(), 0)]);
    assert!(get_all_components(&map, &a).is_empty());
}

#[test]
fn macro_spawn_adds_an_entity() {
    let mut map: ComponentMap<u32> = ComponentMap::new();
    let id = ecs_macros::spawn(&mut map);
    assert_eq!(get_all_entities(&map), vec![(id, 0)]);
}

#[test]
fn insert_then_get_reads_back() {
    let mut map: ComponentMap<String> = ComponentMap::new();
    let id = spawn(&mut map);
    insert(&mut map, &id, ComponentKind::Metadata, "player".to_string());
    assert_eq!(get_component(&map, &id, ComponentKind::Metadata), Some("player".to_string()));
    assert_eq!(get_component(&map, &id, ComponentKind::Transform), None);
}

#[test]
fn insert_replaces_same_kind_only() {
    let mut map: ComponentMap<String> = ComponentMap::new();
    let id = spawn(&mut map);
    insert(&mut map, &id, ComponentKind::Metadata, "a".to_string());
    insert(&mut map, &id, ComponentKind::Camera, "cam".to_string());
    insert(&mut map, &id, ComponentKind::Metadata, "b".to_string());
    assert_eq!(get_all_entities(&map), vec![(id.clone(), 2)]);
    assert_eq!(get_component(&map, &id, ComponentKind::Metadata), Some("b".to_string()));
    assert_eq!(get_component(&map, &id, ComponentKind::Camera), Some("cam".to_string()));
    let comps = get_all_components(&map, &id);
    assert_eq!(comps.len(), 2);
    assert_eq!(comps[0].kind, ComponentKind::Camera);
    assert_eq!(comps[1].kind, ComponentKind::Metadata);
    assert_eq!(comps[1].value, "b");
}

#[test]
fn insert_into_unknown_entity_does_nothing() {
    let mut map: ComponentMap<String> = ComponentMap::new();
    let id = spawn(&mut map);
    insert(&mut map, &"nobody".to_string(), ComponentKind::Shape, "s".to_string());
    assert_eq!(get_all_entities(&map), vec![(id, 0)]);
    assert_eq!(get_component(&map, &"nobody".to_string(), ComponentKind::Shape), None);
}

#[test]
fn get_component_of_unknown_entity_is_none() {
    let map: ComponentMap<u8> = ComponentMap::new();
    assert_eq!(get_component(&map, &"x".to_string(), ComponentKind::RigidBody), None);
    assert!(get_all_components(&map, &"x".to_string()).is_empty());
}

#[test]
fn get_component_mut_changes_in_place_and_returns() {
    let mut map: ComponentMap<i32> = ComponentMap::new();
    let id = spawn(&mut map);
    insert(&mut map, &id, ComponentKind::RigidBody, 1);
    insert(&mut map, &id, ComponentKind::Transform, 7);
    let r = get_component_mut(&mut map, &id, ComponentKind::RigidBody, |m: &mut i32| {
        *m += 41;
        *m * 2
    });
    assert_eq!(r, Some(84));
    assert_eq!(get_component(&map, &id, ComponentKind::RigidBody), Some(42));
    let comps = get_all_components(&map, &id);
    assert_eq!(comps[0].kind, ComponentKind::RigidBody);
    assert_eq!(comps[1].value, 7);
    let none = get_component_mut(&mut map, &id, ComponentKind::Camera, |m: &mut i32| *m);
    assert_eq!(none, None);
    let missing = get_component_mut(&mut map, &"x".to_string(), ComponentKind::RigidBody, |m: &mut i32| *m);
    assert_eq!(missing, None);
}

#[test]
fn query_all_lists_each_holder_once() {
    let mut map: ComponentMap<String> = ComponentMap::new();
    let a = spawn(&mut map);
    let b = spawn(&mut map);
    let c = spawn(&mut map);
    insert(&mut map, &a, ComponentKind::Transform, "ta".to_string());
    insert(&mut map, &c, ComponentKind::Transform, "tc".to_string());
    insert(&mut map, &c, ComponentKind::Transform, "tc2".to_string());
    insert(&mut map, &b, ComponentKind::Camera, "cb".to_string());
    let res = query_all(&map, ComponentKind::Transform);
    assert_eq!(res, vec![(a.clone(), "ta".to_string()), (c.clone(), "tc2".to_string())]);
    assert_eq!(query_get_all_ids(&map, ComponentKind::Transform), ids_of(&res));
    assert!(query_all(&map, ComponentKind::Shape).is_empty());
}

#[test]
fn query_all2_needs_both_kinds() {
    let mut map: ComponentMap<u32> = ComponentMap::new();
    let a = spawn(&mut map);
    let b = spawn(&mut map);
    insert(&mut map, &a, ComponentKind::Camera, 2);
    insert(&mut map, &a, ComponentKind::Transform, 1);
    insert(&mut map, &b, ComponentKind::Transform, 3);
    assert_eq!(query_all2(&map, ComponentKind::Transform, ComponentKind::Camera), vec![(a.clone(), 1, 2)]);
    assert_eq!(query_all2(&map, ComponentKind::Camera, ComponentKind::Transform), vec![(a.clone(), 2, 1)]);
}

#[test]
fn query_all2_with_one_kind_twice_is_empty() {
    let mut map: ComponentMap<u32> = ComponentMap::new();
    let a = spawn(&mut map);
    insert(&mut map, &a, ComponentKind::Transform, 1);
    assert!(query_all2(&map, ComponentKind::Transform, ComponentKind::Transform).is_empty());
}

#[test]
fn query_all3_needs_three_distinct_kinds() {
    let mut map: ComponentMap<u32> = ComponentMap::new();
    let a = spawn(&mut map);
    let b = spawn(&mut map);
    insert(&mut map, &a, ComponentKind::Shape, 3);
    insert(&mut map, &a, ComponentKind::Transform, 1);
    insert(&mut map, &a, ComponentKind::Collider, 2);
    insert(&mut map, &b, ComponentKind::Transform, 4);
    insert(&mut map, &b, ComponentKind::Collider, 5);
    assert_eq!(
        query_all3(&map, ComponentKind::Transform, ComponentKind::Collider, ComponentKind::Shape),
        vec![(a.clone(), 1, 2, 3)]
    );
    assert!(query_all3(&map, ComponentKind::Transform, ComponentKind::Collider, ComponentKind::Transform).is_empty());
}

#[test]
fn copy_entity_copies_components_to_new_id() {
    let mut map: ComponentMap<String> = ComponentMap::new();
    let a = spawn(&mut map);
    insert(&mut map, &a, ComponentKind::Metadata, "m".to_string());
    insert(&mut map, &a, ComponentKind::Shape, "s".to_string());
    let b = copy_entity(&mut map, &a).expect("source exists");
    assert_ne!(a, b);
    assert_eq!(get_component(&map, &b, ComponentKind::Metadata), Some("m".to_string()));
    assert_eq!(get_component(&map, &b, ComponentKind::Shape), Some("s".to_string()));
    assert_eq!(get_all_entities(&map), vec![(a.clone(), 2), (b.clone(), 2)]);
    // the copy is independent of its source
    insert(&mut map, &b, ComponentKind::Shape, "t".to_string());
    assert_eq!(get_component(&map, &a, ComponentKind::Shape), Some("s".to_string()));
}

#[test]
fn copy_of_missing_entity_is_none() {
    let mut map: ComponentMap<String> = ComponentMap::new();
    let a = spawn(&mut map);
    assert_eq!(copy_entity(&mut map, &"none".to_string()), None);
    assert_eq!(get_all_entities(&map), vec![(a, 0)]);
}

#[test]
fn delete_entity_reports_existence_once() {
    let mut map: ComponentMap<String> = ComponentMap::new();
    let a = spawn(&mut map);
    let b = spawn(&mut map);
    insert(&mut map, &a, ComponentKind::Metadata, "m".to_string());
    assert!(delete_entity(&mut map, &a));
    assert!(!delete_entity(&mut map, &a));
    assert_eq!(get_component(&map, &a, ComponentKind::Metadata), None);
    assert_eq!(get_all_entities(&map), vec![(b, 0)]);
}

#[test]
fn clear_world_removes_everything() {
    let mut map: ComponentMap<u8> = ComponentMap::new();
    let a = spawn(&mut map);
    insert(&mut map, &a, ComponentKind::RigidBody, 1);
    clear_world(&mut map);
    assert!(get_all_entities(&map).is_empty());
    assert_eq!(get_component(&map, &a, ComponentKind::RigidBody), None);
}

#[test]
fn world_methods_act_on_its_store() {
    let mut world: World<String> = World::default();
    let a = world.spawn();
    world.insert(&a, ComponentKind::Transform, "t".to_string());
    world.insert(&a, ComponentKind::Camera, "c".to_string());
    world.insert(&a, ComponentKind::Collider, "k".to_string());
    assert_eq!(world.get_component_readonly(&a, ComponentKind::Transform), Some("t".to_string()));
    assert_eq!(world.query_get_all(ComponentKind::Camera), vec![(a.clone(), "c".to_string())]);
    assert_eq!(
        world.query_get_all2(ComponentKind::Camera, ComponentKind::Transform),
        vec![(a.clone(), "c".to_string(), "t".to_string())]
    );
    assert_eq!(
        world.query_get_all3(ComponentKind::Collider, ComponentKind::Camera, ComponentKind::Transform),
        vec![(a.clone(), "k".to_string(), "c".to_string(), "t".to_string())]
    );
    assert_eq!(world.query_get_all_ids(ComponentKind::Collider), vec![a.clone()]);
    let b = world.copy_entity(&a).unwrap();
    assert_eq!(world.get_all_entities(), vec![(a.clone(), 3), (b.clone(), 3)]);
    assert!(world.delete_entity(&a));
    assert_eq!(world.get_all_entities(), vec![(b, 3)]);
    let fresh: World<String> = World::new();
    assert!(fresh.get_all_entities().is_empty());
}

fn sc(kind: ComponentKind, value: &str) -> StoredComponent<String> {
    StoredComponent { kind, value: value.to_string() }
}

#[test]
fn restore_entity_sets_components_first_kept() {
    let mut map: ComponentMap<String> = ComponentMap::new();
    let a = spawn(&mut map);
    insert(&mut map, &a, ComponentKind::Camera, "old".to_string());
    restore_entity(
        &mut map,
        a.clone(),
        vec![sc(ComponentKind::Shape, "s1"), sc(ComponentKind::Metadata, "m"), sc(ComponentKind::Shape, "s2")],
    );
    assert_eq!(get_component(&map, &a, ComponentKind::Camera), None);
    assert_eq!(get_component(&map, &a, ComponentKind::Shape), Some("s1".to_string()));
    assert_eq!(get_all_entities(&map), vec![(a.clone(), 2)]);
    restore_entity(&mut map, "named".to_string(), vec![sc(ComponentKind::RigidBody, "r")]);
    assert_eq!(get_component(&map, &"named".to_string(), ComponentKind::RigidBody), Some("r".to_string()));
}

#[test]
fn load_entities_replaces_the_store() {
    let mut map: ComponentMap<String> = ComponentMap::new();
    let old = spawn(&mut map);
    load_entities(
        &mut map,
        vec![
            ("e1".to_string(), vec![sc(ComponentKind::Transform, "t")]),
            ("e2".to_string(), vec![]),
        ],
    );
    assert_eq!(get_all_entities(&map), vec![("e1".to_string(), 1), ("e2".to_string(), 0)]);
    assert!(!delete_entity(&mut map, &old));
}

#[test]
fn saving_and_loading_entities_round_trips() {
    let mut map: ComponentMap<String> = ComponentMap::new();
    let a = spawn(&mut map);
    let b = spawn(&mut map);
    insert(&mut map, &a, ComponentKind::Metadata, "m".to_string());
    insert(&mut map, &a, ComponentKind::Transform, "t".to_string());
    insert(&mut map, &b, ComponentKind::Shape, "s".to_string());
    let saved: Vec<(String, Vec<StoredComponent<String>>)> = get_all_entities(&map)
        .into_iter()
        .map(|(id, _)| {
            let comps = get_all_components(&map, &id);
            (id, comps)
        })
        .collect();
    let mut other: ComponentMap<String> = ComponentMap::new();
    load_entities(&mut other, saved);
    assert_eq!(get_all_entities(&other), get_all_entities(&map));
    for (id, _) in get_all_entities(&map) {
        let x: Vec<(ComponentKind, String)> =
            get_all_components(&map, &id).into_iter().map(|c| (c.kind, c.value)).collect();
        let y: Vec<(ComponentKind, String)> =
            get_all_components(&other, &id).into_iter().map(|c| (c.kind, c.value)).collect();
        assert_eq!(x, y);
    }
}

#[test]
fn loading_entities_in_another_order_keeps_their_components() {
    let mut map: ComponentMap<String> = ComponentMap::new();
    let a = spawn(&mut map);
    let b = spawn(&mut map);
    insert(&mut map, &a, ComponentKind::Metadata, "m".to_string());
    insert(&mut map, &b, ComponentKind::Shape, "s".to_string());
    let mut saved: Vec<(String, Vec<StoredComponent<String>>)> = get_all_entities(&map)
        .into_iter()
        .map(|(id, _)| {
            let comps = get_all_components(&map, &id);
            (id, comps)
        })
        .collect();
    saved.reverse();
    let mut other: ComponentMap<String> = ComponentMap::new();
    load_entities(&mut other, saved);
    assert_eq!(get_all_entities(&other), vec![(b.clone(), 1), (a.clone(), 1)]);
    assert_eq!(get_component(&other, &a, ComponentKind::Metadata), Some("m".to_string()));
    assert_eq!(get_component(&other, &b, ComponentKind::Shape), Some("s".to_string()));
    assert_eq!(get_component(&other, &a, ComponentKind::Shape), None);
}

#[test]
fn spawned_ids_are_version_four_uuid_text() {
    let mut map: ComponentMap<String> = ComponentMap::new();
    let id = spawn(&mut map);
    let chars: Vec<char> = id.chars().collect();
    assert_eq!(chars.len(), 36);
    for (i, c) in chars.iter().enumerate() {
        if i == 8 || i == 13 || i == 18 || i == 23 {
            assert_eq!(*c, '-');
        } else {
            assert!(c.is_ascii_digit() || ('a'..='f').contains(c));
        }
    }
    assert_eq!(chars[14], '4');
    assert!(matches!(chars[19], '8' | '9' | 'a' | 'b'));
}

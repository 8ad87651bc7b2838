use rpg_character::{
    AnimationSwitch, AvatarSearch, SpriteWatch, RpgDirection, SpriteDirections, StaticNpc2d, TransitionCache,
};

#[test]
fn transition_node_is_made_once_per_scene() {
    let mut cache: TransitionCache<&str, u32> = TransitionCache::new();
    assert_eq!(cache.transition(), None);
    assert_eq!(cache.scene_to_instantiate(), None);
    assert_eq!(cache.get_transition_node(), None);
    cache.set_transition(Some("fade"));
    assert_eq!(cache.transition(), Some(&"fade"));
    assert_eq!(cache.scene_to_instantiate(), Some(&"fade"));
    assert_eq!(cache.get_transition_node(), None);
    cache.store(1);
    assert_eq!(cache.scene_to_instantiate(), None);
    assert_eq!(cache.get_transition_node(), Some(&1));
    assert_eq!(cache.get_transition_node(), Some(&1));
    // a new scene drops the node
    cache.set_transition(Some("wipe"));
    assert_eq!(cache.get_transition_node(), None);
    assert_eq!(cache.scene_to_instantiate(), Some(&"wipe"));
    cache.store(2);
    assert_eq!(cache.get_transition_node(), Some(&2));
    // no scene, no node
    cache.set_transition(None);
    assert_eq!(cache.get_transition_node(), None);
    assert_eq!(cache.scene_to_instantiate(), None);
}

fn children(n: u32) -> Vec<u32> {
    // tree: 0 -> [1, 2], 2 -> [3], 1 -> [4]
    match n {
        0 => vec![1, 2],
        1 => vec![4],
        2 => vec![3],
        _ => vec![],
    }
}

#[test]
fn avatar_search_is_depth_first_and_visits_the_whole_tree() {
    let mut search = AvatarSearch::new(0u32);
    let mut order = Vec::new();
    let mut next = search.next_node();
    while let Some(n) = next {
        order.push(n);
        next = search.reject(children(n));
    }
    // every node of the five-node tree, each once, last child first
    assert_eq!(order, vec![0, 2, 3, 1, 4]);
    assert_eq!(search.next_node(), None);
}

#[test]
fn avatar_search_stops_when_found() {
    let mut search = AvatarSearch::new(0u32);
    let mut next = search.next_node();
    let mut found = None;
    while let Some(n) = next {
        if n == 3 {
            found = Some(n);
            break;
        }
        next = search.reject(children(n));
    }
    assert_eq!(found, Some(3));
    // the rest of the tree is still to search
    assert_eq!(search.next_node(), Some(1));
}

#[test]
fn avatar_search_of_a_lone_root() {
    let mut search = AvatarSearch::new(5u32);
    assert_eq!(search.next_node(), Some(5));
    assert_eq!(search.reject(vec![]), None);
    assert_eq!(search.next_node(), None);
}

#[test]
fn npc_adopts_one_sprite() {
    let mut npc: StaticNpc2d<(i32, u8)> = StaticNpc2d::new();
    assert_eq!(npc.facing_dir(), RpgDirection::South);
    assert!(!npc.has_sprite());
    assert_eq!(npc.watched_signal(), SpriteWatch::ChildEntered);
    // turning without a sprite only changes the direction
    assert_eq!(npc.set_facing_dir(RpgDirection::West, false), None);
    let s = npc.on_child_entered_tree(SpriteDirections::All, false);
    assert_eq!(s, Some(AnimationSwitch { name: "walk_west", keep_progress: false }));
    assert!(npc.has_sprite());
    assert_eq!(npc.watched_signal(), SpriteWatch::SpriteExiting);
    // a second sprite is ignored
    assert_eq!(npc.on_child_entered_tree(SpriteDirections::Cardinals, true), None);
    let s = npc.set_facing_dir(RpgDirection::NorthEast, true);
    assert_eq!(s, Some(AnimationSwitch { name: "walk_northeast", keep_progress: true }));
    npc.on_sprite_exiting();
    assert!(!npc.has_sprite());
    assert_eq!(npc.watched_signal(), SpriteWatch::ChildEntered);
    assert_eq!(npc.facing_dir(), RpgDirection::NorthEast);
}

#[test]
fn npc_with_cardinal_sprite() {
    let mut npc: StaticNpc2d<u8> = StaticNpc2d::new();
    npc.set_facing_dir(RpgDirection::NorthWest, false);
    // north-west with only cardinals: starts from east, which is not adjacent, so west
    let s = npc.on_child_entered_tree(SpriteDirections::Cardinals, true);
    assert_eq!(s, Some(AnimationSwitch { name: "walk_west", keep_progress: true }));
    // turning north-east from west: west is not adjacent, so north
    let s = npc.set_facing_dir(RpgDirection::NorthEast, false);
    assert_eq!(s, Some(AnimationSwitch { name: "walk_north", keep_progress: false }));
}

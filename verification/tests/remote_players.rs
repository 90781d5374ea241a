use player_sync::remote_players::{
    delete_command, find_other_player, plan_events, should_forward, update_command, OtherPlayer,
    PlayerId, SceneCommand,
};

fn pid(n: u128) -> PlayerId {
    PlayerId { high: 7, low: n }
}

fn scene() -> Vec<OtherPlayer> {
    vec![
        OtherPlayer { entity: 10, player: pid(1) },
        OtherPlayer { entity: 11, player: pid(2) },
        OtherPlayer { entity: 12, player: pid(1) },
    ]
}

#[test]
fn own_rows_are_not_forwarded() {
    assert!(!should_forward(pid(1), pid(1)));
    assert!(should_forward(pid(1), pid(2)));
    assert!(should_forward(PlayerId { high: 1, low: 5 }, PlayerId { high: 2, low: 5 }));
}

#[test]
fn find_takes_the_first_match() {
    let s = scene();
    assert_eq!(find_other_player(&s, pid(1)), Some(0));
    assert_eq!(find_other_player(&s, pid(2)), Some(1));
    assert_eq!(find_other_player(&s, pid(3)), None);
    assert_eq!(find_other_player(&Vec::new(), pid(1)), None);
}

#[test]
fn update_of_known_player_moves_its_entity() {
    let s = scene();
    assert_eq!(update_command(&s, pid(2), 4), SceneCommand::MoveTo { entity: 11, update: 4 });
    assert_eq!(update_command(&s, pid(1), 0), SceneCommand::MoveTo { entity: 10, update: 0 });
}

#[test]
fn update_of_unknown_player_spawns() {
    let s = scene();
    assert_eq!(update_command(&s, pid(9), 2), SceneCommand::Spawn { player: pid(9), update: 2 });
}

#[test]
fn delete_of_known_and_unknown_player() {
    let s = scene();
    assert_eq!(delete_command(&s, pid(2)), Some(SceneCommand::Despawn { entity: 11 }));
    assert_eq!(delete_command(&s, pid(9)), None);
}

#[test]
fn frame_plan_updates_then_deletes() {
    let s = scene();
    let updates = vec![pid(2), pid(5), pid(1)];
    let deletes = vec![pid(8), pid(1), pid(2)];
    let cmds = plan_events(&s, &updates, &deletes);
    assert_eq!(
        cmds,
        vec![
            SceneCommand::MoveTo { entity: 11, update: 0 },
            SceneCommand::Spawn { player: pid(5), update: 1 },
            SceneCommand::MoveTo { entity: 10, update: 2 },
            SceneCommand::Despawn { entity: 10 },
            SceneCommand::Despawn { entity: 11 },
        ]
    );
}

#[test]
fn same_frame_updates_of_a_new_player_spawn_twice() {
    // Lookups go against the scene as it stood when the frame began.
    let s: Vec<OtherPlayer> = Vec::new();
    let updates = vec![pid(3), pid(3)];
    let cmds = plan_events(&s, &updates, &vec![pid(3)]);
    assert_eq!(
        cmds,
        vec![
            SceneCommand::Spawn { player: pid(3), update: 0 },
            SceneCommand::Spawn { player: pid(3), update: 1 },
        ]
    );
}

#[test]
fn empty_frame_plans_nothing() {
    assert!(plan_events(&scene(), &Vec::new(), &Vec::new()).is_empty());
}

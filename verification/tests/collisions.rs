use vector_survivor::components::AttackTarget;
use vector_survivor::movement::{
    bullet_collision, mouse_direction, move_bullet, move_player, move_player_with_mouse, move_to,
    resolve, role, Contact, Direction, DirectionKeys, Outcome, Role, Sign, Tags,
};
use vector_survivor::states::AppState;

const BULLET: Tags = Tags { bullet: true, enemy: false, player: false };
const ENEMY: Tags = Tags { bullet: false, enemy: true, player: false };
const PLAYER: Tags = Tags { bullet: false, enemy: false, player: true };
const PLAIN: Tags = Tags { bullet: false, enemy: false, player: false };

const B1: u64 = 101;
const E1: u64 = 201;
const P1: u64 = 1;

fn contact(entity1: u64, tags1: Tags, entity2: u64, tags2: Tags) -> Contact {
    Contact { entity1, tags1, entity2, tags2 }
}

#[test]
fn bullet_hits_enemy() {
    let resolution = bullet_collision(&vec![contact(B1, BULLET, E1, ENEMY)]);
    assert_eq!(resolution.despawned, vec![B1, E1]);
    assert_eq!(resolution.kills, 1);
    assert_eq!(resolution.next, None);
}

#[test]
fn enemy_reaches_player() {
    let resolution = bullet_collision(&vec![contact(E1, ENEMY, P1, PLAYER)]);
    assert!(resolution.despawned.is_empty());
    assert_eq!(resolution.kills, 0);
    assert_eq!(resolution.next, Some(AppState::GameOver));
}

#[test]
fn either_order_of_the_two_entities() {
    assert_eq!(
        resolve(&contact(B1, BULLET, E1, ENEMY)),
        Outcome::Kill { bullet: B1, enemy: E1 }
    );
    assert_eq!(
        resolve(&contact(E1, ENEMY, B1, BULLET)),
        Outcome::Kill { bullet: B1, enemy: E1 }
    );
    assert_eq!(resolve(&contact(E1, ENEMY, P1, PLAYER)), Outcome::GameOver);
    assert_eq!(resolve(&contact(P1, PLAYER, E1, ENEMY)), Outcome::GameOver);
}

#[test]
fn other_pairs_are_ignored() {
    let pairs = [
        (BULLET, BULLET),
        (ENEMY, ENEMY),
        (PLAYER, PLAYER),
        (BULLET, PLAYER),
        (PLAYER, BULLET),
        (PLAIN, ENEMY),
        (BULLET, PLAIN),
        (PLAIN, PLAYER),
        (PLAIN, PLAIN),
    ];
    for (tags1, tags2) in pairs {
        assert_eq!(resolve(&contact(5, tags1, 6, tags2)), Outcome::Ignored);
    }
    let contacts: Vec<Contact> = pairs.iter().map(|pair| contact(5, pair.0, 6, pair.1)).collect();
    let resolution = bullet_collision(&contacts);
    assert!(resolution.despawned.is_empty());
    assert_eq!(resolution.kills, 0);
    assert_eq!(resolution.next, None);
}

#[test]
fn one_role_per_entity() {
    assert_eq!(role(&BULLET), Some(Role::Bullet));
    assert_eq!(role(&ENEMY), Some(Role::Enemy));
    assert_eq!(role(&PLAYER), Some(Role::Player));
    assert_eq!(role(&PLAIN), None);
    assert_eq!(role(&Tags { bullet: true, enemy: true, player: true }), Some(Role::Bullet));
    assert_eq!(role(&Tags { bullet: false, enemy: true, player: true }), Some(Role::Enemy));
}

#[test]
fn a_tick_of_contacts() {
    let contacts = vec![
        contact(E1, ENEMY, B1, BULLET),
        contact(7, PLAIN, 8, PLAIN),
        contact(102, BULLET, 202, ENEMY),
        contact(P1, PLAYER, 203, ENEMY),
        contact(103, BULLET, 202, ENEMY),
    ];
    let resolution = bullet_collision(&contacts);
    assert_eq!(resolution.despawned, vec![B1, E1, 102, 202, 103, 202]);
    assert_eq!(resolution.kills, 3);
    assert_eq!(resolution.next, Some(AppState::GameOver));
}

#[test]
fn no_contact_no_outcome() {
    let resolution = bullet_collision(&Vec::new());
    assert!(resolution.despawned.is_empty());
    assert_eq!(resolution.kills, 0);
    assert_eq!(resolution.next, None);
}

fn keys() -> DirectionKeys {
    DirectionKeys {
        up: false,
        w: false,
        down: false,
        s: false,
        right: false,
        d: false,
        left: false,
        a: false,
    }
}

#[test]
fn no_key_no_step() {
    assert_eq!(move_player(&keys()), None);
}

#[test]
fn arrows_and_letters_are_the_same() {
    let up = Some(Direction { x: 0, y: 1 });
    assert_eq!(move_player(&DirectionKeys { up: true, ..keys() }), up);
    assert_eq!(move_player(&DirectionKeys { w: true, ..keys() }), up);
    assert_eq!(move_player(&DirectionKeys { up: true, w: true, ..keys() }), up);
    let down = Some(Direction { x: 0, y: -1 });
    assert_eq!(move_player(&DirectionKeys { down: true, ..keys() }), down);
    assert_eq!(move_player(&DirectionKeys { s: true, ..keys() }), down);
    let right = Some(Direction { x: 1, y: 0 });
    assert_eq!(move_player(&DirectionKeys { right: true, ..keys() }), right);
    assert_eq!(move_player(&DirectionKeys { d: true, ..keys() }), right);
    let left = Some(Direction { x: -1, y: 0 });
    assert_eq!(move_player(&DirectionKeys { left: true, ..keys() }), left);
    assert_eq!(move_player(&DirectionKeys { a: true, ..keys() }), left);
}

#[test]
fn diagonal_is_not_scaled() {
    assert_eq!(
        move_player(&DirectionKeys { up: true, d: true, ..keys() }),
        Some(Direction { x: 1, y: 1 })
    );
    assert_eq!(
        move_player(&DirectionKeys { s: true, left: true, ..keys() }),
        Some(Direction { x: -1, y: -1 })
    );
}

#[test]
fn opposite_keys_cancel() {
    assert_eq!(move_player(&DirectionKeys { up: true, s: true, ..keys() }), None);
    assert_eq!(
        move_player(&DirectionKeys { up: true, down: true, right: true, ..keys() }),
        Some(Direction { x: 1, y: 0 })
    );
    assert_eq!(
        move_player(&DirectionKeys { left: true, d: true, w: true, ..keys() }),
        Some(Direction { x: 0, y: 1 })
    );
}

#[test]
fn mouse_motion_goes_up_on_falling_values() {
    assert_eq!(mouse_direction((Sign::Zero, Sign::Negative)), Direction { x: 0, y: 1 });
    assert_eq!(mouse_direction((Sign::Zero, Sign::Positive)), Direction { x: 0, y: -1 });
    assert_eq!(mouse_direction((Sign::Positive, Sign::Zero)), Direction { x: 1, y: 0 });
    assert_eq!(mouse_direction((Sign::Negative, Sign::Zero)), Direction { x: -1, y: 0 });
    assert_eq!(mouse_direction((Sign::Zero, Sign::Zero)), Direction { x: 0, y: 0 });
}

#[test]
fn mouse_steps() {
    let motions = vec![
        (Sign::Positive, Sign::Negative),
        (Sign::Negative, Sign::Zero),
        (Sign::Zero, Sign::Zero),
        (Sign::Positive, Sign::Positive),
    ];
    assert_eq!(
        move_player_with_mouse(true, &motions),
        vec![Direction { x: 1, y: 1 }, Direction { x: -1, y: 0 }]
    );
    assert_eq!(move_player_with_mouse(false, &motions), Vec::<Direction>::new());
    assert_eq!(move_player_with_mouse(true, &Vec::new()), Vec::<Direction>::new());
    assert_eq!(
        move_player_with_mouse(true, &vec![(Sign::Negative, Sign::Positive)]),
        vec![Direction { x: -1, y: -1 }]
    );
}

#[test]
fn step_toward_a_target() {
    assert_eq!(move_to((0, 0), (5, -3)), Direction { x: 1, y: -1 });
    assert_eq!(move_to((5, -3), (0, 0)), Direction { x: -1, y: 1 });
    assert_eq!(move_to((2, 2), (2, 9)), Direction { x: 0, y: 1 });
    assert_eq!(move_to((2, 2), (2, 2)), Direction { x: 0, y: 0 });
    assert_eq!(move_to((i64::MIN, i64::MAX), (i64::MAX, i64::MIN)), Direction { x: 1, y: -1 });
}

#[test]
fn bullet_finds_its_living_target() {
    let enemies = vec![30, 10, 20, 10];
    assert_eq!(move_bullet(&AttackTarget(30), &enemies), Some(0));
    assert_eq!(move_bullet(&AttackTarget(10), &enemies), Some(1));
    assert_eq!(move_bullet(&AttackTarget(20), &enemies), Some(2));
}

#[test]
fn bullet_keeps_its_heading_when_the_target_is_gone() {
    assert_eq!(move_bullet(&AttackTarget(99), &vec![30, 10, 20]), None);
    assert_eq!(move_bullet(&AttackTarget(99), &Vec::new()), None);
}

use space_physics::hull::{standard_hull, MAIN_FORCE, SIDE_FORCE};
use space_physics::thrusters::{apply_thrusters, Thruster};
use space_physics::vector::BodyVector;

fn vector(x: i32, y: i32, z: i32) -> BodyVector {
    BodyVector { x, y, z }
}

#[test]
fn standard_hull_has_one_main_and_sixteen_side_thrusters() {
    let hull = standard_hull();
    assert_eq!(hull.len(), 17);
    assert_eq!(MAIN_FORCE, 1000);
    assert_eq!(SIDE_FORCE, 100);
    assert_eq!(
        hull[0],
        Thruster { position: vector(0, 0, 1500), direction: vector(0, 0, 1), force: 1000 }
    );
    assert!(hull[1..].iter().all(|thruster| thruster.force == 100));
}

#[test]
fn standard_hull_lists_its_thrusters_face_by_face() {
    let hull = standard_hull();
    let mounts: Vec<(i32, i32, i32)> = hull
        .iter()
        .map(|thruster| (thruster.position.x, thruster.position.y, thruster.position.z))
        .collect();
    assert_eq!(
        mounts,
        vec![
            (0, 0, 1500),
            (0, 550, -1100),
            (0, 550, 1100),
            (-400, 550, 0),
            (400, 550, 0),
            (0, -550, -1100),
            (0, -550, 1100),
            (-400, -550, 0),
            (400, -550, 0),
            (-550, 0, -1100),
            (-550, 0, 1100),
            (-550, 400, 0),
            (-550, -400, 0),
            (550, 0, -1100),
            (550, 0, 1100),
            (550, 400, 0),
            (550, -400, 0),
        ]
    );
    for (index, thruster) in hull.iter().enumerate() {
        let expected = match index {
            0 => vector(0, 0, 1),
            1..=4 => vector(0, 1, 0),
            5..=8 => vector(0, -1, 0),
            9..=12 => vector(-1, 0, 0),
            _ => vector(1, 0, 0),
        };
        assert_eq!(thruster.direction, expected);
    }
}

#[test]
fn side_thrusters_blow_away_from_the_hull() {
    for thruster in &standard_hull()[1..] {
        assert!(thruster.direction.dot(&thruster.position) > 0);
    }
}

#[test]
fn standard_hull_turns_every_way() {
    let hull = standard_hull();
    let none = vector(0, 0, 0);
    for x in -2..=2 {
        for y in -2..=2 {
            for z in -2..=2 {
                let rotation = vector(x, y, z);
                let turning = apply_thrusters(&none, &rotation, &hull).contains(&true);
                assert_eq!(turning, !rotation.is_zero());
            }
        }
    }
}

#[test]
fn standard_hull_pushes_every_way_but_straight_back() {
    let hull = standard_hull();
    let none = vector(0, 0, 0);
    for x in -2..=2 {
        for y in -2..=2 {
            for z in -2..=2 {
                let movement = vector(x, y, z);
                let pushing = apply_thrusters(&movement, &none, &hull).contains(&true);
                assert_eq!(pushing, x != 0 || y != 0 || z < 0);
            }
        }
    }
}

#[test]
fn forward_intent_fires_the_main_thruster_alone() {
    let hull = standard_hull();
    let firing = apply_thrusters(&vector(0, 0, -1), &vector(0, 0, 0), &hull);
    let mut expected = vec![false; 17];
    expected[0] = true;
    assert_eq!(firing, expected);
}

#[test]
fn yaw_intent_fires_the_two_side_thrusters_that_yaw() {
    let hull = standard_hull();
    let firing = apply_thrusters(&vector(0, 0, 0), &vector(0, 1, 0), &hull);
    let selected: Vec<usize> = (0..17).filter(|index| firing[*index]).collect();
    assert_eq!(selected, vec![10, 13]);
}

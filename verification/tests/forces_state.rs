use crowd_sim::configuration::{
    Configuration, DistributionValue, ForcesRepulsionCoeff, ForcesTargetSpeed, FovBackward,
    FovForward, Key,
};
use crowd_sim::scalar::Scalar;
use crowd_sim::simulation::forces::{
    FluctuationForce, Force, Forces, HerdingForce, PersonForcesParams, RepulsionForce, TargetForce,
};
use crowd_sim::simulation::person::Person;
use crowd_sim::simulation::scene::{Area, Corner};
use crowd_sim::utils::linelg::{Point, Vector};

fn scalar(x: f64) -> Scalar {
    Scalar::from_bits(x.to_bits())
}

fn uniform(from: f64, to: f64) -> DistributionValue {
    DistributionValue::UniformDistributionValue { from: scalar(from), to: scalar(to) }
}

fn vector(x: f64, y: f64) -> Vector {
    Vector::new(scalar(x), scalar(y))
}

#[test]
fn the_forces_act_in_a_fixed_order() {
    let mut config = Configuration::empty();
    config.insert(ForcesTargetSpeed(uniform(1.0, 2.0)));
    config.insert(ForcesRepulsionCoeff(uniform(0.1, 0.2)));
    config.insert(FovForward(uniform(3.0, 4.0)));
    config.insert(FovBackward(uniform(5.0, 6.0)));
    let forces = match Forces::new(&config) {
        Ok(forces) => forces,
        Err(_) => panic!("the configuration is complete"),
    };
    assert_eq!(forces.used_forces.len(), 4);
    assert!(matches!(forces.used_forces[0], Force::Target(TargetForce)));
    assert!(matches!(forces.used_forces[1], Force::Repulsion(RepulsionForce)));
    assert!(matches!(forces.used_forces[2], Force::Fluctuation(_)));
    assert!(matches!(forces.used_forces[3], Force::Herding(_)));
    if let Force::Fluctuation(fluctuation) = &forces.used_forces[2] {
        assert!(!fluctuation.is_active(0));
    }
    if let Force::Herding(herding) = &forces.used_forces[3] {
        assert!(herding.path_change.is_none());
    }
    assert_eq!(forces.target_speed, uniform(1.0, 2.0));
    assert_eq!(forces.repulsion_coeff, uniform(0.1, 0.2));
    assert_eq!(forces.forward_fov, uniform(3.0, 4.0));
    assert_eq!(forces.backward_fov, uniform(5.0, 6.0));
}

#[test]
fn the_forces_ask_for_their_settings_in_order() {
    let keys =
        [Key::ForcesTargetSpeed, Key::ForcesRepulsionCoeff, Key::FovForward, Key::FovBackward];
    for missing in 0..keys.len() {
        let mut config = Configuration::empty();
        if missing != 0 {
            config.insert(ForcesTargetSpeed(uniform(1.0, 2.0)));
        }
        if missing != 1 {
            config.insert(ForcesRepulsionCoeff(uniform(1.0, 2.0)));
        }
        if missing != 2 {
            config.insert(FovForward(uniform(1.0, 2.0)));
        }
        if missing != 3 {
            config.insert(FovBackward(uniform(1.0, 2.0)));
        }
        assert_eq!(Forces::new(&config).err(), Some(keys[missing]));
    }
}

#[test]
fn a_fluctuation_acts_for_its_duration_with_one_force() {
    let mut fluctuation = FluctuationForce::new();
    assert!(!fluctuation.is_active(4));
    assert_eq!(fluctuation.force_for_person(4), None);
    assert!(fluctuation.start(4, vector(0.6, 0.8), 3));
    assert!(fluctuation.is_active(4));
    assert_eq!(fluctuation.force_for_person(4), Some(vector(0.6, 0.8)));
    assert_eq!(fluctuation.force_for_person(4), Some(vector(0.6, 0.8)));
    assert!(fluctuation.is_active(4));
    assert_eq!(fluctuation.force_for_person(4), Some(vector(0.6, 0.8)));
    assert!(!fluctuation.is_active(4));
    assert_eq!(fluctuation.force_for_person(4), None);
}

#[test]
fn a_fluctuation_lasts_one_tick_at_least() {
    let mut fluctuation = FluctuationForce::new();
    assert!(fluctuation.start(1, vector(1.0, 0.0), 0));
    assert!(fluctuation.is_active(1));
    assert_eq!(fluctuation.force_for_person(1), Some(vector(1.0, 0.0)));
    assert!(!fluctuation.is_active(1));
    assert!(fluctuation.start(1, vector(0.0, 1.0), 1));
    assert_eq!(fluctuation.force_for_person(1), Some(vector(0.0, 1.0)));
    assert_eq!(fluctuation.force_for_person(1), None);
}

#[test]
fn a_fluctuation_under_way_is_not_started_anew() {
    let mut fluctuation = FluctuationForce::new();
    assert!(fluctuation.start(9, vector(1.0, 1.0), 2));
    assert!(!fluctuation.start(9, vector(5.0, 5.0), 7));
    assert_eq!(fluctuation.force_for_person(9), Some(vector(1.0, 1.0)));
    assert_eq!(fluctuation.force_for_person(9), Some(vector(1.0, 1.0)));
    assert_eq!(fluctuation.force_for_person(9), None);
}

#[test]
fn fluctuations_of_different_people_run_apart() {
    let mut fluctuation = FluctuationForce::new();
    assert!(fluctuation.start(1, vector(1.0, 0.0), 1));
    assert!(fluctuation.start(2, vector(0.0, 2.0), 2));
    assert_eq!(fluctuation.force_for_person(1), Some(vector(1.0, 0.0)));
    assert_eq!(fluctuation.force_for_person(3), None);
    assert!(!fluctuation.is_active(1));
    assert!(fluctuation.is_active(2));
    assert_eq!(fluctuation.force_for_person(2), Some(vector(0.0, 2.0)));
    assert_eq!(fluctuation.force_for_person(2), Some(vector(0.0, 2.0)));
    assert!(!fluctuation.is_active(2));
}

fn neighbour() -> Person {
    Person {
        id: 12,
        coordinates: Point::new(scalar(1.0), scalar(2.0)),
        heading: scalar(0.0),
        path_id: 3,
        current_target_area: Area::new(Corner { x: 1, y: 2 }, Corner { x: 3, y: 4 }, 5),
        current_target_index: 2,
        panic_level: scalar(0.5),
        forces_params: PersonForcesParams {
            target_speed: scalar(1.3),
            repulsion_coeff: scalar(0.5),
            forward_fov: scalar(3.0),
            backward_fov: scalar(1.0),
            herding: scalar(0.1),
        },
    }
}

#[test]
fn strong_herding_suggests_the_path_of_the_last_neighbour() {
    let mut herding = HerdingForce::new();
    assert!(herding.path_change.is_none());
    let other = neighbour();
    herding.note_path_change(true, Some(&other));
    assert_eq!(
        herding.path_change,
        Some((3, Area::new(Corner { x: 1, y: 2 }, Corner { x: 3, y: 4 }, 5), 2))
    );
    herding.note_path_change(false, Some(&other));
    assert!(herding.path_change.is_none());
    herding.note_path_change(true, Some(&other));
    herding.note_path_change(false, None);
    assert!(herding.path_change.is_none());
}

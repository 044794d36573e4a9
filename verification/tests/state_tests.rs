use physics::event::{SimulationEvent, SimulationEvents};
use physics::graphics::Arrow;
use physics::scalar::Scalar;
use physics::shape::ObjectShape;
use physics::state::{
    simulation_tick, time_of, CSObjectState, CSObjectStateBuilder, Collision, ForceIndex,
};
use physics::vector::NVec2;

fn v(x: i64, y: i64) -> NVec2 {
    NVec2::new(Scalar::from_raw(x), Scalar::from_raw(y))
}

fn vi(x: i64, y: i64) -> NVec2 {
    NVec2::new(Scalar::from_int(x), Scalar::from_int(y))
}

fn gravity() -> NVec2 {
    v(0, -9_800_000_000_000)
}

#[test]
fn default_state() {
    let state = CSObjectState::default();
    assert_eq!(state.position, vi(0, 0));
    assert_eq!(state.velocity, vi(0, 0));
    assert_eq!(state.last_velocity, vi(0, 0));
    assert_eq!(state.mass, Scalar::from_int(10));
    assert_eq!(state.acc_list, [vi(0, 0), vi(0, 0)]);
    assert_eq!(state.shape, ObjectShape::circle(Scalar::from_int(10)));
}

#[test]
fn a_state_is_valid_with_a_positive_mass() {
    let mut state = CSObjectState::default();
    assert!(state.is_valid());
    state.mass = Scalar::zero();
    assert!(!state.is_valid());
    state.mass = Scalar::from_int(-1);
    assert!(!state.is_valid());
    // a mass of zero takes part in a contact without any change of velocity
    let mut other = CSObjectState::default();
    other.position = vi(3, 4);
    other.velocity = vi(1, 1);
    state.mass = Scalar::zero();
    let event = state.contact(&other).unwrap();
    assert_eq!(event.obj1_velocity, vi(0, 0));
}

#[test]
fn tick_is_a_240th() {
    assert_eq!(simulation_tick().raw(), 4_166_666_666);
    assert!((simulation_tick().raw() as f64 / 1e12 - 1.0 / 240.0).abs() < 1e-12);
    assert_eq!(time_of(0), Scalar::zero());
    assert_eq!(time_of(240), Scalar::from_int(1));
    assert_eq!(time_of(120).raw(), 500_000_000_000);
    assert_eq!(time_of(490).raw(), 2_041_666_666_666);
}

#[test]
fn force_index_positions() {
    assert_eq!(ForceIndex::Attached.index(), 0);
    assert_eq!(ForceIndex::UserInteraction.index(), 1);
}

#[test]
fn momentum_acceleration_and_net_force() {
    let mut state = CSObjectState::default();
    state.velocity = vi(3, -2);
    state.mass = Scalar::from_int(5);
    state.set_acceleration(ForceIndex::Attached, vi(1, 1));
    state.set_acceleration(ForceIndex::UserInteraction, vi(2, -4));
    assert_eq!(state.acc_list, [vi(1, 1), vi(2, -4)]);
    assert_eq!(state.momentum(), vi(15, -10));
    assert_eq!(state.acceleration(), vi(3, -3));
    assert_eq!(state.sigma_force(), vi(15, -15));
}

#[test]
fn scale_is_five_plus_a_quarter_of_the_mass() {
    let mut state = CSObjectState::default();
    assert_eq!(state.scale().raw(), 7_500_000_000_000);
    state.mass = Scalar::from_int(4);
    assert_eq!(state.scale(), Scalar::from_int(6));
}

#[test]
fn builder_sets_fields() {
    let mut builder = CSObjectStateBuilder::new();
    builder.position(vi(1, 2)).velocity(vi(3, 4)).mass(Scalar::from_int(7));
    let state = builder.build();
    assert_eq!(state.position, vi(1, 2));
    assert_eq!(state.velocity, vi(3, 4));
    assert_eq!(state.mass, Scalar::from_int(7));
    assert_eq!(state.acc_list, [vi(0, 0), vi(0, 0)]);
    let again = CSObjectStateBuilder::from_state(state).build();
    assert_eq!(again.position, vi(1, 2));
}

#[test]
fn integrate_one_tick_of_free_fall() {
    let state = CSObjectState::default();
    let next = state.integrate(&state, gravity());
    assert_eq!(next.velocity, v(0, -40_833_333_333));
    assert_eq!(next.position, v(0, -85_069_444));
    assert_eq!(next.last_velocity, vi(0, 0));
    // 9.8 / 240 and 9.8 / 115200, to the twelfth decimal
    assert!((next.velocity.y.raw() as f64 / 1e12 + 9.8 / 240.0).abs() < 1e-12);
    assert!((next.position.y.raw() as f64 / 1e12 + 9.8 / 115200.0).abs() < 1e-12);
    let after = next.integrate(&next, gravity());
    assert_eq!(after.velocity, v(0, -81_666_666_666));
    assert_eq!(after.position, v(0, -340_277_776));
    assert_eq!(after.last_velocity, v(0, -40_833_333_333));
}

#[test]
fn integrate_after_a_jump_of_the_acceleration() {
    // own acceleration 480 after a tick with none: the velocity gains
    // 480 / 240 and half of that again, not the 2 of a plain step
    let mut state = CSObjectState::default();
    state.set_acceleration(ForceIndex::Attached, vi(480, 0));
    let previous = CSObjectState::default();
    let next = state.integrate(&previous, vi(0, 0));
    assert_eq!(next.velocity, vi(3, 0));
    assert_eq!(next.position, v(6_250_000_000, 0));
    assert_eq!(next.last_velocity, vi(0, 0));
    assert_eq!(next.acc_list, state.acc_list);
}

#[test]
fn integrate_with_changing_acceleration() {
    let mut state = CSObjectState::default();
    state.velocity = vi(1, 2);
    state.set_acceleration(ForceIndex::Attached, vi(3, 0));
    state.set_acceleration(ForceIndex::UserInteraction, vi(0, -1));
    let mut previous = CSObjectState::default();
    previous.set_acceleration(ForceIndex::Attached, vi(1, 0));
    let next = state.integrate(&previous, gravity());
    assert_eq!(next.position, v(4_201_388_888, 8_235_243_056));
    assert_eq!(next.velocity, v(1_016_666_666_666, 1_952_916_666_667));
    assert_eq!(next.last_velocity, vi(1, 2));
    assert_eq!(next.acc_list, state.acc_list);
    assert_eq!(next.mass, state.mass);
}

#[test]
fn integrate_is_a_function_of_its_arguments() {
    let mut state = CSObjectState::default();
    state.velocity = vi(7, -3);
    state.set_acceleration(ForceIndex::UserInteraction, vi(2, 2));
    let previous = CSObjectState::default();
    let first = state.integrate(&previous, gravity());
    let second = state.integrate(&previous, gravity());
    assert_eq!(first.position, second.position);
    assert_eq!(first.velocity, second.velocity);
    assert_eq!(first.last_velocity, second.last_velocity);
}

fn circle_at(position: NVec2, velocity: NVec2, mass: i64) -> CSObjectState {
    let mut state = CSObjectState::default();
    state.position = position;
    state.velocity = velocity;
    state.mass = Scalar::from_int(mass);
    state
}

#[test]
fn contact_of_two_overlapping_circles() {
    let a = circle_at(vi(3, 4), vi(-1, -2), 2);
    let b = circle_at(vi(0, 0), vi(1, 1), 4);
    let event = a.contact(&b).unwrap();
    assert_eq!(event.penetration, Scalar::from_int(15));
    assert_eq!(event.contact_normal, v(600_000_000_000, 800_000_000_000));
    assert_eq!(event.contact_point, v(-3_000_000_000_000, -4_000_000_000_000));
    assert_eq!(event.obj1_velocity, v(1_749_999_999_999, 2_333_333_333_332));
    assert_eq!(event.obj2_velocity, v(-624_999_999_999, -833_333_333_332));
    assert_eq!(event.obj1_state.position, a.position);
    assert_eq!(event.obj2_state.position, b.position);
    assert_eq!(event.obj1_state.velocity, a.velocity);
    assert_eq!(event.obj2_state.velocity, b.velocity);
}

#[test]
fn exchanged_bodies_exchange_the_velocity_changes() {
    let a = circle_at(vi(3, 4), vi(-1, -2), 2);
    let b = circle_at(vi(0, 0), vi(1, 1), 4);
    let event = a.contact(&b).unwrap();
    let exchanged = b.contact(&a).unwrap();
    assert_eq!(exchanged.penetration, Scalar::from_int(15));
    assert_eq!(exchanged.contact_normal, v(-600_000_000_000, -800_000_000_000));
    assert_eq!(exchanged.obj1_velocity, v(-624_999_999_999, -833_333_333_332));
    assert_eq!(exchanged.obj2_velocity, v(1_749_999_999_999, 2_333_333_333_332));
    assert_eq!(exchanged.obj1_velocity, event.obj2_velocity);
    assert_eq!(exchanged.obj2_velocity, event.obj1_velocity);
    assert_eq!(exchanged.obj1_state.position, b.position);
    assert_eq!(exchanged.obj2_state.position, a.position);
}

#[test]
fn no_contact_when_apart_or_just_touching() {
    let b = circle_at(vi(0, 0), vi(0, 0), 1);
    assert!(circle_at(vi(25, 0), vi(0, 0), 1).contact(&b).is_none());
    // the distance equals the sum of the radii: the penetration is zero
    assert!(circle_at(vi(20, 0), vi(0, 0), 1).contact(&b).is_none());
    assert!(circle_at(v(19_999_999_999_999, 0), vi(0, 0), 1).contact(&b).is_some());
}

#[test]
fn boxes_never_collide() {
    let mut a = circle_at(vi(1, 0), vi(0, 0), 1);
    let b = circle_at(vi(0, 0), vi(0, 0), 1);
    a.shape = ObjectShape::rect(Scalar::from_int(5), Scalar::from_int(5));
    assert!(a.contact(&b).is_none());
    assert!(b.contact(&a).is_none());
}

#[test]
fn coincident_centres_give_zero_normal_and_zero_changes() {
    let a = circle_at(vi(5, 5), vi(3, 1), 2);
    let b = circle_at(vi(5, 5), vi(-4, 2), 3);
    let event = a.contact(&b).unwrap();
    assert_eq!(event.contact_normal, vi(0, 0));
    assert_eq!(event.obj1_velocity, vi(0, 0));
    assert_eq!(event.obj2_velocity, vi(0, 0));
    assert_eq!(event.penetration, Scalar::from_int(20));
    assert_eq!(event.contact_point, vi(5, 5));
}

#[test]
fn head_on_collision_is_symmetric() {
    let a = circle_at(vi(5, 5), vi(-3, -3), 5);
    let b = circle_at(vi(-5, -5), vi(3, 3), 5);
    let event = a.contact(&b).unwrap();
    assert_eq!(event.contact_normal, v(707_106_781_186, 707_106_781_186));
    assert_eq!(event.penetration.raw(), 5_857_864_376_270);
    assert_eq!(event.obj1_velocity, v(3_000_000_000_001, 3_000_000_000_001));
    assert_eq!(event.obj2_velocity, v(-3_000_000_000_001, -3_000_000_000_001));
    assert_eq!(event.obj2_velocity, event.obj1_velocity.neg());
}

#[test]
fn contact_along_an_axis_changes_no_velocity() {
    let a = circle_at(vi(15, 0), vi(-3, 0), 5);
    let b = circle_at(vi(0, 0), vi(3, 0), 5);
    let event = a.contact(&b).unwrap();
    assert_eq!(event.contact_normal, vi(1, 0));
    assert_eq!(event.penetration, Scalar::from_int(5));
    assert_eq!(event.contact_point, vi(5, 0));
    assert_eq!(event.obj1_velocity, vi(0, 0));
    assert_eq!(event.obj2_velocity, vi(0, 0));
}

#[test]
fn collision_event_becomes_simulation_event() {
    let a = circle_at(vi(3, 4), vi(-1, -2), 2);
    let b = circle_at(vi(0, 0), vi(1, 1), 4);
    let event = a.contact(&b).unwrap();
    match SimulationEvent::from(event) {
        SimulationEvent::Collision(inner) => {
            assert_eq!(inner.penetration, event.penetration);
            assert_eq!(inner.contact_normal, event.contact_normal);
        }
    }
}

#[test]
fn a_contact_is_shown_by_three_arrows() {
    let a = circle_at(vi(3, 4), vi(-1, -2), 2);
    let b = circle_at(vi(0, 0), vi(1, 1), 4);
    let event = a.contact(&b).unwrap();
    let expected = vec![
        Arrow { origin: vi(0, 0), tip: v(-6_000_000_000_000, -8_000_000_000_000) },
        Arrow { origin: vi(3, 4), tip: v(4_749_999_999_999, 6_333_333_333_332) },
        Arrow { origin: vi(0, 0), tip: v(-624_999_999_999, -833_333_333_332) },
    ];
    assert_eq!(event.get_shapes(), expected);
    assert_eq!(SimulationEvent::Collision(event).get_shapes(), expected);
    let mut events = SimulationEvents::default();
    assert!(events.get_shapes().is_empty());
    events.add_event(SimulationEvent::Collision(event));
    events.add_events(vec![SimulationEvent::Collision(event), SimulationEvent::Collision(event)]);
    assert_eq!(events.len(), 3);
    let shapes = events.get_shapes();
    assert_eq!(shapes.len(), 9);
    assert_eq!(shapes[..3], expected[..]);
    assert_eq!(shapes[6..], expected[..]);
}

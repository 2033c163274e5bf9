//! The free-fly camera component and its per-frame update.
use crate::input::AxisBinding;
use vstd::prelude::*;

verus! {

/// The axis value of a full push: axis values are in thousandths.
pub const AXIS_FULL: i32 = 1000;

/// Speeds are in thousandths of a world unit per second.
pub const SPEED_SCALE: i32 = 1000;

/// Elapsed time is in microseconds.
pub const MICROS_PER_SECOND: u32 = 1_000_000;

/// Translations are in trillionths of a world unit: the product of the
/// axis, speed and time scales.
pub const TRANSLATION_SCALE: i128 = 1_000_000_000_000;

/// A vector in the fixed-point units of a translation.
#[derive(Clone, Copy, Debug, PartialEq, Eq, Structural)]
pub struct Vector3 {
    pub x: i128,
    pub y: i128,
    pub z: i128,
}

impl View for Vector3 {
    type V = (int, int, int);

    open spec fn view(&self) -> (int, int, int) {
        (self.x as int, self.y as int, self.z as int)
    }
}

/// The sum of two vectors.
pub open spec fn add3(a: (int, int, int), b: (int, int, int)) -> (int, int, int) {
    (a.0 + b.0, a.1 + b.1, a.2 + b.2)
}

/// A vector scaled by `k`.
pub open spec fn scale3(k: int, a: (int, int, int)) -> (int, int, int) {
    (k * a.0, k * a.1, k * a.2)
}

/// Whether every component lies in the range of `i128`.
pub open spec fn fits3(a: (int, int, int)) -> bool {
    &&& i128::MIN <= a.0 <= i128::MAX
    &&& i128::MIN <= a.1 <= i128::MAX
    &&& i128::MIN <= a.2 <= i128::MAX
}

/// The velocity in the camera's local axes for axis values `h` and `v`:
/// `(h, 0, -v) * speed`. Forward, a positive vertical axis, is toward -Z.
pub open spec fn velocity(h: int, v: int, speed: int) -> (int, int, int) {
    (h * speed, 0, -(v * speed))
}

/// The translation of one frame: the velocity scaled by the elapsed time.
pub open spec fn displacement(h: int, v: int, speed: int, dt: int) -> (int, int, int) {
    scale3(dt, velocity(h, v, speed))
}

/// The spatial transform of an entity, as far as camera motion touches it:
/// its translation. Orientation stays with the host; here the camera's local
/// axes are the world's.
#[derive(Clone, Copy, Debug, PartialEq, Eq, Structural)]
pub struct Transform {
    pub translation: Vector3,
}

impl Transform {
    /// A transform at `translation`.
    pub fn new(translation: Vector3) -> (r: Transform)
        ensures
            r.translation == translation,
    {
        Transform { translation }
    }

    /// Moves the transform by `delta`, added to its current translation.
    pub fn append_translation(&mut self, delta: Vector3)
        requires
            fits3(add3(old(self).translation@, delta@)),
        ensures
            final(self).translation@ == add3(old(self).translation@, delta@),
    {
        self.translation = Vector3 {
            x: self.translation.x + delta.x,
            y: self.translation.y + delta.y,
            z: self.translation.z + delta.z,
        };
    }
}

/// The component that marks a free-flying camera.
#[derive(Clone, Copy, Debug, PartialEq, Eq, Structural)]
pub struct FreeFlyCamera {
    /// World units per second, in thousandths.
    pub speed: i32,
}

/// The time elapsed since the previous frame.
#[derive(Clone, Copy, Debug, PartialEq, Eq, Structural)]
pub struct Time {
    /// Microseconds.
    pub delta_micros: u32,
}

/// The values of the control axes at the start of a frame, in thousandths.
#[derive(Clone, Copy, Debug, PartialEq, Eq, Structural)]
pub struct InputSnapshot {
    pub horizontal: i32,
    pub vertical: i32,
}

/// The value of `axis` in `input`.
pub open spec fn spec_axis_value(input: InputSnapshot, axis: AxisBinding) -> int {
    match axis {
        AxisBinding::Horizontal => input.horizontal as int,
        AxisBinding::Vertical => input.vertical as int,
    }
}

impl InputSnapshot {
    /// The current value of `axis`.
    pub fn axis_value(&self, axis: AxisBinding) -> (r: i32)
        ensures
            r == spec_axis_value(*self, axis),
    {
        match axis {
            AxisBinding::Horizontal => self.horizontal,
            AxisBinding::Vertical => self.vertical,
        }
    }
}

/// The translation of one frame for a camera of `speed`, with axis values
/// `h` and `v` held for `dt` microseconds.
pub fn frame_translation(h: i32, v: i32, speed: i32, dt: u32) -> (r: Vector3)
    ensures
        r@ == displacement(h as int, v as int, speed as int, dt as int),
{
    assert(-0x4000_0000_0000_0000 <= h * speed <= 0x4000_0000_0000_0000) by (nonlinear_arith)
        requires
            -0x8000_0000 <= h < 0x8000_0000,
            -0x8000_0000 <= speed < 0x8000_0000,
    ;
    assert(-0x4000_0000_0000_0000 <= v * speed <= 0x4000_0000_0000_0000) by (nonlinear_arith)
        requires
            -0x8000_0000 <= v < 0x8000_0000,
            -0x8000_0000 <= speed < 0x8000_0000,
    ;
    let hs: i64 = h as i64 * speed as i64;
    let vs: i64 = v as i64 * speed as i64;
    assert(-0x1_0000_0000_0000_0000_0000_0000 <= hs * dt <= 0x1_0000_0000_0000_0000_0000_0000)
        by (nonlinear_arith)
        requires
            -0x4000_0000_0000_0000 <= hs <= 0x4000_0000_0000_0000,
            0 <= dt < 0x1_0000_0000,
    ;
    assert(-0x1_0000_0000_0000_0000_0000_0000 <= vs * dt <= 0x1_0000_0000_0000_0000_0000_0000)
        by (nonlinear_arith)
        requires
            -0x4000_0000_0000_0000 <= vs <= 0x4000_0000_0000_0000,
            0 <= dt < 0x1_0000_0000,
    ;
    let x: i128 = hs as i128 * dt as i128;
    let z: i128 = -(vs as i128 * dt as i128);
    proof {
        assert(dt * (h * speed) == (h * speed) * dt) by (nonlinear_arith);
        assert(dt * (-(v * speed)) == -((v * speed) * dt)) by (nonlinear_arith);
    }
    Vector3 { x, y: 0, z }
}

/// With both axes at rest a frame moves nothing, whatever the speed and the
/// elapsed time: the translation stays where it was.
pub proof fn lemma_zero_input_no_motion(p: (int, int, int), speed: int, dt: int)
    requires
        speed > 0,
        dt >= 0,
    ensures
        displacement(0, 0, speed, dt) == (0int, 0int, 0int),
        add3(p, displacement(0, 0, speed, dt)) == p,
{
}

/// The displacement is linear in time: `dt` microseconds move `dt` millionths
/// of what one second moves.
pub proof fn lemma_linear_in_time(h: int, v: int, speed: int, dt: int)
    ensures
        scale3(MICROS_PER_SECOND as int, displacement(h, v, speed, dt))
            == scale3(dt, displacement(h, v, speed, MICROS_PER_SECOND as int)),
{
    let s = MICROS_PER_SECOND as int;
    assert(s * (dt * (h * speed)) == dt * (s * (h * speed))) by (nonlinear_arith);
    assert(s * (dt * (-(v * speed))) == dt * (s * (-(v * speed)))) by (nonlinear_arith);
    assert(s * (dt * 0) == dt * (s * 0)) by (nonlinear_arith);
}

/// The displacement is linear in speed: `k` times the speed moves `k` times
/// as far in the same direction; doubling the speed doubles it.
pub proof fn lemma_linear_in_speed(h: int, v: int, speed: int, dt: int, k: int)
    ensures
        displacement(h, v, k * speed, dt) == scale3(k, displacement(h, v, speed, dt)),
        displacement(h, v, 2 * speed, dt) == scale3(2, displacement(h, v, speed, dt)),
{
    assert(dt * (h * (k * speed)) == k * (dt * (h * speed))) by (nonlinear_arith);
    assert(dt * (-(v * (k * speed))) == k * (dt * (-(v * speed)))) by (nonlinear_arith);
    assert(dt * 0 == k * (dt * 0)) by (nonlinear_arith);
    assert(dt * (h * (2 * speed)) == 2 * (dt * (h * speed))) by (nonlinear_arith);
    assert(dt * (-(v * (2 * speed))) == 2 * (dt * (-(v * speed)))) by (nonlinear_arith);
}

/// The axes do not interfere: the horizontal axis alone moves along X only,
/// the vertical axis alone along Z only, toward -Z for a forward push; the
/// X component depends on the horizontal axis alone and the Z component on
/// the vertical axis alone; nothing moves along Y.
pub proof fn lemma_axis_independence(h: int, v: int, h2: int, v2: int, speed: int, dt: int)
    ensures
        displacement(h, 0, speed, dt).1 == 0,
        displacement(h, 0, speed, dt).2 == 0,
        displacement(0, v, speed, dt).0 == 0,
        displacement(0, v, speed, dt).1 == 0,
        displacement(h, v, speed, dt).0 == displacement(h, v2, speed, dt).0,
        displacement(h, v, speed, dt).2 == displacement(h2, v, speed, dt).2,
        v > 0 && speed > 0 && dt > 0 ==> displacement(0, v, speed, dt).2 < 0,
        h > 0 && speed > 0 && dt > 0 ==> displacement(h, 0, speed, dt).0 > 0,
{
    assert(dt * 0 == 0) by (nonlinear_arith);
    assert(dt * (-(0 * speed)) == 0) by (nonlinear_arith);
    assert(v > 0 && speed > 0 && dt > 0 ==> dt * (-(v * speed)) < 0) by (nonlinear_arith);
    assert(h > 0 && speed > 0 && dt > 0 ==> dt * (h * speed) > 0) by (nonlinear_arith);
}

/// Forward is -Z: a full forward push moves the depth component by
/// `-speed * dt`, counted in the fixed-point units of a translation.
pub proof fn lemma_forward_is_negative_z(h: int, speed: int, dt: int)
    ensures
        displacement(h, AXIS_FULL as int, speed, dt).2 == -(AXIS_FULL as int * speed * dt),
{
    assert(dt * (-(1000 * speed)) == -(1000 * speed * dt)) by (nonlinear_arith);
}

/// An entity of the world, with the components that camera motion reads.
#[derive(Clone, Copy, Debug, PartialEq, Eq, Structural)]
pub struct Entity {
    pub camera: Option<FreeFlyCamera>,
    pub transform: Option<Transform>,
}

/// The entities of a world, indexed by their position.
#[derive(Debug)]
pub struct World {
    pub entities: Vec<Entity>,
}

impl World {
    /// A world without entities.
    pub fn new() -> (r: World)
        ensures
            r.entities@ == Seq::<Entity>::empty(),
    {
        World { entities: Vec::new() }
    }

    /// Adds an entity with the given components; returns its index.
    pub fn push(&mut self, camera: Option<FreeFlyCamera>, transform: Option<Transform>) -> (r: usize)
        ensures
            r == old(self).entities@.len(),
            final(self).entities@ == old(self).entities@.push(Entity { camera, transform }),
    {
        let r = self.entities.len();
        self.entities.push(Entity { camera, transform });
        r
    }
}

/// Whether the update moves `e`: it has both a camera and a transform.
pub open spec fn is_matched(e: Entity) -> bool {
    e.camera is Some && e.transform is Some
}

/// The translation that a matched entity has after one frame.
pub open spec fn moved_translation(e: Entity, input: InputSnapshot, time: Time) -> (int, int, int) {
    add3(
        e.transform->0.translation@,
        displacement(
            input.horizontal as int,
            input.vertical as int,
            e.camera->0.speed as int,
            time.delta_micros as int,
        ),
    )
}

/// Whether one frame keeps the translation of `e` in range.
pub open spec fn frame_fits(e: Entity, input: InputSnapshot, time: Time) -> bool {
    is_matched(e) ==> fits3(moved_translation(e, input, time))
}

/// Whether `new` is `old` after one frame: a matched entity keeps its
/// camera and moves by the frame's displacement; any other is unchanged.
pub open spec fn frame_step(old: Entity, new: Entity, input: InputSnapshot, time: Time) -> bool {
    if is_matched(old) {
        &&& new.camera == old.camera
        &&& new.transform is Some
        &&& new.transform->0.translation@ == moved_translation(old, input, time)
    } else {
        new == old
    }
}

/// With both axes at rest a frame leaves every entity exactly as it was.
pub proof fn lemma_zero_input_entity_unchanged(
    old: Entity,
    new: Entity,
    input: InputSnapshot,
    time: Time,
)
    requires
        input.horizontal == 0,
        input.vertical == 0,
        frame_step(old, new, input, time),
    ensures
        new == old,
{
    if is_matched(old) {
        let speed = old.camera->0.speed as int;
        let dt = time.delta_micros as int;
        assert(dt * (0 * speed) == 0 && dt * (-(0 * speed)) == 0 && dt * 0 == 0) by (nonlinear_arith);
        assert(new.transform->0.translation == old.transform->0.translation);
    }
}

/// The system that moves the free-fly cameras.
#[derive(Clone, Copy, Debug, Default, PartialEq, Eq)]
pub struct FreeFlyCameraSystem {}

impl FreeFlyCameraSystem {
    /// Whether one frame keeps every moved translation in range, so that
    /// `run` may be called.
    pub fn can_run(&self, time: &Time, input: &InputSnapshot, world: &World) -> (r: bool)
        ensures
            r == forall|i: int|
                0 <= i < world.entities@.len() ==> frame_fits(
                    #[trigger] world.entities@[i],
                    *input,
                    *time,
                ),
    {
        let h = input.axis_value(AxisBinding::Horizontal);
        let v = input.axis_value(AxisBinding::Vertical);
        let mut i: usize = 0;
        while i < world.entities.len()
            invariant
                i <= world.entities@.len(),
                h == input.horizontal,
                v == input.vertical,
                forall|j: int| 0 <= j < i ==> frame_fits(#[trigger] world.entities@[j], *input, *time),
            decreases world.entities@.len() - i,
        {
            let e = world.entities[i];
            if let (Some(cam), Some(t)) = (e.camera, e.transform) {
                let d = frame_translation(h, v, cam.speed, time.delta_micros);
                let p = t.translation;
                if p.x.checked_add(d.x).is_none() || p.y.checked_add(d.y).is_none()
                    || p.z.checked_add(d.z).is_none() {
                    return false;
                }
            }
            i = i + 1;
        }
        true
    }

    /// Moves every entity that has both a camera and a transform by its
    /// velocity scaled by the elapsed time; every other entity is left as it
    /// was.
    pub fn run(&mut self, time: &Time, input: &InputSnapshot, world: &mut World)
        requires
            forall|i: int|
                0 <= i < old(world).entities@.len() ==> frame_fits(
                    #[trigger] old(world).entities@[i],
                    *input,
                    *time,
                ),
        ensures
            final(world).entities@.len() == old(world).entities@.len(),
            forall|i: int|
                0 <= i < old(world).entities@.len() ==> frame_step(
                    #[trigger] old(world).entities@[i],
                    final(world).entities@[i],
                    *input,
                    *time,
                ),
    {
        let h = input.axis_value(AxisBinding::Horizontal);
        let v = input.axis_value(AxisBinding::Vertical);
        let ghost before = world.entities@;
        let mut i: usize = 0;
        while i < world.entities.len()
            invariant
                i <= world.entities@.len(),
                world.entities@.len() == before.len(),
                h == input.horizontal,
                v == input.vertical,
                forall|j: int| 0 <= j < before.len() ==> frame_fits(#[trigger] before[j], *input, *time),
                forall|j: int|
                    0 <= j < i ==> frame_step(
                        #[trigger] before[j],
                        world.entities@[j],
                        *input,
                        *time,
                    ),
                forall|j: int| i <= j < before.len() ==> #[trigger] world.entities@[j] == before[j],
            decreases world.entities@.len() - i,
        {
            let e = world.entities[i];
            if let (Some(cam), Some(t)) = (e.camera, e.transform) {
                let mut moved = t;
                moved.append_translation(frame_translation(h, v, cam.speed, time.delta_micros));
                world.entities.set(i, Entity { camera: e.camera, transform: Some(moved) });
            }
            i = i + 1;
        }
    }
}

} // verus!

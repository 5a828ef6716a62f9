use vstd::prelude::*;

use rand::Rng;

use crate::body::{valid_velocity, Body, Velocity};
use crate::collision::{contacts_of, contacts_upto, overlaps, query_collisions, Contact};
use crate::geometry::{Bounds, Point, SPEED};

verus! {

/// The velocity component that a contact's resolution component `r` leaves:
/// full speed in the direction of a nonzero push, else `v` unchanged.
pub open spec fn respond_axis(v: i64, r: i64) -> i64 {
    if r > 0 {
        SPEED
    } else if r < 0 {
        (-SPEED) as i64
    } else {
        v
    }
}

/// The velocity after responding to the contacts `cs` in order; on each axis
/// the last contact that pushes along it decides.
pub open spec fn respond(v: Velocity, cs: Seq<Contact>) -> Velocity
    decreases cs.len(),
{
    if cs.len() == 0 {
        v
    } else {
        let w = respond(v, cs.drop_last());
        let r = cs.last().resolution;
        Velocity { x: respond_axis(w.x, r.x), y: respond_axis(w.y, r.y) }
    }
}

/// The velocity component after the boundary rule, for a center coordinate
/// `c` in `[0, limit]`: full speed back inward once `c` is outside.
pub open spec fn bounce_axis(v: i64, c: i64, limit: i64) -> i64 {
    if c < 0 {
        SPEED
    } else if c > limit {
        (-SPEED) as i64
    } else {
        v
    }
}

/// A coordinate moved at velocity component `v` for `dt` microseconds.
pub open spec fn moved(c: i64, v: i64, dt: u64) -> int {
    c + v * dt
}

/// The moved center of `b` is representable.
pub open spec fn can_move(b: Body, dt: u64) -> bool {
    i64::MIN <= moved(b.center.x, b.velocity.x, dt) <= i64::MAX
        && i64::MIN <= moved(b.center.y, b.velocity.y, dt) <= i64::MAX
}

/// Every body of `bodies` can move for `dt` microseconds.
pub open spec fn all_can_move(bodies: Seq<Body>, dt: u64) -> bool {
    forall|i: int| 0 <= i < bodies.len() ==> #[trigger] can_move(bodies[i], dt)
}

/// Every body of `bodies` moves at full speed along both axes.
pub open spec fn all_valid(bodies: Seq<Body>) -> bool {
    forall|i: int| 0 <= i < bodies.len() ==> #[trigger] valid_velocity(bodies[i].velocity)
}

/// Body `i` after one frame of `dt` microseconds, all bodies being at
/// `bodies` when the frame starts: the velocity responds to the contacts and
/// then to the boundary, both seen from the start of the frame, while the
/// center moves by the velocity that the body had when the frame started.
pub open spec fn updated_body(bodies: Seq<Body>, i: int, bounds: Bounds, dt: u64) -> Body {
    let b = bodies[i];
    let v = respond(b.velocity, contacts_of(bodies, i));
    Body {
        center: Point {
            x: moved(b.center.x, b.velocity.x, dt) as i64,
            y: moved(b.center.y, b.velocity.y, dt) as i64,
        },
        velocity: Velocity {
            x: bounce_axis(v.x, b.center.x, bounds.width),
            y: bounce_axis(v.y, b.center.y, bounds.height),
        },
    }
}

/// Body `i` has no contact with a body of index below `n` that it does not
/// overlap.
proof fn lemma_no_contacts(bodies: Seq<Body>, i: int, n: int)
    requires
        0 <= i < bodies.len(),
        0 <= n <= bodies.len(),
        forall|j: int|
            0 <= j < bodies.len() && j != i ==> !overlaps(bodies[i].center, #[trigger] bodies[j].center),
    ensures
        contacts_upto(bodies, i, n) == Seq::<Contact>::empty(),
    decreases n,
{
    if n > 0 {
        lemma_no_contacts(bodies, i, n - 1);
    }
}

/// A frame of no elapsed time leaves a body unchanged, center and velocity,
/// where its center lies within the area and its box overlaps no other body.
pub proof fn lemma_idle_frame(bodies: Seq<Body>, i: int, bounds: Bounds)
    requires
        0 <= i < bodies.len(),
        0 <= bodies[i].center.x <= bounds.width,
        0 <= bodies[i].center.y <= bounds.height,
        forall|j: int|
            0 <= j < bodies.len() && j != i ==> !overlaps(bodies[i].center, #[trigger] bodies[j].center),
    ensures
        updated_body(bodies, i, bounds, 0) == bodies[i],
{
    lemma_no_contacts(bodies, i, bodies.len() as int);
}

/// Relies on rand's `Rng::gen_range` (0.7) on the thread-local generator:
/// a value drawn from `[0, high)`; it panics only where the range is empty.
#[verifier::external_body]
fn random_below(high: i64) -> (r: i64)
    requires
        high > 0,
    ensures
        0 <= r < high,
{
    rand::thread_rng().gen_range(0, high)
}

/// Moves one coordinate for `dt` microseconds.
fn move_coordinate(c: i64, v: i64, dt: u64) -> (r: i64)
    requires
        i64::MIN <= moved(c, v, dt) <= i64::MAX,
    ensures
        r == moved(c, v, dt),
{
    let vi = v as i128;
    let di = dt as i128;
    assert(i128::MIN <= vi * di <= i128::MAX) by (nonlinear_arith)
        requires
            i64::MIN <= vi <= i64::MAX,
            0 <= di <= u64::MAX,
    ;
    let m: i128 = vi * di;
    (c as i128 + m) as i64
}

/// Body `i` after one frame of `dt` microseconds in an area of `bounds`, read
/// from `bodies`, the state of every body when the frame starts. Only body `i`
/// is written, so the bodies of a frame can be updated in any order, or at
/// once, from one snapshot.
pub fn update_body(bodies: &Vec<Body>, i: usize, bounds: Bounds, dt: u64) -> (r: Body)
    requires
        i < bodies.len(),
        can_move(bodies@[i as int], dt),
    ensures
        r == updated_body(bodies@, i as int, bounds, dt),
        r.center.x == bodies@[i as int].center.x + bodies@[i as int].velocity.x * dt,
        r.center.y == bodies@[i as int].center.y + bodies@[i as int].velocity.y * dt,
        bodies@[i as int].center.x < 0 ==> r.velocity.x == SPEED,
        0 <= bounds.width < bodies@[i as int].center.x ==> r.velocity.x == -SPEED,
        bodies@[i as int].center.y < 0 ==> r.velocity.y == SPEED,
        0 <= bounds.height < bodies@[i as int].center.y ==> r.velocity.y == -SPEED,
        valid_velocity(bodies@[i as int].velocity) ==> valid_velocity(r.velocity),
{
    let me = bodies[i];
    let contacts = query_collisions(bodies, i);
    let mut v = me.velocity;
    let mut k: usize = 0;
    while k < contacts.len()
        invariant
            k <= contacts.len(),
            v == respond(me.velocity, contacts@.subrange(0, k as int)),
            valid_velocity(me.velocity) ==> valid_velocity(v),
        decreases contacts.len() - k,
    {
        let res = contacts[k].resolution;
        proof {
            assert(contacts@.subrange(0, k + 1).drop_last() == contacts@.subrange(0, k as int));
        }
        if res.x > 0 {
            v.x = SPEED;
        } else if res.x < 0 {
            v.x = -SPEED;
        }
        if res.y > 0 {
            v.y = SPEED;
        } else if res.y < 0 {
            v.y = -SPEED;
        }
        k = k + 1;
    }
    assert(contacts@.subrange(0, contacts@.len() as int) == contacts@);
    if me.center.x < 0 {
        v.x = SPEED;
    } else if me.center.x > bounds.width {
        v.x = -SPEED;
    }
    if me.center.y < 0 {
        v.y = SPEED;
    } else if me.center.y > bounds.height {
        v.y = -SPEED;
    }
    let x = move_coordinate(me.center.x, me.velocity.x, dt);
    let y = move_coordinate(me.center.y, me.velocity.y, dt);
    Body { center: Point { x, y }, velocity: v }
}

/// The store of all bodies of a simulation.
pub struct World {
    pub bodies: Vec<Body>,
}

impl World {
    /// `count` bodies with centers drawn at random in `[0, width) x [0, height)`,
    /// each with velocity `(initial_speed, initial_speed)`.
    pub fn create(count: usize, bounds: Bounds, initial_speed: i64) -> (w: World)
        requires
            bounds.width > 0,
            bounds.height > 0,
        ensures
            w.bodies@.len() == count,
            forall|i: int|
                0 <= i < count ==> {
                    let b = #[trigger] w.bodies@[i];
                    &&& 0 <= b.center.x < bounds.width
                    &&& 0 <= b.center.y < bounds.height
                    &&& b.velocity == Velocity { x: initial_speed, y: initial_speed }
                },
            initial_speed == SPEED ==> all_valid(w.bodies@),
    {
        let mut bodies: Vec<Body> = Vec::new();
        let mut n: usize = 0;
        while n < count
            invariant
                n <= count,
                bounds.width > 0,
                bounds.height > 0,
                bodies@.len() == n,
                forall|i: int|
                    0 <= i < n ==> {
                        let b = #[trigger] bodies@[i];
                        &&& 0 <= b.center.x < bounds.width
                        &&& 0 <= b.center.y < bounds.height
                        &&& b.velocity == Velocity { x: initial_speed, y: initial_speed }
                    },
            decreases count - n,
        {
            let x = random_below(bounds.width);
            let y = random_below(bounds.height);
            bodies.push(
                Body { center: Point { x, y }, velocity: Velocity { x: initial_speed, y: initial_speed } },
            );
            n = n + 1;
        }
        proof {
            if initial_speed == SPEED {
                assert forall|i: int| 0 <= i < bodies@.len() implies #[trigger] valid_velocity(
                    bodies@[i].velocity,
                ) by {
                    assert(bodies@[i].velocity.x == SPEED);
                }
            }
        }
        World { bodies }
    }

    /// A store holding `bodies`.
    pub fn from_bodies(bodies: Vec<Body>) -> (w: World)
        ensures
            w.bodies@ == bodies@,
    {
        World { bodies }
    }

    /// Advances every body by one frame of `dt` microseconds in an area of
    /// `bounds`; each body's update reads the state of all bodies at the start
    /// of the frame.
    pub fn step(&mut self, bounds: Bounds, dt: u64)
        requires
            all_can_move(old(self).bodies@, dt),
        ensures
            final(self).bodies@.len() == old(self).bodies@.len(),
            forall|i: int|
                0 <= i < old(self).bodies@.len() ==> #[trigger] final(self).bodies@[i]
                    == updated_body(old(self).bodies@, i, bounds, dt),
            all_valid(old(self).bodies@) ==> all_valid(final(self).bodies@),
    {
        let mut next: Vec<Body> = Vec::new();
        let mut i: usize = 0;
        while i < self.bodies.len()
            invariant
                i <= self.bodies@.len(),
                self.bodies@ == old(self).bodies@,
                all_can_move(self.bodies@, dt),
                next@.len() == i,
                forall|k: int|
                    0 <= k < i ==> #[trigger] next@[k] == updated_body(self.bodies@, k, bounds, dt),
                all_valid(self.bodies@) ==> forall|k: int|
                    0 <= k < i ==> #[trigger] valid_velocity(next@[k].velocity),
            decreases self.bodies@.len() - i,
        {
            assert(can_move(self.bodies@[i as int], dt));
            let b = update_body(&self.bodies, i, bounds, dt);
            proof {
                if all_valid(self.bodies@) {
                    assert(valid_velocity(self.bodies@[i as int].velocity));
                }
            }
            next.push(b);
            i = i + 1;
        }
        self.bodies = next;
    }

    /// The center of every body, in order, for drawing.
    pub fn centers(&self) -> (r: Vec<Point>)
        ensures
            r@.len() == self.bodies@.len(),
            forall|i: int| 0 <= i < r@.len() ==> #[trigger] r@[i] == self.bodies@[i].center,
    {
        let mut r: Vec<Point> = Vec::new();
        let mut i: usize = 0;
        while i < self.bodies.len()
            invariant
                i <= self.bodies@.len(),
                r@.len() == i,
                forall|k: int| 0 <= k < i ==> #[trigger] r@[k] == self.bodies@[k].center,
            decreases self.bodies@.len() - i,
        {
            r.push(self.bodies[i].center);
            i = i + 1;
        }
        r
    }
}

} // verus!

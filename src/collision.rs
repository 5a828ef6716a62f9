use vstd::prelude::*;

use crate::body::Body;
use crate::geometry::{abs, Point, SIDE};

verus! {

/// The translation that separates a body from one it overlaps, along the axis
/// of least penetration, in millionths of a distance unit.
#[derive(Clone, Copy, Debug, PartialEq, Eq, Structural)]
pub struct Resolution {
    pub x: i64,
    pub y: i64,
}

/// One body overlapping another: the other body's index, and the translation
/// that would push this body out of it.
#[derive(Clone, Copy, Debug, PartialEq, Eq, Structural)]
pub struct Contact {
    pub other: usize,
    pub resolution: Resolution,
}

/// The square hitboxes centered at `a` and `b` share interior points.
/// Boxes that only touch along an edge do not overlap.
pub open spec fn overlaps(a: Point, b: Point) -> bool {
    abs(a.x - b.x) < SIDE && abs(a.y - b.y) < SIDE
}

/// The overlap is resolved along x: the penetration along x is at most the one
/// along y.
pub open spec fn resolves_along_x(a: Point, b: Point) -> bool {
    abs(a.y - b.y) <= abs(a.x - b.x)
}

/// The signed depth that separates `a` from `b` along one axis, pushing `a`
/// away from `b`; zero where the centers coincide on that axis.
pub open spec fn push(d: int) -> int {
    if d > 0 {
        SIDE - d
    } else if d < 0 {
        -(SIDE + d)
    } else {
        0
    }
}

/// The x component of the minimum translation that moves the box at `a` out
/// of the box at `b`.
pub open spec fn resolution_x(a: Point, b: Point) -> int {
    if resolves_along_x(a, b) { push(a.x - b.x) } else { 0 }
}

/// The y component of the minimum translation that moves the box at `a` out
/// of the box at `b`.
pub open spec fn resolution_y(a: Point, b: Point) -> int {
    if resolves_along_x(a, b) { 0 } else { push(a.y - b.y) }
}

/// The contact of body `i` with body `j`.
pub open spec fn contact_spec(bodies: Seq<Body>, i: int, j: int) -> Contact {
    Contact {
        other: j as usize,
        resolution: Resolution {
            x: resolution_x(bodies[i].center, bodies[j].center) as i64,
            y: resolution_y(bodies[i].center, bodies[j].center) as i64,
        },
    }
}

/// The contacts of body `i` with the bodies of index below `n`, by increasing
/// index of the other body.
pub open spec fn contacts_upto(bodies: Seq<Body>, i: int, n: int) -> Seq<Contact>
    decreases n,
{
    if n <= 0 {
        seq![]
    } else {
        let prev = contacts_upto(bodies, i, n - 1);
        let j = n - 1;
        if j != i && overlaps(bodies[i].center, bodies[j].center) {
            prev.push(contact_spec(bodies, i, j))
        } else {
            prev
        }
    }
}

/// All the contacts of body `i`, by increasing index of the other body.
pub open spec fn contacts_of(bodies: Seq<Body>, i: int) -> Seq<Contact> {
    contacts_upto(bodies, i, bodies.len() as int)
}

/// Tests the boxes centered at `a` and `b` for overlap and, where they
/// overlap, returns the translation that separates `a` from `b`.
pub fn resolve(a: Point, b: Point) -> (r: Option<Resolution>)
    ensures
        r is Some <==> overlaps(a, b),
        r matches Some(res) ==> res.x == resolution_x(a, b) && res.y == resolution_y(a, b),
{
    let dx: i128 = a.x as i128 - b.x as i128;
    let dy: i128 = a.y as i128 - b.y as i128;
    let adx: i128 = if dx < 0 { -dx } else { dx };
    let ady: i128 = if dy < 0 { -dy } else { dy };
    let side = SIDE as i128;
    if adx >= side || ady >= side {
        return None;
    }
    let px: i128 = if dx > 0 { side - dx } else if dx < 0 { -(side + dx) } else { 0 };
    let py: i128 = if dy > 0 { side - dy } else if dy < 0 { -(side + dy) } else { 0 };
    if ady <= adx {
        Some(Resolution { x: px as i64, y: 0 })
    } else {
        Some(Resolution { x: 0, y: py as i64 })
    }
}

/// Every contact of body `i` with another body of `bodies`, by increasing
/// index of the other body.
pub fn query_collisions(bodies: &Vec<Body>, i: usize) -> (r: Vec<Contact>)
    requires
        i < bodies.len(),
    ensures
        r@ == contacts_of(bodies@, i as int),
{
    let mut out: Vec<Contact> = Vec::new();
    let mut j: usize = 0;
    while j < bodies.len()
        invariant
            i < bodies.len(),
            j <= bodies.len(),
            out@ == contacts_upto(bodies@, i as int, j as int),
        decreases bodies.len() - j,
    {
        if j != i {
            match resolve(bodies[i].center, bodies[j].center) {
                Some(res) => {
                    out.push(Contact { other: j, resolution: res });
                },
                None => {},
            }
        }
        j = j + 1;
    }
    out
}

/// Overlap is symmetric, and the two bodies of an overlap are pushed apart by
/// translations of equal size and opposite sign on both axes.
pub proof fn lemma_contact_symmetric(a: Point, b: Point)
    ensures
        overlaps(a, b) == overlaps(b, a),
        resolution_x(a, b) == -resolution_x(b, a),
        resolution_y(a, b) == -resolution_y(b, a),
{
}

/// The contacts of body `i` below index `n` hold its contact with every other
/// body of index below `n` that it overlaps.
proof fn lemma_contacts_upto_hold(bodies: Seq<Body>, i: int, j: int, n: int)
    requires
        0 <= i < bodies.len(),
        0 <= j < n <= bodies.len(),
        j != i,
        overlaps(bodies[i].center, bodies[j].center),
    ensures
        contacts_upto(bodies, i, n).contains(contact_spec(bodies, i, j)),
    decreases n,
{
    if j == n - 1 {
        let cs = contacts_upto(bodies, i, n);
        assert(cs[cs.len() - 1] == contact_spec(bodies, i, j));
    } else {
        lemma_contacts_upto_hold(bodies, i, j, n - 1);
        let prev = contacts_upto(bodies, i, n - 1);
        let k = choose|k: int| 0 <= k < prev.len() && prev[k] == contact_spec(bodies, i, j);
        assert(contacts_upto(bodies, i, n)[k] == contact_spec(bodies, i, j));
    }
}

/// Where the boxes of two bodies overlap, each body's collision query reports
/// the other, and the two resolutions are equal in size and opposite in sign
/// on both axes.
pub proof fn lemma_query_symmetric(bodies: Seq<Body>, i: int, j: int)
    requires
        0 <= i < bodies.len(),
        0 <= j < bodies.len(),
        bodies.len() <= usize::MAX,
        i != j,
        overlaps(bodies[i].center, bodies[j].center),
    ensures
        contacts_of(bodies, i).contains(contact_spec(bodies, i, j)),
        contacts_of(bodies, j).contains(contact_spec(bodies, j, i)),
        contact_spec(bodies, i, j).other == j,
        contact_spec(bodies, j, i).other == i,
        contact_spec(bodies, i, j).resolution.x == -contact_spec(bodies, j, i).resolution.x,
        contact_spec(bodies, i, j).resolution.y == -contact_spec(bodies, j, i).resolution.y,
{
    lemma_contact_symmetric(bodies[i].center, bodies[j].center);
    lemma_contacts_upto_hold(bodies, i, j, bodies.len() as int);
    lemma_contacts_upto_hold(bodies, j, i, bodies.len() as int);
}

} // verus!

//! The movement integrator: the player actor and its per-frame step.

use vstd::prelude::*;
use crate::input::{resolved, InputSnapshot};
use crate::vector::{
    distance_squared, offset_between, Direction, Offset, Planar, Position, DIRECTION_UNIT,
    MICROS_PER_SECOND,
};

verus! {

/// Speed of the player unless another is chosen: one world unit per second.
pub const DEFAULT_SPEED: u32 = 1_000_000;

/// The player actor: where it stands and where it looks.
#[derive(Clone, Copy, Debug, PartialEq, Eq, Structural)]
pub struct Player {
    pub position: Position,
    /// Leads from the player to the point that it faces. The player's
    /// forward axis is the negative first axis, so the player is turned
    /// about the vertical axis by the angle between that axis and this
    /// vector.
    pub heading: Offset,
}

/// What the scene holds for the player: the actor and the actions that are
/// active for it in the current frame.
#[derive(Clone, Copy, Debug, PartialEq, Eq, Structural)]
pub struct PlayerBundle {
    pub player: Player,
    pub action_state: InputSnapshot,
}

/// The player's stage of a frame.
#[derive(Clone, Copy, Debug, PartialEq, Eq, Structural)]
pub struct PlayerPlugin {
    /// Fixed-point steps travelled per second at unit direction.
    pub speed: u32,
}

impl Player {
    /// The heading of a player that has not been turned yet: along its
    /// forward axis.
    pub open spec fn initial_heading() -> Offset {
        Offset { x: (-1_000_000) as i128, y: 0 }
    }
}

impl PlayerBundle {
    /// The bundle of a player that stands at `position`, not turned, with
    /// no action active.
    pub open spec fn at(position: Position) -> PlayerBundle {
        PlayerBundle {
            player: Player { position, heading: Player::initial_heading() },
            action_state: InputSnapshot { up: false, down: false, left: false, right: false },
        }
    }

    /// A player at `position`, not turned, with no action active.
    pub fn new(position: Position) -> (result: Self)
        ensures
            result == PlayerBundle::at(position),
    {
        PlayerBundle {
            player: Player { position, heading: Offset { x: -1_000_000, y: 0 } },
            action_state: InputSnapshot::empty(),
        }
    }
}

impl Default for PlayerPlugin {
    fn default() -> (result: Self)
        ensures
            result.speed == DEFAULT_SPEED,
    {
        PlayerPlugin { speed: DEFAULT_SPEED }
    }
}

impl PlayerPlugin {
    /// The bundle after one frame of `dt` microseconds: the player has
    /// moved along the direction that its active actions resolve to, and
    /// its heading leads from where it now stands to `cursor`.
    pub open spec fn moved(self, bundle: PlayerBundle, cursor: Planar, dt: u32) -> PlayerBundle {
        let position = advanced(
            bundle.player.position,
            resolved(bundle.action_state),
            self.speed,
            dt,
        );
        PlayerBundle {
            player: Player { position, heading: offset_between(position.planar(), cursor) },
            action_state: bundle.action_state,
        }
    }

    /// A stage that moves the player at `speed` steps per second.
    pub fn new(speed: u32) -> (result: Self)
        ensures
            result.speed == speed,
    {
        PlayerPlugin { speed }
    }

    /// Whether the place that the player moves to in a frame of `dt`
    /// microseconds has coordinates that an `i64` can hold.
    pub open spec fn reachable(self, bundle: PlayerBundle, dt: u32) -> bool {
        within_reach(bundle.player.position, resolved(bundle.action_state), self.speed, dt)
    }

    /// Tests whether the player can be moved for a frame of `dt`
    /// microseconds.
    pub fn can_move(&self, bundle: &PlayerBundle, dt: u32) -> (result: bool)
        ensures
            result == self.reachable(*bundle, dt),
    {
        reaches(bundle.player.position, bundle.action_state.resolve(), self.speed, dt)
    }

    /// Moves the player for one frame of `dt` microseconds and turns it
    /// to face `cursor`. The player gets no farther than `speed * dt` over
    /// `MICROS_PER_SECOND` steps, and with an action that is not cancelled
    /// it gets that far, to within the rounding of the step.
    pub fn move_player(&self, bundle: &mut PlayerBundle, cursor: Planar, dt: u32)
        requires
            self.reachable(*old(bundle), dt),
        ensures
            *final(bundle) == self.moved(*old(bundle), cursor, dt),
            dt == 0 || old(bundle).action_state.cancels() ==> final(bundle).player.position == old(
                bundle,
            ).player.position,
            distance_squared(
                final(bundle).player.position.planar(),
                old(bundle).player.position.planar(),
            ) * (MICROS_PER_SECOND * MICROS_PER_SECOND) <= (self.speed * dt) * (self.speed * dt),
            !old(bundle).action_state.cancels() ==> uses_the_budget(
                old(bundle).player.position,
                final(bundle).player.position,
                self.speed,
                dt,
            ),
    {
        let direction = bundle.action_state.resolve();
        let position = integrate(bundle.player.position, direction, self.speed, dt);
        bundle.player.position = position;
        bundle.player.heading = position.xy().offset_to(cursor);
    }
}

/// Fixed-point steps travelled along one axis in `dt` microseconds at
/// `speed` steps per second, where `component` is the direction's
/// component along that axis: `component * speed * dt` over
/// `DIRECTION_UNIT * MICROS_PER_SECOND`, rounded toward zero.
pub open spec fn displacement(component: int, speed: u32, dt: u32) -> int {
    if component >= 0 {
        (component * (speed * dt)) / (DIRECTION_UNIT * MICROS_PER_SECOND)
    } else {
        -(((-component) * (speed * dt)) / (DIRECTION_UNIT * MICROS_PER_SECOND))
    }
}

/// Whether the place reached from `position` after `dt` microseconds along
/// `direction` at `speed` has coordinates that an `i64` can hold.
pub open spec fn within_reach(position: Position, direction: Direction, speed: u32, dt: u32) -> bool {
    &&& i64::MIN <= position.x + displacement(direction.x as int, speed, dt) <= i64::MAX
    &&& i64::MIN <= position.y + displacement(direction.y as int, speed, dt) <= i64::MAX
}

/// The position reached from `position` after `dt` microseconds along
/// `direction` at `speed`: `position + direction * speed * dt`. The
/// vertical axis is left alone.
pub open spec fn advanced(position: Position, direction: Direction, speed: u32, dt: u32) -> Position
    recommends
        within_reach(position, direction, speed, dt),
{
    Position {
        x: (position.x + displacement(direction.x as int, speed, dt)) as i64,
        y: (position.y + displacement(direction.y as int, speed, dt)) as i64,
        z: position.z,
    }
}

/// The size of `value` without its sign.
pub open spec fn magnitude(value: int) -> int {
    if value >= 0 {
        value
    } else {
        -value
    }
}

/// Whether the step from `from` to `to` is as long as `speed * dt` allows,
/// to within the rounding of the step: lengthened by one fixed-point step
/// along each axis, it is longer than `speed * dt` over
/// `MICROS_PER_SECOND` steps less a billionth of that.
pub open spec fn uses_the_budget(from: Position, to: Position, speed: u32, dt: u32) -> bool {
    ((DIRECTION_UNIT - 1) * (DIRECTION_UNIT - 1)) * ((speed * dt) * (speed * dt)) < ((magnitude(
        to.x - from.x,
    ) + 1) * (magnitude(to.x - from.x) + 1) + (magnitude(to.y - from.y) + 1) * (magnitude(
        to.y - from.y,
    ) + 1)) * ((DIRECTION_UNIT * MICROS_PER_SECOND) * (DIRECTION_UNIT * MICROS_PER_SECOND))
}

/// Computes `displacement(component, speed, dt)`.
pub fn travel(component: i32, speed: u32, dt: u32) -> (result: i64)
    ensures
        result == displacement(component as int, speed, dt),
{
    let size: u128 = if component >= 0 {
        component as u128
    } else {
        (-(component as i64)) as u128
    };
    proof {
        lemma_product_bound(speed as int, dt as int, 0x1_0000_0000, 0x1_0000_0000);
    }
    let budget: u128 = speed as u128 * dt as u128;
    proof {
        lemma_product_bound(
            size as int,
            budget as int,
            0x8000_0000,
            0x1_0000_0000_0000_0000int,
        );
    }
    let product: u128 = size * budget;
    let steps: u128 = product / 1_000_000_000_000_000u128;
    assert(DIRECTION_UNIT * MICROS_PER_SECOND == 1_000_000_000_000_000int);
    if component >= 0 {
        steps as i64
    } else {
        -(steps as i64)
    }
}

/// A product of two bounded naturals is bounded by the product of the bounds.
pub proof fn lemma_product_bound(a: int, b: int, a_max: int, b_max: int)
    by (nonlinear_arith)
    requires
        0 <= a <= a_max,
        0 <= b <= b_max,
    ensures
        0 <= a * b <= a_max * b_max,
{
}

/// Tests whether the place reached from `position` after `dt`
/// microseconds along `direction` at `speed` has coordinates that an `i64`
/// can hold.
pub fn reaches(position: Position, direction: Direction, speed: u32, dt: u32) -> (result: bool)
    ensures
        result == within_reach(position, direction, speed, dt),
{
    let x: i128 = position.x as i128 + travel(direction.x, speed, dt) as i128;
    let y: i128 = position.y as i128 + travel(direction.y, speed, dt) as i128;
    i64::MIN as i128 <= x && x <= i64::MAX as i128 && i64::MIN as i128 <= y && y <= i64::MAX as i128
}

/// Moves `position` for `dt` microseconds along `direction` at `speed`:
/// the result is `position + direction * speed * dt`, each component
/// rounded toward `position`.
pub fn integrate(position: Position, direction: Direction, speed: u32, dt: u32) -> (result: Position)
    requires
        within_reach(position, direction, speed, dt),
    ensures
        result == advanced(position, direction, speed, dt),
        result.x == position.x + displacement(direction.x as int, speed, dt),
        result.y == position.y + displacement(direction.y as int, speed, dt),
        result.z == position.z,
        dt == 0 || speed == 0 || direction.is_zero() ==> result == position,
        direction.at_most_unit() ==> distance_squared(result.planar(), position.planar())
            * (MICROS_PER_SECOND * MICROS_PER_SECOND) <= (speed * dt) * (speed * dt),
        direction.is_unit() ==> uses_the_budget(position, result, speed, dt),
{
    proof {
        if dt == 0 || speed == 0 || direction.is_zero() {
            lemma_standing_still(position, direction, speed, dt);
        }
        if direction.at_most_unit() {
            lemma_step_within_budget(position, direction, speed, dt);
        }
        if direction.is_unit() {
            lemma_step_uses_the_budget(position, direction, speed, dt);
        }
    }
    let dx: i64 = travel(direction.x, speed, dt);
    let dy: i64 = travel(direction.y, speed, dt);
    Position { x: position.x + dx, y: position.y + dy, z: position.z }
}

/// Farthest coordinate from which every step is within reach.
pub const SAFE_COORDINATE: i64 = 0x4000_0000_0000_0000;

/// No frame moves the player by more than `2^46` steps along an axis.
pub proof fn lemma_displacement_is_small(component: i32, speed: u32, dt: u32)
    ensures
        -0x4000_0000_0000 <= displacement(component as int, speed, dt) <= 0x4000_0000_0000,
{
    let budget = speed * dt;
    let size = magnitude(component as int);
    lemma_product_bound(speed as int, dt as int, 0x1_0000_0000, 0x1_0000_0000);
    lemma_product_bound(size, budget, 0x8000_0000, 0x1_0000_0000_0000_0000);
    assert(DIRECTION_UNIT * MICROS_PER_SECOND == 1_000_000_000_000_000int);
    let steps = (size * budget) / 1_000_000_000_000_000int;
    assert(steps * 1_000_000_000_000_000 <= size * budget);
    assert(0 <= steps);
}

/// Every step from a place whose coordinates are within `SAFE_COORDINATE`
/// of the origin is within reach, whatever the direction, the speed and
/// the length of the frame.
pub proof fn lemma_far_from_the_edge(position: Position, direction: Direction, speed: u32, dt: u32)
    requires
        -SAFE_COORDINATE <= position.x <= SAFE_COORDINATE,
        -SAFE_COORDINATE <= position.y <= SAFE_COORDINATE,
    ensures
        within_reach(position, direction, speed, dt),
{
    lemma_displacement_is_small(direction.x, speed, dt);
    lemma_displacement_is_small(direction.y, speed, dt);
}

/// With no time elapsed, no speed or no direction, nothing moves.
pub proof fn lemma_standing_still(position: Position, direction: Direction, speed: u32, dt: u32)
    requires
        dt == 0 || speed == 0 || direction.is_zero(),
    ensures
        within_reach(position, direction, speed, dt),
        advanced(position, direction, speed, dt) == position,
{
    let budget = speed * dt;
    let x = direction.x as int;
    let y = direction.y as int;
    assert(DIRECTION_UNIT * MICROS_PER_SECOND == 1_000_000_000_000_000int);
    assert(x * budget == 0 && (-x) * budget == 0 && y * budget == 0 && (-y) * budget == 0)
        by (nonlinear_arith)
        requires
            budget == speed * dt,
            dt == 0 || speed == 0 || (x == 0 && y == 0),
    ;
}

/// Along an axis the whole budget is used: a unit component travels
/// `speed * dt` over `MICROS_PER_SECOND` steps, rounded toward zero.
pub proof fn lemma_axis_uses_the_budget(speed: u32, dt: u32)
    ensures
        displacement(DIRECTION_UNIT as int, speed, dt) == (speed * dt) / (MICROS_PER_SECOND as int),
        displacement(-DIRECTION_UNIT, speed, dt) == -((speed * dt) / (MICROS_PER_SECOND as int)),
{
    let budget = speed * dt;
    assert(DIRECTION_UNIT * MICROS_PER_SECOND == 1_000_000_000_000_000int);
    assert((1_000_000_000 * budget) / 1_000_000_000_000_000int == budget / 1_000_000int);
    assert(-(-DIRECTION_UNIT) == DIRECTION_UNIT);
}

/// In any unit direction the whole budget is used, to within the rounding
/// of the step.
pub proof fn lemma_step_uses_the_budget(position: Position, direction: Direction, speed: u32, dt: u32)
    requires
        direction.is_unit(),
        within_reach(position, direction, speed, dt),
    ensures
        uses_the_budget(position, advanced(position, direction, speed, dt), speed, dt),
{
    let budget = speed * dt;
    let mx = displacement(direction.x as int, speed, dt);
    let my = displacement(direction.y as int, speed, dt);
    let next = advanced(position, direction, speed, dt);
    assert(next.x - position.x == mx);
    assert(next.y - position.y == my);
    lemma_displacement_is_tight(direction.x as int, speed, dt);
    lemma_displacement_is_tight(direction.y as int, speed, dt);
    let lx = (magnitude(mx) + 1) * (magnitude(mx) + 1);
    let ly = (magnitude(my) + 1) * (magnitude(my) + 1);
    let scale = (DIRECTION_UNIT * MICROS_PER_SECOND) * (DIRECTION_UNIT * MICROS_PER_SECOND);
    let cx = direction.x * direction.x;
    let cy = direction.y * direction.y;
    let floor = (DIRECTION_UNIT - 1) * (DIRECTION_UNIT - 1);
    let b2 = budget * budget;
    assert(floor * b2 < (lx + ly) * scale) by (nonlinear_arith)
        requires
            cx * b2 < lx * scale,
            cy * b2 < ly * scale,
            floor <= cx + cy,
            0 <= b2,
            0 <= floor,
    {
        assert((cx + cy) * b2 == cx * b2 + cy * b2);
        assert((lx + ly) * scale == lx * scale + ly * scale);
        assert(floor * b2 <= (cx + cy) * b2);
    }
}

/// A displacement lengthened by one step is longer than the exact product
/// that it rounds.
pub proof fn lemma_displacement_is_tight(component: int, speed: u32, dt: u32)
    ensures
        (component * component) * ((speed * dt) * (speed * dt)) < ((magnitude(
            displacement(component, speed, dt),
        ) + 1) * (magnitude(displacement(component, speed, dt)) + 1)) * ((DIRECTION_UNIT
            * MICROS_PER_SECOND) * (DIRECTION_UNIT * MICROS_PER_SECOND)),
        0 <= (speed * dt) * (speed * dt),
{
    let budget = speed * dt;
    let divisor = DIRECTION_UNIT * MICROS_PER_SECOND;
    let size = magnitude(component);
    let steps = (size * budget) / divisor;
    assert(divisor == 1_000_000_000_000_000int);
    assert(budget >= 0 && budget * budget >= 0) by (nonlinear_arith)
        requires
            budget == speed * dt,
    ;
    assert(size * budget >= 0) by (nonlinear_arith)
        requires
            size >= 0,
            budget >= 0,
    ;
    assert(0 <= steps && size * budget < (steps + 1) * divisor) by (nonlinear_arith)
        requires
            steps == (size * budget) / divisor,
            divisor > 0,
            size * budget >= 0,
    ;
    assert((size * size) * (budget * budget) < ((steps + 1) * (steps + 1)) * (divisor * divisor))
        by (nonlinear_arith)
        requires
            0 <= size * budget < (steps + 1) * divisor,
    {
        assert((size * budget) * (size * budget) < ((steps + 1) * divisor) * ((steps + 1)
            * divisor));
    }
    assert(size * size == component * component) by (nonlinear_arith)
        requires
            size == component || size == -component,
    ;
    assert(magnitude(displacement(component, speed, dt)) == steps);
}

/// Within one frame the player gets no farther than its speed allows: the
/// distance between the old and the new position is at most `speed * dt`
/// steps per second times microseconds, that is `speed * dt` over
/// `MICROS_PER_SECOND` steps.
pub proof fn lemma_step_within_budget(position: Position, direction: Direction, speed: u32, dt: u32)
    requires
        direction.at_most_unit(),
        within_reach(position, direction, speed, dt),
    ensures
        distance_squared(advanced(position, direction, speed, dt).planar(), position.planar())
            * (MICROS_PER_SECOND * MICROS_PER_SECOND) <= (speed * dt) * (speed * dt),
{
    let budget = speed * dt;
    let mx = displacement(direction.x as int, speed, dt);
    let my = displacement(direction.y as int, speed, dt);
    let next = advanced(position, direction, speed, dt);
    let ex = next.x - position.x;
    let ey = next.y - position.y;
    lemma_displacement_bound(direction.x as int, speed, dt);
    lemma_displacement_bound(direction.y as int, speed, dt);
    lemma_shorter_square(ex, mx);
    lemma_shorter_square(ey, my);
    lemma_scaled_sum(
        ex * ex,
        ey * ey,
        mx * mx,
        my * my,
        direction.x * direction.x,
        direction.y * direction.y,
        budget * budget,
        DIRECTION_UNIT * DIRECTION_UNIT,
        MICROS_PER_SECOND * MICROS_PER_SECOND,
    );
}

/// The square of a displacement, scaled back, stays within the square of
/// the component times the square of the budget.
pub proof fn lemma_displacement_bound(component: int, speed: u32, dt: u32)
    ensures
        displacement(component, speed, dt) * displacement(component, speed, dt) * ((DIRECTION_UNIT
            * DIRECTION_UNIT) * (MICROS_PER_SECOND * MICROS_PER_SECOND)) <= (component * component)
            * ((speed * dt) * (speed * dt)),
        component >= 0 ==> displacement(component, speed, dt) >= 0,
        component <= 0 ==> displacement(component, speed, dt) <= 0,
{
    let budget = speed * dt;
    let divisor = DIRECTION_UNIT * MICROS_PER_SECOND;
    let size = if component >= 0 { component } else { -component };
    let steps = (size * budget) / divisor;
    assert(divisor == 1_000_000_000_000_000int);
    assert(budget >= 0) by (nonlinear_arith)
        requires
            budget == speed * dt,
    ;
    assert(size * budget >= 0) by (nonlinear_arith)
        requires
            size >= 0,
            budget >= 0,
    ;
    assert(0 <= steps && steps * divisor <= size * budget) by (nonlinear_arith)
        requires
            steps == (size * budget) / divisor,
            divisor > 0,
            size * budget >= 0,
    ;
    assert((steps * steps) * ((DIRECTION_UNIT * DIRECTION_UNIT) * (MICROS_PER_SECOND
        * MICROS_PER_SECOND)) <= (size * size) * (budget * budget)) by (nonlinear_arith)
        requires
            0 <= steps,
            steps * divisor <= size * budget,
            divisor == DIRECTION_UNIT * MICROS_PER_SECOND,
    {
        assert((steps * divisor) * (steps * divisor) <= (size * budget) * (size * budget));
    }
    assert(size * size == component * component) by (nonlinear_arith)
        requires
            size == component || size == -component,
    ;
    if component == 0 {
        assert(size * budget == 0) by (nonlinear_arith)
            requires
                size == 0,
        ;
        assert(steps == 0);
    }
    let moved = displacement(component, speed, dt);
    assert(moved * moved == steps * steps) by (nonlinear_arith)
        requires
            moved == steps || moved == -steps,
    ;
}

/// A value between zero and `bound`, on the same side of zero, has no
/// larger a square.
pub proof fn lemma_shorter_square(value: int, bound: int)
    by (nonlinear_arith)
    requires
        (0 <= value <= bound) || (bound <= value <= 0),
    ensures
        0 <= value * value <= bound * bound,
{
}

/// From bounds on two scaled squares to a bound on their sum, with the
/// common factor `unit_sq` taken out.
pub proof fn lemma_scaled_sum(
    ex2: int,
    ey2: int,
    mx2: int,
    my2: int,
    dx2: int,
    dy2: int,
    budget2: int,
    unit_sq: int,
    time_sq: int,
)
    by (nonlinear_arith)
    requires
        0 <= ex2 <= mx2,
        0 <= ey2 <= my2,
        mx2 * (unit_sq * time_sq) <= dx2 * budget2,
        my2 * (unit_sq * time_sq) <= dy2 * budget2,
        dx2 + dy2 <= unit_sq,
        0 <= budget2,
        0 < unit_sq,
        0 <= time_sq,
    ensures
        (ex2 + ey2) * time_sq <= budget2,
{
    assert((mx2 + my2) * (unit_sq * time_sq) <= (dx2 + dy2) * budget2);
    assert((dx2 + dy2) * budget2 <= unit_sq * budget2);
    assert(((mx2 + my2) * time_sq) * unit_sq <= budget2 * unit_sq);
    assert((mx2 + my2) * time_sq <= budget2);
    assert((ex2 + ey2) * time_sq <= (mx2 + my2) * time_sq);
}

} // verus!

//! The input resolver: from the logical actions that are active in a frame
//! to a movement direction.

use vstd::prelude::*;
use crate::vector::{lemma_direction_squares, Direction, DIAGONAL, DIRECTION_UNIT};

verus! {

/// A logical movement action.
#[derive(Clone, Copy, Debug, PartialEq, Eq, Hash, Structural)]
pub enum Action {
    Up,
    Down,
    Left,
    Right,
}

/// A key or a pad button that is bound to an action.
#[derive(Clone, Copy, Debug, PartialEq, Eq, Hash, Structural)]
pub enum Binding {
    ArrowUp,
    KeyW,
    DPadUp,
    ArrowDown,
    KeyS,
    DPadDown,
    ArrowLeft,
    KeyA,
    DPadLeft,
    ArrowRight,
    KeyD,
    DPadRight,
}

/// The logical actions that are active in one frame.
#[derive(Clone, Copy, Debug, PartialEq, Eq, Structural)]
pub struct InputSnapshot {
    pub up: bool,
    pub down: bool,
    pub left: bool,
    pub right: bool,
}

/// The unit axis that an action contributes: `Up` is the positive first
/// axis, `Down` the negative first axis, `Left` the positive second axis
/// and `Right` the negative second axis.
pub open spec fn contribution(action: Action) -> Direction {
    match action {
        Action::Up => Direction { x: DIRECTION_UNIT, y: 0 },
        Action::Down => Direction { x: -DIRECTION_UNIT as i32, y: 0 },
        Action::Left => Direction { x: 0, y: DIRECTION_UNIT },
        Action::Right => Direction { x: 0, y: -DIRECTION_UNIT as i32 },
    }
}

/// The action that a key or a pad button stands for.
pub open spec fn bound_action(binding: Binding) -> Action {
    match binding {
        Binding::ArrowUp | Binding::KeyW | Binding::DPadUp => Action::Up,
        Binding::ArrowDown | Binding::KeyS | Binding::DPadDown => Action::Down,
        Binding::ArrowLeft | Binding::KeyA | Binding::DPadLeft => Action::Left,
        Binding::ArrowRight | Binding::KeyD | Binding::DPadRight => Action::Right,
    }
}

/// The bindings in the order in which they are made: for each action an
/// arrow key, a letter key and a button of the directional pad.
pub open spec fn default_bindings() -> Seq<Binding> {
    seq![
        Binding::ArrowUp,
        Binding::KeyW,
        Binding::DPadUp,
        Binding::ArrowDown,
        Binding::KeyS,
        Binding::DPadDown,
        Binding::ArrowLeft,
        Binding::KeyA,
        Binding::DPadLeft,
        Binding::ArrowRight,
        Binding::KeyD,
        Binding::DPadRight,
    ]
}

/// Sum of the contributions of the active actions along the first axis,
/// in world units.
pub open spec fn x_balance(input: InputSnapshot) -> int {
    (if input.up { 1int } else { 0 }) - (if input.down { 1int } else { 0 })
}

/// Sum of the contributions of the active actions along the second axis,
/// in world units.
pub open spec fn y_balance(input: InputSnapshot) -> int {
    (if input.left { 1int } else { 0 }) - (if input.right { 1int } else { 0 })
}

/// The sum `(x, y)` of unit axes, each component being -1, 0 or 1, scaled
/// to unit length where it is not zero: an axis keeps its length, a
/// diagonal gets `DIAGONAL` on both components. Other sums are not meant.
pub open spec fn normalized(x: int, y: int) -> Direction
    recommends
        -1 <= x <= 1,
        -1 <= y <= 1,
{
    if x != 0 && y != 0 {
        Direction { x: (x * DIAGONAL) as i32, y: (y * DIAGONAL) as i32 }
    } else {
        Direction { x: (x * DIRECTION_UNIT) as i32, y: (y * DIRECTION_UNIT) as i32 }
    }
}

/// The movement direction that a snapshot resolves to.
pub open spec fn resolved(input: InputSnapshot) -> Direction {
    normalized(x_balance(input), y_balance(input))
}

impl Action {
    /// Every action, in the order in which they are summed.
    pub fn directions() -> (result: [Action; 4])
        ensures
            result@ == seq![Action::Up, Action::Down, Action::Left, Action::Right],
    {
        [Action::Up, Action::Down, Action::Left, Action::Right]
    }

    /// The action that `binding` stands for.
    pub fn bound_to(binding: Binding) -> (result: Action)
        ensures
            result == bound_action(binding),
    {
        match binding {
            Binding::ArrowUp | Binding::KeyW | Binding::DPadUp => Action::Up,
            Binding::ArrowDown | Binding::KeyS | Binding::DPadDown => Action::Down,
            Binding::ArrowLeft | Binding::KeyA | Binding::DPadLeft => Action::Left,
            Binding::ArrowRight | Binding::KeyD | Binding::DPadRight => Action::Right,
        }
    }

    /// The table of bindings: every key and pad button once, each with the
    /// action that it stands for.
    pub fn default_input_map() -> (result: Vec<(Action, Binding)>)
        ensures
            result@.len() == default_bindings().len(),
            forall|i: int|
                0 <= i < result@.len() ==> #[trigger] result@[i] == (
                    bound_action(default_bindings()[i]),
                    default_bindings()[i],
                ),
    {
        let bindings = [
            Binding::ArrowUp,
            Binding::KeyW,
            Binding::DPadUp,
            Binding::ArrowDown,
            Binding::KeyS,
            Binding::DPadDown,
            Binding::ArrowLeft,
            Binding::KeyA,
            Binding::DPadLeft,
            Binding::ArrowRight,
            Binding::KeyD,
            Binding::DPadRight,
        ];
        assert(bindings@ =~= default_bindings());
        let mut input_map: Vec<(Action, Binding)> = Vec::new();
        let mut i: usize = 0;
        while i < 12
            invariant
                i <= 12,
                bindings@ == default_bindings(),
                input_map@.len() == i,
                forall|j: int|
                    0 <= j < i ==> #[trigger] input_map@[j] == (
                        bound_action(default_bindings()[j]),
                        default_bindings()[j],
                    ),
            decreases 12 - i,
        {
            let binding = bindings[i];
            input_map.push((Action::bound_to(binding), binding));
            i = i + 1;
        }
        input_map
    }

    /// The unit axis that the action contributes.
    pub fn direction(&self) -> (result: Direction)
        ensures
            result == contribution(*self),
            result.is_unit(),
    {
        proof {
            lemma_direction_squares();
            lemma_square_of(DIRECTION_UNIT as int, DIRECTION_UNIT as int);
            lemma_square_of(-DIRECTION_UNIT, DIRECTION_UNIT as int);
        }
        match self {
            Action::Up => Direction { x: DIRECTION_UNIT, y: 0 },
            Action::Down => Direction { x: -DIRECTION_UNIT, y: 0 },
            Action::Left => Direction { x: 0, y: DIRECTION_UNIT },
            Action::Right => Direction { x: 0, y: -DIRECTION_UNIT },
        }
    }
}

impl InputSnapshot {
    /// The set of the active actions.
    pub open spec fn view(self) -> Set<Action> {
        Set::new(|action: Action| self.holds(action))
    }

    /// Whether `action` is active.
    pub open spec fn holds(self, action: Action) -> bool {
        match action {
            Action::Up => self.up,
            Action::Down => self.down,
            Action::Left => self.left,
            Action::Right => self.right,
        }
    }

    /// Whether every active action is cancelled by its opposite.
    pub open spec fn cancels(self) -> bool {
        self.up == self.down && self.left == self.right
    }

    /// The snapshot with no active action.
    pub fn empty() -> (result: Self)
        ensures
            result == (InputSnapshot { up: false, down: false, left: false, right: false }),
            forall|action: Action| !result.holds(action),
    {
        InputSnapshot { up: false, down: false, left: false, right: false }
    }

    /// The snapshot with `action` made active.
    pub fn with(self, action: Action) -> (result: Self)
        ensures
            forall|other: Action| #[trigger] result.holds(other) == (other == action || self.holds(other)),
    {
        match action {
            Action::Up => InputSnapshot { up: true, ..self },
            Action::Down => InputSnapshot { down: true, ..self },
            Action::Left => InputSnapshot { left: true, ..self },
            Action::Right => InputSnapshot { right: true, ..self },
        }
    }

    /// Tests whether `action` is active.
    pub fn pressed(&self, action: Action) -> (result: bool)
        ensures
            result == self.holds(action),
    {
        match action {
            Action::Up => self.up,
            Action::Down => self.down,
            Action::Left => self.left,
            Action::Right => self.right,
        }
    }

    /// Resolves the snapshot to a movement direction: the contributions of
    /// the active actions are summed, and the sum is scaled to unit length
    /// unless it is zero. The result points the way of the sum: it is
    /// parallel to it and has its sense.
    pub fn resolve(&self) -> (result: Direction)
        ensures
            result == resolved(*self),
            result.at_most_unit(),
            self.cancels() <==> result.is_zero(),
            !self.cancels() ==> result.is_unit(),
            points_along(result, x_balance(*self), y_balance(*self)),
    {
        let mut x: i32 = 0;
        let mut y: i32 = 0;
        if self.up {
            x = x + 1;
        }
        if self.down {
            x = x - 1;
        }
        if self.left {
            y = y + 1;
        }
        if self.right {
            y = y - 1;
        }
        proof {
            lemma_resolved_length(*self);
        }
        if x != 0 && y != 0 {
            Direction { x: x * DIAGONAL, y: y * DIAGONAL }
        } else {
            Direction { x: x * DIRECTION_UNIT, y: y * DIRECTION_UNIT }
        }
    }
}

/// Whether `direction` is parallel to the sum `(x, y)` and has its sense.
pub open spec fn points_along(direction: Direction, x: int, y: int) -> bool {
    &&& direction.x * y == direction.y * x
    &&& (x > 0 ==> direction.x > 0) && (x < 0 ==> direction.x < 0) && (x == 0 ==> direction.x == 0)
    &&& (y > 0 ==> direction.y > 0) && (y < 0 ==> direction.y < 0) && (y == 0 ==> direction.y == 0)
}

/// A snapshot in which every active action meets its opposite resolves to
/// the zero vector, and every other snapshot resolves to a vector whose
/// length is one world unit to within a billionth, pointing the way of the
/// summed contributions; no snapshot resolves to a vector longer than
/// unit length.
pub proof fn lemma_resolved_length(input: InputSnapshot)
    ensures
        resolved(input).at_most_unit(),
        input.cancels() <==> resolved(input).is_zero(),
        !input.cancels() ==> resolved(input).is_unit(),
        points_along(resolved(input), x_balance(input), y_balance(input)),
{
    let d = resolved(input);
    lemma_direction_squares();
    if x_balance(input) != 0 && y_balance(input) != 0 {
        lemma_square_of(d.x as int, DIAGONAL as int);
        lemma_square_of(d.y as int, DIAGONAL as int);
    } else {
        lemma_square_of(d.x as int, DIRECTION_UNIT as int);
        lemma_square_of(d.y as int, DIRECTION_UNIT as int);
    }
}

/// A square does not depend on the sign of what is squared, and the square
/// of zero is zero.
pub proof fn lemma_square_of(value: int, size: int)
    by (nonlinear_arith)
    ensures
        value == size || value == -size ==> value * value == size * size,
        value == 0 ==> value * value == 0,
{
}

/// Opposite actions cancel: with `Up` and `Down` both active or both
/// inactive nothing moves along the first axis, and likewise for `Left`
/// and `Right` along the second.
pub proof fn lemma_opposites_cancel(input: InputSnapshot)
    ensures
        input.up == input.down ==> resolved(input).x == 0,
        input.left == input.right ==> resolved(input).y == 0,
        input.cancels() ==> resolved(input) == (Direction { x: 0, y: 0 }),
{
}

/// No key or pad button is bound twice, so none stands for two actions.
pub proof fn lemma_bindings_are_distinct()
    ensures
        forall|i: int, j: int|
            0 <= i < j < default_bindings().len() ==> default_bindings()[i] != default_bindings()[j],
{
}

/// The empty snapshot resolves to the zero vector.
pub proof fn lemma_empty_is_still(input: InputSnapshot)
    requires
        input@ =~= Set::<Action>::empty(),
    ensures
        resolved(input) == (Direction { x: 0, y: 0 }),
{
    assert(!input@.contains(Action::Up));
    assert(!input@.contains(Action::Down));
    assert(!input@.contains(Action::Left));
    assert(!input@.contains(Action::Right));
}

} // verus!

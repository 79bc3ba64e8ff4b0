//! The proximity alert state machine and the synchronizer that keeps each
//! enemy's marker in step with its state.

use vstd::prelude::*;
use crate::vector::{closer_than, distance_squared, offset_between, Offset, Planar, Position};

verus! {

/// Distance below which an idle enemy is alerted, unless another is chosen.
pub const DEFAULT_ENTER_THRESHOLD: u32 = 1_000_000;

/// Distance from which an alerted enemy calms down, unless another is chosen.
pub const DEFAULT_EXIT_THRESHOLD: u32 = 2_000_000;

/// Height of a marker above its enemy.
pub const ICON_HEIGHT: i64 = 2_500_000;

/// Whether an enemy has noticed the player.
#[derive(Clone, Copy, Debug, PartialEq, Eq, Structural)]
pub enum AlertState {
    Idle,
    Alerted,
}

/// A change of an enemy's alert state.
#[derive(Clone, Copy, Debug, PartialEq, Eq, Structural)]
pub enum AlertEvent {
    /// From idle to alerted.
    Raised,
    /// From alerted to idle.
    Cleared,
}

/// The marker shown above an alerted enemy.
#[derive(Clone, Copy, Debug, PartialEq, Eq, Structural)]
pub struct AlertIcon {
    /// How far above its enemy the marker floats.
    pub height: i64,
    /// The marker is turned about the vertical axis by the angle that this
    /// vector makes with the first axis.
    pub facing: Offset,
}

/// An enemy actor with its alert state and the marker that it owns.
#[derive(Clone, Copy, Debug, PartialEq, Eq, Structural)]
pub struct EnemyBundle {
    pub position: Position,
    pub state: AlertState,
    pub icon: Option<AlertIcon>,
}

/// The enemies' stage of a frame, with the two thresholds of the alert
/// state machine. The distance that alerts is always smaller than the
/// distance that calms.
#[derive(Clone, Copy, Debug)]
pub struct EnemyPlugin {
    enter: u32,
    exit: u32,
}

/// The event that tells of a change from `before` to `after`, if there is one.
pub open spec fn event_between(before: AlertState, after: AlertState) -> Option<AlertEvent> {
    match (before, after) {
        (AlertState::Idle, AlertState::Alerted) => Some(AlertEvent::Raised),
        (AlertState::Alerted, AlertState::Idle) => Some(AlertEvent::Cleared),
        _ => None,
    }
}

/// The state that follows `state` when the enemy stands at `enemy`, the
/// player at `player`, and the thresholds are `enter` and `exit`.
pub open spec fn next_state(
    state: AlertState,
    enemy: Planar,
    player: Planar,
    enter: u32,
    exit: u32,
) -> AlertState {
    match state {
        AlertState::Idle => if closer_than(enemy, player, enter) {
            AlertState::Alerted
        } else {
            AlertState::Idle
        },
        AlertState::Alerted => if closer_than(enemy, player, exit) {
            AlertState::Alerted
        } else {
            AlertState::Idle
        },
    }
}

/// The state that follows `state` once the state machine has seen the
/// player at each place of `track` in turn, one frame after the other.
pub open spec fn state_after(
    state: AlertState,
    enemy: Planar,
    track: Seq<Planar>,
    enter: u32,
    exit: u32,
) -> AlertState
    decreases track.len(),
{
    if track.len() == 0 {
        state
    } else {
        next_state(
            state_after(state, enemy, track.drop_last(), enter, exit),
            enemy,
            track.last(),
            enter,
            exit,
        )
    }
}

/// The event of frame `frame` of `track`, for an enemy that starts idle.
pub open spec fn event_at(
    enemy: Planar,
    track: Seq<Planar>,
    enter: u32,
    exit: u32,
    frame: int,
) -> Option<AlertEvent> {
    event_between(
        state_after(AlertState::Idle, enemy, track.take(frame), enter, exit),
        state_after(AlertState::Idle, enemy, track.take(frame + 1), enter, exit),
    )
}

/// Number of the first `frames` frames of `track` whose event is `event`,
/// for an enemy that starts idle.
pub open spec fn events_counted(
    enemy: Planar,
    track: Seq<Planar>,
    enter: u32,
    exit: u32,
    event: AlertEvent,
    frames: int,
) -> nat
    decreases frames,
{
    if frames <= 0 {
        0
    } else {
        events_counted(enemy, track, enter, exit, event, frames - 1) + (if event_at(
            enemy,
            track,
            enter,
            exit,
            frames - 1,
        ) == Some(event) {
            1nat
        } else {
            0nat
        })
    }
}

/// Whether the player, along `track`, never gets farther from the enemy
/// than it was in an earlier frame.
pub open spec fn approaches(enemy: Planar, track: Seq<Planar>) -> bool {
    forall|i: int, j: int|
        0 <= i <= j < track.len() ==> distance_squared(enemy, #[trigger] track[j])
            <= distance_squared(enemy, #[trigger] track[i])
}

/// The facing of a marker above `enemy` that shows its front to `camera`:
/// the vector from the camera to the marker, turned by a quarter turn.
pub open spec fn facing_toward(camera: Position, enemy: Position) -> Offset {
    offset_between(camera.planar(), enemy.planar()).quarter_turned()
}

impl AlertIcon {
    /// A marker as it is created: at `ICON_HEIGHT`, not turned yet.
    pub open spec fn fresh() -> AlertIcon {
        AlertIcon { height: ICON_HEIGHT, facing: Offset { x: 1_000_000, y: 0 } }
    }
}

impl EnemyBundle {
    /// Whether the enemy has a marker.
    pub open spec fn has_indicator(self) -> bool {
        self.icon is Some
    }

    /// Whether the marker is there exactly when the enemy is alerted.
    pub open spec fn synchronized(self) -> bool {
        self.has_indicator() == (self.state == AlertState::Alerted)
    }

    /// The enemy with a marker: the one it has, or else a fresh one.
    pub open spec fn with_icon(self) -> EnemyBundle {
        if self.icon is Some {
            self
        } else {
            EnemyBundle { icon: Some(AlertIcon::fresh()), ..self }
        }
    }

    /// The enemy without a marker.
    pub open spec fn without_icon(self) -> EnemyBundle {
        EnemyBundle { icon: None, ..self }
    }

    /// The enemy after the synchronizer has heard of `event`.
    pub open spec fn synced(self, event: Option<AlertEvent>) -> EnemyBundle {
        match event {
            Some(AlertEvent::Raised) => self.with_icon(),
            Some(AlertEvent::Cleared) => self.without_icon(),
            None => self,
        }
    }

    /// The enemy with its marker, if it has one, turned toward `camera`.
    pub open spec fn faced(self, camera: Position) -> EnemyBundle {
        match self.icon {
            Some(icon) => EnemyBundle {
                icon: Some(
                    AlertIcon { height: icon.height, facing: facing_toward(camera, self.position) },
                ),
                ..self
            },
            None => self,
        }
    }

    /// An idle enemy at `position`, without a marker.
    pub fn new(position: Position) -> (result: Self)
        ensures
            result == (EnemyBundle { position, state: AlertState::Idle, icon: None }),
            result.synchronized(),
    {
        EnemyBundle { position, state: AlertState::Idle, icon: None }
    }

    /// Tests whether the enemy has a marker.
    pub fn has_alert_icon(&self) -> (result: bool)
        ensures
            result == self.has_indicator(),
    {
        self.icon.is_some()
    }

    /// Gives the enemy a fresh marker unless it has one already.
    pub fn add_alert_icon(&mut self)
        ensures
            *final(self) == old(self).with_icon(),
            final(self).has_indicator(),
    {
        if self.icon.is_none() {
            self.icon = Some(AlertIcon { height: ICON_HEIGHT, facing: Offset { x: 1_000_000, y: 0 } });
        }
    }

    /// Takes the enemy's marker away. Without a marker nothing changes.
    pub fn remove_alert_icon(&mut self)
        ensures
            *final(self) == old(self).without_icon(),
            !final(self).has_indicator(),
            !old(self).has_indicator() ==> *final(self) == *old(self),
    {
        self.icon = None;
    }

    /// Lets the synchronizer react to `event`: a marker is created when
    /// the alert is raised and destroyed when it is cleared.
    pub fn sync(&mut self, event: Option<AlertEvent>)
        ensures
            *final(self) == old(self).synced(event),
    {
        match event {
            Some(AlertEvent::Raised) => self.add_alert_icon(),
            Some(AlertEvent::Cleared) => self.remove_alert_icon(),
            None => {},
        }
    }

    /// Turns the marker, if there is one, so that it shows its front to
    /// `camera`.
    pub fn face_alert_icon(&mut self, camera: Position)
        ensures
            *final(self) == old(self).faced(camera),
            final(self).has_indicator() == old(self).has_indicator(),
    {
        match self.icon {
            Some(icon) => {
                let toward = camera.xy().offset_to(self.position.xy());
                self.icon = Some(AlertIcon { height: icon.height, facing: toward.quarter_turn() });
            },
            None => {},
        }
    }
}

impl EnemyPlugin {
    #[verifier::type_invariant]
    spec fn ordered(self) -> bool {
        self.enter < self.exit
    }

    /// Distance below which an idle enemy is alerted.
    pub closed spec fn enter_threshold(self) -> u32 {
        self.enter
    }

    /// Distance from which an alerted enemy calms down.
    pub closed spec fn exit_threshold(self) -> u32 {
        self.exit
    }

    /// The enemy after the state machine has looked at the player's place.
    pub open spec fn alerted(self, enemy: EnemyBundle, player: Position) -> EnemyBundle {
        EnemyBundle {
            state: next_state(
                enemy.state,
                enemy.position.planar(),
                player.planar(),
                self.enter_threshold(),
                self.exit_threshold(),
            ),
            ..enemy
        }
    }

    /// The enemy after one frame: the state machine has run, the
    /// synchronizer has heard of the change, and the marker faces `camera`.
    pub open spec fn stepped(self, enemy: EnemyBundle, player: Position, camera: Position) -> EnemyBundle {
        let next = self.alerted(enemy, player);
        next.synced(event_between(enemy.state, next.state)).faced(camera)
    }

    /// A stage with the given thresholds, or nothing where `enter` is not
    /// below `exit`.
    pub fn new(enter: u32, exit: u32) -> (result: Option<Self>)
        ensures
            result is Some <==> enter < exit,
            result is Some ==> result.unwrap().enter_threshold() == enter
                && result.unwrap().exit_threshold() == exit,
    {
        if enter < exit {
            Some(EnemyPlugin { enter, exit })
        } else {
            None
        }
    }

    /// Distance below which an idle enemy is alerted.
    pub fn enter(&self) -> (result: u32)
        ensures
            result == self.enter_threshold(),
            result < self.exit_threshold(),
    {
        proof {
            use_type_invariant(self);
        }
        self.enter
    }

    /// Distance from which an alerted enemy calms down.
    pub fn exit(&self) -> (result: u32)
        ensures
            result == self.exit_threshold(),
            result > self.enter_threshold(),
    {
        proof {
            use_type_invariant(self);
        }
        self.exit
    }

    /// Runs the state machine for one enemy: an idle enemy is alerted when
    /// the player is closer than the enter threshold, an alerted enemy
    /// calms down when the player is at least the exit threshold away, and
    /// nothing changes in between. Returns the event of the change.
    pub fn alert(&self, enemy: &mut EnemyBundle, player: Position) -> (event: Option<AlertEvent>)
        ensures
            *final(enemy) == self.alerted(*old(enemy), player),
            event == event_between(old(enemy).state, final(enemy).state),
            self.enter_threshold() < self.exit_threshold(),
            closer_than(old(enemy).position.planar(), player.planar(), self.enter_threshold())
                ==> final(enemy).state == AlertState::Alerted,
            !closer_than(old(enemy).position.planar(), player.planar(), self.exit_threshold())
                ==> final(enemy).state == AlertState::Idle,
            closer_than(old(enemy).position.planar(), player.planar(), self.exit_threshold())
                && !closer_than(
                old(enemy).position.planar(),
                player.planar(),
                self.enter_threshold(),
            ) ==> final(enemy).state == old(enemy).state,
    {
        proof {
            use_type_invariant(self);
            lemma_hysteresis(
                old(enemy).state,
                old(enemy).position.planar(),
                player.planar(),
                self.enter,
                self.exit,
            );
        }
        let here = enemy.position.xy();
        let there = player.xy();
        match enemy.state {
            AlertState::Idle => {
                if here.is_closer_than(there, self.enter) {
                    enemy.state = AlertState::Alerted;
                    Some(AlertEvent::Raised)
                } else {
                    None
                }
            },
            AlertState::Alerted => {
                if !here.is_closer_than(there, self.exit) {
                    enemy.state = AlertState::Idle;
                    Some(AlertEvent::Cleared)
                } else {
                    None
                }
            },
        }
    }
}

impl Default for EnemyPlugin {
    fn default() -> (result: Self)
        ensures
            result.enter_threshold() == DEFAULT_ENTER_THRESHOLD,
            result.exit_threshold() == DEFAULT_EXIT_THRESHOLD,
    {
        EnemyPlugin { enter: DEFAULT_ENTER_THRESHOLD, exit: DEFAULT_EXIT_THRESHOLD }
    }
}

/// A point that is closer than a radius is closer than any larger radius.
pub proof fn lemma_closer_is_monotone(a: Planar, b: Planar, smaller: u32, larger: u32)
    requires
        smaller <= larger,
        closer_than(a, b, smaller),
    ensures
        closer_than(a, b, larger),
{
    assert(smaller * smaller <= larger * larger) by (nonlinear_arith)
        requires
            0 <= smaller <= larger,
    ;
}

/// Hysteresis. With the enter threshold below the exit threshold, a
/// player closer than the enter threshold alerts the enemy whatever its
/// state, a player at least the exit threshold away calms it whatever its
/// state, and a player in between leaves the state as it is.
pub proof fn lemma_hysteresis(state: AlertState, enemy: Planar, player: Planar, enter: u32, exit: u32)
    requires
        enter < exit,
    ensures
        closer_than(enemy, player, enter) ==> next_state(state, enemy, player, enter, exit)
            == AlertState::Alerted,
        !closer_than(enemy, player, exit) ==> next_state(state, enemy, player, enter, exit)
            == AlertState::Idle,
        closer_than(enemy, player, exit) && !closer_than(enemy, player, enter) ==> next_state(
            state,
            enemy,
            player,
            enter,
            exit,
        ) == state,
{
    if closer_than(enemy, player, enter) {
        lemma_closer_is_monotone(enemy, player, enter, exit);
    }
}

/// No flapping. With the enter threshold below the exit threshold, an
/// enemy whose state has been brought up to date keeps it for as long as
/// nobody moves.
pub proof fn lemma_no_flapping(state: AlertState, enemy: Planar, player: Planar, enter: u32, exit: u32)
    requires
        enter < exit,
    ensures
        next_state(next_state(state, enemy, player, enter, exit), enemy, player, enter, exit)
            == next_state(state, enemy, player, enter, exit),
{
    lemma_hysteresis(state, enemy, player, enter, exit);
}

/// An idle enemy stays idle for as long as the player keeps at least the
/// enter threshold away.
pub proof fn lemma_idle_while_away(enemy: Planar, track: Seq<Planar>, enter: u32, exit: u32, frames: int)
    requires
        0 <= frames <= track.len(),
        forall|j: int| 0 <= j < frames ==> !closer_than(enemy, #[trigger] track[j], enter),
    ensures
        state_after(AlertState::Idle, enemy, track.take(frames), enter, exit) == AlertState::Idle,
    decreases frames,
{
    if frames > 0 {
        lemma_idle_while_away(enemy, track, enter, exit, frames - 1);
        assert(track.take(frames).drop_last() =~= track.take(frames - 1));
        assert(track.take(frames).last() == track[frames - 1]);
    }
}

/// An enemy that is alerted after `since` frames stays alerted for as long
/// as the player keeps closer than the exit threshold.
pub proof fn lemma_alerted_while_near(
    enemy: Planar,
    track: Seq<Planar>,
    enter: u32,
    exit: u32,
    since: int,
    frames: int,
)
    requires
        0 <= since <= frames <= track.len(),
        state_after(AlertState::Idle, enemy, track.take(since), enter, exit) == AlertState::Alerted,
        forall|j: int| since <= j < frames ==> closer_than(enemy, #[trigger] track[j], exit),
    ensures
        state_after(AlertState::Idle, enemy, track.take(frames), enter, exit)
            == AlertState::Alerted,
    decreases frames - since,
{
    if frames > since {
        lemma_alerted_while_near(enemy, track, enter, exit, since, frames - 1);
        assert(track.take(frames).drop_last() =~= track.take(frames - 1));
        assert(track.take(frames).last() == track[frames - 1]);
    }
}

/// First approach. An enemy starts idle while the player, frame by frame,
/// is at the places of `track`. If the player is closer than the enter
/// threshold for the first time in frame `first`, then no frame before it
/// has an event and frame `first` raises the alert; and if the player then
/// stays closer than the exit threshold, no later frame has an event.
pub proof fn lemma_first_approach(enemy: Planar, track: Seq<Planar>, enter: u32, exit: u32, first: int)
    requires
        enter < exit,
        0 <= first < track.len(),
        forall|j: int| 0 <= j < first ==> !closer_than(enemy, #[trigger] track[j], enter),
        closer_than(enemy, track[first], enter),
    ensures
        forall|j: int| 0 <= j < first ==> #[trigger] event_at(enemy, track, enter, exit, j) is None,
        event_at(enemy, track, enter, exit, first) == Some(AlertEvent::Raised),
        (forall|j: int| first < j < track.len() ==> closer_than(enemy, #[trigger] track[j], exit))
            ==> (forall|j: int|
            first < j < track.len() ==> #[trigger] event_at(enemy, track, enter, exit, j) is None),
{
    assert forall|j: int| 0 <= j < first implies #[trigger] event_at(
        enemy,
        track,
        enter,
        exit,
        j,
    ) is None by {
        lemma_idle_while_away(enemy, track, enter, exit, j);
        lemma_idle_while_away(enemy, track, enter, exit, j + 1);
    }
    lemma_idle_while_away(enemy, track, enter, exit, first);
    assert(track.take(first + 1).drop_last() =~= track.take(first));
    assert(track.take(first + 1).last() == track[first]);
    if forall|j: int| first < j < track.len() ==> closer_than(enemy, #[trigger] track[j], exit) {
        assert forall|j: int| first < j < track.len() implies #[trigger] event_at(
            enemy,
            track,
            enter,
            exit,
            j,
        ) is None by {
            lemma_alerted_while_near(enemy, track, enter, exit, first + 1, j);
            lemma_alerted_while_near(enemy, track, enter, exit, first + 1, j + 1);
        }
    }
}

/// The first frame of `track`, from `from` on, in which the player is
/// closer than the enter threshold.
proof fn lemma_first_close(enemy: Planar, track: Seq<Planar>, enter: u32, from: int) -> (first: int)
    requires
        0 <= from < track.len(),
        closer_than(enemy, track.last(), enter),
        forall|j: int| 0 <= j < from ==> !closer_than(enemy, #[trigger] track[j], enter),
    ensures
        from <= first < track.len(),
        closer_than(enemy, track[first], enter),
        forall|j: int| 0 <= j < first ==> !closer_than(enemy, #[trigger] track[j], enter),
    decreases track.len() - from,
{
    if closer_than(enemy, track[from], enter) {
        from
    } else {
        lemma_first_close(enemy, track, enter, from + 1)
    }
}

/// Where frame `first` is the only one with an event, and raises the
/// alert, the first `frames` frames raise it once if they hold that frame
/// and never otherwise, and none of them clears it.
proof fn lemma_count_single_raise(
    enemy: Planar,
    track: Seq<Planar>,
    enter: u32,
    exit: u32,
    first: int,
    frames: int,
)
    requires
        0 <= first < track.len(),
        0 <= frames <= track.len(),
        forall|j: int|
            0 <= j < track.len() && j != first ==> #[trigger] event_at(enemy, track, enter, exit, j)
                is None,
        event_at(enemy, track, enter, exit, first) == Some(AlertEvent::Raised),
    ensures
        events_counted(enemy, track, enter, exit, AlertEvent::Raised, frames) == (if frames
            > first {
            1nat
        } else {
            0nat
        }),
        events_counted(enemy, track, enter, exit, AlertEvent::Cleared, frames) == 0,
    decreases frames,
{
    if frames > 0 {
        lemma_count_single_raise(enemy, track, enter, exit, first, frames - 1);
        if frames - 1 != first {
            assert(event_at(enemy, track, enter, exit, frames - 1) is None);
        }
    }
}

/// One approach, one alert. An enemy starts idle while the player, frame
/// by frame, is at the places of `track`, never gets farther away, and
/// ends closer than the enter threshold. Then over the whole run the
/// alert is raised exactly once and never cleared.
pub proof fn lemma_approach_raises_once(enemy: Planar, track: Seq<Planar>, enter: u32, exit: u32)
    requires
        enter < exit,
        track.len() > 0,
        approaches(enemy, track),
        closer_than(enemy, track.last(), enter),
    ensures
        events_counted(enemy, track, enter, exit, AlertEvent::Raised, track.len() as int) == 1,
        events_counted(enemy, track, enter, exit, AlertEvent::Cleared, track.len() as int) == 0,
{
    let first = lemma_first_close(enemy, track, enter, 0);
    assert forall|j: int| first < j < track.len() implies closer_than(
        enemy,
        #[trigger] track[j],
        exit,
    ) by {
        assert(distance_squared(enemy, track[j]) <= distance_squared(enemy, track[first]));
        lemma_closer_is_monotone(enemy, track[j], enter, exit);
    }
    lemma_first_approach(enemy, track, enter, exit, first);
    lemma_count_single_raise(enemy, track, enter, exit, first, track.len() as int);
}

/// Removing a marker twice is the same as removing it once, and leaves
/// the enemy without one; creating a marker twice is the same as creating it
/// once, and leaves the enemy with one.
pub proof fn lemma_sync_is_idempotent(enemy: EnemyBundle)
    ensures
        enemy.without_icon().without_icon() == enemy.without_icon(),
        !enemy.without_icon().has_indicator(),
        enemy.with_icon().with_icon() == enemy.with_icon(),
        enemy.with_icon().has_indicator(),
        !enemy.has_indicator() ==> enemy.without_icon() == enemy,
{
}

/// An enemy whose marker matched its state before a frame has a marker
/// after the frame exactly when it is then alerted.
pub proof fn lemma_step_keeps_synchronized(
    plugin: EnemyPlugin,
    enemy: EnemyBundle,
    player: Position,
    camera: Position,
)
    requires
        enemy.synchronized(),
    ensures
        plugin.stepped(enemy, player, camera).synchronized(),
        plugin.stepped(enemy, player, camera).has_indicator() == (plugin.alerted(
            enemy,
            player,
        ).state == AlertState::Alerted),
{
}

} // verus!

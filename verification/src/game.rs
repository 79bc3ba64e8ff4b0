//! The frame driver: the scene and the fixed order in which the stages run.

use vstd::prelude::*;
use crate::enemy::{event_between, AlertEvent, AlertState, EnemyBundle, EnemyPlugin};
use crate::input::{resolved, InputSnapshot};
use crate::player::{lemma_standing_still, PlayerBundle, PlayerPlugin};
use crate::vector::{distance_squared, Planar, Position, MICROS_PER_SECOND};

verus! {

/// Everything that a frame reads or changes.
#[derive(Debug)]
pub struct World {
    pub camera: Position,
    /// The player, if the scene has one.
    pub player: Option<PlayerBundle>,
    pub enemies: Vec<EnemyBundle>,
}

/// The stages of a frame, in the order in which they run: the player's
/// first, then the enemies'.
#[derive(Clone, Copy, Debug)]
pub struct GamePlugin {
    pub player: PlayerPlugin,
    pub enemy: EnemyPlugin,
}

impl World {
    /// Whether every enemy has a marker exactly when it is alerted.
    pub open spec fn synchronized(self) -> bool {
        forall|i: int| 0 <= i < self.enemies@.len() ==> (#[trigger] self.enemies@[i]).synchronized()
    }

    /// Whether the scene holds nothing but its camera.
    pub open spec fn is_empty(self) -> bool {
        self.player is None && self.enemies@.len() == 0
    }

    /// A scene with a camera and nothing else.
    pub fn new(camera: Position) -> (result: Self)
        ensures
            result.camera == camera,
            result.is_empty(),
            result.synchronized(),
    {
        World { camera, player: None, enemies: Vec::new() }
    }

    /// Adds an idle enemy at `position` and returns its index.
    pub fn spawn_enemy(&mut self, position: Position) -> (index: usize)
        ensures
            index == old(self).enemies@.len(),
            final(self).enemies@ == old(self).enemies@.push(
                EnemyBundle { position, state: AlertState::Idle, icon: None },
            ),
            final(self).camera == old(self).camera,
            final(self).player == old(self).player,
            old(self).synchronized() ==> final(self).synchronized(),
    {
        let index = self.enemies.len();
        self.enemies.push(EnemyBundle::new(position));
        index
    }

    /// Destroys the enemy at `index`, and its marker with it. The enemies
    /// behind it move up by one. Without such an enemy nothing changes.
    pub fn despawn_enemy(&mut self, index: usize) -> (removed: Option<EnemyBundle>)
        ensures
            final(self).camera == old(self).camera,
            final(self).player == old(self).player,
            index < old(self).enemies@.len() ==> removed == Some(old(self).enemies@[index as int])
                && final(self).enemies@ == old(self).enemies@.remove(index as int),
            index >= old(self).enemies@.len() ==> removed is None && final(self).enemies@ == old(
                self,
            ).enemies@,
            old(self).synchronized() ==> final(self).synchronized(),
    {
        if index < self.enemies.len() {
            Some(self.enemies.remove(index))
        } else {
            None
        }
    }

    /// Number of markers in the scene.
    pub fn indicator_count(&self) -> (count: usize)
        ensures
            count == indicators(self.enemies@),
            self.synchronized() ==> count == alerted_count(self.enemies@),
    {
        let mut count: usize = 0;
        let mut i: usize = 0;
        proof {
            assert(self.enemies@.take(0) =~= Seq::<EnemyBundle>::empty());
        }
        while i < self.enemies.len()
            invariant
                i <= self.enemies@.len(),
                count == indicators(self.enemies@.take(i as int)),
                count <= i,
            decreases self.enemies@.len() - i,
        {
            proof {
                let next = self.enemies@.take(i + 1);
                assert(next.drop_last() =~= self.enemies@.take(i as int));
                assert(next.last() == self.enemies@[i as int]);
            }
            if self.enemies[i].has_alert_icon() {
                count = count + 1;
            }
            i = i + 1;
        }
        proof {
            assert(self.enemies@.take(i as int) =~= self.enemies@);
            if self.synchronized() {
                lemma_one_marker_per_alerted(self.enemies@);
            }
        }
        count
    }
}

/// One marker per alerted enemy: where every enemy has a marker exactly
/// when it is alerted, there are as many markers as alerted enemies.
pub proof fn lemma_one_marker_per_alerted(enemies: Seq<EnemyBundle>)
    requires
        forall|i: int| 0 <= i < enemies.len() ==> (#[trigger] enemies[i]).synchronized(),
    ensures
        indicators(enemies) == alerted_count(enemies),
    decreases enemies.len(),
{
    if enemies.len() > 0 {
        let front = enemies.drop_last();
        assert forall|i: int| 0 <= i < front.len() implies (#[trigger] front[i]).synchronized() by {
            assert(front[i] == enemies[i]);
        }
        lemma_one_marker_per_alerted(front);
        assert(enemies.last() == enemies[enemies.len() - 1]);
    }
}

/// Number of enemies in `enemies` that have a marker.
pub open spec fn indicators(enemies: Seq<EnemyBundle>) -> nat
    decreases enemies.len(),
{
    if enemies.len() == 0 {
        0
    } else {
        indicators(enemies.drop_last()) + (if enemies.last().has_indicator() {
            1nat
        } else {
            0nat
        })
    }
}

/// Number of enemies in `enemies` that are alerted.
pub open spec fn alerted_count(enemies: Seq<EnemyBundle>) -> nat
    decreases enemies.len(),
{
    if enemies.len() == 0 {
        0
    } else {
        alerted_count(enemies.drop_last()) + (if enemies.last().state == AlertState::Alerted {
            1nat
        } else {
            0nat
        })
    }
}

/// Destroys every actor of the scene, and with each enemy its marker.
pub fn cleanup(world: &mut World)
    ensures
        final(world).camera == old(world).camera,
        final(world).is_empty(),
        final(world).synchronized(),
        indicators(final(world).enemies@) == 0,
{
    world.player = None;
    world.enemies.clear();
}

impl GamePlugin {
    /// The player after the player's stage: it has taken `input` as its
    /// active actions and moved by them. A scene without a player stays so.
    pub open spec fn player_after(
        self,
        player: Option<PlayerBundle>,
        input: InputSnapshot,
        cursor: Planar,
        dt: u32,
    ) -> Option<PlayerBundle> {
        match player {
            Some(bundle) => Some(
                self.player.moved(PlayerBundle { action_state: input, ..bundle }, cursor, dt),
            ),
            None => None,
        }
    }

    /// An enemy after the enemies' stage, which sees the player where the
    /// player's stage has left it. Without a player the state machine is
    /// skipped, and the marker is still turned toward the camera.
    pub open spec fn enemy_after(
        self,
        enemy: EnemyBundle,
        player: Option<PlayerBundle>,
        camera: Position,
    ) -> EnemyBundle {
        match player {
            Some(bundle) => self.enemy.stepped(enemy, bundle.player.position, camera),
            None => enemy.faced(camera),
        }
    }

    /// Whether the player, if there is one, can take `input` and be moved
    /// for a frame of `dt` microseconds: whether the place it moves to has
    /// coordinates that an `i64` can hold.
    pub open spec fn updatable(self, world: World, input: InputSnapshot, dt: u32) -> bool {
        match world.player {
            Some(bundle) => self.player.reachable(
                PlayerBundle { action_state: input, ..bundle },
                dt,
            ),
            None => true,
        }
    }

    /// Tests whether a frame of `dt` microseconds can be run with `input`.
    pub fn can_update(&self, world: &World, input: InputSnapshot, dt: u32) -> (result: bool)
        ensures
            result == self.updatable(*world, input, dt),
            dt == 0 ==> result,
    {
        match world.player {
            Some(bundle) => {
                proof {
                    lemma_standing_still(
                        bundle.player.position,
                        resolved(input),
                        self.player.speed,
                        0,
                    );
                }
                let mut bundle = bundle;
                bundle.action_state = input;
                self.player.can_move(&bundle, dt)
            },
            None => true,
        }
    }

    /// The stages with a player of `speed` and the given thresholds, or
    /// nothing where `enter` is not below `exit`.
    pub fn new(speed: u32, enter: u32, exit: u32) -> (result: Option<Self>)
        ensures
            result is Some <==> enter < exit,
            result is Some ==> result.unwrap().player.speed == speed
                && result.unwrap().enemy.enter_threshold() == enter
                && result.unwrap().enemy.exit_threshold() == exit,
    {
        match EnemyPlugin::new(enter, exit) {
            Some(enemy) => Some(GamePlugin { player: PlayerPlugin::new(speed), enemy }),
            None => None,
        }
    }

    /// The scene at its start: the camera up and to the side, looking
    /// down at the plane, the player at the origin, and one idle enemy.
    pub fn setup(&self) -> (world: World)
        ensures
            world.camera == (Position { x: (-10_000_000) as i64, y: 5_000_000, z: 10_000_000 }),
            world.player == Some(PlayerBundle::at(Position { x: 0, y: 0, z: 0 })),
            world.enemies@ == seq![
                EnemyBundle {
                    position: Position { x: 2_000_000, y: 2_000_000, z: 0 },
                    state: AlertState::Idle,
                    icon: None,
                },
            ],
            world.synchronized(),
    {
        let mut world = World::new(Position::new(-10_000_000, 5_000_000, 10_000_000));
        world.player = Some(PlayerBundle::new(Position::origin()));
        world.spawn_enemy(Position::new(2_000_000, 2_000_000, 0));
        proof {
            assert(world.enemies@ =~= seq![
                EnemyBundle {
                    position: Position { x: 2_000_000, y: 2_000_000, z: 0 },
                    state: AlertState::Idle,
                    icon: None,
                },
            ]);
        }
        world
    }

    /// Whether `after` and `events` are what one frame of `dt` microseconds
    /// makes of `before`: the player has taken `input` and moved, each
    /// enemy has been stepped against the player's new place, and each
    /// event tells of its enemy's change of state.
    pub open spec fn frame(
        self,
        before: World,
        after: World,
        events: Seq<Option<AlertEvent>>,
        input: InputSnapshot,
        cursor: Planar,
        dt: u32,
    ) -> bool {
        &&& after.camera == before.camera
        &&& after.player == self.player_after(before.player, input, cursor, dt)
        &&& after.enemies@.len() == before.enemies@.len()
        &&& events.len() == before.enemies@.len()
        &&& forall|i: int|
            0 <= i < before.enemies@.len() ==> #[trigger] after.enemies@[i] == self.enemy_after(
                before.enemies@[i],
                after.player,
                before.camera,
            )
        &&& forall|i: int|
            0 <= i < before.enemies@.len() ==> #[trigger] events[i] == event_between(
                before.enemies@[i].state,
                after.enemies@[i].state,
            )
    }

    /// Runs one frame of `dt` microseconds where it can be run, and says
    /// so; where the player's step would lead to a place whose coordinates
    /// an `i64` cannot hold, nothing changes.
    pub fn try_update(&self, world: &mut World, input: InputSnapshot, cursor: Planar, dt: u32) -> (events:
        Option<Vec<Option<AlertEvent>>>)
        ensures
            events is Some <==> self.updatable(*old(world), input, dt),
            events is Some ==> self.frame(*old(world), *final(world), events.unwrap()@, input, cursor, dt),
            events is None ==> final(world).camera == old(world).camera && final(world).player
                == old(world).player && final(world).enemies@ == old(world).enemies@,
            old(world).synchronized() ==> final(world).synchronized(),
    {
        if self.can_update(world, input, dt) {
            Some(self.update(world, input, cursor, dt))
        } else {
            None
        }
    }

    /// Runs one frame of `dt` microseconds. The player takes `input` and
    /// moves; then each enemy's state machine sees the player at its new
    /// place, the synchronizer creates or destroys the enemy's marker, and
    /// the marker is turned toward the camera. Returns, enemy by enemy,
    /// the event of its change of state.
    pub fn update(&self, world: &mut World, input: InputSnapshot, cursor: Planar, dt: u32) -> (events:
        Vec<Option<AlertEvent>>)
        requires
            self.updatable(*old(world), input, dt),
        ensures
            self.frame(*old(world), *final(world), events@, input, cursor, dt),
            final(world).camera == old(world).camera,
            final(world).player == self.player_after(old(world).player, input, cursor, dt),
            final(world).enemies@.len() == old(world).enemies@.len(),
            events@.len() == old(world).enemies@.len(),
            forall|i: int|
                0 <= i < old(world).enemies@.len() ==> #[trigger] final(world).enemies@[i]
                    == self.enemy_after(old(world).enemies@[i], final(world).player, old(world).camera),
            forall|i: int|
                0 <= i < old(world).enemies@.len() ==> #[trigger] events@[i] == event_between(
                    old(world).enemies@[i].state,
                    final(world).enemies@[i].state,
                ),
            old(world).player is None ==> forall|i: int|
                0 <= i < events@.len() ==> #[trigger] events@[i] is None,
            old(world).synchronized() ==> final(world).synchronized(),
            old(world).player is Some ==> distance_squared(
                final(world).player.unwrap().player.position.planar(),
                old(world).player.unwrap().player.position.planar(),
            ) * (MICROS_PER_SECOND * MICROS_PER_SECOND) <= (self.player.speed * dt) * (
            self.player.speed * dt),
    {
        match world.player {
            Some(bundle) => {
                let mut bundle = bundle;
                bundle.action_state = input;
                self.player.move_player(&mut bundle, cursor, dt);
                world.player = Some(bundle);
            },
            None => {},
        }
        let count = world.enemies.len();
        let mut events: Vec<Option<AlertEvent>> = Vec::new();
        let mut i: usize = 0;
        while i < count
            invariant
                i <= count,
                count == world.enemies@.len(),
                count == old(world).enemies@.len(),
                events@.len() == i,
                world.camera == old(world).camera,
                world.player == self.player_after(old(world).player, input, cursor, dt),
                forall|j: int|
                    0 <= j < i ==> #[trigger] world.enemies@[j] == self.enemy_after(
                        old(world).enemies@[j],
                        world.player,
                        world.camera,
                    ),
                forall|j: int|
                    0 <= j < i ==> #[trigger] events@[j] == event_between(
                        old(world).enemies@[j].state,
                        world.enemies@[j].state,
                    ),
                old(world).player is None ==> forall|j: int|
                    0 <= j < i ==> #[trigger] events@[j] is None,
                forall|j: int| i <= j < count ==> #[trigger] world.enemies@[j] == old(world).enemies@[j],
                old(world).synchronized() ==> forall|j: int|
                    0 <= j < i ==> (#[trigger] world.enemies@[j]).synchronized(),
            decreases count - i,
        {
            let mut enemy = world.enemies[i];
            let event = match world.player {
                Some(bundle) => {
                    let event = self.enemy.alert(&mut enemy, bundle.player.position);
                    enemy.sync(event);
                    event
                },
                None => None,
            };
            enemy.face_alert_icon(world.camera);
            world.enemies.set(i, enemy);
            events.push(event);
            i = i + 1;
        }
        events
    }
}

} // verus!

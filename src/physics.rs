use vstd::prelude::*;
use vstd::arithmetic::div_mod::{lemma_div_by_multiple, lemma_div_is_ordered, lemma_div_pos_is_pos};

use crate::geometry::{PhysicsObject, Vector2, SCALE};

verus! {

/// Downward acceleration, in sub-units per second squared (2750 pixels/s²).
pub const GRAVITY: i64 = 2_750_000_000;

/// Largest coordinate magnitude and extent a body or block may have for a step.
pub const COORD_LIMIT: i64 = 1_000_000_000_000_000;

/// Largest speed (sub-units per second) or jump power (sub-units per second
/// squared) a body may have for a step.
pub const SPEED_LIMIT: i64 = 10_000_000_000_000;

/// `|v|`.
pub open spec fn magnitude(v: int) -> int {
    if v >= 0 { v } else { -v }
}

/// A fixed-point product brought back to the unit scale, rounded toward zero.
pub open spec fn scale_down(p: int) -> int {
    if p >= 0 { p / (SCALE as int) } else { -((-p) / (SCALE as int)) }
}

/// `a * b / SCALE`, rounded toward zero.
pub fn scaled(a: i64, b: i64) -> (r: i64)
    requires
        -4 * SPEED_LIMIT <= a <= 4 * SPEED_LIMIT,
        -SCALE <= b <= SCALE,
    ensures
        r == scale_down(a * b),
        magnitude(r as int) <= magnitude(a as int),
{
    proof {
        assert(-4 * SPEED_LIMIT * SCALE <= a * b <= 4 * SPEED_LIMIT * SCALE) by (nonlinear_arith)
            requires
                -4 * SPEED_LIMIT <= a <= 4 * SPEED_LIMIT,
                -SCALE <= b <= SCALE,
        ;
    }
    let p: i128 = (a as i128) * (b as i128);
    proof {
        let ma = magnitude(a as int);
        let mp = magnitude(p as int);
        assert(mp <= ma * SCALE) by (nonlinear_arith)
            requires
                p == a * b,
                -SCALE <= b <= SCALE,
                mp == magnitude(p as int),
                ma == magnitude(a as int),
        ;
        lemma_div_is_ordered(mp, ma * SCALE, SCALE as int);
        lemma_div_by_multiple(ma, SCALE as int);
        lemma_div_pos_is_pos(mp, SCALE as int);
    }
    if p >= 0 {
        (p / (SCALE as i128)) as i64
    } else {
        let q: i128 = (-p) / (SCALE as i128);
        -(q as i64)
    }
}

/// An RGBA display color; it plays no part in the physics.
#[derive(Clone, Copy, Debug, PartialEq, Eq, Structural)]
pub struct Color {
    pub r: u8,
    pub g: u8,
    pub b: u8,
    pub a: u8,
}

/// A static, rectangular piece of terrain.
#[derive(Clone, Copy, Debug, PartialEq, Eq, Structural)]
pub struct Block {
    pub pos: Vector2,
    pub dim: Vector2,
    pub color: Color,
}

impl Block {
    pub open spec fn box_spec(&self) -> PhysicsObject {
        PhysicsObject { pos: self.pos, dim: self.dim }
    }

    /// Position and extent are small enough for a physics step.
    pub open spec fn within_limits(&self) -> bool {
        &&& -COORD_LIMIT <= self.pos.x <= COORD_LIMIT
        &&& -COORD_LIMIT <= self.pos.y <= COORD_LIMIT
        &&& 0 <= self.dim.x <= COORD_LIMIT
        &&& 0 <= self.dim.y <= COORD_LIMIT
    }

    pub fn get_physics_object(&self) -> (r: PhysicsObject)
        ensures
            r == self.box_spec(),
    {
        PhysicsObject { pos: self.pos, dim: self.dim }
    }

    pub fn is_colliding(&self, other: &PhysicsObject) -> (r: bool)
        requires
            self.box_spec().fits(),
            other.fits(),
        ensures
            r == self.box_spec().overlaps(*other),
    {
        self.get_physics_object().is_colliding(other)
    }

    /// Runtime test of [`Block::within_limits`].
    pub fn check_limits(&self) -> (r: bool)
        ensures
            r == self.within_limits(),
    {
        -COORD_LIMIT <= self.pos.x && self.pos.x <= COORD_LIMIT && -COORD_LIMIT <= self.pos.y
            && self.pos.y <= COORD_LIMIT && 0 <= self.dim.x && self.dim.x <= COORD_LIMIT
            && 0 <= self.dim.y && self.dim.y <= COORD_LIMIT
    }
}

/// How a body is steered. Keys, buttons and axes are the input device's codes.
#[derive(Clone, Copy, Debug, PartialEq, Eq, Structural)]
pub enum Controls {
    Keyboard { move_up: i32, move_down: i32, move_left: i32, move_right: i32, jump: i32 },
    GamePad {
        id: i32,
        jump: i32,
        /// Analog dead-zone, in sub-units of a full deflection.
        deadzone_amount: i64,
        move_left_right: i32,
    },
}

/// The state of the body's input device for one frame.
///
/// For a keyboard, `left_down`, `right_down` and `jump_down` are the key states
/// and `axis` is unused; for a gamepad, `axis` is the deflection of the
/// horizontal axis (`SCALE` is a full deflection) and `jump_down` the button state.
#[derive(Clone, Copy, Debug, PartialEq, Eq, Structural)]
pub struct DeviceReading {
    pub left_down: bool,
    pub right_down: bool,
    pub jump_down: bool,
    pub axis: i64,
}

impl DeviceReading {
    pub open spec fn valid(&self) -> bool {
        -SCALE <= self.axis <= SCALE
    }
}

/// A normalized movement intent: `horizontal` in `[-SCALE, SCALE]`.
#[derive(Clone, Copy, Debug, PartialEq, Eq, Structural)]
pub struct Intent {
    pub horizontal: i64,
    pub jump: bool,
}

impl Controls {
    /// Keyboard: left wins over right, each a full deflection. Gamepad: the
    /// axis value outside the dead-zone, else zero.
    pub open spec fn intent_spec(&self, reading: DeviceReading) -> Intent {
        match *self {
            Controls::Keyboard { .. } => Intent {
                horizontal: if reading.left_down {
                    (-SCALE) as i64
                } else if reading.right_down {
                    SCALE
                } else {
                    0
                },
                jump: reading.jump_down,
            },
            Controls::GamePad { deadzone_amount, .. } => Intent {
                horizontal: if magnitude(reading.axis as int) > deadzone_amount {
                    reading.axis
                } else {
                    0
                },
                jump: reading.jump_down,
            },
        }
    }

    pub fn intent(&self, reading: &DeviceReading) -> (r: Intent)
        requires
            reading.valid(),
        ensures
            r == self.intent_spec(*reading),
            -SCALE <= r.horizontal <= SCALE,
    {
        match self {
            Controls::Keyboard { .. } => {
                let horizontal: i64 = if reading.left_down {
                    -SCALE
                } else if reading.right_down {
                    SCALE
                } else {
                    0
                };
                Intent { horizontal, jump: reading.jump_down }
            },
            Controls::GamePad { deadzone_amount, .. } => {
                let amount: i64 = if reading.axis < 0 {
                    -reading.axis
                } else {
                    reading.axis
                };
                let horizontal: i64 = if amount > *deadzone_amount {
                    reading.axis
                } else {
                    0
                };
                Intent { horizontal, jump: reading.jump_down }
            },
        }
    }
}

/// A moving body under gravity.
#[derive(Clone, Copy, Debug, PartialEq, Eq, Structural)]
pub struct Player {
    pub pos: Vector2,
    pub size: Vector2,
    pub color: Color,
    pub velocity: Vector2,
    pub controls: Controls,
    /// Horizontal speed at full deflection, in sub-units per second.
    pub movement_speed: i64,
    /// Upward impulse of a jump, in sub-units per second squared.
    pub jump_power: i64,
    pub can_jump: bool,
}

impl Player {
    pub open spec fn box_spec(&self) -> PhysicsObject {
        PhysicsObject { pos: self.pos, dim: self.size }
    }

    /// Every quantity is small enough for a physics step.
    pub open spec fn within_limits(&self) -> bool {
        &&& -COORD_LIMIT <= self.pos.x <= COORD_LIMIT
        &&& -COORD_LIMIT <= self.pos.y <= COORD_LIMIT
        &&& 0 < self.size.x <= COORD_LIMIT
        &&& 0 < self.size.y <= COORD_LIMIT
        &&& -SPEED_LIMIT <= self.velocity.x <= SPEED_LIMIT
        &&& -SPEED_LIMIT <= self.velocity.y <= SPEED_LIMIT
        &&& 0 <= self.movement_speed <= SPEED_LIMIT
        &&& 0 <= self.jump_power <= SPEED_LIMIT
    }

    pub fn get_physics_object(&self) -> (r: PhysicsObject)
        ensures
            r == self.box_spec(),
    {
        PhysicsObject { pos: self.pos, dim: self.size }
    }

    pub fn is_colliding(&self, other: &PhysicsObject) -> (r: bool)
        requires
            self.box_spec().fits(),
            other.fits(),
        ensures
            r == self.box_spec().overlaps(*other),
    {
        self.get_physics_object().is_colliding(other)
    }

    /// Runtime test of [`Player::within_limits`].
    pub fn check_limits(&self) -> (r: bool)
        ensures
            r == self.within_limits(),
    {
        -COORD_LIMIT <= self.pos.x && self.pos.x <= COORD_LIMIT && -COORD_LIMIT <= self.pos.y
            && self.pos.y <= COORD_LIMIT && 0 < self.size.x && self.size.x <= COORD_LIMIT
            && 0 < self.size.y && self.size.y <= COORD_LIMIT && -SPEED_LIMIT <= self.velocity.x
            && self.velocity.x <= SPEED_LIMIT && -SPEED_LIMIT <= self.velocity.y
            && self.velocity.y <= SPEED_LIMIT && 0 <= self.movement_speed
            && self.movement_speed <= SPEED_LIMIT && 0 <= self.jump_power
            && self.jump_power <= SPEED_LIMIT
    }
}

/// The body after its input is applied: the horizontal velocity is set from
/// the intent, and a requested jump replaces the vertical velocity only when
/// one is available, which it then uses up.
pub open spec fn after_input(p: Player, delta: int, reading: DeviceReading) -> Player {
    let intent = p.controls.intent_spec(reading);
    let vx = scale_down(p.movement_speed * intent.horizontal);
    if intent.jump && p.can_jump {
        Player {
            velocity: Vector2 { x: vx as i64, y: (-scale_down(p.jump_power * delta)) as i64 },
            can_jump: false,
            ..p
        }
    } else {
        Player { velocity: Vector2 { x: vx as i64, y: p.velocity.y }, ..p }
    }
}

pub fn handle_player_movement(player: &mut Player, delta: i64, reading: &DeviceReading)
    requires
        old(player).within_limits(),
        0 <= delta <= SCALE,
        reading.valid(),
    ensures
        *final(player) == after_input(*old(player), delta as int, *reading),
        magnitude(final(player).velocity.x as int) <= SPEED_LIMIT,
        magnitude(final(player).velocity.y as int) <= SPEED_LIMIT,
{
    let intent = player.controls.intent(reading);
    if intent.jump && player.can_jump {
        player.can_jump = false;
        player.velocity.y = -scaled(player.jump_power, delta);
    }
    player.velocity.x = scaled(player.movement_speed, intent.horizontal);
}


/// Every block is small enough for a physics step.
pub open spec fn blocks_within_limits(blocks: Seq<Block>) -> bool {
    forall|i: int| 0 <= i < blocks.len() ==> (#[trigger] blocks[i]).within_limits()
}

/// Some block among the first `n` overlaps the box `o`.
pub open spec fn hits_among(o: PhysicsObject, blocks: Seq<Block>, n: int) -> bool {
    exists|j: int| 0 <= j < n && o.overlaps((#[trigger] blocks[j]).box_spec())
}

/// Some block overlaps the box `o`.
pub open spec fn hits_any(o: PhysicsObject, blocks: Seq<Block>) -> bool {
    hits_among(o, blocks, blocks.len() as int)
}

/// The body after gravity has acted on its vertical velocity for `delta` ticks.
pub open spec fn after_gravity(p: Player, delta: int) -> Player {
    Player {
        velocity: Vector2 {
            x: p.velocity.x,
            y: (p.velocity.y + scale_down(GRAVITY * delta)) as i64,
        },
        ..p
    }
}

/// The body moved vertically by its velocity over `delta` ticks.
pub open spec fn moved_vertically(p: Player, delta: int) -> Player {
    Player {
        pos: Vector2 { x: p.pos.x, y: (p.pos.y + scale_down(p.velocity.y * delta)) as i64 },
        ..p
    }
}

/// The body moved horizontally by its velocity over `delta` ticks.
pub open spec fn moved_horizontally(p: Player, delta: int) -> Player {
    Player {
        pos: Vector2 { x: (p.pos.x + scale_down(p.velocity.x * delta)) as i64, y: p.pos.y },
        ..p
    }
}

/// Vertical move and resolution: if the moved body overlaps any block, it
/// stays where it was, its vertical velocity is zeroed, and a fall (positive
/// vertical velocity) stopped this way grants a jump.
pub open spec fn resolve_vertical(p: Player, blocks: Seq<Block>, delta: int) -> Player {
    let moved = moved_vertically(p, delta);
    if hits_any(moved.box_spec(), blocks) {
        Player {
            velocity: Vector2 { x: p.velocity.x, y: 0 },
            can_jump: p.can_jump || p.velocity.y > 0,
            ..p
        }
    } else {
        moved
    }
}

/// Horizontal move and resolution: if the moved body overlaps any block, it
/// stays where it was and its horizontal velocity is zeroed.
pub open spec fn resolve_horizontal(p: Player, blocks: Seq<Block>, delta: int) -> Player {
    let moved = moved_horizontally(p, delta);
    if hits_any(moved.box_spec(), blocks) {
        Player { velocity: Vector2 { x: 0, y: p.velocity.y }, ..p }
    } else {
        moved
    }
}

/// One frame of a body: input, gravity, then vertical and horizontal resolution.
pub open spec fn step_spec(p: Player, blocks: Seq<Block>, delta: int, reading: DeviceReading) -> Player {
    resolve_horizontal(
        resolve_vertical(after_gravity(after_input(p, delta, reading), delta), blocks, delta),
        blocks,
        delta,
    )
}

/// Bounds that keep a resolution step free of overflow.
pub open spec fn resolvable(p: Player) -> bool {
    &&& -2 * COORD_LIMIT <= p.pos.x <= 2 * COORD_LIMIT
    &&& -2 * COORD_LIMIT <= p.pos.y <= 2 * COORD_LIMIT
    &&& 0 < p.size.x <= COORD_LIMIT
    &&& 0 < p.size.y <= COORD_LIMIT
    &&& -2 * SPEED_LIMIT <= p.velocity.x <= 2 * SPEED_LIMIT
    &&& -2 * SPEED_LIMIT <= p.velocity.y <= 2 * SPEED_LIMIT
}

fn apply_gravity(player: &mut Player, delta: i64)
    requires
        -SPEED_LIMIT <= old(player).velocity.y <= SPEED_LIMIT,
        0 <= delta <= SCALE,
    ensures
        *final(player) == after_gravity(*old(player), delta as int),
        -2 * SPEED_LIMIT <= final(player).velocity.y <= 2 * SPEED_LIMIT,
{
    player.velocity.y = player.velocity.y + scaled(GRAVITY, delta);
}

fn resolve_y(player: &mut Player, blocks: &Vec<Block>, delta: i64)
    requires
        resolvable(*old(player)),
        blocks_within_limits(blocks@),
        0 <= delta <= SCALE,
    ensures
        *final(player) == resolve_vertical(*old(player), blocks@, delta as int),
        magnitude(final(player).pos.y - old(player).pos.y) <= 2 * SPEED_LIMIT,
{
    let ghost start = *player;
    let ghost moved = moved_vertically(start, delta as int);
    let ghost stopped = Player {
        velocity: Vector2 { x: start.velocity.x, y: 0 },
        can_jump: start.can_jump || start.velocity.y > 0,
        ..start
    };
    let dy = scaled(player.velocity.y, delta);
    player.pos.y = player.pos.y + dy;
    assert(*player == moved);
    let mut i: usize = 0;
    while i < blocks.len()
        invariant
            i <= blocks.len(),
            blocks_within_limits(blocks@),
            0 <= delta <= SCALE,
            resolvable(start),
            moved == moved_vertically(start, delta as int),
            magnitude(moved.pos.y - start.pos.y) <= 2 * SPEED_LIMIT,
            stopped == (Player {
                velocity: Vector2 { x: start.velocity.x, y: 0 },
                can_jump: start.can_jump || start.velocity.y > 0,
                ..start
            }),
            hits_among(moved.box_spec(), blocks@, i as int) ==> *player == stopped,
            !hits_among(moved.box_spec(), blocks@, i as int) ==> *player == moved,
        decreases blocks.len() - i,
    {
        let block = &blocks[i];
        let ghost before = *player;
        proof {
            assert(blocks@[i as int].within_limits());
        }
        if player.is_colliding(&block.get_physics_object()) {
            player.pos.y = player.pos.y - scaled(player.velocity.y, delta);
            if player.velocity.y > 0 {
                player.can_jump = true;
            }
            player.velocity.y = 0;
        }
        proof {
            if before == moved && moved.box_spec().overlaps(blocks@[i as int].box_spec()) {
                assert(hits_among(moved.box_spec(), blocks@, i as int + 1));
            }
            if !hits_among(moved.box_spec(), blocks@, i as int) && !moved.box_spec().overlaps(
                blocks@[i as int].box_spec(),
            ) {
                assert forall|j: int|
                    0 <= j < i as int + 1 implies !moved.box_spec().overlaps(
                    (#[trigger] blocks@[j]).box_spec(),
                ) by {
                    if j < i as int {
                        assert(!hits_among(moved.box_spec(), blocks@, i as int));
                    }
                }
            }
            if hits_among(moved.box_spec(), blocks@, i as int) {
                let j = choose|j: int|
                    0 <= j < i as int && moved.box_spec().overlaps(
                        (#[trigger] blocks@[j]).box_spec(),
                    );
                assert(hits_among(moved.box_spec(), blocks@, i as int + 1));
            }
        }
        i = i + 1;
    }
}

fn resolve_x(player: &mut Player, blocks: &Vec<Block>, delta: i64)
    requires
        resolvable(*old(player)),
        blocks_within_limits(blocks@),
        0 <= delta <= SCALE,
    ensures
        *final(player) == resolve_horizontal(*old(player), blocks@, delta as int),
{
    let ghost start = *player;
    let ghost moved = moved_horizontally(start, delta as int);
    let ghost stopped = Player { velocity: Vector2 { x: 0, y: start.velocity.y }, ..start };
    let dx = scaled(player.velocity.x, delta);
    player.pos.x = player.pos.x + dx;
    assert(*player == moved);
    let mut i: usize = 0;
    while i < blocks.len()
        invariant
            i <= blocks.len(),
            blocks_within_limits(blocks@),
            0 <= delta <= SCALE,
            resolvable(start),
            moved == moved_horizontally(start, delta as int),
            magnitude(moved.pos.x - start.pos.x) <= 2 * SPEED_LIMIT,
            stopped == (Player { velocity: Vector2 { x: 0, y: start.velocity.y }, ..start }),
            hits_among(moved.box_spec(), blocks@, i as int) ==> *player == stopped,
            !hits_among(moved.box_spec(), blocks@, i as int) ==> *player == moved,
        decreases blocks.len() - i,
    {
        let block = &blocks[i];
        let ghost before = *player;
        proof {
            assert(blocks@[i as int].within_limits());
        }
        if player.is_colliding(&block.get_physics_object()) {
            player.pos.x = player.pos.x - scaled(player.velocity.x, delta);
            player.velocity.x = 0;
        }
        proof {
            if before == moved && moved.box_spec().overlaps(blocks@[i as int].box_spec()) {
                assert(hits_among(moved.box_spec(), blocks@, i as int + 1));
            }
            if !hits_among(moved.box_spec(), blocks@, i as int) && !moved.box_spec().overlaps(
                blocks@[i as int].box_spec(),
            ) {
                assert forall|j: int|
                    0 <= j < i as int + 1 implies !moved.box_spec().overlaps(
                    (#[trigger] blocks@[j]).box_spec(),
                ) by {
                    if j < i as int {
                        assert(!hits_among(moved.box_spec(), blocks@, i as int));
                    }
                }
            }
            if hits_among(moved.box_spec(), blocks@, i as int) {
                let j = choose|j: int|
                    0 <= j < i as int && moved.box_spec().overlaps(
                        (#[trigger] blocks@[j]).box_spec(),
                    );
                assert(hits_among(moved.box_spec(), blocks@, i as int + 1));
            }
        }
        i = i + 1;
    }
}

/// Advances one body by one frame against the static blocks.
pub fn step_player(player: &mut Player, blocks: &Vec<Block>, delta: i64, reading: &DeviceReading)
    requires
        old(player).within_limits(),
        blocks_within_limits(blocks@),
        0 <= delta <= SCALE,
        reading.valid(),
    ensures
        *final(player) == step_spec(*old(player), blocks@, delta as int, *reading),
{
    handle_player_movement(player, delta, reading);
    apply_gravity(player, delta);
    resolve_y(player, blocks, delta);
    resolve_x(player, blocks, delta);
}


/// A resolution never leaves a body inside a block it was clear of: if no
/// block overlaps the body before an axis is moved and resolved, none
/// overlaps it afterwards, on either axis.
pub proof fn lemma_resolution_keeps_clear(p: Player, blocks: Seq<Block>, delta: int)
    requires
        !hits_any(p.box_spec(), blocks),
    ensures
        !hits_any(resolve_vertical(p, blocks, delta).box_spec(), blocks),
        !hits_any(resolve_horizontal(p, blocks, delta).box_spec(), blocks),
{
    assert(resolve_vertical(p, blocks, delta).box_spec() == p.box_spec() || !hits_any(
        resolve_vertical(p, blocks, delta).box_spec(),
        blocks,
    ));
    assert(resolve_horizontal(p, blocks, delta).box_spec() == p.box_spec() || !hits_any(
        resolve_horizontal(p, blocks, delta).box_spec(),
        blocks,
    ));
}

/// No penetration: a body that begins a frame clear of every block is clear
/// of every block after the vertical resolution, and again at the end of the
/// frame.
pub proof fn lemma_step_keeps_clear(
    p: Player,
    blocks: Seq<Block>,
    delta: int,
    reading: DeviceReading,
)
    requires
        !hits_any(p.box_spec(), blocks),
    ensures
        !hits_any(
            resolve_vertical(after_gravity(after_input(p, delta, reading), delta), blocks, delta).box_spec(),
            blocks,
        ),
        !hits_any(step_spec(p, blocks, delta, reading).box_spec(), blocks),
{
    let q = after_gravity(after_input(p, delta, reading), delta);
    assert(q.box_spec() == p.box_spec());
    lemma_resolution_keeps_clear(q, blocks, delta);
    lemma_resolution_keeps_clear(resolve_vertical(q, blocks, delta), blocks, delta);
}

/// Landing: when the body is falling after input and gravity and its
/// vertical move would overlap a block, the frame ends with zero vertical
/// velocity and a jump available.
pub proof fn lemma_landing_grants_jump(
    p: Player,
    blocks: Seq<Block>,
    delta: int,
    reading: DeviceReading,
)
    requires
        after_gravity(after_input(p, delta, reading), delta).velocity.y > 0,
        hits_any(
            moved_vertically(after_gravity(after_input(p, delta, reading), delta), delta).box_spec(),
            blocks,
        ),
    ensures
        step_spec(p, blocks, delta, reading).can_jump,
        step_spec(p, blocks, delta, reading).velocity.y == 0,
{
}

/// Jump gating: without a jump available, input leaves the vertical velocity
/// as it was, whatever is pressed.
pub proof fn lemma_jump_needs_can_jump(p: Player, delta: int, reading: DeviceReading)
    requires
        !p.can_jump,
    ensures
        after_input(p, delta, reading).velocity.y == p.velocity.y,
        !after_input(p, delta, reading).can_jump,
{
}

/// Horizontal velocity does not accumulate: with no horizontal intent the
/// frame ends with zero horizontal velocity, whatever it was before.
pub proof fn lemma_no_input_stops_horizontal(
    p: Player,
    blocks: Seq<Block>,
    delta: int,
    reading: DeviceReading,
)
    requires
        p.controls.intent_spec(reading).horizontal == 0,
    ensures
        step_spec(p, blocks, delta, reading).velocity.x == 0,
{
    let q = resolve_vertical(after_gravity(after_input(p, delta, reading), delta), blocks, delta);
    assert(q.velocity.x == 0);
    assert(scale_down(q.velocity.x * delta) == 0);
}

} // verus!

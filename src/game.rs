use vstd::prelude::*;

use crate::geometry::{Vector2, SCALE};
use crate::physics::{
    blocks_within_limits, step_player, step_spec, Block, Color, Controls, DeviceReading, Player,
};
use crate::scene::{GameStartType, GameState, SceneType};

verus! {

/// Keyboard codes of the default controls.
pub const KEY_SPACE: i32 = 32;
pub const KEY_A: i32 = 65;
pub const KEY_D: i32 = 68;
pub const KEY_S: i32 = 83;
pub const KEY_W: i32 = 87;

/// `v` pixels in sub-units.
pub open spec fn px(v: int) -> i64 {
    (v * SCALE) as i64
}

pub open spec fn block_at(x: int, y: int, w: int, h: int, color: Color) -> Block {
    Block { pos: Vector2 { x: px(x), y: px(y) }, dim: Vector2 { x: px(w), y: px(h) }, color }
}

/// The terrain of a new game.
pub open spec fn spawn_blocks() -> Seq<Block> {
    let ground = Color { r: 125, g: 125, b: 130, a: 255 };
    let ledge = Color { r: 128, g: 123, b: 130, a: 255 };
    let post = Color { r: 130, g: 110, b: 120, a: 255 };
    let wall = Color { r: 100, g: 110, b: 120, a: 255 };
    seq![
        block_at(-640, 240, 1280, 120, ground),
        block_at(-560, -60, 150, 120, ledge),
        block_at(-340, -160, 30, 40, post),
        block_at(-40, -160, 30, 40, post),
        block_at(260, -160, 30, 40, post),
        block_at(460, -160, 100, 40, wall),
        block_at(560, -360, 30, 240, wall),
    ]
}

/// The body of a new game: at the origin, at rest, able to jump.
pub open spec fn spawn_player() -> Player {
    Player {
        pos: Vector2 { x: 0, y: 0 },
        size: Vector2 { x: px(20), y: px(75) },
        color: Color { r: 232, g: 190, b: 172, a: 255 },
        velocity: Vector2 { x: 0, y: 0 },
        controls: Controls::Keyboard {
            move_up: KEY_W,
            move_down: KEY_S,
            move_left: KEY_A,
            move_right: KEY_D,
            jump: KEY_SPACE,
        },
        movement_speed: px(800),
        jump_power: px(400000),
        can_jump: true,
    }
}

/// The body after one frame of the gameplay scene: stepped when it and the
/// terrain are within the physics limits, otherwise left as it is.
pub open spec fn next_player(
    player: Option<Player>,
    blocks: Seq<Block>,
    delta: int,
    reading: DeviceReading,
) -> Option<Player> {
    match player {
        Some(p) => if p.within_limits() && blocks_within_limits(blocks) {
            Some(step_spec(p, blocks, delta, reading))
        } else {
            Some(p)
        },
        None => None,
    }
}

/// Gameplay: one body and its static terrain.
#[derive(Debug)]
pub struct GameScene {
    pub camera_pos: Vector2,
    pub player: Option<Player>,
    pub blocks: Vec<Block>,
}

impl Default for GameScene {
    fn default() -> (r: GameScene)
        ensures
            r.camera_pos == (Vector2 { x: 0, y: 0 }),
            r.player.is_none(),
            r.blocks@.len() == 0,
    {
        GameScene { camera_pos: Vector2 { x: 0, y: 0 }, player: None, blocks: Vec::new() }
    }
}

fn new_block(x: i64, y: i64, w: i64, h: i64, color: Color) -> (r: Block)
    requires
        -100_000_000 <= x <= 100_000_000,
        -100_000_000 <= y <= 100_000_000,
        0 <= w <= 100_000_000,
        0 <= h <= 100_000_000,
    ensures
        r == block_at(x as int, y as int, w as int, h as int, color),
{
    Block {
        pos: Vector2 { x: x * SCALE, y: y * SCALE },
        dim: Vector2 { x: w * SCALE, y: h * SCALE },
        color,
    }
}

impl GameScene {
    /// The scene as a new game starts it.
    pub open spec fn is_spawned(&self) -> bool {
        &&& self.camera_pos == Vector2 { x: 0, y: 0 }
        &&& self.player == Some(spawn_player())
        &&& self.blocks@ == spawn_blocks()
    }

    /// Adds the spawn terrain and places the spawn body.
    pub fn init(&mut self)
        ensures
            final(self).camera_pos == old(self).camera_pos,
            final(self).player == Some(spawn_player()),
            final(self).blocks@ == old(self).blocks@ + spawn_blocks(),
    {
        let ground = Color { r: 125, g: 125, b: 130, a: 255 };
        let ledge = Color { r: 128, g: 123, b: 130, a: 255 };
        let post = Color { r: 130, g: 110, b: 120, a: 255 };
        let wall = Color { r: 100, g: 110, b: 120, a: 255 };
        self.blocks.push(new_block(-640, 240, 1280, 120, ground));
        self.blocks.push(new_block(-560, -60, 150, 120, ledge));
        self.blocks.push(new_block(-340, -160, 30, 40, post));
        self.blocks.push(new_block(-40, -160, 30, 40, post));
        self.blocks.push(new_block(260, -160, 30, 40, post));
        self.blocks.push(new_block(460, -160, 100, 40, wall));
        self.blocks.push(new_block(560, -360, 30, 240, wall));
        assert(self.blocks@ =~= old(self).blocks@ + spawn_blocks());
        self.player = Some(
            Player {
                pos: Vector2 { x: 0, y: 0 },
                size: Vector2 { x: 20 * SCALE, y: 75 * SCALE },
                color: Color { r: 232, g: 190, b: 172, a: 255 },
                velocity: Vector2 { x: 0, y: 0 },
                controls: Controls::Keyboard {
                    move_up: KEY_W,
                    move_down: KEY_S,
                    move_left: KEY_A,
                    move_right: KEY_D,
                    jump: KEY_SPACE,
                },
                movement_speed: 800 * SCALE,
                jump_power: 400000 * SCALE,
                can_jump: true,
            },
        );
    }

    /// A new game's scene.
    pub fn spawn() -> (r: GameScene)
        ensures
            r.is_spawned(),
    {
        let mut scene = GameScene::default();
        scene.init();
        assert(scene.blocks@ =~= spawn_blocks());
        scene
    }

    /// Runtime test of whether every block is within the physics limits.
    pub fn blocks_fit(&self) -> (r: bool)
        ensures
            r == blocks_within_limits(self.blocks@),
    {
        let mut i: usize = 0;
        while i < self.blocks.len()
            invariant
                i <= self.blocks@.len(),
                forall|j: int| 0 <= j < i ==> (#[trigger] self.blocks@[j]).within_limits(),
            decreases self.blocks@.len() - i,
        {
            if !self.blocks[i].check_limits() {
                return false;
            }
            i = i + 1;
        }
        true
    }

    /// One frame of gameplay: the body takes its step, and the pause key
    /// switches to the pause menu.
    pub fn update(
        &mut self,
        game_state: &mut GameState,
        delta: i64,
        reading: &DeviceReading,
        pause_pressed: bool,
    )
        requires
            0 <= delta <= SCALE,
            reading.valid(),
        ensures
            final(self).player == next_player(
                old(self).player,
                old(self).blocks@,
                delta as int,
                *reading,
            ),
            final(self).blocks@ == old(self).blocks@,
            final(self).camera_pos == old(self).camera_pos,
            final(game_state).current_scene == (if pause_pressed {
                SceneType::GamePauseMenu
            } else {
                old(game_state).current_scene
            }),
            final(game_state).should_close == old(game_state).should_close,
    {
        if let Some(p) = self.player {
            if p.check_limits() && self.blocks_fit() {
                let mut moved = p;
                step_player(&mut moved, &self.blocks, delta, reading);
                self.player = Some(moved);
            }
        }
        if pause_pressed {
            game_state.current_scene = SceneType::GamePauseMenu;
        }
    }
}

impl GameState {
    /// Settles a new game before the frame's updates: when `Game(New)` is
    /// current, the gameplay scene is rebuilt from spawn and the state
    /// becomes `Game(Continue)`; otherwise nothing changes.
    pub fn begin_frame(&mut self, game: &mut GameScene)
        ensures
            old(self).current_scene == SceneType::Game(GameStartType::New) ==> {
                &&& final(self).current_scene == SceneType::Game(GameStartType::Continue)
                &&& final(self).should_close == old(self).should_close
                &&& final(game).is_spawned()
            },
            old(self).current_scene != SceneType::Game(GameStartType::New) ==> {
                &&& *final(self) == *old(self)
                &&& *final(game) == *old(game)
            },
    {
        let is_new = match &self.current_scene {
            SceneType::Game(GameStartType::New) => true,
            _ => false,
        };
        if is_new {
            *game = GameScene::spawn();
            self.current_scene = SceneType::Game(GameStartType::Continue);
        }
    }
}

impl SceneType {
    /// The gameplay scene is drawn, frozen, beneath the pause menu and beneath
    /// settings opened from it.
    pub open spec fn shows_game_spec(&self) -> bool {
        match *self {
            SceneType::GamePauseMenu => true,
            SceneType::Settings { last_scene } => *last_scene == SceneType::GamePauseMenu,
            _ => false,
        }
    }

    pub fn draws_game_underneath(&self) -> (r: bool)
        ensures
            r == self.shows_game_spec(),
    {
        match self {
            SceneType::GamePauseMenu => true,
            SceneType::Settings { last_scene } => match **last_scene {
                SceneType::GamePauseMenu => true,
                _ => false,
            },
            _ => false,
        }
    }
}

} // verus!

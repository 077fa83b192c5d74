//! Physics, collision and scene-transition core of a small 2D platformer.
//!
//! All quantities are fixed-point integers: a length of one pixel is
//! [`geometry::SCALE`] sub-units and a second is [`geometry::SCALE`] ticks.
mod geometry;

pub use geometry::{PhysicsObject, Vector2, SCALE};
mod physics;

pub use physics::{
    after_gravity, after_input, blocks_within_limits, handle_player_movement, hits_among,
    hits_any, lemma_jump_needs_can_jump, lemma_landing_grants_jump, lemma_no_input_stops_horizontal,
    lemma_resolution_keeps_clear, lemma_step_keeps_clear, magnitude, moved_horizontally, moved_vertically, resolve_horizontal, resolve_vertical,
    resolvable, scale_down, scaled, step_player, step_spec, Block, Color, Controls, DeviceReading, Intent, Player,
    COORD_LIMIT, GRAVITY, SPEED_LIMIT,
};
mod scene;

pub use scene::{
    enter_settings, lemma_settings_round_trip, main_menu_next, pause_menu_next, settings_next,
    GamePauseMenuScene, GameStartType, GameState, MainMenu, MainMenuButtons, PauseMenuButtons,
    SceneType, Settings,
};
mod game;

pub use game::{
    block_at, next_player, px, spawn_blocks, spawn_player, GameScene, KEY_A, KEY_D, KEY_S,
    KEY_SPACE, KEY_W,
};

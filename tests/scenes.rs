use parkour::{
    DeviceReading, GamePauseMenuScene, GameScene, GameStartType, GameState, MainMenu,
    MainMenuButtons, PauseMenuButtons, SceneType, Settings, Vector2, SCALE,
};

fn state(s: SceneType) -> GameState {
    GameState { should_close: false, current_scene: s }
}

fn settings_over(s: SceneType) -> SceneType {
    SceneType::Settings { last_scene: Box::new(s) }
}

fn main_buttons(c: bool, n: bool, s: bool, q: bool) -> MainMenuButtons {
    MainMenuButtons { continue_pressed: c, new_game_pressed: n, settings_pressed: s, quit_pressed: q }
}

fn idle() -> DeviceReading {
    DeviceReading { left_down: false, right_down: false, jump_down: false, axis: 0 }
}

#[test]
fn main_menu_buttons() {
    let mut m = MainMenu::default();
    m.init();
    let mut g = state(SceneType::MainMenu);
    m.update(&mut g, &main_buttons(true, false, false, false));
    assert_eq!(g.current_scene, SceneType::Game(GameStartType::Continue));
    let mut g = state(SceneType::MainMenu);
    m.update(&mut g, &main_buttons(true, true, false, false));
    assert_eq!(g.current_scene, SceneType::Game(GameStartType::New));
    let mut g = state(SceneType::MainMenu);
    m.update(&mut g, &main_buttons(false, false, false, true));
    assert_eq!(g.current_scene, SceneType::MainMenu);
    assert!(g.should_close);
    let mut g = state(SceneType::MainMenu);
    m.update(&mut g, &main_buttons(false, false, false, false));
    assert_eq!(g.current_scene, SceneType::MainMenu);
    assert!(!g.should_close);
}

#[test]
fn settings_wraps_the_scene_left_by_earlier_buttons() {
    let mut m = MainMenu::default();
    let mut g = state(SceneType::MainMenu);
    m.update(&mut g, &main_buttons(true, false, true, false));
    assert_eq!(g.current_scene, settings_over(SceneType::Game(GameStartType::Continue)));
}

#[test]
fn settings_round_trip_from_main_menu() {
    let mut m = MainMenu::default();
    let mut s = Settings::default();
    s.init();
    let mut g = state(SceneType::MainMenu);
    m.update(&mut g, &main_buttons(false, false, true, false));
    assert_eq!(g.current_scene, settings_over(SceneType::MainMenu));
    s.update(&mut g, false);
    assert_eq!(g.current_scene, settings_over(SceneType::MainMenu));
    s.update(&mut g, true);
    assert_eq!(g.current_scene, SceneType::MainMenu);
}

#[test]
fn settings_round_trip_from_pause_menu() {
    let mut p = GamePauseMenuScene::default();
    p.init();
    let mut s = Settings::default();
    let mut g = state(SceneType::GamePauseMenu);
    let b = PauseMenuButtons { main_menu_pressed: false, continue_pressed: false, settings_pressed: true };
    p.handle_buttons(&mut g, &b);
    assert_eq!(g.current_scene, settings_over(SceneType::GamePauseMenu));
    assert!(g.current_scene.draws_game_underneath());
    s.update(&mut g, true);
    assert_eq!(g.current_scene, SceneType::GamePauseMenu);
}

#[test]
fn nested_settings_unwind_one_level() {
    let mut s = Settings::default();
    let mut g = state(settings_over(settings_over(SceneType::MainMenu)));
    s.update(&mut g, true);
    assert_eq!(g.current_scene, settings_over(SceneType::MainMenu));
    s.update(&mut g, true);
    assert_eq!(g.current_scene, SceneType::MainMenu);
    s.update(&mut g, true);
    assert_eq!(g.current_scene, SceneType::MainMenu);
}

#[test]
fn pause_menu_transitions() {
    let mut p = GamePauseMenuScene::default();
    let mut g = state(SceneType::GamePauseMenu);
    p.update(&mut g, false);
    assert_eq!(g.current_scene, SceneType::GamePauseMenu);
    p.update(&mut g, true);
    assert_eq!(g.current_scene, SceneType::Game(GameStartType::Continue));
    let mut g = state(SceneType::GamePauseMenu);
    let menu = PauseMenuButtons { main_menu_pressed: true, continue_pressed: false, settings_pressed: false };
    p.handle_buttons(&mut g, &menu);
    assert_eq!(g.current_scene, SceneType::MainMenu);
    let mut g = state(SceneType::GamePauseMenu);
    let cont = PauseMenuButtons { main_menu_pressed: true, continue_pressed: true, settings_pressed: false };
    p.handle_buttons(&mut g, &cont);
    assert_eq!(g.current_scene, SceneType::Game(GameStartType::Continue));
    let mut g = state(SceneType::GamePauseMenu);
    let all = PauseMenuButtons { main_menu_pressed: true, continue_pressed: false, settings_pressed: true };
    p.handle_buttons(&mut g, &all);
    assert_eq!(g.current_scene, settings_over(SceneType::MainMenu));
    assert!(!g.should_close);
}

#[test]
fn game_underneath_only_for_pause_and_its_settings() {
    assert!(SceneType::GamePauseMenu.draws_game_underneath());
    assert!(settings_over(SceneType::GamePauseMenu).draws_game_underneath());
    assert!(!settings_over(SceneType::MainMenu).draws_game_underneath());
    assert!(!SceneType::MainMenu.draws_game_underneath());
    assert!(!SceneType::Game(GameStartType::Continue).draws_game_underneath());
}

#[test]
fn duplicate_is_equal() {
    let s = settings_over(settings_over(SceneType::Game(GameStartType::New)));
    assert_eq!(s.duplicate(), s);
    assert_ne!(s, settings_over(SceneType::Game(GameStartType::New)));
}

#[test]
fn spawn_configuration() {
    let g = GameScene::spawn();
    assert_eq!(g.camera_pos, Vector2 { x: 0, y: 0 });
    assert_eq!(g.blocks.len(), 7);
    assert_eq!(g.blocks[0].pos, Vector2 { x: -640 * SCALE, y: 240 * SCALE });
    assert_eq!(g.blocks[0].dim, Vector2 { x: 1280 * SCALE, y: 120 * SCALE });
    assert_eq!(g.blocks[6].pos, Vector2 { x: 560 * SCALE, y: -360 * SCALE });
    assert_eq!(g.blocks[6].dim, Vector2 { x: 30 * SCALE, y: 240 * SCALE });
    let p = g.player.unwrap();
    assert_eq!(p.pos, Vector2 { x: 0, y: 0 });
    assert_eq!(p.size, Vector2 { x: 20 * SCALE, y: 75 * SCALE });
    assert_eq!(p.velocity, Vector2 { x: 0, y: 0 });
    assert_eq!(p.movement_speed, 800 * SCALE);
    assert_eq!(p.jump_power, 400_000 * SCALE);
    assert!(p.can_jump);
}

#[test]
fn new_game_collapses_to_continue_with_fresh_scene() {
    let mut game = GameScene::spawn();
    let mut g = state(SceneType::MainMenu);
    for _ in 0..30 {
        game.update(&mut g, 16_000, &idle(), false);
    }
    assert_ne!(game.player.unwrap().pos, Vector2 { x: 0, y: 0 });
    let mut g = state(SceneType::Game(GameStartType::New));
    g.begin_frame(&mut game);
    assert_eq!(g.current_scene, SceneType::Game(GameStartType::Continue));
    let fresh = GameScene::spawn();
    assert_eq!(game.player, fresh.player);
    assert_eq!(game.blocks, fresh.blocks);
    g.begin_frame(&mut game);
    assert_eq!(g.current_scene, SceneType::Game(GameStartType::Continue));
}

#[test]
fn continue_keeps_the_game() {
    let mut game = GameScene::spawn();
    let mut g = state(SceneType::Game(GameStartType::Continue));
    game.update(&mut g, 16_000, &idle(), false);
    let before = game.player;
    g.begin_frame(&mut game);
    assert_eq!(game.player, before);
}

#[test]
fn init_twice_duplicates_terrain() {
    let mut game = GameScene::default();
    assert!(game.player.is_none());
    game.init();
    game.init();
    assert_eq!(game.blocks.len(), 14);
}

#[test]
fn game_update_steps_and_pauses() {
    let mut game = GameScene::spawn();
    let mut g = state(SceneType::Game(GameStartType::Continue));
    game.update(&mut g, 16_000, &idle(), false);
    assert_eq!(game.player.unwrap().pos, Vector2 { x: 0, y: 704_000 });
    assert_eq!(g.current_scene, SceneType::Game(GameStartType::Continue));
    game.update(&mut g, 16_000, &idle(), true);
    assert_eq!(g.current_scene, SceneType::GamePauseMenu);
}

#[test]
fn game_update_leaves_body_beyond_limits() {
    let mut game = GameScene::spawn();
    let mut p = game.player.unwrap();
    p.pos.y = parkour::COORD_LIMIT + 1;
    game.player = Some(p);
    let mut g = state(SceneType::Game(GameStartType::Continue));
    game.update(&mut g, 16_000, &idle(), false);
    assert_eq!(game.player, Some(p));
    assert!(!p.check_limits());
}

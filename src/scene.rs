use vstd::prelude::*;

verus! {

/// How the gameplay scene is entered.
#[derive(Clone, Copy, Debug, PartialEq, Eq, Structural)]
pub enum GameStartType {
    New,
    Continue,
}

/// The screen that is current; `Settings` owns the scene it returns to.
#[derive(Debug)]
pub enum SceneType {
    Game(GameStartType),
    GamePauseMenu,
    MainMenu,
    Settings { last_scene: Box<SceneType> },
}

impl SceneType {
    /// A copy equal to `self`.
    pub fn duplicate(&self) -> (r: SceneType)
        ensures
            r == *self,
        decreases self,
    {
        match self {
            SceneType::Game(t) => SceneType::Game(*t),
            SceneType::GamePauseMenu => SceneType::GamePauseMenu,
            SceneType::MainMenu => SceneType::MainMenu,
            SceneType::Settings { last_scene } => SceneType::Settings {
                last_scene: Box::new(last_scene.duplicate()),
            },
        }
    }
}

impl PartialEq for SceneType {
    fn eq(&self, o: &SceneType) -> (r: bool)
        decreases self,
    {
        match (self, o) {
            (SceneType::Game(a), SceneType::Game(b)) => *a == *b,
            (SceneType::GamePauseMenu, SceneType::GamePauseMenu) => true,
            (SceneType::MainMenu, SceneType::MainMenu) => true,
            (SceneType::Settings { last_scene: a }, SceneType::Settings { last_scene: b }) => {
                (**a).eq(&**b)
            },
            _ => false,
        }
    }
}

impl vstd::std_specs::cmp::PartialEqSpecImpl for SceneType {
    open spec fn obeys_eq_spec() -> bool {
        true
    }

    open spec fn eq_spec(&self, o: &SceneType) -> bool {
        *self == *o
    }
}

impl Eq for SceneType {

}

/// Process-wide state shared by the scenes.
#[derive(Debug)]
pub struct GameState {
    pub should_close: bool,
    pub current_scene: SceneType,
}


/// The main menu's buttons activated this frame.
#[derive(Clone, Copy, Debug, PartialEq, Eq, Structural)]
pub struct MainMenuButtons {
    pub continue_pressed: bool,
    pub new_game_pressed: bool,
    pub settings_pressed: bool,
    pub quit_pressed: bool,
}

/// The pause menu's buttons activated this frame.
#[derive(Clone, Copy, Debug, PartialEq, Eq, Structural)]
pub struct PauseMenuButtons {
    pub main_menu_pressed: bool,
    pub continue_pressed: bool,
    pub settings_pressed: bool,
}

/// The settings scene wraps the scene that is current when it is entered.
pub open spec fn enter_settings(current: SceneType) -> SceneType {
    SceneType::Settings { last_scene: Box::new(current) }
}

/// The main menu's buttons take effect in order: continue, new game, then
/// settings, which returns to whatever the earlier buttons left current.
pub open spec fn main_menu_next(current: SceneType, b: MainMenuButtons) -> SceneType {
    let after_continue = if b.continue_pressed {
        SceneType::Game(GameStartType::Continue)
    } else {
        current
    };
    let after_new = if b.new_game_pressed {
        SceneType::Game(GameStartType::New)
    } else {
        after_continue
    };
    if b.settings_pressed {
        enter_settings(after_new)
    } else {
        after_new
    }
}

/// The pause menu's buttons take effect in order: main menu, continue, then
/// settings, which returns to whatever the earlier buttons left current.
pub open spec fn pause_menu_next(current: SceneType, b: PauseMenuButtons) -> SceneType {
    let after_menu = if b.main_menu_pressed {
        SceneType::MainMenu
    } else {
        current
    };
    let after_continue = if b.continue_pressed {
        SceneType::Game(GameStartType::Continue)
    } else {
        after_menu
    };
    if b.settings_pressed {
        enter_settings(after_continue)
    } else {
        after_continue
    }
}

/// "Back" in settings restores the scene it wraps; elsewhere it does nothing.
pub open spec fn settings_next(current: SceneType, back_pressed: bool) -> SceneType {
    match current {
        SceneType::Settings { last_scene } => if back_pressed {
            *last_scene
        } else {
            current
        },
        _ => current,
    }
}

/// The main menu: continue, new game, settings and quit.
#[derive(Clone, Copy, Debug, Default, PartialEq, Eq, Structural)]
pub struct MainMenu {}

impl MainMenu {
    /// The scene holds no state of its own: nothing to set up.
    pub fn init(&mut self)
        ensures
            *final(self) == *old(self),
    {
    }

    pub fn update(&mut self, game_state: &mut GameState, buttons: &MainMenuButtons)
        ensures
            final(game_state).current_scene == main_menu_next(
                old(game_state).current_scene,
                *buttons,
            ),
            final(game_state).should_close == (old(game_state).should_close
                || buttons.quit_pressed),
    {
        if buttons.continue_pressed {
            game_state.current_scene = SceneType::Game(GameStartType::Continue);
        }
        if buttons.new_game_pressed {
            game_state.current_scene = SceneType::Game(GameStartType::New);
        }
        if buttons.settings_pressed {
            game_state.current_scene = SceneType::Settings {
                last_scene: Box::new(game_state.current_scene.duplicate()),
            };
        }
        if buttons.quit_pressed {
            game_state.should_close = true;
        }
    }
}

/// The pause menu, drawn over the frozen gameplay scene.
#[derive(Clone, Copy, Debug, Default, PartialEq, Eq, Structural)]
pub struct GamePauseMenuScene {}

impl GamePauseMenuScene {
    /// The scene holds no state of its own: nothing to set up.
    pub fn init(&mut self)
        ensures
            *final(self) == *old(self),
    {
    }

    /// The pause key resumes the game.
    pub fn update(&mut self, game_state: &mut GameState, resume_pressed: bool)
        ensures
            final(game_state).current_scene == (if resume_pressed {
                SceneType::Game(GameStartType::Continue)
            } else {
                old(game_state).current_scene
            }),
            final(game_state).should_close == old(game_state).should_close,
    {
        if resume_pressed {
            game_state.current_scene = SceneType::Game(GameStartType::Continue);
        }
    }

    /// Applies the menu's buttons activated this frame.
    pub fn handle_buttons(&mut self, game_state: &mut GameState, buttons: &PauseMenuButtons)
        ensures
            final(game_state).current_scene == pause_menu_next(
                old(game_state).current_scene,
                *buttons,
            ),
            final(game_state).should_close == old(game_state).should_close,
    {
        if buttons.main_menu_pressed {
            game_state.current_scene = SceneType::MainMenu;
        }
        if buttons.continue_pressed {
            game_state.current_scene = SceneType::Game(GameStartType::Continue);
        }
        if buttons.settings_pressed {
            game_state.current_scene = SceneType::Settings {
                last_scene: Box::new(game_state.current_scene.duplicate()),
            };
        }
    }
}

/// The settings screen, which returns to the scene that opened it.
#[derive(Clone, Copy, Debug, Default, PartialEq, Eq, Structural)]
pub struct Settings {}

impl Settings {
    /// The scene holds no state of its own: nothing to set up.
    pub fn init(&mut self)
        ensures
            *final(self) == *old(self),
    {
    }

    pub fn update(&mut self, game_state: &mut GameState, back_pressed: bool)
        ensures
            final(game_state).current_scene == settings_next(
                old(game_state).current_scene,
                back_pressed,
            ),
            final(game_state).should_close == old(game_state).should_close,
    {
        if back_pressed {
            let previous = match &game_state.current_scene {
                SceneType::Settings { last_scene } => Some(last_scene.duplicate()),
                _ => None,
            };
            if let Some(previous) = previous {
                game_state.current_scene = previous;
            }
        }
    }
}

/// Settings returns to its caller exactly: from any scene, entering settings
/// from the main menu with no other button and then pressing back restores
/// that scene; the same holds for the pause menu, and back from
/// `Settings { last_scene: s }` gives `s` whatever `s` is.
pub proof fn lemma_settings_round_trip(s: SceneType, m: MainMenuButtons, p: PauseMenuButtons)
    requires
        m.settings_pressed && !m.continue_pressed && !m.new_game_pressed,
        p.settings_pressed && !p.main_menu_pressed && !p.continue_pressed,
    ensures
        main_menu_next(s, m) == enter_settings(s),
        settings_next(main_menu_next(s, m), true) == s,
        pause_menu_next(s, p) == enter_settings(s),
        settings_next(pause_menu_next(s, p), true) == s,
        settings_next(enter_settings(s), true) == s,
{
}

} // verus!

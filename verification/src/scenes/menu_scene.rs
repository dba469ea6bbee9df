//! The menu: two buttons, each of which starts a game.
use vstd::prelude::*;
use crate::cursor::{Cursor, Pointer};
use crate::geometry::{Rect, Vec2};
use crate::level_gen::Difficulty;
use crate::scene::{Scene, SceneAction};
use crate::scenes::game_scene::GameScene;

verus! {

/// Where a button rests.
pub const BUTTON_REST: i64 = -100_000;

/// Where a button stands while the pointer is over it.
pub const BUTTON_HOVER: i64 = -50_000;

/// What a button does.
#[derive(Clone, Copy, PartialEq, Eq, Structural, Debug)]
pub enum MenuAction {
    StartGame,
    StartGameHard,
    Return,
    Nothing,
}

/// A rectangle on the screen that acts on a press.
#[derive(Clone, Copy, PartialEq, Eq, Structural, Debug)]
pub struct Button {
    pub rect: Rect,
    pub action: MenuAction,
}

/// The menu.
#[derive(Clone, Copy, Debug)]
pub struct MenuScene {
    pub cursor: Cursor,
    pub button: Button,
    pub button_2: Button,
}

/// A button moved to where the pointer's place puts it.
pub open spec fn hovered(button: Button, mouse: Vec2) -> Button {
    Button {
        rect: Rect {
            x: if button.rect.spec_contains(mouse) {
                BUTTON_HOVER
            } else {
                BUTTON_REST
            },
            ..button.rect
        },
        ..button
    }
}

impl MenuScene {
    /// The menu as it opens.
    pub open spec fn fresh(pointer: Vec2) -> MenuScene {
        MenuScene {
            cursor: Cursor { position: pointer, click_position: None, selected_index: None },
            button: Button {
                rect: Rect { x: BUTTON_REST, y: 200_000, w: 350_000, h: 100_000 },
                action: MenuAction::StartGame,
            },
            button_2: Button {
                rect: Rect { x: BUTTON_REST, y: 350_000, w: 350_000, h: 100_000 },
                action: MenuAction::StartGameHard,
            },
        }
    }

    /// What a press chooses: the action of the button under the pointer,
    /// the second button's where both are.
    pub open spec fn choice(self, pointer: Pointer) -> MenuAction {
        if !pointer.pressed {
            MenuAction::Nothing
        } else if self.button_2.rect.spec_contains(pointer.position) {
            self.button_2.action
        } else if self.button.rect.spec_contains(pointer.position) {
            self.button.action
        } else {
            MenuAction::Nothing
        }
    }

    /// The menu after a frame: the cursor follows the pointer and the
    /// buttons move under it.
    pub open spec fn updated(self, pointer: Pointer) -> MenuScene {
        MenuScene {
            cursor: Cursor { position: pointer.position, ..self.cursor },
            button: hovered(self.button, pointer.position),
            button_2: hovered(self.button_2, pointer.position),
        }
    }

    /// What one frame may make of the menu, and what it asks of the scene
    /// stack: a press on a start button replaces the menu by a new game of
    /// that button's difficulty.
    pub open spec fn steps_to(self, pointer: Pointer, screen: Vec2, next: MenuScene, action: SceneAction) -> bool {
        &&& next == self.updated(pointer)
        &&& match next.choice(pointer) {
            MenuAction::StartGame => action matches SceneAction::Replace(Scene::Game(g))
                && g.starts(Difficulty::Normal, screen, pointer.position) && g.wf(),
            MenuAction::StartGameHard => action matches SceneAction::Replace(Scene::Game(g))
                && g.starts(Difficulty::Hard, screen, pointer.position) && g.wf(),
            _ => action == SceneAction::Continue,
        }
    }

    /// The menu as it opens, the cursor at the pointer's place.
    pub fn new(pointer: Vec2) -> (scene: MenuScene)
        ensures
            scene == MenuScene::fresh(pointer),
    {
        MenuScene {
            cursor: Cursor::new(pointer),
            button: Button {
                rect: Rect::new(BUTTON_REST, 200_000, 350_000, 100_000),
                action: MenuAction::StartGame,
            },
            button_2: Button {
                rect: Rect::new(BUTTON_REST, 350_000, 350_000, 100_000),
                action: MenuAction::StartGameHard,
            },
        }
    }

    /// Advances the menu by one frame.
    pub fn update(&mut self, pointer: &Pointer, screen: Vec2) -> (action: SceneAction)
        ensures
            old(self).steps_to(*pointer, screen, *final(self), action),
    {
        self.cursor.basic_update(pointer);
        let mut action = MenuAction::Nothing;
        let mouse_pos: Vec2 = pointer.position;
        self.button.rect.x = if self.button.rect.contains(mouse_pos) {
            BUTTON_HOVER
        } else {
            BUTTON_REST
        };
        self.button_2.rect.x = if self.button_2.rect.contains(mouse_pos) {
            BUTTON_HOVER
        } else {
            BUTTON_REST
        };
        if pointer.pressed {
            if self.button.rect.contains(mouse_pos) {
                action = self.button.action;
            }
            if self.button_2.rect.contains(mouse_pos) {
                action = self.button_2.action;
            }
        }
        match action {
            MenuAction::StartGame => SceneAction::Replace(
                Scene::Game(GameScene::new(Difficulty::Normal, screen, mouse_pos)),
            ),
            MenuAction::StartGameHard => SceneAction::Replace(
                Scene::Game(GameScene::new(Difficulty::Hard, screen, mouse_pos)),
            ),
            _ => SceneAction::Continue,
        }
    }
}

} // verus!

//! The result screen: the time flown, a remark on it, and the way back.
use vstd::prelude::*;
use vstd::string::*;
use crate::cursor::Pointer;
use crate::geometry::{Rect, Vec2};
use crate::scene::{Scene, SceneAction};
use crate::scenes::menu_scene::{Button, MenuAction, MenuScene};

verus! {

/// The result screen.
#[derive(Debug)]
pub struct EndScene {
    pub button: Button,
    pub time: i64,
    pub words: String,
}

/// The remark on a time flown, by the band it falls in.
pub open spec fn remark(time: i64) -> Seq<char> {
    if time < 30_000 {
        "Ouch..."@
    } else if time < 60_000 {
        "Float like a rock"@
    } else if time < 90_000 {
        "Eh... Good enough"@
    } else if time < 105_000 {
        "Great work"@
    } else if time < 120_000 {
        "Top tier"@
    } else {
        "Thanks for bothering"@
    }
}

/// The button that leads back to the menu.
pub open spec fn return_button() -> Button {
    Button {
        rect: Rect { x: 25_000, y: 500_000, w: 350_000, h: 100_000 },
        action: MenuAction::Return,
    }
}

impl EndScene {
    /// The result screen for a time flown.
    pub open spec fn shows(self, time: i64) -> bool {
        &&& self.button == return_button()
        &&& self.time == time
        &&& self.words@ == remark(time)
    }

    /// Whether this frame presses the button.
    pub open spec fn pressed(self, pointer: Pointer) -> bool {
        pointer.pressed && self.button.rect.spec_contains(pointer.position)
    }

    /// What a frame asks of the scene stack: a press on the button replaces
    /// the screen by the action's target, the menu; anything else goes on.
    pub open spec fn asks(self, pointer: Pointer, action: SceneAction) -> bool {
        if self.pressed(pointer) && self.button.action == MenuAction::Return {
            action == SceneAction::Replace(Scene::Menu(MenuScene::fresh(pointer.position)))
        } else {
            action == SceneAction::Continue
        }
    }

    /// The result screen for a time flown.
    pub fn new(time: i64) -> (scene: EndScene)
        ensures
            scene.shows(time),
    {
        let words = if time < 30_000 {
            String::from_str("Ouch...")
        } else if time < 60_000 {
            String::from_str("Float like a rock")
        } else if time < 90_000 {
            String::from_str("Eh... Good enough")
        } else if time < 105_000 {
            String::from_str("Great work")
        } else if time < 120_000 {
            String::from_str("Top tier")
        } else {
            String::from_str("Thanks for bothering")
        };
        EndScene {
            button: Button {
                rect: Rect::new(25_000, 500_000, 350_000, 100_000),
                action: MenuAction::Return,
            },
            time,
            words,
        }
    }

    /// Looks at one frame's input; the screen itself never changes.
    pub fn update(&self, pointer: &Pointer) -> (action: SceneAction)
        ensures
            self.asks(*pointer, action),
    {
        let mut action = MenuAction::Nothing;
        if pointer.pressed {
            if self.button.rect.contains(pointer.position) {
                action = self.button.action;
            }
        }
        match action {
            MenuAction::Return => SceneAction::Replace(
                Scene::Menu(MenuScene::new(pointer.position)),
            ),
            _ => SceneAction::Continue,
        }
    }
}

} // verus!

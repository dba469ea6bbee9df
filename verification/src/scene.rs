//! The stack of scenes, of which the topmost is active.
use vstd::prelude::*;
use crate::cursor::Pointer;
use crate::geometry::Vec2;
use crate::scenes::end_scene::EndScene;
use crate::scenes::game_scene::{GameScene, Inputs};
use crate::scenes::menu_scene::MenuScene;

verus! {

/// One of the game's screens.
#[derive(Debug)]
pub enum Scene {
    Menu(MenuScene),
    Game(GameScene),
    End(EndScene),
}

/// What a scene asks of the stack at the end of a frame.
#[derive(Debug)]
pub enum SceneAction {
    /// Nothing changes.
    Continue,
    /// The given scene becomes active above the current one.
    Push(Scene),
    /// The given scene takes the current one's place.
    Replace(Scene),
    /// The current scene ends, and the one beneath it resumes.
    Pop,
}

/// What the devices report for one frame.
#[derive(Clone, Copy, Debug)]
pub struct Frame {
    pub pointer: Pointer,
    pub inputs: Inputs,
    pub escape: bool,
    pub screen: Vec2,
}

/// The stack of scenes.
#[derive(Debug)]
pub struct SceneManager {
    pub stack: Vec<Scene>,
}

/// A stack after an action of its topmost scene.
pub open spec fn applied(stack: Seq<Scene>, action: SceneAction) -> Seq<Scene> {
    match action {
        SceneAction::Continue => stack,
        SceneAction::Push(scene) => stack.push(scene),
        SceneAction::Replace(scene) => if stack.len() > 0 {
            stack.drop_last().push(scene)
        } else {
            stack.push(scene)
        },
        SceneAction::Pop => if stack.len() > 0 {
            stack.drop_last()
        } else {
            stack
        },
    }
}

impl Scene {
    /// Every scene is fit to be updated.
    pub open spec fn wf(self) -> bool {
        match self {
            Scene::Game(g) => g.wf(),
            _ => true,
        }
    }

    /// The scene after it has taken in a frame's input. Only the game looks
    /// at the controls; the other scenes read the pointer as they update.
    pub open spec fn with_input(self, frame: Frame) -> Scene {
        match self {
            Scene::Game(g) => Scene::Game(
                GameScene {
                    inputs: frame.inputs,
                    mouse_captured: GameScene::captured_after(
                        g.mouse_captured,
                        frame.pointer.pressed,
                        frame.escape,
                    ),
                    ..g
                },
            ),
            _ => self,
        }
    }

    /// What the update of one frame may make of a scene, and what it asks
    /// of the stack.
    pub open spec fn steps_to(self, frame: Frame, elapsed: i64, next: Scene, action: SceneAction) -> bool {
        match self {
            Scene::Menu(m) => next matches Scene::Menu(n) && m.steps_to(
                frame.pointer,
                frame.screen,
                n,
                action,
            ),
            Scene::Game(g) => next matches Scene::Game(n) && g@.steps_to(
                frame.pointer,
                elapsed,
                n@,
                action,
            ),
            Scene::End(e) => next == self && e.asks(frame.pointer, action),
        }
    }

    /// Whether an action puts only scenes that are fit to be updated on the
    /// stack.
    pub open spec fn fit(action: SceneAction) -> bool {
        match action {
            SceneAction::Push(scene) => scene.wf(),
            SceneAction::Replace(scene) => scene.wf(),
            _ => true,
        }
    }

    /// Takes in what the devices report for a frame.
    pub fn handle_input(&mut self, frame: &Frame)
        ensures
            *final(self) == old(self).with_input(*frame),
            old(self).wf() ==> final(self).wf(),
    {
        match self {
            Scene::Game(game) => {
                game.handle_input(frame.inputs, frame.pointer.pressed, frame.escape);
            },
            _ => {},
        }
    }

    /// Advances the scene by one frame.
    pub fn update(&mut self, frame: &Frame, elapsed: i64) -> (action: SceneAction)
        requires
            old(self).wf(),
        ensures
            old(self).steps_to(*frame, elapsed, *final(self), action),
            final(self).wf(),
            Scene::fit(action),
    {
        match self {
            Scene::Menu(menu) => menu.update(&frame.pointer, frame.screen),
            Scene::Game(game) => game.update(&frame.pointer, elapsed),
            Scene::End(end) => end.update(&frame.pointer),
        }
    }
}

impl SceneManager {
    /// Every scene on the stack is fit to be updated.
    pub open spec fn wf(self) -> bool {
        forall|i: int| 0 <= i < self.stack@.len() ==> (#[trigger] self.stack@[i]).wf()
    }

    /// What one frame may make of the stack: nothing where it is empty;
    /// else the topmost scene, and no other, takes in the input and is
    /// advanced, and its action is carried out.
    pub open spec fn steps_to(self, frame: Frame, elapsed: i64, next: Seq<Scene>) -> bool {
        if self.stack@.len() == 0 {
            next == self.stack@
        } else {
            exists|top: Scene, action: SceneAction|
                {
                    &&& #[trigger] self.stack@.last().with_input(frame).steps_to(
                        frame,
                        elapsed,
                        top,
                        action,
                    )
                    &&& next == applied(
                        self.stack@.update(self.stack@.len() - 1, top),
                        action,
                    )
                }
        }
    }

    /// A stack that holds the starting scene alone.
    pub fn new(start_scene: Scene) -> (manager: SceneManager)
        ensures
            manager.stack@ == seq![start_scene],
    {
        let mut stack: Vec<Scene> = Vec::new();
        stack.push(start_scene);
        SceneManager { stack }
    }

    /// Carries out an action of the topmost scene.
    pub fn apply(&mut self, action: SceneAction)
        ensures
            final(self).stack@ == applied(old(self).stack@, action),
    {
        match action {
            SceneAction::Continue => {},
            SceneAction::Push(scene) => self.stack.push(scene),
            SceneAction::Replace(scene) => {
                let _ = self.stack.pop();
                self.stack.push(scene);
            },
            SceneAction::Pop => {
                let _ = self.stack.pop();
            },
        }
    }

    /// Lets the topmost scene take in the input and advance by one frame,
    /// and hands back its action, which `apply` carries out. An empty stack
    /// stays as it is.
    pub fn advance(&mut self, frame: &Frame, elapsed: i64) -> (action: SceneAction)
        requires
            old(self).wf(),
        ensures
            final(self).wf(),
            Scene::fit(action),
            old(self).stack@.len() == 0 ==> action == SceneAction::Continue && final(self).stack@
                == old(self).stack@,
            old(self).stack@.len() > 0 ==> {
                &&& final(self).stack@.len() == old(self).stack@.len()
                &&& final(self).stack@.drop_last() == old(self).stack@.drop_last()
                &&& old(self).stack@.last().with_input(*frame).steps_to(
                    *frame,
                    elapsed,
                    final(self).stack@.last(),
                    action,
                )
            },
    {
        match self.stack.pop() {
            Some(mut top) => {
                assert(top == old(self).stack@.last());
                assert(old(self).stack@[old(self).stack@.len() - 1].wf());
                top.handle_input(frame);
                let action = top.update(frame, elapsed);
                self.stack.push(top);
                assert(final(self).stack@.drop_last() =~= old(self).stack@.drop_last());
                action
            },
            None => SceneAction::Continue,
        }
    }

    /// Lets the topmost scene take in the input and advance by one frame,
    /// and carries out its action.
    pub fn update(&mut self, frame: &Frame, elapsed: i64)
        requires
            old(self).wf(),
        ensures
            old(self).steps_to(*frame, elapsed, final(self).stack@),
            final(self).wf(),
    {
        let action = self.advance(frame, elapsed);
        let ghost stepped = self.stack@;
        let ghost top = if stepped.len() > 0 {
            stepped.last()
        } else {
            arbitrary()
        };
        proof {
            if old(self).stack@.len() > 0 {
                let before = old(self).stack@;
                assert forall|i: int| 0 <= i < before.len() - 1 implies stepped[i] == before[i] by {
                    assert(stepped.drop_last()[i] == before.drop_last()[i]);
                }
                assert(stepped =~= before.update(before.len() - 1, top));
            }
        }
        self.apply(action);
    }

    /// Whether no scene is left, which ends the run.
    pub fn is_empty(&self) -> (b: bool)
        ensures
            b == (self.stack@.len() == 0),
    {
        self.stack.len() == 0
    }
}

/// Pushing a scene and then popping gives back the stack as it was.
pub proof fn lemma_push_then_pop(stack: Seq<Scene>, scene: Scene)
    ensures
        applied(applied(stack, SceneAction::Push(scene)), SceneAction::Pop) == stack,
        applied(stack, SceneAction::Push(scene)).last() == scene,
{
    assert(stack.push(scene).drop_last() =~= stack);
}

/// Replacing the topmost scene leaves the stack as high as it was, puts
/// the new scene on top, and keeps what was beneath; the old top is gone.
pub proof fn lemma_replace_discards_top(stack: Seq<Scene>, scene: Scene)
    requires
        stack.len() > 0,
    ensures
        applied(stack, SceneAction::Replace(scene)).len() == stack.len(),
        applied(stack, SceneAction::Replace(scene)).last() == scene,
        applied(stack, SceneAction::Replace(scene)).drop_last() == stack.drop_last(),
        stack.len() == 1 ==> applied(stack, SceneAction::Replace(scene)) == seq![scene],
{
    assert(stack.drop_last().push(scene).drop_last() =~= stack.drop_last());
    if stack.len() == 1 {
        assert(applied(stack, SceneAction::Replace(scene)) =~= seq![scene]);
    }
}

} // verus!

//! Screen geometry and touch-sequence generation.
//!
//! Maps UI elements to reference coordinates on a 1920x1080 layout, scales
//! them to the actual screen, and builds the tap/wait sequences that the
//! input-execution collaborator plays back.

use vstd::prelude::*;
use crate::ShebaAction;

verus! {

/// Screen elements that can be tapped.
#[derive(Debug, Clone, Copy)]
pub enum ScreenElement {
    /// Attack button.
    AttackButton,
    /// Command card (index 0-4).
    Card(usize),
    /// Noble Phantasm (servant index 0-2).
    NP(usize),
    /// Servant skill (servant index 0-2, skill index 0-2).
    Skill { servant: usize, skill: usize },
    /// Master skill (index 0-2).
    MasterSkill(usize),
    /// Enemy (index 0-2).
    Enemy(usize),
    /// Dialog next button.
    DialogNext,
    /// Result screen next button.
    ResultNext,
}

/// The index bounds each element kind carries.
pub open spec fn spec_element_wf(e: ScreenElement) -> bool {
    match e {
        ScreenElement::Card(idx) => idx < 5,
        ScreenElement::NP(idx) => idx < 3,
        ScreenElement::Skill { servant, skill } => servant < 3 && skill < 3,
        ScreenElement::MasterSkill(idx) => idx < 3,
        ScreenElement::Enemy(idx) => idx < 3,
        _ => true,
    }
}

/// Reference coordinates of an element on the 1920x1080 layout.
pub open spec fn spec_element_ref_coords(e: ScreenElement) -> (int, int) {
    match e {
        ScreenElement::AttackButton => (1700int, 500int),
        ScreenElement::Card(idx) => (180 + idx * 300 + 150, 880int),
        ScreenElement::NP(idx) => (380 + idx * 280 + 140, 320int),
        ScreenElement::Skill { servant, skill } => (160 + servant * 350 + skill * 85, 950int),
        ScreenElement::MasterSkill(idx) => (1820int, 340 + idx * 80),
        ScreenElement::Enemy(idx) => (400 + idx * 350 + 175, 150int),
        ScreenElement::DialogNext => (1800int, 1000int),
        ScreenElement::ResultNext => (1800int, 1000int),
    }
}

/// A reference coordinate scaled to the actual screen.
pub open spec fn spec_scale(v: int, size: int, ref_size: int) -> int {
    v * size / ref_size
}

/// Screen coordinates for the game's UI elements, based on a 1920x1080
/// reference resolution.
#[derive(Debug, Clone, Copy, PartialEq, Eq, Structural)]
pub struct ScreenCoordinates {
    /// Reference width.
    pub ref_width: u32,
    /// Reference height.
    pub ref_height: u32,
    /// Current screen width.
    pub screen_width: u32,
    /// Current screen height.
    pub screen_height: u32,
}

impl ScreenCoordinates {
    /// The bounds scaling arithmetic relies on: the reference layout and a
    /// screen no larger than 16384 pixels a side.
    pub open spec fn wf(&self) -> bool {
        &&& self.ref_width == 1920
        &&& self.ref_height == 1080
        &&& self.screen_width <= 16384
        &&& self.screen_height <= 16384
    }

    /// Create new screen coordinates for an actual screen size.
    pub fn new(screen_width: u32, screen_height: u32) -> (c: ScreenCoordinates)
        requires
            screen_width <= 16384,
            screen_height <= 16384,
        ensures
            c == (ScreenCoordinates {
                ref_width: 1920u32,
                ref_height: 1080u32,
                screen_width,
                screen_height,
            }),
            c.wf(),
    {
        ScreenCoordinates { ref_width: 1920, ref_height: 1080, screen_width, screen_height }
    }

    /// Scale an X coordinate from the reference to the actual screen.
    pub fn scale_x(&self, x: i32) -> (r: i32)
        requires
            self.wf(),
            0 <= x <= 100000,
        ensures
            r == spec_scale(x as int, self.screen_width as int, 1920),
    {
        proof {
            assert(0 <= x as int * self.screen_width as int <= 100000 * 16384)
                by (nonlinear_arith)
                requires 0 <= x <= 100000, self.screen_width <= 16384;
        }
        (((x as i64) * (self.screen_width as i64)) / (self.ref_width as i64)) as i32
    }

    /// Scale a Y coordinate from the reference to the actual screen.
    pub fn scale_y(&self, y: i32) -> (r: i32)
        requires
            self.wf(),
            0 <= y <= 100000,
        ensures
            r == spec_scale(y as int, self.screen_height as int, 1080),
    {
        proof {
            assert(0 <= y as int * self.screen_height as int <= 100000 * 16384)
                by (nonlinear_arith)
                requires 0 <= y <= 100000, self.screen_height <= 16384;
        }
        (((y as i64) * (self.screen_height as i64)) / (self.ref_height as i64)) as i32
    }

    /// Get the on-screen coordinates for a screen element.
    pub fn get_element_coords(&self, element: ScreenElement) -> (r: (i32, i32))
        requires
            self.wf(),
            spec_element_wf(element),
        ensures
            r.0 == spec_scale(spec_element_ref_coords(element).0, self.screen_width as int,
                1920),
            r.1 == spec_scale(spec_element_ref_coords(element).1, self.screen_height as int,
                1080),
    {
        let (ref_x, ref_y): (i32, i32) = match element {
            ScreenElement::AttackButton => (1700, 500),
            ScreenElement::Card(idx) => {
                let base_x: i32 = 180;
                let card_width: i32 = 300;
                (base_x + (idx as i32) * card_width + card_width / 2, 880)
            }
            ScreenElement::NP(idx) => {
                let base_x: i32 = 380;
                let np_width: i32 = 280;
                (base_x + (idx as i32) * np_width + np_width / 2, 320)
            }
            ScreenElement::Skill { servant, skill } => {
                let servant_x: i32 = 160 + (servant as i32) * 350;
                let skill_x = servant_x + (skill as i32) * 85;
                (skill_x, 950)
            }
            ScreenElement::MasterSkill(idx) => (1820, 340 + (idx as i32) * 80),
            ScreenElement::Enemy(idx) => {
                let base_x: i32 = 400;
                let enemy_width: i32 = 350;
                (base_x + (idx as i32) * enemy_width + enemy_width / 2, 150)
            }
            ScreenElement::DialogNext => (1800, 1000),
            ScreenElement::ResultNext => (1800, 1000),
        };
        (self.scale_x(ref_x), self.scale_y(ref_y))
    }

    /// Get card selection coordinates.
    pub fn get_card_coords(&self, card_idx: usize) -> (r: (i32, i32))
        requires
            self.wf(),
            card_idx < 5,
        ensures
            r.0 == spec_scale(180 + card_idx * 300 + 150, self.screen_width as int, 1920),
            r.1 == spec_scale(880, self.screen_height as int, 1080),
    {
        self.get_element_coords(ScreenElement::Card(card_idx))
    }

    /// Get NP selection coordinates.
    pub fn get_np_coords(&self, servant_idx: usize) -> (r: (i32, i32))
        requires
            self.wf(),
            servant_idx < 3,
        ensures
            r.0 == spec_scale(380 + servant_idx * 280 + 140, self.screen_width as int, 1920),
            r.1 == spec_scale(320, self.screen_height as int, 1080),
    {
        self.get_element_coords(ScreenElement::NP(servant_idx))
    }

    /// Get skill button coordinates.
    pub fn get_skill_coords(&self, servant_idx: usize, skill_idx: usize) -> (r: (i32, i32))
        requires
            self.wf(),
            servant_idx < 3,
            skill_idx < 3,
        ensures
            r.0 == spec_scale(160 + servant_idx * 350 + skill_idx * 85,
                self.screen_width as int, 1920),
            r.1 == spec_scale(950, self.screen_height as int, 1080),
    {
        self.get_element_coords(ScreenElement::Skill { servant: servant_idx, skill: skill_idx })
    }

    /// Get enemy target coordinates.
    pub fn get_enemy_coords(&self, enemy_idx: usize) -> (r: (i32, i32))
        requires
            self.wf(),
            enemy_idx < 3,
        ensures
            r.0 == spec_scale(400 + enemy_idx * 350 + 175, self.screen_width as int, 1920),
            r.1 == spec_scale(150, self.screen_height as int, 1080),
    {
        self.get_element_coords(ScreenElement::Enemy(enemy_idx))
    }

    /// Get attack button coordinates.
    pub fn get_attack_button_coords(&self) -> (r: (i32, i32))
        requires
            self.wf(),
        ensures
            r.0 == spec_scale(1700, self.screen_width as int, 1920),
            r.1 == spec_scale(500, self.screen_height as int, 1080),
    {
        self.get_element_coords(ScreenElement::AttackButton)
    }

    /// Get master skill coordinates.
    pub fn get_master_skill_coords(&self, skill_idx: usize) -> (r: (i32, i32))
        requires
            self.wf(),
            skill_idx < 3,
        ensures
            r.0 == spec_scale(1820, self.screen_width as int, 1920),
            r.1 == spec_scale(340 + skill_idx * 80, self.screen_height as int, 1080),
    {
        self.get_element_coords(ScreenElement::MasterSkill(skill_idx))
    }

    /// Get servant target selection coordinates (when a skill needs a
    /// target): the targets appear across the middle of the screen.
    pub fn get_servant_target_coords(&self, servant_idx: usize) -> (r: (i32, i32))
        requires
            self.wf(),
            servant_idx < 3,
        ensures
            r.0 == spec_scale(400 + servant_idx * 380 + 190, self.screen_width as int, 1920),
            r.1 == spec_scale(540, self.screen_height as int, 1080),
    {
        let base_x: i32 = 400;
        let target_width: i32 = 380;
        let ref_x = base_x + (servant_idx as i32) * target_width + target_width / 2;
        let ref_y: i32 = 540;
        (self.scale_x(ref_x), self.scale_y(ref_y))
    }
}

/// Input generator for creating touch sequences.
#[derive(Debug, Clone, Copy, PartialEq, Eq, Structural)]
pub struct InputGenerator {
    /// Screen coordinates.
    pub coords: ScreenCoordinates,
    /// Delay between actions (ms).
    pub action_delay: u32,
}

/// The tap that selects card-row slot `idx`: slots 5 and up are NP cards of
/// servant `idx - 5`.
pub open spec fn spec_slot_tap(c: ScreenCoordinates, idx: usize) -> ShebaAction {
    if idx >= 5 {
        ShebaAction::Tap {
            x: spec_scale(380 + (idx - 5) * 280 + 140, c.screen_width as int, 1920) as i32,
            y: spec_scale(320, c.screen_height as int, 1080) as i32,
        }
    } else {
        ShebaAction::Tap {
            x: spec_scale(180 + idx * 300 + 150, c.screen_width as int, 1920) as i32,
            y: spec_scale(880, c.screen_height as int, 1080) as i32,
        }
    }
}

impl InputGenerator {
    /// The bounds the generator's arithmetic relies on.
    pub open spec fn wf(&self) -> bool {
        &&& self.coords.wf()
        &&& self.action_delay <= 1000000
    }

    /// Create a new input generator.
    pub fn new(screen_width: u32, screen_height: u32) -> (g: InputGenerator)
        requires
            screen_width <= 16384,
            screen_height <= 16384,
        ensures
            g.coords == (ScreenCoordinates {
                ref_width: 1920u32,
                ref_height: 1080u32,
                screen_width,
                screen_height,
            }),
            g.action_delay == 200,
            g.wf(),
    {
        InputGenerator {
            coords: ScreenCoordinates::new(screen_width, screen_height),
            action_delay: 200,
        }
    }

    /// Set the delay between actions.
    pub fn with_delay(self, delay_ms: u32) -> (g: InputGenerator)
        requires
            delay_ms <= 1000000,
        ensures
            g == (InputGenerator { action_delay: delay_ms, ..self }),
    {
        let mut g = self;
        g.action_delay = delay_ms;
        g
    }

    /// Generate a tap action for a screen element.
    pub fn tap_element(&self, element: ScreenElement) -> (a: ShebaAction)
        requires
            self.wf(),
            spec_element_wf(element),
        ensures
            a == (ShebaAction::Tap {
                x: spec_scale(spec_element_ref_coords(element).0,
                    self.coords.screen_width as int, 1920) as i32,
                y: spec_scale(spec_element_ref_coords(element).1,
                    self.coords.screen_height as int, 1080) as i32,
            }),
    {
        let (x, y) = self.coords.get_element_coords(element);
        ShebaAction::Tap { x, y }
    }

    /// Generate a tap action for reference coordinates.
    pub fn tap_coords(&self, x: i32, y: i32) -> (a: ShebaAction)
        requires
            self.wf(),
            0 <= x <= 100000,
            0 <= y <= 100000,
        ensures
            a == (ShebaAction::Tap {
                x: spec_scale(x as int, self.coords.screen_width as int, 1920) as i32,
                y: spec_scale(y as int, self.coords.screen_height as int, 1080) as i32,
            }),
    {
        ShebaAction::Tap { x: self.coords.scale_x(x), y: self.coords.scale_y(y) }
    }

    /// Generate the action sequence for selecting cards: a tap per slot,
    /// each followed by a settling wait.
    pub fn select_cards(&self, card_indices: &[usize]) -> (actions: Vec<ShebaAction>)
        requires
            self.wf(),
            forall|i: int| 0 <= i < card_indices@.len() ==> #[trigger] card_indices@[i] < 8,
        ensures
            actions@.len() == 2 * card_indices@.len(),
            forall|i: int| 0 <= i < card_indices@.len() ==> {
                &&& #[trigger] actions@[2 * i] == spec_slot_tap(self.coords, card_indices@[i])
                &&& actions@[2 * i + 1] == (ShebaAction::Wait { duration_ms: self.action_delay })
            },
    {
        let mut actions: Vec<ShebaAction> = Vec::new();
        let mut i: usize = 0;
        while i < card_indices.len()
            invariant
                self.wf(),
                i <= card_indices@.len(),
                forall|k: int| 0 <= k < card_indices@.len() ==> #[trigger] card_indices@[k] < 8,
                actions@.len() == 2 * i,
                forall|k: int| 0 <= k < i ==> {
                    &&& #[trigger] actions@[2 * k] == spec_slot_tap(self.coords,
                        card_indices@[k])
                    &&& actions@[2 * k + 1] == (ShebaAction::Wait {
                        duration_ms: self.action_delay,
                    })
                },
            decreases card_indices@.len() - i,
        {
            let idx = card_indices[i];
            if idx >= 5 {
                let servant_idx = idx - 5;
                let (x, y) = self.coords.get_np_coords(servant_idx);
                actions.push(ShebaAction::Tap { x, y });
            } else {
                let (x, y) = self.coords.get_card_coords(idx);
                actions.push(ShebaAction::Tap { x, y });
            }
            actions.push(ShebaAction::Wait { duration_ms: self.action_delay });
            i = i + 1;
        }
        actions
    }

    /// Generate the action sequence for using a servant skill: tap the
    /// skill, wait, and tap the target if one is required.
    pub fn use_skill(&self, servant_idx: usize, skill_idx: usize, target: Option<usize>)
        -> (actions: Vec<ShebaAction>)
        requires
            self.wf(),
            servant_idx < 3,
            skill_idx < 3,
            target matches Some(t) ==> t < 3,
        ensures
            actions@.len() == (if target is Some { 4int } else { 2int }),
            actions@[0] == (ShebaAction::Tap {
                x: spec_scale(160 + servant_idx * 350 + skill_idx * 85,
                    self.coords.screen_width as int, 1920) as i32,
                y: spec_scale(950, self.coords.screen_height as int, 1080) as i32,
            }),
            actions@[1] == (ShebaAction::Wait { duration_ms: self.action_delay }),
            target matches Some(t) ==> {
                &&& actions@[2] == (ShebaAction::Tap {
                    x: spec_scale(400 + t * 380 + 190, self.coords.screen_width as int,
                        1920) as i32,
                    y: spec_scale(540, self.coords.screen_height as int, 1080) as i32,
                })
                &&& actions@[3] == (ShebaAction::Wait { duration_ms: self.action_delay })
            },
    {
        let mut actions: Vec<ShebaAction> = Vec::new();
        let (x, y) = self.coords.get_skill_coords(servant_idx, skill_idx);
        actions.push(ShebaAction::Tap { x, y });
        actions.push(ShebaAction::Wait { duration_ms: self.action_delay });
        if let Some(target_idx) = target {
            let (tx, ty) = self.coords.get_servant_target_coords(target_idx);
            actions.push(ShebaAction::Tap { x: tx, y: ty });
            actions.push(ShebaAction::Wait { duration_ms: self.action_delay });
        }
        actions
    }

    /// Generate the action sequence for using a master skill: open the
    /// menu, wait, tap the skill, wait, and tap the target if required.
    pub fn use_master_skill(&self, skill_idx: usize, target: Option<usize>)
        -> (actions: Vec<ShebaAction>)
        requires
            self.wf(),
            skill_idx < 3,
            target matches Some(t) ==> t < 3,
        ensures
            actions@.len() == (if target is Some { 6int } else { 4int }),
            actions@[0] == (ShebaAction::Tap {
                x: spec_scale(1880, self.coords.screen_width as int, 1920) as i32,
                y: spec_scale(440, self.coords.screen_height as int, 1080) as i32,
            }),
            actions@[1] == (ShebaAction::Wait {
                duration_ms: (2 * self.action_delay) as u32,
            }),
            actions@[2] == (ShebaAction::Tap {
                x: spec_scale(1820, self.coords.screen_width as int, 1920) as i32,
                y: spec_scale(340 + skill_idx * 80, self.coords.screen_height as int,
                    1080) as i32,
            }),
            actions@[3] == (ShebaAction::Wait { duration_ms: self.action_delay }),
            target matches Some(t) ==> {
                &&& actions@[4] == (ShebaAction::Tap {
                    x: spec_scale(400 + t * 380 + 190, self.coords.screen_width as int,
                        1920) as i32,
                    y: spec_scale(540, self.coords.screen_height as int, 1080) as i32,
                })
                &&& actions@[5] == (ShebaAction::Wait { duration_ms: self.action_delay })
            },
    {
        let mut actions: Vec<ShebaAction> = Vec::new();
        actions.push(ShebaAction::Tap {
            x: self.coords.scale_x(1880),
            y: self.coords.scale_y(440),
        });
        actions.push(ShebaAction::Wait { duration_ms: self.action_delay * 2 });
        let (x, y) = self.coords.get_master_skill_coords(skill_idx);
        actions.push(ShebaAction::Tap { x, y });
        actions.push(ShebaAction::Wait { duration_ms: self.action_delay });
        if let Some(target_idx) = target {
            let (tx, ty) = self.coords.get_servant_target_coords(target_idx);
            actions.push(ShebaAction::Tap { x: tx, y: ty });
            actions.push(ShebaAction::Wait { duration_ms: self.action_delay });
        }
        actions
    }

    /// Generate the action for targeting an enemy.
    pub fn target_enemy(&self, enemy_idx: usize) -> (a: ShebaAction)
        requires
            self.wf(),
            enemy_idx < 3,
        ensures
            a == (ShebaAction::Tap {
                x: spec_scale(400 + enemy_idx * 350 + 175, self.coords.screen_width as int,
                    1920) as i32,
                y: spec_scale(150, self.coords.screen_height as int, 1080) as i32,
            }),
    {
        let (x, y) = self.coords.get_enemy_coords(enemy_idx);
        ShebaAction::Tap { x, y }
    }

    /// Generate the action for tapping the attack button.
    pub fn tap_attack(&self) -> (a: ShebaAction)
        requires
            self.wf(),
        ensures
            a == (ShebaAction::Tap {
                x: spec_scale(1700, self.coords.screen_width as int, 1920) as i32,
                y: spec_scale(500, self.coords.screen_height as int, 1080) as i32,
            }),
    {
        let (x, y) = self.coords.get_attack_button_coords();
        ShebaAction::Tap { x, y }
    }

    /// Generate a swipe action between two reference points.
    pub fn swipe(&self, start_x: i32, start_y: i32, end_x: i32, end_y: i32, duration_ms: u32)
        -> (a: ShebaAction)
        requires
            self.wf(),
            0 <= start_x <= 100000,
            0 <= start_y <= 100000,
            0 <= end_x <= 100000,
            0 <= end_y <= 100000,
        ensures
            a == (ShebaAction::Swipe {
                start_x: spec_scale(start_x as int, self.coords.screen_width as int,
                    1920) as i32,
                start_y: spec_scale(start_y as int, self.coords.screen_height as int,
                    1080) as i32,
                end_x: spec_scale(end_x as int, self.coords.screen_width as int, 1920) as i32,
                end_y: spec_scale(end_y as int, self.coords.screen_height as int, 1080) as i32,
                duration_ms,
            }),
    {
        ShebaAction::Swipe {
            start_x: self.coords.scale_x(start_x),
            start_y: self.coords.scale_y(start_y),
            end_x: self.coords.scale_x(end_x),
            end_y: self.coords.scale_y(end_y),
            duration_ms,
        }
    }

    /// Generate a scroll-down action.
    pub fn scroll_down(&self) -> (a: ShebaAction)
        requires
            self.wf(),
        ensures
            a == (ShebaAction::Swipe {
                start_x: spec_scale(960, self.coords.screen_width as int, 1920) as i32,
                start_y: spec_scale(800, self.coords.screen_height as int, 1080) as i32,
                end_x: spec_scale(960, self.coords.screen_width as int, 1920) as i32,
                end_y: spec_scale(400, self.coords.screen_height as int, 1080) as i32,
                duration_ms: 500u32,
            }),
    {
        self.swipe(960, 800, 960, 400, 500)
    }

    /// Generate a scroll-up action.
    pub fn scroll_up(&self) -> (a: ShebaAction)
        requires
            self.wf(),
        ensures
            a == (ShebaAction::Swipe {
                start_x: spec_scale(960, self.coords.screen_width as int, 1920) as i32,
                start_y: spec_scale(400, self.coords.screen_height as int, 1080) as i32,
                end_x: spec_scale(960, self.coords.screen_width as int, 1920) as i32,
                end_y: spec_scale(800, self.coords.screen_height as int, 1080) as i32,
                duration_ms: 500u32,
            }),
    {
        self.swipe(960, 400, 960, 800, 500)
    }
}

} // verus!

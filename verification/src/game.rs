//! The game-mode state machine: menu → playing → end, the per-tick
//! orchestration of physics, generation and collision, the score, and the
//! button descriptors of the menu screens.
//!
//! All side effects towards the collaborators (audio playback, background
//! music control, process exit) are returned as an [`Outcome`] instead of
//! being performed: the caller owns the channels and the window.
use vstd::prelude::*;

use crate::obstacle::spec_gap_size;
use crate::obstacle::spec_min_gap_y;
use crate::obstacle::spec_max_gap_y;
use crate::obstacle::lemma_clamp_consistent;
use crate::obstacle::Obstacle;
use crate::obstacle::MAX_GAP_DIFF;
use crate::player::next_velocity;
use crate::player::next_y;
use crate::player::Player;
use crate::player::FLAP_VELOCITY;
use crate::player::FLOOR_Y;
use crate::player::TERMINAL_VELOCITY;
use crate::player::Y_SCALE;
use crate::FRAME_DURATION;
use crate::sound::SoundEffect;
use crate::INITIAL_OBSTACLES;
use crate::OBSTACLE_INTERVAL;
use crate::SCREEN_HEIGHT;
use crate::SCREEN_WIDTH;

verus! {

/// Which subsystem runs on the current tick.
#[derive(Clone, Copy, Debug, PartialEq, Eq, Structural)]
pub enum GameMode {
    Menu,
    Playing,
    End,
}

/// The logical action a button stands for.
#[derive(Clone, Copy, Debug, PartialEq, Eq, Structural)]
pub enum ButtonAction {
    Play,
    Quit,
    ToggleAudio,
    ToggleMusic,
    Restart,
}

/// The keys the engine reacts to, already decoded from the input
/// collaborator's key codes: `Space` flaps, `P` starts or restarts, `Q`
/// quits, `M` toggles sound effects, `B` toggles background music.
#[derive(Clone, Copy, Debug, PartialEq, Eq, Structural)]
pub enum Key {
    Space,
    P,
    Q,
    M,
    B,
}

/// A clickable rectangle on a menu screen. Its caption is presentation and
/// is derived by the renderer from the action and the audio flags.
#[derive(Clone, Copy, Debug, PartialEq, Eq, Structural)]
pub struct Button {
    pub x: i32,
    pub y: i32,
    pub width: i32,
    pub height: i32,
    pub action: ButtonAction,
    pub hover: bool,
}

/// What a tick asks the collaborators to do: exit the process, start (`true`)
/// or stop (`false`) the background music, in order, and play sounds, in
/// order.
#[derive(Debug)]
pub struct Outcome {
    pub quit: bool,
    pub music: Vec<bool>,
    pub sounds: Vec<SoundEffect>,
}

/// An outcome that asks for nothing.
pub open spec fn spec_no_output(out: Outcome) -> bool {
    &&& !out.quit
    &&& out.music@.len() == 0
    &&& out.sounds@.len() == 0
}

impl Button {
    /// Bounds every button of this game obeys; they keep the point test free
    /// of overflow for any pointer position.
    pub open spec fn wf(self) -> bool {
        &&& 0 <= self.x <= 10000
        &&& 0 <= self.y <= 10000
        &&& 0 <= self.width <= 1000
        &&& 0 <= self.height <= 1000
    }

    /// The point `(px, py)` lies inside this button's rectangle.
    pub open spec fn spec_contains(self, px: int, py: int) -> bool {
        &&& self.x <= px < self.x + self.width
        &&& self.y <= py < self.y + self.height
    }

    /// New button with the hover mark cleared.
    pub fn new(x: i32, y: i32, width: i32, height: i32, action: ButtonAction) -> (b: Button)
        ensures
            b == (Button { x, y, width, height, action, hover: false }),
    {
        Button { x, y, width, height, action, hover: false }
    }

    /// Hit test for the pointer position.
    pub fn contains_point(&self, px: i32, py: i32) -> (r: bool)
        requires
            self.wf(),
        ensures
            r == self.spec_contains(px as int, py as int),
    {
        px >= self.x && px < self.x + self.width && py >= self.y && py < self.y + self.height
    }
}

/// `b` with its hover mark set exactly when the pointer is inside it.
pub open spec fn spec_hover_set(b: Button, mx: int, my: int) -> Button {
    Button { hover: b.spec_contains(mx, my), ..b }
}

/// The button list with every hover mark refreshed for pointer `(mx, my)`.
pub open spec fn spec_hovered(btns: Seq<Button>, mx: int, my: int) -> Seq<Button> {
    Seq::new(btns.len(), |i: int| spec_hover_set(btns[i], mx, my))
}

/// The buttons of the main menu: start, quit, and the two audio toggles.
pub open spec fn spec_menu_buttons() -> Seq<Button> {
    seq![
        (Button { x: 30, y: 15, width: 20, height: 3, action: ButtonAction::Play, hover: false }),
        (Button { x: 30, y: 20, width: 20, height: 3, action: ButtonAction::Quit, hover: false }),
        (Button {
            x: 30,
            y: 25,
            width: 20,
            height: 3,
            action: ButtonAction::ToggleAudio,
            hover: false,
        }),
        (Button {
            x: 30,
            y: 30,
            width: 20,
            height: 3,
            action: ButtonAction::ToggleMusic,
            hover: false,
        }),
    ]
}

/// The buttons of the end screen: restart, quit, and the two audio toggles.
pub open spec fn spec_end_buttons() -> Seq<Button> {
    seq![
        (Button {
            x: 30,
            y: 20,
            width: 20,
            height: 3,
            action: ButtonAction::Restart,
            hover: false,
        }),
        (Button { x: 30, y: 25, width: 20, height: 3, action: ButtonAction::Quit, hover: false }),
        (Button {
            x: 30,
            y: 30,
            width: 20,
            height: 3,
            action: ButtonAction::ToggleAudio,
            hover: false,
        }),
        (Button {
            x: 30,
            y: 35,
            width: 20,
            height: 3,
            action: ButtonAction::ToggleMusic,
            hover: false,
        }),
    ]
}

/// The button list a toggle rebuilds: the list of the active screen; while
/// playing there are no buttons to rebuild.
pub open spec fn spec_rebuilt(mode: GameMode, current: Seq<Button>) -> Seq<Button> {
    match mode {
        GameMode::Menu => spec_menu_buttons(),
        GameMode::End => spec_end_buttons(),
        GameMode::Playing => current,
    }
}

/// The whole game state the engine owns.
pub struct State {
    pub player: Player,
    pub frame_time: u32,
    pub mode: GameMode,
    pub obstacles: Vec<Obstacle>,
    pub score: i32,
    pub audio_enabled: bool,
    pub music_enabled: bool,
    pub buttons: Vec<Button>,
    pub last_obstacle_gap_y: Option<i32>,
}

/// Everything but the buttons and the audio flags agrees between the two
/// states.
pub open spec fn spec_same_core(pre: State, post: State) -> bool {
    &&& post.player == pre.player
    &&& post.frame_time == pre.frame_time
    &&& post.mode == pre.mode
    &&& post.obstacles@ == pre.obstacles@
    &&& post.score == pre.score
    &&& post.last_obstacle_gap_y == pre.last_obstacle_gap_y
}

/// `post` is a freshly (re)started game: score cleared, entity back at the
/// start, a full rolling set of obstacles regenerated at the fixed interval,
/// consecutive gap centers within the smoothness bound, and the history
/// holding the newest gap center. Only the gap centers are left open: they
/// are random.
pub open spec fn spec_restarted(pre: State, post: State) -> bool {
    &&& post.player.x == 5
    &&& post.player.y == 25 * Y_SCALE
    &&& post.player.velocity == 0
    &&& post.frame_time == 0
    &&& post.mode == GameMode::Playing
    &&& post.score == 0
    &&& post.audio_enabled == pre.audio_enabled
    &&& post.music_enabled == pre.music_enabled
    &&& post.buttons@.len() == 0
    &&& post.obstacles@.len() == INITIAL_OBSTACLES
    &&& forall|i: int|
        0 <= i < post.obstacles@.len() ==> {
            &&& (#[trigger] post.obstacles@[i]).x == SCREEN_WIDTH + i * OBSTACLE_INTERVAL
            &&& post.obstacles@[i].size == spec_gap_size(0)
            &&& post.obstacles@[i].wf()
        }
    &&& forall|i: int|
        1 <= i < post.obstacles@.len() ==> -MAX_GAP_DIFF <= (#[trigger] post.obstacles@[i]).gap_y
            - post.obstacles@[i - 1].gap_y <= MAX_GAP_DIFF
    &&& post.last_obstacle_gap_y == Some(post.obstacles@[INITIAL_OBSTACLES - 1].gap_y)
}

/// The music commands a restart sends: start the background track if music
/// is on, else nothing.
pub open spec fn spec_restart_music(pre: State) -> Seq<bool> {
    if pre.music_enabled {
        seq![true]
    } else {
        Seq::empty()
    }
}

/// How a button action transforms the state. `pre_buttons` is the button
/// list at the moment of the click (`pre`'s buttons may already have stale
/// hover marks). Restarts regenerate everything but the random gap centers;
/// toggles flip their flag and rebuild the active screen's buttons.
pub open spec fn spec_click(
    pre: State,
    pre_buttons: Seq<Button>,
    post: State,
    action: ButtonAction,
    out: Outcome,
) -> bool {
    match action {
        ButtonAction::Play | ButtonAction::Restart => {
            &&& spec_restarted(pre, post)
            &&& !out.quit
            &&& out.music@ == spec_restart_music(pre)
            &&& out.sounds@.len() == 0
        },
        ButtonAction::Quit => {
            &&& spec_same_core(pre, post)
            &&& post.audio_enabled == pre.audio_enabled
            &&& post.music_enabled == pre.music_enabled
            &&& post.buttons@ == pre_buttons
            &&& out.quit
            &&& out.music@.len() == 0
            &&& out.sounds@.len() == 0
        },
        ButtonAction::ToggleAudio => {
            &&& spec_same_core(pre, post)
            &&& post.audio_enabled == !pre.audio_enabled
            &&& post.music_enabled == pre.music_enabled
            &&& post.buttons@ == spec_rebuilt(pre.mode, pre_buttons)
            &&& spec_no_output(out)
        },
        ButtonAction::ToggleMusic => {
            &&& spec_same_core(pre, post)
            &&& post.audio_enabled == pre.audio_enabled
            &&& post.music_enabled == !pre.music_enabled
            &&& post.buttons@ == spec_rebuilt(pre.mode, pre_buttons)
            &&& !out.quit
            &&& out.music@ == seq![!pre.music_enabled]
            &&& out.sounds@.len() == 0
        },
    }
}

impl State {
    /// Bounds every reachable state obeys.
    pub open spec fn wf(self) -> bool {
        &&& self.player.wf()
        &&& 0 <= self.score
        &&& self.frame_time <= FRAME_DURATION
        &&& self.obstacles@.len() == INITIAL_OBSTACLES
        &&& forall|i: int| 0 <= i < self.obstacles@.len() ==> (#[trigger] self.obstacles@[i]).wf()
        &&& forall|i: int| 0 <= i < self.buttons@.len() ==> (#[trigger] self.buttons@[i]).wf()
        &&& match self.last_obstacle_gap_y {
            Some(g) => 0 <= g <= SCREEN_HEIGHT,
            None => true,
        }
    }

    /// A fresh game: main menu, score zero, both audio flags on, the entity
    /// at the start, and a provisional rolling set of obstacles at the fixed
    /// interval (regenerated with constraints once the game starts).
    pub fn new(rng: &mut bracket_lib::random::RandomNumberGenerator) -> (s: State)
        ensures
            s.wf(),
            s.mode == GameMode::Menu,
            s.score == 0,
            s.frame_time == 0,
            s.audio_enabled,
            s.music_enabled,
            s.player.x == 5 && s.player.y == 25 * Y_SCALE && s.player.velocity == 0,
            s.buttons@.len() == 0,
            s.last_obstacle_gap_y is None,
            forall|i: int|
                0 <= i < s.obstacles@.len() ==> (#[trigger] s.obstacles@[i]).x == SCREEN_WIDTH + i
                    * OBSTACLE_INTERVAL && s.obstacles@[i].size == spec_gap_size(0),
    {
        let mut obstacles: Vec<Obstacle> = Vec::new();
        let mut x: i32 = SCREEN_WIDTH;
        let mut i: usize = 0;
        while i < INITIAL_OBSTACLES
            invariant
                i <= INITIAL_OBSTACLES,
                obstacles@.len() == i,
                x == SCREEN_WIDTH + i * OBSTACLE_INTERVAL,
                forall|j: int|
                    0 <= j < i ==> (#[trigger] obstacles@[j]).x == SCREEN_WIDTH + j
                        * OBSTACLE_INTERVAL && obstacles@[j].size == spec_gap_size(0)
                        && obstacles@[j].wf(),
            decreases INITIAL_OBSTACLES - i,
        {
            let o = Obstacle::new(rng, x, 0);
            obstacles.push(o);
            x = x + OBSTACLE_INTERVAL;
            i = i + 1;
        }
        State {
            player: Player::new(5, 25),
            frame_time: 0,
            mode: GameMode::Menu,
            obstacles,
            score: 0,
            audio_enabled: true,
            music_enabled: true,
            buttons: Vec::new(),
            last_obstacle_gap_y: None,
        }
    }

    /// A sound request filtered by the sound-effects flag: the collaborator
    /// is asked to play `effect` only while effects are enabled.
    pub fn play_sound(&self, effect: SoundEffect) -> (r: Option<SoundEffect>)
        ensures
            r == if self.audio_enabled {
                Some(effect)
            } else {
                None::<SoundEffect>
            },
    {
        if self.audio_enabled {
            Some(effect)
        } else {
            None
        }
    }

    /// New obstacle at column `x`, its gap center constrained by the stored
    /// history, which is then updated to the new center. With a history
    /// inside the playfield the new center is always within `MAX_GAP_DIFF`
    /// of the previous one.
    pub fn create_obstacle_with_constraint(
        &mut self,
        rng: &mut bracket_lib::random::RandomNumberGenerator,
        x: i32,
        score: i32,
    ) -> (o: Obstacle)
        requires
            0 <= score,
            match old(self).last_obstacle_gap_y {
                Some(g) => 0 <= g <= SCREEN_HEIGHT,
                None => true,
            },
        ensures
            o.x == x,
            o.size == spec_gap_size(score as int),
            o.wf(),
            match old(self).last_obstacle_gap_y {
                Some(l) => -MAX_GAP_DIFF <= o.gap_y - l <= MAX_GAP_DIFF,
                None => spec_min_gap_y(o.size as int) <= o.gap_y <= spec_max_gap_y(o.size as int),
            },
            *final(self) == (State { last_obstacle_gap_y: Some(o.gap_y), ..*old(self) }),
    {
        proof {
            if let Some(l) = self.last_obstacle_gap_y {
                lemma_clamp_consistent(score as int, l as int);
            }
        }
        let o = Obstacle::with_constraint(rng, x, score, self.last_obstacle_gap_y);
        self.last_obstacle_gap_y = Some(o.gap_y);
        o
    }

    /// Reset for a new round: entity back at the start, score and time
    /// accumulator cleared, the history forgotten, and a fresh rolling set
    /// of obstacles generated left to right under the smoothness constraint.
    /// Returns the command to start the background music, if music is on.
    pub fn restart(&mut self, rng: &mut bracket_lib::random::RandomNumberGenerator) -> (music:
        Option<bool>)
        ensures
            spec_restarted(*old(self), *final(self)),
            final(self).wf(),
            music == if old(self).music_enabled {
                Some(true)
            } else {
                None::<bool>
            },
    {
        self.player = Player::new(5, 25);
        self.frame_time = 0;
        self.mode = GameMode::Playing;
        self.obstacles = Vec::new();
        self.last_obstacle_gap_y = None;

        let mut x: i32 = SCREEN_WIDTH;
        let mut i: usize = 0;
        while i < INITIAL_OBSTACLES
            invariant
                i <= INITIAL_OBSTACLES,
                self.obstacles@.len() == i,
                x == SCREEN_WIDTH + i * OBSTACLE_INTERVAL,
                self.player.x == 5 && self.player.y == 25 * Y_SCALE && self.player.velocity == 0,
                self.frame_time == 0,
                self.mode == GameMode::Playing,
                self.score == old(self).score,
                self.audio_enabled == old(self).audio_enabled,
                self.music_enabled == old(self).music_enabled,
                self.buttons@ == old(self).buttons@,
                forall|j: int|
                    0 <= j < i ==> {
                        &&& (#[trigger] self.obstacles@[j]).x == SCREEN_WIDTH + j
                            * OBSTACLE_INTERVAL
                        &&& self.obstacles@[j].size == spec_gap_size(0)
                        &&& self.obstacles@[j].wf()
                    },
                forall|j: int|
                    1 <= j < i ==> -MAX_GAP_DIFF <= (#[trigger] self.obstacles@[j]).gap_y
                        - self.obstacles@[j - 1].gap_y <= MAX_GAP_DIFF,
                match self.last_obstacle_gap_y {
                    Some(g) => i > 0 && g == self.obstacles@[i - 1].gap_y && 0 <= g
                        <= SCREEN_HEIGHT,
                    None => i == 0,
                },
            decreases INITIAL_OBSTACLES - i,
        {
            let o = self.create_obstacle_with_constraint(rng, x, 0);
            self.obstacles.push(o);
            x = x + OBSTACLE_INTERVAL;
            i = i + 1;
        }
        self.score = 0;
        self.buttons = Vec::new();
        if self.music_enabled {
            Some(true)
        } else {
            None
        }
    }

    /// Rebuild the main-menu button list.
    pub fn create_menu_buttons(&mut self)
        ensures
            final(self).buttons@ == spec_menu_buttons(),
            *final(self) == (State { buttons: final(self).buttons, ..*old(self) }),
    {
        let mut buttons: Vec<Button> = Vec::new();
        buttons.push(Button::new(30, 15, 20, 3, ButtonAction::Play));
        buttons.push(Button::new(30, 20, 20, 3, ButtonAction::Quit));
        buttons.push(Button::new(30, 25, 20, 3, ButtonAction::ToggleAudio));
        buttons.push(Button::new(30, 30, 20, 3, ButtonAction::ToggleMusic));
        self.buttons = buttons;
        proof {
            assert(self.buttons@ =~= spec_menu_buttons());
        }
    }

    /// Rebuild the end-screen button list.
    pub fn create_end_buttons(&mut self)
        ensures
            final(self).buttons@ == spec_end_buttons(),
            *final(self) == (State { buttons: final(self).buttons, ..*old(self) }),
    {
        let mut buttons: Vec<Button> = Vec::new();
        buttons.push(Button::new(30, 20, 20, 3, ButtonAction::Restart));
        buttons.push(Button::new(30, 25, 20, 3, ButtonAction::Quit));
        buttons.push(Button::new(30, 30, 20, 3, ButtonAction::ToggleAudio));
        buttons.push(Button::new(30, 35, 20, 3, ButtonAction::ToggleMusic));
        self.buttons = buttons;
        proof {
            assert(self.buttons@ =~= spec_end_buttons());
        }
    }

    /// Perform a button's action: start or restart the game, ask to quit, or
    /// flip an audio flag and rebuild the active screen's buttons.
    pub fn handle_button_click(
        &mut self,
        rng: &mut bracket_lib::random::RandomNumberGenerator,
        action: ButtonAction,
    ) -> (out: Outcome)
        ensures
            spec_click(*old(self), old(self).buttons@, *final(self), action, out),
            old(self).wf() ==> final(self).wf(),
    {
        let mut out = Outcome { quit: false, music: Vec::new(), sounds: Vec::new() };
        match action {
            ButtonAction::Play | ButtonAction::Restart => {
                let music = self.restart(rng);
                if let Some(cmd) = music {
                    out.music.push(cmd);
                }
                proof {
                    assert(out.music@ =~= spec_restart_music(*old(self)));
                }
            },
            ButtonAction::Quit => {
                out.quit = true;
            },
            ButtonAction::ToggleAudio => {
                self.audio_enabled = !self.audio_enabled;
                match self.mode {
                    GameMode::Menu => self.create_menu_buttons(),
                    GameMode::End => self.create_end_buttons(),
                    GameMode::Playing => {},
                }
            },
            ButtonAction::ToggleMusic => {
                self.music_enabled = !self.music_enabled;
                out.music.push(self.music_enabled);
                proof {
                    assert(out.music@ =~= seq![!old(self).music_enabled]);
                }
                match self.mode {
                    GameMode::Menu => self.create_menu_buttons(),
                    GameMode::End => self.create_end_buttons(),
                    GameMode::Playing => {},
                }
            },
        }
        out
    }

    /// Refresh every button's hover mark for the pointer position.
    pub fn update_hover(&mut self, mx: i32, my: i32)
        requires
            forall|i: int| 0 <= i < old(self).buttons@.len() ==> (#[trigger] old(
                self,
            ).buttons@[i]).wf(),
        ensures
            final(self).buttons@ == spec_hovered(old(self).buttons@, mx as int, my as int),
            *final(self) == (State { buttons: final(self).buttons, ..*old(self) }),
    {
        let n = self.buttons.len();
        let mut refreshed: Vec<Button> = Vec::new();
        let mut k: usize = 0;
        while k < n
            invariant
                n == self.buttons@.len(),
                *self == *old(self),
                k <= n,
                refreshed@.len() == k,
                forall|i: int| 0 <= i < n ==> (#[trigger] self.buttons@[i]).wf(),
                forall|i: int|
                    0 <= i < k ==> #[trigger] refreshed@[i] == spec_hover_set(
                        self.buttons@[i],
                        mx as int,
                        my as int,
                    ),
            decreases n - k,
        {
            let b = self.buttons[k];
            let hover = b.contains_point(mx, my);
            refreshed.push(Button { hover, ..b });
            k = k + 1;
        }
        self.buttons = refreshed;
        proof {
            assert(self.buttons@ =~= spec_hovered(old(self).buttons@, mx as int, my as int));
        }
    }
}

/// How a mouse tick transforms the state: every hover mark is refreshed, and
/// on a click the first button under the pointer — of the buttons as they
/// stood before the tick — performs its action.
/// Some button of the list lies under the pointer.
pub open spec fn spec_any_button_hit(btns: Seq<Button>, mx: int, my: int) -> bool {
    exists|i: int| 0 <= i < btns.len() && (#[trigger] btns[i]).spec_contains(mx, my)
}

/// The `i`-th button is the first under the pointer and its action is
/// performed (on the state with refreshed hover marks).
pub open spec fn spec_mouse_click(
    pre: State,
    post: State,
    mx: int,
    my: int,
    out: Outcome,
    i: int,
) -> bool {
    &&& 0 <= i < pre.buttons@.len()
    &&& pre.buttons@[i].spec_contains(mx, my)
    &&& forall|j: int| 0 <= j < i ==> !(#[trigger] pre.buttons@[j]).spec_contains(mx, my)
    &&& spec_click(pre, spec_hovered(pre.buttons@, mx, my), post, pre.buttons@[i].action, out)
}

pub open spec fn spec_mouse(
    pre: State,
    post: State,
    mx: int,
    my: int,
    clicked: bool,
    out: Outcome,
) -> bool {
    if clicked && spec_any_button_hit(pre.buttons@, mx, my) {
        exists|i: int| spec_mouse_click(pre, post, mx, my, out, i)
    } else {
        &&& spec_same_core(pre, post)
        &&& post.audio_enabled == pre.audio_enabled
        &&& post.music_enabled == pre.music_enabled
        &&& post.buttons@ == spec_hovered(pre.buttons@, mx, my)
        &&& spec_no_output(out)
    }
}

/// A state whose empty button list has been filled with `defaults`; a
/// non-empty list is kept.
pub open spec fn spec_filled(pre: State, post: State, defaults: Seq<Button>) -> bool {
    &&& spec_same_core(pre, post)
    &&& post.audio_enabled == pre.audio_enabled
    &&& post.music_enabled == pre.music_enabled
    &&& post.buttons@ == if pre.buttons@.len() == 0 {
        defaults
    } else {
        pre.buttons@
    }
}

/// How a key press transforms a menu screen (main menu or end screen): `P`
/// restarts, `Q` asks to quit, `M` and `B` flip an audio flag and rebuild
/// the screen's buttons `rb`; `quit2` and `music2` are the requests the key
/// contributes.
pub open spec fn spec_key_common(
    pre: State,
    post: State,
    key: Option<Key>,
    quit2: bool,
    music2: Seq<bool>,
    rb: Seq<Button>,
) -> bool {
    match key {
        Some(Key::P) => {
            &&& spec_restarted(pre, post)
            &&& !quit2
            &&& music2 == spec_restart_music(pre)
        },
        Some(Key::Q) => {
            &&& post == pre
            &&& quit2
            &&& music2.len() == 0
        },
        Some(Key::M) => {
            &&& spec_same_core(pre, post)
            &&& post.audio_enabled == !pre.audio_enabled
            &&& post.music_enabled == pre.music_enabled
            &&& post.buttons@ == rb
            &&& !quit2
            &&& music2.len() == 0
        },
        Some(Key::B) => {
            &&& spec_same_core(pre, post)
            &&& post.audio_enabled == pre.audio_enabled
            &&& post.music_enabled == !pre.music_enabled
            &&& post.buttons@ == rb
            &&& !quit2
            &&& music2 == seq![!pre.music_enabled]
        },
        Some(Key::Space) | None => {
            &&& post == pre
            &&& !quit2
            &&& music2.len() == 0
        },
    }
}

/// One tick of a menu screen with button list `screen`: missing buttons are
/// recreated, then the mouse acts, then the key acts, and the requests of
/// the two stages are emitted in order.
/// The two stages of a menu-screen tick spelled out with their intermediate
/// states: `mid1` after missing buttons were recreated, `mid2` after the
/// mouse acted, `post` after the key acted; `o1` and `quit2`/`music2` are
/// the two stages' requests.
pub open spec fn spec_screen_stages(
    pre: State,
    post: State,
    mx: int,
    my: int,
    clicked: bool,
    key: Option<Key>,
    out: Outcome,
    screen: Seq<Button>,
    mid1: State,
    mid2: State,
    o1: Outcome,
    quit2: bool,
    music2: Seq<bool>,
) -> bool {
    &&& spec_filled(pre, mid1, screen)
    &&& spec_mouse(mid1, mid2, mx, my, clicked, o1)
    &&& spec_key_common(mid2, post, key, quit2, music2, screen)
    &&& out.quit == (o1.quit || quit2)
    &&& out.music@ == o1.music@ + music2
    &&& out.sounds@ == o1.sounds@
}

pub open spec fn spec_screen_step(
    pre: State,
    post: State,
    mx: int,
    my: int,
    clicked: bool,
    key: Option<Key>,
    out: Outcome,
    screen: Seq<Button>,
) -> bool {
    exists|mid1: State, mid2: State, o1: Outcome, quit2: bool, music2: Seq<bool>|
        spec_screen_stages(
            pre,
            post,
            mx,
            my,
            clicked,
            key,
            out,
            screen,
            mid1,
            mid2,
            o1,
            quit2,
            music2,
        )
}

/// One tick of the main menu.
pub open spec fn spec_menu_step(
    pre: State,
    post: State,
    mx: int,
    my: int,
    clicked: bool,
    key: Option<Key>,
    out: Outcome,
) -> bool {
    spec_screen_step(pre, post, mx, my, clicked, key, out, spec_menu_buttons())
}

/// One tick of the end screen.
pub open spec fn spec_end_step(
    pre: State,
    post: State,
    mx: int,
    my: int,
    clicked: bool,
    key: Option<Key>,
    out: Outcome,
) -> bool {
    spec_screen_step(pre, post, mx, my, clicked, key, out, spec_end_buttons())
}

/// Collision and progress evaluation against the whole obstacle set, pure in
/// its inputs: whether the entity intersects any obstacle's solid region,
/// and the highest-indexed obstacle whose column the entity has passed, if
/// any.
pub fn check_obstacles(player: &Player, obstacles: &Vec<Obstacle>) -> (r: (bool, Option<usize>))
    requires
        forall|i: int| 0 <= i < obstacles@.len() ==> (#[trigger] obstacles@[i]).wf(),
    ensures
        r.0 == exists|i: int|
            0 <= i < obstacles@.len() && (#[trigger] obstacles@[i]).spec_hit(*player),
        match r.1 {
            Some(i) => {
                &&& i < obstacles@.len()
                &&& player.x > obstacles@[i as int].x
                &&& forall|j: int|
                    i < j < obstacles@.len() ==> player.x <= (#[trigger] obstacles@[j]).x
            },
            None => forall|j: int|
                0 <= j < obstacles@.len() ==> player.x <= (#[trigger] obstacles@[j]).x,
        },
{
    let mut hit = false;
    let mut passed: Option<usize> = None;
    let n = obstacles.len();
    let mut k: usize = 0;
    while k < n
        invariant
            n == obstacles@.len(),
            k <= n,
            forall|i: int| 0 <= i < n ==> (#[trigger] obstacles@[i]).wf(),
            hit == exists|i: int| 0 <= i < k && (#[trigger] obstacles@[i]).spec_hit(*player),
            match passed {
                Some(i) => {
                    &&& i < k
                    &&& player.x > obstacles@[i as int].x
                    &&& forall|j: int|
                        i < j < k ==> player.x <= (#[trigger] obstacles@[j]).x
                },
                None => forall|j: int| 0 <= j < k ==> player.x <= (#[trigger] obstacles@[j]).x,
            },
        decreases n - k,
    {
        let o = obstacles[k];
        if player.x > o.x {
            passed = Some(k);
        }
        if o.hit_obstacle(player) {
            hit = true;
        }
        k = k + 1;
    }
    (hit, passed)
}

/// Largest obstacle column of the set, or the playfield width for an empty
/// set: the column the next obstacle is placed one interval beyond.
pub fn max_obstacle_x(obstacles: &Vec<Obstacle>) -> (r: i32)
    ensures
        obstacles@.len() == 0 ==> r == SCREEN_WIDTH,
        obstacles@.len() > 0 ==> exists|i: int|
            0 <= i < obstacles@.len() && r == (#[trigger] obstacles@[i]).x,
        forall|i: int| 0 <= i < obstacles@.len() ==> (#[trigger] obstacles@[i]).x <= r,
{
    let n = obstacles.len();
    if n == 0 {
        return SCREEN_WIDTH;
    }
    let mut r = obstacles[0].x;
    let mut k: usize = 1;
    while k < n
        invariant
            n == obstacles@.len(),
            0 < n,
            1 <= k <= n,
            exists|i: int| 0 <= i < k && r == (#[trigger] obstacles@[i]).x,
            forall|i: int| 0 <= i < k ==> (#[trigger] obstacles@[i]).x <= r,
        decreases n - k,
    {
        if obstacles[k].x > r {
            r = obstacles[k].x;
        }
        k = k + 1;
    }
    r
}

/// The sound requests one playing tick emits, in order: flap, hit, fall —
/// each only while sound effects are enabled.
pub open spec fn spec_play_sounds(flap: bool, hit: bool, fallen: bool, audio: bool) -> Seq<
    SoundEffect,
> {
    let s1: Seq<SoundEffect> = if flap && audio {
        seq![SoundEffect::Flap]
    } else {
        Seq::empty()
    };
    let s2: Seq<SoundEffect> = if hit && audio {
        seq![SoundEffect::Hit]
    } else {
        Seq::empty()
    };
    let s3: Seq<SoundEffect> = if fallen && audio {
        seq![SoundEffect::GameOver]
    } else {
        Seq::empty()
    };
    s1 + s2 + s3
}

/// One tick of the playing mode, as a relation between the states before and
/// after.
///
/// The physics step runs only once the accumulated time exceeds the frame
/// threshold; a sub-threshold tick leaves the entity where it was. A space
/// key flaps (after the step, so the impulse overwrites the step's
/// velocity), `M`/`B` flip the audio flags. Collision or falling below the
/// playfield ends the game. Passing an obstacle's column scores one point
/// and replaces the highest-indexed passed obstacle with a fresh one, one
/// interval beyond the farthest column, its gap constrained by the history.
pub open spec fn spec_play_step(
    pre: State,
    post: State,
    elapsed: int,
    key: Option<Key>,
    out: Outcome,
) -> bool {
    let stepped = pre.frame_time + elapsed > FRAME_DURATION;
    let flap = key == Some(Key::Space);
    let moved_x = if stepped {
        pre.player.x + 1
    } else {
        pre.player.x as int
    };
    let moved_y = if stepped {
        next_y(pre.player.y as int, next_velocity(pre.player.velocity as int))
    } else {
        pre.player.y as int
    };
    let hit = exists|i: int|
        0 <= i < pre.obstacles@.len() && (#[trigger] pre.obstacles@[i]).spec_hit_xy(
            moved_x,
            moved_y,
        );
    let fallen = moved_y > FLOOR_Y;
    let any_passed = exists|i: int|
        0 <= i < pre.obstacles@.len() && moved_x > (#[trigger] pre.obstacles@[i]).x;
    &&& post.frame_time == if stepped {
        0
    } else {
        pre.frame_time + elapsed
    }
    &&& post.player.x == moved_x
    &&& post.player.y == moved_y
    &&& post.player.velocity == if flap {
        FLAP_VELOCITY as int
    } else if stepped {
        next_velocity(pre.player.velocity as int)
    } else {
        pre.player.velocity as int
    }
    &&& post.mode == if hit || fallen {
        GameMode::End
    } else {
        GameMode::Playing
    }
    &&& post.audio_enabled == if key == Some(Key::M) {
        !pre.audio_enabled
    } else {
        pre.audio_enabled
    }
    &&& post.music_enabled == if key == Some(Key::B) {
        !pre.music_enabled
    } else {
        pre.music_enabled
    }
    &&& post.buttons@ == pre.buttons@
    &&& if any_passed {
        &&& post.score == pre.score + 1
        &&& post.obstacles@.len() == pre.obstacles@.len()
        &&& exists|i: int|
            #![trigger post.obstacles@[i]]
            {
                &&& 0 <= i < pre.obstacles@.len()
                &&& moved_x > pre.obstacles@[i].x
                &&& forall|j: int|
                    i < j < pre.obstacles@.len() ==> moved_x <= (#[trigger] pre.obstacles@[j]).x
                &&& forall|j: int|
                    0 <= j < pre.obstacles@.len() && j != i ==> post.obstacles@[j]
                        == pre.obstacles@[j]
                &&& post.obstacles@[i].size == spec_gap_size(pre.score + 1)
                &&& post.obstacles@[i].wf()
                &&& forall|j: int|
                    0 <= j < pre.obstacles@.len() ==> (#[trigger] pre.obstacles@[j]).x
                        + OBSTACLE_INTERVAL <= post.obstacles@[i].x
                &&& exists|j: int|
                    0 <= j < pre.obstacles@.len() && post.obstacles@[i].x == (
                    #[trigger] pre.obstacles@[j]).x + OBSTACLE_INTERVAL
                &&& match pre.last_obstacle_gap_y {
                    Some(l) => -MAX_GAP_DIFF <= post.obstacles@[i].gap_y - l <= MAX_GAP_DIFF,
                    None => true,
                }
                &&& post.last_obstacle_gap_y == Some(post.obstacles@[i].gap_y)
            }
    } else {
        &&& post.score == pre.score
        &&& post.obstacles@ == pre.obstacles@
        &&& post.last_obstacle_gap_y == pre.last_obstacle_gap_y
    }
    &&& !out.quit
    &&& out.music@ == if key == Some(Key::B) {
        seq![post.music_enabled]
    } else {
        Seq::<bool>::empty()
    }
    &&& out.sounds@ == spec_play_sounds(flap, hit, fallen, post.audio_enabled)
}

impl State {
    /// One tick of the playing mode: accumulate elapsed time, step the
    /// physics once past the frame threshold, apply the flap or toggle keys,
    /// evaluate collisions and progress, score and replace passed obstacles,
    /// and end the game on a collision or a fall below the playfield.
    pub fn play(
        &mut self,
        rng: &mut bracket_lib::random::RandomNumberGenerator,
        elapsed_ms: u32,
        key: Option<Key>,
    ) -> (out: Outcome)
        requires
            old(self).wf(),
            old(self).mode == GameMode::Playing,
            elapsed_ms <= u32::MAX - FRAME_DURATION,
            old(self).player.x < i32::MAX,
            old(self).player.y <= i32::MAX - TERMINAL_VELOCITY,
            old(self).score < i32::MAX,
            forall|i: int|
                0 <= i < old(self).obstacles@.len() ==> (#[trigger] old(self).obstacles@[i]).x
                    <= i32::MAX - OBSTACLE_INTERVAL,
        ensures
            spec_play_step(*old(self), *final(self), elapsed_ms as int, key, out),
            final(self).wf(),
    {
        let mut out = Outcome { quit: false, music: Vec::new(), sounds: Vec::new() };
        self.frame_time = self.frame_time + elapsed_ms;
        if self.frame_time > FRAME_DURATION {
            self.frame_time = 0;
            self.player.gravity_and_move();
        }
        let mut flap = false;
        match key {
            Some(Key::Space) => {
                flap = true;
                self.player.flap();
                if let Some(e) = self.play_sound(SoundEffect::Flap) {
                    out.sounds.push(e);
                }
            },
            Some(Key::M) => {
                self.audio_enabled = !self.audio_enabled;
            },
            Some(Key::B) => {
                self.music_enabled = !self.music_enabled;
                out.music.push(self.music_enabled);
            },
            _ => {},
        }
        let (hit, passed) = check_obstacles(&self.player, &self.obstacles);
        if hit {
            self.mode = GameMode::End;
            if let Some(e) = self.play_sound(SoundEffect::Hit) {
                out.sounds.push(e);
            }
        } else {
            self.mode = GameMode::Playing;
        }
        if let Some(i) = passed {
            self.score = self.score + 1;
            let max_x = max_obstacle_x(&self.obstacles);
            let new_x = max_x + OBSTACLE_INTERVAL;
            let o = self.create_obstacle_with_constraint(rng, new_x, self.score);
            self.obstacles[i] = o;
        }
        let fallen = self.player.y > FLOOR_Y;
        if fallen {
            self.mode = GameMode::End;
            if let Some(e) = self.play_sound(SoundEffect::GameOver) {
                out.sounds.push(e);
            }
        }
        proof {
            assert(out.music@ =~= if key == Some(Key::B) {
                seq![self.music_enabled]
            } else {
                Seq::<bool>::empty()
            });
            assert(out.sounds@ =~= spec_play_sounds(flap, hit, fallen, self.audio_enabled));
        }
        out
    }

    /// Refresh the hover marks for the pointer, and on a click perform the
    /// action of the first button under it.
    pub fn handle_mouse(
        &mut self,
        rng: &mut bracket_lib::random::RandomNumberGenerator,
        mx: i32,
        my: i32,
        clicked: bool,
    ) -> (out: Outcome)
        requires
            forall|i: int| 0 <= i < old(self).buttons@.len() ==> (#[trigger] old(
                self,
            ).buttons@[i]).wf(),
        ensures
            spec_mouse(*old(self), *final(self), mx as int, my as int, clicked, out),
            old(self).wf() ==> final(self).wf(),
    {
        self.update_hover(mx, my);
        if clicked {
            let n = self.buttons.len();
            let mut k: usize = 0;
            while k < n
                invariant
                    clicked,
                    n == self.buttons@.len(),
                    k <= n,
                    self.buttons@ == spec_hovered(old(self).buttons@, mx as int, my as int),
                    *self == (State { buttons: self.buttons, ..*old(self) }),
                    forall|i: int| 0 <= i < old(self).buttons@.len() ==> (#[trigger] old(
                        self,
                    ).buttons@[i]).wf(),
                    forall|j: int|
                        0 <= j < k ==> !(#[trigger] old(self).buttons@[j]).spec_contains(
                            mx as int,
                            my as int,
                        ),
                decreases n - k,
            {
                let b = self.buttons[k];
                if b.contains_point(mx, my) {
                    let ghost mid = *self;
                    let out = self.handle_button_click(rng, b.action);
                    proof {
                        let mxi = mx as int;
                        let myi = my as int;
                        let pre = *old(self);
                        let hb = spec_hovered(pre.buttons@, mxi, myi);
                        assert(b == hb[k as int]);
                        assert(b.action == pre.buttons@[k as int].action);
                        assert(pre.buttons@[k as int].spec_contains(mxi, myi));
                        assert(spec_click(mid, hb, *self, b.action, out));
                        assert(spec_click(pre, hb, *self, pre.buttons@[k as int].action, out));
                        assert(spec_any_button_hit(pre.buttons@, mxi, myi)) by {
                            assert((k as int) < pre.buttons@.len());
                            assert(pre.buttons@[k as int].spec_contains(mxi, myi));
                        }
                        assert(spec_mouse_click(pre, *self, mxi, myi, out, k as int));
                    }
                    return out;
                }
                k = k + 1;
            }
            Outcome { quit: false, music: Vec::new(), sounds: Vec::new() }
        } else {
            Outcome { quit: false, music: Vec::new(), sounds: Vec::new() }
        }
    }

    /// One tick of the main menu: make sure its buttons exist, let the mouse
    /// act, then the keyboard shortcuts (`P` start, `Q` quit, `M`/`B` audio
    /// toggles).
    pub fn main_menu(
        &mut self,
        rng: &mut bracket_lib::random::RandomNumberGenerator,
        mx: i32,
        my: i32,
        clicked: bool,
        key: Option<Key>,
    ) -> (out: Outcome)
        requires
            old(self).wf(),
            old(self).mode == GameMode::Menu,
        ensures
            spec_menu_step(*old(self), *final(self), mx as int, my as int, clicked, key, out),
            final(self).wf(),
    {
        if self.buttons.len() == 0 {
            self.create_menu_buttons();
        }
        let ghost mid1 = *self;
        let mut out = self.handle_mouse(rng, mx, my, clicked);
        let ghost mid2 = *self;
        let ghost o1 = out;
        match key {
            Some(Key::P) => {
                let m = self.restart(rng);
                if let Some(cmd) = m {
                    out.music.push(cmd);
                }
            },
            Some(Key::Q) => {
                out.quit = true;
            },
            Some(Key::M) => {
                self.audio_enabled = !self.audio_enabled;
                self.create_menu_buttons();
            },
            Some(Key::B) => {
                self.music_enabled = !self.music_enabled;
                out.music.push(self.music_enabled);
                self.create_menu_buttons();
            },
            _ => {},
        }
        proof {
            let quit2 = key == Some(Key::Q);
            let music2: Seq<bool> = match key {
                Some(Key::P) => spec_restart_music(mid2),
                Some(Key::B) => seq![!mid2.music_enabled],
                _ => Seq::empty(),
            };
            assert(spec_filled(*old(self), mid1, spec_menu_buttons()));
            assert(spec_mouse(mid1, mid2, mx as int, my as int, clicked, o1));
            assert(spec_key_common(mid2, *self, key, quit2, music2, spec_menu_buttons()));
            assert(out.music@ =~= o1.music@ + music2);
            assert(spec_screen_stages(
                *old(self),
                *self,
                mx as int,
                my as int,
                clicked,
                key,
                out,
                spec_menu_buttons(),
                mid1,
                mid2,
                o1,
                quit2,
                music2,
            ));
        }
        out
    }

    /// One tick of the end screen: make sure its buttons exist, let the
    /// mouse act, then the keyboard shortcuts (`P` restart, `Q` quit,
    /// `M`/`B` audio toggles).
    pub fn dead(
        &mut self,
        rng: &mut bracket_lib::random::RandomNumberGenerator,
        mx: i32,
        my: i32,
        clicked: bool,
        key: Option<Key>,
    ) -> (out: Outcome)
        requires
            old(self).wf(),
            old(self).mode == GameMode::End,
        ensures
            spec_end_step(*old(self), *final(self), mx as int, my as int, clicked, key, out),
            final(self).wf(),
    {
        if self.buttons.len() == 0 {
            self.create_end_buttons();
        }
        let ghost mid1 = *self;
        let mut out = self.handle_mouse(rng, mx, my, clicked);
        let ghost mid2 = *self;
        let ghost o1 = out;
        match key {
            Some(Key::P) => {
                let m = self.restart(rng);
                if let Some(cmd) = m {
                    out.music.push(cmd);
                }
            },
            Some(Key::Q) => {
                out.quit = true;
            },
            Some(Key::M) => {
                self.audio_enabled = !self.audio_enabled;
                self.create_end_buttons();
            },
            Some(Key::B) => {
                self.music_enabled = !self.music_enabled;
                out.music.push(self.music_enabled);
                self.create_end_buttons();
            },
            _ => {},
        }
        proof {
            let quit2 = key == Some(Key::Q);
            let music2: Seq<bool> = match key {
                Some(Key::P) => spec_restart_music(mid2),
                Some(Key::B) => seq![!mid2.music_enabled],
                _ => Seq::empty(),
            };
            assert(spec_filled(*old(self), mid1, spec_end_buttons()));
            assert(spec_mouse(mid1, mid2, mx as int, my as int, clicked, o1));
            assert(spec_key_common(mid2, *self, key, quit2, music2, spec_end_buttons()));
            assert(out.music@ =~= o1.music@ + music2);
            assert(spec_screen_stages(
                *old(self),
                *self,
                mx as int,
                my as int,
                clicked,
                key,
                out,
                spec_end_buttons(),
                mid1,
                mid2,
                o1,
                quit2,
                music2,
            ));
        }
        out
    }
}

/// Everything one tick consumes from the input collaborator: the elapsed
/// time since the last tick in milliseconds, the pointer position, whether
/// the primary button was clicked, and the decoded key, if any.
#[derive(Clone, Copy, Debug)]
pub struct TickInput {
    pub elapsed_ms: u32,
    pub mouse_x: i32,
    pub mouse_y: i32,
    pub clicked: bool,
    pub key: Option<Key>,
}

impl State {
    /// One tick of the whole game: dispatch to the active mode's handler.
    pub fn tick(
        &mut self,
        rng: &mut bracket_lib::random::RandomNumberGenerator,
        input: TickInput,
    ) -> (out: Outcome)
        requires
            old(self).wf(),
            old(self).mode == GameMode::Playing ==> {
                &&& input.elapsed_ms <= u32::MAX - FRAME_DURATION
                &&& old(self).player.x < i32::MAX
                &&& old(self).player.y <= i32::MAX - TERMINAL_VELOCITY
                &&& old(self).score < i32::MAX
                &&& forall|i: int|
                    0 <= i < old(self).obstacles@.len() ==> (#[trigger] old(self).obstacles@[i]).x
                        <= i32::MAX - OBSTACLE_INTERVAL
            },
        ensures
            final(self).wf(),
            match old(self).mode {
                GameMode::Menu => spec_menu_step(
                    *old(self),
                    *final(self),
                    input.mouse_x as int,
                    input.mouse_y as int,
                    input.clicked,
                    input.key,
                    out,
                ),
                GameMode::Playing => spec_play_step(
                    *old(self),
                    *final(self),
                    input.elapsed_ms as int,
                    input.key,
                    out,
                ),
                GameMode::End => spec_end_step(
                    *old(self),
                    *final(self),
                    input.mouse_x as int,
                    input.mouse_y as int,
                    input.clicked,
                    input.key,
                    out,
                ),
            },
    {
        match self.mode {
            GameMode::Menu => self.main_menu(rng, input.mouse_x, input.mouse_y, input.clicked, input.key),
            GameMode::Playing => self.play(rng, input.elapsed_ms, input.key),
            GameMode::End => self.dead(rng, input.mouse_x, input.mouse_y, input.clicked, input.key),
        }
    }
}

/// The button list a screen tick starts from: the stored one, or the
/// screen's defaults where none is stored yet.
pub open spec fn spec_effective(btns: Seq<Button>, defaults: Seq<Button>) -> Seq<Button> {
    if btns.len() == 0 {
        defaults
    } else {
        btns
    }
}

/// Restarting is reproducible up to randomness: any two restarted states —
/// in particular those of two consecutive restarts, from any states — agree
/// on the score (zero), the mode, the entity, the time accumulator, the
/// button list, and every obstacle's column and gap size; only the randomly
/// drawn gap centers may differ.
pub proof fn lemma_restart_deterministic(pre1: State, post1: State, pre2: State, post2: State)
    requires
        spec_restarted(pre1, post1),
        spec_restarted(pre2, post2),
    ensures
        post1.score == 0 && post2.score == 0,
        post1.mode == post2.mode,
        post1.player == post2.player,
        post1.frame_time == post2.frame_time,
        post1.buttons@ == post2.buttons@,
        post1.obstacles@.len() == post2.obstacles@.len(),
        forall|i: int|
            0 <= i < post1.obstacles@.len() ==> (#[trigger] post1.obstacles@[i]).x
                == post2.obstacles@[i].x && post1.obstacles@[i].size == post2.obstacles@[i].size,
{
    assert(post1.buttons@ =~= post2.buttons@);
}

/// The physics step only runs once the accumulated time exceeds the frame
/// threshold: a sub-threshold playing tick leaves the entity's position
/// unchanged and only accumulates the elapsed time.
pub proof fn lemma_sub_threshold_tick(
    pre: State,
    post: State,
    elapsed: int,
    key: Option<Key>,
    out: Outcome,
)
    requires
        spec_play_step(pre, post, elapsed, key, out),
        pre.frame_time + elapsed <= FRAME_DURATION,
    ensures
        post.player.x == pre.player.x,
        post.player.y == pre.player.y,
        post.frame_time == pre.frame_time + elapsed,
{
}

/// A playing tick that leaves the entity below the playfield ends the round
/// on that same tick.
pub proof fn lemma_fall_ends_round(
    pre: State,
    post: State,
    elapsed: int,
    key: Option<Key>,
    out: Outcome,
)
    requires
        spec_play_step(pre, post, elapsed, key, out),
        post.player.y > FLOOR_Y,
    ensures
        post.mode == GameMode::End,
{
}

/// Once the round has ended it stays ended until a restart: an end-screen
/// tick without the restart key and without a click on a button that
/// restarts leaves the mode at `End`, however often it is repeated.
pub proof fn lemma_end_stable(
    pre: State,
    post: State,
    mx: int,
    my: int,
    clicked: bool,
    key: Option<Key>,
    out: Outcome,
)
    requires
        pre.mode == GameMode::End,
        spec_end_step(pre, post, mx, my, clicked, key, out),
        key != Some(Key::P),
        forall|i: int|
            0 <= i < spec_effective(pre.buttons@, spec_end_buttons()).len() && (
            #[trigger] spec_effective(pre.buttons@, spec_end_buttons())[i]).spec_contains(mx, my)
                ==> spec_effective(pre.buttons@, spec_end_buttons())[i].action
                != ButtonAction::Play && spec_effective(pre.buttons@, spec_end_buttons())[i].action
                != ButtonAction::Restart,
    ensures
        post.mode == GameMode::End,
{
    let (mid1, mid2, o1, quit2, music2) = choose|
        mid1: State,
        mid2: State,
        o1: Outcome,
        quit2: bool,
        music2: Seq<bool>,
    |
        spec_screen_stages(
            pre,
            post,
            mx,
            my,
            clicked,
            key,
            out,
            spec_end_buttons(),
            mid1,
            mid2,
            o1,
            quit2,
            music2,
        );
    assert(mid1.mode == GameMode::End);
    assert(mid1.buttons@ == spec_effective(pre.buttons@, spec_end_buttons()));
    if clicked && spec_any_button_hit(mid1.buttons@, mx, my) {
        let i = choose|i: int| spec_mouse_click(mid1, mid2, mx, my, o1, i);
        assert(mid1.buttons@[i].action != ButtonAction::Play && mid1.buttons@[i].action
            != ButtonAction::Restart);
        assert(mid2.mode == GameMode::End);
    } else {
        assert(mid2.mode == GameMode::End);
    }
    assert(post.mode == GameMode::End);
}

} // verus!

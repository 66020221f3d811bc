use vstd::prelude::*;
use crate::keypad::{Key, KeyEvent};
use crate::menu::{gain_line, line_frames, refresh_frames, make_gain_line, refresh_line, lemma_concat3};
use crate::sh1106::{Sh1106, clear_frames, clear_cols_frames, string_8x16_frames};

verus! {

/// Top-level menu of the bench menu.
#[derive(Clone, Copy, Debug, PartialEq, Eq, Structural)]
pub enum TopMode {
    Speed,
    Pi,
}

/// Sub-mode of the bench speed menu.
#[derive(Clone, Copy, Debug, PartialEq, Eq, Structural)]
pub enum SpeedSubMode {
    Following,
    Step,
}

/// The PI gain selected for tuning.
#[derive(Clone, Copy, Debug, PartialEq, Eq, Structural)]
pub enum PiParam {
    P,
    I,
}

/// What a key press asks of the gains that are kept beside the menu.
#[derive(Clone, Copy, Debug, PartialEq, Eq, Structural)]
pub enum GainAction {
    Nothing,
    /// Raise the gain by one tuning step.
    Raise(PiParam),
    /// Lower the gain by one tuning step, not below zero.
    Lower(PiParam),
}

/// Set-speed step of one key press (rpm).
pub const SETPOINT_STEP: i32 = 10;

/// The bench menu: menu modes, integer set / simulated / held speed, and
/// what was drawn last.
pub struct BenchMenuState {
    pub top_mode: TopMode,
    pub speed_sub: SpeedSubMode,
    pub setpoint: i32,
    pub actual: i32,
    pub step_hold_speed: i32,
    pub pi_sel: PiParam,
    pub last_top_mode: TopMode,
    pub last_speed_sub: SpeedSubMode,
    pub last_setpoint: i32,
    pub last_actual: i32,
    pub last_step_hold_speed: i32,
    pub last_pi_sel: PiParam,
    pub first_draw: bool,
}

/// The menu part of the state: modes, speeds, selection.
pub struct BenchMenu {
    pub top_mode: TopMode,
    pub speed_sub: SpeedSubMode,
    pub setpoint: i32,
    pub actual: i32,
    pub step_hold_speed: i32,
    pub pi_sel: PiParam,
}

impl BenchMenuState {
    pub open spec fn menu(&self) -> BenchMenu {
        BenchMenu {
            top_mode: self.top_mode,
            speed_sub: self.speed_sub,
            setpoint: self.setpoint,
            actual: self.actual,
            step_hold_speed: self.step_hold_speed,
            pi_sel: self.pi_sel,
        }
    }

    /// What was drawn last.
    pub open spec fn drawn(&self) -> (TopMode, SpeedSubMode, i32, i32, i32, PiParam, bool) {
        (
            self.last_top_mode,
            self.last_speed_sub,
            self.last_setpoint,
            self.last_actual,
            self.last_step_hold_speed,
            self.last_pi_sel,
            self.first_draw,
        )
    }
}

/// Whether the event can be applied without leaving the range of `i32`.
pub open spec fn bench_event_in_range(m: BenchMenu, ev: KeyEvent) -> bool {
    m.top_mode == TopMode::Speed ==> match ev {
        KeyEvent::Pressed(Key::K1) => m.setpoint + SETPOINT_STEP <= i32::MAX,
        KeyEvent::Pressed(Key::K2) => m.setpoint - SETPOINT_STEP >= i32::MIN,
        _ => true,
    }
}

/// One key event applied to the bench menu.  Speed menu: K1/K2 change the
/// set speed by 10 rpm; K3 confirms Step back to Following, or from
/// Following opens the tuning menu; K4 enters Step from Following, holding
/// the simulated speed.  Tuning menu: K1/K2 raise/lower the selected gain;
/// K3 returns to the speed menu in Following; K4 toggles P and I.
pub open spec fn bench_step(m: BenchMenu, ev: KeyEvent) -> (BenchMenu, GainAction) {
    match ev {
        KeyEvent::Released(_) => (m, GainAction::Nothing),
        KeyEvent::Pressed(k) => match m.top_mode {
            TopMode::Speed => match k {
                Key::K1 => (BenchMenu { setpoint: (m.setpoint + SETPOINT_STEP) as i32, ..m }, GainAction::Nothing),
                Key::K2 => (BenchMenu { setpoint: (m.setpoint - SETPOINT_STEP) as i32, ..m }, GainAction::Nothing),
                Key::K3 => if m.speed_sub == SpeedSubMode::Step {
                    (BenchMenu { speed_sub: SpeedSubMode::Following, ..m }, GainAction::Nothing)
                } else {
                    (BenchMenu { top_mode: TopMode::Pi, ..m }, GainAction::Nothing)
                },
                Key::K4 => if m.speed_sub == SpeedSubMode::Following {
                    (
                        BenchMenu { speed_sub: SpeedSubMode::Step, step_hold_speed: m.actual, ..m },
                        GainAction::Nothing,
                    )
                } else {
                    (m, GainAction::Nothing)
                },
            },
            TopMode::Pi => match k {
                Key::K1 => (m, GainAction::Raise(m.pi_sel)),
                Key::K2 => (m, GainAction::Lower(m.pi_sel)),
                Key::K3 => (
                    BenchMenu { top_mode: TopMode::Speed, speed_sub: SpeedSubMode::Following, ..m },
                    GainAction::Nothing,
                ),
                Key::K4 => (
                    BenchMenu {
                        pi_sel: match m.pi_sel {
                            PiParam::P => PiParam::I,
                            PiParam::I => PiParam::P,
                        },
                        ..m
                    },
                    GainAction::Nothing,
                ),
            },
        },
    }
}

/// Whether one step of the simulated motor stays within `i32`.
pub open spec fn motor_update_in_range(m: BenchMenu) -> bool {
    (m.top_mode == TopMode::Speed && m.speed_sub == SpeedSubMode::Following) ==> i32::MIN < m.setpoint
        - m.actual <= i32::MAX
}

/// Integer division rounding toward zero, as Rust's `/` on integers.
pub open spec fn div_toward_zero(a: int, b: int) -> int {
    if a >= 0 {
        a / b
    } else {
        -((-a) / b)
    }
}

/// The move of one update toward the set speed for a gap of `diff` rpm
/// (|diff| >= 2): a tenth of the gap, rounded toward zero, and at least
/// 1 rpm, so that the first-order lag reaches the set speed.
pub open spec fn follow_step(diff: int) -> int {
    let q = div_toward_zero(diff, 10);
    if q == 0 {
        if diff > 0 {
            1
        } else {
            -1
        }
    } else {
        q
    }
}

/// The simulated speed after one update (every 100 ms): following, it
/// moves by `follow_step` of the gap toward the set speed, snapping onto
/// it when within 1 rpm; in Step it is the held speed; in the tuning menu
/// it stays.
pub open spec fn simulated_speed(m: BenchMenu) -> i32 {
    if m.top_mode == TopMode::Speed && m.speed_sub == SpeedSubMode::Following {
        let diff = m.setpoint - m.actual;
        if -2 < diff < 2 {
            m.setpoint
        } else {
            (m.actual + follow_step(diff)) as i32
        }
    } else if m.top_mode == TopMode::Speed && m.speed_sub == SpeedSubMode::Step {
        m.step_hold_speed
    } else {
        m.actual
    }
}

/// K1 then K2 in the speed menu give back the set speed (and the rest of
/// the menu) that there was before.
pub proof fn law_raise_then_lower_restores_setpoint(m: BenchMenu)
    requires
        m.top_mode == TopMode::Speed,
        m.setpoint + SETPOINT_STEP <= i32::MAX,
    ensures
        bench_event_in_range(m, KeyEvent::Pressed(Key::K1)),
        bench_event_in_range(bench_step(m, KeyEvent::Pressed(Key::K1)).0, KeyEvent::Pressed(Key::K2)),
        bench_step(bench_step(m, KeyEvent::Pressed(Key::K1)).0, KeyEvent::Pressed(Key::K2)).0 == m,
{
    let a = bench_step(m, KeyEvent::Pressed(Key::K1)).0;
    assert(bench_step(a, KeyEvent::Pressed(Key::K2)).0 =~= m);
}

/// Entering Step holds exactly the simulated speed of that moment, and
/// while in Step the simulated motor stays at the held speed.
pub proof fn law_step_holds_measured_speed(m: BenchMenu)
    requires
        m.top_mode == TopMode::Speed,
        m.speed_sub == SpeedSubMode::Following,
    ensures
        ({
            let s = bench_step(m, KeyEvent::Pressed(Key::K4)).0;
            &&& s.speed_sub == SpeedSubMode::Step
            &&& s.step_hold_speed == m.actual
            &&& simulated_speed(s) == m.actual
        }),
{
}

/// The menu after `n` updates of the simulated motor.
pub open spec fn after_updates(m: BenchMenu, n: nat) -> BenchMenu
    decreases n,
{
    if n == 0 {
        m
    } else {
        after_updates(BenchMenu { actual: simulated_speed(m), ..m }, (n - 1) as nat)
    }
}

/// |x|.
pub open spec fn abs_int(x: int) -> int {
    if x < 0 {
        -x
    } else {
        x
    }
}

/// Following the set speed, the simulated motor never overshoots and
/// always gets closer: the gap to the set speed keeps its sign and shrinks
/// by at least 1 rpm at every update until it is closed; within 1 rpm it
/// closes at once.
pub proof fn law_following_never_overshoots(m: BenchMenu)
    requires
        m.top_mode == TopMode::Speed,
        m.speed_sub == SpeedSubMode::Following,
        motor_update_in_range(m),
    ensures
        ({
            let gap = m.setpoint - m.actual;
            let new_gap = m.setpoint - simulated_speed(m);
            &&& gap >= 0 ==> 0 <= new_gap <= gap
            &&& gap <= 0 ==> gap <= new_gap <= 0
            &&& -2 < gap < 2 ==> new_gap == 0
            &&& gap != 0 ==> abs_int(new_gap) < abs_int(gap)
            &&& motor_update_in_range(BenchMenu { actual: simulated_speed(m), ..m })
        }),
{
    let gap = m.setpoint - m.actual;
    if gap >= 2 {
        assert(0 <= gap / 10 <= gap);
        assert(gap / 10 < gap);
    } else if gap <= -2 {
        assert(0 <= (-gap) / 10 <= -gap);
        assert((-gap) / 10 < -gap);
    }
}

/// Following the set speed, the simulated motor reaches it: after as many
/// updates as the gap has rpm (or more) the speed equals the set speed,
/// and it stays there.
pub proof fn law_following_reaches_setpoint(m: BenchMenu, n: nat)
    requires
        m.top_mode == TopMode::Speed,
        m.speed_sub == SpeedSubMode::Following,
        motor_update_in_range(m),
        n >= abs_int(m.setpoint - m.actual),
    ensures
        after_updates(m, n).actual == m.setpoint,
        after_updates(m, n).setpoint == m.setpoint,
    decreases n,
{
    if n > 0 {
        law_following_never_overshoots(m);
        let next = BenchMenu { actual: simulated_speed(m), ..m };
        law_following_reaches_setpoint(next, (n - 1) as nat);
    }
}

/// In the bench tuning menu K1 asks to raise exactly the selected gain and
/// K2 to lower exactly the selected gain; neither changes the menu.
pub proof fn law_bench_tuning_keys_act_on_selected_gain(m: BenchMenu)
    requires
        m.top_mode == TopMode::Pi,
    ensures
        bench_step(m, KeyEvent::Pressed(Key::K1)) == (m, GainAction::Raise(m.pi_sel)),
        bench_step(m, KeyEvent::Pressed(Key::K2)) == (m, GainAction::Lower(m.pi_sel)),
{
}

/// In the bench speed menu K1 and K2 move the set speed by exactly
/// `SETPOINT_STEP` rpm up and down, ask nothing of the gains and change
/// nothing else.
pub proof fn law_bench_speed_keys_move_setpoint(m: BenchMenu)
    requires
        m.top_mode == TopMode::Speed,
        bench_event_in_range(m, KeyEvent::Pressed(Key::K1)),
        bench_event_in_range(m, KeyEvent::Pressed(Key::K2)),
    ensures
        ({
            let up = bench_step(m, KeyEvent::Pressed(Key::K1));
            let down = bench_step(m, KeyEvent::Pressed(Key::K2));
            &&& up.0.setpoint == m.setpoint + 10
            &&& down.0.setpoint == m.setpoint - 10
            &&& up.1 == GainAction::Nothing
            &&& down.1 == GainAction::Nothing
            &&& up.0.top_mode == m.top_mode && up.0.speed_sub == m.speed_sub && up.0.actual == m.actual
                && up.0.step_hold_speed == m.step_hold_speed && up.0.pi_sel == m.pi_sel
            &&& down.0.top_mode == m.top_mode && down.0.speed_sub == m.speed_sub && down.0.actual
                == m.actual && down.0.step_hold_speed == m.step_hold_speed && down.0.pi_sel == m.pi_sel
        }),
{
}

/// On the bench too, a changed speed sub-mode (in either direction) makes
/// the redraw start by blanking the title area and drawing the title of
/// the current sub-mode.
pub proof fn law_bench_sub_mode_change_redraws_title(
    s: BenchMenuState,
    r: BenchReadout,
    font6: Seq<[u8; 6]>,
    font16: Seq<[u8; 16]>,
)
    requires
        s.top_mode == TopMode::Speed,
        s.last_top_mode == TopMode::Speed,
        !s.first_draw,
        s.speed_sub != s.last_speed_sub,
    ensures
        ({
            let title = if s.speed_sub == SpeedSubMode::Following {
                "SPEED-FOLLOW"@
            } else {
                "SPEED-STEP"@
            };
            let head = clear_cols_frames(0, 0, 100) + clear_cols_frames(1, 0, 100) + string_8x16_frames(
                0,
                0,
                title,
                font16,
            );
            bench_render_frames(s, r, font6, font16).subrange(0, head.len() as int) == head
        }),
{
    let title = if s.speed_sub == SpeedSubMode::Following {
        "SPEED-FOLLOW"@
    } else {
        "SPEED-STEP"@
    };
    let head = clear_cols_frames(0, 0, 100) + clear_cols_frames(1, 0, 100) + string_8x16_frames(
        0,
        0,
        title,
        font16,
    );
    let x2 = refresh_frames(s.setpoint != s.last_setpoint, 2, 70, true, r.setpoint_line@, font6);
    let x3 = refresh_frames(s.actual != s.last_actual, 3, 70, true, r.actual_line@, font6);
    let x4 = refresh_frames(
        s.speed_sub != s.last_speed_sub || s.step_hold_speed != s.last_step_hold_speed,
        4,
        80,
        s.speed_sub == SpeedSubMode::Step,
        r.hold_line@,
        font6,
    );
    assert(bench_render_frames(s, r, font6, font16) == bench_speed_delta_frames(s, r, font6, font16));
    assert(bench_speed_delta_frames(s, r, font6, font16) == head + x2 + x3 + x4);
    assert((head + x2 + x3 + x4).subrange(0, head.len() as int) =~= head);
}

/// The texts of the values shown, formatted by the caller, and whether the
/// gains differ from the ones drawn last.
pub struct BenchReadout {
    /// "SP:" line.
    pub setpoint_line: String,
    /// "AC:" line.
    pub actual_line: String,
    /// "HOLD:" line.
    pub hold_line: String,
    /// Proportional gain as it follows "P:".
    pub p_text: String,
    /// Integral gain as it follows "I:".
    pub i_text: String,
    pub p_changed: bool,
    pub i_changed: bool,
}

/// Title of the bench speed menu.
pub open spec fn bench_speed_title(sub: SpeedSubMode) -> Seq<char> {
    match sub {
        SpeedSubMode::Following => "SPEED-FOLLOW"@,
        SpeedSubMode::Step => "SPEED-STEP"@,
    }
}

fn bench_speed_title_text(sub: SpeedSubMode) -> (s: &'static str)
    ensures
        s@ == bench_speed_title(sub),
{
    match sub {
        SpeedSubMode::Following => "SPEED-FOLLOW",
        SpeedSubMode::Step => "SPEED-STEP",
    }
}

/// Full drawing of the bench speed menu.
pub open spec fn bench_speed_full_frames(
    sub: SpeedSubMode,
    r: BenchReadout,
    font6: Seq<[u8; 6]>,
    font16: Seq<[u8; 16]>,
) -> Seq<Seq<u8>> {
    string_8x16_frames(0, 0, bench_speed_title(sub), font16) + line_frames(2, r.setpoint_line@, font6)
        + line_frames(3, r.actual_line@, font6) + (if sub == SpeedSubMode::Step {
        line_frames(4, r.hold_line@, font6)
    } else {
        Seq::empty()
    }) + line_frames(6, "S1+ S2- S3 PID S4 STEP"@, font6)
}

/// Redrawing of the parts of the bench speed menu that changed.
pub open spec fn bench_speed_delta_frames(s: BenchMenuState, r: BenchReadout, font6: Seq<[u8; 6]>, font16: Seq<[u8; 16]>) -> Seq<Seq<u8>> {
    (if s.speed_sub != s.last_speed_sub {
        clear_cols_frames(0, 0, 100) + clear_cols_frames(1, 0, 100) + string_8x16_frames(
            0,
            0,
            bench_speed_title(s.speed_sub),
            font16,
        )
    } else {
        Seq::empty()
    }) + refresh_frames(s.setpoint != s.last_setpoint, 2, 70, true, r.setpoint_line@, font6)
        + refresh_frames(s.actual != s.last_actual, 3, 70, true, r.actual_line@, font6)
        + refresh_frames(
        s.speed_sub != s.last_speed_sub || s.step_hold_speed != s.last_step_hold_speed,
        4,
        80,
        s.speed_sub == SpeedSubMode::Step,
        r.hold_line@,
        font6,
    )
}

/// Full drawing of the bench tuning menu.
pub open spec fn bench_pi_full_frames(sel: PiParam, r: BenchReadout, font6: Seq<[u8; 6]>, font16: Seq<[u8; 16]>) -> Seq<Seq<u8>> {
    string_8x16_frames(0, 0, "PI TUNE"@, font16) + line_frames(
        2,
        gain_line(sel == PiParam::P, "P:"@, r.p_text@),
        font6,
    ) + line_frames(3, gain_line(sel == PiParam::I, "I:"@, r.i_text@), font6) + line_frames(
        6,
        "S1+ S2- S3 SPD S4 SEL"@,
        font6,
    )
}

/// Redrawing of the gain lines whose value or selection changed.
pub open spec fn bench_pi_delta_frames(sel: PiParam, last_sel: PiParam, r: BenchReadout, font6: Seq<[u8; 6]>) -> Seq<Seq<u8>> {
    refresh_frames(r.p_changed || sel != last_sel, 2, 50, true, gain_line(sel == PiParam::P, "P:"@, r.p_text@), font6)
        + refresh_frames(r.i_changed || sel != last_sel, 3, 50, true, gain_line(sel == PiParam::I, "I:"@, r.i_text@), font6)
}

/// What `render` draws for state `s`.
pub open spec fn bench_render_frames(s: BenchMenuState, r: BenchReadout, font6: Seq<[u8; 6]>, font16: Seq<[u8; 16]>) -> Seq<Seq<u8>> {
    if s.top_mode != s.last_top_mode || s.first_draw {
        clear_frames(8) + match s.top_mode {
            TopMode::Speed => bench_speed_full_frames(s.speed_sub, r, font6, font16),
            TopMode::Pi => bench_pi_full_frames(s.pi_sel, r, font6, font16),
        }
    } else {
        match s.top_mode {
            TopMode::Speed => bench_speed_delta_frames(s, r, font6, font16),
            TopMode::Pi => bench_pi_delta_frames(s.pi_sel, s.last_pi_sel, r, font6),
        }
    }
}

impl BenchMenuState {
    /// Speed menu, following, set speed 100 rpm, motor at rest, P
    /// selected, nothing drawn yet.
    pub fn new() -> (s: Self)
        ensures
            s.menu() == (BenchMenu {
                top_mode: TopMode::Speed,
                speed_sub: SpeedSubMode::Following,
                setpoint: 100,
                actual: 0,
                step_hold_speed: 0,
                pi_sel: PiParam::P,
            }),
            s.first_draw,
    {
        BenchMenuState {
            top_mode: TopMode::Speed,
            speed_sub: SpeedSubMode::Following,
            setpoint: 100,
            actual: 0,
            step_hold_speed: 0,
            pi_sel: PiParam::P,
            last_top_mode: TopMode::Pi,
            last_speed_sub: SpeedSubMode::Step,
            last_setpoint: -1,
            last_actual: -1,
            last_step_hold_speed: -1,
            last_pi_sel: PiParam::I,
            first_draw: true,
        }
    }

    /// Applies one key event; returns what the gains must do.
    pub fn handle_event(&mut self, ev: KeyEvent) -> (a: GainAction)
        requires
            bench_event_in_range(old(self).menu(), ev),
        ensures
            (final(self).menu(), a) == bench_step(old(self).menu(), ev),
            final(self).drawn() == old(self).drawn(),
    {
        match self.top_mode {
            TopMode::Speed => self.handle_speed_event(ev),
            TopMode::Pi => self.handle_pi_event(ev),
        }
    }

    fn handle_speed_event(&mut self, ev: KeyEvent) -> (a: GainAction)
        requires
            old(self).top_mode == TopMode::Speed,
            bench_event_in_range(old(self).menu(), ev),
        ensures
            (final(self).menu(), a) == bench_step(old(self).menu(), ev),
            final(self).drawn() == old(self).drawn(),
    {
        match ev {
            KeyEvent::Pressed(Key::K1) => {
                self.setpoint = self.setpoint + SETPOINT_STEP;
            },
            KeyEvent::Pressed(Key::K2) => {
                self.setpoint = self.setpoint - SETPOINT_STEP;
            },
            KeyEvent::Pressed(Key::K3) => {
                if self.speed_sub == SpeedSubMode::Step {
                    self.speed_sub = SpeedSubMode::Following;
                } else {
                    self.top_mode = TopMode::Pi;
                }
            },
            KeyEvent::Pressed(Key::K4) => {
                if self.speed_sub == SpeedSubMode::Following {
                    self.speed_sub = SpeedSubMode::Step;
                    self.step_hold_speed = self.actual;
                }
            },
            _ => {},
        }
        GainAction::Nothing
    }

    fn handle_pi_event(&mut self, ev: KeyEvent) -> (a: GainAction)
        requires
            old(self).top_mode == TopMode::Pi,
        ensures
            (final(self).menu(), a) == bench_step(old(self).menu(), ev),
            final(self).drawn() == old(self).drawn(),
    {
        match ev {
            KeyEvent::Pressed(Key::K1) => GainAction::Raise(self.pi_sel),
            KeyEvent::Pressed(Key::K2) => GainAction::Lower(self.pi_sel),
            KeyEvent::Pressed(Key::K3) => {
                self.top_mode = TopMode::Speed;
                self.speed_sub = SpeedSubMode::Following;
                GainAction::Nothing
            },
            KeyEvent::Pressed(Key::K4) => {
                self.pi_sel = match self.pi_sel {
                    PiParam::P => PiParam::I,
                    PiParam::I => PiParam::P,
                };
                GainAction::Nothing
            },
            _ => GainAction::Nothing,
        }
    }

    /// One step (every 100 ms) of the simulated motor.
    pub fn update_motor(&mut self)
        requires
            motor_update_in_range(old(self).menu()),
        ensures
            final(self).menu() == (BenchMenu { actual: simulated_speed(old(self).menu()), ..old(self).menu() }),
            final(self).drawn() == old(self).drawn(),
    {
        if self.top_mode == TopMode::Speed && self.speed_sub == SpeedSubMode::Following {
            let diff: i32 = self.setpoint - self.actual;
            if diff > -2 && diff < 2 {
                self.actual = self.setpoint;
            } else {
                let tenth: i32 = if diff >= 0 {
                    diff / 10
                } else {
                    -((-diff) / 10)
                };
                let step: i32 = if tenth == 0 {
                    if diff > 0 {
                        1
                    } else {
                        -1
                    }
                } else {
                    tenth
                };
                self.actual = self.actual + step;
            }
        } else if self.top_mode == TopMode::Speed && self.speed_sub == SpeedSubMode::Step {
            self.actual = self.step_hold_speed;
        }
    }

    /// Draws the display: cleared and drawn in full after a change of top
    /// mode (or the first time), otherwise only what changed; then records
    /// what was drawn.
    pub fn render(&mut self, oled: &mut Sh1106, r: &BenchReadout, font6: &[[u8; 6]], font16: &[[u8; 16]])
        ensures
            final(oled)@ == old(oled)@ + bench_render_frames(*old(self), *r, font6@, font16@),
            final(self).menu() == old(self).menu(),
            final(self).drawn() == (
                old(self).top_mode,
                old(self).speed_sub,
                old(self).setpoint,
                old(self).actual,
                old(self).step_hold_speed,
                old(self).pi_sel,
                false,
            ),
    {
        let mode_changed = self.top_mode != self.last_top_mode || self.first_draw;
        if mode_changed {
            oled.clear();
            match self.top_mode {
                TopMode::Speed => self.render_speed_full(oled, r, font6, font16),
                TopMode::Pi => self.render_pi_full(oled, r, font6, font16),
            }
        } else {
            match self.top_mode {
                TopMode::Speed => self.render_speed_delta(oled, r, font6, font16),
                TopMode::Pi => self.render_pi_delta(oled, r, font6),
            }
        }
        assert(oled@ =~= old(oled)@ + bench_render_frames(*old(self), *r, font6@, font16@));
        self.sync_last_state();
    }

    fn sync_last_state(&mut self)
        ensures
            final(self).menu() == old(self).menu(),
            final(self).drawn() == (
                old(self).top_mode,
                old(self).speed_sub,
                old(self).setpoint,
                old(self).actual,
                old(self).step_hold_speed,
                old(self).pi_sel,
                false,
            ),
    {
        self.last_top_mode = self.top_mode;
        self.last_speed_sub = self.speed_sub;
        self.last_setpoint = self.setpoint;
        self.last_actual = self.actual;
        self.last_step_hold_speed = self.step_hold_speed;
        self.last_pi_sel = self.pi_sel;
        self.first_draw = false;
    }

    fn render_speed_full(&self, oled: &mut Sh1106, r: &BenchReadout, font6: &[[u8; 6]], font16: &[[u8; 16]])
        ensures
            final(oled)@ == old(oled)@ + bench_speed_full_frames(self.speed_sub, *r, font6@, font16@),
    {
        oled.draw_string_8x16(0, 0, bench_speed_title_text(self.speed_sub), font16);
        oled.draw_string_6x8(2, 0, r.setpoint_line.as_str(), font6);
        oled.draw_string_6x8(3, 0, r.actual_line.as_str(), font6);
        if self.speed_sub == SpeedSubMode::Step {
            oled.draw_string_6x8(4, 0, r.hold_line.as_str(), font6);
        }
        oled.draw_string_6x8(6, 0, "S1+ S2- S3 PID S4 STEP", font6);
        assert(oled@ =~= old(oled)@ + bench_speed_full_frames(self.speed_sub, *r, font6@, font16@));
    }

    fn render_speed_delta(&self, oled: &mut Sh1106, r: &BenchReadout, font6: &[[u8; 6]], font16: &[[u8; 16]])
        ensures
            final(oled)@ == old(oled)@ + bench_speed_delta_frames(*self, *r, font6@, font16@),
    {
        let ghost s0 = oled@;
        if self.speed_sub != self.last_speed_sub {
            oled.clear_cols(0, 0, 100);
            oled.clear_cols(1, 0, 100);
            oled.draw_string_8x16(0, 0, bench_speed_title_text(self.speed_sub), font16);
        }
        let ghost x1 = oled@.subrange(s0.len() as int, oled@.len() as int);
        assert(oled@ =~= s0 + x1);
        let ghost x2 = refresh_frames(self.setpoint != self.last_setpoint, 2, 70, true, r.setpoint_line@, font6@);
        let ghost x3 = refresh_frames(self.actual != self.last_actual, 3, 70, true, r.actual_line@, font6@);
        let ghost s1 = oled@;
        refresh_line(oled, self.setpoint != self.last_setpoint, 2, 70, true, r.setpoint_line.as_str(), font6);
        refresh_line(oled, self.actual != self.last_actual, 3, 70, true, r.actual_line.as_str(), font6);
        let hold_shown = self.speed_sub == SpeedSubMode::Step;
        let ghost x4 = refresh_frames(
            self.speed_sub != self.last_speed_sub || self.step_hold_speed != self.last_step_hold_speed,
            4,
            80,
            hold_shown,
            r.hold_line@,
            font6@,
        );
        refresh_line(
            oled,
            self.speed_sub != self.last_speed_sub || self.step_hold_speed != self.last_step_hold_speed,
            4,
            80,
            hold_shown,
            r.hold_line.as_str(),
            font6,
        );
        proof {
            lemma_concat3(s1, x2, x3, x4);
            assert(s0 + x1 + (x2 + x3 + x4) =~= s0 + (x1 + x2 + x3 + x4));
        }
    }

    fn render_pi_full(&self, oled: &mut Sh1106, r: &BenchReadout, font6: &[[u8; 6]], font16: &[[u8; 16]])
        ensures
            final(oled)@ == old(oled)@ + bench_pi_full_frames(self.pi_sel, *r, font6@, font16@),
    {
        oled.draw_string_8x16(0, 0, "PI TUNE", font16);
        let p_line = make_gain_line(self.pi_sel == PiParam::P, "P:", r.p_text.as_str());
        oled.draw_string_6x8(2, 0, p_line.as_str(), font6);
        let i_line = make_gain_line(self.pi_sel == PiParam::I, "I:", r.i_text.as_str());
        oled.draw_string_6x8(3, 0, i_line.as_str(), font6);
        oled.draw_string_6x8(6, 0, "S1+ S2- S3 SPD S4 SEL", font6);
        assert(oled@ =~= old(oled)@ + bench_pi_full_frames(self.pi_sel, *r, font6@, font16@));
    }

    fn render_pi_delta(&self, oled: &mut Sh1106, r: &BenchReadout, font6: &[[u8; 6]])
        ensures
            final(oled)@ == old(oled)@ + bench_pi_delta_frames(self.pi_sel, self.last_pi_sel, *r, font6@),
    {
        let sel_changed = self.pi_sel != self.last_pi_sel;
        let p_line = make_gain_line(self.pi_sel == PiParam::P, "P:", r.p_text.as_str());
        let i_line = make_gain_line(self.pi_sel == PiParam::I, "I:", r.i_text.as_str());
        refresh_line(oled, r.p_changed || sel_changed, 2, 50, true, p_line.as_str(), font6);
        refresh_line(oled, r.i_changed || sel_changed, 3, 50, true, i_line.as_str(), font6);
        assert(oled@ =~= old(oled)@ + bench_pi_delta_frames(self.pi_sel, self.last_pi_sel, *r, font6@));
    }
}

} // verus!

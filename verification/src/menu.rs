use vstd::prelude::*;
use vstd::string::StringExecFns;
use crate::keypad::{Key, KeyEvent};
use crate::sh1106::{Sh1106, clear_frames, clear_cols_frames, string_6x8_frames, string_8x16_frames};

verus! {

/// Top-level menu.
#[derive(Clone, Copy, Debug, PartialEq, Eq, Structural)]
pub enum TopMode {
    Speed,
    Pi,
}

/// Sub-mode of the speed menu.
#[derive(Clone, Copy, Debug, PartialEq, Eq, Structural)]
pub enum SpeedSubMode {
    /// The motor follows the set speed.
    Following,
    /// The motor holds the speed measured when the mode was entered.
    Step,
}

/// The controller gain selected for tuning.
#[derive(Clone, Copy, Debug, PartialEq, Eq, Structural)]
pub enum PidParam {
    P,
    I,
    D,
}

/// What a key press asks of the numeric values (set speed, held speed,
/// gains) that are kept beside the menu.
#[derive(Clone, Copy, Debug, PartialEq, Eq, Structural)]
pub enum MenuAction {
    /// Nothing to change.
    Nothing,
    /// Raise the set speed by one step.
    RaiseSetpoint,
    /// Lower the set speed by one step.
    LowerSetpoint,
    /// Take the measured speed as the speed to hold.
    HoldActualSpeed,
    /// Raise the gain by one tuning step.
    RaiseGain(PidParam),
    /// Lower the gain by one tuning step, not below zero.
    LowerGain(PidParam),
}

/// The gain that follows `p` in the selection cycle P, I, D.
pub open spec fn next_param(p: PidParam) -> PidParam {
    match p {
        PidParam::P => PidParam::I,
        PidParam::I => PidParam::D,
        PidParam::D => PidParam::P,
    }
}

/// One key event applied to the menu (top mode, speed sub-mode, selected
/// gain): the new menu and the action asked for.  Releases are ignored.
///
/// Speed menu: K1/K2 raise/lower the set speed; K3 confirms Step back to
/// Following, or from Following opens the tuning menu; K4 enters Step from
/// Following, holding the measured speed.
/// Tuning menu: K1/K2 raise/lower the selected gain; K3 returns to the
/// speed menu in Following; K4 selects the next gain.
pub open spec fn menu_step(top: TopMode, sub: SpeedSubMode, sel: PidParam, ev: KeyEvent) -> (
    TopMode,
    SpeedSubMode,
    PidParam,
    MenuAction,
) {
    match ev {
        KeyEvent::Released(_) => (top, sub, sel, MenuAction::Nothing),
        KeyEvent::Pressed(k) => match top {
            TopMode::Speed => match k {
                Key::K1 => (top, sub, sel, MenuAction::RaiseSetpoint),
                Key::K2 => (top, sub, sel, MenuAction::LowerSetpoint),
                Key::K3 => if sub == SpeedSubMode::Step {
                    (TopMode::Speed, SpeedSubMode::Following, sel, MenuAction::Nothing)
                } else {
                    (TopMode::Pi, sub, sel, MenuAction::Nothing)
                },
                Key::K4 => if sub == SpeedSubMode::Following {
                    (TopMode::Speed, SpeedSubMode::Step, sel, MenuAction::HoldActualSpeed)
                } else {
                    (top, sub, sel, MenuAction::Nothing)
                },
            },
            TopMode::Pi => match k {
                Key::K1 => (top, sub, sel, MenuAction::RaiseGain(sel)),
                Key::K2 => (top, sub, sel, MenuAction::LowerGain(sel)),
                Key::K3 => (TopMode::Speed, SpeedSubMode::Following, sel, MenuAction::Nothing),
                Key::K4 => (top, sub, next_param(sel), MenuAction::Nothing),
            },
        },
    }
}

/// The texts of the values shown on the display, formatted by the caller,
/// and whether each value differs from the one drawn last.
pub struct Readout {
    /// "SP:" line of the speed menu.
    pub setpoint_line: String,
    /// "AC:" line of the speed menu.
    pub actual_line: String,
    /// "PWM:" line of the speed menu.
    pub pwm_line: String,
    /// "HOLD:" line of the speed menu.
    pub hold_line: String,
    /// Warning text; empty when there is none.
    pub warning: String,
    /// Proportional gain, as it follows "P:".
    pub p_text: String,
    /// Integral gain, as it follows "I:".
    pub i_text: String,
    /// Derivative gain, as it follows "D:".
    pub d_text: String,
    pub setpoint_changed: bool,
    pub actual_changed: bool,
    pub pwm_changed: bool,
    pub hold_changed: bool,
    pub warning_changed: bool,
    pub p_changed: bool,
    pub i_changed: bool,
    pub d_changed: bool,
}

/// Title of the speed menu.
pub open spec fn speed_title(sub: SpeedSubMode) -> Seq<char> {
    match sub {
        SpeedSubMode::Following => "SPEED-FOLLOW"@,
        SpeedSubMode::Step => "SPEED-STEP"@,
    }
}

fn speed_title_text(sub: SpeedSubMode) -> (s: &'static str)
    ensures
        s@ == speed_title(sub),
        s@.len() <= 12,
{
    proof {
        reveal_strlit("SPEED-FOLLOW");
        reveal_strlit("SPEED-STEP");
    }
    match sub {
        SpeedSubMode::Following => "SPEED-FOLLOW",
        SpeedSubMode::Step => "SPEED-STEP",
    }
}

/// Selection marker of a gain line.
pub open spec fn marker(selected: bool) -> Seq<char> {
    if selected {
        ">"@
    } else {
        " "@
    }
}

/// A gain line of the tuning menu: marker, label, value.
pub open spec fn gain_line(selected: bool, label: Seq<char>, value: Seq<char>) -> Seq<char> {
    marker(selected) + label + value
}

/// Writes marker, label and value into one line.
pub(crate) fn make_gain_line(selected: bool, label: &str, value: &str) -> (line: String)
    ensures
        line@ == gain_line(selected, label@, value@),
{
    let mut line = if selected {
        String::from_str(">")
    } else {
        String::from_str(" ")
    };
    line.append(label);
    line.append(value);
    line
}

/// A text line of 6x8 characters at column 0 of `page`.
pub open spec fn line_frames(page: u8, s: Seq<char>, font6: Seq<[u8; 6]>) -> Seq<Seq<u8>> {
    string_6x8_frames(page, 0, s, font6)
}

/// Full drawing of the speed menu (after the display was cleared).
pub open spec fn speed_full_frames(
    sub: SpeedSubMode,
    r: Readout,
    font6: Seq<[u8; 6]>,
    font16: Seq<[u8; 16]>,
) -> Seq<Seq<u8>> {
    string_8x16_frames(0, 0, speed_title(sub), font16) + line_frames(2, r.setpoint_line@, font6)
        + line_frames(3, r.actual_line@, font6) + line_frames(4, r.pwm_line@, font6) + (if r.warning@.len()
        > 0 {
        line_frames(5, r.warning@, font6)
    } else {
        Seq::empty()
    }) + (if sub == SpeedSubMode::Step {
        line_frames(6, r.hold_line@, font6)
    } else {
        Seq::empty()
    }) + line_frames(7, "S1+ S2- S3 OK S4 STEP"@, font6)
}

/// Refreshing one line: when `changed`, `width` columns of `page` are
/// blanked and, when `show`, `text` is drawn there.
pub open spec fn refresh_frames(
    changed: bool,
    page: u8,
    width: u8,
    show: bool,
    text: Seq<char>,
    font6: Seq<[u8; 6]>,
) -> Seq<Seq<u8>> {
    if changed {
        clear_cols_frames(page, 0, width) + (if show {
            line_frames(page, text, font6)
        } else {
            Seq::empty()
        })
    } else {
        Seq::empty()
    }
}

/// Redrawing of the speed menu title when the sub-mode changed.
pub open spec fn title_refresh_frames(sub: SpeedSubMode, last_sub: SpeedSubMode, font16: Seq<[u8; 16]>) -> Seq<Seq<u8>> {
    if sub != last_sub {
        clear_cols_frames(0, 0, 100) + clear_cols_frames(1, 0, 100) + string_8x16_frames(
            0,
            0,
            speed_title(sub),
            font16,
        )
    } else {
        Seq::empty()
    }
}

/// Redrawing of the parts of the speed menu that changed: title, set
/// speed, measured speed, duty, warning, held speed.
pub open spec fn speed_delta_frames(
    sub: SpeedSubMode,
    last_sub: SpeedSubMode,
    r: Readout,
    font6: Seq<[u8; 6]>,
    font16: Seq<[u8; 16]>,
) -> Seq<Seq<u8>> {
    title_refresh_frames(sub, last_sub, font16)
        + refresh_frames(r.setpoint_changed, 2, 70, true, r.setpoint_line@, font6)
        + refresh_frames(r.actual_changed, 3, 70, true, r.actual_line@, font6)
        + refresh_frames(r.pwm_changed, 4, 70, true, r.pwm_line@, font6)
        + refresh_frames(r.warning_changed, 5, 128, r.warning@.len() > 0, r.warning@, font6)
        + refresh_frames(sub != last_sub || r.hold_changed, 6, 80, sub == SpeedSubMode::Step, r.hold_line@, font6)
}

/// Full drawing of the tuning menu (after the display was cleared).
pub open spec fn pid_full_frames(
    sel: PidParam,
    r: Readout,
    font6: Seq<[u8; 6]>,
    font16: Seq<[u8; 16]>,
) -> Seq<Seq<u8>> {
    string_8x16_frames(0, 0, "PID TUNE"@, font16) + line_frames(
        2,
        gain_line(sel == PidParam::P, "P:"@, r.p_text@),
        font6,
    ) + line_frames(3, gain_line(sel == PidParam::I, "I:"@, r.i_text@), font6) + line_frames(
        4,
        gain_line(sel == PidParam::D, "D:"@, r.d_text@),
        font6,
    ) + line_frames(6, "S1+ S2- S3 SPD S4 SEL"@, font6)
}

/// Redrawing of the gain lines whose value or selection changed.
pub open spec fn pid_delta_frames(
    sel: PidParam,
    last_sel: PidParam,
    r: Readout,
    font6: Seq<[u8; 6]>,
) -> Seq<Seq<u8>> {
    refresh_frames(r.p_changed || sel != last_sel, 2, 50, true, gain_line(sel == PidParam::P, "P:"@, r.p_text@), font6)
        + refresh_frames(r.i_changed || sel != last_sel, 3, 50, true, gain_line(sel == PidParam::I, "I:"@, r.i_text@), font6)
        + refresh_frames(r.d_changed || sel != last_sel, 4, 50, true, gain_line(sel == PidParam::D, "D:"@, r.d_text@), font6)
}

pub(crate) proof fn lemma_concat3(s: Seq<Seq<u8>>, a: Seq<Seq<u8>>, b: Seq<Seq<u8>>, c: Seq<Seq<u8>>)
    ensures
        s + a + b + c == s + (a + b + c),
{
    assert(s + a + b + c =~= s + (a + b + c));
}

proof fn lemma_concat6(
    s: Seq<Seq<u8>>,
    a: Seq<Seq<u8>>,
    b: Seq<Seq<u8>>,
    c: Seq<Seq<u8>>,
    d: Seq<Seq<u8>>,
    e: Seq<Seq<u8>>,
    f: Seq<Seq<u8>>,
)
    ensures
        s + a + b + c + d + e + f == s + (a + b + c + d + e + f),
{
    assert(s + a + b + c + d + e + f =~= s + (a + b + c + d + e + f));
}

/// Redraws the speed menu title when the sub-mode changed.
fn refresh_title(oled: &mut Sh1106, sub: SpeedSubMode, last_sub: SpeedSubMode, font16: &[[u8; 16]])
    ensures
        final(oled)@ == old(oled)@ + title_refresh_frames(sub, last_sub, font16@),
{
    if sub != last_sub {
        oled.clear_cols(0, 0, 100);
        oled.clear_cols(1, 0, 100);
        oled.draw_string_8x16(0, 0, speed_title_text(sub), font16);
    }
    assert(oled@ =~= old(oled)@ + title_refresh_frames(sub, last_sub, font16@));
}

/// Refreshes one line of `page` (see `refresh_frames`).
pub(crate) fn refresh_line(oled: &mut Sh1106, changed: bool, page: u8, width: u8, show: bool, text: &str, font6: &[[u8; 6]])
    ensures
        final(oled)@ == old(oled)@ + refresh_frames(changed, page, width, show, text@, font6@),
{
    if changed {
        oled.clear_cols(page, 0, width);
        if show {
            oled.draw_string_6x8(page, 0, text, font6);
        }
    }
    assert(oled@ =~= old(oled)@ + refresh_frames(changed, page, width, show, text@, font6@));
}

/// What `render` draws for menu state `m`.
pub open spec fn render_frames(
    m: MenuState,
    r: Readout,
    font6: Seq<[u8; 6]>,
    font16: Seq<[u8; 16]>,
) -> Seq<Seq<u8>> {
    if m.top_mode != m.last_top_mode || m.first_draw {
        clear_frames(8) + match m.top_mode {
            TopMode::Speed => speed_full_frames(m.speed_sub, r, font6, font16),
            TopMode::Pi => pid_full_frames(m.pid_sel, r, font6, font16),
        }
    } else {
        match m.top_mode {
            TopMode::Speed => speed_delta_frames(m.speed_sub, m.last_speed_sub, r, font6, font16),
            TopMode::Pi => pid_delta_frames(m.pid_sel, m.last_pid_sel, r, font6),
        }
    }
}

/// Key releases never change the menu and ask for nothing.
pub proof fn law_release_changes_nothing(top: TopMode, sub: SpeedSubMode, sel: PidParam, k: Key)
    ensures
        menu_step(top, sub, sel, KeyEvent::Released(k)) == (top, sub, sel, MenuAction::Nothing),
{
}

/// In the tuning menu, three presses of K4 select the same gain again,
/// passing through the other two.
pub proof fn law_gain_selection_cycles(sub: SpeedSubMode, sel: PidParam)
    ensures
        ({
            let k4 = KeyEvent::Pressed(Key::K4);
            let a = menu_step(TopMode::Pi, sub, sel, k4);
            let b = menu_step(a.0, a.1, a.2, k4);
            let c = menu_step(b.0, b.1, b.2, k4);
            &&& a.2 != sel
            &&& b.2 != sel
            &&& b.2 != a.2
            &&& c.2 == sel
            &&& c.0 == TopMode::Pi
        }),
{
}

/// K3 in the tuning menu always returns to the speed menu in Following,
/// keeping the selected gain.
pub proof fn law_k3_leaves_tuning_to_following(sub: SpeedSubMode, sel: PidParam)
    ensures
        menu_step(TopMode::Pi, sub, sel, KeyEvent::Pressed(Key::K3)) == (
            TopMode::Speed,
            SpeedSubMode::Following,
            sel,
            MenuAction::Nothing,
        ),
{
}

/// Step mode is entered only from Following by K4, which asks to hold the
/// measured speed; while in Step, only K3 changes the mode (back to
/// Following), and K4 does nothing.
pub proof fn law_step_mode_entry_and_exit(sel: PidParam, ev: KeyEvent)
    ensures
        menu_step(TopMode::Speed, SpeedSubMode::Following, sel, KeyEvent::Pressed(Key::K4)) == (
            TopMode::Speed,
            SpeedSubMode::Step,
            sel,
            MenuAction::HoldActualSpeed,
        ),
        menu_step(TopMode::Speed, SpeedSubMode::Step, sel, KeyEvent::Pressed(Key::K4)) == (
            TopMode::Speed,
            SpeedSubMode::Step,
            sel,
            MenuAction::Nothing,
        ),
        ev != KeyEvent::Pressed(Key::K3) ==> {
            let r = menu_step(TopMode::Speed, SpeedSubMode::Step, sel, ev);
            r.0 == TopMode::Speed && r.1 == SpeedSubMode::Step
        },
        menu_step(TopMode::Speed, SpeedSubMode::Step, sel, KeyEvent::Pressed(Key::K3)) == (
            TopMode::Speed,
            SpeedSubMode::Following,
            sel,
            MenuAction::Nothing,
        ),
{
}

/// Partial refresh: once a menu has been drawn, rendering it again with
/// nothing changed queues no transfer at all.
pub proof fn law_unchanged_display_is_not_redrawn(
    m: MenuState,
    r: Readout,
    font6: Seq<[u8; 6]>,
    font16: Seq<[u8; 16]>,
)
    requires
        m.drawn() == (m.top_mode, m.speed_sub, m.pid_sel, false),
        !r.setpoint_changed,
        !r.actual_changed,
        !r.pwm_changed,
        !r.hold_changed,
        !r.warning_changed,
        !r.p_changed,
        !r.i_changed,
        !r.d_changed,
    ensures
        render_frames(m, r, font6, font16) == Seq::<Seq<u8>>::empty(),
{
    assert(render_frames(m, r, font6, font16) =~= Seq::<Seq<u8>>::empty());
}

/// A change of top mode (or the first drawing) blanks the whole display
/// before the new menu is drawn.
pub proof fn law_mode_change_clears_display(
    m: MenuState,
    r: Readout,
    font6: Seq<[u8; 6]>,
    font16: Seq<[u8; 16]>,
)
    requires
        m.top_mode != m.last_top_mode || m.first_draw,
    ensures
        render_frames(m, r, font6, font16).subrange(0, clear_frames(8).len() as int) == clear_frames(8),
{
    let c = clear_frames(8);
    let rest = match m.top_mode {
        TopMode::Speed => speed_full_frames(m.speed_sub, r, font6, font16),
        TopMode::Pi => pid_full_frames(m.pid_sel, r, font6, font16),
    };
    assert((c + rest).subrange(0, c.len() as int) =~= c);
}

/// In the tuning menu K1 asks to raise exactly the selected gain and K2 to
/// lower exactly the selected gain, leaving the menu as it is.
pub proof fn law_tuning_keys_act_on_selected_gain(sub: SpeedSubMode, sel: PidParam)
    ensures
        menu_step(TopMode::Pi, sub, sel, KeyEvent::Pressed(Key::K1)) == (
            TopMode::Pi,
            sub,
            sel,
            MenuAction::RaiseGain(sel),
        ),
        menu_step(TopMode::Pi, sub, sel, KeyEvent::Pressed(Key::K2)) == (
            TopMode::Pi,
            sub,
            sel,
            MenuAction::LowerGain(sel),
        ),
{
}

/// In the speed menu K1 and K2 ask to raise and lower the set speed and
/// change nothing else.
pub proof fn law_speed_keys_change_setpoint(sub: SpeedSubMode, sel: PidParam)
    ensures
        menu_step(TopMode::Speed, sub, sel, KeyEvent::Pressed(Key::K1)) == (
            TopMode::Speed,
            sub,
            sel,
            MenuAction::RaiseSetpoint,
        ),
        menu_step(TopMode::Speed, sub, sel, KeyEvent::Pressed(Key::K2)) == (
            TopMode::Speed,
            sub,
            sel,
            MenuAction::LowerSetpoint,
        ),
{
}

/// Partial refresh keeps the title true: whenever the speed sub-mode
/// differs from the one drawn last (in either direction), redrawing the
/// speed menu starts by blanking the title area (100 columns of pages 0
/// and 1) and drawing the title of the current sub-mode, "SPEED-FOLLOW"
/// or "SPEED-STEP", in the 8x16 font.
pub proof fn law_sub_mode_change_redraws_title(
    m: MenuState,
    r: Readout,
    font6: Seq<[u8; 6]>,
    font16: Seq<[u8; 16]>,
)
    requires
        m.top_mode == TopMode::Speed,
        m.last_top_mode == TopMode::Speed,
        !m.first_draw,
        m.speed_sub != m.last_speed_sub,
    ensures
        ({
            let title = if m.speed_sub == SpeedSubMode::Following {
                "SPEED-FOLLOW"@
            } else {
                "SPEED-STEP"@
            };
            let head = clear_cols_frames(0, 0, 100) + clear_cols_frames(1, 0, 100) + string_8x16_frames(
                0,
                0,
                title,
                font16,
            );
            render_frames(m, r, font6, font16).subrange(0, head.len() as int) == head
        }),
{
    let title = if m.speed_sub == SpeedSubMode::Following {
        "SPEED-FOLLOW"@
    } else {
        "SPEED-STEP"@
    };
    let head = clear_cols_frames(0, 0, 100) + clear_cols_frames(1, 0, 100) + string_8x16_frames(
        0,
        0,
        title,
        font16,
    );
    assert(title_refresh_frames(m.speed_sub, m.last_speed_sub, font16) == head);
    let x2 = refresh_frames(r.setpoint_changed, 2, 70, true, r.setpoint_line@, font6);
    let x3 = refresh_frames(r.actual_changed, 3, 70, true, r.actual_line@, font6);
    let x4 = refresh_frames(r.pwm_changed, 4, 70, true, r.pwm_line@, font6);
    let x5 = refresh_frames(r.warning_changed, 5, 128, r.warning@.len() > 0, r.warning@, font6);
    let x6 = refresh_frames(
        m.speed_sub != m.last_speed_sub || r.hold_changed,
        6,
        80,
        m.speed_sub == SpeedSubMode::Step,
        r.hold_line@,
        font6,
    );
    assert(render_frames(m, r, font6, font16) == speed_delta_frames(m.speed_sub, m.last_speed_sub, r, font6, font16));
    assert(speed_delta_frames(m.speed_sub, m.last_speed_sub, r, font6, font16) == head + x2 + x3 + x4 + x5 + x6);
    lemma_prefix_of_concat6(head, x2, x3, x4, x5, x6);
}

proof fn lemma_prefix_of_concat6(
    a: Seq<Seq<u8>>,
    b: Seq<Seq<u8>>,
    c: Seq<Seq<u8>>,
    d: Seq<Seq<u8>>,
    e: Seq<Seq<u8>>,
    f: Seq<Seq<u8>>,
)
    ensures
        (a + b + c + d + e + f).subrange(0, a.len() as int) == a,
{
    assert((a + b + c + d + e + f).subrange(0, a.len() as int) =~= a);
}

/// Partial refresh with the sub-mode unchanged never touches the title
/// area: the redraw of the speed menu only refreshes value lines.
pub proof fn law_same_sub_mode_keeps_title(
    m: MenuState,
    r: Readout,
    font6: Seq<[u8; 6]>,
    font16: Seq<[u8; 16]>,
)
    requires
        m.top_mode == TopMode::Speed,
        m.last_top_mode == TopMode::Speed,
        !m.first_draw,
        m.speed_sub == m.last_speed_sub,
    ensures
        title_refresh_frames(m.speed_sub, m.last_speed_sub, font16) == Seq::<Seq<u8>>::empty(),
{
}

/// The discrete state of the menu and what of it was drawn last.
pub struct MenuState {
    pub top_mode: TopMode,
    pub speed_sub: SpeedSubMode,
    pub pid_sel: PidParam,
    /// Top mode when the display was last drawn.
    pub last_top_mode: TopMode,
    /// Speed sub-mode when the display was last drawn.
    pub last_speed_sub: SpeedSubMode,
    /// Selected gain when the display was last drawn.
    pub last_pid_sel: PidParam,
    /// Nothing has been drawn yet.
    pub first_draw: bool,
}

impl MenuState {
    /// What was drawn last: top mode, speed sub-mode, selected gain, and
    /// whether nothing was drawn yet.
    pub open spec fn drawn(&self) -> (TopMode, SpeedSubMode, PidParam, bool) {
        (self.last_top_mode, self.last_speed_sub, self.last_pid_sel, self.first_draw)
    }

    /// Speed menu, following, P selected, nothing drawn yet.
    pub fn new() -> (m: Self)
        ensures
            m.top_mode == TopMode::Speed,
            m.speed_sub == SpeedSubMode::Following,
            m.pid_sel == PidParam::P,
            m.drawn().3,
    {
        MenuState {
            top_mode: TopMode::Speed,
            speed_sub: SpeedSubMode::Following,
            pid_sel: PidParam::P,
            last_top_mode: TopMode::Pi,
            last_speed_sub: SpeedSubMode::Step,
            last_pid_sel: PidParam::D,
            first_draw: true,
        }
    }

    /// Applies one key event; returns what the numeric values must do.
    pub fn handle_event(&mut self, ev: KeyEvent) -> (a: MenuAction)
        ensures
            (final(self).top_mode, final(self).speed_sub, final(self).pid_sel, a) == menu_step(
                old(self).top_mode,
                old(self).speed_sub,
                old(self).pid_sel,
                ev,
            ),
            final(self).drawn() == old(self).drawn(),
    {
        match self.top_mode {
            TopMode::Speed => self.handle_speed_event(ev),
            TopMode::Pi => self.handle_pi_event(ev),
        }
    }

    fn handle_speed_event(&mut self, ev: KeyEvent) -> (a: MenuAction)
        requires
            old(self).top_mode == TopMode::Speed,
        ensures
            (final(self).top_mode, final(self).speed_sub, final(self).pid_sel, a) == menu_step(
                old(self).top_mode,
                old(self).speed_sub,
                old(self).pid_sel,
                ev,
            ),
            final(self).drawn() == old(self).drawn(),
    {
        match ev {
            KeyEvent::Pressed(Key::K1) => MenuAction::RaiseSetpoint,
            KeyEvent::Pressed(Key::K2) => MenuAction::LowerSetpoint,
            KeyEvent::Pressed(Key::K3) => {
                if self.speed_sub == SpeedSubMode::Step {
                    self.speed_sub = SpeedSubMode::Following;
                } else {
                    self.top_mode = TopMode::Pi;
                }
                MenuAction::Nothing
            },
            KeyEvent::Pressed(Key::K4) => {
                if self.speed_sub == SpeedSubMode::Following {
                    self.speed_sub = SpeedSubMode::Step;
                    MenuAction::HoldActualSpeed
                } else {
                    MenuAction::Nothing
                }
            },
            _ => MenuAction::Nothing,
        }
    }

    fn handle_pi_event(&mut self, ev: KeyEvent) -> (a: MenuAction)
        requires
            old(self).top_mode == TopMode::Pi,
        ensures
            (final(self).top_mode, final(self).speed_sub, final(self).pid_sel, a) == menu_step(
                old(self).top_mode,
                old(self).speed_sub,
                old(self).pid_sel,
                ev,
            ),
            final(self).drawn() == old(self).drawn(),
    {
        match ev {
            KeyEvent::Pressed(Key::K1) => MenuAction::RaiseGain(self.pid_sel),
            KeyEvent::Pressed(Key::K2) => MenuAction::LowerGain(self.pid_sel),
            KeyEvent::Pressed(Key::K3) => {
                self.top_mode = TopMode::Speed;
                self.speed_sub = SpeedSubMode::Following;
                MenuAction::Nothing
            },
            KeyEvent::Pressed(Key::K4) => {
                self.pid_sel = match self.pid_sel {
                    PidParam::P => PidParam::I,
                    PidParam::I => PidParam::D,
                    PidParam::D => PidParam::P,
                };
                MenuAction::Nothing
            },
            _ => MenuAction::Nothing,
        }
    }

    /// Draws the display: after a change of top mode (or the first time)
    /// it is cleared and the current menu drawn in full; otherwise only the
    /// parts that changed are redrawn.  The drawn state is then recorded.
    pub fn render(&mut self, oled: &mut Sh1106, r: &Readout, font6: &[[u8; 6]], font16: &[[u8; 16]])
        ensures
            final(oled)@ == old(oled)@ + render_frames(*old(self), *r, font6@, font16@),
            final(self).top_mode == old(self).top_mode,
            final(self).speed_sub == old(self).speed_sub,
            final(self).pid_sel == old(self).pid_sel,
            final(self).drawn() == (old(self).top_mode, old(self).speed_sub, old(self).pid_sel, false),
    {
        let mode_changed = self.top_mode != self.last_top_mode || self.first_draw;
        if mode_changed {
            oled.clear();
            match self.top_mode {
                TopMode::Speed => self.render_speed_full(oled, r, font6, font16),
                TopMode::Pi => self.render_pi_full(oled, r, font6, font16),
            }
        } else {
            match self.top_mode {
                TopMode::Speed => self.render_speed_delta(oled, r, font6, font16),
                TopMode::Pi => self.render_pi_delta(oled, r, font6),
            }
        }
        assert(oled@ =~= old(oled)@ + render_frames(*old(self), *r, font6@, font16@));
        self.sync_last_state();
    }

    fn sync_last_state(&mut self)
        ensures
            final(self).top_mode == old(self).top_mode,
            final(self).speed_sub == old(self).speed_sub,
            final(self).pid_sel == old(self).pid_sel,
            final(self).drawn() == (old(self).top_mode, old(self).speed_sub, old(self).pid_sel, false),
    {
        self.last_top_mode = self.top_mode;
        self.last_speed_sub = self.speed_sub;
        self.last_pid_sel = self.pid_sel;
        self.first_draw = false;
    }

    fn render_speed_full(&self, oled: &mut Sh1106, r: &Readout, font6: &[[u8; 6]], font16: &[[u8; 16]])
        ensures
            final(oled)@ == old(oled)@ + speed_full_frames(self.speed_sub, *r, font6@, font16@),
    {
        oled.draw_string_8x16(0, 0, speed_title_text(self.speed_sub), font16);
        oled.draw_string_6x8(2, 0, r.setpoint_line.as_str(), font6);
        oled.draw_string_6x8(3, 0, r.actual_line.as_str(), font6);
        oled.draw_string_6x8(4, 0, r.pwm_line.as_str(), font6);
        let ghost before_warning = oled@;
        if !r.warning.as_str().is_empty() {
            oled.draw_string_6x8(5, 0, r.warning.as_str(), font6);
        }
        let ghost before_hold = oled@;
        if self.speed_sub == SpeedSubMode::Step {
            oled.draw_string_6x8(6, 0, r.hold_line.as_str(), font6);
        }
        oled.draw_string_6x8(7, 0, "S1+ S2- S3 OK S4 STEP", font6);
        assert(oled@ =~= old(oled)@ + speed_full_frames(self.speed_sub, *r, font6@, font16@));
    }

    fn render_speed_delta(&self, oled: &mut Sh1106, r: &Readout, font6: &[[u8; 6]], font16: &[[u8; 16]])
        ensures
            final(oled)@ == old(oled)@ + speed_delta_frames(
                self.speed_sub,
                self.last_speed_sub,
                *r,
                font6@,
                font16@,
            ),
    {
        let ghost x1 = title_refresh_frames(self.speed_sub, self.last_speed_sub, font16@);
        let ghost x2 = refresh_frames(r.setpoint_changed, 2, 70, true, r.setpoint_line@, font6@);
        let ghost x3 = refresh_frames(r.actual_changed, 3, 70, true, r.actual_line@, font6@);
        let ghost x4 = refresh_frames(r.pwm_changed, 4, 70, true, r.pwm_line@, font6@);
        let ghost x5 = refresh_frames(
            r.warning_changed,
            5,
            128,
            r.warning@.len() > 0,
            r.warning@,
            font6@,
        );
        let ghost x6 = refresh_frames(
            self.speed_sub != self.last_speed_sub || r.hold_changed,
            6,
            80,
            self.speed_sub == SpeedSubMode::Step,
            r.hold_line@,
            font6@,
        );
        refresh_title(oled, self.speed_sub, self.last_speed_sub, font16);
        refresh_line(oled, r.setpoint_changed, 2, 70, true, r.setpoint_line.as_str(), font6);
        refresh_line(oled, r.actual_changed, 3, 70, true, r.actual_line.as_str(), font6);
        refresh_line(oled, r.pwm_changed, 4, 70, true, r.pwm_line.as_str(), font6);
        let has_warning = !r.warning.as_str().is_empty();
        refresh_line(oled, r.warning_changed, 5, 128, has_warning, r.warning.as_str(), font6);
        let hold_shown = self.speed_sub == SpeedSubMode::Step;
        refresh_line(
            oled,
            self.speed_sub != self.last_speed_sub || r.hold_changed,
            6,
            80,
            hold_shown,
            r.hold_line.as_str(),
            font6,
        );
        proof {
            lemma_concat6(old(oled)@, x1, x2, x3, x4, x5, x6);
        }
    }

    fn render_pi_full(&self, oled: &mut Sh1106, r: &Readout, font6: &[[u8; 6]], font16: &[[u8; 16]])
        ensures
            final(oled)@ == old(oled)@ + pid_full_frames(self.pid_sel, *r, font6@, font16@),
    {
        oled.draw_string_8x16(0, 0, "PID TUNE", font16);
        let p_line = make_gain_line(self.pid_sel == PidParam::P, "P:", r.p_text.as_str());
        oled.draw_string_6x8(2, 0, p_line.as_str(), font6);
        let i_line = make_gain_line(self.pid_sel == PidParam::I, "I:", r.i_text.as_str());
        oled.draw_string_6x8(3, 0, i_line.as_str(), font6);
        let d_line = make_gain_line(self.pid_sel == PidParam::D, "D:", r.d_text.as_str());
        oled.draw_string_6x8(4, 0, d_line.as_str(), font6);
        oled.draw_string_6x8(6, 0, "S1+ S2- S3 SPD S4 SEL", font6);
        assert(oled@ =~= old(oled)@ + pid_full_frames(self.pid_sel, *r, font6@, font16@));
    }

    fn render_pi_delta(&self, oled: &mut Sh1106, r: &Readout, font6: &[[u8; 6]])
        ensures
            final(oled)@ == old(oled)@ + pid_delta_frames(self.pid_sel, self.last_pid_sel, *r, font6@),
    {
        let sel_changed = self.pid_sel != self.last_pid_sel;
        let p_line = make_gain_line(self.pid_sel == PidParam::P, "P:", r.p_text.as_str());
        let i_line = make_gain_line(self.pid_sel == PidParam::I, "I:", r.i_text.as_str());
        let d_line = make_gain_line(self.pid_sel == PidParam::D, "D:", r.d_text.as_str());
        let ghost x1 = refresh_frames(r.p_changed || sel_changed, 2, 50, true, p_line@, font6@);
        let ghost x2 = refresh_frames(r.i_changed || sel_changed, 3, 50, true, i_line@, font6@);
        let ghost x3 = refresh_frames(r.d_changed || sel_changed, 4, 50, true, d_line@, font6@);
        refresh_line(oled, r.p_changed || sel_changed, 2, 50, true, p_line.as_str(), font6);
        refresh_line(oled, r.i_changed || sel_changed, 3, 50, true, i_line.as_str(), font6);
        refresh_line(oled, r.d_changed || sel_changed, 4, 50, true, d_line.as_str(), font6);
        proof {
            lemma_concat3(old(oled)@, x1, x2, x3);
        }
    }
}

} // verus!

//! The popover controller: the decision procedure behind the tray window.
//!
//! The host reads a [`WindowSnapshot`] from the toolkit, hands it to the
//! controller together with the event, and then carries out the returned
//! commands in order against the window service. The controller keeps no
//! shadow visibility flag of its own: the snapshot's best-effort visibility
//! query is the source of truth, so a show or conceal call that silently
//! failed cannot make the controller drift.

use vstd::prelude::*;

verus! {

use crate::commands::Command;
use crate::events::ControllerEvent;
use crate::events::TrayClick;
use crate::events::qualifies;
use crate::geometry::COORD_LIMIT;
use crate::geometry::SCALE_LIMIT;
use crate::geometry::SCALE_ONE;
use crate::geometry::compute_target_position;
use crate::geometry::target_x;
use crate::geometry::target_y;

/// Fixed popover configuration: the window's width and the visual gap kept
/// below the tray icon, both in physical pixels, and whether explicit
/// placement is wanted at all (a host may let the toolkit place the window).
#[derive(Clone, Copy, Debug, PartialEq, Eq, Structural)]
pub struct Config {
    pub window_width: i64,
    pub gap: i64,
    pub enable_positioning: bool,
}

impl Config {
    /// Width and gap lie in the representable range.
    pub open spec fn wf(self) -> bool {
        &&& 0 <= self.window_width <= COORD_LIMIT
        &&& 0 <= self.gap <= COORD_LIMIT
    }
}

impl Default for Config {
    /// The stock popover: a 400 pixel wide window, an 8 pixel gap, explicit
    /// placement switched on.
    fn default() -> (c: Config)
        ensures
            c == (Config { window_width: 400, gap: 8, enable_positioning: true }),
            c.wf(),
    {
        Config { window_width: 400, gap: 8, enable_positioning: true }
    }
}

/// What the host could read from the window handle just before asking for a
/// decision. Both queries are best-effort: `None` records that the toolkit
/// gave no answer.
#[derive(Clone, Copy, Debug)]
pub struct WindowSnapshot {
    /// The window's reported visibility, if the query succeeded.
    pub visible: Option<bool>,
    /// The display scale factor in thousandths, if the query succeeded.
    pub scale_milli: Option<u32>,
}

impl WindowSnapshot {
    /// A reported scale factor lies in the accepted range.
    pub open spec fn wf(self) -> bool {
        match self.scale_milli {
            Option::Some(k) => 1 <= k <= SCALE_LIMIT,
            Option::None => true,
        }
    }

    /// The visibility the controller acts on: an unavailable or failed
    /// query counts as not visible, failing safe toward showing the window
    /// rather than toggling unexpectedly.
    pub open spec fn effective_visible(self) -> bool {
        match self.visible {
            Option::Some(b) => b,
            Option::None => false,
        }
    }

    /// The scale factor the controller acts on, in thousandths: an
    /// unavailable query counts as a scale of one.
    pub open spec fn effective_scale(self) -> int {
        match self.scale_milli {
            Option::Some(k) => k as int,
            Option::None => SCALE_ONE as int,
        }
    }

    /// Reads the visibility the controller acts on.
    pub fn visible_or_default(&self) -> (b: bool)
        ensures
            b == self.effective_visible(),
    {
        match self.visible {
            Option::Some(b) => b,
            Option::None => false,
        }
    }

    /// Reads the scale factor the controller acts on, in thousandths.
    pub fn scale_or_default(&self) -> (k: u32)
        requires
            self.wf(),
        ensures
            k as int == self.effective_scale(),
            1 <= k <= SCALE_LIMIT,
    {
        match self.scale_milli {
            Option::Some(k) => k,
            Option::None => SCALE_ONE,
        }
    }
}

/// The commands a tray event gives rise to.
///
/// With no resolvable window there is nothing to drive and no command is
/// issued. A click that is not a released left button is filtered out. A
/// qualifying click on a visible window conceals it; on a concealed window
/// it places the window under the icon (position first, so the window never
/// flashes at its previous location), shows it, and gives it focus.
pub open spec fn tray_commands(cfg: Config, window: Option<WindowSnapshot>, ev: TrayClick) -> Seq<
    Command,
> {
    match window {
        Option::None => Seq::<Command>::empty(),
        Option::Some(w) => {
            if !qualifies(ev) {
                Seq::<Command>::empty()
            } else if w.effective_visible() {
                seq![Command::Hide]
            } else if cfg.enable_positioning {
                seq![
                    Command::SetPosition {
                        x: target_x(ev.rect, w.effective_scale(), cfg.window_width as int) as i64,
                        y: target_y(ev.rect, w.effective_scale(), cfg.gap as int) as i64,
                    },
                    Command::Show,
                    Command::SetFocus,
                ]
            } else {
                seq![Command::Show, Command::SetFocus]
            }
        },
    }
}

/// The commands a focus change gives rise to: losing focus conceals the
/// window unconditionally (click outside dismisses the popover); gaining
/// focus never shows it.
pub open spec fn focus_commands(focused: bool) -> Seq<Command> {
    if focused {
        Seq::<Command>::empty()
    } else {
        seq![Command::Hide]
    }
}

/// The commands any controller event gives rise to: the whole state
/// machine behind one tagged dispatch.
pub open spec fn event_commands(cfg: Config, window: Option<WindowSnapshot>, ev: ControllerEvent) -> Seq<
    Command,
> {
    match ev {
        ControllerEvent::Tray(click) => tray_commands(cfg, window, click),
        ControllerEvent::Focus(focused) => focus_commands(focused),
    }
}

/// The one-time startup command: conceal the window once, before any event
/// is processed, so a menu-bar application never shows on launch.
pub open spec fn startup_commands(cfg: Config) -> Seq<Command> {
    seq![Command::Hide]
}

/// The popover controller. It holds only its fixed configuration; all
/// per-event state is read fresh from the window snapshot.
#[derive(Clone, Copy, Debug)]
pub struct Controller {
    pub config: Config,
}

impl Controller {
    /// A controller with the given configuration.
    pub fn new(config: Config) -> (c: Controller)
        ensures
            c.config == config,
    {
        Controller { config }
    }

    /// The controller's configuration lies in the representable range.
    pub open spec fn wf(self) -> bool {
        self.config.wf()
    }

    /// Decides what to do about a tray pointer event, given what could be
    /// read from the window handle (`None` when the window could not be
    /// resolved, a legitimate transient state during startup).
    pub fn handle_tray_event(&self, window: Option<WindowSnapshot>, event: &TrayClick) -> (cmds:
        Vec<Command>)
        requires
            self.wf(),
            event.rect.wf(),
            window matches Option::Some(w) ==> w.wf(),
        ensures
            cmds@ == tray_commands(self.config, window, *event),
    {
        match window {
            Option::None => Vec::new(),
            Option::Some(w) => {
                if !event.is_toggle_click() {
                    Vec::new()
                } else if w.visible_or_default() {
                    let cmds: Vec<Command> = vec![Command::Hide];
                    proof {
                        assert(cmds@ =~= tray_commands(self.config, window, *event));
                    }
                    cmds
                } else if self.config.enable_positioning {
                    let scale: u32 = w.scale_or_default();
                    let p = compute_target_position(
                        &event.rect,
                        scale,
                        self.config.window_width,
                        self.config.gap,
                    );
                    let cmds: Vec<Command> = vec![
                        Command::SetPosition { x: p.x, y: p.y },
                        Command::Show,
                        Command::SetFocus,
                    ];
                    proof {
                        assert(cmds@ =~= tray_commands(self.config, window, *event));
                    }
                    cmds
                } else {
                    let cmds: Vec<Command> = vec![Command::Show, Command::SetFocus];
                    proof {
                        assert(cmds@ =~= tray_commands(self.config, window, *event));
                    }
                    cmds
                }
            },
        }
    }

    /// The controller's single entry point: dispatches a tagged event to
    /// the matching handler, so the whole state machine sits in one place.
    pub fn handle_event(&self, window: Option<WindowSnapshot>, event: &ControllerEvent) -> (cmds:
        Vec<Command>)
        requires
            self.wf(),
            event matches ControllerEvent::Tray(click) ==> click.rect.wf(),
            window matches Option::Some(w) ==> w.wf(),
        ensures
            cmds@ == event_commands(self.config, window, *event),
    {
        match event {
            ControllerEvent::Tray(click) => self.handle_tray_event(window, click),
            ControllerEvent::Focus(focused) => self.handle_focus_event(*focused),
        }
    }

    /// Decides what to do about a window focus change.
    pub fn handle_focus_event(&self, focused: bool) -> (cmds: Vec<Command>)
        ensures
            cmds@ == focus_commands(focused),
    {
        if focused {
            Vec::new()
        } else {
            let cmds: Vec<Command> = vec![Command::Hide];
            proof {
                assert(cmds@ =~= focus_commands(focused));
            }
            cmds
        }
    }

    /// The commands to issue once at startup, before the tray and focus
    /// subscriptions go live.
    pub fn startup(&self) -> (cmds: Vec<Command>)
        ensures
            cmds@ == startup_commands(self.config),
    {
        let cmds: Vec<Command> = vec![Command::Hide];
        proof {
            assert(cmds@ =~= startup_commands(self.config));
        }
        cmds
    }
}

} // verus!

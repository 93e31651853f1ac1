//! The visibility state machine, and the laws the controller obeys.
//!
//! [`next_visibility`] is the intended effect of one event on a window that
//! carries every command out; the lemmas at the bottom prove that the
//! command sequences of [`crate::controller`] drive a faithful window
//! exactly along this machine, and state the controller's laws: strict
//! alternation under toggle clicks, indifference to filtered events,
//! unconditional concealment on focus loss, and idempotence of concealment.

use vstd::prelude::*;

verus! {

use crate::commands::Command;
use crate::commands::apply_command;
use crate::commands::apply_commands;
use crate::controller::Config;
use crate::controller::WindowSnapshot;
use crate::controller::event_commands;
use crate::controller::focus_commands;
use crate::controller::startup_commands;
use crate::controller::tray_commands;
use crate::events::ControllerEvent;
use crate::events::TrayClick;
use crate::events::Visibility;
use crate::events::qualifies;

/// The opposite visibility.
pub open spec fn toggled(v: Visibility) -> Visibility {
    match v {
        Visibility::Hidden => Visibility::Visible,
        Visibility::Visible => Visibility::Hidden,
    }
}

/// The visibility a window should have after one event: a qualifying tray
/// click toggles it, losing focus conceals it, everything else leaves it
/// alone.
pub open spec fn next_visibility(v: Visibility, ev: ControllerEvent) -> Visibility {
    match ev {
        ControllerEvent::Tray(c) => if qualifies(c) {
            toggled(v)
        } else {
            v
        },
        ControllerEvent::Focus(focused) => if focused {
            v
        } else {
            Visibility::Hidden
        },
    }
}

/// The visibility after a whole event sequence, processed in order.
pub open spec fn run_events(v: Visibility, evs: Seq<ControllerEvent>) -> Visibility
    decreases evs.len(),
{
    if evs.len() == 0 {
        v
    } else {
        run_events(next_visibility(v, evs[0]), evs.subrange(1, evs.len() as int))
    }
}

/// Whether this event is a qualifying tray click, the one kind that
/// toggles the popover.
pub open spec fn is_toggle_event(ev: ControllerEvent) -> bool {
    ev matches ControllerEvent::Tray(c) && qualifies(c)
}

/// How many events of the sequence toggle the popover.
pub open spec fn toggle_count(evs: Seq<ControllerEvent>) -> nat
    decreases evs.len(),
{
    if evs.len() == 0 {
        0
    } else {
        (if is_toggle_event(evs[0]) {
            1nat
        } else {
            0nat
        }) + toggle_count(evs.subrange(1, evs.len() as int))
    }
}

/// The visibility a boolean visibility query stands for.
pub open spec fn visibility_of(visible: bool) -> Visibility {
    if visible {
        Visibility::Visible
    } else {
        Visibility::Hidden
    }
}

/// Toggle law: over any event sequence that contains no focus-lost event,
/// the final visibility is the starting one when the number of qualifying
/// tray clicks is even, and its opposite when it is odd. In particular,
/// starting from `Hidden`, qualifying clicks alternate the visibility
/// `Hidden`, `Visible`, `Hidden`, and so on, and filtered events in
/// between change nothing.
pub proof fn lemma_toggle_alternation(v: Visibility, evs: Seq<ControllerEvent>)
    requires
        forall|i: int| 0 <= i < evs.len() ==> #[trigger] evs[i] != ControllerEvent::Focus(false),
    ensures
        run_events(v, evs) == if toggle_count(evs) % 2 == 0 {
            v
        } else {
            toggled(v)
        },
    decreases evs.len(),
{
    if evs.len() > 0 {
        let rest = evs.subrange(1, evs.len() as int);
        assert(forall|i: int| 0 <= i < rest.len() ==> rest[i] == evs[i + 1]);
        lemma_toggle_alternation(next_visibility(v, evs[0]), rest);
    }
}

/// Filter law: a tray event whose button is not the left one, or whose
/// button did not come up, leaves the visibility unchanged.
pub proof fn lemma_filtered_click_changes_nothing(v: Visibility, c: TrayClick)
    requires
        !qualifies(c),
    ensures
        next_visibility(v, ControllerEvent::Tray(c)) == v,
{
}

/// Focus-lost law: whatever the state, losing focus conceals the window,
/// and losing focus again keeps it concealed.
pub proof fn lemma_focus_lost_conceals(v: Visibility)
    ensures
        next_visibility(v, ControllerEvent::Focus(false)) == Visibility::Hidden,
        next_visibility(
            next_visibility(v, ControllerEvent::Focus(false)),
            ControllerEvent::Focus(false),
        ) == Visibility::Hidden,
{
}

/// Idempotence law: a `Hide` command on an already concealed window is a
/// harmless no-op — there is no failure to signal (commands carry none)
/// and the state does not change. This is what makes the focus-lost
/// notification triggered by the controller's own `Hide` harmless.
pub proof fn lemma_conceal_idempotent(v: Visibility)
    ensures
        apply_command(Visibility::Hidden, Command::Hide) == Visibility::Hidden,
        apply_command(apply_command(v, Command::Hide), Command::Hide) == apply_command(
            v,
            Command::Hide,
        ),
{
}

/// A window that carries out the tray-event commands lands exactly where
/// the state machine says: the commands of `tray_commands`, applied to the
/// visibility the snapshot reported, produce `next_visibility` of the tray
/// event.
pub proof fn lemma_tray_commands_follow_machine(cfg: Config, w: WindowSnapshot, ev: TrayClick)
    ensures
        apply_commands(
            visibility_of(w.effective_visible()),
            tray_commands(cfg, Option::Some(w), ev),
        ) == next_visibility(visibility_of(w.effective_visible()), ControllerEvent::Tray(ev)),
{
    let v = visibility_of(w.effective_visible());
    let cmds = tray_commands(cfg, Option::Some(w), ev);
    if !qualifies(ev) {
        assert(cmds.len() == 0);
    } else if w.effective_visible() {
        lemma_apply_one(v, cmds);
    } else if cfg.enable_positioning {
        lemma_apply_three(v, cmds);
    } else {
        lemma_apply_two(v, cmds);
    }
}

/// The controller's single entry point drives the machine: whatever the
/// event, the commands it returns, applied to the visibility the snapshot
/// reported, produce exactly `next_visibility` of that event.
pub proof fn lemma_event_commands_follow_machine(cfg: Config, w: WindowSnapshot, ev: ControllerEvent)
    ensures
        apply_commands(
            visibility_of(w.effective_visible()),
            event_commands(cfg, Option::Some(w), ev),
        ) == next_visibility(visibility_of(w.effective_visible()), ev),
{
    match ev {
        ControllerEvent::Tray(click) => lemma_tray_commands_follow_machine(cfg, w, click),
        ControllerEvent::Focus(focused) => lemma_focus_commands_follow_machine(
            visibility_of(w.effective_visible()),
            focused,
        ),
    }
}

/// With no resolvable window, a tray event issues no command at all, so
/// nothing changes.
pub proof fn lemma_no_window_no_commands(cfg: Config, v: Visibility, ev: TrayClick)
    ensures
        tray_commands(cfg, Option::None, ev).len() == 0,
        apply_commands(v, tray_commands(cfg, Option::None, ev)) == v,
{
}

/// A window that carries out the focus-event commands lands exactly where
/// the state machine says.
pub proof fn lemma_focus_commands_follow_machine(v: Visibility, focused: bool)
    ensures
        apply_commands(v, focus_commands(focused)) == next_visibility(
            v,
            ControllerEvent::Focus(focused),
        ),
{
    if !focused {
        lemma_apply_one(v, focus_commands(focused));
    }
}

/// Startup law: the startup sequence is exactly one `Hide` command, and a
/// window that carries it out is concealed, whatever state it launched in.
pub proof fn lemma_startup_conceals(cfg: Config, v: Visibility)
    ensures
        startup_commands(cfg) == seq![Command::Hide],
        apply_commands(v, startup_commands(cfg)) == Visibility::Hidden,
{
    lemma_apply_one(v, startup_commands(cfg));
}

proof fn lemma_apply_one(v: Visibility, cmds: Seq<Command>)
    requires
        cmds.len() == 1,
    ensures
        apply_commands(v, cmds) == apply_command(v, cmds[0]),
{
    let rest = cmds.subrange(1, cmds.len() as int);
    assert(rest =~= Seq::<Command>::empty());
    assert(apply_commands(v, cmds) == apply_commands(apply_command(v, cmds[0]), rest));
    assert(apply_commands(apply_command(v, cmds[0]), rest) == apply_command(v, cmds[0]));
}

proof fn lemma_apply_two(v: Visibility, cmds: Seq<Command>)
    requires
        cmds.len() == 2,
    ensures
        apply_commands(v, cmds) == apply_command(apply_command(v, cmds[0]), cmds[1]),
{
    let rest = cmds.subrange(1, 2);
    assert(rest[0] == cmds[1]);
    lemma_apply_one(apply_command(v, cmds[0]), rest);
}

proof fn lemma_apply_three(v: Visibility, cmds: Seq<Command>)
    requires
        cmds.len() == 3,
    ensures
        apply_commands(v, cmds) == apply_command(
            apply_command(apply_command(v, cmds[0]), cmds[1]),
            cmds[2],
        ),
{
    let rest = cmds.subrange(1, 3);
    assert(rest[0] == cmds[1]);
    assert(rest[1] == cmds[2]);
    lemma_apply_two(apply_command(v, cmds[0]), rest);
}

} // verus!

//! The commands the controller issues against the window service.
//!
//! Commands are fire-and-forget: the host carries each one out against the
//! toolkit and discards any failure. `apply_command` is the reference model
//! of a window that carries them out faithfully; the state-machine laws are
//! stated against it.

use vstd::prelude::*;

verus! {

use crate::events::Visibility;

/// One window-service call, in the order the host must issue them.
#[derive(Clone, Copy, Debug, PartialEq, Eq, Structural)]
pub enum Command {
    /// Conceal the window.
    Hide,
    /// Move the window to this physical pixel position.
    SetPosition { x: i64, y: i64 },
    /// Put the window on screen.
    Show,
    /// Give the window input focus.
    SetFocus,
}

/// How one command changes the visibility of a window that carries it out:
/// `Hide` conceals, `Show` reveals, positioning and focusing leave
/// visibility alone.
pub open spec fn apply_command(v: Visibility, c: Command) -> Visibility {
    match c {
        Command::Hide => Visibility::Hidden,
        Command::Show => Visibility::Visible,
        Command::SetPosition { .. } => v,
        Command::SetFocus => v,
    }
}

/// The visibility after a whole command sequence is carried out in order.
pub open spec fn apply_commands(v: Visibility, cmds: Seq<Command>) -> Visibility
    decreases cmds.len(),
{
    if cmds.len() == 0 {
        v
    } else {
        apply_commands(apply_command(v, cmds[0]), cmds.subrange(1, cmds.len() as int))
    }
}

impl Visibility {
    /// The visibility after one command, computed.
    pub fn after_command(self, c: &Command) -> (r: Visibility)
        ensures
            r == apply_command(self, *c),
    {
        match c {
            Command::Hide => Visibility::Hidden,
            Command::Show => Visibility::Visible,
            Command::SetPosition { .. } => self,
            Command::SetFocus => self,
        }
    }

    /// The visibility after a command sequence, computed in order.
    pub fn after_commands(self, cmds: &Vec<Command>) -> (r: Visibility)
        ensures
            r == apply_commands(self, cmds@),
    {
        let mut current: Visibility = self;
        let mut i: usize = 0;
        proof {
            assert(cmds@.subrange(0, cmds@.len() as int) =~= cmds@);
        }
        while i < cmds.len()
            invariant
                i <= cmds.len(),
                apply_commands(self, cmds@) == apply_commands(current, cmds@.subrange(i as int, cmds@.len() as int)),
            decreases cmds.len() - i,
        {
            proof {
                let rest = cmds@.subrange(i as int, cmds@.len() as int);
                assert(rest.subrange(1, rest.len() as int)
                    =~= cmds@.subrange(i + 1, cmds@.len() as int));
            }
            current = current.after_command(&cmds[i]);
            i = i + 1;
        }
        proof {
            assert(cmds@.subrange(cmds@.len() as int, cmds@.len() as int) =~= Seq::<Command>::empty());
        }
        current
    }
}

} // verus!

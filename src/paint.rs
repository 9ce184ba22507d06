use vstd::prelude::*;

verus! {

/// The message that asks a window to repaint its client area.
pub const WM_PAINT: u32 = 0x000F;

/// The message that asks a window to close.
pub const WM_CLOSE: u32 = 0x0010;

/// The message sent while a window is being destroyed.
pub const WM_DESTROY: u32 = 0x0002;

/// What the window procedure does with one message.
#[derive(Debug, Clone, Copy, PartialEq, Eq, Structural)]
pub enum MessageAction {
    /// Run a paint session.
    Paint,
    /// Destroy the native window.
    DestroyWindow,
    /// Post the quit signal that ends the window's message queue.
    PostQuit,
    /// Hand the message to the platform's default procedure.
    Default,
}

pub open spec fn action_for(msg: u32) -> MessageAction {
    if msg == WM_PAINT {
        MessageAction::Paint
    } else if msg == WM_CLOSE {
        MessageAction::DestroyWindow
    } else if msg == WM_DESTROY {
        MessageAction::PostQuit
    } else {
        MessageAction::Default
    }
}

/// Chooses the handling of one window message: paint, close turns into
/// destruction, destruction into the end of the queue, the rest goes to the default.
pub fn dispatch(msg: u32) -> (a: MessageAction)
    ensures
        a == action_for(msg),
{
    if msg == WM_PAINT {
        MessageAction::Paint
    } else if msg == WM_CLOSE {
        MessageAction::DestroyWindow
    } else if msg == WM_DESTROY {
        MessageAction::PostQuit
    } else {
        MessageAction::Default
    }
}

/// A drawing resource that a paint pass acquires and must give back.
#[derive(Debug, Clone, Copy, PartialEq, Eq, Structural)]
pub enum Resource {
    /// The window's device context.
    WindowDc,
    /// The memory device context compatible with it.
    MemoryDc,
    /// The native bitmap made from the thumbnail.
    NativeBitmap,
}

/// One thing that the caller does for a paint pass.
#[derive(Debug, Clone, Copy, PartialEq, Eq, Structural)]
pub enum PaintCommand {
    /// Acquire the window's device context.
    GetDc,
    /// Create a memory device context compatible with it.
    CreateMemoryDc,
    /// Look up the thumbnail that the window shows.
    FetchThumbnail,
    /// Turn the thumbnail into a native bitmap.
    ProjectBitmap,
    /// Select the bitmap into the memory context and copy it to the window at (0, 0).
    Blit,
    /// Give a resource back.
    Release(Resource),
    /// End the pass and report the message handled; `drawn` tells whether the copy succeeded.
    Finish { drawn: bool },
}

/// Where a paint pass stands: which command's outcome it waits for.
#[derive(Debug, Clone, Copy, PartialEq, Eq, Structural)]
pub enum PaintStage {
    AwaitDc,
    AwaitMemoryDc,
    AwaitThumbnail,
    AwaitBitmap,
    AwaitBlit,
    Finished,
}

/// The resources held while the pass waits at a stage, in the order they were acquired.
pub open spec fn held_at(stage: PaintStage) -> Seq<Resource> {
    match stage {
        PaintStage::AwaitDc => seq![],
        PaintStage::AwaitMemoryDc => seq![Resource::WindowDc],
        PaintStage::AwaitThumbnail => seq![Resource::WindowDc, Resource::MemoryDc],
        PaintStage::AwaitBitmap => seq![Resource::WindowDc, Resource::MemoryDc],
        PaintStage::AwaitBlit => seq![Resource::WindowDc, Resource::MemoryDc, Resource::NativeBitmap],
        PaintStage::Finished => seq![],
    }
}

/// The resource that a successful outcome at this stage hands over.
pub open spec fn acquired_at(stage: PaintStage, ok: bool) -> Seq<Resource> {
    if !ok {
        seq![]
    } else {
        match stage {
            PaintStage::AwaitDc => seq![Resource::WindowDc],
            PaintStage::AwaitMemoryDc => seq![Resource::MemoryDc],
            PaintStage::AwaitBitmap => seq![Resource::NativeBitmap],
            _ => seq![],
        }
    }
}

/// Release commands for the given resources, last acquired first.
pub open spec fn releases(held: Seq<Resource>) -> Seq<PaintCommand>
    decreases held.len(),
{
    if held.len() == 0 {
        seq![]
    } else {
        seq![PaintCommand::Release(held.last())] + releases(held.drop_last())
    }
}

/// The resources that a list of commands gives back, in the order given back.
pub open spec fn released_by(cmds: Seq<PaintCommand>) -> Seq<Resource>
    decreases cmds.len(),
{
    if cmds.len() == 0 {
        seq![]
    } else {
        let rest = released_by(cmds.drop_first());
        match cmds[0] {
            PaintCommand::Release(r) => seq![r] + rest,
            _ => rest,
        }
    }
}

/// The stage after the outcome `ok` of the command that `stage` waits for.
pub open spec fn next_stage(stage: PaintStage, ok: bool) -> PaintStage {
    match stage {
        PaintStage::AwaitDc => if ok { PaintStage::AwaitMemoryDc } else { PaintStage::Finished },
        PaintStage::AwaitMemoryDc => if ok { PaintStage::AwaitThumbnail } else { PaintStage::Finished },
        PaintStage::AwaitThumbnail => if ok { PaintStage::AwaitBitmap } else { PaintStage::Finished },
        PaintStage::AwaitBitmap => if ok { PaintStage::AwaitBlit } else { PaintStage::Finished },
        PaintStage::AwaitBlit => PaintStage::Finished,
        PaintStage::Finished => PaintStage::Finished,
    }
}

/// The commands issued after the outcome `ok` at `stage`: the next acquisition, or
/// on failure and after the copy, every held resource given back and the end.
pub open spec fn next_commands(stage: PaintStage, ok: bool) -> Seq<PaintCommand> {
    match stage {
        PaintStage::Finished => seq![],
        PaintStage::AwaitBlit => releases(held_at(stage)) + seq![PaintCommand::Finish { drawn: ok }],
        _ => if !ok {
            releases(held_at(stage)) + seq![PaintCommand::Finish { drawn: false }]
        } else {
            match stage {
                PaintStage::AwaitDc => seq![PaintCommand::CreateMemoryDc],
                PaintStage::AwaitMemoryDc => seq![PaintCommand::FetchThumbnail],
                PaintStage::AwaitThumbnail => seq![PaintCommand::ProjectBitmap],
                _ => seq![PaintCommand::Blit],
            }
        },
    }
}

/// One paint pass of a window, from acquiring its device context to giving back
/// everything it acquired.
#[derive(Debug)]
pub struct PaintSession {
    pub stage: PaintStage,
}

impl PaintSession {
    /// Starts a pass; the caller first runs `PaintCommand::GetDc`.
    pub fn new() -> (s: PaintSession)
        ensures
            s.stage == PaintStage::AwaitDc,
            held_at(s.stage) == Seq::<Resource>::empty(),
    {
        PaintSession { stage: PaintStage::AwaitDc }
    }

    /// The command that opens every pass.
    pub fn first_command(&self) -> (c: PaintCommand)
        ensures
            c == PaintCommand::GetDc,
    {
        PaintCommand::GetDc
    }

    /// Takes the outcome of the command the pass waits for and returns the commands
    /// to run next. Every resource acquired so far is either still held or given back
    /// by the returned commands, and a finished pass holds nothing.
    pub fn on_outcome(&mut self, ok: bool) -> (cmds: Vec<PaintCommand>)
        ensures
            final(self).stage == next_stage(old(self).stage, ok),
            cmds@ == next_commands(old(self).stage, ok),
            held_at(old(self).stage) + acquired_at(old(self).stage, ok)
                == held_at(final(self).stage) + released_by(cmds@).reverse(),
            final(self).stage == PaintStage::Finished ==> held_at(final(self).stage).len() == 0,
    {
        let stage = self.stage;
        let mut cmds: Vec<PaintCommand> = Vec::new();
        match stage {
            PaintStage::Finished => {},
            PaintStage::AwaitBlit => {
                cmds.push(PaintCommand::Release(Resource::NativeBitmap));
                cmds.push(PaintCommand::Release(Resource::MemoryDc));
                cmds.push(PaintCommand::Release(Resource::WindowDc));
                cmds.push(PaintCommand::Finish { drawn: ok });
            },
            _ => {
                if !ok {
                    if stage != PaintStage::AwaitDc {
                        if stage != PaintStage::AwaitMemoryDc {
                            cmds.push(PaintCommand::Release(Resource::MemoryDc));
                        }
                        cmds.push(PaintCommand::Release(Resource::WindowDc));
                    }
                    cmds.push(PaintCommand::Finish { drawn: false });
                } else {
                    let c = match stage {
                        PaintStage::AwaitDc => PaintCommand::CreateMemoryDc,
                        PaintStage::AwaitMemoryDc => PaintCommand::FetchThumbnail,
                        PaintStage::AwaitThumbnail => PaintCommand::ProjectBitmap,
                        _ => PaintCommand::Blit,
                    };
                    cmds.push(c);
                }
            },
        }
        self.stage = match stage {
            PaintStage::AwaitDc => if ok { PaintStage::AwaitMemoryDc } else { PaintStage::Finished },
            PaintStage::AwaitMemoryDc => if ok { PaintStage::AwaitThumbnail } else { PaintStage::Finished },
            PaintStage::AwaitThumbnail => if ok { PaintStage::AwaitBitmap } else { PaintStage::Finished },
            PaintStage::AwaitBitmap => if ok { PaintStage::AwaitBlit } else { PaintStage::Finished },
            _ => PaintStage::Finished,
        };
        proof {
            reveal_with_fuel(releases, 4);
            reveal_with_fuel(released_by, 5);
            assert(cmds@ =~= next_commands(stage, ok));
            assert(held_at(stage) + acquired_at(stage, ok) =~= held_at(self.stage) + released_by(cmds@).reverse());
        }
        cmds
    }
}

} // verus!

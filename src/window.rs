use vstd::prelude::*;
use vstd::string::StringExecFns;
use crate::color::{color_ref, make_color_ref, KEY_LEVEL};
use crate::error::GhoastError;
use crate::props::SpectreProps;

verus! {

/// Width and height of every toast window, in pixels.
pub const TOAST_SIZE: i32 = 300;

/// The registered window class, shared by every toast of the process.
#[derive(Debug, Clone)]
pub struct GhoastClass {
    pub atom: u16,
    pub class_name: String,
}

/// The name the toast window class is registered under.
pub open spec fn class_name_spec() -> Seq<char> {
    "Ghoast"@
}

impl GhoastClass {
    /// The class as the platform's registration answered: an atom of zero means the
    /// registration failed, and no toast can be shown.
    pub fn new(atom: u16) -> (r: Result<GhoastClass, GhoastError>)
        ensures
            r is Ok <==> atom != 0,
            r matches Ok(c) ==> c.atom == atom && c.class_name@ == class_name_spec(),
            r is Err ==> r == Err::<GhoastClass, GhoastError>(GhoastError::ClassRegistrationFailed),
    {
        if atom == 0 {
            Err(GhoastError::ClassRegistrationFailed)
        } else {
            Ok(GhoastClass { atom, class_name: String::from_str("Ghoast") })
        }
    }
}

/// Where a toast window stands in its life.
#[derive(Debug, Clone, Copy, PartialEq, Eq, Structural)]
pub enum Stage {
    Created,
    Visible,
    FadingOut,
    Closing,
    Destroyed,
}

/// A platform call that the window's owner makes on the model's behalf.
#[derive(Debug, Clone, Copy, PartialEq, Eq, Structural)]
pub enum WindowCommand {
    /// Make the window visible.
    Show,
    /// Paint it at once.
    Update,
    /// Set the layered window's opacity against the colour key.
    SetTransparency { key: u32, alpha: u8 },
    /// Retrieve and dispatch one message, handing the outcome to `message_loop`.
    Pump,
}

/// One toast: the record it shows, whether its window still exists, where it stands,
/// and the opacity last applied to it.
#[derive(Debug)]
pub struct Ghoast {
    pub title: String,
    pub c_name: String,
    pub is_good: bool,
    pub props: SpectreProps,
    pub stage: Stage,
    pub alpha: Option<u8>,
}

/// A toast as plain values.
pub struct GhoastView {
    pub title: Seq<char>,
    pub c_name: Seq<char>,
    pub is_good: bool,
    pub stage: Stage,
    pub alpha: Option<u8>,
}

impl View for Ghoast {
    type V = GhoastView;

    open spec fn view(&self) -> GhoastView {
        GhoastView {
            title: self.title@,
            c_name: self.c_name@,
            is_good: self.is_good,
            stage: self.stage,
            alpha: self.alpha,
        }
    }
}

impl Ghoast {
    /// The window exists exactly until it is destroyed; it has an opacity while shown
    /// or fading, and none before it is shown or once it is destroyed.
    pub open spec fn wf(&self) -> bool {
        &&& (self.is_good <==> self.stage != Stage::Destroyed)
        &&& (self.stage == Stage::Visible || self.stage == Stage::FadingOut) ==> self.alpha.is_some()
        &&& (self.stage == Stage::Created || self.stage == Stage::Destroyed) ==> self.alpha.is_none()
    }

    /// A toast just made for `title`, not yet shown.
    pub open spec fn is_fresh(&self, title: Seq<char>, props: SpectreProps) -> bool {
        &&& self@ == (GhoastView {
            title,
            c_name: class_name_spec(),
            is_good: true,
            stage: Stage::Created,
            alpha: None,
        })
        &&& self.props == props
    }

    /// The toast once its message queue has ended: its window is gone.
    pub open spec fn closed(self) -> Ghoast {
        Ghoast { is_good: false, stage: Stage::Destroyed, alpha: None, ..self }
    }

    /// The toast once a close was asked of a live window.
    pub open spec fn closing(self) -> Ghoast {
        Ghoast { stage: Stage::Closing, ..self }
    }

    /// What `destruct` leaves: a close is asked only of a live window.
    pub open spec fn after_destruct(self) -> Ghoast {
        if self.is_good {
            self.closing()
        } else {
            self
        }
    }

    /// A toast for `props`, titled `title`.
    pub fn new(title: &str, props: SpectreProps) -> (r: Ghoast)
        ensures
            r.is_fresh(title@, props),
            r.wf(),
    {
        Ghoast {
            title: title.to_owned(),
            c_name: String::from_str("Ghoast"),
            is_good: true,
            props,
            stage: Stage::Created,
            alpha: None,
        }
    }

    /// Shows a new toast: it becomes visible, is painted, and gets the first opacity
    /// against the grey colour key; then one message is pumped. A toast that is not
    /// new is left as it is, with nothing to do.
    pub fn init(&mut self) -> (cmds: Vec<WindowCommand>)
        requires
            old(self).wf(),
        ensures
            final(self).wf(),
            old(self).stage == Stage::Created ==> {
                &&& *final(self) == (Ghoast { stage: Stage::Visible, alpha: Some(KEY_LEVEL), ..*old(self) })
                &&& cmds@ == seq![
                    WindowCommand::Show,
                    WindowCommand::Update,
                    WindowCommand::SetTransparency {
                        key: color_ref(KEY_LEVEL, KEY_LEVEL, KEY_LEVEL),
                        alpha: KEY_LEVEL,
                    },
                    WindowCommand::Pump,
                ]
            },
            old(self).stage != Stage::Created ==> *final(self) == *old(self) && cmds@.len() == 0,
    {
        let mut cmds: Vec<WindowCommand> = Vec::new();
        if self.stage == Stage::Created {
            self.stage = Stage::Visible;
            self.alpha = Some(KEY_LEVEL);
            let key = make_color_ref(KEY_LEVEL, KEY_LEVEL, KEY_LEVEL);
            cmds.push(WindowCommand::Show);
            cmds.push(WindowCommand::Update);
            cmds.push(WindowCommand::SetTransparency { key, alpha: KEY_LEVEL });
            cmds.push(WindowCommand::Pump);
        }
        proof {
            assert(cmds@.len() == 0 || cmds@ =~= seq![
                WindowCommand::Show,
                WindowCommand::Update,
                WindowCommand::SetTransparency {
                    key: color_ref(KEY_LEVEL, KEY_LEVEL, KEY_LEVEL),
                    alpha: KEY_LEVEL,
                },
                WindowCommand::Pump,
            ]);
        }
        cmds
    }

    /// Takes the outcome of one pump: `received` is false once the platform reports the
    /// queue gone, and then the window counts as destroyed. Returns `received`.
    pub fn message_loop(&mut self, received: bool) -> (r: bool)
        requires
            old(self).wf(),
        ensures
            r == received,
            final(self).wf(),
            *final(self) == if received { *old(self) } else { old(self).closed() },
    {
        if !received {
            self.is_good = false;
            self.stage = Stage::Destroyed;
            self.alpha = None;
        }
        received
    }

    /// Asks a live window to close. Returns whether the owner must send it the close
    /// request and then pump until `message_loop` reports the queue gone; on a window
    /// already destroyed it returns false and changes nothing.
    pub fn destruct(&mut self) -> (r: bool)
        requires
            old(self).wf(),
        ensures
            r == old(self).is_good,
            final(self).wf(),
            *final(self) == old(self).after_destruct(),
    {
        if self.is_good {
            self.stage = Stage::Closing;
            true
        } else {
            false
        }
    }

    /// The opacity last applied, while the window is shown; `None` before it is shown
    /// and once it is destroyed.
    pub fn get_current_alpha(&self) -> (r: Option<u8>)
        requires
            self.wf(),
        ensures
            r == self.alpha,
            r.is_some() ==> self.is_good && self.stage != Stage::Created,
            (self.stage == Stage::Visible || self.stage == Stage::FadingOut) ==> r.is_some(),
    {
        self.alpha
    }

    /// Starts fading the toast out over `total_nanos` nanoseconds from its current
    /// opacity, one unit per step. Fails, and changes nothing, where the opacity is
    /// unknown or already zero.
    pub fn fade_out(&mut self, total_nanos: u64) -> (r: Result<FadeSession, GhoastError>)
        requires
            old(self).wf(),
        ensures
            final(self).wf(),
            r is Ok <==> (old(self).alpha matches Some(a) && a > 0),
            r matches Ok(s) ==> ({
                &&& s.is_start(old(self).alpha.unwrap(), total_nanos)
                &&& *final(self) == (Ghoast { stage: Stage::FadingOut, ..*old(self) })
                &&& s.drives(*final(self))
            }),
            r is Err ==> r == Err::<FadeSession, GhoastError>(GhoastError::PreconditionFailed)
                && *final(self) == *old(self),
    {
        match self.get_current_alpha() {
            Some(a) => {
                if a == 0 {
                    return Err(GhoastError::PreconditionFailed);
                }
                self.stage = Stage::FadingOut;
                Ok(FadeSession {
                    start_alpha: a,
                    alpha: a,
                    steps: 0,
                    total_nanos,
                    interval_nanos: total_nanos / (a as u64),
                    done: false,
                })
            },
            None => Err(GhoastError::PreconditionFailed),
        }
    }
}

/// What the fade loop does after one pump.
#[derive(Debug, Clone, Copy, PartialEq, Eq, Structural)]
pub enum FadeAction {
    /// The fade is over; nothing more to do.
    Stop,
    /// The opacity reached zero: close the window (see `Ghoast::destruct`).
    Destruct,
    /// Apply the opacity, ask for a repaint, then sleep.
    Step { key: u32, alpha: u8, sleep_nanos: u64 },
}

/// One fade of one toast: from `start_alpha` down by one unit per step, with an even
/// sleep between steps.
#[derive(Debug, Clone, Copy, PartialEq, Eq, Structural)]
pub struct FadeSession {
    pub start_alpha: u8,
    pub alpha: u8,
    pub steps: u8,
    pub total_nanos: u64,
    pub interval_nanos: u64,
    pub done: bool,
}

impl FadeSession {
    /// Each step takes one unit of opacity; the sleep splits the whole duration evenly
    /// over the starting opacity.
    pub open spec fn wf(&self) -> bool {
        &&& self.start_alpha >= 1
        &&& self.steps + self.alpha == self.start_alpha
        &&& !self.done ==> self.alpha >= 1
        &&& self.interval_nanos == self.total_nanos / (self.start_alpha as u64)
    }

    /// A session that has not stepped yet, from `alpha` over `total_nanos`.
    pub open spec fn is_start(&self, alpha: u8, total_nanos: u64) -> bool {
        &&& self.wf()
        &&& self.start_alpha == alpha
        &&& self.alpha == alpha
        &&& self.steps == 0
        &&& self.total_nanos == total_nanos
        &&& !self.done
    }

    /// While the session runs, its window lives, fades, and shows the session's opacity.
    pub open spec fn drives(&self, window: Ghoast) -> bool {
        !self.done ==> {
            &&& window.is_good
            &&& window.stage == Stage::FadingOut
            &&& window.alpha == Some(self.alpha)
        }
    }

    /// The session after a pump whose outcome is `received`.
    pub open spec fn next(self, received: bool) -> FadeSession {
        if self.done {
            self
        } else if !received {
            FadeSession { done: true, ..self }
        } else {
            FadeSession {
                alpha: (self.alpha - 1) as u8,
                steps: (self.steps + 1) as u8,
                done: self.alpha == 1,
                ..self
            }
        }
    }

    /// What the loop does after a pump whose outcome is `received`.
    pub open spec fn action(self, received: bool) -> FadeAction {
        if self.done || !received {
            FadeAction::Stop
        } else if self.alpha == 1 {
            FadeAction::Destruct
        } else {
            FadeAction::Step {
                key: color_ref(KEY_LEVEL, KEY_LEVEL, KEY_LEVEL),
                alpha: (self.alpha - 1) as u8,
                sleep_nanos: self.interval_nanos,
            }
        }
    }

    /// The window after a pump whose outcome is `received`.
    pub open spec fn window_after(self, window: Ghoast, received: bool) -> Ghoast {
        if self.done {
            window
        } else if !received {
            window.closed()
        } else if self.alpha == 1 {
            window.after_destruct()
        } else {
            Ghoast { alpha: Some((self.alpha - 1) as u8), ..window }
        }
    }

    /// Takes the outcome of one pump of `window`. A closed queue ends the fade at once;
    /// otherwise the opacity drops by one, and at zero the window is closed.
    pub fn advance(&mut self, window: &mut Ghoast, received: bool) -> (a: FadeAction)
        requires
            old(self).wf(),
            old(window).wf(),
            old(self).drives(*old(window)),
        ensures
            *final(self) == old(self).next(received),
            a == old(self).action(received),
            *final(window) == old(self).window_after(*old(window), received),
            final(self).wf(),
            final(window).wf(),
            final(self).drives(*final(window)),
    {
        if self.done {
            return FadeAction::Stop;
        }
        if !window.message_loop(received) {
            self.done = true;
            return FadeAction::Stop;
        }
        self.alpha = self.alpha - 1;
        self.steps = self.steps + 1;
        if self.alpha == 0 {
            self.done = true;
            window.destruct();
            FadeAction::Destruct
        } else {
            window.alpha = Some(self.alpha);
            FadeAction::Step {
                key: make_color_ref(KEY_LEVEL, KEY_LEVEL, KEY_LEVEL),
                alpha: self.alpha,
                sleep_nanos: self.interval_nanos,
            }
        }
    }
}

} // verus!

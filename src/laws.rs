use vstd::prelude::*;
use vstd::arithmetic::div_mod::{lemma_fundamental_div_mod, lemma_mod_pos_bound};
use crate::color::{color_ref, KEY_LEVEL};
use crate::props::SpectreProps;
use crate::window::{FadeAction, FadeSession, Ghoast, Stage};

verus! {

/// The session after `n` pumps that each received a message.
pub open spec fn run_received(s: FadeSession, n: nat) -> FadeSession
    decreases n,
{
    if n == 0 {
        s
    } else {
        run_received(s, (n - 1) as nat).next(true)
    }
}

/// Two toasts made for the same title and record are alike in every part, and a toast
/// that is closed right after it is made, once its queue has ended, holds no window
/// and no opacity: nothing of it stands in the way of making the next one.
pub proof fn lemma_create_destroy_recreate(w1: Ghoast, w2: Ghoast, title: Seq<char>, props: SpectreProps)
    requires
        w1.is_fresh(title, props),
        w2.is_fresh(title, props),
    ensures
        w1@ == w2@,
        w1.props == w2.props,
        w1.is_good && w1.after_destruct().stage == Stage::Closing,
        ({
            let gone = w1.after_destruct().closed();
            &&& gone.wf()
            &&& !gone.is_good
            &&& gone.stage == Stage::Destroyed
            &&& gone.alpha.is_none()
        }),
{
}

/// A fade that starts at opacity `A` takes exactly `A` steps of one unit before the
/// window is closed: after `n` received pumps the opacity is `A - n`; the pumps before
/// the last apply the opacities `A - 1` down to `1`, each followed by the same sleep,
/// and the `A`-th closes the window. The sleep is the duration split evenly over `A`
/// steps, so `A` sleeps come to the whole duration less under `A` nanoseconds.
pub proof fn lemma_fade_steps(s: FadeSession, n: nat)
    requires
        s.wf(),
        s.steps == 0,
        !s.done,
        n <= s.start_alpha,
    ensures
        run_received(s, n).wf(),
        run_received(s, n).steps == n,
        run_received(s, n).alpha == s.start_alpha - n,
        run_received(s, n).done <==> n == s.start_alpha,
        n < s.start_alpha ==> run_received(s, n).action(true) == if n + 1 < s.start_alpha {
            FadeAction::Step {
                key: color_ref(KEY_LEVEL, KEY_LEVEL, KEY_LEVEL),
                alpha: (s.start_alpha - n - 1) as u8,
                sleep_nanos: s.interval_nanos,
            }
        } else {
            FadeAction::Destruct
        },
        s.interval_nanos * s.start_alpha <= s.total_nanos,
        s.total_nanos < s.interval_nanos * s.start_alpha + s.start_alpha,
    decreases n,
{
    if n > 0 {
        lemma_fade_steps(s, (n - 1) as nat);
    }
    let a = s.start_alpha as int;
    let t = s.total_nanos as int;
    lemma_fundamental_div_mod(t, a);
    lemma_mod_pos_bound(t, a);
    assert(s.interval_nanos as int == t / a);
    assert(s.interval_nanos * s.start_alpha == a * (t / a)) by (nonlinear_arith)
        requires
            s.interval_nanos as int == t / a,
            a == s.start_alpha,
    ;
}

/// Once a pump finds the queue closed, the fade ends in that same iteration: it
/// neither applies an opacity nor closes the window, then or at any later pump, and
/// the window counts as destroyed.
pub proof fn lemma_closed_queue_ends_fade(s: FadeSession, w: Ghoast, later: bool)
    requires
        s.wf(),
        w.wf(),
        s.drives(w),
    ensures
        s.action(false) == FadeAction::Stop,
        s.next(false).done,
        s.next(false).action(later) == FadeAction::Stop,
        s.next(false).next(later) == s.next(false),
        !s.done ==> s.window_after(w, false) == w.closed(),
        !s.done ==> !s.window_after(w, false).is_good,
        s.next(false).window_after(s.window_after(w, false), later) == s.window_after(w, false),
{
}

/// Closing a toast a second time is harmless: once the first close has run its queue
/// to the end, a second `destruct` asks for nothing and changes nothing.
pub proof fn lemma_destruct_twice(w: Ghoast)
    requires
        w.wf(),
    ensures
        ({
            let gone = w.after_destruct().closed();
            &&& !gone.is_good
            &&& gone.after_destruct() == gone
            &&& gone.alpha.is_none()
        }),
{
}

} // verus!

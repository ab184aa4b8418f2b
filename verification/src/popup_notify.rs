//! Standalone notification popups: the auto-close countdown shown in the title
//! bar, the popup's placement, and the registry of notification threads.

use vstd::prelude::*;
use vstd::string::StringExecFns;

use crate::text::{decimal, push_decimal, string_of};
use crate::win32::RECT;

verus! {

/// Timer ID used for the auto-close countdown timer.
pub const TIMER_ID_AUTOCLOSE: usize = 1;

/// Interval of the countdown timer, in milliseconds.
pub const TIMER_INTERVAL_MS: u32 = 100;

/// Default notification window width at 96 DPI (in pixels).
pub const NOTIFY_WIDTH_96DPI: i32 = 364;

/// Default notification window height at 96 DPI (in pixels).
pub const NOTIFY_HEIGHT_96DPI: i32 = 109;

/// Whole seconds left, rounded up, when `remaining_ms` milliseconds remain.
pub open spec fn seconds_left(remaining_ms: nat) -> nat {
    ((remaining_ms + 999) / 1000) as nat
}

/// The title bar text while a countdown runs: the seconds left, a dash and
/// the original title.
pub open spec fn countdown_caption(secs: nat, title: Seq<char>) -> Seq<char> {
    decimal(secs) + " - "@ + title
}

/// What the window does on a tick of the countdown timer.
pub enum TimerAction {
    /// The timeout has expired: stop the timer and destroy the window.
    Close,
    /// The seconds left changed: show this new title.
    Retitle(String),
    /// Nothing to change.
    Keep,
}

/// The auto-close state of a notification window.
pub struct Countdown {
    /// The window title before the countdown prefix.
    pub original_title: String,
    /// Auto-close timeout in milliseconds; `0` means no auto-close.
    pub timeout_ms: u64,
    /// The seconds left that the title shows now.
    pub last_secs: u64,
}

/// `u64::div_ceil(remaining_ms, 1000)`.
fn ceil_seconds(remaining_ms: u64) -> (r: u64)
    ensures
        r == seconds_left(remaining_ms as nat),
{
    let whole = remaining_ms / 1000;
    if remaining_ms % 1000 != 0 {
        whole + 1
    } else {
        whole
    }
}

/// The caption `"{secs} - {title}"`.
fn caption_text(secs: u64, title: &String) -> (r: String)
    ensures
        r@ == countdown_caption(secs as nat, title@),
{
    let mut digits: Vec<char> = Vec::new();
    push_decimal(&mut digits, secs as u128);
    let mut text = string_of(&digits);
    text.append(" - ");
    text.append(title.as_str());
    text
}

impl Countdown {
    /// The countdown of a window titled `title` that closes after `timeout_ms`
    /// milliseconds (never, when `timeout_ms` is `0`).
    pub fn new(title: &str, timeout_ms: u64) -> (r: Countdown)
        ensures
            r.original_title@ == title@,
            r.timeout_ms == timeout_ms,
            r.last_secs == (if timeout_ms > 0 {
                seconds_left(timeout_ms as nat)
            } else {
                0
            }),
    {
        let last_secs = if timeout_ms > 0 {
            ceil_seconds(timeout_ms)
        } else {
            0
        };
        Countdown { original_title: title.to_owned(), timeout_ms, last_secs }
    }

    /// Whether the window needs the countdown timer at all.
    pub fn needs_timer(&self) -> (r: bool)
        ensures
            r == (self.timeout_ms > 0),
    {
        self.timeout_ms > 0
    }

    /// The title the window shows when it appears: with a timeout, the
    /// seconds left in front of the original title; without one, no change.
    pub fn initial_title(&self) -> (r: Option<String>)
        ensures
            self.timeout_ms == 0 ==> r is None,
            self.timeout_ms > 0 ==> (r matches Some(t) && t@ == countdown_caption(
                self.last_secs as nat,
                self.original_title@,
            )),
    {
        if self.timeout_ms > 0 {
            Some(caption_text(self.last_secs, &self.original_title))
        } else {
            None
        }
    }

    /// Handles a tick of the countdown timer, `elapsed_ms` milliseconds after
    /// the window appeared. The window closes once the timeout has passed;
    /// before that, the title is rewritten only when the rounded-up seconds
    /// left differ from those it shows.
    pub fn on_timer(&mut self, elapsed_ms: u64) -> (r: TimerAction)
        ensures
            final(self).original_title@ == old(self).original_title@,
            final(self).timeout_ms == old(self).timeout_ms,
            elapsed_ms >= old(self).timeout_ms ==> r is Close && final(self).last_secs == old(
                self,
            ).last_secs,
            elapsed_ms < old(self).timeout_ms ==> {
                let secs = seconds_left((old(self).timeout_ms - elapsed_ms) as nat);
                &&& final(self).last_secs == secs
                &&& secs == old(self).last_secs ==> r is Keep
                &&& secs != old(self).last_secs ==> (r matches TimerAction::Retitle(t) && t@
                    == countdown_caption(secs, old(self).original_title@))
            },
    {
        if elapsed_ms >= self.timeout_ms {
            return TimerAction::Close;
        }
        let secs = ceil_seconds(self.timeout_ms - elapsed_ms);
        if secs != self.last_secs {
            self.last_secs = secs;
            TimerAction::Retitle(caption_text(secs, &self.original_title))
        } else {
            TimerAction::Keep
        }
    }
}

/// While a countdown runs, the seconds it shows are at least one and never
/// more than at the start, and they never go up as time passes.
pub proof fn lemma_countdown_bounds(timeout_ms: nat, e1: nat, e2: nat)
    requires
        e1 <= e2 < timeout_ms,
    ensures
        1 <= seconds_left((timeout_ms - e2) as nat),
        seconds_left((timeout_ms - e2) as nat) <= seconds_left((timeout_ms - e1) as nat),
        seconds_left((timeout_ms - e1) as nat) <= seconds_left(timeout_ms),
{
    let r1 = (timeout_ms - e1) as nat;
    let r2 = (timeout_ms - e2) as nat;
    assert((r2 + 999) / 1000 <= (r1 + 999) / 1000) by (nonlinear_arith)
        requires
            r2 <= r1,
    ;
    assert((r1 + 999) / 1000 <= (timeout_ms + 999) / 1000) by (nonlinear_arith)
        requires
            r1 <= timeout_ms,
    ;
}

/// The DPI to scale with: the reported DPI, or the default 96 when the system
/// reports none.
pub fn effective_dpi(dpi: u32) -> (r: u32)
    ensures
        r == (if dpi == 0 {
            96
        } else {
            dpi
        }),
{
    if dpi == 0 {
        96
    } else {
        dpi
    }
}

/// The top-left corner of a popup of the given size placed in the
/// bottom-right corner of the work area.
pub fn popup_origin(work_area: &RECT, width: i32, height: i32) -> (r: (i32, i32))
    requires
        i32::MIN <= work_area.right - width <= i32::MAX,
        i32::MIN <= work_area.bottom - height <= i32::MAX,
    ensures
        r.0 == work_area.right - width,
        r.1 == work_area.bottom - height,
        r.0 + width == work_area.right,
        r.1 + height == work_area.bottom,
{
    (work_area.right - width, work_area.bottom - height)
}

/// The window class name of a notification popup created at `stamp`
/// nanoseconds since the Unix epoch.
pub fn notify_class_name(stamp: u128) -> (r: String)
    ensures
        r@ == "NotifyWnd_"@ + decimal(stamp as nat),
{
    let mut name = "NotifyWnd_".to_owned();
    let mut digits: Vec<char> = Vec::new();
    push_decimal(&mut digits, stamp);
    let digits = string_of(&digits);
    name.append(digits.as_str());
    name
}

/// The handles among `hs` whose flag in `finished` (by position) is false,
/// in their order.
pub open spec fn unfinished<H>(hs: Seq<H>, finished: Seq<bool>) -> Seq<H>
    decreases hs.len(),
{
    if hs.len() == 0 {
        seq![]
    } else if finished[hs.len() - 1] {
        unfinished(hs.drop_last(), finished)
    } else {
        unfinished(hs.drop_last(), finished).push(hs.last())
    }
}

/// The handles of the notification threads that are still running.
pub struct NotifyRegistry<H> {
    handles: Vec<H>,
}

impl<H> View for NotifyRegistry<H> {
    type V = Seq<H>;

    closed spec fn view(&self) -> Seq<H> {
        self.handles@
    }
}

impl<H> NotifyRegistry<H> {
    /// An empty registry.
    pub fn new() -> (r: NotifyRegistry<H>)
        ensures
            r@ == Seq::<H>::empty(),
    {
        NotifyRegistry { handles: Vec::new() }
    }

    /// The registered handles, oldest first.
    pub fn handles(&self) -> (r: &Vec<H>)
        ensures
            r@ == self@,
    {
        &self.handles
    }

    /// The number of registered handles.
    pub fn len(&self) -> (r: usize)
        ensures
            r == self@.len(),
    {
        self.handles.len()
    }

    /// Registers the thread of a new notification: drops the handles whose
    /// threads have finished (`finished[i]` tells it of the `i`-th handle),
    /// keeping the others in order, then appends `handle`.
    pub fn register(&mut self, finished: &Vec<bool>, handle: H)
        requires
            finished@.len() == old(self)@.len(),
        ensures
            final(self)@ == unfinished(old(self)@, finished@).push(handle),
            forall|i: int|
                0 <= i < old(self)@.len() && !finished@[i] ==> #[trigger] final(self)@.contains(
                    old(self)@[i],
                ),
    {
        let mut old_handles: Vec<H> = Vec::new();
        std::mem::swap(&mut old_handles, &mut self.handles);
        let ghost all = old_handles@;
        let mut kept: Vec<H> = Vec::new();
        let mut i: usize = 0;
        for h in it: old_handles.into_iter()
            invariant
                it.seq() == all,
                i == it.index(),
                i <= all.len(),
                finished.len() == all.len(),
                kept@ == unfinished(all.take(i as int), finished@),
        {
            proof {
                let next = all.take(i + 1);
                assert(next.drop_last() =~= all.take(i as int));
                assert(next.last() == h);
            }
            if !finished[i] {
                kept.push(h);
            }
            i = i + 1;
        }
        assert(all.take(i as int) =~= all);
        proof {
            lemma_register_keeps_running(all, finished@);
            let u = unfinished(all, finished@);
            assert forall|j: int| 0 <= j < all.len() && !finished@[j] implies #[trigger] u.push(
                handle,
            ).contains(all[j]) by {
                assert(u.contains(all[j]));
                let k = choose|k: int| 0 <= k < u.len() && u[k] == all[j];
                assert(u.push(handle)[k] == all[j]);
            }
        }
        kept.push(handle);
        self.handles = kept;
    }
}

/// Takes every registered handle out of the registry, oldest first, so that
/// the caller can join each thread; the registry is empty afterwards.
pub fn wait_notifications<H>(registry: &mut NotifyRegistry<H>) -> (r: Vec<H>)
    ensures
        r@ == old(registry)@,
        final(registry)@ == Seq::<H>::empty(),
{
    let mut out: Vec<H> = Vec::new();
    std::mem::swap(&mut out, &mut registry.handles);
    out
}


/// The positions below `n` whose flag in `finished` is false, ascending.
spec fn running_positions(finished: Seq<bool>, n: nat) -> Seq<int>
    decreases n,
{
    if n == 0 {
        seq![]
    } else if finished[n - 1] {
        running_positions(finished, (n - 1) as nat)
    } else {
        running_positions(finished, (n - 1) as nat).push(n - 1)
    }
}

proof fn lemma_running_positions<H>(hs: Seq<H>, finished: Seq<bool>)
    requires
        hs.len() <= finished.len(),
    ensures
        ({
            let p = running_positions(finished, hs.len());
            let r = unfinished(hs, finished);
            &&& p.len() == r.len()
            &&& forall|k: int|
                0 <= k < p.len() ==> 0 <= #[trigger] p[k] < hs.len() && !finished[p[k]] && r[k]
                    == hs[p[k]]
            &&& forall|k: int, l: int| 0 <= k < l < p.len() ==> #[trigger] p[k] < #[trigger] p[l]
            &&& forall|i: int|
                0 <= i < hs.len() && !finished[i] ==> exists|k: int|
                    0 <= k < p.len() && #[trigger] p[k] == i
        }),
    decreases hs.len(),
{
    if hs.len() > 0 {
        let n = hs.len();
        let hd = hs.drop_last();
        lemma_running_positions(hd, finished);
        let p0 = running_positions(finished, hd.len());
        let p = running_positions(finished, n);
        let r = unfinished(hs, finished);
        assert(hd.len() == n - 1);
        assert forall|i: int| 0 <= i < hs.len() && !finished[i] implies exists|k: int|
            0 <= k < p.len() && #[trigger] p[k] == i by {
            if i < n - 1 {
                assert(hd.len() == n - 1);
                let k = choose|k: int| 0 <= k < p0.len() && #[trigger] p0[k] == i;
                assert(p[k] == i);
            } else {
                assert(p[p.len() - 1] == i);
            }
        }
        assert forall|k: int| 0 <= k < p.len() implies 0 <= #[trigger] p[k] < hs.len()
            && !finished[p[k]] && r[k] == hs[p[k]] by {
            if k < p0.len() {
                assert(p[k] == p0[k]);
                assert(hd[p0[k]] == hs[p0[k]]);
            }
        }
    }
}

/// Registering drops exactly the handles of finished threads: what remains
/// is the subsequence of the handles whose own flag (same position) is false,
/// in their order, so every handle of a thread still running is kept and a
/// handle of a finished thread stays only as the handle of a running one.
pub proof fn lemma_register_keeps_running<H>(hs: Seq<H>, finished: Seq<bool>)
    requires
        finished.len() == hs.len(),
    ensures
        exists|p: Seq<int>|
            {
                &&& p.len() == unfinished(hs, finished).len()
                &&& forall|k: int|
                    0 <= k < p.len() ==> 0 <= #[trigger] p[k] < hs.len() && !finished[p[k]]
                        && unfinished(hs, finished)[k] == hs[p[k]]
                &&& forall|k: int, l: int| 0 <= k < l < p.len() ==> #[trigger] p[k] < #[trigger] p[l]
                &&& forall|i: int|
                    0 <= i < hs.len() && !finished[i] ==> exists|k: int|
                        0 <= k < p.len() && #[trigger] p[k] == i
            },
        forall|i: int|
            0 <= i < hs.len() && !finished[i] ==> #[trigger] unfinished(hs, finished).contains(
                hs[i],
            ),
        hs.no_duplicates() ==> forall|i: int|
            0 <= i < hs.len() && finished[i] ==> !#[trigger] unfinished(hs, finished).contains(
                hs[i],
            ),
{
    lemma_running_positions(hs, finished);
    let p = running_positions(finished, hs.len());
    let r = unfinished(hs, finished);
    assert forall|i: int| 0 <= i < hs.len() && !finished[i] implies #[trigger] r.contains(
        hs[i],
    ) by {
        let k = choose|k: int| 0 <= k < p.len() && #[trigger] p[k] == i;
        assert(r[k] == hs[i]);
    }
    if hs.no_duplicates() {
        assert forall|i: int| 0 <= i < hs.len() && finished[i] implies !#[trigger] r.contains(
            hs[i],
        ) by {
            if r.contains(hs[i]) {
                let k = choose|k: int| 0 <= k < r.len() && r[k] == hs[i];
                assert(hs[p[k]] == hs[i]);
            }
        }
    }
}


/// The seconds shown are `remaining_ms / 1000` rounded up, with no cap: the
/// smallest whole number of seconds that covers the time left, and zero only
/// when no time is left.
pub proof fn lemma_seconds_left_is_ceiling(remaining_ms: nat)
    ensures
        seconds_left(remaining_ms) * 1000 >= remaining_ms,
        remaining_ms > 0 ==> (seconds_left(remaining_ms) - 1) * 1000 < remaining_ms,
        remaining_ms == 0 <==> seconds_left(remaining_ms) == 0,
{
    let s = seconds_left(remaining_ms);
    let q = (remaining_ms + 999) / 1000;
    let x = remaining_ms + 999;
    assert(q * 1000 <= x && x < q * 1000 + 1000) by (nonlinear_arith)
        requires
            q == x / 1000,
            x >= 0,
    ;
    assert(s == q);
}

/// A countdown starts at the whole timeout in seconds, rounded up: a popup
/// with a 30-second timeout first shows 30.
pub proof fn lemma_countdown_starts_at_timeout(timeout_ms: nat)
    requires
        timeout_ms > 0,
    ensures
        seconds_left(timeout_ms) * 1000 >= timeout_ms,
        (seconds_left(timeout_ms) - 1) * 1000 < timeout_ms,
        timeout_ms % 1000 == 0 ==> seconds_left(timeout_ms) * 1000 == timeout_ms,
{
    lemma_seconds_left_is_ceiling(timeout_ms);
}

} // verus!

//! Spinner animations for loading states. Time comes from the caller, in
//! milliseconds of a monotonic clock.
use crate::text::string_views;
use vstd::prelude::*;

verus! {

/// An animation: its frames, the frame shown, when it last advanced and how
/// often it advances.
#[derive(Debug, Clone)]
pub struct Spinner {
    frames: Vec<String>,
    current_frame: usize,
    last_update_ms: u64,
    interval_ms: u64,
}

impl Spinner {
    pub closed spec fn frames_view(&self) -> Seq<Seq<char>> {
        string_views(self.frames@)
    }

    pub closed spec fn frame_index(&self) -> nat {
        self.current_frame as nat
    }

    pub closed spec fn last_update(&self) -> u64 {
        self.last_update_ms
    }

    pub closed spec fn interval(&self) -> u64 {
        self.interval_ms
    }

    /// There is a frame, and the frame shown is one of them.
    pub closed spec fn wf(&self) -> bool {
        0 < self.frames@.len() && self.current_frame < self.frames@.len()
    }

    fn make(frames: Vec<String>, interval_ms: u64, now_ms: u64) -> (r: Self)
        requires
            frames@.len() > 0,
        ensures
            r.wf(),
            r.frames_view() == string_views(frames@),
            r.frame_index() == 0,
            r.last_update() == now_ms,
            r.interval() == interval_ms,
    {
        Spinner { frames, current_frame: 0, last_update_ms: now_ms, interval_ms }
    }

    /// Braille dots turning, every 80 ms (the default).
    pub fn new(now_ms: u64) -> (r: Self)
        ensures
            r.wf(),
            r.frames_view() == seq!["\u{280B}"@, "\u{2819}"@, "\u{2839}"@, "\u{2838}"@, "\u{283C}"@, "\u{2834}"@, "\u{2826}"@, "\u{2827}"@, "\u{2807}"@, "\u{280F}"@],
            r.frame_index() == 0,
            r.last_update() == now_ms,
            r.interval() == 80,
    {
        let frames = vec![
            String::from_str("\u{280B}"),
            String::from_str("\u{2819}"),
            String::from_str("\u{2839}"),
            String::from_str("\u{2838}"),
            String::from_str("\u{283C}"),
            String::from_str("\u{2834}"),
            String::from_str("\u{2826}"),
            String::from_str("\u{2827}"),
            String::from_str("\u{2807}"),
            String::from_str("\u{280F}"),
        ];
        proof {
            assert(string_views(frames@) =~= seq!["\u{280B}"@, "\u{2819}"@, "\u{2839}"@, "\u{2838}"@, "\u{283C}"@, "\u{2834}"@, "\u{2826}"@, "\u{2827}"@, "\u{2807}"@, "\u{280F}"@]);
        }
        Self::make(frames, 80, now_ms)
    }

    /// A filled braille block with one dot missing, every 80 ms.
    pub fn dots(now_ms: u64) -> (r: Self)
        ensures
            r.wf(),
            r.frames_view() == seq!["\u{28FE}"@, "\u{28FD}"@, "\u{28FB}"@, "\u{28BF}"@, "\u{287F}"@, "\u{28DF}"@, "\u{28EF}"@, "\u{28F7}"@],
            r.frame_index() == 0,
            r.last_update() == now_ms,
            r.interval() == 80,
    {
        let frames = vec![
            String::from_str("\u{28FE}"),
            String::from_str("\u{28FD}"),
            String::from_str("\u{28FB}"),
            String::from_str("\u{28BF}"),
            String::from_str("\u{287F}"),
            String::from_str("\u{28DF}"),
            String::from_str("\u{28EF}"),
            String::from_str("\u{28F7}"),
        ];
        proof {
            assert(string_views(frames@) =~= seq!["\u{28FE}"@, "\u{28FD}"@, "\u{28FB}"@, "\u{28BF}"@, "\u{287F}"@, "\u{28DF}"@, "\u{28EF}"@, "\u{28F7}"@]);
        }
        Self::make(frames, 80, now_ms)
    }

    /// Zero to three dots, every 200 ms.
    pub fn simple_dots(now_ms: u64) -> (r: Self)
        ensures
            r.wf(),
            r.frames_view() == seq!["   "@, ".  "@, ".. "@, "..."@],
            r.frame_index() == 0,
            r.last_update() == now_ms,
            r.interval() == 200,
    {
        let frames = vec![
            String::from_str("   "),
            String::from_str(".  "),
            String::from_str(".. "),
            String::from_str("..."),
        ];
        proof {
            assert(string_views(frames@) =~= seq!["   "@, ".  "@, ".. "@, "..."@]);
        }
        Self::make(frames, 200, now_ms)
    }

    /// A turning line, every 100 ms.
    pub fn line(now_ms: u64) -> (r: Self)
        ensures
            r.wf(),
            r.frames_view() == seq!["-"@, "\\"@, "|"@, "/"@],
            r.frame_index() == 0,
            r.last_update() == now_ms,
            r.interval() == 100,
    {
        let frames = vec![
            String::from_str("-"),
            String::from_str("\\"),
            String::from_str("|"),
            String::from_str("/"),
        ];
        proof {
            assert(string_views(frames@) =~= seq!["-"@, "\\"@, "|"@, "/"@]);
        }
        Self::make(frames, 100, now_ms)
    }

    /// A square with a turning quarter, every 100 ms.
    pub fn boxed(now_ms: u64) -> (r: Self)
        ensures
            r.wf(),
            r.frames_view() == seq!["\u{25F0}"@, "\u{25F3}"@, "\u{25F2}"@, "\u{25F1}"@],
            r.frame_index() == 0,
            r.last_update() == now_ms,
            r.interval() == 100,
    {
        let frames = vec![
            String::from_str("\u{25F0}"),
            String::from_str("\u{25F3}"),
            String::from_str("\u{25F2}"),
            String::from_str("\u{25F1}"),
        ];
        proof {
            assert(string_views(frames@) =~= seq!["\u{25F0}"@, "\u{25F3}"@, "\u{25F2}"@, "\u{25F1}"@]);
        }
        Self::make(frames, 100, now_ms)
    }

    /// Advances to the next frame, wrapping around, once an interval has
    /// passed since the last advance.
    pub fn tick(&mut self, now_ms: u64)
        requires
            old(self).wf(),
        ensures
            final(self).wf(),
            final(self).frames_view() == old(self).frames_view(),
            final(self).interval() == old(self).interval(),
            if now_ms >= old(self).last_update() && now_ms - old(self).last_update() >= old(
                self,
            ).interval() {
                &&& final(self).frame_index() == (old(self).frame_index() + 1) % old(
                    self,
                ).frames_view().len()
                &&& final(self).last_update() == now_ms
            } else {
                &&& final(self).frame_index() == old(self).frame_index()
                &&& final(self).last_update() == old(self).last_update()
            },
    {
        if now_ms >= self.last_update_ms && now_ms - self.last_update_ms >= self.interval_ms {
            let n = self.frames.len();
            self.current_frame = if self.current_frame >= n - 1 {
                0
            } else {
                self.current_frame + 1
            };
            proof {
                if old(self).current_frame + 1 == n {
                    vstd::arithmetic::div_mod::lemma_mod_self_0(n as int);
                } else {
                    vstd::arithmetic::div_mod::lemma_small_mod(
                        (old(self).current_frame + 1) as nat,
                        n as nat,
                    );
                }
            }
            self.last_update_ms = now_ms;
        }
    }

    /// The frame shown.
    pub fn current(&self) -> (r: &str)
        requires
            self.wf(),
        ensures
            r@ == self.frames_view()[self.frame_index() as int],
    {
        self.frames[self.current_frame].as_str()
    }

    /// Back to the first frame, counting time from `now_ms`.
    pub fn reset(&mut self, now_ms: u64)
        requires
            old(self).wf(),
        ensures
            final(self).wf(),
            final(self).frame_index() == 0,
            final(self).last_update() == now_ms,
            final(self).frames_view() == old(self).frames_view(),
            final(self).interval() == old(self).interval(),
    {
        self.current_frame = 0;
        self.last_update_ms = now_ms;
    }
}

/// A message with a spinner, shown while something loads.
#[derive(Debug, Clone)]
pub struct LoadingState {
    pub active: bool,
    pub message: String,
    pub spinner: Spinner,
}

impl LoadingState {
    pub fn new(now_ms: u64) -> (r: Self)
        ensures
            !r.active,
            r.message@.len() == 0,
            r.spinner.wf(),
            r.spinner.frames_view() == seq!["\u{280B}"@, "\u{2819}"@, "\u{2839}"@, "\u{2838}"@, "\u{283C}"@, "\u{2834}"@, "\u{2826}"@, "\u{2827}"@, "\u{2807}"@, "\u{280F}"@],
            r.spinner.frame_index() == 0,
            r.spinner.last_update() == now_ms,
            r.spinner.interval() == 80,
    {
        LoadingState { active: false, message: String::new(), spinner: Spinner::new(now_ms) }
    }

    /// Shows `message` with the spinner started afresh.
    pub fn start(&mut self, message: String, now_ms: u64)
        requires
            old(self).spinner.wf(),
        ensures
            final(self).active,
            final(self).message == message,
            final(self).spinner.wf(),
            final(self).spinner.frame_index() == 0,
            final(self).spinner.last_update() == now_ms,
            final(self).spinner.frames_view() == old(self).spinner.frames_view(),
            final(self).spinner.interval() == old(self).spinner.interval(),
    {
        self.active = true;
        self.message = message;
        self.spinner.reset(now_ms);
    }

    pub fn stop(&mut self)
        ensures
            !final(self).active,
            final(self).message@.len() == 0,
            final(self).spinner == old(self).spinner,
    {
        self.active = false;
        self.message = String::new();
    }

    /// Animates the spinner while loading.
    pub fn tick(&mut self, now_ms: u64)
        requires
            old(self).spinner.wf(),
        ensures
            final(self).active == old(self).active,
            final(self).message == old(self).message,
            final(self).spinner.wf(),
            !old(self).active ==> final(self).spinner == old(self).spinner,
            old(self).active ==> final(self).spinner.frames_view() == old(self).spinner.frames_view()
                && final(self).spinner.interval() == old(self).spinner.interval()
                && if now_ms >= old(self).spinner.last_update() && now_ms - old(
                self,
            ).spinner.last_update() >= old(self).spinner.interval() {
                &&& final(self).spinner.frame_index() == (old(self).spinner.frame_index() + 1)
                    % old(self).spinner.frames_view().len()
                &&& final(self).spinner.last_update() == now_ms
            } else {
                &&& final(self).spinner.frame_index() == old(self).spinner.frame_index()
                &&& final(self).spinner.last_update() == old(self).spinner.last_update()
            },
    {
        if self.active {
            self.spinner.tick(now_ms);
        }
    }

    pub fn is_active(&self) -> (r: bool)
        ensures
            r == self.active,
    {
        self.active
    }
}

} // verus!

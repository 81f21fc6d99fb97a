use vstd::prelude::*;
use vstd::string::*;

verus! {

/// Milliseconds between two frames of the waiting cue.
pub const INDICATOR_STEP_MILLIS: u64 = 100;

/// The number of steps after which the cue's frames repeat.
pub const INDICATOR_CYCLE: usize = 6;

/// The label that the cue redraws.
pub open spec fn cue_label() -> Seq<char> {
    "\rThinking"@
}

/// `n` copies of `c`.
pub open spec fn repeated(c: char, n: nat) -> Seq<char> {
    Seq::new(n, |_i: int| c)
}

/// The frame that shows `dots` dots.
pub open spec fn dots_frame(dots: nat) -> Seq<char> {
    cue_label() + repeated('.', dots)
}

/// The frame that wipes the dots before the cycle starts over.
pub open spec fn blank_frame() -> Seq<char> {
    cue_label() + repeated(' ', INDICATOR_CYCLE as nat)
}

/// The last output of the cue: the line cleared, one space more for the
/// transition, and ended.
pub open spec fn closing_frame() -> Seq<char> {
    cue_label() + repeated(' ', (INDICATOR_CYCLE + 1) as nat) + seq!['\n']
}

/// The frame at position `p` of the cycle: a growing row of dots, then the
/// blank frame in the last position.
pub open spec fn cycle_frame(p: nat) -> Seq<char> {
    if p + 1 < INDICATOR_CYCLE {
        dots_frame(p)
    } else {
        blank_frame()
    }
}

/// What the cue writes in one step.
#[derive(Debug)]
pub enum IndicatorStep {
    /// Redraw the line with this text and wait one step.
    Frame(String),
    /// Write this text and stop.
    Finish(String),
}

/// The cue of one step from position `p` of the cycle: whether it finishes,
/// what it writes, and the position after it.
pub open spec fn step_spec(p: nat, stop_requested: bool) -> (bool, Seq<char>, nat) {
    if stop_requested {
        (true, closing_frame(), p)
    } else {
        (false, cycle_frame(p), (p + 1) % (INDICATOR_CYCLE as nat))
    }
}

/// Until a stop is requested, the cue's frames repeat every `INDICATOR_CYCLE`
/// steps: stepping that many times from any position comes back to it, and
/// every frame is the label followed by at most `INDICATOR_CYCLE` characters.
pub proof fn law_cue_cycle(p: nat)
    requires
        p < INDICATOR_CYCLE,
    ensures
        step_spec(p, false).2 < INDICATOR_CYCLE,
        cycle_frame(p).subrange(0, cue_label().len() as int) == cue_label(),
        cycle_frame(p).len() <= cue_label().len() + INDICATOR_CYCLE,
        ({
            let p1 = step_spec(p, false).2;
            let p2 = step_spec(p1, false).2;
            let p3 = step_spec(p2, false).2;
            let p4 = step_spec(p3, false).2;
            let p5 = step_spec(p4, false).2;
            step_spec(p5, false).2 == p
        }),
{
    let l = cue_label();
    assert((l + repeated('.', p)).subrange(0, l.len() as int) =~= l);
    assert((l + repeated(' ', INDICATOR_CYCLE as nat)).subrange(0, l.len() as int) =~= l);
}

pub open spec fn step_view(s: IndicatorStep) -> (bool, Seq<char>) {
    match s {
        IndicatorStep::Frame(t) => (false, t@),
        IndicatorStep::Finish(t) => (true, t@),
    }
}

/// Appends `n` copies of the one-character string `c` to `s`.
fn append_repeated(s: &mut String, c: &str, n: usize)
    requires
        c@.len() == 1,
    ensures
        final(s)@ == old(s)@ + repeated(c@[0], n as nat),
{
    let mut i: usize = 0;
    while i < n
        invariant
            c@.len() == 1,
            i <= n,
            s@ == old(s)@ + repeated(c@[0], i as nat),
        decreases n - i,
    {
        s.append(c);
        i = i + 1;
        proof {
            assert(s@ =~= old(s)@ + repeated(c@[0], i as nat));
        }
    }
}

/// The waiting cue: a label followed by a growing row of dots, redrawn in place
/// until a stop is requested.
#[derive(Debug)]
pub struct WaitIndicator {
    position: usize,
}

impl WaitIndicator {
    /// The position in the cycle of the next frame.
    pub closed spec fn position_spec(&self) -> nat {
        self.position as nat
    }

    pub open spec fn wf(&self) -> bool {
        self.position_spec() < INDICATOR_CYCLE
    }

    pub fn new() -> (r: WaitIndicator)
        ensures
            r.position_spec() == 0,
            r.wf(),
    {
        WaitIndicator { position: 0 }
    }

    pub fn position(&self) -> (r: usize)
        ensures
            r == self.position_spec(),
    {
        self.position
    }

    /// One step of the cue. When a stop is requested it clears the line and
    /// finishes; else it shows the frame of the current position and moves on,
    /// back to the start after the last position.
    pub fn step(&mut self, stop_requested: bool) -> (r: IndicatorStep)
        requires
            old(self).wf(),
        ensures
            final(self).wf(),
            step_view(r) == (step_spec(old(self).position_spec(), stop_requested).0, step_spec(
                old(self).position_spec(),
                stop_requested,
            ).1),
            final(self).position_spec() == step_spec(old(self).position_spec(), stop_requested).2,
    {
        proof {
            reveal_strlit(" ");
            reveal_strlit(".");
            reveal_strlit("\n");
        }
        let mut text = String::from_str("\rThinking");
        if stop_requested {
            append_repeated(&mut text, " ", INDICATOR_CYCLE + 1);
            text.append("\n");
            IndicatorStep::Finish(text)
        } else if self.position + 1 == INDICATOR_CYCLE {
            append_repeated(&mut text, " ", INDICATOR_CYCLE);
            self.position = 0;
            IndicatorStep::Frame(text)
        } else {
            append_repeated(&mut text, ".", self.position);
            self.position = self.position + 1;
            IndicatorStep::Frame(text)
        }
    }
}

} // verus!

//! A line of text revealed one character at a time on a repeating timer,
//! with a way to reveal the rest at once.
use vstd::prelude::*;

verus! {

/// A line being typed out. `displayed_text` holds the first `reveal_index`
/// characters of `full_text`. The reveal timer fires every `reveal_interval`
/// nanoseconds; `timer_elapsed` is the time since it last fired.
pub struct TypingText {
    pub full_text: String,
    pub displayed_text: String,
    pub reveal_index: usize,
    pub reveal_interval: u64,
    pub timer_elapsed: u64,
}

/// The mathematical state of a [`TypingText`].
pub struct TypingModel {
    pub full: Seq<char>,
    pub displayed: Seq<char>,
    pub index: nat,
    pub interval: nat,
    pub elapsed: nat,
}

/// Whether the repeating timer fires when `delta` passes with `elapsed`
/// already on it.
pub open spec fn timer_fires(elapsed: nat, interval: nat, delta: nat) -> bool {
    elapsed + delta >= interval
}

/// The time on the repeating timer after `delta` passes: each full interval
/// that completes is taken off; a timer of zero length stays at zero.
pub open spec fn timer_after(elapsed: nat, interval: nat, delta: nat) -> nat {
    if interval == 0 {
        0
    } else {
        (elapsed + delta) % interval
    }
}

impl TypingModel {
    pub open spec fn wf(self) -> bool {
        &&& self.index <= self.full.len()
        &&& self.displayed == self.full.take(self.index as int)
        &&& self.interval > 0 ==> self.elapsed < self.interval
        &&& self.interval == 0 ==> self.elapsed == 0
    }

    /// Whether every character is shown.
    pub open spec fn is_complete(self) -> bool {
        self.index == self.full.len()
    }

    /// The state after `delta` nanoseconds: when the timer fires and a
    /// character is still hidden, the next one is revealed.
    pub open spec fn ticked(self, delta: nat) -> TypingModel {
        let fires = timer_fires(self.elapsed, self.interval, delta);
        let index = if fires && self.index < self.full.len() {
            self.index + 1
        } else {
            self.index
        };
        TypingModel {
            full: self.full,
            displayed: self.full.take(index as int),
            index,
            interval: self.interval,
            elapsed: timer_after(self.elapsed, self.interval, delta),
        }
    }

    /// The state with the whole line revealed; the timer is left as it was.
    pub open spec fn skipped(self) -> TypingModel {
        TypingModel { displayed: self.full, index: self.full.len(), ..self }
    }

    /// One frame: a click while characters are hidden reveals them all
    /// (and the timer is not advanced); otherwise the timer runs.
    pub open spec fn after_frame(self, clicked: bool, delta: nat) -> TypingModel {
        if clicked && self.index < self.full.len() {
            self.skipped()
        } else {
            self.ticked(delta)
        }
    }
}

impl View for TypingText {
    type V = TypingModel;

    open spec fn view(&self) -> TypingModel {
        TypingModel {
            full: self.full_text@,
            displayed: self.displayed_text@,
            index: self.reveal_index as nat,
            interval: self.reveal_interval as nat,
            elapsed: self.timer_elapsed as nat,
        }
    }
}

/// Revealing everything twice is the same as revealing it once, and leaves
/// the whole line on display.
pub proof fn lemma_skip_idempotent(m: TypingModel)
    requires
        m.wf(),
    ensures
        m.skipped().skipped() == m.skipped(),
        m.skipped().skipped().displayed == m.full,
        m.skipped().wf(),
{
    assert(m.full.take(m.full.len() as int) =~= m.full);
}

/// The timer never reveals past the end of the line, and keeps the state
/// well formed; once the whole line shows, it changes nothing that is shown.
pub proof fn lemma_tick_within_text(m: TypingModel, delta: nat)
    requires
        m.wf(),
    ensures
        m.ticked(delta).index <= m.full.len(),
        m.ticked(delta).full == m.full,
        m.ticked(delta).wf(),
        m.is_complete() ==> m.ticked(delta).index == m.index && m.ticked(delta).displayed
            == m.displayed,
{
    if m.interval > 0 {
        assert(timer_after(m.elapsed, m.interval, delta) < m.interval);
    }
}

impl TypingText {
    pub open spec fn wf(&self) -> bool {
        self@.wf()
    }

    /// A new line with nothing shown yet and a fresh timer that fires every
    /// `reveal_interval` nanoseconds.
    pub fn new(text: &str, reveal_interval: u64) -> (r: TypingText)
        ensures
            r.wf(),
            r@.full == text@,
            r@.displayed == Seq::<char>::empty(),
            r@.index == 0,
            r@.interval == reveal_interval,
            r@.elapsed == 0,
    {
        let r = TypingText {
            full_text: String::from_str(text),
            displayed_text: String::new(),
            reveal_index: 0,
            reveal_interval,
            timer_elapsed: 0,
        };
        assert(r@.full.take(0) =~= Seq::<char>::empty());
        r
    }

    /// Replaces the line with `text`, shown from its start on a fresh timer
    /// with the same interval.
    pub fn set_line(&mut self, text: &str)
        requires
            old(self).wf(),
        ensures
            final(self).wf(),
            final(self)@ == (TypingModel {
                full: text@,
                displayed: Seq::empty(),
                index: 0,
                interval: old(self)@.interval,
                elapsed: 0,
            }),
    {
        *self = TypingText::new(text, self.reveal_interval);
    }

    /// Advances the reveal timer by `delta` nanoseconds, revealing the next
    /// character (a Unicode scalar value) when it fires.
    pub fn tick(&mut self, delta: u64)
        requires
            old(self).wf(),
        ensures
            final(self).wf(),
            final(self)@ == old(self)@.ticked(delta as nat),
    {
        let total: u128 = self.timer_elapsed as u128 + delta as u128;
        let fires: bool = total >= self.reveal_interval as u128;
        if self.reveal_interval == 0 {
            self.timer_elapsed = 0;
        } else {
            let rest: u128 = total % (self.reveal_interval as u128);
            self.timer_elapsed = rest as u64;
        }
        let len: usize = self.full_text.unicode_len();
        if fires && self.reveal_index < len {
            let i: usize = self.reveal_index;
            let next: &str = self.full_text.as_str().substring_char(i, i + 1);
            self.displayed_text.append(next);
            self.reveal_index = i + 1;
            assert(self.displayed_text@ =~= self.full_text@.take(i + 1));
        }
    }

    /// Shows the whole line at once.
    pub fn skip(&mut self)
        requires
            old(self).wf(),
        ensures
            final(self).wf(),
            final(self)@ == old(self)@.skipped(),
    {
        self.displayed_text = self.full_text.clone();
        self.reveal_index = self.full_text.unicode_len();
        assert(self.full_text@.take(self.reveal_index as int) =~= self.full_text@);
    }

    /// Handles one frame: whether the line was clicked, and the nanoseconds
    /// that passed.
    pub fn update(&mut self, clicked: bool, delta: u64)
        requires
            old(self).wf(),
        ensures
            final(self).wf(),
            final(self)@ == old(self)@.after_frame(clicked, delta as nat),
    {
        if clicked && self.reveal_index < self.full_text.unicode_len() {
            self.skip();
        } else {
            self.tick(delta);
        }
    }

    /// The text shown so far.
    pub fn displayed(&self) -> (r: &str)
        ensures
            r@ == self.displayed_text@,
    {
        self.displayed_text.as_str()
    }

    /// Whether every character is shown.
    pub fn is_complete(&self) -> (r: bool)
        requires
            self.wf(),
        ensures
            r == self@.is_complete(),
    {
        self.reveal_index == self.full_text.unicode_len()
    }
}

} // verus!

//! The rules behind the small widgets: a checkbox, fields that a button
//! shows and hides, and the play/pause button of the background music.
use vstd::prelude::*;

verus! {

/// How the pointer is interacting with a widget this frame.
#[derive(Clone, Copy, Debug, PartialEq, Eq)]
pub enum Interaction {
    Pressed,
    Hovered,
    Idle,
}

/// The colour a checkbox's box is drawn in.
#[derive(Clone, Copy, Debug, PartialEq, Eq)]
pub enum BoxShade {
    Normal,
    Hovered,
}

/// A checkbox of `size` pixels; a disabled one ignores the pointer.
pub struct Checkbox {
    pub checked: bool,
    pub size: u32,
    pub disabled: bool,
}

impl Default for Checkbox {
    fn default() -> (r: Checkbox)
        ensures
            !r.checked,
            r.size == 20,
            !r.disabled,
    {
        Checkbox { checked: false, size: 20, disabled: false }
    }
}

impl Checkbox {
    /// Handles the pointer on the box: a press flips the check, hovering
    /// and leaving change the box's shade, which is returned when it
    /// changes. A disabled checkbox changes nothing.
    pub fn interact(&mut self, interaction: Interaction) -> (r: Option<BoxShade>)
        ensures
            final(self).size == old(self).size,
            final(self).disabled == old(self).disabled,
            final(self).checked == (if !old(self).disabled && interaction == Interaction::Pressed {
                !old(self).checked
            } else {
                old(self).checked
            }),
            r == (if old(self).disabled {
                None
            } else {
                match interaction {
                    Interaction::Pressed => None,
                    Interaction::Hovered => Some(BoxShade::Hovered),
                    Interaction::Idle => Some(BoxShade::Normal),
                }
            }),
    {
        if self.disabled {
            return None;
        }
        match interaction {
            Interaction::Pressed => {
                self.checked = !self.checked;
                None
            },
            Interaction::Hovered => Some(BoxShade::Hovered),
            Interaction::Idle => Some(BoxShade::Normal),
        }
    }

    /// Whether the check mark is drawn.
    pub fn shows_check(&self) -> (r: bool)
        ensures
            r == self.checked,
    {
        self.checked
    }
}

/// Whether a node is drawn: as its parent is, hidden, or always.
#[derive(Clone, Copy, Debug, PartialEq, Eq)]
pub enum Visibility {
    Inherited,
    Hidden,
    Visible,
}

/// The position of the first node that is `Visible`, or the number of
/// nodes when none is.
pub open spec fn first_visible(v: Seq<Visibility>) -> nat
    decreases v.len(),
{
    if v.len() == 0 {
        0
    } else if v[0] == Visibility::Visible {
        0
    } else {
        1 + first_visible(v.drop_first())
    }
}

/// A node's visibility after the hide button is pressed.
pub open spec fn flipped(v: Visibility) -> Visibility {
    match v {
        Visibility::Inherited => Visibility::Hidden,
        Visibility::Hidden => Visibility::Inherited,
        Visibility::Visible => Visibility::Visible,
    }
}

proof fn lemma_first_visible_step(v: Seq<Visibility>, i: int)
    requires
        0 <= i < v.len(),
        i <= first_visible(v),
    ensures
        v[i] == Visibility::Visible ==> first_visible(v) == i,
        v[i] != Visibility::Visible ==> i + 1 <= first_visible(v),
        first_visible(v) <= v.len(),
    decreases i,
{
    if i > 0 {
        lemma_first_visible_step(v.drop_first(), i - 1);
    } else {
        lemma_first_visible_bound(v);
    }
}

proof fn lemma_first_visible_bound(v: Seq<Visibility>)
    ensures
        first_visible(v) <= v.len(),
    decreases v.len(),
{
    if v.len() > 0 {
        lemma_first_visible_bound(v.drop_first());
    }
}

/// Handles a press of the button that shows and hides the text fields:
/// going in order, each field that follows its parent is hidden and each
/// hidden one follows its parent again; at the first field that is always
/// visible the button stops, leaving it and the rest as they were.
pub fn toggle_fields(fields: &mut Vec<Visibility>)
    ensures
        final(fields)@.len() == old(fields)@.len(),
        forall|i: int|
            0 <= i < old(fields)@.len() ==> #[trigger] final(fields)@[i] == (if i < first_visible(
                old(fields)@,
            ) {
                flipped(old(fields)@[i])
            } else {
                old(fields)@[i]
            }),
{
    let ghost start: Seq<Visibility> = fields@;
    let n: usize = fields.len();
    let mut i: usize = 0;
    proof {
        lemma_first_visible_bound(start);
    }
    while i < n
        invariant
            start == old(fields)@,
            n == start.len(),
            fields@.len() == n,
            i <= first_visible(start),
            first_visible(start) <= n,
            forall|j: int|
                0 <= j < n ==> #[trigger] fields@[j] == (if j < i {
                    flipped(start[j])
                } else {
                    start[j]
                }),
        decreases n - i,
    {
        proof {
            lemma_first_visible_step(start, i as int);
        }
        match fields[i] {
            Visibility::Inherited => {
                fields.set(i, Visibility::Hidden);
            },
            Visibility::Hidden => {
                fields.set(i, Visibility::Inherited);
            },
            Visibility::Visible => {
                return;
            },
        }
        i = i + 1;
    }
}

/// Where the background music stands.
#[derive(Clone, Copy, Debug, PartialEq, Eq)]
pub enum Playback {
    Queued,
    Playing,
    Pausing,
    Paused,
    Stopping,
    Stopped,
}

/// What the play/pause button asks of the music.
#[derive(Clone, Copy, Debug, PartialEq, Eq)]
pub enum AudioCommand {
    Pause,
    Resume,
}

/// The command a press of the play/pause button sends: playing music is
/// paused, paused music resumes, and in any other state nothing is sent.
pub fn audio_toggle(state: Playback) -> (r: Option<AudioCommand>)
    ensures
        r == (match state {
            Playback::Playing => Some(AudioCommand::Pause),
            Playback::Paused => Some(AudioCommand::Resume),
            _ => None,
        }),
{
    match state {
        Playback::Playing => Some(AudioCommand::Pause),
        Playback::Paused => Some(AudioCommand::Resume),
        _ => None,
    }
}

/// The button's label once a command is sent.
pub fn audio_button_label(command: AudioCommand) -> (r: &'static str)
    ensures
        command == AudioCommand::Pause ==> r@ == "StopPlay"@,
        command == AudioCommand::Resume ==> r@ == "AudioPlay"@,
{
    match command {
        AudioCommand::Pause => "StopPlay",
        AudioCommand::Resume => "AudioPlay",
    }
}

} // verus!

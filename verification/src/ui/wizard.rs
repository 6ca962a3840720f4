//! The fixed sequence of wizard steps and the signal a step hands back.

use vstd::prelude::*;

verus! {

/// The 12 steps of the wizard, in order.
#[derive(Debug, Clone, Copy, PartialEq, Eq)]
pub enum WizardStep {
    Welcome,
    Identity,
    About,
    Social,
    Skills,
    Stats,
    Projects,
    Blog,
    Dynamic,
    Extras,
    Layout,
    PreviewGenerate,
}

/// The number of steps.
pub const STEP_COUNT: usize = 12;

/// The step at a position of the sequence; positions behind the end name the
/// last step.
pub open spec fn step_at(i: nat) -> WizardStep {
    if i == 0 {
        WizardStep::Welcome
    } else if i == 1 {
        WizardStep::Identity
    } else if i == 2 {
        WizardStep::About
    } else if i == 3 {
        WizardStep::Social
    } else if i == 4 {
        WizardStep::Skills
    } else if i == 5 {
        WizardStep::Stats
    } else if i == 6 {
        WizardStep::Projects
    } else if i == 7 {
        WizardStep::Blog
    } else if i == 8 {
        WizardStep::Dynamic
    } else if i == 9 {
        WizardStep::Extras
    } else if i == 10 {
        WizardStep::Layout
    } else {
        WizardStep::PreviewGenerate
    }
}

impl WizardStep {
    /// All steps, in order.
    pub const ALL: [WizardStep; 12] = [
        WizardStep::Welcome,
        WizardStep::Identity,
        WizardStep::About,
        WizardStep::Social,
        WizardStep::Skills,
        WizardStep::Stats,
        WizardStep::Projects,
        WizardStep::Blog,
        WizardStep::Dynamic,
        WizardStep::Extras,
        WizardStep::Layout,
        WizardStep::PreviewGenerate,
    ];

    /// The position of the step in the sequence, counted from 0.
    pub open spec fn position(self) -> nat {
        match self {
            WizardStep::Welcome => 0,
            WizardStep::Identity => 1,
            WizardStep::About => 2,
            WizardStep::Social => 3,
            WizardStep::Skills => 4,
            WizardStep::Stats => 5,
            WizardStep::Projects => 6,
            WizardStep::Blog => 7,
            WizardStep::Dynamic => 8,
            WizardStep::Extras => 9,
            WizardStep::Layout => 10,
            WizardStep::PreviewGenerate => 11,
        }
    }

    /// The step one position further, or the step itself at the end.
    pub open spec fn successor(self) -> WizardStep {
        if self.position() + 1 < STEP_COUNT {
            step_at(self.position() + 1)
        } else {
            self
        }
    }

    /// The step one position back, or the step itself at the start.
    pub open spec fn predecessor(self) -> WizardStep {
        if self.position() > 0 {
            step_at((self.position() - 1) as nat)
        } else {
            self
        }
    }

    /// The position of the step in the sequence, counted from 0.
    pub fn index(&self) -> (res: usize)
        ensures
            res == self.position(),
            res < STEP_COUNT,
    {
        match self {
            WizardStep::Welcome => 0,
            WizardStep::Identity => 1,
            WizardStep::About => 2,
            WizardStep::Social => 3,
            WizardStep::Skills => 4,
            WizardStep::Stats => 5,
            WizardStep::Projects => 6,
            WizardStep::Blog => 7,
            WizardStep::Dynamic => 8,
            WizardStep::Extras => 9,
            WizardStep::Layout => 10,
            WizardStep::PreviewGenerate => 11,
        }
    }

    /// The next step; the last step is its own successor.
    pub fn next(&self) -> (res: Self)
        ensures
            res == self.successor(),
    {
        let idx = self.index();
        if idx + 1 < WizardStep::ALL.len() {
            WizardStep::ALL[idx + 1]
        } else {
            *self
        }
    }

    /// The previous step; the first step is its own predecessor.
    pub fn prev(&self) -> (res: Self)
        ensures
            res == self.predecessor(),
    {
        let idx = self.index();
        if idx > 0 {
            WizardStep::ALL[idx - 1]
        } else {
            *self
        }
    }

    /// The title of the step, as text.
    pub open spec fn label_text(self) -> Seq<char> {
        match self {
            WizardStep::Welcome => "Welcome"@,
            WizardStep::Identity => "Identity"@,
            WizardStep::About => "About"@,
            WizardStep::Social => "Social Links"@,
            WizardStep::Skills => "Skills"@,
            WizardStep::Stats => "Stats"@,
            WizardStep::Projects => "Projects"@,
            WizardStep::Blog => "Blog & Content"@,
            WizardStep::Dynamic => "Dynamic"@,
            WizardStep::Extras => "Extras"@,
            WizardStep::Layout => "Layout"@,
            WizardStep::PreviewGenerate => "Preview & Generate"@,
        }
    }

    /// The title of the step.
    pub fn label(&self) -> (res: &'static str)
        ensures
            res@ == self.label_text(),
    {
        match self {
            WizardStep::Welcome => "Welcome",
            WizardStep::Identity => "Identity",
            WizardStep::About => "About",
            WizardStep::Social => "Social Links",
            WizardStep::Skills => "Skills",
            WizardStep::Stats => "Stats",
            WizardStep::Projects => "Projects",
            WizardStep::Blog => "Blog & Content",
            WizardStep::Dynamic => "Dynamic",
            WizardStep::Extras => "Extras",
            WizardStep::Layout => "Layout",
            WizardStep::PreviewGenerate => "Preview & Generate",
        }
    }
}

/// Action returned by step handlers to control the wizard flow.
#[derive(Debug, Clone, Copy, PartialEq, Eq)]
pub enum StepAction {
    /// Continue handling input in the current step.
    Continue,
    /// Advance to the next step.
    NextStep,
    /// Go back to the previous step.
    PrevStep,
    /// Generate output immediately (Ctrl-G).
    Generate,
    /// Quit the wizard.
    Quit,
}

/// The steps and the positions `0..12` correspond one to one: every step has
/// a position below 12, every such position names the step that stands
/// there, and two steps with the same position are the same step.
pub proof fn lemma_steps_are_twelve_in_order(a: WizardStep, b: WizardStep, i: nat)
    ensures
        a.position() < STEP_COUNT,
        step_at(a.position()) == a,
        i < STEP_COUNT ==> step_at(i).position() == i,
        a.position() == b.position() ==> a == b,
        WizardStep::ALL@.len() == STEP_COUNT,
        i < STEP_COUNT ==> WizardStep::ALL@[i as int] == step_at(i),
{
}

/// `next` moves exactly one position forward and stays put on the last
/// step; `prev` moves exactly one position back and stays put on the first.
pub proof fn lemma_step_moves_by_one(step: WizardStep)
    ensures
        step != WizardStep::PreviewGenerate ==> step.successor().position() == step.position() + 1,
        step == WizardStep::PreviewGenerate ==> step.successor() == step,
        step != WizardStep::Welcome ==> step.predecessor().position() + 1 == step.position(),
        step == WizardStep::Welcome ==> step.predecessor() == step,
{
}

/// Going forward and then back returns to the same step, except from the
/// last step, where going forward moves nowhere; and the other way round
/// for the first step.
pub proof fn lemma_step_there_and_back(step: WizardStep)
    ensures
        step != WizardStep::PreviewGenerate ==> step.successor().predecessor() == step,
        step != WizardStep::Welcome ==> step.predecessor().successor() == step,
{
}

} // verus!

//! The wizard state: the current step, the interaction mode and the profile
//! record under construction.

use crate::config::profile::ProfileConfig;
use crate::ui::wizard::WizardStep;
use vstd::prelude::*;

verus! {

/// Basic or Advanced wizard mode.
#[derive(Debug, Clone, Copy, PartialEq, Eq)]
pub enum Mode {
    Basic,
    Advanced,
}

/// Result of the wizard generation step.
#[derive(Debug, Clone)]
pub struct GenerateResult {
    pub readme_content: String,
    pub toml_content: Option<String>,
    pub write_toml: bool,
}

/// Top-level wizard state container.
#[derive(Debug, Clone)]
pub struct WizardState {
    current_step: WizardStep,
    mode: Mode,
    config: ProfileConfig,
}

/// What a [`WizardState`] is, mathematically.
pub ghost struct WizardStateView {
    pub current_step: WizardStep,
    pub mode: Mode,
    pub config: ProfileConfig,
}

impl View for WizardState {
    type V = WizardStateView;

    closed spec fn view(&self) -> WizardStateView {
        WizardStateView { current_step: self.current_step, mode: self.mode, config: self.config }
    }
}

impl WizardState {
    /// A wizard at the first step, in the given mode, with a blank record.
    pub fn new(mode: Mode) -> (res: Self)
        ensures
            res@.current_step == WizardStep::Welcome,
            res@.mode == mode,
            res@.config.is_blank(),
    {
        Self { current_step: WizardStep::Welcome, mode, config: ProfileConfig::default() }
    }

    /// The step the wizard is at.
    pub fn current_step(&self) -> (res: WizardStep)
        ensures
            res == self@.current_step,
    {
        self.current_step
    }

    /// The interaction mode.
    pub fn mode(&self) -> (res: Mode)
        ensures
            res == self@.mode,
    {
        self.mode
    }

    /// Sets the interaction mode. Step and record stay as they are.
    pub fn set_mode(&mut self, mode: Mode)
        ensures
            final(self)@ == (WizardStateView { mode, ..old(self)@ }),
    {
        self.mode = mode;
    }

    /// The record under construction.
    pub fn config(&self) -> (res: &ProfileConfig)
        ensures
            *res == self@.config,
    {
        &self.config
    }

    /// The record under construction, for writing. Whatever the caller
    /// leaves in it is the wizard's record afterwards; step and mode stay as
    /// they are.
    pub fn config_mut(&mut self) -> (res: &mut ProfileConfig)
        ensures
            *res == old(self)@.config,
            final(self)@ == (WizardStateView { config: *final(res), ..old(self)@ }),
    {
        &mut self.config
    }

    /// Moves to the next step; stays on the last one.
    pub fn next_step(&mut self)
        ensures
            final(self)@ == (WizardStateView {
                current_step: old(self)@.current_step.successor(),
                ..old(self)@
            }),
    {
        self.current_step = self.current_step.next();
    }

    /// Moves to the previous step; stays on the first one.
    pub fn prev_step(&mut self)
        ensures
            final(self)@ == (WizardStateView {
                current_step: old(self)@.current_step.predecessor(),
                ..old(self)@
            }),
    {
        self.current_step = self.current_step.prev();
    }

    /// Hands the record out and ends the wizard.
    pub fn build_config(self) -> (res: ProfileConfig)
        ensures
            res == self@.config,
    {
        self.config
    }
}

} // verus!

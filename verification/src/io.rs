//! The IO manager: translates logical status and heating signals into simple
//! device-file write actions.  The writes themselves happen outside the
//! library; the manager only decides what to write where.

use vstd::prelude::*;

use crate::messages::{IoMessage, StateMessage};

verus! {

/// Paths of the device files the IO loop drives.
#[derive(Clone, PartialEq, Eq, Debug)]
pub struct IoConfig {
    pub trigger_input: String,
    pub exposure_status: String,
    pub heating_pwm: String,
    pub main_status: String,
}

impl IoConfig {
    /// Both configurations name the same paths.
    pub open spec fn eqv(self, other: Self) -> bool {
        &&& self.trigger_input@ == other.trigger_input@
        &&& self.exposure_status@ == other.exposure_status@
        &&& self.heating_pwm@ == other.heating_pwm@
        &&& self.main_status@ == other.main_status@
    }
}

impl Default for IoConfig {
    fn default() -> (r: Self)
        ensures
            r.trigger_input@ == "/sys/class/gpio/gpio17/value"@,
            r.exposure_status@ == "/sys/class/gpio/gpio2/value"@,
            r.heating_pwm@ == "/sys/class/gpio/gpio4/value"@,
            r.main_status@ == "/sys/class/gpio/gpio3/value"@,
    {
        IoConfig {
            trigger_input: String::from_str("/sys/class/gpio/gpio17/value"),
            exposure_status: String::from_str("/sys/class/gpio/gpio2/value"),
            heating_pwm: String::from_str("/sys/class/gpio/gpio4/value"),
            main_status: String::from_str("/sys/class/gpio/gpio3/value"),
        }
    }
}

/// One device-file write the IO loop should perform.
#[derive(PartialEq, Debug)]
pub enum IoAction {
    /// Write a boolean value to a status file.
    WriteOutput { path: String, value: bool },
    /// Drive a heating output at the given per-mille of full power.
    SetHeatingPwm { path: String, per_mille: u16 },
    /// Show the healthy status pattern on a status output.
    SetStatusHealthy { path: String },
}

/// Decides device-file writes from logical IO messages.
pub struct IoManager {
    pub last_trigger_value: Option<bool>,
    pub trigger_input_path: String,
    pub exposure_status_path: String,
    pub heating_pwm_path: String,
    pub main_status_path: String,
}

impl IoManager {
    pub fn new(config: &IoConfig) -> (r: Self)
        ensures
            r.last_trigger_value is None,
            r.trigger_input_path@ == config.trigger_input@,
            r.exposure_status_path@ == config.exposure_status@,
            r.heating_pwm_path@ == config.heating_pwm@,
            r.main_status_path@ == config.main_status@,
    {
        IoManager {
            last_trigger_value: None,
            trigger_input_path: config.trigger_input.clone(),
            exposure_status_path: config.exposure_status.clone(),
            heating_pwm_path: config.heating_pwm.clone(),
            main_status_path: config.main_status.clone(),
        }
    }

    /// Translates one logical message into the write it calls for.
    pub fn process(&mut self, message: &IoMessage) -> (r: Vec<IoAction>)
        ensures
            *final(self) == *old(self),
            r@.len() == 1,
            message matches IoMessage::SetHeating(v) ==> r@[0] matches IoAction::SetHeatingPwm {
                path,
                per_mille,
            } && path@ == old(self).heating_pwm_path@ && per_mille == v,
            message matches IoMessage::SetExposureActive(v) ==> r@[0]
                matches IoAction::WriteOutput { path, value }
                && path@ == old(self).exposure_status_path@ && value == v,
            message matches IoMessage::SetStatus(_) ==> r@[0] matches IoAction::SetStatusHealthy {
                path,
            } && path@ == old(self).main_status_path@,
    {
        let action = match message {
            IoMessage::SetHeating(value) => IoAction::SetHeatingPwm {
                path: self.heating_pwm_path.clone(),
                per_mille: *value,
            },
            IoMessage::SetExposureActive(value) => IoAction::WriteOutput {
                path: self.exposure_status_path.clone(),
                value: *value,
            },
            IoMessage::SetStatus(_) => IoAction::SetStatusHealthy {
                path: self.main_status_path.clone(),
            },
        };
        let mut out: Vec<IoAction> = Vec::new();
        out.push(action);
        out
    }

    /// The IO loop has no periodic duty beyond the writes above.
    pub fn periodic_tasks(&mut self) -> (r: Vec<StateMessage>)
        ensures
            *final(self) == *old(self),
            r@.len() == 0,
    {
        Vec::new()
    }
}

} // verus!

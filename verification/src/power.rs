//! Powering the host off and restarting it: what is answered at once, and
//! what is to run later.

use vstd::prelude::*;
use vstd::string::*;

verus! {

/// Seconds between the request and the start of the program.
pub const POWER_ACTION_DELAY_SECS: u64 = 3;

/// The two power actions.
#[derive(Clone, Copy, Debug, PartialEq, Eq, Structural)]
pub enum PowerAction {
    PowerOff,
    Reboot,
}

/// What a power request leads to: an answer for the requester now, and a
/// program to start, unobserved, once the delay has passed.
#[derive(Clone, Debug)]
pub struct PowerPlan {
    pub acknowledgement: String,
    pub delay_secs: u64,
    pub program: String,
}

/// The program that carries out `action`.
pub open spec fn program_name(action: PowerAction) -> Seq<char> {
    match action {
        PowerAction::PowerOff => "poweroff"@,
        PowerAction::Reboot => "reboot"@,
    }
}

/// The answer to a request for `action`.
pub open spec fn acknowledgement_text(action: PowerAction) -> Seq<char> {
    match action {
        PowerAction::PowerOff => "Reqesting to poweroff. Please see green led for for activity"@,
        PowerAction::Reboot => "Reqesting to Rebooting."@,
    }
}

/// The plan for `action`. The answer depends on nothing but the action: it is
/// there before the program starts, whatever the program later does.
pub fn request_power_action(action: PowerAction) -> (r: PowerPlan)
    ensures
        r.acknowledgement@ == acknowledgement_text(action),
        r.program@ == program_name(action),
        r.delay_secs == POWER_ACTION_DELAY_SECS,
{
    match action {
        PowerAction::PowerOff => PowerPlan {
            acknowledgement: String::from_str(
                "Reqesting to poweroff. Please see green led for for activity",
            ),
            delay_secs: POWER_ACTION_DELAY_SECS,
            program: String::from_str("poweroff"),
        },
        PowerAction::Reboot => PowerPlan {
            acknowledgement: String::from_str("Reqesting to Rebooting."),
            delay_secs: POWER_ACTION_DELAY_SECS,
            program: String::from_str("reboot"),
        },
    }
}

/// The plan for powering the host off.
pub fn poweroff() -> (r: PowerPlan)
    ensures
        r.acknowledgement@ == acknowledgement_text(PowerAction::PowerOff),
        r.program@ == program_name(PowerAction::PowerOff),
        r.delay_secs == POWER_ACTION_DELAY_SECS,
{
    request_power_action(PowerAction::PowerOff)
}

/// The plan for restarting the host.
pub fn reboot() -> (r: PowerPlan)
    ensures
        r.acknowledgement@ == acknowledgement_text(PowerAction::Reboot),
        r.program@ == program_name(PowerAction::Reboot),
        r.delay_secs == POWER_ACTION_DELAY_SECS,
{
    request_power_action(PowerAction::Reboot)
}

} // verus!

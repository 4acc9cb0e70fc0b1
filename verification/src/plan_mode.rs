//! `/plan-mode` -- toggle plan mode on/off.
//!
//! Unlike `/plan` (which only enters), `/plan-mode` toggles: if plan mode is
//! active it turns it off, otherwise it turns it on.
use vstd::prelude::*;
use crate::commands::{Action, CommandResult, PlanModeKind};
use crate::models::CommandExecCtx;

verus! {

/// Toggle plan mode on/off.
pub struct PlanModeCommand;

impl PlanModeCommand {
    pub fn name(&self) -> (r: &'static str)
        ensures
            r@ == "plan-mode"@,
    {
        "plan-mode"
    }

    pub fn aliases(&self) -> (r: Vec<&'static str>)
        ensures
            r.len() == 2,
            r@[0]@ == "toggle-plan"@,
            r@[1]@ == "plan-toggle"@,
    {
        let mut v: Vec<&'static str> = Vec::new();
        v.push("toggle-plan");
        v.push("plan-toggle");
        v
    }

    pub fn description(&self) -> (r: &'static str)
        ensures
            r@ == "Toggle plan mode on/off"@,
    {
        "Toggle plan mode on/off"
    }

    pub fn session_scoped(&self) -> (r: bool)
        ensures
            r,
    {
        true
    }

    pub fn usage(&self) -> (r: &'static str)
        ensures
            r@ == "/plan-mode"@,
    {
        "/plan-mode"
    }

    /// Turn plan mode off when it is active, on otherwise. Arguments are ignored.
    pub fn run(&self, ctx: &CommandExecCtx, args: &str) -> (r: CommandResult)
        ensures
            r matches CommandResult::Action(Action::SetPlanMode(kind)) && kind == (if ctx.plan_mode_active {
                PlanModeKind::Off
            } else {
                PlanModeKind::On
            }),
    {
        let kind = if ctx.plan_mode_active {
            PlanModeKind::Off
        } else {
            PlanModeKind::On
        };
        CommandResult::Action(Action::SetPlanMode(kind))
    }
}

} // verus!

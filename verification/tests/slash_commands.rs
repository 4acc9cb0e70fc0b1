use grok_pager::commands::{Action, CommandResult, PlanModeKind};
use grok_pager::models::{split_trailing_token, CommandExecCtx, ModelCommand, ModelState};
use grok_pager::plan_mode::PlanModeCommand;

#[test]
fn split_trailing_token_splits_on_final_whitespace() {
    assert_eq!(
        split_trailing_token("Reasoning X high"),
        Some(("Reasoning X".to_string(), "high".to_string()))
    );
    assert_eq!(
        split_trailing_token("reasoning-x  xhigh"),
        Some(("reasoning-x".to_string(), "xhigh".to_string()))
    );
    // No interior whitespace: nothing to split off.
    assert!(split_trailing_token("reasoning-x-pro").is_none());
}

#[test]
fn model_next_uses_scoped_cycle_action() {
    let models = ModelState::default();
    let ctx = CommandExecCtx { models: &models, plan_mode_active: false };
    assert!(matches!(ModelCommand.run(&ctx, "next"), CommandResult::Action(Action::NextModel)));
}

#[test]
fn bare_model_opens_picker() {
    let models = ModelState::default();
    let ctx = CommandExecCtx { models: &models, plan_mode_active: false };
    assert!(matches!(ModelCommand.run(&ctx, ""), CommandResult::Action(Action::OpenModelPicker)));
}

#[test]
fn toggles_on_when_inactive() {
    let models = ModelState::default();
    let ctx = CommandExecCtx { models: &models, plan_mode_active: false };
    match PlanModeCommand.run(&ctx, "") {
        CommandResult::Action(Action::SetPlanMode(kind)) => {
            assert_eq!(kind, PlanModeKind::On);
        }
        other => panic!("expected SetPlanMode(On), got {other:?}"),
    }
}

#[test]
fn toggles_off_when_active() {
    let models = ModelState::default();
    let ctx = CommandExecCtx { models: &models, plan_mode_active: true };
    match PlanModeCommand.run(&ctx, "") {
        CommandResult::Action(Action::SetPlanMode(kind)) => {
            assert_eq!(kind, PlanModeKind::Off);
        }
        other => panic!("expected SetPlanMode(Off), got {other:?}"),
    }
}

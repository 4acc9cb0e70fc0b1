use grok_pager::acp_command::{
    AcpMeta, AcpSlashCommand, AvailableCommandInfo, CompletionRow, MetaField, PiArgCompletion, SkillIdentity, SkillMeta,
    SkillScope,
};
use grok_pager::commands::{CommandProvenance, CommandResult};
use grok_pager::models::{AppCtx, ModelState};

fn s(text: &str) -> MetaField {
    MetaField::Str(text.to_string())
}

fn meta() -> AcpMeta {
    AcpMeta {
        path: MetaField::Absent,
        scope: MetaField::Absent,
        plugin_name: MetaField::Absent,
        pi_command_source: MetaField::Absent,
        argument_completions: None,
    }
}

fn parse(m: AcpMeta) -> SkillMeta {
    SkillMeta::parse(Some(&m))
}

fn make_cmd(name: &str, meta: Option<AcpMeta>) -> AvailableCommandInfo {
    AvailableCommandInfo { name: name.to_string(), description: format!("{name} command"), input_hint: None, meta }
}

#[test]
fn no_meta_or_unrelated_meta_is_absent() {
    assert_eq!(SkillMeta::parse(None), SkillMeta::Absent);
    assert_eq!(parse(meta()), SkillMeta::Absent);
}

#[test]
fn valid_skill_meta_parses_identity() {
    let m = AcpMeta { scope: s("local"), path: s("/home/user/.grok/skills/commit/SKILL.md"), ..meta() };
    assert_eq!(
        parse(m),
        SkillMeta::Skill(SkillIdentity {
            path: "/home/user/.grok/skills/commit/SKILL.md".to_string(),
            scope: SkillScope::Local,
            plugin_name: None,
        })
    );
}

#[test]
fn plugin_meta_carries_plugin_name() {
    let m = AcpMeta {
        scope: s("plugin"),
        path: s("/plugins/acme/skills/login/SKILL.md"),
        plugin_name: s("acme"),
        ..meta()
    };
    assert_eq!(
        parse(m),
        SkillMeta::Skill(SkillIdentity {
            path: "/plugins/acme/skills/login/SKILL.md".to_string(),
            scope: SkillScope::Plugin,
            plugin_name: Some("acme".to_string()),
        })
    );
}

#[test]
fn unknown_scope_string_is_foreign_not_malformed() {
    let m = AcpMeta { scope: s("workflow"), path: s(".grok/workflows/pr-cleanup.rhai"), ..meta() };
    assert_eq!(parse(m), SkillMeta::Foreign);
}

#[test]
fn missing_or_mistyped_skill_keys_are_malformed() {
    for (label, m) in [
        ("scope without path", AcpMeta { scope: s("user"), ..meta() }),
        ("path without scope", AcpMeta { path: s("/path/to/SKILL.md"), ..meta() }),
        ("path is not a string", AcpMeta { scope: s("local"), path: MetaField::Other, ..meta() }),
        ("scope is not a string", AcpMeta { scope: MetaField::Other, path: s("/path/to/SKILL.md"), ..meta() }),
    ] {
        assert_eq!(parse(m), SkillMeta::Malformed, "{label}");
    }
}

#[test]
fn empty_plugin_name_is_dropped() {
    let m = AcpMeta { scope: s("plugin"), path: s("/x/SKILL.md"), plugin_name: s("  "), ..meta() };
    match parse(m) {
        SkillMeta::Skill(identity) => assert_eq!(identity.plugin_name, None),
        other => panic!("expected Skill, got {other:?}"),
    }
}

fn identity(scope: SkillScope, plugin_name: Option<&str>) -> SkillIdentity {
    SkillIdentity { path: "/x/SKILL.md".to_string(), scope, plugin_name: plugin_name.map(str::to_string) }
}

#[test]
fn source_prefers_plugin_name_over_scope() {
    assert_eq!(identity(SkillScope::Plugin, Some("acme")).source(), "acme");
    assert_eq!(identity(SkillScope::Repo, Some("acme")).source(), "acme");
    assert_eq!(identity(SkillScope::Plugin, None).source(), "plugin");
    assert_eq!(identity(SkillScope::Local, None).source(), "local");
}

#[test]
fn provenance_distinguishes_skills_from_shell_commands() {
    let skill = AcpSlashCommand::from_available(&make_cmd(
        "login",
        Some(AcpMeta {
            scope: s("plugin"),
            path: s("/plugins/acme/skills/login/SKILL.md"),
            plugin_name: s("acme"),
            ..meta()
        }),
    ));
    assert!(skill.is_skill());
    assert_eq!(skill.provenance(), CommandProvenance::Skill { source: "acme".to_string() });

    let shell_cmd = AcpSlashCommand::from_available(&make_cmd("flush", None));
    assert!(!shell_cmd.is_skill());
    assert_eq!(shell_cmd.provenance(), CommandProvenance::Shell);
}

fn make_skill_cmd(name: &str, path: &str, scope: SkillScope) -> AcpSlashCommand {
    AcpSlashCommand {
        name: name.to_string(),
        description: format!("{name} skill"),
        has_args: true,
        arg_hint: None,
        skill: SkillMeta::Skill(SkillIdentity { path: path.to_string(), scope, plugin_name: None }),
        direct_pi_command: false,
        argument_completions: Vec::<PiArgCompletion>::new(),
    }
}

#[test]
fn run_non_skill_passes_through() {
    let cmd = AcpSlashCommand::from_available(&make_cmd("flush", None));
    let result = cmd.run("");
    assert!(matches!(result, CommandResult::PassThrough(t) if t == "/flush"));
}

#[test]
fn extension_metadata_runs_directly() {
    let cmd = make_cmd("review", Some(AcpMeta { pi_command_source: s("extension"), ..meta() }));
    let direct = AcpSlashCommand::from_available(&cmd);
    assert!(matches!(direct.run("scope"), CommandResult::DirectPiCommand(text) if text == "/review scope"));
}

#[test]
fn run_foreign_kind_passes_through_with_args() {
    let cmd = AcpSlashCommand::from_available(&make_cmd(
        "pr-cleanup",
        Some(AcpMeta { scope: s("workflow"), path: s(".grok/workflows/pr-cleanup.rhai"), ..meta() }),
    ));
    match cmd.run("fix the branch") {
        CommandResult::PassThrough(text) => assert_eq!(text, "/pr-cleanup fix the branch"),
        other => panic!("expected PassThrough, got {other:?}"),
    }
}

#[test]
fn run_malformed_meta_returns_error() {
    let cmd = AcpSlashCommand::from_available(&make_cmd(
        "broken",
        Some(AcpMeta { scope: s("local"), path: MetaField::Other, ..meta() }),
    ));
    let result = cmd.run("");
    assert!(matches!(result, CommandResult::Error(msg) if msg.contains("Malformed")));
}

#[test]
fn run_skill_sends_raw_slash_text_to_shell() {
    for (name, args, expected) in [
        ("commit", "fix the auth bug", "/commit fix the auth bug"),
        ("deploy", "", "/deploy"),
        ("local:compact", "", "/local:compact"),
    ] {
        let cmd = make_skill_cmd(name, "/nonexistent/path/SKILL.md", SkillScope::Local);
        match cmd.run(args) {
            CommandResult::InjectSkill { display_text, prompt_text, .. } => {
                assert_eq!(display_text, expected, "/{name} {args}");
                assert_eq!(prompt_text, expected, "/{name} {args}");
                assert!(!prompt_text.contains('<'), "/{name}: no client-side XML markup: {}", prompt_text);
            }
            other => panic!("/{name}: expected InjectSkill, got {other:?}"),
        }
    }
}

fn row(value: &str, label: &str) -> CompletionRow {
    CompletionRow { value: s(value), label: s(label), description: MetaField::Absent }
}

#[test]
fn suggest_args_filters_pi_argument_completions_like_gapp() {
    let cmd = make_cmd(
        "gapp",
        Some(AcpMeta {
            pi_command_source: s("extension"),
            argument_completions: Some(vec![
                row("list", "List apps"),
                row("open ", "Open app by id"),
                row("generate ", "Ask agent to generate a GAPP"),
            ]),
            ..meta()
        }),
    );
    let acp_cmd = AcpSlashCommand::from_available(&cmd);
    let models = ModelState::default();
    let ctx = AppCtx { models: &models };
    let all = acp_cmd.suggest_args(&ctx, "").expect("items");
    assert_eq!(all.len(), 3);
    assert_eq!(all[0].insert_text, "list");
    let open = acp_cmd.suggest_args(&ctx, "op").expect("open prefix");
    assert_eq!(open.len(), 1);
    assert_eq!(open[0].insert_text, "open ");
    let by_label = acp_cmd.suggest_args(&ctx, "generate").expect("label");
    assert_eq!(by_label.len(), 1);
    assert_eq!(by_label[0].insert_text, "generate ");
}

#[test]
fn completions_need_a_value_and_default_their_label() {
    let cmd = make_cmd(
        "x",
        Some(AcpMeta {
            argument_completions: Some(vec![
                CompletionRow { value: s(""), label: s("empty"), description: MetaField::Absent },
                CompletionRow { value: MetaField::Other, label: s("number"), description: MetaField::Absent },
                CompletionRow { value: s("go"), label: s(""), description: s("Go there") },
            ]),
            ..meta()
        }),
    );
    let acp_cmd = AcpSlashCommand::from_available(&cmd);
    assert_eq!(acp_cmd.argument_completions.len(), 1);
    assert_eq!(acp_cmd.argument_completions[0].label, "go");
    let models = ModelState::default();
    let items = acp_cmd.suggest_args(&AppCtx { models: &models }, "THERE").expect("description match");
    assert_eq!(items[0].match_text, "go go Go there");
    assert!(acp_cmd.suggest_args(&AppCtx { models: &models }, "zzz").is_none());
}

#[test]
fn skill_path_comes_from_skill_metadata_only() {
    let skill = AcpSlashCommand::from_available(&make_cmd(
        "commit",
        Some(AcpMeta { scope: s("user"), path: s("/skills/commit/SKILL.md"), ..meta() }),
    ));
    assert_eq!(skill.skill_path(), Some("/skills/commit/SKILL.md"));
    let shell = AcpSlashCommand::from_available(&make_cmd("flush", None));
    assert_eq!(shell.skill_path(), None);
}

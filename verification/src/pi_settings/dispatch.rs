//! Every setting of the catalog reaches an action when committed.
use vstd::prelude::*;
use crate::pi_settings::actions::{
    spec_bool_action, spec_enum_commit, spec_int_action, spec_is_side_model_slot, spec_string_action,
};
use crate::settings::catalog::{
    spec_catalog_heads, spec_catalog_keys, spec_catalog_kinds, spec_catalog_kinds_1,
    spec_catalog_kinds_2, spec_catalog_kinds_3, spec_catalog_kinds_4, spec_catalog_kinds_5,
    spec_catalog_kinds_6, spec_catalog_kinds_7, spec_catalog_part_1, spec_catalog_part_2,
    spec_catalog_part_3, spec_catalog_part_4, spec_catalog_part_5, spec_catalog_part_6,
    spec_catalog_part_7, CatalogDefaults,
};
use crate::settings::registry::KindSpec;

verus! {

/// Committing a setting of kind `kind` under `key` yields an action: a Bool
/// when switched on, an Enum for each of its choices, an Int for a value, a
/// String or dynamic choice for a typed (or, dynamic, an empty) value with
/// no model catalog, unless the key is a side-model slot, which opens the
/// model picker instead. A group opens its sub-sheet, whose children carry
/// the actions.
pub open spec fn dispatches(key: Seq<char>, kind: KindSpec) -> bool {
    match kind {
        KindSpec::Bool(_) => spec_bool_action(key, true) is Some,
        KindSpec::Enum(_, choices, _) => forall|j: int|
            0 <= j < choices.len() ==> (#[trigger] spec_enum_commit(key, choices[j])) is Some,
        KindSpec::Int(..) => spec_int_action(key, 1) is Some,
        KindSpec::String(..) => spec_string_action(Seq::empty(), key, "x"@) is Some
            || spec_is_side_model_slot(key),
        KindSpec::DynamicEnum(..) => spec_string_action(Seq::empty(), key, Seq::empty()) is Some
            || spec_is_side_model_slot(key),
        KindSpec::Group(_) => true,
    }
}

/// Sequences of different lengths differ.
proof fn lemma_lengths_differ(a: Seq<char>, b: Seq<char>)
    requires
        a.len() != b.len(),
    ensures
        a != b,
{
}

/// Sequences that differ at one position differ.
proof fn lemma_differ_at(a: Seq<char>, b: Seq<char>, d: int)
    requires
        0 <= d < a.len(),
        d < b.len(),
        a[d] != b[d],
    ensures
        a != b,
{
}

/// Catalog part 1 dispatches.
proof fn lemma_dispatch_part_1(env: CatalogDefaults)
    ensures
        forall|i: int| 0 <= i < spec_catalog_part_1().len() ==> dispatches(spec_catalog_part_1()[i].0, spec_catalog_kinds_1(env)[i].0),
{
    assert forall|i: int| 0 <= i < spec_catalog_part_1().len() implies dispatches(spec_catalog_part_1()[i].0, spec_catalog_kinds_1(env)[i].0) by {
        if i == 0 {
        } else if i == 1 {
            reveal_strlit("screen_mode");
            reveal_strlit("permission_mode");
            lemma_lengths_differ("screen_mode"@, "permission_mode"@);
            reveal_strlit("coding_data_sharing");
            lemma_lengths_differ("screen_mode"@, "coding_data_sharing"@);
            reveal_strlit("plan_mode");
            lemma_lengths_differ("screen_mode"@, "plan_mode"@);
            reveal_strlit("pi_eval");
            lemma_lengths_differ("screen_mode"@, "pi_eval"@);
            reveal_strlit("pi_eval_v2_language");
            lemma_lengths_differ("screen_mode"@, "pi_eval_v2_language"@);
            reveal_strlit("pi_eval_v2_display_mode");
            lemma_lengths_differ("screen_mode"@, "pi_eval_v2_display_mode"@);
            reveal_strlit("pi_bash_run_display");
            lemma_lengths_differ("screen_mode"@, "pi_bash_run_display"@);
            let cs = spec_catalog_kinds_1(env)[i].0->Enum_1;
            assert forall|j: int| 0 <= j < cs.len() implies (#[trigger] spec_enum_commit(spec_catalog_part_1()[i].0, cs[j])) is Some by {
                if j == 0 {
                    assert(cs[j] == "fullscreen"@);
                } else if j == 1 {
                    assert(cs[j] == "minimal"@);
                }
            }
        } else if i == 2 {
        } else if i == 3 {
        } else if i == 4 {
        } else if i == 5 {
        } else if i == 6 {
            reveal_strlit("follow_up_behavior");
            reveal_strlit("permission_mode");
            lemma_lengths_differ("follow_up_behavior"@, "permission_mode"@);
            reveal_strlit("coding_data_sharing");
            lemma_lengths_differ("follow_up_behavior"@, "coding_data_sharing"@);
            reveal_strlit("plan_mode");
            lemma_lengths_differ("follow_up_behavior"@, "plan_mode"@);
            reveal_strlit("pi_eval");
            lemma_lengths_differ("follow_up_behavior"@, "pi_eval"@);
            reveal_strlit("pi_eval_v2_language");
            lemma_lengths_differ("follow_up_behavior"@, "pi_eval_v2_language"@);
            reveal_strlit("pi_eval_v2_display_mode");
            lemma_lengths_differ("follow_up_behavior"@, "pi_eval_v2_display_mode"@);
            reveal_strlit("pi_bash_run_display");
            lemma_lengths_differ("follow_up_behavior"@, "pi_bash_run_display"@);
            reveal_strlit("render_mermaid");
            lemma_lengths_differ("follow_up_behavior"@, "render_mermaid"@);
            reveal_strlit("keep_text_selection");
            lemma_lengths_differ("follow_up_behavior"@, "keep_text_selection"@);
            reveal_strlit("scroll_mode");
            lemma_lengths_differ("follow_up_behavior"@, "scroll_mode"@);
            reveal_strlit("cancel_turn_key");
            lemma_lengths_differ("follow_up_behavior"@, "cancel_turn_key"@);
            let cs = spec_catalog_kinds_1(env)[i].0->Enum_1;
            assert forall|j: int| 0 <= j < cs.len() implies (#[trigger] spec_enum_commit(spec_catalog_part_1()[i].0, cs[j])) is Some by {
                if j == 0 {
                    assert(cs[j] == "queue"@);
                } else if j == 1 {
                    assert(cs[j] == "steer"@);
                }
            }
        } else if i == 7 {
            reveal_strlit("cancel_turn_key");
            reveal_strlit("permission_mode");
            lemma_differ_at("cancel_turn_key"@, "permission_mode"@, 0);
            reveal_strlit("coding_data_sharing");
            lemma_lengths_differ("cancel_turn_key"@, "coding_data_sharing"@);
            reveal_strlit("plan_mode");
            lemma_lengths_differ("cancel_turn_key"@, "plan_mode"@);
            reveal_strlit("pi_eval");
            lemma_lengths_differ("cancel_turn_key"@, "pi_eval"@);
            reveal_strlit("pi_eval_v2_language");
            lemma_lengths_differ("cancel_turn_key"@, "pi_eval_v2_language"@);
            reveal_strlit("pi_eval_v2_display_mode");
            lemma_lengths_differ("cancel_turn_key"@, "pi_eval_v2_display_mode"@);
            reveal_strlit("pi_bash_run_display");
            lemma_lengths_differ("cancel_turn_key"@, "pi_bash_run_display"@);
            reveal_strlit("render_mermaid");
            lemma_lengths_differ("cancel_turn_key"@, "render_mermaid"@);
            reveal_strlit("keep_text_selection");
            lemma_lengths_differ("cancel_turn_key"@, "keep_text_selection"@);
            reveal_strlit("scroll_mode");
            lemma_lengths_differ("cancel_turn_key"@, "scroll_mode"@);
            let cs = spec_catalog_kinds_1(env)[i].0->Enum_1;
            assert forall|j: int| 0 <= j < cs.len() implies (#[trigger] spec_enum_commit(spec_catalog_part_1()[i].0, cs[j])) is Some by {
                if j == 0 {
                    assert(cs[j] == "esc"@);
                } else if j == 1 {
                    assert(cs[j] == "ctrl_c"@);
                }
            }
        } else if i == 8 {
        } else if i == 9 {
        } else if i == 10 {
        } else if i == 11 {
            let cs = spec_catalog_kinds_1(env)[i].0->Enum_1;
            assert forall|j: int| 0 <= j < cs.len() implies (#[trigger] spec_enum_commit(spec_catalog_part_1()[i].0, cs[j])) is Some by {
                if j == 0 {
                    assert(cs[j] == "auto"@);
                } else if j == 1 {
                    assert(cs[j] == "pi:transparent"@);
                } else if j == 2 {
                    assert(cs[j] == "pi:transparent-light"@);
                } else if j == 3 {
                    assert(cs[j] == "groknight"@);
                } else if j == 4 {
                    assert(cs[j] == "grokday"@);
                } else if j == 5 {
                    assert(cs[j] == "tokyonight"@);
                } else if j == 6 {
                    assert(cs[j] == "rosepine-moon"@);
                } else if j == 7 {
                    assert(cs[j] == "oscura-midnight"@);
                }
            }
        } else if i == 12 {
            let cs = spec_catalog_kinds_1(env)[i].0->Enum_1;
            assert forall|j: int| 0 <= j < cs.len() implies (#[trigger] spec_enum_commit(spec_catalog_part_1()[i].0, cs[j])) is Some by {
                if j == 0 {
                    assert(cs[j] == "pi:transparent"@);
                } else if j == 1 {
                    assert(cs[j] == "pi:transparent-light"@);
                } else if j == 2 {
                    assert(cs[j] == "groknight"@);
                } else if j == 3 {
                    assert(cs[j] == "grokday"@);
                } else if j == 4 {
                    assert(cs[j] == "tokyonight"@);
                } else if j == 5 {
                    assert(cs[j] == "rosepine-moon"@);
                } else if j == 6 {
                    assert(cs[j] == "oscura-midnight"@);
                }
            }
        } else if i == 13 {
            let cs = spec_catalog_kinds_1(env)[i].0->Enum_1;
            assert forall|j: int| 0 <= j < cs.len() implies (#[trigger] spec_enum_commit(spec_catalog_part_1()[i].0, cs[j])) is Some by {
                if j == 0 {
                    assert(cs[j] == "pi:transparent"@);
                } else if j == 1 {
                    assert(cs[j] == "pi:transparent-light"@);
                } else if j == 2 {
                    assert(cs[j] == "groknight"@);
                } else if j == 3 {
                    assert(cs[j] == "grokday"@);
                } else if j == 4 {
                    assert(cs[j] == "tokyonight"@);
                } else if j == 5 {
                    assert(cs[j] == "rosepine-moon"@);
                } else if j == 6 {
                    assert(cs[j] == "oscura-midnight"@);
                }
            }
        }
    }
}

/// Catalog part 2 dispatches.
proof fn lemma_dispatch_part_2(env: CatalogDefaults)
    ensures
        forall|i: int| 0 <= i < spec_catalog_part_2().len() ==> dispatches(spec_catalog_part_2()[i].0, spec_catalog_kinds_2(env)[i].0),
{
    assert forall|i: int| 0 <= i < spec_catalog_part_2().len() implies dispatches(spec_catalog_part_2()[i].0, spec_catalog_kinds_2(env)[i].0) by {
        if i == 0 {
            reveal_strlit("render_mermaid");
            reveal_strlit("permission_mode");
            lemma_lengths_differ("render_mermaid"@, "permission_mode"@);
            reveal_strlit("coding_data_sharing");
            lemma_lengths_differ("render_mermaid"@, "coding_data_sharing"@);
            reveal_strlit("plan_mode");
            lemma_lengths_differ("render_mermaid"@, "plan_mode"@);
            reveal_strlit("pi_eval");
            lemma_lengths_differ("render_mermaid"@, "pi_eval"@);
            reveal_strlit("pi_eval_v2_language");
            lemma_lengths_differ("render_mermaid"@, "pi_eval_v2_language"@);
            reveal_strlit("pi_eval_v2_display_mode");
            lemma_lengths_differ("render_mermaid"@, "pi_eval_v2_display_mode"@);
            reveal_strlit("pi_bash_run_display");
            lemma_lengths_differ("render_mermaid"@, "pi_bash_run_display"@);
            let cs = spec_catalog_kinds_2(env)[i].0->Enum_1;
            assert forall|j: int| 0 <= j < cs.len() implies (#[trigger] spec_enum_commit(spec_catalog_part_2()[i].0, cs[j])) is Some by {
                if j == 0 {
                    assert(cs[j] == "auto"@);
                } else if j == 1 {
                    assert(cs[j] == "on"@);
                } else if j == 2 {
                    assert(cs[j] == "off"@);
                }
            }
        } else if i == 1 {
            let cs = spec_catalog_kinds_2(env)[i].0->Enum_1;
            assert forall|j: int| 0 <= j < cs.len() implies (#[trigger] spec_enum_commit(spec_catalog_part_2()[i].0, cs[j])) is Some by {
                if j == 0 {
                    assert(cs[j] == "default"@);
                } else if j == 1 {
                    assert(cs[j] == "ask"@);
                } else if j == 2 {
                    assert(cs[j] == "auto"@);
                } else if j == 3 {
                    assert(cs[j] == "always-approve"@);
                }
            }
        } else if i == 2 {
        } else if i == 3 {
        } else if i == 4 {
        } else if i == 5 {
        } else if i == 6 {
        } else if i == 7 {
        } else if i == 8 {
        } else if i == 9 {
            reveal_strlit("x");
        } else if i == 10 {
        } else if i == 11 {
        } else if i == 12 {
        } else if i == 13 {
        }
    }
}

/// Catalog part 3 dispatches.
proof fn lemma_dispatch_part_3(env: CatalogDefaults)
    ensures
        forall|i: int| 0 <= i < spec_catalog_part_3().len() ==> dispatches(spec_catalog_part_3()[i].0, spec_catalog_kinds_3(env)[i].0),
{
    assert forall|i: int| 0 <= i < spec_catalog_part_3().len() implies dispatches(spec_catalog_part_3()[i].0, spec_catalog_kinds_3(env)[i].0) by {
        if i == 0 {
            reveal_strlit("ctrl_o_tool_expansion");
            reveal_strlit("permission_mode");
            lemma_lengths_differ("ctrl_o_tool_expansion"@, "permission_mode"@);
            reveal_strlit("coding_data_sharing");
            lemma_lengths_differ("ctrl_o_tool_expansion"@, "coding_data_sharing"@);
            reveal_strlit("plan_mode");
            lemma_lengths_differ("ctrl_o_tool_expansion"@, "plan_mode"@);
            let cs = spec_catalog_kinds_3(env)[i].0->Enum_1;
            assert forall|j: int| 0 <= j < cs.len() implies (#[trigger] spec_enum_commit(spec_catalog_part_3()[i].0, cs[j])) is Some by {
                if j == 0 {
                    assert(cs[j] == "write_edit"@);
                } else if j == 1 {
                    assert(cs[j] == "all_tools"@);
                }
            }
        } else if i == 1 {
            reveal_strlit("pi_bash_run_display");
            reveal_strlit("permission_mode");
            lemma_lengths_differ("pi_bash_run_display"@, "permission_mode"@);
            reveal_strlit("coding_data_sharing");
            lemma_differ_at("pi_bash_run_display"@, "coding_data_sharing"@, 0);
            reveal_strlit("plan_mode");
            lemma_lengths_differ("pi_bash_run_display"@, "plan_mode"@);
            reveal_strlit("pi_eval");
            lemma_lengths_differ("pi_bash_run_display"@, "pi_eval"@);
            reveal_strlit("pi_eval_v2_language");
            lemma_differ_at("pi_bash_run_display"@, "pi_eval_v2_language"@, 3);
            reveal_strlit("pi_eval_v2_display_mode");
            lemma_lengths_differ("pi_bash_run_display"@, "pi_eval_v2_display_mode"@);
            let cs = spec_catalog_kinds_3(env)[i].0->Enum_1;
            assert forall|j: int| 0 <= j < cs.len() implies (#[trigger] spec_enum_commit(spec_catalog_part_3()[i].0, cs[j])) is Some by {
                if j == 0 {
                    assert(cs[j] == "command_only"@);
                } else if j == 1 {
                    assert(cs[j] == "task_name"@);
                } else if j == 2 {
                    assert(cs[j] == "task_name_and_command"@);
                }
            }
        } else if i == 2 {
        } else if i == 3 {
        } else if i == 4 {
        } else if i == 5 {
        } else if i == 6 {
            reveal_strlit("scroll_mode");
            reveal_strlit("permission_mode");
            lemma_lengths_differ("scroll_mode"@, "permission_mode"@);
            reveal_strlit("coding_data_sharing");
            lemma_lengths_differ("scroll_mode"@, "coding_data_sharing"@);
            reveal_strlit("plan_mode");
            lemma_lengths_differ("scroll_mode"@, "plan_mode"@);
            reveal_strlit("pi_eval");
            lemma_lengths_differ("scroll_mode"@, "pi_eval"@);
            reveal_strlit("pi_eval_v2_language");
            lemma_lengths_differ("scroll_mode"@, "pi_eval_v2_language"@);
            reveal_strlit("pi_eval_v2_display_mode");
            lemma_lengths_differ("scroll_mode"@, "pi_eval_v2_display_mode"@);
            reveal_strlit("pi_bash_run_display");
            lemma_lengths_differ("scroll_mode"@, "pi_bash_run_display"@);
            reveal_strlit("render_mermaid");
            lemma_lengths_differ("scroll_mode"@, "render_mermaid"@);
            reveal_strlit("keep_text_selection");
            lemma_lengths_differ("scroll_mode"@, "keep_text_selection"@);
            let cs = spec_catalog_kinds_3(env)[i].0->Enum_1;
            assert forall|j: int| 0 <= j < cs.len() implies (#[trigger] spec_enum_commit(spec_catalog_part_3()[i].0, cs[j])) is Some by {
                if j == 0 {
                    assert(cs[j] == "auto"@);
                } else if j == 1 {
                    assert(cs[j] == "wheel"@);
                } else if j == 2 {
                    assert(cs[j] == "trackpad"@);
                }
            }
        } else if i == 7 {
        } else if i == 8 {
        } else if i == 9 {
            reveal_strlit("keep_text_selection");
            reveal_strlit("permission_mode");
            lemma_lengths_differ("keep_text_selection"@, "permission_mode"@);
            reveal_strlit("coding_data_sharing");
            lemma_differ_at("keep_text_selection"@, "coding_data_sharing"@, 0);
            reveal_strlit("plan_mode");
            lemma_lengths_differ("keep_text_selection"@, "plan_mode"@);
            reveal_strlit("pi_eval");
            lemma_lengths_differ("keep_text_selection"@, "pi_eval"@);
            reveal_strlit("pi_eval_v2_language");
            lemma_differ_at("keep_text_selection"@, "pi_eval_v2_language"@, 0);
            reveal_strlit("pi_eval_v2_display_mode");
            lemma_lengths_differ("keep_text_selection"@, "pi_eval_v2_display_mode"@);
            reveal_strlit("pi_bash_run_display");
            lemma_differ_at("keep_text_selection"@, "pi_bash_run_display"@, 0);
            reveal_strlit("render_mermaid");
            lemma_lengths_differ("keep_text_selection"@, "render_mermaid"@);
            let cs = spec_catalog_kinds_3(env)[i].0->Enum_1;
            assert forall|j: int| 0 <= j < cs.len() implies (#[trigger] spec_enum_commit(spec_catalog_part_3()[i].0, cs[j])) is Some by {
                if j == 0 {
                    assert(cs[j] == "flash"@);
                } else if j == 1 {
                    assert(cs[j] == "hold"@);
                } else if j == 2 {
                    assert(cs[j] == "word_select"@);
                }
            }
        } else if i == 10 {
            reveal_strlit("coding_data_sharing");
            reveal_strlit("permission_mode");
            lemma_lengths_differ("coding_data_sharing"@, "permission_mode"@);
            let cs = spec_catalog_kinds_3(env)[i].0->Enum_1;
            assert forall|j: int| 0 <= j < cs.len() implies (#[trigger] spec_enum_commit(spec_catalog_part_3()[i].0, cs[j])) is Some by {
                if j == 0 {
                    assert(cs[j] == "opt-in"@);
                } else if j == 1 {
                    assert(cs[j] == "opt-out"@);
                }
            }
        } else if i == 11 {
            reveal_strlit("default_selected_permission");
            reveal_strlit("permission_mode");
            lemma_lengths_differ("default_selected_permission"@, "permission_mode"@);
            reveal_strlit("coding_data_sharing");
            lemma_lengths_differ("default_selected_permission"@, "coding_data_sharing"@);
            reveal_strlit("plan_mode");
            lemma_lengths_differ("default_selected_permission"@, "plan_mode"@);
            reveal_strlit("pi_eval");
            lemma_lengths_differ("default_selected_permission"@, "pi_eval"@);
            reveal_strlit("pi_eval_v2_language");
            lemma_lengths_differ("default_selected_permission"@, "pi_eval_v2_language"@);
            reveal_strlit("pi_eval_v2_display_mode");
            lemma_lengths_differ("default_selected_permission"@, "pi_eval_v2_display_mode"@);
            reveal_strlit("pi_bash_run_display");
            lemma_lengths_differ("default_selected_permission"@, "pi_bash_run_display"@);
            reveal_strlit("render_mermaid");
            lemma_lengths_differ("default_selected_permission"@, "render_mermaid"@);
            reveal_strlit("keep_text_selection");
            lemma_lengths_differ("default_selected_permission"@, "keep_text_selection"@);
            reveal_strlit("scroll_mode");
            lemma_lengths_differ("default_selected_permission"@, "scroll_mode"@);
            reveal_strlit("cancel_turn_key");
            lemma_lengths_differ("default_selected_permission"@, "cancel_turn_key"@);
            reveal_strlit("follow_up_behavior");
            lemma_lengths_differ("default_selected_permission"@, "follow_up_behavior"@);
            let cs = spec_catalog_kinds_3(env)[i].0->Enum_1;
            assert forall|j: int| 0 <= j < cs.len() implies (#[trigger] spec_enum_commit(spec_catalog_part_3()[i].0, cs[j])) is Some by {
                if j == 0 {
                    assert(cs[j] == "always_allow_all_sessions"@);
                } else if j == 1 {
                    assert(cs[j] == "allow_always"@);
                } else if j == 2 {
                    assert(cs[j] == "allow_once"@);
                } else if j == 3 {
                    assert(cs[j] == "reject"@);
                }
            }
        } else if i == 12 {
        } else if i == 13 {
            reveal_strlit("plan_mode");
            reveal_strlit("permission_mode");
            lemma_lengths_differ("plan_mode"@, "permission_mode"@);
            reveal_strlit("coding_data_sharing");
            lemma_lengths_differ("plan_mode"@, "coding_data_sharing"@);
            let cs = spec_catalog_kinds_3(env)[i].0->Enum_1;
            assert forall|j: int| 0 <= j < cs.len() implies (#[trigger] spec_enum_commit(spec_catalog_part_3()[i].0, cs[j])) is Some by {
                if j == 0 {
                    assert(cs[j] == "off"@);
                } else if j == 1 {
                    assert(cs[j] == "on"@);
                }
            }
        }
    }
}

/// Catalog part 4 dispatches.
proof fn lemma_dispatch_part_4(env: CatalogDefaults)
    ensures
        forall|i: int| 0 <= i < spec_catalog_part_4().len() ==> dispatches(spec_catalog_part_4()[i].0, spec_catalog_kinds_4(env)[i].0),
{
    assert forall|i: int| 0 <= i < spec_catalog_part_4().len() implies dispatches(spec_catalog_part_4()[i].0, spec_catalog_kinds_4(env)[i].0) by {
        if i == 0 {
        } else if i == 1 {
        } else if i == 2 {
        } else if i == 3 {
            reveal_strlit("hunk_tracker_mode");
            reveal_strlit("permission_mode");
            lemma_lengths_differ("hunk_tracker_mode"@, "permission_mode"@);
            reveal_strlit("coding_data_sharing");
            lemma_lengths_differ("hunk_tracker_mode"@, "coding_data_sharing"@);
            reveal_strlit("plan_mode");
            lemma_lengths_differ("hunk_tracker_mode"@, "plan_mode"@);
            reveal_strlit("pi_eval");
            lemma_lengths_differ("hunk_tracker_mode"@, "pi_eval"@);
            reveal_strlit("pi_eval_v2_language");
            lemma_lengths_differ("hunk_tracker_mode"@, "pi_eval_v2_language"@);
            reveal_strlit("pi_eval_v2_display_mode");
            lemma_lengths_differ("hunk_tracker_mode"@, "pi_eval_v2_display_mode"@);
            reveal_strlit("pi_bash_run_display");
            lemma_lengths_differ("hunk_tracker_mode"@, "pi_bash_run_display"@);
            let cs = spec_catalog_kinds_4(env)[i].0->Enum_1;
            assert forall|j: int| 0 <= j < cs.len() implies (#[trigger] spec_enum_commit(spec_catalog_part_4()[i].0, cs[j])) is Some by {
                if j == 0 {
                    assert(cs[j] == "agent_only"@);
                } else if j == 1 {
                    assert(cs[j] == "all_dirty"@);
                } else if j == 2 {
                    assert(cs[j] == "off"@);
                }
            }
        } else if i == 4 {
        } else if i == 5 {
            reveal_strlit("voice_capture_mode");
            reveal_strlit("permission_mode");
            lemma_lengths_differ("voice_capture_mode"@, "permission_mode"@);
            reveal_strlit("coding_data_sharing");
            lemma_lengths_differ("voice_capture_mode"@, "coding_data_sharing"@);
            reveal_strlit("plan_mode");
            lemma_lengths_differ("voice_capture_mode"@, "plan_mode"@);
            reveal_strlit("pi_eval");
            lemma_lengths_differ("voice_capture_mode"@, "pi_eval"@);
            reveal_strlit("pi_eval_v2_language");
            lemma_lengths_differ("voice_capture_mode"@, "pi_eval_v2_language"@);
            reveal_strlit("pi_eval_v2_display_mode");
            lemma_lengths_differ("voice_capture_mode"@, "pi_eval_v2_display_mode"@);
            reveal_strlit("pi_bash_run_display");
            lemma_lengths_differ("voice_capture_mode"@, "pi_bash_run_display"@);
            let cs = spec_catalog_kinds_4(env)[i].0->Enum_1;
            assert forall|j: int| 0 <= j < cs.len() implies (#[trigger] spec_enum_commit(spec_catalog_part_4()[i].0, cs[j])) is Some by {
                if j == 0 {
                    assert(cs[j] == "toggle"@);
                } else if j == 1 {
                    assert(cs[j] == "hold"@);
                }
            }
        } else if i == 6 {
            reveal_strlit("voice_stt_language");
            reveal_strlit("permission_mode");
            lemma_lengths_differ("voice_stt_language"@, "permission_mode"@);
            reveal_strlit("coding_data_sharing");
            lemma_lengths_differ("voice_stt_language"@, "coding_data_sharing"@);
            reveal_strlit("plan_mode");
            lemma_lengths_differ("voice_stt_language"@, "plan_mode"@);
            reveal_strlit("pi_eval");
            lemma_lengths_differ("voice_stt_language"@, "pi_eval"@);
            reveal_strlit("pi_eval_v2_language");
            lemma_lengths_differ("voice_stt_language"@, "pi_eval_v2_language"@);
            reveal_strlit("pi_eval_v2_display_mode");
            lemma_lengths_differ("voice_stt_language"@, "pi_eval_v2_display_mode"@);
            reveal_strlit("pi_bash_run_display");
            lemma_lengths_differ("voice_stt_language"@, "pi_bash_run_display"@);
            let cs = spec_catalog_kinds_4(env)[i].0->Enum_1;
            assert forall|j: int| 0 <= j < cs.len() implies (#[trigger] spec_enum_commit(spec_catalog_part_4()[i].0, cs[j])) is Some by {
                if j == 0 {
                    assert(cs[j] == "en"@);
                } else if j == 1 {
                    assert(cs[j] == "auto"@);
                } else if j == 2 {
                    assert(cs[j] == "ar"@);
                } else if j == 3 {
                    assert(cs[j] == "cs"@);
                } else if j == 4 {
                    assert(cs[j] == "da"@);
                } else if j == 5 {
                    assert(cs[j] == "nl"@);
                } else if j == 6 {
                    assert(cs[j] == "fil"@);
                } else if j == 7 {
                    assert(cs[j] == "fr"@);
                } else if j == 8 {
                    assert(cs[j] == "de"@);
                } else if j == 9 {
                    assert(cs[j] == "hi"@);
                } else if j == 10 {
                    assert(cs[j] == "id"@);
                } else if j == 11 {
                    assert(cs[j] == "it"@);
                } else if j == 12 {
                    assert(cs[j] == "ja"@);
                } else if j == 13 {
                    assert(cs[j] == "ko"@);
                } else if j == 14 {
                    assert(cs[j] == "mk"@);
                } else if j == 15 {
                    assert(cs[j] == "ms"@);
                } else if j == 16 {
                    assert(cs[j] == "fa"@);
                } else if j == 17 {
                    assert(cs[j] == "pl"@);
                } else if j == 18 {
                    assert(cs[j] == "pt"@);
                } else if j == 19 {
                    assert(cs[j] == "ro"@);
                } else if j == 20 {
                    assert(cs[j] == "ru"@);
                } else if j == 21 {
                    assert(cs[j] == "es"@);
                } else if j == 22 {
                    assert(cs[j] == "sv"@);
                } else if j == 23 {
                    assert(cs[j] == "th"@);
                } else if j == 24 {
                    assert(cs[j] == "tr"@);
                } else if j == 25 {
                    assert(cs[j] == "vi"@);
                }
            }
        } else if i == 7 {
        } else if i == 8 {
        } else if i == 9 {
        } else if i == 10 {
        } else if i == 11 {
        } else if i == 12 {
        } else if i == 13 {
        }
    }
}

/// Catalog part 5 dispatches.
proof fn lemma_dispatch_part_5(env: CatalogDefaults)
    ensures
        forall|i: int| 0 <= i < spec_catalog_part_5(env.on_windows).len() ==> dispatches(spec_catalog_part_5(env.on_windows)[i].0, spec_catalog_kinds_5(env)[i].0),
{
    if env.on_windows {
        assert forall|i: int| 0 <= i < spec_catalog_part_5(env.on_windows).len() implies dispatches(spec_catalog_part_5(env.on_windows)[i].0, spec_catalog_kinds_5(env)[i].0) by {
            if i == 0 {
                reveal_strlit("fork_secondary_model");
                reveal_strlit("default_model");
                lemma_lengths_differ("fork_secondary_model"@, "default_model"@);
            } else if i == 1 {
            } else if i == 2 {
                reveal_strlit("pi_eval");
                reveal_strlit("permission_mode");
                lemma_lengths_differ("pi_eval"@, "permission_mode"@);
                reveal_strlit("coding_data_sharing");
                lemma_lengths_differ("pi_eval"@, "coding_data_sharing"@);
                reveal_strlit("plan_mode");
                lemma_lengths_differ("pi_eval"@, "plan_mode"@);
                let cs = spec_catalog_kinds_5(env)[i].0->Enum_1;
                assert forall|j: int| 0 <= j < cs.len() implies (#[trigger] spec_enum_commit(spec_catalog_part_5(env.on_windows)[i].0, cs[j])) is Some by {
                    if j == 0 {
                        assert(cs[j] == "v1"@);
                    } else if j == 1 {
                        assert(cs[j] == "v2"@);
                    }
                }
            } else if i == 3 {
                reveal_strlit("pi_eval_v2_language");
                reveal_strlit("permission_mode");
                lemma_lengths_differ("pi_eval_v2_language"@, "permission_mode"@);
                reveal_strlit("coding_data_sharing");
                lemma_differ_at("pi_eval_v2_language"@, "coding_data_sharing"@, 0);
                reveal_strlit("plan_mode");
                lemma_lengths_differ("pi_eval_v2_language"@, "plan_mode"@);
                reveal_strlit("pi_eval");
                lemma_lengths_differ("pi_eval_v2_language"@, "pi_eval"@);
                let cs = spec_catalog_kinds_5(env)[i].0->Enum_1;
                assert forall|j: int| 0 <= j < cs.len() implies (#[trigger] spec_enum_commit(spec_catalog_part_5(env.on_windows)[i].0, cs[j])) is Some by {
                    if j == 0 {
                        assert(cs[j] == "js"@);
                    } else if j == 1 {
                        assert(cs[j] == "py"@);
                    } else if j == 2 {
                        assert(cs[j] == "all"@);
                    }
                }
            } else if i == 4 {
                reveal_strlit("pi_eval_v2_display_mode");
                reveal_strlit("permission_mode");
                lemma_lengths_differ("pi_eval_v2_display_mode"@, "permission_mode"@);
                reveal_strlit("coding_data_sharing");
                lemma_lengths_differ("pi_eval_v2_display_mode"@, "coding_data_sharing"@);
                reveal_strlit("plan_mode");
                lemma_lengths_differ("pi_eval_v2_display_mode"@, "plan_mode"@);
                reveal_strlit("pi_eval");
                lemma_lengths_differ("pi_eval_v2_display_mode"@, "pi_eval"@);
                reveal_strlit("pi_eval_v2_language");
                lemma_lengths_differ("pi_eval_v2_display_mode"@, "pi_eval_v2_language"@);
                let cs = spec_catalog_kinds_5(env)[i].0->Enum_1;
                assert forall|j: int| 0 <= j < cs.len() implies (#[trigger] spec_enum_commit(spec_catalog_part_5(env.on_windows)[i].0, cs[j])) is Some by {
                    if j == 0 {
                        assert(cs[j] == "effects"@);
                    } else if j == 1 {
                        assert(cs[j] == "legacy"@);
                    }
                }
            } else if i == 5 {
            } else if i == 6 {
            } else if i == 7 {
            } else if i == 8 {
            } else if i == 9 {
            } else if i == 10 {
            } else if i == 11 {
            } else if i == 12 {
            } else if i == 13 {
            }
        }
    } else {
        assert forall|i: int| 0 <= i < spec_catalog_part_5(env.on_windows).len() implies dispatches(spec_catalog_part_5(env.on_windows)[i].0, spec_catalog_kinds_5(env)[i].0) by {
            if i == 0 {
                reveal_strlit("fork_secondary_model");
                reveal_strlit("default_model");
                lemma_lengths_differ("fork_secondary_model"@, "default_model"@);
            } else if i == 1 {
            } else if i == 2 {
                reveal_strlit("pi_eval");
                reveal_strlit("permission_mode");
                lemma_lengths_differ("pi_eval"@, "permission_mode"@);
                reveal_strlit("coding_data_sharing");
                lemma_lengths_differ("pi_eval"@, "coding_data_sharing"@);
                reveal_strlit("plan_mode");
                lemma_lengths_differ("pi_eval"@, "plan_mode"@);
                let cs = spec_catalog_kinds_5(env)[i].0->Enum_1;
                assert forall|j: int| 0 <= j < cs.len() implies (#[trigger] spec_enum_commit(spec_catalog_part_5(env.on_windows)[i].0, cs[j])) is Some by {
                    if j == 0 {
                        assert(cs[j] == "v1"@);
                    } else if j == 1 {
                        assert(cs[j] == "v2"@);
                    }
                }
            } else if i == 3 {
                reveal_strlit("pi_eval_v2_language");
                reveal_strlit("permission_mode");
                lemma_lengths_differ("pi_eval_v2_language"@, "permission_mode"@);
                reveal_strlit("coding_data_sharing");
                lemma_differ_at("pi_eval_v2_language"@, "coding_data_sharing"@, 0);
                reveal_strlit("plan_mode");
                lemma_lengths_differ("pi_eval_v2_language"@, "plan_mode"@);
                reveal_strlit("pi_eval");
                lemma_lengths_differ("pi_eval_v2_language"@, "pi_eval"@);
                let cs = spec_catalog_kinds_5(env)[i].0->Enum_1;
                assert forall|j: int| 0 <= j < cs.len() implies (#[trigger] spec_enum_commit(spec_catalog_part_5(env.on_windows)[i].0, cs[j])) is Some by {
                    if j == 0 {
                        assert(cs[j] == "js"@);
                    } else if j == 1 {
                        assert(cs[j] == "py"@);
                    } else if j == 2 {
                        assert(cs[j] == "all"@);
                    }
                }
            } else if i == 4 {
                reveal_strlit("pi_eval_v2_display_mode");
                reveal_strlit("permission_mode");
                lemma_lengths_differ("pi_eval_v2_display_mode"@, "permission_mode"@);
                reveal_strlit("coding_data_sharing");
                lemma_lengths_differ("pi_eval_v2_display_mode"@, "coding_data_sharing"@);
                reveal_strlit("plan_mode");
                lemma_lengths_differ("pi_eval_v2_display_mode"@, "plan_mode"@);
                reveal_strlit("pi_eval");
                lemma_lengths_differ("pi_eval_v2_display_mode"@, "pi_eval"@);
                reveal_strlit("pi_eval_v2_language");
                lemma_lengths_differ("pi_eval_v2_display_mode"@, "pi_eval_v2_language"@);
                let cs = spec_catalog_kinds_5(env)[i].0->Enum_1;
                assert forall|j: int| 0 <= j < cs.len() implies (#[trigger] spec_enum_commit(spec_catalog_part_5(env.on_windows)[i].0, cs[j])) is Some by {
                    if j == 0 {
                        assert(cs[j] == "effects"@);
                    } else if j == 1 {
                        assert(cs[j] == "legacy"@);
                    }
                }
            } else if i == 5 {
            } else if i == 6 {
            } else if i == 7 {
            } else if i == 8 {
            } else if i == 9 {
            } else if i == 10 {
            } else if i == 11 {
            } else if i == 12 {
            }
        }
    }
}

/// Catalog part 6 dispatches.
proof fn lemma_dispatch_part_6(env: CatalogDefaults)
    ensures
        forall|i: int| 0 <= i < spec_catalog_part_6().len() ==> dispatches(spec_catalog_part_6()[i].0, spec_catalog_kinds_6(env)[i].0),
{
    assert forall|i: int| 0 <= i < spec_catalog_part_6().len() implies dispatches(spec_catalog_part_6()[i].0, spec_catalog_kinds_6(env)[i].0) by {
        if i == 0 {
        } else if i == 1 {
        } else if i == 2 {
        } else if i == 3 {
        } else if i == 4 {
        } else if i == 5 {
        } else if i == 6 {
        } else if i == 7 {
        } else if i == 8 {
        } else if i == 9 {
        } else if i == 10 {
        } else if i == 11 {
        } else if i == 12 {
        } else if i == 13 {
        }
    }
}

/// Catalog part 7 dispatches.
proof fn lemma_dispatch_part_7(env: CatalogDefaults)
    ensures
        forall|i: int| 0 <= i < spec_catalog_part_7().len() ==> dispatches(spec_catalog_part_7()[i].0, spec_catalog_kinds_7(env)[i].0),
{
    assert forall|i: int| 0 <= i < spec_catalog_part_7().len() implies dispatches(spec_catalog_part_7()[i].0, spec_catalog_kinds_7(env)[i].0) by {
        if i == 0 {
        } else if i == 1 {
        } else if i == 2 {
        } else if i == 3 {
        } else if i == 4 {
        } else if i == 5 {
        } else if i == 6 {
        } else if i == 7 {
            reveal_strlit("recap_model");
            reveal_strlit("default_model");
            lemma_lengths_differ("recap_model"@, "default_model"@);
            reveal_strlit("fork_secondary_model");
            lemma_lengths_differ("recap_model"@, "fork_secondary_model"@);
        } else if i == 8 {
            reveal_strlit("recap_model_2");
            reveal_strlit("default_model");
            lemma_differ_at("recap_model_2"@, "default_model"@, 0);
            reveal_strlit("fork_secondary_model");
            lemma_lengths_differ("recap_model_2"@, "fork_secondary_model"@);
            reveal_strlit("recap_model");
            lemma_lengths_differ("recap_model_2"@, "recap_model"@);
        } else if i == 9 {
            reveal_strlit("recap_model_3");
            reveal_strlit("default_model");
            lemma_differ_at("recap_model_3"@, "default_model"@, 0);
            reveal_strlit("fork_secondary_model");
            lemma_lengths_differ("recap_model_3"@, "fork_secondary_model"@);
            reveal_strlit("recap_model");
            lemma_lengths_differ("recap_model_3"@, "recap_model"@);
        } else if i == 10 {
            reveal_strlit("btw_model");
            reveal_strlit("default_model");
            lemma_lengths_differ("btw_model"@, "default_model"@);
            reveal_strlit("fork_secondary_model");
            lemma_lengths_differ("btw_model"@, "fork_secondary_model"@);
            reveal_strlit("recap_model");
            lemma_lengths_differ("btw_model"@, "recap_model"@);
        } else if i == 11 {
            reveal_strlit("btw_model_2");
            reveal_strlit("default_model");
            lemma_lengths_differ("btw_model_2"@, "default_model"@);
            reveal_strlit("fork_secondary_model");
            lemma_lengths_differ("btw_model_2"@, "fork_secondary_model"@);
            reveal_strlit("recap_model");
            lemma_differ_at("btw_model_2"@, "recap_model"@, 0);
        } else if i == 12 {
            reveal_strlit("btw_model_3");
            reveal_strlit("default_model");
            lemma_lengths_differ("btw_model_3"@, "default_model"@);
            reveal_strlit("fork_secondary_model");
            lemma_lengths_differ("btw_model_3"@, "fork_secondary_model"@);
            reveal_strlit("recap_model");
            lemma_differ_at("btw_model_3"@, "recap_model"@, 0);
        }
    }
}

/// Every setting of the catalog, on any host, maps to an action when it is
/// committed (see `dispatches`), so Enter or Space on it is never silently
/// dropped.
pub proof fn law_catalog_dispatch(env: CatalogDefaults, i: int)
    requires
        0 <= i < spec_catalog_kinds(env).len(),
    ensures
        dispatches(spec_catalog_keys(env.on_windows)[i], spec_catalog_kinds(env)[i].0),
{
    let w = env.on_windows;
    let h = spec_catalog_heads(w);
    let k = spec_catalog_kinds(env);
    let n1 = spec_catalog_part_1().len() as int;
    let n2 = n1 + spec_catalog_part_2().len();
    let n3 = n2 + spec_catalog_part_3().len();
    let n4 = n3 + spec_catalog_part_4().len();
    let n5 = n4 + spec_catalog_part_5(w).len();
    let n6 = n5 + spec_catalog_part_6().len();
    assert(spec_catalog_kinds_1(env).len() == spec_catalog_part_1().len());
    assert(spec_catalog_kinds_2(env).len() == spec_catalog_part_2().len());
    assert(spec_catalog_kinds_3(env).len() == spec_catalog_part_3().len());
    assert(spec_catalog_kinds_4(env).len() == spec_catalog_part_4().len());
    assert(spec_catalog_kinds_5(env).len() == spec_catalog_part_5(w).len());
    assert(spec_catalog_kinds_6(env).len() == spec_catalog_part_6().len());
    assert(spec_catalog_kinds_7(env).len() == spec_catalog_part_7().len());
    assert(spec_catalog_keys(w)[i] == h[i].0);
    if i < n1 {
        lemma_dispatch_part_1(env);
        assert(h[i] == spec_catalog_part_1()[i]);
        assert(k[i] == spec_catalog_kinds_1(env)[i]);
    } else if i < n2 {
        lemma_dispatch_part_2(env);
        assert(h[i] == spec_catalog_part_2()[i - n1]);
        assert(k[i] == spec_catalog_kinds_2(env)[i - n1]);
    } else if i < n3 {
        lemma_dispatch_part_3(env);
        assert(h[i] == spec_catalog_part_3()[i - n2]);
        assert(k[i] == spec_catalog_kinds_3(env)[i - n2]);
    } else if i < n4 {
        lemma_dispatch_part_4(env);
        assert(h[i] == spec_catalog_part_4()[i - n3]);
        assert(k[i] == spec_catalog_kinds_4(env)[i - n3]);
    } else if i < n5 {
        lemma_dispatch_part_5(env);
        assert(h[i] == spec_catalog_part_5(w)[i - n4]);
        assert(k[i] == spec_catalog_kinds_5(env)[i - n4]);
    } else if i < n6 {
        lemma_dispatch_part_6(env);
        assert(h[i] == spec_catalog_part_6()[i - n5]);
        assert(k[i] == spec_catalog_kinds_6(env)[i - n5]);
    } else {
        lemma_dispatch_part_7(env);
        assert(h[i] == spec_catalog_part_7()[i - n6]);
        assert(k[i] == spec_catalog_kinds_7(env)[i - n6]);
    }
}

} // verus!

use model_select::controller::{
    KeyCode, KeyPress, MoveDirection, SelectionController, SelectionStage, Status, StepKind,
    StepState,
};
use model_select::effort::EffortLevel;
use model_select::preset::{Preset, SupportedEffort};

fn supported(levels: &[EffortLevel]) -> Vec<SupportedEffort> {
    levels
        .iter()
        .map(|&effort| SupportedEffort { effort, description: String::new() })
        .collect()
}

fn preset(model: &str, default: EffortLevel, levels: &[EffortLevel]) -> Preset {
    Preset {
        display_name: model.to_uppercase(),
        model: model.to_string(),
        description: String::new(),
        default_reasoning_effort: default,
        supported_reasoning_efforts: supported(levels),
        is_default: false,
    }
}

fn ready_controller(presets: Vec<Preset>, current_model: &str, current_effort: Option<EffortLevel>) -> SelectionController {
    let mut c = SelectionController::new(true, true, current_model.to_string(), current_effort);
    assert!(matches!(c.status, Status::Loading));
    c.load_presets(Ok(presets));
    assert!(matches!(c.status, Status::Ready));
    c
}

fn press(code: KeyCode) -> KeyPress {
    KeyPress { code, has_modifiers: false, is_press: true }
}

#[test]
fn new_hidden_when_provider_inactive() {
    let c = SelectionController::new(false, true, "gpt-5".to_string(), None);
    assert!(matches!(c.status, Status::Hidden));
    assert_eq!(c.get_step_state(), StepState::Hidden);
    assert!(!c.frame_requested);
}

#[test]
fn new_waits_for_prerequisites() {
    let mut c = SelectionController::new(true, false, "gpt-5".to_string(), None);
    assert!(matches!(c.status, Status::AwaitingPrerequisite));
    c.credentials_ready();
    assert!(matches!(c.status, Status::Loading));
    assert_eq!(c.get_step_state(), StepState::InProgress);
    // A second call changes nothing.
    c.credentials_ready();
    assert!(matches!(c.status, Status::Loading));
}

#[test]
fn load_presets_marks_active_model() {
    let presets = vec![
        preset("gpt-5", EffortLevel::Medium, &[EffortLevel::Low, EffortLevel::Medium]),
        preset("gpt-5-codex", EffortLevel::Medium, &[EffortLevel::Low, EffortLevel::Medium]),
    ];
    let c = ready_controller(presets, "gpt-5-codex", None);
    assert_eq!(c.presets.len(), 2);
    assert!(!c.presets[0].is_default);
    assert!(c.presets[1].is_default);
    assert_eq!(c.selected_index, 0);
    assert!(matches!(c.stage, SelectionStage::ModelList));
}

#[test]
fn empty_fetch_fails_then_dismiss_completes() {
    let mut c = SelectionController::new(true, true, "gpt-5".to_string(), None);
    c.load_presets(Ok(Vec::new()));
    match &c.status {
        Status::Failed(message) => assert_eq!(message, "no models available"),
        other => panic!("status should be Failed, was {:?}", std::mem::discriminant(other)),
    }
    assert!(c.selection().is_none());
    c.dismiss_error();
    assert!(matches!(c.status, Status::Complete));
    assert!(c.selection().is_none());
}

#[test]
fn fetch_error_keeps_message() {
    let mut c = SelectionController::new(true, true, "gpt-5".to_string(), None);
    c.load_presets(Err("connection refused".to_string()));
    match &c.status {
        Status::Failed(message) => assert_eq!(message, "connection refused"),
        _ => panic!("status should be Failed"),
    }
}

#[test]
fn wrap_down_roundtrip_returns_to_start() {
    let presets = vec![
        preset("a", EffortLevel::Low, &[EffortLevel::Low]),
        preset("b", EffortLevel::Low, &[EffortLevel::Low]),
        preset("c", EffortLevel::Low, &[EffortLevel::Low]),
    ];
    let mut c = ready_controller(presets, "a", None);
    c.move_highlight(MoveDirection::Down, StepKind::Single);
    c.move_highlight(MoveDirection::Down, StepKind::Single);
    assert_eq!(c.selected_index, 2);
    c.move_highlight(MoveDirection::Down, StepKind::Single);
    assert_eq!(c.selected_index, 0);
}

#[test]
fn wrap_up_from_first_lands_on_last() {
    let presets = vec![
        preset("a", EffortLevel::Low, &[EffortLevel::Low]),
        preset("b", EffortLevel::Low, &[EffortLevel::Low]),
    ];
    let mut c = ready_controller(presets, "a", None);
    c.move_highlight(MoveDirection::Up, StepKind::Single);
    assert_eq!(c.selected_index, 1);
}

#[test]
fn scroll_window_follows_highlight() {
    let presets: Vec<Preset> = (0..10)
        .map(|i| preset(&format!("model-{i}"), EffortLevel::Low, &[EffortLevel::Low]))
        .collect();
    let mut c = ready_controller(presets, "model-0", None);
    // A list area five rows tall keeps three rows visible.
    let rows = c.model_list_rows(5);
    assert_eq!(c.scroll.capacity, 3);
    assert_eq!(rows.len(), 3);
    let moves = [
        (MoveDirection::Down, StepKind::Single),
        (MoveDirection::Down, StepKind::Single),
        (MoveDirection::Down, StepKind::Single),
        (MoveDirection::Down, StepKind::Page),
        (MoveDirection::Up, StepKind::Single),
        (MoveDirection::Up, StepKind::Page),
        (MoveDirection::Down, StepKind::Single),
        (MoveDirection::Up, StepKind::Single),
        (MoveDirection::Up, StepKind::Single),
    ];
    for (dir, kind) in moves {
        c.move_highlight(dir, kind);
        let offset = c.scroll.offset;
        let capacity = c.scroll.capacity;
        assert!(offset <= c.selected_index);
        assert!(c.selected_index < offset + capacity);
        assert!(offset <= 10 - capacity);
    }
}

#[test]
fn page_moves_clamp_at_the_ends() {
    let presets: Vec<Preset> = (0..5)
        .map(|i| preset(&format!("model-{i}"), EffortLevel::Low, &[EffortLevel::Low]))
        .collect();
    let mut c = ready_controller(presets, "model-0", None);
    c.model_list_rows(4); // capacity 2
    c.move_highlight(MoveDirection::Up, StepKind::Page);
    assert_eq!(c.selected_index, 0);
    c.move_highlight(MoveDirection::Down, StepKind::Page);
    assert_eq!(c.selected_index, 2);
    c.move_highlight(MoveDirection::Down, StepKind::Page);
    assert_eq!(c.selected_index, 4);
    c.move_highlight(MoveDirection::Down, StepKind::Page);
    assert_eq!(c.selected_index, 4);
}

#[test]
fn home_and_end_jump() {
    let presets: Vec<Preset> = (0..4)
        .map(|i| preset(&format!("model-{i}"), EffortLevel::Low, &[EffortLevel::Low]))
        .collect();
    let mut c = ready_controller(presets, "model-0", None);
    assert!(c.handle_key_event(press(KeyCode::End)).is_none());
    assert_eq!(c.selected_index, 3);
    assert!(c.handle_key_event(press(KeyCode::Home)).is_none());
    assert_eq!(c.selected_index, 0);
}

#[test]
fn modified_and_released_keys_are_ignored() {
    let presets = vec![
        preset("a", EffortLevel::Low, &[EffortLevel::Low]),
        preset("b", EffortLevel::Low, &[EffortLevel::Low]),
    ];
    let mut c = ready_controller(presets, "a", None);
    let modified = KeyPress { code: KeyCode::Down, has_modifiers: true, is_press: true };
    c.handle_key_event(modified);
    assert_eq!(c.selected_index, 0);
    let release = KeyPress { code: KeyCode::Down, has_modifiers: false, is_press: false };
    c.handle_key_event(release);
    assert_eq!(c.selected_index, 0);
}

#[test]
fn enter_reasoning_highlights_current_effort_of_active_model() {
    // The concrete two-preset scenario: the active model's configured effort
    // wins, and the flagged model's "high" row carries the warning.
    let presets = vec![
        preset("gpt-5", EffortLevel::Medium, &[EffortLevel::Low, EffortLevel::Medium, EffortLevel::High]),
        preset("gpt-5-codex", EffortLevel::Medium, &[EffortLevel::Low, EffortLevel::Medium, EffortLevel::High]),
    ];
    let mut c = ready_controller(presets, "gpt-5-codex", Some(EffortLevel::High));
    c.move_highlight(MoveDirection::Down, StepKind::Single);
    assert_eq!(c.selected_index, 1);
    c.begin_reasoning_stage();
    match &c.stage {
        SelectionStage::Reasoning(st) => {
            assert_eq!(st.preset_index, 1);
            assert_eq!(st.options.len(), 3);
            assert_eq!(st.options[0].label, "Low");
            assert_eq!(st.options[1].label, "Medium (default)");
            assert_eq!(st.options[2].label, "High");
            assert_eq!(st.selected_index, 2);
            assert!(st.options[0].selected_description.is_none());
            assert!(st.options[1].selected_description.is_none());
            assert_eq!(
                st.options[2].selected_description.as_deref(),
                Some("⚠ High reasoning effort can quickly consume Plus plan rate limits."),
            );
        }
        SelectionStage::ModelList => panic!("reasoning stage should be active"),
    }
}

#[test]
fn enter_reasoning_highlights_default_of_inactive_preset() {
    let presets = vec![
        preset("gpt-5", EffortLevel::Medium, &[EffortLevel::Low, EffortLevel::Medium, EffortLevel::High]),
        preset("gpt-5-codex", EffortLevel::Medium, &[EffortLevel::Low, EffortLevel::Medium, EffortLevel::High]),
    ];
    // The highlighted preset is not the active model, so its declared
    // default (medium) wins over the configured effort (high).
    let mut c = ready_controller(presets, "gpt-5-codex", Some(EffortLevel::High));
    c.begin_reasoning_stage();
    match &c.stage {
        SelectionStage::Reasoning(st) => {
            assert_eq!(st.preset_index, 0);
            assert_eq!(st.selected_index, 1);
            assert!(st.options[2].selected_description.is_none());
        }
        SelectionStage::ModelList => panic!("reasoning stage should be active"),
    }
}

#[test]
fn reenter_reasoning_reproduces_initial_highlight() {
    let presets = vec![
        preset("gpt-5", EffortLevel::Medium, &[EffortLevel::Low, EffortLevel::Medium, EffortLevel::High]),
    ];
    let mut c = ready_controller(presets, "gpt-5", Some(EffortLevel::Low));
    c.begin_reasoning_stage();
    let first = match &c.stage {
        SelectionStage::Reasoning(st) => st.selected_index,
        SelectionStage::ModelList => panic!("reasoning stage should be active"),
    };
    assert_eq!(first, 0);
    c.exit_reasoning_stage();
    assert!(matches!(c.stage, SelectionStage::ModelList));
    c.begin_reasoning_stage();
    let second = match &c.stage {
        SelectionStage::Reasoning(st) => st.selected_index,
        SelectionStage::ModelList => panic!("reasoning stage should be active"),
    };
    assert_eq!(second, first);
}

#[test]
fn preset_without_efforts_gets_one_synthesized_option() {
    let presets = vec![preset("bare", EffortLevel::High, &[])];
    let mut c = ready_controller(presets, "bare", None);
    c.begin_reasoning_stage();
    match &c.stage {
        SelectionStage::Reasoning(st) => {
            assert_eq!(st.options.len(), 1);
            assert_eq!(st.options[0].label, "High");
            assert_eq!(st.options[0].effort, Some(EffortLevel::High));
            assert!(st.options[0].description.is_none());
        }
        SelectionStage::ModelList => panic!("reasoning stage should be active"),
    }
}

#[test]
fn save_success_swaps_active_flag_and_records_result() {
    let presets = vec![
        preset("gpt-5", EffortLevel::Medium, &[EffortLevel::Low, EffortLevel::Medium]),
        preset("gpt-5-codex", EffortLevel::Medium, &[EffortLevel::Low, EffortLevel::Medium]),
    ];
    let mut c = ready_controller(presets, "gpt-5", None);
    c.move_highlight(MoveDirection::Down, StepKind::Single);
    c.handle_key_event(press(KeyCode::Enter));
    let request = c.handle_key_event(press(KeyCode::Enter)).expect("confirming should start a save");
    assert!(matches!(c.status, Status::Saving));
    assert_eq!(request.preset_index, 1);
    assert_eq!(request.model, "gpt-5-codex");
    assert_eq!(request.effort, Some(EffortLevel::Medium));
    c.apply_save_result(Ok(()));
    assert!(matches!(c.status, Status::Complete));
    assert!(matches!(c.stage, SelectionStage::ModelList));
    let active: Vec<usize> = (0..c.presets.len()).filter(|&i| c.presets[i].is_default).collect();
    assert_eq!(active, vec![1]);
    let result = c.selection().expect("a result should be recorded");
    assert_eq!(result.model, "gpt-5-codex");
    assert_eq!(result.reasoning_effort, Some(EffortLevel::Medium));
}

#[test]
fn save_failure_leaves_flags_and_result_untouched() {
    let presets = vec![
        preset("gpt-5", EffortLevel::Medium, &[EffortLevel::Low, EffortLevel::Medium]),
        preset("gpt-5-codex", EffortLevel::Medium, &[EffortLevel::Low, EffortLevel::Medium]),
    ];
    let mut c = ready_controller(presets, "gpt-5", None);
    c.move_highlight(MoveDirection::Down, StepKind::Single);
    c.begin_reasoning_stage();
    c.confirm_reasoning_selection().expect("confirming should start a save");
    c.apply_save_result(Err("disk full".to_string()));
    match &c.status {
        Status::Failed(message) => {
            assert_eq!(message, "Failed to write model selection: disk full")
        }
        _ => panic!("status should be Failed"),
    }
    assert!(c.presets[0].is_default);
    assert!(!c.presets[1].is_default);
    assert!(c.selection().is_none());
}

#[test]
fn esc_leaves_reasoning_stage() {
    let presets = vec![preset("gpt-5", EffortLevel::Medium, &[EffortLevel::Low, EffortLevel::Medium])];
    let mut c = ready_controller(presets, "gpt-5", None);
    c.handle_key_event(press(KeyCode::Enter));
    assert!(matches!(c.stage, SelectionStage::Reasoning(_)));
    c.handle_key_event(press(KeyCode::Esc));
    assert!(matches!(c.stage, SelectionStage::ModelList));
    assert!(matches!(c.status, Status::Ready));
}

#[test]
fn enter_completes_a_failed_step() {
    let mut c = SelectionController::new(true, true, "gpt-5".to_string(), None);
    c.load_presets(Err("boom".to_string()));
    c.handle_key_event(press(KeyCode::Enter));
    assert!(matches!(c.status, Status::Complete));
    assert_eq!(c.get_step_state(), StepState::Complete);
}

#[test]
fn model_rows_show_window_and_fallback_name() {
    let mut empty_name = preset("plain-id", EffortLevel::Low, &[EffortLevel::Low]);
    empty_name.display_name = String::new();
    empty_name.description = "a bare model".to_string();
    let presets = vec![
        empty_name,
        preset("gpt-5", EffortLevel::Low, &[EffortLevel::Low]),
    ];
    let mut c = ready_controller(presets, "gpt-5", None);
    let rows = c.model_list_rows(10);
    assert_eq!(rows.len(), 2);
    assert_eq!(rows[0].display_name, "plain-id");
    assert_eq!(rows[0].description.as_deref(), Some("a bare model"));
    assert!(rows[0].is_selected);
    assert!(!rows[0].is_current);
    assert_eq!(rows[1].display_name, "GPT-5");
    assert!(rows[1].description.is_none());
    assert!(rows[1].is_current);
}

#[test]
fn reasoning_rows_attach_warning_only_to_highlight() {
    let presets = vec![
        preset("gpt-5-codex", EffortLevel::Medium, &[EffortLevel::Low, EffortLevel::Medium, EffortLevel::High]),
    ];
    let mut c = ready_controller(presets, "gpt-5-codex", Some(EffortLevel::High));
    c.begin_reasoning_stage();
    let rows = c.reasoning_rows(10);
    assert_eq!(rows.len(), 3);
    assert!(rows[2].is_selected);
    assert!(rows[2].selected_description.is_some());
    assert!(rows[0].selected_description.is_none());
    // Move the highlight away: the warning no longer travels with the row.
    c.move_highlight(MoveDirection::Up, StepKind::Single);
    let rows = c.reasoning_rows(10);
    assert!(rows[1].is_selected);
    assert!(rows[2].selected_description.is_none());
}

#[test]
fn completion_message_names_choice_or_skip() {
    let presets = vec![preset("gpt-5", EffortLevel::Medium, &[EffortLevel::Low, EffortLevel::Medium])];
    let mut c = ready_controller(presets, "gpt-5", None);
    assert_eq!(c.completion_message(), "Model set to unchanged (default effort).");
    c.begin_reasoning_stage();
    let _request = c.confirm_reasoning_selection().expect("confirming should start a save");
    c.apply_save_result(Ok(()));
    assert_eq!(c.completion_message(), "Model set to gpt-5 (Medium).");
}

#[test]
fn failed_status_still_accepts_single_moves_but_not_page_moves() {
    let presets = vec![
        preset("gpt-5", EffortLevel::Medium, &[EffortLevel::Low, EffortLevel::Medium]),
        preset("gpt-5-codex", EffortLevel::Medium, &[EffortLevel::Low, EffortLevel::Medium]),
    ];
    let mut c = ready_controller(presets, "gpt-5", None);
    c.begin_reasoning_stage();
    c.confirm_reasoning_selection().expect("confirming should start a save");
    c.apply_save_result(Err("disk full".to_string()));
    assert!(matches!(c.status, Status::Failed(_)));
    // The reasoning stage survived the failure; single steps still move.
    c.move_highlight(MoveDirection::Down, StepKind::Single);
    match &c.stage {
        SelectionStage::Reasoning(st) => assert_eq!(st.selected_index, 0),
        SelectionStage::ModelList => panic!("reasoning stage should still be active"),
    }
    // Page moves are not accepted outside the ready status.
    c.move_highlight(MoveDirection::Down, StepKind::Page);
    match &c.stage {
        SelectionStage::Reasoning(st) => assert_eq!(st.selected_index, 0),
        SelectionStage::ModelList => panic!("reasoning stage should still be active"),
    }
    // Escape first leaves the stage, then dismisses the failure.
    c.handle_key_event(press(KeyCode::Esc));
    assert!(matches!(c.stage, SelectionStage::ModelList));
    assert!(matches!(c.status, Status::Failed(_)));
    c.handle_key_event(press(KeyCode::Esc));
    assert!(matches!(c.status, Status::Complete));
}

#[test]
fn fetch_outcome_is_ignored_unless_loading() {
    let presets = vec![preset("gpt-5", EffortLevel::Medium, &[EffortLevel::Low])];
    let mut c = ready_controller(presets, "gpt-5", None);
    // A stale or duplicated fetch outcome cannot clobber a ready step.
    c.load_presets(Ok(vec![preset("other", EffortLevel::Low, &[EffortLevel::Low])]));
    assert!(matches!(c.status, Status::Ready));
    assert_eq!(c.presets.len(), 1);
    assert_eq!(c.presets[0].model, "gpt-5");
}

#[test]
fn reasoning_highlight_wraps_around() {
    let presets = vec![
        preset("gpt-5", EffortLevel::Low, &[EffortLevel::Low, EffortLevel::Medium, EffortLevel::High]),
    ];
    let mut c = ready_controller(presets, "gpt-5", None);
    c.begin_reasoning_stage();
    // The default (low) starts highlighted; up wraps to the last option.
    c.move_highlight(MoveDirection::Up, StepKind::Single);
    match &c.stage {
        SelectionStage::Reasoning(st) => assert_eq!(st.selected_index, 2),
        SelectionStage::ModelList => panic!("reasoning stage should be active"),
    }
    c.move_highlight(MoveDirection::Down, StepKind::Single);
    match &c.stage {
        SelectionStage::Reasoning(st) => assert_eq!(st.selected_index, 0),
        SelectionStage::ModelList => panic!("reasoning stage should be active"),
    }
}

#[test]
fn saving_rejects_a_second_save() {
    let presets = vec![preset("gpt-5", EffortLevel::Medium, &[EffortLevel::Low, EffortLevel::Medium])];
    let mut c = ready_controller(presets, "gpt-5", None);
    c.begin_reasoning_stage();
    assert!(c.confirm_reasoning_selection().is_some());
    assert!(c.save_selection(0, None).is_none());
    assert!(matches!(c.status, Status::Saving));
}

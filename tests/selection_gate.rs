use probe_flasher::error::ActionError;
use probe_flasher::format::ImageFormat;
use probe_flasher::gate::{Phase, SelectionState};
use probe_flasher::session::{ActionKind, DownloadFormat, HwStep, Progress, StepResult};

fn ids(v: &[&str]) -> Vec<String> {
    v.iter().map(|s| s.to_string()).collect()
}

#[test]
fn flash_scenario_succeeds() {
    let mut st = SelectionState::new(ids(&["CMSIS-DAP#1"]));
    st.on_target_chosen("stm32f103c8".to_string());
    st.on_file_selected("firmware.bin".to_string());
    assert_eq!(st.phase(), Phase::TargetAndFileSelected);
    let mut run = st.on_flash().expect("flash should start");
    assert_eq!(run.target, "stm32f103c8");
    let mut seen = Vec::new();
    let outcome = loop {
        seen.push(run.next_step());
        match run.advance(StepResult::Done) {
            Progress::Next(r) => run = r,
            Progress::Finished(o) => break o,
        }
    };
    assert_eq!(
        seen,
        vec![
            HwStep::Open(0),
            HwStep::Attach,
            HwStep::EraseAll,
            HwStep::Download(DownloadFormat::Bin { base_address: None, skip: 0 }),
            HwStep::ResetCore0,
        ]
    );
    st.finish(outcome);
    assert_eq!(st.status(), "flash complete");
}

#[test]
fn erase_without_target_is_rejected() {
    let mut st = SelectionState::new(Vec::new());
    assert!(st.on_erase().is_none());
    assert_eq!(st.status(), "select a target");
}

#[test]
fn actions_without_target_are_rejected() {
    let mut st = SelectionState::new(ids(&["CMSIS-DAP#1"]));
    st.on_file_selected("app.elf".to_string());
    assert!(st.on_flash().is_none());
    assert_eq!(st.status(), "select a target");
    assert!(st.on_reset().is_none());
    assert_eq!(st.status(), "select a target");
    assert_eq!(st.phase(), Phase::NoTarget);
}

#[test]
fn action_without_probe_is_rejected() {
    let mut st = SelectionState::new(Vec::new());
    st.on_target_chosen("stm32f103c8".to_string());
    assert!(st.on_reset().is_none());
    assert_eq!(st.status(), "select a probe");
}

#[test]
fn flash_without_file_is_rejected() {
    let mut st = SelectionState::new(ids(&["CMSIS-DAP#1"]));
    st.on_target_chosen("stm32f103c8".to_string());
    assert_eq!(st.phase(), Phase::TargetSelected);
    assert!(st.on_flash().is_none());
    assert_eq!(st.status(), "select a firmware file");
    assert!(st.on_erase().is_some());
}

#[test]
fn unsupported_drop_keeps_previous_file() {
    let mut st = SelectionState::new(ids(&["CMSIS-DAP#1"]));
    st.on_file_selected("app.elf".to_string());
    st.on_file_selected("notes.txt".to_string());
    assert_eq!(st.status(), "unsupported file format");
    let img = st.image.as_ref().expect("previous file kept");
    assert_eq!(img.path, "app.elf");
    assert_eq!(img.format, ImageFormat::Elf);
}

#[test]
fn unsupported_drop_without_previous_file() {
    let mut st = SelectionState::new(Vec::new());
    st.on_file_selected("notes.txt".to_string());
    assert_eq!(st.status(), "unsupported file format");
    assert!(st.image.is_none());
}

#[test]
fn refresh_resets_selection() {
    let mut st = SelectionState::new(ids(&["A", "B"]));
    st.on_probe_chosen(&"B".to_string());
    assert_eq!(st.probes.selected(), Some(1));
    st.on_probe_refresh(ids(&["C"]));
    assert_eq!(st.probes.selected(), Some(0));
    st.on_probe_refresh(Vec::new());
    assert_eq!(st.probes.selected(), None);
}

#[test]
fn choosing_unknown_probe_reports_it() {
    let mut st = SelectionState::new(ids(&["A"]));
    st.on_probe_chosen(&"Z".to_string());
    assert_eq!(st.status(), "probe not found");
    assert_eq!(st.probes.selected(), Some(0));
}

#[test]
fn failed_action_keeps_selections() {
    let mut st = SelectionState::new(ids(&["A"]));
    st.on_target_chosen("stm32f103c8".to_string());
    st.on_file_selected("app.hex".to_string());
    let run = st.on_flash().unwrap();
    match run.advance(StepResult::Failed("claimed".to_string())) {
        Progress::Finished(o) => st.finish(o),
        Progress::Next(_) => panic!("open failure must end the run"),
    }
    assert_eq!(st.status(), "probe could not be opened");
    assert_eq!(st.target.as_deref(), Some("stm32f103c8"));
    assert_eq!(st.image.as_ref().unwrap().path, "app.hex");
    assert_eq!(st.phase(), Phase::TargetAndFileSelected);
}

#[test]
fn success_messages() {
    let mut st = SelectionState::new(Vec::new());
    st.finish(Ok(ActionKind::Erase));
    assert_eq!(st.status(), "erase complete");
    st.finish(Ok(ActionKind::Reset));
    assert_eq!(st.status(), "reset complete");
    st.finish(Err(ActionError::EraseFailed));
    assert_eq!(st.status(), "erase failed");
}

use probe_flasher::error::ActionError;
use probe_flasher::format::{FirmwareImage, ImageFormat};
use probe_flasher::session::{to_download_format, ActionKind, DownloadFormat, HwStep, Progress, Run, StepResult};

fn image(path: &str, format: ImageFormat) -> Option<FirmwareImage> {
    Some(FirmwareImage { path: path.to_string(), format })
}

fn expect_next(p: Progress) -> Run {
    match p {
        Progress::Next(r) => r,
        Progress::Finished(_) => panic!("run finished early"),
    }
}

fn expect_end(p: Progress) -> Result<ActionKind, ActionError> {
    match p {
        Progress::Finished(o) => o,
        Progress::Next(_) => panic!("run did not finish"),
    }
}

#[test]
fn download_formats() {
    assert_eq!(to_download_format(ImageFormat::Bin), DownloadFormat::Bin { base_address: None, skip: 0 });
    assert_eq!(to_download_format(ImageFormat::Hex), DownloadFormat::Hex);
    assert_eq!(to_download_format(ImageFormat::Elf), DownloadFormat::Elf);
}

#[test]
fn flash_plan_order() {
    let run = Run::new(ActionKind::Flash, 2, "stm32f103c8".to_string(), image("a.hex", ImageFormat::Hex));
    assert_eq!(
        run.steps,
        vec![HwStep::Open(2), HwStep::Attach, HwStep::EraseAll, HwStep::Download(DownloadFormat::Hex), HwStep::ResetCore0]
    );
}

#[test]
fn erase_and_reset_plans() {
    let e = Run::new(ActionKind::Erase, 0, "t".to_string(), None);
    assert_eq!(e.steps, vec![HwStep::Open(0), HwStep::Attach, HwStep::EraseAll]);
    let r = Run::new(ActionKind::Reset, 1, "t".to_string(), None);
    assert_eq!(r.steps, vec![HwStep::Open(1), HwStep::Attach, HwStep::ResetCore0]);
}

#[test]
fn failed_erase_stops_flash() {
    let run = Run::new(ActionKind::Flash, 0, "t".to_string(), image("a.elf", ImageFormat::Elf));
    let run = expect_next(run.advance(StepResult::Done));
    let run = expect_next(run.advance(StepResult::Done));
    assert_eq!(run.next_step(), HwStep::EraseAll);
    let out = expect_end(run.advance(StepResult::Failed("locked".to_string())));
    assert!(matches!(out, Err(ActionError::EraseFailed)));
}

#[test]
fn failed_download_carries_cause() {
    let mut run = Run::new(ActionKind::Flash, 0, "t".to_string(), image("a.elf", ImageFormat::Elf));
    for _ in 0..3 {
        run = expect_next(run.advance(StepResult::Done));
    }
    assert_eq!(run.next_step(), HwStep::Download(DownloadFormat::Elf));
    match expect_end(run.advance(StepResult::Failed("file not found".to_string()))) {
        Err(ActionError::FlashFailed(cause)) => assert_eq!(cause, "file not found"),
        _ => panic!("expected a flash failure"),
    }
}

#[test]
fn reset_failure_after_flash_is_written() {
    let mut run = Run::new(ActionKind::Flash, 0, "t".to_string(), image("a.bin", ImageFormat::Bin));
    for _ in 0..4 {
        run = expect_next(run.advance(StepResult::Done));
    }
    let out = expect_end(run.advance(StepResult::Failed("core busy".to_string())));
    assert!(matches!(out, Err(ActionError::ResetFailed { written: true })));
}

#[test]
fn reset_failure_of_reset_is_not_written() {
    let mut run = Run::new(ActionKind::Reset, 0, "t".to_string(), None);
    for _ in 0..2 {
        run = expect_next(run.advance(StepResult::Done));
    }
    let out = expect_end(run.advance(StepResult::Failed("core busy".to_string())));
    assert!(matches!(out, Err(ActionError::ResetFailed { written: false })));
}

#[test]
fn open_and_attach_failures() {
    let run = Run::new(ActionKind::Erase, 0, "t".to_string(), None);
    assert!(matches!(expect_end(run.advance(StepResult::NotFound)), Err(ActionError::ProbeNotFound)));
    let run = Run::new(ActionKind::Erase, 0, "t".to_string(), None);
    assert!(matches!(expect_end(run.advance(StepResult::Failed("busy".to_string()))), Err(ActionError::ProbeOpenFailed)));
    let run = Run::new(ActionKind::Erase, 0, "t".to_string(), None);
    let run = expect_next(run.advance(StepResult::Done));
    assert!(matches!(expect_end(run.advance(StepResult::Failed("no answer".to_string()))), Err(ActionError::AttachFailed)));
}

#[test]
fn erase_run_succeeds() {
    let mut run = Run::new(ActionKind::Erase, 0, "t".to_string(), None);
    for _ in 0..2 {
        run = expect_next(run.advance(StepResult::Done));
    }
    assert!(matches!(expect_end(run.advance(StepResult::Done)), Ok(ActionKind::Erase)));
}

#[test]
fn error_messages() {
    assert_eq!(ActionError::EraseFailed.message(), "erase failed");
    assert_eq!(ActionError::FlashFailed("bad image".to_string()).message(), "flash failed: bad image");
    assert_eq!(ActionError::ResetFailed { written: true }.message(), "firmware written, but reset failed");
    assert_eq!(ActionError::ResetFailed { written: false }.message(), "reset failed");
    assert_eq!(ActionError::ProbeNotFound.message(), "probe not found");
    assert_eq!(ActionError::ProbeOpenFailed.message(), "probe could not be opened");
    assert_eq!(ActionError::AttachFailed.message(), "could not attach to the target");
    assert_eq!(ActionError::UnsupportedFormat.message(), "unsupported file format");
}

use guide_sync::error::GuideError;
use guide_sync::persist::{ensure_plan, EnsureStep, Layout, SaveAction, SaveStage};

fn layout(config_file: bool, guides_dir: bool, catalog_file: bool) -> Layout {
    Layout { config_file, guides_dir, catalog_file }
}

fn applied(found: Layout, steps: &[EnsureStep]) -> Layout {
    let mut l = found;
    for s in steps {
        match s {
            EnsureStep::CreateGuidesDir => l.guides_dir = true,
            EnsureStep::WriteDefaultConfig => l.config_file = true,
            EnsureStep::WriteEmptyCatalog => l.catalog_file = true,
        }
    }
    l
}

#[test]
fn first_start_creates_everything_directory_first() {
    assert_eq!(
        ensure_plan(layout(false, false, false), true),
        Ok(vec![EnsureStep::CreateGuidesDir, EnsureStep::WriteDefaultConfig, EnsureStep::WriteEmptyCatalog])
    );
}

#[test]
fn complete_layout_needs_nothing() {
    assert_eq!(ensure_plan(layout(true, true, true), true), Ok(vec![]));
}

#[test]
fn only_what_is_missing_is_created() {
    assert_eq!(ensure_plan(layout(true, false, true), true), Ok(vec![EnsureStep::CreateGuidesDir]));
    assert_eq!(ensure_plan(layout(false, true, true), true), Ok(vec![EnsureStep::WriteDefaultConfig]));
    assert_eq!(ensure_plan(layout(true, true, false), true), Ok(vec![EnsureStep::WriteEmptyCatalog]));
    assert_eq!(
        ensure_plan(layout(false, true, false), true),
        Ok(vec![EnsureStep::WriteDefaultConfig, EnsureStep::WriteEmptyCatalog])
    );
}

#[test]
fn unwritable_base_path_is_an_init_error() {
    assert_eq!(ensure_plan(layout(false, false, false), false), Err(GuideError::StorageInit));
    assert_eq!(ensure_plan(layout(true, true, true), false), Err(GuideError::StorageInit));
}

#[test]
fn ensure_twice_is_ensure_once() {
    for bits in 0..8u8 {
        let found = layout(bits & 1 != 0, bits & 2 != 0, bits & 4 != 0);
        let steps = ensure_plan(found, true).unwrap();
        let after = applied(found, &steps);
        assert_eq!(after, layout(true, true, true));
        assert_eq!(ensure_plan(after, true), Ok(vec![]));
    }
}

#[test]
fn save_that_goes_well() {
    let s = SaveStage::start();
    assert_eq!(s, SaveStage::Staging);
    assert_eq!(s.action(), SaveAction::WriteTemp);
    assert_eq!(s.outcome(), None);
    let s = s.next(true);
    assert_eq!(s, SaveStage::Committing);
    assert_eq!(s.action(), SaveAction::Rename);
    assert_eq!(s.outcome(), None);
    let s = s.next(true);
    assert_eq!(s, SaveStage::Saved);
    assert_eq!(s.action(), SaveAction::ReportSaved);
    assert_eq!(s.outcome(), Some(Ok(())));
    assert_eq!(s.next(true), SaveStage::Saved);
    assert_eq!(s.next(false), SaveStage::Saved);
}

#[test]
fn save_whose_write_fails() {
    let s = SaveStage::start().next(false);
    assert_eq!(s, SaveStage::Cleaning);
    assert_eq!(s.action(), SaveAction::RemoveTemp);
    assert_eq!(s.outcome(), None);
    let s = s.next(true);
    assert_eq!(s, SaveStage::Failed);
    assert_eq!(s.action(), SaveAction::ReportFailed);
    assert_eq!(s.outcome(), Some(Err(GuideError::StorageWrite)));
    assert_eq!(s.next(true), SaveStage::Failed);
}

#[test]
fn save_whose_rename_fails() {
    let s = SaveStage::start().next(true).next(false);
    assert_eq!(s, SaveStage::Cleaning);
    let s = s.next(false);
    assert_eq!(s, SaveStage::Failed);
    assert_eq!(s.outcome(), Some(Err(GuideError::StorageWrite)));
}

/// A file and the temporary file beside it, as a save sees them.
#[derive(Debug, Clone, PartialEq)]
struct Files {
    live: Option<Vec<u8>>,
    temp: Option<Vec<u8>>,
}

/// Carries out the action of `stage`; a step that is not `ok` fails the way
/// such a step does: a write leaves a torn temporary file, a rename leaves
/// everything as it was.
fn carry_out(files: &mut Files, stage: SaveStage, data: &[u8], ok: bool) {
    match stage.action() {
        SaveAction::WriteTemp => {
            files.temp = Some(if ok { data.to_vec() } else { data[..data.len() / 2].to_vec() })
        }
        SaveAction::Rename => {
            if ok {
                files.live = files.temp.take()
            }
        }
        SaveAction::RemoveTemp => {
            if ok {
                files.temp = None
            }
        }
        SaveAction::ReportSaved | SaveAction::ReportFailed => {}
    }
}

#[test]
fn interrupted_save_leaves_the_old_content() {
    let old = b"old content".to_vec();
    let data = b"new content, longer".to_vec();
    let mut files = Files { live: Some(old.clone()), temp: None };
    let stage = SaveStage::start();
    carry_out(&mut files, stage, &data, true);
    let stage = stage.next(true);
    // the run ends here, between the write and the rename
    assert_eq!(stage, SaveStage::Committing);
    assert_eq!(files.live, Some(old));
    assert_eq!(files.temp, Some(data));
}

#[test]
fn save_is_all_or_nothing_wherever_it_stops() {
    let old = b"old content".to_vec();
    let data = b"new content, longer".to_vec();
    // every way in which up to four steps can go, stopped after each step
    for pattern in 0..16u8 {
        let mut files = Files { live: Some(old.clone()), temp: None };
        let mut stage = SaveStage::start();
        for step in 0..4 {
            let ok = pattern & (1 << step) != 0;
            carry_out(&mut files, stage, &data, ok);
            stage = stage.next(ok);
            if stage == SaveStage::Saved {
                assert_eq!(files.live, Some(data.clone()));
            } else {
                assert_eq!(files.live, Some(old.clone()));
            }
        }
        assert!(stage.outcome().is_some());
        assert_eq!(stage.outcome() == Some(Ok(())), files.live == Some(data.clone()));
    }
}

#[test]
fn first_save_of_a_file_that_was_not_there() {
    let data = b"first".to_vec();
    let mut files = Files { live: None, temp: None };
    let mut stage = SaveStage::start();
    while stage.outcome().is_none() {
        carry_out(&mut files, stage, &data, true);
        stage = stage.next(true);
    }
    assert_eq!(stage.outcome(), Some(Ok(())));
    assert_eq!(files, Files { live: Some(data), temp: None });
}

//! How the local store treats its files: what it creates at first start, and
//! in which steps it replaces a file so that a reader never sees half of one.
//!
//! Nothing here touches a file. The functions decide; the caller carries out
//! each step and reports how it went. The models `Disk` and `FileState` say what a
//! step does to storage, and the laws below are stated over them.
use crate::error::GuideError;
use vstd::prelude::*;

verus! {

/// What the store found of its layout.
#[derive(Debug, Clone, Copy, PartialEq, Eq, Structural)]
pub struct Layout {
    /// The configuration file is there.
    pub config_file: bool,
    /// The guides directory is there.
    pub guides_dir: bool,
    /// The catalogue file is there.
    pub catalog_file: bool,
}

/// One thing to create.
#[derive(Debug, Clone, Copy, PartialEq, Eq, Structural)]
pub enum EnsureStep {
    /// Create the guides directory.
    CreateGuidesDir,
    /// Write the configuration file with the defaults.
    WriteDefaultConfig,
    /// Write the catalogue file with no guides in it.
    WriteEmptyCatalog,
}

/// Storage as the layout laws see it: the content of each file where the file
/// is there, and whether the guides directory is.
pub struct Disk {
    pub config: Option<Seq<u8>>,
    pub guides_dir: bool,
    pub catalog: Option<Seq<u8>>,
}

impl Disk {
    /// What of the layout is there.
    pub open spec fn layout(self) -> Layout {
        Layout {
            config_file: self.config is Some,
            guides_dir: self.guides_dir,
            catalog_file: self.catalog is Some,
        }
    }

    /// Storage after `step`, where new files get the contents `config` and
    /// `catalog`.
    pub open spec fn after(self, step: EnsureStep, config: Seq<u8>, catalog: Seq<u8>) -> Disk {
        match step {
            EnsureStep::CreateGuidesDir => Disk { guides_dir: true, ..self },
            EnsureStep::WriteDefaultConfig => Disk { config: Some(config), ..self },
            EnsureStep::WriteEmptyCatalog => Disk { catalog: Some(catalog), ..self },
        }
    }

    /// Storage after `steps`, one after the other.
    pub open spec fn after_all(self, steps: Seq<EnsureStep>, config: Seq<u8>, catalog: Seq<u8>) -> Disk
        decreases steps.len(),
    {
        if steps.len() == 0 {
            self
        } else {
            self.after_all(steps.drop_last(), config, catalog).after(steps.last(), config, catalog)
        }
    }

    /// Storage after the layout was ensured on it: what `ensure_plan` asks
    /// for, carried out.
    pub open spec fn ensured(self, config: Seq<u8>, catalog: Seq<u8>) -> Disk {
        self.after_all(plan(self.layout()), config, catalog)
    }
}

/// The steps that complete the layout `found`: one for each thing that is
/// missing, the directory first, and none for what is there.
pub open spec fn plan(found: Layout) -> Seq<EnsureStep> {
    (if found.guides_dir {
        Seq::<EnsureStep>::empty()
    } else {
        seq![EnsureStep::CreateGuidesDir]
    }) + (if found.config_file {
        Seq::<EnsureStep>::empty()
    } else {
        seq![EnsureStep::WriteDefaultConfig]
    }) + (if found.catalog_file {
        Seq::<EnsureStep>::empty()
    } else {
        seq![EnsureStep::WriteEmptyCatalog]
    })
}

/// Decides what to create so that the layout is complete. Where the base
/// path cannot be written to, nothing is to be done but to report
/// `StorageInit`.
pub fn ensure_plan(found: Layout, base_writable: bool) -> (r: Result<Vec<EnsureStep>, GuideError>)
    ensures
        match r {
            Ok(steps) => base_writable && steps@ == plan(found),
            Err(e) => !base_writable && e == GuideError::StorageInit,
        },
{
    if !base_writable {
        return Err(GuideError::StorageInit);
    }
    let mut steps: Vec<EnsureStep> = Vec::new();
    if !found.guides_dir {
        steps.push(EnsureStep::CreateGuidesDir);
    }
    if !found.config_file {
        steps.push(EnsureStep::WriteDefaultConfig);
    }
    if !found.catalog_file {
        steps.push(EnsureStep::WriteEmptyCatalog);
    }
    Ok(steps)
}

/// Ensuring the layout completes it and leaves what was there as it was:
/// a file that existed keeps its content, a file that was missing gets the
/// given content, and the directory is there.
pub proof fn ensure_completes_layout(d: Disk, config: Seq<u8>, catalog: Seq<u8>)
    ensures
        d.ensured(config, catalog).guides_dir,
        d.ensured(config, catalog).config == match d.config {
            Some(c) => Some(c),
            None => Some(config),
        },
        d.ensured(config, catalog).catalog == match d.catalog {
            Some(c) => Some(c),
            None => Some(catalog),
        },
        plan(d.ensured(config, catalog).layout()) == Seq::<EnsureStep>::empty(),
{
    let a = if d.guides_dir {
        Seq::<EnsureStep>::empty()
    } else {
        seq![EnsureStep::CreateGuidesDir]
    };
    let b = if d.config is Some {
        Seq::<EnsureStep>::empty()
    } else {
        seq![EnsureStep::WriteDefaultConfig]
    };
    let c = if d.catalog is Some {
        Seq::<EnsureStep>::empty()
    } else {
        seq![EnsureStep::WriteEmptyCatalog]
    };
    lemma_after_all_concat(d, a + b, c, config, catalog);
    lemma_after_all_concat(d, a, b, config, catalog);
    lemma_after_all_short(d, a, config, catalog);
    lemma_after_all_short(d.after_all(a, config, catalog), b, config, catalog);
    lemma_after_all_short(d.after_all(a + b, config, catalog), c, config, catalog);
}

/// Carrying out two runs of steps in a row is carrying out their
/// concatenation.
proof fn lemma_after_all_concat(
    d: Disk,
    first: Seq<EnsureStep>,
    second: Seq<EnsureStep>,
    config: Seq<u8>,
    catalog: Seq<u8>,
)
    ensures
        d.after_all(first + second, config, catalog) == d.after_all(first, config, catalog).after_all(
            second,
            config,
            catalog,
        ),
    decreases second.len(),
{
    if second.len() > 0 {
        assert((first + second).drop_last() =~= first + second.drop_last());
        lemma_after_all_concat(d, first, second.drop_last(), config, catalog);
    }
}

/// What no step and what a single step do.
proof fn lemma_after_all_short(d: Disk, steps: Seq<EnsureStep>, config: Seq<u8>, catalog: Seq<u8>)
    requires
        steps.len() <= 1,
    ensures
        steps.len() == 0 ==> d.after_all(steps, config, catalog) == d,
        steps.len() == 1 ==> d.after_all(steps, config, catalog) == d.after(
            steps[0],
            config,
            catalog,
        ),
{
    reveal_with_fuel(Disk::after_all, 3);
}

/// Ensuring the layout twice leaves storage as ensuring it once does.
pub proof fn ensure_twice_is_ensure_once(d: Disk, config: Seq<u8>, catalog: Seq<u8>)
    ensures
        d.ensured(config, catalog).ensured(config, catalog) == d.ensured(config, catalog),
{
    ensure_completes_layout(d, config, catalog);
}

/// Where a save stands.
#[derive(Debug, Clone, Copy, PartialEq, Eq, Structural)]
pub enum SaveStage {
    /// The new content is to be written to the temporary file.
    Staging,
    /// The temporary file is complete and is to be renamed into place.
    Committing,
    /// A step failed; the temporary file is to be removed.
    Cleaning,
    /// The new content is in place.
    Saved,
    /// The save failed; the old content is in place.
    Failed,
}

/// What the caller is to do next.
#[derive(Debug, Clone, Copy, PartialEq, Eq, Structural)]
pub enum SaveAction {
    /// Write the new content to the temporary file.
    WriteTemp,
    /// Rename the temporary file to the file's name.
    Rename,
    /// Remove the temporary file.
    RemoveTemp,
    /// Stop: the save succeeded.
    ReportSaved,
    /// Stop: the save failed, with `StorageWrite`.
    ReportFailed,
}

/// The stage that follows `stage` when its action went well (`ok`) or not.
pub open spec fn next_stage(stage: SaveStage, ok: bool) -> SaveStage {
    match stage {
        SaveStage::Staging => if ok {
            SaveStage::Committing
        } else {
            SaveStage::Cleaning
        },
        SaveStage::Committing => if ok {
            SaveStage::Saved
        } else {
            SaveStage::Cleaning
        },
        SaveStage::Cleaning => SaveStage::Failed,
        SaveStage::Saved => SaveStage::Saved,
        SaveStage::Failed => SaveStage::Failed,
    }
}

/// The action that `stage` asks for.
pub open spec fn action_of(stage: SaveStage) -> SaveAction {
    match stage {
        SaveStage::Staging => SaveAction::WriteTemp,
        SaveStage::Committing => SaveAction::Rename,
        SaveStage::Cleaning => SaveAction::RemoveTemp,
        SaveStage::Saved => SaveAction::ReportSaved,
        SaveStage::Failed => SaveAction::ReportFailed,
    }
}

impl SaveStage {
    /// The stage at which every save starts.
    pub fn start() -> (r: SaveStage)
        ensures
            r == SaveStage::Staging,
    {
        SaveStage::Staging
    }

    /// What the caller is to do at this stage.
    pub fn action(self) -> (r: SaveAction)
        ensures
            r == action_of(self),
    {
        match self {
            SaveStage::Staging => SaveAction::WriteTemp,
            SaveStage::Committing => SaveAction::Rename,
            SaveStage::Cleaning => SaveAction::RemoveTemp,
            SaveStage::Saved => SaveAction::ReportSaved,
            SaveStage::Failed => SaveAction::ReportFailed,
        }
    }

    /// The stage after this stage's action went well (`ok`) or failed.
    pub fn next(self, ok: bool) -> (r: SaveStage)
        ensures
            r == next_stage(self, ok),
    {
        match self {
            SaveStage::Staging => if ok {
                SaveStage::Committing
            } else {
                SaveStage::Cleaning
            },
            SaveStage::Committing => if ok {
                SaveStage::Saved
            } else {
                SaveStage::Cleaning
            },
            SaveStage::Cleaning => SaveStage::Failed,
            SaveStage::Saved => SaveStage::Saved,
            SaveStage::Failed => SaveStage::Failed,
        }
    }

    /// How the save ended, once it has: `None` while there is a step to
    /// take.
    pub fn outcome(self) -> (r: Option<Result<(), GuideError>>)
        ensures
            r == match self {
                SaveStage::Saved => Some(Ok::<(), GuideError>(())),
                SaveStage::Failed => Some(Err::<(), GuideError>(GuideError::StorageWrite)),
                _ => None::<Result<(), GuideError>>,
            },
    {
        match self {
            SaveStage::Saved => Some(Ok(())),
            SaveStage::Failed => Some(Err(GuideError::StorageWrite)),
            _ => None,
        }
    }
}

/// A file as the save law sees it: the content under the file's name, which
/// is what a reader gets, and the content of the temporary file beside it.
pub struct FileState {
    pub live: Option<Seq<u8>>,
    pub temp: Option<Seq<u8>>,
}

/// How one step went: whether it completed, and what an interrupted write
/// left in the temporary file.
pub struct StepRun {
    pub ok: bool,
    pub left: Option<Seq<u8>>,
}

/// The file after the action of `stage` ran as `run` says, in a save of
/// `data`. A write that completes leaves `data` in the temporary file, one
/// that does not leaves anything there. A rename that completes moves the
/// temporary file into place, one that does not changes nothing. No step
/// but a completed rename touches the content under the file's name.
pub open spec fn file_after(f: FileState, stage: SaveStage, data: Seq<u8>, run: StepRun) -> FileState {
    match stage {
        SaveStage::Staging => FileState {
            temp: if run.ok {
                Some(data)
            } else {
                run.left
            },
            ..f
        },
        SaveStage::Committing => if run.ok {
            FileState { live: f.temp, temp: None }
        } else {
            f
        },
        SaveStage::Cleaning => FileState {
            temp: if run.ok {
                None
            } else {
                f.temp
            },
            ..f
        },
        SaveStage::Saved => f,
        SaveStage::Failed => f,
    }
}

/// Stage and file after the steps of a save of `data` ran as `runs` says,
/// from the start on the file `f`.
pub open spec fn replay(f: FileState, data: Seq<u8>, runs: Seq<StepRun>) -> (SaveStage, FileState)
    decreases runs.len(),
{
    if runs.len() == 0 {
        (SaveStage::Staging, f)
    } else {
        let (stage, file) = replay(f, data, runs.drop_last());
        (next_stage(stage, runs.last().ok), file_after(file, stage, data, runs.last()))
    }
}

/// A reader never sees half a file. Wherever a save stops, after any number
/// of steps that went any way, the content under the file's name is the old
/// content whole, or, once the save has reached `Saved` and only then, the
/// new content whole.
pub proof fn save_is_all_or_nothing(f: FileState, data: Seq<u8>, runs: Seq<StepRun>)
    ensures
        replay(f, data, runs).1.live == if replay(f, data, runs).0 == SaveStage::Saved {
            Some(data)
        } else {
            f.live
        },
        replay(f, data, runs).0 == SaveStage::Committing ==> replay(f, data, runs).1.temp == Some(
            data,
        ),
    decreases runs.len(),
{
    if runs.len() > 0 {
        save_is_all_or_nothing(f, data, runs.drop_last());
    }
}

} // verus!

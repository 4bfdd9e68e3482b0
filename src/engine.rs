//! The text-recognition engine and its one-way loading lifecycle.
use vstd::prelude::*;
use kalosm_ocr::Ocr;
use crate::imaging::Picture;
use crate::report::AppError;

verus! {

/// The loaded recognition model of kalosm_ocr, carried through unread.
#[verifier::external_type_specification]
#[verifier::external_body]
pub struct ExOcr(kalosm_ocr::Ocr);

/// Load progress is counted in millionths: this value means fully loaded.
pub const PROGRESS_FULL: u32 = 1_000_000;

/// Where the engine is in its lifecycle.
#[derive(Clone, Copy, Debug, PartialEq, Eq, Structural)]
pub enum EngineStatus {
    Uninitialized,
    Loading,
    Ready,
    Failed,
}

/// The recognition engine: its status, its load progress and, once ready, the
/// loaded model. Recognition takes `&mut self`, so two recognitions on one
/// engine never overlap.
pub struct Engine {
    status: EngineStatus,
    progress: u32,
    model: Option<Ocr>,
}

/// One step of the lifecycle is allowed from `a` to `b`.
pub open spec fn may_follow(a: EngineStatus, b: EngineStatus) -> bool {
    a == b || (a == EngineStatus::Uninitialized && b == EngineStatus::Loading) || (a
        == EngineStatus::Loading && (b == EngineStatus::Ready || b == EngineStatus::Failed))
}

impl Engine {
    pub closed spec fn status(&self) -> EngineStatus {
        self.status
    }

    /// Load progress in millionths.
    pub closed spec fn progress(&self) -> nat {
        self.progress as nat
    }

    /// A model is held exactly when the engine is ready, and progress never
    /// passes full.
    pub closed spec fn wf(&self) -> bool {
        &&& (self.model is Some <==> self.status == EngineStatus::Ready)
        &&& self.progress <= PROGRESS_FULL
        &&& (self.status == EngineStatus::Ready ==> self.progress == PROGRESS_FULL)
        &&& (self.status == EngineStatus::Uninitialized ==> self.progress == 0)
    }

    /// A fresh engine, not yet loading.
    pub fn new() -> (r: Engine)
        ensures
            r.wf(),
            r.status() == EngineStatus::Uninitialized,
            r.progress() == 0,
    {
        Engine { status: EngineStatus::Uninitialized, progress: 0, model: None }
    }

    pub fn status_now(&self) -> (r: EngineStatus)
        ensures
            r == self.status(),
    {
        self.status
    }

    pub fn is_ready(&self) -> (r: bool)
        ensures
            r == (self.status() == EngineStatus::Ready),
    {
        match self.status {
            EngineStatus::Ready => true,
            _ => false,
        }
    }

    /// Starts loading. Only an uninitialized engine starts; it returns whether
    /// it did, and leaves any other engine as it was.
    pub fn begin_loading(&mut self) -> (started: bool)
        requires
            old(self).wf(),
        ensures
            final(self).wf(),
            started == (old(self).status() == EngineStatus::Uninitialized),
            started ==> final(self).status() == EngineStatus::Loading && final(self).progress()
                == 0,
            !started ==> final(self).status() == old(self).status() && final(self).progress()
                == old(self).progress(),
            may_follow(old(self).status(), final(self).status()),
    {
        match self.status {
            EngineStatus::Uninitialized => {
                self.status = EngineStatus::Loading;
                true
            },
            _ => false,
        }
    }

    /// Records a progress report of `reported` millionths while loading, and
    /// returns the value to announce: the largest reported so far, capped at
    /// full, so that announcements never go down. Outside loading nothing
    /// changes and nothing is announced.
    pub fn record_progress(&mut self, reported: u32) -> (announced: Option<u32>)
        requires
            old(self).wf(),
        ensures
            final(self).wf(),
            final(self).status() == old(self).status(),
            old(self).status() == EngineStatus::Loading ==> ({
                let capped = if reported <= PROGRESS_FULL { reported as nat } else { PROGRESS_FULL as nat };
                let next = if capped > old(self).progress() { capped } else { old(self).progress() };
                announced == Some(next as u32) && final(self).progress() == next
            }),
            old(self).status() != EngineStatus::Loading ==> announced is None
                && final(self).progress() == old(self).progress(),
            final(self).progress() >= old(self).progress(),
            final(self).progress() <= PROGRESS_FULL,
            announced matches Some(p) ==> p <= PROGRESS_FULL && p == final(self).progress(),
    {
        match self.status {
            EngineStatus::Loading => {
                let capped = if reported <= PROGRESS_FULL { reported } else { PROGRESS_FULL };
                if capped > self.progress {
                    self.progress = capped;
                }
                Some(self.progress)
            },
            _ => None,
        }
    }

    /// Installs the loaded model: a loading engine becomes ready, exactly once.
    /// Returns whether the model was taken.
    pub fn install(&mut self, model: Ocr) -> (installed: bool)
        requires
            old(self).wf(),
        ensures
            final(self).wf(),
            installed == (old(self).status() == EngineStatus::Loading),
            installed ==> final(self).status() == EngineStatus::Ready && final(self).progress()
                == PROGRESS_FULL,
            !installed ==> final(self).status() == old(self).status() && final(self).progress()
                == old(self).progress(),
            may_follow(old(self).status(), final(self).status()),
    {
        match self.status {
            EngineStatus::Loading => {
                self.status = EngineStatus::Ready;
                self.progress = PROGRESS_FULL;
                self.model = Some(model);
                true
            },
            _ => false,
        }
    }

    /// Records that loading failed: a loading engine stays unavailable for good.
    pub fn fail_loading(&mut self) -> (failed: bool)
        requires
            old(self).wf(),
        ensures
            final(self).wf(),
            failed == (old(self).status() == EngineStatus::Loading),
            failed ==> final(self).status() == EngineStatus::Failed,
            !failed ==> final(self).status() == old(self).status(),
            final(self).progress() == old(self).progress(),
            may_follow(old(self).status(), final(self).status()),
    {
        match self.status {
            EngineStatus::Loading => {
                self.status = EngineStatus::Failed;
                true
            },
            _ => false,
        }
    }

    /// Fails with `EngineNotReady` unless the engine is ready.
    pub fn ensure_ready(&self) -> (r: Result<(), AppError>)
        ensures
            r is Ok <==> self.status() == EngineStatus::Ready,
            r is Err ==> r == Err::<(), AppError>(AppError::EngineNotReady),
    {
        if self.is_ready() {
            Ok(())
        } else {
            Err(AppError::EngineNotReady)
        }
    }

    /// Recognizes the text of a prepared image. Before the engine is ready
    /// this fails with `EngineNotReady` and runs nothing; a failure of the
    /// model becomes `AppError::Ocr` for `filepath`.
    pub fn recognize(&mut self, img: Picture, filepath: &String) -> (r: Result<String, AppError>)
        requires
            old(self).wf(),
        ensures
            final(self).wf(),
            final(self).status() == old(self).status(),
            final(self).progress() == old(self).progress(),
            (r == Err::<String, AppError>(AppError::EngineNotReady)) <==> old(self).status()
                != EngineStatus::Ready,
            r matches Err(e) ==> (e == AppError::EngineNotReady || (e matches AppError::Ocr {
                filepath: p,
                error: _,
            } && p@ == filepath@)),
    {
        match &mut self.model {
            Some(model) => match run_model(model, img.into_image()) {
                Ok(text) => Ok(text),
                Err(msg) => Err(AppError::Ocr { filepath: filepath.clone(), error: msg }),
            },
            None => Err(AppError::EngineNotReady),
        }
    }
}

/// Relies on kalosm_ocr::Ocr::recognize_text: the text read from the image;
/// its error becomes its message.
#[verifier::external_body]
fn run_model(model: &mut Ocr, img: image::DynamicImage) -> (r: Result<String, String>) {
    match model.recognize_text(kalosm_ocr::OcrInferenceSettings::new(img)) {
        Ok(text) => Ok(text),
        Err(e) => Err(e.to_string()),
    }
}

/// The lifecycle only moves forward: from uninitialized to loading, and from
/// loading to ready or failed. Whatever sequence of lifecycle calls is made,
/// a ready engine stays ready and nothing returns to uninitialized.
pub proof fn lifecycle_moves_forward(a: EngineStatus, b: EngineStatus, c: EngineStatus)
    requires
        may_follow(a, b),
        may_follow(b, c),
    ensures
        a == EngineStatus::Ready ==> c == EngineStatus::Ready,
        c == EngineStatus::Uninitialized ==> a == EngineStatus::Uninitialized,
        a == EngineStatus::Failed ==> c == EngineStatus::Failed,
{
}

} // verus!

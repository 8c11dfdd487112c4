//! The catalogue of speech models and the state of a model download.
use vstd::prelude::*;
use crate::text::str_eq;

verus! {

/// Available speech model variants.
#[derive(Debug, Clone, Copy, PartialEq, Eq, Hash, Structural)]
pub enum WhisperModel {
    Tiny,
    TinyEn,
    Base,
    BaseEn,
    Small,
    SmallEn,
    Medium,
    MediumEn,
    LargeV1,
    LargeV2,
    LargeV3,
    LargeV3Turbo,
}

/// Every model, smallest first.
pub open spec fn all_models() -> Seq<WhisperModel> {
    seq![
        WhisperModel::Tiny,
        WhisperModel::TinyEn,
        WhisperModel::Base,
        WhisperModel::BaseEn,
        WhisperModel::Small,
        WhisperModel::SmallEn,
        WhisperModel::Medium,
        WhisperModel::MediumEn,
        WhisperModel::LargeV1,
        WhisperModel::LargeV2,
        WhisperModel::LargeV3,
        WhisperModel::LargeV3Turbo,
    ]
}

/// The models recommended for typical use.
pub open spec fn recommended_models() -> Seq<WhisperModel> {
    seq![WhisperModel::Tiny, WhisperModel::Base, WhisperModel::Small, WhisperModel::Medium]
}

/// Name shown to the user.
pub open spec fn display_name_of(m: WhisperModel) -> &'static str {
    match m {
        WhisperModel::Tiny => "Tiny (75 MB)",
        WhisperModel::TinyEn => "Tiny English (75 MB)",
        WhisperModel::Base => "Base (142 MB)",
        WhisperModel::BaseEn => "Base English (142 MB)",
        WhisperModel::Small => "Small (466 MB)",
        WhisperModel::SmallEn => "Small English (466 MB)",
        WhisperModel::Medium => "Medium (1.5 GB)",
        WhisperModel::MediumEn => "Medium English (1.5 GB)",
        WhisperModel::LargeV1 => "Large v1 (2.9 GB)",
        WhisperModel::LargeV2 => "Large v2 (2.9 GB)",
        WhisperModel::LargeV3 => "Large v3 (2.9 GB)",
        WhisperModel::LargeV3Turbo => "Large v3 Turbo (1.6 GB)",
    }
}

/// Name of the model's file.
pub open spec fn file_name_of(m: WhisperModel) -> &'static str {
    match m {
        WhisperModel::Tiny => "ggml-tiny.bin",
        WhisperModel::TinyEn => "ggml-tiny.en.bin",
        WhisperModel::Base => "ggml-base.bin",
        WhisperModel::BaseEn => "ggml-base.en.bin",
        WhisperModel::Small => "ggml-small.bin",
        WhisperModel::SmallEn => "ggml-small.en.bin",
        WhisperModel::Medium => "ggml-medium.bin",
        WhisperModel::MediumEn => "ggml-medium.en.bin",
        WhisperModel::LargeV1 => "ggml-large-v1.bin",
        WhisperModel::LargeV2 => "ggml-large-v2.bin",
        WhisperModel::LargeV3 => "ggml-large-v3.bin",
        WhisperModel::LargeV3Turbo => "ggml-large-v3-turbo.bin",
    }
}

/// Short name used in stored settings.
pub open spec fn short_name_of(m: WhisperModel) -> &'static str {
    match m {
        WhisperModel::Tiny => "tiny",
        WhisperModel::TinyEn => "tiny.en",
        WhisperModel::Base => "base",
        WhisperModel::BaseEn => "base.en",
        WhisperModel::Small => "small",
        WhisperModel::SmallEn => "small.en",
        WhisperModel::Medium => "medium",
        WhisperModel::MediumEn => "medium.en",
        WhisperModel::LargeV1 => "large-v1",
        WhisperModel::LargeV2 => "large-v2",
        WhisperModel::LargeV3 => "large-v3",
        WhisperModel::LargeV3Turbo => "large-v3-turbo",
    }
}

/// Approximate size of the model in bytes.
pub open spec fn size_of(m: WhisperModel) -> u64 {
    match m {
        WhisperModel::Tiny | WhisperModel::TinyEn => 75_000_000,
        WhisperModel::Base | WhisperModel::BaseEn => 142_000_000,
        WhisperModel::Small | WhisperModel::SmallEn => 466_000_000,
        WhisperModel::Medium | WhisperModel::MediumEn => 1_500_000_000,
        WhisperModel::LargeV1 | WhisperModel::LargeV2 | WhisperModel::LargeV3 => 2_900_000_000,
        WhisperModel::LargeV3Turbo => 1_600_000_000,
    }
}

/// Every model is listed in [`all_models`].
pub proof fn lemma_all_models_complete(m: WhisperModel)
    ensures
        exists|k: int| 0 <= k < all_models().len() && all_models()[k] == m,
{
    let k: int = match m {
        WhisperModel::Tiny => 0,
        WhisperModel::TinyEn => 1,
        WhisperModel::Base => 2,
        WhisperModel::BaseEn => 3,
        WhisperModel::Small => 4,
        WhisperModel::SmallEn => 5,
        WhisperModel::Medium => 6,
        WhisperModel::MediumEn => 7,
        WhisperModel::LargeV1 => 8,
        WhisperModel::LargeV2 => 9,
        WhisperModel::LargeV3 => 10,
        WhisperModel::LargeV3Turbo => 11,
    };
    assert(all_models()[k] == m);
}

/// No two models share a short name.
pub proof fn lemma_short_names_distinct(a: WhisperModel, b: WhisperModel)
    ensures
        short_name_of(a)@ == short_name_of(b)@ ==> a == b,
{
    reveal_strlit("tiny");
    reveal_strlit("tiny.en");
    reveal_strlit("base");
    reveal_strlit("base.en");
    reveal_strlit("small");
    reveal_strlit("small.en");
    reveal_strlit("medium");
    reveal_strlit("medium.en");
    reveal_strlit("large-v1");
    reveal_strlit("large-v2");
    reveal_strlit("large-v3");
    reveal_strlit("large-v3-turbo");
    if short_name_of(a)@ == short_name_of(b)@ && a != b {
        let x = short_name_of(a)@;
        let y = short_name_of(b)@;
        assert(x.len() == y.len());
        assert(x[x.len() - 1] == y[y.len() - 1]);
        assert(x[0] == y[0]);
        assert(x.len() > 6 ==> x[6] == y[6]);
        assert(x.len() > 7 ==> x[7] == y[7]);
    }
}

impl WhisperModel {
    /// Every available model.
    pub fn all() -> (r: Vec<WhisperModel>)
        ensures
            r@ == all_models(),
    {
        vec![
            WhisperModel::Tiny,
            WhisperModel::TinyEn,
            WhisperModel::Base,
            WhisperModel::BaseEn,
            WhisperModel::Small,
            WhisperModel::SmallEn,
            WhisperModel::Medium,
            WhisperModel::MediumEn,
            WhisperModel::LargeV1,
            WhisperModel::LargeV2,
            WhisperModel::LargeV3,
            WhisperModel::LargeV3Turbo,
        ]
    }

    /// The models recommended for typical use.
    pub fn recommended() -> (r: Vec<WhisperModel>)
        ensures
            r@ == recommended_models(),
    {
        vec![WhisperModel::Tiny, WhisperModel::Base, WhisperModel::Small, WhisperModel::Medium]
    }

    /// The model selected when nothing else is.
    pub fn default_model() -> (r: WhisperModel)
        ensures
            r == WhisperModel::Tiny,
    {
        WhisperModel::Tiny
    }

    /// Name shown to the user.
    pub fn display_name(&self) -> (r: &'static str)
        ensures
            r == display_name_of(*self),
    {
        match self {
            WhisperModel::Tiny => "Tiny (75 MB)",
            WhisperModel::TinyEn => "Tiny English (75 MB)",
            WhisperModel::Base => "Base (142 MB)",
            WhisperModel::BaseEn => "Base English (142 MB)",
            WhisperModel::Small => "Small (466 MB)",
            WhisperModel::SmallEn => "Small English (466 MB)",
            WhisperModel::Medium => "Medium (1.5 GB)",
            WhisperModel::MediumEn => "Medium English (1.5 GB)",
            WhisperModel::LargeV1 => "Large v1 (2.9 GB)",
            WhisperModel::LargeV2 => "Large v2 (2.9 GB)",
            WhisperModel::LargeV3 => "Large v3 (2.9 GB)",
            WhisperModel::LargeV3Turbo => "Large v3 Turbo (1.6 GB)",
        }
    }

    /// Name of the model's file.
    pub fn file_name(&self) -> (r: &'static str)
        ensures
            r == file_name_of(*self),
    {
        match self {
            WhisperModel::Tiny => "ggml-tiny.bin",
            WhisperModel::TinyEn => "ggml-tiny.en.bin",
            WhisperModel::Base => "ggml-base.bin",
            WhisperModel::BaseEn => "ggml-base.en.bin",
            WhisperModel::Small => "ggml-small.bin",
            WhisperModel::SmallEn => "ggml-small.en.bin",
            WhisperModel::Medium => "ggml-medium.bin",
            WhisperModel::MediumEn => "ggml-medium.en.bin",
            WhisperModel::LargeV1 => "ggml-large-v1.bin",
            WhisperModel::LargeV2 => "ggml-large-v2.bin",
            WhisperModel::LargeV3 => "ggml-large-v3.bin",
            WhisperModel::LargeV3Turbo => "ggml-large-v3-turbo.bin",
        }
    }

    /// Short name used in stored settings.
    pub fn short_name(&self) -> (r: &'static str)
        ensures
            r == short_name_of(*self),
    {
        match self {
            WhisperModel::Tiny => "tiny",
            WhisperModel::TinyEn => "tiny.en",
            WhisperModel::Base => "base",
            WhisperModel::BaseEn => "base.en",
            WhisperModel::Small => "small",
            WhisperModel::SmallEn => "small.en",
            WhisperModel::Medium => "medium",
            WhisperModel::MediumEn => "medium.en",
            WhisperModel::LargeV1 => "large-v1",
            WhisperModel::LargeV2 => "large-v2",
            WhisperModel::LargeV3 => "large-v3",
            WhisperModel::LargeV3Turbo => "large-v3-turbo",
        }
    }

    /// The model with the given short name, if any.
    pub fn from_short_name(name: &str) -> (r: Option<WhisperModel>)
        ensures
            forall|m: WhisperModel| r == Some(m) <==> short_name_of(m)@ == name@,
    {
        let all = WhisperModel::all();
        let mut k: usize = 0;
        while k < all.len()
            invariant
                all@ == all_models(),
                k <= all@.len(),
                forall|j: int| 0 <= j < k ==> short_name_of(all_models()[j])@ != name@,
            decreases all@.len() - k,
        {
            let m = all[k];
            if str_eq(m.short_name(), name) {
                proof {
                    assert forall|o: WhisperModel| short_name_of(o)@ == name@ implies o == m by {
                        lemma_short_names_distinct(o, m);
                    }
                }
                return Some(m);
            }
            k = k + 1;
        }
        assert forall|m: WhisperModel| short_name_of(m)@ != name@ by {
            lemma_all_models_complete(m);
        }
        None
    }

    /// Approximate size of the model in bytes.
    pub fn size_bytes(&self) -> (r: u64)
        ensures
            r == size_of(*self),
    {
        match self {
            WhisperModel::Tiny | WhisperModel::TinyEn => 75_000_000,
            WhisperModel::Base | WhisperModel::BaseEn => 142_000_000,
            WhisperModel::Small | WhisperModel::SmallEn => 466_000_000,
            WhisperModel::Medium | WhisperModel::MediumEn => 1_500_000_000,
            WhisperModel::LargeV1 | WhisperModel::LargeV2 | WhisperModel::LargeV3 => 2_900_000_000,
            WhisperModel::LargeV3Turbo => 1_600_000_000,
        }
    }
}

} // verus!

verus! {

/// Progress of a model download, as read by the user interface.
#[derive(Debug, Clone)]
pub struct ModelDownloadProgress {
    /// Bytes downloaded so far.
    pub downloaded_bytes: u64,
    /// Total bytes to download, when known.
    pub total_bytes: Option<u64>,
    /// Download speed in bytes per second.
    pub speed_bytes_per_sec: u64,
    /// Whether the download has completed.
    pub is_complete: bool,
    /// Error message if the download failed.
    pub error: Option<String>,
}

impl Default for ModelDownloadProgress {
    /// Nothing downloaded, total unknown, not complete, no error.
    fn default() -> (r: Self)
        ensures
            r.downloaded_bytes == 0,
            r.total_bytes is None,
            r.speed_bytes_per_sec == 0,
            !r.is_complete,
            r.error is None,
    {
        ModelDownloadProgress {
            downloaded_bytes: 0,
            total_bytes: None,
            speed_bytes_per_sec: 0,
            is_complete: false,
            error: None,
        }
    }
}

/// The abstract state of a [`ProgressTracker`].
pub struct DownloadState {
    pub downloaded: nat,
    /// Total size; zero while unknown.
    pub total: nat,
    pub complete: bool,
    pub error: Option<Seq<char>>,
    pub cancelled: bool,
}

/// Progress of one download, updated by the downloader and read by the
/// user interface; cancellation is requested through it.
pub struct ProgressTracker {
    downloaded: u64,
    total: u64,
    is_complete: bool,
    error: Option<String>,
    cancelled: bool,
}

impl View for ProgressTracker {
    type V = DownloadState;

    closed spec fn view(&self) -> DownloadState {
        DownloadState {
            downloaded: self.downloaded as nat,
            total: self.total as nat,
            complete: self.is_complete,
            error: match self.error {
                Some(e) => Some(e@),
                None => None,
            },
            cancelled: self.cancelled,
        }
    }
}

/// State of a download that has not started.
pub open spec fn fresh_download() -> DownloadState {
    DownloadState { downloaded: 0, total: 0, complete: false, error: None, cancelled: false }
}

impl ProgressTracker {
    /// A tracker with nothing downloaded.
    pub fn new() -> (r: Self)
        ensures
            r@ == fresh_download(),
    {
        ProgressTracker { downloaded: 0, total: 0, is_complete: false, error: None, cancelled: false }
    }

    /// Records the total size of the download.
    pub fn set_total(&mut self, total: u64)
        ensures
            final(self)@ == (DownloadState { total: total as nat, ..old(self)@ }),
    {
        self.total = total;
    }

    /// Records how many bytes have been downloaded.
    pub fn set_downloaded(&mut self, downloaded: u64)
        ensures
            final(self)@ == (DownloadState { downloaded: downloaded as nat, ..old(self)@ }),
    {
        self.downloaded = downloaded;
    }

    /// Marks the download complete.
    pub fn set_complete(&mut self)
        ensures
            final(self)@ == (DownloadState { complete: true, ..old(self)@ }),
    {
        self.is_complete = true;
    }

    /// Records why the download failed.
    pub fn set_error(&mut self, msg: String)
        ensures
            final(self)@ == (DownloadState { error: Some(msg@), ..old(self)@ }),
    {
        self.error = Some(msg);
    }

    /// Requests cancellation.
    pub fn cancel(&mut self)
        ensures
            final(self)@ == (DownloadState { cancelled: true, ..old(self)@ }),
    {
        self.cancelled = true;
    }

    /// Whether cancellation was requested.
    pub fn is_cancelled(&self) -> (r: bool)
        ensures
            r == self@.cancelled,
    {
        self.cancelled
    }

    /// A snapshot of the progress; the total is absent while unknown.
    pub fn get_progress(&self) -> (r: ModelDownloadProgress)
        ensures
            r.downloaded_bytes == self@.downloaded,
            r.total_bytes == (if self@.total > 0 {
                Some(self@.total as u64)
            } else {
                None
            }),
            r.speed_bytes_per_sec == 0,
            r.is_complete == self@.complete,
            (match r.error {
                Some(e) => self@.error == Some(e@),
                None => self@.error is None,
            }),
    {
        let error = match &self.error {
            Some(e) => Some(e.clone()),
            None => None,
        };
        ModelDownloadProgress {
            downloaded_bytes: self.downloaded,
            total_bytes: if self.total > 0 {
                Some(self.total)
            } else {
                None
            },
            speed_bytes_per_sec: 0,
            is_complete: self.is_complete,
            error,
        }
    }
}

/// Reports the progress of a download into a [`ProgressTracker`]: the size
/// when it starts, the bytes as they arrive, completion at the end.
pub struct ProgressReporter {
    tracker: ProgressTracker,
}

impl ProgressReporter {
    /// A reporter into `tracker`.
    pub fn new(tracker: ProgressTracker) -> (r: Self)
        ensures
            r.tracker()@ == tracker@,
    {
        ProgressReporter { tracker }
    }

    /// The tracker reported into.
    pub closed spec fn tracker(&self) -> ProgressTracker {
        self.tracker
    }

    /// The download of `size` bytes starts.
    pub fn init(&mut self, size: usize)
        ensures
            final(self).tracker()@ == (DownloadState { total: size as nat, ..old(self).tracker()@ }),
    {
        self.tracker.set_total(size as u64);
    }

    /// Another `size` bytes arrived.
    pub fn update(&mut self, size: usize)
        requires
            old(self).tracker()@.downloaded + size <= u64::MAX,
        ensures
            final(self).tracker()@ == (DownloadState {
                downloaded: old(self).tracker()@.downloaded + size as nat,
                ..old(self).tracker()@
            }),
    {
        let current = self.tracker.downloaded;
        self.tracker.set_downloaded(current + size as u64);
    }

    /// The download finished.
    pub fn finish(&mut self)
        ensures
            final(self).tracker()@ == (DownloadState { complete: true, ..old(self).tracker()@ }),
    {
        self.tracker.set_complete();
    }

    /// The progress reported so far.
    pub fn get_progress(&self) -> (r: ModelDownloadProgress)
        ensures
            r.downloaded_bytes == self.tracker()@.downloaded,
            r.total_bytes == (if self.tracker()@.total > 0 {
                Some(self.tracker()@.total as u64)
            } else {
                None
            }),
            r.is_complete == self.tracker()@.complete,
    {
        self.tracker.get_progress()
    }
}

impl Default for ProgressTracker {
    fn default() -> (r: Self)
        ensures
            r@ == fresh_download(),
    {
        ProgressTracker::new()
    }
}

} // verus!

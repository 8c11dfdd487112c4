//! Settings and descriptive records shared by the application.
use vstd::prelude::*;
use crate::text::string_of;

verus! {

/// Parameters for a transcription.
#[derive(Debug, Clone)]
pub struct TranscriptionParameters {
    pub initial_prompt: Option<String>,
    pub language: Option<String>,
    pub offset_ms: i64,
    pub should_translate: bool,
}

impl Default for TranscriptionParameters {
    fn default() -> (r: Self)
        ensures
            r.initial_prompt is None,
            r.language is None,
            r.offset_ms == 0,
            !r.should_translate,
    {
        TranscriptionParameters {
            initial_prompt: None,
            language: None,
            offset_ms: 0,
            should_translate: false,
        }
    }
}

/// Application settings.
#[derive(Debug, Clone)]
pub struct Settings {
    pub selected_model_name: String,
    pub parameters: TranscriptionParameters,
    pub is_using_gpu: bool,
    pub is_vad_enabled: bool,
    pub is_live_transcription_enabled: bool,
    pub confirm_on_delete: bool,
}

impl Default for Settings {
    /// The tiny model, default parameters, no GPU, no voice activity
    /// detection, no live transcription, deletions confirmed.
    fn default() -> (r: Self)
        ensures
            r.selected_model_name@ == "tiny"@,
            r.parameters.initial_prompt is None,
            r.parameters.language is None,
            r.parameters.offset_ms == 0,
            !r.parameters.should_translate,
            !r.is_using_gpu,
            !r.is_vad_enabled,
            !r.is_live_transcription_enabled,
            r.confirm_on_delete,
    {
        Settings {
            selected_model_name: string_of("tiny"),
            parameters: TranscriptionParameters::default(),
            is_using_gpu: false,
            is_vad_enabled: false,
            is_live_transcription_enabled: false,
            confirm_on_delete: true,
        }
    }
}

/// The text shown for a recording: its edited text when there is one, else
/// its transcription's text when there is one, else nothing.
pub fn recording_text<'a>(
    edited_text: &'a Option<String>,
    transcription_text: Option<&'a String>,
) -> (r: &'a str)
    ensures
        r@ == (match edited_text {
            Some(e) => e@,
            None => match transcription_text {
                Some(t) => t@,
                None => Seq::<char>::empty(),
            },
        }),
{
    match edited_text {
        Some(e) => e.as_str(),
        None => match transcription_text {
            Some(t) => t.as_str(),
            None => {
                proof {
                    reveal_strlit("");
                }
                ""
            },
        },
    }
}

/// Information about a speech model.
#[derive(Debug, Clone)]
pub struct ModelInfo {
    pub name: String,
    pub is_local: bool,
    pub is_default: bool,
    pub is_disabled: bool,
    pub size_bytes: Option<u64>,
}

/// Options for transcribing a whole recording.
#[derive(Debug, Clone)]
pub struct TranscriptionOptions {
    /// Language code (such as "en"), or "auto" to detect it.
    pub language: Option<String>,
    /// Whether to translate to English.
    pub translate: bool,
    /// Number of threads to use (0 picks automatically).
    pub n_threads: i32,
}

impl Default for TranscriptionOptions {
    fn default() -> (r: Self)
        ensures
            r.language is None,
            !r.translate,
            r.n_threads == 0,
    {
        TranscriptionOptions { language: None, translate: false, n_threads: 0 }
    }
}

/// Screen shown by the application.
#[derive(Debug, Clone, PartialEq, Eq)]
pub enum ActiveView {
    Record,
    RecordingList,
    /// Details of the recording with this file name.
    RecordingDetails(String),
    Settings,
}

impl Default for ActiveView {
    fn default() -> (r: Self)
        ensures
            r == ActiveView::Record,
    {
        ActiveView::Record
    }
}

} // verus!

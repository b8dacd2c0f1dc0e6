use vstd::prelude::*;

use crate::text::{lower_of, lowercase, str_eq};

verus! {

broadcast use vstd::string::group_string_axioms;

/// One registered model: identity, description, file locations, and whether it
/// is the currently active one.
#[derive(Debug)]
pub struct ModelInfo {
    pub id: String,
    pub name: String,
    pub description: String,
    pub path: String,
    pub model_type: String,
    pub num_classes: u32,
    pub script_path: String,
    pub is_active: bool,
}

impl Clone for ModelInfo {
    fn clone(&self) -> (res: ModelInfo)
        ensures
            res == *self,
    {
        ModelInfo {
            id: self.id.clone(),
            name: self.name.clone(),
            description: self.description.clone(),
            path: self.path.clone(),
            model_type: self.model_type.clone(),
            num_classes: self.num_classes,
            script_path: self.script_path.clone(),
            is_active: self.is_active,
        }
    }
}

/// The full list of registered models together with the active model's id.
#[derive(Debug)]
pub struct AvailableModels {
    pub models: Vec<ModelInfo>,
    pub active_model_id: String,
}

/// Whether saving a history record succeeded, with a human-readable message.
#[derive(Debug)]
pub struct SaveHistoryResult {
    pub success: bool,
    pub message: String,
}

/// Where an uploaded image was stored and the identifier it was stored under.
#[derive(Debug)]
pub struct SaveImageResult {
    pub file_path: String,
    pub image_id: String,
}

/// An error payload as the worker reports it.
#[derive(Debug)]
pub struct ErrorResult {
    pub error: String,
}

/// Image metadata in the shape handed to the presentation layer.
#[derive(Debug)]
pub struct ImageDto {
    pub id: String,
    pub original_file_name: Option<String>,
    pub image_url: Option<String>,
    pub file_size: Option<i32>,
    pub format: Option<String>,
}

/// The lifecycle state of one recognition request.
#[derive(Clone, Copy, PartialEq, Eq, Structural, Debug)]
pub enum RecognitionStatus {
    Pending,
    Processing,
    Success,
    Failed,
    Error,
}

/// The status a lowercase status word denotes, if any.
pub open spec fn spec_status_of(folded: Seq<char>) -> Option<RecognitionStatus> {
    if folded == "pending"@ {
        Some(RecognitionStatus::Pending)
    } else if folded == "processing"@ {
        Some(RecognitionStatus::Processing)
    } else if folded == "success"@ {
        Some(RecognitionStatus::Success)
    } else if folded == "failed"@ {
        Some(RecognitionStatus::Failed)
    } else if folded == "error"@ {
        Some(RecognitionStatus::Error)
    } else {
        None
    }
}

impl RecognitionStatus {
    /// Reads a status from its name, ignoring case.
    pub fn parse(s: &str) -> (r: Option<RecognitionStatus>)
        ensures
            r == spec_status_of(lower_of(s@)),
    {
        let folded = lowercase(s);
        if str_eq(folded.as_str(), "pending") {
            Some(RecognitionStatus::Pending)
        } else if str_eq(folded.as_str(), "processing") {
            Some(RecognitionStatus::Processing)
        } else if str_eq(folded.as_str(), "success") {
            Some(RecognitionStatus::Success)
        } else if str_eq(folded.as_str(), "failed") {
            Some(RecognitionStatus::Failed)
        } else if str_eq(folded.as_str(), "error") {
            Some(RecognitionStatus::Error)
        } else {
            None
        }
    }

    /// The lowercase name of the status.
    pub fn as_str(&self) -> (r: &'static str)
        ensures
            spec_status_of(r@) == Some(*self),
    {
        proof {
            reveal_strlit("pending");
            reveal_strlit("processing");
            reveal_strlit("success");
            reveal_strlit("failed");
            reveal_strlit("error");
            assert("pending"@.len() == 7);
            assert("processing"@.len() == 10);
            assert("success"@.len() == 7);
            assert("failed"@.len() == 6);
            assert("error"@.len() == 5);
            assert("success"@[0] == 's');
            assert("pending"@[0] == 'p');
            assert("success"@ != "pending"@);
        }
        match self {
            RecognitionStatus::Pending => "pending",
            RecognitionStatus::Processing => "processing",
            RecognitionStatus::Success => "success",
            RecognitionStatus::Failed => "failed",
            RecognitionStatus::Error => "error",
        }
    }

    /// The status implied by what a finished request carries: a result means
    /// success, an error message without a result means failure, and neither
    /// means the request is still pending.
    pub fn implied_by(has_result: bool, has_error_message: bool) -> (r: RecognitionStatus)
        ensures
            has_result ==> r == RecognitionStatus::Success,
            !has_result && has_error_message ==> r == RecognitionStatus::Failed,
            !has_result && !has_error_message ==> r == RecognitionStatus::Pending,
    {
        if has_result {
            RecognitionStatus::Success
        } else if has_error_message {
            RecognitionStatus::Failed
        } else {
            RecognitionStatus::Pending
        }
    }
}

impl Default for RecognitionStatus {
    /// A fresh request starts out pending.
    fn default() -> (r: RecognitionStatus)
        ensures
            r == RecognitionStatus::Pending,
    {
        RecognitionStatus::Pending
    }
}

} // verus!

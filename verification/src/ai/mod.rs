//! The AI boundary: the draft shapes exchanged with an AI provider and
//! the `AiService` trait every provider implements.

pub mod openai;

use crate::errors::AppError;
use vstd::prelude::*;

verus! {

/// One capture as described to the model: its id, its type's wire
/// string, its text, and, for a screenshot whose image is on disk, the
/// PNG bytes.
pub struct CaptureForAi {
    pub id: String,
    pub capture_type: String,
    pub title: String,
    pub description: String,
    pub screenshot_png: Option<Vec<u8>>,
}

pub struct CaptureForAiView {
    pub id: Seq<char>,
    pub capture_type: Seq<char>,
    pub title: Seq<char>,
    pub description: Seq<char>,
    pub screenshot_png: Option<Seq<u8>>,
}

impl View for CaptureForAi {
    type V = CaptureForAiView;

    open spec fn view(&self) -> CaptureForAiView {
        CaptureForAiView {
            id: self.id@,
            capture_type: self.capture_type@,
            title: self.title@,
            description: self.description@,
            screenshot_png: match self.screenshot_png {
                Some(b) => Some(b@),
                None => None,
            },
        }
    }
}

/// A process's identity plus its captures, oldest first.
pub struct ProcessDraftRequest {
    pub process_name: String,
    pub process_description: String,
    pub captures: Vec<CaptureForAi>,
}

pub struct ProcessDraftRequestView {
    pub process_name: Seq<char>,
    pub process_description: Seq<char>,
    pub captures: Seq<CaptureForAiView>,
}

impl View for ProcessDraftRequest {
    type V = ProcessDraftRequestView;

    open spec fn view(&self) -> ProcessDraftRequestView {
        ProcessDraftRequestView {
            process_name: self.process_name@,
            process_description: self.process_description@,
            captures: self.captures@.map_values(|c: CaptureForAi| c@),
        }
    }
}

/// The AI-structured result: a summary plus an ordered list of steps.
#[derive(Debug, Clone, PartialEq)]
pub struct ProcessDraft {
    pub summary: String,
    pub steps: Vec<ProcessDraftStep>,
}

/// One step: its text and the ids of the captures it is based on.
#[derive(Debug, Clone, PartialEq)]
pub struct ProcessDraftStep {
    pub title: String,
    pub description: String,
    pub capture_ids: Vec<String>,
}

pub struct StepView {
    pub title: Seq<char>,
    pub description: Seq<char>,
    pub capture_ids: Seq<Seq<char>>,
}

pub struct DraftView {
    pub summary: Seq<char>,
    pub steps: Seq<StepView>,
}

impl View for ProcessDraftStep {
    type V = StepView;

    open spec fn view(&self) -> StepView {
        StepView {
            title: self.title@,
            description: self.description@,
            capture_ids: strings_view(self.capture_ids@),
        }
    }
}

impl View for ProcessDraft {
    type V = DraftView;

    open spec fn view(&self) -> DraftView {
        DraftView { summary: self.summary@, steps: steps_view(self.steps@) }
    }
}

/// The views of a list of strings.
pub open spec fn strings_view(v: Seq<String>) -> Seq<Seq<char>> {
    v.map_values(|s: String| s@)
}

/// The views of a list of steps.
pub open spec fn steps_view(v: Seq<ProcessDraftStep>) -> Seq<StepView> {
    v.map_values(|s: ProcessDraftStep| s@)
}

/// A copy of a list of strings.
pub fn duplicate_strings(v: &Vec<String>) -> (r: Vec<String>)
    ensures
        strings_view(r@) == strings_view(v@),
{
    let mut r: Vec<String> = Vec::new();
    let mut i: usize = 0;
    while i < v.len()
        invariant
            i <= v.len(),
            r@.len() == i,
            forall|j: int| 0 <= j < i ==> #[trigger] r@[j]@ == v@[j]@,
        decreases v.len() - i,
    {
        r.push(v[i].clone());
        i = i + 1;
    }
    assert(strings_view(r@) =~= strings_view(v@));
    r
}

impl ProcessDraftStep {
    /// A field-by-field copy.
    pub fn duplicate(&self) -> (r: ProcessDraftStep)
        ensures
            r@ == self@,
    {
        ProcessDraftStep {
            title: self.title.clone(),
            description: self.description.clone(),
            capture_ids: duplicate_strings(&self.capture_ids),
        }
    }
}

impl ProcessDraft {
    /// A field-by-field copy.
    pub fn duplicate(&self) -> (r: ProcessDraft)
        ensures
            r@ == self@,
    {
        let mut steps: Vec<ProcessDraftStep> = Vec::new();
        let mut i: usize = 0;
        while i < self.steps.len()
            invariant
                i <= self.steps.len(),
                steps@.len() == i,
                forall|j: int| 0 <= j < i ==> #[trigger] steps@[j]@ == self.steps@[j]@,
            decreases self.steps.len() - i,
        {
            steps.push(self.steps[i].duplicate());
            i = i + 1;
        }
        assert(steps_view(steps@) =~= steps_view(self.steps@));
        ProcessDraft { summary: self.summary.clone(), steps }
    }
}

/// The AI provider abstraction: implemented by the OpenAI client in the
/// desktop app, and by any other provider. The result depends on the
/// provider, so nothing is promised of it here.
pub trait AiService {
    fn generate_process_draft(&self, api_key: &str, request: &ProcessDraftRequest) -> Result<
        ProcessDraft,
        AppError,
    >;
}

} // verus!

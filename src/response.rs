//! Request and response envelopes.
use vstd::prelude::*;
use crate::error::GeminiError;
use crate::message::{opt_turn, turns, Content, Turn};

verus! {

/// One completion offered by the service.
#[derive(Debug)]
pub struct Candidate {
    pub content: Content,
}

/// What is submitted for one turn: the model id, the whole history and the
/// optional system instruction.
#[derive(Debug)]
pub struct GenerateContentRequest {
    pub model: String,
    pub contents: Vec<Content>,
    pub system_instruction: Option<Content>,
}

/// The abstract value of a request.
pub struct RequestView {
    pub model: Seq<char>,
    pub contents: Seq<Turn>,
    pub system_instruction: Option<Turn>,
}

impl View for GenerateContentRequest {
    type V = RequestView;

    open spec fn view(&self) -> RequestView {
        RequestView {
            model: self.model@,
            contents: turns(self.contents@),
            system_instruction: opt_turn(self.system_instruction),
        }
    }
}

/// What the service answers: candidate completions and a model-version tag.
#[derive(Debug)]
pub struct GenerateContentResponse {
    pub candidates: Vec<Candidate>,
    pub model_version: String,
}

/// The abstract value of a response: the turn of each candidate, and the
/// model-version tag.
pub struct ResponseView {
    pub candidates: Seq<Turn>,
    pub model_version: Seq<char>,
}

impl View for GenerateContentResponse {
    type V = ResponseView;

    open spec fn view(&self) -> ResponseView {
        ResponseView {
            candidates: self.candidates@.map_values(|c: Candidate| c.content@),
            model_version: self.model_version@,
        }
    }
}

/// Whether the response holds a usable text: a first candidate with a
/// first part.
pub open spec fn has_text(r: ResponseView) -> bool {
    r.candidates.len() > 0 && r.candidates[0].parts.len() > 0
}

/// The text of the first part of the first candidate.
pub open spec fn first_text(r: ResponseView) -> Seq<char>
    recommends
        has_text(r),
{
    r.candidates[0].parts[0]
}

impl GenerateContentResponse {
    /// The text of the first candidate's first part; later candidates and
    /// later parts are never consulted.
    pub fn get_text(&self) -> (r: Result<String, GeminiError>)
        ensures
            has_text(self@) <==> r is Ok,
            r matches Ok(t) ==> t@ == first_text(self@),
            r is Err ==> r matches Err(GeminiError::NoCandidates),
    {
        if self.candidates.len() == 0 {
            return Err(GeminiError::NoCandidates);
        }
        let content = &self.candidates[0].content;
        if content.parts.len() == 0 {
            return Err(GeminiError::NoCandidates);
        }
        Ok(content.parts[0].text.clone())
    }
}

} // verus!

//! The conversation session: its state, the requests it builds and how it
//! takes in the service's answers.
//!
//! A turn is taken in two steps around the transport: `begin_talk` records the
//! user's turn and returns the request to send; `finish_talk` takes what the
//! transport brought back. Summarizing works the same way: `begin_summarize`
//! gives a scratch conversation and its request, the scratch conversation's
//! `finish_talk` takes the answer, and `finish_summarize` applies the summary.
use vstd::prelude::*;
use crate::error::GeminiError;
use crate::message::{clone_opt_turn, clone_turns, opt_turn, text_turn, turns, Content, Turn};
use crate::response::{first_text, has_text, GenerateContentRequest, GenerateContentResponse};

verus! {

/// Base endpoint of the service.
pub const BASE_URL: &'static str = "https://generativelanguage.googleapis.com/v1beta/";

/// Model used by a new conversation.
pub const DEFAULT_MODEL: &'static str = "gemini-1.5-flash";

/// Standing instruction given to the scratch conversation that summarizes.
pub const SUMMARY_INSTRUCTION: &'static str = "
            Previous conversations need to be compressed to save the tokens needed to process the generative AI.
            You are the AI assistant that summarises the conversation for this purpose.";

/// Message sent by the scratch conversation to obtain the summary.
pub const SUMMARY_REQUEST: &'static str = "Summarize the conversation";

/// A dialogue with the service: credential, endpoint, model, the history of
/// turns (oldest first) and an optional system instruction.
#[derive(Debug)]
pub struct Conversation {
    api_key: String,
    base_url: String,
    model: String,
    history: Vec<Content>,
    system_instruction: Option<Content>,
}

/// The abstract value of a conversation.
pub struct ConversationView {
    pub api_key: Seq<char>,
    pub base_url: Seq<char>,
    pub model: Seq<char>,
    pub history: Seq<Turn>,
    pub system_instruction: Option<Turn>,
}

impl View for Conversation {
    type V = ConversationView;

    closed spec fn view(&self) -> ConversationView {
        ConversationView {
            api_key: self.api_key@,
            base_url: self.base_url@,
            model: self.model@,
            history: turns(self.history@),
            system_instruction: opt_turn(self.system_instruction),
        }
    }
}

/// The endpoint of a model: `{base}models/{model}:generateContent?key={key}`.
pub open spec fn endpoint(base: Seq<char>, model: Seq<char>, key: Seq<char>) -> Seq<char> {
    base + "models/"@ + model + ":generateContent?key="@ + key
}

/// A fresh conversation under `key`: default endpoint and model, no history,
/// no system instruction.
pub open spec fn fresh(key: Seq<char>) -> ConversationView {
    ConversationView {
        api_key: key,
        base_url: BASE_URL@,
        model: DEFAULT_MODEL@,
        history: Seq::empty(),
        system_instruction: None,
    }
}

/// `c` with its system instruction replaced by a single system-role part.
pub open spec fn with_instruction(c: ConversationView, text: Seq<char>) -> ConversationView {
    ConversationView { system_instruction: Some(text_turn(text, "system"@)), ..c }
}

/// `c` with one turn appended to its history.
pub open spec fn with_turn(c: ConversationView, t: Turn) -> ConversationView {
    ConversationView { history: c.history.push(t), ..c }
}

/// The conversation `c`, which already holds the user's turn, after it has
/// taken in the transport's `outcome`.
pub open spec fn finished(c: ConversationView, outcome: Result<GenerateContentResponse, GeminiError>) -> ConversationView {
    match outcome {
        Ok(resp) => if has_text(resp@) {
            with_turn(c, text_turn(first_text(resp@), "model"@))
        } else {
            c
        },
        Err(_) => c,
    }
}

/// Whether a transport outcome yields a usable reply.
pub open spec fn succeeds(outcome: Result<GenerateContentResponse, GeminiError>) -> bool {
    match outcome {
        Ok(resp) => has_text(resp@),
        Err(_) => false,
    }
}

/// The scratch conversation that summarizes `c`: fresh under the same key,
/// seeded with a copy of the history, under the summary instruction.
pub open spec fn summarizer_of(c: ConversationView) -> ConversationView {
    with_instruction(ConversationView { history: c.history, ..fresh(c.api_key) }, SUMMARY_INSTRUCTION@)
}

/// `c` with its whole history replaced by one model turn holding `summary`.
pub open spec fn summarized(c: ConversationView, summary: Seq<char>) -> ConversationView {
    ConversationView { history: seq![text_turn(summary, "model"@)], ..c }
}

impl Conversation {
    /// A fresh conversation under `api_key`.
    pub fn new(api_key: String) -> (r: Conversation)
        ensures
            r@ == fresh(api_key@),
    {
        let r = Conversation {
            api_key,
            base_url: BASE_URL.to_string(),
            model: DEFAULT_MODEL.to_string(),
            history: Vec::new(),
            system_instruction: None,
        };
        assert(r@.history =~= Seq::<Turn>::empty());
        r
    }

    /// Replaces any system instruction with one system-role part holding `text`.
    pub fn set_system_instruction_text(&mut self, text: String)
        ensures
            final(self)@ == with_instruction(old(self)@, text@),
    {
        self.system_instruction = Some(Content::new(text, "system"));
    }

    /// The credential sent with each request.
    pub fn get_api_key(&self) -> (r: String)
        ensures
            r@ == self@.api_key,
    {
        self.api_key.clone()
    }

    /// The URL to which this conversation's requests are sent.
    pub fn get_endpoint(&self) -> (r: String)
        ensures
            r@ == endpoint(self@.base_url, self@.model, self@.api_key),
    {
        let mut url = self.base_url.clone();
        url.append("models/");
        url.append(self.model.as_str());
        url.append(":generateContent?key=");
        url.append(self.get_api_key().as_str());
        url
    }

    /// Records the user's turn `text` and returns the request to send: the
    /// model id, the whole history including that turn, and the current
    /// system instruction.
    ///
    /// The user's turn stays in the history whatever the transport then
    /// brings back: a failed turn leaves it unanswered.
    pub fn begin_talk(&mut self, text: String) -> (r: GenerateContentRequest)
        ensures
            final(self)@ == with_turn(old(self)@, text_turn(text@, "user"@)),
            r@.model == old(self)@.model,
            r@.contents == final(self)@.history,
            r@.system_instruction == old(self)@.system_instruction,
    {
        let ghost before = self@;
        self.history.push(Content::new(text, "user"));
        assert(turns(self.history@) =~= before.history.push(text_turn(text@, "user"@)));
        GenerateContentRequest {
            model: self.model.clone(),
            contents: clone_turns(&self.history),
            system_instruction: clone_opt_turn(&self.system_instruction),
        }
    }

    /// Takes in what the transport brought back for the request of
    /// `begin_talk`. On a response with a usable text, appends that text as a
    /// model turn and returns the response; a transport error is returned as
    /// it came, and a response without text gives `NoCandidates`, both with
    /// the history left as it was.
    pub fn finish_talk(&mut self, outcome: Result<GenerateContentResponse, GeminiError>) -> (r: Result<GenerateContentResponse, GeminiError>)
        ensures
            final(self)@ == finished(old(self)@, outcome),
            r is Ok <==> succeeds(outcome),
            succeeds(outcome) ==> r == outcome,
            outcome is Err ==> r == outcome,
            (outcome is Ok && !succeeds(outcome)) ==> r matches Err(GeminiError::NoCandidates),
    {
        match outcome {
            Err(e) => Err(e),
            Ok(response) => match response.get_text() {
                Err(e) => Err(e),
                Ok(text) => {
                    let ghost before = self@;
                    self.history.push(Content::new(text, "model"));
                    assert(turns(self.history@) =~= before.history.push(text_turn(first_text(response@), "model"@)));
                    Ok(response)
                },
            },
        }
    }

    /// The scratch conversation that summarizes this one: fresh under the
    /// same key, with a copy of the history and the summary instruction. It
    /// shares nothing with this conversation.
    pub fn summarizer(&self) -> (r: Conversation)
        ensures
            r@ == summarizer_of(self@),
    {
        let mut scratch = Conversation::new(self.api_key.clone());
        scratch.history = clone_turns(&self.history);
        scratch.set_system_instruction_text(SUMMARY_INSTRUCTION.to_string());
        scratch
    }

    /// The scratch conversation of `summarizer` with the summary request
    /// recorded, and the request to send for it.
    pub fn begin_summarize(&self) -> (r: (Conversation, GenerateContentRequest))
        ensures
            r.0@ == with_turn(summarizer_of(self@), text_turn(SUMMARY_REQUEST@, "user"@)),
            r.1@.model == summarizer_of(self@).model,
            r.1@.contents == r.0@.history,
            r.1@.system_instruction == summarizer_of(self@).system_instruction,
    {
        let mut scratch = self.summarizer();
        let request = scratch.begin_talk(SUMMARY_REQUEST.to_string());
        (scratch, request)
    }

    /// Takes in the outcome of the scratch conversation's turn. On success
    /// the whole history is replaced by one model turn holding the summary;
    /// on failure the error is returned and the history is left untouched.
    pub fn finish_summarize(&mut self, outcome: Result<GenerateContentResponse, GeminiError>) -> (r: Result<(), GeminiError>)
        ensures
            r is Ok <==> succeeds(outcome),
            succeeds(outcome) ==> final(self)@ == summarized(old(self)@, first_text(outcome->Ok_0@)),
            !succeeds(outcome) ==> final(self)@ == old(self)@,
            outcome matches Err(e) ==> r == Err::<(), GeminiError>(e),
            (outcome is Ok && !succeeds(outcome)) ==> r matches Err(GeminiError::NoCandidates),
    {
        match outcome {
            Err(e) => Err(e),
            Ok(response) => match response.get_text() {
                Err(e) => Err(e),
                Ok(summary) => {
                    self.history.clear();
                    self.history.push(Content::new(summary, "model"));
                    assert(turns(self.history@) =~= seq![text_turn(first_text(response@), "model"@)]);
                    Ok(())
                },
            },
        }
    }

    /// The history, oldest turn first.
    pub fn history(&self) -> (r: &Vec<Content>)
        ensures
            turns(r@) == self@.history,
    {
        &self.history
    }

    /// The standing instruction sent with each request, if any.
    pub fn system_instruction(&self) -> (r: &Option<Content>)
        ensures
            opt_turn(*r) == self@.system_instruction,
    {
        &self.system_instruction
    }

    /// The model that requests are addressed to.
    pub fn model(&self) -> (r: &str)
        ensures
            r@ == self@.model,
    {
        self.model.as_str()
    }

    /// The base endpoint of the service.
    pub fn base_url(&self) -> (r: &str)
        ensures
            r@ == self@.base_url,
    {
        self.base_url.as_str()
    }
}

} // verus!

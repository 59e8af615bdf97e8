//! Properties of the conversation that hold across several operations.
use vstd::prelude::*;
use crate::conversation::{finished, succeeds, summarized, summarizer_of, with_instruction, with_turn, ConversationView, SUMMARY_INSTRUCTION};
use crate::message::text_turn;
use crate::response::first_text;
use crate::response::GenerateContentResponse;
use crate::error::GeminiError;

verus! {

/// `c` after one successful exchange: the user's `text`, then the model's `reply`.
pub open spec fn exchanged(c: ConversationView, text: Seq<char>, reply: Seq<char>) -> ConversationView {
    with_turn(with_turn(c, text_turn(text, "user"@)), text_turn(reply, "model"@))
}

/// `c` after a sequence of successful exchanges, each a user text and the
/// model's reply, in order.
pub open spec fn after_exchanges(c: ConversationView, ex: Seq<(Seq<char>, Seq<char>)>) -> ConversationView
    decreases ex.len(),
{
    if ex.len() == 0 {
        c
    } else {
        let last = ex.last();
        exchanged(after_exchanges(c, ex.drop_last()), last.0, last.1)
    }
}

/// A successful turn, `begin_talk` then `finish_talk`, appends the user's turn
/// and then the model's reply, and changes nothing else.
pub proof fn talk_appends_pair(
    c: ConversationView,
    text: Seq<char>,
    outcome: Result<GenerateContentResponse, GeminiError>,
)
    requires
        succeeds(outcome),
    ensures
        finished(with_turn(c, text_turn(text, "user"@)), outcome) == exchanged(c, text, first_text(outcome->Ok_0@)),
{
}

/// After N successful turns the history has grown by exactly 2N turns: for
/// each exchange, in call order, the user's turn and then the model's; the
/// earlier history and every other field are unchanged.
pub proof fn history_grows_by_pairs(c: ConversationView, ex: Seq<(Seq<char>, Seq<char>)>)
    ensures
        after_exchanges(c, ex).history.len() == c.history.len() + 2 * ex.len(),
        after_exchanges(c, ex).history.subrange(0, c.history.len() as int) == c.history,
        forall|i: int| 0 <= i < ex.len() ==> {
            &&& #[trigger] after_exchanges(c, ex).history[c.history.len() + 2 * i] == text_turn(ex[i].0, "user"@)
            &&& after_exchanges(c, ex).history[c.history.len() + 2 * i + 1] == text_turn(ex[i].1, "model"@)
        },
        after_exchanges(c, ex).api_key == c.api_key,
        after_exchanges(c, ex).base_url == c.base_url,
        after_exchanges(c, ex).model == c.model,
        after_exchanges(c, ex).system_instruction == c.system_instruction,
    decreases ex.len(),
{
    if ex.len() > 0 {
        let prev = ex.drop_last();
        history_grows_by_pairs(c, prev);
        let h0 = after_exchanges(c, prev).history;
        let h = after_exchanges(c, ex).history;
        assert(h == h0.push(text_turn(ex.last().0, "user"@)).push(text_turn(ex.last().1, "model"@)));
        assert(h.subrange(0, c.history.len() as int) =~= h0.subrange(0, c.history.len() as int));
        assert forall|i: int| 0 <= i < ex.len() implies {
            &&& #[trigger] h[c.history.len() + 2 * i] == text_turn(ex[i].0, "user"@)
            &&& h[c.history.len() + 2 * i + 1] == text_turn(ex[i].1, "model"@)
        } by {
            if i < prev.len() {
                assert(prev[i] == ex[i]);
                assert(h0[c.history.len() + 2 * i] == text_turn(prev[i].0, "user"@));
            }
        }
    }
}

/// Setting the system instruction twice leaves exactly one: the latest.
pub proof fn system_instruction_overwrites(c: ConversationView, first: Seq<char>, second: Seq<char>)
    ensures
        with_instruction(with_instruction(c, first), second) == with_instruction(c, second),
        with_instruction(with_instruction(c, first), second).system_instruction == Some(text_turn(second, "system"@)),
{
}

/// A successful summary leaves a history of exactly one model turn holding
/// the summary text; the key, endpoint, model and system instruction are
/// unchanged.
pub proof fn summary_replaces_history(c: ConversationView, summary: Seq<char>)
    ensures
        summarized(c, summary).history.len() == 1,
        summarized(c, summary).history[0].role == "model"@,
        summarized(c, summary).history[0].parts == seq![summary],
        summarized(c, summary).api_key == c.api_key,
        summarized(c, summary).base_url == c.base_url,
        summarized(c, summary).model == c.model,
        summarized(c, summary).system_instruction == c.system_instruction,
{
}

/// The scratch conversation of a summary takes nothing from the outer
/// conversation's system instruction: it carries the summary instruction
/// whatever the outer one holds, and its own instruction is its alone.
pub proof fn scratch_instruction_independent(c: ConversationView, outer: Seq<char>, inner: Seq<char>)
    ensures
        summarizer_of(with_instruction(c, outer)) == summarizer_of(c),
        summarizer_of(c).system_instruction == Some(text_turn(SUMMARY_INSTRUCTION@, "system"@)),
        with_instruction(summarizer_of(c), inner).history == c.history,
        with_instruction(summarizer_of(c), inner).api_key == c.api_key,
{
}

} // verus!

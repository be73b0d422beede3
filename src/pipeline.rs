use vstd::prelude::*;
use vstd::string::StringExecFns;
use crate::history::{DialogueCache, Interaction, attach_last, join, push_bounded, rendered};
use crate::parser::{
    FieldUpdate, Payload, RequestStructure, add_user_profile, add_viewpoints, empty_payload,
    json_array_member, json_string_member, update_request_structure, with_profile,
    with_viewpoints,
};

verus! {

/// The reply used when the completion service hands back no content.
pub open spec fn fallback_text() -> Seq<char> {
    "Извини, я не смог понять твой вопрос. Пожалуйста, попробуй снова."@
}

/// The text of a completion: the content of its first choice, or the fallback reply
/// when there is no choice or the choice holds no content.
pub fn completion_text(first_choice: Option<Option<String>>) -> (r: String)
    ensures
        match first_choice {
            Some(Some(c)) => r@ == c@,
            _ => r@ == fallback_text(),
        },
{
    match first_choice {
        Some(Some(c)) => c,
        _ => String::from_str("Извини, я не смог понять твой вопрос. Пожалуйста, попробуй снова."),
    }
}

/// The instruction that steers one completion call.
#[derive(Clone, Copy, Debug, PartialEq, Eq, Structural)]
pub enum Role {
    Context,
    Viewpoints,
    UserProfile,
    Answer,
}

/// Where the enrichment of one message stands.
#[derive(Clone, Copy, Debug, PartialEq, Eq, Structural)]
pub enum Stage {
    Context,
    Viewpoints,
    UserProfile,
    Answer,
    Done,
}

/// A completion call the enrichment waits for.
#[derive(Clone, Copy, Debug, PartialEq, Eq, Structural)]
pub struct CompletionCall {
    pub role: Role,
    pub json_mode: bool,
}

/// The stage that follows `s`.
pub open spec fn next_stage(s: Stage) -> Stage {
    match s {
        Stage::Context => Stage::Viewpoints,
        Stage::Viewpoints => Stage::UserProfile,
        Stage::UserProfile => Stage::Answer,
        Stage::Answer => Stage::Done,
        Stage::Done => Stage::Done,
    }
}

/// The call that stage `s` makes, if any.
pub open spec fn call_of(s: Stage) -> Option<CompletionCall> {
    match s {
        Stage::Context => Some(CompletionCall { role: Role::Context, json_mode: false }),
        Stage::Viewpoints => Some(CompletionCall { role: Role::Viewpoints, json_mode: true }),
        Stage::UserProfile => Some(CompletionCall { role: Role::UserProfile, json_mode: true }),
        Stage::Answer => Some(CompletionCall { role: Role::Answer, json_mode: false }),
        Stage::Done => None,
    }
}

/// The payload after the response `response` to the call of stage `s`, given the
/// history `h` at that point.
pub open spec fn after_response(s: Stage, p: Payload, h: Seq<Interaction>, response: Seq<char>) -> Payload {
    match s {
        Stage::Context => Payload { context: response, ..p },
        Stage::Viewpoints => with_viewpoints(p, json_array_member(response, "viewpoints"@)),
        Stage::UserProfile => Payload {
            cache: rendered(h),
            ..with_profile(
                p,
                json_string_member(response, "expertise_lvl"@),
                json_string_member(response, "communication_style"@),
            )
        },
        _ => p,
    }
}

/// The enrichment of one user message: the payload built so far and the stage reached.
pub struct Enrichment {
    pub stage: Stage,
    pub request_structure: RequestStructure,
}

impl Enrichment {
    /// Records the message in the history and seeds the payload with the request and
    /// the transcript so far; the context call comes next.
    pub fn start(history: &mut DialogueCache, user_request: String) -> (r: Enrichment)
        requires
            old(history).wf(),
        ensures
            final(history).wf(),
            final(history).max_size == old(history).max_size,
            exists|ts: Seq<char>|
                final(history)@ == push_bounded(
                    old(history)@,
                    Interaction { timestamp: ts, user_request: user_request@, llm_response: Seq::empty() },
                    old(history).max_size as nat,
                ),
            r.stage == Stage::Context,
            r.request_structure@ == (Payload {
                request: user_request@,
                cache: seq![join(rendered(final(history)@), "\n\n"@)],
                ..empty_payload()
            }),
    {
        let request = String::from_str(user_request.as_str());
        history.add_user_message(user_request);
        let mut request_structure = RequestStructure::new();
        update_request_structure(&mut request_structure, FieldUpdate::Request(request));
        let transcript = history.to_string();
        let ghost text = transcript@;
        let cache = vec![transcript];
        assert(cache@.len() == 1 && cache@[0]@ == text);
        assert(crate::history::string_views(cache@) =~= seq![text]);
        update_request_structure(&mut request_structure, FieldUpdate::Cache(cache));
        let r = Enrichment { stage: Stage::Context, request_structure };
        assert(r.request_structure@ =~= (Payload {
            request: user_request@,
            cache: seq![join(rendered(history@), "\n\n"@)],
            ..empty_payload()
        }));
        r
    }

    /// The completion call to make now; none once the reply is in.
    pub fn next_call(&self) -> (r: Option<CompletionCall>)
        ensures
            r == call_of(self.stage),
    {
        match self.stage {
            Stage::Context => Some(CompletionCall { role: Role::Context, json_mode: false }),
            Stage::Viewpoints => Some(CompletionCall { role: Role::Viewpoints, json_mode: true }),
            Stage::UserProfile => Some(CompletionCall { role: Role::UserProfile, json_mode: true }),
            Stage::Answer => Some(CompletionCall { role: Role::Answer, json_mode: false }),
            Stage::Done => None,
        }
    }

    /// Takes the response to the current call: it fills the field of this stage alone
    /// and moves to the next stage. The final answer is attached to the most recent
    /// interaction of the history.
    pub fn on_response(&mut self, history: &mut DialogueCache, response: String)
        requires
            old(history).wf(),
        ensures
            final(history).wf(),
            final(history).max_size == old(history).max_size,
            final(self).stage == next_stage(old(self).stage),
            final(self).request_structure@ == after_response(
                old(self).stage,
                old(self).request_structure@,
                old(history)@,
                response@,
            ),
            old(self).stage == Stage::Answer ==> final(history)@ == attach_last(old(history)@, response@),
            old(self).stage != Stage::Answer ==> final(history)@ == old(history)@,
    {
        match self.stage {
            Stage::Context => {
                update_request_structure(&mut self.request_structure, FieldUpdate::Context(response));
                self.stage = Stage::Viewpoints;
            },
            Stage::Viewpoints => {
                add_viewpoints(&mut self.request_structure, response.as_str());
                self.stage = Stage::UserProfile;
            },
            Stage::UserProfile => {
                add_user_profile(&mut self.request_structure, response.as_str());
                let cache = history.to_vec();
                update_request_structure(&mut self.request_structure, FieldUpdate::Cache(cache));
                self.stage = Stage::Answer;
            },
            Stage::Answer => {
                history.update_last_response(response);
                self.stage = Stage::Done;
            },
            Stage::Done => {},
        }
    }
}

/// The stages run in one fixed order, whatever the latency of each call: context,
/// then viewpoints, then the user profile, then the answer. A stage's response leaves
/// alone every field that an earlier stage filled, and fills none of a later stage.
pub proof fn lemma_stage_order(p: Payload, h: Seq<Interaction>, response: Seq<char>)
    ensures
        next_stage(Stage::Context) == Stage::Viewpoints,
        next_stage(Stage::Viewpoints) == Stage::UserProfile,
        next_stage(Stage::UserProfile) == Stage::Answer,
        next_stage(Stage::Answer) == Stage::Done,
        after_response(Stage::Context, p, h, response).context == response,
        after_response(Stage::Context, p, h, response).viewpoints == p.viewpoints,
        after_response(Stage::Context, p, h, response).expertise_lvl == p.expertise_lvl,
        after_response(Stage::Context, p, h, response).communication_style == p.communication_style,
        after_response(Stage::Viewpoints, p, h, response).context == p.context,
        after_response(Stage::Viewpoints, p, h, response).expertise_lvl == p.expertise_lvl,
        after_response(Stage::Viewpoints, p, h, response).communication_style == p.communication_style,
        after_response(Stage::UserProfile, p, h, response).context == p.context,
        after_response(Stage::UserProfile, p, h, response).viewpoints == p.viewpoints,
        after_response(Stage::Answer, p, h, response) == p,
{
}

} // verus!

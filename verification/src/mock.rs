//! Scriptable test double for a provider backend.
//!
//! Supports capability override, a canned fallback text response, a scripted
//! FIFO response queue, and request capture
//! ([`TestLlmProvider::captured_requests`]) so tests can assert what was sent.

use crate::capabilities::Capabilities;
use crate::provider::{
    ChatRequest, ChatResponse, FinishReason, LlmError, LlmErrorView, StreamEvent, StreamEventView,
};
use std::collections::VecDeque;
use vstd::prelude::*;

verus! {

/// Test double for a provider backend. Builder-style construction.
#[derive(Debug)]
pub struct TestLlmProvider {
    capabilities: Capabilities,
    provider_name: &'static str,
    model: String,
    response_text: String,
    scripted: VecDeque<ChatResponse>,
    captured: Vec<ChatRequest>,
}

impl TestLlmProvider {
    /// The advertised feature surface.
    pub closed spec fn surface(self) -> Capabilities {
        self.capabilities
    }

    /// The provider name.
    pub closed spec fn name(self) -> Seq<char> {
        self.provider_name@
    }

    /// The model id.
    pub closed spec fn model_id(self) -> Seq<char> {
        self.model@
    }

    /// The text answered when the script is exhausted.
    pub closed spec fn fallback(self) -> Seq<char> {
        self.response_text@
    }

    /// The scripted responses still to come, next one first.
    pub closed spec fn script(self) -> Seq<ChatResponse> {
        self.scripted@
    }

    /// The requests received so far, in call order.
    pub closed spec fn received(self) -> Seq<ChatRequest> {
        self.captured@
    }

    /// Whether `r` is the plain text answer `text`.
    pub open spec fn plain_answer(r: ChatResponse, text: Seq<char>) -> bool {
        &&& r.content@ == text
        &&& r.tool_calls@.len() == 0
        &&& r.finish_reason is Stop
        &&& r.usage is None
    }

    /// Whether a chat of `before` with `req` is answered by `r` and leaves
    /// `after`: the request is captured, and the next scripted response or,
    /// once there is none, the fallback text answers it.
    pub open spec fn chat_step(
        before: TestLlmProvider,
        req: ChatRequest,
        r: ChatResponse,
        after: TestLlmProvider,
    ) -> bool {
        &&& after.received() == before.received().push(req)
        &&& if before.script().len() > 0 {
            r == before.script()[0] && after.script() == before.script().skip(1)
        } else {
            TestLlmProvider::plain_answer(r, before.fallback()) && after.script().len() == 0
        }
        &&& after.surface() == before.surface()
        &&& after.name() == before.name()
        &&& after.model_id() == before.model_id()
        &&& after.fallback() == before.fallback()
    }

    /// Whether a provider is as it is before anything is configured.
    pub open spec fn unconfigured(self) -> bool {
        &&& self.surface() == (Capabilities {
            chat: true,
            tools: true,
            streaming: true,
            vision: true,
            system_prompt: true,
        })
        &&& self.name() == "mock"@
        &&& self.model_id() == "mock-model"@
        &&& self.fallback() == "mock response"@
        &&& self.script().len() == 0
        &&& self.received().len() == 0
    }

    /// Returns every [`ChatRequest`] passed to [`TestLlmProvider::chat`] so
    /// far, in call order. Lets downstream tests assert what was sent
    /// (messages, tools, tool_choice) rather than only what came back.
    pub fn captured_requests(&self) -> (r: Vec<ChatRequest>)
        ensures
            r@.len() == self.received().len(),
            forall|i: int| 0 <= i < r@.len() ==> (#[trigger] r@[i]).same_as(self.received()[i]),
    {
        let r = self.captured.clone();
        assert(forall|i: int|
            0 <= i < r@.len() ==> cloned::<ChatRequest>(self.captured@[i], #[trigger] r@[i]));
        r
    }

    /// The advertised feature surface.
    pub fn capabilities(&self) -> (r: Capabilities)
        ensures
            r == self.surface(),
    {
        self.capabilities
    }

    /// The provider name.
    pub fn provider_name(&self) -> (r: &'static str)
        ensures
            r@ == self.name(),
    {
        self.provider_name
    }

    /// The model id.
    pub fn model(&self) -> (r: &str)
        ensures
            r@ == self.model_id(),
    {
        self.model.as_str()
    }

    /// Captures the request and answers it: with the next scripted response,
    /// or with the fallback text once the script is exhausted.
    pub fn chat(&mut self, req: ChatRequest) -> (r: Result<ChatResponse, LlmError>)
        ensures
            r is Ok,
            TestLlmProvider::chat_step(*old(self), req, r->Ok_0, *final(self)),
    {
        self.captured.push(req);
        match self.scripted.pop_front() {
            Some(scripted) => {
                assert(self.scripted@ =~= old(self).scripted@.skip(1));
                Ok(scripted)
            },
            None => Ok(
                ChatResponse {
                    content: self.response_text.clone(),
                    tool_calls: Vec::new(),
                    finish_reason: FinishReason::Stop,
                    usage: None,
                },
            ),
        }
    }

    /// Streams the fallback text. The request is not captured and the script
    /// is left alone.
    pub fn chat_stream(&self, _req: ChatRequest) -> (r: Result<Vec<StreamEvent>, LlmError>)
        ensures
            match r {
                Ok(events) => {
                    &&& self.surface().streaming
                    &&& crate::provider::event_views(events@) == seq![
                        StreamEventView::TextChunk(self.fallback()),
                        StreamEventView::Done { finish_reason: FinishReason::Stop },
                    ]
                },
                Err(e) => !self.surface().streaming && e@ == LlmErrorView::UnsupportedCapability(
                    "streaming"@,
                ),
            },
    {
        if !self.capabilities.streaming {
            return Err(LlmError::UnsupportedCapability("streaming"));
        }
        let mut events: Vec<StreamEvent> = Vec::new();
        events.push(StreamEvent::TextChunk(self.response_text.clone()));
        events.push(StreamEvent::Done { finish_reason: FinishReason::Stop });
        assert(crate::provider::event_views(events@) =~= seq![
            StreamEventView::TextChunk(self.fallback()),
            StreamEventView::Done { finish_reason: FinishReason::Stop },
        ]);
        Ok(events)
    }
}

impl Default for TestLlmProvider {
    fn default() -> (r: TestLlmProvider)
        ensures
            r.unconfigured(),
    {
        TestLlmProvider {
            capabilities: Capabilities {
                chat: true,
                tools: true,
                streaming: true,
                vision: true,
                system_prompt: true,
            },
            provider_name: "mock",
            model: String::from("mock-model"),
            response_text: String::from("mock response"),
            scripted: VecDeque::new(),
            captured: Vec::new(),
        }
    }
}

/// Builder of [`TestLlmProvider`].
pub struct TestLlmProviderBuilder {
    inner: TestLlmProvider,
}

impl TestLlmProviderBuilder {
    /// The provider built so far.
    pub closed spec fn built(self) -> TestLlmProvider {
        self.inner
    }

    /// A builder that starts from the default provider.
    pub fn new() -> (r: TestLlmProviderBuilder)
        ensures
            r.built().unconfigured(),
    {
        TestLlmProviderBuilder { inner: TestLlmProvider::default() }
    }

    /// Override the feature surface.
    pub fn capabilities(self, caps: Capabilities) -> (r: TestLlmProviderBuilder)
        ensures
            r.built().surface() == caps,
            r.built().name() == self.built().name(),
            r.built().model_id() == self.built().model_id(),
            r.built().fallback() == self.built().fallback(),
            r.built().script() == self.built().script(),
            r.built().received() == self.built().received(),
    {
        let mut inner = self.inner;
        inner.capabilities = caps;
        TestLlmProviderBuilder { inner }
    }

    /// Override the provider name.
    pub fn provider_name(self, name: &'static str) -> (r: TestLlmProviderBuilder)
        ensures
            r.built().surface() == self.built().surface(),
            r.built().name() == name@,
            r.built().model_id() == self.built().model_id(),
            r.built().fallback() == self.built().fallback(),
            r.built().script() == self.built().script(),
            r.built().received() == self.built().received(),
    {
        let mut inner = self.inner;
        inner.provider_name = name;
        TestLlmProviderBuilder { inner }
    }

    /// Override the model id.
    pub fn model<S: Into<String>>(self, model: S) -> (r: TestLlmProviderBuilder)
        ensures
            r.built().surface() == self.built().surface(),
            r.built().name() == self.built().name(),
            exists|text: String|
                #[trigger] call_ensures(<S as Into<String>>::into, (model,), text)
                    && r.built().model_id() == text@,
            r.built().fallback() == self.built().fallback(),
            r.built().script() == self.built().script(),
            r.built().received() == self.built().received(),
    {
        let mut inner = self.inner;
        inner.model = model.into();
        TestLlmProviderBuilder { inner }
    }

    /// Override the fallback text.
    pub fn response_text<S: Into<String>>(self, text: S) -> (r: TestLlmProviderBuilder)
        ensures
            r.built().surface() == self.built().surface(),
            r.built().name() == self.built().name(),
            r.built().model_id() == self.built().model_id(),
            exists|content: String|
                #[trigger] call_ensures(<S as Into<String>>::into, (text,), content)
                    && r.built().fallback() == content@,
            r.built().script() == self.built().script(),
            r.built().received() == self.built().received(),
    {
        let mut inner = self.inner;
        inner.response_text = text.into();
        TestLlmProviderBuilder { inner }
    }

    /// Enqueue a scripted [`ChatResponse`] to be returned by
    /// [`TestLlmProvider::chat`].
    ///
    /// Responses are consumed in FIFO order. Once the queue is exhausted,
    /// `chat()` falls back to the configured `response_text`.
    /// Has no effect on [`TestLlmProvider::chat_stream`].
    pub fn script_response(self, response: ChatResponse) -> (r: TestLlmProviderBuilder)
        ensures
            r.built().surface() == self.built().surface(),
            r.built().name() == self.built().name(),
            r.built().model_id() == self.built().model_id(),
            r.built().fallback() == self.built().fallback(),
            r.built().script() == self.built().script().push(response),
            r.built().received() == self.built().received(),
    {
        let mut inner = self.inner;
        inner.scripted.push_back(response);
        TestLlmProviderBuilder { inner }
    }

    /// The finished provider.
    pub fn build(self) -> (r: TestLlmProvider)
        ensures
            r == self.built(),
    {
        self.inner
    }
}

impl Default for TestLlmProviderBuilder {
    fn default() -> (r: TestLlmProviderBuilder)
        ensures
            r.built().unconfigured(),
    {
        TestLlmProviderBuilder::new()
    }
}

// ---------------------------------------------------------------------------
// Laws
// ---------------------------------------------------------------------------

/// Over any run of chats, the scripted responses come back in the order in
/// which they were scripted, every later chat is answered by the fallback
/// text, and the requests are captured in call order. `states[i]` is the
/// provider before chat `i`, `replies[i]` its answer.
pub proof fn script_is_answered_in_order(
    states: Seq<TestLlmProvider>,
    requests: Seq<ChatRequest>,
    replies: Seq<ChatResponse>,
)
    requires
        states.len() == requests.len() + 1,
        replies.len() == requests.len(),
        forall|i: int|
            0 <= i < requests.len() ==> TestLlmProvider::chat_step(
                states[i],
                #[trigger] requests[i],
                replies[i],
                states[i + 1],
            ),
    ensures
        forall|i: int|
            0 <= i < replies.len() ==> if i < states[0].script().len() {
                #[trigger] replies[i] == states[0].script()[i]
            } else {
                TestLlmProvider::plain_answer(replies[i], states[0].fallback())
            },
        states.last().received() == states[0].received() + requests,
        states.last().script() == states[0].script().skip(
            if requests.len() < states[0].script().len() {
                requests.len() as int
            } else {
                states[0].script().len() as int
            },
        ),
        states.last().fallback() == states[0].fallback(),
    decreases requests.len(),
{
    let script = states[0].script();
    if requests.len() > 0 {
        let n = requests.len() - 1;
        script_is_answered_in_order(states.drop_last(), requests.drop_last(), replies.drop_last());
        assert(TestLlmProvider::chat_step(states[n], requests[n], replies[n], states[n + 1]));
        assert(states.drop_last().last() == states[n]);
        assert(states.last().received() =~= states[0].received() + requests);
        assert forall|i: int| 0 <= i < replies.len() implies if i < script.len() {
            #[trigger] replies[i] == script[i]
        } else {
            TestLlmProvider::plain_answer(replies[i], states[0].fallback())
        } by {
            if i < n {
                assert(replies.drop_last()[i] == replies[i]);
            }
        }
        if n < script.len() {
            assert(states[n].script().skip(1) =~= script.skip(n + 1));
        } else {
            assert(states.last().script() =~= script.skip(script.len() as int));
        }
    } else {
        assert(states.last().received() =~= states[0].received() + requests);
        assert(script.skip(0) =~= script);
    }
}

} // verus!

//! What telemetry reads of a request and of its response.

use serde_json::Value;
use vstd::prelude::*;

use crate::span::entries_view;

verus! {

/// The name of a model target.
#[derive(Debug)]
pub struct ModelId {
    pub id: String,
}

impl View for ModelId {
    type V = Seq<char>;

    open spec fn view(&self) -> Seq<char> {
        self.id@
    }
}

impl ModelId {
    /// Names a model target.
    pub fn new(id: &str) -> (model: Self)
        ensures
            model@ == id@,
    {
        ModelId { id: id.to_owned() }
    }

    pub fn as_str(&self) -> (id: &str)
        ensures
            id@ == self@,
    {
        self.id.as_str()
    }
}

/// The model request proper.
#[derive(Debug, Default)]
pub struct LlmRequest {
    /// The model that the caller asked for: the inbound route.
    pub model: Option<String>,
    /// The conversation, message by message, as it stands on the wire: the keys of an object keep
    /// their order.
    pub messages: Vec<Value>,
}

/// What is known of a request besides its content.
#[derive(Debug, Default)]
pub struct Metadata {
    pub session_id: Option<String>,
    pub agent_id: Option<String>,
    pub task_id: Option<String>,
    pub task_kind: Option<String>,
    pub agent_role: Option<String>,
    pub correlation_id: Option<String>,
    /// Labels of the host, each with its value, in the order of the labels.
    pub extra_metadata: Option<Vec<(String, String)>>,
}

#[verifier::ext_equal]
pub struct MetadataView {
    pub session_id: Option<Seq<char>>,
    pub agent_id: Option<Seq<char>>,
    pub task_id: Option<Seq<char>>,
    pub task_kind: Option<Seq<char>>,
    pub agent_role: Option<Seq<char>>,
    pub correlation_id: Option<Seq<char>>,
    pub extra_metadata: Option<Seq<(Seq<char>, Seq<char>)>>,
}

impl View for Metadata {
    type V = MetadataView;

    open spec fn view(&self) -> MetadataView {
        MetadataView {
            session_id: self.session_id.deep_view(),
            agent_id: self.agent_id.deep_view(),
            task_id: self.task_id.deep_view(),
            task_kind: self.task_kind.deep_view(),
            agent_role: self.agent_role.deep_view(),
            correlation_id: self.correlation_id.deep_view(),
            extra_metadata: match self.extra_metadata {
                Some(entries) => Some(entries_view(entries@)),
                None => None,
            },
        }
    }
}

/// A request to be routed.
#[derive(Debug, Default)]
pub struct Request {
    pub llm_request: LlmRequest,
    pub metadata: Option<Metadata>,
}

#[verifier::ext_equal]
pub struct RequestView {
    pub model: Option<Seq<char>>,
    pub messages: Seq<Value>,
    pub metadata: Option<MetadataView>,
}

impl View for Request {
    type V = RequestView;

    open spec fn view(&self) -> RequestView {
        RequestView {
            model: self.llm_request.model.deep_view(),
            messages: self.llm_request.messages@,
            metadata: match self.metadata {
                Some(metadata) => Some(metadata@),
                None => None,
            },
        }
    }
}

impl RequestView {
    /// The request's session.
    pub open spec fn session(self) -> Option<Seq<char>> {
        match self.metadata {
            Some(metadata) => metadata.session_id,
            None => None,
        }
    }
}

/// An optional text, borrowed.
pub fn borrow_text(text: &Option<String>) -> (borrowed: Option<&str>)
    ensures
        borrowed.deep_view() == text.deep_view(),
{
    match text {
        Some(text) => Some(text.as_str()),
        None => None,
    }
}

impl Request {
    /// The model that the caller asked for: the inbound route.
    pub fn model_id(&self) -> (model: Option<&str>)
        ensures
            model.deep_view() == self@.model,
    {
        borrow_text(&self.llm_request.model)
    }

    /// The request's session.
    pub fn session(&self) -> (session: Option<&str>)
        ensures
            session.deep_view() == self@.session(),
    {
        match &self.metadata {
            Some(metadata) => borrow_text(&metadata.session_id),
            None => None,
        }
    }
}

/// How many tokens a call took, as far as the target told.
#[derive(Clone, Copy, Debug, Default)]
pub struct Usage {
    pub input_tokens: Option<u64>,
    pub output_tokens: Option<u64>,
    pub total_tokens: Option<u64>,
    pub reasoning_tokens: Option<u64>,
}

/// A response that is there as a whole.
#[derive(Debug, Default)]
pub struct AggLlmResponse {
    pub model: Option<String>,
    /// The outputs, as they stand on the wire: the keys of an object keep their order.
    pub outputs: Vec<Value>,
    pub usage: Usage,
}

/// A response: buffered, or a stream that the host is yet to drain.
#[derive(Debug)]
pub enum LlmResponse {
    Agg(AggLlmResponse),
    Stream,
}

impl LlmResponse {
    /// The response as a whole, where it is buffered.
    pub fn as_agg(&self) -> (agg: Option<&AggLlmResponse>)
        ensures
            match *self {
                LlmResponse::Agg(response) => agg == Some(&response),
                LlmResponse::Stream => agg is None,
            },
    {
        match self {
            LlmResponse::Agg(response) => Some(response),
            LlmResponse::Stream => None,
        }
    }
}

/// What a model call gave.
#[derive(Debug)]
pub struct Response {
    pub llm_response: LlmResponse,
}

impl Response {
    /// The outputs of a buffered response; a streamed one has none yet.
    pub open spec fn outputs(self) -> Option<Seq<Value>> {
        match self.llm_response {
            LlmResponse::Agg(response) => Some(response.outputs@),
            LlmResponse::Stream => None,
        }
    }

    /// The token usage of a buffered response; a streamed one is not known to have any yet.
    pub open spec fn usage(self) -> Option<Usage> {
        match self.llm_response {
            LlmResponse::Agg(response) => Some(response.usage),
            LlmResponse::Stream => None,
        }
    }
}

/// An optional text is borrowed exactly if it is there, and as it is.
pub proof fn text_is_borrowed_as_it_is<'a>(text: &'a Option<String>, borrowed: Option<&'a str>)
    requires
        call_ensures(borrow_text, (text,), borrowed),
    ensures
        *text matches Some(text) ==> borrowed is Some && borrowed->0@ == text@,
        *text is None ==> borrowed is None,
{
}

/// The model of a request is the one that the caller asked for, if any.
pub proof fn model_is_the_one_asked_for<'a>(request: &'a Request, model: Option<&'a str>)
    requires
        call_ensures(Request::model_id, (request,), model),
    ensures
        request.llm_request.model matches Some(asked) ==> model is Some && model->0@ == asked@,
        request.llm_request.model is None ==> model is None,
{
}

/// The session of a request is the session id of its metadata, if any: no other id of the
/// metadata has a part in it.
pub proof fn session_is_the_session_id<'a>(request: &'a Request, session: Option<&'a str>)
    requires
        call_ensures(Request::session, (request,), session),
    ensures
        request.metadata matches Some(metadata) ==> {
            &&& metadata.session_id matches Some(id) ==> session is Some && session->0@ == id@
            &&& metadata.session_id is None ==> session is None
        },
        request.metadata is None ==> session is None,
{
}

/// A model target that is named can be read back, character by character.
pub proof fn model_name_reads_back<'a>(id: &str, model: &'a ModelId, read: &'a str)
    requires
        call_ensures(ModelId::new, (id,), *model),
        call_ensures(ModelId::as_str, (model,), read),
    ensures
        model.id@ == id@,
        read@ == id@,
{
}

/// A response has outputs and usage, its own, exactly if it is buffered.
pub proof fn buffered_response_tells_its_own(response: Response, agg: Option<&AggLlmResponse>)
    requires
        call_ensures(LlmResponse::as_agg, (&response.llm_response,), agg),
    ensures
        agg is Some <==> response.llm_response is Agg,
        response.llm_response matches LlmResponse::Agg(buffered) ==> {
            &&& *agg->0 == buffered
            &&& response.outputs() == Some(buffered.outputs@)
            &&& response.usage() == Some(buffered.usage)
        },
        response.llm_response is Stream ==> response.outputs() is None && response.usage() is None,
{
}

} // verus!

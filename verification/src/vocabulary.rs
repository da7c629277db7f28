//! The shared route-selection vocabulary: the attribute keys that spans carry and the values
//! that two of them take.

use vstd::prelude::*;

verus! {

/// The vendor-neutral attribute keys.
pub struct GenericKeys;

impl GenericKeys {
    pub const ROUTE_ID: &'static str = "switchyard.route.id";

    pub const ALGORITHM: &'static str = "switchyard.routing.algorithm";

    pub const SELECTED_TARGET: &'static str = "switchyard.routing.selected_target";

    pub const SERVED_TARGET: &'static str = "switchyard.response.served_target";

    pub const RESPONSE_ORIGIN: &'static str = "switchyard.response.origin";

    pub const CALL_ROLE: &'static str = "switchyard.call.role";

    pub const CALL_TARGET: &'static str = "switchyard.call.target";
}

/// The keys under which Langfuse finds the same facts as observation metadata, and its own keys
/// for sessions and users.
pub struct LangfuseKeys;

impl LangfuseKeys {
    pub const ROUTE_ID: &'static str = "langfuse.observation.metadata.switchyard.route_id";

    pub const ALGORITHM: &'static str = "langfuse.observation.metadata.switchyard.algorithm";

    pub const SELECTED_TARGET: &'static str =
        "langfuse.observation.metadata.switchyard.selected_target";

    pub const SERVED_TARGET: &'static str =
        "langfuse.observation.metadata.switchyard.served_target";

    pub const RESPONSE_ORIGIN: &'static str =
        "langfuse.observation.metadata.switchyard.response_origin";

    pub const CALL_ROLE: &'static str = "langfuse.observation.metadata.switchyard.call_role";

    pub const CALL_TARGET: &'static str = "langfuse.observation.metadata.switchyard.call_target";

    pub const SESSION_ID: &'static str = "langfuse.session.id";

    pub const USER_ID: &'static str = "langfuse.user.id";
}

/// Enough of each key to tell it from the others: how long it is and, where two are of one
/// length, a character in which they differ.
pub proof fn keys_told_apart()
    ensures
        GenericKeys::ROUTE_ID@.len() == 19,
        GenericKeys::ROUTE_ID@[0] == 's',
        GenericKeys::ALGORITHM@.len() == 28,
        GenericKeys::SELECTED_TARGET@.len() == 34,
        GenericKeys::SERVED_TARGET@.len() == 33,
        GenericKeys::RESPONSE_ORIGIN@.len() == 26,
        GenericKeys::CALL_ROLE@.len() == 20,
        GenericKeys::CALL_TARGET@.len() == 22,
        LangfuseKeys::SESSION_ID@.len() == 19,
        LangfuseKeys::SESSION_ID@[0] == 'l',
        LangfuseKeys::USER_ID@.len() == 16,
        LangfuseKeys::USER_ID@[0] == 'l',
        LangfuseKeys::ROUTE_ID@.len() == 49,
        LangfuseKeys::ALGORITHM@.len() == 50,
        LangfuseKeys::ALGORITHM@[41] == 'a',
        LangfuseKeys::CALL_ROLE@.len() == 50,
        LangfuseKeys::CALL_ROLE@[41] == 'c',
        LangfuseKeys::CALL_TARGET@.len() == 52,
        LangfuseKeys::SELECTED_TARGET@.len() == 56,
        LangfuseKeys::SELECTED_TARGET@[41] == 's',
        LangfuseKeys::SERVED_TARGET@.len() == 54,
        LangfuseKeys::RESPONSE_ORIGIN@.len() == 56,
        LangfuseKeys::RESPONSE_ORIGIN@[41] == 'r',
{
    reveal_strlit("switchyard.route.id");
    reveal_strlit("switchyard.routing.algorithm");
    reveal_strlit("switchyard.routing.selected_target");
    reveal_strlit("switchyard.response.served_target");
    reveal_strlit("switchyard.response.origin");
    reveal_strlit("switchyard.call.role");
    reveal_strlit("switchyard.call.target");
    reveal_strlit("langfuse.session.id");
    reveal_strlit("langfuse.user.id");
    reveal_strlit("langfuse.observation.metadata.switchyard.route_id");
    reveal_strlit("langfuse.observation.metadata.switchyard.algorithm");
    reveal_strlit("langfuse.observation.metadata.switchyard.selected_target");
    reveal_strlit("langfuse.observation.metadata.switchyard.served_target");
    reveal_strlit("langfuse.observation.metadata.switchyard.response_origin");
    reveal_strlit("langfuse.observation.metadata.switchyard.call_role");
    reveal_strlit("langfuse.observation.metadata.switchyard.call_target");
}

/// All the keys of the vocabulary.
pub open spec fn vocabulary_keys() -> Seq<Seq<char>> {
    seq![
        GenericKeys::ROUTE_ID@,
        GenericKeys::ALGORITHM@,
        GenericKeys::SELECTED_TARGET@,
        GenericKeys::SERVED_TARGET@,
        GenericKeys::RESPONSE_ORIGIN@,
        GenericKeys::CALL_ROLE@,
        GenericKeys::CALL_TARGET@,
        LangfuseKeys::ROUTE_ID@,
        LangfuseKeys::ALGORITHM@,
        LangfuseKeys::SELECTED_TARGET@,
        LangfuseKeys::SERVED_TARGET@,
        LangfuseKeys::RESPONSE_ORIGIN@,
        LangfuseKeys::CALL_ROLE@,
        LangfuseKeys::CALL_TARGET@,
        LangfuseKeys::SESSION_ID@,
        LangfuseKeys::USER_ID@,
    ]
}

/// No two keys of the vocabulary are the same: a write under one never lands under another.
pub proof fn vocabulary_keys_are_distinct()
    ensures
        vocabulary_keys().no_duplicates(),
{
    keys_told_apart();
}

/// Who produced the response that the caller gets.
#[derive(Clone, Copy, Debug, PartialEq, Eq, Structural)]
pub enum ResponseOrigin {
    /// A model target served the answer.
    Target,
    /// The router generated the answer itself.
    RoutingGenerated,
}

impl ResponseOrigin {
    pub open spec fn text(self) -> Seq<char> {
        match self {
            ResponseOrigin::Target => "target"@,
            ResponseOrigin::RoutingGenerated => "routing_generated"@,
        }
    }

    /// The attribute value that stands for the origin.
    pub fn as_str(self) -> (text: &'static str)
        ensures
            text@ == self.text(),
    {
        match self {
            ResponseOrigin::Target => "target",
            ResponseOrigin::RoutingGenerated => "routing_generated",
        }
    }
}

/// What a model call is for.
#[derive(Clone, Copy, Debug, PartialEq, Eq, Structural)]
pub enum CallRole {
    /// A call that routing itself depends on, such as one to a judge.
    RoutingDependency,
}

impl CallRole {
    pub open spec fn text(self) -> Seq<char> {
        match self {
            CallRole::RoutingDependency => "routing_dependency"@,
        }
    }

    /// The attribute value that stands for the role.
    pub fn as_str(self) -> (text: &'static str)
        ensures
            text@ == self.text(),
    {
        match self {
            CallRole::RoutingDependency => "routing_dependency",
        }
    }
}

/// The keys of the vocabulary as dashboards and Langfuse look for them.
pub proof fn vocabulary_is_spelled_so()
    ensures
        GenericKeys::ROUTE_ID@ == "switchyard.route.id"@,
        GenericKeys::ALGORITHM@ == "switchyard.routing.algorithm"@,
        GenericKeys::SELECTED_TARGET@ == "switchyard.routing.selected_target"@,
        GenericKeys::SERVED_TARGET@ == "switchyard.response.served_target"@,
        GenericKeys::RESPONSE_ORIGIN@ == "switchyard.response.origin"@,
        GenericKeys::CALL_ROLE@ == "switchyard.call.role"@,
        GenericKeys::CALL_TARGET@ == "switchyard.call.target"@,
        LangfuseKeys::ROUTE_ID@ == "langfuse.observation.metadata.switchyard.route_id"@,
        LangfuseKeys::ALGORITHM@ == "langfuse.observation.metadata.switchyard.algorithm"@,
        LangfuseKeys::SELECTED_TARGET@
            == "langfuse.observation.metadata.switchyard.selected_target"@,
        LangfuseKeys::SERVED_TARGET@
            == "langfuse.observation.metadata.switchyard.served_target"@,
        LangfuseKeys::RESPONSE_ORIGIN@
            == "langfuse.observation.metadata.switchyard.response_origin"@,
        LangfuseKeys::CALL_ROLE@ == "langfuse.observation.metadata.switchyard.call_role"@,
        LangfuseKeys::CALL_TARGET@ == "langfuse.observation.metadata.switchyard.call_target"@,
        LangfuseKeys::SESSION_ID@ == "langfuse.session.id"@,
        LangfuseKeys::USER_ID@ == "langfuse.user.id"@,
{
}

/// An origin is written `target` exactly if a target served, else `routing_generated`, and the
/// two are not the same text.
pub proof fn origins_are_told_apart(origin: ResponseOrigin, text: &'static str)
    requires
        call_ensures(ResponseOrigin::as_str, (origin,), text),
    ensures
        origin is Target <==> text@ == "target"@,
        origin is RoutingGenerated <==> text@ == "routing_generated"@,
{
    reveal_strlit("target");
    reveal_strlit("routing_generated");
    assert("target"@.len() != "routing_generated"@.len());
}

/// A call that routing depends on is written `routing_dependency`.
pub proof fn role_is_spelled_so(role: CallRole, text: &'static str)
    requires
        call_ensures(CallRole::as_str, (role,), text),
    ensures
        text@ == "routing_dependency"@,
{
}

} // verus!

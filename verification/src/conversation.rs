//! A conversation of raw messages with the completion schema that is active for it.

use crate::json::{items_view, lemma_items_view_push, Json, JsonView};
use crate::schema::{optional_schema, SchemaHandle, SchemaView};
use vstd::prelude::*;

verus! {

/// The completion schema that is active, if any.
#[derive(Debug)]
pub struct SchemaContext {
    active: Option<SchemaHandle>,
}

impl View for SchemaContext {
    type V = Option<SchemaView>;

    closed spec fn view(&self) -> Option<SchemaView> {
        optional_schema(self.active)
    }
}

/// The response format that asks the endpoint for JSON that matches a schema.
pub open spec fn response_format_of(schema: SchemaView) -> JsonView {
    JsonView::object2(
        "type"@,
        JsonView::String("json_schema"@),
        "json_schema"@,
        JsonView::object2("name"@, JsonView::String(schema.name), "schema"@, schema.document),
    )
}

impl SchemaContext {
    /// A context without schema.
    pub fn new() -> (context: SchemaContext)
        ensures
            context@ is None,
    {
        SchemaContext { active: None }
    }

    /// Makes `handle` the active schema.
    pub fn set_handle(&mut self, handle: SchemaHandle)
        ensures
            final(self)@ == Some(handle@),
    {
        self.active = Some(handle);
    }

    /// Leaves no schema active.
    pub fn clear(&mut self)
        ensures
            final(self)@ is None,
    {
        self.active = None;
    }

    /// The active schema.
    pub fn handle(&self) -> (handle: Option<&SchemaHandle>)
        ensures
            match handle {
                Some(h) => self@ == Some(h@),
                None => self@ is None,
            },
    {
        self.active.as_ref()
    }

    /// The response format for the active schema.
    pub fn response_format(&self) -> (format: Option<Json>)
        ensures
            match format {
                Some(f) => self@ is Some && f@ == response_format_of(self@->Some_0),
                None => self@ is None,
            },
    {
        match &self.active {
            Some(handle) => Some(
                Json::object().with("type", Json::string("json_schema")).with(
                    "json_schema",
                    Json::object().with("name", Json::string(handle.schema_name())).with(
                        "schema",
                        handle.schema_json().clone(),
                    ),
                ),
            ),
            None => None,
        }
    }
}

impl Clone for SchemaContext {
    fn clone(&self) -> (copy: Self)
        ensures
            copy@ == self@,
    {
        SchemaContext {
            active: match &self.active {
                Some(h) => Some(h.clone()),
                None => None,
            },
        }
    }
}

impl Default for SchemaContext {
    fn default() -> (context: SchemaContext)
        ensures
            context@ is None,
    {
        SchemaContext::new()
    }
}

/// Raw messages and the schema context that goes with them.
#[derive(Debug)]
pub struct Conversation {
    messages: Vec<Json>,
    schema: SchemaContext,
}

/// The mathematical value of a conversation.
pub struct ConversationView {
    pub messages: Seq<JsonView>,
    pub schema: Option<SchemaView>,
}

impl View for Conversation {
    type V = ConversationView;

    closed spec fn view(&self) -> ConversationView {
        ConversationView { messages: items_view(self.messages@), schema: self.schema@ }
    }
}

impl Conversation {
    /// A conversation without messages and without schema.
    pub fn new() -> (conversation: Conversation)
        ensures
            conversation@ == (ConversationView { messages: Seq::empty(), schema: None }),
    {
        Conversation { messages: Vec::new(), schema: SchemaContext::new() }
    }

    /// A conversation of `messages`, without schema.
    pub fn with_messages(messages: Vec<Json>) -> (conversation: Conversation)
        ensures
            conversation@ == (ConversationView { messages: items_view(messages@), schema: None }),
    {
        Conversation { messages, schema: SchemaContext::new() }
    }

    /// Adds a message at the end.
    pub fn push_message(&mut self, message: Json)
        ensures
            final(self)@ == (ConversationView {
                messages: old(self)@.messages.push(message@),
                ..old(self)@
            }),
    {
        proof {
            lemma_items_view_push(self.messages@, message);
        }
        self.messages.push(message);
    }

    /// Adds `additional` at the end, in order.
    pub fn extend_messages(&mut self, additional: Vec<Json>)
        ensures
            final(self)@ == (ConversationView {
                messages: old(self)@.messages + items_view(additional@),
                ..old(self)@
            }),
    {
        let mut additional = additional;
        proof {
            crate::json::lemma_items_view(self.messages@);
            crate::json::lemma_items_view(additional@);
            crate::json::lemma_items_view(self.messages@ + additional@);
            assert(items_view(self.messages@ + additional@) =~= items_view(self.messages@)
                + items_view(additional@));
        }
        self.messages.append(&mut additional);
    }

    /// The messages, in order.
    pub fn messages(&self) -> (messages: &[Json])
        ensures
            items_view(messages@) == self@.messages,
    {
        self.messages.as_slice()
    }

    /// The messages, to change them in place.
    pub fn messages_mut(&mut self) -> (messages: &mut Vec<Json>)
        ensures
            items_view(messages@) == old(self)@.messages,
            final(self)@ == (ConversationView {
                messages: items_view(final(messages)@),
                ..old(self)@
            }),
    {
        &mut self.messages
    }

    /// The schema context, to change it in place.
    pub fn schema_context_mut(&mut self) -> (context: &mut SchemaContext)
        ensures
            context@ == old(self)@.schema,
            final(self)@ == (ConversationView { schema: final(context)@, ..old(self)@ }),
    {
        &mut self.schema
    }

    /// The schema context.
    pub fn schema_context(&self) -> (context: &SchemaContext)
        ensures
            context@ == self@.schema,
    {
        &self.schema
    }

    /// Makes `handle` the active schema.
    pub fn set_schema_handle(&mut self, handle: SchemaHandle)
        ensures
            final(self)@ == (ConversationView { schema: Some(handle@), ..old(self)@ }),
    {
        self.schema.set_handle(handle);
    }

    /// Leaves no schema active.
    pub fn clear_schema(&mut self)
        ensures
            final(self)@ == (ConversationView { schema: None, ..old(self)@ }),
    {
        self.schema.clear();
    }

    /// The response format for the active schema.
    pub fn response_format(&self) -> (format: Option<Json>)
        ensures
            match format {
                Some(f) => self@.schema is Some && f@ == response_format_of(self@.schema->Some_0),
                None => self@.schema is None,
            },
    {
        self.schema.response_format()
    }
}

impl Default for Conversation {
    fn default() -> (conversation: Conversation)
        ensures
            conversation@ == (ConversationView { messages: Seq::empty(), schema: None }),
    {
        Conversation::new()
    }
}

} // verus!

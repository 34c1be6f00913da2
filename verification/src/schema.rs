//! Named JSON schemas, and the validation of documents against them by `jsonschema`.

use crate::error::AgentError;
use crate::json::{
    from_value, json_error_text, to_value, value_view, Json, JsonView,
};
use crate::text::{append, join, joined, texts};
use std::any::TypeId;
use vstd::prelude::*;

verus! {

/// `std::any::TypeId`, the identity of a type. It is carried as it is.
#[verifier::external_type_specification]
#[verifier::external_body]
pub struct ExTypeId(std::any::TypeId);

/// `schemars::schema::RootSchema`, a JSON schema as `schemars` generates it. Nothing of its
/// inside is known here but what `root_schema_json` names.
#[verifier::external_type_specification]
#[verifier::external_body]
pub struct ExRootSchema(schemars::schema::RootSchema);

/// What `serde_json::to_value` makes of a `schemars` root schema: its JSON document, or the
/// message of the error it reports.
pub uninterp spec fn root_schema_json(root: schemars::schema::RootSchema) -> Result<
    JsonView,
    Seq<char>,
>;

/// Whether `jsonschema` builds a draft 7 validator from a schema document.
pub uninterp spec fn schema_builds(schema: JsonView) -> bool;

/// Whether the draft 7 validator that `jsonschema` builds from a schema document finds no
/// error in an instance.
pub uninterp spec fn schema_accepts(schema: JsonView, instance: JsonView) -> bool;

/// `serde_json::to_value` of a `schemars` root schema.
#[verifier::external_body]
fn root_schema_value(root: schemars::schema::RootSchema) -> (r: Result<
    serde_json::Value,
    serde_json::Error,
>)
    ensures
        match r {
            Ok(v) => root_schema_json(root) == Ok::<JsonView, Seq<char>>(value_view(v)),
            Err(e) => root_schema_json(root) == Err::<JsonView, Seq<char>>(json_error_text(e)),
        },
{
    serde_json::to_value(root)
}

/// `TypeId`'s `==`: two identities are equal exactly when they are the same identity.
pub assume_specification[ <std::any::TypeId as PartialEq>::eq ](
    a: &std::any::TypeId,
    b: &std::any::TypeId,
) -> (same: bool)
    ensures
        same == (*a == *b),
;

/// `TypeId::of`: the identity of the type `T`.
#[verifier::external_body]
fn type_id_of<T: 'static>() -> (id: TypeId) {
    TypeId::of::<T>()
}

/// `jsonschema` with draft 7: builds a validator from `schema` and lists the errors it finds
/// in `instance`, each as the path into the instance and the message. The list is empty
/// exactly when the instance is valid; `Err` holds the message of a schema that does not
/// build.
#[verifier::external_body]
fn schema_violations(schema: &serde_json::Value, instance: &serde_json::Value) -> (r: Result<
    Vec<(String, String)>,
    String,
>)
    ensures
        r is Ok <==> schema_builds(value_view(*schema)),
        r matches Ok(v) ==> (v@.len() == 0 <==> schema_accepts(
            value_view(*schema),
            value_view(*instance),
        )),
{
    match jsonschema::options().with_draft(jsonschema::Draft::Draft7).build(schema) {
        Ok(validator) => Ok(
            validator.iter_errors(instance).map(
                |e| (e.instance_path().to_string(), e.to_string()),
            ).collect(),
        ),
        Err(e) => Err(e.to_string()),
    }
}

/// A JSON schema with the name it goes by and the type it was made for.
#[derive(Debug)]
pub struct SchemaHandle {
    schema_name: &'static str,
    rust_type: &'static str,
    type_id: TypeId,
    schema_json: Json,
}

/// The mathematical value of a schema handle.
pub struct SchemaView {
    pub name: Seq<char>,
    pub rust_type: Seq<char>,
    pub type_id: TypeId,
    pub document: JsonView,
}

impl View for SchemaHandle {
    type V = SchemaView;

    closed spec fn view(&self) -> SchemaView {
        SchemaView {
            name: self.schema_name@,
            rust_type: self.rust_type@,
            type_id: self.type_id,
            document: self.schema_json@,
        }
    }
}

/// The value of an optional schema handle.
pub open spec fn optional_schema(schema: Option<SchemaHandle>) -> Option<SchemaView> {
    match schema {
        Some(s) => Some(s@),
        None => None,
    }
}

/// The message for a schema that was made for another type than the one asked for.
pub open spec fn type_mismatch_message(name: Seq<char>, target: Seq<char>) -> Seq<char> {
    "schema `"@ + name + "` does not match target type `"@ + target + "`"@
}

/// How many violations a validation message lists.
pub const MAX_SCHEMA_ERRORS: usize = 3;

/// The line of one violation: the path into the instance, `<root>` for the instance itself,
/// then a colon and the message.
pub open spec fn violation_line(path: Seq<char>, message: Seq<char>) -> Seq<char> {
    (if path.len() == 0 {
        "<root>"@
    } else {
        path
    }) + ": "@ + message
}

/// The lines of a list of violations.
pub open spec fn violation_lines(violations: Seq<(String, String)>) -> Seq<Seq<char>> {
    violations.map_values(|v: (String, String)| violation_line(v.0@, v.1@))
}

/// The message for a payload with violations: the first three, joined, and a note where
/// there were more.
pub open spec fn mismatch_message(name: Seq<char>, violations: Seq<(String, String)>) -> Seq<char> {
    "Structured payload does not match `"@ + name + "` schema: "@ + joined(
        violation_lines(
            if violations.len() > 3 {
                violations.take(3)
            } else {
                violations
            },
        ),
        "; "@,
    ) + (if violations.len() > 3 {
        "; additional errors truncated"@
    } else {
        Seq::empty()
    })
}

/// The message for a schema that does not build.
pub open spec fn unprepared_message(name: Seq<char>, reason: Seq<char>) -> Seq<char> {
    "Failed to prepare `"@ + name + "` schema for validation: "@ + reason
}

/// What a validation comes to, given what the validator reported.
pub open spec fn validation_result(
    name: Seq<char>,
    checked: Result<Vec<(String, String)>, String>,
) -> Result<(), Seq<char>> {
    match checked {
        Ok(violations) => if violations@.len() == 0 {
            Ok(())
        } else {
            Err(mismatch_message(name, violations@))
        },
        Err(reason) => Err(unprepared_message(name, reason@)),
    }
}

/// Turns the report of the validator into the outcome of the validation: success for an empty
/// list of violations, else a validation error whose message names the schema and the first
/// three violations.
pub fn validation_outcome(schema_name: &str, checked: Result<Vec<(String, String)>, String>) -> (r:
    Result<(), AgentError>)
    ensures
        match validation_result(schema_name@, checked) {
            Ok(_) => r is Ok,
            Err(message) => r matches Err(AgentError::Validation(m)) && m@ == message,
        },
{
    match checked {
        Ok(violations) => {
            if violations.len() == 0 {
                return Ok(());
            }
            let shown: usize = if violations.len() > MAX_SCHEMA_ERRORS {
                MAX_SCHEMA_ERRORS
            } else {
                violations.len()
            };
            let ghost listed = if violations@.len() > 3 {
                violations@.take(3)
            } else {
                violations@
            };
            proof {
                assert(violations@.take(violations.len() as int) =~= violations@);
                assert(listed == violations@.take(shown as int));
            }
            let mut lines: Vec<String> = Vec::new();
            let mut i: usize = 0;
            while i < shown
                invariant
                    i <= shown <= violations.len(),
                    texts(lines@) == violation_lines(violations@.take(i as int)),
                decreases shown - i,
            {
                let path: &str = if violations[i].0.as_str().is_empty() {
                    "<root>"
                } else {
                    violations[i].0.as_str()
                };
                let mut line = append(path, ": ");
                line.push_str(violations[i].1.as_str());
                proof {
                    assert(texts(lines@).len() == lines@.len());
                    assert forall|j: int| 0 <= j < i + 1 implies texts(lines@.push(line))[j]
                        == violation_lines(violations@.take(i + 1))[j] by {
                        if j < i {
                            assert(texts(lines@)[j] == violation_lines(
                                violations@.take(i as int),
                            )[j]);
                        }
                    }
                    assert(texts(lines@.push(line)) =~= violation_lines(violations@.take(i + 1)));
                }
                lines.push(line);
                i = i + 1;
            }
            let details = join(lines.as_slice(), "; ");
            let mut message = append("Structured payload does not match `", schema_name);
            message.push_str("` schema: ");
            message.push_str(details.as_str());
            if violations.len() > MAX_SCHEMA_ERRORS {
                message.push_str("; additional errors truncated");
            } else {
                assert(message@ + Seq::<char>::empty() =~= message@);
            }
            Err(AgentError::Validation(message))
        },
        Err(reason) => {
            let mut message = append("Failed to prepare `", schema_name);
            message.push_str("` schema for validation: ");
            message.push_str(reason.as_str());
            Err(AgentError::Validation(message))
        },
    }
}

impl SchemaHandle {
    /// A handle for the schema document `schema_json`, named `schema_name`, of the type
    /// with the given name and identity.
    pub fn new(
        schema_name: &'static str,
        rust_type: &'static str,
        type_id: TypeId,
        schema_json: Json,
    ) -> (handle: SchemaHandle)
        ensures
            handle@ == (SchemaView {
                name: schema_name@,
                rust_type: rust_type@,
                type_id,
                document: schema_json@,
            }),
    {
        SchemaHandle { schema_name, rust_type, type_id, schema_json }
    }

    /// A handle for the schema that `schemars` generated for the type `T`. Fails where the
    /// schema cannot be written as JSON.
    pub fn from_root_schema<T: 'static>(
        schema_name: &'static str,
        rust_type: &'static str,
        root: schemars::schema::RootSchema,
    ) -> (r: Result<SchemaHandle, AgentError>)
        ensures
            match root_schema_json(root) {
                Ok(document) => r matches Ok(handle) && handle@.name == schema_name@
                    && handle@.rust_type == rust_type@ && handle@.document == document,
                Err(_) => r is Err,
            },
    {
        match root_schema_value(root) {
            Ok(v) => Ok(SchemaHandle::new(schema_name, rust_type, type_id_of::<T>(), from_value(v))),
            Err(e) => Err(AgentError::Serialization(e)),
        }
    }

    /// Checks that the schema was made for the type with the identity `expected`, which goes
    /// by the name `target`: succeeds exactly when the identities are the same, and fails
    /// with a validation error that names the schema and the target otherwise.
    pub fn check_type(&self, expected: TypeId, target: &str) -> (r: Result<(), AgentError>)
        ensures
            r is Ok <==> self@.type_id == expected,
            r matches Err(e) ==> (e matches AgentError::Validation(m) && m@ == type_mismatch_message(
                self@.name,
                target@,
            )),
    {
        if self.type_id.eq(&expected) {
            Ok(())
        } else {
            let mut message = append("schema `", self.schema_name);
            message.push_str("` does not match target type `");
            message.push_str(target);
            message.push_str("`");
            Err(AgentError::Validation(message))
        }
    }

    /// The name of the schema.
    pub fn schema_name(&self) -> (name: &'static str)
        ensures
            name@ == self@.name,
    {
        self.schema_name
    }

    /// The name of the type that the schema was made for.
    pub fn rust_type_name(&self) -> (name: &'static str)
        ensures
            name@ == self@.rust_type,
    {
        self.rust_type
    }

    /// The identity of the type that the schema was made for.
    pub fn type_id(&self) -> (id: TypeId)
        ensures
            id == self@.type_id,
    {
        self.type_id
    }

    /// The schema document.
    pub fn schema_json(&self) -> (document: &Json)
        ensures
            document@ == self@.document,
    {
        &self.schema_json
    }

    /// A shared copy of the schema document.
    pub fn schema_json_arc(&self) -> (document: std::sync::Arc<Json>)
        ensures
            (*document)@ == self@.document,
    {
        std::sync::Arc::new(self.schema_json.clone())
    }
}

impl Clone for SchemaHandle {
    fn clone(&self) -> (copy: Self)
        ensures
            copy@ == self@,
    {
        SchemaHandle {
            schema_name: self.schema_name,
            rust_type: self.rust_type,
            type_id: self.type_id,
            schema_json: self.schema_json.clone(),
        }
    }
}

/// Checks that `schema` was made for the type `T`, which goes by the name `target`. What
/// the identity of `T` is cannot be said here; `SchemaHandle::check_type` says what is
/// decided once it is known. A failure is a validation error that names the schema and the
/// target.
pub fn ensure_schema_matches<T: 'static>(schema: &SchemaHandle, target: &str) -> (r: Result<
    (),
    AgentError,
>)
    ensures
        r matches Err(e) ==> (e matches AgentError::Validation(m) && m@ == type_mismatch_message(
            schema@.name,
            target@,
        )),
{
    schema.check_type(type_id_of::<T>(), target)
}

/// Checks `payload` against `schema`, as JSON Schema draft 7. Succeeds exactly when the
/// schema builds and accepts the payload; fails with a validation error otherwise, whose
/// message is worded from what the validator reported.
pub fn validate_structured_payload(schema: &SchemaHandle, payload: &Json) -> (r: Result<
    (),
    AgentError,
>)
    ensures
        r is Ok <==> schema_builds(schema@.document) && schema_accepts(schema@.document, payload@),
        r matches Err(e) ==> (e matches AgentError::Validation(m) && exists|
            checked: Result<Vec<(String, String)>, String>,
        |
            #[trigger] validation_result(schema@.name, checked) == Err::<(), Seq<char>>(m@) && (
            checked is Ok <==> schema_builds(schema@.document))),
{
    let schema_value = to_value(&schema.schema_json);
    let instance = to_value(payload);
    let checked = schema_violations(&schema_value, &instance);
    let ghost report = checked;
    let r = validation_outcome(schema.schema_name, checked);
    proof {
        if r is Err {
            let m = r->Err_0->Validation_0@;
            assert(validation_result(schema@.name, report) == Err::<(), Seq<char>>(m));
        }
    }
    r
}

/// `object` with `key` set to `value` unless it has a member under `key` already; what is
/// no object stays as it is.
pub open spec fn with_default(object: JsonView, key: Seq<char>, value: JsonView) -> JsonView {
    match object {
        JsonView::Object(members) => if members.contains_key(key) {
            object
        } else {
            object.with(key, value)
        },
        _ => object,
    }
}

/// The texts of a list of pairs of string slices.
pub open spec fn pairs_of(pairs: Seq<(&'static str, &'static str)>) -> Seq<(Seq<char>, Seq<char>)> {
    pairs.map_values(|p: (&'static str, &'static str)| (p.0@, p.1@))
}

/// The properties of a schema with the descriptions of `docs` added: each field that is
/// there, is an object and has no description yet gets the one that `docs` holds for it.
pub open spec fn documented_fields(properties: JsonView, docs: Seq<(Seq<char>, Seq<char>)>) -> JsonView
    decreases docs.len(),
{
    if docs.len() == 0 {
        properties
    } else {
        let done = documented_fields(properties, docs.drop_last());
        match done.member(docs.last().0) {
            Some(field) => if field is Object {
                done.with(
                    docs.last().0,
                    with_default(field, "description"@, JsonView::String(docs.last().1)),
                )
            } else {
                done
            },
            None => done,
        }
    }
}

/// A schema document with what the documentation of its type tells: the title and the
/// description, where the document has none of its own, and the descriptions of its fields.
pub open spec fn documented(
    schema: JsonView,
    title: Seq<char>,
    description: Option<Seq<char>>,
    docs: Seq<(Seq<char>, Seq<char>)>,
) -> JsonView {
    let titled = with_default(schema, "title"@, JsonView::String(title));
    let described = match description {
        Some(d) => with_default(titled, "description"@, JsonView::String(d)),
        None => titled,
    };
    match described.member("properties"@) {
        Some(properties) => if properties is Object {
            described.with("properties"@, documented_fields(properties, docs))
        } else {
            described
        },
        None => described,
    }
}

fn set_default(object: &mut Json, key: &str, value: Json)
    ensures
        final(object)@ == with_default(old(object)@, key@, value@),
{
    if object.is_object() && object.get(key).is_none() {
        object.put(key, value);
    }
}

/// Adds to a schema document what the documentation of its type tells: the title and the
/// description, where the document has none of its own, and for each documented field its
/// description, where the field has none of its own.
pub fn apply_doc_comments(
    schema: &mut Json,
    title: &str,
    description: Option<&str>,
    field_docs: &[(&'static str, &'static str)],
)
    ensures
        final(schema)@ == documented(
            old(schema)@,
            title@,
            match description {
                Some(d) => Some(d@),
                None => None,
            },
            pairs_of(field_docs@),
        ),
{
    set_default(schema, "title", Json::string(title));
    match description {
        Some(d) => {
            set_default(schema, "description", Json::string(d));
        },
        None => {},
    }
    let found: Option<Json> = match schema.get("properties") {
        Some(p) => if p.is_object() {
            Some(p.clone())
        } else {
            None
        },
        None => None,
    };
    match found {
        Some(mut properties) => {
            let ghost start = properties@;
            let mut i: usize = 0;
            proof {
                assert(pairs_of(field_docs@).take(0) =~= Seq::<(Seq<char>, Seq<char>)>::empty());
            }
            while i < field_docs.len()
                invariant
                    i <= field_docs.len(),
                    start is Object,
                    properties@ is Object,
                    properties@ == documented_fields(start, pairs_of(field_docs@).take(i as int)),
                decreases field_docs.len() - i,
            {
                let field = field_docs[i].0;
                let doc = field_docs[i].1;
                proof {
                    let docs = pairs_of(field_docs@);
                    assert(docs.take(i + 1).drop_last() =~= docs.take(i as int));
                    assert(docs.take(i + 1).last() == (field@, doc@));
                }
                let updated: Option<Json> = match properties.get(field) {
                    Some(f) => if f.is_object() {
                        let mut copy = f.clone();
                        set_default(&mut copy, "description", Json::string(doc));
                        Some(copy)
                    } else {
                        None
                    },
                    None => None,
                };
                match updated {
                    Some(f) => {
                        properties.put(field, f);
                    },
                    None => {},
                }
                i = i + 1;
            }
            proof {
                let docs = pairs_of(field_docs@);
                assert(docs.take(field_docs.len() as int) =~= docs);
            }
            schema.put("properties", properties);
        },
        None => {},
    }
}

impl SchemaHandle {
    /// The handle with what the documentation of its type tells added to its document.
    pub fn with_doc_comments(
        self,
        title: &str,
        description: Option<&str>,
        field_docs: &[(&'static str, &'static str)],
    ) -> (handle: SchemaHandle)
        ensures
            handle@ == (SchemaView {
                document: documented(
                    self@.document,
                    title@,
                    match description {
                        Some(d) => Some(d@),
                        None => None,
                    },
                    pairs_of(field_docs@),
                ),
                ..self@
            }),
    {
        let mut handle = self;
        apply_doc_comments(&mut handle.schema_json, title, description, field_docs);
        handle
    }
}

} // verus!

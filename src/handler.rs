//! Task handlers and the registry that routes a task type to one. A handler
//! turns a task's payload into exactly one outcome: an output value or an
//! error message.

use vstd::prelude::*;
use vstd::string::StringExecFns;

use crate::external::{
    base64_decode, base64_decoded, decimal, image_dimensions, image_size, json_as_str, json_bool,
    json_boolean, json_field, json_get, json_number, json_object, json_object_of, json_str,
    json_string, json_text, json_u32, u32_text,
};
use crate::schema::{FieldType, PayloadField, TaskPayloadSchema};
use crate::table::KeyedTable;
use crate::task::Task;

verus! {

/// The smallest width and height, in pixels, that an image must reach.
pub const MIN_IMAGE_SIDE: u32 = 100;

/// What a handler produced: an output value or an error message.
#[derive(Debug, Clone)]
pub struct HandlerResult {
    pub output: Option<serde_json::Value>,
    pub error: Option<String>,
}

impl HandlerResult {
    /// Exactly one of output and error is present.
    pub open spec fn is_outcome(self) -> bool {
        self.output.is_some() != self.error.is_some()
    }

    /// A success carrying `v`.
    pub open spec fn succeeds_with(self, v: serde_json::Value) -> bool {
        self.output == Some(v) && self.error is None
    }

    /// A failure carrying the message `msg`.
    pub open spec fn fails_with(self, msg: Seq<char>) -> bool {
        &&& self.output is None
        &&& self.error is Some
        &&& self.error->0@ == msg
    }

    /// A success with the given output.
    pub fn ok(output: serde_json::Value) -> (r: HandlerResult)
        ensures
            r.succeeds_with(output),
    {
        HandlerResult { output: Some(output), error: None }
    }

    /// A failure with the given message.
    pub fn err(msg: String) -> (r: HandlerResult)
        ensures
            r.output is None,
            r.error == Some(msg),
    {
        HandlerResult { output: None, error: Some(msg) }
    }
}

/// The echo handler's output: the payload wrapped as `{"echoed": payload}`.
pub open spec fn echo_output(payload: serde_json::Value) -> serde_json::Value {
    json_object_of(seq![("echoed"@, payload)])
}

/// The image handler's report on an image that is large enough:
/// `{"valid": true, "width": w, "height": h}`.
pub open spec fn size_report(width: u32, height: u32) -> serde_json::Value {
    json_object_of(
        seq![
            ("valid"@, json_boolean(true)),
            ("width"@, json_number(width)),
            ("height"@, json_number(height)),
        ],
    )
}

/// The message for an image below the minimum size.
pub open spec fn too_small_message(width: u32, height: u32) -> Seq<char> {
    "Image resolution too low : "@ + decimal(width as nat) + " "@ + decimal(height as nat)
}

/// The image handler's outcome once it knows what the image decoder made of
/// the bytes: nothing, or a size.
pub open spec fn size_outcome(r: HandlerResult, size: Option<(u32, u32)>) -> bool {
    match size {
        None => r.fails_with("image decode failed"@),
        Some(wh) => if wh.0 < MIN_IMAGE_SIDE || wh.1 < MIN_IMAGE_SIDE {
            r.fails_with(too_small_message(wh.0, wh.1))
        } else {
            r.succeeds_with(size_report(wh.0, wh.1))
        },
    }
}

/// The text of the payload's `image` member, where it is a JSON string.
pub open spec fn image_field_text(payload: serde_json::Value) -> Option<Seq<char>> {
    match json_field(payload, "image"@) {
        Some(v) => json_text(v),
        None => None,
    }
}

/// The image handler's outcome on a payload.
pub open spec fn image_outcome(r: HandlerResult, payload: serde_json::Value) -> bool {
    match image_field_text(payload) {
        None => r.fails_with("Missing image field"@),
        Some(text) => match base64_decoded(text) {
            None => r.fails_with("Base 64 decode failed"@),
            Some(bytes) => size_outcome(r, image_size(bytes)),
        },
    }
}

/// A schema documenting one required string member.
pub open spec fn documents_one_string(
    s: TaskPayloadSchema,
    task_type: Seq<char>,
    description: Seq<char>,
    field: Seq<char>,
    field_description: Seq<char>,
    example: Seq<char>,
) -> bool {
    &&& s.task_type@ == task_type
    &&& s.description@ == description
    &&& s.fields@.len() == 1
    &&& s.fields@[0].0@ == field
    &&& s.fields@[0].1.field_type == FieldType::String
    &&& s.fields@[0].1.required
    &&& s.fields@[0].1.description is Some
    &&& s.fields@[0].1.description->0@ == field_description
    &&& s.fields@[0].1.example == Some(json_string(example))
    &&& s.wf()
}

/// A schema with one required string member.
fn one_string_schema(
    task_type: &str,
    description: &str,
    field: &str,
    field_description: &str,
    example: &str,
) -> (r: TaskPayloadSchema)
    ensures
        documents_one_string(r, task_type@, description@, field@, field_description@, example@),
{
    let member = PayloadField {
        field_type: FieldType::String,
        required: true,
        description: Some(field_description.to_string()),
        example: Some(json_str(example)),
    };
    TaskPayloadSchema {
        task_type: task_type.to_string(),
        description: description.to_string(),
        fields: vec![(field.to_string(), member)],
    }
}

/// Answers every task with its own payload, wrapped.
#[derive(Debug, Clone, Copy, PartialEq, Eq, Structural)]
pub struct EchoHandler;

impl EchoHandler {
    /// Succeeds with `{"echoed": payload}`.
    pub fn handle(&self, task: &Task) -> (r: HandlerResult)
        ensures
            r.succeeds_with(echo_output(task.payload)),
    {
        let members = vec![("echoed".to_string(), task.payload.clone())];
        let out = json_object(members);
        proof {
            assert(members@.map_values(|m: (String, serde_json::Value)| (m.0@, m.1)) =~= seq![
                ("echoed"@, task.payload),
            ]);
        }
        HandlerResult::ok(out)
    }

    /// The payload schema the echo handler documents.
    pub fn schema() -> (r: TaskPayloadSchema)
        ensures
            documents_one_string(
                r,
                "echo"@,
                "Just a test handler to test worker"@,
                "echo"@,
                "Just a test handler"@,
                "No worries , just testing things"@,
            ),
    {
        one_string_schema(
            "echo",
            "Just a test handler to test worker",
            "echo",
            "Just a test handler",
            "No worries , just testing things",
        )
    }
}

/// Checks that a payload's `image` member holds a base64-encoded image of at
/// least `MIN_IMAGE_SIDE` pixels each way.
#[derive(Debug, Clone, Copy, PartialEq, Eq, Structural)]
pub struct ValidateImageHandler;

impl ValidateImageHandler {
    /// Fails with a message naming the size where either side is below
    /// `MIN_IMAGE_SIDE`, and succeeds with the size report otherwise.
    pub fn check_dimensions(width: u32, height: u32) -> (r: HandlerResult)
        ensures
            size_outcome(r, Some((width, height))),
    {
        if width < MIN_IMAGE_SIDE || height < MIN_IMAGE_SIDE {
            let msg = "Image resolution too low : ".to_string().concat(u32_text(width).as_str()).concat(
                " ",
            ).concat(u32_text(height).as_str());
            HandlerResult::err(msg)
        } else {
            let members = vec![
                ("valid".to_string(), json_bool(true)),
                ("width".to_string(), json_u32(width)),
                ("height".to_string(), json_u32(height)),
            ];
            let out = json_object(members);
            proof {
                assert(members@.map_values(|m: (String, serde_json::Value)| (m.0@, m.1)) =~= seq![
                    ("valid"@, json_boolean(true)),
                    ("width"@, json_number(width)),
                    ("height"@, json_number(height)),
                ]);
            }
            HandlerResult::ok(out)
        }
    }

    /// The outcome once the image decoder has spoken: a failure where it found
    /// no image, else the size check.
    pub fn check_size(size: Option<(u32, u32)>) -> (r: HandlerResult)
        ensures
            size_outcome(r, size),
    {
        match size {
            None => HandlerResult::err("image decode failed".to_string()),
            Some((width, height)) => ValidateImageHandler::check_dimensions(width, height),
        }
    }

    /// Reads the `image` member, decodes it from base64, decodes the image and
    /// checks its size; the first step that fails names itself in the error.
    pub fn handle(&self, task: &Task) -> (r: HandlerResult)
        ensures
            image_outcome(r, task.payload),
    {
        let text = match json_get(&task.payload, "image") {
            Some(v) => json_as_str(v),
            None => None,
        };
        match text {
            None => HandlerResult::err("Missing image field".to_string()),
            Some(text) => match base64_decode(text.as_str()) {
                None => HandlerResult::err("Base 64 decode failed".to_string()),
                Some(bytes) => ValidateImageHandler::check_size(image_dimensions(&bytes)),
            },
        }
    }

    /// The payload schema the image handler documents.
    pub fn schema() -> (r: TaskPayloadSchema)
        ensures
            documents_one_string(
                r,
                "validate_image"@,
                "Validate that a base64 image is real and large enough"@,
                "image"@,
                "Base 64 Encoded image"@,
                "1vsdf3409l;a dl...."@,
            ),
    {
        one_string_schema(
            "validate_image",
            "Validate that a base64 image is real and large enough",
            "image",
            "Base 64 Encoded image",
            "1vsdf3409l;a dl....",
        )
    }
}

/// A registered capability that processes a task.
#[derive(Debug, Clone, Copy, PartialEq, Eq, Structural)]
pub enum TaskHandler {
    Echo(EchoHandler),
    ValidateImage(ValidateImageHandler),
}

/// The outcome that handler `h` gives on a task with this payload.
pub open spec fn handler_outcome(h: TaskHandler, payload: serde_json::Value, r: HandlerResult) -> bool {
    match h {
        TaskHandler::Echo(_) => r.succeeds_with(echo_output(payload)),
        TaskHandler::ValidateImage(_) => image_outcome(r, payload),
    }
}

impl TaskHandler {
    /// Runs the handler on `task`.
    pub fn handle(&self, task: &Task) -> (r: HandlerResult)
        ensures
            handler_outcome(*self, task.payload, r),
            r.is_outcome(),
    {
        match self {
            TaskHandler::Echo(h) => h.handle(task),
            TaskHandler::ValidateImage(h) => h.handle(task),
        }
    }
}

/// Handlers by task type; registering a type again replaces its handler.
pub struct HandlerRegistry {
    handlers: KeyedTable<TaskHandler>,
}

impl View for HandlerRegistry {
    type V = Map<Seq<char>, TaskHandler>;

    closed spec fn view(&self) -> Map<Seq<char>, TaskHandler> {
        self.handlers@
    }
}

impl HandlerRegistry {
    pub closed spec fn wf(&self) -> bool {
        self.handlers.wf()
    }

    /// A registry with no handler.
    pub fn new() -> (r: HandlerRegistry)
        ensures
            r.wf(),
            r@ == Map::<Seq<char>, TaskHandler>::empty(),
    {
        HandlerRegistry { handlers: KeyedTable::new() }
    }

    /// Routes `task_type` to `handler`, replacing any earlier handler.
    pub fn register_handler(&mut self, task_type: &str, handler: TaskHandler)
        requires
            old(self).wf(),
        ensures
            final(self).wf(),
            final(self)@ == old(self)@.insert(task_type@, handler),
    {
        self.handlers.upsert(task_type.to_string(), handler);
    }

    /// The handler for `task_type`; `None` is a routing miss.
    pub fn get(&self, task_type: &str) -> (r: Option<TaskHandler>)
        requires
            self.wf(),
        ensures
            match r {
                Some(h) => self@.contains_key(task_type@) && h == self@[task_type@],
                None => !self@.contains_key(task_type@),
            },
    {
        match self.handlers.get(task_type) {
            Some(h) => Some(*h),
            None => None,
        }
    }
}

} // verus!

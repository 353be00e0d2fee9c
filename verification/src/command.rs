//! Commands, the requests they stand for, and what to show once a request
//! has been answered.

use crate::field::{
    all_well_shaped, normalize_fields, normalized, reports_first_fault, FieldFault, FieldPair,
    FieldShapeError,
};
use crate::paint::{paint, styled, Tint};
use crate::preview::{
    create_instance_text, create_schema_text, delete_instance_text, render_create_instance,
    render_create_schema, render_delete_instance, render_update_instance, update_instance_text,
};
use vstd::prelude::*;

verus! {

/// A command as it was typed: its fields are still raw.
#[derive(Clone, Debug, PartialEq, Eq)]
pub enum Command {
    CreateSchema { name: String, description: String, fields: Vec<String>, log: bool },
    CreateInstance { schema_id: String, fields: Vec<String>, log: bool },
    UpdateInstance { schema_id: String, view_id: String, fields: Vec<String>, log: bool },
    DeleteInstance { schema_id: String, view_id: String, log: bool },
}

/// What is sent to the store: a command with its fields normalized.
#[derive(Clone, Debug, PartialEq, Eq)]
pub enum Request {
    CreateSchema { name: String, description: String, fields: Vec<FieldPair> },
    CreateInstance { schema_id: String, fields: Vec<FieldPair> },
    UpdateInstance { schema_id: String, view_id: String, fields: Vec<FieldPair> },
    DeleteInstance { schema_id: String, view_id: String },
}

/// The mathematical content of a `Request`.
pub enum RequestView {
    CreateSchema { name: Seq<char>, description: Seq<char>, fields: Seq<(Seq<char>, Seq<char>)> },
    CreateInstance { schema_id: Seq<char>, fields: Seq<(Seq<char>, Seq<char>)> },
    UpdateInstance {
        schema_id: Seq<char>,
        view_id: Seq<char>,
        fields: Seq<(Seq<char>, Seq<char>)>,
    },
    DeleteInstance { schema_id: Seq<char>, view_id: Seq<char> },
}

impl View for Request {
    type V = RequestView;

    open spec fn view(&self) -> RequestView {
        match *self {
            Request::CreateSchema { name, description, fields } => RequestView::CreateSchema {
                name: name@,
                description: description@,
                fields: fields.deep_view(),
            },
            Request::CreateInstance { schema_id, fields } => RequestView::CreateInstance {
                schema_id: schema_id@,
                fields: fields.deep_view(),
            },
            Request::UpdateInstance { schema_id, view_id, fields } => RequestView::UpdateInstance {
                schema_id: schema_id@,
                view_id: view_id@,
                fields: fields.deep_view(),
            },
            Request::DeleteInstance { schema_id, view_id } => RequestView::DeleteInstance {
                schema_id: schema_id@,
                view_id: view_id@,
            },
        }
    }
}

/// The arguments that must not be empty.
#[derive(Clone, Copy, Debug, PartialEq, Eq, Structural)]
pub enum Argument {
    Name,
    SchemaId,
    ViewId,
}

/// A required argument was given no value.
#[derive(Clone, Copy, Debug, PartialEq, Eq, Structural)]
pub struct UsageError {
    pub missing: Argument,
}

/// Why an invocation ends without a result.
#[derive(Clone, Debug, PartialEq, Eq)]
pub enum CliError {
    /// A required argument is missing.
    Usage(UsageError),
    /// A raw field does not have the shape `key:value`.
    FieldShape(FieldShapeError),
    /// The store refused the request, or could not be reached. The text is its own.
    Operator(String),
}

/// What to do for a command: what to show first, if anything, and what to send.
#[derive(Clone, Debug, PartialEq, Eq)]
pub struct Plan {
    pub preview: Option<String>,
    pub request: Request,
}

/// How an invocation ends: what goes to the two output streams, and the exit code.
#[derive(Clone, Debug, PartialEq, Eq)]
pub struct Outcome {
    pub stdout: String,
    pub stderr: String,
    pub code: u8,
}

/// The raw fields that a command carries; a deletion carries none.
pub open spec fn raw_fields(command: Command) -> Seq<Seq<char>> {
    match command {
        Command::CreateSchema { fields, .. } => fields.deep_view(),
        Command::CreateInstance { fields, .. } => fields.deep_view(),
        Command::UpdateInstance { fields, .. } => fields.deep_view(),
        Command::DeleteInstance { .. } => Seq::empty(),
    }
}

/// Whether the command asks to be shown before it is sent.
pub open spec fn wants_preview(command: Command) -> bool {
    match command {
        Command::CreateSchema { log, .. } => log,
        Command::CreateInstance { log, .. } => log,
        Command::UpdateInstance { log, .. } => log,
        Command::DeleteInstance { log, .. } => log,
    }
}

/// The first required argument of the command that is empty, if there is one.
pub open spec fn missing_argument(command: Command) -> Option<Argument> {
    match command {
        Command::CreateSchema { name, .. } => if name@.len() == 0 {
            Some(Argument::Name)
        } else {
            None
        },
        Command::CreateInstance { schema_id, .. } => if schema_id@.len() == 0 {
            Some(Argument::SchemaId)
        } else {
            None
        },
        Command::UpdateInstance { schema_id, view_id, .. } => if schema_id@.len() == 0 {
            Some(Argument::SchemaId)
        } else if view_id@.len() == 0 {
            Some(Argument::ViewId)
        } else {
            None
        },
        Command::DeleteInstance { schema_id, view_id, .. } => if schema_id@.len() == 0 {
            Some(Argument::SchemaId)
        } else if view_id@.len() == 0 {
            Some(Argument::ViewId)
        } else {
            None
        },
    }
}

/// The request that a command stands for: the same names and ids, and the
/// fields normalized, in their order.
pub open spec fn request_of(command: Command) -> RequestView {
    match command {
        Command::CreateSchema { name, description, fields, .. } => RequestView::CreateSchema {
            name: name@,
            description: description@,
            fields: normalized(fields.deep_view()),
        },
        Command::CreateInstance { schema_id, fields, .. } => RequestView::CreateInstance {
            schema_id: schema_id@,
            fields: normalized(fields.deep_view()),
        },
        Command::UpdateInstance { schema_id, view_id, fields, .. } => RequestView::UpdateInstance {
            schema_id: schema_id@,
            view_id: view_id@,
            fields: normalized(fields.deep_view()),
        },
        Command::DeleteInstance { schema_id, view_id, .. } => RequestView::DeleteInstance {
            schema_id: schema_id@,
            view_id: view_id@,
        },
    }
}

/// What is shown before the request is sent.
pub open spec fn preview_text(request: RequestView, color: bool) -> Seq<char> {
    match request {
        RequestView::CreateSchema { name, description, fields } => create_schema_text(
            name,
            description,
            fields,
            color,
        ),
        RequestView::CreateInstance { schema_id, fields } => create_instance_text(
            schema_id,
            fields,
            color,
        ),
        RequestView::UpdateInstance { schema_id, view_id, fields } => update_instance_text(
            schema_id,
            view_id,
            fields,
            color,
        ),
        RequestView::DeleteInstance { schema_id, view_id } => delete_instance_text(
            schema_id,
            view_id,
            color,
        ),
    }
}

/// Whether the command can be sent: no required argument is empty and every
/// raw field is well shaped.
pub open spec fn acceptable(command: Command) -> bool {
    missing_argument(command) is None && all_well_shaped(raw_fields(command))
}

/// Whether the plan is the one for the command: it sends the request that
/// the command stands for, and shows that same request first where the
/// command asks for it, and nothing where it does not.
pub open spec fn carries_out(plan: Plan, command: Command, color: bool) -> bool {
    &&& plan.request@ == request_of(command)
    &&& plan.preview_view() == if wants_preview(command) {
        Some(preview_text(plan.request@, color))
    } else {
        None
    }
}

/// Whether the error is the one that the command is rejected with: the first
/// required argument that is empty or, where none is, the first ill-shaped
/// raw field. No command is rejected in the name of the store.
pub open spec fn rejects(error: CliError, command: Command) -> bool {
    match error {
        CliError::Usage(usage) => missing_argument(command) == Some(usage.missing),
        CliError::FieldShape(shape) => {
            &&& missing_argument(command) is None
            &&& reports_first_fault(raw_fields(command), shape)
        },
        CliError::Operator(_) => false,
    }
}

/// The flag by which an argument is given.
pub open spec fn argument_flag(argument: Argument) -> Seq<char> {
    match argument {
        Argument::Name => "--name"@,
        Argument::SchemaId => "--schema-id"@,
        Argument::ViewId => "--view-id"@,
    }
}

/// The first line of the message about an ill-shaped field.
pub open spec fn fault_headline(fault: FieldFault) -> Seq<char> {
    match fault {
        FieldFault::MissingDelimiter => "Missing delimiter ':' in field"@,
        FieldFault::EmptyKey => "Empty key in field"@,
        FieldFault::EmptyValue => "Empty value in field"@,
    }
}

/// The message about an ill-shaped field: what is wrong, the shape that was
/// expected, and the field as it was given, between double quotes.
pub open spec fn shape_message(fault: FieldFault, raw: Seq<char>) -> Seq<char> {
    fault_headline(fault) + "\nExpected field shape `a:b`. Got: \""@ + raw + "\""@
}

/// The message about a required argument that is missing.
pub open spec fn usage_message(argument: Argument) -> Seq<char> {
    "Missing value for required argument "@ + argument_flag(argument)
}

/// The message of an error. That of the store is passed on as it came.
pub open spec fn error_message(error: CliError) -> Seq<char> {
    match error {
        CliError::Usage(usage) => usage_message(usage.missing),
        CliError::FieldShape(shape) => shape_message(shape.fault, shape.raw@),
        CliError::Operator(text) => text@,
    }
}

/// The exit code of a failed invocation. It is never zero.
pub open spec fn error_code(error: CliError) -> u8 {
    match error {
        CliError::Usage(_) => 2,
        CliError::FieldShape(_) => 1,
        CliError::Operator(_) => 1,
    }
}

/// What a failed invocation writes to the error stream.
pub open spec fn failure_text(error: CliError) -> Seq<char> {
    "Error: "@ + error_message(error) + "\n"@
}

/// What a successful invocation writes to the output stream.
pub open spec fn success_text(id: Seq<char>, color: bool) -> Seq<char> {
    "ID: "@ + styled(Tint::Cyan, id, color) + "\n"@
}

impl Request {
    /// Renders what is shown before the request is sent.
    pub fn render(&self, color: bool) -> (r: String)
        ensures
            r@ == preview_text(self@, color),
    {
        match self {
            Request::CreateSchema { name, description, fields } => render_create_schema(
                name.as_str(),
                description.as_str(),
                fields.as_slice(),
                color,
            ),
            Request::CreateInstance { schema_id, fields } => render_create_instance(
                schema_id.as_str(),
                fields.as_slice(),
                color,
            ),
            Request::UpdateInstance { schema_id, view_id, fields } => render_update_instance(
                schema_id.as_str(),
                view_id.as_str(),
                fields.as_slice(),
                color,
            ),
            Request::DeleteInstance { schema_id, view_id } => render_delete_instance(
                schema_id.as_str(),
                view_id.as_str(),
                color,
            ),
        }
    }
}

impl Plan {
    /// The text of the preview, where there is one.
    pub open spec fn preview_view(&self) -> Option<Seq<char>> {
        match self.preview {
            Some(text) => Some(text@),
            None => None,
        }
    }
}

impl Argument {
    /// The flag by which the argument is given.
    pub fn flag(&self) -> (r: &'static str)
        ensures
            r@ == argument_flag(*self),
    {
        match self {
            Argument::Name => "--name",
            Argument::SchemaId => "--schema-id",
            Argument::ViewId => "--view-id",
        }
    }
}

impl FieldShapeError {
    /// Says what is wrong with the field, which shape was expected, and what
    /// was given.
    pub fn message(&self) -> (r: String)
        ensures
            r@ == shape_message(self.fault, self.raw@),
    {
        let mut out = match self.fault {
            FieldFault::MissingDelimiter => "Missing delimiter ':' in field".to_owned(),
            FieldFault::EmptyKey => "Empty key in field".to_owned(),
            FieldFault::EmptyValue => "Empty value in field".to_owned(),
        };
        out.append("\nExpected field shape `a:b`. Got: \"");
        out.append(self.raw.as_str());
        out.append("\"");
        out
    }
}

impl UsageError {
    /// Names the argument that is missing.
    pub fn message(&self) -> (r: String)
        ensures
            r@ == usage_message(self.missing),
    {
        let mut out = "Missing value for required argument ".to_owned();
        out.append(self.missing.flag());
        out
    }
}

impl CliError {
    /// The message of the error. That of the store is passed on as it came.
    pub fn message(&self) -> (r: String)
        ensures
            r@ == error_message(*self),
    {
        match self {
            CliError::Usage(usage) => usage.message(),
            CliError::FieldShape(shape) => shape.message(),
            CliError::Operator(text) => text.clone(),
        }
    }

    /// The exit code of an invocation that ends with this error.
    pub fn exit_code(&self) -> (r: u8)
        ensures
            r == error_code(*self),
            r != 0,
    {
        match self {
            CliError::Usage(_) => 2,
            CliError::FieldShape(_) => 1,
            CliError::Operator(_) => 1,
        }
    }
}

fn first_empty(schema_id: &String, view_id: &String) -> (r: Option<Argument>)
    ensures
        r == if schema_id@.len() == 0 {
            Some(Argument::SchemaId)
        } else if view_id@.len() == 0 {
            Some(Argument::ViewId)
        } else {
            None::<Argument>
        },
{
    if schema_id.as_str().is_empty() {
        Some(Argument::SchemaId)
    } else if view_id.as_str().is_empty() {
        Some(Argument::ViewId)
    } else {
        None
    }
}

impl Command {
    /// The first required argument of the command that is empty, if there is one.
    pub fn missing(&self) -> (r: Option<Argument>)
        ensures
            r == missing_argument(*self),
    {
        match self {
            Command::CreateSchema { name, .. } => if name.as_str().is_empty() {
                Some(Argument::Name)
            } else {
                None
            },
            Command::CreateInstance { schema_id, .. } => if schema_id.as_str().is_empty() {
                Some(Argument::SchemaId)
            } else {
                None
            },
            Command::UpdateInstance { schema_id, view_id, .. } => first_empty(schema_id, view_id),
            Command::DeleteInstance { schema_id, view_id, .. } => first_empty(schema_id, view_id),
        }
    }

    /// Whether the command asks to be shown before it is sent.
    pub fn previewed(&self) -> (r: bool)
        ensures
            r == wants_preview(*self),
    {
        match self {
            Command::CreateSchema { log, .. } => *log,
            Command::CreateInstance { log, .. } => *log,
            Command::UpdateInstance { log, .. } => *log,
            Command::DeleteInstance { log, .. } => *log,
        }
    }
}

/// Decides what to do for a command. A required argument that is empty
/// rejects the command before its fields are looked at; an ill-shaped field
/// rejects it before anything is sent. Otherwise the plan holds the request
/// with the fields normalized and, where the command asks for it, the text
/// that shows exactly this request.
pub fn plan(command: &Command, color: bool) -> (r: Result<Plan, CliError>)
    ensures
        r is Ok <==> acceptable(*command),
        r matches Ok(plan) ==> carries_out(plan, *command, color),
        r matches Err(error) ==> rejects(error, *command),
{
    if let Some(missing) = command.missing() {
        return Err(CliError::Usage(UsageError { missing }));
    }
    let request = match command {
        Command::CreateSchema { name, description, fields, .. } => {
            match normalize_fields(fields.as_slice()) {
                Ok(pairs) => Request::CreateSchema {
                    name: name.clone(),
                    description: description.clone(),
                    fields: pairs,
                },
                Err(shape) => {
                    return Err(CliError::FieldShape(shape));
                },
            }
        },
        Command::CreateInstance { schema_id, fields, .. } => {
            match normalize_fields(fields.as_slice()) {
                Ok(pairs) => Request::CreateInstance {
                    schema_id: schema_id.clone(),
                    fields: pairs,
                },
                Err(shape) => {
                    return Err(CliError::FieldShape(shape));
                },
            }
        },
        Command::UpdateInstance { schema_id, view_id, fields, .. } => {
            match normalize_fields(fields.as_slice()) {
                Ok(pairs) => Request::UpdateInstance {
                    schema_id: schema_id.clone(),
                    view_id: view_id.clone(),
                    fields: pairs,
                },
                Err(shape) => {
                    return Err(CliError::FieldShape(shape));
                },
            }
        },
        Command::DeleteInstance { schema_id, view_id, .. } => Request::DeleteInstance {
            schema_id: schema_id.clone(),
            view_id: view_id.clone(),
        },
    };
    let preview = if command.previewed() {
        Some(request.render(color))
    } else {
        None
    };
    Ok(Plan { preview, request })
}

/// Decides what to do for what was typed. Where no command was given there
/// is nothing to do, and that is no error.
pub fn dispatch(command: Option<&Command>, color: bool) -> (r: Result<Option<Plan>, CliError>)
    ensures
        command is None ==> r == Ok::<Option<Plan>, CliError>(None),
        command matches Some(given) ==> {
            &&& r is Ok <==> acceptable(*given)
            &&& r matches Ok(planned) ==> planned matches Some(plan) && carries_out(
                plan,
                *given,
                color,
            )
            &&& r matches Err(error) ==> rejects(error, *given)
        },
{
    match command {
        None => Ok(None),
        Some(command) => match plan(command, color) {
            Ok(plan) => Ok(Some(plan)),
            Err(error) => Err(error),
        },
    }
}

/// How an invocation ends that failed with `error`: nothing on the output
/// stream, the message on the error stream, and an exit code that is not zero.
pub fn failure(error: &CliError) -> (r: Outcome)
    ensures
        r.stdout@.len() == 0,
        r.stderr@ == failure_text(*error),
        r.code == error_code(*error),
        r.code != 0,
{
    let mut stderr = "Error: ".to_owned();
    let message = error.message();
    stderr.append(message.as_str());
    stderr.append("\n");
    Outcome { stdout: String::new(), stderr, code: error.exit_code() }
}

/// How an invocation ends once the store has answered. An identifier is
/// shown as it came, and only where the store gave one; a failure of the
/// store is shown with its own text and ends the invocation with an exit
/// code that is not zero.
pub fn conclude(reply: Result<String, String>, color: bool) -> (r: Outcome)
    ensures
        match reply {
            Ok(id) => {
                &&& r.stdout@ == success_text(id@, color)
                &&& r.stderr@.len() == 0
                &&& r.code == 0
            },
            Err(text) => {
                &&& r.stdout@.len() == 0
                &&& r.stderr@ == failure_text(CliError::Operator(text))
                &&& r.code != 0
            },
        },
{
    match reply {
        Ok(id) => {
            let mut stdout = "ID: ".to_owned();
            let shown = paint(Tint::Cyan, id.as_str(), color);
            stdout.append(shown.as_str());
            stdout.append("\n");
            Outcome { stdout, stderr: String::new(), code: 0 }
        },
        Err(text) => failure(&CliError::Operator(text)),
    }
}

} // verus!

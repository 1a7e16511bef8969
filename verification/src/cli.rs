//! The command line: which command the arguments ask for, whether the
//! configuration allows it, and what carrying it out prints.

use vstd::prelude::*;
use crate::config::{listed_resources_are_found, lookup, names_of, Config, ConfigView};
use crate::http::{Request, Response};
use crate::sdk::{
    creates, deletes, reads, text_view, updates, DirectusSdk, DirectusSdkView, SdkError,
};
use crate::text::same_text;

verus! {

/// Why a command line was turned down, or failed when carried out.
#[derive(Clone, Debug, PartialEq, Eq)]
pub enum CliError {
    /// No argument was given.
    NoCommand,
    /// `auth` was asked for, which does not exist yet.
    AuthUnimplemented,
    /// `inspect` was given no resource.
    InspectWithoutResource,
    /// `inspect` was given a resource that is not configured.
    UnknownResource,
    /// The first argument is no command.
    UnknownCommand,
    /// An operation was given no resource.
    NoResource,
    /// More than four arguments were given.
    TooManyArgs,
    /// The resource of an operation is not configured.
    ResourceUnavailable,
    /// The resource does not allow the operation.
    OperationUnavailable,
    /// `create` was given no data.
    CreateWithoutData,
    /// `update` was given no id.
    UpdateWithoutId,
    /// `update` was given no data.
    UpdateWithoutData,
    /// `delete` was given no id.
    DeleteWithoutId,
    /// The client failed.
    Sdk(SdkError),
}

/// What a valid command line asks for.
#[derive(Clone, Debug, PartialEq, Eq)]
#[allow(inconsistent_fields)]
pub enum Command {
    /// Print these lines; the server is not needed.
    Print(Vec<String>),
    Create { resource: String, data: String },
    Read { resource: String, id: Option<String>, is_sync: bool },
    Update { resource: String, id: String, data: String },
    Delete { resource: String, id: String },
}

/// The mathematical content of a [`Command`].
#[allow(inconsistent_fields)]
pub enum CommandView {
    Print(Seq<Seq<char>>),
    Create { resource: Seq<char>, data: Seq<char> },
    Read { resource: Seq<char>, id: Option<Seq<char>>, is_sync: bool },
    Update { resource: Seq<char>, id: Seq<char>, data: Seq<char> },
    Delete { resource: Seq<char>, id: Seq<char> },
}

impl View for Command {
    type V = CommandView;

    open spec fn view(&self) -> CommandView {
        match *self {
            Command::Print(lines) => CommandView::Print(lines.deep_view()),
            Command::Create { resource, data } => CommandView::Create {
                resource: resource@,
                data: data@,
            },
            Command::Read { resource, id, is_sync } => CommandView::Read {
                resource: resource@,
                id: id.deep_view(),
                is_sync,
            },
            Command::Update { resource, id, data } => CommandView::Update {
                resource: resource@,
                id: id@,
                data: data@,
            },
            Command::Delete { resource, id } => CommandView::Delete {
                resource: resource@,
                id: id@,
            },
        }
    }
}

/// Whether `word` names one of the four operations on a resource.
pub open spec fn is_operation(word: Seq<char>) -> bool {
    word == "create"@ || word == "read"@ || word == "update"@ || word == "delete"@
}

/// The operation `args[0]` on the resource `args[1]`, with the arguments
/// that follow: for `create` the data; for `read` the id, if any; for
/// `update` the id and then the data; for `delete` the id.
pub open spec fn operation_of(args: Seq<Seq<char>>) -> Result<CommandView, CliError>
    recommends
        args.len() >= 2,
        is_operation(args[0]),
{
    let resource = args[1];
    if args[0] == "create"@ {
        if args.len() < 3 {
            Err(CliError::CreateWithoutData)
        } else {
            Ok(CommandView::Create { resource, data: args[2] })
        }
    } else if args[0] == "read"@ {
        Ok(
            CommandView::Read {
                resource,
                id: if args.len() < 3 {
                    None
                } else {
                    Some(args[2])
                },
                is_sync: false,
            },
        )
    } else if args[0] == "update"@ {
        if args.len() < 3 {
            Err(CliError::UpdateWithoutId)
        } else if args.len() < 4 {
            Err(CliError::UpdateWithoutData)
        } else {
            Ok(CommandView::Update { resource, id: args[2], data: args[3] })
        }
    } else {
        if args.len() < 3 {
            Err(CliError::DeleteWithoutId)
        } else {
            Ok(CommandView::Delete { resource, id: args[2] })
        }
    }
}

/// What the arguments `args`, the program's name not among them, ask for
/// under `config`, or why they are turned down. The tests are made in this
/// order, and the first that fails decides.
pub open spec fn command_of(config: ConfigView, args: Seq<Seq<char>>) -> Result<
    CommandView,
    CliError,
> {
    if args.len() == 0 {
        Err(CliError::NoCommand)
    } else if args[0] == "auth"@ {
        Err(CliError::AuthUnimplemented)
    } else if args[0] == "ls"@ {
        Ok(CommandView::Print(names_of(config.resources)))
    } else if args[0] == "inspect"@ {
        if args.len() < 2 {
            Err(CliError::InspectWithoutResource)
        } else {
            match lookup(config.resources, args[1]) {
                None => Err(CliError::UnknownResource),
                Some(resource) => Ok(CommandView::Print(seq![resource.definition])),
            }
        }
    } else if args[0] == "sync"@ {
        Ok(
            CommandView::Read {
                resource: config.config_sync_resource_name,
                id: Some(config.app_name),
                is_sync: true,
            },
        )
    } else if !is_operation(args[0]) {
        Err(CliError::UnknownCommand)
    } else if args.len() < 2 {
        Err(CliError::NoResource)
    } else if args.len() > 4 {
        Err(CliError::TooManyArgs)
    } else {
        match lookup(config.resources, args[1]) {
            None => Err(CliError::ResourceUnavailable),
            Some(resource) => if !resource.ops.contains(args[0]) {
                Err(CliError::OperationUnavailable)
            } else {
                operation_of(args)
            },
        }
    }
}

/// A result of validation, by the content of the command.
pub open spec fn command_view(r: Result<Command, CliError>) -> Result<CommandView, CliError> {
    match r {
        Ok(command) => Ok(command@),
        Err(e) => Err(e),
    }
}

/// The operation `args[0]` on the resource `args[1]`.
fn operation(args: &Vec<String>) -> (r: Result<Command, CliError>)
    requires
        args.len() >= 2,
        is_operation(args[0]@),
    ensures
        command_view(r) == operation_of(args.deep_view()),
{
    let resource = args[1].clone();
    if same_text(args[0].as_str(), "create") {
        if args.len() < 3 {
            Err(CliError::CreateWithoutData)
        } else {
            Ok(Command::Create { resource, data: args[2].clone() })
        }
    } else if same_text(args[0].as_str(), "read") {
        let id = if args.len() < 3 {
            None
        } else {
            Some(args[2].clone())
        };
        Ok(Command::Read { resource, id, is_sync: false })
    } else if same_text(args[0].as_str(), "update") {
        if args.len() < 3 {
            Err(CliError::UpdateWithoutId)
        } else if args.len() < 4 {
            Err(CliError::UpdateWithoutData)
        } else {
            Ok(Command::Update { resource, id: args[2].clone(), data: args[3].clone() })
        }
    } else {
        if args.len() < 3 {
            Err(CliError::DeleteWithoutId)
        } else {
            Ok(Command::Delete { resource, id: args[2].clone() })
        }
    }
}

/// Whether `word` names one of the four operations on a resource.
fn names_operation(word: &str) -> (r: bool)
    ensures
        r == is_operation(word@),
{
    same_text(word, "create") || same_text(word, "read") || same_text(word, "update")
        || same_text(word, "delete")
}

/// Validates the arguments `args`, the program's name not among them,
/// against `config`: the command they ask for, or why they are turned down.
pub fn validate(config: &Config, args: &Vec<String>) -> (r: Result<Command, CliError>)
    ensures
        command_view(r) == command_of(config@, args.deep_view()),
{
    if args.len() == 0 {
        return Err(CliError::NoCommand);
    }
    let word = args[0].as_str();
    if same_text(word, "auth") {
        Err(CliError::AuthUnimplemented)
    } else if same_text(word, "ls") {
        Ok(Command::Print(config.resource_names()))
    } else if same_text(word, "inspect") {
        if args.len() < 2 {
            Err(CliError::InspectWithoutResource)
        } else {
            match config.resource(args[1].as_str()) {
                None => Err(CliError::UnknownResource),
                Some(resource) => {
                    let mut lines: Vec<String> = Vec::new();
                    lines.push(resource.definition.clone());
                    assert(lines.deep_view() =~= seq![resource@.definition]);
                    Ok(Command::Print(lines))
                },
            }
        }
    } else if same_text(word, "sync") {
        Ok(
            Command::Read {
                resource: config.config_sync_resource_name.clone(),
                id: Some(config.app_name.clone()),
                is_sync: true,
            },
        )
    } else if !names_operation(word) {
        Err(CliError::UnknownCommand)
    } else if args.len() < 2 {
        Err(CliError::NoResource)
    } else if args.len() > 4 {
        Err(CliError::TooManyArgs)
    } else {
        match config.resource(args[1].as_str()) {
            None => Err(CliError::ResourceUnavailable),
            Some(resource) => {
                if !resource.allows(word) {
                    Err(CliError::OperationUnavailable)
                } else {
                    operation(args)
                }
            },
        }
    }
}

/// The result of an operation that `r` prints as its single line.
pub open spec fn only_line(r: Result<Seq<Seq<char>>, SdkError>) -> Result<Seq<char>, SdkError> {
    match r {
        Ok(lines) => Ok(lines[0]),
        Err(e) => Err(e),
    }
}

/// That `r`, where it succeeded, prints exactly one line.
pub open spec fn prints_one_line(r: Result<Seq<Seq<char>>, SdkError>) -> bool {
    r matches Ok(lines) ==> lines.len() == 1
}

/// That carrying out `command` through `send` may print `r`, or fail with
/// it. What needs no server prints its lines; an operation prints the one
/// line that the client returns for it.
pub open spec fn dispatches<F: FnOnce(Request) -> Result<Response, String>>(
    sdk: DirectusSdkView,
    command: CommandView,
    send: F,
    r: Result<Seq<Seq<char>>, SdkError>,
) -> bool {
    match command {
        CommandView::Print(lines) => r == Ok::<Seq<Seq<char>>, SdkError>(lines),
        CommandView::Create { resource, data } => prints_one_line(r) && creates(
            sdk,
            resource,
            data,
            send,
            only_line(r),
        ),
        CommandView::Read { resource, id, is_sync } => prints_one_line(r) && reads(
            sdk,
            resource,
            id,
            None,
            is_sync,
            send,
            only_line(r),
        ),
        CommandView::Update { resource, id, data } => prints_one_line(r) && updates(
            sdk,
            resource,
            id,
            data,
            send,
            only_line(r),
        ),
        CommandView::Delete { resource, id } => prints_one_line(r) && deletes(
            sdk,
            resource,
            id,
            send,
            only_line(r),
        ),
    }
}

/// That running the arguments `args` under `config` through `send` may end
/// in `r`: a command line that is turned down ends in its error, with nothing
/// sent; a valid one ends as carrying out its command does, a failure of the
/// client coming back as [`CliError::Sdk`].
pub open spec fn runs<F: FnOnce(Request) -> Result<Response, String>>(
    config: ConfigView,
    sdk: DirectusSdkView,
    args: Seq<Seq<char>>,
    send: F,
    r: Result<Seq<Seq<char>>, CliError>,
) -> bool {
    match command_of(config, args) {
        Err(e) => r == Err::<Seq<Seq<char>>, CliError>(e),
        Ok(command) => match r {
            Ok(lines) => dispatches(sdk, command, send, Ok(lines)),
            Err(CliError::Sdk(e)) => dispatches(sdk, command, send, Err(e)),
            Err(_) => false,
        },
    }
}

/// The lines of a result, by their characters.
pub open spec fn lines_view<E>(r: Result<Vec<String>, E>) -> Result<Seq<Seq<char>>, E> {
    match r {
        Ok(lines) => Ok(lines.deep_view()),
        Err(e) => Err(e),
    }
}

/// The single line that an operation's result prints.
fn printed(out: Result<String, SdkError>) -> (r: Result<Vec<String>, SdkError>)
    ensures
        prints_one_line(lines_view(r)),
        only_line(lines_view(r)) == text_view(out),
{
    match out {
        Ok(text) => {
            let mut lines: Vec<String> = Vec::new();
            lines.push(text);
            assert(lines.deep_view()[0] == text@);
            Ok(lines)
        },
        Err(e) => Err(e),
    }
}

/// Carries out `command` with the client `sdk`, sending through `send`
/// where the command needs the server, and returns the lines to print.
pub fn dispatch<F: FnOnce(Request) -> Result<Response, String>>(
    sdk: &DirectusSdk,
    command: Command,
    send: F,
) -> (r: Result<Vec<String>, SdkError>)
    requires
        forall|q: Request| call_requires(send, (q,)),
    ensures
        dispatches(sdk@, command@, send, lines_view(r)),
{
    match command {
        Command::Print(lines) => Ok(lines),
        Command::Create { resource, data } => {
            let out = sdk.create(&resource, &data, send);
            printed(out)
        },
        Command::Read { resource, id, is_sync } => {
            let out = sdk.read(&resource, id.as_ref(), None, is_sync, send);
            printed(out)
        },
        Command::Update { resource, id, data } => {
            let out = sdk.update(&resource, &id, &data, send);
            printed(out)
        },
        Command::Delete { resource, id } => {
            let out = sdk.delete(&resource, &id, send);
            printed(out)
        },
    }
}

/// Runs one command line: validates `args` against `config` and carries the
/// command out with `sdk`. At most one request is sent, and none for a
/// command line that is turned down.
pub fn run<F: FnOnce(Request) -> Result<Response, String>>(
    config: &Config,
    sdk: &DirectusSdk,
    args: &Vec<String>,
    send: F,
) -> (r: Result<Vec<String>, CliError>)
    requires
        forall|q: Request| call_requires(send, (q,)),
    ensures
        runs(config@, sdk@, args.deep_view(), send, lines_view(r)),
{
    match validate(config, args) {
        Err(e) => Err(e),
        Ok(command) => {
            let out = dispatch(sdk, command, send);
            match out {
                Ok(lines) => Ok(lines),
                Err(e) => Err(CliError::Sdk(e)),
            }
        },
    }
}

/// The status with which the process ends: 0 after success, 1 after any
/// failure.
pub fn exit_status(outcome: &Result<Vec<String>, CliError>) -> (code: u8)
    ensures
        outcome is Ok ==> code == 0,
        outcome is Err ==> code == 1,
{
    match outcome {
        Ok(_) => 0,
        Err(_) => 1,
    }
}

impl CliError {
    /// The line that reports this error.
    pub open spec fn message_text(self) -> Seq<char> {
        match self {
            CliError::NoCommand => "error: <operation> positional arg required"@,
            CliError::AuthUnimplemented => "auth command not implemented yet"@,
            CliError::InspectWithoutResource =>
                "error: resource name required for inspect command"@,
            CliError::UnknownResource => "error: unknown resource"@,
            CliError::UnknownCommand => "error: unknown command"@,
            CliError::NoResource =>
                "error: <operation> and <resource> positional args required"@,
            CliError::TooManyArgs => "error: too many args"@,
            CliError::ResourceUnavailable => "error: resource not available"@,
            CliError::OperationUnavailable =>
                "error: operation not available for that resource"@,
            CliError::CreateWithoutData => "error: data required for create operation"@,
            CliError::UpdateWithoutId => "error: id required for update operation"@,
            CliError::UpdateWithoutData => "error: data required for update operation"@,
            CliError::DeleteWithoutId => "error: id required for delete operation"@,
            CliError::Sdk(e) => e.message_text(),
        }
    }

    /// The line that reports this error.
    pub fn message(&self) -> (r: String)
        ensures
            r@ == self.message_text(),
    {
        match self {
            CliError::NoCommand => "error: <operation> positional arg required".to_owned(),
            CliError::AuthUnimplemented => "auth command not implemented yet".to_owned(),
            CliError::InspectWithoutResource =>
                "error: resource name required for inspect command".to_owned(),
            CliError::UnknownResource => "error: unknown resource".to_owned(),
            CliError::UnknownCommand => "error: unknown command".to_owned(),
            CliError::NoResource =>
                "error: <operation> and <resource> positional args required".to_owned(),
            CliError::TooManyArgs => "error: too many args".to_owned(),
            CliError::ResourceUnavailable => "error: resource not available".to_owned(),
            CliError::OperationUnavailable =>
                "error: operation not available for that resource".to_owned(),
            CliError::CreateWithoutData => "error: data required for create operation".to_owned(),
            CliError::UpdateWithoutId => "error: id required for update operation".to_owned(),
            CliError::UpdateWithoutData => "error: data required for update operation".to_owned(),
            CliError::DeleteWithoutId => "error: id required for delete operation".to_owned(),
            CliError::Sdk(e) => e.message(),
        }
    }
}

/// No operation shares its name with `auth`, `ls`, `inspect` or `sync`.
proof fn operations_are_not_commands(word: Seq<char>)
    requires
        is_operation(word),
    ensures
        word != "auth"@,
        word != "ls"@,
        word != "inspect"@,
        word != "sync"@,
{
    reveal_strlit("create");
    reveal_strlit("read");
    reveal_strlit("update");
    reveal_strlit("delete");
    reveal_strlit("auth");
    reveal_strlit("ls");
    reveal_strlit("inspect");
    reveal_strlit("sync");
    assert("create"@.len() == 6 && "update"@.len() == 6 && "delete"@.len() == 6);
    assert("read"@.len() == 4 && "read"@[0] == 'r');
    assert("auth"@.len() == 4 && "auth"@[0] == 'a');
    assert("sync"@.len() == 4 && "sync"@[0] == 's');
    assert("ls"@.len() == 2);
    assert("inspect"@.len() == 7);
}

/// `ls` lists the configured resources by name, whatever else is on the
/// command line.
pub proof fn ls_lists_the_resources(config: ConfigView, args: Seq<Seq<char>>)
    requires
        args.len() >= 1,
        args[0] == "ls"@,
    ensures
        command_of(config, args) == Ok::<CommandView, CliError>(
            CommandView::Print(names_of(config.resources)),
        ),
{
    reveal_strlit("ls");
    reveal_strlit("auth");
    assert("ls"@.len() == 2 && "auth"@.len() == 4);
}

/// Each resource that `ls` lists can be inspected.
pub proof fn listed_resources_can_be_inspected(config: ConfigView, i: int)
    requires
        0 <= i < config.resources.len(),
    ensures
        command_of(config, seq!["inspect"@, names_of(config.resources)[i]]) is Ok,
{
    reveal_strlit("inspect");
    reveal_strlit("auth");
    reveal_strlit("ls");
    assert("inspect"@.len() == 7 && "auth"@.len() == 4 && "ls"@.len() == 2);
    listed_resources_are_found(config.resources, i);
}

/// An operation on a resource that is not configured is turned down.
pub proof fn unconfigured_resource_is_turned_down(config: ConfigView, args: Seq<Seq<char>>)
    requires
        2 <= args.len() <= 4,
        is_operation(args[0]),
        lookup(config.resources, args[1]) is None,
    ensures
        command_of(config, args) == Err::<CommandView, CliError>(CliError::ResourceUnavailable),
{
    operations_are_not_commands(args[0]);
}

/// An operation that its resource does not allow is turned down.
pub proof fn disallowed_operation_is_turned_down(config: ConfigView, args: Seq<Seq<char>>)
    requires
        2 <= args.len() <= 4,
        is_operation(args[0]),
        lookup(config.resources, args[1]) matches Some(resource) && !resource.ops.contains(
            args[0],
        ),
    ensures
        command_of(config, args) == Err::<CommandView, CliError>(CliError::OperationUnavailable),
{
    operations_are_not_commands(args[0]);
}

/// `create` with a resource and nothing more is turned down for want of
/// data, where the resource allows the operation.
pub proof fn create_without_data_is_turned_down(config: ConfigView, args: Seq<Seq<char>>)
    requires
        args.len() == 2,
        args[0] == "create"@,
        lookup(config.resources, args[1]) matches Some(resource) && resource.ops.contains(
            args[0],
        ),
    ensures
        command_of(config, args) == Err::<CommandView, CliError>(CliError::CreateWithoutData),
{
    operations_are_not_commands(args[0]);
}

/// Whether `config` has a resource called `name` that allows `op`.
pub open spec fn allows(config: ConfigView, name: Seq<char>, op: Seq<char>) -> bool {
    lookup(config.resources, name) matches Some(resource) && resource.ops.contains(op)
}

/// Whether `config` allows what `command` does to its resource. Printing
/// touches no resource, and the read of a sync is exempt: its resource is the
/// one the configuration names for syncs.
pub open spec fn is_allowed(config: ConfigView, command: CommandView) -> bool {
    match command {
        CommandView::Print(_) => true,
        CommandView::Create { resource, .. } => allows(config, resource, "create"@),
        CommandView::Read { resource, is_sync, .. } => is_sync || allows(
            config,
            resource,
            "read"@,
        ),
        CommandView::Update { resource, .. } => allows(config, resource, "update"@),
        CommandView::Delete { resource, .. } => allows(config, resource, "delete"@),
    }
}

/// An operation passes validation only where the configuration has its
/// resource and the resource allows it.
pub proof fn validated_operations_are_allowed(config: ConfigView, args: Seq<Seq<char>>)
    ensures
        command_of(config, args) matches Ok(command) ==> is_allowed(config, command),
{
    if args.len() > 0 && is_operation(args[0]) {
        operations_are_not_commands(args[0]);
    }
}

/// A command line that is turned down ends in its error whatever the
/// transport would do, and what needs no server prints its lines: in both
/// cases the outcome does not depend on `send`.
pub proof fn offline_outcomes_ignore_the_transport<
    F: FnOnce(Request) -> Result<Response, String>,
>(
    config: ConfigView,
    sdk: DirectusSdkView,
    args: Seq<Seq<char>>,
    send: F,
    r: Result<Seq<Seq<char>>, CliError>,
)
    requires
        runs(config, sdk, args, send, r),
    ensures
        command_of(config, args) matches Err(e) ==> r == Err::<Seq<Seq<char>>, CliError>(e),
        command_of(config, args) matches Ok(CommandView::Print(lines)) ==> r == Ok::<
            Seq<Seq<char>>,
            CliError,
        >(lines),
{
}

} // verus!

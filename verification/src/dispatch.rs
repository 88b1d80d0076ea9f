//! What is done with a message once it has been delivered.

use vstd::prelude::*;
use crate::client::{message_address, request_to, Client, ClientView};
use crate::config::texts;
use crate::message::{Message, MessageView};
use crate::notif::{show, shown, Notification, NotificationView};
use crate::text::{decimal, decimal_string};
use crate::web::{Method, Request, RequestError, RequestView};

verus! {

/// A variable of the environment of a command.
#[derive(Debug, Clone, PartialEq, Eq)]
pub struct Variable {
    pub name: String,
    pub value: String,
}

/// A `Variable` as plain text.
pub struct VariableView {
    pub name: Seq<char>,
    pub value: Seq<char>,
}

impl View for Variable {
    type V = VariableView;

    open spec fn view(&self) -> VariableView {
        VariableView { name: self.name@, value: self.value@ }
    }
}

/// A command to run for a message.
#[derive(Debug, Clone, PartialEq, Eq)]
pub struct Invocation {
    /// The program to run.
    pub program: String,
    /// Its arguments.
    pub args: Vec<String>,
    /// The variables added to its environment.
    pub env: Vec<Variable>,
}

/// An `Invocation` as plain text.
pub struct InvocationView {
    pub program: Seq<char>,
    pub args: Seq<Seq<char>>,
    pub env: Seq<VariableView>,
}

/// The variables of a list, each as plain text.
pub open spec fn variables(env: Seq<Variable>) -> Seq<VariableView> {
    env.map_values(|v: Variable| v@)
}

impl View for Invocation {
    type V = InvocationView;

    open spec fn view(&self) -> InvocationView {
        InvocationView {
            program: self.program@,
            args: texts(self.args@),
            env: variables(self.env@),
        }
    }
}

/// The variables that tell a command about `msg`: its priority in decimal,
/// its title and its text.
pub open spec fn message_env(msg: MessageView) -> Seq<VariableView> {
    seq![
        VariableView { name: "GOTIFY_MSG_PRIORITY"@, value: decimal(msg.priority as int) },
        VariableView { name: "GOTIFY_MSG_TITLE"@, value: msg.title },
        VariableView { name: "GOTIFY_MSG_TEXT"@, value: msg.text },
    ]
}

/// The command `program` with `args`, run for `msg`.
pub open spec fn invoked(msg: MessageView, program: Seq<char>, args: Seq<Seq<char>>) -> InvocationView {
    InvocationView { program, args, env: message_env(msg) }
}

fn copy_words(words: &Vec<String>) -> (copy: Vec<String>)
    ensures
        texts(copy@) == texts(words@),
{
    let mut copy: Vec<String> = Vec::new();
    let mut i: usize = 0;
    while i < words.len()
        invariant
            i <= words.len(),
            copy.len() == i,
            forall|j: int| 0 <= j < i ==> copy@[j]@ == words@[j]@,
        decreases words.len() - i,
    {
        copy.push(words[i].clone());
        i = i + 1;
    }
    assert(texts(copy@) =~= texts(words@));
    copy
}

/// Makes the command to run for `message`: the configured program and
/// arguments, with the message in the environment.
pub fn run_on_msg_command(message: &Message, on_msg_command: &(String, Vec<String>)) -> (made:
    Invocation)
    ensures
        made@ == invoked(message@, on_msg_command.0@, texts(on_msg_command.1@)),
{
    let mut env: Vec<Variable> = Vec::new();
    env.push(
        Variable {
            name: "GOTIFY_MSG_PRIORITY".to_owned(),
            value: decimal_string(message.priority),
        },
    );
    env.push(Variable { name: "GOTIFY_MSG_TITLE".to_owned(), value: message.title.clone() });
    env.push(Variable { name: "GOTIFY_MSG_TEXT".to_owned(), value: message.text.clone() });
    assert(variables(env@) =~= message_env(message@));
    Invocation { program: on_msg_command.0.clone(), args: copy_words(&on_msg_command.1), env }
}

/// What is to be done with one message, in this order: show it, run the
/// command, delete it on the server. Each part is left out when it is
/// `None`.
#[derive(Debug, Clone, PartialEq, Eq)]
pub struct Handling {
    pub show: Option<Notification>,
    pub run: Option<Invocation>,
    pub delete: Option<Request>,
}

/// A `Handling` as plain text.
pub struct HandlingView {
    pub show: Option<NotificationView>,
    pub run: Option<InvocationView>,
    pub delete: Option<RequestView>,
}

impl View for Handling {
    type V = HandlingView;

    open spec fn view(&self) -> HandlingView {
        HandlingView {
            show: match self.show {
                Some(n) => Some(n@),
                None => None,
            },
            run: match self.run {
                Some(i) => Some(i@),
                None => None,
            },
            delete: match self.delete {
                Some(r) => Some(r@),
                None => None,
            },
        }
    }
}

/// What is to be done with `msg`.
///
/// It is shown when its priority is at least `min_priority`. The command
/// is run when there is one. It is deleted on the server when `delete`
/// asks for it; where the request for that cannot be made, nothing is done
/// at all.
pub open spec fn handling(
    msg: MessageView,
    min_priority: i64,
    command: Option<(Seq<char>, Seq<Seq<char>>)>,
    delete: bool,
    client: ClientView,
    fallback: Seq<char>,
) -> Result<HandlingView, RequestError> {
    let show = if msg.priority >= min_priority {
        Some(shown(msg, fallback))
    } else {
        None
    };
    let run = match command {
        Some((program, args)) => Some(invoked(msg, program, args)),
        None => None,
    };
    if delete {
        match request_to(Method::Delete, message_address(client.http_url, msg.id), client.token) {
            Ok(request) => Ok(HandlingView { show, run, delete: Some(request) }),
            Err(e) => Err(e),
        }
    } else {
        Ok(HandlingView { show, run, delete: None })
    }
}

/// The configured command, as plain text.
pub open spec fn command_view(on_msg_command: Option<&(String, Vec<String>)>) -> Option<
    (Seq<char>, Seq<Seq<char>>),
> {
    match on_msg_command {
        Some(command) => Some((command.0@, texts(command.1@))),
        None => None,
    }
}

/// Decides what is to be done with `message`. `fallback` is the icon of a
/// message whose application has no image.
pub fn handle_message(
    message: &Message,
    min_priority: i64,
    on_msg_command: Option<&(String, Vec<String>)>,
    delete: bool,
    client: &Client,
    fallback: &str,
) -> (plan: Result<Handling, RequestError>)
    ensures
        match plan {
            Ok(p) => handling(
                message@,
                min_priority,
                command_view(on_msg_command),
                delete,
                client@,
                fallback@,
            ) == Ok::<_, RequestError>(p@),
            Err(e) => handling(
                message@,
                min_priority,
                command_view(on_msg_command),
                delete,
                client@,
                fallback@,
            ) == Err::<HandlingView, _>(e),
        },
{
    let request = if delete {
        match client.delete_message(message.id) {
            Ok(r) => Some(r),
            Err(e) => {
                return Err(e);
            },
        }
    } else {
        None
    };
    let notification = if message.priority >= min_priority {
        Some(show(message, fallback))
    } else {
        None
    };
    let run = match on_msg_command {
        Some(command) => Some(run_on_msg_command(message, command)),
        None => None,
    };
    Ok(Handling { show: notification, run, delete: request })
}

/// One of the things done with a message.
#[derive(Debug, Clone, Copy, PartialEq, Eq, Structural)]
pub enum Effect {
    Show,
    Run,
    Delete,
}

/// Whether the handling of a message is given up when `effect` fails.
///
/// A notification that cannot be shown and a command that fails are
/// reported and passed over; a message that cannot be deleted ends the
/// handling.
pub fn failure_is_fatal(effect: Effect) -> (fatal: bool)
    ensures
        fatal == (effect == Effect::Delete),
{
    match effect {
        Effect::Show => false,
        Effect::Run => false,
        Effect::Delete => true,
    }
}

} // verus!

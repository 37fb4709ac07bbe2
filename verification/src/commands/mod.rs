//! Chat commands: what a command is, and the registry that finds one by name.

pub mod basic;
pub mod eight_ball;
pub mod handler;

pub use basic::{HelpCommand, PingCommand, UptimeCommand};
pub use eight_ball::EightBallCommand;
pub use handler::CommandHandler;

use crate::message::ChatMessage;
use std::sync::Arc;
use vstd::prelude::*;

verus! {

/// Why a command could not answer.
#[derive(Debug, PartialEq, Eq)]
pub struct CommandError {
    pub reason: String,
}

impl View for CommandError {
    type V = Seq<char>;

    open spec fn view(&self) -> Seq<char> {
        self.reason@
    }
}

impl DeepView for CommandError {
    type V = Seq<char>;

    open spec fn deep_view(&self) -> Seq<char> {
        self.reason@
    }
}

/// A chat command.
pub trait Command: Send + Sync {
    /// Answers a message that called the command with `args`. The answer is what
    /// to say in chat, or `None` where nothing is to be said.
    fn execute(&self, msg: &ChatMessage, args: Vec<&str>) -> Result<Option<String>, CommandError>;

    /// What the command is for, in a line.
    fn help(&self) -> &str;
}

/// The arguments as strings of their own.
pub fn owned_args(args: &Vec<&str>) -> (r: Vec<String>)
    ensures
        r.deep_view() == args.deep_view(),
{
    let mut out: Vec<String> = Vec::new();
    let mut i: usize = 0;
    while i < args.len()
        invariant
            i <= args.len(),
            out.len() == i,
            forall|k: int| 0 <= k < i ==> out[k]@ == args[k]@,
        decreases args.len() - i,
    {
        out.push(String::from_str(args[i]));
        i += 1;
    }
    assert(out.deep_view() =~= args.deep_view());
    out
}

/// How many names come before the first `name`; all of them where it is not
/// among them.
pub open spec fn name_position(names: Seq<Seq<char>>, name: Seq<char>) -> int
    decreases names.len(),
{
    if names.len() == 0 || names[0] == name {
        0
    } else {
        1 + name_position(names.drop_first(), name)
    }
}

proof fn lemma_name_position(names: Seq<Seq<char>>, name: Seq<char>, at: int)
    requires
        0 <= at <= names.len(),
        forall|k: int| 0 <= k < at ==> names[k] != name,
        at < names.len() ==> names[at] == name,
    ensures
        name_position(names, name) == at,
    decreases at,
{
    if at > 0 {
        let rest = names.drop_first();
        assert forall|k: int| 0 <= k < at - 1 implies rest[k] != name by {
            assert(rest[k] == names[k + 1]);
        }
        lemma_name_position(rest, name, at - 1);
    }
}

/// A shared command is the command that it points to: it answers as that one
/// answers, and is for what that one is for.
impl<T: Command + ?Sized> Command for Arc<T> {
    fn execute(&self, msg: &ChatMessage, args: Vec<&str>) -> (r: Result<
        Option<String>,
        CommandError,
    >)
        ensures
            call_ensures(T::execute, (&**self, msg, args), r),
    {
        (**self).execute(msg, args)
    }

    fn help(&self) -> (r: &str)
        ensures
            call_ensures(T::help, (&**self,), r),
    {
        (**self).help()
    }
}

/// The place of the first `name` among `names`, or their number where it is not
/// among them.
pub fn position(names: &Vec<String>, name: &str) -> (at: usize)
    ensures
        at == name_position(names.deep_view(), name@),
        at <= names.len(),
{
    let mut at: usize = 0;
    while at < names.len()
        invariant
            at <= names.len(),
            forall|k: int| 0 <= k < at ==> names.deep_view()[k] != name@,
        decreases names.len() - at,
    {
        if crate::text::equal(names[at].as_str(), name) {
            proof {
                lemma_name_position(names.deep_view(), name@, at as int);
            }
            return at;
        }
        at += 1;
    }
    proof {
        lemma_name_position(names.deep_view(), name@, at as int);
    }
    at
}

/// The commands by name, in the order in which the names were first registered.
/// The commands are of one type `C`; a registry of shared commands of many kinds
/// takes a shared pointer to the trait for it.
pub struct CommandRegistry<C> {
    commands: Vec<(String, C)>,
}

pub struct RegistryView<C> {
    pub names: Seq<Seq<char>>,
    pub commands: Seq<C>,
}

impl<C> RegistryView<C> {
    /// Whether a command goes by `name`.
    pub open spec fn has(self, name: Seq<char>) -> bool {
        name_position(self.names, name) < self.names.len()
    }

    /// The command that goes by `name`.
    pub open spec fn get(self, name: Seq<char>) -> Option<C> {
        if self.has(name) {
            Some(self.commands[name_position(self.names, name)])
        } else {
            None
        }
    }

    /// The registry after `command` was registered as `name`: in the place of the
    /// command that went by that name, or after all others where none did.
    pub open spec fn with(self, name: Seq<char>, command: C) -> RegistryView<C> {
        if self.has(name) {
            RegistryView {
                names: self.names,
                commands: self.commands.update(name_position(self.names, name), command),
            }
        } else {
            RegistryView { names: self.names.push(name), commands: self.commands.push(command) }
        }
    }
}

impl<C> View for CommandRegistry<C> {
    type V = RegistryView<C>;

    closed spec fn view(&self) -> RegistryView<C> {
        RegistryView {
            names: Seq::new(self.commands@.len(), |i: int| self.commands@[i].0@),
            commands: Seq::new(self.commands@.len(), |i: int| self.commands@[i].1),
        }
    }
}

impl<C: Command> CommandRegistry<C> {
    /// A registry without commands.
    pub fn new() -> (r: Self)
        ensures
            r@.names == Seq::<Seq<char>>::empty(),
            r@.commands == Seq::<C>::empty(),
    {
        let r = CommandRegistry { commands: Vec::new() };
        assert(r@.names =~= Seq::empty());
        assert(r@.commands =~= Seq::empty());
        r
    }

    fn find(&self, name: &str) -> (at: usize)
        ensures
            at == name_position(self@.names, name@),
            at <= self.commands@.len(),
            at < self.commands@.len() ==> self@.names[at as int] == name@,
            self@.names.len() == self.commands@.len(),
            self@.commands.len() == self.commands@.len(),
    {
        let mut at: usize = 0;
        while at < self.commands.len()
            invariant
                at <= self.commands.len(),
                forall|k: int| 0 <= k < at ==> self@.names[k] != name@,
            decreases self.commands.len() - at,
        {
            if crate::text::equal(self.commands[at].0.as_str(), name) {
                proof {
                    lemma_name_position(self@.names, name@, at as int);
                }
                return at;
            }
            at += 1;
        }
        proof {
            lemma_name_position(self@.names, name@, at as int);
        }
        at
    }

    /// Registers `command` under `name`, in the place of any command that went by
    /// that name.
    pub fn register(&mut self, name: &str, command: C)
        ensures
            final(self)@ == old(self)@.with(name@, command),
    {
        let at = self.find(name);
        if at < self.commands.len() {
            self.commands.set(at, (String::from_str(name), command));
            assert(self@.names =~= old(self)@.names);
            assert(self@.commands =~= old(self)@.commands.update(at as int, command));
        } else {
            self.commands.push((String::from_str(name), command));
            assert(self@.names =~= old(self)@.names.push(name@));
            assert(self@.commands =~= old(self)@.commands.push(command));
        }
    }

    /// Whether a command goes by `name`.
    pub fn has_command(&self, name: &str) -> (r: bool)
        ensures
            r == self@.has(name@),
    {
        let at = self.find(name);
        at < self.commands.len()
    }

    /// The command that goes by `name`.
    pub fn get_command(&self, name: &str) -> (r: Option<&C>)
        ensures
            r == match self@.get(name@) {
                Some(command) => Some(&command),
                None => None,
            },
    {
        let at = self.find(name);
        if at < self.commands.len() {
            Some(&self.commands[at].1)
        } else {
            None
        }
    }

    /// The names that commands go by, in the order of their registration.
    pub fn get_command_names(&self) -> (r: Vec<String>)
        ensures
            r.deep_view() == self@.names,
    {
        let mut names: Vec<String> = Vec::new();
        let mut i: usize = 0;
        while i < self.commands.len()
            invariant
                i <= self.commands.len(),
                names.len() == i,
                forall|k: int| 0 <= k < i ==> names[k]@ == self@.names[k],
            decreases self.commands.len() - i,
        {
            names.push(self.commands[i].0.clone());
            i += 1;
        }
        assert(names.deep_view() =~= self@.names);
        names
    }
}

} // verus!

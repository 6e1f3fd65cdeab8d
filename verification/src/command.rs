//! Named chat commands with permission gating: the command value itself,
//! the built-in handlers, and the registry that resolves a typed name to
//! zero or one command and dispatches it.

use vstd::prelude::*;

use crate::action::{Action, ActionV};
use crate::text::str_eq;

verus! {

/// Which built-in handler a command runs.
#[derive(Clone, Copy, PartialEq, Eq, Structural, Debug)]
pub enum HandlerId {
    /// Play the sound named by the first argument.
    Play,
    /// Join or leave the observed voice channel ("join" / "leave").
    Voice,
}

/// Per-invocation data handed to a command handler: the identifiers of the
/// server, the observed voice channel, and the invoking user.
#[derive(Clone, Copy, PartialEq, Eq, Structural, Debug)]
pub struct Context {
    pub server_id: u64,
    pub voice_channel_id: u64,
    pub user_id: u64,
}

impl Context {
    pub fn new(server_id: u64, voice_channel_id: u64, user_id: u64) -> (c: Context)
        ensures
            c == (Context { server_id, voice_channel_id, user_id }),
    {
        Context { server_id, voice_channel_id, user_id }
    }
}

/// The actions a handler produces for the given context and arguments.
/// A handler that is missing its required argument does nothing.
pub open spec fn handler_actions(h: HandlerId, ctx: Context, args: Seq<Seq<char>>) -> Seq<ActionV> {
    match h {
        HandlerId::Play => {
            if args.len() < 1 {
                Seq::<ActionV>::empty()
            } else {
                seq![ActionV::PlaySound { name: args[0] }]
            }
        },
        HandlerId::Voice => {
            if args.len() < 1 {
                Seq::<ActionV>::empty()
            } else if args[0] == "join"@ {
                seq![ActionV::JoinVoice { channel_id: ctx.voice_channel_id }]
            } else if args[0] == "leave"@ {
                seq![ActionV::LeaveVoice]
            } else {
                Seq::<ActionV>::empty()
            }
        },
    }
}

/// Runs one built-in handler.
pub fn run_handler(h: HandlerId, context: &Context, args: &Vec<String>) -> (acts: Vec<Action>)
    ensures
        acts.deep_view() == handler_actions(h, *context, args.deep_view()),
{
    let mut acts: Vec<Action> = Vec::new();
    match h {
        HandlerId::Play => {
            if args.len() >= 1 {
                acts.push(Action::PlaySound { name: args[0].clone() });
            }
        },
        HandlerId::Voice => {
            if args.len() >= 1 {
                if str_eq(args[0].as_str(), "join") {
                    acts.push(Action::JoinVoice { channel_id: context.voice_channel_id });
                } else if str_eq(args[0].as_str(), "leave") {
                    acts.push(Action::LeaveVoice);
                }
            }
        },
    }
    proof {
        assert(acts.deep_view() =~~= handler_actions(h, *context, args.deep_view()));
    }
    acts
}

/// A named command: which handler it runs and whether it is gated on the
/// invoker being the authorized identity. Identity is the name alone.
pub struct Command {
    name: String,
    handler: HandlerId,
    requires_permission: bool,
}

/// The mathematical shape of a [`Command`].
pub ghost struct CommandV {
    pub name: Seq<char>,
    pub handler: HandlerId,
    pub requires_permission: bool,
}

impl View for Command {
    type V = CommandV;

    closed spec fn view(&self) -> CommandV {
        CommandV { name: self.name@, handler: self.handler, requires_permission: self.requires_permission }
    }
}

impl Command {
    /// A command that anyone may invoke.
    pub fn new_default(name: String, handler: HandlerId) -> (c: Command)
        ensures
            c@ == (CommandV { name: name@, handler, requires_permission: false }),
    {
        Command::new(name, handler, false)
    }

    pub fn new(name: String, handler: HandlerId, req_perm: bool) -> (c: Command)
        ensures
            c@ == (CommandV { name: name@, handler, requires_permission: req_perm }),
    {
        Command { name, handler, requires_permission: req_perm }
    }

    pub fn get_name(&self) -> (r: &str)
        ensures
            r@ == self@.name,
    {
        self.name.as_str()
    }

    pub fn is_permission_required(&self) -> (r: bool)
        ensures
            r == self@.requires_permission,
    {
        self.requires_permission
    }

    /// Runs the command's handler on the given context and arguments.
    /// Permission gating is the dispatcher's concern, where the invoking
    /// identity is known.
    pub fn invoke(&self, context: &Context, parameters: &Vec<String>) -> (acts: Vec<Action>)
        ensures
            acts.deep_view() == handler_actions(self@.handler, *context, parameters.deep_view()),
    {
        run_handler(self.handler, context, parameters)
    }

    /// Exact, case-sensitive name match.
    pub fn matches(&self, name: &str) -> (r: bool)
        ensures
            r == (self@.name == name@),
    {
        str_eq(self.name.as_str(), name)
    }
}

/// Registering a command under a name that is already taken is refused.
#[derive(Clone, Copy, PartialEq, Eq, Structural, Debug)]
pub enum RegistryError {
    DuplicateCommand,
}

/// What dispatching a typed name came to.
pub enum DispatchOutcome {
    /// No command of that name is registered.
    NotFound,
    /// The command is permission-gated and the invoker is not authorized.
    Denied,
    /// The handler ran and produced these actions.
    Invoked(Vec<Action>),
}

/// The mathematical shape of a [`DispatchOutcome`].
pub ghost enum DispatchOutcomeV {
    NotFound,
    Denied,
    Invoked(Seq<ActionV>),
}

impl View for DispatchOutcome {
    type V = DispatchOutcomeV;

    open spec fn view(&self) -> DispatchOutcomeV {
        match self {
            DispatchOutcome::NotFound => DispatchOutcomeV::NotFound,
            DispatchOutcome::Denied => DispatchOutcomeV::Denied,
            DispatchOutcome::Invoked(acts) => DispatchOutcomeV::Invoked(acts.deep_view()),
        }
    }
}

/// The first command of the given name, if any.
pub open spec fn find_command(cmds: Seq<CommandV>, name: Seq<char>) -> Option<CommandV>
    decreases cmds.len(),
{
    if cmds.len() == 0 {
        None
    } else if cmds[0].name == name {
        Some(cmds[0])
    } else {
        find_command(cmds.drop_first(), name)
    }
}

/// A name is found exactly when some registered command carries it.
pub proof fn lemma_find_command_exists(cmds: Seq<CommandV>, name: Seq<char>)
    ensures
        find_command(cmds, name) is Some <==> exists|i: int|
            0 <= i < cmds.len() && cmds[i].name == name,
        find_command(cmds, name) is Some ==> {
            let c = find_command(cmds, name)->0;
            c.name == name && exists|i: int| 0 <= i < cmds.len() && cmds[i] == c
        },
    decreases cmds.len(),
{
    if cmds.len() > 0 {
        lemma_find_command_exists(cmds.drop_first(), name);
        if cmds[0].name != name {
            if find_command(cmds, name) is Some {
                let c = find_command(cmds, name)->0;
                let i = choose|i: int|
                    0 <= i < cmds.drop_first().len() && cmds.drop_first()[i] == c;
                assert(cmds[i + 1] == c);
            }
            if exists|i: int| 0 <= i < cmds.len() && cmds[i].name == name {
                let i = choose|i: int| 0 <= i < cmds.len() && cmds[i].name == name;
                assert(cmds.drop_first()[i - 1].name == name);
            }
        }
    }
}

/// What dispatch comes to: the named command's handler runs unless the name
/// resolves to nothing or the permission gate holds the invoker out.
pub open spec fn dispatch_spec(
    cmds: Seq<CommandV>,
    name: Seq<char>,
    ctx: Context,
    args: Seq<Seq<char>>,
    authorized: bool,
) -> DispatchOutcomeV {
    match find_command(cmds, name) {
        Option::None => DispatchOutcomeV::NotFound,
        Option::Some(c) => {
            if c.requires_permission && !authorized {
                DispatchOutcomeV::Denied
            } else {
                DispatchOutcomeV::Invoked(handler_actions(c.handler, ctx, args))
            }
        },
    }
}

/// Holds the registered commands; at most one command per name.
pub struct CommandRegistry {
    commands: Vec<Command>,
}

impl View for CommandRegistry {
    type V = Seq<CommandV>;

    closed spec fn view(&self) -> Seq<CommandV> {
        self.commands.deep_view()
    }
}

impl DeepView for Command {
    type V = CommandV;

    closed spec fn deep_view(&self) -> CommandV {
        self.view()
    }
}

/// No two registered commands share a name.
pub open spec fn names_unique(cmds: Seq<CommandV>) -> bool {
    forall|i: int, j: int| 0 <= i < j < cmds.len() ==> cmds[i].name != cmds[j].name
}

impl CommandRegistry {
    pub fn new() -> (r: CommandRegistry)
        ensures
            r@ == Seq::<CommandV>::empty(),
            names_unique(r@),
    {
        let r = CommandRegistry { commands: Vec::new() };
        proof {
            assert(r@ =~= Seq::<CommandV>::empty());
        }
        r
    }

    /// Adds a command; a second command under an already registered name is
    /// refused and the registry is left as it was.
    pub fn register(&mut self, command: Command) -> (r: Result<(), RegistryError>)
        requires
            names_unique(old(self)@),
        ensures
            names_unique(final(self)@),
            r is Ok <==> find_command(old(self)@, command@.name) is None,
            r is Ok ==> final(self)@ == old(self)@.push(command@),
            r is Err ==> final(self)@ == old(self)@ && r == Err::<(), RegistryError>(
                RegistryError::DuplicateCommand,
            ),
    {
        let taken = self.resolve(command.get_name()).is_some();
        proof {
            lemma_find_command_exists(self@, command@.name);
        }
        if taken {
            Err(RegistryError::DuplicateCommand)
        } else {
            self.commands.push(command);
            proof {
                assert(self@ =~= old(self)@.push(command@));
                assert forall|i: int, j: int|
                    0 <= i < j < self@.len() implies self@[i].name != self@[j].name by {
                    if j < self@.len() - 1 {
                        assert(old(self)@[i].name != old(self)@[j].name);
                    } else {
                        assert(old(self)@[i].name != command@.name);
                    }
                }
            }
            Ok(())
        }
    }

    /// The command registered under the name, if any.
    pub fn resolve(&self, name: &str) -> (r: Option<&Command>)
        ensures
            r is Some <==> find_command(self@, name@) is Some,
            r is Some ==> r->0@ == find_command(self@, name@)->0,
    {
        let n = self.commands.len();
        let mut i: usize = 0;
        proof {
            assert(self@.skip(0) =~= self@);
        }
        while i < n
            invariant
                n == self.commands.len(),
                i <= n,
                find_command(self@, name@) == find_command(self@.skip(i as int), name@),
            decreases n - i,
        {
            proof {
                assert(self@.skip(i as int)[0] == self@[i as int]);
                assert(self@.skip(i as int).drop_first() =~= self@.skip(i + 1));
            }
            if self.commands[i].matches(name) {
                return Some(&self.commands[i]);
            }
            i = i + 1;
        }
        proof {
            assert(self@.skip(n as int) =~= Seq::<CommandV>::empty());
        }
        None
    }

    /// Resolves the name and, when a command is found and its permission
    /// gate admits the invoker, runs its handler.
    pub fn dispatch(
        &self,
        name: &str,
        context: &Context,
        args: &Vec<String>,
        authorized: bool,
    ) -> (r: DispatchOutcome)
        ensures
            r@ == dispatch_spec(self@, name@, *context, args.deep_view(), authorized),
    {
        match self.resolve(name) {
            Option::None => DispatchOutcome::NotFound,
            Option::Some(c) => {
                if c.is_permission_required() && !authorized {
                    DispatchOutcome::Denied
                } else {
                    DispatchOutcome::Invoked(c.invoke(context, args))
                }
            },
        }
    }
}

/// A permission-gated command does not run for an unauthorized invoker, and
/// does run, on the same arguments, for the authorized one.
pub proof fn lemma_permission_gate(
    cmds: Seq<CommandV>,
    name: Seq<char>,
    ctx: Context,
    args: Seq<Seq<char>>,
)
    requires
        find_command(cmds, name) is Some,
        find_command(cmds, name)->0.requires_permission,
    ensures
        dispatch_spec(cmds, name, ctx, args, false) is Denied,
        dispatch_spec(cmds, name, ctx, args, true) == DispatchOutcomeV::Invoked(
            handler_actions(find_command(cmds, name)->0.handler, ctx, args),
        ),
{
}

} // verus!

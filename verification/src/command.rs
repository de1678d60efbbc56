//! Commands: deferred intents that input handlers enqueue and the dispatch
//! loop drains, and the FIFO queue that carries them.

use vstd::prelude::*;
use std::collections::VecDeque;

verus! {

/// What an input prompt should do with the submitted text.
#[derive(Clone, Copy, Debug, PartialEq)]
pub enum InputSubmitCommand {
    RenameTab { tab_idx: usize },
    OpenTabWithUrl,
}

/// Ghost mirror of `InputSubmitCommand`.
pub enum InputSubmitV {
    RenameTab { tab_idx: usize },
    OpenTabWithUrl,
}

impl DeepView for InputSubmitCommand {
    type V = InputSubmitV;

    open spec fn deep_view(&self) -> InputSubmitV {
        match *self {
            InputSubmitCommand::RenameTab { tab_idx } => InputSubmitV::RenameTab { tab_idx },
            InputSubmitCommand::OpenTabWithUrl => InputSubmitV::OpenTabWithUrl,
        }
    }
}

/// A deferred intent. Producers push these onto the queue; the dispatch loop
/// applies each one to the widget or tab manager.
#[derive(Debug, PartialEq)]
pub enum Command {
    HideWidget { id: String },
    ShowWidget { id: String, focus: bool },
    ToggleWidget { id: String, focus: bool },
    FocusWidget { id: String },
    UnfocusWidget { id: String },
    DestroyWidget { id: String },
    Quit,
    InputSubmit { command: InputSubmitCommand, value: String },
    RenameTab { tab_idx: usize, name: String },
    NewTabUrl { title: String, url: String },
    CloseTab { idx: usize },
}

/// Ghost mirror of `Command`, with strings as character sequences.
#[verifier::ext_equal]
pub enum CommandV {
    HideWidget { id: Seq<char> },
    ShowWidget { id: Seq<char>, focus: bool },
    ToggleWidget { id: Seq<char>, focus: bool },
    FocusWidget { id: Seq<char> },
    UnfocusWidget { id: Seq<char> },
    DestroyWidget { id: Seq<char> },
    Quit,
    InputSubmit { command: InputSubmitV, value: Seq<char> },
    RenameTab { tab_idx: usize, name: Seq<char> },
    NewTabUrl { title: Seq<char>, url: Seq<char> },
    CloseTab { idx: usize },
}

impl DeepView for Command {
    type V = CommandV;

    open spec fn deep_view(&self) -> CommandV {
        match self {
            Command::HideWidget { id } => CommandV::HideWidget { id: id@ },
            Command::ShowWidget { id, focus } => CommandV::ShowWidget { id: id@, focus: *focus },
            Command::ToggleWidget { id, focus } => CommandV::ToggleWidget {
                id: id@,
                focus: *focus,
            },
            Command::FocusWidget { id } => CommandV::FocusWidget { id: id@ },
            Command::UnfocusWidget { id } => CommandV::UnfocusWidget { id: id@ },
            Command::DestroyWidget { id } => CommandV::DestroyWidget { id: id@ },
            Command::Quit => CommandV::Quit,
            Command::InputSubmit { command, value } => CommandV::InputSubmit {
                command: command.deep_view(),
                value: value@,
            },
            Command::RenameTab { tab_idx, name } => CommandV::RenameTab {
                tab_idx: *tab_idx,
                name: name@,
            },
            Command::NewTabUrl { title, url } => CommandV::NewTabUrl {
                title: title@,
                url: url@,
            },
            Command::CloseTab { idx } => CommandV::CloseTab { idx: *idx },
        }
    }
}

/// FIFO buffer of pending commands: insertion order is delivery order, with
/// no priority, deduplication or upper bound.
pub struct CommandQueue {
    commands: VecDeque<Command>,
}

impl View for CommandQueue {
    type V = Seq<CommandV>;

    closed spec fn view(&self) -> Seq<CommandV> {
        self.commands.deep_view()
    }
}

impl CommandQueue {
    /// An empty queue.
    pub fn new() -> (q: CommandQueue)
        ensures
            q@ == Seq::<CommandV>::empty(),
    {
        CommandQueue { commands: VecDeque::new() }
    }

    /// Appends a command at the back; never fails.
    pub fn push(&mut self, command: Command)
        ensures
            final(self)@ == old(self)@.push(command.deep_view()),
    {
        let ghost prev = self.commands.deep_view();
        self.commands.push_back(command);
        proof {
            assert(final(self)@ =~= prev.push(self.commands@.last().deep_view()));
        }
    }

    /// Removes and returns the oldest pending command, or `None` when empty.
    pub fn pending(&mut self) -> (r: Option<Command>)
        ensures
            old(self)@.len() == 0 ==> r is None && final(self)@ == old(self)@,
            old(self)@.len() > 0 ==> r is Some && r->0.deep_view() == old(self)@[0]
                && final(self)@ == old(self)@.drop_first(),
    {
        let ghost prev = self.commands.deep_view();
        let r = self.commands.pop_front();
        proof {
            if prev.len() > 0 {
                assert(final(self)@ =~= prev.drop_first());
            } else {
                assert(final(self)@ =~= prev);
            }
        }
        r
    }

    /// How many commands are waiting.
    pub fn len(&self) -> (n: usize)
        ensures
            n == self@.len(),
    {
        self.commands.len()
    }
}

} // verus!

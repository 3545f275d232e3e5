//! The protocol between the library and the program that drives it.
//!
//! The library touches neither processes, files nor the clock. It hands its
//! driver an [`Action`], the driver carries it out and reports back an
//! [`Event`], and the library decides what comes next.

use vstd::prelude::*;
use crate::platform::{Command, CommandOutput, CommandView, OutputView};

verus! {

/// What the driver is asked to do.
#[derive(Debug)]
pub enum Action {
    /// Run a command to its end; answered by [`Event::Exited`].
    Run(Command),
    /// Sleep for so many milliseconds; answered by [`Event::Woke`].
    Sleep { millis: u64 },
    /// Read an environment variable; answered by [`Event::Variable`].
    ReadVariable(String),
    /// Tell whether a file exists; answered by [`Event::Exists`].
    CheckFile(String),
    /// Copy one file over another; answered by [`Event::Done`].
    CopyFile { from: String, to: String },
    /// Read a file as text; answered by [`Event::Text`].
    ReadFile(String),
    /// Replace what a file holds; answered by [`Event::Done`].
    WriteFile { path: String, content: String },
    /// Show a text to the user; answered by [`Event::Done`].
    Print(String),
}

/// An [`Action`] as a mathematical value.
pub enum ActionView {
    Run(CommandView),
    Sleep { millis: u64 },
    ReadVariable(Seq<char>),
    CheckFile(Seq<char>),
    CopyFile { from: Seq<char>, to: Seq<char> },
    ReadFile(Seq<char>),
    WriteFile { path: Seq<char>, content: Seq<char> },
    Print(Seq<char>),
}

impl View for Action {
    type V = ActionView;

    open spec fn view(&self) -> ActionView {
        match self {
            Action::Run(command) => ActionView::Run(command@),
            Action::Sleep { millis } => ActionView::Sleep { millis: *millis },
            Action::ReadVariable(name) => ActionView::ReadVariable(name@),
            Action::CheckFile(path) => ActionView::CheckFile(path@),
            Action::CopyFile { from, to } => ActionView::CopyFile { from: from@, to: to@ },
            Action::ReadFile(path) => ActionView::ReadFile(path@),
            Action::WriteFile { path, content } => ActionView::WriteFile {
                path: path@,
                content: content@,
            },
            Action::Print(text) => ActionView::Print(text@),
        }
    }
}

/// What the driver reports back.
#[derive(Debug)]
pub enum Event {
    /// The command ran to its end and left this behind.
    Exited(CommandOutput),
    /// The action could not be carried out; the text says why.
    Failed(String),
    /// The sleep is over.
    Woke,
    /// The value of the variable, or `None` where it is not set.
    Variable(Option<String>),
    /// Whether the file exists.
    Exists(bool),
    /// What the file holds.
    Text(String),
    /// The action has been carried out.
    Done,
}

/// An [`Event`] as a mathematical value.
pub enum EventView {
    Exited(OutputView),
    Failed(Seq<char>),
    Woke,
    Variable(Option<Seq<char>>),
    Exists(bool),
    Text(Seq<char>),
    Done,
}

impl View for Event {
    type V = EventView;

    open spec fn view(&self) -> EventView {
        match self {
            Event::Exited(output) => EventView::Exited(output@),
            Event::Failed(why) => EventView::Failed(why@),
            Event::Woke => EventView::Woke,
            Event::Variable(value) => EventView::Variable(
                match value {
                    Some(text) => Some(text@),
                    None => None,
                },
            ),
            Event::Exists(found) => EventView::Exists(*found),
            Event::Text(text) => EventView::Text(text@),
            Event::Done => EventView::Done,
        }
    }
}

} // verus!

//! What a command tells the shell of itself: its name, its arguments and
//! flags, and examples of its use.

use vstd::prelude::*;
use vstd::string::*;

verus! {

/// The kind of value that an argument takes.
#[derive(Debug, Clone, Copy, PartialEq, Eq, Structural)]
pub enum Shape {
    Text,
    Integer,
    /// A list of numbers with a fractional part.
    NumberList,
}

/// How an argument is given.
#[derive(Debug, Clone, Copy, PartialEq, Eq, Structural)]
pub enum ArgumentKind {
    /// By position; the command does not run without it.
    Required,
    /// By position; it may be left out.
    Optional,
    /// By name, with a value.
    Named,
    /// By name, without a value.
    Switch,
}

/// One argument or flag of a command.
#[derive(Debug, Clone, PartialEq, Eq)]
pub struct Argument {
    pub kind: ArgumentKind,
    pub name: String,
    /// The kind of value; a switch takes none.
    pub shape: Option<Shape>,
    pub description: String,
}

/// The mathematical content of an [`Argument`].
pub struct ArgumentView {
    pub kind: ArgumentKind,
    pub name: Seq<char>,
    pub shape: Option<Shape>,
    pub description: Seq<char>,
}

impl View for Argument {
    type V = ArgumentView;

    open spec fn view(&self) -> ArgumentView {
        ArgumentView {
            kind: self.kind,
            name: self.name@,
            shape: self.shape,
            description: self.description@,
        }
    }
}

impl DeepView for Argument {
    type V = ArgumentView;

    open spec fn deep_view(&self) -> ArgumentView {
        self@
    }
}

/// A command's name, its arguments in the order of their declaration, and
/// the category under which the shell lists it.
#[derive(Debug, Clone, PartialEq, Eq)]
pub struct CommandSignature {
    pub name: String,
    pub arguments: Vec<Argument>,
    pub category: Option<String>,
}

/// The mathematical content of a [`CommandSignature`].
pub struct CommandSignatureView {
    pub name: Seq<char>,
    pub arguments: Seq<ArgumentView>,
    pub category: Option<Seq<char>>,
}

impl View for CommandSignature {
    type V = CommandSignatureView;

    open spec fn view(&self) -> CommandSignatureView {
        CommandSignatureView {
            name: self.name@,
            arguments: self.arguments.deep_view(),
            category: match self.category {
                Some(c) => Some(c@),
                None => None,
            },
        }
    }
}

impl CommandSignatureView {
    /// The signature of a command called `name`, without arguments.
    pub open spec fn build(name: Seq<char>) -> CommandSignatureView {
        CommandSignatureView { name, arguments: Seq::empty(), category: None }
    }

    /// The signature with one more argument.
    pub open spec fn with(
        self,
        kind: ArgumentKind,
        name: Seq<char>,
        shape: Option<Shape>,
        description: Seq<char>,
    ) -> CommandSignatureView {
        CommandSignatureView {
            arguments: self.arguments.push(ArgumentView { kind, name, shape, description }),
            ..self
        }
    }

    pub open spec fn required(
        self,
        name: Seq<char>,
        shape: Shape,
        description: Seq<char>,
    ) -> CommandSignatureView {
        self.with(ArgumentKind::Required, name, Some(shape), description)
    }

    pub open spec fn optional(
        self,
        name: Seq<char>,
        shape: Shape,
        description: Seq<char>,
    ) -> CommandSignatureView {
        self.with(ArgumentKind::Optional, name, Some(shape), description)
    }

    pub open spec fn named(
        self,
        name: Seq<char>,
        shape: Shape,
        description: Seq<char>,
    ) -> CommandSignatureView {
        self.with(ArgumentKind::Named, name, Some(shape), description)
    }

    pub open spec fn switch(self, name: Seq<char>, description: Seq<char>) -> CommandSignatureView {
        self.with(ArgumentKind::Switch, name, None, description)
    }

    pub open spec fn category(self, category: Seq<char>) -> CommandSignatureView {
        CommandSignatureView { category: Some(category), ..self }
    }
}

impl CommandSignature {
    /// The signature of a command called `name`, without arguments.
    pub fn build(name: &str) -> (signature: CommandSignature)
        ensures
            signature@ == CommandSignatureView::build(name@),
    {
        let signature = CommandSignature {
            name: String::from_str(name),
            arguments: Vec::new(),
            category: None,
        };
        assert(signature.arguments.deep_view() =~= Seq::<ArgumentView>::empty());
        signature
    }

    fn with(self, kind: ArgumentKind, name: &str, shape: Option<Shape>, description: &str) -> (r:
        CommandSignature)
        ensures
            r@ == self@.with(kind, name@, shape, description@),
    {
        let ghost before = self.arguments.deep_view();
        let mut arguments = self.arguments;
        let argument = Argument {
            kind,
            name: String::from_str(name),
            shape,
            description: String::from_str(description),
        };
        arguments.push(argument);
        assert(arguments.deep_view() =~= before.push(argument@));
        CommandSignature { name: self.name, arguments, category: self.category }
    }

    /// Adds an argument that is given by position and must be there.
    pub fn required(self, name: &str, shape: Shape, description: &str) -> (r: CommandSignature)
        ensures
            r@ == self@.required(name@, shape, description@),
    {
        self.with(ArgumentKind::Required, name, Some(shape), description)
    }

    /// Adds an argument that is given by position and may be left out.
    pub fn optional(self, name: &str, shape: Shape, description: &str) -> (r: CommandSignature)
        ensures
            r@ == self@.optional(name@, shape, description@),
    {
        self.with(ArgumentKind::Optional, name, Some(shape), description)
    }

    /// Adds a flag that takes a value.
    pub fn named(self, name: &str, shape: Shape, description: &str) -> (r: CommandSignature)
        ensures
            r@ == self@.named(name@, shape, description@),
    {
        self.with(ArgumentKind::Named, name, Some(shape), description)
    }

    /// Adds a flag that takes no value.
    pub fn switch(self, name: &str, description: &str) -> (r: CommandSignature)
        ensures
            r@ == self@.switch(name@, description@),
    {
        self.with(ArgumentKind::Switch, name, None, description)
    }

    /// Sets the category under which the shell lists the command.
    pub fn category(self, category: &str) -> (r: CommandSignature)
        ensures
            r@ == self@.category(category@),
    {
        CommandSignature {
            name: self.name,
            arguments: self.arguments,
            category: Some(String::from_str(category)),
        }
    }
}

/// An example of a command's use.
#[derive(Debug, Clone, Copy, PartialEq, Eq)]
pub struct Example {
    pub description: &'static str,
    pub example: &'static str,
}

/// The mathematical content of an [`Example`].
pub struct ExampleView {
    pub description: Seq<char>,
    pub example: Seq<char>,
}

impl View for Example {
    type V = ExampleView;

    open spec fn view(&self) -> ExampleView {
        ExampleView { description: self.description@, example: self.example@ }
    }
}

impl DeepView for Example {
    type V = ExampleView;

    open spec fn deep_view(&self) -> ExampleView {
        self@
    }
}

} // verus!

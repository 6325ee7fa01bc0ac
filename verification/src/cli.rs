//! The parameters that the client and the server take on the command line,
//! with their names and defaults.

use vstd::prelude::*;
use vstd::string::*;

verus! {

/// A parameter of the command line. Client and server share the list and
/// choose which of them they accept.
#[derive(Debug, Clone, Copy, PartialEq, Eq, Structural)]
pub enum CliArg {
    Host,
    Port,
    FileDir,
    ImageDir,
    Debug,
}

/// The long name of a parameter.
pub open spec fn arg_name(arg: CliArg) -> Seq<char> {
    match arg {
        CliArg::Host => "host"@,
        CliArg::Port => "port"@,
        CliArg::FileDir => "file-dir"@,
        CliArg::ImageDir => "image-dir"@,
        CliArg::Debug => "debug"@,
    }
}

/// The letter of a parameter's short form.
pub open spec fn arg_short(arg: CliArg) -> char {
    match arg {
        CliArg::Host => 'H',
        CliArg::Port => 'p',
        CliArg::FileDir => 'f',
        CliArg::ImageDir => 'i',
        CliArg::Debug => 'd',
    }
}

/// The value of a parameter that is not given.
pub open spec fn arg_default(arg: CliArg) -> Seq<char> {
    match arg {
        CliArg::Host => "localhost"@,
        CliArg::Port => "11111"@,
        CliArg::FileDir => "files"@,
        CliArg::ImageDir => "images"@,
        CliArg::Debug => "false"@,
    }
}

/// The line that explains a parameter.
pub open spec fn arg_help(arg: CliArg) -> Seq<char> {
    match arg {
        CliArg::Host => "Sets the server host"@,
        CliArg::Port => "Sets the server port"@,
        CliArg::FileDir => "Sets the file directory"@,
        CliArg::ImageDir => "Sets the image directory"@,
        CliArg::Debug => "Enables debug mode"@,
    }
}

/// The values of the parameters, each as it was given or else its default.
/// What is given stands in the order of the parameters; a parameter beyond
/// the end of what is given counts as not given.
pub open spec fn resolved(args: Seq<CliArg>, given: Seq<Option<String>>) -> Seq<Seq<char>> {
    Seq::new(
        args.len(),
        |i: int|
            if i < given.len() && given[i] is Some {
                given[i]->0@
            } else {
                arg_default(args[i])
            },
    )
}

impl CliArg {
    /// The long name of the parameter, under which its value is found.
    pub fn name(&self) -> (name: &'static str)
        ensures
            name@ == arg_name(*self),
    {
        match self {
            CliArg::Host => "host",
            CliArg::Port => "port",
            CliArg::FileDir => "file-dir",
            CliArg::ImageDir => "image-dir",
            CliArg::Debug => "debug",
        }
    }

    /// The letter of the parameter's short form.
    pub fn short(&self) -> (letter: char)
        ensures
            letter == arg_short(*self),
    {
        match self {
            CliArg::Host => 'H',
            CliArg::Port => 'p',
            CliArg::FileDir => 'f',
            CliArg::ImageDir => 'i',
            CliArg::Debug => 'd',
        }
    }

    /// The value that the parameter has where it is not given.
    pub fn default_value(&self) -> (value: &'static str)
        ensures
            value@ == arg_default(*self),
    {
        match self {
            CliArg::Host => "localhost",
            CliArg::Port => "11111",
            CliArg::FileDir => "files",
            CliArg::ImageDir => "images",
            CliArg::Debug => "false",
        }
    }

    /// The line that explains the parameter.
    pub fn help(&self) -> (line: &'static str)
        ensures
            line@ == arg_help(*self),
    {
        match self {
            CliArg::Host => "Sets the server host",
            CliArg::Port => "Sets the server port",
            CliArg::FileDir => "Sets the file directory",
            CliArg::ImageDir => "Sets the image directory",
            CliArg::Debug => "Enables debug mode",
        }
    }

    /// Whether the parameter is a switch: given without a value it stands
    /// for `true`.
    pub fn is_switch(&self) -> (switch: bool)
        ensures
            switch == (*self == CliArg::Debug),
    {
        match self {
            CliArg::Debug => true,
            _ => false,
        }
    }
}

/// The values of the parameters in the order of `args`: for each the value
/// that was given, and its default where none was.
pub fn resolve_args(args: &[CliArg], given: &Vec<Option<String>>) -> (values: Vec<String>)
    ensures
        values@.len() == args@.len(),
        forall|i: int| 0 <= i < values@.len() ==> (#[trigger] values@[i])@ == resolved(args@, given@)[i],
{
    let mut values: Vec<String> = Vec::new();
    let mut i: usize = 0;
    while i < args.len()
        invariant
            i <= args@.len(),
            values@.len() == i,
            forall|k: int|
                0 <= k < i ==> (#[trigger] values@[k])@ == resolved(args@, given@)[k],
        decreases args.len() - i,
    {
        let value: String = if i < given.len() {
            match &given[i] {
                Some(value) => value.clone(),
                None => String::from_str(args[i].default_value()),
            }
        } else {
            String::from_str(args[i].default_value())
        };
        values.push(value);
        i = i + 1;
    }
    values
}

} // verus!

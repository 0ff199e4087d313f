//! What a JavaScript runtime is started with: a snapshot to start from, and
//! the parameters to define before a script runs.
//!
//! Running the runtime is the host's part. Here the parameters are
//! collected, each as the statement that defines it.

use vstd::prelude::*;
use vstd::string::*;

verus! {

/// Why a script did not give a result.
#[derive(Clone, Debug, PartialEq, Eq)]
pub enum Error {
    /// A parameter could not be written as JSON.
    ParameterSerialization { name: String, message: String },
    /// The runtime could not run the script.
    DenoRuntime(String),
}

/// What an [`Error`] stands for.
pub enum ErrorView {
    ParameterSerialization { name: Seq<char>, message: Seq<char> },
    DenoRuntime(Seq<char>),
}

impl DeepView for Error {
    type V = ErrorView;

    open spec fn deep_view(&self) -> ErrorView {
        match self {
            Error::ParameterSerialization { name, message } => ErrorView::ParameterSerialization {
                name: name@,
                message: message@,
            },
            Error::DenoRuntime(message) => ErrorView::DenoRuntime(message@),
        }
    }
}

/// The statement that defines the parameter `name` as the value that `json`
/// writes.
pub open spec fn definition(name: Seq<char>, json: Seq<char>) -> Seq<char> {
    name + " = "@ + json
}

/// The name under which the statement that defines a parameter is run.
pub open spec fn script_name(name: Seq<char>) -> Seq<char> {
    "<"@ + name + ">"@
}

/// What to say of a script that the runtime could not run: the script, and
/// the runtime's account of what went wrong.
pub open spec fn runtime_failure(source: Seq<char>, cause: Seq<char>) -> Seq<char> {
    "unable to invoke "@ + source + " in JavaScript runtime \n error: \n "@ + cause
}

impl Error {
    /// The error of a script that the runtime could not run.
    pub fn deno_runtime(source: &str, cause: &str) -> (error: Error)
        ensures
            error.deep_view() == ErrorView::DenoRuntime(runtime_failure(source@, cause@)),
    {
        let message = String::from_str("unable to invoke ").concat(source).concat(
            " in JavaScript runtime \n error: \n ",
        ).concat(cause);
        Error::DenoRuntime(message)
    }
}

/// A snapshot of a JavaScript runtime, with the parameters to define in it.
#[derive(Debug, Clone)]
pub struct Js {
    snapshot: Vec<u8>,
    parameters: Vec<(&'static str, String)>,
}

impl Js {
    /// The snapshot to start the runtime from.
    pub closed spec fn snapshot_spec(&self) -> Seq<u8> {
        self.snapshot@
    }

    /// The parameters so far, oldest first: each by its name, with the
    /// statement that defines it.
    pub closed spec fn parameters_spec(&self) -> Seq<(Seq<char>, Seq<char>)> {
        self.parameters.deep_view()
    }

    /// A runtime to start from the given snapshot, without parameters.
    pub fn new(snapshot: Vec<u8>) -> (js: Js)
        ensures
            js.snapshot_spec() == snapshot@,
            js.parameters_spec() == Seq::<(Seq<char>, Seq<char>)>::empty(),
    {
        let js = Js { snapshot, parameters: Vec::new() };
        proof {
            assert(js.parameters.deep_view() =~= Seq::empty());
        }
        js
    }

    /// Adds a parameter, given its value as JSON or the reason why the
    /// value could not be written as JSON.
    ///
    /// With JSON, the parameter comes after those already there, and the
    /// snapshot stays. With a reason, the parameter is refused for it.
    pub fn with_parameter(self, name: &'static str, serialized: Result<String, String>) -> (out:
        Result<Js, Error>)
        ensures
            match serialized {
                Ok(json) => out matches Ok(js) && js.snapshot_spec() == self.snapshot_spec()
                    && js.parameters_spec() == self.parameters_spec().push(
                    (name@, definition(name@, json@)),
                ),
                Err(message) => out matches Err(error) && error.deep_view()
                    == (ErrorView::ParameterSerialization { name: name@, message: message@ }),
            },
    {
        match serialized {
            Ok(json) => {
                let ghost before = self.parameters;
                let statement = String::from_str(name).concat(" = ").concat(json.as_str());
                let mut js = self;
                js.parameters.push((name, statement));
                proof {
                    assert(js.parameters.deep_view() =~= before.deep_view().push(
                        (name@, definition(name@, json@)),
                    ));
                }
                Ok(js)
            },
            Err(message) => Err(
                Error::ParameterSerialization { name: String::from_str(name), message },
            ),
        }
    }

    /// The name under which the statement that defines a parameter is run.
    pub fn parameter_script_name(name: &str) -> (script: String)
        ensures
            script@ == script_name(name@),
    {
        String::from_str("<").concat(name).concat(">")
    }

    /// The snapshot to start the runtime from.
    pub fn snapshot(&self) -> (snapshot: &Vec<u8>)
        ensures
            snapshot@ == self.snapshot_spec(),
    {
        &self.snapshot
    }

    /// How many parameters there are.
    pub fn parameter_count(&self) -> (count: usize)
        ensures
            count == self.parameters_spec().len(),
    {
        self.parameters.len()
    }

    /// The parameter at `index`: its name, and the statement that defines
    /// it.
    pub fn parameter(&self, index: usize) -> (parameter: (&'static str, &str))
        requires
            index < self.parameters_spec().len(),
        ensures
            (parameter.0@, parameter.1@) == self.parameters_spec()[index as int],
    {
        let pair = &self.parameters[index];
        (pair.0, pair.1.as_str())
    }
}

} // verus!

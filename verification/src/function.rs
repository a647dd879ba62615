use vstd::prelude::*;
use vstd::string::*;

verus! {

/// A deployed function: its id, and its name where it was looked up by name.
#[derive(Clone)]
pub struct Function {
    function_id: String,
    name: Option<String>,
}

pub struct FunctionView {
    pub function_id: Seq<char>,
    pub name: Option<Seq<char>>,
}

impl View for Function {
    type V = FunctionView;

    closed spec fn view(&self) -> FunctionView {
        FunctionView {
            function_id: self.function_id@,
            name: match self.name {
                Some(n) => Some(n@),
                None => None,
            },
        }
    }
}

impl Function {
    /// A function known by its id alone.
    pub fn from_id(function_id: String) -> (r: Function)
        ensures
            r@ == (FunctionView { function_id: function_id@, name: None }),
    {
        Function { function_id, name: None }
    }

    /// A function that a lookup by name found under this id.
    pub fn from_lookup(function_id: String, function_name: &str) -> (r: Function)
        ensures
            r@ == (FunctionView { function_id: function_id@, name: Some(function_name@) }),
    {
        Function { function_id, name: Some(String::from_str(function_name)) }
    }

    /// The id of the function.
    pub fn function_id(&self) -> (r: &str)
        ensures
            r@ == self@.function_id,
    {
        self.function_id.as_str()
    }

    /// The name of the function, where it was looked up by name.
    pub fn name(&self) -> (r: Option<&str>)
        ensures
            match r {
                Some(s) => self@.name == Some(s@),
                None => self@.name is None,
            },
    {
        match &self.name {
            Some(s) => Some(s.as_str()),
            None => None,
        }
    }
}

} // verus!

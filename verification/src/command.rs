//! Command lines: a program and the arguments it is started with.

use vstd::prelude::*;
use vstd::string::*;
use crate::text::texts;

verus! {

/// A command line: the program to start and its arguments.
#[derive(Debug, PartialEq, Eq)]
pub struct Invocation {
    pub program: String,
    pub arguments: Vec<String>,
}

/// A command line, as plain text.
pub struct InvocationView {
    pub program: Seq<char>,
    pub arguments: Seq<Seq<char>>,
}

impl View for Invocation {
    type V = InvocationView;

    open spec fn view(&self) -> InvocationView {
        InvocationView { program: self.program@, arguments: texts(self.arguments@) }
    }
}

/// The views of a list of string slices.
pub open spec fn words(list: Seq<&str>) -> Seq<Seq<char>> {
    Seq::new(list.len(), |i: int| list[i]@)
}

impl Invocation {
    /// The command line that starts `program` with `arguments`.
    pub fn new(program: &str, arguments: &Vec<&str>) -> (invocation: Invocation)
        ensures
            invocation@ == (InvocationView { program: program@, arguments: words(arguments@) }),
    {
        let mut owned: Vec<String> = Vec::new();
        let mut i: usize = 0;
        while i < arguments.len()
            invariant
                i <= arguments.len(),
                owned.len() == i,
                forall|j: int| 0 <= j < i ==> owned@[j]@ == arguments@[j]@,
            decreases arguments.len() - i,
        {
            owned.push(String::from_str(arguments[i]));
            i = i + 1;
        }
        assert(texts(owned@) =~= words(arguments@));
        Invocation { program: String::from_str(program), arguments: owned }
    }
}

} // verus!

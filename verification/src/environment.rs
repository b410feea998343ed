//! The name-resolution collaborator the compiler emits against.
//!
//! An [`Environment`] maps variable names to storage slots and function names
//! to an index plus an arity classification. The compiler treats it as
//! read-only: one lookup per identifier, one per call. Resolution returns the
//! first entry with the looked-up name, so a slot or function index is simply
//! the entry's position.

use vstd::prelude::*;

verus! {

/// The arity classification of a callable. Fixed-arity variants require an
/// exact argument count (1, 2 or 3); `Vararg` permits any count, which is
/// then encoded into the emitted instruction. The callable itself lives with
/// the stack machine that executes the bytecode, identified by the index the
/// environment resolves.
#[derive(Clone, Copy, Debug, PartialEq, Eq, Structural)]
pub enum Function {
    Single,
    Double,
    Triple,
    Vararg,
}

impl Function {
    /// The exact argument count a fixed-arity signature requires. A `Vararg`
    /// signature requires no particular count; here it maps to 0, which no
    /// arity check ever consults.
    pub open spec fn arity(self) -> int {
        match self {
            Function::Single => 1,
            Function::Double => 2,
            Function::Triple => 3,
            Function::Vararg => 0,
        }
    }

    /// The exact argument count a fixed-arity signature requires.
    pub fn expected_args(&self) -> (r: usize)
        ensures
            r == self.arity(),
    {
        match self {
            Function::Single => 1,
            Function::Double => 2,
            Function::Triple => 3,
            Function::Vararg => 0,
        }
    }
}

/// The position of the first name in `names` from `start` on that equals
/// `name`, or `None` when no entry matches.
pub open spec fn find_name(names: Seq<String>, name: Seq<char>, start: int) -> Option<int>
    decreases names.len() - start,
{
    if start < 0 || start >= names.len() {
        None
    } else if names[start]@ == name {
        Some(start)
    } else {
        find_name(names, name, start + 1)
    }
}

/// The position of the first entry in `entries` from `start` on whose name
/// equals `name`, or `None` when no entry matches.
pub open spec fn find_function(entries: Seq<(String, Function)>, name: Seq<char>, start: int) -> Option<
    int,
>
    decreases entries.len() - start,
{
    if start < 0 || start >= entries.len() {
        None
    } else if entries[start].0@ == name {
        Some(start)
    } else {
        find_function(entries, name, start + 1)
    }
}

/// The symbol table: variable names in slot order, and function names with
/// their arity classification in index order.
pub struct Environment {
    pub items: Vec<String>,
    pub functions: Vec<(String, Function)>,
}

impl Environment {
    /// The slot the environment resolves `name` to, if any.
    pub open spec fn spec_index_of_item(self, name: Seq<char>) -> Option<int> {
        find_name(self.items@, name, 0)
    }

    /// The index and signature the environment resolves `name` to, if any.
    pub open spec fn spec_function_info(self, name: Seq<char>) -> Option<(int, Function)> {
        match find_function(self.functions@, name, 0) {
            Some(i) => Some((i, self.functions@[i].1)),
            None => None,
        }
    }

    /// Resolves a variable name to its storage slot.
    pub fn index_of_item(&self, name: &String) -> (r: Option<usize>)
        ensures
            match r {
                Some(i) => self.spec_index_of_item(name@) == Some(i as int),
                None => self.spec_index_of_item(name@) is None,
            },
    {
        let mut i: usize = 0;
        while i < self.items.len()
            invariant
                0 <= i <= self.items.len(),
                find_name(self.items@, name@, 0) == find_name(self.items@, name@, i as int),
            decreases self.items.len() - i,
        {
            if self.items[i] == *name {
                return Some(i);
            }
            i = i + 1;
        }
        None
    }

    /// Resolves a function name to its index and arity classification.
    pub fn function_info(&self, name: &String) -> (r: Option<(usize, Function)>)
        ensures
            match r {
                Some((i, f)) => self.spec_function_info(name@) == Some((i as int, f)),
                None => self.spec_function_info(name@) is None,
            },
    {
        let mut i: usize = 0;
        while i < self.functions.len()
            invariant
                0 <= i <= self.functions.len(),
                find_function(self.functions@, name@, 0) == find_function(
                    self.functions@,
                    name@,
                    i as int,
                ),
            decreases self.functions.len() - i,
        {
            if self.functions[i].0 == *name {
                return Some((i, self.functions[i].1));
            }
            i = i + 1;
        }
        None
    }
}

} // verus!

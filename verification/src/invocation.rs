use vstd::prelude::*;
use crate::text::{texts, lemma_texts_push, clone_strings};

verus! {

/// What an invocation is to the contracts: the program and its arguments.
pub struct InvocationView {
    pub program: Seq<char>,
    pub args: Seq<Seq<char>>,
}

/// One planned compiler call: a program name and an ordered argument vector.
///
/// The arguments only ever grow at the end; nothing removes or reorders them.
#[derive(Debug)]
pub struct Invocation {
    program: String,
    args: Vec<String>,
}

impl View for Invocation {
    type V = InvocationView;

    closed spec fn view(&self) -> InvocationView {
        InvocationView { program: self.program@, args: texts(self.args@) }
    }
}

impl Clone for Invocation {
    fn clone(&self) -> (out: Self)
        ensures
            out@ == self@,
    {
        Invocation { program: self.program.clone(), args: clone_strings(&self.args) }
    }
}

impl Invocation {
    /// An invocation of `program` with no arguments yet.
    pub fn new(program: &str) -> (out: Self)
        ensures
            out@.program == program@,
            out@.args == Seq::<Seq<char>>::empty(),
    {
        let out = Invocation { program: program.to_owned(), args: Vec::new() };
        assert(out@.args =~= Seq::<Seq<char>>::empty());
        out
    }

    /// Appends one argument.
    pub fn arg(&mut self, arg: &str)
        ensures
            final(self)@.program == old(self)@.program,
            final(self)@.args == old(self)@.args.push(arg@),
    {
        let owned = arg.to_owned();
        proof {
            lemma_texts_push(self.args@, owned);
        }
        self.args.push(owned);
    }

    /// Appends each of `args`, in order.
    pub fn args(&mut self, args: &Vec<String>)
        ensures
            final(self)@.program == old(self)@.program,
            final(self)@.args == old(self)@.args + texts(args@),
    {
        let mut i: usize = 0;
        while i < args.len()
            invariant
                i <= args.len(),
                self@.program == old(self)@.program,
                self@.args == old(self)@.args + texts(args@).subrange(0, i as int),
            decreases args.len() - i,
        {
            self.arg(args[i].as_str());
            assert(self@.args =~= old(self)@.args + texts(args@).subrange(0, i + 1)) by {
                assert(texts(args@).subrange(0, i + 1) =~= texts(args@).subrange(0, i as int).push(
                    args@[i as int]@,
                ));
            }
            i += 1;
        }
        assert(texts(args@).subrange(0, i as int) =~= texts(args@));
    }

    /// The program that is to run.
    pub fn get_program(&self) -> (program: &String)
        ensures
            program@ == self@.program,
    {
        &self.program
    }

    /// The arguments, in order.
    pub fn get_args(&self) -> (args: &Vec<String>)
        ensures
            texts(args@) == self@.args,
    {
        &self.args
    }
}

} // verus!

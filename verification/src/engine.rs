use vstd::prelude::*;
use vstd::string::StringExecFns;
use crate::invocation::Invocation;
use crate::matching::{
    crate_name_matches, eligible, is_binary, lemma_eligible_survives_append, names_target,
    produces_binary,
};
use crate::resolver::{normalize_name, normalized};
use crate::text::texts;

verus! {

/// What an engine is to the contracts.
pub struct EngineView {
    pub targets: Seq<Seq<char>>,
    pub link_args: Option<Seq<char>>,
    pub print_link_args: bool,
}

/// Decides which compiler invocations get extra linker arguments, and which
/// arguments those are.
///
/// `targets` are the crate names of the binaries and examples that qualify,
/// spelled as the compiler spells them. `link_args` is handed to the linker as
/// one opaque value. With `print_link_args` the compiler is also asked to print
/// the final link command.
#[derive(Debug)]
pub struct LinkArgsEngine {
    pub targets: Vec<String>,
    pub link_args: Option<String>,
    pub print_link_args: bool,
}

impl View for LinkArgsEngine {
    type V = EngineView;

    open spec fn view(&self) -> EngineView {
        EngineView {
            targets: texts(self.targets@),
            link_args: match self.link_args {
                Some(a) => Some(a@),
                None => None,
            },
            print_link_args: self.print_link_args,
        }
    }
}

/// The compiler option that forwards `link_args` to the linker untouched, or
/// nothing where there are none.
pub open spec fn link_option(link_args: Option<Seq<char>>) -> Seq<Seq<char>> {
    match link_args {
        Some(a) => seq!["-C"@, "link-args="@ + a],
        None => Seq::empty(),
    }
}

/// The compiler option that asks for the final link command to be printed, or
/// nothing where it is not wanted.
pub open spec fn diagnostic_option(print_link_args: bool) -> Seq<Seq<char>> {
    if print_link_args {
        seq!["-Z"@, "print-link-args"@]
    } else {
        Seq::empty()
    }
}

/// Everything an eligible invocation gains: the linker option first, the
/// diagnostic option after it.
pub open spec fn injected(engine: EngineView) -> Seq<Seq<char>> {
    link_option(engine.link_args) + diagnostic_option(engine.print_link_args)
}

/// The argument vector that `engine` makes of `args`.
pub open spec fn rewritten(args: Seq<Seq<char>>, engine: EngineView) -> Seq<Seq<char>> {
    if eligible(args, engine.targets) {
        args + injected(engine)
    } else {
        args
    }
}

impl LinkArgsEngine {
    /// An engine for the given eligible targets.
    pub fn new(targets: Vec<String>, link_args: Option<String>, print_link_args: bool) -> (out:
        Self)
        ensures
            out.targets == targets,
            out.link_args == link_args,
            out.print_link_args == print_link_args,
    {
        LinkArgsEngine { targets, link_args, print_link_args }
    }

    /// An engine for the one package `pkg_name`: its only target is the
    /// package's name as the compiler spells the crate.
    pub fn for_package(pkg_name: &str, link_args: Option<String>, print_link_args: bool) -> (out:
        Self)
        ensures
            out@.targets == seq![normalized(pkg_name@)],
            out.link_args == link_args,
            out.print_link_args == print_link_args,
    {
        let mut targets: Vec<String> = Vec::new();
        targets.push(normalize_name(pkg_name));
        assert(texts(targets@) =~= seq![normalized(pkg_name@)]);
        LinkArgsEngine { targets, link_args, print_link_args }
    }

    /// The arguments that an eligible invocation gains.
    pub fn injection(&self) -> (extra: Vec<String>)
        ensures
            texts(extra@) == injected(self@),
    {
        let mut extra: Vec<String> = Vec::new();
        match &self.link_args {
            Some(link_args) => {
                extra.push(String::from_str("-C"));
                extra.push(String::from_str("link-args=").concat(link_args.as_str()));
                assert(texts(extra@) =~= link_option(self@.link_args));
            },
            None => {
                assert(texts(extra@) =~= link_option(self@.link_args));
            },
        }
        let ghost linked = texts(extra@);
        if self.print_link_args {
            extra.push(String::from_str("-Z"));
            extra.push(String::from_str("print-link-args"));
        }
        assert(texts(extra@) =~= linked + diagnostic_option(self@.print_link_args));
        extra
    }

    /// Whether `command` is an invocation that this engine extends.
    pub fn matches(&self, command: &Invocation) -> (hit: bool)
        ensures
            hit == eligible(command@.args, self@.targets),
    {
        is_binary(command.get_args()) && crate_name_matches(command.get_args(), &self.targets)
    }
}

/// Extends `command` with the engine's options if it compiles one of the
/// engine's targets into an executable, and hands it back untouched otherwise.
pub fn append_linkargs(command: Invocation, engine: &LinkArgsEngine) -> (out: Invocation)
    ensures
        out@.program == command@.program,
        out@.args == rewritten(command@.args, engine@),
{
    let mut command = command;
    if engine.matches(&command) {
        let extra = engine.injection();
        command.args(&extra);
    }
    command
}

/// The seam through which a build hands over each compiler invocation before
/// it runs it: an engine gives back the invocation that is to run in its place.
pub trait CommandRewriter {
    /// The arguments that this engine makes of `args`.
    spec fn rewrite_spec(&self, args: Seq<Seq<char>>) -> Seq<Seq<char>>;

    /// The invocation to run in place of `command`: the same program, with the
    /// arguments that `rewrite_spec` gives.
    fn rewrite(&self, command: Invocation) -> (out: Invocation)
        ensures
            out@.program == command@.program,
            out@.args == self.rewrite_spec(command@.args),
    ;
}

/// The engine that changes nothing.
#[derive(Debug, Clone, Copy)]
pub struct PassThroughEngine;

impl CommandRewriter for PassThroughEngine {
    open spec fn rewrite_spec(&self, args: Seq<Seq<char>>) -> Seq<Seq<char>> {
        args
    }

    fn rewrite(&self, command: Invocation) -> (out: Invocation) {
        command
    }
}

impl CommandRewriter for LinkArgsEngine {
    open spec fn rewrite_spec(&self, args: Seq<Seq<char>>) -> Seq<Seq<char>> {
        rewritten(args, self@)
    }

    fn rewrite(&self, command: Invocation) -> (out: Invocation) {
        append_linkargs(command, self)
    }
}

/// An invocation whose crate name is not an eligible target keeps its
/// arguments exactly.
pub proof fn lemma_other_crate_untouched(args: Seq<Seq<char>>, engine: EngineView)
    requires
        !names_target(args, engine.targets),
    ensures
        rewritten(args, engine) == args,
{
}

/// An invocation that does not produce an executable keeps its arguments
/// exactly.
pub proof fn lemma_non_binary_untouched(args: Seq<Seq<char>>, engine: EngineView)
    requires
        !produces_binary(args),
    ensures
        rewritten(args, engine) == args,
{
}

/// An engine without targets rewrites nothing.
pub proof fn lemma_no_targets_rewrites_nothing(args: Seq<Seq<char>>, engine: EngineView)
    requires
        engine.targets.len() == 0,
    ensures
        rewritten(args, engine) == args,
{
}

/// An eligible invocation gains the linker option, as the two tokens `-C` and
/// `link-args=` followed by the configured text, and after it, if asked for,
/// the diagnostic option, as the two tokens `-Z` and `print-link-args`.
/// Nothing else changes.
pub proof fn lemma_eligible_gains_options(
    args: Seq<Seq<char>>,
    engine: EngineView,
    link_args: Seq<char>,
)
    requires
        eligible(args, engine.targets),
        engine.link_args == Some(link_args),
    ensures
        !engine.print_link_args ==> rewritten(args, engine) == args.push("-C"@).push(
            "link-args="@ + link_args,
        ),
        engine.print_link_args ==> rewritten(args, engine) == args.push("-C"@).push(
            "link-args="@ + link_args,
        ).push("-Z"@).push("print-link-args"@),
{
    let linked = args.push("-C"@).push("link-args="@ + link_args);
    assert(args + link_option(engine.link_args) =~= linked);
    if engine.print_link_args {
        assert(rewritten(args, engine) =~= linked.push("-Z"@).push("print-link-args"@));
    } else {
        assert(rewritten(args, engine) =~= linked);
    }
}

/// An eligible invocation with no linker arguments configured gains the
/// diagnostic option alone, or nothing where that is not asked for either.
pub proof fn lemma_eligible_without_link_args(args: Seq<Seq<char>>, engine: EngineView)
    requires
        eligible(args, engine.targets),
        engine.link_args is None,
    ensures
        engine.print_link_args ==> rewritten(args, engine) == args.push("-Z"@).push(
            "print-link-args"@,
        ),
        !engine.print_link_args ==> rewritten(args, engine) == args,
{
    if engine.print_link_args {
        assert(rewritten(args, engine) =~= args.push("-Z"@).push("print-link-args"@));
    } else {
        assert(rewritten(args, engine) =~= args);
    }
}

/// The existing arguments are never removed or reordered: the input is a
/// prefix of the output.
pub proof fn lemma_rewrite_keeps_prefix(args: Seq<Seq<char>>, engine: EngineView)
    ensures
        args.len() <= rewritten(args, engine).len(),
        rewritten(args, engine).subrange(0, args.len() as int) == args,
{
    assert(rewritten(args, engine).subrange(0, args.len() as int) =~= args);
}

/// Rewriting does not change whether an invocation is eligible.
pub proof fn lemma_rewrite_keeps_eligibility(args: Seq<Seq<char>>, engine: EngineView)
    ensures
        eligible(rewritten(args, engine), engine.targets) == eligible(args, engine.targets),
{
    if eligible(args, engine.targets) {
        lemma_eligible_survives_append(args, engine.targets, injected(engine));
    }
}

/// Rewriting a second time gives what the first gave exactly when the first
/// appended nothing: the invocation was not eligible, or there was nothing
/// configured to append. An eligible invocation is extended again on every
/// further application, so a caller applies the rewrite once per invocation.
pub proof fn lemma_second_rewrite(args: Seq<Seq<char>>, engine: EngineView)
    ensures
        rewritten(rewritten(args, engine), engine) == rewritten(args, engine) <==> !eligible(
            args,
            engine.targets,
        ) || injected(engine).len() == 0,
        eligible(args, engine.targets) ==> rewritten(rewritten(args, engine), engine) == args
            + injected(engine) + injected(engine),
{
    lemma_rewrite_keeps_eligibility(args, engine);
    if eligible(args, engine.targets) {
        let once = args + injected(engine);
        let twice = once + injected(engine);
        assert(rewritten(rewritten(args, engine), engine) == twice);
        if injected(engine).len() == 0 {
            assert(twice =~= once);
        } else {
            assert(twice.len() != once.len());
        }
    }
}

} // verus!

use vstd::prelude::*;
use vstd::string::StringExecFns;
use cargo_util::ProcessBuilder;
use crate::engine::{injected, rewritten, EngineView, LinkArgsEngine};
use crate::matching::{
    binary_kind, crate_name_flag, crate_type_flag, eligible, flag_at, flag_with_value_in,
    lemma_single_value,
};
use crate::text::{contains_text, optional_text, optional_texts, texts};

verus! {

/// The command builder that the build tool hands over for each compiler run.
#[verifier::external_type_specification]
#[verifier::external_body]
pub struct ExProcessBuilder(ProcessBuilder);

/// The arguments that a command passes to its program, in order: the text of
/// each argument that is valid Unicode, and `None` for one that is not.
pub uninterp spec fn command_args(cmd: ProcessBuilder) -> Seq<Option<Seq<char>>>;

/// The program that a command runs, as text.
pub uninterp spec fn command_program(cmd: ProcessBuilder) -> Seq<char>;

/// `ProcessBuilder::get_args`, each argument turned with `OsStr::to_str` into
/// an owned string, or into `None` where it is not valid Unicode. Claimed: the
/// result holds the command's arguments, in order.
#[verifier::external_body]
fn args_of(cmd: &ProcessBuilder) -> (args: Vec<Option<String>>)
    ensures
        optional_texts(args@) == command_args(*cmd),
{
    cmd.get_args().map(|arg| arg.to_str().map(|text| text.to_owned())).collect()
}

/// `ProcessBuilder::arg`. Claimed: the argument is added behind those that the
/// command has, which stay as they are, and the program stays the same.
#[verifier::external_body]
fn push_arg(cmd: &mut ProcessBuilder, arg: &str)
    ensures
        command_args(*final(cmd)) == command_args(*old(cmd)).push(Some(arg@)),
        command_program(*final(cmd)) == command_program(*old(cmd)),
{
    cmd.arg(arg);
}

/// Arguments that are all valid Unicode, as a command holds them.
pub open spec fn as_unicode(args: Seq<Seq<char>>) -> Seq<Option<Seq<char>>> {
    args.map_values(|arg: Seq<char>| Some(arg))
}

/// Position `i` holds `flag` and a value that is valid Unicode follows it at
/// `i + 1`.
pub open spec fn unicode_flag_at(args: Seq<Option<Seq<char>>>, i: int, flag: Seq<char>) -> bool {
    0 <= i && i + 1 < args.len() && args[i] == Some(flag) && args[i + 1] is Some
}

/// Somewhere `flag` is directly followed by one of `values`. An argument that
/// is not valid Unicode is neither a flag nor a value.
pub open spec fn command_has(
    args: Seq<Option<Seq<char>>>,
    flag: Seq<char>,
    values: Seq<Seq<char>>,
) -> bool {
    exists|i: int| #[trigger] unicode_flag_at(args, i, flag) && values.contains(args[i + 1]->0)
}

/// The command names an eligible target as its crate and produces a final
/// executable.
pub open spec fn command_eligible(args: Seq<Option<Seq<char>>>, targets: Seq<Seq<char>>) -> bool {
    command_has(args, crate_name_flag(), targets) && command_has(
        args,
        crate_type_flag(),
        seq![binary_kind()],
    )
}

/// The arguments that `engine` makes of a command's arguments.
pub open spec fn rewritten_command(
    args: Seq<Option<Seq<char>>>,
    engine: EngineView,
) -> Seq<Option<Seq<char>>> {
    if command_eligible(args, engine.targets) {
        args + as_unicode(injected(engine))
    } else {
        args
    }
}

/// Scans a command's arguments for `flag` directly followed by a member of
/// `values`.
fn command_has_flag(args: &Vec<Option<String>>, flag: &str, values: &Vec<String>) -> (found: bool)
    ensures
        found == command_has(optional_texts(args@), flag@, texts(values@)),
{
    let flag_owned = String::from_str(flag);
    let mut next: usize = 1;
    while next < args.len()
        invariant
            1 <= next,
            flag_owned@ == flag@,
            forall|k: int|
                0 <= k < next - 1 ==> !(#[trigger] unicode_flag_at(optional_texts(args@), k, flag@)
                    && texts(values@).contains(optional_texts(args@)[k + 1]->0)),
        decreases args.len() - next,
    {
        assert(optional_texts(args@)[next - 1] == optional_text(args@[next - 1]));
        assert(optional_texts(args@)[next as int] == optional_text(args@[next as int]));
        let hit = match &args[next - 1] {
            Some(first) => match &args[next] {
                Some(second) => *first == flag_owned && contains_text(values, second),
                None => false,
            },
            None => false,
        };
        if hit {
            assert(unicode_flag_at(optional_texts(args@), next - 1, flag@));
            return true;
        }
        next += 1;
    }
    false
}

/// Extends `cmd` in place with the engine's options if it compiles one of the
/// engine's targets into an executable, and leaves its arguments as they are
/// otherwise. The program is the same in both cases.
pub fn rewrite_command(cmd: &mut ProcessBuilder, engine: &LinkArgsEngine)
    ensures
        command_args(*final(cmd)) == rewritten_command(command_args(*old(cmd)), engine@),
        command_program(*final(cmd)) == command_program(*old(cmd)),
{
    let args = args_of(cmd);
    let mut kinds: Vec<String> = Vec::new();
    kinds.push(String::from_str("bin"));
    assert(texts(kinds@) =~= seq![binary_kind()]);
    if command_has_flag(&args, "--crate-type", &kinds) && command_has_flag(
        &args,
        "--crate-name",
        &engine.targets,
    ) {
        let extra = engine.injection();
        let mut i: usize = 0;
        assert(command_args(*cmd) =~= command_args(*old(cmd)) + as_unicode(
            texts(extra@).subrange(0, 0),
        ));
        while i < extra.len()
            invariant
                i <= extra.len(),
                command_program(*cmd) == command_program(*old(cmd)),
                command_args(*cmd) == command_args(*old(cmd)) + as_unicode(
                    texts(extra@).subrange(0, i as int),
                ),
            decreases extra.len() - i,
        {
            push_arg(cmd, extra[i].as_str());
            assert(texts(extra@).subrange(0, i + 1) =~= texts(extra@).subrange(0, i as int).push(
                extra@[i as int]@,
            ));
            assert(command_args(*cmd) =~= command_args(*old(cmd)) + as_unicode(
                texts(extra@).subrange(0, i + 1),
            ));
            i += 1;
        }
        assert(texts(extra@).subrange(0, i as int) =~= texts(extra@));
    }
}

/// On arguments that are all valid Unicode a command is matched as an
/// invocation is.
pub proof fn lemma_unicode_command_has(
    args: Seq<Seq<char>>,
    flag: Seq<char>,
    values: Seq<Seq<char>>,
)
    ensures
        command_has(as_unicode(args), flag, values) == flag_with_value_in(args, flag, values),
{
    if command_has(as_unicode(args), flag, values) {
        let i = choose|i: int|
            #[trigger] unicode_flag_at(as_unicode(args), i, flag) && values.contains(
                as_unicode(args)[i + 1]->0,
            );
        assert(flag_at(args, i, flag) && values.contains(args[i + 1]));
    }
    if flag_with_value_in(args, flag, values) {
        let i = choose|i: int| #[trigger] flag_at(args, i, flag) && values.contains(args[i + 1]);
        assert(unicode_flag_at(as_unicode(args), i, flag));
        assert(as_unicode(args)[i + 1]->0 == args[i + 1]);
    }
}

/// A command whose arguments are all valid Unicode is rewritten exactly as the
/// invocation with those arguments is.
pub proof fn lemma_unicode_command_as_invocation(args: Seq<Seq<char>>, engine: EngineView)
    ensures
        command_eligible(as_unicode(args), engine.targets) == eligible(args, engine.targets),
        rewritten_command(as_unicode(args), engine) == as_unicode(rewritten(args, engine)),
{
    lemma_unicode_command_has(args, crate_name_flag(), engine.targets);
    lemma_unicode_command_has(args, crate_type_flag(), seq![binary_kind()]);
    lemma_single_value(args, crate_type_flag(), binary_kind());
    assert(as_unicode(args) + as_unicode(injected(engine)) =~= as_unicode(
        args + injected(engine),
    ));
}

/// An argument that is not valid Unicode takes no part in a match: neither as
/// a flag nor as the value behind one.
pub proof fn lemma_non_unicode_never_matches(
    args: Seq<Option<Seq<char>>>,
    i: int,
    flag: Seq<char>,
)
    requires
        0 <= i < args.len(),
        args[i] is None,
    ensures
        !unicode_flag_at(args, i, flag),
        !unicode_flag_at(args, i - 1, flag),
{
}

} // verus!

use vstd::prelude::*;
use vstd::string::StringExecFns;
use crate::text::{texts, contains_text};

verus! {

/// The flag that announces the name of the crate being compiled.
pub open spec fn crate_name_flag() -> Seq<char> {
    "--crate-name"@
}

/// The flag that announces the kind of artifact being produced.
pub open spec fn crate_type_flag() -> Seq<char> {
    "--crate-type"@
}

/// The artifact kind of a final executable.
pub open spec fn binary_kind() -> Seq<char> {
    "bin"@
}

/// Position `i` holds `flag` and a value follows it at `i + 1`.
pub open spec fn flag_at(args: Seq<Seq<char>>, i: int, flag: Seq<char>) -> bool {
    0 <= i && i + 1 < args.len() && args[i] == flag
}

/// Somewhere `flag` is directly followed by one of `values`.
pub open spec fn flag_with_value_in(
    args: Seq<Seq<char>>,
    flag: Seq<char>,
    values: Seq<Seq<char>>,
) -> bool {
    exists|i: int| #[trigger] flag_at(args, i, flag) && values.contains(args[i + 1])
}

/// The invocation declares a crate name that is one of `targets`, spelled exactly.
pub open spec fn names_target(args: Seq<Seq<char>>, targets: Seq<Seq<char>>) -> bool {
    flag_with_value_in(args, crate_name_flag(), targets)
}

/// The invocation declares that it produces a final executable.
pub open spec fn produces_binary(args: Seq<Seq<char>>) -> bool {
    exists|i: int| #[trigger] flag_at(args, i, crate_type_flag()) && args[i + 1] == binary_kind()
}

/// The invocation is one whose arguments are to be extended: it names an
/// eligible target and produces a final executable.
pub open spec fn eligible(args: Seq<Seq<char>>, targets: Seq<Seq<char>>) -> bool {
    names_target(args, targets) && produces_binary(args)
}

/// Scans `args` for `flag` directly followed by a member of `values`.
pub fn has_flag_with_value_in(args: &Vec<String>, flag: &str, values: &Vec<String>) -> (found: bool)
    ensures
        found == flag_with_value_in(texts(args@), flag@, texts(values@)),
{
    let flag_owned = String::from_str(flag);
    let mut next: usize = 1;
    while next < args.len()
        invariant
            1 <= next,
            flag_owned@ == flag@,
            forall|k: int|
                0 <= k < next - 1 ==> !(#[trigger] flag_at(texts(args@), k, flag@) && texts(
                    values@,
                ).contains(texts(args@)[k + 1])),
        decreases args.len() - next,
    {
        assert(texts(args@)[next - 1] == args@[next - 1]@);
        assert(texts(args@)[next as int] == args@[next as int]@);
        if args[next - 1] == flag_owned && contains_text(values, &args[next]) {
            assert(flag_at(texts(args@), next - 1, flag@));
            return true;
        }
        next += 1;
    }
    false
}

/// Whether the invocation names one of `targets` as its crate.
pub fn crate_name_matches(args: &Vec<String>, targets: &Vec<String>) -> (found: bool)
    ensures
        found == names_target(texts(args@), texts(targets@)),
{
    has_flag_with_value_in(args, "--crate-name", targets)
}

/// Whether the invocation produces a final executable.
pub fn is_binary(args: &Vec<String>) -> (found: bool)
    ensures
        found == produces_binary(texts(args@)),
{
    let mut kinds: Vec<String> = Vec::new();
    kinds.push(String::from_str("bin"));
    assert(texts(kinds@) =~= seq![binary_kind()]);
    proof {
        lemma_single_value(texts(args@), crate_type_flag(), binary_kind());
    }
    has_flag_with_value_in(args, "--crate-type", &kinds)
}

/// To be followed by a member of a list of one value is to be followed by
/// that value.
pub proof fn lemma_single_value(args: Seq<Seq<char>>, flag: Seq<char>, value: Seq<char>)
    ensures
        flag_with_value_in(args, flag, seq![value]) <==> exists|i: int|
            #[trigger] flag_at(args, i, flag) && args[i + 1] == value,
{
    if flag_with_value_in(args, flag, seq![value]) {
        let i = choose|i: int| #[trigger] flag_at(args, i, flag) && seq![value].contains(args[i + 1]);
        assert(flag_at(args, i, flag) && args[i + 1] == value);
    }
    if exists|i: int| #[trigger] flag_at(args, i, flag) && args[i + 1] == value {
        let i = choose|i: int| #[trigger] flag_at(args, i, flag) && args[i + 1] == value;
        assert(seq![value][0] == value);
        assert(flag_at(args, i, flag) && seq![value].contains(args[i + 1]));
    }
}

/// An eligible invocation stays eligible when arguments are added at its end.
pub proof fn lemma_eligible_survives_append(
    args: Seq<Seq<char>>,
    targets: Seq<Seq<char>>,
    more: Seq<Seq<char>>,
)
    requires
        eligible(args, targets),
    ensures
        eligible(args + more, targets),
{
    let i = choose|i: int|
        #[trigger] flag_at(args, i, crate_name_flag()) && targets.contains(args[i + 1]);
    assert(flag_at(args + more, i, crate_name_flag()));
    assert((args + more)[i + 1] == args[i + 1]);
    let j = choose|j: int|
        #[trigger] flag_at(args, j, crate_type_flag()) && args[j + 1] == binary_kind();
    assert(flag_at(args + more, j, crate_type_flag()));
    assert((args + more)[j + 1] == args[j + 1]);
}

/// The membership test is exact: where no argument is spelled as any target
/// is, no crate name matches.
pub proof fn lemma_no_match_without_exact_name(args: Seq<Seq<char>>, targets: Seq<Seq<char>>)
    requires
        forall|i: int, j: int|
            0 <= i < args.len() && 0 <= j < targets.len() ==> args[i] != targets[j],
    ensures
        !names_target(args, targets),
        !eligible(args, targets),
{
}

/// With no eligible target, no invocation is eligible.
pub proof fn lemma_empty_targets_never_match(args: Seq<Seq<char>>)
    ensures
        !eligible(args, Seq::<Seq<char>>::empty()),
{
}

/// Without a `--crate-name` that a value follows, or without such a
/// `--crate-type`, the invocation is not eligible.
pub proof fn lemma_missing_flag_never_matches(args: Seq<Seq<char>>, targets: Seq<Seq<char>>)
    requires
        (forall|i: int| !flag_at(args, i, crate_name_flag())) || (forall|i: int|
            !flag_at(args, i, crate_type_flag())),
    ensures
        !eligible(args, targets),
{
}

} // verus!

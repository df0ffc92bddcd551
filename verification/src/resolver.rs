use vstd::prelude::*;
use crate::text::{texts, lemma_texts_push};

verus! {

broadcast use vstd::string::group_string_axioms;

/// The kinds of target that a package can declare.
#[derive(Debug, Clone, Copy)]
pub enum TargetKind {
    Library,
    Binary,
    Example,
    Test,
    Bench,
    BuildScript,
}

/// What a target is to the contracts.
pub struct TargetView {
    pub name: Seq<char>,
    pub kind: TargetKind,
}

/// One target of a package, as its manifest declares it.
#[derive(Debug)]
pub struct Target {
    pub name: String,
    pub kind: TargetKind,
}

impl View for Target {
    type V = TargetView;

    open spec fn view(&self) -> TargetView {
        TargetView { name: self.name@, kind: self.kind }
    }
}

impl Target {
    /// Whether this target is a binary.
    pub fn is_bin(&self) -> (yes: bool)
        ensures
            yes == (self.kind is Binary),
    {
        match self.kind {
            TargetKind::Binary => true,
            _ => false,
        }
    }

    /// Whether this target is an example.
    pub fn is_example(&self) -> (yes: bool)
        ensures
            yes == (self.kind is Example),
    {
        match self.kind {
            TargetKind::Example => true,
            _ => false,
        }
    }
}

/// A target's name as the compiler spells the crate: each `-` becomes `_`,
/// every other character stays.
pub open spec fn normalized(name: Seq<char>) -> Seq<char> {
    name.map_values(|c: char| if c == '-' { '_' } else { c })
}

/// A normalized name holds no `-`, and is as long as the name it came from.
pub proof fn lemma_normalized_has_no_hyphen(name: Seq<char>)
    ensures
        normalized(name).len() == name.len(),
        !normalized(name).contains('-'),
{
}

/// A name that holds no `-` is its own normalized form; so normalizing twice
/// gives what normalizing once gives.
pub proof fn lemma_normalized_is_stable(name: Seq<char>)
    ensures
        !name.contains('-') ==> normalized(name) == name,
        normalized(normalized(name)) == normalized(name),
{
    if !name.contains('-') {
        assert forall|i: int| 0 <= i < name.len() implies name[i] != '-' by {
            assert(name.contains(name[i]));
        }
        assert(normalized(name) =~= name);
    }
    assert(normalized(normalized(name)) =~= normalized(name));
}

/// The targets as the contracts see them, in order.
pub open spec fn target_views(targets: Seq<Target>) -> Seq<TargetView> {
    targets.map_values(|t: Target| t@)
}

/// The normalized names of those of `targets` that are examples (with
/// `examples` true) or binaries (with `examples` false), in their order.
pub open spec fn names_of(targets: Seq<TargetView>, examples: bool) -> Seq<Seq<char>> {
    targets.filter_map(
        |t: TargetView|
            if (examples && t.kind is Example) || (!examples && t.kind is Binary) {
                Some(normalized(t.name))
            } else {
                None
            },
    )
}

/// `String::push`: the string grows by the one character at its end.
#[verifier::external_body]
fn push_char(s: &mut String, c: char)
    ensures
        final(s)@ == old(s)@.push(c),
{
    s.push(c)
}

/// Spells a target's name as the compiler spells the crate.
pub fn normalize_name(name: &str) -> (out: String)
    ensures
        out@ == normalized(name@),
{
    let mut out = String::new();
    for c in it: name.chars()
        invariant
            it.seq() == name@,
            out@ == normalized(name@.take(it.index() as int)),
    {
        if c == '-' {
            push_char(&mut out, '_');
        } else {
            push_char(&mut out, c);
        }
        assert(out@ =~= normalized(name@.take(it.index() + 1)));
    }
    assert(name@.take(name@.len() as int) =~= name@);
    out
}

/// Collects the normalized names of the examples, or of the binaries.
fn collect_names(targets: &Vec<Target>, examples: bool) -> (out: Vec<String>)
    ensures
        texts(out@) == names_of(target_views(targets@), examples),
{
    let mut out: Vec<String> = Vec::new();
    let mut i: usize = 0;
    assert(texts(out@) =~= names_of(target_views(targets@).take(0), examples));
    while i < targets.len()
        invariant
            i <= targets.len(),
            texts(out@) == names_of(target_views(targets@).take(i as int), examples),
        decreases targets.len() - i,
    {
        let target = &targets[i];
        let wanted = if examples {
            target.is_example()
        } else {
            target.is_bin()
        };
        proof {
            assert(target_views(targets@)[i as int] == target@);
            target_views(targets@).lemma_filter_map_take_succ(
                |t: TargetView|
                    if (examples && t.kind is Example) || (!examples && t.kind is Binary) {
                        Some(normalized(t.name))
                    } else {
                        None
                    },
                i as int,
            );
        }
        if wanted {
            let name = normalize_name(target.name.as_str());
            proof {
                lemma_texts_push(out@, name);
            }
            out.push(name);
            assert(texts(out@) =~= names_of(target_views(targets@).take(i + 1), examples));
        }
        i += 1;
    }
    assert(target_views(targets@).take(i as int) =~= target_views(targets@));
    out
}

/// The names eligible for injection that a package declares: first those of
/// its examples, then those of its binaries, each list in declaration order and
/// each name normalized. A package with neither gives two empty lists.
pub fn get_target_names(targets: &Vec<Target>) -> (names: (Vec<String>, Vec<String>))
    ensures
        texts(names.0@) == names_of(target_views(targets@), true),
        texts(names.1@) == names_of(target_views(targets@), false),
{
    let examples = collect_names(targets, true);
    let bins = collect_names(targets, false);
    (examples, bins)
}

} // verus!

use vstd::prelude::*;
use crate::engine::LinkArgsEngine;
use crate::resolver::{normalize_name, normalized};
use crate::text::{clone_strings, lemma_texts_concat, lemma_texts_push, optional_text, texts};

verus! {

/// The command-line choices that shape a build.
#[derive(Debug)]
pub struct BuildOptions {
    /// The one example to build, if one was named.
    pub example: Option<String>,
    /// Build every example of the package.
    pub build_examples: bool,
    /// Build only the library.
    pub lib_only: bool,
    /// The text to hand to the linker.
    pub link_args: Option<String>,
    /// Ask the compiler to print the final link command.
    pub print_link_args: bool,
}

/// What a filter is to the contracts.
pub enum FilterView {
    Everything,
    LibraryOnly,
    LibraryAndExamples(Seq<Seq<char>>),
}

/// Which targets of the package the build covers.
#[derive(Debug)]
pub enum CompileFilter {
    /// Every target that a plain build covers.
    Everything,
    /// The library alone.
    LibraryOnly,
    /// The library and the named examples.
    LibraryAndExamples(Vec<String>),
}

impl View for CompileFilter {
    type V = FilterView;

    open spec fn view(&self) -> FilterView {
        match self {
            CompileFilter::Everything => FilterView::Everything,
            CompileFilter::LibraryOnly => FilterView::LibraryOnly,
            CompileFilter::LibraryAndExamples(names) => FilterView::LibraryAndExamples(
                texts(names@),
            ),
        }
    }
}

/// A build that is ready to start: what to compile, and the engine that
/// rewrites the compiler invocations.
#[derive(Debug)]
pub struct BuildPlan {
    pub filter: CompileFilter,
    pub engine: LinkArgsEngine,
}

/// The examples that take part in the build: the one that was named, spelled
/// as given; else all of the package's, if all were asked for; else none.
pub open spec fn selected_examples(
    example: Option<Seq<char>>,
    build_examples: bool,
    examples: Seq<Seq<char>>,
) -> Seq<Seq<char>> {
    match example {
        Some(name) => seq![name],
        None => if build_examples {
            examples
        } else {
            Seq::empty()
        },
    }
}

/// The examples whose invocations are eligible, under their crate names: the
/// one that was named, normalized; else all of the package's, which the
/// resolver has normalized, if all were asked for; else none.
pub open spec fn eligible_examples(
    example: Option<Seq<char>>,
    build_examples: bool,
    examples: Seq<Seq<char>>,
) -> Seq<Seq<char>> {
    match example {
        Some(name) => seq![normalized(name)],
        None => if build_examples {
            examples
        } else {
            Seq::empty()
        },
    }
}

/// The filter for a build: the library alone where that was asked for; else
/// the library with the selected examples where there are any; else everything.
pub open spec fn chosen_filter(lib_only: bool, examples: Seq<Seq<char>>) -> FilterView {
    if lib_only {
        FilterView::LibraryOnly
    } else if examples.len() > 0 {
        FilterView::LibraryAndExamples(examples)
    } else {
        FilterView::Everything
    }
}

/// Picks the examples that take part in the build.
pub fn select_examples(example: Option<String>, build_examples: bool, examples: Vec<String>) -> (out:
    Vec<String>)
    ensures
        texts(out@) == selected_examples(optional_text(example), build_examples, texts(examples@)),
{
    match example {
        Some(name) => {
            let mut out: Vec<String> = Vec::new();
            proof {
                lemma_texts_push(out@, name);
            }
            out.push(name);
            assert(texts(out@) =~= seq![name@]);
            out
        },
        None => {
            if build_examples {
                examples
            } else {
                let out: Vec<String> = Vec::new();
                assert(texts(out@) =~= Seq::<Seq<char>>::empty());
                out
            }
        },
    }
}

/// Names the examples whose invocations are eligible, as the compiler spells
/// their crates.
pub fn eligible_example_names(
    example: &Option<String>,
    build_examples: bool,
    examples: &Vec<String>,
) -> (out: Vec<String>)
    ensures
        texts(out@) == eligible_examples(optional_text(*example), build_examples, texts(examples@)),
{
    match example {
        Some(name) => {
            let mut out: Vec<String> = Vec::new();
            let crate_name = normalize_name(name.as_str());
            proof {
                lemma_texts_push(out@, crate_name);
            }
            out.push(crate_name);
            assert(texts(out@) =~= seq![normalized(name@)]);
            out
        },
        None => {
            if build_examples {
                clone_strings(examples)
            } else {
                let out: Vec<String> = Vec::new();
                assert(texts(out@) =~= Seq::<Seq<char>>::empty());
                out
            }
        },
    }
}

/// Picks the filter for a build.
pub fn choose_filter(lib_only: bool, examples: &Vec<String>) -> (filter: CompileFilter)
    ensures
        filter@ == chosen_filter(lib_only, texts(examples@)),
{
    if lib_only {
        CompileFilter::LibraryOnly
    } else if examples.len() > 0 {
        CompileFilter::LibraryAndExamples(clone_strings(examples))
    } else {
        CompileFilter::Everything
    }
}

/// Settles what to build and how to rewrite. The filter names the selected
/// examples as they were given. The engine's targets are the package's
/// binaries followed by the eligible examples under their crate names, and its
/// linker arguments and diagnostic flag are those of the options.
pub fn plan_build(options: BuildOptions, examples: Vec<String>, bins: Vec<String>) -> (plan:
    BuildPlan)
    ensures
        plan.filter@ == chosen_filter(
            options.lib_only,
            selected_examples(
                optional_text(options.example),
                options.build_examples,
                texts(examples@),
            ),
        ),
        plan.engine@.targets == texts(bins@) + eligible_examples(
            optional_text(options.example),
            options.build_examples,
            texts(examples@),
        ),
        plan.engine@.link_args == optional_text(options.link_args),
        plan.engine@.print_link_args == options.print_link_args,
{
    let mut eligible = eligible_example_names(&options.example, options.build_examples, &examples);
    let selected = select_examples(options.example, options.build_examples, examples);
    let filter = choose_filter(options.lib_only, &selected);
    let mut targets = bins;
    proof {
        lemma_texts_concat(targets@, eligible@);
    }
    targets.append(&mut eligible);
    BuildPlan {
        filter,
        engine: LinkArgsEngine::new(targets, options.link_args, options.print_link_args),
    }
}

/// The exit code of the tool: 101 when resolving the targets or the build
/// failed, 0 otherwise.
pub fn exit_code(failed: bool) -> (code: i32)
    ensures
        code == if failed { 101i32 } else { 0i32 },
{
    if failed {
        101
    } else {
        0
    }
}

} // verus!

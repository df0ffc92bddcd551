use vstd::prelude::*;

verus! {

/// A list of owned strings as mathematical strings, in order.
pub open spec fn texts(v: Seq<String>) -> Seq<Seq<char>> {
    v.map_values(|s: String| s@)
}

/// An optional string as an optional mathematical string.
pub open spec fn optional_text(s: Option<String>) -> Option<Seq<char>> {
    match s {
        Some(s) => Some(s@),
        None => None,
    }
}

/// A list of optional strings as optional mathematical strings, in order.
pub open spec fn optional_texts(v: Seq<Option<String>>) -> Seq<Option<Seq<char>>> {
    v.map_values(|s: Option<String>| optional_text(s))
}

/// Appending one string to a list appends its text to the list's texts.
pub proof fn lemma_texts_push(v: Seq<String>, s: String)
    ensures
        texts(v.push(s)) == texts(v).push(s@),
{
    assert(texts(v.push(s)) =~= texts(v).push(s@));
}

/// The texts of a concatenation are the concatenation of the texts.
pub proof fn lemma_texts_concat(a: Seq<String>, b: Seq<String>)
    ensures
        texts(a + b) == texts(a) + texts(b),
{
    assert(texts(a + b) =~= texts(a) + texts(b));
}

/// Copies a list of strings.
pub fn clone_strings(v: &Vec<String>) -> (out: Vec<String>)
    ensures
        texts(out@) == texts(v@),
{
    let mut out: Vec<String> = Vec::new();
    let mut i: usize = 0;
    while i < v.len()
        invariant
            i <= v.len(),
            out@.len() == i,
            forall|k: int| 0 <= k < i ==> out@[k]@ == v@[k]@,
        decreases v.len() - i,
    {
        out.push(v[i].clone());
        i += 1;
    }
    assert(texts(out@) =~= texts(v@));
    out
}

/// Whether `name` occurs in `names`, compared character by character.
pub fn contains_text(names: &Vec<String>, name: &String) -> (found: bool)
    ensures
        found == texts(names@).contains(name@),
{
    let mut i: usize = 0;
    while i < names.len()
        invariant
            i <= names.len(),
            forall|k: int| 0 <= k < i ==> names@[k]@ != name@,
        decreases names.len() - i,
    {
        if names[i] == *name {
            assert(texts(names@)[i as int] == name@);
            return true;
        }
        i += 1;
    }
    assert forall|k: int| 0 <= k < texts(names@).len() implies texts(names@)[k] != name@ by {
        assert(texts(names@)[k] == names@[k]@);
    }
    false
}

} // verus!

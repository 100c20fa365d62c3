//! Link instructions that a Cargo build script prints for libraries that the CMake side
//! hands over as colon-separated lists.

use vstd::prelude::*;

verus! {

/// The pieces of `s` between the occurrences of `sep`, as `str::split` yields them: an empty
/// string gives one empty piece.
pub open spec fn split_on(s: Seq<char>, sep: char) -> Seq<Seq<char>>
    decreases s.len(),
{
    if s.len() == 0 {
        seq![seq![]]
    } else {
        let prev = split_on(s.drop_last(), sep);
        if s.last() == sep {
            prev.push(seq![])
        } else {
            prev.update(prev.len() - 1, prev.last().push(s.last()))
        }
    }
}

proof fn lemma_split_nonempty(s: Seq<char>, sep: char)
    ensures
        split_on(s, sep).len() >= 1,
    decreases s.len(),
{
    if s.len() > 0 {
        lemma_split_nonempty(s.drop_last(), sep);
    }
}

/// Splits `s` at every `sep`.
pub fn split_list(s: &str, sep: char) -> (r: Vec<String>)
    ensures
        r.deep_view() == split_on(s@, sep),
{
    let n = s.unicode_len();
    let mut parts: Vec<String> = Vec::new();
    let mut cur = String::new();
    let mut i: usize = 0;
    proof {
        assert(s@.subrange(0, 0) =~= Seq::<char>::empty());
        assert(parts.deep_view().push(cur@) =~= split_on(s@.subrange(0, 0), sep));
    }
    while i < n
        invariant
            n == s@.len(),
            i <= n,
            parts.deep_view().push(cur@) == split_on(s@.subrange(0, i as int), sep),
        decreases n - i,
    {
        let ghost prefix = s@.subrange(0, i + 1);
        proof {
            assert(prefix.drop_last() =~= s@.subrange(0, i as int));
            lemma_split_nonempty(s@.subrange(0, i as int), sep);
        }
        let c = s.get_char(i);
        if c == sep {
            let ghost before = parts.deep_view();
            let done = cur;
            parts.push(done);
            cur = String::new();
            assert(parts.deep_view() =~= before.push(done@));
            assert(parts.deep_view().push(cur@) =~= split_on(prefix, sep));
        } else {
            let ghost old_cur = cur@;
            cur.append(s.substring_char(i, i + 1));
            assert(cur@ =~= old_cur.push(c));
            assert(parts.deep_view().push(cur@) =~= split_on(prefix, sep));
        }
        i = i + 1;
    }
    let ghost before = parts.deep_view();
    let last = cur;
    parts.push(last);
    assert(parts.deep_view() =~= before.push(last@));
    assert(s@.subrange(0, n as int) =~= s@);
    parts
}

/// Each piece of `pieces` after `prefix`.
pub open spec fn prefixed(prefix: Seq<char>, pieces: Seq<Seq<char>>) -> Seq<Seq<char>> {
    pieces.map_values(|p: Seq<char>| prefix + p)
}

/// The instructions for the search directories `dirs` and the libraries `libs`, each a
/// colon-separated list when it is given.
pub open spec fn link_instruction_lines(dirs: Option<Seq<char>>, libs: Option<Seq<char>>) -> Seq<
    Seq<char>,
> {
    let search = match dirs {
        Some(d) => prefixed("cargo:rustc-link-search="@, split_on(d, ':')),
        None => seq![],
    };
    let link = match libs {
        Some(l) => prefixed("cargo:rustc-link-lib="@, split_on(l, ':')),
        None => seq![],
    };
    search + link
}

fn push_prefixed(out: &mut Vec<String>, prefix: &str, list: &str)
    ensures
        final(out).deep_view() == old(out).deep_view() + prefixed(prefix@, split_on(list@, ':')),
{
    let pieces = split_list(list, ':');
    let ghost start = out.deep_view();
    let mut i: usize = 0;
    while i < pieces.len()
        invariant
            i <= pieces.len(),
            out.deep_view() =~= start + prefixed(prefix@, pieces.deep_view().subrange(0, i as int)),
        decreases pieces.len() - i,
    {
        let line = String::from_str(prefix).concat(pieces[i].as_str());
        let ghost before = out.deep_view();
        out.push(line);
        assert(out.deep_view() =~= before.push(line@));
        assert(pieces.deep_view().subrange(0, i + 1) =~= pieces.deep_view().subrange(0, i as int).push(
            pieces.deep_view()[i as int],
        ));
        i = i + 1;
    }
    assert(pieces.deep_view().subrange(0, i as int) =~= pieces.deep_view());
}

/// The build-script lines that add each directory of `dirs` to the link search path and link
/// each library of `libs`; a list that is not given adds nothing.
pub fn link_instructions(dirs: Option<&str>, libs: Option<&str>) -> (r: Vec<String>)
    ensures
        r.deep_view() == link_instruction_lines(
            match dirs {
                Some(d) => Some(d@),
                None => None,
            },
            match libs {
                Some(l) => Some(l@),
                None => None,
            },
        ),
{
    let mut out: Vec<String> = Vec::new();
    assert(out.deep_view() =~= Seq::<Seq<char>>::empty());
    if let Some(d) = dirs {
        push_prefixed(&mut out, "cargo:rustc-link-search=", d);
    }
    if let Some(l) = libs {
        push_prefixed(&mut out, "cargo:rustc-link-lib=", l);
    }
    assert(out.deep_view() =~= link_instruction_lines(
        match dirs {
            Some(d) => Some(d@),
            None => None,
        },
        match libs {
            Some(l) => Some(l@),
            None => None,
        },
    ));
    out
}

} // verus!

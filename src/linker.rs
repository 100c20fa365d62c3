//! Choice of the link driver among the foreign languages that take part in a link, and the
//! compiler flags and environment overrides that follow from it.

use vstd::prelude::*;
use crate::text::{replace_char, replaced, upper_of, uppercase};

verus! {

/// What the build reports of one foreign language that takes part in the final link.
#[derive(Clone, Debug)]
pub struct LinkerPreference {
    pub language: String,
    /// The language's linker preference; higher wins.
    pub preference: Option<i32>,
    /// The compiler driver of the language.
    pub compiler: Option<String>,
    /// The target that the compiler driver is asked to link for.
    pub compiler_target: Option<String>,
}

/// The index of the language that the fold over `langs` selects: the first language starts
/// the running choice; a language with a preference replaces a choice without one or with a
/// strictly lower one; otherwise the earlier choice stays.
pub open spec fn best_of(langs: Seq<LinkerPreference>) -> Option<int>
    decreases langs.len(),
{
    if langs.len() == 0 {
        None
    } else {
        let i = langs.len() - 1;
        match best_of(langs.drop_last()) {
            None => Some(i),
            Some(b) => match langs[i].preference {
                None => Some(b),
                Some(p) => match langs[b].preference {
                    None => Some(i),
                    Some(c) => if p > c {
                        Some(i)
                    } else {
                        Some(b)
                    },
                },
            },
        }
    }
}

proof fn lemma_best_in_range(langs: Seq<LinkerPreference>)
    ensures
        langs.len() == 0 <==> best_of(langs) is None,
        best_of(langs) matches Some(b) ==> 0 <= b < langs.len(),
    decreases langs.len(),
{
    if langs.len() > 0 {
        lemma_best_in_range(langs.drop_last());
    }
}

/// Selects the language whose compiler drives the link; `None` when there is no language.
pub fn select_linker_language(langs: &Vec<LinkerPreference>) -> (r: Option<usize>)
    ensures
        match r {
            Some(b) => best_of(langs@) == Some(b as int),
            None => best_of(langs@) is None,
        },
{
    let mut best: Option<usize> = None;
    let mut i: usize = 0;
    while i < langs.len()
        invariant
            i <= langs.len(),
            match best {
                Some(b) => best_of(langs@.subrange(0, i as int)) == Some(b as int) && b < i,
                None => best_of(langs@.subrange(0, i as int)) is None,
            },
        decreases langs.len() - i,
    {
        proof {
            lemma_best_in_range(langs@.subrange(0, i as int));
            assert(langs@.subrange(0, i + 1).drop_last() =~= langs@.subrange(0, i as int));
        }
        best = match best {
            None => Some(i),
            Some(b) => match langs[i].preference {
                None => Some(b),
                Some(p) => match langs[b].preference {
                    None => Some(i),
                    Some(c) => if p > c {
                        Some(i)
                    } else {
                        Some(b)
                    },
                },
            },
        };
        i = i + 1;
    }
    assert(langs@.subrange(0, i as int) =~= langs@);
    best
}

/// The characters of a string without leading and trailing whitespace.
pub uninterp spec fn trim_of(s: Seq<char>) -> Seq<char>;

/// Relies on `str::trim`: the result depends on the characters alone.
#[verifier::external_body]
fn trim(s: &str) -> (r: String)
    ensures
        r@ == trim_of(s@),
{
    s.trim().to_string()
}

/// The flag that lets the link pull in the driver's default libraries.
pub open spec fn default_linker_flag() -> Seq<char> {
    " -Cdefault-linker-libraries=yes"@
}

/// The flags before trimming: the caller's flags, the default-libraries flag, the target of the
/// chosen compiler if it names one, and last the raw link arguments if there are any.
pub open spec fn raw_flags(rustflags: Seq<char>, langs: Seq<LinkerPreference>, link_args: Seq<char>) -> Seq<char> {
    let target_part = match best_of(langs) {
        Some(b) => match langs[b].compiler_target {
            Some(t) => " -Clink-args=--target="@ + t@,
            None => seq![],
        },
        None => seq![],
    };
    let args_part = if link_args.len() > 0 {
        " -Clink-args="@ + link_args
    } else {
        seq![]
    };
    rustflags + default_linker_flag() + target_part + args_part
}

/// The flags before trimming, for a non-empty list of languages.
pub fn raw_linker_flags(rustflags: &str, langs: &Vec<LinkerPreference>, link_args: &str) -> (r: String)
    requires
        langs.len() > 0,
    ensures
        r@ == raw_flags(rustflags@, langs@, link_args@),
{
    proof {
        lemma_best_in_range(langs@);
    }
    let b = match select_linker_language(langs) {
        Some(b) => b,
        None => 0,
    };
    let mut flags = String::from_str(rustflags);
    flags.append(" -Cdefault-linker-libraries=yes");
    match &langs[b].compiler_target {
        Some(t) => {
            flags.append(" -Clink-args=--target=");
            flags.append(t.as_str());
        },
        None => {},
    }
    if link_args.unicode_len() > 0 {
        flags.append(" -Clink-args=");
        flags.append(link_args);
    }
    assert(flags@ =~= raw_flags(rustflags@, langs@, link_args@));
    flags
}

/// The environment variable that names Cargo's linker for a target triple.
pub open spec fn linker_key(triple: Seq<char>) -> Seq<char> {
    "CARGO_TARGET_"@ + upper_of(replaced(triple, '-', '_')) + "_LINKER"@
}

/// The compiler driver of the chosen language, if it names one.
pub open spec fn chosen_compiler(langs: Seq<LinkerPreference>) -> Option<Seq<char>> {
    match best_of(langs) {
        Some(b) => match langs[b].compiler {
            Some(c) => Some(c@),
            None => None,
        },
        None => None,
    }
}

/// An environment override of the link driver.
#[derive(Clone, Debug)]
pub struct LinkerOverride {
    pub key: String,
    pub driver: String,
}

/// What the build of a package sets in Cargo's environment.
#[derive(Clone, Debug)]
pub struct BuildEnvironment {
    /// The value of `RUSTFLAGS`, if it is set.
    pub rustflags: Option<String>,
    /// The linker override, if the chosen language names a compiler.
    pub linker: Option<LinkerOverride>,
}

/// Works out the environment of a package build from the caller's `rustflags`, the foreign
/// languages of the link, and the raw link arguments. Without languages nothing is set.
pub fn linker_environment(
    target: &str,
    rustflags: &str,
    langs: &Vec<LinkerPreference>,
    link_args: &str,
) -> (r: BuildEnvironment)
    ensures
        langs.len() == 0 ==> r.rustflags is None && r.linker is None,
        langs.len() > 0 ==> (r.rustflags matches Some(f) && f@ == trim_of(
            raw_flags(rustflags@, langs@, link_args@),
        )),
        r.linker is Some <==> chosen_compiler(langs@) is Some,
        r.linker matches Some(o) ==> o.key@ == linker_key(target@) && Some(o.driver@)
            == chosen_compiler(langs@),
{
    proof {
        lemma_best_in_range(langs@);
    }
    let best = select_linker_language(langs);
    match best {
        None => BuildEnvironment { rustflags: None, linker: None },
        Some(b) => {
            let flags = raw_linker_flags(rustflags, langs, link_args);
            let linker = match &langs[b].compiler {
                Some(c) => {
                    proof {
                        reveal_strlit("_");
                    }
                    let key = String::from_str("CARGO_TARGET_").concat(
                        uppercase(replace_char(target, '-', "_").as_str()).as_str(),
                    ).concat("_LINKER");
                    Some(LinkerOverride { key, driver: c.clone() })
                },
                None => None,
            };
            BuildEnvironment { rustflags: Some(trim(flags.as_str())), linker }
        },
    }
}

/// Whether no language of `langs` states a preference.
pub open spec fn no_preferences(langs: Seq<LinkerPreference>) -> bool {
    forall|i: int| 0 <= i < langs.len() ==> (#[trigger] langs[i]).preference is None
}

/// Without preferences the first language is chosen; with some, the chosen language has the
/// highest preference of all, and no earlier language has that preference (ties keep the
/// earliest).
pub proof fn lemma_best_is_first_highest(langs: Seq<LinkerPreference>)
    requires
        langs.len() > 0,
    ensures
        best_of(langs) is Some,
        no_preferences(langs) ==> best_of(langs) == Some(0int),
        !no_preferences(langs) ==> ({
            let b = best_of(langs)->Some_0;
            &&& 0 <= b < langs.len()
            &&& langs[b].preference is Some
            &&& forall|i: int|
                0 <= i < langs.len() ==> (#[trigger] langs[i].preference matches Some(p) ==> p
                    <= langs[b].preference->Some_0)
            &&& forall|i: int|
                0 <= i < b ==> #[trigger] langs[i].preference != langs[b].preference
        }),
    decreases langs.len(),
{
    lemma_best_in_range(langs);
    let n = langs.len() - 1;
    let front = langs.drop_last();
    if n == 0 {
        if !no_preferences(langs) {
            assert(langs[0].preference is Some);
        }
    } else {
        lemma_best_is_first_highest(front);
        lemma_best_in_range(front);
        let bf = best_of(front)->Some_0;
        assert(forall|i: int| 0 <= i < front.len() ==> front[i] == langs[i]);
        if no_preferences(front) {
            assert(bf == 0);
        }
        match langs[n].preference {
            None => {
                if no_preferences(front) {
                    assert(no_preferences(langs));
                } else {
                    assert(!no_preferences(langs));
                    assert forall|i: int| 0 <= i < langs.len() implies (#[trigger] langs[i].preference matches Some(p) ==> p
                        <= langs[bf].preference->Some_0) by {
                        if i < n {
                            assert(front[i] == langs[i]);
                        }
                    }
                }
            },
            Some(p) => {
                assert(!no_preferences(langs));
                if no_preferences(front) {
                    assert(best_of(langs) == Some(n as int));
                } else {
                    assert forall|i: int| 0 <= i < langs.len() implies (#[trigger] langs[i].preference matches Some(q) ==> q
                        <= langs[best_of(langs)->Some_0].preference->Some_0) by {
                        if i < n {
                            assert(front[i] == langs[i]);
                        }
                    }
                }
            },
        }
    }
}

/// When the chosen language names a compiler target and no raw link arguments are given, the
/// flags end with the default-libraries flag followed by the flag that passes that target.
pub proof fn lemma_target_flag_follows_default_flag(
    rustflags: Seq<char>,
    langs: Seq<LinkerPreference>,
    target: Seq<char>,
)
    requires
        best_of(langs) matches Some(b) && langs[b].compiler_target matches Some(t) && t@ == target,
    ensures
        raw_flags(rustflags, langs, seq![]) == rustflags + default_linker_flag()
            + " -Clink-args=--target="@ + target,
{
}

} // verus!

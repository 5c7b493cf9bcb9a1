//! The environment of the child process.
//!
//! An environment is a list of name and value pairs. Where a name occurs more
//! than once, its last pair counts: [`env_map`] says what a list stands for.

use crate::text::{chars_of, joined, lemma_pieces_nonempty, pieces, same_chars, text_of};
use vstd::prelude::*;
use vstd::string::*;

verus! {

/// Name of the variable that lists the directories searched for programs.
pub const SEARCH_PATH_VARIABLE: &'static str = "PATH";

/// Separator of the entries of a list variable where `\` separates the
/// components of a path.
pub const LIST_SEPARATOR_WINDOWS: char = ';';

/// Separator of the entries of a list variable everywhere else.
pub const LIST_SEPARATOR_UNIX: char = ':';

/// The list `list` without the entries equal to `entry`; the others keep
/// their order.
pub open spec fn without(list: Seq<Seq<char>>, entry: Seq<char>) -> Seq<Seq<char>>
    decreases list.len(),
{
    if list.len() == 0 {
        list
    } else if list.last() == entry {
        without(list.drop_last(), entry)
    } else {
        without(list.drop_last(), entry).push(list.last())
    }
}

/// The value of a list variable after `dir` was put in front.
///
/// An unset or empty variable becomes `dir` alone. Otherwise `dir` comes
/// first, followed by the entries that the variable had, in their order,
/// except those equal to `dir`.
pub open spec fn merged(current: Option<Seq<char>>, dir: Seq<char>, sep: char) -> Seq<char> {
    match current {
        None => dir,
        Some(text) => if text.len() == 0 {
            dir
        } else {
            joined(seq![dir] + without(pieces(text, sep), dir), seq![sep])
        },
    }
}

/// What a list of pairs stands for: each name with the value of its last pair.
pub open spec fn env_map(vars: Seq<(Seq<char>, Seq<char>)>) -> Map<Seq<char>, Seq<char>>
    decreases vars.len(),
{
    if vars.len() == 0 {
        Map::empty()
    } else {
        env_map(vars.drop_last()).insert(vars.last().0, vars.last().1)
    }
}

/// The value of `name` in an environment, if it has one.
pub open spec fn value_of(vars: Seq<(Seq<char>, Seq<char>)>, name: Seq<char>) -> Option<Seq<char>> {
    if env_map(vars).contains_key(name) {
        Some(env_map(vars)[name])
    } else {
        None
    }
}

/// The environment `vars` with `dir` put in front of its search path. An
/// absent or empty `dir` changes nothing.
pub open spec fn with_directory(
    vars: Map<Seq<char>, Seq<char>>,
    dir: Option<Seq<char>>,
    sep: char,
) -> Map<Seq<char>, Seq<char>> {
    match dir {
        Some(d) if d.len() > 0 => {
            let current = if vars.contains_key(SEARCH_PATH_VARIABLE@) {
                Some(vars[SEARCH_PATH_VARIABLE@])
            } else {
                None
            };
            vars.insert(SEARCH_PATH_VARIABLE@, merged(current, d, sep))
        },
        _ => vars,
    }
}

/// The separator of the entries of a list variable, told from the character
/// that separates the components of a path.
pub open spec fn list_separator_spec(path_separator: char) -> char {
    if path_separator == '\\' {
        LIST_SEPARATOR_WINDOWS
    } else {
        LIST_SEPARATOR_UNIX
    }
}

pub fn list_separator(path_separator: char) -> (sep: char)
    ensures
        sep == list_separator_spec(path_separator),
{
    if path_separator == '\\' {
        LIST_SEPARATOR_WINDOWS
    } else {
        LIST_SEPARATOR_UNIX
    }
}

/// Puts `dir` in front of the list variable whose value is `current`.
pub fn merge_search_path(current: Option<String>, dir: String, sep: char) -> (value: String)
    ensures
        value@ == merged(current.deep_view(), dir@, sep),
{
    let text = match current {
        None => {
            return dir;
        },
        Some(text) => text,
    };
    let chars = chars_of(text.as_str());
    if chars.len() == 0 {
        return dir;
    }
    let first = chars_of(dir.as_str());
    let mut out: Vec<char> = chars_of(dir.as_str());
    let mut entry: Vec<char> = Vec::new();
    let mut i: usize = 0;
    assert(chars@.take(0) =~= Seq::<char>::empty());
    assert(seq![dir@] + without(Seq::<Seq<char>>::empty(), dir@) =~= seq![dir@]);
    assert(pieces(Seq::<char>::empty(), sep).drop_last() =~= Seq::<Seq<char>>::empty());
    while i < chars.len()
        invariant
            i <= chars.len(),
            first@ == dir@,
            chars@ == text@,
            entry@ == pieces(chars@.take(i as int), sep).last(),
            out@ == joined(
                seq![dir@] + without(pieces(chars@.take(i as int), sep).drop_last(), dir@),
                seq![sep],
            ),
        decreases chars.len() - i,
    {
        let ghost prefix = chars@.take(i as int);
        let ghost next = chars@.take(i + 1);
        let ghost closed = pieces(prefix, sep).drop_last();
        let c = chars[i];
        proof {
            lemma_pieces_nonempty(prefix, sep);
            assert(next.drop_last() =~= prefix);
            assert(next.last() == c);
        }
        if c == sep {
            proof {
                assert(pieces(next, sep).drop_last() =~= pieces(prefix, sep));
                assert(pieces(prefix, sep).drop_last() =~= closed);
            }
            if !same_chars(&entry, &first) {
                proof {
                    let kept = seq![dir@] + without(closed, dir@);
                    assert(without(pieces(prefix, sep), dir@) == without(closed, dir@).push(
                        entry@,
                    ));
                    assert(seq![dir@] + without(closed, dir@).push(entry@) =~= kept.push(entry@));
                    assert(kept.push(entry@).drop_last() =~= kept);
                    assert(joined(kept.push(entry@), seq![sep]) == joined(kept, seq![sep]) + seq![
                        sep,
                    ] + entry@);
                }
                let ghost before = out@;
                out.push(sep);
                let mut j: usize = 0;
                while j < entry.len()
                    invariant
                        j <= entry.len(),
                        out@ == before + seq![sep] + entry@.take(j as int),
                    decreases entry.len() - j,
                {
                    out.push(entry[j]);
                    assert(entry@.take(j + 1) =~= entry@.take(j as int).push(entry@[j as int]));
                    j += 1;
                }
                assert(entry@.take(entry@.len() as int) =~= entry@);
            } else {
                proof {
                    assert(without(pieces(prefix, sep), dir@) == without(closed, dir@));
                }
            }
            entry = Vec::new();
        } else {
            proof {
                let open = pieces(prefix, sep).last().push(c);
                assert(pieces(next, sep) == closed.push(open));
                assert(closed.push(open).drop_last() =~= closed);
            }
            entry.push(c);
        }
        i += 1;
    }
    proof {
        assert(chars@.take(chars@.len() as int) =~= chars@);
        lemma_pieces_nonempty(chars@, sep);
    }
    let ghost all = pieces(text@, sep);
    let ghost closed = all.drop_last();
    if !same_chars(&entry, &first) {
        proof {
            let kept = seq![dir@] + without(closed, dir@);
            assert(without(all, dir@) == without(closed, dir@).push(entry@));
            assert(seq![dir@] + without(closed, dir@).push(entry@) =~= kept.push(entry@));
            assert(kept.push(entry@).drop_last() =~= kept);
        }
        let ghost before = out@;
        out.push(sep);
        let mut j: usize = 0;
        while j < entry.len()
            invariant
                j <= entry.len(),
                out@ == before + seq![sep] + entry@.take(j as int),
            decreases entry.len() - j,
        {
            out.push(entry[j]);
            assert(entry@.take(j + 1) =~= entry@.take(j as int).push(entry@[j as int]));
            j += 1;
        }
        assert(entry@.take(entry@.len() as int) =~= entry@);
    } else {
        proof {
            assert(without(all, dir@) == without(closed, dir@));
        }
    }
    text_of(out)
}

/// The value of `name` in `vars`, if it has one.
pub fn lookup(vars: &Vec<(String, String)>, name: &str) -> (value: Option<String>)
    ensures
        value.deep_view() == value_of(vars.deep_view(), name@),
{
    let wanted = String::from_str(name);
    let mut value: Option<String> = None;
    let mut i: usize = 0;
    assert(vars.deep_view().take(0) =~= Seq::empty());
    while i < vars.len()
        invariant
            i <= vars.len(),
            wanted@ == name@,
            value.deep_view() == value_of(vars.deep_view().take(i as int), name@),
        decreases vars.len() - i,
    {
        proof {
            let next = vars.deep_view().take(i + 1);
            assert(next.drop_last() =~= vars.deep_view().take(i as int));
            assert(next.last() == vars.deep_view()[i as int]);
        }
        if vars[i].0 == wanted {
            value = Some(vars[i].1.clone());
        }
        i += 1;
    }
    assert(vars.deep_view().take(vars.len() as int) =~= vars.deep_view());
    value
}

/// A copy of `vars` with `dir` put in front of the search path.
pub fn with_program_directory(
    vars: &Vec<(String, String)>,
    dir: Option<String>,
    sep: char,
) -> (assembled: Vec<(String, String)>)
    ensures
        env_map(assembled.deep_view()) == with_directory(
            env_map(vars.deep_view()),
            dir.deep_view(),
            sep,
        ),
{
    let mut assembled: Vec<(String, String)> = Vec::new();
    let mut i: usize = 0;
    while i < vars.len()
        invariant
            i <= vars.len(),
            assembled.deep_view() == vars.deep_view().take(i as int),
        decreases vars.len() - i,
    {
        let ghost before = assembled.deep_view();
        assembled.push((vars[i].0.clone(), vars[i].1.clone()));
        assert(assembled.deep_view() =~= before.push(vars.deep_view()[i as int]));
        assert(vars.deep_view().take(i + 1) =~= before.push(vars.deep_view()[i as int]));
        i += 1;
    }
    assert(vars.deep_view().take(vars.len() as int) =~= vars.deep_view());
    match dir {
        None => assembled,
        Some(d) => {
            if d.as_str().unicode_len() == 0 {
                assembled
            } else {
                let current = lookup(vars, SEARCH_PATH_VARIABLE);
                let value = merge_search_path(current, d, sep);
                let ghost before = assembled.deep_view();
                assembled.push((String::from_str(SEARCH_PATH_VARIABLE), value));
                assert(assembled.deep_view().drop_last() =~= before);
                assembled
            }
        },
    }
}

} // verus!

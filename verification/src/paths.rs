//! Where a pet is kept: which of the paths on offer is used, and how a path
//! that starts at the home directory is written out in full.

use vstd::prelude::*;
use vstd::string::StringExecFns;

verus! {

/// The path a pet is kept at when no other is given.
pub const DEFAULT_PET_DIR: &'static str = "~/.config/termpet/first.pet";

/// The environment variable that names another path.
pub const PATH_VARIABLE: &'static str = "TPET_FILE_PATH";

/// The char that stands for the home directory.
pub const HOME_MARK: char = '~';

/// `s` with every occurrence of `mark` replaced by `with`.
pub open spec fn replaced(s: Seq<char>, mark: char, with: Seq<char>) -> Seq<char>
    decreases s.len(),
{
    if s.len() == 0 {
        s
    } else if s.last() == mark {
        replaced(s.drop_last(), mark, with) + with
    } else {
        replaced(s.drop_last(), mark, with).push(s.last())
    }
}

/// A text without the mark is left as it is, and so is any text when the
/// mark is replaced by itself.
pub proof fn lemma_replaced_unchanged(s: Seq<char>, mark: char, with: Seq<char>)
    ensures
        !s.contains(mark) ==> replaced(s, mark, with) == s,
        with == seq![mark] ==> replaced(s, mark, with) == s,
    decreases s.len(),
{
    if s.len() > 0 {
        let front = s.drop_last();
        lemma_replaced_unchanged(front, mark, with);
        assert(front.push(s.last()) == s);
        assert(s.contains(s.last()));
        if !s.contains(mark) {
            assert forall|i: int| 0 <= i < front.len() implies front[i] != mark by {
                assert(s[i] == front[i]);
                assert(s.contains(s[i]));
            }
        }
        if with == seq![mark] && s.last() == mark {
            assert(front + with == front.push(mark));
        }
    }
}

/// Whether a path starts at the home directory.
pub open spec fn starts_at_home(path: Seq<char>) -> bool {
    path.len() > 0 && path[0] == HOME_MARK
}

/// A path written out in full: one that starts at the home directory has
/// each of its home marks replaced by `home`, any other is left as it is.
pub open spec fn expanded(path: Seq<char>, home: Seq<char>) -> Seq<char> {
    if starts_at_home(path) {
        replaced(path, HOME_MARK, home)
    } else {
        path
    }
}

/// The path to use: the one given outright if there is one, else the one
/// from the environment if there is one, else the default.
pub open spec fn chosen_path(given: Option<Seq<char>>, from_env: Option<Seq<char>>) -> Seq<char> {
    match given {
        Some(path) => path,
        None => match from_env {
            Some(path) => path,
            None => DEFAULT_PET_DIR@,
        },
    }
}

/// Picks the path to use: the one given outright, else the one from the
/// environment, else the default.
pub fn choose_path(given: Option<String>, from_env: Option<String>) -> (r: String)
    ensures
        r@ == chosen_path(
            match given {
                Some(path) => Some(path@),
                None => None,
            },
            match from_env {
                Some(path) => Some(path@),
                None => None,
            },
        ),
{
    match given {
        Some(path) => path,
        None => match from_env {
            Some(path) => path,
            None => String::from_str(DEFAULT_PET_DIR),
        },
    }
}

/// Whether the home directory is needed to write `path` out in full.
pub fn needs_home(path: &str) -> (r: bool)
    ensures
        r == starts_at_home(path@),
{
    !path.is_empty() && path.get_char(0) == HOME_MARK
}

/// Writes a path out in full: if it starts at the home directory, every home
/// mark in it is replaced by `home`.
pub fn expand_home(path: String, home: &str) -> (r: String)
    ensures
        r@ == expanded(path@, home@),
{
    if !needs_home(path.as_str()) {
        return path;
    }
    let mut out = String::new();
    for c in it: path.as_str().chars()
        invariant
            it.seq() == path@,
            out@ == replaced(path@.take(it.index()), HOME_MARK, home@),
    {
        proof {
            let seen = path@.take(it.index());
            assert(path@.take(it.index() + 1) == seen.push(c));
            assert(seen.push(c).drop_last() == seen);
        }
        if c == HOME_MARK {
            out.append(home);
        } else {
            out.push(c);
        }
    }
    proof {
        assert(path@.take(path@.len() as int) == path@);
    }
    out
}

} // verus!

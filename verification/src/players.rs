//! The files of the playable characters within the archive, and the attacks
//! that they hold.
//!
//! The container of a character is the file `player.db.bin` in the folder
//! of the character, which is called as the character is.
use vstd::prelude::*;
use vstd::string::{StrSliceExecFns, StringExecFns};
use crate::classes::AttackMoveType;

verus! {

/// The place of the last among the first `n` characters of `s` that is `c`,
/// if there is one.
pub open spec fn last_place_of(s: Seq<char>, c: char, n: int) -> Option<int>
    decreases n,
{
    if n <= 0 {
        None
    } else if s[n - 1] == c {
        Some(n - 1)
    } else {
        last_place_of(s, c, n - 1)
    }
}

/// The character whose container the file at `path` is, if it is the
/// container of a character: the name of the folder that holds a file
/// called `player.db.bin`, where backslashes part the folders of the path.
pub open spec fn character_of_path(path: Seq<char>) -> Option<Seq<char>> {
    match last_place_of(path, '\\', path.len() as int) {
        None => None,
        Some(last) => if path.subrange(last + 1, path.len() as int) != "player.db.bin"@ {
            None
        } else {
            match last_place_of(path, '\\', last) {
                Some(before) => Some(path.subrange(before + 1, last)),
                None => Some(path.subrange(0, last)),
            }
        },
    }
}

/// The path of the container of a character within the archive.
pub open spec fn path_of_character(character: Seq<char>) -> Seq<char> {
    "data\\players\\"@ + character + "\\player.db.bin"@
}

/// The place of the first among the first `n` attacks that is called `name`,
/// if there is one.
pub open spec fn attack_place(attacks: Seq<AttackMoveType>, name: Seq<char>, n: nat) -> Option<
    int,
>
    decreases n,
{
    if n == 0 {
        None
    } else {
        match attack_place(attacks, name, (n - 1) as nat) {
            Some(i) => Some(i),
            None => if attacks[n - 1].name@ == name {
                Some(n - 1)
            } else {
                None
            },
        }
    }
}

/// Finds the last backslash among the first `n` characters of `s`.
fn last_backslash(s: &str, n: usize) -> (r: Option<usize>)
    requires
        n <= s@.len(),
    ensures
        match r {
            Some(i) => last_place_of(s@, '\\', n as int) == Some(i as int) && i < n,
            None => last_place_of(s@, '\\', n as int) is None,
        },
{
    let mut i: usize = n;
    while i > 0
        invariant
            i <= n,
            n <= s@.len(),
            last_place_of(s@, '\\', i as int) == last_place_of(s@, '\\', n as int),
        decreases i,
    {
        if s.get_char(i - 1) == '\\' {
            return Some(i - 1);
        }
        i -= 1;
    }
    None
}

/// Gives the character whose container the file at `path` is, if it is the
/// container of a character.
pub fn character_of(path: &str) -> (r: Option<String>)
    ensures
        match r {
            Some(character) => character_of_path(path@) == Some(character@),
            None => character_of_path(path@) is None,
        },
{
    let len: usize = path.unicode_len();
    let last = match last_backslash(path, len) {
        Some(last) => last,
        None => {
            return None;
        },
    };
    let filename = path.substring_char(last + 1, len).to_owned();
    if filename != String::from_str("player.db.bin") {
        return None;
    }
    // Get the character name from the directory containing the file

    let begin = match last_backslash(path, last) {
        Some(before) => before + 1,
        None => 0,
    };
    Some(path.substring_char(begin, last).to_owned())
}

/// Gives the path of the container of a character within the archive.
pub fn player_file(character: &str) -> (path: String)
    ensures
        path@ == path_of_character(character@),
{
    let path = String::from_str("data\\players\\").concat(character).concat("\\player.db.bin");
    assert(path@ =~= path_of_character(character@));
    path
}

/// Finds the first of the attacks that is called `name`.
pub fn find_attack(attacks: &Vec<AttackMoveType>, name: &String) -> (r: Option<usize>)
    ensures
        match r {
            Some(i) => attack_place(attacks@, name@, attacks@.len()) == Some(i as int) && i
                < attacks@.len() && attacks@[i as int].name@ == name@,
            None => attack_place(attacks@, name@, attacks@.len()) is None,
        },
{
    let mut i: usize = 0;
    while i < attacks.len()
        invariant
            i <= attacks@.len(),
            attack_place(attacks@, name@, i as nat) is None,
        decreases attacks@.len() - i,
    {
        if attacks[i].name == *name {
            proof {
                lemma_attack_place_stays(attacks@, name@, (i + 1) as nat, attacks@.len());
            }
            return Some(i);
        }
        i += 1;
    }
    None
}

/// A match among the first `n` attacks is the match among the first `m`
/// attacks, for `m` no less than `n`.
pub proof fn lemma_attack_place_stays(
    attacks: Seq<AttackMoveType>,
    name: Seq<char>,
    n: nat,
    m: nat,
)
    requires
        n <= m,
        attack_place(attacks, name, n) is Some,
    ensures
        attack_place(attacks, name, m) == attack_place(attacks, name, n),
    decreases m - n,
{
    if n < m {
        lemma_attack_place_stays(attacks, name, n, (m - 1) as nat);
    }
}

} // verus!

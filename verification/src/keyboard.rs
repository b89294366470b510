//! Which keys lie next to which on a QWERTY keyboard.

use crate::entropy::draw_key;
use rand::rngs::StdRng;
use std::collections::HashMap;
use vstd::prelude::*;

verus! {

broadcast use vstd::std_specs::hash::group_hash_axioms;

/// The lower-case form of an ASCII capital; any other character unchanged.
pub open spec fn ascii_lower(c: char) -> char {
    if 'A' <= c && c <= 'Z' {
        ((c as u32) + 32) as char
    } else {
        c
    }
}

/// The capital of an ASCII lower-case letter; any other character unchanged.
pub open spec fn ascii_upper(c: char) -> char {
    if 'a' <= c && c <= 'z' {
        ((c as u32) - 32) as char
    } else {
        c
    }
}

/// Whether `c` is one of the 52 ASCII letters, the characters the table covers.
pub open spec fn has_entry(c: char) -> bool {
    ('a' <= c && c <= 'z') || ('A' <= c && c <= 'Z')
}

/// The keys next to a lower-case letter, nearest first. Empty for any other
/// character.
pub open spec fn neighbors(key: char) -> Seq<char> {
    if key == 'a' {
        seq!['s', 'q', 'w', 'z']
    } else if key == 'b' {
        seq!['v', 'n', 'h', 'g']
    } else if key == 'c' {
        seq!['x', 'v', 'd', 'f']
    } else if key == 'd' {
        seq!['s', 'f', 'e', 'r']
    } else if key == 'e' {
        seq!['w', 'r', 'd', 'f']
    } else if key == 'f' {
        seq!['d', 'g', 'r', 't']
    } else if key == 'g' {
        seq!['f', 'h', 't', 'y']
    } else if key == 'h' {
        seq!['g', 'j', 'y', 'u']
    } else if key == 'i' {
        seq!['u', 'o', 'k', 'l']
    } else if key == 'j' {
        seq!['h', 'k', 'u', 'i']
    } else if key == 'k' {
        seq!['j', 'l', 'i', 'o']
    } else if key == 'l' {
        seq!['k', ';', 'o', 'p']
    } else if key == 'm' {
        seq!['n', ',', 'j', 'k']
    } else if key == 'n' {
        seq!['b', 'm', 'h', 'j']
    } else if key == 'o' {
        seq!['i', 'p', 'k', 'l']
    } else if key == 'p' {
        seq!['o', '[', 'l', ';']
    } else if key == 'q' {
        seq!['w', 'a', '1', '2']
    } else if key == 'r' {
        seq!['e', 't', 'd', 'f']
    } else if key == 's' {
        seq!['a', 'd', 'w', 'e']
    } else if key == 't' {
        seq!['r', 'y', 'f', 'g']
    } else if key == 'u' {
        seq!['y', 'i', 'h', 'j']
    } else if key == 'v' {
        seq!['c', 'b', 'f', 'g']
    } else if key == 'w' {
        seq!['q', 'e', 'a', 's']
    } else if key == 'x' {
        seq!['z', 'c', 's', 'd']
    } else if key == 'y' {
        seq!['t', 'u', 'g', 'h']
    } else if key == 'z' {
        seq!['a', 'x', 's', 'd']
    } else {
        Seq::empty()
    }
}

/// The wrong key that is struck in place of `c` when `picked` came out of the
/// draw among the neighbours of `c`: the pick in the case of `c`, the
/// lower-case form of `c` had the draw come back empty, and `c` itself where
/// the table has no entry for it.
pub open spec fn nearby_with(c: char, picked: Option<char>) -> char {
    if has_entry(c) {
        let key = match picked {
            Some(k) => k,
            None => ascii_lower(c),
        };
        if 'A' <= c && c <= 'Z' {
            ascii_upper(key)
        } else {
            key
        }
    } else {
        c
    }
}

/// What a slip on `c` can produce: a neighbour of `c` in the case of `c`, or
/// `c` itself where the table has no entry for it.
pub open spec fn is_nearby(c: char, wrong: char) -> bool {
    if has_entry(c) {
        exists|j: int|
            0 <= j < neighbors(ascii_lower(c)).len() && wrong == nearby_with(
                c,
                Some(#[trigger] neighbors(ascii_lower(c))[j]),
            )
    } else {
        wrong == c
    }
}

/// The adjacency table: for each lower-case letter, by its code point, the
/// keys beside it.
pub struct KeyboardLayout {
    pub nearby_keys: HashMap<u32, Vec<char>>,
}

/// No neighbour in the table is a capital, every letter has between two and
/// four of them, and no other character has any.
pub proof fn lemma_neighbors_shape(key: char)
    ensures
        ('a' <= key && key <= 'z') ==> 2 <= neighbors(key).len() <= 4,
        !('a' <= key && key <= 'z') ==> neighbors(key).len() == 0,
        forall|j: int|
            0 <= j < neighbors(key).len() ==> !('A' <= #[trigger] neighbors(key)[j]
                && neighbors(key)[j] <= 'Z'),
{
}

/// The table is closed under slips: whatever a slip on a letter produces,
/// its lower-case form is one of the keys that the table lists beside that
/// letter, and a slip on any other character produces that character.
pub proof fn lemma_nearby_closed(c: char, wrong: char)
    requires
        is_nearby(c, wrong),
    ensures
        has_entry(c) ==> neighbors(ascii_lower(c)).contains(ascii_lower(wrong)),
        !has_entry(c) ==> wrong == c,
{
    if has_entry(c) {
        let row = neighbors(ascii_lower(c));
        let j = choose|j: int| 0 <= j < row.len() && wrong == nearby_with(c, Some(#[trigger] row[j]));
        lemma_neighbors_shape(ascii_lower(c));
        assert(ascii_lower(wrong) == row[j]);
    }
}

/// The lower-case form of `c` where it is an ASCII capital, else `c`.
pub fn to_lower(c: char) -> (r: char)
    ensures
        r == ascii_lower(c),
{
    if 'A' <= c && c <= 'Z' {
        ((c as u8) + 32) as char
    } else {
        c
    }
}

/// The capital of `c` where it is an ASCII lower-case letter, else `c`.
pub fn to_upper(c: char) -> (r: char)
    ensures
        r == ascii_upper(c),
{
    if 'a' <= c && c <= 'z' {
        ((c as u8) - 32) as char
    } else {
        c
    }
}

impl KeyboardLayout {
    /// The table holds the lower-case letters and nothing else, each with
    /// the keys beside it.
    pub open spec fn wf(&self) -> bool {
        &&& forall|k: u32| #[trigger] self.nearby_keys@.contains_key(k) <==> 'a' as u32 <= k <= 'z' as u32
        &&& forall|k: u32|
            'a' as u32 <= k <= 'z' as u32 ==> (#[trigger] self.nearby_keys@[k])@ == neighbors(
                k as char,
            )
    }

    /// The QWERTY table.
    pub fn new() -> (layout: KeyboardLayout)
        ensures
            layout.wf(),
    {
        let mut layout: HashMap<u32, Vec<char>> = HashMap::new();
        layout.insert('a' as u32, vec!['s', 'q', 'w', 'z']);
        layout.insert('b' as u32, vec!['v', 'n', 'h', 'g']);
        layout.insert('c' as u32, vec!['x', 'v', 'd', 'f']);
        layout.insert('d' as u32, vec!['s', 'f', 'e', 'r']);
        layout.insert('e' as u32, vec!['w', 'r', 'd', 'f']);
        layout.insert('f' as u32, vec!['d', 'g', 'r', 't']);
        layout.insert('g' as u32, vec!['f', 'h', 't', 'y']);
        layout.insert('h' as u32, vec!['g', 'j', 'y', 'u']);
        layout.insert('i' as u32, vec!['u', 'o', 'k', 'l']);
        layout.insert('j' as u32, vec!['h', 'k', 'u', 'i']);
        layout.insert('k' as u32, vec!['j', 'l', 'i', 'o']);
        layout.insert('l' as u32, vec!['k', ';', 'o', 'p']);
        layout.insert('m' as u32, vec!['n', ',', 'j', 'k']);
        layout.insert('n' as u32, vec!['b', 'm', 'h', 'j']);
        layout.insert('o' as u32, vec!['i', 'p', 'k', 'l']);
        layout.insert('p' as u32, vec!['o', '[', 'l', ';']);
        layout.insert('q' as u32, vec!['w', 'a', '1', '2']);
        layout.insert('r' as u32, vec!['e', 't', 'd', 'f']);
        layout.insert('s' as u32, vec!['a', 'd', 'w', 'e']);
        layout.insert('t' as u32, vec!['r', 'y', 'f', 'g']);
        layout.insert('u' as u32, vec!['y', 'i', 'h', 'j']);
        layout.insert('v' as u32, vec!['c', 'b', 'f', 'g']);
        layout.insert('w' as u32, vec!['q', 'e', 'a', 's']);
        layout.insert('x' as u32, vec!['z', 'c', 's', 'd']);
        layout.insert('y' as u32, vec!['t', 'u', 'g', 'h']);
        layout.insert('z' as u32, vec!['a', 'x', 's', 'd']);
        KeyboardLayout { nearby_keys: layout }
    }

    /// The keys beside `c`, whatever its case; `None` where `c` is no letter
    /// of the table.
    pub fn row_for(&self, c: char) -> (row: Option<&Vec<char>>)
        requires
            self.wf(),
        ensures
            has_entry(c) <==> row is Some,
            has_entry(c) ==> row->0@ == neighbors(ascii_lower(c)),
    {
        let key: u32 = to_lower(c) as u32;
        self.nearby_keys.get(&key)
    }

    /// The wrong key for `c`, given what the draw among its neighbours
    /// returned.
    pub fn nearby_from(c: char, picked: Option<char>) -> (wrong: char)
        ensures
            wrong == nearby_with(c, picked),
    {
        if ('a' <= c && c <= 'z') || ('A' <= c && c <= 'Z') {
            let key = match picked {
                Some(k) => k,
                None => to_lower(c),
            };
            if 'A' <= c && c <= 'Z' {
                to_upper(key)
            } else {
                key
            }
        } else {
            c
        }
    }

    /// A key beside `c`, drawn at random and put in the case of `c`; `c`
    /// itself where the table has no entry for it.
    pub fn get_nearby_key(&self, c: char, rng: &mut StdRng) -> (wrong: char)
        requires
            self.wf(),
        ensures
            is_nearby(c, wrong),
            has_entry(c) ==> neighbors(ascii_lower(c)).contains(ascii_lower(wrong)),
            !has_entry(c) ==> wrong == c,
    {
        match self.row_for(c) {
            Some(row) => {
                let picked = draw_key(rng, row);
                proof {
                    lemma_neighbors_shape(ascii_lower(c));
                    let j = choose|j: int| 0 <= j < row@.len() && row@[j] == picked->0;
                    assert(neighbors(ascii_lower(c))[j] == picked->0);
                }
                let wrong = Self::nearby_from(c, picked);
                proof {
                    lemma_nearby_closed(c, wrong);
                }
                wrong
            },
            None => c,
        }
    }
}

} // verus!

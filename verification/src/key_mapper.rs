//! The keypad's code table: each key of the reader's keypad is sent as an
//! eight-bit code, and the mapper turns such a code back into its key.

use vstd::prelude::*;
use crate::text::str_eq;

verus! {

/// The keypad codes and the keys they stand for, in the order the mapper holds them.
pub open spec fn key_table() -> Seq<(Seq<char>, Seq<char>)> {
    seq![
        (seq!['1', '1', '1', '0', '0', '0', '0', '1'], seq!['1']),
        (seq!['1', '1', '0', '1', '0', '0', '1', '0'], seq!['2']),
        (seq!['1', '1', '0', '0', '0', '0', '1', '1'], seq!['3']),
        (seq!['1', '0', '1', '1', '0', '1', '0', '0'], seq!['4']),
        (seq!['1', '0', '1', '0', '0', '1', '0', '1'], seq!['5']),
        (seq!['1', '0', '0', '1', '0', '1', '1', '0'], seq!['6']),
        (seq!['1', '0', '0', '0', '0', '1', '1', '1'], seq!['7']),
        (seq!['0', '1', '1', '1', '1', '0', '0', '0'], seq!['8']),
        (seq!['0', '1', '1', '0', '1', '0', '0', '1'], seq!['9']),
        (seq!['1', '1', '1', '1', '0', '0', '0', '0'], seq!['0']),
        (seq!['0', '1', '0', '1', '1', '0', '1', '0'], seq!['*']),
        (seq!['0', '1', '0', '0', '1', '0', '1', '1'], seq!['#']),
    ]
}

/// The key of the first entry of `table` whose code is `code`, if any.
pub open spec fn lookup(table: Seq<(Seq<char>, Seq<char>)>, code: Seq<char>) -> Option<Seq<char>>
    decreases table.len(),
{
    if table.len() == 0 {
        None
    } else if table[0].0 == code {
        Some(table[0].1)
    } else {
        lookup(table.drop_first(), code)
    }
}

/// The key that the keypad code `code` stands for, if it is one.
pub open spec fn spec_key(code: Seq<char>) -> Option<Seq<char>> {
    lookup(key_table(), code)
}

/// Skipping entries whose code differs does not change the lookup.
pub proof fn lemma_lookup_skip(table: Seq<(Seq<char>, Seq<char>)>, code: Seq<char>, i: int)
    requires
        0 <= i <= table.len(),
        forall|j: int| 0 <= j < i ==> table[j].0 != code,
    ensures
        lookup(table, code) == lookup(table.skip(i), code),
    decreases i,
{
    if i > 0 {
        assert(table.skip(1) =~= table.drop_first());
        lemma_lookup_skip(table.drop_first(), code, i - 1);
        assert(table.drop_first().skip(i - 1) =~= table.skip(i));
    } else {
        assert(table.skip(0) =~= table);
    }
}

/// What `lookup` finds is the key of an entry of the table whose code was looked up.
pub proof fn lemma_lookup_entry(table: Seq<(Seq<char>, Seq<char>)>, code: Seq<char>)
    requires
        lookup(table, code) is Some,
    ensures
        exists|i: int|
            0 <= i < table.len() && #[trigger] table[i].0 == code && table[i].1 == lookup(table, code)->0,
    decreases table.len(),
{
    if table[0].0 != code {
        lemma_lookup_entry(table.drop_first(), code);
        let i = choose|i: int|
            0 <= i < table.drop_first().len() && #[trigger] table.drop_first()[i].0 == code
                && table.drop_first()[i].1 == lookup(table.drop_first(), code)->0;
        assert(table[i + 1].0 == code);
    }
}

/// The position in the table of the key whose first character is that of `key`.
pub open spec fn key_position(key: Seq<char>) -> int {
    let c = key[0];
    if c == '1' {
        0
    } else if c == '2' {
        1
    } else if c == '3' {
        2
    } else if c == '4' {
        3
    } else if c == '5' {
        4
    } else if c == '6' {
        5
    } else if c == '7' {
        6
    } else if c == '8' {
        7
    } else if c == '9' {
        8
    } else if c == '0' {
        9
    } else if c == '*' {
        10
    } else {
        11
    }
}

/// Each entry's key sits at its own position: no key is listed twice.
pub proof fn lemma_key_positions()
    ensures
        forall|i: int| 0 <= i < key_table().len() ==> key_position(#[trigger] key_table()[i].1) == i,
{
}

/// Each key of the keypad has a single code: two codes that stand for the
/// same key are the same code.
pub proof fn lemma_one_code_per_key(code1: Seq<char>, code2: Seq<char>)
    requires
        spec_key(code1) is Some,
        spec_key(code1) == spec_key(code2),
    ensures
        code1 == code2,
{
    lemma_lookup_entry(key_table(), code1);
    lemma_lookup_entry(key_table(), code2);
    lemma_key_positions();
    let i = choose|i: int|
        0 <= i < key_table().len() && #[trigger] key_table()[i].0 == code1 && key_table()[i].1 == spec_key(code1)->0;
    let j = choose|j: int|
        0 <= j < key_table().len() && #[trigger] key_table()[j].0 == code2 && key_table()[j].1 == spec_key(code2)->0;
    assert(key_position(key_table()[i].1) == key_position(key_table()[j].1));
}

/// Maps the keypad's eight-bit codes, written as strings of `0` and `1`, to keys.
///
/// The table is held as a list of code and key pairs, searched in order;
/// each code occurs once in it.
pub struct KeyMapper<'a> {
    mapping: Vec<(&'a str, &'a str)>,
}

impl<'a> View for KeyMapper<'a> {
    type V = Seq<(Seq<char>, Seq<char>)>;

    /// The codes and keys the mapper holds, in order.
    closed spec fn view(&self) -> Seq<(Seq<char>, Seq<char>)> {
        self.mapping@.map_values(|p: (&'a str, &'a str)| (p.0@, p.1@))
    }
}

impl<'a> KeyMapper<'a> {
    /// The mapper holds exactly the code table, entry by entry.
    #[verifier::type_invariant]
    pub closed spec fn holds_key_table(self) -> bool {
        &&& self.mapping@.len() == key_table().len()
        &&& forall|i: int|
            0 <= i < self.mapping@.len() ==> {
                &&& (#[trigger] self.mapping@[i]).0@ == key_table()[i].0
                &&& self.mapping@[i].1@ == key_table()[i].1
            }
    }

    /// A mapper over the keypad's code table.
    pub fn new() -> (mapper: KeyMapper<'a>)
        ensures
            mapper@ == key_table(),
    {
        let mapping: Vec<(&'a str, &'a str)> = vec![
            ("11100001", "1"),
            ("11010010", "2"),
            ("11000011", "3"),
            ("10110100", "4"),
            ("10100101", "5"),
            ("10010110", "6"),
            ("10000111", "7"),
            ("01111000", "8"),
            ("01101001", "9"),
            ("11110000", "0"),
            ("01011010", "*"),
            ("01001011", "#"),
        ];
        proof {
            reveal_strlit("11100001");
            reveal_strlit("11010010");
            reveal_strlit("11000011");
            reveal_strlit("10110100");
            reveal_strlit("10100101");
            reveal_strlit("10010110");
            reveal_strlit("10000111");
            reveal_strlit("01111000");
            reveal_strlit("01101001");
            reveal_strlit("11110000");
            reveal_strlit("01011010");
            reveal_strlit("01001011");
            reveal_strlit("1");
            reveal_strlit("2");
            reveal_strlit("3");
            reveal_strlit("4");
            reveal_strlit("5");
            reveal_strlit("6");
            reveal_strlit("7");
            reveal_strlit("8");
            reveal_strlit("9");
            reveal_strlit("0");
            reveal_strlit("*");
            reveal_strlit("#");
            assert(mapping@.map_values(|p: (&'a str, &'a str)| (p.0@, p.1@)) =~~= key_table());
            assert forall|i: int| 0 <= i < mapping@.len() implies {
                &&& (#[trigger] mapping@[i]).0@ == key_table()[i].0
                &&& mapping@[i].1@ == key_table()[i].1
            } by {
                assert(mapping@.map_values(|p: (&'a str, &'a str)| (p.0@, p.1@))[i] == (mapping@[i].0@, mapping@[i].1@));
            }
        }
        KeyMapper { mapping }
    }

    /// The key that `key`, a keypad code, stands for; `None` for any other string.
    pub fn key(&self, key: &str) -> (found: Option<&'a str>)
        ensures
            spec_key(key@) == lookup(self@, key@),
            found is None <==> spec_key(key@) is None,
            found matches Some(k) ==> spec_key(key@) == Some(k@),
    {
        proof {
            use_type_invariant(self);
            assert(self@ =~~= key_table());
        }
        let n = self.mapping.len();
        let mut i: usize = 0;
        while i < n
            invariant
                n == self.mapping@.len(),
                n == key_table().len(),
                self@ == key_table(),
                i <= n,
                forall|j: int|
                    0 <= j < n ==> {
                        &&& (#[trigger] self.mapping@[j]).0@ == key_table()[j].0
                        &&& self.mapping@[j].1@ == key_table()[j].1
                    },
                forall|j: int| 0 <= j < i ==> key_table()[j].0 != key@,
            decreases n - i,
        {
            let entry = self.mapping[i];
            if str_eq(entry.0, key) {
                proof {
                    lemma_lookup_skip(key_table(), key@, i as int);
                }
                return Some(entry.1);
            }
            i = i + 1;
        }
        proof {
            lemma_lookup_skip(key_table(), key@, n as int);
        }
        None
    }
}

} // verus!

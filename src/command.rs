//! Splitting a command string into the program and its arguments.

use vstd::prelude::*;

verus! {

/// The words of `s` between single spaces, as `str::split(' ')` gives them:
/// two spaces in a row give an empty word, and `s` with no space is one word.
pub open spec fn split_spaces(s: Seq<char>) -> Seq<Seq<char>>
    decreases s.len(),
{
    if s.len() == 0 {
        seq![Seq::empty()]
    } else {
        let init = split_spaces(s.drop_last());
        if s.last() == ' ' {
            init.push(Seq::empty())
        } else {
            init.update(init.len() - 1, init.last().push(s.last()))
        }
    }
}

/// The views of a sequence of strings.
pub open spec fn string_views(v: Seq<String>) -> Seq<Seq<char>> {
    v.map_values(|s: String| s@)
}

/// Splitting always gives at least one word.
pub proof fn lemma_split_spaces_nonempty(s: Seq<char>)
    ensures
        split_spaces(s).len() >= 1,
    decreases s.len(),
{
    if s.len() > 0 {
        lemma_split_spaces_nonempty(s.drop_last());
    }
}

/// The words of `command` separated by single spaces.
pub fn split_words(command: &str) -> (r: Vec<String>)
    ensures
        string_views(r@) == split_spaces(command@),
{
    let n = command.unicode_len();
    let mut pieces: Vec<String> = Vec::new();
    let mut start: usize = 0;
    let mut i: usize = 0;
    assert(command@.take(0) =~= Seq::<char>::empty());
    assert(string_views(pieces@).push(command@.subrange(0, 0)) =~= seq![Seq::<char>::empty()]);
    while i < n
        invariant
            n == command@.len(),
            start <= i <= n,
            split_spaces(command@.take(i as int)) == string_views(pieces@).push(
                command@.subrange(start as int, i as int),
            ),
        decreases n - i,
    {
        let c = command.get_char(i);
        let ghost prefix = command@.take(i as int + 1);
        assert(prefix.drop_last() =~= command@.take(i as int));
        assert(prefix.last() == c);
        if c == ' ' {
            let word = command.substring_char(start, i).to_owned();
            let ghost before = pieces@;
            pieces.push(word);
            start = i + 1;
            assert(string_views(pieces@) =~= string_views(before).push(word@));
            assert(command@.subrange(start as int, i as int + 1) =~= Seq::<char>::empty());
            assert(split_spaces(prefix) =~= string_views(pieces@).push(
                command@.subrange(start as int, i as int + 1),
            ));
        } else {
            assert(command@.subrange(start as int, i as int + 1) =~= command@.subrange(
                start as int,
                i as int,
            ).push(c));
            assert(split_spaces(prefix) =~= string_views(pieces@).push(
                command@.subrange(start as int, i as int + 1),
            ));
        }
        i = i + 1;
    }
    let word = command.substring_char(start, n).to_owned();
    let ghost before = pieces@;
    pieces.push(word);
    assert(command@.take(n as int) =~= command@);
    assert(string_views(pieces@) =~= string_views(before).push(word@));
    pieces
}

} // verus!

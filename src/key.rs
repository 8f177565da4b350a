//! The cache key: the command followed by the contents of the
//! source-defining files, one per line.

use vstd::prelude::*;
use crate::command::string_views;

verus! {

/// The parts joined with a newline between each two of them.
pub open spec fn joined_lines(parts: Seq<Seq<char>>) -> Seq<char>
    decreases parts.len(),
{
    if parts.len() == 0 {
        Seq::empty()
    } else if parts.len() == 1 {
        parts[0]
    } else {
        joined_lines(parts.drop_last()) + seq!['\n'] + parts.last()
    }
}

/// The key under which a run of `command` over files with these contents
/// is memoised.
pub open spec fn key_of(command: Seq<char>, contents: Seq<Seq<char>>) -> Seq<char> {
    command + joined_lines(contents)
}

/// Each part after the first, preceded by a newline, all run together.
pub open spec fn newline_led(parts: Seq<Seq<char>>) -> Seq<char>
    decreases parts.len(),
{
    if parts.len() == 0 {
        Seq::empty()
    } else {
        newline_led(parts.drop_last()) + seq!['\n'] + parts.last()
    }
}

/// What precedes a part in a joining: the parts before it and a newline,
/// or nothing for the first part.
pub open spec fn lead_in(before: Seq<Seq<char>>) -> Seq<char> {
    if before.len() == 0 {
        Seq::empty()
    } else {
        joined_lines(before) + seq!['\n']
    }
}

/// Joining splits around any one part into what comes before it, the part
/// itself, and what comes after it.
proof fn lemma_joined_around(before: Seq<Seq<char>>, part: Seq<char>, after: Seq<Seq<char>>)
    ensures
        joined_lines(before + seq![part] + after) == lead_in(before) + part + newline_led(after),
    decreases after.len(),
{
    let whole = before + seq![part] + after;
    if after.len() == 0 {
        assert(whole =~= before.push(part));
        assert(whole.drop_last() =~= before);
        if before.len() == 0 {
            assert(lead_in(before) + part + newline_led(after) =~= part);
        } else {
            assert(lead_in(before) + part + newline_led(after) =~= joined_lines(before) + seq!['\n']
                + part);
        }
    } else {
        let shorter = after.drop_last();
        lemma_joined_around(before, part, shorter);
        assert(whole.drop_last() =~= before + seq![part] + shorter);
        assert(whole.last() == after.last());
        assert(joined_lines(whole) =~= lead_in(before) + part + newline_led(after));
    }
}

/// Two keys for one command over file contents that differ in exactly one
/// file are different: a change to any single file forces a new run.
pub proof fn lemma_key_sensitive(
    command: Seq<char>,
    contents: Seq<Seq<char>>,
    i: int,
    changed: Seq<char>,
)
    requires
        0 <= i < contents.len(),
        changed != contents[i],
    ensures
        key_of(command, contents) != key_of(command, contents.update(i, changed)),
{
    let before = contents.take(i);
    let after = contents.skip(i + 1);
    let other = contents.update(i, changed);
    assert(contents =~= before + seq![contents[i]] + after);
    assert(other =~= before + seq![changed] + after);
    lemma_joined_around(before, contents[i], after);
    lemma_joined_around(before, changed, after);
    let a = key_of(command, contents);
    let b = key_of(command, other);
    let pre = command + lead_in(before);
    let post = newline_led(after);
    assert(a =~= pre + contents[i] + post);
    assert(b =~= pre + changed + post);
    if a == b {
        assert(contents[i].len() == changed.len());
        assert(contents[i] =~= a.subrange(pre.len() as int, (pre.len() + contents[i].len()) as int));
        assert(changed =~= b.subrange(pre.len() as int, (pre.len() + changed.len()) as int));
    }
}

/// The cache key for running `command` over files with these contents.
pub fn cache_key(command: &str, contents: &Vec<String>) -> (r: String)
    ensures
        r@ == key_of(command@, string_views(contents@)),
{
    let mut key = command.to_owned();
    let mut i: usize = 0;
    while i < contents.len()
        invariant
            i <= contents.len(),
            key@ == command@ + joined_lines(string_views(contents@).take(i as int)),
        decreases contents.len() - i,
    {
        let ghost views = string_views(contents@);
        let ghost start = key@;
        assert(views.take(i as int + 1).drop_last() =~= views.take(i as int));
        assert(views.take(i as int + 1).last() == contents@[i as int]@);
        proof {
            reveal_strlit("\n");
        }
        if i > 0 {
            key.append("\n");
        }
        key.append(contents[i].as_str());
        proof {
            if i == 0 {
                assert(command@ + joined_lines(views.take(1)) =~= command@ + contents@[0]@);
            } else {
                assert(key@ =~= start + seq!['\n'] + contents@[i as int]@);
            }
            assert(key@ =~= command@ + joined_lines(views.take(i as int + 1)));
        }
        i = i + 1;
    }
    assert(string_views(contents@).take(contents.len() as int) =~= string_views(contents@));
    key
}

} // verus!

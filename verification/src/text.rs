//! Small helpers on strings.

use vstd::prelude::*;

verus! {

/// `String::push` of the standard library: the string grows by the one
/// character at its end.
#[verifier::external_body]
pub(crate) fn push_char(text: &mut String, character: char)
    ensures
        final(text)@ == old(text)@.push(character),
{
    text.push(character)
}

/// The string that holds the given characters in order.
pub fn string_of(characters: &Vec<char>) -> (text: String)
    ensures
        text@ == characters@,
{
    let mut text = String::new();
    let mut i: usize = 0;
    while i < characters.len()
        invariant
            i <= characters.len(),
            text@ == characters@.take(i as int),
        decreases characters.len() - i,
    {
        push_char(&mut text, characters[i]);
        i += 1;
        assert(characters@.take(i as int) =~= characters@.take(i - 1).push(characters@[i - 1]));
    }
    assert(characters@.take(i as int) =~= characters@);
    text
}

/// The concatenation of two strings.
pub fn joined(left: &str, right: &str) -> (text: String)
    ensures
        text@ == left@ + right@,
{
    let mut text = String::from_str(left);
    text.append(right);
    text
}

/// The characters of a string, in order.
pub fn chars_of(text: &str) -> (characters: Vec<char>)
    ensures
        characters@ == text@,
{
    let length = text.unicode_len();
    let mut characters: Vec<char> = Vec::new();
    let mut i: usize = 0;
    while i < length
        invariant
            length == text@.len(),
            i <= length,
            characters@ == text@.take(i as int),
        decreases length - i,
    {
        characters.push(text.get_char(i));
        i += 1;
        assert(text@.take(i as int) =~= text@.take(i - 1).push(text@[i - 1]));
    }
    assert(text@.take(i as int) =~= text@);
    characters
}

/// The characters that part the words of a line.
pub open spec fn is_space(character: char) -> bool {
    character == ' ' || character == '\t' || character == '\n' || character == '\r'
}

/// The words of a line: its longest runs of characters that are not
/// spaces, from left to right. Read from the end of the line: a space adds
/// nothing, a character after a character that is no space grows the last
/// word, and any other character starts a word.
pub open spec fn words(line: Seq<char>) -> Seq<Seq<char>>
    decreases line.len(),
{
    if line.len() == 0 {
        Seq::empty()
    } else {
        let before = words(line.drop_last());
        if is_space(line.last()) {
            before
        } else if line.len() >= 2 && !is_space(line[line.len() - 2]) && before.len() > 0 {
            before.drop_last().push(before.last().push(line.last()))
        } else {
            before.push(seq![line.last()])
        }
    }
}

fn space(character: char) -> (yes: bool)
    ensures
        yes == is_space(character),
{
    character == ' ' || character == '\t' || character == '\n' || character == '\r'
}

/// Splits a line into its words.
pub fn split_words(line: &Vec<char>) -> (found: Vec<Vec<char>>)
    ensures
        found@.map_values(|word: Vec<char>| word@) == words(line@),
{
    let mut found: Vec<Vec<char>> = Vec::new();
    let mut word: Vec<char> = Vec::new();
    let mut i: usize = 0;
    while i < line.len()
        invariant
            i <= line.len(),
            word@.len() > 0 <==> (i > 0 && !is_space(line@[i - 1])),
            words(line@.take(i as int)) == if word@.len() > 0 {
                found@.map_values(|w: Vec<char>| w@).push(word@)
            } else {
                found@.map_values(|w: Vec<char>| w@)
            },
        decreases line.len() - i,
    {
        let ghost prefix = line@.take(i as int);
        let ghost next = line@.take(i + 1);
        let ghost done = found@.map_values(|w: Vec<char>| w@);
        let ghost old_word = word@;
        let character = line[i];
        proof {
            assert(next.drop_last() =~= prefix);
            assert(next.last() == character);
            if i > 0 {
                assert(next[next.len() - 2] == line@[i - 1]);
            }
        }
        if space(character) {
            if word.len() > 0 {
                found.push(word);
                word = Vec::new();
                assert(found@.map_values(|w: Vec<char>| w@) =~= done.push(old_word));
            }
        } else {
            word.push(character);
            proof {
                if old_word.len() > 0 {
                    assert(done.push(old_word).drop_last() =~= done);
                } else {
                    assert(word@ =~= seq![character]);
                    if i > 0 && words(prefix).len() > 0 {
                        assert(is_space(line@[i - 1]));
                    }
                }
            }
        }
        i += 1;
    }
    assert(line@.take(i as int) =~= line@);
    if word.len() > 0 {
        let ghost done = found@.map_values(|w: Vec<char>| w@);
        let ghost last_word = word@;
        found.push(word);
        assert(found@.map_values(|w: Vec<char>| w@) =~= done.push(last_word));
    }
    found
}

} // verus!

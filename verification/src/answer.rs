//! What the player typed, with the blanks around it taken off.

use vstd::prelude::*;

verus! {

/// Whether a character is white space, as Unicode defines it: the controls
/// from tab to carriage return, the blank, next line, the no-break blanks, the
/// blanks of fixed width, the two separators, the mathematical and the
/// ideographic blank.
pub open spec fn is_blank(c: char) -> bool {
    let code = c as u32;
    ||| 0x09 <= code <= 0x0D
    ||| code == 0x20
    ||| code == 0x85
    ||| code == 0xA0
    ||| code == 0x1680
    ||| 0x2000 <= code <= 0x200A
    ||| code == 0x2028
    ||| code == 0x2029
    ||| code == 0x202F
    ||| code == 0x205F
    ||| code == 0x3000
}

/// The text without the white space that it begins with.
pub open spec fn trim_front(text: Seq<char>) -> Seq<char>
    decreases text.len(),
{
    if text.len() > 0 && is_blank(text.first()) {
        trim_front(text.drop_first())
    } else {
        text
    }
}

/// The text without the white space that it ends with.
pub open spec fn trim_back(text: Seq<char>) -> Seq<char>
    decreases text.len(),
{
    if text.len() > 0 && is_blank(text.last()) {
        trim_back(text.drop_last())
    } else {
        text
    }
}

/// The text without the white space on either side of it.
pub open spec fn trimmed(text: Seq<char>) -> Seq<char> {
    trim_back(trim_front(text))
}

/// Whether a text is white space throughout.
pub open spec fn all_blank(text: Seq<char>) -> bool {
    forall|k: int| 0 <= k < text.len() ==> is_blank(#[trigger] text[k])
}

/// Whether a text has white space neither at its beginning nor at its end.
pub open spec fn is_bare(text: Seq<char>) -> bool {
    text.len() > 0 ==> !is_blank(text.first()) && !is_blank(text.last())
}

/// Whether a character is white space.
pub fn blank(c: char) -> (white: bool)
    ensures
        white == is_blank(c),
{
    let code: u32 = c as u32;
    (0x09 <= code && code <= 0x0D) || code == 0x20 || code == 0x85 || code == 0xA0 || code
        == 0x1680 || (0x2000 <= code && code <= 0x200A) || code == 0x2028 || code == 0x2029
        || code == 0x202F || code == 0x205F || code == 0x3000
}

/// The characters of a line, with the white space on either side taken off.
pub fn trim(line: &str) -> (answer: Vec<char>)
    ensures
        answer@ == trimmed(line@),
{
    let mut chars: Vec<char> = Vec::new();
    for c in it: line.chars()
        invariant
            chars@ == it.seq().take(it.index() as int),
            it.seq() == line@,
    {
        chars.push(c);
    }
    assert(chars@ == line@);
    let mut start: usize = 0;
    while start < chars.len() && blank(chars[start])
        invariant
            start <= chars.len(),
            trim_front(chars@) == trim_front(chars@.skip(start as int)),
        decreases chars.len() - start,
    {
        proof {
            let rest = chars@.skip(start as int);
            assert(rest.first() == chars@[start as int]);
            assert(rest.drop_first() == chars@.skip(start + 1));
        }
        start = start + 1;
    }
    proof {
        let rest = chars@.skip(start as int);
        if start < chars.len() {
            assert(rest.first() == chars@[start as int]);
        }
        assert(trim_front(chars@) == rest);
    }
    let mut end: usize = chars.len();
    while start < end && blank(chars[end - 1])
        invariant
            start <= end <= chars.len(),
            trimmed(chars@) == trim_back(chars@.subrange(start as int, end as int)),
        decreases end,
    {
        proof {
            let kept = chars@.subrange(start as int, end as int);
            assert(kept.last() == chars@[end - 1]);
            assert(kept.drop_last() == chars@.subrange(start as int, end - 1));
        }
        end = end - 1;
    }
    proof {
        let kept = chars@.subrange(start as int, end as int);
        if start < end {
            assert(kept.last() == chars@[end - 1]);
        }
        assert(trimmed(chars@) == kept);
    }
    let mut answer: Vec<char> = Vec::new();
    let mut at: usize = start;
    while at < end
        invariant
            start <= at <= end <= chars.len(),
            answer@ == chars@.subrange(start as int, at as int),
        decreases end - at,
    {
        answer.push(chars[at]);
        at = at + 1;
    }
    answer
}

/// White space in front of a text is trimmed away with the white space that
/// the text begins with.
pub proof fn lemma_trim_front_skips_blanks(blanks: Seq<char>, text: Seq<char>)
    requires
        all_blank(blanks),
    ensures
        trim_front(blanks + text) == trim_front(text),
    decreases blanks.len(),
{
    if blanks.len() == 0 {
        assert(blanks + text =~= text);
    } else {
        let whole = blanks + text;
        assert(whole.first() == blanks[0]);
        assert(whole.drop_first() =~= blanks.drop_first() + text);
        lemma_trim_front_skips_blanks(blanks.drop_first(), text);
    }
}

/// White space behind a text is trimmed away with the white space that the
/// text ends with.
pub proof fn lemma_trim_back_skips_blanks(text: Seq<char>, blanks: Seq<char>)
    requires
        all_blank(blanks),
    ensures
        trim_back(text + blanks) == trim_back(text),
    decreases blanks.len(),
{
    if blanks.len() == 0 {
        assert(text + blanks =~= text);
    } else {
        let whole = text + blanks;
        assert(whole.last() == blanks.last());
        assert(whole.drop_last() =~= text + blanks.drop_last());
        lemma_trim_back_skips_blanks(text, blanks.drop_last());
    }
}

/// Trimming leaves white space at neither end.
pub proof fn lemma_trimmed_is_bare(text: Seq<char>)
    ensures
        is_bare(trimmed(text)),
{
    lemma_trim_front_begins_bare(text);
    lemma_trim_back_keeps_front(trim_front(text));
    lemma_trim_back_ends_bare(trim_front(text));
}

/// What is left after trimming at the front does not begin with white space.
proof fn lemma_trim_front_begins_bare(text: Seq<char>)
    ensures
        trim_front(text).len() > 0 ==> !is_blank(trim_front(text).first()),
    decreases text.len(),
{
    if text.len() > 0 && is_blank(text.first()) {
        lemma_trim_front_begins_bare(text.drop_first());
    }
}

/// What is left after trimming at the back does not end with white space.
proof fn lemma_trim_back_ends_bare(text: Seq<char>)
    ensures
        trim_back(text).len() > 0 ==> !is_blank(trim_back(text).last()),
    decreases text.len(),
{
    if text.len() > 0 && is_blank(text.last()) {
        lemma_trim_back_ends_bare(text.drop_last());
    }
}

/// Trimming at the back leaves the beginning of the text as it was.
proof fn lemma_trim_back_keeps_front(text: Seq<char>)
    ensures
        trim_back(text).len() > 0 ==> trim_back(text).first() == text.first(),
    decreases text.len(),
{
    if text.len() > 0 && is_blank(text.last()) {
        lemma_trim_back_keeps_front(text.drop_last());
    }
}

/// Whatever white space stands around a word, trimming gives the word back.
pub proof fn lemma_trimmed_finds_the_word(before: Seq<char>, word: Seq<char>, after: Seq<char>)
    requires
        all_blank(before),
        all_blank(after),
        is_bare(word),
    ensures
        trimmed(before + word + after) == word,
{
    assert(before + word + after =~= before + (word + after));
    lemma_trim_front_skips_blanks(before, word + after);
    if word.len() == 0 {
        assert(word + after =~= after + word);
        lemma_trim_front_skips_blanks(after, word);
    } else {
        assert((word + after).first() == word.first());
        lemma_trim_back_skips_blanks(word, after);
    }
}

} // verus!

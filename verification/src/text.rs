//! Reading the keychain search list that the `security` tool prints.

use vstd::prelude::*;
use crate::command::texts;

verus! {

/// Whether `c` has the Unicode property `White_Space`: the controls from
/// tab to carriage return, the space, next line, the no-break space, the
/// ogham space mark, the spaces from en quad to hair space, the line and
/// paragraph separators, the narrow no-break space, the medium mathematical
/// space and the ideographic space.
pub open spec fn is_whitespace(c: char) -> bool {
    let u: u32 = c as u32;
    ||| 0x09 <= u <= 0x0D
    ||| u == 0x20
    ||| u == 0x85
    ||| u == 0xA0
    ||| u == 0x1680
    ||| 0x2000 <= u <= 0x200A
    ||| u == 0x2028
    ||| u == 0x2029
    ||| u == 0x202F
    ||| u == 0x205F
    ||| u == 0x3000
}

/// `char::is_whitespace` of the standard library, which tells whether the
/// character has the Unicode property `White_Space`. The contract spells
/// the property out as the 25 code points that the Unicode Character
/// Database lists for it; that the library's table is this one is taken on
/// trust.
#[verifier::external_body]
fn char_is_whitespace(c: char) -> (b: bool)
    ensures
        b == is_whitespace(c),
{
    c.is_whitespace()
}

/// Characters that surround an entry of the list without belonging to it:
/// white space and the double quote.
pub open spec fn is_padding(c: char) -> bool {
    is_whitespace(c) || c == '"'
}

/// `s` without its leading padding.
pub open spec fn trim_start(s: Seq<char>) -> Seq<char>
    decreases s.len(),
{
    if s.len() > 0 && is_padding(s.first()) {
        trim_start(s.drop_first())
    } else {
        s
    }
}

/// `s` without its trailing padding.
pub open spec fn trim_end(s: Seq<char>) -> Seq<char>
    decreases s.len(),
{
    if s.len() > 0 && is_padding(s.last()) {
        trim_end(s.drop_last())
    } else {
        s
    }
}

/// `s` without padding at either end.
pub open spec fn trimmed(s: Seq<char>) -> Seq<char> {
    trim_end(trim_start(s))
}

/// Number of characters before the first line feed of `s`, or the length of
/// `s` if it has none.
pub open spec fn line_len(s: Seq<char>) -> nat
    decreases s.len(),
{
    if s.len() == 0 || s.first() == '\n' {
        0
    } else {
        1 + line_len(s.drop_first())
    }
}

/// The line as a list entry: nothing if it is empty.
pub open spec fn entry_of(line: Seq<char>) -> Seq<Seq<char>> {
    if line.len() == 0 {
        Seq::empty()
    } else {
        seq![line]
    }
}

/// The entries of a keychain listing: its lines, split at line feeds, each
/// without the padding around it, in their order, empty ones left out.
pub open spec fn search_list_entries(listing: Seq<char>) -> Seq<Seq<char>>
    decreases listing.len(),
{
    let n = line_len(listing) as int;
    if n >= listing.len() {
        entry_of(trimmed(listing))
    } else {
        entry_of(trimmed(listing.take(n))) + search_list_entries(listing.skip(n + 1))
    }
}

/// A stretch without line feed that ends at a line feed, or at the end of
/// the text, is the first line.
pub proof fn lemma_line_len(s: Seq<char>, n: int)
    requires
        0 <= n <= s.len(),
        forall|k: int| 0 <= k < n ==> s[k] != '\n',
        n < s.len() ==> s[n] == '\n',
    ensures
        line_len(s) == n,
    decreases n,
{
    if n > 0 {
        lemma_line_len(s.drop_first(), n - 1);
    }
}

/// No entry of a listing is empty, and none begins or ends with padding.
pub proof fn lemma_entries_are_trimmed(listing: Seq<char>)
    ensures
        forall|i: int|
            #![trigger search_list_entries(listing)[i]]
            0 <= i < search_list_entries(listing).len() ==> {
                let e = search_list_entries(listing)[i];
                e.len() > 0 && !is_padding(e.first()) && !is_padding(e.last())
            },
    decreases listing.len(),
{
    let n = line_len(listing) as int;
    if n >= listing.len() {
        lemma_trimmed_ends(listing);
    } else {
        let head = entry_of(trimmed(listing.take(n)));
        let tail = search_list_entries(listing.skip(n + 1));
        lemma_trimmed_ends(listing.take(n));
        lemma_entries_are_trimmed(listing.skip(n + 1));
        assert forall|i: int| 0 <= i < (head + tail).len() implies {
            let e = #[trigger] (head + tail)[i];
            e.len() > 0 && !is_padding(e.first()) && !is_padding(e.last())
        } by {
            if i >= head.len() {
                assert((head + tail)[i] == tail[i - head.len()]);
            }
        }
    }
}

/// What is left after trimming has no padding at either end.
pub proof fn lemma_trimmed_ends(s: Seq<char>)
    ensures
        trimmed(s).len() > 0 ==> !is_padding(trimmed(s).first()) && !is_padding(
            trimmed(s).last(),
        ),
{
    lemma_trim_start_first(s);
    lemma_trim_end_keeps_first(trim_start(s));
}

proof fn lemma_trim_start_first(s: Seq<char>)
    ensures
        trim_start(s).len() > 0 ==> !is_padding(trim_start(s).first()),
    decreases s.len(),
{
    if s.len() > 0 && is_padding(s.first()) {
        lemma_trim_start_first(s.drop_first());
    }
}

proof fn lemma_trim_end_keeps_first(s: Seq<char>)
    requires
        s.len() > 0 ==> !is_padding(s.first()),
    ensures
        trim_end(s).len() > 0 ==> !is_padding(trim_end(s).first()) && !is_padding(
            trim_end(s).last(),
        ),
    decreases s.len(),
{
    if s.len() > 0 && is_padding(s.last()) {
        lemma_trim_end_keeps_first(s.drop_last());
    }
}

/// Tells whether the character is padding.
fn is_padding_char(c: char) -> (b: bool)
    ensures
        b == is_padding(c),
{
    char_is_whitespace(c) || c == '"'
}

/// Copies the characters `from..to` of `text` without the padding around
/// them.
fn trimmed_range(text: &str, from: usize, to: usize) -> (out: String)
    requires
        from <= to <= text@.len(),
    ensures
        out@ == trimmed(text@.subrange(from as int, to as int)),
{
    let mut a: usize = from;
    while a < to && is_padding_char(text.get_char(a))
        invariant
            from <= a <= to <= text@.len(),
            trim_start(text@.subrange(from as int, to as int)) == trim_start(
                text@.subrange(a as int, to as int),
            ),
        decreases to - a,
    {
        assert(text@.subrange(a as int, to as int).drop_first() =~= text@.subrange(
            a + 1,
            to as int,
        ));
        a += 1;
    }
    assert(trim_start(text@.subrange(a as int, to as int)) == text@.subrange(a as int, to as int));
    let mut b: usize = to;
    while b > a && is_padding_char(text.get_char(b - 1))
        invariant
            a <= b <= to <= text@.len(),
            trim_end(text@.subrange(a as int, to as int)) == trim_end(
                text@.subrange(a as int, b as int),
            ),
        decreases b - a,
    {
        assert(text@.subrange(a as int, b as int).drop_last() =~= text@.subrange(
            a as int,
            b - 1,
        ));
        b -= 1;
    }
    assert(trim_end(text@.subrange(a as int, b as int)) == text@.subrange(a as int, b as int));
    text.substring_char(a, b).to_string()
}

/// Reads the keychain search list out of what `security list-keychain`
/// printed.
pub fn parse_search_list(listing: &str) -> (entries: Vec<String>)
    ensures
        texts(entries@) == search_list_entries(listing@),
{
    let n = listing.unicode_len();
    let mut entries: Vec<String> = Vec::new();
    let mut start: usize = 0;
    let mut i: usize = 0;
    assert(listing@.skip(0) =~= listing@);
    assert(texts(entries@) =~= Seq::empty());
    while i < n
        invariant
            start <= i <= n == listing@.len(),
            forall|k: int| start <= k < i ==> listing@[k] != '\n',
            search_list_entries(listing@) == texts(entries@) + search_list_entries(
                listing@.skip(start as int),
            ),
        decreases n - i,
    {
        if listing.get_char(i) == '\n' {
            let ghost rest = listing@.skip(start as int);
            proof {
                lemma_line_len(rest, i - start);
                assert(rest.take(i - start) =~= listing@.subrange(start as int, i as int));
                assert(rest.skip(i - start + 1) =~= listing@.skip(i + 1));
            }
            let entry = trimmed_range(listing, start, i);
            if entry.as_str().unicode_len() > 0 {
                proof {
                    crate::command::lemma_texts_push(entries@, entry);
                }
                entries.push(entry);
            }
            start = i + 1;
        }
        i += 1;
    }
    let ghost rest = listing@.skip(start as int);
    proof {
        lemma_line_len(rest, n - start);
        assert(rest =~= listing@.subrange(start as int, n as int));
    }
    let entry = trimmed_range(listing, start, n);
    if entry.as_str().unicode_len() > 0 {
        proof {
            crate::command::lemma_texts_push(entries@, entry);
        }
        entries.push(entry);
    }
    entries
}

} // verus!

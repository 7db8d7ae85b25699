//! Text primitives of the layout engine: measuring, padding, joining and
//! trimming, each stated over `Seq<char>`.

use vstd::prelude::*;
use vstd::std_specs::iter::IteratorSpec;
use vstd::utf8::encode_utf8;

verus! {

/// A run of `count` space characters.
pub open spec fn spaces(count: nat) -> Seq<char> {
    Seq::new(count, |_i: int| ' ')
}

/// The length by which a segment is measured: the size of its UTF-8 encoding.
pub open spec fn byte_len(s: Seq<char>) -> nat {
    encode_utf8(s).len()
}

/// `s` filled up with spaces on the right until it holds `width` characters;
/// `s` itself when it already holds that many.
pub open spec fn left_justified(s: Seq<char>, width: nat) -> Seq<char> {
    if s.len() >= width {
        s
    } else {
        s + spaces((width - s.len()) as nat)
    }
}

/// `s` filled up with spaces on the left until it holds `width` characters;
/// `s` itself when it already holds that many.
pub open spec fn right_justified(s: Seq<char>, width: nat) -> Seq<char> {
    if s.len() >= width {
        s
    } else {
        spaces((width - s.len()) as nat) + s
    }
}

/// Every text has at least as many bytes as characters.
pub proof fn lemma_char_count_at_most_byte_len(s: Seq<char>)
    ensures
        s.len() <= byte_len(s),
    decreases s.len(),
{
    if s.len() > 0 {
        lemma_char_count_at_most_byte_len(s.drop_first());
    }
}

/// Measures `s`: the number of bytes of its UTF-8 encoding.
pub fn measure(s: &str) -> (len: usize)
    ensures
        len == byte_len(s@),
{
    s.as_bytes().len()
}

/// Appends `count` spaces to `out`.
pub fn push_spaces(out: &mut String, count: usize)
    ensures
        final(out)@ == old(out)@ + spaces(count as nat),
{
    let mut done: usize = 0;
    proof {
        assert(out@ =~= old(out)@ + spaces(0));
    }
    while done < count
        invariant
            done <= count,
            out@ == old(out)@ + spaces(done as nat),
        decreases count - done,
    {
        proof {
            reveal_strlit(" ");
        }
        out.append(" ");
        done = done + 1;
        proof {
            assert(out@ =~= old(out)@ + spaces(done as nat));
        }
    }
}

/// Appends `s` to `out`, followed by the spaces that fill it up to `width`
/// characters.
pub fn push_left_justified(out: &mut String, s: &str, width: usize)
    ensures
        final(out)@ == old(out)@ + left_justified(s@, width as nat),
{
    let len = s.unicode_len();
    out.append(s);
    if len < width {
        push_spaces(out, width - len);
    }
    proof {
        assert(out@ =~= old(out)@ + left_justified(s@, width as nat));
    }
}

/// Appends the spaces that fill `s` up to `width` characters to `out`,
/// followed by `s`.
pub fn push_right_justified(out: &mut String, s: &str, width: usize)
    ensures
        final(out)@ == old(out)@ + right_justified(s@, width as nat),
{
    let len = s.unicode_len();
    if len < width {
        push_spaces(out, width - len);
    }
    out.append(s);
    proof {
        assert(out@ =~= old(out)@ + right_justified(s@, width as nat));
    }
}

/// The items in order, with `separator` between each two neighbours.
pub open spec fn joined(items: Seq<Seq<char>>, separator: Seq<char>) -> Seq<char>
    decreases items.len(),
{
    if items.len() == 0 {
        Seq::empty()
    } else if items.len() == 1 {
        items[0]
    } else {
        joined(items.drop_last(), separator) + separator + items.last()
    }
}

/// Joins `items` in order, with `separator` between each two neighbours.
pub fn join(items: &Vec<String>, separator: &str) -> (out: String)
    ensures
        out@ == joined(items.deep_view(), separator@),
{
    let ghost texts = items.deep_view();
    let mut out = String::new();
    let mut at: usize = 0;
    while at < items.len()
        invariant
            at <= items.len(),
            texts == items.deep_view(),
            out@ == joined(texts.take(at as int), separator@),
        decreases items.len() - at,
    {
        if at > 0 {
            out.append(separator);
        }
        out.append(items[at].as_str());
        proof {
            let grown = texts.take(at + 1);
            assert(grown.drop_last() =~= texts.take(at as int));
            assert(grown.last() == items[at as int]@);
        }
        at = at + 1;
    }
    proof {
        assert(texts.take(at as int) =~= texts);
    }
    out
}

/// Whether `c` has the Unicode property `White_Space`.
pub open spec fn is_whitespace(c: char) -> bool {
    let code = c as u32;
    ||| 0x09 <= code <= 0x0d
    ||| code == 0x20
    ||| code == 0x85
    ||| code == 0xa0
    ||| code == 0x1680
    ||| 0x2000 <= code <= 0x200a
    ||| code == 0x2028
    ||| code == 0x2029
    ||| code == 0x202f
    ||| code == 0x205f
    ||| code == 0x3000
}

/// Tells whether `c` has the Unicode property `White_Space`.
pub fn char_is_whitespace(c: char) -> (white: bool)
    ensures
        white == is_whitespace(c),
{
    let code = c as u32;
    (0x09 <= code && code <= 0x0d) || code == 0x20 || code == 0x85 || code == 0xa0 || code
        == 0x1680 || (0x2000 <= code && code <= 0x200a) || code == 0x2028 || code == 0x2029
        || code == 0x202f || code == 0x205f || code == 0x3000
}

/// `s` without the whitespace it starts with.
pub open spec fn trimmed_start(s: Seq<char>) -> Seq<char>
    decreases s.len(),
{
    if s.len() > 0 && is_whitespace(s[0]) {
        trimmed_start(s.drop_first())
    } else {
        s
    }
}

/// `s` without the whitespace it ends with.
pub open spec fn trimmed_end(s: Seq<char>) -> Seq<char>
    decreases s.len(),
{
    if s.len() > 0 && is_whitespace(s.last()) {
        trimmed_end(s.drop_last())
    } else {
        s
    }
}

/// `s` without the whitespace at either end.
pub open spec fn trimmed(s: Seq<char>) -> Seq<char> {
    trimmed_end(trimmed_start(s))
}

/// Where the first `start` characters are whitespace and the next one, if
/// any, is not, trimming at the start drops exactly those.
pub proof fn lemma_trimmed_start_skips(s: Seq<char>, start: int)
    requires
        0 <= start <= s.len(),
        forall|i: int| 0 <= i < start ==> is_whitespace(#[trigger] s[i]),
        start < s.len() ==> !is_whitespace(s[start]),
    ensures
        trimmed_start(s) == s.skip(start),
    decreases start,
{
    if start == 0 {
        assert(s.skip(0) =~= s);
    } else {
        let rest = s.drop_first();
        assert forall|i: int| 0 <= i < start - 1 implies is_whitespace(#[trigger] rest[i]) by {
            assert(rest[i] == s[i + 1]);
        }
        lemma_trimmed_start_skips(rest, start - 1);
        assert(rest.skip(start - 1) =~= s.skip(start));
    }
}

/// Where the characters from `end` on are whitespace and the one before, if
/// any, is not, trimming at the end keeps exactly the first `end`.
pub proof fn lemma_trimmed_end_takes(s: Seq<char>, end: int)
    requires
        0 <= end <= s.len(),
        forall|i: int| end <= i < s.len() ==> is_whitespace(#[trigger] s[i]),
        end > 0 ==> !is_whitespace(s[end - 1]),
    ensures
        trimmed_end(s) == s.take(end),
    decreases s.len() - end,
{
    if end == s.len() {
        assert(s.take(end) =~= s);
    } else {
        let rest = s.drop_last();
        lemma_trimmed_end_takes(rest, end);
        assert(rest.take(end) =~= s.take(end));
    }
}

/// What trimming leaves neither begins nor ends with whitespace.
pub proof fn lemma_trimmed_has_no_outer_whitespace(s: Seq<char>)
    ensures
        trimmed(s).len() > 0 ==> !is_whitespace(trimmed(s).first()) && !is_whitespace(
            trimmed(s).last(),
        ),
{
    lemma_trimmed_start_begins_with_text(s);
    lemma_trimmed_end_keeps_start(trimmed_start(s));
}

/// What trimming at the start leaves does not begin with whitespace.
proof fn lemma_trimmed_start_begins_with_text(s: Seq<char>)
    ensures
        trimmed_start(s).len() > 0 ==> !is_whitespace(trimmed_start(s).first()),
    decreases s.len(),
{
    if s.len() > 0 && is_whitespace(s[0]) {
        lemma_trimmed_start_begins_with_text(s.drop_first());
    }
}

/// What trimming at the end leaves does not end with whitespace, and begins
/// as the text did.
proof fn lemma_trimmed_end_keeps_start(s: Seq<char>)
    ensures
        trimmed_end(s).len() > 0 ==> !is_whitespace(trimmed_end(s).last()) && trimmed_end(
            s,
        ).first() == s.first(),
    decreases s.len(),
{
    if s.len() > 0 && is_whitespace(s.last()) {
        lemma_trimmed_end_keeps_start(s.drop_last());
    }
}

/// Returns `s` without the whitespace at either end.
pub fn trim(s: &str) -> (out: String)
    ensures
        out@ == trimmed(s@),
{
    let len = s.unicode_len();
    let mut chars = s.chars();
    let mut at: usize = 0;
    let mut start: usize = 0;
    let mut end: usize = 0;
    let mut seen = false;
    loop
        invariant_except_break
            chars.remaining() == s@.skip(at as int),
        invariant
            len == s@.len(),
            at <= len,
            seen ==> start < end <= at,
            seen ==> !is_whitespace(s@[start as int]) && !is_whitespace(s@[end - 1]),
            seen ==> forall|i: int| 0 <= i < start ==> is_whitespace(#[trigger] s@[i]),
            seen ==> forall|i: int| end <= i < at ==> is_whitespace(#[trigger] s@[i]),
            !seen ==> forall|i: int| 0 <= i < at ==> is_whitespace(#[trigger] s@[i]),
        ensures
            at == len,
        decreases len - at,
    {
        match chars.next() {
            None => {
                break ;
            },
            Some(c) => {
                assert(c == s@[at as int]);
                if !char_is_whitespace(c) {
                    if !seen {
                        start = at;
                        seen = true;
                    }
                    end = at + 1;
                }
                at = at + 1;
                assert(s@.skip(at - 1).drop_first() =~= s@.skip(at as int));
            },
        }
    }
    if seen {
        proof {
            lemma_trimmed_start_skips(s@, start as int);
            let kept = s@.skip(start as int);
            assert forall|i: int| end - start <= i < kept.len() implies is_whitespace(
                #[trigger] kept[i],
            ) by {
                assert(kept[i] == s@[i + start]);
            }
            lemma_trimmed_end_takes(kept, end - start);
            assert(kept.take(end - start) =~= s@.subrange(start as int, end as int));
        }
        String::from_str(s.substring_char(start, end))
    } else {
        proof {
            lemma_trimmed_start_skips(s@, len as int);
            assert(s@.skip(len as int) =~= Seq::<char>::empty());
        }
        String::new()
    }
}

} // verus!

//! Text operations: blank values, comma-separated lists, comparison that ignores ASCII case.

use vstd::prelude::*;

verus! {

/// A character with the Unicode `White_Space` property.
pub open spec fn is_white_space(c: char) -> bool {
    let code = c as u32;
    ||| 0x9 <= code <= 0xD
    ||| code == 0x20
    ||| code == 0x85
    ||| code == 0xA0
    ||| code == 0x1680
    ||| 0x2000 <= code <= 0x200A
    ||| code == 0x2028
    ||| code == 0x2029
    ||| code == 0x202F
    ||| code == 0x205F
    ||| code == 0x3000
}

/// A character of ASCII.
pub open spec fn is_ascii(c: char) -> bool {
    (c as u32) < 128
}

/// The number of bytes that a character takes in UTF-8.
pub open spec fn utf8_len(c: char) -> nat {
    let code = c as u32;
    if code < 0x80 {
        1
    } else if code < 0x800 {
        2
    } else if code < 0x10000 {
        3
    } else {
        4
    }
}

/// The number of bytes that a text takes in UTF-8.
pub open spec fn byte_len(s: Seq<char>) -> nat
    decreases s.len(),
{
    if s.len() == 0 {
        0
    } else {
        byte_len(s.drop_last()) + utf8_len(s.last())
    }
}

/// A byte offset into a text that falls between two of its characters, or at one of its ends.
pub open spec fn is_boundary(s: Seq<char>, offset: nat) -> bool {
    exists|n: int| 0 <= n <= s.len() && offset == #[trigger] byte_len(s.take(n))
}

/// `char::is_whitespace` answers whether a character has the Unicode `White_Space` property;
/// [`is_white_space`] lists the characters that have it.
pub assume_specification[ char::is_whitespace ](c: char) -> (answer: bool)
    ensures
        answer == is_white_space(c),
;

/// Text of nothing but whitespace, the empty text among it.
pub open spec fn is_blank(s: Seq<char>) -> bool {
    forall|i: int| 0 <= i < s.len() ==> is_white_space(#[trigger] s[i])
}

/// The text without the whitespace at its start.
pub open spec fn trim_start(s: Seq<char>) -> Seq<char>
    decreases s.len(),
{
    if s.len() > 0 && is_white_space(s.first()) {
        trim_start(s.drop_first())
    } else {
        s
    }
}

/// The text without the whitespace at its end.
pub open spec fn trim_end(s: Seq<char>) -> Seq<char>
    decreases s.len(),
{
    if s.len() > 0 && is_white_space(s.last()) {
        trim_end(s.drop_last())
    } else {
        s
    }
}

/// The text without the whitespace at its two ends.
pub open spec fn trim(s: Seq<char>) -> Seq<char> {
    trim_end(trim_start(s))
}

/// The character with an ASCII capital letter made small.
pub open spec fn ascii_lower(c: char) -> char {
    if 'A' <= c <= 'Z' {
        ((c as u8) + 32) as char
    } else {
        c
    }
}

/// The text with its ASCII capital letters made small.
pub open spec fn ascii_lowercase(s: Seq<char>) -> Seq<char> {
    s.map_values(|c: char| ascii_lower(c))
}

/// Two texts that differ at most in the case of ASCII letters.
pub open spec fn equal_ignoring_ascii_case(a: Seq<char>, b: Seq<char>) -> bool {
    ascii_lowercase(a) == ascii_lowercase(b)
}

/// The pieces of a text between its commas: always one more than there are commas.
pub open spec fn comma_separated(s: Seq<char>) -> Seq<Seq<char>>
    decreases s.len(),
{
    if s.len() == 0 {
        seq![s]
    } else {
        let rest = comma_separated(s.drop_first());
        if s.first() == ',' {
            seq![Seq::<char>::empty()] + rest
        } else {
            seq![seq![s.first()] + rest.first()] + rest.drop_first()
        }
    }
}

/// A comma-separated list that names `item`, whatever its case and the whitespace around it.
pub open spec fn lists_item(list: Seq<char>, item: Seq<char>) -> bool {
    exists|i: int|
        0 <= i < comma_separated(list).len() && equal_ignoring_ascii_case(
            trim(#[trigger] comma_separated(list)[i]),
            item,
        )
}

/// The characters of a text.
pub fn chars_of(s: &str) -> (chars: Vec<char>)
    ensures
        chars@ == s@,
{
    let mut chars: Vec<char> = Vec::new();
    for c in it: s.chars()
        invariant
            it.seq() == s@,
            chars@ == s@.take(it.index() as int),
    {
        chars.push(c);
    }
    chars
}

/// Compares two texts.
pub fn same_text(a: &str, b: &str) -> (same: bool)
    ensures
        same == (a@ == b@),
{
    let left: String = a.to_owned();
    let right: String = b.to_owned();
    left == right
}

/// The text of `a` followed by that of `b`.
pub fn join(a: &str, b: &str) -> (joined: String)
    ensures
        joined@ == a@ + b@,
{
    let mut joined: String = a.to_owned();
    joined.append(b);
    joined
}

/// Tells whether a text holds nothing but whitespace.
pub fn blank(s: &str) -> (answer: bool)
    ensures
        answer == is_blank(s@),
{
    let chars = chars_of(s);
    for i in 0..chars.len()
        invariant
            chars@ == s@,
            forall|j: int| 0 <= j < i ==> is_white_space(#[trigger] s@[j]),
    {
        if !chars[i].is_whitespace() {
            return false;
        }
    }
    true
}

fn lower(c: char) -> (small: char)
    ensures
        small == ascii_lower(c),
{
    if 'A' <= c && c <= 'Z' {
        ((c as u8) + 32) as char
    } else {
        c
    }
}

proof fn lemma_trim_end_blank(s: Seq<char>)
    ensures
        trim_end(s).len() == 0 <==> is_blank(s),
    decreases s.len(),
{
    if s.len() > 0 && is_white_space(s.last()) {
        lemma_trim_end_blank(s.drop_last());
        assert(is_blank(s.drop_last()) ==> is_blank(s)) by {
            assert forall|i: int| is_blank(s.drop_last()) && 0 <= i < s.len() implies is_white_space(
                #[trigger] s[i],
            ) by {
                if i < s.len() - 1 {
                    assert(s.drop_last()[i] == s[i]);
                }
            }
        }
    } else if s.len() > 0 {
        assert(!is_white_space(s[s.len() - 1]));
    }
}

/// A text is blank exactly when nothing of it is left once it is trimmed.
pub proof fn blank_text_trims_to_nothing(s: Seq<char>)
    ensures
        is_blank(s) <==> trim(s).len() == 0,
    decreases s.len(),
{
    if s.len() > 0 && is_white_space(s.first()) {
        blank_text_trims_to_nothing(s.drop_first());
        assert(is_blank(s.drop_first()) ==> is_blank(s)) by {
            assert forall|i: int| is_blank(s.drop_first()) && 0 <= i < s.len() implies is_white_space(
                #[trigger] s[i],
            ) by {
                if i > 0 {
                    assert(s.drop_first()[i - 1] == s[i]);
                }
            }
        }
        assert(is_blank(s) ==> is_blank(s.drop_first()));
    } else {
        lemma_trim_end_blank(s);
    }
}

/// The bounds of what is left of `chars[from..to]` once it is trimmed.
pub(crate) fn trimmed_bounds(chars: &Vec<char>, from: usize, to: usize) -> (bounds: (usize, usize))
    requires
        from <= to <= chars@.len(),
    ensures
        bounds.0 <= bounds.1 <= chars@.len(),
        chars@.subrange(bounds.0 as int, bounds.1 as int) == trim(
            chars@.subrange(from as int, to as int),
        ),
{
    let mut start: usize = from;
    while start < to && chars[start].is_whitespace()
        invariant
            from <= start <= to <= chars@.len(),
            trim_start(chars@.subrange(start as int, to as int)) == trim_start(
                chars@.subrange(from as int, to as int),
            ),
        decreases to - start,
    {
        assert(chars@.subrange(start as int, to as int).drop_first() == chars@.subrange(
            start + 1,
            to as int,
        ));
        start = start + 1;
    }
    assert(trim_start(chars@.subrange(from as int, to as int)) == chars@.subrange(
        start as int,
        to as int,
    ));
    let mut end: usize = to;
    while end > start && chars[end - 1].is_whitespace()
        invariant
            start <= end <= to <= chars@.len(),
            trim_end(chars@.subrange(start as int, end as int)) == trim_end(
                chars@.subrange(start as int, to as int),
            ),
        decreases end,
    {
        assert(chars@.subrange(start as int, end as int).drop_last() == chars@.subrange(
            start as int,
            end - 1,
        ));
        end = end - 1;
    }
    (start, end)
}

/// Tells whether `chars[from..to]` is `word` in some case.
fn range_is(chars: &Vec<char>, from: usize, to: usize, word: &Vec<char>) -> (answer: bool)
    requires
        from <= to <= chars@.len(),
    ensures
        answer == equal_ignoring_ascii_case(chars@.subrange(from as int, to as int), word@),
{
    let ghost piece = chars@.subrange(from as int, to as int);
    if to - from != word.len() {
        assert(ascii_lowercase(piece).len() != ascii_lowercase(word@).len());
        return false;
    }
    for i in 0..word.len()
        invariant
            from <= to <= chars@.len(),
            to - from == word@.len(),
            piece == chars@.subrange(from as int, to as int),
            forall|j: int|
                0 <= j < i ==> ascii_lower(#[trigger] piece[j]) == ascii_lower(word@[j]),
    {
        if lower(chars[from + i]) != lower(word[i]) {
            assert(ascii_lowercase(piece)[i as int] != ascii_lowercase(word@)[i as int]);
            return false;
        }
    }
    assert(ascii_lowercase(piece) =~= ascii_lowercase(word@));
    true
}

/// Compares two texts whatever the case of their ASCII letters.
pub fn same_ignoring_case(a: &str, b: &str) -> (same: bool)
    ensures
        same == equal_ignoring_ascii_case(a@, b@),
{
    let left = chars_of(a);
    let right = chars_of(b);
    assert(left@.subrange(0, left@.len() as int) =~= left@);
    range_is(&left, 0, left.len(), &right)
}

/// Tells whether `chars[from..to]`, trimmed, is `item` in some case.
fn piece_is(chars: &Vec<char>, from: usize, to: usize, item: &Vec<char>) -> (answer: bool)
    requires
        from <= to <= chars@.len(),
    ensures
        answer == equal_ignoring_ascii_case(trim(chars@.subrange(from as int, to as int)), item@),
{
    let (start, end) = trimmed_bounds(chars, from, to);
    range_is(chars, start, end, item)
}

/// The bounds of the pieces of a text between its commas, the last piece first.
pub(crate) fn comma_bounds(chars: &Vec<char>) -> (bounds: Vec<(usize, usize)>)
    ensures
        bounds@.len() == comma_separated(chars@).len(),
        forall|k: int|
            0 <= k < bounds@.len() ==> (#[trigger] bounds@[k]).0 <= bounds@[k].1 <= chars@.len()
                && chars@.subrange(bounds@[k].0 as int, bounds@[k].1 as int) == comma_separated(
                chars@,
            )[bounds@.len() - 1 - k],
{
    let mut bounds: Vec<(usize, usize)> = Vec::new();
    let mut i: usize = chars.len();
    let mut end: usize = chars.len();
    assert(chars@.skip(chars@.len() as int) =~= Seq::<char>::empty());
    while i > 0
        invariant
            i <= end <= chars@.len(),
            comma_separated(chars@.skip(i as int)).len() == bounds@.len() + 1,
            comma_separated(chars@.skip(i as int)).first() == chars@.subrange(
                i as int,
                end as int,
            ),
            forall|k: int|
                0 <= k < bounds@.len() ==> (#[trigger] bounds@[k]).0 <= bounds@[k].1 <= chars@.len()
                    && chars@.subrange(bounds@[k].0 as int, bounds@[k].1 as int)
                    == comma_separated(chars@.skip(i as int))[bounds@.len() - k],
        decreases i,
    {
        let ghost rest = comma_separated(chars@.skip(i as int));
        assert(chars@.skip(i - 1).drop_first() =~= chars@.skip(i as int));
        i = i - 1;
        if chars[i] == ',' {
            bounds.push((i + 1, end));
            end = i;
            assert(chars@.subrange(i as int, end as int) =~= Seq::<char>::empty());
        } else {
            assert(chars@.subrange(i as int, end as int) =~= seq![chars@[i as int]]
                + chars@.subrange(i + 1, end as int));
            assert(comma_separated(chars@.skip(i as int)) =~= seq![
                chars@.subrange(i as int, end as int),
            ] + rest.drop_first());
        }
    }
    assert(chars@.skip(0) =~= chars@);
    bounds.push((0, end));
    bounds
}

/// Tells whether a comma-separated list names an item.
pub fn lists(list: &str, item: &str) -> (answer: bool)
    ensures
        answer == lists_item(list@, item@),
{
    let chars = chars_of(list);
    let wanted = chars_of(item);
    let bounds = comma_bounds(&chars);
    let ghost pieces = comma_separated(list@);
    for k in 0..bounds.len()
        invariant
            chars@ == list@,
            wanted@ == item@,
            pieces == comma_separated(list@),
            bounds@.len() == pieces.len(),
            forall|j: int|
                0 <= j < bounds@.len() ==> (#[trigger] bounds@[j]).0 <= bounds@[j].1 <= chars@.len()
                    && chars@.subrange(bounds@[j].0 as int, bounds@[j].1 as int)
                    == pieces[bounds@.len() - 1 - j],
            forall|j: int|
                bounds@.len() - k <= j < bounds@.len() ==> !equal_ignoring_ascii_case(
                    trim(#[trigger] pieces[j]),
                    item@,
                ),
    {
        let (from, to) = bounds[k];
        if piece_is(&chars, from, to, &wanted) {
            assert(equal_ignoring_ascii_case(trim(pieces[bounds@.len() - 1 - k]), item@));
            return true;
        }
    }
    false
}

/// A text without commas is one piece.
pub(crate) proof fn lemma_one_piece(s: Seq<char>)
    requires
        forall|i: int| 0 <= i < s.len() ==> (#[trigger] s[i]) != ',',
    ensures
        comma_separated(s) == seq![s],
    decreases s.len(),
{
    if s.len() > 0 {
        assert forall|i: int| 0 <= i < s.drop_first().len() implies (#[trigger] s.drop_first()[i])
            != ',' by {
            assert(s.drop_first()[i] == s[i + 1]);
        }
        lemma_one_piece(s.drop_first());
        assert(s[0] != ',');
        assert(seq![s.first()] + s.drop_first() =~= s);
        assert(comma_separated(s) =~= seq![s]);
    }
}

/// The first piece of a text is what stands before the first comma.
pub(crate) proof fn lemma_first_piece(first: Seq<char>, rest: Seq<char>)
    requires
        forall|i: int| 0 <= i < first.len() ==> (#[trigger] first[i]) != ',',
    ensures
        comma_separated(first + seq![','] + rest) == seq![first] + comma_separated(rest),
    decreases first.len(),
{
    let s = first + seq![','] + rest;
    if first.len() == 0 {
        assert(s.drop_first() =~= rest);
        assert(first =~= Seq::<char>::empty());
    } else {
        assert forall|i: int| 0 <= i < first.drop_first().len() implies (
        #[trigger] first.drop_first()[i]) != ',' by {
            assert(first.drop_first()[i] == first[i + 1]);
        }
        lemma_first_piece(first.drop_first(), rest);
        assert(s.drop_first() =~= first.drop_first() + seq![','] + rest);
        assert(s.first() == first[0]);
        assert(seq![s.first()] + first.drop_first() =~= first);
        let pieces = seq![first.drop_first()] + comma_separated(rest);
        assert(pieces.drop_first() =~= comma_separated(rest));
    }
}

/// Byte lengths add up character by character.
pub(crate) proof fn lemma_byte_len_step(s: Seq<char>, n: int)
    requires
        0 <= n < s.len(),
    ensures
        byte_len(s.take(n + 1)) == byte_len(s.take(n)) + utf8_len(s[n]),
{
    assert(s.take(n + 1).drop_last() =~= s.take(n));
}

/// The number of bytes that a character takes in UTF-8.
pub(crate) fn width(c: char) -> (bytes: u128)
    ensures
        bytes == utf8_len(c),
        1 <= bytes <= 4,
{
    let code: u32 = c as u32;
    if code < 0x80 {
        1
    } else if code < 0x800 {
        2
    } else if code < 0x10000 {
        3
    } else {
        4
    }
}

/// Tells whether a byte offset into `chars[from..to]` falls between two of its characters, or at
/// one of its ends.
pub(crate) fn boundary(chars: &Vec<char>, from: usize, to: usize, offset: u128) -> (answer: bool)
    requires
        from <= to <= chars@.len(),
    ensures
        answer == is_boundary(chars@.subrange(from as int, to as int), offset as nat),
{
    let ghost piece = chars@.subrange(from as int, to as int);
    let mut at: u128 = 0;
    assert(piece.take(0) =~= Seq::<char>::empty());
    for i in from..to
        invariant
            from <= to <= chars@.len(),
            piece == chars@.subrange(from as int, to as int),
            at == byte_len(piece.take(i - from)),
            at <= 4 * (i - from),
            forall|n: int| 0 <= n < i - from ==> offset != #[trigger] byte_len(piece.take(n)),
    {
        if at == offset {
            assert(is_boundary(piece, offset as nat));
            return true;
        }
        proof {
            lemma_byte_len_step(piece, i - from);
        }
        at = at + width(chars[i]);
    }
    at == offset
}

/// One letter in either case, or one character: ASCII capitals stand 32 before small letters.
pub open spec fn same_letter(x: char, y: char) -> bool {
    ||| x == y
    ||| 'A' <= x <= 'Z' && y as int == x as int + 32
    ||| 'A' <= y <= 'Z' && x as int == y as int + 32
}

/// `s[from..to]` is a word, in letters of either case.
pub open spec fn spells(s: Seq<char>, from: int, to: int, word: Seq<char>) -> bool {
    &&& to - from == word.len()
    &&& forall|i: int| 0 <= i < word.len() ==> same_letter(s[from + i], #[trigger] word[i])
}

/// `s[from..to]` has no comma in it, and stands between two commas or the ends of the text.
pub open spec fn is_piece(s: Seq<char>, from: int, to: int) -> bool {
    &&& 0 <= from <= to <= s.len()
    &&& from == 0 || s[from - 1] == ','
    &&& to == s.len() || s[to] == ','
    &&& forall|i: int| from <= i < to ==> (#[trigger] s[i]) != ','
}

/// `s[from..to]` is nothing but whitespace around `s[start..end]`, which has none at its ends.
pub open spec fn is_core(s: Seq<char>, from: int, to: int, start: int, end: int) -> bool {
    &&& from <= start <= end <= to
    &&& forall|i: int| from <= i < start ==> is_white_space(#[trigger] s[i])
    &&& forall|i: int| end <= i < to ==> is_white_space(#[trigger] s[i])
    &&& start < end ==> !is_white_space(s[start]) && !is_white_space(s[end - 1])
}

/// Somewhere between two commas, or the ends of the text, an item stands with nothing around it
/// but whitespace.
pub open spec fn names_item(s: Seq<char>, item: Seq<char>) -> bool {
    exists|from: int, to: int, start: int, end: int| #[trigger]
        is_piece(s, from, to) && #[trigger] is_core(s, from, to, start, end) && spells(
            s,
            start,
            end,
            item,
        )
}

proof fn lemma_trim_start_bound(s: Seq<char>) -> (a: int)
    ensures
        0 <= a <= s.len(),
        trim_start(s) == s.skip(a),
        forall|i: int| 0 <= i < a ==> is_white_space(#[trigger] s[i]),
        a < s.len() ==> !is_white_space(s[a]),
    decreases s.len(),
{
    if s.len() > 0 && is_white_space(s.first()) {
        let rest = s.drop_first();
        let a = lemma_trim_start_bound(rest);
        assert(rest.skip(a) =~= s.skip(a + 1));
        assert forall|i: int| 0 <= i < a + 1 implies is_white_space(#[trigger] s[i]) by {
            if i > 0 {
                assert(rest[i - 1] == s[i]);
            }
        }
        a + 1
    } else {
        assert(s.skip(0) =~= s);
        0
    }
}

proof fn lemma_trim_end_bound(s: Seq<char>) -> (b: int)
    ensures
        0 <= b <= s.len(),
        trim_end(s) == s.take(b),
        forall|i: int| b <= i < s.len() ==> is_white_space(#[trigger] s[i]),
        b > 0 ==> !is_white_space(s[b - 1]),
    decreases s.len(),
{
    if s.len() > 0 && is_white_space(s.last()) {
        let rest = s.drop_last();
        let b = lemma_trim_end_bound(rest);
        assert(rest.take(b) =~= s.take(b));
        assert forall|i: int| b <= i < s.len() implies is_white_space(#[trigger] s[i]) by {
            if i < s.len() - 1 {
                assert(rest[i] == s[i]);
            }
        }
        b
    } else {
        assert(s.take(s.len() as int) =~= s);
        s.len() as int
    }
}

/// Trimming leaves what has no whitespace at its ends, and takes nothing else away.
pub proof fn trimming_leaves_the_core(s: Seq<char>) -> (core: (int, int))
    ensures
        is_core(s, 0, s.len() as int, core.0, core.1),
        trim(s) == s.subrange(core.0, core.1),
{
    let a = lemma_trim_start_bound(s);
    let kept = s.skip(a);
    let b = lemma_trim_end_bound(kept);
    assert(kept.take(b) =~= s.subrange(a, a + b));
    assert forall|i: int| a + b <= i < s.len() implies is_white_space(#[trigger] s[i]) by {
        assert(kept[i - a] == s[i]);
    }
    if b > 0 {
        assert(kept[b - 1] == s[a + b - 1]);
    } else if a < s.len() {
        assert(kept[0] == s[a]);
    }
    (a, a + b)
}

/// Whatever has no whitespace at its ends and nothing but whitespace around it is what trimming
/// leaves.
pub proof fn core_is_what_trimming_leaves(s: Seq<char>, start: int, end: int)
    requires
        is_core(s, 0, s.len() as int, start, end),
    ensures
        trim(s) == s.subrange(start, end),
{
    let (a, b) = trimming_leaves_the_core(s);
    if start < end {
        assert(a == start) by {
            if a < start {
                assert(is_white_space(s[a]));
            } else if a > start {
                assert(is_white_space(s[start]));
            }
        }
        assert(b == end) by {
            if b < end {
                assert(is_white_space(s[end - 1]));
            } else if b > end {
                assert(is_white_space(s[b - 1]));
            }
        }
    } else {
        assert(a == b) by {
            if a < b {
                assert(is_white_space(s[a]));
            }
        }
        assert(s.subrange(a, b) =~= s.subrange(start, end));
    }
}

/// Each piece between the commas of a text stands in it between two commas or its ends; the first
/// stands at the start.
pub proof fn pieces_stand_between_commas(s: Seq<char>, k: int) -> (bounds: (int, int))
    requires
        0 <= k < comma_separated(s).len(),
    ensures
        is_piece(s, bounds.0, bounds.1),
        comma_separated(s)[k] == s.subrange(bounds.0, bounds.1),
        k == 0 ==> bounds.0 == 0,
        k > 0 ==> bounds.0 > 0,
    decreases s.len(),
{
    if s.len() == 0 {
        assert(s.subrange(0, 0) =~= s);
        (0, 0)
    } else {
        let rest = s.drop_first();
        let pieces = comma_separated(rest);
        assert(forall|i: int| 0 <= i < rest.len() ==> (#[trigger] rest[i]) == s[i + 1]);
        lemma_pieces_not_none(rest);
        if s.first() == ',' {
            if k == 0 {
                assert(s.subrange(0, 0) =~= Seq::<char>::empty());
                (0, 0)
            } else {
                let (p, q) = pieces_stand_between_commas(rest, k - 1);
                assert(rest.subrange(p, q) =~= s.subrange(p + 1, q + 1));
                assert forall|i: int| p + 1 <= i < q + 1 implies (#[trigger] s[i]) != ',' by {
                    assert(rest[i - 1] == s[i]);
                }
                (p + 1, q + 1)
            }
        } else {
            let (p, q) = pieces_stand_between_commas(rest, k);
            if k == 0 {
                assert(seq![s.first()] + rest.subrange(0, q) =~= s.subrange(0, q + 1));
                assert forall|i: int| 0 <= i < q + 1 implies (#[trigger] s[i]) != ',' by {
                    if i > 0 {
                        assert(rest[i - 1] == s[i]);
                    }
                }
                (0, q + 1)
            } else {
                assert(comma_separated(s)[k] == pieces[k]);
                assert(rest.subrange(p, q) =~= s.subrange(p + 1, q + 1));
                assert forall|i: int| p + 1 <= i < q + 1 implies (#[trigger] s[i]) != ',' by {
                    assert(rest[i - 1] == s[i]);
                }
                (p + 1, q + 1)
            }
        }
    }
}

proof fn lemma_pieces_not_none(s: Seq<char>)
    ensures
        comma_separated(s).len() > 0,
    decreases s.len(),
{
    if s.len() > 0 {
        lemma_pieces_not_none(s.drop_first());
    }
}

/// Whatever stands in a text between two commas or its ends, with no comma in it, is one of its
/// pieces, and the first if it stands at the start.
pub proof fn what_stands_between_commas_is_a_piece(s: Seq<char>, from: int, to: int) -> (k: int)
    requires
        is_piece(s, from, to),
    ensures
        0 <= k < comma_separated(s).len(),
        comma_separated(s)[k] == s.subrange(from, to),
        from == 0 <==> k == 0,
    decreases s.len(),
{
    lemma_pieces_not_none(s);
    if s.len() == 0 {
        assert(s.subrange(0, 0) =~= s);
        0
    } else {
        let rest = s.drop_first();
        let pieces = comma_separated(rest);
        lemma_pieces_not_none(rest);
        assert(forall|i: int| 0 <= i < rest.len() ==> (#[trigger] rest[i]) == s[i + 1]);
        if from == 0 && to == 0 {
            assert(s[0] == ',');
            assert(s.subrange(0, 0) =~= Seq::<char>::empty());
            0
        } else if from == 0 {
            assert(s[0] != ',');
            let k = what_stands_between_commas_is_a_piece(rest, 0, to - 1);
            assert(seq![s.first()] + rest.subrange(0, to - 1) =~= s.subrange(0, to));
            0
        } else {
            let k = what_stands_between_commas_is_a_piece(rest, from - 1, to - 1);
            assert(rest.subrange(from - 1, to - 1) =~= s.subrange(from, to));
            if s.first() == ',' {
                assert(comma_separated(s)[k + 1] == pieces[k]);
                k + 1
            } else {
                assert(from > 1);
                assert(comma_separated(s)[k] == pieces[k]);
                k
            }
        }
    }
}

/// Two texts are the same but for ASCII case exactly if they are so letter by letter.
pub proof fn case_is_ignored_letter_by_letter(a: Seq<char>, b: Seq<char>)
    ensures
        equal_ignoring_ascii_case(a, b) <==> spells(a, 0, a.len() as int, b),
{
    if equal_ignoring_ascii_case(a, b) {
        assert(ascii_lowercase(a).len() == ascii_lowercase(b).len());
        assert forall|i: int| 0 <= i < b.len() implies same_letter(a[0 + i], #[trigger] b[i]) by {
            assert(ascii_lowercase(a)[i] == ascii_lowercase(b)[i]);
            lemma_same_letter(a[i], b[i]);
        }
    }
    if spells(a, 0, a.len() as int, b) {
        assert forall|i: int| 0 <= i < a.len() implies ascii_lower(a[i]) == ascii_lower(b[i]) by {
            assert(same_letter(a[0 + i], b[i]));
            lemma_same_letter(a[i], b[i]);
        }
        assert(ascii_lowercase(a) =~= ascii_lowercase(b));
    }
}

proof fn lemma_same_letter(x: char, y: char)
    ensures
        same_letter(x, y) <==> ascii_lower(x) == ascii_lower(y),
{
}

/// Whoever asks whether a text is blank is told so exactly if every character is whitespace.
pub proof fn blank_text_is_all_whitespace(s: &str, answer: bool)
    requires
        call_ensures(blank, (s,), answer),
    ensures
        answer <==> forall|i: int| 0 <= i < s@.len() ==> is_white_space(#[trigger] s@[i]),
{
}

/// Whoever compares two texts whatever their case is told that they are the same exactly if they
/// are so letter by letter.
pub proof fn same_texts_are_spelled_the_same(a: &str, b: &str, same: bool)
    requires
        call_ensures(same_ignoring_case, (a, b), same),
    ensures
        same <==> spells(a@, 0, a@.len() as int, b@),
{
    case_is_ignored_letter_by_letter(a@, b@);
}

/// Whoever asks whether a list names an item is told so exactly if the item stands in it, in some
/// case, between commas or ends with nothing around it but whitespace.
pub proof fn list_names_what_stands_in_it(list: &str, item: &str, answer: bool)
    requires
        call_ensures(lists, (list, item), answer),
    ensures
        answer <==> names_item(list@, item@),
{
    list_names_what_it_lists(list@, item@);
}

/// A list has an item among its pieces exactly if the item stands in it, in some case, between
/// commas or ends with nothing around it but whitespace.
pub proof fn list_names_what_it_lists(s: Seq<char>, item: Seq<char>)
    ensures
        lists_item(s, item) <==> names_item(s, item),
{
    if lists_item(s, item) {
        let k = choose|k: int|
            0 <= k < comma_separated(s).len() && equal_ignoring_ascii_case(
                trim(#[trigger] comma_separated(s)[k]),
                item,
            );
        let (p, q) = pieces_stand_between_commas(s, k);
        let piece = s.subrange(p, q);
        let (a, b) = trimming_leaves_the_core(piece);
        case_is_ignored_letter_by_letter(piece.subrange(a, b), item);
        lemma_core_in_place(s, p, q, a, b);
        assert forall|i: int| 0 <= i < item.len() implies same_letter(
            s[p + a + i],
            #[trigger] item[i],
        ) by {
            assert(piece.subrange(a, b)[0 + i] == s[p + a + i]);
        }
        assert(spells(s, p + a, p + b, item));
        assert(is_piece(s, p, q) && is_core(s, p, q, p + a, p + b));
    }
    if names_item(s, item) {
        let (p, q, a, b) = choose|p: int, q: int, a: int, b: int| #[trigger]
            is_piece(s, p, q) && #[trigger] is_core(s, p, q, a, b) && spells(s, a, b, item);
        let k = what_stands_between_commas_is_a_piece(s, p, q);
        let piece = s.subrange(p, q);
        lemma_core_in_place(s, p, q, a - p, b - p);
        core_is_what_trimming_leaves(piece, a - p, b - p);
        let core = piece.subrange(a - p, b - p);
        assert forall|i: int| 0 <= i < item.len() implies same_letter(
            core[0 + i],
            #[trigger] item[i],
        ) by {
            assert(core[i] == s[a + i]);
            assert(same_letter(s[a + i], item[i]));
        }
        case_is_ignored_letter_by_letter(core, item);
        assert(equal_ignoring_ascii_case(trim(comma_separated(s)[k]), item));
    }
}

proof fn lemma_core_in_place(s: Seq<char>, from: int, to: int, start: int, end: int)
    requires
        0 <= from <= to <= s.len(),
    ensures
        is_core(s.subrange(from, to), 0, to - from, start, end) <==> is_core(
            s,
            from,
            to,
            from + start,
            from + end,
        ),
{
    let piece = s.subrange(from, to);
    if is_core(piece, 0, to - from, start, end) {
        assert forall|i: int| from <= i < from + start implies is_white_space(#[trigger] s[i]) by {
            assert(piece[i - from] == s[i]);
        }
        assert forall|i: int| from + end <= i < to implies is_white_space(#[trigger] s[i]) by {
            assert(piece[i - from] == s[i]);
        }
        if start < end {
            assert(piece[start] == s[from + start] && piece[end - 1] == s[from + end - 1]);
        }
    }
    if is_core(s, from, to, from + start, from + end) {
        assert forall|i: int| 0 <= i < start implies is_white_space(#[trigger] piece[i]) by {
            assert(piece[i] == s[from + i]);
        }
        assert forall|i: int| end <= i < to - from implies is_white_space(#[trigger] piece[i]) by {
            assert(piece[i] == s[from + i]);
        }
        if start < end {
            assert(piece[start] == s[from + start] && piece[end - 1] == s[from + end - 1]);
        }
    }
}

/// Whoever joins two texts has the one and then the other, and nothing else.
pub proof fn joined_text_is_one_and_then_the_other(a: &str, b: &str, joined: String)
    requires
        call_ensures(join, (a, b), joined),
    ensures
        joined@.len() == a@.len() + b@.len(),
        forall|i: int| 0 <= i < a@.len() ==> (#[trigger] joined@[i]) == a@[i],
        forall|i: int| 0 <= i < b@.len() ==> joined@[a@.len() + i] == #[trigger] b@[i],
{
}

/// Whoever compares two texts is told that they are the same exactly if they have the same
/// characters.
pub proof fn same_texts_have_the_same_characters(a: &str, b: &str, same: bool)
    requires
        call_ensures(same_text, (a, b), same),
    ensures
        same <==> a@.len() == b@.len() && forall|i: int|
            0 <= i < a@.len() ==> (#[trigger] a@[i]) == b@[i],
{
    if a@.len() == b@.len() && forall|i: int| 0 <= i < a@.len() ==> (#[trigger] a@[i]) == b@[i] {
        assert(a@ =~= b@);
    }
}

} // verus!

//! Text primitives: the character classes, splitting and joining that the
//! login rules are phrased in.

use vstd::prelude::*;

verus! {

/// `String::push` of std appends one character at the end of the string.
pub assume_specification[ String::push ](text: &mut String, character: char)
    ensures
        final(text)@ == old(text)@.push(character),
;

/// The characters of `text`, in order.
pub fn chars_of(text: &str) -> (chars: Vec<char>)
    ensures
        chars@ == text@,
{
    let mut chars: Vec<char> = Vec::new();
    for character in it: text.chars()
        invariant
            it.seq() == text@,
            chars@ == it.seq().take(it.index()),
    {
        chars.push(character);
    }
    chars
}

/// The string made of `chars[from..to]`.
pub fn string_of(chars: &Vec<char>, from: usize, to: usize) -> (text: String)
    requires
        from <= to <= chars@.len(),
    ensures
        text@ == chars@.subrange(from as int, to as int),
{
    let mut text = String::new();
    let mut at: usize = from;
    while at < to
        invariant
            from <= at <= to <= chars@.len(),
            text@ == chars@.subrange(from as int, at as int),
        decreases to - at,
    {
        text.push(chars[at]);
        at += 1;
    }
    text
}

/// Whether two texts hold the same characters.
pub fn same_text(left: &str, right: &str) -> (same: bool)
    ensures
        same == (left@ == right@),
{
    left.to_owned() == right.to_owned()
}

/// Whether an optional text is present and holds the same characters as `right`.
pub fn is_some_text(left: &Option<String>, right: &str) -> (same: bool)
    ensures
        same == (left matches Some(text) && text@ == right@),
{
    match left {
        Some(text) => same_text(text.as_str(), right),
        None => false,
    }
}

/// The characters of an optional text.
pub open spec fn opt_view(text: Option<String>) -> Option<Seq<char>> {
    match text {
        Some(text) => Some(text@),
        None => None,
    }
}

/// An optional borrowed text, by its characters.
pub open spec fn str_view(text: Option<&str>) -> Option<Seq<char>> {
    match text {
        Some(text) => Some(text@),
        None => None,
    }
}

/// An optional text, borrowed.
pub fn borrowed(text: &Option<String>) -> (borrowed: Option<&str>)
    ensures
        str_view(borrowed) == opt_view(*text),
{
    match text {
        Some(text) => Some(text.as_str()),
        None => None,
    }
}

/// Whether two optional texts are both absent or hold the same characters.
pub fn same_opt_text(left: &Option<String>, right: &Option<String>) -> (same: bool)
    ensures
        same == (opt_view(*left) == opt_view(*right)),
{
    match (left, right) {
        (Some(left), Some(right)) => same_text(left.as_str(), right.as_str()),
        (None, None) => true,
        _ => false,
    }
}

/// The characters with the Unicode `White_Space` property.
pub open spec fn white_space(character: char) -> bool {
    let code = character as u32;
    ||| 0x09 <= code <= 0x0d
    ||| code == 0x20
    ||| code == 0x85
    ||| code == 0xa0
    ||| code == 0x1680
    ||| 0x2000 <= code <= 0x200a
    ||| code == 0x2028
    ||| code == 0x2029
    ||| code == 0x202f
    ||| code == 0x205f
    ||| code == 0x3000
}

pub fn is_white_space(character: char) -> (is: bool)
    ensures
        is == white_space(character),
{
    let code: u32 = character as u32;
    (0x09 <= code && code <= 0x0d) || code == 0x20 || code == 0x85 || code == 0xa0 || code == 0x1680
        || (0x2000 <= code && code <= 0x200a) || code == 0x2028 || code == 0x2029 || code == 0x202f
        || code == 0x205f || code == 0x3000
}

/// The characters of the Unicode category `Cc`.
pub open spec fn control(character: char) -> bool {
    character as u32 <= 0x1f || 0x7f <= character as u32 <= 0x9f
}

/// The ASCII white space characters: space, tab, line feed, form feed, carriage return.
pub open spec fn ascii_white_space(character: char) -> bool {
    character == ' ' || character == '\t' || character == '\n' || character == '\x0c' || character
        == '\r'
}

pub fn is_ascii_white_space(character: char) -> (is: bool)
    ensures
        is == ascii_white_space(character),
{
    character == ' ' || character == '\t' || character == '\n' || character == '\x0c' || character
        == '\r'
}

/// A blank text holds nothing but white space.
pub open spec fn blank(text: Seq<char>) -> bool {
    forall|i: int| 0 <= i < text.len() ==> white_space(#[trigger] text[i])
}

/// Whether nothing of `text` is left once it is trimmed.
pub fn is_blank(text: &str) -> (is: bool)
    ensures
        is == blank(text@),
{
    for character in it: text.chars()
        invariant
            it.seq() == text@,
            forall|i: int| 0 <= i < it.index() ==> white_space(#[trigger] text@[i]),
    {
        if !is_white_space(character) {
            assert(!white_space(text@[it.index()]));
            return false;
        }
    }
    true
}

/// The lower-case counterpart of an ASCII letter; any other character is kept.
pub open spec fn ascii_lower(character: char) -> char {
    if 'A' <= character <= 'Z' {
        (character as u32 + 32) as char
    } else {
        character
    }
}

fn to_ascii_lower(character: char) -> (lower: char)
    ensures
        lower == ascii_lower(character),
{
    if 'A' <= character && character <= 'Z' {
        let code: u8 = character as u8;
        (code + 32) as char
    } else {
        character
    }
}

/// Two texts that differ at most in the case of ASCII letters.
pub open spec fn equal_ignoring_ascii_case(left: Seq<char>, right: Seq<char>) -> bool {
    left.map_values(|c: char| ascii_lower(c)) == right.map_values(|c: char| ascii_lower(c))
}

/// Whether two texts are equal when the case of ASCII letters is ignored.
pub fn equals_ignoring_ascii_case(left: &str, right: &str) -> (equal: bool)
    ensures
        equal == equal_ignoring_ascii_case(left@, right@),
{
    let left_chars = chars_of(left);
    let right_chars = chars_of(right);
    let ghost lower_left = left@.map_values(|c: char| ascii_lower(c));
    let ghost lower_right = right@.map_values(|c: char| ascii_lower(c));
    if left_chars.len() != right_chars.len() {
        assert(lower_left.len() != lower_right.len());
        return false;
    }
    let mut at: usize = 0;
    while at < left_chars.len()
        invariant
            at <= left_chars@.len() == right_chars@.len(),
            left_chars@ == left@,
            right_chars@ == right@,
            lower_left == left@.map_values(|c: char| ascii_lower(c)),
            lower_right == right@.map_values(|c: char| ascii_lower(c)),
            forall|i: int| 0 <= i < at ==> lower_left[i] == lower_right[i],
        decreases left_chars@.len() - at,
    {
        if to_ascii_lower(left_chars[at]) != to_ascii_lower(right_chars[at]) {
            assert(lower_left[at as int] != lower_right[at as int]);
            return false;
        }
        at += 1;
    }
    assert(lower_left =~= lower_right);
    true
}

/// The longest message that is shown, in characters.
pub const MAX_MESSAGE_CHARS: usize = 512;

/// `message` without its control characters.
pub open spec fn without_controls(message: Seq<char>) -> Seq<char> {
    message.filter(|c: char| !control(c))
}

/// What is shown of a message that came from outside: its first 512 characters
/// that are no control characters.
pub open spec fn sanitized(message: Seq<char>) -> Seq<char> {
    let clean = without_controls(message);
    if clean.len() <= MAX_MESSAGE_CHARS {
        clean
    } else {
        clean.take(MAX_MESSAGE_CHARS as int)
    }
}

/// Removing the control characters of a text that grows at its end.
proof fn lemma_without_controls_push(message: Seq<char>, character: char)
    ensures
        without_controls(message.push(character)) == (if control(character) {
            without_controls(message)
        } else {
            without_controls(message).push(character)
        }),
{
    reveal(Seq::filter);
    assert(message.push(character).drop_last() =~= message);
}

/// Keeping characters never shortens what is already kept.
proof fn lemma_without_controls_prefix(message: Seq<char>, end: int)
    requires
        0 <= end <= message.len(),
    ensures
        without_controls(message.take(end)).is_prefix_of(without_controls(message)),
    decreases message.len() - end,
{
    if end < message.len() {
        lemma_without_controls_prefix(message, end + 1);
        lemma_without_controls_push(message.take(end), message[end]);
        assert(message.take(end).push(message[end]) =~= message.take(end + 1));
    } else {
        assert(message.take(end) =~= message);
    }
}

/// What is shown of a message from the provider or the browser: no control
/// characters, and no more than 512 characters.
pub fn sanitize_message(message: &str) -> (shown: String)
    ensures
        shown@ == sanitized(message@),
{
    let mut shown = String::new();
    let mut kept: usize = 0;
    proof {
        reveal(Seq::filter);
    }
    for character in it: message.chars()
        invariant
            it.seq() == message@,
            kept == shown@.len(),
            kept <= MAX_MESSAGE_CHARS,
            shown@ == without_controls(message@.take(it.index())),
    {
        proof {
            lemma_without_controls_push(message@.take(it.index()), character);
            assert(message@.take(it.index()).push(character) =~= message@.take(it.index() + 1));
            lemma_without_controls_prefix(message@, it.index() + 1);
        }
        let code: u32 = character as u32;
        if !(code <= 0x1f || (0x7f <= code && code <= 0x9f)) {
            if kept == MAX_MESSAGE_CHARS {
                assert(shown@ =~= without_controls(message@).take(MAX_MESSAGE_CHARS as int));
                return shown;
            }
            shown.push(character);
            kept += 1;
        }
    }
    assert(message@.take(message@.len() as int) =~= message@);
    shown
}

/// The pieces of `text` between the occurrences of `separator`: one more than
/// there are separators, empty ones among them.
pub open spec fn split_on(text: Seq<char>, separator: char) -> Seq<Seq<char>>
    decreases text.len(),
{
    if text.len() == 0 {
        seq![text]
    } else if text.last() == separator {
        split_on(text.drop_last(), separator).push(seq![])
    } else {
        let pieces = split_on(text.drop_last(), separator);
        pieces.update(pieces.len() - 1, pieces.last().push(text.last()))
    }
}

/// There is always at least one piece.
pub proof fn lemma_split_nonempty(text: Seq<char>, separator: char)
    ensures
        split_on(text, separator).len() >= 1,
    decreases text.len(),
{
    if text.len() > 0 {
        lemma_split_nonempty(text.drop_last(), separator);
    }
}

/// The pieces of `chars[from..to]` between the occurrences of `separator`, as
/// ranges of indices.
pub fn split_ranges(chars: &Vec<char>, from: usize, to: usize, separator: char) -> (ranges: Vec<
    (usize, usize),
>)
    requires
        from <= to <= chars@.len(),
    ensures
        ranges@.len() == split_on(chars@.subrange(from as int, to as int), separator).len(),
        ranges@.len() >= 1,
        forall|i: int|
            0 <= i < ranges@.len() ==> from <= (#[trigger] ranges@[i]).0 <= ranges@[i].1 <= to,
        forall|i: int|
            0 <= i < ranges@.len() ==> chars@.subrange(
                (#[trigger] ranges@[i]).0 as int,
                ranges@[i].1 as int,
            ) == split_on(chars@.subrange(from as int, to as int), separator)[i],
{
    let mut ranges: Vec<(usize, usize)> = Vec::new();
    let mut start: usize = from;
    let mut at: usize = from;
    assert(chars@.subrange(from as int, from as int) =~= Seq::<char>::empty());
    while at < to
        invariant
            from <= start <= at <= to <= chars@.len(),
            ({
                let pieces = split_on(chars@.subrange(from as int, at as int), separator);
                &&& pieces.len() == ranges@.len() + 1
                &&& pieces.last() == chars@.subrange(start as int, at as int)
                &&& forall|i: int|
                    0 <= i < ranges@.len() ==> from <= (#[trigger] ranges@[i]).0 <= ranges@[i].1
                        <= to
                &&& forall|i: int|
                    0 <= i < ranges@.len() ==> chars@.subrange(
                        (#[trigger] ranges@[i]).0 as int,
                        ranges@[i].1 as int,
                    ) == pieces[i]
            }),
        decreases to - at,
    {
        let ghost before = chars@.subrange(from as int, at as int);
        let ghost after = chars@.subrange(from as int, at + 1);
        assert(after.drop_last() =~= before);
        assert(after.last() == chars@[at as int]);
        if chars[at] == separator {
            ranges.push((start, at));
            start = at + 1;
            assert(chars@.subrange(at + 1, at + 1) =~= Seq::<char>::empty());
        } else {
            assert(chars@.subrange(start as int, at as int).push(chars@[at as int])
                =~= chars@.subrange(start as int, at + 1));
        }
        at += 1;
    }
    ranges.push((start, to));
    ranges
}

/// `word` is one of the words of `text` that white space sets apart.
pub open spec fn has_word(text: Seq<char>, word: Seq<char>) -> bool {
    exists|from: int, to: int| #[trigger] word_at(text, word, from, to)
}

/// `word` stands at `text[from..to]`, with white space or nothing on either side.
pub open spec fn word_at(text: Seq<char>, word: Seq<char>, from: int, to: int) -> bool {
    &&& 0 <= from < to <= text.len()
    &&& text.subrange(from, to) == word
    &&& from == 0 || ascii_white_space(text[from - 1])
    &&& to == text.len() || ascii_white_space(text[to])
}

/// A word without white space in it.
pub open spec fn is_word(word: Seq<char>) -> bool {
    word.len() > 0 && forall|i: int| 0 <= i < word.len() ==> !ascii_white_space(#[trigger] word[i])
}

/// Whether `word` is one of the words of `text`.
pub fn contains_word(text: &str, word: &str) -> (found: bool)
    requires
        is_word(word@),
    ensures
        found == has_word(text@, word@),
{
    let chars = chars_of(text);
    let sought = word.to_owned();
    let mut start: usize = 0;
    let mut at: usize = 0;
    loop
        invariant
            chars@ == text@,
            sought@ == word@,
            is_word(word@),
            start <= at <= chars@.len(),
            start == 0 || ascii_white_space(chars@[start - 1]),
            forall|i: int| start <= i < at ==> !ascii_white_space(#[trigger] chars@[i]),
            forall|from: int, to: int|
                from < start ==> !(#[trigger] word_at(text@, word@, from, to)),
        ensures
            !has_word(text@, word@),
        decreases chars@.len() - at,
    {
        if at == chars.len() || is_ascii_white_space(chars[at]) {
            let candidate = string_of(&chars, start, at);
            if candidate == sought {
                assert(word_at(text@, word@, start as int, at as int));
                return true;
            }
            assert forall|from: int, to: int| from < at + 1 implies !(#[trigger] word_at(
                text@,
                word@,
                from,
                to,
            )) by {
                if word_at(text@, word@, from, to) {
                    if from == at {
                        assert(at < text@.len());
                        assert(word@[0] == text@[from]);
                    } else if from > start {
                        assert(!ascii_white_space(chars@[from - 1]));
                    } else if to > at {
                        assert(word@[at - from] == text@[at as int]);
                    } else if to < at {
                        assert(!ascii_white_space(chars@[to]));
                    }
                }
            }
            if at == chars.len() {
                break ;
            }
            at += 1;
            start = at;
        } else {
            at += 1;
        }
    }
    false
}

/// The decimal digits of `number`.
pub open spec fn decimal(number: nat) -> Seq<char>
    decreases number,
{
    if number < 10 {
        seq![(48 + number) as char]
    } else {
        decimal(number / 10).push((48 + number % 10) as char)
    }
}

/// `number` written in decimal.
pub fn decimal_text(number: u64) -> (text: String)
    ensures
        text@ == decimal(number as nat),
    decreases number,
{
    let digit: u8 = (number % 10) as u8 + 48;
    let mut text = if number < 10 {
        String::new()
    } else {
        decimal_text(number / 10)
    };
    text.push(digit as char);
    assert(text@ =~= decimal(number as nat));
    text
}

/// The texts of `parts`, one after the other, with `separator` between them.
pub open spec fn joined(parts: Seq<String>, separator: Seq<char>) -> Seq<char>
    decreases parts.len(),
{
    if parts.len() == 0 {
        seq![]
    } else if parts.len() == 1 {
        parts[0]@
    } else {
        joined(parts.drop_last(), separator) + separator + parts.last()@
    }
}

/// `parts` joined by `separator`.
pub fn join(parts: &Vec<String>, separator: &str) -> (text: String)
    ensures
        text@ == joined(parts@, separator@),
{
    let mut text = String::new();
    let mut at: usize = 0;
    while at < parts.len()
        invariant
            at <= parts@.len(),
            text@ == joined(parts@.take(at as int), separator@),
        decreases parts@.len() - at,
    {
        if at > 0 {
            text.append(separator);
        }
        text.append(parts[at].as_str());
        assert(parts@.take(at + 1).drop_last() =~= parts@.take(at as int));
        at += 1;
    }
    assert(parts@.take(parts@.len() as int) =~= parts@);
    text
}

/// Whether one of `texts` holds the characters of `sought`.
pub open spec fn contains_text(texts: Seq<String>, sought: Seq<char>) -> bool {
    exists|i: int| 0 <= i < texts.len() && (#[trigger] texts[i])@ == sought
}

pub fn any_text(texts: &Vec<String>, sought: &str) -> (found: bool)
    ensures
        found == contains_text(texts@, sought@),
{
    let mut at: usize = 0;
    while at < texts.len()
        invariant
            at <= texts@.len(),
            forall|i: int| 0 <= i < at ==> (#[trigger] texts@[i])@ != sought@,
        decreases texts@.len() - at,
    {
        if same_text(texts[at].as_str(), sought) {
            return true;
        }
        at += 1;
    }
    false
}

/// Two blank texts make a blank one, and nothing else does; a text with a visible
/// ASCII character is not blank, and one of spaces, tabs, line ends and no-break
/// spaces is.
pub proof fn law_blank_texts(left: Seq<char>, right: Seq<char>)
    ensures
        blank(left + right) <==> blank(left) && blank(right),
        (exists|i: int| 0 <= i < left.len() && '!' <= #[trigger] left[i] <= '~') ==> !blank(left),
        (forall|i: int|
            0 <= i < left.len() ==> (#[trigger] left[i] == ' ' || left[i] == '\t' || left[i] == '\n'
                || left[i] == '\r' || left[i] == '\u{a0}' || left[i] == '\u{3000}')) ==> blank(
            left,
        ),
{
    let both = left + right;
    if blank(both) {
        assert forall|i: int| 0 <= i < left.len() implies white_space(#[trigger] left[i]) by {
            assert(both[i] == left[i]);
        }
        assert forall|i: int| 0 <= i < right.len() implies white_space(#[trigger] right[i]) by {
            assert(both[left.len() + i] == right[i]);
        }
    }
}

/// What is shown of a message are its characters but for those of the two ranges of
/// control codes, in order, and at most 512 of them.
pub proof fn law_sanitized_keeps_the_rest(message: Seq<char>)
    ensures
        ({
            let visible = message.filter(
                |c: char| !(c as u32 <= 0x1f || 0x7f <= c as u32 && c as u32 <= 0x9f),
            );
            if visible.len() <= 512 {
                sanitized(message) == visible
            } else {
                sanitized(message) == visible.subrange(0, 512)
            }
        }),
        message.len() <= 512 && (forall|i: int|
            0 <= i < message.len() ==> ' ' <= #[trigger] message[i] <= '~') ==> sanitized(message)
            == message,
{
    let left = |c: char| !control(c);
    let right = |c: char| !(c as u32 <= 0x1f || 0x7f <= c as u32 && c as u32 <= 0x9f);
    assert(left =~= right);
    if forall|i: int| 0 <= i < message.len() ==> ' ' <= #[trigger] message[i] <= '~' {
        lemma_all_kept(message);
    }
}

/// A message without control characters is kept whole.
proof fn lemma_all_kept(message: Seq<char>)
    requires
        forall|i: int| 0 <= i < message.len() ==> ' ' <= #[trigger] message[i] <= '~',
    ensures
        without_controls(message) == message,
    decreases message.len(),
{
    reveal(Seq::filter);
    if message.len() > 0 {
        let rest = message.drop_last();
        assert forall|i: int| 0 <= i < rest.len() implies ' ' <= #[trigger] rest[i] <= '~' by {
            assert(rest[i] == message[i]);
        }
        lemma_all_kept(rest);
        assert(message =~= rest.push(message.last()));
    }
}

/// The value of decimal digits.
pub open spec fn value_of(digits: Seq<char>) -> nat
    decreases digits.len(),
{
    if digits.len() == 0 {
        0
    } else {
        value_of(digits.drop_last()) * 10 + (digits.last() as u32 - 48) as nat
    }
}

/// A number in decimal is read back as the number; it has digits only, and no zero
/// before them.
pub proof fn law_decimal_is_read_back(number: nat)
    ensures
        value_of(decimal(number)) == number,
        decimal(number).len() > 0,
        forall|i: int| 0 <= i < decimal(number).len() ==> '0' <= #[trigger] decimal(number)[i] <= '9',
        number >= 10 ==> decimal(number).len() > 1,
        decimal(number).len() > 1 ==> decimal(number)[0] != '0',
    decreases number,
{
    let text = decimal(number);
    if number < 10 {
        assert(text.drop_last() =~= Seq::<char>::empty());
        assert(value_of(text.drop_last()) == 0);
        assert(text.last() as u32 == 48 + number);
    } else {
        law_decimal_is_read_back(number / 10);
        assert(text.drop_last() =~= decimal(number / 10));
        assert(text.last() as u32 == 48 + number % 10);
        assert(text[0] == decimal(number / 10)[0]);
        if number / 10 < 10 {
            assert(decimal(number / 10)[0] as u32 == 48 + number / 10);
        }
    }
}

/// Pieces with a separator between them.
pub open spec fn put_together(pieces: Seq<Seq<char>>, separator: char) -> Seq<char>
    decreases pieces.len(),
{
    if pieces.len() == 0 {
        seq![]
    } else if pieces.len() == 1 {
        pieces[0]
    } else {
        put_together(pieces.drop_last(), separator).push(separator) + pieces.last()
    }
}

/// A text has no separator in it.
pub open spec fn is_piece(text: Seq<char>, separator: char) -> bool {
    forall|i: int| 0 <= i < text.len() ==> #[trigger] text[i] != separator
}

/// Splitting cuts a text at its separators and nowhere else: the pieces have none,
/// and put together they give the text.
pub proof fn law_split_pieces_make_the_text(text: Seq<char>, separator: char)
    ensures
        split_on(text, separator).len() > 0,
        put_together(split_on(text, separator), separator) == text,
        forall|i: int|
            0 <= i < split_on(text, separator).len() ==> is_piece(
                #[trigger] split_on(text, separator)[i],
                separator,
            ),
    decreases text.len(),
{
    let pieces = split_on(text, separator);
    if text.len() > 0 {
        let rest = text.drop_last();
        let before = split_on(rest, separator);
        law_split_pieces_make_the_text(rest, separator);
        if text.last() == separator {
            assert(pieces.drop_last() =~= before);
            assert(pieces.last() =~= Seq::<char>::empty());
            assert(put_together(pieces, separator) =~= text);
        } else {
            assert(pieces.drop_last() =~= before.drop_last());
            assert(pieces.last() =~= before.last().push(text.last()));
            assert(is_piece(before[before.len() - 1], separator));
            assert(is_piece(pieces.last(), separator));
            assert(put_together(pieces, separator) =~= put_together(before, separator).push(
                text.last(),
            ));
            assert(text =~= rest.push(text.last()));
        }
    }
}

/// A separator starts a new piece.
pub proof fn law_split_takes_the_last_piece(text: Seq<char>, piece: Seq<char>, separator: char)
    requires
        is_piece(piece, separator),
    ensures
        split_on(text.push(separator) + piece, separator) == split_on(text, separator).push(piece),
        split_on(piece, separator) == seq![piece],
    decreases piece.len(),
{
    let all = text.push(separator) + piece;
    if piece.len() == 0 {
        assert(all =~= text.push(separator));
        assert(all.drop_last() =~= text);
        assert(piece =~= Seq::<char>::empty());
        assert(split_on(all, separator) =~= split_on(text, separator).push(piece));
        assert(split_on(piece, separator) =~= seq![piece]);
    } else {
        let shorter = piece.drop_last();
        assert forall|i: int| 0 <= i < shorter.len() implies #[trigger] shorter[i] != separator by {
            assert(shorter[i] == piece[i]);
        }
        law_split_takes_the_last_piece(text, shorter, separator);
        assert(all.drop_last() =~= text.push(separator) + shorter);
        assert(all.last() == piece.last());
        assert(piece[piece.len() - 1] != separator);
        assert(shorter.push(piece.last()) =~= piece);
        let pieces = split_on(text, separator).push(shorter);
        assert(pieces.update(pieces.len() - 1, pieces.last().push(piece.last())) =~= split_on(
            text,
            separator,
        ).push(piece));
        assert(seq![shorter].update(0, shorter.push(piece.last())) =~= seq![piece]);
    }
}

/// A word is found between spaces, and alone; in a single word only that word is.
pub proof fn law_words_stand_between_spaces(
    before: Seq<char>,
    word: Seq<char>,
    after: Seq<char>,
    other: Seq<char>,
)
    requires
        is_word(word),
    ensures
        has_word(word, word),
        has_word(before.push(' ') + word + seq![' '] + after, word),
        has_word(before.push(' ') + word, word),
        has_word(word + seq![' '] + after, word),
        is_word(other) && has_word(word, other) ==> other == word,
{
    let n = word.len() as int;
    assert(word.subrange(0, n) =~= word);
    assert(word_at(word, word, 0, n));
    let b = before.len() as int;
    let t1 = before.push(' ') + word + seq![' '] + after;
    assert(t1.subrange(b + 1, b + 1 + n) =~= word);
    assert(word_at(t1, word, b + 1, b + 1 + n));
    let t2 = before.push(' ') + word;
    assert(t2.subrange(b + 1, b + 1 + n) =~= word);
    assert(word_at(t2, word, b + 1, b + 1 + n));
    let t3 = word + seq![' '] + after;
    assert(t3.subrange(0, n) =~= word);
    assert(word_at(t3, word, 0, n));
    if is_word(other) && has_word(word, other) {
        let (from, to) = choose|from: int, to: int| #[trigger] word_at(word, other, from, to);
        if from > 0 {
            assert(!ascii_white_space(word[from - 1]));
        }
        if to < n {
            assert(!ascii_white_space(word[to]));
        }
        assert(other =~= word);
    }
}

/// Texts are equal but for case exactly if they have the same length and at each place
/// the same character, or the same ASCII letter once large and once small.
pub proof fn law_case_is_ascii_case(left: Seq<char>, right: Seq<char>)
    ensures
        equal_ignoring_ascii_case(left, right) <==> (left.len() == right.len() && forall|i: int|
            0 <= i < left.len() ==> (#[trigger] left[i] == right[i] || 'A' <= left[i] <= 'Z'
                && right[i] as u32 == left[i] as u32 + 32 || 'a' <= left[i] <= 'z' && left[i] as u32
                == right[i] as u32 + 32)),
{
    let l = left.map_values(|c: char| ascii_lower(c));
    let r = right.map_values(|c: char| ascii_lower(c));
    if l == r {
        assert(l.len() == r.len());
        assert forall|i: int| 0 <= i < left.len() implies (#[trigger] left[i] == right[i] || 'A'
            <= left[i] <= 'Z' && right[i] as u32 == left[i] as u32 + 32 || 'a' <= left[i] <= 'z'
            && left[i] as u32 == right[i] as u32 + 32) by {
            assert(l[i] == r[i]);
        }
    }
    if left.len() == right.len() && forall|i: int|
        0 <= i < left.len() ==> (#[trigger] left[i] == right[i] || 'A' <= left[i] <= 'Z'
            && right[i] as u32 == left[i] as u32 + 32 || 'a' <= left[i] <= 'z' && left[i] as u32
            == right[i] as u32 + 32) {
        assert forall|i: int| 0 <= i < l.len() implies l[i] == r[i] by {
            let c = left[i];
        }
        assert(l =~= r);
    }
}

}

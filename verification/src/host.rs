//! Host names of URLs, and which of them stay on this machine.

use vstd::prelude::*;

use crate::text::{
    chars_of, decimal, is_piece, law_decimal_is_read_back, law_split_takes_the_last_piece, same_text, split_on, split_ranges, string_of,
};

verus! {

pub open spec fn decimal_digit(character: char) -> bool {
    '0' <= character <= '9'
}

pub open spec fn hex_digit(character: char) -> bool {
    decimal_digit(character) || 'a' <= character <= 'f' || 'A' <= character <= 'F'
}

/// The value of a hexadecimal digit.
pub open spec fn digit_value(character: char) -> int {
    if decimal_digit(character) {
        character as int - '0' as int
    } else if 'a' <= character <= 'f' {
        character as int - 'a' as int + 10
    } else {
        character as int - 'A' as int + 10
    }
}

/// The number that `digits` write in the given radix.
pub open spec fn number(digits: Seq<char>, radix: int) -> int
    decreases digits.len(),
{
    if digits.len() == 0 {
        0
    } else {
        number(digits.drop_last(), radix) * radix + digit_value(digits.last())
    }
}

/// One of the four numbers of an IPv4 address: up to three decimal digits
/// without a leading zero, and no more than 255.
pub open spec fn is_octet(text: Seq<char>) -> bool {
    &&& 1 <= text.len() <= 3
    &&& forall|i: int| 0 <= i < text.len() ==> decimal_digit(#[trigger] text[i])
    &&& text.len() > 1 ==> text[0] != '0'
    &&& number(text, 10) <= 255
}

/// An IPv4 address: four numbers with dots between them.
pub open spec fn is_ipv4(text: Seq<char>) -> bool {
    let parts = split_on(text, '.');
    parts.len() == 4 && forall|i: int| 0 <= i < 4 ==> is_octet(#[trigger] parts[i])
}

/// The number at `index` of an IPv4 address.
pub open spec fn octet(text: Seq<char>, index: int) -> int {
    number(split_on(text, '.')[index], 10)
}

/// A group of an IPv6 address: up to four hexadecimal digits.
pub open spec fn is_group(text: Seq<char>) -> bool {
    1 <= text.len() <= 4 && forall|i: int| 0 <= i < text.len() ==> hex_digit(#[trigger] text[i])
}

/// The groups that `text` lists with colons between them. An IPv4 address may
/// stand for the last two groups where `ipv4_last` allows it. An empty text
/// lists no group.
pub open spec fn listed_groups(text: Seq<char>, ipv4_last: bool) -> Option<Seq<int>> {
    let pieces = split_on(text, ':');
    let count = pieces.len();
    let last = pieces.last();
    if text.len() == 0 {
        Some(seq![])
    } else if !(forall|i: int| 0 <= i < count - 1 ==> is_group(#[trigger] pieces[i])) {
        None
    } else if is_group(last) {
        Some(Seq::new(count, |i: int| number(pieces[i], 16)))
    } else if ipv4_last && is_ipv4(last) {
        Some(
            Seq::new((count - 1) as nat, |i: int| number(pieces[i], 16)) + seq![
                octet(last, 0) * 256 + octet(last, 1),
                octet(last, 2) * 256 + octet(last, 3),
            ],
        )
    } else {
        None
    }
}

/// Two colons in a row stand at `at`.
pub open spec fn double_colon(text: Seq<char>, at: int) -> bool {
    0 <= at && at + 1 < text.len() && text[at] == ':' && text[at + 1] == ':'
}

/// The first two colons in a row stand at `at`.
pub open spec fn first_double_colon(text: Seq<char>, at: int) -> bool {
    double_colon(text, at) && forall|i: int| i < at ==> !(#[trigger] double_colon(text, i))
}

/// `text` writes the IPv6 address of the eight groups `groups`: it lists all
/// eight, or `::` stands for one or more groups of zeros.
pub open spec fn writes_ipv6(text: Seq<char>, groups: Seq<int>) -> bool {
    ||| {
        &&& forall|i: int| !(#[trigger] double_colon(text, i))
        &&& listed_groups(text, true) == Some(groups)
        &&& groups.len() == 8
    }
    ||| exists|at: int| #[trigger]
        first_double_colon(text, at) && writes_compressed(text, at, groups)
}

/// `text` writes `groups` with its `::` at `at`.
pub open spec fn writes_compressed(text: Seq<char>, at: int, groups: Seq<int>) -> bool {
    match (
        listed_groups(text.take(at), false),
        listed_groups(text.skip(at + 2), true),
    ) {
        (Some(head), Some(tail)) => {
            &&& head.len() + tail.len() <= 7
            &&& groups == head + Seq::new((8 - head.len() - tail.len()) as nat, |i: int| 0int)
                + tail
        },
        _ => false,
    }
}

/// The groups of the IPv6 loopback address.
pub open spec fn ipv6_loopback() -> Seq<int> {
    seq![0, 0, 0, 0, 0, 0, 0, 1]
}

/// `host` without the pair of brackets that stands around an IPv6 address in a URL.
pub open spec fn unbracketed(host: Seq<char>) -> Seq<char> {
    if host.len() >= 2 && host[0] == '[' && host.last() == ']' {
        host.subrange(1, host.len() - 1)
    } else {
        host
    }
}

/// The hosts that stay on this machine: `localhost`, every IPv4 address that
/// starts with 127, and the IPv6 loopback address in all of its spellings. An
/// address may stand in brackets.
pub open spec fn loopback_host(host: Seq<char>) -> bool {
    let name = unbracketed(host);
    ||| name == "localhost"@
    ||| is_ipv4(name) && octet(name, 0) == 127
    ||| writes_ipv6(name, ipv6_loopback())
}

/// Reads `chars[from..to]` as digits of the given radix.
fn read_digits(chars: &Vec<char>, from: usize, to: usize, hexadecimal: bool) -> (value: Option<u32>)
    requires
        from <= to <= chars@.len(),
        to - from <= 4,
    ensures
        ({
            let digits = chars@.subrange(from as int, to as int);
            let radix: int = if hexadecimal {
                16
            } else {
                10
            };
            if forall|i: int|
                0 <= i < digits.len() ==> (if hexadecimal {
                    hex_digit(#[trigger] digits[i])
                } else {
                    decimal_digit(digits[i])
                }) {
                value matches Some(number_read) && number_read == number(digits, radix)
                    && number_read < 0x10000
            } else {
                value is None
            }
        }),
{
    let ghost digits = chars@.subrange(from as int, to as int);
    let radix: u32 = if hexadecimal {
        16
    } else {
        10
    };
    let mut value: u32 = 0;
    let mut at: usize = from;
    assert(digits.take(0) =~= Seq::<char>::empty());
    while at < to
        invariant
            from <= at <= to <= chars@.len(),
            to - from <= 4,
            digits == chars@.subrange(from as int, to as int),
            radix == (if hexadecimal {
                16int
            } else {
                10int
            }),
            value == number(digits.take(at - from), radix as int),
            at == from ==> value == 0,
            at == from + 1 ==> value < 0x10,
            at == from + 2 ==> value < 0x100,
            at == from + 3 ==> value < 0x1000,
            at == from + 4 ==> value < 0x10000,
            forall|i: int|
                0 <= i < at - from ==> (if hexadecimal {
                    hex_digit(#[trigger] digits[i])
                } else {
                    decimal_digit(digits[i])
                }),
        decreases to - at,
    {
        let character = chars[at];
        let ghost here = at - from;
        assert(digits[here] == character);
        assert(digits.take(here + 1).drop_last() =~= digits.take(here));
        let digit: u32 = if '0' <= character && character <= '9' {
            character as u32 - 48
        } else if hexadecimal && 'a' <= character && character <= 'f' {
            character as u32 - 97 + 10
        } else if hexadecimal && 'A' <= character && character <= 'F' {
            character as u32 - 65 + 10
        } else {
            return None;
        };
        value = value * radix + digit;
        at += 1;
    }
    assert(digits.take(to - from) =~= digits);
    Some(value)
}

/// Reads one of the four numbers of an IPv4 address.
fn read_octet(chars: &Vec<char>, from: usize, to: usize) -> (value: Option<u32>)
    requires
        from <= to <= chars@.len(),
    ensures
        ({
            let text = chars@.subrange(from as int, to as int);
            if is_octet(text) {
                value matches Some(octet_read) && octet_read == number(text, 10) && octet_read
                    <= 255
            } else {
                value is None
            }
        }),
{
    if from == to || to - from > 3 {
        return None;
    }
    let ghost text = chars@.subrange(from as int, to as int);
    assert(text[0] == chars@[from as int]);
    if to - from > 1 && chars[from] == '0' {
        return None;
    }
    match read_digits(chars, from, to, false) {
        Some(value) if value <= 255 => Some(value),
        _ => None,
    }
}

/// Reads an IPv4 address.
fn read_ipv4(chars: &Vec<char>, from: usize, to: usize) -> (octets: Option<Vec<u32>>)
    requires
        from <= to <= chars@.len(),
    ensures
        ({
            let text = chars@.subrange(from as int, to as int);
            if is_ipv4(text) {
                octets matches Some(read) && read@.len() == 4 && forall|i: int|
                    0 <= i < 4 ==> #[trigger] read@[i] == octet(text, i) && read@[i] <= 255
            } else {
                octets is None
            }
        }),
{
    let ranges = split_ranges(chars, from, to, '.');
    let ghost parts = split_on(chars@.subrange(from as int, to as int), '.');
    if ranges.len() != 4 {
        return None;
    }
    let mut octets: Vec<u32> = Vec::new();
    let mut at: usize = 0;
    while at < 4
        invariant
            from <= to <= chars@.len(),
            at <= 4 == ranges@.len(),
            octets@.len() == at,
            parts == split_on(chars@.subrange(from as int, to as int), '.'),
            parts.len() == 4,
            forall|i: int| 0 <= i < 4 ==> from <= (#[trigger] ranges@[i]).0 <= ranges@[i].1 <= to,
            forall|i: int|
                0 <= i < 4 ==> chars@.subrange(
                    (#[trigger] ranges@[i]).0 as int,
                    ranges@[i].1 as int,
                ) == parts[i],
            forall|i: int|
                0 <= i < at ==> #[trigger] octets@[i] == number(parts[i], 10) && octets@[i] <= 255
                    && is_octet(parts[i]),
        decreases 4 - at,
    {
        let (start, end) = ranges[at];
        assert(parts[at as int] == chars@.subrange(
            ranges@[at as int].0 as int,
            ranges@[at as int].1 as int,
        ));
        match read_octet(chars, start, end) {
            Some(value) => {
                octets.push(value);
            },
            None => {
                assert(!is_octet(parts[at as int]));
                return None;
            },
        }
        at += 1;
    }
    assert forall|i: int| 0 <= i < 4 implies is_octet(#[trigger] parts[i]) by {
        assert(octets@[i] == number(parts[i], 10));
    }
    Some(octets)
}

/// Reads the groups that `chars[from..to]` lists.
fn read_groups(chars: &Vec<char>, from: usize, to: usize, ipv4_last: bool) -> (groups: Option<
    Vec<u32>,
>)
    requires
        from <= to <= chars@.len(),
    ensures
        match listed_groups(chars@.subrange(from as int, to as int), ipv4_last) {
            Some(listed) => groups matches Some(read) && read@.map_values(|group: u32| group as int)
                == listed,
            None => groups is None,
        },
{
    let ghost text = chars@.subrange(from as int, to as int);
    let ghost pieces = split_on(text, ':');
    let mut groups: Vec<u32> = Vec::new();
    if from == to {
        assert(groups@.map_values(|group: u32| group as int) =~= Seq::<int>::empty());
        return Some(groups);
    }
    let ranges = split_ranges(chars, from, to, ':');
    let mut at: usize = 0;
    while at < ranges.len()
        invariant
            from < to <= chars@.len(),
            at <= ranges@.len() == pieces.len(),
            groups@.len() == at,
            text == chars@.subrange(from as int, to as int),
            pieces == split_on(text, ':'),
            forall|i: int|
                0 <= i < ranges@.len() ==> from <= (#[trigger] ranges@[i]).0 <= ranges@[i].1 <= to,
            forall|i: int|
                0 <= i < ranges@.len() ==> chars@.subrange(
                    (#[trigger] ranges@[i]).0 as int,
                    ranges@[i].1 as int,
                ) == pieces[i],
            forall|i: int| 0 <= i < at ==> #[trigger] groups@[i] == number(pieces[i], 16),
            forall|i: int| 0 <= i < at ==> is_group(#[trigger] pieces[i]),
        decreases ranges@.len() - at,
    {
        let (start, end) = ranges[at];
        let ghost piece = pieces[at as int];
        assert(piece == chars@.subrange(
            ranges@[at as int].0 as int,
            ranges@[at as int].1 as int,
        ));
        let group = if start < end && end - start <= 4 {
            read_digits(chars, start, end, true)
        } else {
            None
        };
        match group {
            Some(value) => {
                assert(is_group(piece));
                groups.push(value);
            },
            None => {
                assert(!is_group(piece));
                if ipv4_last && at + 1 == ranges.len() {
                    let ghost before = groups@;
                    if let Some(octets) = read_ipv4(chars, start, end) {
                        groups.push(octets[0] * 256 + octets[1]);
                        groups.push(octets[2] * 256 + octets[3]);
                        assert(octet(piece, 0) == octets@[0]);
                        assert(octet(piece, 1) == octets@[1]);
                        assert(octet(piece, 2) == octets@[2]);
                        assert(octet(piece, 3) == octets@[3]);
                        assert(groups@.map_values(|group: u32| group as int)
                            =~= listed_groups(text, ipv4_last)->0);
                        return Some(groups);
                    }
                }
                return None;
            },
        }
        at += 1;
    }
    assert(groups@.map_values(|group: u32| group as int) =~= listed_groups(text, ipv4_last)->0);
    Some(groups)
}

/// Whether the first `end` of `groups` are all zero.
fn all_zero(groups: &Vec<u32>, end: usize) -> (zero: bool)
    requires
        end <= groups@.len(),
    ensures
        zero == forall|i: int| 0 <= i < end ==> #[trigger] groups@[i] == 0,
{
    let mut at: usize = 0;
    while at < end
        invariant
            at <= end <= groups@.len(),
            forall|i: int| 0 <= i < at ==> #[trigger] groups@[i] == 0,
        decreases end - at,
    {
        if groups[at] != 0 {
            return false;
        }
        at += 1;
    }
    true
}

/// Whether `groups` ends in a one and holds zeros before it.
fn is_one(groups: &Vec<u32>) -> (one: bool)
    ensures
        one == (groups@.len() > 0 && groups@.last() == 1 && forall|i: int|
            0 <= i < groups@.len() - 1 ==> #[trigger] groups@[i] == 0),
{
    groups.len() > 0 && groups[groups.len() - 1] == 1 && all_zero(groups, groups.len() - 1)
}

/// Finds the first two colons in a row.
fn find_double_colon(chars: &Vec<char>) -> (found: Option<usize>)
    ensures
        match found {
            Some(at) => first_double_colon(chars@, at as int),
            None => forall|i: int| !(#[trigger] double_colon(chars@, i)),
        },
{
    let mut at: usize = 0;
    while at < chars.len()
        invariant
            at <= chars@.len(),
            forall|i: int| i < at ==> !(#[trigger] double_colon(chars@, i)),
        decreases chars@.len() - at,
    {
        if chars[at] == ':' && at + 1 < chars.len() && chars[at + 1] == ':' {
            assert(double_colon(chars@, at as int));
            return Some(at);
        }
        at += 1;
    }
    None
}

/// Whether `chars` writes the IPv6 loopback address.
#[verifier::rlimit(60)]
#[verifier::spinoff_prover]
fn is_ipv6_loopback(chars: &Vec<char>) -> (loopback: bool)
    ensures
        loopback == writes_ipv6(chars@, ipv6_loopback()),
{
    let ghost text = chars@;
    let count: usize = chars.len();
    match find_double_colon(chars) {
        None => {
            assert(text.subrange(0, text.len() as int) =~= text);
            match read_groups(chars, 0, count, true) {
                Some(groups) => {
                    let ghost listed = groups@.map_values(|group: u32| group as int);
                    let loopback = groups.len() == 8 && is_one(&groups);
                    proof {
                        if loopback {
                            assert(listed =~= ipv6_loopback());
                        } else if listed == ipv6_loopback() {
                            assert forall|i: int| 0 <= i < 7 implies #[trigger] groups@[i] == 0 by {
                                assert(listed[i] == 0);
                            }
                            assert(listed[7] == 1);
                        }
                    }
                    loopback
                },
                None => false,
            }
        },
        Some(at) => {
            proof {
                assert(text.subrange(0, at as int) =~= text.take(at as int));
                assert(text.subrange(at + 2, text.len() as int) =~= text.skip(at + 2));
                assert forall|other: int| #[trigger] first_double_colon(text, other) implies other
                    == at by {
                    if other < at {
                        assert(!double_colon(text, other));
                    } else if at < other {
                        assert(!double_colon(text, at as int));
                    }
                }
            }
            let head = match read_groups(chars, 0, at, false) {
                Some(head) => head,
                None => {
                    return false;
                },
            };
            let tail = match read_groups(chars, at + 2, count, true) {
                Some(tail) => tail,
                None => {
                    return false;
                },
            };
            let ghost listed_head = head@.map_values(|group: u32| group as int);
            let ghost listed_tail = tail@.map_values(|group: u32| group as int);
            if head.len() > 7 || tail.len() > 7 - head.len() {
                return false;
            }
            let ghost zeros = Seq::new(
                (8 - listed_head.len() - listed_tail.len()) as nat,
                |i: int| 0int,
            );
            let ghost groups = listed_head + zeros + listed_tail;
            let loopback = all_zero(&head, head.len()) && is_one(&tail);
            proof {
                if loopback {
                    assert(groups =~= ipv6_loopback());
                    assert(writes_compressed(text, at as int, ipv6_loopback()));
                } else if groups == ipv6_loopback() {
                    assert(groups.len() == 8);
                    assert forall|i: int| 0 <= i < head@.len() implies #[trigger] head@[i] == 0 by {
                        assert(groups[i] == listed_head[i]);
                    }
                    if tail@.len() == 0 {
                        assert(groups[7] == zeros[7 - head@.len()]);
                    } else {
                        assert(groups[7] == listed_tail[tail@.len() - 1]);
                        assert forall|i: int| 0 <= i < tail@.len() - 1 implies #[trigger] tail@[i]
                            == 0 by {
                            assert(groups[8 - tail@.len() + i] == listed_tail[i]);
                        }
                    }
                }
            }
            loopback
        },
    }
}

/// Whether `host` stays on this machine.
pub fn is_loopback_host(host: &str) -> (loopback: bool)
    ensures
        loopback == loopback_host(host@),
{
    let all = chars_of(host);
    let bracketed = all.len() >= 2 && all[0] == '[' && all[all.len() - 1] == ']';
    let name = if bracketed {
        string_of(&all, 1, all.len() - 1)
    } else {
        host.to_owned()
    };
    let chars = chars_of(name.as_str());
    if same_text(name.as_str(), "localhost") {
        return true;
    }
    assert(chars@.subrange(0, chars@.len() as int) =~= chars@);
    if let Some(octets) = read_ipv4(&chars, 0, chars.len()) {
        assert(octets@[0] == octet(name@, 0));
        if octets[0] == 127 {
            return true;
        }
    }
    is_ipv6_loopback(&chars)
}

/// A number up to 255 in decimal is an octet of that value.
proof fn lemma_decimal_octet(value: nat)
    requires
        value <= 255,
    ensures
        is_octet(decimal(value)),
        number(decimal(value), 10) == value,
        is_piece(decimal(value), '.'),
        is_piece(decimal(value), ':'),
{
    law_decimal_is_read_back(value);
    lemma_number_of_decimal(value);
    let text = decimal(value);
    if value >= 10 {
        assert(text.len() == decimal(value / 10).len() + 1);
        if value >= 100 {
            assert(decimal(value / 10).len() == decimal(value / 10 / 10).len() + 1);
        }
    }
    assert forall|i: int| 0 <= i < text.len() implies decimal_digit(#[trigger] text[i]) && text[i]
        != '.' && text[i] != ':' by {
        assert('0' <= decimal(value)[i] <= '9');
    }
}

/// The digits of a number in decimal have its value.
proof fn lemma_number_of_decimal(value: nat)
    ensures
        number(decimal(value), 10) == value,
    decreases value,
{
    let text = decimal(value);
    law_decimal_is_read_back(value);
    if value < 10 {
        assert(text.drop_last() =~= Seq::<char>::empty());
        assert(number(text.drop_last(), 10) == 0);
        assert(text.last() as u32 == 48 + value);
    } else {
        lemma_number_of_decimal(value / 10);
        assert(text.drop_last() =~= decimal(value / 10));
        assert(text.last() as u32 == 48 + value % 10);
    }
}

/// Four numbers of an IPv4 address with dots between them.
pub open spec fn dotted(first: nat, second: nat, third: nat, fourth: nat) -> Seq<char> {
    decimal(first).push('.') + decimal(second).push('.') + decimal(third).push('.') + decimal(fourth)
}

/// An IPv4 address written out is on this machine exactly if it starts with 127.
pub proof fn law_ipv4_loopback_starts_with_127(first: nat, second: nat, third: nat, fourth: nat)
    requires
        first <= 255,
        second <= 255,
        third <= 255,
        fourth <= 255,
    ensures
        loopback_host(dotted(first, second, third, fourth)) <==> first == 127,
{
    let text = dotted(first, second, third, fourth);
    let (a, b, c, d) = (decimal(first), decimal(second), decimal(third), decimal(fourth));
    lemma_decimal_octet(first);
    lemma_decimal_octet(second);
    lemma_decimal_octet(third);
    lemma_decimal_octet(fourth);
    law_decimal_is_read_back(first);
    let ab = a.push('.') + b;
    let abc = ab.push('.') + c;
    law_split_takes_the_last_piece(a, a, '.');
    law_split_takes_the_last_piece(a, b, '.');
    law_split_takes_the_last_piece(ab, c, '.');
    law_split_takes_the_last_piece(abc, d, '.');
    assert(text =~= abc.push('.') + d);
    let parts = split_on(text, '.');
    assert(parts =~= seq![a, b, c, d]);
    assert(parts[0] == a && parts[1] == b && parts[2] == c && parts[3] == d);
    assert forall|i: int| 0 <= i < 4 implies is_octet(#[trigger] parts[i]) by {
        assert(i == 0 || i == 1 || i == 2 || i == 3);
    }
    assert(is_ipv4(text));
    assert(octet(text, 0) == first);
    assert(text[0] == a[0]);
    assert('0' <= decimal(first)[0] <= '9');
    assert(unbracketed(text) == text);
    reveal_strlit("localhost");
    assert("localhost"@[0] == 'l');
    lemma_text_is_no_ipv6(text);
}

/// A text without colons is no IPv6 address.
proof fn lemma_text_is_no_ipv6(text: Seq<char>)
    requires
        is_piece(text, ':'),
    ensures
        !writes_ipv6(text, ipv6_loopback()),
{
    law_split_takes_the_last_piece(text, text, ':');
    assert forall|i: int| !(#[trigger] double_colon(text, i)) by {
        if double_colon(text, i) {
            assert(text[i] == ':');
        }
    }
    let pieces = split_on(text, ':');
    assert(pieces.len() == 1);
    if let Some(groups) = listed_groups(text, true) {
        assert(groups.len() <= 2);
    }
    assert(ipv6_loopback().len() == 8);
}

/// A name without dots, colons and brackets is on this machine exactly if it is
/// `localhost`; and brackets around a host change nothing.
pub proof fn law_only_localhost_is_a_loopback_name(host: Seq<char>)
    ensures
        is_piece(host, '.') && is_piece(host, ':') && is_piece(host, '[') ==> (loopback_host(host)
            <==> host == "localhost"@),
        is_piece(host, '[') ==> loopback_host(seq!['['] + host + seq![']']) == loopback_host(host),
{
    let bracketed = seq!['['] + host + seq![']'];
    assert(bracketed.subrange(1, bracketed.len() - 1) =~= host);
    if is_piece(host, '[') {
        if host.len() > 0 {
            assert(host[0] != '[');
        }
        assert(unbracketed(host) == host);
        assert(unbracketed(bracketed) == host);
    }
    if is_piece(host, '.') && is_piece(host, ':') {
        law_split_takes_the_last_piece(host, host, '.');
        assert(!is_ipv4(host));
        lemma_text_is_no_ipv6(host);
    }
}

}

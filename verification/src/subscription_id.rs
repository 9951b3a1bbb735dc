use vstd::prelude::*;

use crate::string_map::{has_text, StringMap};

verus! {

/// Whether `c` is a digit of lower-case hexadecimal.
pub open spec fn is_lower_hex(c: char) -> bool {
    ('0' <= c && c <= '9') || ('a' <= c && c <= 'f')
}

/// Whether `id` has the form of a subscription id: 32 digits of lower-case hexadecimal.
pub open spec fn is_subscription_id(id: Seq<char>) -> bool {
    id.len() == 32 && forall|i: int| 0 <= i < id.len() ==> is_lower_hex(#[trigger] id[i])
}

/// The digit of lower-case hexadecimal that stands for `value`.
pub open spec fn hex_char(value: u64) -> char {
    match value {
        0 => '0',
        1 => '1',
        2 => '2',
        3 => '3',
        4 => '4',
        5 => '5',
        6 => '6',
        7 => '7',
        8 => '8',
        9 => '9',
        10 => 'a',
        11 => 'b',
        12 => 'c',
        13 => 'd',
        14 => 'e',
        _ => 'f',
    }
}

/// The four bits of `number` at place `place`, the lowest at place 0.
pub open spec fn nibble(number: u64, place: u64) -> u64 {
    (number >> (4 * place) as u64) & 0xf
}

/// The id that stands for `number`: its sixteen hexadecimal digits, the lowest first, and
/// sixteen zeros behind them. Different numbers have different ids.
pub open spec fn numbered_id(number: u64) -> Seq<char> {
    Seq::new(
        32,
        |i: int|
            if i < 16 {
                hex_char(nibble(number, i as u64))
            } else {
                '0'
            },
    )
}

/// The digit that stands for `value`, as a text of one character.
fn hex_digit(value: u64) -> (digit: &'static str)
    requires
        value < 16,
    ensures
        digit@ == seq![hex_char(value)],
{
    proof {
        reveal_strlit("0");
        reveal_strlit("1");
        reveal_strlit("2");
        reveal_strlit("3");
        reveal_strlit("4");
        reveal_strlit("5");
        reveal_strlit("6");
        reveal_strlit("7");
        reveal_strlit("8");
        reveal_strlit("9");
        reveal_strlit("a");
        reveal_strlit("b");
        reveal_strlit("c");
        reveal_strlit("d");
        reveal_strlit("e");
        reveal_strlit("f");
    }
    let digit = match value {
        0 => "0",
        1 => "1",
        2 => "2",
        3 => "3",
        4 => "4",
        5 => "5",
        6 => "6",
        7 => "7",
        8 => "8",
        9 => "9",
        10 => "a",
        11 => "b",
        12 => "c",
        13 => "d",
        14 => "e",
        _ => "f",
    };
    assert(digit@ =~= seq![hex_char(value)]);
    digit
}

/// Writes the id that stands for `number`.
pub fn write_numbered_id(number: u64) -> (id: String)
    ensures
        id@ == numbered_id(number),
        is_subscription_id(id@),
{
    let mut id = String::new();
    let mut place: u64 = 0;
    while place < 16
        invariant
            place <= 16,
            id@.len() == place,
            forall|i: int| 0 <= i < place ==> id@[i] == hex_char(nibble(number, i as u64)),
        decreases 16 - place,
    {
        let value: u64 = (number >> (4 * place)) & 0xf;
        assert(value < 16 && value == (number >> (4 * place) as u64) & 0xf) by (bit_vector)
            requires
                value == (number >> (4 * place)) & 0xf,
                place < 16,
        ;
        id.append(hex_digit(value));
        place = place + 1;
    }
    let mut zeros: u64 = 0;
    while zeros < 16
        invariant
            zeros <= 16,
            id@.len() == 16 + zeros,
            forall|i: int| 0 <= i < 16 ==> id@[i] == hex_char(nibble(number, i as u64)),
            forall|i: int| 16 <= i < 16 + zeros ==> id@[i] == '0',
        decreases 16 - zeros,
    {
        proof {
            reveal_strlit("0");
        }
        id.append("0");
        zeros = zeros + 1;
    }
    assert(id@ =~= numbered_id(number));
    assert forall|i: int| 0 <= i < id@.len() implies is_lower_hex(#[trigger] id@[i]) by {
        if i < 16 {
            lemma_nibble_small(number, i as u64);
        }
    }
    id
}

proof fn lemma_nibble_small(number: u64, place: u64)
    requires
        place < 16,
    ensures
        nibble(number, place) < 16,
{
    assert((number >> (4 * place) as u64) & 0xf < 16) by (bit_vector)
        requires
            place < 16,
    ;
}

proof fn lemma_same_nibble(a: u64, b: u64, place: u64)
    requires
        numbered_id(a) == numbered_id(b),
        place < 16,
    ensures
        (a >> (4 * place) as u64) & 0xf == (b >> (4 * place) as u64) & 0xf,
{
    lemma_nibble_small(a, place);
    lemma_nibble_small(b, place);
    let i = place as int;
    assert(i as u64 == place);
    assert(numbered_id(a)[i] == hex_char(nibble(a, i as u64)));
    assert(numbered_id(b)[i] == hex_char(nibble(b, i as u64)));
}

/// Different numbers have different ids.
pub proof fn lemma_numbered_ids_differ(a: u64, b: u64)
    requires
        numbered_id(a) == numbered_id(b),
    ensures
        a == b,
{
    lemma_same_nibble(a, b, 0);
    lemma_same_nibble(a, b, 1);
    lemma_same_nibble(a, b, 2);
    lemma_same_nibble(a, b, 3);
    lemma_same_nibble(a, b, 4);
    lemma_same_nibble(a, b, 5);
    lemma_same_nibble(a, b, 6);
    lemma_same_nibble(a, b, 7);
    lemma_same_nibble(a, b, 8);
    lemma_same_nibble(a, b, 9);
    lemma_same_nibble(a, b, 10);
    lemma_same_nibble(a, b, 11);
    lemma_same_nibble(a, b, 12);
    lemma_same_nibble(a, b, 13);
    lemma_same_nibble(a, b, 14);
    lemma_same_nibble(a, b, 15);
    assert(a == b) by (bit_vector)
        requires
            (a >> 0u64) & 0xf == (b >> 0u64) & 0xf,
            (a >> 4u64) & 0xf == (b >> 4u64) & 0xf,
            (a >> 8u64) & 0xf == (b >> 8u64) & 0xf,
            (a >> 12u64) & 0xf == (b >> 12u64) & 0xf,
            (a >> 16u64) & 0xf == (b >> 16u64) & 0xf,
            (a >> 20u64) & 0xf == (b >> 20u64) & 0xf,
            (a >> 24u64) & 0xf == (b >> 24u64) & 0xf,
            (a >> 28u64) & 0xf == (b >> 28u64) & 0xf,
            (a >> 32u64) & 0xf == (b >> 32u64) & 0xf,
            (a >> 36u64) & 0xf == (b >> 36u64) & 0xf,
            (a >> 40u64) & 0xf == (b >> 40u64) & 0xf,
            (a >> 44u64) & 0xf == (b >> 44u64) & 0xf,
            (a >> 48u64) & 0xf == (b >> 48u64) & 0xf,
            (a >> 52u64) & 0xf == (b >> 52u64) & 0xf,
            (a >> 56u64) & 0xf == (b >> 56u64) & 0xf,
            (a >> 60u64) & 0xf == (b >> 60u64) & 0xf,
    ;
}

/// Where the ids of the first `count` numbers all stand in `entries`, `entries` has at
/// least `count` entries.
proof fn lemma_numbered_ids_need_room(entries: Seq<(Seq<char>, Seq<char>)>, count: nat)
    requires
        count <= u64::MAX + 1,
        forall|k: u64| k < count ==> has_text(entries, #[trigger] numbered_id(k)),
    ensures
        count <= entries.len(),
    decreases count,
{
    if count > 0 {
        let last = (count - 1) as u64;
        assert(has_text(entries, numbered_id(last)));
        let p = choose|p: int|
            0 <= p < entries.len() && (#[trigger] entries[p]).1 == numbered_id(last);
        let rest = entries.remove(p);
        assert forall|k: u64| k < count - 1 implies has_text(rest, #[trigger] numbered_id(k)) by {
            assert(has_text(entries, numbered_id(k)));
            let q = choose|q: int|
                0 <= q < entries.len() && (#[trigger] entries[q]).1 == numbered_id(k);
            if q == p {
                lemma_numbered_ids_differ(k, last);
            } else if q < p {
                assert(rest[q] == entries[q]);
            } else {
                assert(rest[q - 1] == entries[q]);
            }
        }
        lemma_numbered_ids_need_room(rest, (count - 1) as nat);
    }
}

/// Calls `Uuid::new_v4` of the `uuid` crate and writes the value with
/// `Simple::encode_lower`. The value is random, so the contract states only the form that
/// every outcome has. The call fails only where the system hands out no random bytes.
#[verifier::external_body]
fn random_id() -> (id: String)
    ensures
        is_subscription_id(id@),
{
    let mut buffer = uuid::Uuid::encode_buffer();
    let id: &str = uuid::Uuid::new_v4().simple().encode_lower(&mut buffer);
    id.to_owned()
}

/// Finds the id of the lowest number that no entry of `ids` holds. Among the ids of the
/// first numbers, one more than there are entries, one is always free.
pub fn lowest_free_id(ids: &StringMap) -> (id: String)
    ensures
        is_subscription_id(id@),
        !has_text(ids@, id@),
{
    let entries: usize = ids.len();
    let mut number: u64 = 0;
    loop
        invariant
            entries == ids@.len(),
            number <= entries,
            forall|k: u64| k < number ==> has_text(ids@, #[trigger] numbered_id(k)),
        decreases entries - number,
    {
        let id = write_numbered_id(number);
        if !ids.contains_text(id.as_str()) {
            return id;
        }
        proof {
            lemma_numbered_ids_need_room(ids@, (number + 1) as nat);
        }
        number = number + 1;
    }
}

/// A fresh subscription id: one that no entry of `ids` holds. It is drawn at random;
/// where chance has it that the id drawn is held already, the lowest free numbered id
/// takes its place.
pub fn fresh_id(ids: &StringMap) -> (id: String)
    ensures
        is_subscription_id(id@),
        !has_text(ids@, id@),
{
    let drawn = random_id();
    if ids.contains_text(drawn.as_str()) {
        lowest_free_id(ids)
    } else {
        drawn
    }
}

} // verus!

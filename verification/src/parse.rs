use crate::bytes::Bytes32;
use crate::error::EngineError;
use hex::FromHex;
use vstd::prelude::*;

verus! {

/// The byte of the digit zero.
pub const DIGIT_ZERO: u8 = 0x30;

/// The byte of the lower-case letter x.
pub const LETTER_X: u8 = 0x78;

/// The byte of the comma.
pub const COMMA: u8 = 0x2c;

/// The value of a hexadecimal digit, upper or lower case.
pub open spec fn hex_value(c: u8) -> Option<u8> {
    if 0x30 <= c <= 0x39 {
        Some((c - 0x30) as u8)
    } else if 0x41 <= c <= 0x46 {
        Some((c - 0x41 + 10) as u8)
    } else if 0x61 <= c <= 0x66 {
        Some((c - 0x61 + 10) as u8)
    } else {
        None
    }
}

/// Whether `text` is made of exactly 64 hexadecimal digits.
pub open spec fn is_hex32(text: Seq<u8>) -> bool {
    text.len() == 64 && forall|i: int| 0 <= i < 64 ==> hex_value(#[trigger] text[i]) is Some
}

/// The 32 bytes that 64 hexadecimal digits spell, two digits a byte, the
/// higher digit first.
pub open spec fn hex32_bytes(text: Seq<u8>) -> Seq<u8> {
    Seq::new(
        32,
        |i: int| (hex_value(text[2 * i]).unwrap() * 16 + hex_value(text[2 * i + 1]).unwrap()) as u8,
    )
}

/// Calls `FromHex::from_hex` of the `hex` crate for an array of 32 bytes,
/// which succeeds on exactly 64 hexadecimal digits, of either case, and
/// returns the bytes they spell.
#[verifier::external_body]
fn decode_hex32(text: &[u8]) -> (r: Option<[u8; 32]>)
    ensures
        r is Some <==> is_hex32(text@),
        r matches Some(bytes) ==> bytes@ == hex32_bytes(text@),
{
    <[u8; 32]>::from_hex(text).ok()
}

/// `text` without any occurrence of the two bytes `0x`, found from the left.
pub open spec fn without_prefix_marks(text: Seq<u8>) -> Seq<u8>
    decreases text.len(),
{
    if text.len() < 2 {
        text
    } else if text[0] == DIGIT_ZERO && text[1] == LETTER_X {
        without_prefix_marks(text.skip(2))
    } else {
        seq![text[0]] + without_prefix_marks(text.skip(1))
    }
}

/// Removes every occurrence of the two bytes `0x` from `text`, scanning from
/// the left.
pub fn strip_prefix_marks(text: &[u8]) -> (r: Vec<u8>)
    ensures
        r@ == without_prefix_marks(text@),
{
    let mut out: Vec<u8> = Vec::new();
    let mut i: usize = 0;
    assert(text@.skip(0) =~= text@);
    assert(out@ + without_prefix_marks(text@) =~= without_prefix_marks(text@));
    while i < text.len()
        invariant
            i <= text@.len(),
            without_prefix_marks(text@) == out@ + without_prefix_marks(text@.skip(i as int)),
        decreases text@.len() - i,
    {
        let ghost rest = text@.skip(i as int);
        let ghost before = out@;
        if text.len() - i >= 2 && text[i] == DIGIT_ZERO && text[i + 1] == LETTER_X {
            proof {
                assert(rest[0] == text@[i as int] && rest[1] == text@[i as int + 1]);
                assert(rest.skip(2) =~= text@.skip(i as int + 2));
            }
            i = i + 2;
        } else {
            out.push(text[i]);
            proof {
                assert(rest[0] == text@[i as int]);
                if rest.len() >= 2 {
                    assert(rest[1] == text@[i as int + 1]);
                    assert(rest.skip(1) =~= text@.skip(i as int + 1));
                    assert(before + (seq![rest[0]] + without_prefix_marks(rest.skip(1)))
                        =~= out@ + without_prefix_marks(text@.skip(i as int + 1)));
                } else {
                    assert(without_prefix_marks(rest) == rest);
                    assert(text@.skip(i as int + 1).len() == 0);
                    assert(before + rest =~= out@ + without_prefix_marks(
                        text@.skip(i as int + 1),
                    ));
                }
            }
            i = i + 1;
        }
    }
    assert(out@ + without_prefix_marks(text@.skip(i as int)) =~= out@);
    out
}

/// The 32-byte value that `text` spells in hexadecimal digits, with any `0x`
/// in it ignored; `None` where what is left is not exactly 64 digits.
pub open spec fn hash_of_text(text: Seq<u8>) -> Option<Seq<u8>> {
    let digits = without_prefix_marks(text);
    if is_hex32(digits) {
        Some(hex32_bytes(digits))
    } else {
        None
    }
}

/// Reads a 32-byte value from hexadecimal text, with or without `0x` in
/// front.
pub fn parse_hash(text: &[u8]) -> (r: Option<Bytes32>)
    ensures
        crate::conditions::option_view(r) == hash_of_text(text@),
{
    let digits = strip_prefix_marks(text);
    match decode_hex32(digits.as_slice()) {
        Some(bytes) => Some(Bytes32::new(bytes)),
        None => None,
    }
}

/// The items of `text` between its commas, from the one that starts at
/// `start` on, where the scan stands at `pos`.
pub open spec fn items_from(text: Seq<u8>, start: int, pos: int) -> Seq<Seq<u8>>
    decreases text.len() - pos,
{
    if pos >= text.len() {
        seq![text.subrange(start, text.len() as int)]
    } else if text[pos] == COMMA {
        seq![text.subrange(start, pos)] + items_from(text, pos + 1, pos + 1)
    } else {
        items_from(text, start, pos + 1)
    }
}

/// The items of `text` between its commas. Text without a comma is one item.
pub open spec fn items_of(text: Seq<u8>) -> Seq<Seq<u8>> {
    items_from(text, 0, 0)
}

/// There is always at least one item.
pub proof fn lemma_items_exist(text: Seq<u8>, start: int, pos: int)
    requires
        0 <= start <= pos <= text.len(),
    ensures
        items_from(text, start, pos).len() >= 1,
    decreases text.len() - pos,
{
    if pos < text.len() {
        if text[pos] == COMMA {
            lemma_items_exist(text, pos + 1, pos + 1);
        } else {
            lemma_items_exist(text, start, pos + 1);
        }
    }
}

/// Whether `ids` are the values that the items of `list` spell, in order.
pub open spec fn is_id_list(ids: Seq<Bytes32>, list: Seq<u8>) -> bool {
    let items = items_of(list);
    &&& ids.len() == items.len()
    &&& forall|i: int| 0 <= i < items.len() ==> hash_of_text(#[trigger] items[i]) == Some(ids[i]@)
}

/// Whether the item at `index` is the first of `list` that spells no 32-byte
/// value.
pub open spec fn is_first_bad_item(list: Seq<u8>, index: int) -> bool {
    let items = items_of(list);
    &&& 0 <= index < items.len()
    &&& hash_of_text(items[index]) is None
    &&& forall|i: int| 0 <= i < index ==> hash_of_text(#[trigger] items[i]) is Some
}

/// Copies the bytes of `text` from `start` up to `end`.
fn copy_range(text: &[u8], start: usize, end: usize) -> (r: Vec<u8>)
    requires
        start <= end <= text@.len(),
    ensures
        r@ == text@.subrange(start as int, end as int),
{
    let mut out: Vec<u8> = Vec::new();
    let mut i: usize = start;
    while i < end
        invariant
            start <= i <= end <= text@.len(),
            out@ == text@.subrange(start as int, i as int),
        decreases end - i,
    {
        out.push(text[i]);
        assert(out@ =~= text@.subrange(start as int, i as int + 1));
        i = i + 1;
    }
    out
}

/// Reads a comma-separated list of coin identifiers, each 64 hexadecimal
/// digits with or without `0x`. One item that is no identifier fails the
/// whole list, with the index of the first such item.
pub fn cli_revoke(coin_ids: &[u8]) -> (r: Result<Vec<Bytes32>, usize>)
    ensures
        match r {
            Ok(ids) => is_id_list(ids@, coin_ids@),
            Err(index) => is_first_bad_item(coin_ids@, index as int),
        },
{
    let ghost items = items_of(coin_ids@);
    let mut ids: Vec<Bytes32> = Vec::new();
    let mut start: usize = 0;
    let mut pos: usize = 0;
    assert(Seq::<Seq<u8>>::empty() + items_from(coin_ids@, 0, 0) =~= items);
    proof {
        lemma_items_exist(coin_ids@, 0, 0);
    }
    while pos < coin_ids.len()
        invariant
            start <= pos <= coin_ids@.len(),
            items == items_of(coin_ids@),
            ids@.len() < items.len(),
            items == items.take(ids@.len() as int) + items_from(
                coin_ids@,
                start as int,
                pos as int,
            ),
            forall|i: int|
                0 <= i < ids@.len() ==> hash_of_text(#[trigger] items[i]) == Some(ids@[i]@),
        decreases coin_ids@.len() - pos,
    {
        if coin_ids[pos] == COMMA {
            let item = copy_range(coin_ids, start, pos);
            let ghost done = ids@.len() as int;
            proof {
                let rest = items_from(coin_ids@, start as int, pos as int);
                lemma_items_exist(coin_ids@, pos as int + 1, pos as int + 1);
                assert(rest[0] == item@);
                assert(items[done] == item@);
                assert(items.take(done + 1) + items_from(
                    coin_ids@,
                    pos as int + 1,
                    pos as int + 1,
                ) =~= items);
            }
            match parse_hash(item.as_slice()) {
                Some(id) => {
                    ids.push(id);
                },
                None => {
                    return Err(ids.len());
                },
            }
            start = pos + 1;
        }
        pos = pos + 1;
    }
    let item = copy_range(coin_ids, start, pos);
    let ghost done = ids@.len() as int;
    proof {
        let rest = items_from(coin_ids@, start as int, pos as int);
        assert(rest =~= seq![item@]);
        assert(items.len() == done + 1);
        assert(items[done] == item@);
    }
    match parse_hash(item.as_slice()) {
        Some(id) => {
            ids.push(id);
            Ok(ids)
        },
        None => Err(ids.len()),
    }
}

/// Checks that the ledger returned a record for every coin that was asked
/// for: fewer, or more, fail the attempt with both counts.
pub fn check_all_found(requested: usize, found: usize) -> (r: Result<(), EngineError>)
    ensures
        requested == found ==> r is Ok,
        requested != found ==> r == Err::<(), EngineError>(
            EngineError::InsufficientTargets { actual: found, required: requested },
        ),
{
    if requested == found {
        Ok(())
    } else {
        Err(EngineError::InsufficientTargets { actual: found, required: requested })
    }
}

} // verus!

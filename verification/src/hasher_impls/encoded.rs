use vstd::prelude::*;
use vstd::utf8::encode_utf8;

verus! {

/// Whether a string begins with `$`, as every encoded hash of the strategies here does.
pub open spec fn begins_with_dollar(text: Seq<char>) -> bool {
    text.len() > 0 && text[0] == '$'
}

/// How many times `$` occurs in a string.
pub open spec fn dollar_count(text: Seq<char>) -> nat
    decreases text.len(),
{
    if text.len() == 0 {
        0
    } else if text[0] == '$' {
        1 + dollar_count(text.drop_first())
    } else {
        dollar_count(text.drop_first())
    }
}

/// How many commas stand in one of the parts into which the `$` signs split a
/// string. Part 0 is what stands before the first `$`, part 1 what follows it up to
/// the second, and so on.
pub open spec fn commas_in_part(text: Seq<char>, part: nat) -> nat
    decreases text.len(),
{
    if text.len() == 0 {
        0
    } else if text[0] == '$' {
        if part == 0 {
            0
        } else {
            commas_in_part(text.drop_first(), (part - 1) as nat)
        }
    } else if part == 0 && text[0] == ',' {
        1 + commas_in_part(text.drop_first(), 0)
    } else {
        commas_in_part(text.drop_first(), part)
    }
}

/// The outline that an encoded Argon2 hash must have to be decoded: it begins with
/// `$` and falls into five or six parts at its `$` signs (without or with a
/// version), and the part of the options, the last but two, holds three fields
/// between two commas.
pub open spec fn has_hash_outline(text: Seq<char>) -> bool {
    &&& begins_with_dollar(text)
    &&& dollar_count(text) == 4 || dollar_count(text) == 5
    &&& commas_in_part(text, (dollar_count(text) - 2) as nat) == 2
}

/// The outline in which an Argon2 hash is written: six parts after one `$` each,
/// of which the version holds no comma and the options hold two.
pub open spec fn is_written_as_hash(text: Seq<char>) -> bool {
    &&& begins_with_dollar(text)
    &&& dollar_count(text) == 5
    &&& commas_in_part(text, 2) == 0
    &&& commas_in_part(text, 3) == 2
}

/// A part that a string holds in full, up to the `$` that ends it, is the same part
/// in every string that begins with that string.
pub proof fn lemma_part_of_a_beginning(cut: Seq<char>, text: Seq<char>, part: nat)
    requires
        cut.is_prefix_of(text),
        dollar_count(cut) > part,
    ensures
        commas_in_part(cut, part) == commas_in_part(text, part),
    decreases cut.len(),
{
    if cut.len() > 0 {
        assert(cut[0] == text[0]);
        assert(cut.drop_first().is_prefix_of(text.drop_first()));
        if cut[0] == '$' {
            if part > 0 {
                lemma_part_of_a_beginning(cut.drop_first(), text.drop_first(), (part - 1) as nat);
            }
        } else {
            lemma_part_of_a_beginning(cut.drop_first(), text.drop_first(), part);
        }
    }
}

/// A string that was cut off from a written hash before its fifth `$`, and so
/// before the digest, has not the outline of a hash: cut after the fourth `$`, it
/// holds the version where the options are looked for.
pub proof fn lemma_cut_hash_has_no_outline(cut: Seq<char>, hash: Seq<char>)
    requires
        is_written_as_hash(hash),
        cut.is_prefix_of(hash),
        dollar_count(cut) < 5,
    ensures
        !has_hash_outline(cut),
{
    if dollar_count(cut) == 4 {
        lemma_part_of_a_beginning(cut, hash, 2);
    }
}

/// Whether a byte string begins with the byte of `$`.
pub open spec fn bytes_begin_with_dollar(data: Seq<u8>) -> bool {
    data.len() > 0 && data[0] == 0x24
}

/// The bytes of a string that begins with `$` begin with the byte of `$`.
pub proof fn lemma_dollar_comes_first(text: Seq<char>)
    requires
        begins_with_dollar(text),
    ensures
        bytes_begin_with_dollar(encode_utf8(text)),
{
    let scalar = text[0] as u32;
    assert(scalar == 0x24);
    assert(vstd::utf8::has_width_1_encoding(scalar));
    assert(vstd::utf8::leading_byte_width_1(scalar) == 0x24) by (bit_vector)
        requires
            scalar == 0x24,
    ;
    assert(vstd::utf8::encode_scalar(scalar) =~= seq![0x24u8]);
    assert(encode_utf8(text) =~= vstd::utf8::encode_scalar(scalar) + encode_utf8(
        text.drop_first(),
    ));
}

} // verus!

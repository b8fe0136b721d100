use crate::subtitle::encoding::{crlf_at, has_crlf, not_cr, without_cr};
use vstd::prelude::*;
use vstd::utf8::{
    char_is_scalar, char_u32_cast, encode_scalar, encode_utf8, has_width_1_encoding,
    has_width_2_encoding, has_width_3_encoding, has_width_4_encoding,
};

verus! {

/// Whether the bytes 13 and 10, CR and LF, stand at `i` and right after it.
pub open spec fn crlf_bytes_at(bytes: Seq<u8>, i: int) -> bool {
    0 <= i && i + 1 < bytes.len() && bytes[i] == 13 && bytes[i + 1] == 10
}

/// Whether `bytes` holds the byte sequence CR LF.
pub open spec fn has_crlf_bytes(bytes: Seq<u8>) -> bool {
    exists|i: int| crlf_bytes_at(bytes, i)
}

/// Holds of every byte but 13, the carriage return.
pub open spec fn not_cr_byte() -> spec_fn(u8) -> bool {
    |b: u8| b != 13
}

/// `bytes` without its carriage returns.
pub open spec fn without_cr_bytes(bytes: Seq<u8>) -> Seq<u8> {
    bytes.filter(not_cr_byte())
}

/// In UTF-8 the bytes 13 and 10 stand for CR and LF and occur nowhere else:
/// every byte of a longer encoding is 128 or more.
pub proof fn scalar_bytes(c: char)
    ensures
        encode_scalar(c as u32).len() >= 1,
        c == '\r' ==> encode_scalar(c as u32) == seq![13u8],
        c == '\n' ==> encode_scalar(c as u32) == seq![10u8],
        c != '\r' ==> !encode_scalar(c as u32).contains(13u8),
        c != '\n' ==> !encode_scalar(c as u32).contains(10u8),
{
    let v = c as u32;
    char_is_scalar(c);
    char_u32_cast(c, v);
    if has_width_1_encoding(v) {
        assert((v & 0x7F) as u8 == v) by (bit_vector)
            requires
                v <= 0x7F,
        ;
        assert(encode_scalar(v) =~= seq![v as u8]);
        if c == '\r' {
            assert(encode_scalar(v) =~= seq![13u8]);
        }
        if c == '\n' {
            assert(encode_scalar(v) =~= seq![10u8]);
        }
    } else {
        assert(0xC0u8 | ((v >> 6) & 0x1F) as u8 >= 0x80) by (bit_vector);
        assert(0xE0u8 | ((v >> 12) & 0x0F) as u8 >= 0x80) by (bit_vector);
        assert(0xF0u8 | ((v >> 18) & 0x7) as u8 >= 0x80) by (bit_vector);
        assert(0x80u8 | (v & 0x3F) as u8 >= 0x80) by (bit_vector);
        assert(0x80u8 | ((v >> 6) & 0x3F) as u8 >= 0x80) by (bit_vector);
        assert(0x80u8 | ((v >> 12) & 0x3F) as u8 >= 0x80) by (bit_vector);
    }
}

/// The UTF-8 encoding of two texts in a row is the two encodings in a row.
pub proof fn encode_utf8_concat(first: Seq<char>, second: Seq<char>)
    ensures
        encode_utf8(first + second) == encode_utf8(first) + encode_utf8(second),
    decreases first.len(),
{
    if first.len() == 0 {
        assert(first + second =~= second);
        assert(encode_utf8(first) + encode_utf8(second) =~= encode_utf8(second));
    } else {
        assert((first + second).drop_first() =~= first.drop_first() + second);
        encode_utf8_concat(first.drop_first(), second);
        assert(encode_utf8(first + second) =~= encode_utf8(first) + encode_utf8(second));
    }
}

/// The UTF-8 encoding of a text ends in the encoding of its last character.
pub proof fn encode_utf8_last(text: Seq<char>)
    requires
        text.len() > 0,
    ensures
        encode_utf8(text) == encode_utf8(text.drop_last()) + encode_scalar(text.last() as u32),
{
    let last = seq![text.last()];
    assert(text =~= text.drop_last() + last);
    encode_utf8_concat(text.drop_last(), last);
    assert(last.drop_first() =~= Seq::<char>::empty());
    assert(encode_utf8(Seq::<char>::empty()) =~= Seq::<u8>::empty());
    assert(encode_utf8(last) =~= encode_scalar(last[0] as u32) + Seq::<u8>::empty());
}

proof fn filter_keeps_all(bytes: Seq<u8>)
    requires
        !bytes.contains(13u8),
    ensures
        without_cr_bytes(bytes) == bytes,
    decreases bytes.len(),
{
    reveal(Seq::filter);
    if bytes.len() > 0 {
        assert(bytes.drop_last().contains(13u8) ==> bytes.contains(13u8)) by {
            if bytes.drop_last().contains(13u8) {
                let k = choose|k: int|
                    0 <= k < bytes.drop_last().len() && bytes.drop_last()[k] == 13u8;
                assert(bytes[k] == 13u8);
            }
        }
        filter_keeps_all(bytes.drop_last());
        assert(bytes[bytes.len() - 1] != 13u8);
        assert(bytes.drop_last().push(bytes.last()) =~= bytes);
    }
}

/// Taking the carriage returns out of a text takes the bytes 13 out of its
/// UTF-8 encoding, and nothing else.
pub proof fn without_cr_in_utf8(text: Seq<char>)
    ensures
        encode_utf8(without_cr(text)) == without_cr_bytes(encode_utf8(text)),
        !encode_utf8(without_cr(text)).contains(13u8),
    decreases text.len(),
{
    reveal(Seq::filter);
    if text.len() == 0 {
        assert(without_cr(text) =~= text);
        assert(without_cr_bytes(encode_utf8(text)) =~= encode_utf8(text));
    } else {
        let init = text.drop_last();
        let last = text.last();
        let last_bytes = encode_scalar(last as u32);
        without_cr_in_utf8(init);
        encode_utf8_last(text);
        scalar_bytes(last);
        Seq::filter_distributes_over_add(encode_utf8(init), last_bytes, not_cr_byte());
        if last == '\r' {
            assert(without_cr(text) == without_cr(init));
            assert(last_bytes.drop_last() =~= Seq::<u8>::empty());
            assert(without_cr_bytes(Seq::<u8>::empty()) =~= Seq::<u8>::empty());
            assert(without_cr_bytes(last_bytes) =~= Seq::<u8>::empty());
            assert(without_cr_bytes(encode_utf8(init)) + Seq::<u8>::empty()
                =~= without_cr_bytes(encode_utf8(init)));
        } else {
            assert(without_cr(text) == without_cr(init).push(last));
            filter_keeps_all(last_bytes);
            encode_utf8_last(without_cr(init).push(last));
            assert(without_cr(init).push(last).drop_last() =~= without_cr(init));
            let out = encode_utf8(without_cr(text));
            assert(out == encode_utf8(without_cr(init)) + last_bytes);
            if out.contains(13u8) {
                let k = choose|k: int| 0 <= k < out.len() && out[k] == 13u8;
                if k < encode_utf8(without_cr(init)).len() {
                    assert(encode_utf8(without_cr(init))[k] == 13u8);
                } else {
                    assert(last_bytes[k - encode_utf8(without_cr(init)).len()] == 13u8);
                }
            }
        }
    }
}

/// A text holds CR LF exactly where its UTF-8 encoding holds the bytes 13
/// and 10 in a row.
pub proof fn crlf_in_utf8(text: Seq<char>)
    ensures
        has_crlf(text) == has_crlf_bytes(encode_utf8(text)),
    decreases text.len(),
{
    if text.len() == 0 {
        assert(!has_crlf(text)) by {
            assert(forall|i: int| !crlf_at(text, i));
        }
        assert(!has_crlf_bytes(encode_utf8(text))) by {
            assert(forall|i: int| !crlf_bytes_at(encode_utf8(text), i));
        }
    } else {
        let init = text.drop_last();
        let last = text.last();
        let bytes = encode_utf8(text);
        let init_bytes = encode_utf8(init);
        let last_bytes = encode_scalar(last as u32);
        crlf_in_utf8(init);
        encode_utf8_last(text);
        scalar_bytes(last);
        let n = text.len() as int;
        let m = init_bytes.len() as int;
        if init.len() > 0 {
            encode_utf8_last(init);
            scalar_bytes(init.last());
        }
        if has_crlf(text) {
            let i = choose|i: int| crlf_at(text, i);
            if i + 1 < n - 1 {
                assert(crlf_at(init, i));
                let j = choose|j: int| crlf_bytes_at(init_bytes, j);
                assert(crlf_bytes_at(bytes, j));
            } else {
                assert(init.last() == '\r' && last == '\n');
                assert(init_bytes[m - 1] == 13u8);
                assert(bytes[m - 1] == 13u8);
                assert(bytes[m] == last_bytes[0]);
                assert(crlf_bytes_at(bytes, m - 1));
            }
        }
        if has_crlf_bytes(bytes) {
            let j = choose|j: int| crlf_bytes_at(bytes, j);
            if j + 1 < m {
                assert(crlf_bytes_at(init_bytes, j));
                let i = choose|i: int| crlf_at(init, i);
                assert(crlf_at(text, i));
            } else if j + 1 == m {
                assert(last_bytes[0] == 10u8);
                assert(last_bytes.contains(10u8));
                assert(init_bytes[j] == 13u8);
                assert(init.len() > 0);
                let before = encode_utf8(init.drop_last());
                let prev_bytes = encode_scalar(init.last() as u32);
                assert(prev_bytes[j - before.len()] == 13u8);
                assert(prev_bytes.contains(13u8));
                assert(crlf_at(text, n - 2));
            } else {
                assert(last_bytes[j - m] == 13u8);
                assert(last_bytes.contains(13u8));
                assert(last_bytes[j + 1 - m] == 10u8);
                assert(false);
            }
        }
    }
}

} // verus!

//! Runtime code hashes as text: 32 bytes written as 64 hexadecimal digits,
//! optionally behind `0x` or `0X`.
use vstd::prelude::*;
use vstd::string::StringExecFns;
use vstd::string::StringSliceAdditionalSpecFns;

verus! {

/// Why a code hash text was refused.
#[derive(Clone, Copy, Debug, PartialEq, Eq, Structural)]
pub enum CodeHashError {
    /// Without its `0x` prefix the text is not exactly 64 bytes long.
    WrongLength,
    /// A pair of bytes is not valid UTF-8 text.
    NotAscii,
    /// A pair of bytes is not a hexadecimal number.
    NotHex,
}

/// The value of one ASCII hexadecimal digit, either case.
pub open spec fn hex_digit_value(b: u8) -> Option<u8> {
    if 48 <= b <= 57 {
        Some((b - 48) as u8)
    } else if 97 <= b <= 102 {
        Some((b - 87) as u8)
    } else if 65 <= b <= 70 {
        Some((b - 55) as u8)
    } else {
        None
    }
}

/// Whether two bytes, read on their own, are valid UTF-8 text: two ASCII
/// characters, or one two-byte character.
pub open spec fn pair_is_utf8(b0: u8, b1: u8) -> bool {
    (b0 < 0x80 && b1 < 0x80) || (0xc2 <= b0 <= 0xdf && 0x80 <= b1 <= 0xbf)
}

/// The byte that a two-byte group of hash text denotes: exactly two ASCII
/// hexadecimal digits, high digit first.
pub open spec fn pair_value(b0: u8, b1: u8) -> Result<u8, CodeHashError> {
    if !pair_is_utf8(b0, b1) {
        Err(CodeHashError::NotAscii)
    } else {
        match (hex_digit_value(b0), hex_digit_value(b1)) {
            (Some(hi), Some(lo)) => Ok((hi * 16 + lo) as u8),
            _ => Err(CodeHashError::NotHex),
        }
    }
}

/// The first `k` bytes that the digit pairs of `s` denote, or the error of the
/// first pair among them that is refused.
pub open spec fn decode_pairs(s: Seq<u8>, k: nat) -> Result<Seq<u8>, CodeHashError>
    decreases k,
{
    if k == 0 {
        Ok(Seq::empty())
    } else {
        match decode_pairs(s, (k - 1) as nat) {
            Err(e) => Err(e),
            Ok(prefix) => match pair_value(s[2 * k - 2], s[2 * k - 1]) {
                Err(e) => Err(e),
                Ok(v) => Ok(prefix.push(v)),
            },
        }
    }
}

/// The hash text without its `0x` or `0X` prefix.
pub open spec fn strip_hex_prefix(s: Seq<u8>) -> Seq<u8> {
    if s.len() >= 2 && s[0] == 48 && (s[1] == 120 || s[1] == 88) {
        s.skip(2)
    } else {
        s
    }
}

/// The 32 bytes that the hash text `s` (as UTF-8 bytes) denotes, or why it is refused.
pub open spec fn code_hash_of(s: Seq<u8>) -> Result<Seq<u8>, CodeHashError> {
    let digits = strip_hex_prefix(s);
    if digits.len() != 64 {
        Err(CodeHashError::WrongLength)
    } else {
        decode_pairs(digits, 32)
    }
}

/// The lower-case hexadecimal digit of a value below 16.
pub open spec fn hex_char(n: u8) -> char {
    if n < 10 {
        (n + 48) as char
    } else {
        (n + 87) as char
    }
}

/// Two lower-case hexadecimal digits per byte, in order.
pub open spec fn hex_text(bytes: Seq<u8>) -> Seq<char>
    decreases bytes.len(),
{
    if bytes.len() == 0 {
        Seq::empty()
    } else {
        let b = bytes.last();
        hex_text(bytes.drop_last()) + seq![hex_char(b / 16), hex_char(b % 16)]
    }
}

proof fn lemma_decode_error_persists(s: Seq<u8>, k: nat, m: nat)
    requires
        k <= m,
        decode_pairs(s, k) is Err,
    ensures
        decode_pairs(s, m) == decode_pairs(s, k),
    decreases m - k,
{
    if k < m {
        lemma_decode_error_persists(s, k, (m - 1) as nat);
    }
}

/// The UTF-8 bytes of ASCII text: one byte per character.
pub open spec fn ascii_bytes(text: Seq<char>) -> Seq<u8> {
    Seq::new(text.len(), |i: int| text[i] as u8)
}

proof fn lemma_hex_text_shape(bytes: Seq<u8>)
    ensures
        hex_text(bytes).len() == 2 * bytes.len(),
        forall|j: int|
            0 <= j < bytes.len() ==> {
                &&& #[trigger] hex_text(bytes)[2 * j] == hex_char(bytes[j] / 16)
                &&& hex_text(bytes)[2 * j + 1] == hex_char(bytes[j] % 16)
            },
    decreases bytes.len(),
{
    if bytes.len() > 0 {
        let d = bytes.drop_last();
        lemma_hex_text_shape(d);
        let b = bytes.last();
        assert(hex_text(bytes) == hex_text(d) + seq![hex_char(b / 16), hex_char(b % 16)]);
        assert forall|j: int| 0 <= j < bytes.len() implies {
            &&& #[trigger] hex_text(bytes)[2 * j] == hex_char(bytes[j] / 16)
            &&& hex_text(bytes)[2 * j + 1] == hex_char(bytes[j] % 16)
        } by {
            if j < bytes.len() - 1 {
                assert(hex_text(d)[2 * j] == hex_char(d[j] / 16));
                assert(d[j] == bytes[j]);
            }
        }
    }
}

proof fn lemma_pair_of_hex_chars(b: u8)
    ensures
        pair_value(hex_char(b / 16) as u8, hex_char(b % 16) as u8) == Ok::<u8, CodeHashError>(b),
{
    let hi = b / 16;
    let lo = b % 16;
    assert(hi < 16 && lo < 16);
    assert(hex_char(hi) as u8 == if hi < 10 { hi + 48 } else { hi + 87 });
    assert(hex_char(lo) as u8 == if lo < 10 { lo + 48 } else { lo + 87 });
    assert(hi * 16 + lo == b);
}

proof fn lemma_decode_hex_text(h: Seq<u8>, k: nat)
    requires
        k <= h.len(),
    ensures
        decode_pairs(ascii_bytes(hex_text(h)), k) == Ok::<Seq<u8>, CodeHashError>(h.take(k as int)),
    decreases k,
{
    lemma_hex_text_shape(h);
    if k > 0 {
        lemma_decode_hex_text(h, (k - 1) as nat);
        let j = k - 1;
        let t = hex_text(h);
        assert(t[2 * j] == hex_char(h[j] / 16));
        assert(ascii_bytes(t)[2 * k - 2] == hex_char(h[j] / 16) as u8);
        assert(ascii_bytes(t)[2 * k - 1] == hex_char(h[j] % 16) as u8);
        lemma_pair_of_hex_chars(h[j]);
        let s = ascii_bytes(t);
        assert(pair_value(s[2 * k - 2], s[2 * k - 1]) == Ok::<u8, CodeHashError>(h[j]));
        assert(decode_pairs(s, (k - 1) as nat) == Ok::<Seq<u8>, CodeHashError>(h.take(j)));
        assert(h.take(j).push(h[j]) =~= h.take(k as int));
    } else {
        assert(h.take(0) =~= Seq::<u8>::empty());
    }
}

/// Hash text written by `format_hex` is read back by `parse_code_hash` as the
/// same 32 bytes, with or without a `0x` prefix.
pub proof fn lemma_code_hash_round_trip(hash: Seq<u8>)
    requires
        hash.len() == 32,
    ensures
        code_hash_of(ascii_bytes(hex_text(hash))) == Ok::<Seq<u8>, CodeHashError>(hash),
        code_hash_of(ascii_bytes("0x"@ + hex_text(hash))) == Ok::<Seq<u8>, CodeHashError>(hash),
{
    lemma_hex_text_shape(hash);
    let t = hex_text(hash);
    lemma_decode_hex_text(hash, 32);
    assert(hash.take(32) =~= hash);
    assert(t[2 * 0int + 1] == hex_char(hash[0] % 16));
    assert(ascii_bytes(t)[1] != 120 && ascii_bytes(t)[1] != 88);
    reveal_strlit("0x");
    let p = ascii_bytes("0x"@ + t);
    assert(p.len() == 66);
    assert(p[0] == 48 && p[1] == 120);
    assert(p.skip(2) =~= ascii_bytes(t));
}

/// The character of an ASCII byte, with upper-case letters made lower-case.
pub open spec fn ascii_lowercase(b: u8) -> char {
    if 65 <= b <= 90 {
        (b + 32) as char
    } else {
        b as char
    }
}

/// ASCII text as characters, lower-cased.
pub open spec fn lowercase_text(bytes: Seq<u8>) -> Seq<char> {
    Seq::new(bytes.len(), |i: int| ascii_lowercase(bytes[i]))
}

proof fn lemma_decode_ok_pairs(s: Seq<u8>, k: nat)
    requires
        decode_pairs(s, k) is Ok,
    ensures
        decode_pairs(s, k)->Ok_0.len() == k,
        forall|j: int|
            0 <= j < k ==> pair_value(s[2 * j], #[trigger] s[2 * j + 1]) == Ok::<u8, CodeHashError>(
                decode_pairs(s, k)->Ok_0[j],
            ),
    decreases k,
{
    if k > 0 {
        lemma_decode_ok_pairs(s, (k - 1) as nat);
        let prefix = decode_pairs(s, (k - 1) as nat)->Ok_0;
        let v = decode_pairs(s, k)->Ok_0;
        assert forall|j: int| 0 <= j < k implies pair_value(s[2 * j], #[trigger] s[2 * j + 1])
            == Ok::<u8, CodeHashError>(v[j]) by {
            if j < k - 1 {
                assert(v[j] == prefix[j]);
            }
        }
    }
}

proof fn lemma_pair_lowercase(b0: u8, b1: u8, v: u8)
    requires
        pair_value(b0, b1) == Ok::<u8, CodeHashError>(v),
    ensures
        hex_char(v / 16) == ascii_lowercase(b0),
        hex_char(v % 16) == ascii_lowercase(b1),
{
    let hi = hex_digit_value(b0)->Some_0;
    let lo = hex_digit_value(b1)->Some_0;
    assert(hi < 16 && lo < 16);
    assert(v == hi * 16 + lo);
    assert(v / 16 == hi && v % 16 == lo) by (nonlinear_arith)
        requires
            hi < 16,
            lo < 16,
            v == hi * 16 + lo,
    ;
}

/// Hash text that `parse_code_hash` accepts is written back by `format_hex`
/// as the same digits, lower-cased and without the `0x` prefix.
pub proof fn lemma_code_hash_text_round_trip(s: Seq<u8>)
    requires
        code_hash_of(s) is Ok,
    ensures
        hex_text(code_hash_of(s)->Ok_0) == lowercase_text(strip_hex_prefix(s)),
{
    let d = strip_hex_prefix(s);
    let h = code_hash_of(s)->Ok_0;
    lemma_decode_ok_pairs(d, 32);
    lemma_hex_text_shape(h);
    assert forall|i: int| 0 <= i < 64 implies #[trigger] hex_text(h)[i] == lowercase_text(d)[i] by {
        let j = i / 2;
        assert(0 <= j < 32);
        assert(pair_value(d[2 * j], d[2 * j + 1]) == Ok::<u8, CodeHashError>(h[j]));
        lemma_pair_lowercase(d[2 * j], d[2 * j + 1], h[j]);
        assert(hex_text(h)[2 * j] == hex_char(h[j] / 16));
        assert(hex_text(h)[2 * j + 1] == hex_char(h[j] % 16));
        if i % 2 == 0 {
            assert(i == 2 * j);
        } else {
            assert(i == 2 * j + 1);
        }
    }
    assert(hex_text(h) =~= lowercase_text(d));
}

fn hex_digit(b: u8) -> (r: Option<u8>)
    ensures
        r == hex_digit_value(b),
{
    if 48 <= b && b <= 57 {
        Some(b - 48)
    } else if 97 <= b && b <= 102 {
        Some(b - 87)
    } else if 65 <= b && b <= 70 {
        Some(b - 55)
    } else {
        None
    }
}

fn decode_pair(b0: u8, b1: u8) -> (r: Result<u8, CodeHashError>)
    ensures
        r == pair_value(b0, b1),
{
    if !((b0 < 0x80 && b1 < 0x80) || (0xc2 <= b0 && b0 <= 0xdf && 0x80 <= b1 && b1 <= 0xbf)) {
        Err(CodeHashError::NotAscii)
    } else {
        match (hex_digit(b0), hex_digit(b1)) {
            (Some(hi), Some(lo)) => Ok(hi * 16 + lo),
            _ => Err(CodeHashError::NotHex),
        }
    }
}

/// Parses a runtime code hash: 64 hexadecimal digits, optionally behind `0x`
/// or `0X`. The text is read as its UTF-8 bytes.
pub fn parse_code_hash(input: &str) -> (r: Result<[u8; 32], CodeHashError>)
    ensures
        match r {
            Ok(hash) => code_hash_of(input.spec_bytes()) == Ok::<Seq<u8>, CodeHashError>(hash@),
            Err(e) => code_hash_of(input.spec_bytes()) == Err::<Seq<u8>, CodeHashError>(e),
        },
{
    let bytes = input.as_bytes();
    let n = bytes.len();
    let start: usize = if n >= 2 && bytes[0] == 48 && (bytes[1] == 120 || bytes[1] == 88) {
        2
    } else {
        0
    };
    let ghost digits = strip_hex_prefix(bytes@);
    assert(digits =~= bytes@.skip(start as int));
    if n - start != 64 {
        return Err(CodeHashError::WrongLength);
    }
    let mut out = [0u8; 32];
    assert(out@.subrange(0, 0) =~= Seq::<u8>::empty());
    let mut i: usize = 0;
    while i < 32
        invariant
            i <= 32,
            n == bytes@.len(),
            n == start + 64,
            digits == bytes@.skip(start as int),
            digits == strip_hex_prefix(bytes@),
            bytes@ == input.spec_bytes(),
            decode_pairs(digits, i as nat) == Ok::<Seq<u8>, CodeHashError>(out@.subrange(0, i as int)),
        decreases 32 - i,
    {
        let b0 = bytes[start + 2 * i];
        let b1 = bytes[start + 2 * i + 1];
        assert(digits[2 * (i + 1) - 2] == b0);
        assert(digits[2 * (i + 1) - 1] == b1);
        match decode_pair(b0, b1) {
            Err(e) => {
                proof {
                    assert(decode_pairs(digits, (i + 1) as nat) == Err::<Seq<u8>, CodeHashError>(e));
                    lemma_decode_error_persists(digits, (i + 1) as nat, 32);
                }
                return Err(e);
            },
            Ok(v) => {
                let ghost before = out@;
                out[i] = v;
                assert(out@.subrange(0, i + 1) =~= before.subrange(0, i as int).push(v));
                i = i + 1;
            },
        }
    }
    assert(out@.subrange(0, 32) =~= out@);
    Ok(out)
}

fn hex_digit_text(n: u8) -> (r: &'static str)
    requires
        n < 16,
    ensures
        r@ == seq![hex_char(n)],
{
    proof {
        reveal_strlit("0");
        reveal_strlit("1");
        reveal_strlit("2");
        reveal_strlit("3");
        reveal_strlit("4");
        reveal_strlit("5");
        reveal_strlit("6");
        reveal_strlit("7");
        reveal_strlit("8");
        reveal_strlit("9");
        reveal_strlit("a");
        reveal_strlit("b");
        reveal_strlit("c");
        reveal_strlit("d");
        reveal_strlit("e");
        reveal_strlit("f");
    }
    let r = match n {
        0 => "0",
        1 => "1",
        2 => "2",
        3 => "3",
        4 => "4",
        5 => "5",
        6 => "6",
        7 => "7",
        8 => "8",
        9 => "9",
        10 => "a",
        11 => "b",
        12 => "c",
        13 => "d",
        14 => "e",
        _ => "f",
    };
    assert(r@ =~= seq![hex_char(n)]);
    r
}

/// The bytes as lower-case hexadecimal text, two digits per byte, no prefix.
pub fn format_hex(bytes: &[u8]) -> (r: String)
    ensures
        r@ == hex_text(bytes@),
{
    let mut out = String::from_str("");
    proof {
        reveal_strlit("");
    }
    let mut i: usize = 0;
    while i < bytes.len()
        invariant
            i <= bytes@.len(),
            out@ == hex_text(bytes@.subrange(0, i as int)),
        decreases bytes@.len() - i,
    {
        let b = bytes[i];
        out.append(hex_digit_text(b / 16));
        out.append(hex_digit_text(b % 16));
        assert(bytes@.subrange(0, i + 1).drop_last() =~= bytes@.subrange(0, i as int));
        i = i + 1;
    }
    assert(bytes@.subrange(0, bytes@.len() as int) =~= bytes@);
    out
}

} // verus!

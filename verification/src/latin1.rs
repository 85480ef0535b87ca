//! Byte buffers read back as text, one `char` per byte.
use vstd::prelude::*;

verus! {

/// `String::push` appends one character at the end of the string.
pub assume_specification[ String::push ](s: &mut String, ch: char)
    ensures
        final(s)@ == old(s)@.push(ch),
;

/// The text that a byte buffer reads as when each byte becomes the `char`
/// with the same code point (ISO 8859-1).
pub open spec fn latin1_decode(bytes: Seq<u8>) -> Seq<char> {
    bytes.map_values(|b: u8| b as char)
}

/// Reads a byte buffer as text, byte by byte.
pub fn bytes_to_string(bytes: &[u8]) -> (text: String)
    ensures
        text@ == latin1_decode(bytes@),
        text@.len() == bytes@.len(),
        forall|i: int| 0 <= i < bytes@.len() ==> (#[trigger] text@[i]) as u32 == bytes@[i] as u32,
{
    proof {
        lemma_decode_code_points(bytes@);
    }
    let mut text = String::new();
    let n = bytes.len();
    for i in 0..n
        invariant
            n == bytes@.len(),
            text@ == latin1_decode(bytes@.take(i as int)),
    {
        let c = bytes[i] as char;
        text.push(c);
        assert(bytes@.take(i + 1) == bytes@.take(i as int).push(bytes@[i as int]));
    }
    assert(bytes@.take(n as int) == bytes@);
    text
}

/// Each character of the text has the code point of the byte it stands
/// for: byte `b` reads as the character U+00`b`.
pub proof fn lemma_decode_code_points(bytes: Seq<u8>)
    ensures
        latin1_decode(bytes).len() == bytes.len(),
        forall|i: int|
            0 <= i < bytes.len() ==> (#[trigger] latin1_decode(bytes)[i]) as u32 == bytes[i] as u32,
{
    assert forall|i: int| 0 <= i < bytes.len() implies (#[trigger] latin1_decode(bytes)[i]) as u32
        == bytes[i] as u32 by {
        let x = bytes[i];
        assert(latin1_decode(bytes)[i] == x as char);
        assert((x as char) as int == x as int);
    }
}

/// Decoding gives one character per byte, and different byte buffers read
/// as different texts: nothing is lost in reading bytes as text.
pub proof fn lemma_decode_lossless(a: Seq<u8>, b: Seq<u8>)
    ensures
        latin1_decode(a).len() == a.len(),
        latin1_decode(a) == latin1_decode(b) ==> a == b,
{
    if latin1_decode(a) == latin1_decode(b) {
        assert(a.len() == b.len());
        assert forall|i: int| 0 <= i < a.len() implies a[i] == b[i] by {
            assert(latin1_decode(a)[i] == latin1_decode(b)[i]);
            let x = a[i];
            let y = b[i];
            assert((x as char) as int == x as int);
            assert((y as char) as int == y as int);
        }
        assert(a =~= b);
    }
}

/// Reading two buffers one after the other gives the text of the two
/// buffers joined.
pub proof fn lemma_decode_concat(a: Seq<u8>, b: Seq<u8>)
    ensures
        latin1_decode(a + b) == latin1_decode(a) + latin1_decode(b),
{
    assert(latin1_decode(a + b) =~= latin1_decode(a) + latin1_decode(b));
}

}

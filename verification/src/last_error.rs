use vstd::prelude::*;
use vstd::utf8::{
    char_is_scalar, decode_utf8, encode_scalar, encode_utf8, encode_utf8_decode_utf8, is_ascii_chars,
    is_ascii_chars_encode_utf8, is_scalar, valid_utf8,
};

verus! {

/// The text stored instead of a message whose encoding holds a NUL byte,
/// so that the slot always reads back as a well-formed C string.
pub open spec fn nul_placeholder() -> Seq<char> {
    "(llama-xet: error message contained NUL)"@
}

/// The bytes the slot holds after `set` was given a message with these
/// characters: its UTF-8 encoding, or the placeholder's when the message
/// holds a NUL character.
pub open spec fn stored_message(msg: Seq<char>) -> Seq<u8> {
    if msg.contains('\0') {
        encode_utf8(nul_placeholder())
    } else {
        encode_utf8(msg)
    }
}

/// The last-error slot of one thread: the diagnostic text of the most recent
/// failure, kept as a NUL-terminated C string. A fresh or cleared slot reads
/// back as the empty C string.
pub struct LastError {
    bytes: Vec<u8>,
}

impl LastError {
    /// The message bytes, without the terminating NUL.
    pub closed spec fn message(&self) -> Seq<u8> {
        self.bytes@.drop_last()
    }

    #[verifier::type_invariant]
    closed spec fn is_c_string(&self) -> bool {
        &&& self.bytes@.len() >= 1
        &&& self.bytes@.last() == 0u8
        &&& !self.bytes@.drop_last().contains(0u8)
        &&& valid_utf8(self.bytes@.drop_last())
    }

    /// A slot that holds no message.
    pub fn new() -> (slot: LastError)
        ensures
            slot.message() == Seq::<u8>::empty(),
    {
        let mut bytes: Vec<u8> = Vec::new();
        bytes.push(0u8);
        assert(bytes@.drop_last() =~= Seq::<u8>::empty());
        LastError { bytes }
    }
}

/// Whether `bytes` holds a zero byte.
fn holds_nul(bytes: &[u8]) -> (r: bool)
    ensures
        r == bytes@.contains(0u8),
{
    let n = bytes.len();
    let mut i: usize = 0;
    while i < n
        invariant
            i <= n,
            n == bytes@.len(),
            forall|k: int| 0 <= k < i ==> bytes@[k] != 0u8,
        decreases n - i,
    {
        if bytes[i] == 0u8 {
            return true;
        }
        i = i + 1;
    }
    false
}

/// The placeholder's UTF-8 bytes, which hold no NUL.
fn placeholder_bytes() -> (r: &'static [u8])
    ensures
        r@ == encode_utf8(nul_placeholder()),
        !r@.contains(0u8),
{
    let text: &'static str = "(llama-xet: error message contained NUL)";
    proof {
        lemma_placeholder_has_no_nul();
    }
    text.as_bytes()
}

/// Records `msg` as the slot's message. A message holding a NUL character
/// (which no C string can carry) is replaced by a fixed placeholder, so the slot never reads back as a
/// truncated or empty string.
pub fn set(slot: &mut LastError, msg: &str)
    ensures
        final(slot).message() == stored_message(msg@),
{
    let raw = msg.as_bytes();
    proof {
        lemma_nul_char_iff_nul_byte(msg@);
    }
    let chosen: &[u8] = if holds_nul(raw) {
        placeholder_bytes()
    } else {
        raw
    };
    proof {
        vstd::utf8::encode_utf8_valid_utf8(msg@);
        vstd::utf8::encode_utf8_valid_utf8(nul_placeholder());
    }
    let mut bytes = vstd::slice::slice_to_vec(chosen);
    let ghost content = bytes@;
    bytes.push(0u8);
    assert(bytes@.drop_last() =~= content);
    *slot = LastError { bytes };
}

/// Forgets the slot's message, so that it reads back as the empty string.
pub fn clear(slot: &mut LastError)
    ensures
        final(slot).message() == Seq::<u8>::empty(),
{
    *slot = LastError::new();
}

/// The slot's message as a NUL-terminated C string: the message bytes, which
/// are valid UTF-8 and hold no NUL, followed by one NUL.
pub fn get_ptr(slot: &LastError) -> (c_string: &[u8])
    ensures
        c_string@ == slot.message().push(0u8),
        valid_utf8(slot.message()),
        !slot.message().contains(0u8),
{
    proof {
        use_type_invariant(slot);
        assert(slot.bytes@ =~= slot.bytes@.drop_last().push(0u8));
    }
    slot.bytes.as_slice()
}

/// A byte with its high bit set is not NUL.
proof fn lemma_marked_bytes(x: u8)
    by (bit_vector)
    ensures
        (0x80u8 | x) != 0u8,
        (0xC0u8 | x) != 0u8,
        (0xE0u8 | x) != 0u8,
        (0xF0u8 | x) != 0u8,
{
}

/// A single-byte encoding is the scalar itself.
proof fn lemma_ascii_byte(v: u32)
    by (bit_vector)
    requires
        v <= 0x7F,
    ensures
        ((v & 0x7F) as u8 == 0u8) == (v == 0),
{
}

/// The encoding of one scalar holds a NUL byte exactly when the scalar is NUL.
proof fn lemma_scalar_nul(v: u32)
    requires
        is_scalar(v),
    ensures
        encode_scalar(v).contains(0u8) <==> v == 0,
{
    let e = encode_scalar(v);
    if v <= 0x7F {
        lemma_ascii_byte(v);
        assert(e[0] == ((v & 0x7F) as u8));
        if v == 0 {
            assert(e[0] == 0u8);
        }
    } else {
        lemma_marked_bytes(((v >> 6) & 0x1F) as u8);
        lemma_marked_bytes(((v >> 12) & 0x0F) as u8);
        lemma_marked_bytes(((v >> 18) & 0x7) as u8);
        lemma_marked_bytes((v & 0x3F) as u8);
        lemma_marked_bytes(((v >> 6) & 0x3F) as u8);
        lemma_marked_bytes(((v >> 12) & 0x3F) as u8);
        assert forall|k: int| 0 <= k < e.len() implies e[k] != 0u8 by {}
    }
}

/// A text holds a NUL character exactly when its UTF-8 encoding holds a NUL
/// byte.
pub proof fn lemma_nul_char_iff_nul_byte(chars: Seq<char>)
    ensures
        encode_utf8(chars).contains(0u8) <==> chars.contains('\0'),
    decreases chars.len(),
{
    if chars.len() > 0 {
        let first = chars[0];
        let rest = chars.drop_first();
        char_is_scalar(first);
        lemma_scalar_nul(first as u32);
        lemma_nul_char_iff_nul_byte(rest);
        let head = encode_scalar(first as u32);
        let tail = encode_utf8(rest);
        assert(encode_utf8(chars) == head + tail);
        if (head + tail).contains(0u8) {
            let k = choose|k: int| 0 <= k < (head + tail).len() && (head + tail)[k] == 0u8;
            if k < head.len() {
                assert(head[k] == 0u8);
                assert(head.contains(0u8));
                assert(first as u32 == 0);
                assert(('\0' as u32) == 0);
                vstd::utf8::char_u32_cast(first, first as u32);
                vstd::utf8::char_u32_cast('\0', 0u32);
                assert(chars[0] == '\0');
            } else {
                assert(tail[k - head.len()] == 0u8);
                let j = choose|j: int| 0 <= j < rest.len() && rest[j] == '\0';
                assert(chars[j + 1] == '\0');
            }
        }
        if chars.contains('\0') {
            let j = choose|j: int| 0 <= j < chars.len() && chars[j] == '\0';
            if j == 0 {
                let k = choose|k: int| 0 <= k < head.len() && head[k] == 0u8;
                assert((head + tail)[k] == 0u8);
            } else {
                assert(rest[j - 1] == '\0');
                let k = choose|k: int| 0 <= k < tail.len() && tail[k] == 0u8;
                assert((head + tail)[k + head.len()] == 0u8);
            }
        }
    }
}

/// Reading the slot back as text after `set(msg)` gives `msg` itself when it
/// holds no NUL character, and the placeholder text when it does.
pub proof fn lemma_set_reads_back(msg: Seq<char>)
    ensures
        !msg.contains('\0') ==> decode_utf8(stored_message(msg)) == msg,
        msg.contains('\0') ==> decode_utf8(stored_message(msg)) == nul_placeholder(),
{
    encode_utf8_decode_utf8(msg);
    encode_utf8_decode_utf8(nul_placeholder());
}

/// Whatever was set, the stored bytes hold no NUL, so the slot always reads
/// back as a complete C string.
pub proof fn lemma_stored_message_has_no_nul(msg: Seq<char>)
    ensures
        !stored_message(msg).contains(0u8),
{
    lemma_nul_char_iff_nul_byte(msg);
    lemma_placeholder_has_no_nul();
}

/// The placeholder's encoding holds no NUL byte.
proof fn lemma_placeholder_has_no_nul()
    ensures
        !encode_utf8(nul_placeholder()).contains(0u8),
{
    reveal_strlit("(llama-xet: error message contained NUL)");
    let chars = nul_placeholder();
    assert(is_ascii_chars(chars));
    is_ascii_chars_encode_utf8(chars);
    assert forall|k: int| 0 <= k < encode_utf8(chars).len() implies encode_utf8(chars)[k]
        != 0u8 by {
        assert(chars[k] as u8 == encode_utf8(chars)[k]);
    }
}

/// A non-empty message is stored as a non-empty C string, so a recorded
/// failure never reads back as "no error".
pub proof fn lemma_stored_message_nonempty(msg: Seq<char>)
    requires
        msg.len() > 0,
    ensures
        stored_message(msg).len() > 0,
{
    char_is_scalar(msg[0]);
    assert(encode_utf8(msg) == encode_scalar(msg[0] as u32) + encode_utf8(msg.drop_first()));
    reveal_strlit("(llama-xet: error message contained NUL)");
    let p = nul_placeholder();
    assert(p.len() > 0);
    char_is_scalar(p[0]);
    assert(encode_utf8(p) == encode_scalar(p[0] as u32) + encode_utf8(p.drop_first()));
}

} // verus!

//! Decoding of the address pattern at the start of an OSC packet.

use vstd::prelude::*;
use vstd::string::StringSliceAdditionalSpecFns;
use vstd::utf8::*;

verus! {

/// The byte `/` that opens every OSC address.
pub const OSC_SLASH: u8 = 0x2f;

/// Error text for a packet that does not start with `/`.
pub open spec fn not_osc_message() -> Seq<char> {
    "pacote não é uma mensagem OSC"@
}

/// Error text for an address without its NUL terminator.
pub open spec fn missing_terminator_message() -> Seq<char> {
    "endereço OSC sem terminador"@
}

/// Error text for an address whose bytes are not UTF-8.
pub open spec fn not_utf8_message() -> Seq<char> {
    "endereço OSC não é UTF-8"@
}

/// `end` is the position of the first NUL byte of `packet`.
pub open spec fn is_first_nul(packet: Seq<u8>, end: int) -> bool {
    &&& 0 <= end < packet.len()
    &&& packet[end] == 0
    &&& forall|i: int| 0 <= i < end ==> packet[i] != 0
}

/// `packet` holds a NUL byte somewhere.
pub open spec fn has_nul(packet: Seq<u8>) -> bool {
    exists|i: int| 0 <= i < packet.len() && packet[i] == 0
}

/// The bytes of the address: everything before the first NUL byte.
pub open spec fn address_bytes(packet: Seq<u8>) -> Seq<u8> {
    packet.take(choose|end: int| is_first_nul(packet, end))
}

/// What decoding the address of `packet` gives: the address as text, or the
/// error text.
pub open spec fn spec_osc_address(packet: Seq<u8>) -> Result<Seq<char>, Seq<char>> {
    if packet.len() == 0 || packet[0] != OSC_SLASH {
        Err(not_osc_message())
    } else if !has_nul(packet) {
        Err(missing_terminator_message())
    } else if !valid_utf8(address_bytes(packet)) {
        Err(not_utf8_message())
    } else {
        Ok(decode_utf8(address_bytes(packet)))
    }
}

/// Wraps `std::str::from_utf8`: `Some` exactly when the bytes are valid UTF-8,
/// and then a string slice whose bytes are the given bytes.
#[verifier::external_body]
fn str_from_utf8(bytes: &[u8]) -> (res: Option<&str>)
    ensures
        res is Some <==> valid_utf8(bytes@),
        res matches Some(s) ==> s.spec_bytes() == bytes@,
{
    std::str::from_utf8(bytes).ok()
}

/// Reads the address pattern of an OSC packet: the packet must start with
/// `/`, and the address is the text before the first NUL byte (the padding
/// and the type tags that follow it are ignored).
pub fn osc_address(packet: &[u8]) -> (res: Result<&str, String>)
    ensures
        match res {
            Ok(address) => spec_osc_address(packet@) == Ok::<Seq<char>, Seq<char>>(address@)
                && address.spec_bytes() == address_bytes(packet@),
            Err(message) => spec_osc_address(packet@) == Err::<Seq<char>, Seq<char>>(message@),
        },
{
    if packet.len() == 0 || packet[0] != OSC_SLASH {
        return Err("pacote não é uma mensagem OSC".to_owned());
    }
    let mut end: usize = 0;
    while end < packet.len() && packet[end] != 0
        invariant
            end <= packet.len(),
            forall|i: int| 0 <= i < end ==> packet@[i] != 0,
        decreases packet.len() - end,
    {
        end = end + 1;
    }
    if end == packet.len() {
        return Err("endereço OSC sem terminador".to_owned());
    }
    proof {
        assert(is_first_nul(packet@, end as int));
        let other = choose|e: int| is_first_nul(packet@, e);
        assert(other == end as int);
        assert(address_bytes(packet@) == packet@.take(end as int));
    }
    let bytes = vstd::slice::slice_subrange(packet, 0, end);
    assert(bytes@ == packet@.take(end as int));
    match str_from_utf8(bytes) {
        Some(address) => {
            proof {
                encode_utf8_decode_utf8(address@);
            }
            Ok(address)
        },
        None => Err("endereço OSC não é UTF-8".to_owned()),
    }
}

proof fn lemma_first_nul_exists(packet: Seq<u8>, i: int)
    requires
        0 <= i < packet.len(),
        packet[i] == 0,
    ensures
        exists|end: int| is_first_nul(packet, end),
    decreases i,
{
    if exists|j: int| 0 <= j < i && packet[j] == 0 {
        let j = choose|j: int| 0 <= j < i && packet[j] == 0;
        lemma_first_nul_exists(packet, j);
    } else {
        assert(is_first_nul(packet, i));
    }
}

/// What a decoded address is: its UTF-8 bytes open the packet, begin with
/// `/`, hold no NUL byte, and are followed in the packet by a NUL byte; and
/// a packet that opens with `/`, holds a NUL byte and has valid UTF-8
/// before it always decodes.
pub proof fn address_is_the_text_before_the_first_nul(packet: Seq<u8>)
    ensures
        spec_osc_address(packet) matches Ok(address) ==> {
            let bytes = encode_utf8(address);
            &&& bytes.len() < packet.len()
            &&& bytes == packet.take(bytes.len() as int)
            &&& bytes.len() > 0 && bytes[0] == OSC_SLASH
            &&& forall|i: int| 0 <= i < bytes.len() ==> bytes[i] != 0
            &&& packet[bytes.len() as int] == 0
        },
        packet.len() > 0 && packet[0] == OSC_SLASH && has_nul(packet) && valid_utf8(address_bytes(packet))
            ==> spec_osc_address(packet) is Ok,
        packet.len() == 0 || packet[0] != OSC_SLASH || !has_nul(packet) ==> spec_osc_address(packet) is Err,
{
    if has_nul(packet) {
        let i = choose|i: int| 0 <= i < packet.len() && packet[i] == 0;
        lemma_first_nul_exists(packet, i);
    }
    if spec_osc_address(packet) is Ok {
        let end = choose|e: int| is_first_nul(packet, e);
        decode_utf8_encode_utf8(address_bytes(packet));
        assert(address_bytes(packet) == packet.take(end));
        assert(end > 0);
    }
}

} // verus!

use crate::types::{Erc20Code, EthereumAddr};
use vstd::prelude::*;

verus! {

/// The marker that opens the bound data of every burn note: the ASCII text
/// "TRICAPE burn".
pub open spec fn burn_marker() -> Seq<u8> {
    seq![84u8, 82u8, 73u8, 67u8, 65u8, 80u8, 69u8, 32u8, 98u8, 117u8, 114u8, 110u8]
}

/// The bound data of a burn that pays out to `dst`: the marker, then the
/// twenty bytes of the address.
pub open spec fn burn_data_for(dst: EthereumAddr) -> Seq<u8> {
    burn_marker() + dst.bytes@
}

/// Whether `data` has the form of a burn's bound data.
pub open spec fn is_burn_data(data: Seq<u8>) -> bool {
    data.len() == 32 && data.subrange(0, 12) == burn_marker()
}

/// The bytes of the destination in bound data of that form.
pub open spec fn burn_destination_bytes(data: Seq<u8>) -> Seq<u8>
    recommends
        is_burn_data(data),
{
    data.subrange(12, 32)
}

/// The marker as bytes.
pub fn burn_magic_bytes() -> (marker: Vec<u8>)
    ensures
        marker@ == burn_marker(),
{
    let marker: Vec<u8> = vec![
        84u8, 82u8, 73u8, 67u8, 65u8, 80u8, 69u8, 32u8, 98u8, 117u8, 114u8, 110u8,
    ];
    assert(marker@ =~= burn_marker());
    marker
}

/// Encodes the destination of a burn as the data that the transfer's proof
/// is bound to.
pub fn burn_bound_data(dst: &EthereumAddr) -> (data: Vec<u8>)
    ensures
        data@ == burn_data_for(*dst),
{
    let mut data: Vec<u8> = burn_magic_bytes();
    let mut i: usize = 0;
    while i < 20
        invariant
            i <= 20,
            data@ == burn_marker() + dst.bytes@.subrange(0, i as int),
        decreases 20 - i,
    {
        data.push(dst.bytes[i]);
        assert(data@ =~= burn_marker() + dst.bytes@.subrange(0, i + 1));
        i += 1;
    }
    assert(dst.bytes@.subrange(0, 20) =~= dst.bytes@);
    data
}

/// Reads the destination back out of bound data. Data of any other form
/// belongs to an ordinary transfer and yields nothing.
pub fn parse_burn_bound_data(data: &[u8]) -> (dst: Option<EthereumAddr>)
    ensures
        dst is Some <==> is_burn_data(data@),
        dst is Some ==> dst->Some_0.bytes@ == burn_destination_bytes(data@),
{
    if data.len() != 32 {
        return None;
    }
    let marker = burn_magic_bytes();
    let mut i: usize = 0;
    while i < 12
        invariant
            i <= 12,
            data@.len() == 32,
            marker@ == burn_marker(),
            forall|j: int| 0 <= j < i ==> data@[j] == marker@[j],
        decreases 12 - i,
    {
        if data[i] != marker[i] {
            assert(data@.subrange(0, 12)[i as int] != burn_marker()[i as int]);
            return None;
        }
        i += 1;
    }
    assert(data@.subrange(0, 12) =~= burn_marker());
    let mut bytes: [u8; 20] = [0u8; 20];
    let mut k: usize = 0;
    while k < 20
        invariant
            k <= 20,
            data@.len() == 32,
            forall|j: int| 0 <= j < k ==> bytes@[j] == data@[12 + j],
        decreases 20 - k,
    {
        bytes[k] = data[12 + k];
        k += 1;
    }
    assert(bytes@ =~= burn_destination_bytes(data@));
    Some(EthereumAddr { bytes })
}

/// Bound data of a burn has the burn form, and the destination read back
/// from it is the one that was encoded, byte for byte.
pub proof fn lemma_burn_data_round_trip(dst: EthereumAddr)
    ensures
        is_burn_data(burn_data_for(dst)),
        burn_destination_bytes(burn_data_for(dst)) == dst.bytes@,
        burn_data_for(dst).len() == burn_marker().len() + 20,
{
    let data = burn_data_for(dst);
    assert(data.subrange(0, 12) =~= burn_marker());
    assert(data.subrange(12, 32) =~= dst.bytes@);
}

/// Two destinations with the same bound data are the same address.
pub proof fn lemma_burn_data_injective(a: EthereumAddr, b: EthereumAddr)
    requires
        burn_data_for(a) == burn_data_for(b),
    ensures
        a == b,
{
    lemma_burn_data_round_trip(a);
    lemma_burn_data_round_trip(b);
    assert(a.bytes =~= b.bytes);
}

/// The ASCII code of the hexadecimal digit, in lower case, of a value under
/// sixteen.
pub open spec fn hex_digit(value: u8) -> u8 {
    if value < 10 {
        (48 + value) as u8
    } else {
        (87 + value) as u8
    }
}

/// Bytes written in hexadecimal: two digits for each, the high one first.
pub open spec fn hex_of(bytes: Seq<u8>) -> Seq<u8> {
    Seq::new(
        2 * bytes.len(),
        |i: int|
            if i % 2 == 0 {
                hex_digit(bytes[i / 2] / 16)
            } else {
                hex_digit(bytes[i / 2] % 16)
            },
    )
}

/// The text that opens an asset description: "TRICAPE ERC20 ".
pub open spec fn description_head() -> Seq<u8> {
    seq![84u8, 82u8, 73u8, 67u8, 65u8, 80u8, 69u8, 32u8, 69u8, 82u8, 67u8, 50u8, 48u8, 32u8]
}

/// The text between token and sponsor: " sponsored by ".
pub open spec fn description_link() -> Seq<u8> {
    seq![
        32u8, 115u8, 112u8, 111u8, 110u8, 115u8, 111u8, 114u8, 101u8, 100u8, 32u8, 98u8, 121u8,
        32u8,
    ]
}

/// The description from which the code of a wrapping asset is derived: it
/// names the token and the sponsor, both in hexadecimal, in a frame that no
/// other derivation uses.
pub open spec fn asset_description(erc20_code: Erc20Code, sponsor: EthereumAddr) -> Seq<u8> {
    description_head() + hex_of(erc20_code.address.bytes@) + description_link() + hex_of(
        sponsor.bytes@,
    )
}

fn push_hex(out: &mut Vec<u8>, bytes: &[u8; 20])
    ensures
        final(out)@ == old(out)@ + hex_of(bytes@),
{
    let mut i: usize = 0;
    while i < 20
        invariant
            i <= 20,
            out@ == old(out)@ + hex_of(bytes@.subrange(0, i as int)),
        decreases 20 - i,
    {
        let b: u8 = bytes[i];
        let high: u8 = b / 16;
        let low: u8 = b % 16;
        out.push(if high < 10 { 48 + high } else { 87 + high });
        out.push(if low < 10 { 48 + low } else { 87 + low });
        proof {
            let before = hex_of(bytes@.subrange(0, i as int));
            let after = hex_of(bytes@.subrange(0, i + 1));
            assert(after =~= before + seq![hex_digit(high), hex_digit(low)]);
            assert(out@ =~= old(out)@ + after);
        }
        i += 1;
    }
    assert(bytes@.subrange(0, 20) =~= bytes@);
}

/// Writes the description of the asset that wraps `erc20_code` for
/// `sponsor`.
pub fn erc20_asset_description(erc20_code: &Erc20Code, sponsor: &EthereumAddr) -> (text: Vec<u8>)
    ensures
        text@ == asset_description(*erc20_code, *sponsor),
        text@.len() == 108,
{
    let mut text: Vec<u8> = vec![
        84u8, 82u8, 73u8, 67u8, 65u8, 80u8, 69u8, 32u8, 69u8, 82u8, 67u8, 50u8, 48u8, 32u8,
    ];
    assert(text@ =~= description_head());
    push_hex(&mut text, &erc20_code.address.bytes);
    let mut link: Vec<u8> = vec![
        32u8, 115u8, 112u8, 111u8, 110u8, 115u8, 111u8, 114u8, 101u8, 100u8, 32u8, 98u8, 121u8,
        32u8,
    ];
    assert(link@ =~= description_link());
    let ghost so_far = text@;
    text.append(&mut link);
    assert(text@ =~= so_far + description_link());
    push_hex(&mut text, &sponsor.bytes);
    text
}

/// Hexadecimal writing loses nothing: equal digits, equal bytes.
pub proof fn lemma_hex_injective(a: Seq<u8>, b: Seq<u8>)
    requires
        hex_of(a) == hex_of(b),
    ensures
        a == b,
{
    assert(a.len() == b.len()) by {
        assert(hex_of(a).len() == 2 * a.len());
        assert(hex_of(b).len() == 2 * b.len());
    }
    assert forall|k: int| 0 <= k < a.len() implies a[k] == b[k] by {
        assert((2 * k) % 2 == 0 && (2 * k) / 2 == k && (2 * k + 1) % 2 == 1 && (2 * k + 1) / 2
            == k);
        assert(hex_of(a)[2 * k] == hex_digit(a[k] / 16));
        assert(hex_of(b)[2 * k] == hex_digit(b[k] / 16));
        assert(hex_of(a)[2 * k + 1] == hex_digit(a[k] % 16));
        assert(hex_of(b)[2 * k + 1] == hex_digit(b[k] % 16));
        assert(hex_digit(a[k] / 16) == hex_digit(b[k] / 16));
        assert(hex_digit(a[k] % 16) == hex_digit(b[k] % 16));
    }
    assert(a =~= b);
}

/// Descriptions tell pairings apart: two that read the same name the same
/// token and the same sponsor.
pub proof fn lemma_description_injective(
    code_a: Erc20Code,
    sponsor_a: EthereumAddr,
    code_b: Erc20Code,
    sponsor_b: EthereumAddr,
)
    requires
        asset_description(code_a, sponsor_a) == asset_description(code_b, sponsor_b),
    ensures
        code_a == code_b,
        sponsor_a == sponsor_b,
{
    let a = asset_description(code_a, sponsor_a);
    let b = asset_description(code_b, sponsor_b);
    assert(a.subrange(14, 54) =~= hex_of(code_a.address.bytes@));
    assert(b.subrange(14, 54) =~= hex_of(code_b.address.bytes@));
    assert(a.subrange(68, 108) =~= hex_of(sponsor_a.bytes@));
    assert(b.subrange(68, 108) =~= hex_of(sponsor_b.bytes@));
    lemma_hex_injective(code_a.address.bytes@, code_b.address.bytes@);
    lemma_hex_injective(sponsor_a.bytes@, sponsor_b.bytes@);
    assert(code_a.address.bytes =~= code_b.address.bytes);
    assert(sponsor_a.bytes =~= sponsor_b.bytes);
}

} // verus!

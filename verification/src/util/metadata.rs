use crate::error::ContractError;
use crate::msg::{KeyType, MetadataAddress};
use crate::util::encoding::{
    base32_groups, bech32_encode, bech32_text, hex_decode, hrp_is_valid, is_lower_letter,
    is_upper_letter, lemma_hex_round_trip, to_base32, uuid_simple_lower,
};
use vstd::prelude::*;

verus! {

/// Every prefix of a kind of address is a valid human readable part.
pub proof fn lemma_prefix_is_valid(key_type: KeyType)
    ensures
        hrp_is_valid(key_type.prefix()),
{
    reveal_strlit("scope");
    reveal_strlit("session");
    reveal_strlit("record");
    reveal_strlit("contractspec");
    reveal_strlit("scopespec");
    reveal_strlit("recspec");
    let hrp = key_type.prefix();
    assert forall|i: int| 0 <= i < hrp.len() implies is_lower_letter(#[trigger] hrp[i]) by {}
    assert forall|j: int| 0 <= j < hrp.len() implies !is_upper_letter(#[trigger] hrp[j]) by {
        assert(is_lower_letter(hrp[j]));
    }
}

/// The Bech32 text of `bytes` under the prefix of `key_type`. It never fails:
/// every prefix is a valid human readable part.
pub fn encode_bech32(key_type: KeyType, bytes: &Vec<u8>) -> (r: Result<String, bech32::Error>)
    ensures
        r is Ok,
        r->Ok_0@ == bech32_text(key_type.prefix(), base32_groups(bytes@)),
{
    proof {
        lemma_prefix_is_valid(key_type);
    }
    bech32_encode(key_type.to_str(), to_base32(bytes))
}

/// The bytes of the address of the scope with the identifier `uuid`: the tag
/// of scopes, then the identifier.
pub open spec fn scope_bytes(uuid: Seq<u8>) -> Seq<u8> {
    seq![KeyType::Scope.tag()] + uuid
}

/// The address of the scope with the identifier `scope_uuid`, written under
/// the prefix of sessions.
pub fn scope(scope_uuid: [u8; 16]) -> (r: Result<MetadataAddress, ContractError>)
    ensures
        r is Ok,
        r->Ok_0.key_type == KeyType::Scope,
        r->Ok_0.bytes@ == scope_bytes(scope_uuid@),
        r->Ok_0.bech32@ == bech32_text(
            KeyType::Session.prefix(),
            base32_groups(scope_bytes(scope_uuid@)),
        ),
{
    let text = uuid_simple_lower(&scope_uuid);
    proof {
        lemma_hex_round_trip(scope_uuid@);
    }
    let mut decoded = match hex_decode(text.as_str()) {
        Ok(decoded) => decoded,
        Err(_) => vstd::pervasive::unreached(),
    };
    let mut bytes: Vec<u8> = Vec::new();
    bytes.push(KeyType::Scope.to_byte());
    bytes.append(&mut decoded);
    assert(bytes@ =~= scope_bytes(scope_uuid@));
    let addr = match encode_bech32(KeyType::Session, &bytes) {
        Ok(addr) => addr,
        Err(_) => vstd::pervasive::unreached(),
    };
    Ok(MetadataAddress { bech32: addr, bytes, key_type: KeyType::Scope })
}

} // verus!

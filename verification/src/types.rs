use vstd::prelude::*;

verus! {

/// Compares two byte arrays of one length, element by element.
pub fn bytes_match<const N: usize>(a: &[u8; N], b: &[u8; N]) -> (r: bool)
    ensures
        r == (*a == *b),
{
    let mut i: usize = 0;
    while i < N
        invariant
            i <= N,
            forall|j: int| 0 <= j < i ==> a[j] == b[j],
        decreases N - i,
    {
        if a[i] != b[i] {
            return false;
        }
        i += 1;
    }
    assert(*a =~= *b);
    true
}

/// An address on the public chain: twenty bytes.
#[derive(Clone, Copy, Debug, PartialEq, Eq, Hash)]
pub struct EthereumAddr {
    pub bytes: [u8; 20],
}

impl EthereumAddr {
    pub fn matches(&self, other: &EthereumAddr) -> (r: bool)
        ensures
            r == (*self == *other),
    {
        bytes_match(&self.bytes, &other.bytes)
    }
}

/// The identifier of a token contract on the public chain.
#[derive(Clone, Copy, Debug, PartialEq, Eq, Hash)]
pub struct Erc20Code {
    pub address: EthereumAddr,
}

impl Erc20Code {
    pub fn matches(&self, other: &Erc20Code) -> (r: bool)
        ensures
            r == (*self == *other),
    {
        self.address.matches(&other.address)
    }
}

/// The code of an asset type on the shielded ledger, as the ledger's
/// primitives derive it from a description.
#[derive(Clone, Copy, Debug, PartialEq, Eq, Hash)]
pub struct AssetCode {
    pub bytes: [u8; 32],
}

impl AssetCode {
    pub fn matches(&self, other: &AssetCode) -> (r: bool)
        ensures
            r == (*self == *other),
    {
        bytes_match(&self.bytes, &other.bytes)
    }
}

/// The viewing and freezing rules that a sponsor attaches to an asset type.
#[derive(Clone, Copy, Debug, PartialEq, Eq, Hash)]
pub struct AssetPolicy {
    pub auditor_key: [u8; 32],
    pub credential_key: [u8; 32],
    pub freezer_key: [u8; 32],
    pub reveal_map: u16,
    pub reveal_threshold: u64,
}

impl AssetPolicy {
    pub fn matches(&self, other: &AssetPolicy) -> (r: bool)
        ensures
            r == (*self == *other),
    {
        bytes_match(&self.auditor_key, &other.auditor_key)
            && bytes_match(&self.credential_key, &other.credential_key)
            && bytes_match(&self.freezer_key, &other.freezer_key)
            && self.reveal_map == other.reveal_map
            && self.reveal_threshold == other.reveal_threshold
    }
}

/// An asset type of the shielded ledger: its code and its policy.
#[derive(Clone, Copy, Debug, PartialEq, Eq, Hash)]
pub struct AssetDefinition {
    pub code: AssetCode,
    pub policy: AssetPolicy,
}

impl AssetDefinition {
    pub fn matches(&self, other: &AssetDefinition) -> (r: bool)
        ensures
            r == (*self == *other),
    {
        self.code.matches(&other.code) && self.policy.matches(&other.policy)
    }
}

/// The address by which an owner of shielded records is known.
#[derive(Clone, Copy, Debug, PartialEq, Eq, Hash)]
pub struct UserAddress {
    pub bytes: [u8; 32],
}

impl UserAddress {
    pub fn matches(&self, other: &UserAddress) -> (r: bool)
        ensures
            r == (*self == *other),
    {
        bytes_match(&self.bytes, &other.bytes)
    }
}

/// The public key of an owner: the address and the key that memos are
/// encrypted to.
#[derive(Clone, Copy, Debug, PartialEq, Eq, Hash)]
pub struct UserPubKey {
    pub address: UserAddress,
    pub enc_key: [u8; 32],
}

/// Whether a record is frozen.
#[derive(Clone, Copy, Debug, PartialEq, Eq, Hash)]
pub enum FreezeFlag {
    Unfrozen,
    Frozen,
}

/// The plaintext of a shielded record: what a commitment on the ledger hides.
#[derive(Clone, Copy, Debug, PartialEq, Eq, Hash)]
pub struct RecordOpening {
    pub amount: u64,
    pub asset_def: AssetDefinition,
    pub pub_key: UserPubKey,
    pub freeze_flag: FreezeFlag,
    pub blind: [u8; 32],
}

/// The registered backing of a shielded asset type: the public token and the
/// address that sponsored the pairing.
#[derive(Clone, Copy, Debug, PartialEq, Eq, Hash)]
pub struct Pairing {
    pub erc20_code: Erc20Code,
    pub sponsor: EthereumAddr,
}

/// What a bridge operation reports when it fails.
#[derive(Clone, Debug, PartialEq, Eq)]
pub enum WalletError {
    /// The ledger's primitives refuse the policy for the derived asset code;
    /// `msg` is their reason.
    CryptoError { msg: String },
    /// The asset definition already backs a public token.
    AssetAlreadyRegistered,
    /// The asset definition backs no public token.
    UnregisteredAsset,
    /// No public key is known for the owner's address.
    UnknownOwner,
    /// The backend failed for a reason of its own.
    Backend { msg: String },
}

} // verus!

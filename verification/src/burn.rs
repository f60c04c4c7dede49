use crate::encoding::{burn_bound_data, burn_data_for};
use crate::types::{
    AssetCode, Erc20Code, EthereumAddr, RecordOpening, UserAddress, WalletError,
};
use vstd::prelude::*;

verus! {

/// What the transfer builder is asked for.
#[derive(Clone, Debug, PartialEq, Eq)]
pub struct TransferRequest {
    pub account: UserAddress,
    pub asset: AssetCode,
    pub receivers: Vec<(UserAddress, u64)>,
    pub fee: u64,
    pub bound_data: Vec<u8>,
    pub shape: Option<(usize, usize)>,
}

/// What a transfer note shows in the clear.
#[derive(Clone, Debug, PartialEq, Eq)]
pub struct TransferNote {
    pub inputs_nullifiers: Vec<[u8; 32]>,
    pub output_commitments: Vec<[u8; 32]>,
    pub bound_data: Vec<u8>,
}

/// The kinds of transaction that a wallet's history tells apart.
#[derive(Clone, Copy, Debug, PartialEq, Eq, Hash)]
pub enum CapeTransactionKind {
    Send,
    Receive,
    Mint,
    Freeze,
    Unfreeze,
    Unknown,
    Burn,
    Wrap,
}

/// One line of a wallet's history.
#[derive(Clone, Debug, PartialEq, Eq)]
pub struct TransactionHistoryEntry {
    pub kind: CapeTransactionKind,
    pub asset: AssetCode,
    pub sender: Option<UserAddress>,
    pub receivers: Vec<(UserAddress, u64)>,
}

/// The key pair that a transfer is signed with, made for that transfer
/// alone; the memos of its outputs are signed with it too.
#[derive(Clone, Copy, Debug, PartialEq, Eq)]
pub struct SigKeyPair {
    pub public: [u8; 32],
    pub secret: [u8; 32],
}

/// What the transfer builder hands back.
#[derive(Clone, Debug, PartialEq, Eq)]
pub struct TransferInfo {
    pub owner_address: UserAddress,
    pub note: TransferNote,
    pub inputs: Vec<RecordOpening>,
    pub outputs: Vec<RecordOpening>,
    pub fee_output: Option<RecordOpening>,
    pub history: TransactionHistoryEntry,
    pub sig_keypair: SigKeyPair,
}

/// An encrypted memo that tells a receiver of a record.
#[derive(Clone, Debug, PartialEq, Eq)]
pub struct ReceiverMemo {
    pub bytes: Vec<u8>,
}

/// The signature over a set of memos.
#[derive(Clone, Copy, Debug, PartialEq, Eq)]
pub struct Signature {
    pub bytes: [u8; 64],
}

/// What the wallet keeps of a transaction that it has submitted.
#[derive(Clone, Debug, PartialEq, Eq)]
pub struct TransactionInfo {
    pub account: UserAddress,
    pub memos: Vec<ReceiverMemo>,
    pub sig: Signature,
    pub freeze_outputs: Vec<RecordOpening>,
    pub history: Option<TransactionHistoryEntry>,
    pub uid: Option<[u8; 32]>,
    pub inputs: Vec<RecordOpening>,
    pub outputs: Vec<RecordOpening>,
}

/// A transaction of the bridge's ledger.
#[derive(Clone, Debug, PartialEq, Eq)]
pub enum CapeTransaction {
    /// An ordinary shielded transfer.
    Transfer { xfr: TransferNote },
    /// A transfer that takes its first output out of the shielded pool; the
    /// record is shown in the clear.
    Burn { xfr: TransferNote, ro: RecordOpening },
}

/// A step of the bridge's ledger.
#[derive(Clone, Debug, PartialEq, Eq)]
pub enum CapeTransition {
    Transaction(CapeTransaction),
    Wrap { erc20_code: Erc20Code, src_addr: EthereumAddr, ro: RecordOpening },
}

impl TransferInfo {
    /// The form that a built burn has: two inputs, two outputs, and among
    /// them a record that returns the change of the fee.
    pub open spec fn is_burn_shaped(&self) -> bool {
        &&& self.fee_output is Some
        &&& self.note.inputs_nullifiers@.len() == 2
        &&& self.note.output_commitments@.len() == 2
        &&& self.outputs@.len() >= 1
    }

    /// Tests the form of a built burn.
    pub fn has_burn_shape(&self) -> (r: bool)
        ensures
            r == self.is_burn_shaped(),
    {
        self.fee_output.is_some() && self.note.inputs_nullifiers.len() == 2
            && self.note.output_commitments.len() == 2 && self.outputs.len() >= 1
    }
}

/// The request for the transfer that burns `amount` of `asset` from
/// `account`: two inputs and two outputs, the one receiver the account
/// itself (who receives is not read from a burn), and the proof bound to the
/// burn marker and the destination.
pub open spec fn is_burn_request(
    req: TransferRequest,
    account: UserAddress,
    dst_addr: EthereumAddr,
    asset: AssetCode,
    amount: u64,
    fee: u64,
) -> bool {
    &&& req.account == account
    &&& req.asset == asset
    &&& req.receivers@ == seq![(account, amount)]
    &&& req.fee == fee
    &&& req.bound_data@ == burn_data_for(dst_addr)
    &&& req.shape == Some((2usize, 2usize))
}

/// Builds the request for a burn's transfer.
pub fn burn_request(
    account: &UserAddress,
    dst_addr: &EthereumAddr,
    asset: &AssetCode,
    amount: u64,
    fee: u64,
) -> (req: TransferRequest)
    ensures
        is_burn_request(req, *account, *dst_addr, *asset, amount, fee),
{
    let mut receivers: Vec<(UserAddress, u64)> = Vec::new();
    receivers.push((*account, amount));
    assert(receivers@ =~= seq![(*account, amount)]);
    TransferRequest {
        account: *account,
        asset: *asset,
        receivers,
        fee,
        bound_data: burn_bound_data(dst_addr),
        shape: Some((2usize, 2usize)),
    }
}

/// The outputs of a built burn that get a memo: the change of the fee, and
/// nothing else, since the payout leaves the shielded pool.
pub fn burn_memo_outputs(xfr: &TransferInfo) -> (outputs: Vec<RecordOpening>)
    requires
        xfr.fee_output is Some,
    ensures
        outputs@ == seq![xfr.fee_output->Some_0],
{
    let mut outputs: Vec<RecordOpening> = Vec::new();
    match xfr.fee_output {
        Some(ro) => {
            outputs.push(ro);
        },
        None => {},
    }
    assert(outputs@ =~= seq![xfr.fee_output->Some_0]);
    outputs
}

/// What `burn_transition` makes of a built transfer, its memos and their
/// signature.
pub open spec fn is_burn_of(
    txn: CapeTransition,
    info: TransactionInfo,
    xfr: TransferInfo,
    memos: Vec<ReceiverMemo>,
    sig: Signature,
) -> bool {
    &&& txn == CapeTransition::Transaction(
        CapeTransaction::Burn { xfr: xfr.note, ro: xfr.outputs@[0] },
    )
    &&& info.account == xfr.owner_address
    &&& info.memos == memos
    &&& info.sig == sig
    &&& info.freeze_outputs@.len() == 0
    &&& info.history == Some(
        TransactionHistoryEntry {
            kind: CapeTransactionKind::Burn,
            asset: xfr.history.asset,
            sender: xfr.history.sender,
            receivers: xfr.history.receivers,
        },
    )
    &&& info.uid is None
    &&& info.inputs == xfr.inputs
    &&& info.outputs == xfr.outputs
}

/// Turns a built transfer into the burn that is submitted: the note and the
/// opening of its first output as the ledger's transaction, and the wallet's
/// record of it, its history marked as a burn.
pub fn burn_transition(xfr: TransferInfo, memos: Vec<ReceiverMemo>, sig: Signature) -> (out: (
    CapeTransition,
    TransactionInfo,
))
    requires
        xfr.is_burn_shaped(),
    ensures
        is_burn_of(out.0, out.1, xfr, memos, sig),
        out.0 matches CapeTransition::Transaction(CapeTransaction::Burn { xfr: note, .. })
            && note.inputs_nullifiers@.len() == 2 && note.output_commitments@.len() == 2,
        out.1.history matches Some(entry) && entry.kind == CapeTransactionKind::Burn,
{
    let ro = xfr.outputs[0];
    let mut history = xfr.history;
    history.kind = CapeTransactionKind::Burn;
    let info = TransactionInfo {
        account: xfr.owner_address,
        memos,
        sig,
        freeze_outputs: Vec::new(),
        history: Some(history),
        uid: None,
        inputs: xfr.inputs,
        outputs: xfr.outputs,
    };
    let txn = CapeTransition::Transaction(CapeTransaction::Burn { xfr: xfr.note, ro });
    (txn, info)
}

/// What a burn asks of its surroundings next, once the transfer builder or
/// the memo generator has answered.
#[derive(Clone, Debug, PartialEq, Eq)]
pub enum BurnStep {
    /// Generate memos for `outputs`, signed with the key pair of `xfr`;
    /// `xfr` is kept for the step after.
    GenerateMemos { outputs: Vec<RecordOpening>, xfr: TransferInfo },
    /// Submit `txn` to the ledger with the wallet's record `info`.
    Submit { txn: CapeTransition, info: TransactionInfo },
    /// The burn has failed; nothing more is to be done.
    Fail(WalletError),
}

/// The step after the transfer builder has answered: its failure ends the
/// burn unchanged, its transfer goes on to the memos for the fee's change.
pub fn burn_after_build(built: Result<TransferInfo, WalletError>) -> (step: BurnStep)
    requires
        built matches Ok(xfr) ==> xfr.fee_output is Some,
    ensures
        built matches Err(e) ==> step == BurnStep::Fail(e),
        built matches Ok(xfr) ==> (step matches BurnStep::GenerateMemos { outputs, xfr: kept }
            && kept == xfr && outputs@ == seq![xfr.fee_output->Some_0]),
{
    match built {
        Err(e) => BurnStep::Fail(e),
        Ok(xfr) => {
            let outputs = burn_memo_outputs(&xfr);
            BurnStep::GenerateMemos { outputs, xfr }
        },
    }
}

/// The step after the memo generator has answered: its failure ends the burn
/// unchanged, its memos go with the transfer into the burn that is
/// submitted.
pub fn burn_after_memos(
    xfr: TransferInfo,
    generated: Result<(Vec<ReceiverMemo>, Signature), WalletError>,
) -> (step: BurnStep)
    requires
        generated is Ok ==> xfr.is_burn_shaped(),
    ensures
        generated matches Err(e) ==> step == BurnStep::Fail(e),
        generated matches Ok(signed) ==> (step matches BurnStep::Submit { txn, info }
            && is_burn_of(txn, info, xfr, signed.0, signed.1)),
{
    match generated {
        Err(e) => BurnStep::Fail(e),
        Ok((memos, sig)) => {
            let (txn, info) = burn_transition(xfr, memos, sig);
            BurnStep::Submit { txn, info }
        },
    }
}

} // verus!

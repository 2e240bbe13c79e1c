//! Compliant confidential transfers: encrypted balances, transfer
//! records with range and compliance proofs, and the audit trail.
//!
//! The homomorphic balance arithmetic is byte-wise modular addition on
//! the encrypted representations; the proof systems behind the range and
//! compliance checks live outside this core.

use vstd::bytes::{spec_u64_to_le_bytes, u64_to_le_bytes};
use vstd::prelude::*;
use vstd::wrapping::u8_specs;
use crate::errors::ErrorCode;
use crate::sha256::{sha256_of, sha256_triple};
use crate::types::{bytes32_eq, Address, Digest32};

verus! {

/// Lifecycle of one confidential transfer.
#[derive(Clone, Copy, Debug, PartialEq, Eq, Structural)]
pub enum TransferStatus {
    Pending,
    Completed,
    Audited,
    Flagged,
}

/// Deployment configuration of the confidential transfer layer.
pub struct ConfidentialTransferConfig {
    pub enabled: bool,
    pub compliance_pubkey: Address,
    pub max_transfer_amount: u64,
    pub require_proof: bool,
    pub whitelisted_tokens: Vec<Address>,
}

/// One account's encrypted balance.
#[verifier::ext_equal]
pub struct ConfidentialBalance {
    pub owner: Address,
    pub mint: Address,
    pub encrypted_balance: [u8; 64],
    pub pending_balance: [u8; 64],
    pub decryptable_balance: u64,
    pub last_update: i64,
}

/// One confidential transfer and its proofs.
#[verifier::ext_equal]
pub struct ConfidentialTransferRecord {
    pub transfer_id: u64,
    pub sender: Address,
    pub recipient: Address,
    pub mint: Address,
    pub encrypted_amount: [u8; 64],
    pub range_proof: Vec<u8>,
    pub compliance_proof: Vec<u8>,
    pub auditor_data: Digest32,
    pub timestamp: i64,
    pub status: TransferStatus,
}

/// Byte-wise sum of two encrypted values, each byte modulo 256.
pub open spec fn encrypted_sum(a: Seq<u8>, b: Seq<u8>) -> Seq<u8>
    recommends
        a.len() == b.len(),
{
    Seq::new(a.len(), |i: int| u8_specs::wrapping_add(a[i], b[i]))
}

/// Byte-wise difference of two encrypted values, each byte modulo 256.
pub open spec fn encrypted_diff(a: Seq<u8>, b: Seq<u8>) -> Seq<u8>
    recommends
        a.len() == b.len(),
{
    Seq::new(a.len(), |i: int| u8_specs::wrapping_sub(a[i], b[i]))
}

/// Homomorphic addition of two encrypted 64-byte values.
pub fn add_encrypted_values(a: &[u8; 64], b: &[u8; 64]) -> (r: [u8; 64])
    ensures
        r@ == encrypted_sum(a@, b@),
{
    let mut result: [u8; 64] = [0u8; 64];
    let mut i: usize = 0;
    while i < 64
        invariant
            i <= 64,
            forall|j: int| 0 <= j < i ==> result@[j] == u8_specs::wrapping_add(a@[j], b@[j]),
        decreases 64 - i,
    {
        result[i] = a[i].wrapping_add(b[i]);
        i = i + 1;
    }
    assert(result@ =~= encrypted_sum(a@, b@));
    result
}

/// Homomorphic subtraction of two encrypted 64-byte values.
pub fn subtract_encrypted_values(a: &[u8; 64], b: &[u8; 64]) -> (r: [u8; 64])
    ensures
        r@ == encrypted_diff(a@, b@),
{
    let mut result: [u8; 64] = [0u8; 64];
    let mut i: usize = 0;
    while i < 64
        invariant
            i <= 64,
            forall|j: int| 0 <= j < i ==> result@[j] == u8_specs::wrapping_sub(a@[j], b@[j]),
        decreases 64 - i,
    {
        result[i] = a[i].wrapping_sub(b[i]);
        i = i + 1;
    }
    assert(result@ =~= encrypted_diff(a@, b@));
    result
}

/// Check that an encrypted amount lies in range. The range-proof system
/// is external; this check currently accepts, and callers rely on no
/// more.
pub fn verify_range_proof(range_proof: &[u8], encrypted_amount: &[u8; 64]) -> (r: Result<
    bool,
    ErrorCode,
>)
    ensures
        r == Ok::<bool, ErrorCode>(true),
{
    Ok(true)
}

/// Check a transfer's compliance proof. The proof system is external;
/// this check currently accepts, and callers rely on no more.
pub fn verify_compliance_proof(compliance_proof: &[u8]) -> (r: Result<bool, ErrorCode>)
    ensures
        r == Ok::<bool, ErrorCode>(true),
{
    Ok(true)
}

/// The auditor blob of a transfer: a digest binding the transfer id, the
/// encrypted amount and the compliance authority.
pub open spec fn auditor_data_of(
    transfer_id: u64,
    encrypted_amount: Seq<u8>,
    compliance_pubkey: Address,
) -> Seq<u8> {
    sha256_of(spec_u64_to_le_bytes(transfer_id) + encrypted_amount + compliance_pubkey@)
}

fn generate_auditor_data(
    transfer_id: u64,
    encrypted_amount: &[u8; 64],
    compliance_pubkey: Address,
) -> (r: Digest32)
    ensures
        r@ == auditor_data_of(transfer_id, encrypted_amount@, compliance_pubkey),
{
    let id_bytes = u64_to_le_bytes(transfer_id);
    sha256_triple(id_bytes.as_slice(), encrypted_amount.as_slice(), compliance_pubkey.as_slice())
}

/// Open a confidential transfer: validate its proofs against the
/// configuration and write the pending record, including the auditor
/// blob for the compliance authority.
pub fn initiate_confidential_transfer(
    config: &ConfidentialTransferConfig,
    sender: Address,
    sender_balance: &ConfidentialBalance,
    recipient_balance: &ConfidentialBalance,
    transfer_id: u64,
    encrypted_amount: [u8; 64],
    range_proof: Vec<u8>,
    compliance_proof: Vec<u8>,
    now: i64,
) -> (r: Result<ConfidentialTransferRecord, ErrorCode>)
    ensures
        r is Ok <==> config.enabled,
        r matches Ok(t) ==> {
            &&& t.transfer_id == transfer_id
            &&& t.sender == sender
            &&& t.recipient == recipient_balance.owner
            &&& t.mint == sender_balance.mint
            &&& t.encrypted_amount == encrypted_amount
            &&& t.range_proof@ == range_proof@
            &&& t.compliance_proof@ == compliance_proof@
            &&& t.auditor_data@ == auditor_data_of(
                transfer_id,
                encrypted_amount@,
                config.compliance_pubkey,
            )
            &&& t.timestamp == now
            &&& t.status == TransferStatus::Pending
        },
        r is Err ==> r == Err::<ConfidentialTransferRecord, ErrorCode>(
            ErrorCode::ConfidentialTransfersDisabled,
        ),
{
    if !config.enabled {
        return Err(ErrorCode::ConfidentialTransfersDisabled);
    }
    let range_ok = match verify_range_proof(range_proof.as_slice(), &encrypted_amount) {
        Ok(b) => b,
        Err(e) => {
            return Err(e);
        },
    };
    if !range_ok {
        return Err(ErrorCode::InvalidRangeProof);
    }
    if config.require_proof {
        let compliance_ok = match verify_compliance_proof(compliance_proof.as_slice()) {
            Ok(b) => b,
            Err(e) => {
                return Err(e);
            },
        };
        if !compliance_ok {
            return Err(ErrorCode::InvalidComplianceProof);
        }
    }
    let auditor_data = generate_auditor_data(transfer_id, &encrypted_amount, config.compliance_pubkey);
    Ok(
        ConfidentialTransferRecord {
            transfer_id,
            sender,
            recipient: recipient_balance.owner,
            mint: sender_balance.mint,
            encrypted_amount,
            range_proof,
            compliance_proof,
            auditor_data,
            timestamp: now,
            status: TransferStatus::Pending,
        },
    )
}

/// Apply a pending transfer to both balances homomorphically and mark it
/// completed. Fails, changing nothing, unless the transfer is pending.
pub fn apply_confidential_transfer(
    transfer: &mut ConfidentialTransferRecord,
    sender_balance: &mut ConfidentialBalance,
    recipient_balance: &mut ConfidentialBalance,
    now: i64,
) -> (r: Result<(), ErrorCode>)
    ensures
        r is Ok <==> old(transfer).status == TransferStatus::Pending,
        r matches Ok(()) ==> {
            &&& *final(transfer) == (ConfidentialTransferRecord {
                status: TransferStatus::Completed,
                ..*old(transfer)
            })
            &&& final(sender_balance).encrypted_balance@ == encrypted_diff(
                old(sender_balance).encrypted_balance@,
                old(transfer).encrypted_amount@,
            )
            &&& final(recipient_balance).encrypted_balance@ == encrypted_sum(
                old(recipient_balance).encrypted_balance@,
                old(transfer).encrypted_amount@,
            )
            &&& *final(sender_balance) == (ConfidentialBalance {
                encrypted_balance: final(sender_balance).encrypted_balance,
                last_update: now,
                ..*old(sender_balance)
            })
            &&& *final(recipient_balance) == (ConfidentialBalance {
                encrypted_balance: final(recipient_balance).encrypted_balance,
                last_update: now,
                ..*old(recipient_balance)
            })
        },
        r is Err ==> {
            &&& *final(transfer) == *old(transfer)
            &&& *final(sender_balance) == *old(sender_balance)
            &&& *final(recipient_balance) == *old(recipient_balance)
            &&& r == Err::<(), ErrorCode>(ErrorCode::TransferNotPending)
        },
{
    if !matches!(transfer.status, TransferStatus::Pending) {
        return Err(ErrorCode::TransferNotPending);
    }
    sender_balance.encrypted_balance = subtract_encrypted_values(
        &sender_balance.encrypted_balance,
        &transfer.encrypted_amount,
    );
    recipient_balance.encrypted_balance = add_encrypted_values(
        &recipient_balance.encrypted_balance,
        &transfer.encrypted_amount,
    );
    sender_balance.last_update = now;
    recipient_balance.last_update = now;
    transfer.status = TransferStatus::Completed;
    Ok(())
}

/// Audit a transfer: only the compliance authority may, and the status
/// becomes `Flagged` or `Audited` as it decides.
pub fn audit_transfer(
    transfer: &mut ConfidentialTransferRecord,
    config: &ConfidentialTransferConfig,
    compliance_officer: Address,
    flag: bool,
) -> (r: Result<(), ErrorCode>)
    ensures
        r is Ok <==> compliance_officer == config.compliance_pubkey,
        r matches Ok(()) ==> *final(transfer) == (ConfidentialTransferRecord {
            status: if flag {
                TransferStatus::Flagged
            } else {
                TransferStatus::Audited
            },
            ..*old(transfer)
        }),
        r is Err ==> *final(transfer) == *old(transfer) && r == Err::<(), ErrorCode>(
            ErrorCode::Unauthorized,
        ),
{
    if !bytes32_eq(&compliance_officer, &config.compliance_pubkey) {
        return Err(ErrorCode::Unauthorized);
    }
    assert(compliance_officer =~= config.compliance_pubkey);
    transfer.status = if flag {
        TransferStatus::Flagged
    } else {
        TransferStatus::Audited
    };
    Ok(())
}

} // verus!

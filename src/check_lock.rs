//! The certificate-check lock predicate: a cell guarded by it can be spent
//! only together with a certificate.

use vstd::prelude::*;
use crate::cell::{has_type_code, input_cells, input_with_type_code, Transaction, TransactionModel};
use crate::protocol::ProtocolCodes;

verus! {

/// Why the certificate-check lock rejects a transaction.
#[derive(Debug, Clone, Copy, PartialEq, Eq, Structural)]
pub enum CheckLockError {
    /// No input carries the certificate type.
    NoDaoCertificateFound,
}

/// Whether some input of the transaction is a certificate.
pub open spec fn spends_certificate(tx: TransactionModel, certificate_type: Seq<u8>) -> bool {
    exists|i: int|
        0 <= i < input_cells(tx).len() && has_type_code(
            #[trigger] input_cells(tx)[i],
            certificate_type,
        )
}

/// The certificate-check lock predicate.
pub fn verify_certificate_check(tx: &Transaction, codes: &ProtocolCodes) -> (r: Result<
    (),
    CheckLockError,
>)
    ensures
        r is Ok <==> spends_certificate(tx@, codes@.certificate_type),
        r is Err ==> r == Err::<(), CheckLockError>(CheckLockError::NoDaoCertificateFound),
{
    let found = input_with_type_code(tx, &codes.certificate_type);
    proof {
        crate::cell::lemma_find_type_code(input_cells(tx@), codes@.certificate_type, 0);
    }
    match found {
        Some(i) => {
            assert(has_type_code(input_cells(tx@)[i as int], codes@.certificate_type));
            Ok(())
        },
        None => Err(CheckLockError::NoDaoCertificateFound),
    }
}

} // verus!

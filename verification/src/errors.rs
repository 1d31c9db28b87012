use vstd::prelude::*;

verus! {

/// One variant for each way a seal or open operation can fail, so callers
/// can branch on the failure kind instead of matching message strings.
#[derive(Clone, Copy, Debug, PartialEq, Eq, Structural)]
pub enum SealError {
    /// Key material has the wrong length for the configured parameter set.
    KeyFormat,
    /// A cryptographic or compression primitive failed internally.
    CryptoOperation,
    /// AEAD tag mismatch: the ciphertext was corrupted or the key is wrong.
    Authentication,
    /// The signature does not validate: the message was tampered with or the
    /// verification key does not belong to the signer.
    SignatureInvalid,
    /// An envelope could not be deserialized.
    MalformedEnvelope,
    /// The compressed payload is corrupted.
    Decompression,
}

impl SealError {
    /// The exact text `message` returns for each failure kind.
    pub open spec fn spec_message(self) -> Seq<char> {
        match self {
            SealError::KeyFormat => "key material has the wrong length or cannot be used"@,
            SealError::CryptoOperation => "a cryptographic primitive failed internally"@,
            SealError::Authentication => "authentication failed: ciphertext corrupted or wrong key"@,
            SealError::SignatureInvalid => "signature invalid: message tampered or wrong signer key"@,
            SealError::MalformedEnvelope => "envelope is structurally malformed"@,
            SealError::Decompression => "compressed payload is corrupted"@,
        }
    }

    /// A human-readable description, distinct for each failure kind.
    pub fn message(&self) -> (r: &'static str)
        ensures
            r@ == self.spec_message(),
    {
        match self {
            SealError::KeyFormat => "key material has the wrong length or cannot be used",
            SealError::CryptoOperation => "a cryptographic primitive failed internally",
            SealError::Authentication => "authentication failed: ciphertext corrupted or wrong key",
            SealError::SignatureInvalid => "signature invalid: message tampered or wrong signer key",
            SealError::MalformedEnvelope => "envelope is structurally malformed",
            SealError::Decompression => "compressed payload is corrupted",
        }
    }
}

/// Law: distinct failure kinds carry distinct messages, so an operator can
/// tell a wrong key from a tampered file from corrupted storage.
pub proof fn lemma_messages_distinct(a: SealError, b: SealError)
    requires
        a != b,
    ensures
        a.spec_message() != b.spec_message(),
{
    reveal_strlit("key material has the wrong length or cannot be used");
    reveal_strlit("a cryptographic primitive failed internally");
    reveal_strlit("authentication failed: ciphertext corrupted or wrong key");
    reveal_strlit("signature invalid: message tampered or wrong signer key");
    reveal_strlit("envelope is structurally malformed");
    reveal_strlit("compressed payload is corrupted");
    // The six texts already differ in length.
    assert("key material has the wrong length or cannot be used"@.len() == 51);
    assert("a cryptographic primitive failed internally"@.len() == 43);
    assert("authentication failed: ciphertext corrupted or wrong key"@.len() == 56);
    assert("signature invalid: message tampered or wrong signer key"@.len() == 55);
    assert("envelope is structurally malformed"@.len() == 34);
    assert("compressed payload is corrupted"@.len() == 31);
}

} // verus!

//! Organization keys, sealed so that one user alone can open them.
use vstd::prelude::*;
use vstd::utf8::encode_utf8;

use crate::base64::{
    base64_decode, base64_decoded, base64_encode, base64_encoded, decodable, decodes_to, encodable,
    encoded_len,
};
use crate::error::{result_view, SsoError};
use crate::text::joined;

verus! {

/// Where RSA gave up, with its complaint: the public key could not be read, it is not a
/// key of RSA, or the data could not be encrypted under it.
#[derive(Debug, PartialEq, Eq)]
pub enum RsaFailure {
    NotParsed(String),
    NotRsa(String),
    NotEncrypted(String),
}

/// Every private key that belongs to the public key opens `sealed`, by RSA with OAEP
/// padding, and finds `data`.
pub uninterp spec fn rsa_oaep_sealed(
    public_key_der: Seq<u8>,
    data: Seq<u8>,
    sealed: Seq<u8>,
) -> bool;

/// `PKey::public_key_from_der` can give up on the bytes with the complaint.
pub uninterp spec fn key_not_parsed(public_key_der: Seq<u8>, complaint: Seq<char>) -> bool;

/// `PKey::rsa` can give up on the key in the bytes with the complaint.
pub uninterp spec fn key_not_rsa(public_key_der: Seq<u8>, complaint: Seq<char>) -> bool;

/// `RsaRef::public_encrypt` can give up on the data under the key with the complaint.
pub uninterp spec fn data_not_encrypted(
    public_key_der: Seq<u8>,
    data: Seq<u8>,
    complaint: Seq<char>,
) -> bool;

/// The size of the modulus of the key in the bytes, in bytes, as `RsaRef::size` gives it.
pub uninterp spec fn modulus_len(public_key_der: Seq<u8>) -> u32;

/// Seals data under a public key: a buffer, and how many of its bytes were written.
///
/// Calls `openssl::rsa::RsaRef::public_encrypt` with the padding `PKCS1_OAEP`, on the key
/// that `PKey::public_key_from_der` and `PKey::rsa` read from the bytes and on a buffer
/// of `RsaRef::size` bytes, the size of its modulus. That all of them are written is not
/// claimed. The padding is random, so of the bytes only this is known,
/// that a private key for it opens them and finds the data. Which keys are taken is up to
/// the OpenSSL that is linked, so of a failure only this is known, which of the three gave
/// up, and on what. It takes no more than `i32::MAX` bytes.
#[verifier::external_body]
fn rsa_oaep_encrypt(public_key_der: &[u8], data: &[u8]) -> (attempt: Result<
    (Vec<u8>, usize),
    RsaFailure,
>)
    requires
        data.len() <= i32::MAX,
    ensures
        attempt matches Ok((buffer, len)) ==> len <= buffer.len() && rsa_oaep_sealed(
            public_key_der@,
            data@,
            buffer@.take(len as int),
        ) && buffer.len() == modulus_len(public_key_der@),
        attempt matches Err(RsaFailure::NotParsed(complaint)) ==> key_not_parsed(
            public_key_der@,
            complaint@,
        ),
        attempt matches Err(RsaFailure::NotRsa(complaint)) ==> key_not_rsa(
            public_key_der@,
            complaint@,
        ),
        attempt matches Err(RsaFailure::NotEncrypted(complaint)) ==> data_not_encrypted(
            public_key_der@,
            data@,
            complaint@,
        ),
{
    let key = openssl::pkey::PKey::public_key_from_der(public_key_der)
        .map_err(|complaint| RsaFailure::NotParsed(complaint.to_string()))?;
    let rsa = key.rsa().map_err(|complaint| RsaFailure::NotRsa(complaint.to_string()))?;
    let mut buffer = vec![0; rsa.size() as usize];
    rsa.public_encrypt(data, &mut buffer, openssl::rsa::Padding::PKCS1_OAEP)
        .map(|len| (buffer, len))
        .map_err(|complaint| RsaFailure::NotEncrypted(complaint.to_string()))
}

/// How a sealed key is written: the mark of RSA with OAEP and SHA-1, and base64.
pub open spec fn cipher_string(sealed: Seq<u8>) -> Seq<char> {
    "4."@ + base64_encoded(sealed)
}

/// The bytes of a buffer that were written.
pub open spec fn written(buffer: Seq<u8>, len: usize) -> Seq<u8> {
    if len <= buffer.len() {
        buffer.take(len as int)
    } else {
        buffer
    }
}

/// What becomes of an attempt to seal.
pub open spec fn sealing_of(attempt: Result<(Vec<u8>, usize), RsaFailure>) -> Result<
    Seq<char>,
    SsoError<Seq<char>>,
> {
    match attempt {
        Ok((buffer, len)) => {
            if encodable(written(buffer@, len)) {
                Ok(cipher_string(written(buffer@, len)))
            } else {
                Err(SsoError::TooLong)
            }
        },
        Err(RsaFailure::NotParsed(complaint)) => Err(SsoError::PublicKeyNotParsed(complaint@)),
        Err(RsaFailure::NotRsa(complaint)) => Err(SsoError::PublicKeyNotRsa(complaint@)),
        Err(RsaFailure::NotEncrypted(complaint)) => Err(SsoError::OrgKeyNotEncrypted(complaint@)),
    }
}

/// The text is a sealed key, which its base64 gives back, and which the private key that
/// belongs to the public key opens to find the organization key. For each three bytes that
/// are begun it has four characters, behind the mark, and there are no more bytes than the
/// modulus of the public key has.
pub open spec fn opens_to(text: Seq<char>, public_key_der: Seq<u8>, org_key: Seq<u8>) -> bool {
    exists|sealed: Seq<u8>|
        {
            &&& text == #[trigger] cipher_string(sealed)
            &&& decodes_to(base64_encoded(sealed), sealed)
            &&& rsa_oaep_sealed(public_key_der, org_key, sealed)
            &&& text.len() == 2 + encoded_len(sealed.len())
            &&& sealed.len() <= modulus_len(public_key_der)
        }
}

/// The organization key can be sealed to more bytes than base64 can be written of.
pub open spec fn seals_too_long(public_key_der: Seq<u8>, org_key: Seq<u8>) -> bool {
    exists|sealed: Seq<u8>|
        #[trigger] rsa_oaep_sealed(public_key_der, org_key, sealed) && !encodable(sealed)
}

/// What can come of sealing an organization key for the user with the public key.
pub open spec fn sealing_outcome(
    org_key: Seq<u8>,
    user_public_key: Seq<char>,
    outcome: Result<Seq<char>, SsoError<Seq<char>>>,
) -> bool {
    match (base64_decoded(encode_utf8(user_public_key)), outcome) {
        (Err(complaint), _) => outcome == Err::<Seq<char>, _>(
            SsoError::PublicKeyNotBase64(complaint),
        ),
        (Ok(public_key_der), Ok(text)) => opens_to(text, public_key_der, org_key),
        (Ok(public_key_der), Err(SsoError::PublicKeyNotParsed(complaint))) => key_not_parsed(
            public_key_der,
            complaint,
        ),
        (Ok(public_key_der), Err(SsoError::PublicKeyNotRsa(complaint))) => key_not_rsa(
            public_key_der,
            complaint,
        ),
        (Ok(public_key_der), Err(SsoError::OrgKeyNotEncrypted(complaint))) => data_not_encrypted(
            public_key_der,
            org_key,
            complaint,
        ),
        (Ok(public_key_der), Err(SsoError::TooLong)) => seals_too_long(public_key_der, org_key),
        (Ok(_), Err(_)) => false,
    }
}

/// The text of a sealed key, or why there is none, given what came of the attempt.
pub fn sealed_key(attempt: Result<(Vec<u8>, usize), RsaFailure>) -> (text: Result<
    String,
    SsoError,
>)
    ensures
        result_view(text) == sealing_of(attempt),
        text is Ok ==> attempt is Ok && decodes_to(
            base64_encoded(written(attempt->Ok_0.0@, attempt->Ok_0.1)),
            written(attempt->Ok_0.0@, attempt->Ok_0.1),
        ) && text->Ok_0@.len() == 2 + encoded_len(
            written(attempt->Ok_0.0@, attempt->Ok_0.1).len(),
        ),
{
    proof {
        reveal_strlit("4.");
    }
    match attempt {
        Ok((buffer, len)) => {
            let mut sealed = buffer;
            sealed.truncate(len);
            if sealed.len() > usize::MAX / 512 {
                return Err(SsoError::TooLong);
            }
            assert(sealed@ =~= written(attempt->Ok_0.0@, attempt->Ok_0.1));
            Ok(joined("4.", &base64_encode(sealed.as_slice())))
        },
        Err(RsaFailure::NotParsed(complaint)) => Err(SsoError::PublicKeyNotParsed(complaint)),
        Err(RsaFailure::NotRsa(complaint)) => Err(SsoError::PublicKeyNotRsa(complaint)),
        Err(RsaFailure::NotEncrypted(complaint)) => Err(SsoError::OrgKeyNotEncrypted(complaint)),
    }
}

/// Seals an organization key for the user with the public key, which is base64 of DER.
pub fn encrypt_org_key_for_user(org_key: &[u8], user_public_key: &str) -> (text: Result<
    String,
    SsoError,
>)
    requires
        org_key.len() <= i32::MAX,
        decodable(encode_utf8(user_public_key@)),
    ensures
        sealing_outcome(org_key@, user_public_key@, result_view(text)),
{
    match base64_decode(user_public_key.as_bytes()) {
        Ok(public_key_der) => {
            let attempt = rsa_oaep_encrypt(public_key_der.as_slice(), org_key);
            let text = sealed_key(attempt);
            proof {
                if attempt is Ok {
                    let sealed = written(attempt->Ok_0.0@, attempt->Ok_0.1);
                    assert(rsa_oaep_sealed(public_key_der@, org_key@, sealed));
                    if text is Ok {
                        assert(text->Ok_0@ == cipher_string(sealed));
                    } else {
                        assert(seals_too_long(public_key_der@, org_key@));
                    }
                }
            }
            text
        },
        Err(complaint) => Err(SsoError::PublicKeyNotBase64(complaint)),
    }
}

/// A sealed key is no longer than the modulus of the key that it is sealed under, written
/// in base64 behind the mark.
pub proof fn law_sealed_key_is_bounded(
    text: Seq<char>,
    public_key_der: Seq<u8>,
    org_key: Seq<u8>,
)
    requires
        opens_to(text, public_key_der, org_key),
    ensures
        text.len() <= 2 + encoded_len(modulus_len(public_key_der) as nat),
{
}

/// What comes of an attempt to seal: the bytes that were written, in base64 behind the mark,
/// or the failure of the call that gave up, with its complaint.
pub proof fn law_attempt_is_written_down(attempt: Result<(Vec<u8>, usize), RsaFailure>)
    ensures
        attempt matches Ok((buffer, len)) ==> {
            let sealed = if len <= buffer@.len() {
                buffer@.subrange(0, len as int)
            } else {
                buffer@
            };
            &&& sealed.len() <= usize::MAX / 512 ==> sealing_of(attempt) == Ok::<
                _,
                SsoError<Seq<char>>,
            >("4."@ + base64_encoded(sealed))
            &&& sealed.len() > usize::MAX / 512 ==> sealing_of(attempt) == Err::<
                Seq<char>,
                SsoError<Seq<char>>,
            >(SsoError::TooLong)
        },
        attempt matches Err(RsaFailure::NotParsed(complaint)) ==> sealing_of(attempt) == Err::<
            Seq<char>,
            _,
        >(SsoError::PublicKeyNotParsed(complaint@)),
        attempt matches Err(RsaFailure::NotRsa(complaint)) ==> sealing_of(attempt) == Err::<
            Seq<char>,
            _,
        >(SsoError::PublicKeyNotRsa(complaint@)),
        attempt matches Err(RsaFailure::NotEncrypted(complaint)) ==> sealing_of(attempt) == Err::<
            Seq<char>,
            _,
        >(SsoError::OrgKeyNotEncrypted(complaint@)),
{
}

/// A sealed key is the mark and the base64 of bytes that a private key for the user's public
/// key opens to find the organization key, and nothing else is one; for a public key that is
/// not base64 there is none.
pub proof fn law_sealed_key_opens(
    org_key: Seq<u8>,
    user_public_key: Seq<char>,
    text: Seq<char>,
    error: SsoError<Seq<char>>,
)
    ensures
        sealing_outcome(org_key, user_public_key, Ok(text)) ==> exists|sealed: Seq<u8>|
            {
                &&& base64_decoded(encode_utf8(user_public_key)) is Ok
                &&& #[trigger] rsa_oaep_sealed(
                    base64_decoded(encode_utf8(user_public_key))->Ok_0,
                    org_key,
                    sealed,
                )
                &&& text == "4."@ + base64_encoded(sealed)
                &&& base64_decoded(encode_utf8(base64_encoded(sealed))) == Ok::<_, Seq<char>>(
                    sealed,
                )
                &&& text.len() == 2 + 4 * ((sealed.len() + 2) / 3)
                &&& sealed.len() <= modulus_len(
                    base64_decoded(encode_utf8(user_public_key))->Ok_0,
                )
            },
        base64_decoded(encode_utf8(user_public_key)) matches Err(complaint) ==> !sealing_outcome(
            org_key,
            user_public_key,
            Ok(text),
        ) && (sealing_outcome(org_key, user_public_key, Err(error)) <==> error
            == SsoError::PublicKeyNotBase64(complaint)),
        base64_decoded(encode_utf8(user_public_key)) matches Ok(der) ==> (sealing_outcome(
            org_key,
            user_public_key,
            Err(error),
        ) ==> match error {
            SsoError::PublicKeyNotParsed(complaint) => key_not_parsed(der, complaint),
            SsoError::PublicKeyNotRsa(complaint) => key_not_rsa(der, complaint),
            SsoError::OrgKeyNotEncrypted(complaint) => data_not_encrypted(der, org_key, complaint),
            SsoError::TooLong => exists|sealed: Seq<u8>|
                #[trigger] rsa_oaep_sealed(der, org_key, sealed) && sealed.len() > usize::MAX / 512,
            _ => false,
        }),
{
    if sealing_outcome(org_key, user_public_key, Ok(text)) {
        let der = base64_decoded(encode_utf8(user_public_key))->Ok_0;
        assert(opens_to(text, der, org_key));
        let sealed = choose|sealed: Seq<u8>|
            {
                &&& text == #[trigger] cipher_string(sealed)
                &&& decodes_to(base64_encoded(sealed), sealed)
                &&& rsa_oaep_sealed(der, org_key, sealed)
                &&& text.len() == 2 + encoded_len(sealed.len())
                &&& sealed.len() <= modulus_len(der)
            };
        assert(rsa_oaep_sealed(der, org_key, sealed));
    }
}

} // verus!

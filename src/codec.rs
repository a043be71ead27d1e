//! Passphrase encryption of a secret into an age envelope, and its inverse.

use vstd::prelude::*;
use vstd::string::*;

use age::secrecy::SecretString;

use crate::text::{decimal, push_decimal};

verus! {

/// The scrypt work factor (log2 of N) used for documents: about a second of
/// work on a current machine.
pub const WORK_FACTOR: u8 = 18;

/// The largest work factor that decryption accepts by default.
pub const MAX_WORK_FACTOR: u8 = 22;

/// The first line of every age envelope: `age-encryption.org/v1` and a newline.
pub open spec fn envelope_header_line() -> Seq<u8> {
    seq![97u8, 103u8, 101u8, 45u8, 101u8, 110u8, 99u8, 114u8, 121u8, 112u8, 116u8, 105u8, 111u8, 110u8, 46u8, 111u8, 114u8, 103u8, 47u8, 118u8, 49u8, 10u8]
}

/// An encryption work factor that scrypt accepts with age's parameters
/// (`r = 8`): `N = 2^log_n` with `0 < log_n` and `1024 * N` within a 64-bit
/// `usize`, that is `log_n < 54`.
pub open spec fn valid_work_factor(log_n: u8) -> bool {
    0 < log_n < 54
}

/// The number of payload chunks of 64 KiB: at least one, also for an empty
/// plaintext.
pub open spec fn chunk_count(plaintext_len: nat) -> nat {
    if plaintext_len == 0 {
        1
    } else {
        ((plaintext_len + 65535) / 65536) as nat
    }
}

/// The length of the header of an envelope with one scrypt stanza: the
/// version line (22), the stanza line `-> scrypt <salt> <log_n>` (34 and the
/// digits of the work factor), its wrapped body (44) and the MAC line (48).
pub open spec fn header_len(work_factor: u8) -> nat {
    if work_factor < 10 {
        149
    } else {
        150
    }
}

/// The exact length of an envelope: header, 16-byte nonce, then the
/// plaintext with a 16-byte tag for each chunk.
pub open spec fn envelope_len(plaintext_len: nat, work_factor: u8) -> nat {
    header_len(work_factor) + 16 + plaintext_len + 16 * chunk_count(plaintext_len)
}

/// An envelope of a plaintext under a passphrase and work factor: it has the
/// exact length and header line, and age gives the plaintext back from it
/// with the passphrase wherever at least that work factor is accepted.
pub open spec fn is_envelope_of(
    envelope: Seq<u8>,
    plaintext: Seq<u8>,
    passphrase: Seq<char>,
    work_factor: u8,
) -> bool {
    &&& envelope.len() == envelope_len(plaintext.len(), work_factor)
    &&& envelope.take(22) == envelope_header_line()
    &&& forall|m: u8|
        work_factor <= m ==> #[trigger] age_plaintext(envelope, passphrase, m) == Some(plaintext)
}

/// Why a secret could not be encrypted.
#[derive(Debug, PartialEq, Eq)]
pub enum EncryptionError {
    /// The work factor is outside the range that scrypt accepts.
    InvalidWorkFactor { work_factor: u8 },
}

/// The message that describes an encryption error.
pub open spec fn encryption_error_text(e: EncryptionError) -> Seq<char> {
    match e {
        EncryptionError::InvalidWorkFactor { work_factor } => "work factor "@ + decimal(
            work_factor as nat,
        ) + " is outside 1 to 53"@,
    }
}

impl EncryptionError {
    /// A human-readable message.
    pub fn message(&self) -> (r: String)
        ensures
            r@ == encryption_error_text(*self),
    {
        proof {
            reveal_strlit("work factor ");
            reveal_strlit(" is outside 1 to 53");
        }
        match self {
            EncryptionError::InvalidWorkFactor { work_factor } => {
                let mut r = String::from_str("work factor ");
                push_decimal(&mut r, *work_factor as u64);
                r.append(" is outside 1 to 53");
                r
            },
        }
    }
}

/// The plaintext of an envelope under a passphrase, accepting work factors up
/// to the given one, as age decrypts it, or `None` where age refuses it.
pub uninterp spec fn age_plaintext(envelope: Seq<u8>, passphrase: Seq<char>, max_work_factor: u8) -> Option<Seq<u8>>;

/// Relies on age's `scrypt::Recipient` (with `set_work_factor`),
/// `Encryptor::with_recipients`, `Encryptor::wrap_output`, writing to the
/// `StreamWriter` and `StreamWriter::finish`. With one scrypt recipient and a
/// `Vec` to write to, none of them fails. The result is an age v1 file: the
/// header of `header_len` bytes starting with the version line, a 16-byte
/// nonce, then each chunk of at most 64 KiB with its 16-byte tag, the last one
/// written by `finish` even when empty. Decrypting it with the passphrase
/// gives the plaintext back wherever the work factor is accepted.
#[verifier::external_body]
fn age_encrypt(plaintext: &[u8], passphrase: &str, work_factor: u8) -> (r: Vec<u8>)
    requires
        valid_work_factor(work_factor),
    ensures
        is_envelope_of(r@, plaintext@, passphrase@, work_factor),
{
    let mut recipient = age::scrypt::Recipient::new(SecretString::from(passphrase));
    recipient.set_work_factor(work_factor);
    let recipients = std::iter::once(&recipient as &dyn age::Recipient);
    let encryptor = age::Encryptor::with_recipients(recipients).expect("one scrypt recipient");
    let mut out = Vec::new();
    let mut writer = encryptor.wrap_output(&mut out).expect("writing to a Vec");
    std::io::Write::write_all(&mut writer, plaintext).expect("writing to a Vec");
    writer.finish().expect("writing to a Vec");
    out
}

/// Relies on age's `Decryptor::new_buffered`, `Decryptor::decrypt` with one
/// `scrypt::Identity` (with `set_max_work_factor`), and reading the returned
/// stream to its end: the plaintext, or the reason age refused the envelope
/// (in its `Debug` form: the `Display` of `DecryptError::ExcessiveWork`
/// overflows where the required work factor is below this machine's target).
#[verifier::external_body]
fn age_decrypt(envelope: &[u8], passphrase: &str, max_work_factor: u8) -> (r: Result<Vec<u8>, String>)
    ensures
        age_plaintext(envelope@, passphrase@, max_work_factor) == match r {
            Ok(p) => Some(p@),
            Err(_) => None::<Seq<u8>>,
        },
{
    let mut identity = age::scrypt::Identity::new(SecretString::from(passphrase));
    identity.set_max_work_factor(max_work_factor);
    let decryptor = age::Decryptor::new_buffered(envelope).map_err(|e| format!("{e:?}"))?;
    let identities = std::iter::once(&identity as &dyn age::Identity);
    let mut reader = decryptor.decrypt(identities).map_err(|e| format!("{e:?}"))?;
    let mut out = Vec::new();
    std::io::Read::read_to_end(&mut reader, &mut out).map_err(|e| format!("{e:?}"))?;
    Ok(out)
}

/// Encrypts a secret under a passphrase with the given scrypt work factor.
/// Returns the plaintext length and the envelope.
pub fn encrypt_plaintext(plaintext: &[u8], passphrase: &str, work_factor: u8) -> (r: Result<
    (usize, Vec<u8>),
    EncryptionError,
>)
    ensures
        valid_work_factor(work_factor) ==> r is Ok && r->Ok_0.0 == plaintext@.len()
            && is_envelope_of(r->Ok_0.1@, plaintext@, passphrase@, work_factor),
        !valid_work_factor(work_factor) ==> r == Err::<(usize, Vec<u8>), EncryptionError>(
            EncryptionError::InvalidWorkFactor { work_factor },
        ),
{
    if work_factor == 0 || work_factor >= 54 {
        return Err(EncryptionError::InvalidWorkFactor { work_factor });
    }
    let envelope = age_encrypt(plaintext, passphrase, work_factor);
    Ok((plaintext.len(), envelope))
}

/// Round trip: an envelope of a plaintext decrypts to that plaintext with the
/// same passphrase, wherever decryption accepts the work factor it was made
/// with.
pub proof fn lemma_round_trip(
    envelope: Seq<u8>,
    plaintext: Seq<u8>,
    passphrase: Seq<char>,
    work_factor: u8,
    max_work_factor: u8,
)
    requires
        is_envelope_of(envelope, plaintext, passphrase, work_factor),
        work_factor <= max_work_factor,
    ensures
        age_plaintext(envelope, passphrase, max_work_factor) == Some(plaintext),
{
}

/// Why an envelope could not be opened.
#[derive(Debug, PartialEq, Eq)]
pub enum DecryptionError {
    /// The envelope is malformed, was altered, asks for more work than
    /// allowed, or the passphrase is wrong; no plaintext is released.
    Authentication(String),
}

/// Decrypts an envelope with a passphrase, accepting scrypt work factors up
/// to `max_work_factor`.
pub fn decrypt_envelope(envelope: &[u8], passphrase: &str, max_work_factor: u8) -> (r: Result<
    Vec<u8>,
    DecryptionError,
>)
    ensures
        match age_plaintext(envelope@, passphrase@, max_work_factor) {
            Some(p) => r is Ok && r->Ok_0@ == p,
            None => r is Err,
        },
{
    match age_decrypt(envelope, passphrase, max_work_factor) {
        Ok(plaintext) => Ok(plaintext),
        Err(cause) => Err(DecryptionError::Authentication(cause)),
    }
}

} // verus!

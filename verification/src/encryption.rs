//! Authenticated encryption of the messages of one transfer.
//!
//! A session holds a 256-bit key and two counters. Every sealed message
//! carries its counter in clear, followed by the AES-256-GCM ciphertext and
//! tag made under a nonce that is derived from that counter. The sender's
//! counter only moves up, so no nonce is used twice under one key; the
//! receiver accepts exactly the counter it expects next.
//!
//! Only the session that made a key seals under it, and it cannot be taken
//! up again once it is gone: a later run makes a new key. A session made
//! from a key's bytes or text only opens. So no two sessions ever seal
//! under one key.
use vstd::prelude::*;
use vstd::bytes::lemma_auto_spec_u64_to_from_le_bytes;
use vstd::bytes::spec_u64_from_le_bytes;
use vstd::bytes::spec_u64_to_le_bytes;
use vstd::bytes::u64_from_le_bytes;
use vstd::bytes::u64_to_le_bytes;
use vstd::slice::slice_subrange;
use ring::aead::LessSafeKey;
use ring::error::Unspecified;
use crate::error::EncryptionError;
use crate::error::TsunaguError;

verus! {

/// Length of a key in bytes.
pub const KEY_LEN: usize = 32;

/// Length of a nonce in bytes.
pub const NONCE_LEN: usize = 12;

/// Length of the authentication tag in bytes.
pub const TAG_LEN: usize = 16;

/// Length of the counter that leads every sealed message.
pub const COUNTER_LEN: usize = 8;

/// Largest number of bytes that the cipher seals under one nonce: the
/// blocks that a 32-bit block counter can count, less the two that the
/// cipher keeps for itself.
pub const MAX_PLAINTEXT_LEN: u64 = 68_719_476_704;

/// `ring::aead::LessSafeKey`, carried through as an opaque value.
#[verifier::external_type_specification]
#[verifier::external_body]
pub struct ExLessSafeKey(LessSafeKey);

/// `ring::error::Unspecified`, the error of every `ring` operation.
#[verifier::external_type_specification]
#[verifier::external_body]
pub struct ExUnspecified(Unspecified);

/// `base64::DecodeError`, carried through as an opaque value.
#[verifier::external_type_specification]
#[verifier::external_body]
pub struct ExDecodeError(base64::DecodeError);

/// The key bytes that a `LessSafeKey` was made from.
pub uninterp spec fn key_material(key: LessSafeKey) -> Seq<u8>;

/// What AES-256-GCM sealing without associated data makes of a plaintext
/// under a key and a nonce: the ciphertext followed by the tag.
pub uninterp spec fn aead_sealed(key: Seq<u8>, nonce: Seq<u8>, plaintext: Seq<u8>) -> Seq<u8>;

/// What AES-256-GCM opening without associated data makes of a ciphertext
/// and tag under a key and a nonce: the plaintext, or nothing where the
/// cipher refuses.
pub uninterp spec fn aead_opened(key: Seq<u8>, nonce: Seq<u8>, sealed: Seq<u8>) -> Option<Seq<u8>>;

/// The standard base64 text, with padding, of a byte string.
pub uninterp spec fn base64_text(bytes: Seq<u8>) -> Seq<char>;

/// The bytes that a standard base64 text decodes to, or nothing where the
/// text is malformed.
pub uninterp spec fn base64_bytes(text: Seq<char>) -> Option<Seq<u8>>;

/// Fills a new buffer of `len` bytes from `ring::rand::SystemRandom` with
/// `SecureRandom::fill`.
///
/// Trusted: on success the buffer has the length asked for. Nothing is
/// claimed about the bytes: they are random.
#[verifier::external_body]
fn random_bytes(len: usize) -> (bytes: Result<Vec<u8>, Unspecified>)
    ensures
        bytes matches Ok(b) ==> b@.len() == len,
{
    let mut buffer = vec![0u8; len];
    ring::rand::SecureRandom::fill(&ring::rand::SystemRandom::new(), &mut buffer)?;
    Ok(buffer)
}

/// Makes an AES-256-GCM key with `ring::aead::UnboundKey::new` and
/// `LessSafeKey::new`.
///
/// Trusted: a key is made exactly of bytes of length 32, the only check
/// that stands before the key setup, and the key that comes back stands for
/// exactly the bytes given.
#[verifier::external_body]
fn make_key(bytes: &[u8]) -> (key: Result<LessSafeKey, Unspecified>)
    ensures
        key is Ok <==> bytes@.len() == KEY_LEN,
        key matches Ok(k) ==> key_material(k) == bytes@,
{
    let unbound = ring::aead::UnboundKey::new(&ring::aead::AES_256_GCM, bytes)?;
    Ok(LessSafeKey::new(unbound))
}

/// Seals a copy of `plaintext` with `LessSafeKey::seal_in_place_append_tag`,
/// under the nonce given and without associated data.
///
/// Trusted: the output is the sealing of these three values, it is 16 bytes
/// longer than the plaintext, and opening it under the same key and nonce
/// gives the plaintext back. Sealing fails only where `Nonce` refuses a
/// nonce that is not 12 bytes long, or where the cipher's check of the
/// input length against its maximum refuses the plaintext.
#[verifier::external_body]
fn seal_with(key: &LessSafeKey, nonce: &[u8], plaintext: &[u8]) -> (sealed: Result<
    Vec<u8>,
    Unspecified,
>)
    ensures
        nonce@.len() == NONCE_LEN && plaintext@.len() <= MAX_PLAINTEXT_LEN ==> sealed is Ok,
        sealed matches Ok(c) ==> {
            &&& c@ == aead_sealed(key_material(*key), nonce@, plaintext@)
            &&& c@.len() == plaintext@.len() + TAG_LEN
            &&& aead_opened(key_material(*key), nonce@, c@) == Some(plaintext@)
        },
{
    let nonce = ring::aead::Nonce::try_assume_unique_for_key(nonce)?;
    let mut buffer = plaintext.to_vec();
    key.seal_in_place_append_tag(nonce, ring::aead::Aad::empty(), &mut buffer)?;
    Ok(buffer)
}

/// Opens a copy of `sealed` with `LessSafeKey::open_in_place`, under the
/// nonce given and without associated data.
///
/// Trusted: the outcome is the opening of these three values.
#[verifier::external_body]
fn open_with(key: &LessSafeKey, nonce: &[u8], sealed: &[u8]) -> (plain: Result<
    Vec<u8>,
    Unspecified,
>)
    ensures
        plain matches Ok(p) ==> aead_opened(key_material(*key), nonce@, sealed@) == Some(p@),
        plain is Err ==> aead_opened(key_material(*key), nonce@, sealed@) is None,
{
    let nonce = ring::aead::Nonce::try_assume_unique_for_key(nonce)?;
    let mut buffer = sealed.to_vec();
    let plain = key.open_in_place(nonce, ring::aead::Aad::empty(), &mut buffer)?;
    Ok(plain.to_vec())
}

/// Calls `base64::encode`.
///
/// Trusted: the text is the standard base64 form of the bytes, and decoding
/// it gives the bytes back. The length bound keeps the size of the text
/// within `usize`.
#[allow(deprecated)]
#[verifier::external_body]
fn base64_encode(bytes: &[u8]) -> (text: String)
    requires
        bytes@.len() <= 0x3000_0000,
    ensures
        text@ == base64_text(bytes@),
        base64_bytes(text@) == Some(bytes@),
{
    base64::encode(bytes)
}

/// Calls `base64::decode`.
///
/// Trusted: the outcome is the decoding of the text.
#[allow(deprecated)]
#[verifier::external_body]
fn base64_decode(text: &str) -> (bytes: Result<Vec<u8>, base64::DecodeError>)
    ensures
        bytes matches Ok(b) ==> base64_bytes(text@) == Some(b@),
        bytes is Err ==> base64_bytes(text@) is None,
{
    base64::decode(text)
}

/// The nonce of the message with the given counter: the counter in
/// little-endian order, then four zero bytes.
pub open spec fn nonce_for(counter: u64) -> Seq<u8> {
    spec_u64_to_le_bytes(counter) + seq![0u8, 0u8, 0u8, 0u8]
}

/// The counter that a message carries in its first eight bytes.
pub open spec fn message_counter(message: Seq<u8>) -> u64 {
    spec_u64_from_le_bytes(message.take(COUNTER_LEN as int))
}

/// The message that sealing `plaintext` under `counter` produces.
pub open spec fn sealed_message(key: Seq<u8>, counter: u64, plaintext: Seq<u8>) -> Seq<u8> {
    spec_u64_to_le_bytes(counter) + aead_sealed(key, nonce_for(counter), plaintext)
}

/// What a receiver that expects `expected` next makes of `message`.
///
/// A message too short for a counter, or one that the cipher refuses under
/// the nonce of the counter it carries, fails authentication. A genuine
/// message with a counter below the expected one is a replay; one with a
/// counter above it arrived out of order and fails authentication. Only
/// the expected counter is accepted, and never the last value of the
/// counter's range, which no sender uses.
pub open spec fn open_result(key: Seq<u8>, expected: u64, message: Seq<u8>) -> Result<
    Seq<u8>,
    EncryptionError,
> {
    if message.len() < COUNTER_LEN {
        Err(EncryptionError::AuthenticationFailure)
    } else {
        let counter = message_counter(message);
        match aead_opened(key, nonce_for(counter), message.skip(COUNTER_LEN as int)) {
            None => Err(EncryptionError::AuthenticationFailure),
            Some(plaintext) => {
                if counter < expected {
                    Err(EncryptionError::ReplayDetected)
                } else if counter > expected || expected == u64::MAX {
                    Err(EncryptionError::AuthenticationFailure)
                } else {
                    Ok(plaintext)
                }
            },
        }
    }
}

/// Two counters with the same nonce are the same counter.
pub proof fn lemma_nonce_injective(a: u64, b: u64)
    requires
        nonce_for(a) == nonce_for(b),
    ensures
        a == b,
{
    lemma_auto_spec_u64_to_from_le_bytes();
    assert(nonce_for(a).take(COUNTER_LEN as int) =~= spec_u64_to_le_bytes(a));
    assert(nonce_for(b).take(COUNTER_LEN as int) =~= spec_u64_to_le_bytes(b));
    assert(spec_u64_from_le_bytes(spec_u64_to_le_bytes(a)) == a);
    assert(spec_u64_from_le_bytes(spec_u64_to_le_bytes(b)) == b);
}

/// A message whose first eight bytes are not those of the message that the
/// receiver expects is never accepted: whoever alters the counter of a
/// genuine message has it rejected.
pub proof fn lemma_altered_counter_rejected(
    key: Seq<u8>,
    expected: u64,
    genuine: Seq<u8>,
    altered: Seq<u8>,
)
    requires
        genuine.len() >= COUNTER_LEN,
        message_counter(genuine) == expected,
        altered.len() < COUNTER_LEN || altered.take(COUNTER_LEN as int) != genuine.take(
            COUNTER_LEN as int,
        ),
    ensures
        open_result(key, expected, altered) is Err,
{
    lemma_auto_spec_u64_to_from_le_bytes();
    if altered.len() >= COUNTER_LEN {
        let a = altered.take(COUNTER_LEN as int);
        let g = genuine.take(COUNTER_LEN as int);
        assert(spec_u64_to_le_bytes(spec_u64_from_le_bytes(a)) == a);
        assert(spec_u64_to_le_bytes(spec_u64_from_le_bytes(g)) == g);
    }
}

/// A message whose counter is not the expected one is never accepted,
/// whatever else it holds.
pub proof fn lemma_unexpected_counter_rejected(key: Seq<u8>, expected: u64, message: Seq<u8>)
    requires
        message.len() < COUNTER_LEN || message_counter(message) != expected,
    ensures
        open_result(key, expected, message) is Err,
{
}

/// Mathematical value of an [`Encryption`] session.
pub struct EncryptionView {
    /// The 32 key bytes.
    pub key: Seq<u8>,
    /// Counter of the next message to seal; at the end of its range for a
    /// session that only opens.
    pub send_counter: u64,
    /// Counter of the next message to accept.
    pub recv_counter: u64,
}

/// One encryption session: a key, the counter of the next message to seal
/// and the counter of the next message to accept.
pub struct Encryption {
    key: LessSafeKey,
    key_bytes: Vec<u8>,
    send_counter: u64,
    recv_counter: u64,
}

impl View for Encryption {
    type V = EncryptionView;

    closed spec fn view(&self) -> EncryptionView {
        EncryptionView {
            key: self.key_bytes@,
            send_counter: self.send_counter,
            recv_counter: self.recv_counter,
        }
    }
}

/// The nonce for a counter, as bytes.
fn nonce_bytes(counter: u64) -> (nonce: Vec<u8>)
    ensures
        nonce@ == nonce_for(counter),
{
    let mut nonce = u64_to_le_bytes(counter);
    nonce.push(0u8);
    nonce.push(0u8);
    nonce.push(0u8);
    nonce.push(0u8);
    assert(nonce@ =~= nonce_for(counter));
    nonce
}

impl Encryption {
    #[verifier::type_invariant]
    spec fn inv(self) -> bool {
        &&& self.key_bytes@.len() == KEY_LEN
        &&& key_material(self.key) == self.key_bytes@
    }

    /// A session under the key bytes given, at the counters given. Key
    /// bytes of length 32 are accepted and every other length is refused
    /// with `InvalidKey`.
    fn build(key_bytes: Vec<u8>, send_counter: u64, recv_counter: u64) -> (session: Result<
        Self,
        TsunaguError,
    >)
        ensures
            key_bytes@.len() == KEY_LEN ==> session is Ok,
            key_bytes@.len() != KEY_LEN ==> session matches Err(
                TsunaguError::Encryption(EncryptionError::InvalidKey),
            ),
            session matches Ok(s) ==> s@ == (EncryptionView {
                key: key_bytes@,
                send_counter,
                recv_counter,
            }),
    {
        match make_key(key_bytes.as_slice()) {
            Ok(key) => Ok(Encryption { key, key_bytes, send_counter, recv_counter }),
            Err(_) => Err(TsunaguError::Encryption(EncryptionError::InvalidKey)),
        }
    }

    /// Starts a session under a new random key, both counters at zero. This
    /// is the one session that seals under the key. It fails only where the
    /// system gives no random bytes.
    pub fn new() -> (session: Result<Self, TsunaguError>)
        ensures
            session matches Ok(s) ==> s@.key.len() == KEY_LEN && s@.send_counter == 0
                && s@.recv_counter == 0,
            session matches Err(e) ==> e == TsunaguError::Encryption(
                EncryptionError::KeyGeneration,
            ),
    {
        match random_bytes(KEY_LEN) {
            Ok(bytes) => match Self::build(bytes, 0, 0) {
                Ok(session) => Ok(session),
                Err(_) => Err(TsunaguError::Encryption(EncryptionError::KeyGeneration)),
            },
            Err(_) => Err(TsunaguError::Encryption(EncryptionError::KeyGeneration)),
        }
    }

    /// Starts a session that only opens, under the key bytes given: it
    /// expects the first message, and no counter is left to it for sealing.
    ///
    /// Key bytes of length 32 are accepted and every other length is
    /// refused with `InvalidKey`.
    pub fn from_key_bytes(key_bytes: Vec<u8>) -> (session: Result<Self, TsunaguError>)
        ensures
            key_bytes@.len() == KEY_LEN ==> session is Ok,
            key_bytes@.len() != KEY_LEN ==> session matches Err(
                TsunaguError::Encryption(EncryptionError::InvalidKey),
            ),
            session matches Ok(s) ==> s@ == (EncryptionView {
                key: key_bytes@,
                send_counter: u64::MAX,
                recv_counter: 0,
            }),
    {
        Self::build(key_bytes, u64::MAX, 0)
    }

    /// Counter of the next message to seal. Every message sealed so far
    /// carries a smaller one.
    pub fn send_counter(&self) -> (counter: u64)
        ensures
            counter == self@.send_counter,
    {
        self.send_counter
    }

    /// Counter of the next message to accept.
    pub fn recv_counter(&self) -> (counter: u64)
        ensures
            counter == self@.recv_counter,
    {
        self.recv_counter
    }

    /// Seals `data` under the next counter and moves the counter up.
    ///
    /// The message opens to `data` at a receiver that expects this counter.
    /// Nothing is sealed once the counter has reached the end of its range,
    /// where it stands from the start in a session that only opens; the
    /// cipher may refuse data beyond its maximum length; everything else is
    /// sealed. An error leaves the session as it was.
    pub fn encrypt(&mut self, data: &[u8]) -> (message: Result<Vec<u8>, TsunaguError>)
        ensures
            final(self)@.key == old(self)@.key,
            final(self)@.recv_counter == old(self)@.recv_counter,
            old(self)@.send_counter == u64::MAX ==> message matches Err(
                TsunaguError::Encryption(EncryptionError::CounterExhausted),
            ),
            old(self)@.send_counter < u64::MAX && data@.len() <= MAX_PLAINTEXT_LEN
                ==> message is Ok,
            message matches Ok(m) ==> {
                &&& old(self)@.send_counter < u64::MAX
                &&& final(self)@.send_counter == old(self)@.send_counter + 1
                &&& m@ == sealed_message(old(self)@.key, old(self)@.send_counter, data@)
                &&& m@.len() == COUNTER_LEN + data@.len() + TAG_LEN
                &&& message_counter(m@) == old(self)@.send_counter
                &&& open_result(old(self)@.key, old(self)@.send_counter, m@) == Ok::<
                    Seq<u8>,
                    EncryptionError,
                >(data@)
            },
            message matches Err(e) ==> {
                &&& final(self)@.send_counter == old(self)@.send_counter
                &&& e == TsunaguError::Encryption(EncryptionError::CounterExhausted) || e
                    == TsunaguError::Encryption(EncryptionError::SealFailed)
                &&& e == TsunaguError::Encryption(EncryptionError::SealFailed) ==> data@.len()
                    > MAX_PLAINTEXT_LEN
            },
    {
        proof {
            use_type_invariant(&*self);
        }
        if self.send_counter == u64::MAX {
            return Err(TsunaguError::Encryption(EncryptionError::CounterExhausted));
        }
        let counter = self.send_counter;
        let nonce = nonce_bytes(counter);
        proof {
            lemma_auto_spec_u64_to_from_le_bytes();
        }
        match seal_with(&self.key, nonce.as_slice(), data) {
            Err(_) => Err(TsunaguError::Encryption(EncryptionError::SealFailed)),
            Ok(sealed) => {
                let mut message = u64_to_le_bytes(counter);
                let mut sealed = sealed;
                let ghost body = sealed@;
                message.append(&mut sealed);
                self.send_counter = counter + 1;
                proof {
                    lemma_auto_spec_u64_to_from_le_bytes();
                    assert(message@ =~= sealed_message(old(self)@.key, counter, data@));
                    assert(message@.take(COUNTER_LEN as int) =~= spec_u64_to_le_bytes(counter));
                    assert(message@.skip(COUNTER_LEN as int) =~= body);
                }
                Ok(message)
            },
        }
    }

    /// Opens `encrypted_data` if it is the message expected next, and then
    /// expects the one after it. An error leaves the session as it was.
    pub fn decrypt(&mut self, encrypted_data: &[u8]) -> (plaintext: Result<Vec<u8>, TsunaguError>)
        ensures
            final(self)@.key == old(self)@.key,
            final(self)@.send_counter == old(self)@.send_counter,
            match open_result(old(self)@.key, old(self)@.recv_counter, encrypted_data@) {
                Ok(expected) => (plaintext matches Ok(p) && p@ == expected)
                    && final(self)@.recv_counter == old(self)@.recv_counter + 1,
                Err(reason) => (plaintext matches Err(e) && e == TsunaguError::Encryption(reason))
                    && final(self)@.recv_counter == old(self)@.recv_counter,
            },
    {
        proof {
            use_type_invariant(&*self);
        }
        if encrypted_data.len() < COUNTER_LEN {
            return Err(TsunaguError::Encryption(EncryptionError::AuthenticationFailure));
        }
        let counter = u64_from_le_bytes(slice_subrange(encrypted_data, 0, COUNTER_LEN));
        let body = slice_subrange(encrypted_data, COUNTER_LEN, encrypted_data.len());
        let nonce = nonce_bytes(counter);
        proof {
            assert(encrypted_data@.subrange(0, COUNTER_LEN as int) =~= encrypted_data@.take(
                COUNTER_LEN as int,
            ));
            assert(encrypted_data@.subrange(COUNTER_LEN as int, encrypted_data@.len() as int)
                =~= encrypted_data@.skip(COUNTER_LEN as int));
        }
        match open_with(&self.key, nonce.as_slice(), body) {
            Err(_) => Err(TsunaguError::Encryption(EncryptionError::AuthenticationFailure)),
            Ok(plain) => {
                if counter < self.recv_counter {
                    Err(TsunaguError::Encryption(EncryptionError::ReplayDetected))
                } else if counter > self.recv_counter || self.recv_counter == u64::MAX {
                    Err(TsunaguError::Encryption(EncryptionError::AuthenticationFailure))
                } else {
                    self.recv_counter = self.recv_counter + 1;
                    Ok(plain)
                }
            },
        }
    }

    /// The key as base64 text, for sharing. Decoding the text gives the
    /// key back.
    pub fn get_base64_key(&self) -> (text: String)
        ensures
            self@.key.len() == KEY_LEN,
            text@ == base64_text(self@.key),
            key_of_text(text@) == Some(self@.key),
    {
        proof {
            use_type_invariant(self);
        }
        base64_encode(self.key_bytes.as_slice())
    }

    /// Starts a session that only opens, under a key given as base64 text.
    /// Text that decodes to 32 bytes is accepted; text that is malformed,
    /// or that decodes to another length, is refused with `InvalidKey`.
    pub fn from_base64_key(base64_key: &str) -> (session: Result<Self, TsunaguError>)
        ensures
            match key_of_text(base64_key@) {
                Some(key) => session matches Ok(s) && s@ == (EncryptionView {
                    key,
                    send_counter: u64::MAX,
                    recv_counter: 0,
                }),
                None => session matches Err(TsunaguError::Encryption(EncryptionError::InvalidKey)),
            },
    {
        match base64_decode(base64_key) {
            Ok(bytes) => Self::from_key_bytes(bytes),
            Err(_) => Err(TsunaguError::Encryption(EncryptionError::InvalidKey)),
        }
    }
}

/// The key that a base64 text stands for: its decoding, where that is 32
/// bytes long.
pub open spec fn key_of_text(text: Seq<char>) -> Option<Seq<u8>> {
    match base64_bytes(text) {
        Some(bytes) => if bytes.len() == KEY_LEN {
            Some(bytes)
        } else {
            None
        },
        None => None,
    }
}

/// Of two messages sealed in one session, the later one has another nonce
/// than the earlier one: the send counter has moved up in between.
pub proof fn lemma_later_nonce_differs(earlier: u64, later: u64)
    requires
        earlier < later,
    ensures
        nonce_for(earlier) != nonce_for(later),
{
    if nonce_for(earlier) == nonce_for(later) {
        lemma_nonce_injective(earlier, later);
    }
}

} // verus!

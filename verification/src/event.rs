//! Events handed to and produced by the authenticated key exchange state
//! machine: opaque handshake blobs and the payloads of an established channel.
use core::marker::PhantomData;
use vstd::prelude::*;
use vstd::std_specs::convert::FromSpec;
use vstd::std_specs::convert::FromSpecImpl;

verus! {

/// Marks a type that the key exchange state machine accepts as an input.
pub trait MealyInput {}

/// Marks a type that the key exchange state machine produces as an output.
pub trait MealyOutput {}

/// An input used to transform a Start into an AuthPending for client-to-node
/// authentication. It carries nothing but the protocol choice, as type tags.
pub struct ClientInitiate<KexAlgo, Cipher, DigestAlgo> {
    _kex: PhantomData<KexAlgo>,
    _cipher: PhantomData<Cipher>,
    _digest: PhantomData<DigestAlgo>,
}

impl<KexAlgo, Cipher, DigestAlgo> ClientInitiate<KexAlgo, Cipher, DigestAlgo> {
    /// The input with its three type tags: the only value of the type.
    pub closed spec fn tags() -> Self {
        ClientInitiate { _kex: PhantomData, _cipher: PhantomData, _digest: PhantomData }
    }
}

impl<KexAlgo, Cipher, DigestAlgo> Default for ClientInitiate<KexAlgo, Cipher, DigestAlgo> {
    fn default() -> (res: Self)
        ensures
            res == Self::tags(),
    {
        ClientInitiate { _kex: PhantomData, _cipher: PhantomData, _digest: PhantomData }
    }
}

impl<KexAlgo, Cipher, DigestAlgo> MealyInput for ClientInitiate<KexAlgo, Cipher, DigestAlgo> {}

/// An opaque blob of noise protocol handshake bytes, generated by an initiator,
/// and consumed by a responder. The type parameters name the handshake
/// pattern, key exchange, cipher and digest of the protocol.
pub struct AuthRequestOutput<Handshake, KexAlgo, Cipher, DigestAlgo> {
    /// The actual AuthRequest data
    pub(crate) data: Vec<u8>,
    /// Type consumption
    _protocol_name: PhantomData<(Handshake, KexAlgo, Cipher, DigestAlgo)>,
}

impl<Handshake, KexAlgo, Cipher, DigestAlgo> View for AuthRequestOutput<
    Handshake,
    KexAlgo,
    Cipher,
    DigestAlgo,
> {
    type V = Seq<u8>;

    closed spec fn view(&self) -> Seq<u8> {
        self.data@
    }
}

impl<Handshake, KexAlgo, Cipher, DigestAlgo> From<Vec<u8>> for AuthRequestOutput<
    Handshake,
    KexAlgo,
    Cipher,
    DigestAlgo,
> {
    fn from(data: Vec<u8>) -> (res: Self) {
        AuthRequestOutput { data, _protocol_name: PhantomData }
    }
}

impl<Handshake, KexAlgo, Cipher, DigestAlgo> FromSpecImpl<Vec<u8>> for AuthRequestOutput<
    Handshake,
    KexAlgo,
    Cipher,
    DigestAlgo,
> {
    open spec fn obeys_from_spec() -> bool {
        true
    }

    closed spec fn from_spec(data: Vec<u8>) -> Self {
        AuthRequestOutput { data, _protocol_name: PhantomData }
    }
}

impl<Handshake, KexAlgo, Cipher, DigestAlgo> From<
    AuthRequestOutput<Handshake, KexAlgo, Cipher, DigestAlgo>,
> for Vec<u8> {
    fn from(src: AuthRequestOutput<Handshake, KexAlgo, Cipher, DigestAlgo>) -> (res: Vec<u8>) {
        src.data
    }
}

impl<Handshake, KexAlgo, Cipher, DigestAlgo> FromSpecImpl<
    AuthRequestOutput<Handshake, KexAlgo, Cipher, DigestAlgo>,
> for Vec<u8> {
    open spec fn obeys_from_spec() -> bool {
        true
    }

    closed spec fn from_spec(src: AuthRequestOutput<Handshake, KexAlgo, Cipher, DigestAlgo>) -> Vec<
        u8,
    > {
        src.data
    }
}

impl<Handshake, KexAlgo, Cipher, DigestAlgo> AsRef<[u8]> for AuthRequestOutput<
    Handshake,
    KexAlgo,
    Cipher,
    DigestAlgo,
> {
    fn as_ref(&self) -> (res: &[u8])
        ensures
            res@ == self@,
    {
        self.data.as_slice()
    }
}

/// An authentication request is output from an initiator
impl<Handshake, KexAlgo, Cipher, DigestAlgo> MealyOutput for AuthRequestOutput<
    Handshake,
    KexAlgo,
    Cipher,
    DigestAlgo,
> {}

/// An opaque blob containing output by a responder to complete a noise
/// handshake.
pub struct AuthResponseOutput(Vec<u8>);

impl View for AuthResponseOutput {
    type V = Seq<u8>;

    closed spec fn view(&self) -> Seq<u8> {
        self.0@
    }
}

impl From<Vec<u8>> for AuthResponseOutput {
    fn from(src: Vec<u8>) -> (res: Self) {
        AuthResponseOutput(src)
    }
}

impl FromSpecImpl<Vec<u8>> for AuthResponseOutput {
    open spec fn obeys_from_spec() -> bool {
        true
    }

    closed spec fn from_spec(src: Vec<u8>) -> Self {
        AuthResponseOutput(src)
    }
}

impl From<AuthResponseOutput> for Vec<u8> {
    fn from(src: AuthResponseOutput) -> (res: Vec<u8>) {
        src.0
    }
}

impl FromSpecImpl<AuthResponseOutput> for Vec<u8> {
    open spec fn obeys_from_spec() -> bool {
        true
    }

    closed spec fn from_spec(src: AuthResponseOutput) -> Vec<u8> {
        src.0
    }
}

impl AsRef<[u8]> for AuthResponseOutput {
    fn as_ref(&self) -> (res: &[u8])
        ensures
            res@ == self@,
    {
        self.0.as_slice()
    }
}

/// An authentication response is output from a responder
impl MealyOutput for AuthResponseOutput {}

/// An unverified report is used when the initiator may not know the identity of
/// the enclave.
pub struct UnverifiedReport {
    pub(crate) data: Vec<u8>,
}

impl View for UnverifiedReport {
    type V = Seq<u8>;

    closed spec fn view(&self) -> Seq<u8> {
        self.data@
    }
}

impl UnverifiedReport {
    /// Wraps the bytes of a responder's output, to be read without checking
    /// the identity of the enclave.
    pub fn new(data: AuthResponseOutput) -> (res: Self)
        ensures
            res@ == data@,
    {
        UnverifiedReport { data: data.0 }
    }
}

impl AsRef<[u8]> for UnverifiedReport {
    fn as_ref(&self) -> (res: &[u8])
        ensures
            res@ == self@,
    {
        self.data.as_slice()
    }
}

/// An authentication response from a responder
impl MealyInput for UnverifiedReport {}

/// A type similar to aead::Payload used to distinguish writer inputs from
/// outputs.
pub struct Plaintext<'aad, 'msg> {
    pub aad: &'aad [u8],
    pub msg: &'msg [u8],
}

impl<'aad, 'msg> Plaintext<'aad, 'msg> {
    /// Pairs additional authenticated data with the message to encrypt.
    pub fn new(aad: &'aad [u8], msg: &'msg [u8]) -> (res: Self)
        ensures
            res.aad@ == aad@,
            res.msg@ == msg@,
    {
        Plaintext { aad, msg }
    }
}

/// Plaintext may be provided to an FST for encryption into a vector
impl MealyInput for Plaintext<'_, '_> {}

/// A type similar to aead::Payload used to distinguish reader inputs from
/// outputs.
pub struct Ciphertext<'aad, 'msg> {
    pub aad: &'aad [u8],
    pub msg: &'msg [u8],
}

impl<'aad, 'msg> Ciphertext<'aad, 'msg> {
    /// Pairs additional authenticated data with the message to decrypt.
    pub fn new(aad: &'aad [u8], msg: &'msg [u8]) -> (res: Self)
        ensures
            res.aad@ == aad@,
            res.msg@ == msg@,
    {
        Ciphertext { aad, msg }
    }
}

/// A ciphertext may be provided to a FST for decryption into a vector
impl MealyInput for Ciphertext<'_, '_> {}

/// Our outputs may be simple vectors for the proto-inside-grpc use case.
impl MealyOutput for Vec<u8> {}

/// A type similar to aead::Payload used to distinguish writer inputs from
/// outputs when there's an explicit nonce.
pub struct NoncePlaintext<'aad, 'msg>(Plaintext<'aad, 'msg>);

impl<'aad, 'msg> NoncePlaintext<'aad, 'msg> {
    /// The additional authenticated data, as a sequence of bytes.
    pub closed spec fn aad_view(&self) -> Seq<u8> {
        self.0.aad@
    }

    /// The message, as a sequence of bytes.
    pub closed spec fn msg_view(&self) -> Seq<u8> {
        self.0.msg@
    }

    /// Create a new NoncePlaintext object from the given slices.
    pub fn new(aad: &'aad [u8], msg: &'msg [u8]) -> (res: Self)
        ensures
            res.aad_view() == aad@,
            res.msg_view() == msg@,
    {
        NoncePlaintext(Plaintext::new(aad, msg))
    }

    /// Grab a reference to the internal `aad` slice.
    pub fn aad(&self) -> (res: &[u8])
        ensures
            res@ == self.aad_view(),
    {
        self.0.aad
    }

    /// Grab a reference to the internal `msg` slice.
    pub fn msg(&self) -> (res: &[u8])
        ensures
            res@ == self.msg_view(),
    {
        self.0.msg
    }
}

/// Plaintext may be provided to an FST for encryption into a vector
impl MealyInput for NoncePlaintext<'_, '_> {}

/// A tuple of bytes and a u64 can be output from an FST for the
/// encrypt-for-explicit nonce case.
impl MealyOutput for (Vec<u8>, u64) {}

/// A type similar to aead::Payload used to distinguish reader inputs from
/// outputs when there's an explicit nonce.
pub struct NonceCiphertext<'aad, 'msg> {
    pub ciphertext: Ciphertext<'aad, 'msg>,
    pub nonce: u64,
}

impl<'aad, 'msg> NonceCiphertext<'aad, 'msg> {
    /// Pairs a ciphertext, with its additional authenticated data, with the
    /// nonce it was sealed under.
    pub fn new(aad: &'aad [u8], msg: &'msg [u8], nonce: u64) -> (res: Self)
        ensures
            res.ciphertext.aad@ == aad@,
            res.ciphertext.msg@ == msg@,
            res.nonce == nonce,
    {
        NonceCiphertext { ciphertext: Ciphertext::new(aad, msg), nonce }
    }
}

/// Plaintext may be provided to an FST for decryption into a vector
impl MealyInput for NonceCiphertext<'_, '_> {}

/// Turning bytes into a handshake request keeps them.
pub proof fn lemma_auth_request_from_bytes<Handshake, KexAlgo, Cipher, DigestAlgo>(data: Vec<u8>)
    ensures
        <AuthRequestOutput<Handshake, KexAlgo, Cipher, DigestAlgo> as FromSpec<
            Vec<u8>,
        >>::from_spec(data)@ == data@,
{
}

/// Turning a handshake request back into bytes gives the bytes it was made of.
pub proof fn lemma_auth_request_round_trip<Handshake, KexAlgo, Cipher, DigestAlgo>(data: Vec<u8>)
    ensures
        <Vec<u8> as FromSpec<AuthRequestOutput<Handshake, KexAlgo, Cipher, DigestAlgo>>>::from_spec(
            <AuthRequestOutput<Handshake, KexAlgo, Cipher, DigestAlgo> as FromSpec<
                Vec<u8>,
            >>::from_spec(data),
        ) == data,
{
}

/// Turning bytes into a handshake response keeps them.
pub proof fn lemma_auth_response_from_bytes(data: Vec<u8>)
    ensures
        <AuthResponseOutput as FromSpec<Vec<u8>>>::from_spec(data)@ == data@,
{
}

/// Turning a handshake response back into bytes gives the bytes it was made of.
pub proof fn lemma_auth_response_round_trip(data: Vec<u8>)
    ensures
        <Vec<u8> as FromSpec<AuthResponseOutput>>::from_spec(
            <AuthResponseOutput as FromSpec<Vec<u8>>>::from_spec(data),
        ) == data,
{
}

} // verus!

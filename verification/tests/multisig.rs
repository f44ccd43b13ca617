use mc_components::multisig::{MultiSig, MultiSigVerifier, Sig, Signer, SignerSet, MAX_SIGNATURES};
use vstd::view::View;

/// A stand-in key: it accepts exactly the signatures that carry its number and
/// the length of the message they sign.
#[derive(Clone, Debug, PartialEq)]
struct ToyKey(u8);

#[derive(Clone, Debug, PartialEq)]
struct ToySig {
    key: u8,
    msg_len: usize,
}

impl View for ToyKey {
    type V = u8;
    fn view(&self) -> u8 {
        self.0
    }
}

impl View for ToySig {
    type V = (u8, usize);
    fn view(&self) -> (u8, usize) {
        (self.key, self.msg_len)
    }
}

impl Signer for ToyKey {
    fn same_signer(&self, other: &Self) -> bool {
        self.0 == other.0
    }
}

impl Sig for ToySig {
    fn same_sig(&self, other: &Self) -> bool {
        self.key == other.key && self.msg_len == other.msg_len
    }
}

impl MultiSigVerifier<ToySig> for ToyKey {
    fn accepts(&self, _msg: vstd::seq::Seq<u8>, _sig: ToySig) -> bool {
        unreachable!("a predicate for the verifier, never run")
    }

    fn verify(&self, msg: &[u8], sig: &ToySig) -> Result<(), ()> {
        if sig.key == self.0 && sig.msg_len == msg.len() {
            Ok(())
        } else {
            Err(())
        }
    }
}

fn sign(key: &ToyKey, msg: &[u8]) -> ToySig {
    ToySig { key: key.0, msg_len: msg.len() }
}

fn keys() -> (ToyKey, ToyKey, ToyKey, ToyKey, ToyKey) {
    (ToyKey(1), ToyKey(2), ToyKey(3), ToyKey(4), ToyKey(5))
}

#[test]
fn signer_set_new_keeps_signers_and_threshold() {
    let set = SignerSet::new(vec![ToyKey(1), ToyKey(2)], 2);
    assert_eq!(set.signer_set, vec![ToyKey(1), ToyKey(2)]);
    assert_eq!(set.threshold, 2);
    let copy = set.clone();
    assert_eq!(copy.signer_set, set.signer_set);
    assert_eq!(MAX_SIGNATURES, 10);
}

#[test]
fn ed25519_verify_signers_sanity_k_equals_3() {
    let (signer1, signer2, signer3, signer4, signer5) = keys();
    let signer_set = SignerSet::new(vec![signer1.clone(), signer2.clone(), signer3.clone()], 2);
    let message = b"this is a test";

    // Try with just one valid signature, we should fail to verify.
    let multi_sig = MultiSig { sigs: vec![sign(&signer1, message)] };
    assert!(signer_set.verify(message, &multi_sig).is_err());

    // With two valid signatures we should succeed to verify and get the correct
    // keys back.
    let multi_sig = MultiSig { sigs: vec![sign(&signer1, message), sign(&signer3, message)] };
    assert_eq!(signer_set.verify(message, &multi_sig).unwrap(), vec![&signer1, &signer3]);

    // If we alter the message, we should not pass verification.
    let message2 = b"different message";
    assert!(signer_set.verify(message2, &multi_sig).is_err());

    // With three valid signatures we should succeed to verify and get the correct
    // keys back.
    let multi_sig = MultiSig {
        sigs: vec![sign(&signer1, message), sign(&signer2, message), sign(&signer3, message)],
    };
    assert_eq!(
        signer_set.verify(message, &multi_sig).unwrap(),
        vec![&signer1, &signer2, &signer3]
    );

    // Trying to cheat by signing twice with the same signer will not work.
    let multi_sig = MultiSig { sigs: vec![sign(&signer1, message), sign(&signer1, message)] };
    assert!(signer_set.verify(message, &multi_sig).is_err());

    // Using an unknown signer should not allow us to verify is we are under the
    // threshold
    let multi_sig = MultiSig { sigs: vec![sign(&signer1, message), sign(&signer4, message)] };
    assert!(signer_set.verify(message, &multi_sig).is_err());

    // Using an unknown signer does not get in the way of verifiying a valid set.
    let multi_sig = MultiSig {
        sigs: vec![sign(&signer1, message), sign(&signer3, message), sign(&signer4, message)],
    };
    assert_eq!(signer_set.verify(message, &multi_sig).unwrap(), vec![&signer1, &signer3]);

    // Bunch of duplicate signers and signatures, all do not match.
    let multi_sig = MultiSig {
        sigs: vec![
            sign(&signer4, message),
            sign(&signer4, message),
            sign(&signer5, message),
            sign(&signer5, message),
            sign(&signer4, message),
        ],
    };
    assert!(signer_set.verify(message, &multi_sig).is_err());
}

#[test]
fn ed25519_verify_signers_sanity_k_equals_1() {
    let (signer1, signer2, signer3, signer4, signer5) = keys();
    let signer_set = SignerSet::new(vec![signer1.clone(), signer2.clone(), signer3.clone()], 1);
    let message = b"this is a test";

    // Try with just no valid signatures, we should fail to verify.
    let multi_sig = MultiSig { sigs: vec![sign(&signer4, message)] };
    assert!(signer_set.verify(message, &multi_sig).is_err());
    let multi_sig = MultiSig { sigs: vec![sign(&signer4, message), sign(&signer4, message)] };
    assert!(signer_set.verify(message, &multi_sig).is_err());
    let multi_sig = MultiSig { sigs: vec![sign(&signer4, message), sign(&signer5, message)] };
    assert!(signer_set.verify(message, &multi_sig).is_err());

    // Add a valid signer, we should now verify successfully.
    let multi_sig = MultiSig {
        sigs: vec![sign(&signer4, message), sign(&signer5, message), sign(&signer1, message)],
    };
    assert_eq!(signer_set.verify(message, &multi_sig).unwrap(), vec![&signer1]);

    // With two valid signers we should get both back.
    let multi_sig = MultiSig {
        sigs: vec![
            sign(&signer4, message),
            sign(&signer5, message),
            sign(&signer1, message),
            sign(&signer2, message),
        ],
    };
    assert_eq!(signer_set.verify(message, &multi_sig).unwrap(), vec![&signer1, &signer2]);

    // Add the same valid signers, they should not be returned twice.
    let multi_sig = MultiSig {
        sigs: vec![
            sign(&signer1, message),
            sign(&signer2, message),
            sign(&signer4, message),
            sign(&signer5, message),
            sign(&signer1, message),
            sign(&signer2, message),
            sign(&signer1, message),
            sign(&signer2, message),
        ],
    };
    assert_eq!(signer_set.verify(message, &multi_sig).unwrap(), vec![&signer1, &signer2]);
}

#[test]
fn ed25519_verify_with_duplicate_signers() {
    let (signer1, signer2, signer3, signer4, signer5) = keys();
    // This signer set contains duplicate public keys but when verifying we should
    // not see the same key twice.
    let signer_set = SignerSet::new(
        vec![
            signer1.clone(),
            signer2.clone(),
            signer1.clone(),
            signer2.clone(),
            signer3.clone(),
            signer1.clone(),
            signer2.clone(),
        ],
        1,
    );
    let message = b"this is a test";

    let multi_sig = MultiSig { sigs: vec![sign(&signer4, message)] };
    assert!(signer_set.verify(message, &multi_sig).is_err());

    let multi_sig = MultiSig {
        sigs: vec![sign(&signer4, message), sign(&signer5, message), sign(&signer1, message)],
    };
    assert_eq!(signer_set.verify(message, &multi_sig).unwrap(), vec![&signer1]);

    let multi_sig = MultiSig {
        sigs: vec![
            sign(&signer1, message),
            sign(&signer2, message),
            sign(&signer4, message),
            sign(&signer1, message),
            sign(&signer2, message),
        ],
    };
    assert_eq!(signer_set.verify(message, &multi_sig).unwrap(), vec![&signer1, &signer2]);

    // Two signatures by the same key count once, even under a threshold of two.
    let two = SignerSet::new(vec![signer1.clone(), signer1.clone()], 2);
    let multi_sig = MultiSig { sigs: vec![sign(&signer1, message), sign(&signer1, message)] };
    assert!(two.verify(message, &multi_sig).is_err());
}

#[test]
fn signature_count_bounds() {
    let (signer1, signer2, _, _, _) = keys();
    let message = b"m";

    // An empty signer set cannot meet a threshold of one.
    let empty: SignerSet<ToyKey> = SignerSet::new(vec![], 1);
    let multi_sig = MultiSig { sigs: vec![sign(&signer1, message)] };
    assert!(empty.verify(message, &multi_sig).is_err());

    // With no threshold, nothing needs to be signed.
    let none: SignerSet<ToyKey> = SignerSet::default();
    assert_eq!(none.threshold, 0);
    let no_sigs: MultiSig<ToySig> = MultiSig::default();
    assert!(no_sigs.sigs.is_empty());
    assert_eq!(none.verify(message, &no_sigs).unwrap(), Vec::<&ToyKey>::new());

    // More than MAX_SIGNATURES signatures are refused, valid or not.
    let set = SignerSet::new(vec![signer1.clone(), signer2.clone()], 1);
    let mut sigs = vec![sign(&signer1, message)];
    sigs.extend((0..MAX_SIGNATURES).map(|_| sign(&signer2, message)));
    let too_many = MultiSig { sigs };
    assert!(set.verify(message, &too_many).is_err());
    let just_enough = MultiSig { sigs: too_many.sigs[..MAX_SIGNATURES].to_vec() };
    assert_eq!(set.verify(message, &just_enough).unwrap(), vec![&signer1, &signer2]);

    // Fewer signatures than the threshold are refused at once.
    let set = SignerSet::new(vec![signer1.clone(), signer2.clone()], 2);
    let multi_sig = MultiSig { sigs: vec![sign(&signer1, message)] };
    assert!(set.verify(message, &multi_sig).is_err());
}

#[test]
fn nested_signer_sets() {
    let (signer1, signer2, signer3, _, _) = keys();
    let message = b"nested";
    let inner1 = SignerSet::new(vec![signer1.clone(), signer2.clone()], 1);
    let inner2 = SignerSet::new(vec![signer3.clone()], 1);
    let outer = SignerSet::new(vec![inner1.clone(), inner2.clone()], 2);

    let ms1 = MultiSig { sigs: vec![sign(&signer2, message)] };
    let ms2 = MultiSig { sigs: vec![sign(&signer3, message)] };
    let both = MultiSig { sigs: vec![ms1, ms2] };
    let found = outer.verify(message, &both).unwrap();
    assert_eq!(found.len(), 2);
    assert_eq!(found[0].signer_set, inner1.signer_set);
    assert_eq!(found[1].signer_set, inner2.signer_set);

    let only_one = MultiSig { sigs: vec![MultiSig { sigs: vec![sign(&signer1, message)] }] };
    assert!(outer.verify(message, &only_one).is_err());

    let deeper = SignerSet::new(vec![outer.clone()], 1);
    let deeper_sig = MultiSig { sigs: vec![both] };
    assert_eq!(deeper.verify(message, &deeper_sig).unwrap().len(), 1);
}

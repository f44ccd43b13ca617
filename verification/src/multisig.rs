//! Multi-signature implementation: A multi-signature is a protocol that allows
//! a group of signers, each possessing a distinct private/public keypair, to
//! produce a joint signature on a common message. The simplest multi-signature
//! of a message is just a set of signatures containing one signature over the
//! message from each member of the signing group. We say that a multi-signature
//! is a m-of-n threshold signature if only k valid signatures are required from
//! a signing group of size n.
//!
//! Signer sets nest: a set of signer sets verifies a multi-signature of
//! multi-signatures.
use vstd::prelude::*;

verus! {

broadcast use vstd::seq_lib::group_seq_properties;

/// The maximum number of signatures that can be included in a multi-signature.
pub const MAX_SIGNATURES: usize = 10;

/// A type that can sign a multi-signature: a public key, or a signer set. Two
/// signers with the same view are the same signer.
pub trait Signer: View {
    /// Whether `other` is the same signer as `self`.
    fn same_signer(&self, other: &Self) -> (res: bool)
        ensures
            res == (self@ == other@),
    ;
}

/// A type that can be part of a multi-signature: a signature, or a
/// multi-signature. Two signatures with the same view are the same signature.
pub trait Sig: View {
    /// Whether `other` is the same signature as `self`.
    fn same_sig(&self, other: &Self) -> (res: bool)
        ensures
            res == (self@ == other@),
    ;
}

/// Something that checks a signature of type `S` over a message.
pub trait MultiSigVerifier<S: Sig> {
    /// Whether the verifier accepts `sig` as a signature over `msg`.
    spec fn accepts(&self, msg: Seq<u8>, sig: S) -> bool;

    /// Checks `sig` over `msg`: `Ok` exactly when the verifier accepts it.
    fn verify(&self, msg: &[u8], sig: &S) -> (res: Result<(), ()>)
        ensures
            res is Ok <==> self.accepts(msg@, *sig),
    ;
}

/// A set of M-out-of-N signers: `threshold` of them must sign.
#[derive(Clone)]
pub struct SignerSet<P: Signer> {
    /// List of potential signers.
    pub signer_set: Vec<P>,
    /// Minimum number of signers required.
    pub threshold: u8,
}

impl<P: Signer> View for SignerSet<P> {
    type V = (Seq<P::V>, u8);

    open spec fn view(&self) -> (Seq<P::V>, u8) {
        (self.signer_set@.map_values(|p: P| p@), self.threshold)
    }
}

/// A multi-signature: a collection of one or more signatures.
pub struct MultiSig<S: Sig> {
    pub sigs: Vec<S>,
}

impl<S: Sig> View for MultiSig<S> {
    type V = Seq<S::V>;

    open spec fn view(&self) -> Seq<S::V> {
        self.sigs@.map_values(|s: S| s@)
    }
}

impl<P: Signer> Signer for SignerSet<P> {
    fn same_signer(&self, other: &Self) -> (res: bool) {
        if self.threshold != other.threshold || self.signer_set.len() != other.signer_set.len() {
            assert(self@.0.len() != other@.0.len() || self@.1 != other@.1);
            return false;
        }
        let mut i: usize = 0;
        while i < self.signer_set.len()
            invariant
                i <= self.signer_set@.len(),
                self.signer_set@.len() == other.signer_set@.len(),
                forall|j: int| 0 <= j < i ==> self.signer_set@[j]@ == other.signer_set@[j]@,
            decreases self.signer_set@.len() - i,
        {
            if !self.signer_set[i].same_signer(&other.signer_set[i]) {
                assert(self@.0[i as int] != other@.0[i as int]);
                return false;
            }
            i = i + 1;
        }
        assert(self@.0 =~= other@.0);
        true
    }
}

impl<S: Sig> Sig for MultiSig<S> {
    fn same_sig(&self, other: &Self) -> (res: bool) {
        if self.sigs.len() != other.sigs.len() {
            assert(self@.len() != other@.len());
            return false;
        }
        let mut i: usize = 0;
        while i < self.sigs.len()
            invariant
                i <= self.sigs@.len(),
                self.sigs@.len() == other.sigs@.len(),
                forall|j: int| 0 <= j < i ==> self.sigs@[j]@ == other.sigs@[j]@,
            decreases self.sigs@.len() - i,
        {
            if !self.sigs[i].same_sig(&other.sigs[i]) {
                assert(self@[i as int] != other@[i as int]);
                return false;
            }
            i = i + 1;
        }
        assert(self@ =~= other@);
        true
    }
}

impl<S: Sig> Default for MultiSig<S> {
    fn default() -> (res: Self)
        ensures
            res.sigs@.len() == 0,
    {
        MultiSig { sigs: Vec::new() }
    }
}

/// Whether signature `r` repeats a signature that comes before it.
pub open spec fn repeats_earlier<S: Sig>(sigs: Seq<S>, r: int) -> bool {
    exists|j: int| 0 <= j < r && sigs[j]@ == sigs[r]@
}

/// Whether the signer at index `k` is the same as a signer already matched by
/// `pairs`, which pair signer indices with signature indices.
pub open spec fn already_matched<P: Signer>(signers: Seq<P>, pairs: Seq<(int, int)>, k: int) -> bool {
    exists|q: int| 0 <= q < pairs.len() && signers[pairs[q].0]@ == signers[k]@
}

/// The first signer, from index `k` on, that is not yet matched and accepts
/// `sig` over `msg`.
pub open spec fn first_free_acceptor<S: Sig, P: Signer + MultiSigVerifier<S>>(
    signers: Seq<P>,
    pairs: Seq<(int, int)>,
    msg: Seq<u8>,
    sig: S,
    k: int,
) -> Option<int>
    decreases signers.len() - k,
{
    if k < 0 || k >= signers.len() {
        None
    } else if !already_matched(signers, pairs, k) && signers[k].accepts(msg, sig) {
        Some(k)
    } else {
        first_free_acceptor(signers, pairs, msg, sig, k + 1)
    }
}

/// The matching of signers with the first `i` signatures: each signature that
/// does not repeat an earlier one, in order, is given the first signer that
/// accepts it and is not the same as a signer matched already.
pub open spec fn greedy_matching<S: Sig, P: Signer + MultiSigVerifier<S>>(
    signers: Seq<P>,
    sigs: Seq<S>,
    msg: Seq<u8>,
    i: nat,
) -> Seq<(int, int)>
    decreases i,
{
    if i == 0 {
        Seq::empty()
    } else {
        let prev = greedy_matching(signers, sigs, msg, (i - 1) as nat);
        let r = i - 1;
        if repeats_earlier(sigs, r) {
            prev
        } else {
            match first_free_acceptor(signers, prev, msg, sigs[r], 0) {
                Some(k) => prev.push((k, r)),
                None => prev,
            }
        }
    }
}

/// Whether `pairs` pairs signers with signatures they accept over `msg`, no
/// signer and no signature twice (repeats count as the same one).
pub open spec fn is_matching<S: Sig, P: Signer + MultiSigVerifier<S>>(
    signers: Seq<P>,
    sigs: Seq<S>,
    msg: Seq<u8>,
    pairs: Seq<(int, int)>,
) -> bool {
    &&& forall|q: int|
        #![trigger pairs[q]]
        0 <= q < pairs.len() ==> {
            &&& 0 <= pairs[q].0 < signers.len()
            &&& 0 <= pairs[q].1 < sigs.len()
            &&& signers[pairs[q].0].accepts(msg, sigs[pairs[q].1])
        }
    &&& forall|q1: int, q2: int|
        #![trigger pairs[q1], pairs[q2]]
        0 <= q1 < q2 < pairs.len() ==> {
            &&& signers[pairs[q1].0]@ != signers[pairs[q2].0]@
            &&& sigs[pairs[q1].1]@ != sigs[pairs[q2].1]@
        }
}

/// Whether no signature is accepted by two different signers: what a
/// signature scheme is meant to ensure.
pub open spec fn each_sig_has_one_signer<S: Sig, P: Signer + MultiSigVerifier<S>>(
    signers: Seq<P>,
    sigs: Seq<S>,
    msg: Seq<u8>,
) -> bool {
    forall|a: int, b: int, j: int|
        0 <= a < signers.len() && 0 <= b < signers.len() && 0 <= j < sigs.len() && #[trigger] signers[a].accepts(
            msg,
            sigs[j],
        ) && #[trigger] signers[b].accepts(msg, sigs[j]) ==> signers[a]@ == signers[b]@
}

/// Whether the signers accept a signature exactly when they accept every copy
/// of it.
pub open spec fn acceptance_follows_views<S: Sig, P: Signer + MultiSigVerifier<S>>(
    signers: Seq<P>,
    sigs: Seq<S>,
    msg: Seq<u8>,
) -> bool {
    forall|a: int, j1: int, j2: int|
        0 <= a < signers.len() && 0 <= j1 < sigs.len() && 0 <= j2 < sigs.len() && sigs[j1]@
            == sigs[j2]@ ==> (#[trigger] signers[a].accepts(msg, sigs[j1]) <==> #[trigger] signers[a].accepts(
            msg,
            sigs[j2],
        ))
}

/// Whether `found` lists the signers that `pairs` match, in order.
pub open spec fn found_signers_agree<P>(found: Seq<&P>, pairs: Seq<(int, int)>, signers: Seq<P>) -> bool {
    &&& found.len() == pairs.len()
    &&& forall|q: int|
        #![trigger pairs[q]]
        0 <= q < pairs.len() ==> 0 <= pairs[q].0 < signers.len() && found[q] == signers[pairs[q].0]
}

impl<P: Signer> SignerSet<P> {
    /// Construct a new `SignerSet` from a list of signers and threshold.
    pub fn new(signer_set: Vec<P>, threshold: u8) -> (res: Self)
        ensures
            res.signer_set@ == signer_set@,
            res.threshold == threshold,
    {
        SignerSet { signer_set, threshold }
    }

    /// Whether the set accepts the multi-signature: it holds at least
    /// `threshold` and at most `MAX_SIGNATURES` signatures, and the matching
    /// of its signers with the signatures pairs at least `threshold` of them.
    pub open spec fn accepts_multisig<S: Sig>(&self, msg: Seq<u8>, sig: MultiSig<S>) -> bool where
        P: MultiSigVerifier<S>,
     {
        &&& self.threshold <= sig.sigs@.len() <= MAX_SIGNATURES
        &&& greedy_matching(self.signer_set@, sig.sigs@, msg, sig.sigs@.len()).len()
            >= self.threshold
    }

    /// Verify a message against a multi-signature, returning the list of
    /// signers that signed it: for each signature, in order and counting a
    /// repeated one once, the first signer that accepts it and is not the
    /// same as a signer already found.
    pub fn verify<'a, S: Sig>(&'a self, msg: &[u8], multi_sig: &MultiSig<S>) -> (res: Result<
        Vec<&'a P>,
        (),
    >) where P: MultiSigVerifier<S>
        ensures
            res is Ok <==> self.accepts_multisig(msg@, *multi_sig),
            res matches Ok(found) ==> {
                let pairs = greedy_matching(
                    self.signer_set@,
                    multi_sig.sigs@,
                    msg@,
                    multi_sig.sigs@.len(),
                );
                found_signers_agree(found@, pairs, self.signer_set@)
            },
    {
        let ghost signers = self.signer_set@;
        let ghost sigs = multi_sig.sigs@;
        let n_sigs = multi_sig.sigs.len();
        // If the signature contains less than the threshold number of signers or more
        // than the hardcoded limit, there's no point in trying.
        if n_sigs < self.threshold as usize || n_sigs > MAX_SIGNATURES {
            return Err(());
        }
        let n = self.signer_set.len();
        let mut free: Vec<bool> = Vec::new();
        let mut k0: usize = 0;
        while k0 < n
            invariant
                k0 <= n,
                n == signers.len(),
                free@.len() == k0,
                forall|k: int| 0 <= k < k0 ==> free@[k],
            decreases n - k0,
        {
            free.push(true);
            k0 = k0 + 1;
        }
        let ghost mut pairs: Seq<(int, int)> = Seq::empty();
        let mut matched: Vec<&'a P> = Vec::new();
        let mut i: usize = 0;
        while i < n_sigs
            invariant
                i <= n_sigs,
                n_sigs == sigs.len(),
                n == signers.len(),
                signers == self.signer_set@,
                sigs == multi_sig.sigs@,
                pairs == greedy_matching(signers, sigs, msg@, i as nat),
                free@.len() == n,
                forall|k: int| 0 <= k < n ==> free@[k] == !already_matched(signers, pairs, k),
                matched@.len() == pairs.len(),
                found_signers_agree(matched@, pairs, signers),
            decreases n_sigs - i,
        {
            // Signatures that repeat an earlier one are counted once.
            let mut repeat = false;
            let mut j: usize = 0;
            while j < i
                invariant
                    j <= i,
                    i < sigs.len(),
                    sigs == multi_sig.sigs@,
                    n == signers.len(),
                    signers == self.signer_set@,
                    pairs == greedy_matching(signers, sigs, msg@, i as nat),
                    repeat == exists|j2: int| 0 <= j2 < j && sigs[j2]@ == sigs[i as int]@,
                    matched@.len() == pairs.len(),
                    found_signers_agree(matched@, pairs, signers),
                decreases i - j,
            {
                if multi_sig.sigs[j].same_sig(&multi_sig.sigs[i]) {
                    repeat = true;
                }
                j = j + 1;
            }
            if !repeat {
                // The first signer not yet matched that accepts the signature.
                let ghost first = first_free_acceptor(signers, pairs, msg@, sigs[i as int], 0);
                let mut found: Option<usize> = None;
                let mut k: usize = 0;
                while k < n
                    invariant
                        k <= n,
                        n == signers.len(),
                        i < sigs.len(),
                        signers == self.signer_set@,
                        sigs == multi_sig.sigs@,
                        free@.len() == n,
                        forall|k2: int| 0 <= k2 < n ==> free@[k2] == !already_matched(signers, pairs, k2),
                        first == first_free_acceptor(signers, pairs, msg@, sigs[i as int], 0),
                        found is None ==> first == first_free_acceptor(
                            signers,
                            pairs,
                            msg@,
                            sigs[i as int],
                            k as int,
                        ),
                        found matches Some(f) ==> f < n && first == Some(f as int),
                        matched@.len() == pairs.len(),
                        found_signers_agree(matched@, pairs, signers),
                    decreases n - k,
                {
                    if found.is_none() && free[k] {
                        if self.signer_set[k].verify(msg, &multi_sig.sigs[i]).is_ok() {
                            found = Some(k);
                        }
                    }
                    k = k + 1;
                }
                match found {
                    Some(f) => {
                        let ghost new_pairs = pairs.push((f as int, i as int));
                        let mut k2: usize = 0;
                        while k2 < n
                            invariant
                                k2 <= n,
                                f < n,
                                n == signers.len(),
                                signers == self.signer_set@,
                                free@.len() == n,
                                new_pairs == pairs.push((f as int, i as int)),
                                matched@.len() == pairs.len(),
                                found_signers_agree(matched@, pairs, signers),
                                forall|k3: int|
                                    0 <= k3 < k2 ==> free@[k3] == !already_matched(
                                        signers,
                                        new_pairs,
                                        k3,
                                    ),
                                forall|k3: int|
                                    k2 <= k3 < n ==> free@[k3] == !already_matched(
                                        signers,
                                        pairs,
                                        k3,
                                    ),
                            decreases n - k2,
                        {
                            proof {
                                let k3 = k2 as int;
                                if already_matched(signers, pairs, k3) {
                                    let q = choose|q: int|
                                        0 <= q < pairs.len() && signers[pairs[q].0]@
                                            == signers[k3]@;
                                    assert(new_pairs[q] == pairs[q]);
                                }
                                if signers[f as int]@ == signers[k3]@ {
                                    assert(new_pairs[pairs.len() as int] == (f as int, i as int));
                                }
                                if already_matched(signers, new_pairs, k3) {
                                    let q = choose|q: int|
                                        0 <= q < new_pairs.len() && signers[new_pairs[q].0]@
                                            == signers[k3]@;
                                    if q < pairs.len() {
                                        assert(new_pairs[q] == pairs[q]);
                                    }
                                }
                            }
                            if free[k2] && self.signer_set[k2].same_signer(&self.signer_set[f]) {
                                free.set(k2, false);
                            }
                            k2 = k2 + 1;
                        }
                        let ghost old_matched = matched@;
                        matched.push(&self.signer_set[f]);
                        proof {
                            assert forall|q: int| #![trigger new_pairs[q]] 0 <= q < new_pairs.len() implies 0 <= new_pairs[q].0
                                < signers.len() && matched@[q] == signers[new_pairs[q].0] by {
                                if q < pairs.len() {
                                    assert(new_pairs[q] == pairs[q]);
                                    assert(matched@[q] == old_matched[q]);
                                }
                            }
                            assert(found_signers_agree(matched@, new_pairs, signers));
                            pairs = new_pairs;
                        }
                    },
                    None => {},
                }
            }
            i = i + 1;
        }
        // Did we pass the threshold of verified signatures?
        if matched.len() < self.threshold as usize {
            return Err(());
        }
        Ok(matched)
    }
}

impl<P: Signer> Default for SignerSet<P> {
    fn default() -> (res: Self)
        ensures
            res.signer_set@.len() == 0,
            res.threshold == 0,
    {
        SignerSet { signer_set: Vec::new(), threshold: 0 }
    }
}

/// A signer set verifies a multi-signature as the inherent `verify` does,
/// without the list of signers.
impl<S: Sig, PK: Signer + MultiSigVerifier<S>> MultiSigVerifier<MultiSig<S>> for SignerSet<PK> {
    open spec fn accepts(&self, msg: Seq<u8>, sig: MultiSig<S>) -> bool {
        self.accepts_multisig(msg, sig)
    }

    fn verify(&self, msg: &[u8], sig: &MultiSig<S>) -> (res: Result<(), ()>) {
        match SignerSet::<PK>::verify(self, msg, sig) {
            Ok(_) => Ok(()),
            Err(()) => Err(()),
        }
    }
}

/// What the search for a free acceptor finds: a signer from `k0` on that is
/// not yet matched and accepts `sig`, or, when none is found, that every
/// signer from `k0` on is matched already or refuses `sig`.
proof fn lemma_first_free_acceptor<S: Sig, P: Signer + MultiSigVerifier<S>>(
    signers: Seq<P>,
    pairs: Seq<(int, int)>,
    msg: Seq<u8>,
    sig: S,
    k0: int,
)
    requires
        0 <= k0,
    ensures
        first_free_acceptor(signers, pairs, msg, sig, k0) matches Some(k) ==> {
            &&& k0 <= k < signers.len()
            &&& !already_matched(signers, pairs, k)
            &&& signers[k].accepts(msg, sig)
        },
        first_free_acceptor(signers, pairs, msg, sig, k0) is None ==> forall|k: int|
            k0 <= k < signers.len() ==> already_matched(signers, pairs, k) || !(
            #[trigger] signers[k]).accepts(msg, sig),
    decreases signers.len() - k0,
{
    if k0 < signers.len() {
        lemma_first_free_acceptor(signers, pairs, msg, sig, k0 + 1);
    }
}

/// The greedy matching of the first `i` signatures is a matching, and pairs
/// only signatures among the first `i`.
pub proof fn lemma_greedy_is_matching<S: Sig, P: Signer + MultiSigVerifier<S>>(
    signers: Seq<P>,
    sigs: Seq<S>,
    msg: Seq<u8>,
    i: nat,
)
    requires
        i <= sigs.len(),
    ensures
        is_matching(signers, sigs, msg, greedy_matching(signers, sigs, msg, i)),
        forall|q: int|
            #![trigger greedy_matching(signers, sigs, msg, i)[q]]
            0 <= q < greedy_matching(signers, sigs, msg, i).len() ==> greedy_matching(
                signers,
                sigs,
                msg,
                i,
            )[q].1 < i,
    decreases i,
{
    if i > 0 {
        let prev = greedy_matching(signers, sigs, msg, (i - 1) as nat);
        let r = i - 1;
        lemma_greedy_is_matching(signers, sigs, msg, (i - 1) as nat);
        if !repeats_earlier(sigs, r) {
            lemma_first_free_acceptor(signers, prev, msg, sigs[r], 0);
            if let Some(k) = first_free_acceptor(signers, prev, msg, sigs[r], 0) {
                let cur = prev.push((k, r));
                assert forall|q1: int, q2: int|
                    #![trigger cur[q1], cur[q2]]
                    0 <= q1 < q2 < cur.len() implies {
                    &&& signers[cur[q1].0]@ != signers[cur[q2].0]@
                    &&& sigs[cur[q1].1]@ != sigs[cur[q2].1]@
                } by {
                    assert(cur[q1] == prev[q1]);
                    if q2 < prev.len() {
                        assert(cur[q2] == prev[q2]);
                    } else {
                        assert(cur[q2] == (k, r));
                        assert(prev[q1].1 < r);
                    }
                }
                assert forall|q: int| #![trigger cur[q]] 0 <= q < cur.len() implies {
                    &&& 0 <= cur[q].0 < signers.len()
                    &&& 0 <= cur[q].1 < sigs.len()
                    &&& signers[cur[q].0].accepts(msg, sigs[cur[q].1])
                    &&& cur[q].1 < i
                } by {
                    if q < prev.len() {
                        assert(cur[q] == prev[q]);
                    }
                }
            }
        }
    }
}

/// When no signature is accepted by two different signers, and signers accept
/// every copy of a signature they accept, every signer that accepts one of
/// the first `i` signatures is the same as a signer the greedy matching of
/// those signatures matched.
proof fn lemma_greedy_covers<S: Sig, P: Signer + MultiSigVerifier<S>>(
    signers: Seq<P>,
    sigs: Seq<S>,
    msg: Seq<u8>,
    i: nat,
)
    requires
        i <= sigs.len(),
        each_sig_has_one_signer(signers, sigs, msg),
        acceptance_follows_views(signers, sigs, msg),
    ensures
        forall|r: int, a: int|
            0 <= r < i && 0 <= a < signers.len() && #[trigger] signers[a].accepts(msg, sigs[r])
                ==> already_matched(signers, greedy_matching(signers, sigs, msg, i), a),
    decreases i,
{
    if i > 0 {
        let prev = greedy_matching(signers, sigs, msg, (i - 1) as nat);
        let cur = greedy_matching(signers, sigs, msg, i);
        let r = i - 1;
        lemma_greedy_covers(signers, sigs, msg, (i - 1) as nat);
        // What was matched stays matched.
        assert forall|a: int| 0 <= a < signers.len() && already_matched(signers, prev, a) implies already_matched(
            signers,
            cur,
            a,
        ) by {
            let q = choose|q: int| 0 <= q < prev.len() && signers[prev[q].0]@ == signers[a]@;
            if cur != prev {
                assert(cur[q] == prev[q]);
            }
        }
        assert forall|r2: int, a: int|
            0 <= r2 < i && 0 <= a < signers.len() && #[trigger] signers[a].accepts(
                msg,
                sigs[r2],
            ) implies already_matched(signers, cur, a) by {
            if r2 < r {
                assert(already_matched(signers, prev, a));
            } else if repeats_earlier(sigs, r) {
                let j = choose|j: int| 0 <= j < r && sigs[j]@ == sigs[r]@;
                assert(signers[a].accepts(msg, sigs[j]));
                assert(already_matched(signers, prev, a));
            } else {
                lemma_first_free_acceptor(signers, prev, msg, sigs[r], 0);
                match first_free_acceptor(signers, prev, msg, sigs[r], 0) {
                    Some(k) => {
                        assert(signers[k].accepts(msg, sigs[r]));
                        assert(signers[k]@ == signers[a]@);
                        assert(cur[prev.len() as int] == (k, r));
                    },
                    None => {
                        assert(already_matched(signers, prev, a) || !signers[a].accepts(msg, sigs[r]));
                    },
                }
            }
        }
    }
}

/// When no signature is accepted by two different signers, and signers accept
/// every copy of a signature they accept, no matching of the signers with the
/// signatures pairs more than the greedy matching does.
pub proof fn lemma_greedy_is_maximal<S: Sig, P: Signer + MultiSigVerifier<S>>(
    signers: Seq<P>,
    sigs: Seq<S>,
    msg: Seq<u8>,
    pairs: Seq<(int, int)>,
)
    requires
        is_matching(signers, sigs, msg, pairs),
        each_sig_has_one_signer(signers, sigs, msg),
        acceptance_follows_views(signers, sigs, msg),
    ensures
        pairs.len() <= greedy_matching(signers, sigs, msg, sigs.len()).len(),
{
    let g = greedy_matching(signers, sigs, msg, sigs.len());
    lemma_greedy_is_matching(signers, sigs, msg, sigs.len());
    lemma_greedy_covers(signers, sigs, msg, sigs.len());
    let a = pairs.map_values(|p: (int, int)| signers[p.0]@);
    let b = g.map_values(|p: (int, int)| signers[p.0]@);
    assert(a.no_duplicates()) by {
        assert forall|x: int, y: int| 0 <= x < a.len() && 0 <= y < a.len() && x != y implies a[x]
            != a[y] by {
            if x < y {
                assert(signers[pairs[x].0]@ != signers[pairs[y].0]@);
            } else {
                assert(signers[pairs[y].0]@ != signers[pairs[x].0]@);
            }
        }
    }
    assert forall|v| a.to_set().contains(v) implies b.to_set().contains(v) by {
        let x = choose|x: int| 0 <= x < a.len() && a[x] == v;
        let p = pairs[x];
        assert(signers[p.0].accepts(msg, sigs[p.1]));
        assert(already_matched(signers, g, p.0));
        let q = choose|q: int| 0 <= q < g.len() && signers[g[q].0]@ == signers[p.0]@;
        assert(b[q] == v);
    }
    a.unique_seq_to_set();
    b.lemma_cardinality_of_set();
    vstd::set_lib::lemma_len_subset(a.to_set(), b.to_set());
}

/// A signer set accepts a multi-signature only if it holds at least
/// `threshold` and at most `MAX_SIGNATURES` signatures, and at least
/// `threshold` different signers of the set each accept a different one of
/// them.
pub proof fn lemma_accepted_means_threshold_met<S: Sig, P: Signer + MultiSigVerifier<S>>(
    set: SignerSet<P>,
    msg: Seq<u8>,
    sig: MultiSig<S>,
)
    requires
        set.accepts_multisig(msg, sig),
    ensures
        set.threshold <= sig.sigs@.len() <= MAX_SIGNATURES,
        exists|pairs: Seq<(int, int)>|
            #[trigger] is_matching(set.signer_set@, sig.sigs@, msg, pairs) && pairs.len()
                >= set.threshold,
{
    lemma_greedy_is_matching(set.signer_set@, sig.sigs@, msg, sig.sigs@.len());
    let g = greedy_matching(set.signer_set@, sig.sigs@, msg, sig.sigs@.len());
    assert(is_matching(set.signer_set@, sig.sigs@, msg, g));
}

/// A signer set accepts a multi-signature that holds at least `threshold` and
/// at most `MAX_SIGNATURES` signatures, of which at least `threshold`
/// different signers of the set each accept a different one, provided no
/// signature is accepted by two different signers and signers accept every
/// copy of a signature they accept.
pub proof fn lemma_threshold_met_is_accepted<S: Sig, P: Signer + MultiSigVerifier<S>>(
    set: SignerSet<P>,
    msg: Seq<u8>,
    sig: MultiSig<S>,
    pairs: Seq<(int, int)>,
)
    requires
        set.threshold <= sig.sigs@.len() <= MAX_SIGNATURES,
        is_matching(set.signer_set@, sig.sigs@, msg, pairs),
        pairs.len() >= set.threshold,
        each_sig_has_one_signer(set.signer_set@, sig.sigs@, msg),
        acceptance_follows_views(set.signer_set@, sig.sigs@, msg),
    ensures
        set.accepts_multisig(msg, sig),
{
    lemma_greedy_is_maximal(set.signer_set@, sig.sigs@, msg, pairs);
}

} // verus!

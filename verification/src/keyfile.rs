//! JSON formats for private keys together with fog data.
//! Files formatted in this way are sufficient to derive an account key in
//! a self-contained way without any context, which is useful for many tools.
use vstd::prelude::*;
use vstd::std_specs::convert::FromSpec;
use vstd::std_specs::convert::FromSpecImpl;

verus! {

/// Historical JSON schema for a root identity
#[derive(Clone, PartialEq, Eq, Hash, Default, Debug)]
pub struct RootIdentityJson {
    /// Root entropy used to derive a user's private keys.
    pub root_entropy: [u8; 32],
    /// User's fog url, if any.
    pub fog_url: String,
    /// User's report id, if any.
    pub fog_report_id: String,
    /// User's fog authority subjectPublicKeyInfo bytes, if any
    pub fog_authority_spki: Vec<u8>,
}

/// The entropy from which an account's private keys are derived.
#[derive(Clone, PartialEq, Eq, Hash, Default, Debug)]
pub struct RootEntropy {
    pub bytes: [u8; 32],
}

/// The values an account key is derived from: its root entropy and its fog
/// data.
#[derive(Clone, PartialEq, Eq, Hash, Default, Debug)]
pub struct RootIdentity {
    pub root_entropy: RootEntropy,
    pub fog_report_url: String,
    pub fog_report_id: String,
    pub fog_authority_spki: Vec<u8>,
}

/// The values of a root identity: entropy, fog url, fog report id and fog
/// authority key, in this order.
pub struct IdentityValues {
    pub root_entropy: Seq<u8>,
    pub fog_url: Seq<char>,
    pub fog_report_id: Seq<char>,
    pub fog_authority_spki: Seq<u8>,
}

impl View for RootIdentityJson {
    type V = IdentityValues;

    open spec fn view(&self) -> IdentityValues {
        IdentityValues {
            root_entropy: self.root_entropy@,
            fog_url: self.fog_url@,
            fog_report_id: self.fog_report_id@,
            fog_authority_spki: self.fog_authority_spki@,
        }
    }
}

impl View for RootIdentity {
    type V = IdentityValues;

    open spec fn view(&self) -> IdentityValues {
        IdentityValues {
            root_entropy: self.root_entropy.bytes@,
            fog_url: self.fog_report_url@,
            fog_report_id: self.fog_report_id@,
            fog_authority_spki: self.fog_authority_spki@,
        }
    }
}

impl<'a> From<&'a RootIdentity> for RootIdentityJson {
    fn from(src: &'a RootIdentity) -> (res: Self)
        ensures
            res@ == src@,
    {
        let fog_authority_spki = src.fog_authority_spki.clone();
        assert(fog_authority_spki@ =~= src.fog_authority_spki@);
        RootIdentityJson {
            root_entropy: src.root_entropy.bytes,
            fog_url: src.fog_report_url.clone(),
            fog_report_id: src.fog_report_id.clone(),
            fog_authority_spki,
        }
    }
}

/// Only the values of the fields are stated, by the `ensures` of `from`: the
/// byte vector is a fresh copy.
impl<'a> FromSpecImpl<&'a RootIdentity> for RootIdentityJson {
    open spec fn obeys_from_spec() -> bool {
        false
    }

    open spec fn from_spec(src: &'a RootIdentity) -> Self {
        RootIdentityJson {
            root_entropy: src.root_entropy.bytes,
            fog_url: src.fog_report_url,
            fog_report_id: src.fog_report_id,
            fog_authority_spki: src.fog_authority_spki,
        }
    }
}

impl From<RootIdentityJson> for RootIdentity {
    fn from(src: RootIdentityJson) -> (res: Self)
        ensures
            res@ == src@,
    {
        RootIdentity {
            root_entropy: RootEntropy { bytes: src.root_entropy },
            fog_report_url: src.fog_url,
            fog_report_id: src.fog_report_id,
            fog_authority_spki: src.fog_authority_spki,
        }
    }
}

impl FromSpecImpl<RootIdentityJson> for RootIdentity {
    open spec fn obeys_from_spec() -> bool {
        true
    }

    open spec fn from_spec(src: RootIdentityJson) -> Self {
        RootIdentity {
            root_entropy: RootEntropy { bytes: src.root_entropy },
            fog_report_url: src.fog_url,
            fog_report_id: src.fog_report_id,
            fog_authority_spki: src.fog_authority_spki,
        }
    }
}

/// Writing a root identity as JSON and reading it back gives the same values.
pub proof fn lemma_json_round_trip(identity: RootIdentity, json: RootIdentityJson)
    requires
        json@ == identity@,
    ensures
        <RootIdentity as FromSpec<RootIdentityJson>>::from_spec(json)@ == identity@,
{
}

} // verus!

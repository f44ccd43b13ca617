use mc_components::keyfile::{RootEntropy, RootIdentity, RootIdentityJson};

#[test]
fn root_identity_json_default_is_empty() {
    let json = RootIdentityJson::default();
    assert_eq!(json.root_entropy, [0u8; 32]);
    assert!(json.fog_url.is_empty());
    assert!(json.fog_report_id.is_empty());
    assert!(json.fog_authority_spki.is_empty());
    let other = RootIdentityJson { fog_url: "fog://x".to_string(), ..json.clone() };
    assert_ne!(json, other);
}

#[test]
fn root_identity_json_round_trip() {
    let identity = RootIdentity {
        root_entropy: RootEntropy { bytes: [7u8; 32] },
        fog_report_url: "fog://fog.example.com".to_string(),
        fog_report_id: "report".to_string(),
        fog_authority_spki: vec![1, 2, 3, 4],
    };
    let json = RootIdentityJson::from(&identity);
    assert_eq!(json.root_entropy, [7u8; 32]);
    assert_eq!(json.fog_url, "fog://fog.example.com");
    assert_eq!(json.fog_report_id, "report");
    assert_eq!(json.fog_authority_spki, vec![1, 2, 3, 4]);
    let back = RootIdentity::from(json);
    assert_eq!(back, identity);
}

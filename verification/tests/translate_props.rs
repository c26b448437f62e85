use daphne_interop::hpke::{HpkeAeadId, HpkeConfig, HpkeKdfId, HpkeKemId, HpkeKeypair};
use daphne_interop::task::{Role, Task, VdafInstance};
use daphne_interop::translate::{
    daphne_vdaf_config_from_janus_vdaf, translate, translate_with_keys, ConfigError,
    DaphneVdafConfig, Prio3Config,
};

fn supported_config(id: u8, public_key: Vec<u8>) -> HpkeConfig {
    HpkeConfig {
        id,
        kem_id: HpkeKemId::X25519HkdfSha256,
        kdf_id: HpkeKdfId::HkdfSha256,
        aead_id: HpkeAeadId::Aes128Gcm,
        public_key,
    }
}

fn example_task(role: Role) -> Task {
    Task {
        id: vec![0x00, 0xff, 0x10, 0x20],
        role,
        leader_url: String::from("http://leader:8080/"),
        helper_url: String::from("http://helper:8080/"),
        min_batch_duration: 3600,
        min_batch_size: 100,
        vdaf: VdafInstance::Count,
        vdaf_verify_keys: vec![vec![0xaa, 0xbb]],
        hpke_keys: vec![HpkeKeypair {
            config: supported_config(7, vec![1, 2, 3, 4]),
            private_key: vec![9, 8, 7],
        }],
        collector_hpke_config: supported_config(1, vec![0xcc, 0xdd]),
        aggregator_auth_tokens: vec![String::from("tok-a"), String::from("tok-b")],
        collector_auth_tokens: vec![String::from("tok-c"), String::from("tok-d")],
    }
}

#[test]
fn translate_single_supported_key() {
    let task = example_task(Role::Leader);
    let tc = translate(&task).expect("a supported task must translate");
    assert_eq!(tc.hpke_receivers.len(), 1);
    assert_eq!(tc.hpke_receivers[0].config.id, 7);
}

#[test]
fn translate_rejects_unsupported_kem() {
    let mut task = example_task(Role::Leader);
    task.hpke_keys[0].config.kem_id = HpkeKemId::P256HkdfSha256;
    let err = translate(&task).expect_err("an unsupported key-exchange must be rejected");
    assert_eq!(
        err,
        ConfigError::UnsupportedHpkeAlgorithm {
            kem_id: HpkeKemId::P256HkdfSha256,
            kdf_id: HpkeKdfId::HkdfSha256,
            aead_id: HpkeAeadId::Aes128Gcm,
        }
    );
}

#[test]
fn translate_rejects_unsupported_kdf() {
    let mut task = example_task(Role::Leader);
    task.hpke_keys[0].config.kdf_id = HpkeKdfId::HkdfSha512;
    let err = translate(&task).expect_err("an unsupported key-derivation must be rejected");
    assert_eq!(
        err,
        ConfigError::UnsupportedHpkeAlgorithm {
            kem_id: HpkeKemId::X25519HkdfSha256,
            kdf_id: HpkeKdfId::HkdfSha512,
            aead_id: HpkeAeadId::Aes128Gcm,
        }
    );
}

#[test]
fn translate_rejects_unsupported_aead() {
    let mut task = example_task(Role::Leader);
    task.hpke_keys[0].config.aead_id = HpkeAeadId::ChaCha20Poly1305;
    let err = translate(&task).expect_err("an unsupported encryption algorithm must be rejected");
    assert_eq!(
        err,
        ConfigError::UnsupportedHpkeAlgorithm {
            kem_id: HpkeKemId::X25519HkdfSha256,
            kdf_id: HpkeKdfId::HkdfSha256,
            aead_id: HpkeAeadId::ChaCha20Poly1305,
        }
    );
}

#[test]
fn translate_rejects_unsupported_collector_config() {
    let mut task = example_task(Role::Leader);
    task.collector_hpke_config.aead_id = HpkeAeadId::Aes256Gcm;
    let err = translate(&task).expect_err("an unsupported collector configuration must be rejected");
    assert_eq!(
        err,
        ConfigError::UnsupportedHpkeAlgorithm {
            kem_id: HpkeKemId::X25519HkdfSha256,
            kdf_id: HpkeKdfId::HkdfSha256,
            aead_id: HpkeAeadId::Aes256Gcm,
        }
    );
}

#[test]
fn translate_rejects_unsupported_vdaf() {
    let mut task = example_task(Role::Leader);
    task.vdaf = VdafInstance::Poplar1 { bits: 64 };
    let err = translate(&task).expect_err("a selector outside the subset must be rejected");
    assert_eq!(err, ConfigError::UnsupportedVdaf);
}

#[test]
fn first_unsupported_key_reported() {
    let mut task = example_task(Role::Leader);
    task.hpke_keys.push(HpkeKeypair {
        config: HpkeConfig {
            id: 9,
            kem_id: HpkeKemId::P256HkdfSha256,
            kdf_id: HpkeKdfId::HkdfSha384,
            aead_id: HpkeAeadId::Aes256Gcm,
            public_key: vec![5],
        },
        private_key: vec![6],
    });
    // Also break the selector: the keypair error must win.
    task.vdaf = VdafInstance::Poplar1 { bits: 8 };
    let err = translate(&task).expect_err("the task is not representable");
    assert_eq!(
        err,
        ConfigError::UnsupportedHpkeAlgorithm {
            kem_id: HpkeKemId::P256HkdfSha256,
            kdf_id: HpkeKdfId::HkdfSha384,
            aead_id: HpkeAeadId::Aes256Gcm,
        }
    );
}

#[test]
fn successive_translations_have_fresh_keys() {
    let task = example_task(Role::Leader);
    let first = translate(&task).expect("translation must succeed");
    let second = translate(&task).expect("translation must succeed");
    for tc in [&first, &second] {
        assert_eq!(tc.bucket_key_hex.len(), 32);
        assert_eq!(tc.collect_id_key_hex.len(), 32);
        for c in tc.bucket_key_hex.chars().chain(tc.collect_id_key_hex.chars()) {
            assert!(c.is_ascii_hexdigit() && !c.is_ascii_uppercase());
        }
    }
    assert_ne!(first.bucket_key_hex, second.bucket_key_hex);
    assert_ne!(first.collect_id_key_hex, second.collect_id_key_hex);
}

#[test]
fn leader_forwards_first_collector_token() {
    let task = example_task(Role::Leader);
    let tc = translate(&task).expect("translation must succeed");
    assert_eq!(tc.collector_token, "tok-c");
}

#[test]
fn helper_collector_token_empty() {
    let task = example_task(Role::Helper);
    let tc = translate(&task).expect("translation must succeed");
    assert_eq!(tc.collector_token, "");
}

#[test]
fn example_count_task_translation() {
    let task = example_task(Role::Leader);
    let bucket_key: Vec<u8> = (0u8..16).collect();
    let collect_id_key: Vec<u8> = (16u8..32).collect();
    let tc = translate_with_keys(&task, &bucket_key, &collect_id_key)
        .expect("translation must succeed");

    assert_eq!(tc.task_entry.vdaf, DaphneVdafConfig::Prio3(Prio3Config::Count));
    assert_eq!(tc.hpke_receivers.len(), 1);
    assert_eq!(tc.hpke_receivers[0].config.id, 7);
    assert_eq!(tc.hpke_receivers[0].config.public_key, "01020304");
    assert_eq!(tc.hpke_receivers[0].config.kem_id, 32);
    assert_eq!(tc.hpke_receivers[0].config.kdf_id, 1);
    assert_eq!(tc.hpke_receivers[0].config.aead_id, 1);
    assert_eq!(tc.hpke_receivers[0].secret_key, "090807");
    assert_eq!(tc.aggregator_token, "tok-a");
    assert_eq!(tc.task_id_hex, "00ff1020");
    assert_eq!(tc.task_entry.version, "v01");
    assert_eq!(tc.task_entry.vdaf_verify_key, "aabb");
    assert_eq!(tc.task_entry.collector_hpke_config.public_key, "ccdd");
    // The two injected keys come back hex-encoded, not as they went in.
    assert_eq!(tc.bucket_key_hex, "000102030405060708090a0b0c0d0e0f");
    assert_eq!(tc.collect_id_key_hex, "101112131415161718191a1b1c1d1e1f");
}

#[test]
fn vdaf_mapping_preserves_parameters() {
    let count = daphne_vdaf_config_from_janus_vdaf(&VdafInstance::Count).unwrap();
    assert_eq!(count, DaphneVdafConfig::Prio3(Prio3Config::Count));

    let histogram = daphne_vdaf_config_from_janus_vdaf(&VdafInstance::Histogram {
        buckets: vec![1, 10, 100],
    })
    .unwrap();
    assert_eq!(
        histogram,
        DaphneVdafConfig::Prio3(Prio3Config::Histogram { buckets: vec![1, 10, 100] })
    );

    let sum = daphne_vdaf_config_from_janus_vdaf(&VdafInstance::Sum { bits: 8 }).unwrap();
    assert_eq!(sum, DaphneVdafConfig::Prio3(Prio3Config::Sum { bits: 8 }));

    let err = daphne_vdaf_config_from_janus_vdaf(&VdafInstance::Poplar1 { bits: 64 });
    assert_eq!(err, Err(ConfigError::UnsupportedVdaf));
}

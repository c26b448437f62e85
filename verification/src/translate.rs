//! Translation of a task description into the reference implementation's
//! native bootstrap representation, validating that the configuration is
//! representable.

use vstd::prelude::*;
use crate::hpke::{HpkeAeadId, HpkeConfig, HpkeKdfId, HpkeKemId, HpkeKeypair};
use crate::task::{Role, Task, VdafInstance};
use crate::text::{hex_encode, lemma_spec_hex_chars, lemma_spec_hex_len, spec_hex, spec_is_hex_char};

verus! {

/// Why a task could not be translated.
#[derive(Clone, Debug, PartialEq, Eq)]
pub enum ConfigError {
    /// An HPKE configuration uses an algorithm triple outside the single
    /// supported combination; carries the offending identifiers.
    UnsupportedHpkeAlgorithm { kem_id: HpkeKemId, kdf_id: HpkeKdfId, aead_id: HpkeAeadId },
    /// The aggregation function selector falls outside the supported subset.
    UnsupportedVdaf,
}

/// The supported aggregation functions in the reference implementation's
/// own vocabulary.
#[derive(Clone, Debug, PartialEq, Eq)]
pub enum Prio3Config {
    Count,
    Histogram { buckets: Vec<u64> },
    Sum { bits: u32 },
}

/// The reference implementation's aggregation function descriptor.
#[derive(Clone, Debug, PartialEq, Eq)]
pub enum DaphneVdafConfig {
    Prio3(Prio3Config),
}

/// Whether the selector lies in the supported subset: counting, histogram
/// and summation aggregators.
pub open spec fn spec_vdaf_supported(v: VdafInstance) -> bool {
    match v {
        VdafInstance::Count => true,
        VdafInstance::Histogram { .. } => true,
        VdafInstance::Sum { .. } => true,
        VdafInstance::Poplar1 { .. } => false,
    }
}

/// The descriptor `d` is the translation of the selector `v`.
pub open spec fn vdaf_translated(v: VdafInstance, d: DaphneVdafConfig) -> bool {
    match v {
        VdafInstance::Count => d == DaphneVdafConfig::Prio3(Prio3Config::Count),
        VdafInstance::Histogram { buckets } => (d matches DaphneVdafConfig::Prio3(
            Prio3Config::Histogram { buckets: b },
        ) && b@ == buckets@),
        VdafInstance::Sum { bits } => d == DaphneVdafConfig::Prio3(Prio3Config::Sum { bits }),
        VdafInstance::Poplar1 { .. } => false,
    }
}

/// Maps the task's aggregation function selector into the reference
/// implementation's descriptor. Total over the selector type: selectors
/// outside the supported subset are reported, never dropped.
pub fn daphne_vdaf_config_from_janus_vdaf(vdaf: &VdafInstance) -> (r: Result<
    DaphneVdafConfig,
    ConfigError,
>)
    ensures
        r is Ok <==> spec_vdaf_supported(*vdaf),
        (r matches Ok(d) ==> vdaf_translated(*vdaf, d)),
        (r matches Err(e) ==> e == ConfigError::UnsupportedVdaf),
{
    match vdaf {
        VdafInstance::Count => Ok(DaphneVdafConfig::Prio3(Prio3Config::Count)),
        VdafInstance::Histogram { buckets } => {
            let b: Vec<u64> = buckets.clone();
            proof {
                assert(b@ =~= buckets@);
            }
            Ok(DaphneVdafConfig::Prio3(Prio3Config::Histogram { buckets: b }))
        },
        VdafInstance::Sum { bits } => Ok(
            DaphneVdafConfig::Prio3(Prio3Config::Sum { bits: *bits }),
        ),
        VdafInstance::Poplar1 { .. } => Err(ConfigError::UnsupportedVdaf),
    }
}

/// An HPKE configuration in the reference implementation's bootstrap shape:
/// numeric algorithm codes and a hex-encoded public key.
#[derive(Clone, Debug)]
pub struct DaphneHpkeConfig {
    pub id: u8,
    pub kem_id: u16,
    pub kdf_id: u16,
    pub aead_id: u16,
    pub public_key: String,
}

/// The bootstrap configuration `d` is the translation of the HPKE
/// configuration `c`.
pub open spec fn hpke_config_translated(c: HpkeConfig, d: DaphneHpkeConfig) -> bool {
    &&& d.id == c.id
    &&& d.kem_id == c.kem_id.spec_code()
    &&& d.kdf_id == c.kdf_id.spec_code()
    &&& d.aead_id == c.aead_id.spec_code()
    &&& d.public_key@ == spec_hex(c.public_key@)
}

impl DaphneHpkeConfig {
    /// Translates one HPKE configuration, checking that it uses the single
    /// supported algorithm triple.
    pub fn try_from_config(c: &HpkeConfig) -> (r: Result<DaphneHpkeConfig, ConfigError>)
        ensures
            r is Ok <==> c.spec_supported(),
            (r matches Ok(d) ==> hpke_config_translated(*c, d)),
            (r matches Err(e) ==> e == (ConfigError::UnsupportedHpkeAlgorithm {
                kem_id: c.kem_id,
                kdf_id: c.kdf_id,
                aead_id: c.aead_id,
            })),
    {
        if !c.supported() {
            return Err(
                ConfigError::UnsupportedHpkeAlgorithm {
                    kem_id: c.kem_id,
                    kdf_id: c.kdf_id,
                    aead_id: c.aead_id,
                },
            );
        }
        Ok(
            DaphneHpkeConfig {
                id: c.id,
                kem_id: c.kem_id.code(),
                kdf_id: c.kdf_id.code(),
                aead_id: c.aead_id.code(),
                public_key: hex_encode(&c.public_key),
            },
        )
    }
}

/// One entry of the bootstrap HPKE receiver list: the translated public
/// configuration and the hex-encoded private key.
#[derive(Clone, Debug)]
pub struct DaphneHpkeReceiverConfig {
    pub config: DaphneHpkeConfig,
    pub secret_key: String,
}

/// The receiver entry `r` is the translation of the keypair `k`.
pub open spec fn receiver_translated(k: HpkeKeypair, r: DaphneHpkeReceiverConfig) -> bool {
    &&& hpke_config_translated(k.config, r.config)
    &&& r.secret_key@ == spec_hex(k.private_key@)
}

/// Global parameters of the reference instance, fixed defaults that suit the
/// test deployment.
#[derive(Clone, Copy, Debug, PartialEq, Eq, Structural)]
pub struct DapGlobalConfig {
    pub max_batch_duration: u64,
    pub min_batch_interval_start: u64,
    pub max_batch_interval_end: u64,
}

/// The fixed global parameters the harness always uses.
pub open spec fn spec_default_global() -> DapGlobalConfig {
    DapGlobalConfig {
        max_batch_duration: 360000,
        min_batch_interval_start: 259200,
        max_batch_interval_end: 259200,
    }
}

/// The per-task bootstrap entry.
#[derive(Clone, Debug)]
pub struct DaphneDapTaskConfig {
    pub version: String,
    pub leader_url: String,
    pub helper_url: String,
    pub min_batch_duration: u64,
    pub min_batch_size: u64,
    pub vdaf: DaphneVdafConfig,
    pub vdaf_verify_key: String,
    pub collector_hpke_config: DaphneHpkeConfig,
}

/// The bootstrap entry `e` is the translation of the task `t`.
pub open spec fn task_entry_translated(t: Task, e: DaphneDapTaskConfig) -> bool {
    &&& e.version@ == "v01"@
    &&& e.leader_url@ == t.leader_url@
    &&& e.helper_url@ == t.helper_url@
    &&& e.min_batch_duration == t.min_batch_duration
    &&& e.min_batch_size == t.min_batch_size
    &&& vdaf_translated(t.vdaf, e.vdaf)
    &&& e.vdaf_verify_key@ == spec_hex(t.vdaf_verify_keys[0]@)
    &&& hpke_config_translated(t.collector_hpke_config, e.collector_hpke_config)
}

/// The fully formed bootstrap configuration of one instance. Constructed
/// once at launch time and never mutated afterward.
#[derive(Clone, Debug)]
pub struct TranslatedConfig {
    /// Fixed global parameters.
    pub global: DapGlobalConfig,
    /// One receiver entry per HPKE keypair of the task, in order.
    pub hpke_receivers: Vec<DaphneHpkeReceiverConfig>,
    /// Hex encoding of the task identifier, the key of the per-task maps.
    pub task_id_hex: String,
    /// The per-task bootstrap entry.
    pub task_entry: DaphneDapTaskConfig,
    /// Fresh random bucket-routing key, hex-encoded.
    pub bucket_key_hex: String,
    /// Fresh random collection-id key, hex-encoded.
    pub collect_id_key_hex: String,
    /// The forwarded primary aggregator-to-aggregator bearer token.
    pub aggregator_token: String,
    /// The forwarded primary collector-to-leader bearer token; empty when
    /// the role is Helper.
    pub collector_token: String,
    /// The role the instance plays.
    pub role: Role,
}

/// Every HPKE configuration of the task, the collector configuration
/// included, uses the supported triple, and the selector is supported:
/// exactly then is the task representable.
pub open spec fn spec_task_supported(t: Task) -> bool {
    &&& forall|i: int|
        0 <= i < t.hpke_keys.len() ==> (#[trigger] t.hpke_keys[i].config).spec_supported()
    &&& spec_vdaf_supported(t.vdaf)
    &&& t.collector_hpke_config.spec_supported()
}

/// The configuration `tc` is the translation of the task `t` under the two
/// given fresh keys.
pub open spec fn translated(
    t: Task,
    bucket_key: Seq<u8>,
    collect_id_key: Seq<u8>,
    tc: TranslatedConfig,
) -> bool {
    &&& tc.global == spec_default_global()
    &&& tc.hpke_receivers.len() == t.hpke_keys.len()
    &&& forall|i: int|
        0 <= i < t.hpke_keys.len() ==> receiver_translated(
            t.hpke_keys[i],
            #[trigger] tc.hpke_receivers[i],
        )
    &&& tc.task_id_hex@ == spec_hex(t.id@)
    &&& task_entry_translated(t, tc.task_entry)
    &&& tc.bucket_key_hex@ == spec_hex(bucket_key)
    &&& tc.collect_id_key_hex@ == spec_hex(collect_id_key)
    &&& tc.aggregator_token@ == t.aggregator_auth_tokens[0]@
    &&& (t.role == Role::Leader ==> tc.collector_token@ == t.collector_auth_tokens[0]@)
    &&& (t.role == Role::Helper ==> tc.collector_token@ == Seq::<char>::empty())
    &&& tc.role == t.role
}

/// The first keypair of the list, in order, whose configuration does not use
/// the supported triple.
pub open spec fn spec_first_unsupported(keys: Seq<HpkeKeypair>) -> Option<HpkeConfig>
    decreases keys.len(),
{
    if keys.len() == 0 {
        Option::None
    } else if !keys.first().config.spec_supported() {
        Option::Some(keys.first().config)
    } else {
        spec_first_unsupported(keys.drop_first())
    }
}

/// The error translation reports for an unrepresentable task: the first
/// unsupported keypair wins, then the selector, then the collector
/// configuration.
pub open spec fn spec_translation_error(t: Task) -> ConfigError {
    match spec_first_unsupported(t.hpke_keys@) {
        Option::Some(c) => ConfigError::UnsupportedHpkeAlgorithm {
            kem_id: c.kem_id,
            kdf_id: c.kdf_id,
            aead_id: c.aead_id,
        },
        Option::None => if !spec_vdaf_supported(t.vdaf) {
            ConfigError::UnsupportedVdaf
        } else {
            ConfigError::UnsupportedHpkeAlgorithm {
                kem_id: t.collector_hpke_config.kem_id,
                kdf_id: t.collector_hpke_config.kdf_id,
                aead_id: t.collector_hpke_config.aead_id,
            }
        },
    }
}

/// If the keys up to `i` are supported and key `i` is not, key `i` is the
/// first unsupported one.
proof fn lemma_first_unsupported_at(keys: Seq<HpkeKeypair>, i: int)
    requires
        0 <= i < keys.len(),
        !keys[i].config.spec_supported(),
        forall|j: int| 0 <= j < i ==> (#[trigger] keys[j].config).spec_supported(),
    ensures
        spec_first_unsupported(keys) == Option::Some(keys[i].config),
    decreases i,
{
    if i == 0 {
    } else {
        lemma_first_unsupported_at(keys.drop_first(), i - 1);
    }
}

/// If every key is supported, no key is the first unsupported one.
proof fn lemma_first_unsupported_none(keys: Seq<HpkeKeypair>)
    requires
        forall|j: int| 0 <= j < keys.len() ==> (#[trigger] keys[j].config).spec_supported(),
    ensures
        spec_first_unsupported(keys) is None,
    decreases keys.len(),
{
    if keys.len() > 0 {
        lemma_first_unsupported_none(keys.drop_first());
    }
}

/// Translates a task under two given 16-byte keys. Deterministic; performs
/// no input or output. Succeeds exactly when every HPKE configuration uses
/// the supported algorithm triple and the selector is supported.
pub fn translate_with_keys(
    task: &Task,
    bucket_key: &Vec<u8>,
    collect_id_key: &Vec<u8>,
) -> (r: Result<TranslatedConfig, ConfigError>)
    requires
        task.wf(),
        bucket_key@.len() == 16,
        collect_id_key@.len() == 16,
    ensures
        r is Ok <==> spec_task_supported(*task),
        (r matches Ok(tc) ==> translated(*task, bucket_key@, collect_id_key@, tc)),
        (r matches Err(e) ==> e == spec_translation_error(*task)),
{
    // Validate and translate every HPKE keypair, in rotation order.
    let n: usize = task.hpke_keys.len();
    let mut receivers: Vec<DaphneHpkeReceiverConfig> = Vec::new();
    let mut i: usize = 0;
    while i < n
        invariant
            task.wf(),
            n == task.hpke_keys.len(),
            i <= n,
            receivers.len() == i,
            forall|j: int|
                0 <= j < i ==> receiver_translated(
                    task.hpke_keys[j],
                    #[trigger] receivers[j],
                ),
            forall|j: int| 0 <= j < i ==> (#[trigger] task.hpke_keys[j].config).spec_supported(),
        decreases n - i,
    {
        let keypair = &task.hpke_keys[i];
        match DaphneHpkeConfig::try_from_config(&keypair.config) {
            Ok(config) => {
                let secret_key = hex_encode(&keypair.private_key);
                receivers.push(DaphneHpkeReceiverConfig { config, secret_key });
            },
            Err(e) => {
                proof {
                    lemma_first_unsupported_at(task.hpke_keys@, i as int);
                }
                return Err(e);
            },
        }
        i = i + 1;
    }
    proof {
        lemma_first_unsupported_none(task.hpke_keys@);
    }

    // Map the aggregation function selector through a total function.
    let vdaf = match daphne_vdaf_config_from_janus_vdaf(&task.vdaf) {
        Ok(v) => v,
        Err(e) => {
            return Err(e);
        },
    };

    // The collector configuration passes through the same validation.
    let collector_hpke_config = match DaphneHpkeConfig::try_from_config(
        &task.collector_hpke_config,
    ) {
        Ok(c) => c,
        Err(e) => {
            return Err(e);
        },
    };

    let task_entry = DaphneDapTaskConfig {
        version: String::from_str("v01"),
        leader_url: task.leader_url.clone(),
        helper_url: task.helper_url.clone(),
        min_batch_duration: task.min_batch_duration,
        min_batch_size: task.min_batch_size,
        vdaf,
        vdaf_verify_key: hex_encode(&task.vdaf_verify_keys[0]),
        collector_hpke_config,
    };

    // Exactly one primary token of each rotation-ordered list is forwarded;
    // the collector protocol runs against the leader only, so a helper gets
    // an explicit empty collector token.
    let aggregator_token = task.primary_aggregator_auth_token().clone();
    let collector_token = match task.role {
        Role::Leader => task.primary_collector_auth_token().clone(),
        Role::Helper => String::new(),
    };

    Ok(
        TranslatedConfig {
            global: DapGlobalConfig {
                max_batch_duration: 360000,
                min_batch_interval_start: 259200,
                max_batch_interval_end: 259200,
            },
            hpke_receivers: receivers,
            task_id_hex: hex_encode(&task.id),
            task_entry,
            bucket_key_hex: hex_encode(bucket_key),
            collect_id_key_hex: hex_encode(collect_id_key),
            aggregator_token,
            collector_token,
            role: task.role,
        },
    )
}

/// Relies on rand::thread_rng and rand::Rng::fill: fills a 16-byte buffer
/// with bytes from a cryptographically strong generator.
#[verifier::external_body]
fn random_key_16() -> (r: Vec<u8>)
    ensures
        r@.len() == 16,
{
    let mut buf = [0u8; 16];
    rand::Rng::fill(&mut rand::thread_rng(), &mut buf[..]);
    buf.to_vec()
}

/// Translates a task into a fully formed bootstrap configuration, with a
/// fresh random bucket-routing key and a fresh random collection-id key of
/// 16 bytes each. Performs no input or output beyond drawing those keys;
/// succeeds exactly when the task is representable.
pub fn translate(task: &Task) -> (r: Result<TranslatedConfig, ConfigError>)
    requires
        task.wf(),
    ensures
        r is Ok <==> spec_task_supported(*task),
        (r matches Ok(tc) ==> exists|b: Seq<u8>, c: Seq<u8>|
            #![auto]
            b.len() == 16 && c.len() == 16 && translated(*task, b, c, tc)),
        (r matches Ok(tc) ==> tc.bucket_key_hex@.len() == 32 && tc.collect_id_key_hex@.len()
            == 32),
        (r matches Err(e) ==> e == spec_translation_error(*task)),
{
    let bucket_key = random_key_16();
    let collect_id_key = random_key_16();
    let r = translate_with_keys(task, &bucket_key, &collect_id_key);
    proof {
        if r is Ok {
            let tc = r->Ok_0;
            assert(translated(*task, bucket_key@, collect_id_key@, tc));
            lemma_spec_hex_len(bucket_key@);
            lemma_spec_hex_len(collect_id_key@);
        }
    }
    r
}

/// Law: the bucket-routing key and the collection-id key of a translation
/// are 16 bytes each, and each is carried as exactly 32 lowercase
/// hexadecimal characters. (That two successive translations draw distinct
/// keys is a property of the random source, observed by tests, not proved.)
pub proof fn lemma_fresh_keys_hex_shape(
    t: Task,
    b: Seq<u8>,
    c: Seq<u8>,
    tc: TranslatedConfig,
)
    requires
        b.len() == 16,
        c.len() == 16,
        translated(t, b, c, tc),
    ensures
        tc.bucket_key_hex@.len() == 32,
        tc.collect_id_key_hex@.len() == 32,
        forall|i: int|
            0 <= i < 32 ==> spec_is_hex_char(#[trigger] tc.bucket_key_hex@[i]) && spec_is_hex_char(
                tc.collect_id_key_hex@[i],
            ),
{
    lemma_spec_hex_len(b);
    lemma_spec_hex_len(c);
    lemma_spec_hex_chars(b);
    lemma_spec_hex_chars(c);
}

/// Law: a task whose single HPKE keypair uses the supported algorithm
/// triple, whose selector is in the supported subset and whose collector
/// configuration is supported is representable, and every translation of it
/// has exactly one receiver entry, whose id is the input key's id.
pub proof fn lemma_single_supported_key_translates(t: Task)
    requires
        t.wf(),
        t.hpke_keys.len() == 1,
        t.hpke_keys[0].config.spec_supported(),
        spec_vdaf_supported(t.vdaf),
        t.collector_hpke_config.spec_supported(),
    ensures
        spec_task_supported(t),
        forall|b: Seq<u8>, c: Seq<u8>, tc: TranslatedConfig|
            #[trigger] translated(t, b, c, tc) ==> tc.hpke_receivers.len() == 1
                && tc.hpke_receivers[0].config.id == t.hpke_keys[0].config.id,
{
    assert forall|i: int| 0 <= i < t.hpke_keys.len() implies (
    #[trigger] t.hpke_keys[i].config).spec_supported() by {
        assert(i == 0);
    }
    assert forall|b: Seq<u8>, c: Seq<u8>, tc: TranslatedConfig|
        #[trigger] translated(t, b, c, tc) implies tc.hpke_receivers.len() == 1
        && tc.hpke_receivers[0].config.id == t.hpke_keys[0].config.id by {
        assert(receiver_translated(t.hpke_keys[0], tc.hpke_receivers[0]));
    }
}

/// Law: a task one of whose HPKE keypairs uses an unsupported
/// key-encapsulation, key-derivation or encryption algorithm is not
/// representable, and the reported error names an offending configuration's
/// identifiers.
pub proof fn lemma_unsupported_key_rejected(t: Task, i: int)
    requires
        t.wf(),
        0 <= i < t.hpke_keys.len(),
        !t.hpke_keys[i].config.spec_supported(),
    ensures
        !spec_task_supported(t),
        spec_translation_error(t) matches ConfigError::UnsupportedHpkeAlgorithm {
            kem_id,
            kdf_id,
            aead_id,
        } && exists|j: int|
            #![auto]
            0 <= j < t.hpke_keys.len() && !t.hpke_keys[j].config.spec_supported()
                && t.hpke_keys[j].config.kem_id == kem_id && t.hpke_keys[j].config.kdf_id == kdf_id
                && t.hpke_keys[j].config.aead_id == aead_id,
{
    lemma_first_unsupported_is_a_key(t.hpke_keys@);
}

/// The first unsupported entry of a keypair list, where there is one, is the
/// configuration of one of its keypairs, and an unsupported one.
proof fn lemma_first_unsupported_is_a_key(keys: Seq<HpkeKeypair>)
    requires
        exists|i: int| 0 <= i < keys.len() && !(#[trigger] keys[i].config).spec_supported(),
    ensures
        spec_first_unsupported(keys) matches Option::Some(c) && exists|j: int|
            #![auto]
            0 <= j < keys.len() && keys[j].config == c && !c.spec_supported(),
    decreases keys.len(),
{
    if !keys.first().config.spec_supported() {
        assert(keys[0].config == keys.first().config);
    } else {
        let i = choose|i: int| 0 <= i < keys.len() && !(#[trigger] keys[i].config).spec_supported();
        assert(keys.drop_first()[i - 1] == keys[i]);
        lemma_first_unsupported_is_a_key(keys.drop_first());
        let j = choose|j: int|
            #![auto]
            0 <= j < keys.drop_first().len() && keys.drop_first()[j].config
                == spec_first_unsupported(keys.drop_first())->Some_0 && !keys.drop_first()[j].config.spec_supported();
        assert(keys[j + 1].config == keys.drop_first()[j].config);
    }
}

} // verus!

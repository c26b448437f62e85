use daphne_interop::bootstrap::{
    bootstrap_args, internal_port, maintenance_interval_ms, maintenance_request_body,
    maintenance_request_path,
};
use daphne_interop::task::Role;
use daphne_interop::translate::{
    DapGlobalConfig, DaphneDapTaskConfig, DaphneHpkeConfig, DaphneHpkeReceiverConfig,
    DaphneVdafConfig, Prio3Config, TranslatedConfig,
};

fn receiver(id: u8, public_key: &str, secret_key: &str) -> DaphneHpkeReceiverConfig {
    DaphneHpkeReceiverConfig {
        config: DaphneHpkeConfig {
            id,
            kem_id: 32,
            kdf_id: 1,
            aead_id: 1,
            public_key: String::from(public_key),
        },
        secret_key: String::from(secret_key),
    }
}

fn example_config(role: Role) -> TranslatedConfig {
    TranslatedConfig {
        global: DapGlobalConfig {
            max_batch_duration: 360000,
            min_batch_interval_start: 259200,
            max_batch_interval_end: 259200,
        },
        hpke_receivers: vec![receiver(7, "0102", "0304")],
        task_id_hex: String::from("00ff"),
        task_entry: DaphneDapTaskConfig {
            version: String::from("v01"),
            leader_url: String::from("http://leader:8080/"),
            helper_url: String::from("http://helper:8080/"),
            min_batch_duration: 3600,
            min_batch_size: 100,
            vdaf: DaphneVdafConfig::Prio3(Prio3Config::Count),
            vdaf_verify_key: String::from("aabb"),
            collector_hpke_config: DaphneHpkeConfig {
                id: 1,
                kem_id: 32,
                kdf_id: 1,
                aead_id: 1,
                public_key: String::from("ccdd"),
            },
        },
        bucket_key_hex: String::from("000102030405060708090a0b0c0d0e0f"),
        collect_id_key_hex: String::from("101112131415161718191a1b1c1d1e1f"),
        aggregator_token: String::from("tok-a"),
        collector_token: String::from("tok-c"),
        role,
    }
}

#[test]
fn leader_args_exact() {
    let args = bootstrap_args(&example_config(Role::Leader));
    let expected = vec![
        String::from("--port=8080"),
        String::from("--binding=DAP_DEPLOYMENT=prod"),
        String::from("--binding=DAP_ISSUE73_DISABLE_AGG_JOB_QUEUE_GARBAGE_COLLECTION=true"),
        String::from("--binding=DAP_AGGREGATOR_ROLE=leader"),
        String::from(
            "--binding=DAP_GLOBAL_CONFIG={\"max_batch_duration\":360000,\
             \"min_batch_interval_start\":259200,\"max_batch_interval_end\":259200}",
        ),
        String::from(
            "--binding=DAP_HPKE_RECEIVER_CONFIG_LIST=[{\"config\":{\"id\":7,\"kem_id\":32,\
             \"kdf_id\":1,\"aead_id\":1,\"public_key\":\"0102\"},\"secret_key\":\"0304\"}]",
        ),
        String::from("--binding=DAP_BUCKET_KEY=000102030405060708090a0b0c0d0e0f"),
        String::from("--binding=DAP_BUCKET_COUNT=2"),
        String::from("--binding=DAP_COLLECT_ID_KEY=101112131415161718191a1b1c1d1e1f"),
        String::from(
            "--binding=DAP_TASK_LIST={\"00ff\":{\"version\":\"v01\",\
             \"leader_url\":\"http://leader:8080/\",\"helper_url\":\"http://helper:8080/\",\
             \"min_batch_duration\":3600,\"min_batch_size\":100,\"vdaf\":{\"prio3\":\"count\"},\
             \"vdaf_verify_key\":\"aabb\",\"collector_hpke_config\":{\"id\":1,\"kem_id\":32,\
             \"kdf_id\":1,\"aead_id\":1,\"public_key\":\"ccdd\"}}}",
        ),
        String::from("--binding=DAP_LEADER_BEARER_TOKEN_LIST={\"00ff\":\"tok-a\"}"),
        String::from("--binding=DAP_COLLECTOR_BEARER_TOKEN_LIST={\"00ff\":\"tok-c\"}"),
    ];
    assert_eq!(args, expected);
}

#[test]
fn helper_collector_binding_is_empty() {
    let args = bootstrap_args(&example_config(Role::Helper));
    assert_eq!(args[3], "--binding=DAP_AGGREGATOR_ROLE=helper");
    assert_eq!(args[11], "--binding=DAP_COLLECTOR_BEARER_TOKEN_LIST=");
}

#[test]
fn histogram_vdaf_rendered_with_buckets() {
    let mut tc = example_config(Role::Leader);
    tc.task_entry.vdaf =
        DaphneVdafConfig::Prio3(Prio3Config::Histogram { buckets: vec![1, 10, 100] });
    let args = bootstrap_args(&tc);
    assert!(
        args[9].contains("\"vdaf\":{\"prio3\":{\"histogram\":{\"buckets\":[1,10,100]}}}"),
        "task list binding was {}",
        args[9]
    );
}

#[test]
fn sum_vdaf_rendered_with_bits() {
    let mut tc = example_config(Role::Leader);
    tc.task_entry.vdaf = DaphneVdafConfig::Prio3(Prio3Config::Sum { bits: 8 });
    let args = bootstrap_args(&tc);
    assert!(
        args[9].contains("\"vdaf\":{\"prio3\":{\"sum\":{\"bits\":8}}}"),
        "task list binding was {}",
        args[9]
    );
}

#[test]
fn tokens_are_json_escaped() {
    let mut tc = example_config(Role::Leader);
    tc.aggregator_token = String::from("a\"b\\c\nd");
    let args = bootstrap_args(&tc);
    assert_eq!(
        args[10],
        "--binding=DAP_LEADER_BEARER_TOKEN_LIST={\"00ff\":\"a\\\"b\\\\c\\u000ad\"}"
    );
}

#[test]
fn receiver_entries_join_with_commas() {
    let mut tc = example_config(Role::Leader);
    tc.hpke_receivers = vec![receiver(7, "0102", "0304"), receiver(8, "0506", "0708")];
    let args = bootstrap_args(&tc);
    let value = args[5]
        .strip_prefix("--binding=DAP_HPKE_RECEIVER_CONFIG_LIST=")
        .expect("binding must carry the receiver list");
    assert!(value.starts_with("[{\"config\":{\"id\":7,"));
    assert!(value.contains("},{\"config\":{\"id\":8,"));
    assert!(value.ends_with("}]"));
}

#[test]
fn receiver_list_is_well_formed_json() {
    let mut tc = example_config(Role::Leader);
    tc.hpke_receivers = vec![receiver(7, "0102", "0304"), receiver(8, "0506", "0708")];
    let args = bootstrap_args(&tc);
    let value = args[5]
        .strip_prefix("--binding=DAP_HPKE_RECEIVER_CONFIG_LIST=")
        .expect("binding must carry the receiver list");
    let parsed: serde_json::Value =
        serde_json::from_str(value).expect("the receiver list must parse as JSON");
    let entries = parsed.as_array().expect("the receiver list must be an array");
    assert_eq!(entries.len(), 2);
    assert_eq!(entries[0]["config"]["id"], serde_json::Value::from(7u64));
    assert_eq!(
        entries[1]["config"]["public_key"],
        serde_json::Value::from("0506")
    );
    assert_eq!(entries[1]["secret_key"], serde_json::Value::from("0708"));
}

#[test]
fn task_list_is_well_formed_json() {
    let args = bootstrap_args(&example_config(Role::Leader));
    let value = args[9]
        .strip_prefix("--binding=DAP_TASK_LIST=")
        .expect("binding must carry the task list");
    let parsed: serde_json::Value =
        serde_json::from_str(value).expect("the task list must parse as JSON");
    let entry = &parsed["00ff"];
    assert_eq!(entry["version"], serde_json::Value::from("v01"));
    assert_eq!(entry["min_batch_duration"], serde_json::Value::from(3600u64));
    assert_eq!(entry["vdaf"]["prio3"], serde_json::Value::from("count"));
}

#[test]
fn maintenance_parameters_fixed() {
    assert_eq!(internal_port(), 8080);
    assert_eq!(maintenance_request_path(), "/internal/process");
    assert_eq!(
        maintenance_request_body(),
        "{\"max_buckets\":1000,\"max_reports\":1000}"
    );
    assert_eq!(maintenance_interval_ms(), 250);
    let parsed: serde_json::Value =
        serde_json::from_str(maintenance_request_body()).expect("the body must parse as JSON");
    assert_eq!(parsed["max_buckets"], serde_json::Value::from(1000u64));
    assert_eq!(parsed["max_reports"], serde_json::Value::from(1000u64));
}

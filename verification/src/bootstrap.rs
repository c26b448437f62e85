//! Rendering of a translated configuration into the ordered `KEY=VALUE`
//! bootstrap bindings the reference instance is started with, including the
//! JSON encodings of its configuration objects, and the fixed parameters of
//! the maintenance endpoint.

use vstd::prelude::*;
use crate::task::Role;
use crate::text::{
    chars_to_string, push_dec_u64, push_json_string, push_str_chars, spec_dec, spec_json_string,
};
use crate::translate::{
    DapGlobalConfig, DaphneDapTaskConfig, DaphneHpkeConfig, DaphneHpkeReceiverConfig,
    DaphneVdafConfig, Prio3Config, TranslatedConfig,
};

verus! {

/// Comma-separated decimal rendering of a list of numbers.
pub open spec fn spec_u64_list(s: Seq<u64>) -> Seq<char>
    decreases s.len(),
{
    if s.len() == 0 {
        Seq::empty()
    } else if s.len() == 1 {
        spec_dec(s[0] as nat)
    } else {
        spec_u64_list(s.drop_last()) + ","@ + spec_dec(s.last() as nat)
    }
}

/// JSON encoding of the supported aggregation function variants, externally
/// tagged with lowercase names.
pub open spec fn spec_prio3_json(p: Prio3Config) -> Seq<char> {
    match p {
        Prio3Config::Count => "\"count\""@,
        Prio3Config::Histogram { buckets } => "{\"histogram\":{\"buckets\":["@ + spec_u64_list(
            buckets@,
        ) + "]}}"@,
        Prio3Config::Sum { bits } => "{\"sum\":{\"bits\":"@ + spec_dec(bits as nat) + "}}"@,
    }
}

/// JSON encoding of the aggregation function descriptor.
pub open spec fn spec_vdaf_json(d: DaphneVdafConfig) -> Seq<char> {
    match d {
        DaphneVdafConfig::Prio3(p) => "{\"prio3\":"@ + spec_prio3_json(p) + "}"@,
    }
}

/// JSON encoding of a translated HPKE configuration.
pub open spec fn spec_hpke_config_json(c: DaphneHpkeConfig) -> Seq<char> {
    "{\"id\":"@ + spec_dec(c.id as nat) + ",\"kem_id\":"@ + spec_dec(c.kem_id as nat)
        + ",\"kdf_id\":"@ + spec_dec(c.kdf_id as nat) + ",\"aead_id\":"@ + spec_dec(
        c.aead_id as nat,
    ) + ",\"public_key\":"@ + spec_json_string(c.public_key@) + "}"@
}

/// JSON encoding of one receiver entry.
pub open spec fn spec_receiver_json(r: DaphneHpkeReceiverConfig) -> Seq<char> {
    "{\"config\":"@ + spec_hpke_config_json(r.config) + ",\"secret_key\":"@ + spec_json_string(
        r.secret_key@,
    ) + "}"@
}

/// The comma-separated receiver entries, without the surrounding brackets.
pub open spec fn spec_receivers_inner(rs: Seq<DaphneHpkeReceiverConfig>) -> Seq<char>
    decreases rs.len(),
{
    if rs.len() == 0 {
        Seq::empty()
    } else if rs.len() == 1 {
        spec_receiver_json(rs[0])
    } else {
        spec_receivers_inner(rs.drop_last()) + ","@ + spec_receiver_json(rs.last())
    }
}

/// JSON encoding of the receiver list.
pub open spec fn spec_receiver_list_json(rs: Seq<DaphneHpkeReceiverConfig>) -> Seq<char> {
    "["@ + spec_receivers_inner(rs) + "]"@
}

/// JSON encoding of the global parameters.
pub open spec fn spec_global_json(g: DapGlobalConfig) -> Seq<char> {
    "{\"max_batch_duration\":"@ + spec_dec(g.max_batch_duration as nat)
        + ",\"min_batch_interval_start\":"@ + spec_dec(g.min_batch_interval_start as nat)
        + ",\"max_batch_interval_end\":"@ + spec_dec(g.max_batch_interval_end as nat) + "}"@
}

/// JSON encoding of the per-task bootstrap entry.
pub open spec fn spec_task_entry_json(e: DaphneDapTaskConfig) -> Seq<char> {
    "{\"version\":"@ + spec_json_string(e.version@) + ",\"leader_url\":"@ + spec_json_string(
        e.leader_url@,
    ) + ",\"helper_url\":"@ + spec_json_string(e.helper_url@) + ",\"min_batch_duration\":"@
        + spec_dec(e.min_batch_duration as nat) + ",\"min_batch_size\":"@ + spec_dec(
        e.min_batch_size as nat,
    ) + ",\"vdaf\":"@ + spec_vdaf_json(e.vdaf) + ",\"vdaf_verify_key\":"@ + spec_json_string(
        e.vdaf_verify_key@,
    ) + ",\"collector_hpke_config\":"@ + spec_hpke_config_json(e.collector_hpke_config) + "}"@
}

/// JSON encoding of the task list: one entry, keyed by the hex task
/// identifier.
pub open spec fn spec_task_list_json(tc: TranslatedConfig) -> Seq<char> {
    "{"@ + spec_json_string(tc.task_id_hex@) + ":"@ + spec_task_entry_json(tc.task_entry) + "}"@
}

/// JSON encoding of a one-entry bearer token map.
pub open spec fn spec_token_map_json(id: Seq<char>, token: Seq<char>) -> Seq<char> {
    "{"@ + spec_json_string(id) + ":"@ + spec_json_string(token) + "}"@
}

/// One `--binding=NAME=VALUE` startup argument.
pub open spec fn spec_binding(name: Seq<char>, value: Seq<char>) -> Seq<char> {
    "--binding="@ + name + "="@ + value
}

/// The ordered startup arguments of the instance: the fixed internal port,
/// then one binding per configuration item, in the order the instance
/// expects them.
pub open spec fn spec_bootstrap_args(tc: TranslatedConfig) -> Seq<Seq<char>> {
    seq![
        "--port=8080"@,
        spec_binding("DAP_DEPLOYMENT"@, "prod"@),
        spec_binding("DAP_ISSUE73_DISABLE_AGG_JOB_QUEUE_GARBAGE_COLLECTION"@, "true"@),
        spec_binding("DAP_AGGREGATOR_ROLE"@, tc.role.spec_str()),
        spec_binding("DAP_GLOBAL_CONFIG"@, spec_global_json(tc.global)),
        spec_binding("DAP_HPKE_RECEIVER_CONFIG_LIST"@, spec_receiver_list_json(tc.hpke_receivers@)),
        spec_binding("DAP_BUCKET_KEY"@, tc.bucket_key_hex@),
        spec_binding("DAP_BUCKET_COUNT"@, "2"@),
        spec_binding("DAP_COLLECT_ID_KEY"@, tc.collect_id_key_hex@),
        spec_binding("DAP_TASK_LIST"@, spec_task_list_json(tc)),
        spec_binding(
            "DAP_LEADER_BEARER_TOKEN_LIST"@,
            spec_token_map_json(tc.task_id_hex@, tc.aggregator_token@),
        ),
        spec_binding(
            "DAP_COLLECTOR_BEARER_TOKEN_LIST"@,
            if tc.role == Role::Helper {
                Seq::<char>::empty()
            } else {
                spec_token_map_json(tc.task_id_hex@, tc.collector_token@)
            },
        ),
    ]
}

/// Appends the comma-separated decimal rendering of `items` to `out`.
fn push_u64_list(out: &mut Vec<char>, items: &Vec<u64>)
    ensures
        final(out)@ == old(out)@ + spec_u64_list(items@),
{
    let n: usize = items.len();
    let mut i: usize = 0;
    while i < n
        invariant
            n == items@.len(),
            i <= n,
            out@ == old(out)@ + spec_u64_list(items@.take(i as int)),
        decreases n - i,
    {
        if i > 0 {
            push_str_chars(out, ",");
        }
        push_dec_u64(out, items[i]);
        proof {
            assert(items@.take(i + 1).drop_last() =~= items@.take(i as int));
            assert(items@.take(i + 1).last() == items@[i as int]);
            assert(out@ =~= old(out)@ + spec_u64_list(items@.take(i + 1)));
        }
        i = i + 1;
    }
    proof {
        assert(items@.take(n as int) =~= items@);
    }
}

/// Appends the JSON encoding of the aggregation function descriptor to
/// `out`.
fn push_vdaf_json(out: &mut Vec<char>, d: &DaphneVdafConfig)
    ensures
        final(out)@ == old(out)@ + spec_vdaf_json(*d),
{
    push_str_chars(out, "{\"prio3\":");
    match d {
        DaphneVdafConfig::Prio3(Prio3Config::Count) => {
            push_str_chars(out, "\"count\"");
        },
        DaphneVdafConfig::Prio3(Prio3Config::Histogram { buckets }) => {
            push_str_chars(out, "{\"histogram\":{\"buckets\":[");
            push_u64_list(out, buckets);
            push_str_chars(out, "]}}");
        },
        DaphneVdafConfig::Prio3(Prio3Config::Sum { bits }) => {
            push_str_chars(out, "{\"sum\":{\"bits\":");
            push_dec_u64(out, *bits as u64);
            push_str_chars(out, "}}");
        },
    }
    push_str_chars(out, "}");
    proof {
        assert(out@ =~= old(out)@ + spec_vdaf_json(*d));
    }
}

/// Appends the JSON encoding of a translated HPKE configuration to `out`.
fn push_hpke_config_json(out: &mut Vec<char>, c: &DaphneHpkeConfig)
    ensures
        final(out)@ == old(out)@ + spec_hpke_config_json(*c),
{
    push_str_chars(out, "{\"id\":");
    push_dec_u64(out, c.id as u64);
    push_str_chars(out, ",\"kem_id\":");
    push_dec_u64(out, c.kem_id as u64);
    push_str_chars(out, ",\"kdf_id\":");
    push_dec_u64(out, c.kdf_id as u64);
    push_str_chars(out, ",\"aead_id\":");
    push_dec_u64(out, c.aead_id as u64);
    push_str_chars(out, ",\"public_key\":");
    push_json_string(out, c.public_key.as_str());
    push_str_chars(out, "}");
    proof {
        assert(out@ =~= old(out)@ + spec_hpke_config_json(*c));
    }
}

/// Appends the JSON encoding of one receiver entry to `out`.
fn push_receiver_json(out: &mut Vec<char>, r: &DaphneHpkeReceiverConfig)
    ensures
        final(out)@ == old(out)@ + spec_receiver_json(*r),
{
    push_str_chars(out, "{\"config\":");
    push_hpke_config_json(out, &r.config);
    push_str_chars(out, ",\"secret_key\":");
    push_json_string(out, r.secret_key.as_str());
    push_str_chars(out, "}");
    proof {
        assert(out@ =~= old(out)@ + spec_receiver_json(*r));
    }
}

/// Appends the JSON encoding of the receiver list to `out`.
fn push_receiver_list_json(out: &mut Vec<char>, rs: &Vec<DaphneHpkeReceiverConfig>)
    ensures
        final(out)@ == old(out)@ + spec_receiver_list_json(rs@),
{
    push_str_chars(out, "[");
    let ghost mid = out@;
    let n: usize = rs.len();
    let mut i: usize = 0;
    while i < n
        invariant
            n == rs@.len(),
            i <= n,
            out@ == mid + spec_receivers_inner(rs@.take(i as int)),
        decreases n - i,
    {
        if i > 0 {
            push_str_chars(out, ",");
        }
        push_receiver_json(out, &rs[i]);
        proof {
            assert(rs@.take(i + 1).drop_last() =~= rs@.take(i as int));
            assert(rs@.take(i + 1).last() == rs@[i as int]);
            assert(out@ =~= mid + spec_receivers_inner(rs@.take(i + 1)));
        }
        i = i + 1;
    }
    push_str_chars(out, "]");
    proof {
        assert(rs@.take(n as int) =~= rs@);
        assert(out@ =~= old(out)@ + spec_receiver_list_json(rs@));
    }
}

/// Appends the JSON encoding of the global parameters to `out`.
fn push_global_json(out: &mut Vec<char>, g: &DapGlobalConfig)
    ensures
        final(out)@ == old(out)@ + spec_global_json(*g),
{
    push_str_chars(out, "{\"max_batch_duration\":");
    push_dec_u64(out, g.max_batch_duration);
    push_str_chars(out, ",\"min_batch_interval_start\":");
    push_dec_u64(out, g.min_batch_interval_start);
    push_str_chars(out, ",\"max_batch_interval_end\":");
    push_dec_u64(out, g.max_batch_interval_end);
    push_str_chars(out, "}");
    proof {
        assert(out@ =~= old(out)@ + spec_global_json(*g));
    }
}

/// Appends the JSON encoding of the per-task bootstrap entry to `out`.
fn push_task_entry_json(out: &mut Vec<char>, e: &DaphneDapTaskConfig)
    ensures
        final(out)@ == old(out)@ + spec_task_entry_json(*e),
{
    push_str_chars(out, "{\"version\":");
    push_json_string(out, e.version.as_str());
    push_str_chars(out, ",\"leader_url\":");
    push_json_string(out, e.leader_url.as_str());
    push_str_chars(out, ",\"helper_url\":");
    push_json_string(out, e.helper_url.as_str());
    push_str_chars(out, ",\"min_batch_duration\":");
    push_dec_u64(out, e.min_batch_duration);
    push_str_chars(out, ",\"min_batch_size\":");
    push_dec_u64(out, e.min_batch_size);
    push_str_chars(out, ",\"vdaf\":");
    push_vdaf_json(out, &e.vdaf);
    push_str_chars(out, ",\"vdaf_verify_key\":");
    push_json_string(out, e.vdaf_verify_key.as_str());
    push_str_chars(out, ",\"collector_hpke_config\":");
    push_hpke_config_json(out, &e.collector_hpke_config);
    push_str_chars(out, "}");
    proof {
        assert(out@ =~= old(out)@ + spec_task_entry_json(*e));
    }
}

/// Appends the JSON encoding of a one-entry bearer token map to `out`.
fn push_token_map_json(out: &mut Vec<char>, id: &str, token: &str)
    ensures
        final(out)@ == old(out)@ + spec_token_map_json(id@, token@),
{
    push_str_chars(out, "{");
    push_json_string(out, id);
    push_str_chars(out, ":");
    push_json_string(out, token);
    push_str_chars(out, "}");
    proof {
        assert(out@ =~= old(out)@ + spec_token_map_json(id@, token@));
    }
}

/// One `--binding=NAME=VALUE` startup argument as a string.
fn binding_str(name: &str, value: &str) -> (r: String)
    ensures
        r@ == spec_binding(name@, value@),
{
    let mut v: Vec<char> = Vec::new();
    push_str_chars(&mut v, "--binding=");
    push_str_chars(&mut v, name);
    push_str_chars(&mut v, "=");
    push_str_chars(&mut v, value);
    proof {
        assert(v@ =~= spec_binding(name@, value@));
    }
    chars_to_string(&v)
}

/// The ordered startup arguments for the instance holding this
/// configuration: the fixed internal port followed by the eleven
/// configuration bindings, in the order the instance expects.
pub fn bootstrap_args(tc: &TranslatedConfig) -> (r: Vec<String>)
    ensures
        r@.len() == spec_bootstrap_args(*tc).len(),
        forall|i: int| 0 <= i < r@.len() ==> #[trigger] r@[i]@ == spec_bootstrap_args(*tc)[i],
{
    let mut args: Vec<String> = Vec::new();
    args.push(String::from_str("--port=8080"));
    args.push(binding_str("DAP_DEPLOYMENT", "prod"));
    args.push(binding_str("DAP_ISSUE73_DISABLE_AGG_JOB_QUEUE_GARBAGE_COLLECTION", "true"));
    args.push(binding_str("DAP_AGGREGATOR_ROLE", tc.role.as_str()));

    let mut v: Vec<char> = Vec::new();
    push_global_json(&mut v, &tc.global);
    let global_json = chars_to_string(&v);
    args.push(binding_str("DAP_GLOBAL_CONFIG", global_json.as_str()));

    let mut v: Vec<char> = Vec::new();
    push_receiver_list_json(&mut v, &tc.hpke_receivers);
    let receivers_json = chars_to_string(&v);
    args.push(binding_str("DAP_HPKE_RECEIVER_CONFIG_LIST", receivers_json.as_str()));

    args.push(binding_str("DAP_BUCKET_KEY", tc.bucket_key_hex.as_str()));
    args.push(binding_str("DAP_BUCKET_COUNT", "2"));
    args.push(binding_str("DAP_COLLECT_ID_KEY", tc.collect_id_key_hex.as_str()));

    let mut v: Vec<char> = Vec::new();
    push_str_chars(&mut v, "{");
    push_json_string(&mut v, tc.task_id_hex.as_str());
    push_str_chars(&mut v, ":");
    push_task_entry_json(&mut v, &tc.task_entry);
    push_str_chars(&mut v, "}");
    proof {
        assert(v@ =~= spec_task_list_json(*tc));
    }
    let task_list_json = chars_to_string(&v);
    args.push(binding_str("DAP_TASK_LIST", task_list_json.as_str()));

    let mut v: Vec<char> = Vec::new();
    push_token_map_json(&mut v, tc.task_id_hex.as_str(), tc.aggregator_token.as_str());
    let aggregator_tokens_json = chars_to_string(&v);
    args.push(binding_str("DAP_LEADER_BEARER_TOKEN_LIST", aggregator_tokens_json.as_str()));

    let collector_tokens = match tc.role {
        Role::Helper => String::new(),
        Role::Leader => {
            let mut v: Vec<char> = Vec::new();
            push_token_map_json(&mut v, tc.task_id_hex.as_str(), tc.collector_token.as_str());
            chars_to_string(&v)
        },
    };
    args.push(binding_str("DAP_COLLECTOR_BEARER_TOKEN_LIST", collector_tokens.as_str()));

    args
}

/// The fixed port the instance listens on inside its container.
pub fn internal_port() -> (r: u16)
    ensures
        r == 8080,
{
    8080
}

/// The path of the required periodic maintenance endpoint.
pub fn maintenance_request_path() -> (r: &'static str)
    ensures
        r@ == "/internal/process"@,
{
    "/internal/process"
}

/// The JSON body of a maintenance request, declaring the processing limits.
pub fn maintenance_request_body() -> (r: &'static str)
    ensures
        r@ == "{\"max_buckets\":1000,\"max_reports\":1000}"@,
{
    "{\"max_buckets\":1000,\"max_reports\":1000}"
}

/// The fixed period of the maintenance pump, in milliseconds.
pub fn maintenance_interval_ms() -> (r: u64)
    ensures
        r == 250,
{
    250
}

} // verus!

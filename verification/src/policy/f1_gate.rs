//! F1 certification gate: a missing, failed, stale or mismatched certificate puts the
//! engine in reduce-only mode. The status is computed afresh from each certificate, so
//! an earlier valid certificate never carries over.

use vstd::prelude::*;

use crate::metrics::{bump_count, bumped};
use crate::policy::cert_json::{extract_json_str, json_str_value};
use crate::policy::guard::F1CertStatus;
use crate::text::str_eq;

verus! {

/// Runtime bindings that a certificate must match.
pub struct F1RuntimeBindings {
    /// Runtime contract version, written without a "v" prefix.
    pub contract_version: String,
    /// Runtime build identifier.
    pub build_id: String,
    /// Hash of the canonical runtime configuration.
    pub runtime_config_hash: String,
}

/// Configuration of the F1 gate.
pub struct F1GateConfig {
    /// Where the certificate file is read from.
    pub cert_path: String,
    /// Freshness window in seconds.
    pub f1_cert_freshness_window_s: u64,
}

impl Default for F1GateConfig {
    fn default() -> (c: Self)
        ensures
            c.cert_path@ == "artifacts/F1_CERT.json"@,
            c.f1_cert_freshness_window_s == 86_400,
    {
        Self {
            cert_path: String::from_str("artifacts/F1_CERT.json"),
            f1_cert_freshness_window_s: 86_400,
        }
    }
}

/// The fields of a certificate that F1 certification reads.
pub struct F1CertFields {
    pub status: String,
    pub generated_ts_ms: u64,
    pub build_id: String,
    pub runtime_config_hash: String,
    pub contract_version: String,
}

/// Whether a certificate document yields all fields: the four strings are present in
/// `json`, and its timestamp was read (`generated_ts_ms`).
pub open spec fn cert_parses(json: Seq<char>, generated_ts_ms: Option<u64>) -> bool {
    &&& json_str_value(json, "status"@) is Some
    &&& generated_ts_ms is Some
    &&& json_str_value(json, "build_id"@) is Some
    &&& json_str_value(json, "runtime_config_hash"@) is Some
    &&& json_str_value(json, "contract_version"@) is Some
}

/// Assembles the certificate fields from the document `json` and its timestamp, read
/// from the `generated_ts_ms` number token; `None` where any of them is missing.
pub fn parse_f1_cert(json: &str, generated_ts_ms: Option<u64>) -> (r: Option<F1CertFields>)
    ensures
        r is Some <==> cert_parses(json@, generated_ts_ms),
        r matches Some(c) ==> {
            &&& json_str_value(json@, "status"@) == Some(c.status@)
            &&& generated_ts_ms == Some(c.generated_ts_ms)
            &&& json_str_value(json@, "build_id"@) == Some(c.build_id@)
            &&& json_str_value(json@, "runtime_config_hash"@) == Some(c.runtime_config_hash@)
            &&& json_str_value(json@, "contract_version"@) == Some(c.contract_version@)
        },
{
    let status = extract_json_str(json, "status");
    let build_id = extract_json_str(json, "build_id");
    let runtime_config_hash = extract_json_str(json, "runtime_config_hash");
    let contract_version = extract_json_str(json, "contract_version");
    match (status, generated_ts_ms, build_id, runtime_config_hash, contract_version) {
        (Some(status), Some(ts), Some(build_id), Some(runtime_config_hash), Some(contract_version)) => {
            Some(
                F1CertFields {
                    status,
                    generated_ts_ms: ts,
                    build_id,
                    runtime_config_hash,
                    contract_version,
                },
            )
        },
        _ => None,
    }
}

/// Milliseconds elapsed since `ts_ms`, zero where `ts_ms` lies in the future.
pub open spec fn elapsed_ms(now_ms: u64, ts_ms: u64) -> int {
    if now_ms >= ts_ms {
        now_ms - ts_ms
    } else {
        0
    }
}

/// A contract version written with a "v" or "V" prefix.
pub open spec fn has_version_prefix(v: Seq<char>) -> bool {
    v.len() > 0 && (v[0] == 'v' || v[0] == 'V')
}

/// The status that F1 certification gives a certificate.
pub open spec fn f1_status(
    cert: Option<F1CertFields>,
    now_ms: u64,
    freshness_window_s: u64,
    runtime: F1RuntimeBindings,
) -> F1CertStatus {
    match cert {
        None => F1CertStatus::Missing,
        Some(c) => if c.status@ != "PASS"@ {
            F1CertStatus::Fail
        } else if elapsed_ms(now_ms, c.generated_ts_ms) > freshness_window_s * 1000 {
            F1CertStatus::Stale
        } else if has_version_prefix(c.contract_version@) {
            F1CertStatus::Invalid
        } else if c.contract_version@ != runtime.contract_version@ || c.build_id@
            != runtime.build_id@ || c.runtime_config_hash@ != runtime.runtime_config_hash@ {
            F1CertStatus::Invalid
        } else {
            F1CertStatus::Valid
        },
    }
}

/// The certificate's age in whole seconds, zero where there is no certificate.
pub open spec fn f1_age_s(cert: Option<F1CertFields>, now_ms: u64) -> int {
    match cert {
        None => 0,
        Some(c) => elapsed_ms(now_ms, c.generated_ts_ms) / 1000,
    }
}

/// The F1 gate with its observability counters.
pub struct F1Gate {
    /// Age of the certificate in seconds at the last evaluation (0 where it was missing).
    pub f1_cert_age_s: u64,
    /// Number of OPEN intents blocked because of the certificate.
    pub f1_cert_gate_block_opens_total: u64,
    /// Status found by the last evaluation.
    pub last_status: F1CertStatus,
}

impl F1Gate {
    pub fn new() -> (g: Self)
        ensures
            g.f1_cert_age_s == 0,
            g.f1_cert_gate_block_opens_total == 0,
            g.last_status == F1CertStatus::Missing,
    {
        Self { f1_cert_age_s: 0, f1_cert_gate_block_opens_total: 0, last_status: F1CertStatus::Missing }
    }

    /// Evaluates the parsed certificate (`None` where it was missing or unparseable) at
    /// wall-clock time `now_ms`.
    pub fn evaluate(
        &mut self,
        cert: &Option<F1CertFields>,
        now_ms: u64,
        config: &F1GateConfig,
        runtime: &F1RuntimeBindings,
    ) -> (status: F1CertStatus)
        requires
            config.f1_cert_freshness_window_s <= u64::MAX / 1000,
        ensures
            status == f1_status(*cert, now_ms, config.f1_cert_freshness_window_s, *runtime),
            final(self).last_status == status,
            final(self).f1_cert_age_s == f1_age_s(*cert, now_ms),
            final(self).f1_cert_gate_block_opens_total == old(self).f1_cert_gate_block_opens_total,
    {
        let status = match cert {
            None => {
                self.f1_cert_age_s = 0;
                F1CertStatus::Missing
            },
            Some(c) => {
                let age_ms = now_ms.saturating_sub(c.generated_ts_ms);
                self.f1_cert_age_s = age_ms / 1_000;
                if !str_eq(c.status.as_str(), "PASS") {
                    F1CertStatus::Fail
                } else if age_ms > config.f1_cert_freshness_window_s * 1_000 {
                    F1CertStatus::Stale
                } else if has_version_prefix_exec(c.contract_version.as_str()) {
                    F1CertStatus::Invalid
                } else if c.contract_version != runtime.contract_version || c.build_id
                    != runtime.build_id || c.runtime_config_hash != runtime.runtime_config_hash {
                    F1CertStatus::Invalid
                } else {
                    F1CertStatus::Valid
                }
            },
        };
        self.last_status = status;
        status
    }

    /// Records that an OPEN intent was blocked for want of a valid certificate.
    pub fn record_blocked_open(&mut self)
        ensures
            final(self).f1_cert_gate_block_opens_total == bumped(
                old(self).f1_cert_gate_block_opens_total,
            ),
            final(self).f1_cert_age_s == old(self).f1_cert_age_s,
            final(self).last_status == old(self).last_status,
    {
        self.f1_cert_gate_block_opens_total = bump_count(self.f1_cert_gate_block_opens_total);
    }
}

impl Default for F1Gate {
    fn default() -> (g: Self)
        ensures
            g.f1_cert_age_s == 0,
            g.f1_cert_gate_block_opens_total == 0,
            g.last_status == F1CertStatus::Missing,
    {
        Self::new()
    }
}

fn has_version_prefix_exec(v: &str) -> (r: bool)
    ensures
        r == has_version_prefix(v@),
{
    if v.unicode_len() == 0 {
        false
    } else {
        let c = v.get_char(0);
        c == 'v' || c == 'V'
    }
}

/// Only a certificate that reads PASS, is fresh and matches every runtime binding is
/// valid.
pub proof fn lemma_valid_requires_pass_fresh_and_bound(
    cert: Option<F1CertFields>,
    now_ms: u64,
    freshness_window_s: u64,
    runtime: F1RuntimeBindings,
)
    requires
        f1_status(cert, now_ms, freshness_window_s, runtime) == F1CertStatus::Valid,
    ensures
        cert is Some,
        cert->0.status@ == "PASS"@,
        elapsed_ms(now_ms, cert->0.generated_ts_ms) <= freshness_window_s * 1000,
        !has_version_prefix(cert->0.contract_version@),
        cert->0.contract_version@ == runtime.contract_version@,
        cert->0.build_id@ == runtime.build_id@,
        cert->0.runtime_config_hash@ == runtime.runtime_config_hash@,
{
}

/// A stale certificate stays stale however its bindings compare: freshness is checked
/// before the bindings, and no earlier evaluation is consulted.
pub proof fn lemma_stale_has_no_bypass(
    cert: F1CertFields,
    now_ms: u64,
    freshness_window_s: u64,
    runtime: F1RuntimeBindings,
)
    requires
        cert.status@ == "PASS"@,
        elapsed_ms(now_ms, cert.generated_ts_ms) > freshness_window_s * 1000,
    ensures
        f1_status(Some(cert), now_ms, freshness_window_s, runtime) == F1CertStatus::Stale,
{
}

} // verus!

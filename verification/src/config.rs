//! Layered service configuration: global defaults, per-instance
//! overrides, the validation the service runs before any listener binds
//! (non-empty instance list, unique stratum ports), and the resolution
//! of one instance's effective bridge configuration.

use vstd::prelude::*;

use crate::constants::{DEFAULT_BLOCK_WAIT_TIME_MS, DEFAULT_SHARES_PER_MIN};

verus! {

/// Why a configuration was rejected before startup.
#[derive(Clone, Copy, Debug, PartialEq, Eq, Structural)]
pub enum ConfigError {
    /// The text is not valid YAML.
    InvalidYaml,
    /// The YAML source holds no document.
    EmptyDocument,
    /// The instance at this index lacks the required `stratum_port`.
    MissingStratumPort(usize),
    /// The instance at this index lacks the required `min_share_diff`.
    MissingMinShareDiff(usize),
    /// The `instances` list is present but empty.
    EmptyInstances,
    /// The instance at this index declares a stratum port an earlier
    /// instance already claimed.
    DuplicateStratumPort(usize),
}

/// Global options, applied wherever an instance declares no override.
pub struct GlobalConfig {
    pub kaspad_address: String,
    pub block_wait_time_ms: u64,
    pub print_stats: bool,
    pub log_to_file: bool,
    pub health_check_port: String,
    pub var_diff: bool,
    pub shares_per_min: u32,
    pub var_diff_stats: bool,
    pub extranonce_size: u8,
    pub pow2_clamp: bool,
}

impl Default for GlobalConfig {
    /// The documented global defaults.
    fn default() -> (r: GlobalConfig)
        ensures
            r.kaspad_address@ == "localhost:16110"@,
            r.block_wait_time_ms == 1000,
            r.print_stats == true,
            r.log_to_file == true,
            r.health_check_port@ == Seq::<char>::empty(),
            r.var_diff == true,
            r.shares_per_min == 20,
            r.var_diff_stats == false,
            r.extranonce_size == 0,
            r.pow2_clamp == false,
    {
        GlobalConfig {
            kaspad_address: String::from_str("localhost:16110"),
            block_wait_time_ms: DEFAULT_BLOCK_WAIT_TIME_MS,
            print_stats: true,
            log_to_file: true,
            health_check_port: String::new(),
            var_diff: true,
            shares_per_min: DEFAULT_SHARES_PER_MIN,
            var_diff_stats: false,
            extranonce_size: 0,
            pow2_clamp: false,
        }
    }
}

/// One stratum listener's configuration; optional fields fall back to
/// the global values.
pub struct InstanceConfig {
    pub stratum_port: String,
    pub min_share_diff: u32,
    pub prom_port: Option<String>,
    pub log_to_file: Option<bool>,
    pub var_diff: Option<bool>,
    pub shares_per_min: Option<u32>,
    pub var_diff_stats: Option<bool>,
    pub pow2_clamp: Option<bool>,
}

impl Default for InstanceConfig {
    /// The documented per-instance defaults.
    fn default() -> (r: InstanceConfig)
        ensures
            r.stratum_port@ == ":5555"@,
            r.min_share_diff == 8192,
            r.prom_port is None,
            r.log_to_file is None,
            r.var_diff is None,
            r.shares_per_min is None,
            r.var_diff_stats is None,
            r.pow2_clamp is None,
    {
        InstanceConfig {
            stratum_port: String::from_str(":5555"),
            min_share_diff: 8192,
            prom_port: None,
            log_to_file: None,
            var_diff: None,
            shares_per_min: None,
            var_diff_stats: None,
            pow2_clamp: None,
        }
    }
}

/// The resolved service configuration: global options plus at least one
/// instance with a unique stratum port.
pub struct ServiceConfig {
    pub global: GlobalConfig,
    pub instances: Vec<InstanceConfig>,
}

/// A stratum port with the leading colon the listener address needs.
pub open spec fn norm_port_spec(s: Seq<char>) -> Seq<char> {
    if s.len() > 0 && s[0] == ':' {
        s
    } else {
        seq![':'] + s
    }
}

/// No two instances share a stratum port.
pub open spec fn ports_unique(insts: Seq<InstanceConfig>) -> bool {
    forall|i: int, j: int|
        0 <= i < j < insts.len() ==> insts[i].stratum_port@ != insts[j].stratum_port@
}

impl ServiceConfig {
    /// The validated shape every accepted configuration has: at least
    /// one instance, all stratum ports distinct and colon-prefixed, and
    /// every declared metrics port colon-prefixed too.
    pub open spec fn valid(self) -> bool {
        &&& self.instances@.len() > 0
        &&& ports_unique(self.instances@)
        &&& forall|i: int|
            0 <= i < self.instances@.len() ==> self.instances@[i].stratum_port@.len() > 0
                && self.instances@[i].stratum_port@[0] == ':'
        &&& forall|i: int|
            0 <= i < self.instances@.len() ==> match #[trigger] self.instances@[i].prom_port {
                Some(q) => q@.len() > 0 && q@[0] == ':',
                None => true,
            }
    }
}

/// Prefixes the colon a listener address needs, unless it is there.
pub fn normalize_port(s: &str) -> (r: String)
    ensures
        r@ == norm_port_spec(s@),
{
    let n = s.unicode_len();
    if n > 0 && s.get_char(0) == ':' {
        String::from_str(s)
    } else {
        proof {
            reveal_strlit(":");
        }
        let mut r = String::from_str(":");
        r.append(s);
        r
    }
}

/// The character is a decimal digit.
pub open spec fn is_dec_digit(c: char) -> bool {
    '0' <= c && c <= '9'
}

/// Length of the run of decimal digits the text starts with.
pub open spec fn digit_prefix_len(s: Seq<char>) -> int
    decreases s.len(),
{
    if s.len() == 0 || !is_dec_digit(s[0]) {
        0
    } else {
        1 + digit_prefix_len(s.drop_first())
    }
}

/// Numeric value of a decimal digit; any other character counts zero.
pub open spec fn digit_val(c: char) -> int {
    if is_dec_digit(c) {
        c as int - 48
    } else {
        0
    }
}

/// Value of a digit run folded left to right into `acc`, saturating at
/// the largest 64-bit value.
pub open spec fn dec_sat(acc: nat, s: Seq<char>) -> nat
    decreases s.len(),
{
    if s.len() == 0 {
        acc
    } else {
        let next = acc * 10 + digit_val(s[0]);
        dec_sat(
            if next > u64::MAX as int {
                u64::MAX as nat
            } else {
                next as nat
            },
            s.drop_first(),
        )
    }
}

/// Milliseconds read from the scalar text of a floating-point
/// `block_wait_time`: the integer prefix, saturating; a negative value
/// clamps to zero; text without leading digits carries no value.
pub open spec fn real_ms_of(s: Seq<char>) -> Option<u64> {
    if s.len() > 0 && s[0] == '-' {
        Some(0u64)
    } else {
        let n = digit_prefix_len(s);
        if n == 0 {
            None
        } else {
            Some(dec_sat(0, s.subrange(0, n)) as u64)
        }
    }
}

/// A saturating fold started within range stays within range.
proof fn lemma_dec_sat_le(acc: nat, s: Seq<char>)
    requires
        acc <= u64::MAX,
    ensures
        dec_sat(acc, s) <= u64::MAX,
    decreases s.len(),
{
    if s.len() > 0 {
        let next = acc * 10 + digit_val(s[0]);
        if next > u64::MAX as int {
            lemma_dec_sat_le((u64::MAX as nat), s.drop_first());
        } else {
            lemma_dec_sat_le((next as nat), s.drop_first());
        }
    }
}

/// The scanned digit run is exactly the digit prefix.
proof fn lemma_digit_prefix(s: Seq<char>, n: int)
    requires
        0 <= n <= s.len(),
        forall|k: int| 0 <= k < n ==> is_dec_digit(s[k]),
        n < s.len() ==> !is_dec_digit(s[n]),
    ensures
        digit_prefix_len(s) == n,
    decreases s.len(),
{
    if s.len() > 0 && n > 0 {
        assert(is_dec_digit(s[0]));
        assert forall|k: int| 0 <= k < n - 1 implies is_dec_digit(s.drop_first()[k]) by {
            assert(s.drop_first()[k] == s[k + 1]);
        }
        lemma_digit_prefix(s.drop_first(), n - 1);
    }
}

/// The character is a decimal digit.
fn is_dec_digit_at(s: &str, i: usize) -> (r: bool)
    requires
        i < s@.len(),
    ensures
        r == is_dec_digit(s@[i as int]),
{
    let c = s.get_char(i);
    '0' <= c && c <= '9'
}

/// Reads the integer prefix of a floating-point scalar's text, as
/// `real_ms_of` defines it.
pub fn real_millis(s: &str) -> (r: Option<u64>)
    ensures
        r == real_ms_of(s@),
{
    let len = s.unicode_len();
    if len > 0 && s.get_char(0) == '-' {
        return Some(0);
    }
    let mut n: usize = 0;
    while n < len && is_dec_digit_at(s, n)
        invariant
            len == s@.len(),
            n <= len,
            forall|k: int| 0 <= k < n ==> is_dec_digit(s@[k]),
        decreases len - n,
    {
        n = n + 1;
    }
    proof {
        lemma_digit_prefix(s@, n as int);
    }
    if n == 0 {
        return None;
    }
    let ghost t = s@.subrange(0, n as int);
    proof {
        assert(t.subrange(0, n as int) =~= t);
    }
    let mut acc: u64 = 0;
    let mut j: usize = 0;
    while j < n
        invariant
            len == s@.len(),
            0 < n <= len,
            j <= n,
            forall|k: int| 0 <= k < n ==> is_dec_digit(s@[k]),
            t == s@.subrange(0, n as int),
            dec_sat(acc as nat, t.subrange(j as int, n as int)) == dec_sat(0, t),
        decreases n - j,
    {
        let c = s.get_char(j);
        let d: u64 = (c as u32 - 48) as u64;
        let next: u64 = match acc.checked_mul(10) {
            Some(m) => match m.checked_add(d) {
                Some(v) => v,
                None => u64::MAX,
            },
            None => u64::MAX,
        };
        proof {
            let rest = t.subrange(j as int, n as int);
            assert(rest[0] == s@[j as int]);
            assert(rest.drop_first() =~= t.subrange(j as int + 1, n as int));
            assert(is_dec_digit(s@[j as int]));
            assert(dec_sat(next as nat, t.subrange(j as int + 1, n as int)) == dec_sat(
                acc as nat,
                rest,
            ));
        }
        acc = next;
        j = j + 1;
    }
    proof {
        assert(t.subrange(n as int, n as int) =~= Seq::<char>::empty());
        lemma_dec_sat_le(0, t);
    }
    Some(acc)
}

/// One instance entry as the YAML document spells it, before defaults
/// and validation.
pub struct RawInstance {
    pub stratum_port: Option<String>,
    pub min_share_diff: Option<i64>,
    pub prom_port: Option<String>,
    pub log_to_file: Option<bool>,
    pub var_diff: Option<bool>,
    pub shares_per_min: Option<i64>,
    pub var_diff_stats: Option<bool>,
    pub pow2_clamp: Option<bool>,
}

/// The configuration document as the YAML source spells it: every field
/// optional, the instance list absent when the document uses the
/// single-instance shorthand with top-level instance fields.
pub struct RawConfig {
    pub kaspad_address: Option<String>,
    pub print_stats: Option<bool>,
    pub log_to_file: Option<bool>,
    pub health_check_port: Option<String>,
    pub var_diff: Option<bool>,
    pub shares_per_min: Option<i64>,
    pub var_diff_stats: Option<bool>,
    pub extranonce_size: Option<i64>,
    pub pow2_clamp: Option<bool>,
    pub block_wait_time_ms: Option<i64>,
    /// Scalar text of `block_wait_time` when the document gave it as a
    /// floating-point number; its integer prefix counts.
    pub block_wait_time_real: Option<String>,
    pub instances: Option<Vec<RawInstance>>,
    pub stratum_port: Option<String>,
    pub min_share_diff: Option<i64>,
    pub prom_port: Option<String>,
}

/// First required-field failure in the instance list, walking it in
/// order, then the empty-list check — the order the service reports in.
pub open spec fn fields_validation(insts: Seq<RawInstance>, i: int) -> Result<(), ConfigError>
    decreases insts.len() - i,
{
    if i < 0 || i >= insts.len() {
        if insts.len() == 0 {
            Err(ConfigError::EmptyInstances)
        } else {
            Ok(())
        }
    } else if insts[i].stratum_port is None {
        Err(ConfigError::MissingStratumPort(i as usize))
    } else if insts[i].min_share_diff is None {
        Err(ConfigError::MissingMinShareDiff(i as usize))
    } else {
        fields_validation(insts, i + 1)
    }
}

/// The normalized port of one raw instance.
pub open spec fn raw_port(insts: Seq<RawInstance>, k: int) -> Seq<char> {
    norm_port_spec(insts[k].stratum_port.unwrap()@)
}

/// The instance at `i` collides with an earlier one.
pub open spec fn dup_at(insts: Seq<RawInstance>, i: int) -> bool {
    exists|j: int| 0 <= j < i && raw_port(insts, j) == raw_port(insts, i)
}

/// A normalized port is never empty and starts with the colon.
pub proof fn lemma_norm_port(s: Seq<char>)
    ensures
        norm_port_spec(s).len() > 0,
        norm_port_spec(s)[0] == ':',
{
    if !(s.len() > 0 && s[0] == ':') {
        assert((seq![':'] + s)[0] == ':');
    }
}

/// A list that passed the duplicate check holds no colliding entry.
pub proof fn lemma_dup_validation_ok(insts: Seq<RawInstance>, k: int)
    requires
        k >= 0,
        dup_validation(insts, k) == Ok::<(), ConfigError>(()),
    ensures
        forall|i: int| k <= i < insts.len() ==> !dup_at(insts, i),
    decreases insts.len() - k,
{
    if 0 <= k < insts.len() {
        lemma_dup_validation_ok(insts, k + 1);
    }
}

/// First duplicate-port failure, walking the list in order.
pub open spec fn dup_validation(insts: Seq<RawInstance>, i: int) -> Result<(), ConfigError>
    decreases insts.len() - i,
{
    if i < 0 || i >= insts.len() {
        Ok(())
    } else if dup_at(insts, i) {
        Err(ConfigError::DuplicateStratumPort(i as usize))
    } else {
        dup_validation(insts, i + 1)
    }
}

/// Validation verdict on an explicit instance list: required fields
/// first, then the non-empty check, then duplicate ports.
pub open spec fn instances_validation(insts: Seq<RawInstance>) -> Result<(), ConfigError> {
    match fields_validation(insts, 0) {
        Err(e) => Err(e),
        Ok(()) => dup_validation(insts, 0),
    }
}

/// The duplicate check walked from `k` cannot succeed past an entry
/// that collides with an earlier one.
proof fn lemma_dup_validation_err(insts: Seq<RawInstance>, k: int, j: int)
    requires
        0 <= k <= j < insts.len(),
        dup_at(insts, j),
    ensures
        dup_validation(insts, k) is Err,
    decreases j - k,
{
    if !dup_at(insts, k) {
        lemma_dup_validation_err(insts, k + 1, j);
    }
}

/// Two instances declaring the same stratum port — equal after
/// normalization — never pass validation: the configuration is rejected
/// before any listener binds.
pub proof fn lemma_duplicate_ports_rejected(insts: Seq<RawInstance>, i: int, j: int)
    requires
        0 <= i < j < insts.len(),
        raw_port(insts, i) == raw_port(insts, j),
    ensures
        instances_validation(insts) is Err,
{
    match fields_validation(insts, 0) {
        Err(_) => {},
        Ok(()) => {
            assert(dup_at(insts, j));
            lemma_dup_validation_err(insts, 0, j);
        },
    }
}

/// The instance configuration a raw entry resolves to.
pub open spec fn resolved_instance_spec(ri: RawInstance, ic: InstanceConfig) -> bool {
    &&& ic.stratum_port@ == norm_port_spec(ri.stratum_port.unwrap()@)
    &&& ic.min_share_diff == ri.min_share_diff.unwrap() as u32
    &&& (match ri.prom_port {
        Some(p) => ic.prom_port matches Some(q) && q@ == norm_port_spec(p@),
        None => ic.prom_port is None,
    })
    &&& ic.log_to_file == ri.log_to_file
    &&& ic.var_diff == ri.var_diff
    &&& (match ri.shares_per_min {
        Some(v) => ic.shares_per_min == Some(v as u32),
        None => ic.shares_per_min is None,
    })
    &&& ic.var_diff_stats == ri.var_diff_stats
    &&& ic.pow2_clamp == ri.pow2_clamp
}

/// The global configuration a raw document resolves to: the documented
/// default wherever the document is silent.
pub open spec fn resolved_global_spec(raw: RawConfig, g: GlobalConfig) -> bool {
    &&& g.kaspad_address@ == (match raw.kaspad_address {
        Some(s) => s@,
        None => "localhost:16110"@,
    })
    &&& g.print_stats == (match raw.print_stats {
        Some(b) => b,
        None => true,
    })
    &&& g.log_to_file == (match raw.log_to_file {
        Some(b) => b,
        None => true,
    })
    &&& g.health_check_port@ == (match raw.health_check_port {
        Some(s) => s@,
        None => Seq::<char>::empty(),
    })
    &&& g.var_diff == (match raw.var_diff {
        Some(b) => b,
        None => true,
    })
    &&& g.shares_per_min == (match raw.shares_per_min {
        Some(v) => v as u32,
        None => 20u32,
    })
    &&& g.var_diff_stats == (match raw.var_diff_stats {
        Some(b) => b,
        None => false,
    })
    &&& g.extranonce_size == (match raw.extranonce_size {
        Some(v) => v as u8,
        None => 0u8,
    })
    &&& g.pow2_clamp == (match raw.pow2_clamp {
        Some(b) => b,
        None => false,
    })
    &&& g.block_wait_time_ms == (match raw.block_wait_time_ms {
        Some(v) => v as u64,
        None => match raw.block_wait_time_real {
            Some(s) => match real_ms_of(s@) {
                Some(v) => v,
                None => 1000u64,
            },
            None => 1000u64,
        },
    })
}

/// Builds the instance configuration of one raw entry whose required
/// fields are present.
fn build_instance(ri: &RawInstance) -> (ic: InstanceConfig)
    requires
        ri.stratum_port is Some,
        ri.min_share_diff is Some,
    ensures
        resolved_instance_spec(*ri, ic),
{
    let stratum_port = match &ri.stratum_port {
        Some(p) => normalize_port(p.as_str()),
        None => String::new(),
    };
    let min_share_diff = match &ri.min_share_diff {
        Some(d) => #[verifier::truncate] (*d as u32),
        None => 0u32,
    };
    let prom_port = match &ri.prom_port {
        Some(p) => Some(normalize_port(p.as_str())),
        None => None,
    };
    let shares_per_min = match &ri.shares_per_min {
        Some(v) => Some(#[verifier::truncate] (*v as u32)),
        None => None,
    };
    InstanceConfig {
        stratum_port,
        min_share_diff,
        prom_port,
        log_to_file: ri.log_to_file,
        var_diff: ri.var_diff,
        shares_per_min,
        var_diff_stats: ri.var_diff_stats,
        pow2_clamp: ri.pow2_clamp,
    }
}

/// Builds the global configuration of a raw document.
fn build_global(raw: &RawConfig) -> (g: GlobalConfig)
    ensures
        resolved_global_spec(*raw, g),
{
    let mut g = GlobalConfig::default();
    proof {
        reveal_strlit("localhost:16110");
    }
    match &raw.kaspad_address {
        Some(s) => {
            g.kaspad_address = s.clone();
        },
        None => {},
    }
    match &raw.print_stats {
        Some(b) => {
            g.print_stats = *b;
        },
        None => {},
    }
    match &raw.log_to_file {
        Some(b) => {
            g.log_to_file = *b;
        },
        None => {},
    }
    match &raw.health_check_port {
        Some(s) => {
            g.health_check_port = s.clone();
        },
        None => {},
    }
    match &raw.var_diff {
        Some(b) => {
            g.var_diff = *b;
        },
        None => {},
    }
    match &raw.shares_per_min {
        Some(v) => {
            g.shares_per_min = #[verifier::truncate] (*v as u32);
        },
        None => {},
    }
    match &raw.var_diff_stats {
        Some(b) => {
            g.var_diff_stats = *b;
        },
        None => {},
    }
    match &raw.extranonce_size {
        Some(v) => {
            g.extranonce_size = #[verifier::truncate] (*v as u8);
        },
        None => {},
    }
    match &raw.pow2_clamp {
        Some(b) => {
            g.pow2_clamp = *b;
        },
        None => {},
    }
    match &raw.block_wait_time_ms {
        Some(v) => {
            g.block_wait_time_ms = #[verifier::truncate] (*v as u64);
        },
        None => {
            match &raw.block_wait_time_real {
                Some(s) => {
                    match real_millis(s.as_str()) {
                        Some(v) => {
                            g.block_wait_time_ms = v;
                        },
                        None => {},
                    }
                },
                None => {},
            }
        },
    }
    g
}

/// A required-field failure names a missing field or the empty list,
/// never a parse-level error.
pub proof fn lemma_fields_validation_error(insts: Seq<RawInstance>, i: int)
    ensures
        fields_validation(insts, i) matches Err(e) ==> (e is MissingStratumPort
            || e is MissingMinShareDiff || e is EmptyInstances),
    decreases insts.len() - i,
{
    if 0 <= i < insts.len() {
        lemma_fields_validation_error(insts, i + 1);
    }
}

/// A duplicate-port failure names a duplicate port, nothing else.
pub proof fn lemma_dup_validation_error(insts: Seq<RawInstance>, i: int)
    ensures
        dup_validation(insts, i) matches Err(e) ==> e is DuplicateStratumPort,
    decreases insts.len() - i,
{
    if 0 <= i < insts.len() {
        lemma_dup_validation_error(insts, i + 1);
    }
}

/// Everything `from_raw` promises of its result, as one predicate, so
/// that callers resolving a parsed document can restate it verbatim.
pub open spec fn from_raw_post(raw: RawConfig, r: Result<ServiceConfig, ConfigError>) -> bool {
    &&& (r matches Ok(c) ==> c.valid())
    &&& match raw.instances {
        Some(insts) => match instances_validation(insts@) {
            Err(e) => r == Err::<ServiceConfig, ConfigError>(e),
            Ok(()) => r matches Ok(c) && {
                &&& resolved_global_spec(raw, c.global)
                &&& c.instances@.len() == insts@.len()
                &&& forall|k: int|
                    0 <= k < insts@.len() ==> resolved_instance_spec(
                        insts@[k],
                        c.instances@[k],
                    )
            },
        },
        None => r matches Ok(c) && {
            &&& resolved_global_spec(raw, c.global)
            &&& c.instances@.len() == 1
            &&& c.instances@[0].stratum_port@ == (match raw.stratum_port {
                Some(p) => norm_port_spec(p@),
                None => ":5555"@,
            })
            &&& c.instances@[0].min_share_diff == (match raw.min_share_diff {
                Some(d) => d as u32,
                None => 8192u32,
            })
            &&& (match raw.prom_port {
                Some(p) => c.instances@[0].prom_port matches Some(q) && q@ == norm_port_spec(
                    p@,
                ),
                None => c.instances@[0].prom_port is None,
            })
            &&& c.instances@[0].log_to_file == Some(c.global.log_to_file)
        },
    }
}

impl ServiceConfig {
    /// Resolves a raw document into a service configuration, applying
    /// defaults and running validation exactly as the service does
    /// before any listener binds: per-instance required fields in list
    /// order, then the non-empty check, then duplicate stratum ports.
    /// A document without an `instances` list yields one instance from
    /// the top-level fields, unvalidated, with the global log choice
    /// recorded on it.
    pub fn from_raw(raw: &RawConfig) -> (r: Result<ServiceConfig, ConfigError>)
        ensures
            from_raw_post(*raw, r),
    {
        let global = build_global(raw);
        match &raw.instances {
            Some(raw_insts) => {
                let mut i: usize = 0;
                while i < raw_insts.len()
                    invariant
                        i <= raw_insts@.len(),
                        raw.instances matches Some(v) && v@ == raw_insts@,
                        fields_validation(raw_insts@, 0) == fields_validation(
                            raw_insts@,
                            i as int,
                        ),
                        forall|k: int|
                            0 <= k < i ==> raw_insts@[k].stratum_port is Some
                                && raw_insts@[k].min_share_diff is Some,
                    decreases raw_insts@.len() - i,
                {
                    if raw_insts[i].stratum_port.is_none() {
                        return Err(ConfigError::MissingStratumPort(i));
                    }
                    if raw_insts[i].min_share_diff.is_none() {
                        return Err(ConfigError::MissingMinShareDiff(i));
                    }
                    i = i + 1;
                }
                if raw_insts.len() == 0 {
                    return Err(ConfigError::EmptyInstances);
                }
                assert(fields_validation(raw_insts@, 0) == Ok::<(), ConfigError>(()));
                let mut instances: Vec<InstanceConfig> = Vec::new();
                let mut i: usize = 0;
                while i < raw_insts.len()
                    invariant
                        i <= raw_insts@.len(),
                        instances@.len() == i,
                        raw.instances matches Some(v) && v@ == raw_insts@,
                        fields_validation(raw_insts@, 0) == Ok::<(), ConfigError>(()),
                        forall|k: int|
                            0 <= k < raw_insts@.len() ==> raw_insts@[k].stratum_port is Some
                                && raw_insts@[k].min_share_diff is Some,
                        forall|k: int|
                            0 <= k < i ==> resolved_instance_spec(raw_insts@[k], instances@[k]),
                        dup_validation(raw_insts@, 0) == dup_validation(raw_insts@, i as int),
                        forall|k: int| 0 <= k < i ==> !dup_at(raw_insts@, k),
                        resolved_global_spec(*raw, global),
                    decreases raw_insts@.len() - i,
                {
                    let mut j: usize = 0;
                    while j < i
                        invariant
                            j <= i <= raw_insts@.len(),
                            i < raw_insts@.len(),
                            raw.instances matches Some(v) && v@ == raw_insts@,
                            fields_validation(raw_insts@, 0) == Ok::<(), ConfigError>(()),
                            dup_validation(raw_insts@, 0) == dup_validation(
                                raw_insts@,
                                i as int,
                            ),
                            forall|k: int|
                                0 <= k < raw_insts@.len() ==> raw_insts@[k].stratum_port is Some
                                    && raw_insts@[k].min_share_diff is Some,
                            forall|k: int| 0 <= k < j ==> raw_port(raw_insts@, k) != raw_port(
                                raw_insts@,
                                i as int,
                            ),
                        decreases i - j,
                    {
                        let pj = match &raw_insts[j].stratum_port {
                            Some(p) => normalize_port(p.as_str()),
                            None => String::new(),
                        };
                        let pi = match &raw_insts[i].stratum_port {
                            Some(p) => normalize_port(p.as_str()),
                            None => String::new(),
                        };
                        if pj == pi {
                            proof {
                                assert(raw_port(raw_insts@, j as int) == raw_port(
                                    raw_insts@,
                                    i as int,
                                ));
                                assert(dup_at(raw_insts@, i as int));
                            }
                            return Err(ConfigError::DuplicateStratumPort(i));
                        }
                        j = j + 1;
                    }
                    assert(!dup_at(raw_insts@, i as int));
                    instances.push(build_instance(&raw_insts[i]));
                    i = i + 1;
                }
                assert(dup_validation(raw_insts@, 0) == Ok::<(), ConfigError>(()));
                let c = ServiceConfig { global, instances };
                proof {
                    assert forall|a: int, b: int|
                        0 <= a < b < c.instances@.len() implies c.instances@[a].stratum_port@
                        != c.instances@[b].stratum_port@ by {
                        assert(!dup_at(raw_insts@, b));
                        assert(c.instances@[a].stratum_port@ == raw_port(raw_insts@, a));
                        assert(c.instances@[b].stratum_port@ == raw_port(raw_insts@, b));
                    }
                    assert forall|a: int|
                        0 <= a < c.instances@.len() implies c.instances@[a].stratum_port@.len()
                        > 0 && c.instances@[a].stratum_port@[0] == ':' by {
                        lemma_norm_port(raw_insts@[a].stratum_port.unwrap()@);
                    }
                    assert forall|a: int|
                        0 <= a < c.instances@.len() implies (match #[trigger] c.instances@[a].prom_port {
                        Some(q) => q@.len() > 0 && q@[0] == ':',
                        None => true,
                    }) by {
                        if raw_insts@[a].prom_port is Some {
                            lemma_norm_port(raw_insts@[a].prom_port.unwrap()@);
                        }
                    }
                }
                Ok(c)
            },
            None => {
                let stratum_port = match &raw.stratum_port {
                    Some(p) => normalize_port(p.as_str()),
                    None => {
                        proof {
                            reveal_strlit(":5555");
                        }
                        String::from_str(":5555")
                    },
                };
                let min_share_diff = match &raw.min_share_diff {
                    Some(d) => #[verifier::truncate] (*d as u32),
                    None => 8192u32,
                };
                let prom_port = match &raw.prom_port {
                    Some(p) => Some(normalize_port(p.as_str())),
                    None => None,
                };
                let log_to_file = Some(global.log_to_file);
                let instance = InstanceConfig {
                    stratum_port,
                    min_share_diff,
                    prom_port,
                    log_to_file,
                    var_diff: None,
                    shares_per_min: None,
                    var_diff_stats: None,
                    pow2_clamp: None,
                };
                let mut instances: Vec<InstanceConfig> = Vec::new();
                instances.push(instance);
                let c = ServiceConfig { global, instances };
                proof {
                    reveal_strlit(":5555");
                    match &raw.stratum_port {
                        Some(p) => lemma_norm_port(p@),
                        None => {},
                    }
                    match &raw.prom_port {
                        Some(p) => lemma_norm_port(p@),
                        None => {},
                    }
                }
                Ok(c)
            },
        }
    }
}

/// The effective configuration one instance's bridge runs with.
pub struct BridgeConfig {
    pub stratum_port: String,
    pub kaspad_address: String,
    pub print_stats: bool,
    pub log_to_file: bool,
    pub block_wait_time_ms: u64,
    pub min_share_diff: u32,
    pub var_diff: bool,
    pub shares_per_min: u32,
    pub var_diff_stats: bool,
    pub extranonce_size: u8,
    pub pow2_clamp: bool,
}

/// Resolves one instance's effective bridge configuration: the instance
/// value where it declared one, the global value otherwise.
pub fn resolve_bridge_config(global: &GlobalConfig, instance: &InstanceConfig) -> (r: BridgeConfig)
    ensures
        r.stratum_port@ == instance.stratum_port@,
        r.kaspad_address@ == global.kaspad_address@,
        r.print_stats == global.print_stats,
        r.log_to_file == (match instance.log_to_file {
            Some(b) => b,
            None => global.log_to_file,
        }),
        r.block_wait_time_ms == global.block_wait_time_ms,
        r.min_share_diff == instance.min_share_diff,
        r.var_diff == (match instance.var_diff {
            Some(b) => b,
            None => global.var_diff,
        }),
        r.shares_per_min == (match instance.shares_per_min {
            Some(v) => v,
            None => global.shares_per_min,
        }),
        r.var_diff_stats == (match instance.var_diff_stats {
            Some(b) => b,
            None => global.var_diff_stats,
        }),
        r.extranonce_size == global.extranonce_size,
        r.pow2_clamp == (match instance.pow2_clamp {
            Some(b) => b,
            None => global.pow2_clamp,
        }),
{
    BridgeConfig {
        stratum_port: instance.stratum_port.clone(),
        kaspad_address: global.kaspad_address.clone(),
        print_stats: global.print_stats,
        log_to_file: match instance.log_to_file {
            Some(b) => b,
            None => global.log_to_file,
        },
        block_wait_time_ms: global.block_wait_time_ms,
        min_share_diff: instance.min_share_diff,
        var_diff: match instance.var_diff {
            Some(b) => b,
            None => global.var_diff,
        },
        shares_per_min: match instance.shares_per_min {
            Some(v) => v,
            None => global.shares_per_min,
        },
        var_diff_stats: match instance.var_diff_stats {
            Some(b) => b,
            None => global.var_diff_stats,
        },
        extranonce_size: global.extranonce_size,
        pow2_clamp: match instance.pow2_clamp {
            Some(b) => b,
            None => global.pow2_clamp,
        },
    }
}

} // verus!

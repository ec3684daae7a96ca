//! The process-wide configuration: parsed once from a declarative YAML rule
//! file, validated, and read-only afterwards.
//!
//! The YAML document mechanics live in the `yaml_rust` crate behind a few
//! trusted wrappers; everything the document is turned into — the schema
//! walk, the value conversions, and above all the validation that makes a
//! [`YAMLConfig`] trustworthy — is verified here. A configuration that
//! violates the memory-layout invariant (every input window inside the
//! flash, the byte budget no larger than the flash) fails fast, before any
//! emulation begins.

use vstd::prelude::*;

use crate::harness::spec_sum_sizes;
use crate::reset_state::{ResetLevel, spec_level_from_name};
use crate::tunneling::{TunnelRule, TunnelSource, spec_tunnel_source, parse_u32_source};

verus! {

#[verifier::external_type_specification]
#[verifier::external_body]
pub struct ExYaml(yaml_rust::Yaml);

/// The documents a YAML source string parses into, or nothing when it does
/// not parse. Parsing depends on the string alone.
pub uninterp spec fn spec_yaml_docs(s: Seq<char>) -> Option<Seq<yaml_rust::Yaml>>;

/// The value under a key of a hash node: the shared bad-value marker when
/// the key is absent or the node is not a hash. Depends on the node and key
/// alone.
pub uninterp spec fn spec_yaml_key(doc: yaml_rust::Yaml, key: Seq<char>) -> yaml_rust::Yaml;

/// The value of an integer node, nothing for any other node.
pub uninterp spec fn spec_yaml_i64(v: yaml_rust::Yaml) -> Option<i64>;

/// The characters of a string node, nothing for any other node.
pub uninterp spec fn spec_yaml_str(v: yaml_rust::Yaml) -> Option<Seq<char>>;

/// The elements of an array node, nothing for any other node.
pub uninterp spec fn spec_yaml_vec(v: yaml_rust::Yaml) -> Option<Seq<yaml_rust::Yaml>>;

/// Whether the node is the null value.
pub uninterp spec fn spec_yaml_is_null(v: yaml_rust::Yaml) -> bool;

/// Relies on yaml_rust::YamlLoader::load_from_str: parses a YAML string
/// into its documents; a scan error becomes `None`. The result is a
/// function of the string alone.
#[verifier::external_body]
fn parse_yaml_documents(s: &str) -> (r: Option<Vec<yaml_rust::Yaml>>)
    ensures
        match r {
            Some(d) => spec_yaml_docs(s@) == Some(d@),
            None => spec_yaml_docs(s@) is None,
        },
{
    match yaml_rust::YamlLoader::load_from_str(s) {
        Ok(docs) => Some(docs),
        Err(_) => None,
    }
}

/// Relies on yaml_rust::Yaml's Index<&str> impl: the value under `key` in a
/// hash, or the shared bad-value marker when absent or not a hash; it never
/// panics, and the result is a function of the node and key alone.
#[verifier::external_body]
fn yaml_key<'a>(doc: &'a yaml_rust::Yaml, key: &str) -> (r: &'a yaml_rust::Yaml)
    ensures
        *r == spec_yaml_key(*doc, key@),
{
    &doc[key]
}

/// Relies on yaml_rust::Yaml::as_i64: the value of an integer node, a total
/// match on the node.
#[verifier::external_body]
fn yaml_as_i64(v: &yaml_rust::Yaml) -> (r: Option<i64>)
    ensures
        r == spec_yaml_i64(*v),
{
    v.as_i64()
}

/// Relies on yaml_rust::Yaml::as_str: the content of a string node, a total
/// match on the node.
#[verifier::external_body]
fn yaml_as_string(v: &yaml_rust::Yaml) -> (r: Option<String>)
    ensures
        match r {
            Some(s) => spec_yaml_str(*v) == Some(s@),
            None => spec_yaml_str(*v) is None,
        },
{
    v.as_str().map(|s| s.to_string())
}

/// Relies on yaml_rust::Yaml::as_vec: the elements of an array node, a
/// total match on the node.
#[verifier::external_body]
fn yaml_as_vec<'a>(v: &'a yaml_rust::Yaml) -> (r: Option<&'a Vec<yaml_rust::Yaml>>)
    ensures
        match r {
            Some(a) => spec_yaml_vec(*v) == Some(a@),
            None => spec_yaml_vec(*v) is None,
        },
{
    v.as_vec()
}

/// Relies on yaml_rust::Yaml::is_null: whether the node is the null value,
/// a total match on the node.
#[verifier::external_body]
fn yaml_is_null(v: &yaml_rust::Yaml) -> (r: bool)
    ensures
        r == spec_yaml_is_null(*v),
{
    v.is_null()
}

/// A 32-bit address or value from an integer node; anything out of range is
/// rejected rather than truncated.
fn i64_to_u32(v: i64) -> (r: Option<u32>)
    ensures
        r == if 0 <= v <= u32::MAX {
            Some(v as u32)
        } else {
            None::<u32>
        },
{
    if v >= 0 && v <= u32::MAX as i64 {
        Some(v as u32)
    } else {
        None
    }
}

/// A size from an integer node; anything negative or over the address-space
/// limit is rejected rather than truncated.
fn i64_to_usize(v: i64) -> (r: Option<usize>)
    ensures
        r == if 0 <= v <= usize::MAX {
            Some(v as usize)
        } else {
            None::<usize>
        },
{
    if v >= 0 && (v as u64) <= usize::MAX as u64 {
        Some(v as usize)
    } else {
        None
    }
}

/// Reading a mandatory 32-bit scalar: an absent or non-integer node is a
/// missing key, an out-of-range value is malformed.
pub open spec fn spec_scalar_u32(v: yaml_rust::Yaml) -> Result<u32, ConfigError> {
    match spec_yaml_i64(v) {
        Some(x) => if 0 <= x <= u32::MAX {
            Ok(x as u32)
        } else {
            Err(ConfigError::Malformed)
        },
        None => Err(ConfigError::MissingKey),
    }
}

/// Reading a mandatory size scalar: an absent or non-integer node is a
/// missing key, an out-of-range value is malformed.
pub open spec fn spec_scalar_usize(v: yaml_rust::Yaml) -> Result<usize, ConfigError> {
    match spec_yaml_i64(v) {
        Some(x) => if 0 <= x <= usize::MAX {
            Ok(x as usize)
        } else {
            Err(ConfigError::Malformed)
        },
        None => Err(ConfigError::MissingKey),
    }
}

/// Reading a mandatory string scalar: an absent or non-string node is a
/// missing key.
pub open spec fn spec_scalar_str(v: yaml_rust::Yaml) -> Result<Seq<char>, ConfigError> {
    match spec_yaml_str(v) {
        Some(t) => Ok(t),
        None => Err(ConfigError::MissingKey),
    }
}

/// Reading a mandatory list node: an absent or non-array node is a missing
/// key.
pub open spec fn spec_list(v: yaml_rust::Yaml) -> Result<Seq<yaml_rust::Yaml>, ConfigError> {
    match spec_yaml_vec(v) {
        Some(a) => Ok(a),
        None => Err(ConfigError::MissingKey),
    }
}

/// Reading a 32-bit value inside a list entry: anything absent, non-integer
/// or out of range is malformed.
pub open spec fn spec_item_u32(v: yaml_rust::Yaml) -> Result<u32, ConfigError> {
    match spec_yaml_i64(v) {
        Some(x) => if 0 <= x <= u32::MAX {
            Ok(x as u32)
        } else {
            Err(ConfigError::Malformed)
        },
        None => Err(ConfigError::Malformed),
    }
}

/// Reading a size inside a list entry: anything absent, non-integer or out
/// of range is malformed.
pub open spec fn spec_item_usize(v: yaml_rust::Yaml) -> Result<usize, ConfigError> {
    match spec_yaml_i64(v) {
        Some(x) => if 0 <= x <= usize::MAX {
            Ok(x as usize)
        } else {
            Err(ConfigError::Malformed)
        },
        None => Err(ConfigError::Malformed),
    }
}

fn read_scalar_u32(v: &yaml_rust::Yaml) -> (r: Result<u32, ConfigError>)
    ensures
        r == spec_scalar_u32(*v),
{
    match yaml_as_i64(v) {
        Some(x) => match i64_to_u32(x) {
            Some(y) => Ok(y),
            None => Err(ConfigError::Malformed),
        },
        None => Err(ConfigError::MissingKey),
    }
}

fn read_scalar_usize(v: &yaml_rust::Yaml) -> (r: Result<usize, ConfigError>)
    ensures
        r == spec_scalar_usize(*v),
{
    match yaml_as_i64(v) {
        Some(x) => match i64_to_usize(x) {
            Some(y) => Ok(y),
            None => Err(ConfigError::Malformed),
        },
        None => Err(ConfigError::MissingKey),
    }
}

fn read_scalar_string(v: &yaml_rust::Yaml) -> (r: Result<String, ConfigError>)
    ensures
        match r {
            Ok(t) => spec_scalar_str(*v) == Ok::<Seq<char>, ConfigError>(t@),
            Err(e) => spec_scalar_str(*v) == Err::<Seq<char>, ConfigError>(e),
        },
{
    match yaml_as_string(v) {
        Some(t) => Ok(t),
        None => Err(ConfigError::MissingKey),
    }
}

fn read_list<'a>(v: &'a yaml_rust::Yaml) -> (r: Result<&'a Vec<yaml_rust::Yaml>, ConfigError>)
    ensures
        match r {
            Ok(a) => spec_list(*v) == Ok::<Seq<yaml_rust::Yaml>, ConfigError>(a@),
            Err(e) => spec_list(*v) == Err::<Seq<yaml_rust::Yaml>, ConfigError>(e),
        },
{
    match yaml_as_vec(v) {
        Some(a) => Ok(a),
        None => Err(ConfigError::MissingKey),
    }
}

fn read_item_u32(v: &yaml_rust::Yaml) -> (r: Result<u32, ConfigError>)
    ensures
        r == spec_item_u32(*v),
{
    match yaml_as_i64(v) {
        Some(x) => match i64_to_u32(x) {
            Some(y) => Ok(y),
            None => Err(ConfigError::Malformed),
        },
        None => Err(ConfigError::Malformed),
    }
}

fn read_item_usize(v: &yaml_rust::Yaml) -> (r: Result<usize, ConfigError>)
    ensures
        r == spec_item_usize(*v),
{
    match yaml_as_i64(v) {
        Some(x) => match i64_to_usize(x) {
            Some(y) => Ok(y),
            None => Err(ConfigError::Malformed),
        },
        None => Err(ConfigError::Malformed),
    }
}

/// Why a configuration was rejected; any of these is startup-fatal.
#[derive(Copy, Clone, PartialEq, Eq, Structural, Debug)]
pub enum ConfigError {
    /// A mandatory key is absent.
    MissingKey,
    /// The document does not parse, or a value has the wrong shape or range.
    Malformed,
    /// The machine-variant identifier is not one of the supported set.
    UnsupportedZen,
    /// An input window does not lie fully inside the flash bounds.
    WindowOutOfBounds,
    /// The input windows' sizes sum to more than the flash size.
    InputBudgetTooLarge,
    /// A fixed-value injection does not lie fully inside the flash bounds.
    FixedOutOfBounds,
    /// A tunneling value is neither a literal nor a known register name.
    BadTunnel,
    /// A snapshot fidelity name is unknown.
    BadLevel,
}

/// A tunneling value as it appears in the rule file: a text node (a literal
/// in decimal digits, or a register name), or an integer node.
#[derive(Clone, Debug)]
pub enum TunnelValue {
    Text(String),
    Value(u32),
}

/// The value source a configured tunneling value denotes, if any.
pub open spec fn spec_tunnel_value_source(tv: TunnelValue) -> Option<TunnelSource> {
    match tv {
        TunnelValue::Value(v) => Some(TunnelSource::Literal(v)),
        TunnelValue::Text(s) => spec_tunnel_source(s@),
    }
}

/// The working-memory size of a supported machine variant.
pub open spec fn spec_zen_sram_size(s: Seq<char>) -> Option<u32> {
    if s == "Zen1"@ || s == "Zen+"@ || s == "ZenTesla"@ {
        Some(0x4_0000u32)
    } else if s == "Zen2"@ || s == "Zen3"@ {
        Some(0x5_0000u32)
    } else {
        None
    }
}

/// The working-memory size of a supported machine variant.
pub fn zen_sram_size(s: &str) -> (r: Option<u32>)
    ensures
        r == spec_zen_sram_size(s@),
{
    if crate::util::str_eq(s, "Zen1") || crate::util::str_eq(s, "Zen+") || crate::util::str_eq(
        s,
        "ZenTesla",
    ) {
        Some(0x4_0000)
    } else if crate::util::str_eq(s, "Zen2") || crate::util::str_eq(s, "Zen3") {
        Some(0x5_0000)
    } else {
        None
    }
}

/// The backend machine identifier of a supported machine variant.
pub open spec fn spec_zen_machine_name(s: Seq<char>) -> Option<Seq<char>> {
    if s == "Zen1"@ {
        Some("amd-psp-zen"@)
    } else if s == "Zen+"@ {
        Some("amd-psp-zen+"@)
    } else if s == "Zen2"@ {
        Some("amd-psp-zen2"@)
    } else if s == "Zen3"@ {
        Some("amd-psp-zen3"@)
    } else if s == "ZenTesla"@ {
        Some("amd-psp-zentesla"@)
    } else {
        None
    }
}

/// The backend machine identifier the emulator is started with for a
/// machine variant; unsupported variants have none.
pub fn zen_machine_name(s: &str) -> (r: Option<&'static str>)
    ensures
        match r {
            Some(m) => spec_zen_machine_name(s@) == Some(m@),
            None => spec_zen_machine_name(s@) is None,
        },
{
    if crate::util::str_eq(s, "Zen1") {
        Some("amd-psp-zen")
    } else if crate::util::str_eq(s, "Zen+") {
        Some("amd-psp-zen+")
    } else if crate::util::str_eq(s, "Zen2") {
        Some("amd-psp-zen2")
    } else if crate::util::str_eq(s, "Zen3") {
        Some("amd-psp-zen3")
    } else if crate::util::str_eq(s, "ZenTesla") {
        Some("amd-psp-zentesla")
    } else {
        None
    }
}

/// A successfully read list prefix, put before the rest of a reading.
pub open spec fn spec_prepend<T>(prefix: Seq<T>, rest: Result<Seq<T>, ConfigError>) -> Result<
    Seq<T>,
    ConfigError,
> {
    match rest {
        Ok(r) => Ok(prefix + r),
        Err(e) => Err(e),
    }
}

/// The character sequences of a vector of strings.
pub open spec fn strings_view(v: Vec<String>) -> Seq<Seq<char>> {
    Seq::new(v@.len(), |i: int| v@[i]@)
}

/// The plain view of a vector of protected ranges.
pub open spec fn ranges_view(v: Vec<(u32, u32, Vec<u32>)>) -> Seq<(u32, u32, Seq<u32>)> {
    Seq::new(v@.len(), |i: int| (v@[i].0, v@[i].1, v@[i].2@))
}

/// The resolved view of a vector of tunneling entries.
pub open spec fn cmps_view(v: Vec<(u32, TunnelValue)>) -> Seq<(u32, Option<TunnelSource>)> {
    Seq::new(v@.len(), |i: int| (v@[i].0, spec_tunnel_value_source(v@[i].1)))
}

/// Reading the seed-image path list: string entries up to the first null.
pub open spec fn spec_initial_items(entries: Seq<yaml_rust::Yaml>, i: int) -> Result<
    Seq<Seq<char>>,
    ConfigError,
>
    decreases entries.len() - i,
{
    if i < 0 || i >= entries.len() {
        Ok(Seq::empty())
    } else if spec_yaml_is_null(entries[i]) {
        Ok(Seq::empty())
    } else {
        match spec_yaml_str(entries[i]) {
            Some(t) => spec_prepend(seq![t], spec_initial_items(entries, i + 1)),
            None => Err(ConfigError::Malformed),
        }
    }
}

/// Reading the input-window list: (addr, size) entries up to the first
/// entry with a null address or size.
pub open spec fn spec_mem_items(entries: Seq<yaml_rust::Yaml>, i: int) -> Result<
    Seq<(u32, usize)>,
    ConfigError,
>
    decreases entries.len() - i,
{
    if i < 0 || i >= entries.len() {
        Ok(Seq::empty())
    } else if spec_yaml_is_null(spec_yaml_key(entries[i], "addr"@)) || spec_yaml_is_null(
        spec_yaml_key(entries[i], "size"@),
    ) {
        Ok(Seq::empty())
    } else {
        match spec_item_u32(spec_yaml_key(entries[i], "addr"@)) {
            Ok(addr) => match spec_item_usize(spec_yaml_key(entries[i], "size"@)) {
                Ok(size) => spec_prepend(seq![(addr, size)], spec_mem_items(entries, i + 1)),
                Err(e) => Err(e),
            },
            Err(e) => Err(e),
        }
    }
}

/// Reading the fixed-value list: (addr, val) entries up to the first entry
/// with a null address or value.
pub open spec fn spec_fixed_items(entries: Seq<yaml_rust::Yaml>, i: int) -> Result<
    Seq<(u32, u32)>,
    ConfigError,
>
    decreases entries.len() - i,
{
    if i < 0 || i >= entries.len() {
        Ok(Seq::empty())
    } else if spec_yaml_is_null(spec_yaml_key(entries[i], "addr"@)) || spec_yaml_is_null(
        spec_yaml_key(entries[i], "val"@),
    ) {
        Ok(Seq::empty())
    } else {
        match spec_item_u32(spec_yaml_key(entries[i], "addr"@)) {
            Ok(addr) => match spec_item_u32(spec_yaml_key(entries[i], "val"@)) {
                Ok(val) => spec_prepend(seq![(addr, val)], spec_fixed_items(entries, i + 1)),
                Err(e) => Err(e),
            },
            Err(e) => Err(e),
        }
    }
}

/// Reading a plain list of 32-bit values, every entry mandatory.
pub open spec fn spec_u32_items(entries: Seq<yaml_rust::Yaml>, i: int) -> Result<
    Seq<u32>,
    ConfigError,
>
    decreases entries.len() - i,
{
    if i < 0 || i >= entries.len() {
        Ok(Seq::empty())
    } else {
        match spec_item_u32(entries[i]) {
            Ok(x) => spec_prepend(seq![x], spec_u32_items(entries, i + 1)),
            Err(e) => Err(e),
        }
    }
}

/// Reading the crash-breakpoint list: 32-bit entries up to the first null.
pub open spec fn spec_breakpoint_items(entries: Seq<yaml_rust::Yaml>, i: int) -> Result<
    Seq<u32>,
    ConfigError,
>
    decreases entries.len() - i,
{
    if i < 0 || i >= entries.len() {
        Ok(Seq::empty())
    } else if spec_yaml_is_null(entries[i]) {
        Ok(Seq::empty())
    } else {
        match spec_item_u32(entries[i]) {
            Ok(x) => spec_prepend(seq![x], spec_breakpoint_items(entries, i + 1)),
            Err(e) => Err(e),
        }
    }
}

/// Reading the non-executable range list: (begin, end) entries up to the
/// first entry with a null bound.
pub open spec fn spec_no_exec_items(entries: Seq<yaml_rust::Yaml>, i: int) -> Result<
    Seq<(u32, u32)>,
    ConfigError,
>
    decreases entries.len() - i,
{
    if i < 0 || i >= entries.len() {
        Ok(Seq::empty())
    } else if spec_yaml_is_null(spec_yaml_key(entries[i], "begin"@)) || spec_yaml_is_null(
        spec_yaml_key(entries[i], "end"@),
    ) {
        Ok(Seq::empty())
    } else {
        match spec_item_u32(spec_yaml_key(entries[i], "begin"@)) {
            Ok(begin) => match spec_item_u32(spec_yaml_key(entries[i], "end"@)) {
                Ok(end) => spec_prepend(seq![(begin, end)], spec_no_exec_items(entries, i + 1)),
                Err(e) => Err(e),
            },
            Err(e) => Err(e),
        }
    }
}

/// Reading one tunneling entry's value source: a string node is kept as a
/// candidate to parse at validation time, an in-range integer node is a
/// resolved literal, anything else is malformed.
pub open spec fn spec_cmp_source(v: yaml_rust::Yaml) -> Result<Option<TunnelSource>, ConfigError> {
    match spec_yaml_str(v) {
        Some(t) => Ok(spec_tunnel_source(t)),
        None => match spec_yaml_i64(v) {
            Some(x) => if 0 <= x <= u32::MAX {
                Ok(Some(TunnelSource::Literal(x as u32)))
            } else {
                Err(ConfigError::Malformed)
            },
            None => Err(ConfigError::Malformed),
        },
    }
}

/// Reading the tunneling rule list: (addr, source) entries up to the first
/// entry with a null address or value.
pub open spec fn spec_cmps_items(entries: Seq<yaml_rust::Yaml>, i: int) -> Result<
    Seq<(u32, Option<TunnelSource>)>,
    ConfigError,
>
    decreases entries.len() - i,
{
    if i < 0 || i >= entries.len() {
        Ok(Seq::empty())
    } else if spec_yaml_is_null(spec_yaml_key(entries[i], "addr"@)) || spec_yaml_is_null(
        spec_yaml_key(entries[i], "r0"@),
    ) {
        Ok(Seq::empty())
    } else {
        match spec_item_u32(spec_yaml_key(entries[i], "addr"@)) {
            Ok(addr) => match spec_cmp_source(spec_yaml_key(entries[i], "r0"@)) {
                Ok(src) => spec_prepend(seq![(addr, src)], spec_cmps_items(entries, i + 1)),
                Err(e) => Err(e),
            },
            Err(e) => Err(e),
        }
    }
}

/// Reading one protected range's allow-list: absent means empty, a non-list
/// node is malformed, entries are mandatory 32-bit values.
pub open spec fn spec_allow_items(v: yaml_rust::Yaml) -> Result<Seq<u32>, ConfigError> {
    if spec_yaml_is_null(v) {
        Ok(Seq::empty())
    } else {
        match spec_yaml_vec(v) {
            Some(a) => spec_u32_items(a, 0),
            None => Err(ConfigError::Malformed),
        }
    }
}

/// Reading a protected-range list: (begin, end, allow-list) entries up to
/// the first entry with a null bound, the allow-list under `allow_key`.
pub open spec fn spec_range_items(
    entries: Seq<yaml_rust::Yaml>,
    allow_key: Seq<char>,
    i: int,
) -> Result<Seq<(u32, u32, Seq<u32>)>, ConfigError>
    decreases entries.len() - i,
{
    if i < 0 || i >= entries.len() {
        Ok(Seq::empty())
    } else if spec_yaml_is_null(spec_yaml_key(entries[i], "begin"@)) || spec_yaml_is_null(
        spec_yaml_key(entries[i], "end"@),
    ) {
        Ok(Seq::empty())
    } else {
        match spec_item_u32(spec_yaml_key(entries[i], "begin"@)) {
            Ok(begin) => match spec_item_u32(spec_yaml_key(entries[i], "end"@)) {
                Ok(end) => match spec_allow_items(spec_yaml_key(entries[i], allow_key)) {
                    Ok(allow) => spec_prepend(
                        seq![(begin, end, allow)],
                        spec_range_items(entries, allow_key, i + 1),
                    ),
                    Err(e) => Err(e),
                },
                Err(e) => Err(e),
            },
            Err(e) => Err(e),
        }
    }
}

fn read_initial_items(arr: &Vec<yaml_rust::Yaml>) -> (r: Result<Vec<String>, ConfigError>)
    ensures
        match r {
            Ok(v) => spec_initial_items(arr@, 0) == Ok::<Seq<Seq<char>>, ConfigError>(
                strings_view(v),
            ),
            Err(e) => spec_initial_items(arr@, 0) == Err::<Seq<Seq<char>>, ConfigError>(e),
        },
{
    let mut out: Vec<String> = Vec::new();
    let mut i: usize = 0;
    proof {
        assert(strings_view(out) =~= Seq::<Seq<char>>::empty());
        match spec_initial_items(arr@, 0) {
            Ok(r0) => {
                assert(strings_view(out) + r0 =~= r0);
            },
            Err(_) => {},
        }
    }
    while i < arr.len()
        invariant
            0 <= i <= arr@.len(),
            spec_initial_items(arr@, 0) == spec_prepend(
                strings_view(out),
                spec_initial_items(arr@, i as int),
            ),
        decreases arr@.len() - i,
    {
        let item = &arr[i];
        if yaml_is_null(item) {
            proof {
                assert(strings_view(out) + Seq::<Seq<char>>::empty() =~= strings_view(out));
            }
            return Ok(out);
        }
        let t = match yaml_as_string(item) {
            Some(t) => t,
            None => {
                return Err(ConfigError::Malformed);
            },
        };
        let ghost tv = t@;
        let ghost pre = strings_view(out);
        out.push(t);
        proof {
            assert(strings_view(out) =~= pre.push(tv));
            match spec_initial_items(arr@, i + 1) {
                Ok(rest) => {
                    assert(pre + (seq![tv] + rest) =~= strings_view(out) + rest);
                },
                Err(_) => {},
            }
        }
        i = i + 1;
    }
    proof {
        assert(strings_view(out) + Seq::<Seq<char>>::empty() =~= strings_view(out));
    }
    Ok(out)
}

fn read_mem_items(arr: &Vec<yaml_rust::Yaml>) -> (r: Result<Vec<(u32, usize)>, ConfigError>)
    ensures
        match r {
            Ok(v) => spec_mem_items(arr@, 0) == Ok::<Seq<(u32, usize)>, ConfigError>(v@),
            Err(e) => spec_mem_items(arr@, 0) == Err::<Seq<(u32, usize)>, ConfigError>(e),
        },
{
    let mut out: Vec<(u32, usize)> = Vec::new();
    let mut i: usize = 0;
    proof {
        match spec_mem_items(arr@, 0) {
            Ok(r0) => {
                assert(out@ + r0 =~= r0);
            },
            Err(_) => {},
        }
    }
    while i < arr.len()
        invariant
            0 <= i <= arr@.len(),
            spec_mem_items(arr@, 0) == spec_prepend(out@, spec_mem_items(arr@, i as int)),
        decreases arr@.len() - i,
    {
        let entry = &arr[i];
        let addr_y = yaml_key(entry, "addr");
        let size_y = yaml_key(entry, "size");
        if yaml_is_null(addr_y) || yaml_is_null(size_y) {
            proof {
                assert(out@ + Seq::<(u32, usize)>::empty() =~= out@);
            }
            return Ok(out);
        }
        let addr = match read_item_u32(addr_y) {
            Ok(a) => a,
            Err(e) => {
                return Err(e);
            },
        };
        let size = match read_item_usize(size_y) {
            Ok(sz) => sz,
            Err(e) => {
                return Err(e);
            },
        };
        let ghost pre = out@;
        out.push((addr, size));
        proof {
            match spec_mem_items(arr@, i + 1) {
                Ok(rest) => {
                    assert(pre + (seq![(addr, size)] + rest) =~= out@ + rest);
                },
                Err(_) => {},
            }
        }
        i = i + 1;
    }
    proof {
        assert(out@ + Seq::<(u32, usize)>::empty() =~= out@);
    }
    Ok(out)
}

fn read_fixed_items(arr: &Vec<yaml_rust::Yaml>) -> (r: Result<Vec<(u32, u32)>, ConfigError>)
    ensures
        match r {
            Ok(v) => spec_fixed_items(arr@, 0) == Ok::<Seq<(u32, u32)>, ConfigError>(v@),
            Err(e) => spec_fixed_items(arr@, 0) == Err::<Seq<(u32, u32)>, ConfigError>(e),
        },
{
    let mut out: Vec<(u32, u32)> = Vec::new();
    let mut i: usize = 0;
    proof {
        match spec_fixed_items(arr@, 0) {
            Ok(r0) => {
                assert(out@ + r0 =~= r0);
            },
            Err(_) => {},
        }
    }
    while i < arr.len()
        invariant
            0 <= i <= arr@.len(),
            spec_fixed_items(arr@, 0) == spec_prepend(out@, spec_fixed_items(arr@, i as int)),
        decreases arr@.len() - i,
    {
        let entry = &arr[i];
        let addr_y = yaml_key(entry, "addr");
        let val_y = yaml_key(entry, "val");
        if yaml_is_null(addr_y) || yaml_is_null(val_y) {
            proof {
                assert(out@ + Seq::<(u32, u32)>::empty() =~= out@);
            }
            return Ok(out);
        }
        let addr = match read_item_u32(addr_y) {
            Ok(a) => a,
            Err(e) => {
                return Err(e);
            },
        };
        let val = match read_item_u32(val_y) {
            Ok(x) => x,
            Err(e) => {
                return Err(e);
            },
        };
        let ghost pre = out@;
        out.push((addr, val));
        proof {
            match spec_fixed_items(arr@, i + 1) {
                Ok(rest) => {
                    assert(pre + (seq![(addr, val)] + rest) =~= out@ + rest);
                },
                Err(_) => {},
            }
        }
        i = i + 1;
    }
    proof {
        assert(out@ + Seq::<(u32, u32)>::empty() =~= out@);
    }
    Ok(out)
}

fn read_u32_items(arr: &Vec<yaml_rust::Yaml>) -> (r: Result<Vec<u32>, ConfigError>)
    ensures
        match r {
            Ok(v) => spec_u32_items(arr@, 0) == Ok::<Seq<u32>, ConfigError>(v@),
            Err(e) => spec_u32_items(arr@, 0) == Err::<Seq<u32>, ConfigError>(e),
        },
{
    let mut out: Vec<u32> = Vec::new();
    let mut i: usize = 0;
    proof {
        match spec_u32_items(arr@, 0) {
            Ok(r0) => {
                assert(out@ + r0 =~= r0);
            },
            Err(_) => {},
        }
    }
    while i < arr.len()
        invariant
            0 <= i <= arr@.len(),
            spec_u32_items(arr@, 0) == spec_prepend(out@, spec_u32_items(arr@, i as int)),
        decreases arr@.len() - i,
    {
        let x = match read_item_u32(&arr[i]) {
            Ok(x) => x,
            Err(e) => {
                return Err(e);
            },
        };
        let ghost pre = out@;
        out.push(x);
        proof {
            match spec_u32_items(arr@, i + 1) {
                Ok(rest) => {
                    assert(pre + (seq![x] + rest) =~= out@ + rest);
                },
                Err(_) => {},
            }
        }
        i = i + 1;
    }
    proof {
        assert(out@ + Seq::<u32>::empty() =~= out@);
    }
    Ok(out)
}

fn read_breakpoint_items(arr: &Vec<yaml_rust::Yaml>) -> (r: Result<Vec<u32>, ConfigError>)
    ensures
        match r {
            Ok(v) => spec_breakpoint_items(arr@, 0) == Ok::<Seq<u32>, ConfigError>(v@),
            Err(e) => spec_breakpoint_items(arr@, 0) == Err::<Seq<u32>, ConfigError>(e),
        },
{
    let mut out: Vec<u32> = Vec::new();
    let mut i: usize = 0;
    proof {
        match spec_breakpoint_items(arr@, 0) {
            Ok(r0) => {
                assert(out@ + r0 =~= r0);
            },
            Err(_) => {},
        }
    }
    while i < arr.len()
        invariant
            0 <= i <= arr@.len(),
            spec_breakpoint_items(arr@, 0) == spec_prepend(
                out@,
                spec_breakpoint_items(arr@, i as int),
            ),
        decreases arr@.len() - i,
    {
        let item = &arr[i];
        if yaml_is_null(item) {
            proof {
                assert(out@ + Seq::<u32>::empty() =~= out@);
            }
            return Ok(out);
        }
        let x = match read_item_u32(item) {
            Ok(x) => x,
            Err(e) => {
                return Err(e);
            },
        };
        let ghost pre = out@;
        out.push(x);
        proof {
            match spec_breakpoint_items(arr@, i + 1) {
                Ok(rest) => {
                    assert(pre + (seq![x] + rest) =~= out@ + rest);
                },
                Err(_) => {},
            }
        }
        i = i + 1;
    }
    proof {
        assert(out@ + Seq::<u32>::empty() =~= out@);
    }
    Ok(out)
}

fn read_no_exec_items(arr: &Vec<yaml_rust::Yaml>) -> (r: Result<Vec<(u32, u32)>, ConfigError>)
    ensures
        match r {
            Ok(v) => spec_no_exec_items(arr@, 0) == Ok::<Seq<(u32, u32)>, ConfigError>(v@),
            Err(e) => spec_no_exec_items(arr@, 0) == Err::<Seq<(u32, u32)>, ConfigError>(e),
        },
{
    let mut out: Vec<(u32, u32)> = Vec::new();
    let mut i: usize = 0;
    proof {
        match spec_no_exec_items(arr@, 0) {
            Ok(r0) => {
                assert(out@ + r0 =~= r0);
            },
            Err(_) => {},
        }
    }
    while i < arr.len()
        invariant
            0 <= i <= arr@.len(),
            spec_no_exec_items(arr@, 0) == spec_prepend(out@, spec_no_exec_items(arr@, i as int)),
        decreases arr@.len() - i,
    {
        let entry = &arr[i];
        let begin_y = yaml_key(entry, "begin");
        let end_y = yaml_key(entry, "end");
        if yaml_is_null(begin_y) || yaml_is_null(end_y) {
            proof {
                assert(out@ + Seq::<(u32, u32)>::empty() =~= out@);
            }
            return Ok(out);
        }
        let begin = match read_item_u32(begin_y) {
            Ok(b) => b,
            Err(e) => {
                return Err(e);
            },
        };
        let end = match read_item_u32(end_y) {
            Ok(x) => x,
            Err(e) => {
                return Err(e);
            },
        };
        let ghost pre = out@;
        out.push((begin, end));
        proof {
            match spec_no_exec_items(arr@, i + 1) {
                Ok(rest) => {
                    assert(pre + (seq![(begin, end)] + rest) =~= out@ + rest);
                },
                Err(_) => {},
            }
        }
        i = i + 1;
    }
    proof {
        assert(out@ + Seq::<(u32, u32)>::empty() =~= out@);
    }
    Ok(out)
}

fn read_cmps_items(arr: &Vec<yaml_rust::Yaml>) -> (r: Result<Vec<(u32, TunnelValue)>, ConfigError>)
    ensures
        match r {
            Ok(v) => spec_cmps_items(arr@, 0) == Ok::<
                Seq<(u32, Option<TunnelSource>)>,
                ConfigError,
            >(cmps_view(v)),
            Err(e) => spec_cmps_items(arr@, 0) == Err::<
                Seq<(u32, Option<TunnelSource>)>,
                ConfigError,
            >(e),
        },
{
    let mut out: Vec<(u32, TunnelValue)> = Vec::new();
    let mut i: usize = 0;
    proof {
        assert(cmps_view(out) =~= Seq::<(u32, Option<TunnelSource>)>::empty());
        match spec_cmps_items(arr@, 0) {
            Ok(r0) => {
                assert(cmps_view(out) + r0 =~= r0);
            },
            Err(_) => {},
        }
    }
    while i < arr.len()
        invariant
            0 <= i <= arr@.len(),
            spec_cmps_items(arr@, 0) == spec_prepend(
                cmps_view(out),
                spec_cmps_items(arr@, i as int),
            ),
        decreases arr@.len() - i,
    {
        let entry = &arr[i];
        let addr_y = yaml_key(entry, "addr");
        let r0_y = yaml_key(entry, "r0");
        if yaml_is_null(addr_y) || yaml_is_null(r0_y) {
            proof {
                assert(cmps_view(out) + Seq::<(u32, Option<TunnelSource>)>::empty() =~= cmps_view(
                    out,
                ));
            }
            return Ok(out);
        }
        let addr = match read_item_u32(addr_y) {
            Ok(a) => a,
            Err(e) => {
                return Err(e);
            },
        };
        let value = match yaml_as_string(r0_y) {
            Some(t) => TunnelValue::Text(t),
            None => match yaml_as_i64(r0_y) {
                Some(x) => match i64_to_u32(x) {
                    Some(y) => TunnelValue::Value(y),
                    None => {
                        return Err(ConfigError::Malformed);
                    },
                },
                None => {
                    return Err(ConfigError::Malformed);
                },
            },
        };
        let ghost src = spec_tunnel_value_source(value);
        let ghost pre = cmps_view(out);
        out.push((addr, value));
        proof {
            assert(cmps_view(out) =~= pre.push((addr, src)));
            match spec_cmps_items(arr@, i + 1) {
                Ok(rest) => {
                    assert(pre + (seq![(addr, src)] + rest) =~= cmps_view(out) + rest);
                },
                Err(_) => {},
            }
        }
        i = i + 1;
    }
    proof {
        assert(cmps_view(out) + Seq::<(u32, Option<TunnelSource>)>::empty() =~= cmps_view(out));
    }
    Ok(out)
}

/// The configuration as read from the rule file, before validation: plain
/// values in document order, nothing derived yet.
pub struct RawConfig {
    pub config_file: String,
    pub qemu_zen: String,
    pub qemu_on_chip_bl_path: String,
    pub flash_start_smn: u32,
    pub flash_size: usize,
    pub flash_start_cpu: u32,
    pub flash_base: String,
    pub input_initial: Vec<String>,
    pub input_mem: Vec<(u32, usize)>,
    pub input_fixed: Vec<(u32, u32)>,
    pub harness_start: u32,
    pub harness_sinks: Vec<u32>,
    pub tunnels_cmps: Vec<(u32, TunnelValue)>,
    pub crashes_breakpoints: Vec<u32>,
    pub crashes_mmap_no_exec: Vec<(u32, u32)>,
    pub crashes_mmap_flash_read_fn: u32,
    pub crashes_mmap_no_write_flash_fn: Vec<(u32, u32, Vec<u32>)>,
    pub crashes_mmap_no_write_hooks: Vec<(u32, u32, Vec<u32>)>,
    pub snapshot_default: String,
    pub snapshot_on_crash: String,
    pub snapshot_periodically: String,
    pub snapshot_period: usize,
}

/// The validated, immutable configuration every other component reads.
pub struct YAMLConfig {
    pub config_file: String,
    pub qemu_zen: String,
    pub qemu_sram_size: u32,
    pub qemu_on_chip_bl_path: String,
    pub flash_start_smn: u32,
    pub flash_size: usize,
    pub flash_start_cpu: u32,
    pub flash_base: String,
    pub input_initial: Vec<String>,
    pub input_mem: Vec<(u32, usize)>,
    pub input_fixed: Vec<(u32, u32)>,
    pub input_total_size: usize,
    pub harness_start: u32,
    pub harness_sinks: Vec<u32>,
    pub tunnels_cmps: Vec<TunnelRule>,
    pub crashes_breakpoints: Vec<u32>,
    pub crashes_mmap_no_exec: Vec<(u32, u32)>,
    pub crashes_mmap_flash_read_fn: u32,
    pub crashes_mmap_no_write_flash_fn: Vec<(u32, u32, Vec<u32>)>,
    pub crashes_mmap_no_write_hooks: Vec<(u32, u32, Vec<u32>)>,
    pub snapshot_default: ResetLevel,
    pub snapshot_on_crash: ResetLevel,
    pub snapshot_periodically: ResetLevel,
    pub snapshot_period: usize,
}

impl YAMLConfig {
    /// What validation established: the memory size matches a supported
    /// variant, the byte budget is the sum of the window sizes and fits the
    /// flash, and every window and fixed injection lies inside the flash.
    pub open spec fn valid(&self) -> bool {
        &&& spec_zen_sram_size(self.qemu_zen@) == Some(self.qemu_sram_size)
        &&& self.input_total_size == spec_sum_sizes(self.input_mem@)
        &&& self.input_total_size <= self.flash_size
        &&& forall|i: int|
            #![trigger self.input_mem@[i]]
            0 <= i < self.input_mem@.len() ==> self.input_mem@[i].0 + self.input_mem@[i].1
                <= self.flash_size
        &&& forall|i: int|
            #![trigger self.input_fixed@[i]]
            0 <= i < self.input_fixed@.len() ==> self.input_fixed@[i].0 + 4 <= self.flash_size
    }
}

/// All the conditions validation checks, over the plain parts of one
/// configuration reading.
pub open spec fn spec_parts_ok(
    zen: Seq<char>,
    flash_size: usize,
    mem: Seq<(u32, usize)>,
    fixed: Seq<(u32, u32)>,
    cmps: Seq<(u32, Option<TunnelSource>)>,
    level_default: Seq<char>,
    level_on_crash: Seq<char>,
    level_periodically: Seq<char>,
) -> bool {
    &&& spec_zen_sram_size(zen) is Some
    &&& forall|i: int|
        #![trigger mem[i]]
        0 <= i < mem.len() ==> mem[i].0 + mem[i].1 <= flash_size
    &&& spec_sum_sizes(mem) <= flash_size
    &&& forall|i: int| #![trigger fixed[i]] 0 <= i < fixed.len() ==> fixed[i].0 + 4 <= flash_size
    &&& forall|i: int| #![trigger cmps[i]] 0 <= i < cmps.len() ==> cmps[i].1 is Some
    &&& spec_level_from_name(level_default) is Ok
    &&& spec_level_from_name(level_on_crash) is Ok
    &&& spec_level_from_name(level_periodically) is Ok
}

/// The error validation reports first, checking the variant, then each
/// window's bounds, then the byte budget, then the fixed injections, then
/// the tunneling values, then the fidelity names.
pub open spec fn spec_parts_first_error(
    zen: Seq<char>,
    flash_size: usize,
    mem: Seq<(u32, usize)>,
    fixed: Seq<(u32, u32)>,
    cmps: Seq<(u32, Option<TunnelSource>)>,
) -> ConfigError {
    if spec_zen_sram_size(zen) is None {
        ConfigError::UnsupportedZen
    } else if exists|i: int|
        #![trigger mem[i]]
        0 <= i < mem.len() && mem[i].0 + mem[i].1 > flash_size {
        ConfigError::WindowOutOfBounds
    } else if spec_sum_sizes(mem) > flash_size {
        ConfigError::InputBudgetTooLarge
    } else if exists|i: int| #![trigger fixed[i]] 0 <= i < fixed.len() && fixed[i].0 + 4 > flash_size {
        ConfigError::FixedOutOfBounds
    } else if exists|i: int| #![trigger cmps[i]] 0 <= i < cmps.len() && cmps[i].1 is None {
        ConfigError::BadTunnel
    } else {
        ConfigError::BadLevel
    }
}

/// All the conditions validation checks.
pub open spec fn spec_config_ok(raw: RawConfig) -> bool {
    spec_parts_ok(
        raw.qemu_zen@,
        raw.flash_size,
        raw.input_mem@,
        raw.input_fixed@,
        cmps_view(raw.tunnels_cmps),
        raw.snapshot_default@,
        raw.snapshot_on_crash@,
        raw.snapshot_periodically@,
    )
}

/// The error validation reports first.
pub open spec fn spec_first_error(raw: RawConfig) -> ConfigError {
    spec_parts_first_error(
        raw.qemu_zen@,
        raw.flash_size,
        raw.input_mem@,
        raw.input_fixed@,
        cmps_view(raw.tunnels_cmps),
    )
}

impl YAMLConfig {
    /// Validates a raw configuration and derives the per-variant memory
    /// size and the total input byte budget. Exactly the configurations
    /// satisfying every validation condition are accepted; a rejected one
    /// reports the first violated condition.
    pub fn build(raw: RawConfig) -> (r: Result<YAMLConfig, ConfigError>)
        ensures
            r is Ok <==> spec_config_ok(raw),
            !spec_config_ok(raw) ==> r == Err::<YAMLConfig, ConfigError>(spec_first_error(raw)),
            r matches Ok(c) ==> {
                &&& c.valid()
                &&& c.config_file == raw.config_file
                &&& c.qemu_zen == raw.qemu_zen
                &&& spec_zen_sram_size(raw.qemu_zen@) == Some(c.qemu_sram_size)
                &&& c.qemu_on_chip_bl_path == raw.qemu_on_chip_bl_path
                &&& c.flash_start_smn == raw.flash_start_smn
                &&& c.flash_size == raw.flash_size
                &&& c.flash_start_cpu == raw.flash_start_cpu
                &&& c.flash_base == raw.flash_base
                &&& c.input_initial == raw.input_initial
                &&& c.input_mem == raw.input_mem
                &&& c.input_fixed == raw.input_fixed
                &&& c.input_total_size == spec_sum_sizes(raw.input_mem@)
                &&& c.harness_start == raw.harness_start
                &&& c.harness_sinks == raw.harness_sinks
                &&& c.tunnels_cmps@.len() == raw.tunnels_cmps@.len()
                &&& forall|i: int|
                    #![trigger c.tunnels_cmps@[i]]
                    0 <= i < c.tunnels_cmps@.len() ==> c.tunnels_cmps@[i].addr
                        == raw.tunnels_cmps@[i].0 && Some(c.tunnels_cmps@[i].source)
                        == spec_tunnel_value_source(raw.tunnels_cmps@[i].1)
                &&& c.crashes_breakpoints == raw.crashes_breakpoints
                &&& c.crashes_mmap_no_exec == raw.crashes_mmap_no_exec
                &&& c.crashes_mmap_flash_read_fn == raw.crashes_mmap_flash_read_fn
                &&& c.crashes_mmap_no_write_flash_fn == raw.crashes_mmap_no_write_flash_fn
                &&& c.crashes_mmap_no_write_hooks == raw.crashes_mmap_no_write_hooks
                &&& spec_level_from_name(raw.snapshot_default@) == Ok::<ResetLevel, ()>(
                    c.snapshot_default,
                )
                &&& spec_level_from_name(raw.snapshot_on_crash@) == Ok::<ResetLevel, ()>(
                    c.snapshot_on_crash,
                )
                &&& spec_level_from_name(raw.snapshot_periodically@) == Ok::<ResetLevel, ()>(
                    c.snapshot_periodically,
                )
                &&& c.snapshot_period == raw.snapshot_period
            },
    {
        let qemu_sram_size = match zen_sram_size(raw.qemu_zen.as_str()) {
            Some(sz) => sz,
            None => {
                return Err(ConfigError::UnsupportedZen);
            },
        };
        let mut i: usize = 0;
        while i < raw.input_mem.len()
            invariant
                0 <= i <= raw.input_mem@.len(),
                forall|j: int|
                    #![trigger raw.input_mem@[j]]
                    0 <= j < i ==> raw.input_mem@[j].0 + raw.input_mem@[j].1 <= raw.flash_size,
            decreases raw.input_mem@.len() - i,
        {
            let (addr, size) = raw.input_mem[i];
            if size > raw.flash_size || addr as usize > raw.flash_size - size {
                return Err(ConfigError::WindowOutOfBounds);
            }
            i = i + 1;
        }
        let mut input_total_size: usize = 0;
        let mut i: usize = 0;
        proof {
            assert(raw.input_mem@.take(0) =~= Seq::<(u32, usize)>::empty());
        }
        while i < raw.input_mem.len()
            invariant
                0 <= i <= raw.input_mem@.len(),
                input_total_size == spec_sum_sizes(raw.input_mem@.take(i as int)),
                input_total_size <= raw.flash_size,
            decreases raw.input_mem@.len() - i,
        {
            let (_, size) = raw.input_mem[i];
            proof {
                assert(raw.input_mem@.take(i + 1).drop_last() =~= raw.input_mem@.take(i as int));
                assert(raw.input_mem@.take(i + 1).last() == raw.input_mem@[i as int]);
            }
            if size > raw.flash_size - input_total_size {
                proof {
                    crate::harness::lemma_sum_sizes_monotone(
                        raw.input_mem@,
                        i + 1,
                        raw.input_mem@.len() as int,
                    );
                    assert(raw.input_mem@.take(raw.input_mem@.len() as int) =~= raw.input_mem@);
                }
                return Err(ConfigError::InputBudgetTooLarge);
            }
            input_total_size = input_total_size + size;
            i = i + 1;
        }
        proof {
            assert(raw.input_mem@.take(raw.input_mem@.len() as int) =~= raw.input_mem@);
        }
        let mut i: usize = 0;
        while i < raw.input_fixed.len()
            invariant
                0 <= i <= raw.input_fixed@.len(),
                forall|j: int|
                    #![trigger raw.input_fixed@[j]]
                    0 <= j < i ==> raw.input_fixed@[j].0 + 4 <= raw.flash_size,
            decreases raw.input_fixed@.len() - i,
        {
            let (addr, _) = raw.input_fixed[i];
            if raw.flash_size < 4 || addr as usize > raw.flash_size - 4 {
                return Err(ConfigError::FixedOutOfBounds);
            }
            i = i + 1;
        }
        let mut tunnels_cmps: Vec<TunnelRule> = Vec::new();
        let mut i: usize = 0;
        while i < raw.tunnels_cmps.len()
            invariant
                0 <= i <= raw.tunnels_cmps@.len(),
                tunnels_cmps@.len() == i,
                forall|j: int|
                    #![trigger tunnels_cmps@[j]]
                    0 <= j < i ==> tunnels_cmps@[j].addr == raw.tunnels_cmps@[j].0 && Some(
                        tunnels_cmps@[j].source,
                    ) == spec_tunnel_value_source(raw.tunnels_cmps@[j].1),
            decreases raw.tunnels_cmps@.len() - i,
        {
            let addr = raw.tunnels_cmps[i].0;
            let source = match &raw.tunnels_cmps[i].1 {
                TunnelValue::Value(v) => TunnelSource::Literal(*v),
                TunnelValue::Text(s) => {
                    match parse_u32_source(s.as_str()) {
                        Some(src) => src,
                        None => {
                            proof {
                                assert(cmps_view(raw.tunnels_cmps)[i as int].1
                                    == spec_tunnel_value_source(raw.tunnels_cmps@[i as int].1));
                            }
                            return Err(ConfigError::BadTunnel);
                        },
                    }
                },
            };
            tunnels_cmps.push(TunnelRule { addr, source });
            i = i + 1;
        }
        proof {
            assert forall|j: int| #![trigger cmps_view(raw.tunnels_cmps)[j]]
                0 <= j < cmps_view(raw.tunnels_cmps).len() implies cmps_view(
                raw.tunnels_cmps,
            )[j].1 is Some by {
                assert(Some(tunnels_cmps@[j].source) == spec_tunnel_value_source(
                    raw.tunnels_cmps@[j].1,
                ));
                assert(cmps_view(raw.tunnels_cmps)[j].1 == spec_tunnel_value_source(
                    raw.tunnels_cmps@[j].1,
                ));
            }
        }
        let snapshot_default = match ResetLevel::from_str(raw.snapshot_default.as_str()) {
            Ok(l) => l,
            Err(_) => {
                return Err(ConfigError::BadLevel);
            },
        };
        let snapshot_on_crash = match ResetLevel::from_str(raw.snapshot_on_crash.as_str()) {
            Ok(l) => l,
            Err(_) => {
                return Err(ConfigError::BadLevel);
            },
        };
        let snapshot_periodically = match ResetLevel::from_str(
            raw.snapshot_periodically.as_str(),
        ) {
            Ok(l) => l,
            Err(_) => {
                return Err(ConfigError::BadLevel);
            },
        };
        Ok(
            YAMLConfig {
                config_file: raw.config_file,
                qemu_zen: raw.qemu_zen,
                qemu_sram_size,
                qemu_on_chip_bl_path: raw.qemu_on_chip_bl_path,
                flash_start_smn: raw.flash_start_smn,
                flash_size: raw.flash_size,
                flash_start_cpu: raw.flash_start_cpu,
                flash_base: raw.flash_base,
                input_initial: raw.input_initial,
                input_mem: raw.input_mem,
                input_fixed: raw.input_fixed,
                input_total_size,
                harness_start: raw.harness_start,
                harness_sinks: raw.harness_sinks,
                tunnels_cmps,
                crashes_breakpoints: raw.crashes_breakpoints,
                crashes_mmap_no_exec: raw.crashes_mmap_no_exec,
                crashes_mmap_flash_read_fn: raw.crashes_mmap_flash_read_fn,
                crashes_mmap_no_write_flash_fn: raw.crashes_mmap_no_write_flash_fn,
                crashes_mmap_no_write_hooks: raw.crashes_mmap_no_write_hooks,
                snapshot_default,
                snapshot_on_crash,
                snapshot_periodically,
                snapshot_period: raw.snapshot_period,
            },
        )
    }
}


/// The outcome of reading one configuration source: accepted exactly when
/// the document parses, a first document exists, every mandatory key of the
/// schema is present, well-typed and in range, and the resulting
/// configuration passes validation; otherwise the first error met, in
/// reading order.
pub open spec fn spec_read_outcome(s: Seq<char>) -> Result<(), ConfigError> {
    if spec_yaml_docs(s) is None {
        Err(ConfigError::Malformed)
    } else if spec_yaml_docs(s)->Some_0.len() == 0 {
        Err(ConfigError::Malformed)
    } else {
        let doc = spec_yaml_docs(s)->Some_0[0];
        let qemu = spec_yaml_key(doc, "qemu"@);
        let flash = spec_yaml_key(doc, "flash"@);
        let input = spec_yaml_key(doc, "input"@);
        let harness = spec_yaml_key(doc, "harness"@);
        let tunnels = spec_yaml_key(doc, "tunnels"@);
        let crashes = spec_yaml_key(doc, "crashes"@);
        let mmap = spec_yaml_key(crashes, "mmap"@);
        let snapshot = spec_yaml_key(doc, "snapshot"@);
        let zen = spec_scalar_str(spec_yaml_key(qemu, "zen"@));
        let bl = spec_scalar_str(spec_yaml_key(qemu, "on_chip_bl_path"@));
        let start_smn = spec_scalar_u32(spec_yaml_key(flash, "start_smn"@));
        let size = spec_scalar_usize(spec_yaml_key(flash, "size"@));
        let start_cpu = spec_scalar_u32(spec_yaml_key(flash, "start_cpu"@));
        let base = spec_scalar_str(spec_yaml_key(flash, "base"@));
        let initial_l = spec_list(spec_yaml_key(input, "initial"@));
        let initial = if initial_l is Ok {
            spec_initial_items(initial_l->Ok_0, 0)
        } else {
            Err(initial_l->Err_0)
        };
        let mem_l = spec_list(spec_yaml_key(input, "mem"@));
        let mem = if mem_l is Ok {
            spec_mem_items(mem_l->Ok_0, 0)
        } else {
            Err(mem_l->Err_0)
        };
        let fixed_l = spec_list(spec_yaml_key(input, "fixed"@));
        let fixed = if fixed_l is Ok {
            spec_fixed_items(fixed_l->Ok_0, 0)
        } else {
            Err(fixed_l->Err_0)
        };
        let hstart = spec_scalar_u32(spec_yaml_key(harness, "start"@));
        let sinks_l = spec_list(spec_yaml_key(harness, "sinks"@));
        let sinks = if sinks_l is Ok {
            spec_u32_items(sinks_l->Ok_0, 0)
        } else {
            Err(sinks_l->Err_0)
        };
        let cmps_l = spec_list(spec_yaml_key(tunnels, "cmps"@));
        let cmps = if cmps_l is Ok {
            spec_cmps_items(cmps_l->Ok_0, 0)
        } else {
            Err(cmps_l->Err_0)
        };
        let bps_l = spec_list(spec_yaml_key(crashes, "breakpoints"@));
        let bps = if bps_l is Ok {
            spec_breakpoint_items(bps_l->Ok_0, 0)
        } else {
            Err(bps_l->Err_0)
        };
        let frf = spec_scalar_u32(spec_yaml_key(mmap, "flash_read_fn"@));
        let noexec_l = spec_list(spec_yaml_key(mmap, "no_exec"@));
        let noexec = if noexec_l is Ok {
            spec_no_exec_items(noexec_l->Ok_0, 0)
        } else {
            Err(noexec_l->Err_0)
        };
        let nwf_l = spec_list(spec_yaml_key(mmap, "no_write_flash_fn"@));
        let nwf = if nwf_l is Ok {
            spec_range_items(nwf_l->Ok_0, "no_hook"@, 0)
        } else {
            Err(nwf_l->Err_0)
        };
        let nwh_l = spec_list(spec_yaml_key(mmap, "no_write_hooks"@));
        let nwh = if nwh_l is Ok {
            spec_range_items(nwh_l->Ok_0, "no_ldr"@, 0)
        } else {
            Err(nwh_l->Err_0)
        };
        let s_def = spec_scalar_str(spec_yaml_key(snapshot, "default"@));
        let s_oc = spec_scalar_str(spec_yaml_key(snapshot, "on_crash"@));
        let s_per = spec_scalar_str(spec_yaml_key(snapshot, "periodically"@));
        let period = spec_scalar_usize(spec_yaml_key(snapshot, "period"@));
        if zen is Err {
            Err(zen->Err_0)
        } else if bl is Err {
            Err(bl->Err_0)
        } else if start_smn is Err {
            Err(start_smn->Err_0)
        } else if size is Err {
            Err(size->Err_0)
        } else if start_cpu is Err {
            Err(start_cpu->Err_0)
        } else if base is Err {
            Err(base->Err_0)
        } else if initial is Err {
            Err(initial->Err_0)
        } else if mem is Err {
            Err(mem->Err_0)
        } else if fixed is Err {
            Err(fixed->Err_0)
        } else if hstart is Err {
            Err(hstart->Err_0)
        } else if sinks is Err {
            Err(sinks->Err_0)
        } else if cmps is Err {
            Err(cmps->Err_0)
        } else if bps is Err {
            Err(bps->Err_0)
        } else if frf is Err {
            Err(frf->Err_0)
        } else if noexec is Err {
            Err(noexec->Err_0)
        } else if nwf is Err {
            Err(nwf->Err_0)
        } else if nwh is Err {
            Err(nwh->Err_0)
        } else if s_def is Err {
            Err(s_def->Err_0)
        } else if s_oc is Err {
            Err(s_oc->Err_0)
        } else if s_per is Err {
            Err(s_per->Err_0)
        } else if period is Err {
            Err(period->Err_0)
        } else if !spec_parts_ok(
            zen->Ok_0,
            size->Ok_0,
            mem->Ok_0,
            fixed->Ok_0,
            cmps->Ok_0,
            s_def->Ok_0,
            s_oc->Ok_0,
            s_per->Ok_0,
        ) {
            Err(
                spec_parts_first_error(zen->Ok_0, size->Ok_0, mem->Ok_0, fixed->Ok_0, cmps->Ok_0),
            )
        } else {
            Ok(())
        }
    }
}

/// How an accepted configuration relates to its source: every field equals
/// the corresponding reading of the document, and the derived fields follow
/// from it.
pub open spec fn spec_config_matches(s: Seq<char>, file: Seq<char>, c: YAMLConfig) -> bool {
    let doc = spec_yaml_docs(s)->Some_0[0];
    let qemu = spec_yaml_key(doc, "qemu"@);
    let flash = spec_yaml_key(doc, "flash"@);
    let input = spec_yaml_key(doc, "input"@);
    let harness = spec_yaml_key(doc, "harness"@);
    let tunnels = spec_yaml_key(doc, "tunnels"@);
    let crashes = spec_yaml_key(doc, "crashes"@);
    let mmap = spec_yaml_key(crashes, "mmap"@);
    let snapshot = spec_yaml_key(doc, "snapshot"@);
    let zen = spec_scalar_str(spec_yaml_key(qemu, "zen"@));
    let bl = spec_scalar_str(spec_yaml_key(qemu, "on_chip_bl_path"@));
    let start_smn = spec_scalar_u32(spec_yaml_key(flash, "start_smn"@));
    let size = spec_scalar_usize(spec_yaml_key(flash, "size"@));
    let start_cpu = spec_scalar_u32(spec_yaml_key(flash, "start_cpu"@));
    let base = spec_scalar_str(spec_yaml_key(flash, "base"@));
    let initial = spec_initial_items(spec_list(spec_yaml_key(input, "initial"@))->Ok_0, 0);
    let mem = spec_mem_items(spec_list(spec_yaml_key(input, "mem"@))->Ok_0, 0);
    let fixed = spec_fixed_items(spec_list(spec_yaml_key(input, "fixed"@))->Ok_0, 0);
    let hstart = spec_scalar_u32(spec_yaml_key(harness, "start"@));
    let sinks = spec_u32_items(spec_list(spec_yaml_key(harness, "sinks"@))->Ok_0, 0);
    let cmps = spec_cmps_items(spec_list(spec_yaml_key(tunnels, "cmps"@))->Ok_0, 0);
    let bps = spec_breakpoint_items(spec_list(spec_yaml_key(crashes, "breakpoints"@))->Ok_0, 0);
    let frf = spec_scalar_u32(spec_yaml_key(mmap, "flash_read_fn"@));
    let noexec = spec_no_exec_items(spec_list(spec_yaml_key(mmap, "no_exec"@))->Ok_0, 0);
    let nwf = spec_range_items(
        spec_list(spec_yaml_key(mmap, "no_write_flash_fn"@))->Ok_0,
        "no_hook"@,
        0,
    );
    let nwh = spec_range_items(
        spec_list(spec_yaml_key(mmap, "no_write_hooks"@))->Ok_0,
        "no_ldr"@,
        0,
    );
    let s_def = spec_scalar_str(spec_yaml_key(snapshot, "default"@));
    let s_oc = spec_scalar_str(spec_yaml_key(snapshot, "on_crash"@));
    let s_per = spec_scalar_str(spec_yaml_key(snapshot, "periodically"@));
    let period = spec_scalar_usize(spec_yaml_key(snapshot, "period"@));
    &&& c.config_file@ == file
    &&& c.qemu_zen@ == zen->Ok_0
    &&& Some(c.qemu_sram_size) == spec_zen_sram_size(zen->Ok_0)
    &&& c.qemu_on_chip_bl_path@ == bl->Ok_0
    &&& c.flash_start_smn == start_smn->Ok_0
    &&& c.flash_size == size->Ok_0
    &&& c.flash_start_cpu == start_cpu->Ok_0
    &&& c.flash_base@ == base->Ok_0
    &&& strings_view(c.input_initial) == initial->Ok_0
    &&& c.input_mem@ == mem->Ok_0
    &&& c.input_fixed@ == fixed->Ok_0
    &&& c.input_total_size == spec_sum_sizes(mem->Ok_0)
    &&& c.harness_start == hstart->Ok_0
    &&& c.harness_sinks@ == sinks->Ok_0
    &&& cmps_view2(c.tunnels_cmps) == cmps->Ok_0
    &&& c.crashes_breakpoints@ == bps->Ok_0
    &&& c.crashes_mmap_flash_read_fn == frf->Ok_0
    &&& c.crashes_mmap_no_exec@ == noexec->Ok_0
    &&& ranges_view(c.crashes_mmap_no_write_flash_fn) == nwf->Ok_0
    &&& ranges_view(c.crashes_mmap_no_write_hooks) == nwh->Ok_0
    &&& spec_level_from_name(s_def->Ok_0) == Ok::<ResetLevel, ()>(c.snapshot_default)
    &&& spec_level_from_name(s_oc->Ok_0) == Ok::<ResetLevel, ()>(c.snapshot_on_crash)
    &&& spec_level_from_name(s_per->Ok_0) == Ok::<ResetLevel, ()>(c.snapshot_periodically)
    &&& c.snapshot_period == period->Ok_0
}

/// The resolved view of a vector of parsed tunneling rules.
pub open spec fn cmps_view2(v: Vec<TunnelRule>) -> Seq<(u32, Option<TunnelSource>)> {
    Seq::new(v@.len(), |i: int| (v@[i].addr, Some(v@[i].source)))
}

impl YAMLConfig {
    /// Reads, walks and validates one configuration document: succeeds
    /// exactly when `spec_read_outcome` accepts the source, returns the
    /// first error met otherwise, and an accepted configuration is the
    /// validated reading of the document.
    #[verifier::rlimit(60)]
    pub fn from_yaml_str(config_file: &str, contents: &str) -> (r: Result<YAMLConfig, ConfigError>)
        ensures
            r is Ok <==> spec_read_outcome(contents@) is Ok,
            r matches Err(e) ==> spec_read_outcome(contents@) == Err::<(), ConfigError>(e),
            r matches Ok(c) ==> c.valid() && spec_config_matches(contents@, config_file@, c),
    {
        let docs = match parse_yaml_documents(contents) {
            Some(d) => d,
            None => {
                return Err(ConfigError::Malformed);
            },
        };
        if docs.len() == 0 {
            return Err(ConfigError::Malformed);
        }
        let conf = &docs[0];

        let qemu = yaml_key(conf, "qemu");
        let qemu_zen = match read_scalar_string(yaml_key(qemu, "zen")) {
            Ok(t) => t,
            Err(e) => {
                return Err(e);
            },
        };
        let qemu_on_chip_bl_path = match read_scalar_string(yaml_key(qemu, "on_chip_bl_path")) {
            Ok(t) => t,
            Err(e) => {
                return Err(e);
            },
        };

        let flash = yaml_key(conf, "flash");
        let flash_start_smn = match read_scalar_u32(yaml_key(flash, "start_smn")) {
            Ok(x) => x,
            Err(e) => {
                return Err(e);
            },
        };
        let flash_size = match read_scalar_usize(yaml_key(flash, "size")) {
            Ok(x) => x,
            Err(e) => {
                return Err(e);
            },
        };
        let flash_start_cpu = match read_scalar_u32(yaml_key(flash, "start_cpu")) {
            Ok(x) => x,
            Err(e) => {
                return Err(e);
            },
        };
        let flash_base = match read_scalar_string(yaml_key(flash, "base")) {
            Ok(t) => t,
            Err(e) => {
                return Err(e);
            },
        };

        let input = yaml_key(conf, "input");
        let input_initial = match read_list(yaml_key(input, "initial")) {
            Ok(arr) => match read_initial_items(arr) {
                Ok(v) => v,
                Err(e) => {
                    return Err(e);
                },
            },
            Err(e) => {
                return Err(e);
            },
        };
        let input_mem = match read_list(yaml_key(input, "mem")) {
            Ok(arr) => match read_mem_items(arr) {
                Ok(v) => v,
                Err(e) => {
                    return Err(e);
                },
            },
            Err(e) => {
                return Err(e);
            },
        };
        let input_fixed = match read_list(yaml_key(input, "fixed")) {
            Ok(arr) => match read_fixed_items(arr) {
                Ok(v) => v,
                Err(e) => {
                    return Err(e);
                },
            },
            Err(e) => {
                return Err(e);
            },
        };

        let harness = yaml_key(conf, "harness");
        let harness_start = match read_scalar_u32(yaml_key(harness, "start")) {
            Ok(x) => x,
            Err(e) => {
                return Err(e);
            },
        };
        let harness_sinks = match read_list(yaml_key(harness, "sinks")) {
            Ok(arr) => match read_u32_items(arr) {
                Ok(v) => v,
                Err(e) => {
                    return Err(e);
                },
            },
            Err(e) => {
                return Err(e);
            },
        };

        let tunnels = yaml_key(conf, "tunnels");
        let tunnels_cmps = match read_list(yaml_key(tunnels, "cmps")) {
            Ok(arr) => match read_cmps_items(arr) {
                Ok(v) => v,
                Err(e) => {
                    return Err(e);
                },
            },
            Err(e) => {
                return Err(e);
            },
        };

        let crashes = yaml_key(conf, "crashes");
        let crashes_breakpoints = match read_list(yaml_key(crashes, "breakpoints")) {
            Ok(arr) => match read_breakpoint_items(arr) {
                Ok(v) => v,
                Err(e) => {
                    return Err(e);
                },
            },
            Err(e) => {
                return Err(e);
            },
        };

        let mmap = yaml_key(crashes, "mmap");
        let crashes_mmap_flash_read_fn = match read_scalar_u32(yaml_key(mmap, "flash_read_fn")) {
            Ok(x) => x,
            Err(e) => {
                return Err(e);
            },
        };
        let crashes_mmap_no_exec = match read_list(yaml_key(mmap, "no_exec")) {
            Ok(arr) => match read_no_exec_items(arr) {
                Ok(v) => v,
                Err(e) => {
                    return Err(e);
                },
            },
            Err(e) => {
                return Err(e);
            },
        };
        let crashes_mmap_no_write_flash_fn = match read_list(yaml_key(mmap, "no_write_flash_fn")) {
            Ok(arr) => match read_protected_ranges(arr, "no_hook") {
                Ok(v) => v,
                Err(e) => {
                    return Err(e);
                },
            },
            Err(e) => {
                return Err(e);
            },
        };
        let crashes_mmap_no_write_hooks = match read_list(yaml_key(mmap, "no_write_hooks")) {
            Ok(arr) => match read_protected_ranges(arr, "no_ldr") {
                Ok(v) => v,
                Err(e) => {
                    return Err(e);
                },
            },
            Err(e) => {
                return Err(e);
            },
        };

        let snapshot = yaml_key(conf, "snapshot");
        let snapshot_default = match read_scalar_string(yaml_key(snapshot, "default")) {
            Ok(t) => t,
            Err(e) => {
                return Err(e);
            },
        };
        let snapshot_on_crash = match read_scalar_string(yaml_key(snapshot, "on_crash")) {
            Ok(t) => t,
            Err(e) => {
                return Err(e);
            },
        };
        let snapshot_periodically = match read_scalar_string(yaml_key(snapshot, "periodically")) {
            Ok(t) => t,
            Err(e) => {
                return Err(e);
            },
        };
        let snapshot_period = match read_scalar_usize(yaml_key(snapshot, "period")) {
            Ok(x) => x,
            Err(e) => {
                return Err(e);
            },
        };

        let raw = RawConfig {
            config_file: config_file.to_owned(),
            qemu_zen,
            qemu_on_chip_bl_path,
            flash_start_smn,
            flash_size,
            flash_start_cpu,
            flash_base,
            input_initial,
            input_mem,
            input_fixed,
            harness_start,
            harness_sinks,
            tunnels_cmps,
            crashes_breakpoints,
            crashes_mmap_no_exec,
            crashes_mmap_flash_read_fn,
            crashes_mmap_no_write_flash_fn,
            crashes_mmap_no_write_hooks,
            snapshot_default,
            snapshot_on_crash,
            snapshot_periodically,
            snapshot_period,
        };
        match YAMLConfig::build(raw) {
            Ok(c) => {
                proof {
                    assert(cmps_view2(c.tunnels_cmps) =~= spec_cmps_items(
                        spec_list(
                            spec_yaml_key(
                                spec_yaml_key(spec_yaml_docs(contents@)->Some_0[0], "tunnels"@),
                                "cmps"@,
                            ),
                        )->Ok_0,
                        0,
                    )->Ok_0);
                }
                Ok(c)
            },
            Err(e) => Err(e),
        }
    }
}

/// Reads a list of protected ranges: each entry holds `begin`, `end` and an
/// optional allow-list under `allow_key`; a null `begin` or `end` ends the
/// list.
fn read_protected_ranges(arr: &Vec<yaml_rust::Yaml>, allow_key: &str) -> (r: Result<
    Vec<(u32, u32, Vec<u32>)>,
    ConfigError,
>)
    ensures
        match r {
            Ok(v) => spec_range_items(arr@, allow_key@, 0) == Ok::<
                Seq<(u32, u32, Seq<u32>)>,
                ConfigError,
            >(ranges_view(v)),
            Err(e) => spec_range_items(arr@, allow_key@, 0) == Err::<
                Seq<(u32, u32, Seq<u32>)>,
                ConfigError,
            >(e),
        },
{
    let mut out: Vec<(u32, u32, Vec<u32>)> = Vec::new();
    let mut i: usize = 0;
    proof {
        assert(ranges_view(out) =~= Seq::<(u32, u32, Seq<u32>)>::empty());
        match spec_range_items(arr@, allow_key@, 0) {
            Ok(r0) => {
                assert(ranges_view(out) + r0 =~= r0);
            },
            Err(_) => {},
        }
    }
    while i < arr.len()
        invariant
            0 <= i <= arr@.len(),
            spec_range_items(arr@, allow_key@, 0) == spec_prepend(
                ranges_view(out),
                spec_range_items(arr@, allow_key@, i as int),
            ),
        decreases arr@.len() - i,
    {
        let entry = &arr[i];
        let begin_y = yaml_key(entry, "begin");
        let end_y = yaml_key(entry, "end");
        if yaml_is_null(begin_y) || yaml_is_null(end_y) {
            proof {
                assert(ranges_view(out) + Seq::<(u32, u32, Seq<u32>)>::empty() =~= ranges_view(
                    out,
                ));
            }
            return Ok(out);
        }
        let begin = match read_item_u32(begin_y) {
            Ok(b) => b,
            Err(e) => {
                return Err(e);
            },
        };
        let end = match read_item_u32(end_y) {
            Ok(x) => x,
            Err(e) => {
                return Err(e);
            },
        };
        let allow_y = yaml_key(entry, allow_key);
        let allow: Vec<u32> = if yaml_is_null(allow_y) {
            Vec::new()
        } else {
            let allow_arr = match yaml_as_vec(allow_y) {
                Some(a) => a,
                None => {
                    return Err(ConfigError::Malformed);
                },
            };
            match read_u32_items(allow_arr) {
                Ok(v) => v,
                Err(e) => {
                    return Err(e);
                },
            }
        };
        proof {
            assert(spec_allow_items(spec_yaml_key(arr@[i as int], allow_key@)) == Ok::<
                Seq<u32>,
                ConfigError,
            >(allow@));
        }
        let ghost pre = ranges_view(out);
        out.push((begin, end, allow));
        proof {
            assert(ranges_view(out) =~= pre.push((begin, end, out@[out@.len() - 1].2@)));
            match spec_range_items(arr@, allow_key@, i + 1) {
                Ok(rest) => {
                    assert(pre + (seq![(begin, end, out@[out@.len() - 1].2@)] + rest)
                        =~= ranges_view(out) + rest);
                },
                Err(_) => {},
            }
        }
        i = i + 1;
    }
    proof {
        assert(ranges_view(out) + Seq::<(u32, u32, Seq<u32>)>::empty() =~= ranges_view(out));
    }
    Ok(out)
}

} // verus!

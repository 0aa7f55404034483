//! Values shared by the codec and the provider: the reserved literal, the
//! random suffix of a machine's name, the wire value of a record, and the
//! decision that a pair of records calls for.

use crate::cty::{
    decode_spec, decode_unknown_string_values, encode_spec, encode_unknown_string_values,
    CodecError,
};
use crate::diagnostic::ProviderError;
use crate::msgpack::{marker_byte, MarkerKind};
use crate::server::{
    opt_config, opt_state, VmResourceConfig, VmResourceConfigView, VmResourceState,
    VmResourceStateView,
};
use rand::Rng;
use vstd::prelude::*;
use vstd::string::*;

verus! {

/// The literal that stands for a value that is known only after apply.
pub const UNKNOWN_STRING: &'static str = "<unknown>";

/// The digits of hexadecimal, in lower case.
pub const HEX_DIGITS: &'static str = "0123456789abcdef";

/// The digit for a value below sixteen.
pub open spec fn hex_digit(n: u8) -> char
    recommends
        n < 16,
{
    HEX_DIGITS@[n as int]
}

/// A byte in lower-case hexadecimal without padding: one digit below
/// sixteen, two from there on.
pub open spec fn hex_of_byte(b: u8) -> Seq<char> {
    if b < 16 {
        seq![hex_digit(b)]
    } else {
        seq![hex_digit(b / 16), hex_digit(b % 16)]
    }
}

/// The bytes in hexadecimal, each as `hex_of_byte` has it, one after the
/// other.
pub open spec fn hex_suffix_spec(bytes: Seq<u8>) -> Seq<char>
    decreases bytes.len(),
{
    if bytes.len() == 0 {
        Seq::empty()
    } else {
        hex_suffix_spec(bytes.drop_last()) + hex_of_byte(bytes.last())
    }
}

/// Whether `c` is a digit of lower-case hexadecimal.
pub open spec fn is_hex_digit(c: char) -> bool {
    ('0' <= c && c <= '9') || ('a' <= c && c <= 'f')
}

/// A suffix holds one or two hexadecimal digits for each byte, and nothing
/// else.
pub proof fn lemma_hex_suffix_shape(bytes: Seq<u8>)
    ensures
        bytes.len() <= hex_suffix_spec(bytes).len() <= 2 * bytes.len(),
        forall|i: int|
            0 <= i < hex_suffix_spec(bytes).len() ==> is_hex_digit(
                #[trigger] hex_suffix_spec(bytes)[i],
            ),
    decreases bytes.len(),
{
    if bytes.len() > 0 {
        reveal_strlit("0123456789abcdef");
        lemma_hex_suffix_shape(bytes.drop_last());
        let b = bytes.last();
        if b < 16 {
            assert(is_hex_digit(hex_digit(b)));
        } else {
            assert(is_hex_digit(hex_digit(b / 16)));
            assert(is_hex_digit(hex_digit(b % 16)));
        }
    }
}

/// The digit for a value below sixteen.
fn hex_digit_str(n: u8) -> (digit: &'static str)
    requires
        n < 16,
    ensures
        digit@ == seq![hex_digit(n)],
{
    proof {
        reveal_strlit("0123456789abcdef");
    }
    let at: usize = n as usize;
    let digit: &'static str = HEX_DIGITS.substring_ascii(at, at + 1);
    assert(digit@ =~= seq![hex_digit(n)]);
    digit
}

/// The suffix that the given bytes spell: each byte in lower-case
/// hexadecimal without padding.
pub fn hex_suffix(bytes: &[u8]) -> (suffix: String)
    ensures
        suffix@ == hex_suffix_spec(bytes@),
        bytes@.len() <= suffix@.len() <= 2 * bytes@.len(),
        forall|i: int| 0 <= i < suffix@.len() ==> is_hex_digit(#[trigger] suffix@[i]),
{
    let mut suffix: String = String::new();
    let mut i: usize = 0;
    while i < bytes.len()
        invariant
            i <= bytes@.len(),
            suffix@ == hex_suffix_spec(bytes@.take(i as int)),
        decreases bytes@.len() - i,
    {
        let b: u8 = bytes[i];
        let ghost before = suffix@;
        if b < 16 {
            suffix.append(hex_digit_str(b));
        } else {
            suffix.append(hex_digit_str(b / 16));
            suffix.append(hex_digit_str(b % 16));
        }
        proof {
            let next = bytes@.take(i + 1);
            assert(next.drop_last() =~= bytes@.take(i as int));
            assert(next.last() == b);
            assert(suffix@ =~= before + hex_of_byte(b));
        }
        i = i + 1;
    }
    proof {
        assert(bytes@.take(i as int) =~= bytes@);
        lemma_hex_suffix_shape(bytes@);
    }
    suffix
}

/// One byte from the thread's random number generator.
///
/// Calls `rand::thread_rng` and `Rng::gen`. Nothing is known of the byte.
#[verifier::external_body]
fn random_byte() -> u8 {
    rand::thread_rng().gen::<u8>()
}

/// A suffix of `len` random bytes, each in lower-case hexadecimal without
/// padding.
pub fn random_hex_suffix(len: usize) -> (suffix: String)
    ensures
        exists|bytes: Seq<u8>| bytes.len() == len && suffix@ == #[trigger] hex_suffix_spec(bytes),
        len <= suffix@.len() <= 2 * len,
        forall|i: int| 0 <= i < suffix@.len() ==> is_hex_digit(#[trigger] suffix@[i]),
{
    let mut bytes: Vec<u8> = Vec::new();
    let mut i: usize = 0;
    while i < len
        invariant
            i <= len,
            bytes@.len() == i,
        decreases len - i,
    {
        bytes.push(random_byte());
        i = i + 1;
    }
    hex_suffix(bytes.as_slice())
}

/// A value as it crosses the provider's boundary: MessagePack bytes, and a
/// JSON form that only state upgrades read.
#[derive(Debug)]
pub struct DynamicValue {
    pub msgpack: Vec<u8>,
    pub json: Vec<u8>,
}

/// What can be sent as a `DynamicValue`.
pub trait IntoDynamicValue {
    fn into_dynamic_value(self) -> DynamicValue;
}

impl IntoDynamicValue for Vec<u8> {
    /// The value whose MessagePack form is these bytes, without a JSON form.
    fn into_dynamic_value(self) -> (value: DynamicValue)
        ensures
            value.msgpack@ == self@,
            value.json@ == Seq::<u8>::empty(),
    {
        DynamicValue { msgpack: self, json: Vec::new() }
    }
}

/// What has to be done to the remote machine.
#[derive(Clone, Copy, Debug, PartialEq, Eq, Structural)]
pub enum ResourceAction {
    Create,
    Delete,
}

/// The decision that a prior state and a configuration call for, with the
/// two records.
#[derive(Debug)]
pub struct ResourceState {
    pub already_exists: bool,
    pub did_change: bool,
    pub action: ResourceAction,
    pub prior_state: Option<VmResourceState>,
    pub config: Option<VmResourceConfig>,
}

/// A `ResourceState` as specifications see it.
pub struct ResourceStateView {
    pub already_exists: bool,
    pub did_change: bool,
    pub action: ResourceAction,
    pub prior_state: Option<VmResourceStateView>,
    pub config: Option<VmResourceConfigView>,
}

impl View for ResourceState {
    type V = ResourceStateView;

    open spec fn view(&self) -> ResourceStateView {
        ResourceStateView {
            already_exists: self.already_exists,
            did_change: self.did_change,
            action: self.action,
            prior_state: opt_state(self.prior_state),
            config: opt_config(self.config),
        }
    }
}

/// The bytes to decode a record from: the wire bytes after the reverse
/// transform of the codec.
pub fn deserialize_dynamic_value(data: Vec<u8>) -> (r: Result<Vec<u8>, CodecError>)
    ensures
        r matches Ok(decoded) && decoded@ == decode_spec(data@),
{
    decode_unknown_string_values(data)
}

/// The bytes to send for a record: its encoding after the forward transform
/// of the codec.
pub fn serialize_dynamic_value(data: Vec<u8>) -> (r: Result<Vec<u8>, CodecError>)
    ensures
        (match r {
            Ok(encoded) => encode_spec(data@) == Some(encoded@),
            Err(e) => encode_spec(data@) is None && e == CodecError::ExpectedString,
        }),
{
    encode_unknown_string_values(data)
}

/// Whether wire bytes hold a record: more than one byte, the first of them
/// not the nil marker.
pub open spec fn holds_record(msgpack: Seq<u8>) -> bool {
    msgpack.len() > 1 && msgpack[0] != 0xc0
}

/// The bytes to decode the record of a wire value from, where it holds one.
/// An absent value stands for nil.
pub open spec fn record_spec(value: Option<DynamicValue>) -> Option<Seq<u8>> {
    match value {
        Some(v) => if holds_record(v.msgpack@) {
            Some(decode_spec(v.msgpack@))
        } else {
            None
        },
        None => None,
    }
}

/// The bytes to decode the record of a wire value from, where it holds one.
pub fn record_of(value: Option<DynamicValue>) -> (record: Option<Vec<u8>>)
    ensures
        (match record {
            Some(bytes) => record_spec(value) == Some(bytes@),
            None => record_spec(value) is None,
        }),
{
    let nil: u8 = marker_byte(MarkerKind::Null);
    match value {
        Some(v) => {
            if v.msgpack.len() > 1 && v.msgpack[0] != nil {
                match deserialize_dynamic_value(v.msgpack) {
                    Ok(bytes) => Some(bytes),
                    Err(_) => None,
                }
            } else {
                None
            }
        },
        None => None,
    }
}

/// The bytes to decode a planned state from, where the wire value holds any
/// bytes at all.
pub open spec fn planned_record_spec(value: Option<DynamicValue>) -> Option<Seq<u8>> {
    match value {
        Some(v) => if v.msgpack@.len() > 0 {
            Some(decode_spec(v.msgpack@))
        } else {
            None
        },
        None => None,
    }
}

/// The bytes to decode a planned state from, where the wire value holds any
/// bytes at all.
pub fn planned_record_of(value: Option<DynamicValue>) -> (record: Option<Vec<u8>>)
    ensures
        (match record {
            Some(bytes) => planned_record_spec(value) == Some(bytes@),
            None => planned_record_spec(value) is None,
        }),
{
    match value {
        Some(v) => {
            if v.msgpack.len() > 0 {
                match deserialize_dynamic_value(v.msgpack) {
                    Ok(bytes) => Some(bytes),
                    Err(_) => None,
                }
            } else {
                None
            }
        },
        None => None,
    }
}

/// The decision table. A machine already exists where there is a prior
/// state. Something changed unless both records are there and the
/// configuration equals the one in the prior state. The machine is to be
/// deleted where there is a prior state and no configuration, and to be
/// created in every other case.
pub open spec fn resource_state_spec(
    prior_state: Option<VmResourceStateView>,
    config: Option<VmResourceConfigView>,
) -> ResourceStateView {
    ResourceStateView {
        already_exists: prior_state is Some,
        did_change: match (prior_state, config) {
            (Some(prior), Some(wanted)) => wanted != prior.config,
            _ => true,
        },
        action: if prior_state is Some && config is None {
            ResourceAction::Delete
        } else {
            ResourceAction::Create
        },
        prior_state,
        config,
    }
}

/// What came of decoding a record from a wire value.
#[derive(Debug)]
pub enum Decoded<T> {
    /// The wire value holds no record.
    Absent,
    /// The record.
    Value(T),
    /// The wire value holds bytes that are no such record.
    Invalid,
}

impl<T> Decoded<T> {
    /// The record, where there is one.
    pub open spec fn value(self) -> Option<T> {
        match self {
            Decoded::Value(record) => Some(record),
            _ => None,
        }
    }
}

/// Decides what a prior state and a configuration call for. There is no
/// decision where one of the two could not be decoded.
pub fn compute_resource_state(
    prior_state: Decoded<VmResourceState>,
    config: Decoded<VmResourceConfig>,
) -> (r: Result<ResourceState, ProviderError>)
    ensures
        (match r {
            Ok(state) => !(prior_state is Invalid) && !(config is Invalid) && state@
                == resource_state_spec(opt_state(prior_state.value()), opt_config(config.value())),
            Err(e) => (prior_state is Invalid || config is Invalid) && e
                == ProviderError::ComputeResourceState,
        }),
{
    let prior_state: Option<VmResourceState> = match prior_state {
        Decoded::Absent => None,
        Decoded::Value(state) => Some(state),
        Decoded::Invalid => {
            return Err(ProviderError::ComputeResourceState);
        },
    };
    let config: Option<VmResourceConfig> = match config {
        Decoded::Absent => None,
        Decoded::Value(config) => Some(config),
        Decoded::Invalid => {
            return Err(ProviderError::ComputeResourceState);
        },
    };
    let prior_state_exists: bool = prior_state.is_some();
    let config_exists: bool = config.is_some();
    let did_config_change: bool = match (&prior_state, &config) {
        (Some(prior), Some(wanted)) => !(*wanted == prior.config),
        _ => true,
    };
    let action: ResourceAction = if prior_state_exists && !config_exists {
        ResourceAction::Delete
    } else {
        ResourceAction::Create
    };
    Ok(
        ResourceState {
            already_exists: prior_state_exists,
            did_change: did_config_change,
            action,
            prior_state,
            config,
        },
    )
}

/// The wire bytes of a record whose structural encoding is given, where
/// there is one: the forward transform of the encoding. Without an encoding
/// to start from, and where the transform gives up, the given failure.
pub open spec fn wire_bytes_spec(record: Option<Vec<u8>>, failure: ProviderError) -> Result<
    Seq<u8>,
    ProviderError,
> {
    match record {
        Some(bytes) => match encode_spec(bytes@) {
            Some(encoded) => Ok(encoded),
            None => Err(failure),
        },
        None => Err(failure),
    }
}

/// The wire value of a record whose structural encoding is given, where
/// there is one.
pub fn wire_value(record: Option<Vec<u8>>, failure: ProviderError) -> (r: Result<
    DynamicValue,
    ProviderError,
>)
    ensures
        (match r {
            Ok(value) => wire_bytes_spec(record, failure) == Ok::<Seq<u8>, ProviderError>(
                value.msgpack@,
            ) && value.json@ == Seq::<u8>::empty(),
            Err(e) => wire_bytes_spec(record, failure) == Err::<Seq<u8>, ProviderError>(e),
        }),
{
    match record {
        Some(bytes) => match serialize_dynamic_value(bytes) {
            Ok(encoded) => Ok(encoded.into_dynamic_value()),
            Err(_) => Err(failure),
        },
        None => Err(failure),
    }
}

/// The decision table, row by row: without a prior state the machine is
/// created; with a prior state and no configuration it is deleted; with
/// both it is created again, and something changed exactly when the
/// configuration differs from the one in the prior state.
pub proof fn lemma_decision_table(
    prior_state: Option<VmResourceStateView>,
    config: Option<VmResourceConfigView>,
)
    ensures
        ({
            let decision = resource_state_spec(prior_state, config);
            &&& decision.already_exists == (prior_state is Some)
            &&& decision.prior_state == prior_state
            &&& decision.config == config
            &&& prior_state is None ==> decision.action == ResourceAction::Create
                && decision.did_change
            &&& prior_state is Some && config is None ==> decision.action == ResourceAction::Delete
                && decision.did_change
            &&& prior_state is Some && config is Some ==> decision.action == ResourceAction::Create
                && (decision.did_change <==> config->0 != prior_state->0.config)
        }),
{
}

/// Two configurations differ exactly when they differ in a field.
pub proof fn lemma_config_differs(a: VmResourceConfigView, b: VmResourceConfigView)
    ensures
        a != b <==> {
            ||| a.region != b.region
            ||| a.project_id != b.project_id
            ||| a.name != b.name
            ||| a.size != b.size
            ||| a.image != b.image
            ||| a.user != b.user
            ||| a.public_key != b.public_key
            ||| a.enable_public_ipv4 != b.enable_public_ipv4
        },
{
}

} // verus!

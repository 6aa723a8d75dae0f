//! Which validation layers are required, and whether the driver has them.

use crate::error::{outcome_view, UrnError, UrnErrorView};
use crate::names::{native_bytes, read_native_name, same_bytes, terminated_prefix};
use vstd::prelude::*;

verus! {

/// The layer that the Khronos SDK installs for validation.
pub const STANDARD_VALIDATION_LAYER: &'static str = "VK_LAYER_KHRONOS_validation";

/// Whether validation is wanted, and the layers it needs. Fixed when the
/// program is built; handed by reference to whoever needs it.
#[derive(Debug)]
pub struct Validation {
    pub is_enabled: bool,
    pub required_layer_names: &'static [&'static str],
}

/// A configuration as plain values.
pub struct ValidationView {
    pub is_enabled: bool,
    pub required_layer_names: Seq<Seq<char>>,
}

impl View for Validation {
    type V = ValidationView;

    open spec fn view(&self) -> ValidationView {
        ValidationView {
            is_enabled: self.is_enabled,
            required_layer_names: self.required_layer_names@.map_values(|name: &'static str| name@),
        }
    }
}

impl ValidationView {
    /// An enabled configuration names at least one layer.
    pub open spec fn well_formed(self) -> bool {
        self.is_enabled ==> self.required_layer_names.len() > 0
    }
}

impl Validation {
    /// The configuration of a build: the standard validation layer, switched
    /// on or off.
    pub fn standard(is_enabled: bool) -> (config: Validation)
        ensures
            config@.is_enabled == is_enabled,
            config@.required_layer_names == seq![STANDARD_VALIDATION_LAYER@],
            config@.well_formed(),
    {
        let config = Validation { is_enabled, required_layer_names: &[STANDARD_VALIDATION_LAYER] };
        config
    }
}

/// One layer of the driver's enumeration: its name, as the driver spells it.
#[derive(Debug)]
pub struct LayerDescriptor {
    pub name: Vec<u8>,
}

impl View for LayerDescriptor {
    type V = Seq<u8>;

    open spec fn view(&self) -> Seq<u8> {
        self.name@
    }
}

impl LayerDescriptor {
    /// The layer whose name the driver wrote into `raw`.
    pub fn from_raw(raw: &[u8]) -> (layer: LayerDescriptor)
        ensures
            layer@ == terminated_prefix(raw@),
    {
        LayerDescriptor { name: read_native_name(raw) }
    }

    /// The layer that the driver would report under `name`.
    pub fn from_name(name: &str) -> (layer: LayerDescriptor)
        ensures
            layer@ == native_bytes(name@),
    {
        LayerDescriptor { name: name.as_bytes_vec() }
    }

    /// Whether this is the layer called `name`: the same bytes, nothing folded.
    pub fn has_name(&self, name: &str) -> (same: bool)
        ensures
            same == (self@ == native_bytes(name@)),
    {
        same_bytes(self.name.as_slice(), name.as_bytes())
    }
}

/// The names of an enumeration, in its order.
pub open spec fn reported_names(layers: Seq<LayerDescriptor>) -> Seq<Seq<u8>> {
    layers.map_values(|layer: LayerDescriptor| layer@)
}

/// Whether the driver reports a layer called `name`.
pub open spec fn layer_present(name: Seq<char>, available: Seq<Seq<u8>>) -> bool {
    available.contains(native_bytes(name))
}

/// Whether the driver reports every required layer.
pub open spec fn all_present(required: Seq<Seq<char>>, available: Seq<Seq<u8>>) -> bool {
    forall|i: int| 0 <= i < required.len() ==> layer_present(#[trigger] required[i], available)
}

/// Whether `required[i]` is absent and every name before it is present.
pub open spec fn is_first_missing(
    required: Seq<Seq<char>>,
    available: Seq<Seq<u8>>,
    i: int,
) -> bool {
    &&& 0 <= i < required.len()
    &&& !layer_present(required[i], available)
    &&& forall|k: int| 0 <= k < i ==> layer_present(#[trigger] required[k], available)
}

/// The place of the first required layer that the driver lacks, where there
/// is one.
pub open spec fn first_missing(required: Seq<Seq<char>>, available: Seq<Seq<u8>>) -> int {
    choose|i: int| is_first_missing(required, available, i)
}

/// What verification answers for a configuration and an enumeration.
pub open spec fn verification(config: ValidationView, available: Seq<Seq<u8>>) -> Result<
    (),
    UrnErrorView,
> {
    if !config.is_enabled {
        Ok(())
    } else if available.len() == 0 {
        Err(UrnErrorView::NoLayersAvailable)
    } else if all_present(config.required_layer_names, available) {
        Ok(())
    } else {
        Err(
            UrnErrorView::LayerNotFound(
                config.required_layer_names[first_missing(config.required_layer_names, available)],
            ),
        )
    }
}

/// The name buffers of an enumeration as plain values.
pub open spec fn buffers_view(buffers: Seq<Vec<u8>>) -> Seq<Seq<u8>> {
    buffers.map_values(|raw: Vec<u8>| raw@)
}

/// A driver reply as plain values: the name buffers of the layers, or the
/// native code of the failure.
pub open spec fn reply_view(reply: Result<Vec<Vec<u8>>, i32>) -> Result<Seq<Seq<u8>>, i32> {
    match reply {
        Ok(buffers) => Ok(buffers_view(buffers@)),
        Err(code) => Err(code),
    }
}

/// The names that a list of native name buffers holds.
pub open spec fn enumerated_names(buffers: Seq<Seq<u8>>) -> Seq<Seq<u8>> {
    buffers.map_values(|raw: Seq<u8>| terminated_prefix(raw))
}

/// What verification answers once the driver has replied. A failed
/// enumeration is passed on with its code; a disabled configuration passes
/// whatever the reply.
pub open spec fn reply_outcome(config: ValidationView, reply: Result<Seq<Seq<u8>>, i32>) -> Result<
    (),
    UrnErrorView,
> {
    if !config.is_enabled {
        Ok(())
    } else {
        match reply {
            Ok(buffers) => verification(config, enumerated_names(buffers)),
            Err(code) => Err(UrnErrorView::AshError(code)),
        }
    }
}

/// Whether `name` is among the enumerated layers.
pub fn is_reported(name: &str, available: &Vec<LayerDescriptor>) -> (found: bool)
    ensures
        found == layer_present(name@, reported_names(available@)),
{
    let ghost names = reported_names(available@);
    let mut j: usize = 0;
    while j < available.len()
        invariant
            j <= available.len(),
            names == reported_names(available@),
            forall|k: int| 0 <= k < j ==> names[k] != native_bytes(name@),
        decreases available.len() - j,
    {
        if available[j].has_name(name) {
            assert(names[j as int] == native_bytes(name@));
            return true;
        }
        j += 1;
    }
    false
}

/// Checks the required layers of `config` against the enumeration `available`.
///
/// A disabled configuration passes unlooked-at. An enabled one fails on an
/// empty enumeration, and else on the first required name, in the order of
/// the configuration, that no enumerated layer bears.
pub fn verify_layers(config: &Validation, available: &Vec<LayerDescriptor>) -> (r: Result<
    (),
    UrnError,
>)
    ensures
        outcome_view(r) == verification(config@, reported_names(available@)),
{
    if !config.is_enabled {
        return Ok(());
    }
    if available.len() == 0 {
        return Err(UrnError::NoLayersAvailable);
    }
    let ghost required = config@.required_layer_names;
    let ghost names = reported_names(available@);
    let mut i: usize = 0;
    while i < config.required_layer_names.len()
        invariant
            i <= config.required_layer_names.len(),
            config.is_enabled,
            available.len() > 0,
            required == config@.required_layer_names,
            names == reported_names(available@),
            forall|k: int| 0 <= k < i ==> layer_present(#[trigger] required[k], names),
        decreases config.required_layer_names.len() - i,
    {
        let needed: &str = config.required_layer_names[i];
        if !is_reported(needed, available) {
            proof {
                let first = first_missing(required, names);
                lemma_first_missing_unique(required, names, i as int, first);
            }
            return Err(UrnError::LayerNotFound(needed.to_owned()));
        }
        i += 1;
    }
    Ok(())
}

/// Reads the layers out of the name buffers of an enumeration.
pub fn describe_layers(buffers: &Vec<Vec<u8>>) -> (layers: Vec<LayerDescriptor>)
    ensures
        reported_names(layers@) == enumerated_names(buffers_view(buffers@)),
{
    let mut layers: Vec<LayerDescriptor> = Vec::new();
    let mut i: usize = 0;
    while i < buffers.len()
        invariant
            i <= buffers.len(),
            layers.len() == i,
            forall|k: int| 0 <= k < i ==> (#[trigger] layers[k])@ == terminated_prefix(buffers[k]@),
        decreases buffers.len() - i,
    {
        layers.push(LayerDescriptor::from_raw(buffers[i].as_slice()));
        i += 1;
    }
    layers
}

/// Decides on a driver reply: the part of
/// [`check_validation_layer_support`] that follows the call.
pub fn verify_enumeration(config: &Validation, reply: &Result<Vec<Vec<u8>>, i32>) -> (r: Result<
    (),
    UrnError,
>)
    ensures
        outcome_view(r) == reply_outcome(config@, reply_view(*reply)),
{
    if !config.is_enabled {
        return Ok(());
    }
    match reply {
        Ok(buffers) => {
            let layers = describe_layers(buffers);
            verify_layers(config, &layers)
        },
        Err(code) => Err(UrnError::AshError(*code)),
    }
}

/// Confirms that the driver has every layer that `config` requires.
/// `enumerate` asks the driver for its layers: it gives the name buffers of
/// the layers, or the native code of its failure.
///
/// With validation disabled the driver is not asked. Otherwise it is asked
/// once, and the answer is the one that [`verify_enumeration`] gives for its
/// reply. Whatever the reply, a failure is one of three: no layer at all, a
/// required layer that is missing, or the driver's own failure.
pub fn check_validation_layer_support<F>(config: &Validation, enumerate: F) -> (r: Result<
    (),
    UrnError,
>) where F: FnOnce() -> Result<Vec<Vec<u8>>, i32>
    requires
        config.is_enabled ==> call_requires(enumerate, ()),
    ensures
        !config.is_enabled ==> r is Ok,
        config.is_enabled ==> exists|reply: Result<Vec<Vec<u8>>, i32>|
            #[trigger] call_ensures(enumerate, (), reply) && outcome_view(r) == reply_outcome(
                config@,
                reply_view(reply),
            ),
        r matches Err(e) ==> e is NoLayersAvailable || e is LayerNotFound || e is AshError,
        r matches Err(UrnError::LayerNotFound(name)) ==> config@.required_layer_names.contains(
            name@,
        ),
{
    if !config.is_enabled {
        return Ok(());
    }
    let reply = enumerate();
    proof {
        law_failures_of_verification(config@, reply_view(reply));
    }
    verify_enumeration(config, &reply)
}

/// At most one place is the first missing one.
pub proof fn lemma_first_missing_unique(
    required: Seq<Seq<char>>,
    available: Seq<Seq<u8>>,
    i: int,
    j: int,
)
    requires
        is_first_missing(required, available, i),
        is_first_missing(required, available, j),
    ensures
        i == j,
{
}

/// Where a required layer is missing, a first missing one exists.
pub proof fn lemma_first_missing_exists(required: Seq<Seq<char>>, available: Seq<Seq<u8>>, i: int)
    requires
        0 <= i < required.len(),
        !layer_present(required[i], available),
    ensures
        is_first_missing(required, available, first_missing(required, available)),
        first_missing(required, available) <= i,
    decreases i,
{
    if forall|k: int| 0 <= k < i ==> layer_present(#[trigger] required[k], available) {
        assert(is_first_missing(required, available, i));
        lemma_first_missing_unique(required, available, i, first_missing(required, available));
    } else {
        let k = choose|k: int| 0 <= k < i && !layer_present(#[trigger] required[k], available);
        lemma_first_missing_exists(required, available, k);
    }
}

/// A disabled configuration passes verification whatever the driver reports,
/// an empty enumeration and a failed one included.
pub proof fn law_disabled_passes(config: ValidationView, reply: Result<Seq<Seq<u8>>, i32>)
    requires
        !config.is_enabled,
    ensures
        reply_outcome(config, reply) == Ok::<(), UrnErrorView>(()),
        forall|available: Seq<Seq<u8>>| verification(config, available) is Ok,
{
}

/// An enabled configuration that names a layer fails on an empty enumeration,
/// and the failure says that no layer is available.
pub proof fn law_empty_enumeration_fails(config: ValidationView, available: Seq<Seq<u8>>)
    requires
        config.is_enabled,
        config.required_layer_names.len() > 0,
        available.len() == 0,
    ensures
        verification(config, available) == Err::<(), UrnErrorView>(UrnErrorView::NoLayersAvailable),
{
}

/// On a non-empty enumeration an enabled configuration passes exactly when
/// every required name is the name of an enumerated layer; when it fails, it
/// names the first required layer, in the configuration's order, that is not.
pub proof fn law_passes_iff_all_present(config: ValidationView, available: Seq<Seq<u8>>)
    requires
        config.is_enabled,
        available.len() > 0,
    ensures
        verification(config, available) is Ok <==> forall|name: Seq<char>|
            config.required_layer_names.contains(name) ==> available.contains(native_bytes(name)),
        verification(config, available) is Err ==> is_first_missing(
            config.required_layer_names,
            available,
            first_missing(config.required_layer_names, available),
        ),
        verification(config, available) is Err ==> verification(config, available) == Err::<
            (),
            UrnErrorView,
        >(
            UrnErrorView::LayerNotFound(
                config.required_layer_names[first_missing(config.required_layer_names, available)],
            ),
        ),
{
    let required = config.required_layer_names;
    if !all_present(required, available) {
        let i = choose|i: int|
            0 <= i < required.len() && !layer_present(#[trigger] required[i], available);
        lemma_first_missing_exists(required, available, i);
        assert(required.contains(required[first_missing(required, available)]));
    }
}

/// Whatever the driver replies, verification fails in one of three ways only:
/// no layer at all, a required layer that is missing, or the driver's own
/// failure with its code.
pub proof fn law_failures_of_verification(config: ValidationView, reply: Result<Seq<Seq<u8>>, i32>)
    ensures
        reply_outcome(config, reply) is Err ==> config.is_enabled,
        reply_outcome(config, reply) matches Err(e) ==> e is NoLayersAvailable || e is LayerNotFound
            || e is AshError,
        reply_outcome(config, reply) matches Err(UrnErrorView::NoLayersAvailable) ==> reply
            == Ok::<Seq<Seq<u8>>, i32>(Seq::empty()),
        reply_outcome(config, reply) matches Err(UrnErrorView::LayerNotFound(name))
            ==> config.required_layer_names.contains(name),
        reply_outcome(config, reply) matches Err(UrnErrorView::AshError(code)) ==> reply == Err::<
            Seq<Seq<u8>>,
            i32,
        >(code),
{
    if config.is_enabled {
        if let Ok(buffers) = reply {
            let available = enumerated_names(buffers);
            if available.len() == 0 {
                assert(buffers =~= Seq::empty());
            } else if !all_present(config.required_layer_names, available) {
                law_passes_iff_all_present(config, available);
            }
        }
    }
}

/// Verification does not depend on when it is asked: whatever
/// [`verify_layers`] may answer for a configuration and an enumeration, it
/// answers the same the next time.
pub proof fn law_verification_repeats(
    config: &Validation,
    available: &Vec<LayerDescriptor>,
    first: Result<(), UrnError>,
    second: Result<(), UrnError>,
)
    requires
        call_ensures(verify_layers, (config, available), first),
        call_ensures(verify_layers, (config, available), second),
    ensures
        outcome_view(first) == outcome_view(second),
        first is Ok <==> second is Ok,
{
}

/// The same once the driver has replied: whatever [`verify_enumeration`] may
/// answer for a configuration and a reply, it answers the same the next time.
pub proof fn law_decision_repeats(
    config: &Validation,
    reply: &Result<Vec<Vec<u8>>, i32>,
    first: Result<(), UrnError>,
    second: Result<(), UrnError>,
)
    requires
        call_ensures(verify_enumeration, (config, reply), first),
        call_ensures(verify_enumeration, (config, reply), second),
    ensures
        outcome_view(first) == outcome_view(second),
        first is Ok <==> second is Ok,
{
}

} // verus!

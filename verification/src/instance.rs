//! The creation request of the instance, and the order in which it comes
//! about: verification first, then the request, then the driver's verdict.

use crate::diagnostics::{
    all_messages, populate_debug_messenger_create_info, DebugMessengerCreateInfo,
};
use crate::driver::debug_utils_name;
use crate::error::{UrnError, UrnErrorView};
use crate::names::{
    all_convertible, check_convertible, find_inconvertible, first_inconvertible, is_convertible,
    is_first_inconvertible, lemma_first_inconvertible_exists, lemma_first_inconvertible_unique,
    names_view,
};
use crate::validation::{
    all_present, describe_layers, reply_outcome, reply_view, reported_names, verification,
    verify_layers, LayerDescriptor, Validation, ValidationView,
};
use vstd::prelude::*;
use vstd::utf8::is_ascii_chars_encode_utf8;

verus! {

/// The name of the extension that carries the driver's messages.
pub open spec fn diagnostics_extension() -> Seq<char> {
    "VK_EXT_debug_utils"@
}

/// What the driver is asked to create. Made once, handed to the creation
/// call, and gone.
#[derive(Debug)]
pub struct InstanceCreationRequest {
    pub app_name: String,
    pub app_version: u32,
    pub engine_version: u32,
    pub api_version: u32,
    pub extension_names: Vec<String>,
    pub enabled_layer_names: Vec<String>,
    pub diagnostic_hook: Option<DebugMessengerCreateInfo>,
}

/// A creation request as plain values.
pub struct InstanceCreationRequestView {
    pub app_name: Seq<char>,
    pub app_version: u32,
    pub engine_version: u32,
    pub api_version: u32,
    pub extension_names: Seq<Seq<char>>,
    pub enabled_layer_names: Seq<Seq<char>>,
    pub diagnostic_hook: Option<DebugMessengerCreateInfo>,
}

impl View for InstanceCreationRequest {
    type V = InstanceCreationRequestView;

    open spec fn view(&self) -> InstanceCreationRequestView {
        InstanceCreationRequestView {
            app_name: self.app_name@,
            app_version: self.app_version,
            engine_version: self.engine_version,
            api_version: self.api_version,
            extension_names: names_view(self.extension_names@),
            enabled_layer_names: names_view(self.enabled_layer_names@),
            diagnostic_hook: self.diagnostic_hook,
        }
    }
}

/// The view of a result that carries a request.
pub open spec fn request_view(r: Result<InstanceCreationRequest, UrnError>) -> Result<
    InstanceCreationRequestView,
    UrnErrorView,
> {
    match r {
        Ok(request) => Ok(request@),
        Err(e) => Err(e@),
    }
}

/// What the caller wants of the instance: who asks, for which versions, and
/// the extensions that the platform needs.
#[derive(Debug)]
pub struct InstanceBuilder {
    pub app_name: String,
    pub app_version: u32,
    pub engine_version: u32,
    pub api_version: u32,
    pub requested_extensions: Vec<String>,
}

/// A builder as plain values.
pub struct InstanceBuilderView {
    pub app_name: Seq<char>,
    pub app_version: u32,
    pub engine_version: u32,
    pub api_version: u32,
    pub requested_extensions: Seq<Seq<char>>,
}

impl View for InstanceBuilder {
    type V = InstanceBuilderView;

    open spec fn view(&self) -> InstanceBuilderView {
        InstanceBuilderView {
            app_name: self.app_name@,
            app_version: self.app_version,
            engine_version: self.engine_version,
            api_version: self.api_version,
            requested_extensions: names_view(self.requested_extensions@),
        }
    }
}

/// The request that a builder and a configuration determine. With validation
/// enabled the extension of the messages follows the requested extensions,
/// the required layers are switched on, and the messenger is registered for
/// the creation call itself; with validation disabled none of the three.
pub open spec fn request_for(
    builder: InstanceBuilderView,
    config: ValidationView,
) -> InstanceCreationRequestView {
    InstanceCreationRequestView {
        app_name: builder.app_name,
        app_version: builder.app_version,
        engine_version: builder.engine_version,
        api_version: builder.api_version,
        extension_names: if config.is_enabled {
            builder.requested_extensions.push(diagnostics_extension())
        } else {
            builder.requested_extensions
        },
        enabled_layer_names: if config.is_enabled {
            config.required_layer_names
        } else {
            Seq::empty()
        },
        diagnostic_hook: if config.is_enabled {
            Some(all_messages())
        } else {
            None
        },
    }
}

/// The first name of a request that cannot be handed to the driver, where
/// there is one: the application's name comes first, then the extensions in
/// their order, then the layers in theirs.
pub open spec fn offending_name(request: InstanceCreationRequestView) -> Option<Seq<char>> {
    if !is_convertible(request.app_name) {
        Some(request.app_name)
    } else if !all_convertible(request.extension_names) {
        first_inconvertible(request.extension_names)
    } else {
        first_inconvertible(request.enabled_layer_names)
    }
}

/// The outcome of assembling: the request, unless one of its names has no
/// native form; then the error carries the first such name.
pub open spec fn assembled(builder: InstanceBuilderView, config: ValidationView) -> Result<
    InstanceCreationRequestView,
    UrnErrorView,
> {
    match offending_name(request_for(builder, config)) {
        None => Ok(request_for(builder, config)),
        Some(name) => Err(UrnErrorView::StringConversionError(name)),
    }
}

/// The outcome of the steps before the creation call, for a given
/// enumeration: the error of verification, unchanged, or else what
/// assembling gives.
pub open spec fn planned(
    builder: InstanceBuilderView,
    config: ValidationView,
    available: Seq<Seq<u8>>,
) -> Result<InstanceCreationRequestView, UrnErrorView> {
    match verification(config, available) {
        Ok(()) => assembled(builder, config),
        Err(e) => Err(e),
    }
}

/// The same for a given reply of the driver.
pub open spec fn prepared(
    builder: InstanceBuilderView,
    config: ValidationView,
    reply: Result<Seq<Seq<u8>>, i32>,
) -> Result<InstanceCreationRequestView, UrnErrorView> {
    match reply_outcome(config, reply) {
        Ok(()) => assembled(builder, config),
        Err(e) => Err(e),
    }
}

/// Whether `r` is what the caller gets for the driver's verdict on the
/// creation call: the created instance as it is, or the native code of the
/// rejection, unchanged, as an error.
pub open spec fn concluded<I>(verdict: Result<I, i32>, r: Result<I, UrnError>) -> bool {
    match verdict {
        Ok(instance) => r == Ok::<I, UrnError>(instance),
        Err(code) => r == Err::<I, UrnError>(UrnError::InstanceCreationError(code)),
    }
}

/// Whether `r` is an outcome of a build whose steps before the creation call
/// ended in `before`. A failure there is the outcome, and `create` has no
/// part in it. Otherwise `create` got the request, and `r` concludes one of
/// its verdicts.
pub open spec fn built<I, F: FnOnce(InstanceCreationRequest) -> Result<I, i32>>(
    before: Result<InstanceCreationRequestView, UrnErrorView>,
    create: F,
    r: Result<I, UrnError>,
) -> bool {
    match before {
        Ok(request) => exists|handed: InstanceCreationRequest, verdict: Result<I, i32>|
            handed@ == request && #[trigger] call_ensures(create, (handed,), verdict) && concluded(
                verdict,
                r,
            ),
        Err(e) => r matches Err(err) && err@ == e,
    }
}

/// The name of the extension that carries the driver's messages.
pub fn diagnostics_extension_name() -> (name: String)
    ensures
        name@ == diagnostics_extension(),
{
    debug_utils_name()
}

/// Turns the attempt to load the driver into the first result of the
/// bootstrap: the loaded entry as it is, or the error of a driver that is
/// not there, with what the loader said.
pub fn loaded<E>(entry: Result<E, String>) -> (r: Result<E, UrnError>)
    ensures
        entry matches Ok(e) ==> r == Ok::<E, UrnError>(e),
        entry matches Err(message) ==> r == Err::<E, UrnError>(UrnError::DriverLoadError(message)),
{
    match entry {
        Ok(e) => Ok(e),
        Err(message) => Err(UrnError::DriverLoadError(message)),
    }
}

/// Turns the driver's verdict on the creation call into the caller's result:
/// the created instance as it is, or the native code of the rejection,
/// unchanged, as an error.
pub fn conclude<I>(verdict: Result<I, i32>) -> (r: Result<I, UrnError>)
    ensures
        concluded(verdict, r),
{
    match verdict {
        Ok(instance) => Ok(instance),
        Err(code) => Err(UrnError::InstanceCreationError(code)),
    }
}

/// A copy of a list of names.
fn copy_names(names: &Vec<String>) -> (copy: Vec<String>)
    ensures
        names_view(copy@) == names_view(names@),
{
    let mut copy: Vec<String> = Vec::new();
    let mut i: usize = 0;
    while i < names.len()
        invariant
            i <= names.len(),
            copy.len() == i,
            forall|k: int| 0 <= k < i ==> (#[trigger] copy[k])@ == names[k]@,
        decreases names.len() - i,
    {
        copy.push(names[i].clone());
        i += 1;
    }
    copy
}

/// The names of a fixed list, as owned strings.
fn own_names(names: &[&str]) -> (owned: Vec<String>)
    ensures
        names_view(owned@) == names@.map_values(|name: &str| name@),
{
    let mut owned: Vec<String> = Vec::new();
    let mut i: usize = 0;
    while i < names.len()
        invariant
            i <= names.len(),
            owned.len() == i,
            forall|k: int| 0 <= k < i ==> (#[trigger] owned[k])@ == names[k]@,
        decreases names.len() - i,
    {
        owned.push(names[i].to_owned());
        i += 1;
    }
    owned
}

impl InstanceBuilder {
    /// Puts the request together. Private: a request is only to be had
    /// through [`InstanceBuilder::plan`] and the builds, which verify first.
    fn assemble(&self, config: &Validation) -> (r: Result<InstanceCreationRequest, UrnError>)
        ensures
            request_view(r) == assembled(self@, config@),
    {
        let mut extension_names = copy_names(&self.requested_extensions);
        let mut enabled_layer_names: Vec<String> = Vec::new();
        let mut diagnostic_hook: Option<DebugMessengerCreateInfo> = None;
        if config.is_enabled {
            extension_names.push(diagnostics_extension_name());
            enabled_layer_names = own_names(config.required_layer_names);
            diagnostic_hook = Some(populate_debug_messenger_create_info());
        }
        assert(names_view(extension_names@) =~= request_for(self@, config@).extension_names);
        assert(names_view(enabled_layer_names@) =~= request_for(
            self@,
            config@,
        ).enabled_layer_names);
        let request = InstanceCreationRequest {
            app_name: self.app_name.clone(),
            app_version: self.app_version,
            engine_version: self.engine_version,
            api_version: self.api_version,
            extension_names,
            enabled_layer_names,
            diagnostic_hook,
        };
        if !check_convertible(request.app_name.as_str()) {
            return Err(UrnError::StringConversionError(request.app_name));
        }
        match find_inconvertible(&request.extension_names) {
            Some(i) => {
                proof {
                    let names = request@.extension_names;
                    lemma_first_inconvertible_exists(names, i as int);
                    lemma_first_inconvertible_unique(
                        names,
                        i as int,
                        choose|k: int| is_first_inconvertible(names, k),
                    );
                }
                return Err(UrnError::StringConversionError(request.extension_names[i].clone()));
            },
            None => {},
        }
        match find_inconvertible(&request.enabled_layer_names) {
            Some(i) => {
                proof {
                    let names = request@.enabled_layer_names;
                    lemma_first_inconvertible_exists(names, i as int);
                    lemma_first_inconvertible_unique(
                        names,
                        i as int,
                        choose|k: int| is_first_inconvertible(names, k),
                    );
                }
                Err(UrnError::StringConversionError(request.enabled_layer_names[i].clone()))
            },
            None => Ok(request),
        }
    }

    /// Decides, for the layers that the driver has enumerated, whether and
    /// with what request the instance is to be created.
    ///
    /// Verification comes first and its error comes back unchanged: then
    /// there is no request, and so nothing to create with.
    pub fn plan(&self, config: &Validation, available: &Vec<LayerDescriptor>) -> (r: Result<
        InstanceCreationRequest,
        UrnError,
    >)
        ensures
            request_view(r) == planned(self@, config@, reported_names(available@)),
    {
        match verify_layers(config, available) {
            Ok(()) => self.assemble(config),
            Err(e) => Err(e),
        }
    }

    /// Runs the steps of the build in their order, for the layers that the
    /// driver has enumerated: verification, then the request, then the
    /// creation call, which `create` makes.
    ///
    /// `create` is called only when verification has passed and every name
    /// has a native form, once, with the assembled request; it need not be
    /// callable otherwise. Its verdict is concluded as [`conclude`] says.
    pub fn build_with_layers<I, F>(
        &self,
        config: &Validation,
        available: &Vec<LayerDescriptor>,
        create: F,
    ) -> (r: Result<I, UrnError>) where F: FnOnce(InstanceCreationRequest) -> Result<I, i32>
        requires
            forall|request: InstanceCreationRequest|
                planned(self@, config@, reported_names(available@)) == Ok::<
                    InstanceCreationRequestView,
                    UrnErrorView,
                >(request@) ==> call_requires(create, (request,)),
        ensures
            built(planned(self@, config@, reported_names(available@)), create, r),
    {
        match self.plan(config, available) {
            Ok(request) => conclude(create(request)),
            Err(e) => Err(e),
        }
    }

    /// Builds the instance: asks the driver for its layers through
    /// `enumerate`, and goes on as [`InstanceBuilder::build_with_layers`]
    /// does, with the creation call that `create` makes.
    ///
    /// With validation disabled the driver is not asked for its layers.
    /// Otherwise it is asked once, and the outcome is the one for its reply.
    /// A failed enumeration ends the build with the driver's code.
    pub fn build<I, E, F>(&self, config: &Validation, enumerate: E, create: F) -> (r: Result<
        I,
        UrnError,
    >) where
        E: FnOnce() -> Result<Vec<Vec<u8>>, i32>,
        F: FnOnce(InstanceCreationRequest) -> Result<I, i32>,

        requires
            config.is_enabled ==> call_requires(enumerate, ()),
            forall|reply: Result<Vec<Vec<u8>>, i32>, request: InstanceCreationRequest|
                (config.is_enabled ==> call_ensures(enumerate, (), reply)) && prepared(
                    self@,
                    config@,
                    reply_view(reply),
                ) == Ok::<InstanceCreationRequestView, UrnErrorView>(request@) ==> call_requires(
                    create,
                    (request,),
                ),
        ensures
            !config.is_enabled ==> built(assembled(self@, config@), create, r),
            config.is_enabled ==> exists|reply: Result<Vec<Vec<u8>>, i32>|
                #[trigger] call_ensures(enumerate, (), reply) && built(
                    prepared(self@, config@, reply_view(reply)),
                    create,
                    r,
                ),
    {
        if !config.is_enabled {
            let none: Vec<LayerDescriptor> = Vec::new();
            return self.build_with_layers(config, &none, create);
        }
        match enumerate() {
            Ok(buffers) => {
                let layers = describe_layers(&buffers);
                assert(prepared(self@, config@, reply_view(Ok(buffers))) == planned(
                    self@,
                    config@,
                    reported_names(layers@),
                ));
                self.build_with_layers(config, &layers, create)
            },
            Err(code) => Err(UrnError::AshError(code)),
        }
    }
}

/// Where verification fails, no request comes about: the outcome is the
/// failure of verification, as it is, for an enumeration and for a reply,
/// and whatever the creation call would have answered. The builds ask for a
/// callable `create` only where a request comes about, so on a failure they
/// have no right to call it.
pub proof fn law_no_request_unless_verified<I, F>(
    builder: InstanceBuilderView,
    config: ValidationView,
    available: Seq<Seq<u8>>,
    reply: Result<Seq<Seq<u8>>, i32>,
    create: F,
    r: Result<I, UrnError>,
) where F: FnOnce(InstanceCreationRequest) -> Result<I, i32>
    ensures
        verification(config, available) matches Err(e) ==> planned(builder, config, available)
            == Err::<InstanceCreationRequestView, UrnErrorView>(e),
        reply_outcome(config, reply) matches Err(e) ==> prepared(builder, config, reply) == Err::<
            InstanceCreationRequestView,
            UrnErrorView,
        >(e),
        planned(builder, config, available) is Ok ==> verification(config, available) is Ok,
        prepared(builder, config, reply) is Ok ==> reply_outcome(config, reply) is Ok,
        verification(config, available) matches Err(e) ==> (built(
            planned(builder, config, available),
            create,
            r,
        ) ==> (r matches Err(err) && err@ == e)),
{
}

/// A planned request switches on no layer that the driver lacks: each of its
/// layers is the name of an enumerated one.
pub proof fn law_enabled_layers_are_available(
    builder: InstanceBuilderView,
    config: ValidationView,
    available: Seq<Seq<u8>>,
)
    ensures
        planned(builder, config, available) matches Ok(request) ==> all_present(
            request.enabled_layer_names,
            available,
        ),
{
}

/// The request follows the configuration. With validation enabled its layers
/// are exactly the required ones and its extensions hold the extension of
/// the messages; with validation disabled it has no layer and lacks that
/// extension. The caller's own extensions are taken as they are, so the last
/// is said only of callers that did not ask for the extension themselves.
pub proof fn law_request_follows_configuration(
    builder: InstanceBuilderView,
    config: ValidationView,
)
    requires
        config.is_enabled || !builder.requested_extensions.contains(diagnostics_extension()),
    ensures
        config.is_enabled ==> request_for(builder, config).enabled_layer_names
            == config.required_layer_names,
        config.is_enabled ==> request_for(builder, config).extension_names.contains(
            diagnostics_extension(),
        ),
        !config.is_enabled ==> request_for(builder, config).enabled_layer_names.len() == 0,
        !config.is_enabled ==> !request_for(builder, config).extension_names.contains(
            diagnostics_extension(),
        ),
        assembled(builder, config) matches Ok(request) ==> request == request_for(builder, config),
{
    if config.is_enabled {
        let extensions = request_for(builder, config).extension_names;
        assert(extensions[extensions.len() - 1] == diagnostics_extension());
    }
}

/// The extension of the messages is added once, behind the caller's
/// extensions, which keep their order and their duplicates.
pub proof fn law_extension_added_once(builder: InstanceBuilderView, config: ValidationView)
    requires
        config.is_enabled,
    ensures
        request_for(builder, config).extension_names.len() == builder.requested_extensions.len()
            + 1,
        request_for(builder, config).extension_names.drop_last() == builder.requested_extensions,
        request_for(builder, config).extension_names.last() == diagnostics_extension(),
{
}

/// The name of the extension of the messages has a native form.
pub proof fn lemma_diagnostics_extension_convertible()
    ensures
        is_convertible(diagnostics_extension()),
{
    reveal_strlit("VK_EXT_debug_utils");
    is_ascii_chars_encode_utf8(diagnostics_extension());
}

/// Assembling fails exactly when a name that the caller or the configuration
/// supplied holds a NUL: the application's name, a requested extension, or,
/// with validation enabled, a required layer. The error then carries such a
/// name.
pub proof fn law_conversion_failure(builder: InstanceBuilderView, config: ValidationView)
    ensures
        assembled(builder, config) is Ok <==> is_convertible(builder.app_name) && all_convertible(
            builder.requested_extensions,
        ) && (config.is_enabled ==> all_convertible(config.required_layer_names)),
        assembled(builder, config) matches Err(e) ==> e is StringConversionError,
        assembled(builder, config) matches Err(UrnErrorView::StringConversionError(name))
            ==> !is_convertible(name) && (name == builder.app_name
            || builder.requested_extensions.contains(name) || (config.is_enabled
            && config.required_layer_names.contains(name))),
{
    lemma_diagnostics_extension_convertible();
    let request = request_for(builder, config);
    if !all_convertible(request.extension_names) {
        let i = choose|i: int|
            0 <= i < request.extension_names.len() && !is_convertible(
                #[trigger] request.extension_names[i],
            );
        lemma_first_inconvertible_exists(request.extension_names, i);
    } else if config.is_enabled {
        assert forall|i: int| 0 <= i < builder.requested_extensions.len() implies is_convertible(
            #[trigger] builder.requested_extensions[i],
        ) by {
            assert(request.extension_names[i] == builder.requested_extensions[i]);
        }
    }
    if !all_convertible(request.enabled_layer_names) {
        let i = choose|i: int|
            0 <= i < request.enabled_layer_names.len() && !is_convertible(
                #[trigger] request.enabled_layer_names[i],
            );
        lemma_first_inconvertible_exists(request.enabled_layer_names, i);
    }
}

} // verus!

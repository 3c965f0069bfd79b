//! The process-wide exporter state: the metrics registry that producers write to
//! and scrapes read from, and the runtime that their tasks run on.
use crate::config::ExporterConfig;
use opentelemetry::sdk::Resource;
use opentelemetry::KeyValue;
use opentelemetry_prometheus::PrometheusExporter;
use prometheus::proto::MetricFamily;
use prometheus::Registry;
use tokio::runtime::{Builder, Runtime, RuntimeFlavor};
use vstd::prelude::*;

verus! {

#[verifier::external_type_specification]
#[verifier::external_body]
pub struct ExRuntime(Runtime);

#[verifier::external_type_specification]
#[verifier::external_body]
pub struct ExPrometheusExporter(PrometheusExporter);

#[verifier::external_type_specification]
#[verifier::external_body]
pub struct ExMetricFamily(MetricFamily);

#[verifier::external_type_specification]
#[verifier::external_body]
pub struct ExKeyValue(KeyValue);

#[verifier::external_type_specification]
#[verifier::external_body]
pub struct ExResource(Resource);

#[verifier::external_type_specification]
#[verifier::external_body]
pub struct ExRegistry(Registry);

/// The key of the resource label that marks where the exported metrics come from.
pub const RESOURCE_KEY: &'static str = "R";

/// The value of the resource label that marks where the exported metrics come from.
pub const RESOURCE_VALUE: &'static str = "Rust";

/// Why the exporter state could not be built; the exporter cannot run without it.
#[derive(Debug, Clone, Copy, PartialEq, Eq)]
pub enum InitError {
    /// The Prometheus exporter could not be registered.
    Exporter,
    /// The multi-threaded runtime could not be built.
    Runtime,
}

/// Relies on opentelemetry's KeyValue::new: the attribute `key=value`.
#[verifier::external_body]
fn key_value(key: &str, value: &str) -> (r: KeyValue) {
    KeyValue::new(key.to_string(), value.to_string())
}

/// Relies on opentelemetry's Resource::new: a resource holding the given attributes.
#[verifier::external_body]
fn resource(attributes: Vec<KeyValue>) -> (r: Resource) {
    Resource::new(attributes)
}

/// Whether `runtime` schedules its tasks on a pool of worker threads.
pub uninterp spec fn runtime_is_multi_thread(runtime: Runtime) -> bool;

/// Relies on opentelemetry_prometheus::exporter, ExporterBuilder::with_resource and
/// ExporterBuilder::try_init: an exporter whose meters carry `resource`, installed
/// as the global meter provider. The builder has no registry of its own, so
/// try_init registers its collector, which declares no descriptors, in a fresh
/// registry, which always accepts it.
#[verifier::external_body]
fn install_exporter(resource: Resource) -> (r: Option<PrometheusExporter>)
    ensures
        r is Some,
{
    opentelemetry_prometheus::exporter().with_resource(resource).try_init().ok()
}

/// Relies on tokio's Builder::new_multi_thread, Builder::enable_all and
/// Builder::build: a multi-threaded runtime with its I/O and time drivers, or
/// `None` when it cannot be built.
#[verifier::external_body]
fn multi_thread_runtime() -> (r: Option<Runtime>)
    ensures
        r matches Some(rt) ==> runtime_is_multi_thread(rt),
{
    Builder::new_multi_thread().enable_all().build().ok()
}

/// Relies on tokio's Handle::runtime_flavor, read through Runtime::handle: whether
/// the runtime is of the multi-threaded flavour.
#[verifier::external_body]
fn is_multi_thread_flavor(runtime: &Runtime) -> (r: bool)
    ensures
        r == runtime_is_multi_thread(*runtime),
{
    runtime.handle().runtime_flavor() == RuntimeFlavor::MultiThread
}

/// Relies on PrometheusExporter::registry: the registry the exporter reports into.
#[verifier::external_body]
fn registry(exporter: &PrometheusExporter) -> (r: &Registry) {
    exporter.registry()
}

/// The name of a metric family.
pub uninterp spec fn family_name(f: MetricFamily) -> Seq<char>;

/// `a` comes strictly before `b` in the order of Rust's `str`: lexicographic by
/// character, which is the byte order of their UTF-8 forms.
pub open spec fn name_precedes(a: Seq<char>, b: Seq<char>) -> bool {
    exists|k: int|
        {
            &&& 0 <= k <= a.len()
            &&& k < b.len()
            &&& #[trigger] a.subrange(0, k) == b.subrange(0, k)
            &&& k == a.len() || (a[k] as u32) < (b[k] as u32)
        }
}

/// Families listed one per name, in strictly ascending order of name.
pub open spec fn one_family_per_name_ascending(families: Seq<MetricFamily>) -> bool {
    &&& forall|i: int, j: int|
        0 <= i < j < families.len() ==> family_name(families[i]) != family_name(families[j])
    &&& forall|i: int|
        0 <= i < families.len() - 1 ==> name_precedes(
            #[trigger] family_name(families[i]),
            family_name(families[i + 1]),
        )
}

/// Relies on prometheus's MetricFamily::get_name: the family's name.
#[verifier::external_body]
fn metric_family_name(f: &MetricFamily) -> (r: String)
    ensures
        r@ == family_name(*f),
{
    f.get_name().to_string()
}

/// Relies on prometheus's Registry::gather: the registry's current metric families.
/// It collects them into a map keyed by name, so each name comes once, and writes
/// them out in the map's order, ascending by name.
#[verifier::external_body]
fn gather_families(registry: &Registry) -> (r: Vec<MetricFamily>)
    ensures
        one_family_per_name_ascending(r@),
{
    registry.gather()
}

/// Relies on tokio's Runtime::shutdown_background: starts an orderly shutdown of
/// the runtime without waiting for its tasks.
#[verifier::external_body]
fn shutdown_background(runtime: Runtime) {
    runtime.shutdown_background()
}

/// The Prometheus exporter, with the resource label that marks the metrics' origin.
fn init_meter() -> (r: Option<PrometheusExporter>)
    ensures
        r is Some,
{
    let mut attributes: Vec<KeyValue> = Vec::new();
    attributes.push(key_value(RESOURCE_KEY, RESOURCE_VALUE));
    install_exporter(resource(attributes))
}

/// The names of `families`, in their order.
pub fn family_names(families: &Vec<MetricFamily>) -> (r: Vec<String>)
    ensures
        r@.len() == families@.len(),
        forall|i: int| 0 <= i < r@.len() ==> #[trigger] r@[i]@ == family_name(families@[i]),
{
    let mut names: Vec<String> = Vec::new();
    let mut i: usize = 0;
    while i < families.len()
        invariant
            i <= families@.len(),
            names@.len() == i,
            forall|j: int| 0 <= j < i ==> #[trigger] names@[j]@ == family_name(families@[j]),
        decreases families@.len() - i,
    {
        names.push(metric_family_name(&families[i]));
        i = i + 1;
    }
    names
}

/// The exporter state: built once at startup, shared by reference, and consumed
/// by `shutdown`.
pub struct AppState {
    runtime: Runtime,
    exporter: PrometheusExporter,
}

impl AppState {
    /// The runtime this state owns.
    pub closed spec fn runtime_of(&self) -> Runtime {
        self.runtime
    }

    /// The exporter this state owns.
    pub closed spec fn exporter_of(&self) -> PrometheusExporter {
        self.exporter
    }

    /// The state made from the outcomes of its two construction steps: a missing
    /// exporter is `InitError::Exporter`, whatever the runtime step gave (a runtime
    /// given then is shut down in the background); with an exporter, a missing
    /// runtime is `InitError::Runtime`; with both, the state owns exactly them.
    pub fn from_parts(exporter: Option<PrometheusExporter>, runtime: Option<Runtime>) -> (r:
        Result<AppState, InitError>)
        ensures
            exporter is None ==> r == Err::<AppState, InitError>(InitError::Exporter),
            exporter is Some && runtime is None ==> r == Err::<AppState, InitError>(
                InitError::Runtime,
            ),
            exporter is Some && runtime is Some ==> (r matches Ok(s) && s.exporter_of()
                == exporter->Some_0 && s.runtime_of() == runtime->Some_0),
    {
        match exporter {
            None => {
                if let Some(runtime) = runtime {
                    shutdown_background(runtime);
                }
                Err(InitError::Exporter)
            },
            Some(exporter) => match runtime {
                None => Err(InitError::Runtime),
                Some(runtime) => Ok(AppState { runtime, exporter }),
            },
        }
    }

    /// Builds the exporter, tagged with the resource label, and then, if that
    /// succeeded, the multi-threaded runtime; `from_parts` says what each outcome
    /// gives. Building the exporter does not fail, so the one error is the
    /// runtime's. The configuration's programs do not decide anything here:
    /// producers register their counters in the registry themselves.
    pub fn init(config: &ExporterConfig) -> (r: Result<AppState, InitError>)
        ensures
            r is Ok || r == Err::<AppState, InitError>(InitError::Runtime),
            r matches Ok(s) ==> runtime_is_multi_thread(s.runtime_of()),
    {
        let exporter = init_meter();
        let runtime = if exporter.is_some() {
            multi_thread_runtime()
        } else {
            None
        };
        AppState::from_parts(exporter, runtime)
    }

    /// A snapshot of the metric families in the registry: one family per name, in
    /// ascending order of name.
    pub fn gather(&self) -> (r: Vec<MetricFamily>)
        ensures
            one_family_per_name_ascending(r@),
    {
        gather_families(registry(&self.exporter))
    }

    /// Whether the state's runtime is multi-threaded, as `init` builds it.
    pub fn is_multi_thread(&self) -> (r: bool)
        ensures
            r == runtime_is_multi_thread(self.runtime_of()),
    {
        is_multi_thread_flavor(&self.runtime)
    }

    /// The runtime that producer and request tasks run on.
    pub fn get_runtime(&self) -> (r: &Runtime)
        ensures
            *r == self.runtime_of(),
    {
        &self.runtime
    }

    /// Ends the state: the runtime is shut down in the background and the state
    /// cannot be used afterwards.
    pub fn shutdown(self) {
        shutdown_background(self.runtime)
    }
}

} // verus!

//! Metric events emitted around vector indexing, vector search, and module
//! metadata loading.
//!
//! Emission to a process-global registry is outside this crate's scope; each
//! function here instead returns the event (or events) it stands for, with
//! the metric name, the sample, and the exact labels pinned down by its
//! contract. Wall-clock durations are supplied by the caller, since only the
//! caller's runtime can measure them.

use vstd::prelude::*;

verus! {

/// One key/value label attached to a metric.
#[derive(Clone, Copy, PartialEq, Eq, Debug)]
pub struct MetricLabel {
    pub key: &'static str,
    pub value: &'static str,
}

/// One metric emission.
#[derive(PartialEq, Eq, Debug)]
pub enum MetricEvent {
    /// A counter incremented by `value`.
    Counter { name: &'static str, value: u64, labels: Vec<MetricLabel> },
    /// An integer-valued sample added to a distribution.
    Distribution { name: &'static str, sample: u64 },
    /// A finished status timer: the observed duration, labelled with
    /// success and whatever labels the timer accrued.
    Observation { histogram: &'static str, elapsed_nanos: u64, labels: Vec<MetricLabel> },
}

/// A timer for one histogram that accrues labels while running and, on
/// `finish`, yields the observation marked successful.
pub struct StatusTimer {
    histogram_name: &'static str,
    labels: Vec<MetricLabel>,
}

impl StatusTimer {
    /// The histogram this timer observes into.
    pub closed spec fn spec_histogram_name(&self) -> &'static str {
        self.histogram_name
    }

    /// The labels accrued so far, beyond the status label.
    pub closed spec fn spec_labels(&self) -> Seq<MetricLabel> {
        self.labels@
    }

    /// A fresh timer for the named histogram, with no labels accrued.
    pub fn new(histogram_name: &'static str) -> (r: Self)
        ensures
            r.spec_histogram_name()@ == histogram_name@,
            r.spec_labels() == Seq::<MetricLabel>::empty(),
    {
        StatusTimer { histogram_name, labels: Vec::new() }
    }

    /// Accrues one more label.
    pub fn add_label(&mut self, label: MetricLabel)
        ensures
            final(self).spec_histogram_name()@ == old(self).spec_histogram_name()@,
            final(self).spec_labels() == old(self).spec_labels().push(label),
    {
        self.labels.push(label);
    }

    /// Finishes the timer: one observation of the elapsed duration, labelled
    /// successful first and then with the accrued labels in order.
    pub fn finish(self, elapsed_nanos: u64) -> (ev: MetricEvent)
        ensures
            (ev matches MetricEvent::Observation { histogram, elapsed_nanos: e, labels } && {
                &&& histogram@ == self.spec_histogram_name()@
                &&& e == elapsed_nanos
                &&& labels@.len() == 1 + self.spec_labels().len()
                &&& labels@[0].key@ == "status"@
                &&& labels@[0].value@ == "success"@
                &&& labels@.skip(1) == self.spec_labels()
            }),
    {
        let mut labels: Vec<MetricLabel> = Vec::new();
        labels.push(MetricLabel { key: "status", value: "success" });
        let mut accrued = self.labels;
        let ghost accrued_view = accrued@;
        labels.append(&mut accrued);
        assert(labels@.skip(1) =~= accrued_view);
        MetricEvent::Observation {
            histogram: self.histogram_name,
            elapsed_nanos,
            labels,
        }
    }
}

/// The label carrying a searchlight cluster name.
pub fn cluster_label(cluster: &'static str) -> (r: MetricLabel)
    ensures
        r.key@ == "cluster"@,
        r.value@ == cluster@,
{
    MetricLabel { key: "cluster", value: cluster }
}

/// What kind of write advanced a vector index.
pub enum IndexUpdateType {
    IndexMetadata,
    Document,
    NoUpdate,
}

impl IndexUpdateType {
    /// The label value naming this update kind.
    pub fn tag(&self) -> (r: &'static str)
        ensures
            (match self {
                IndexUpdateType::IndexMetadata => r@ == "index_metadata"@,
                IndexUpdateType::Document => r@ == "document"@,
                IndexUpdateType::NoUpdate => r@ == "none"@,
            }),
    {
        match self {
            IndexUpdateType::IndexMetadata => "index_metadata",
            IndexUpdateType::Document => "document",
            IndexUpdateType::NoUpdate => "none",
        }
    }
}

/// Times one vector index update.
pub fn index_manager_update_timer() -> (r: StatusTimer)
    ensures
        r.spec_histogram_name()@ == "vector_index_manager_update_seconds"@,
        r.spec_labels() == Seq::<MetricLabel>::empty(),
{
    StatusTimer::new("vector_index_manager_update_seconds")
}

/// Finishes a vector index update timer, labelled with the kind of update
/// that was performed.
pub fn finish_index_manager_update_timer(
    timer: StatusTimer,
    index_update_type: IndexUpdateType,
    elapsed_nanos: u64,
) -> (ev: MetricEvent)
    ensures
        (ev matches MetricEvent::Observation { histogram, elapsed_nanos: e, labels } && {
            &&& histogram@ == timer.spec_histogram_name()@
            &&& e == elapsed_nanos
            &&& labels@.len() == 2 + timer.spec_labels().len()
            &&& labels@[0].key@ == "status"@
            &&& labels@[0].value@ == "success"@
            &&& labels@.subrange(1, 1 + timer.spec_labels().len() as int) == timer.spec_labels()
            &&& labels@.last().key@ == "index_update_type"@
            &&& (match index_update_type {
                IndexUpdateType::IndexMetadata => labels@.last().value@ == "index_metadata"@,
                IndexUpdateType::Document => labels@.last().value@ == "document"@,
                IndexUpdateType::NoUpdate => labels@.last().value@ == "none"@,
            })
        }),
{
    let mut timer = timer;
    let ghost accrued = timer.spec_labels();
    let tag = index_update_type.tag();
    let label = MetricLabel { key: "index_update_type", value: tag };
    timer.add_label(label);
    let ev = timer.finish(elapsed_nanos);
    proof {
        if let MetricEvent::Observation { histogram, elapsed_nanos: e, labels } = &ev {
            let n = accrued.len() as int;
            assert(labels@.skip(1) == accrued.push(label));
            assert(labels@.subrange(1, 1 + n) =~= accrued);
            assert(labels@.last() == labels@.skip(1)[n]);
        }
    }
    ev
}

/// Times one search schema compilation.
pub fn compile_timer() -> (r: StatusTimer)
    ensures
        r.spec_histogram_name()@ == "vector_search_schema_compile_seconds"@,
        r.spec_labels() == Seq::<MetricLabel>::empty(),
{
    StatusTimer::new("vector_search_schema_compile_seconds")
}

/// Records by how many results searchlight overfetched.
pub fn log_searchlight_overfetch_delta(overfetch_delta: usize) -> (ev: MetricEvent)
    ensures
        (ev matches MetricEvent::Distribution { name, sample } && name@
            == "vector_search_searchlight_overfetch_delta_total"@ && sample == overfetch_delta),
{
    MetricEvent::Distribution {
        name: "vector_search_searchlight_overfetch_delta_total",
        sample: overfetch_delta as u64,
    }
}

/// Kind of vector index a query ran against.
#[derive(Clone, Copy, PartialEq, Eq, Structural, Debug)]
pub enum VectorIndexType {
    MultiSegment,
    Unknown,
}

/// The label naming the kind of vector index a query ran against.
pub fn vector_index_type_label(vector_index_type: VectorIndexType) -> (r: MetricLabel)
    ensures
        r.key@ == "vector_index_type"@,
        (match vector_index_type {
            VectorIndexType::MultiSegment => r.value@ == "multi_segment"@,
            VectorIndexType::Unknown => r.value@ == "unknown"@,
        }),
{
    let type_str: &'static str = match vector_index_type {
        VectorIndexType::MultiSegment => "multi_segment",
        VectorIndexType::Unknown => "unknown",
    };
    MetricLabel { key: "vector_index_type", value: type_str }
}

/// Times one vector query against searchlight, labelled with the index type
/// and the cluster serving it.
pub fn searchlight_client_execute_timer(
    vector_index_type: VectorIndexType,
    cluster: &'static str,
) -> (r: StatusTimer)
    ensures
        r.spec_histogram_name()@ == "vector_search_searchlight_client_execute_seconds"@,
        r.spec_labels().len() == 2,
        r.spec_labels()[0].key@ == "vector_index_type"@,
        (match vector_index_type {
            VectorIndexType::MultiSegment => r.spec_labels()[0].value@ == "multi_segment"@,
            VectorIndexType::Unknown => r.spec_labels()[0].value@ == "unknown"@,
        }),
        r.spec_labels()[1].key@ == "cluster"@,
        r.spec_labels()[1].value@ == cluster@,
{
    let mut timer = StatusTimer::new("vector_search_searchlight_client_execute_seconds");
    timer.add_label(vector_index_type_label(vector_index_type));
    timer.add_label(cluster_label(cluster));
    timer
}

/// One result of a vector search, as far as the metrics read one: an opaque
/// handle; only how many came back is ever measured.
#[derive(Clone, Copy, PartialEq, Eq, Structural, Debug)]
pub struct VectorSearchQueryResult {
    pub id: u64,
}

/// Finishes a searchlight query timer: first the count of results that came
/// back, then the successful observation.
pub fn finish_searchlight_client_execute(
    timer: StatusTimer,
    results: &Vec<VectorSearchQueryResult>,
    elapsed_nanos: u64,
) -> (events: Vec<MetricEvent>)
    ensures
        events@.len() == 2,
        (events@[0] matches MetricEvent::Distribution { name, sample } && name@
            == "vector_search_searchlight_client_results_total"@ && sample == results@.len()),
        (events@[1] matches MetricEvent::Observation { histogram, elapsed_nanos: e, labels } && {
            &&& histogram@ == timer.spec_histogram_name()@
            &&& e == elapsed_nanos
            &&& labels@.len() == 1 + timer.spec_labels().len()
            &&& labels@[0].key@ == "status"@
            &&& labels@[0].value@ == "success"@
            &&& labels@.skip(1) == timer.spec_labels()
        }),
{
    let mut events: Vec<MetricEvent> = Vec::new();
    events.push(MetricEvent::Distribution {
        name: "vector_search_searchlight_client_results_total",
        sample: results.len() as u64,
    });
    events.push(timer.finish(elapsed_nanos));
    events
}

/// Records how many stale document revisions a search discarded.
pub fn log_num_discarded_revisions(discarded_revisions: usize) -> (ev: MetricEvent)
    ensures
        (ev matches MetricEvent::Distribution { name, sample } && name@
            == "vector_search_num_discarded_revisions_total"@ && sample == discarded_revisions),
{
    MetricEvent::Distribution {
        name: "vector_search_num_discarded_revisions_total",
        sample: discarded_revisions as u64,
    }
}

/// Records how many segments a multi-segment index search visited.
pub fn log_num_segments_searched_total(num_segments: usize) -> (ev: MetricEvent)
    ensures
        (ev matches MetricEvent::Distribution { name, sample } && name@
            == "vector_search_number_of_segments_total"@ && sample == num_segments),
{
    MetricEvent::Distribution {
        name: "vector_search_number_of_segments_total",
        sample: num_segments as u64,
    }
}

/// One compiled filter condition of a vector search.
#[derive(Clone, Copy, PartialEq, Eq, Structural, Debug)]
pub enum CompiledVectorFilter {
    /// The field must equal one value.
    Equality,
    /// The field must equal one of `term_count` values.
    In { term_count: usize },
}

/// A compiled vector search, as far as the metrics read it: its filter
/// conditions and the dimension count of the query vector.
pub struct CompiledVectorSearch {
    pub filter_conditions: Vec<CompiledVectorFilter>,
    pub vector_len: usize,
}

/// The compilation counter, incremented once per compiled query and labelled
/// with the shape of its filter.
fn vector_search_total_event(filter: &'static str) -> (ev: MetricEvent)
    ensures
        (ev matches MetricEvent::Counter { name, value, labels } && {
            &&& name@ == "vector_search_compile_total"@
            &&& value == 1
            &&& labels@.len() == 1
            &&& labels@[0].key@ == "filter_type"@
            &&& labels@[0].value@ == filter@
        }),
{
    let mut labels: Vec<MetricLabel> = Vec::new();
    labels.push(MetricLabel { key: "filter_type", value: filter });
    MetricEvent::Counter { name: "vector_search_compile_total", value: 1, labels }
}

/// Records the shape of one compiled query: a compilation counter labelled
/// `none`, `eq`, `in`, or `multifield`; for a single `in` filter also the
/// number of its terms; and always, last, the dimension count of the query
/// vector.
pub fn log_compiled_query(query: &CompiledVectorSearch) -> (events: Vec<MetricEvent>)
    ensures
        events@.len() >= 2,
        (events@[0] matches MetricEvent::Counter { name, value, labels } && {
            &&& name@ == "vector_search_compile_total"@
            &&& value == 1
            &&& labels@.len() == 1
            &&& labels@[0].key@ == "filter_type"@
            &&& (if query.filter_conditions@.len() == 0 {
                labels@[0].value@ == "none"@
            } else if query.filter_conditions@.len() == 1 {
                match query.filter_conditions@[0] {
                    CompiledVectorFilter::Equality => labels@[0].value@ == "eq"@,
                    CompiledVectorFilter::In { .. } => labels@[0].value@ == "in"@,
                }
            } else {
                labels@[0].value@ == "multifield"@
            })
        }),
        (if query.filter_conditions@.len() == 1 && (query.filter_conditions@[0] matches
            CompiledVectorFilter::In { .. }) {
            &&& events@.len() == 3
            &&& (events@[1] matches MetricEvent::Distribution { name, sample } && name@
                == "vector_search_compile_filter_in_total"@ && sample
                == query.filter_conditions@[0]->term_count)
        } else {
            events@.len() == 2
        }),
        (events@.last() matches MetricEvent::Distribution { name, sample } && name@
            == "vector_search_vector_length_total"@ && sample == query.vector_len),
{
    let mut events: Vec<MetricEvent> = Vec::new();
    if query.filter_conditions.len() == 0 {
        events.push(vector_search_total_event("none"));
    } else if query.filter_conditions.len() == 1 {
        let filter = &query.filter_conditions[0];
        match filter {
            CompiledVectorFilter::Equality => {
                events.push(vector_search_total_event("eq"));
            },
            CompiledVectorFilter::In { term_count } => {
                events.push(vector_search_total_event("in"));
                events.push(MetricEvent::Distribution {
                    name: "vector_search_compile_filter_in_total",
                    sample: *term_count as u64,
                });
            },
        }
    } else {
        events.push(vector_search_total_event("multifield"));
    }
    events.push(MetricEvent::Distribution {
        name: "vector_search_vector_length_total",
        sample: query.vector_len as u64,
    });
    events
}

/// Times one whole vector search, labelled with an unknown index type until
/// the search resolves it, and with the cluster serving it.
pub fn search_timer(cluster: &'static str) -> (r: StatusTimer)
    ensures
        r.spec_histogram_name()@ == "vector_index_manager_search_seconds"@,
        r.spec_labels().len() == 2,
        r.spec_labels()[0].key@ == "vector_index_type"@,
        r.spec_labels()[0].value@ == "unknown"@,
        r.spec_labels()[1].key@ == "cluster"@,
        r.spec_labels()[1].value@ == cluster@,
{
    let mut timer = StatusTimer::new("vector_index_manager_search_seconds");
    timer.add_label(vector_index_type_label(VectorIndexType::Unknown));
    timer.add_label(cluster_label(cluster));
    timer
}

/// Finishes a search timer: first the count of results, then the successful
/// observation, labelled additionally with the index type the search
/// resolved.
pub fn finish_search(
    timer: StatusTimer,
    results: &Vec<VectorSearchQueryResult>,
    vector_index_type: VectorIndexType,
    elapsed_nanos: u64,
) -> (events: Vec<MetricEvent>)
    ensures
        events@.len() == 2,
        (events@[0] matches MetricEvent::Distribution { name, sample } && name@
            == "vector_index_manager_results_total"@ && sample == results@.len()),
        (events@[1] matches MetricEvent::Observation { histogram, elapsed_nanos: e, labels } && {
            &&& histogram@ == timer.spec_histogram_name()@
            &&& e == elapsed_nanos
            &&& labels@.len() == 2 + timer.spec_labels().len()
            &&& labels@[0].key@ == "status"@
            &&& labels@[0].value@ == "success"@
            &&& labels@.subrange(1, 1 + timer.spec_labels().len() as int) == timer.spec_labels()
            &&& labels@.last().key@ == "vector_index_type"@
            &&& (match vector_index_type {
                VectorIndexType::MultiSegment => labels@.last().value@ == "multi_segment"@,
                VectorIndexType::Unknown => labels@.last().value@ == "unknown"@,
            })
        }),
{
    let mut events: Vec<MetricEvent> = Vec::new();
    events.push(MetricEvent::Distribution {
        name: "vector_index_manager_results_total",
        sample: results.len() as u64,
    });
    let mut timer = timer;
    let ghost accrued = timer.spec_labels();
    let label = vector_index_type_label(vector_index_type);
    timer.add_label(label);
    let ev = timer.finish(elapsed_nanos);
    proof {
        if let MetricEvent::Observation { histogram, elapsed_nanos: e, labels } = &ev {
            let n = accrued.len() as int;
            assert(labels@.skip(1) == accrued.push(label));
            assert(labels@.subrange(1, 1 + n) =~= accrued);
            assert(labels@.last() == labels@.skip(1)[n]);
        }
    }
    events.push(ev);
    events
}

/// Counts one vector index creation.
pub fn log_index_created() -> (ev: MetricEvent)
    ensures
        (ev matches MetricEvent::Counter { name, value, labels } && name@
            == "vector_update_index_created_total"@ && value == 1 && labels@.len() == 0),
{
    MetricEvent::Counter { name: "vector_update_index_created_total", value: 1, labels: Vec::new() }
}

/// Counts one vector index backfill completion.
pub fn log_index_backfilled() -> (ev: MetricEvent)
    ensures
        (ev matches MetricEvent::Counter { name, value, labels } && name@
            == "vector_update_index_backfilled_total"@ && value == 1 && labels@.len() == 0),
{
    MetricEvent::Counter {
        name: "vector_update_index_backfilled_total",
        value: 1,
        labels: Vec::new(),
    }
}

/// Counts one vector index advanced in time.
pub fn log_index_advanced() -> (ev: MetricEvent)
    ensures
        (ev matches MetricEvent::Counter { name, value, labels } && name@
            == "vector_update_index_advanced_total"@ && value == 1 && labels@.len() == 0),
{
    MetricEvent::Counter {
        name: "vector_update_index_advanced_total",
        value: 1,
        labels: Vec::new(),
    }
}

/// Counts one vector index deletion.
pub fn log_index_deleted() -> (ev: MetricEvent)
    ensures
        (ev matches MetricEvent::Counter { name, value, labels } && name@
            == "vector_update_index_deleted_total"@ && value == 1 && labels@.len() == 0),
{
    MetricEvent::Counter { name: "vector_update_index_deleted_total", value: 1, labels: Vec::new() }
}

/// How a qdrant segment indexes its vectors.
#[derive(Clone, Copy, PartialEq, Eq, Structural, Debug)]
pub enum QdrantVectorIndexType {
    Plain,
    HNSW,
}

impl QdrantVectorIndexType {
    /// The label naming this qdrant index type.
    pub fn metric_label(&self) -> (r: MetricLabel)
        ensures
            r.key@ == "index_type"@,
            (match self {
                QdrantVectorIndexType::Plain => r.value@ == "plain"@,
                QdrantVectorIndexType::HNSW => r.value@ == "hnsw"@,
            }),
    {
        let index_string: &'static str = match self {
            QdrantVectorIndexType::Plain => "plain",
            QdrantVectorIndexType::HNSW => "hnsw",
        };
        MetricLabel { key: "index_type", value: index_string }
    }
}

/// Times building the appendable in-memory qdrant segment.
pub fn qdrant_segment_memory_build_timer() -> (r: StatusTimer)
    ensures
        r.spec_histogram_name()@ == "qdrant_segment_memory_build_seconds"@,
        r.spec_labels() == Seq::<MetricLabel>::empty(),
{
    StatusTimer::new("qdrant_segment_memory_build_seconds")
}

/// Times building the immutable on-disk qdrant segment, labelled with the
/// index type it is built with.
pub fn qdrant_segment_disk_build_timer(disk_index_type: QdrantVectorIndexType) -> (r: StatusTimer)
    ensures
        r.spec_histogram_name()@ == "qdrant_segment_disk_build_seconds"@,
        r.spec_labels().len() == 1,
        r.spec_labels()[0].key@ == "index_type"@,
        (match disk_index_type {
            QdrantVectorIndexType::Plain => r.spec_labels()[0].value@ == "plain"@,
            QdrantVectorIndexType::HNSW => r.spec_labels()[0].value@ == "hnsw"@,
        }),
{
    let mut timer = StatusTimer::new("qdrant_segment_disk_build_seconds");
    timer.add_label(disk_index_type.metric_label());
    timer
}

/// Times loading module metadata from the database.
pub fn get_module_metadata_timer() -> (r: StatusTimer)
    ensures
        r.spec_histogram_name()@ == "database_get_modules_metadata_seconds"@,
        r.spec_labels() == Seq::<MetricLabel>::empty(),
{
    StatusTimer::new("database_get_modules_metadata_seconds")
}

} // verus!

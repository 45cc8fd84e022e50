//! Metric events: names, samples, and the exact labels of every function.

use isolate_host::metrics::cluster_label;
use isolate_host::metrics::compile_timer;
use isolate_host::metrics::finish_index_manager_update_timer;
use isolate_host::metrics::finish_search;
use isolate_host::metrics::finish_searchlight_client_execute;
use isolate_host::metrics::get_module_metadata_timer;
use isolate_host::metrics::index_manager_update_timer;
use isolate_host::metrics::log_compiled_query;
use isolate_host::metrics::log_index_advanced;
use isolate_host::metrics::log_index_backfilled;
use isolate_host::metrics::log_index_created;
use isolate_host::metrics::log_index_deleted;
use isolate_host::metrics::log_num_discarded_revisions;
use isolate_host::metrics::log_num_segments_searched_total;
use isolate_host::metrics::log_searchlight_overfetch_delta;
use isolate_host::metrics::qdrant_segment_disk_build_timer;
use isolate_host::metrics::qdrant_segment_memory_build_timer;
use isolate_host::metrics::search_timer;
use isolate_host::metrics::searchlight_client_execute_timer;
use isolate_host::metrics::vector_index_type_label;
use isolate_host::metrics::CompiledVectorFilter;
use isolate_host::metrics::CompiledVectorSearch;
use isolate_host::metrics::IndexUpdateType;
use isolate_host::metrics::MetricEvent;
use isolate_host::metrics::QdrantVectorIndexType;
use isolate_host::metrics::VectorIndexType;
use isolate_host::metrics::VectorSearchQueryResult;

fn labels_of(ev: &MetricEvent) -> Vec<(&'static str, &'static str)> {
    match ev {
        MetricEvent::Counter { labels, .. } => labels.iter().map(|l| (l.key, l.value)).collect(),
        MetricEvent::Observation { labels, .. } => {
            labels.iter().map(|l| (l.key, l.value)).collect()
        }
        MetricEvent::Distribution { .. } => vec![],
    }
}

#[test]
fn update_timer_is_labelled_with_the_update_kind() {
    let timer = index_manager_update_timer();
    let ev = finish_index_manager_update_timer(timer, IndexUpdateType::Document, 42);
    match &ev {
        MetricEvent::Observation { histogram, elapsed_nanos, .. } => {
            assert_eq!(*histogram, "vector_index_manager_update_seconds");
            assert_eq!(*elapsed_nanos, 42);
        }
        _ => panic!("finishing a timer yields an observation"),
    }
    assert_eq!(
        labels_of(&ev),
        vec![("status", "success"), ("index_update_type", "document")]
    );
}

#[test]
fn update_type_tags() {
    assert_eq!(IndexUpdateType::IndexMetadata.tag(), "index_metadata");
    assert_eq!(IndexUpdateType::Document.tag(), "document");
    assert_eq!(IndexUpdateType::NoUpdate.tag(), "none");
}

#[test]
fn plain_timers_have_their_histogram_names() {
    let ev = compile_timer().finish(7);
    match &ev {
        MetricEvent::Observation { histogram, elapsed_nanos, .. } => {
            assert_eq!(*histogram, "vector_search_schema_compile_seconds");
            assert_eq!(*elapsed_nanos, 7);
        }
        _ => panic!(),
    }
    assert_eq!(labels_of(&ev), vec![("status", "success")]);

    let ev = qdrant_segment_memory_build_timer().finish(9);
    match &ev {
        MetricEvent::Observation { histogram, .. } => {
            assert_eq!(*histogram, "qdrant_segment_memory_build_seconds");
        }
        _ => panic!(),
    }

    let ev = get_module_metadata_timer().finish(3);
    match &ev {
        MetricEvent::Observation { histogram, .. } => {
            assert_eq!(*histogram, "database_get_modules_metadata_seconds");
        }
        _ => panic!(),
    }
}

#[test]
fn distributions_carry_their_integer_samples() {
    match log_searchlight_overfetch_delta(17) {
        MetricEvent::Distribution { name, sample } => {
            assert_eq!(name, "vector_search_searchlight_overfetch_delta_total");
            assert_eq!(sample, 17);
        }
        _ => panic!(),
    }
    match log_num_discarded_revisions(4) {
        MetricEvent::Distribution { name, sample } => {
            assert_eq!(name, "vector_search_num_discarded_revisions_total");
            assert_eq!(sample, 4);
        }
        _ => panic!(),
    }
    match log_num_segments_searched_total(12) {
        MetricEvent::Distribution { name, sample } => {
            assert_eq!(name, "vector_search_number_of_segments_total");
            assert_eq!(sample, 12);
        }
        _ => panic!(),
    }
}

#[test]
fn counters_count_one() {
    for (ev, name) in [
        (log_index_created(), "vector_update_index_created_total"),
        (log_index_backfilled(), "vector_update_index_backfilled_total"),
        (log_index_advanced(), "vector_update_index_advanced_total"),
        (log_index_deleted(), "vector_update_index_deleted_total"),
    ] {
        match ev {
            MetricEvent::Counter { name: n, value, labels } => {
                assert_eq!(n, name);
                assert_eq!(value, 1);
                assert!(labels.is_empty());
            }
            _ => panic!(),
        }
    }
}

#[test]
fn searchlight_timer_carries_index_type_and_cluster() {
    let timer = searchlight_client_execute_timer(VectorIndexType::MultiSegment, "uswest");
    let results = vec![VectorSearchQueryResult { id: 1 }, VectorSearchQueryResult { id: 2 }];
    let events = finish_searchlight_client_execute(timer, &results, 55);
    assert_eq!(events.len(), 2);
    match &events[0] {
        MetricEvent::Distribution { name, sample } => {
            assert_eq!(*name, "vector_search_searchlight_client_results_total");
            assert_eq!(*sample, 2);
        }
        _ => panic!(),
    }
    match &events[1] {
        MetricEvent::Observation { histogram, elapsed_nanos, .. } => {
            assert_eq!(*histogram, "vector_search_searchlight_client_execute_seconds");
            assert_eq!(*elapsed_nanos, 55);
        }
        _ => panic!(),
    }
    assert_eq!(
        labels_of(&events[1]),
        vec![
            ("status", "success"),
            ("vector_index_type", "multi_segment"),
            ("cluster", "uswest"),
        ]
    );
}

#[test]
fn search_timer_resolves_its_index_type_at_finish() {
    let timer = search_timer("euwest");
    let events = finish_search(timer, &vec![], VectorIndexType::MultiSegment, 80);
    assert_eq!(events.len(), 2);
    match &events[0] {
        MetricEvent::Distribution { name, sample } => {
            assert_eq!(*name, "vector_index_manager_results_total");
            assert_eq!(*sample, 0);
        }
        _ => panic!(),
    }
    assert_eq!(
        labels_of(&events[1]),
        vec![
            ("status", "success"),
            ("vector_index_type", "unknown"),
            ("cluster", "euwest"),
            ("vector_index_type", "multi_segment"),
        ]
    );
}

#[test]
fn label_helpers() {
    let label = vector_index_type_label(VectorIndexType::Unknown);
    assert_eq!((label.key, label.value), ("vector_index_type", "unknown"));
    let label = cluster_label("apne");
    assert_eq!((label.key, label.value), ("cluster", "apne"));
    let label = QdrantVectorIndexType::Plain.metric_label();
    assert_eq!((label.key, label.value), ("index_type", "plain"));
    let label = QdrantVectorIndexType::HNSW.metric_label();
    assert_eq!((label.key, label.value), ("index_type", "hnsw"));
}

#[test]
fn qdrant_disk_build_timer_is_labelled_with_the_index_type() {
    let ev = qdrant_segment_disk_build_timer(QdrantVectorIndexType::HNSW).finish(5);
    match &ev {
        MetricEvent::Observation { histogram, .. } => {
            assert_eq!(*histogram, "qdrant_segment_disk_build_seconds");
        }
        _ => panic!(),
    }
    assert_eq!(labels_of(&ev), vec![("status", "success"), ("index_type", "hnsw")]);
}

#[test]
fn compiled_query_with_no_filters() {
    let query = CompiledVectorSearch { filter_conditions: vec![], vector_len: 1536 };
    let events = log_compiled_query(&query);
    assert_eq!(events.len(), 2);
    match &events[0] {
        MetricEvent::Counter { name, value, labels } => {
            assert_eq!(*name, "vector_search_compile_total");
            assert_eq!(*value, 1);
            assert_eq!(labels.len(), 1);
            assert_eq!((labels[0].key, labels[0].value), ("filter_type", "none"));
        }
        _ => panic!(),
    }
    match &events[1] {
        MetricEvent::Distribution { name, sample } => {
            assert_eq!(*name, "vector_search_vector_length_total");
            assert_eq!(*sample, 1536);
        }
        _ => panic!(),
    }
}

#[test]
fn compiled_query_with_one_equality_filter() {
    let query = CompiledVectorSearch {
        filter_conditions: vec![CompiledVectorFilter::Equality],
        vector_len: 8,
    };
    let events = log_compiled_query(&query);
    assert_eq!(events.len(), 2);
    assert_eq!(labels_of(&events[0]), vec![("filter_type", "eq")]);
}

#[test]
fn compiled_query_with_one_in_filter_logs_its_term_count() {
    let query = CompiledVectorSearch {
        filter_conditions: vec![CompiledVectorFilter::In { term_count: 5 }],
        vector_len: 8,
    };
    let events = log_compiled_query(&query);
    assert_eq!(events.len(), 3);
    assert_eq!(labels_of(&events[0]), vec![("filter_type", "in")]);
    match &events[1] {
        MetricEvent::Distribution { name, sample } => {
            assert_eq!(*name, "vector_search_compile_filter_in_total");
            assert_eq!(*sample, 5);
        }
        _ => panic!(),
    }
    match &events[2] {
        MetricEvent::Distribution { name, sample } => {
            assert_eq!(*name, "vector_search_vector_length_total");
            assert_eq!(*sample, 8);
        }
        _ => panic!(),
    }
}

#[test]
fn compiled_query_with_several_filters_is_multifield() {
    let query = CompiledVectorSearch {
        filter_conditions: vec![
            CompiledVectorFilter::Equality,
            CompiledVectorFilter::In { term_count: 2 },
        ],
        vector_len: 4,
    };
    let events = log_compiled_query(&query);
    assert_eq!(events.len(), 2);
    assert_eq!(labels_of(&events[0]), vec![("filter_type", "multifield")]);
}

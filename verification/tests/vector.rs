use vectordb::index::vector::{
    IvfBuildParams, IvfPQIndexBuilder, MetricType, PQBuildParams, StageParams, VectorIndexBuilder,
    VectorIndexParams,
};

#[test]
fn test_builder_no_params() {
    let index_builder = IvfPQIndexBuilder::new();
    assert!(index_builder.get_column().is_none());
    assert!(index_builder.get_index_name().is_none());

    let index_params = index_builder.build();
    assert_eq!(index_params.stages.len(), 2);
    if let StageParams::Ivf(ivf_params) = index_params.stages.get(0).unwrap() {
        let default = IvfBuildParams::default();
        assert_eq!(ivf_params.num_partitions, default.num_partitions);
        assert_eq!(ivf_params.max_iters, default.max_iters);
    } else {
        panic!("Expected first stage to be ivf")
    }

    if let StageParams::PQ(pq_params) = index_params.stages.get(1).unwrap() {
        assert_eq!(pq_params.use_opq, false);
    } else {
        panic!("Expected second stage to be pq")
    }
}

#[test]
fn test_builder_all_params() {
    let mut index_builder = IvfPQIndexBuilder::new();

    index_builder
        .column("c".to_owned())
        .metric_type(MetricType::Cosine)
        .index_name("index".to_owned());

    assert_eq!(index_builder.column.clone().unwrap(), "c");
    assert_eq!(index_builder.metric_type.unwrap(), MetricType::Cosine);
    assert_eq!(index_builder.index_name.clone().unwrap(), "index");

    let ivf_params = IvfBuildParams::new(500);
    let mut pq_params = PQBuildParams::default();
    pq_params.use_opq = true;
    pq_params.max_iters = 1;
    pq_params.num_bits = 8;
    pq_params.num_sub_vectors = 50;
    pq_params.metric_type = MetricType::Cosine;
    pq_params.max_opq_iters = 2;
    index_builder.ivf_params(ivf_params);
    index_builder.pq_params(pq_params);

    let index_params = index_builder.build();
    assert_eq!(index_params.stages.len(), 2);
    if let StageParams::Ivf(ivf_params) = index_params.stages.get(0).unwrap() {
        assert_eq!(ivf_params.num_partitions, 500);
    } else {
        assert!(false, "Expected first stage to be ivf")
    }

    if let StageParams::PQ(pq_params) = index_params.stages.get(1).unwrap() {
        assert_eq!(pq_params.use_opq, true);
        assert_eq!(pq_params.max_iters, 1);
        assert_eq!(pq_params.num_bits, 8);
        assert_eq!(pq_params.num_sub_vectors, 50);
        assert_eq!(pq_params.metric_type, MetricType::Cosine);
        assert_eq!(pq_params.max_opq_iters, 2);
    } else {
        assert!(false, "Expected second stage to be pq")
    }
}

#[test]
fn test_getters_independent_of_build() {
    let mut builder = IvfPQIndexBuilder::new();
    builder.column("vec".to_owned());
    builder.index_name("my_idx".to_owned());
    builder.replace(false);

    let column_before = builder.get_column();
    let index_name_before = builder.get_index_name();
    let replace_before = builder.get_replace();

    let _ = builder.build();

    assert_eq!(builder.get_column(), column_before);
    assert_eq!(builder.get_index_name(), index_name_before);
    assert_eq!(builder.get_replace(), replace_before);
    assert_eq!(builder.get_column().unwrap(), "vec");
    assert_eq!(builder.get_index_name().unwrap(), "my_idx");
    assert_eq!(builder.get_replace(), false);
}

#[test]
fn test_build_idempotent() {
    let mut builder = IvfPQIndexBuilder::new();
    builder.ivf_params(IvfBuildParams::new(7));
    let mut pq_params = PQBuildParams::default();
    pq_params.metric_type = MetricType::Dot;
    builder.pq_params(pq_params);

    let first = builder.build();
    let second = builder.build();
    assert_eq!(first, second);

    let fresh = IvfPQIndexBuilder::new();
    assert_eq!(fresh.build(), fresh.build());
}

#[test]
fn test_replace_flag() {
    let mut builder = IvfPQIndexBuilder::new();
    assert_eq!(builder.get_replace(), true);
    builder.replace(false);
    assert_eq!(builder.get_replace(), false);
    builder.replace(true);
    assert_eq!(builder.get_replace(), true);
}

#[test]
fn test_ivf_params_last_write_wins() {
    let mut builder = IvfPQIndexBuilder::new();
    let first = IvfBuildParams { num_partitions: 11, max_iters: 3 };
    let last = IvfBuildParams { num_partitions: 99, max_iters: 4 };
    builder.ivf_params(first);
    builder.ivf_params(last);

    let index_params = builder.build();
    if let StageParams::Ivf(ivf_params) = index_params.stages.get(0).unwrap() {
        assert_eq!(*ivf_params, last);
        assert_eq!(ivf_params.num_partitions, 99);
        assert_eq!(ivf_params.max_iters, 4);
    } else {
        panic!("Expected first stage to be ivf")
    }
}

#[test]
fn test_default_records() {
    let ivf = IvfBuildParams::default();
    assert_eq!(ivf.num_partitions, 32);
    assert_eq!(ivf.max_iters, 50);

    let pq = PQBuildParams::default();
    assert_eq!(pq.num_sub_vectors, 16);
    assert_eq!(pq.num_bits, 8);
    assert_eq!(pq.metric_type, MetricType::L2);
    assert_eq!(pq.use_opq, false);
    assert_eq!(pq.max_iters, 50);
    assert_eq!(pq.max_opq_iters, 50);
}

#[test]
fn test_ivf_build_params_new() {
    let ivf = IvfBuildParams::new(256);
    assert_eq!(ivf.num_partitions, 256);
    assert_eq!(ivf.max_iters, IvfBuildParams::default().max_iters);
}

#[test]
fn test_with_ivf_pq_params() {
    let ivf = IvfBuildParams { num_partitions: 5, max_iters: 6 };
    let mut pq = PQBuildParams::default();
    pq.metric_type = MetricType::Dot;

    let params = VectorIndexParams::with_ivf_pq_params(MetricType::Cosine, ivf, pq);
    assert_eq!(params.metric_type, MetricType::Cosine);
    assert_eq!(params.stages.len(), 2);
    assert_eq!(params.stages[0], StageParams::Ivf(ivf));
    assert_eq!(params.stages[1], StageParams::PQ(pq));
}

#[test]
fn test_build_metric_type_comes_from_pq_params() {
    let mut builder = IvfPQIndexBuilder::new();
    builder.metric_type(MetricType::Cosine);

    let index_params = builder.build();
    assert_eq!(index_params.metric_type, MetricType::L2);

    let mut pq_params = PQBuildParams::default();
    pq_params.metric_type = MetricType::Dot;
    builder.pq_params(pq_params);
    let index_params = builder.build();
    assert_eq!(index_params.metric_type, MetricType::Dot);
}

#[test]
fn test_fresh_builder_fields_absent() {
    let builder = IvfPQIndexBuilder::new();
    assert!(builder.column.is_none());
    assert!(builder.index_name.is_none());
    assert!(builder.metric_type.is_none());
    assert!(builder.ivf_params.is_none());
    assert!(builder.pq_params.is_none());
    assert!(builder.replace);
}

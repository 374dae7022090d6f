//! Configuration assembly for a two-stage approximate-nearest-neighbor
//! vector index: an inverted-file (IVF) partitioning stage followed by a
//! product-quantization (PQ) compression stage.
//!
//! A caller fills an [`IvfPQIndexBuilder`] with the stage parameters it wants
//! to override, and [`VectorIndexBuilder::build`] resolves every field it
//! never touched to the stage defaults, returning an immutable two-stage
//! parameter pipeline for the index-construction engine to consume.

use vstd::prelude::*;

verus! {

/// The distance function used to compare vectors.
#[derive(Clone, Copy, Debug, PartialEq, Eq, Structural)]
pub enum MetricType {
    /// Euclidean (L2) distance.
    L2,
    /// Cosine similarity.
    Cosine,
    /// Dot product.
    Dot,
}

/// Partition count an IVF stage is trained with when the caller supplies none.
pub const IVF_DEFAULT_NUM_PARTITIONS: usize = 32;

/// Training iteration cap of the default IVF stage.
pub const IVF_DEFAULT_MAX_ITERS: usize = 50;

/// Configuration record for the inverted-file (IVF) partitioning stage.
#[derive(Clone, Copy, Debug, PartialEq, Eq, Structural)]
pub struct IvfBuildParams {
    /// Number of partitions (clusters) the vectors are bucketed into.
    pub num_partitions: usize,
    /// Cap on the number of training iterations.
    pub max_iters: usize,
}

impl IvfBuildParams {
    /// The record that an unset IVF stage resolves to.
    pub open spec fn spec_default() -> IvfBuildParams {
        IvfBuildParams { num_partitions: IVF_DEFAULT_NUM_PARTITIONS, max_iters: IVF_DEFAULT_MAX_ITERS }
    }

    /// A record with the given partition count and every other field at its
    /// default.
    pub fn new(num_partitions: usize) -> (r: IvfBuildParams)
        ensures
            r == (IvfBuildParams { num_partitions, ..IvfBuildParams::spec_default() }),
    {
        IvfBuildParams { num_partitions, max_iters: IVF_DEFAULT_MAX_ITERS }
    }
}

impl Default for IvfBuildParams {
    fn default() -> (r: IvfBuildParams)
        ensures
            r == IvfBuildParams::spec_default(),
    {
        IvfBuildParams { num_partitions: IVF_DEFAULT_NUM_PARTITIONS, max_iters: IVF_DEFAULT_MAX_ITERS }
    }
}

/// Sub-vector count of the default PQ stage.
pub const PQ_DEFAULT_NUM_SUB_VECTORS: usize = 16;

/// Bit width of the default PQ stage's codebook indices.
pub const PQ_DEFAULT_NUM_BITS: usize = 8;

/// Training iteration cap of the default PQ stage.
pub const PQ_DEFAULT_MAX_ITERS: usize = 50;

/// Optimized-PQ training iteration cap of the default PQ stage.
pub const PQ_DEFAULT_MAX_OPQ_ITERS: usize = 50;

/// Configuration record for the product-quantization (PQ) compression stage.
#[derive(Clone, Copy, Debug, PartialEq, Eq, Structural)]
pub struct PQBuildParams {
    /// Number of sub-vectors each vector is split into.
    pub num_sub_vectors: usize,
    /// Bit width of each codebook index.
    pub num_bits: usize,
    /// Distance function the stage is trained with; after resolution this is
    /// also the whole pipeline's metric type.
    pub metric_type: MetricType,
    /// Whether to train the optimized-PQ rotation.
    pub use_opq: bool,
    /// Cap on the number of codebook training iterations.
    pub max_iters: usize,
    /// Cap on the number of optimized-PQ rotation training iterations.
    pub max_opq_iters: usize,
}

impl PQBuildParams {
    /// The record that an unset PQ stage resolves to.
    pub open spec fn spec_default() -> PQBuildParams {
        PQBuildParams {
            num_sub_vectors: PQ_DEFAULT_NUM_SUB_VECTORS,
            num_bits: PQ_DEFAULT_NUM_BITS,
            metric_type: MetricType::L2,
            use_opq: false,
            max_iters: PQ_DEFAULT_MAX_ITERS,
            max_opq_iters: PQ_DEFAULT_MAX_OPQ_ITERS,
        }
    }
}

impl Default for PQBuildParams {
    fn default() -> (r: PQBuildParams)
        ensures
            r == PQBuildParams::spec_default(),
    {
        PQBuildParams {
            num_sub_vectors: PQ_DEFAULT_NUM_SUB_VECTORS,
            num_bits: PQ_DEFAULT_NUM_BITS,
            metric_type: MetricType::L2,
            use_opq: false,
            max_iters: PQ_DEFAULT_MAX_ITERS,
            max_opq_iters: PQ_DEFAULT_MAX_OPQ_ITERS,
        }
    }
}

/// One phase of the index-construction pipeline, tagged by kind and carrying
/// that stage's configuration record.
#[derive(Clone, Copy, Debug, PartialEq, Eq, Structural)]
pub enum StageParams {
    /// The inverted-file partitioning stage.
    Ivf(IvfBuildParams),
    /// The product-quantization compression stage.
    PQ(PQBuildParams),
}

/// The fully resolved, immutable parameter bundle returned by a build: the
/// ordered stage pipeline and the overall metric type.
#[derive(Clone, Debug, PartialEq, Eq)]
pub struct VectorIndexParams {
    /// The ordered stage descriptors; for an IVF/PQ index, exactly
    /// `[Ivf(..), PQ(..)]`.
    pub stages: Vec<StageParams>,
    /// The distance function of the whole index.
    pub metric_type: MetricType,
}

impl VectorIndexParams {
    /// A two-stage IVF then PQ pipeline with the given metric type.
    pub fn with_ivf_pq_params(
        metric_type: MetricType,
        ivf: IvfBuildParams,
        pq: PQBuildParams,
    ) -> (r: VectorIndexParams)
        ensures
            r.metric_type == metric_type,
            r.stages@ == seq![StageParams::Ivf(ivf), StageParams::PQ(pq)],
    {
        let mut stages: Vec<StageParams> = Vec::new();
        stages.push(StageParams::Ivf(ivf));
        stages.push(StageParams::PQ(pq));
        proof {
            assert(stages@ =~= seq![StageParams::Ivf(ivf), StageParams::PQ(pq)]);
        }
        VectorIndexParams { stages, metric_type }
    }
}

/// The capability contract every vector-index builder exposes: a target
/// column, a target index name, a replace-on-conflict flag, and a `build`
/// operation that resolves the stored overrides into an immutable pipeline.
///
/// Each implementer supplies spec-level accessors describing what its
/// getters return and what its build resolves to; the method contracts are
/// stated once here over those accessors, so every property proved from them
/// holds of any implementer.
pub trait VectorIndexBuilder {
    /// The target column currently stored, if any.
    spec fn spec_column(&self) -> Option<Seq<char>>;

    /// The index name currently stored, if any.
    spec fn spec_index_name(&self) -> Option<Seq<char>>;

    /// The replace-on-conflict flag currently stored.
    spec fn spec_replace(&self) -> bool;

    /// The ordered stage descriptors a build of this builder resolves to.
    spec fn spec_stages(&self) -> Seq<StageParams>;

    /// The overall metric type a build of this builder resolves to.
    spec fn spec_metric_type(&self) -> MetricType;

    /// Returns the currently set target column, or `None` if never set.
    fn get_column(&self) -> (r: Option<String>)
        ensures
            r.deep_view() == self.spec_column(),
    ;

    /// Returns the currently set index name, or `None` if never set.
    fn get_index_name(&self) -> (r: Option<String>)
        ensures
            r.deep_view() == self.spec_index_name(),
    ;

    /// Resolves all unset fields against the builder's defaults and returns
    /// the immutable pipeline. Takes `&self`, so it cannot mutate the
    /// builder and may be called any number of times.
    fn build(&self) -> (r: VectorIndexParams)
        ensures
            r.stages@ == self.spec_stages(),
            r.metric_type == self.spec_metric_type(),
    ;

    /// Returns the current replace-on-conflict flag.
    fn get_replace(&self) -> (r: bool)
        ensures
            r == self.spec_replace(),
    ;
}

/// The IVF/PQ index builder: optional overrides for the column, index name,
/// metric type and the two stage records, plus a replace flag that starts
/// out true. Defaults are applied only when [`VectorIndexBuilder::build`]
/// runs, never at construction, so an unset field stays observably unset.
pub struct IvfPQIndexBuilder {
    /// Name of the vector column to index; `None` until set.
    pub column: Option<String>,
    /// Caller-chosen index identifier; `None` until set.
    pub index_name: Option<String>,
    /// Stored metric type override; `None` until set. Carried for getters
    /// only: the resolved pipeline takes its metric type from the resolved
    /// PQ record instead, so this field never enters a build's result.
    pub metric_type: Option<MetricType>,
    /// IVF stage override; `None` until set.
    pub ivf_params: Option<IvfBuildParams>,
    /// PQ stage override; `None` until set.
    pub pq_params: Option<PQBuildParams>,
    /// Whether building may overwrite an existing index of the same name.
    pub replace: bool,
}

impl IvfPQIndexBuilder {
    /// A builder with every override absent and `replace` set to true.
    pub fn new() -> (r: IvfPQIndexBuilder)
        ensures
            r.column is None,
            r.index_name is None,
            r.metric_type is None,
            r.ivf_params is None,
            r.pq_params is None,
            r.replace == true,
    {
        IvfPQIndexBuilder {
            column: None,
            index_name: None,
            metric_type: None,
            ivf_params: None,
            pq_params: None,
            replace: true,
        }
    }

    /// The IVF record a build resolves to: the stored override if there is
    /// one, else the stage default.
    pub open spec fn resolved_ivf(&self) -> IvfBuildParams {
        match self.ivf_params {
            Some(p) => p,
            None => IvfBuildParams::spec_default(),
        }
    }

    /// The PQ record a build resolves to: the stored override if there is
    /// one, else the stage default.
    pub open spec fn resolved_pq(&self) -> PQBuildParams {
        match self.pq_params {
            Some(p) => p,
            None => PQBuildParams::spec_default(),
        }
    }
}

/// `post` is `pre` with the column set to `column` and every other field
/// unchanged.
pub open spec fn sets_column(pre: IvfPQIndexBuilder, column: String, post: IvfPQIndexBuilder) -> bool {
    post == (IvfPQIndexBuilder { column: Some(column), ..pre })
}

/// `post` is `pre` with the index name set to `index_name` and every other
/// field unchanged.
pub open spec fn sets_index_name(pre: IvfPQIndexBuilder, index_name: String, post: IvfPQIndexBuilder) -> bool {
    post == (IvfPQIndexBuilder { index_name: Some(index_name), ..pre })
}

/// `post` is `pre` with the metric type set to `metric_type` and every other
/// field unchanged.
pub open spec fn sets_metric_type(pre: IvfPQIndexBuilder, metric_type: MetricType, post: IvfPQIndexBuilder) -> bool {
    post == (IvfPQIndexBuilder { metric_type: Some(metric_type), ..pre })
}

/// `post` is `pre` with the whole IVF record replaced by `ivf_params` and
/// every other field unchanged: no field-by-field merging with an earlier
/// record ever happens.
pub open spec fn sets_ivf_params(pre: IvfPQIndexBuilder, ivf_params: IvfBuildParams, post: IvfPQIndexBuilder) -> bool {
    post == (IvfPQIndexBuilder { ivf_params: Some(ivf_params), ..pre })
}

/// `post` is `pre` with the whole PQ record replaced by `pq_params` and
/// every other field unchanged.
pub open spec fn sets_pq_params(pre: IvfPQIndexBuilder, pq_params: PQBuildParams, post: IvfPQIndexBuilder) -> bool {
    post == (IvfPQIndexBuilder { pq_params: Some(pq_params), ..pre })
}

/// `post` is `pre` with the replace flag set to `replace` and every other
/// field unchanged.
pub open spec fn sets_replace(pre: IvfPQIndexBuilder, replace: bool, post: IvfPQIndexBuilder) -> bool {
    post == (IvfPQIndexBuilder { replace, ..pre })
}

impl IvfPQIndexBuilder {
    /// Sets the target column, overwriting any prior value, and returns the
    /// builder for chaining.
    pub fn column(&mut self, column: String) -> (ret: &mut IvfPQIndexBuilder)
        ensures
            sets_column(*old(self), column, *ret),
            *final(self) == *final(ret),
    {
        self.column = Some(column);
        self
    }

    /// Sets the index name, overwriting any prior value, and returns the
    /// builder for chaining.
    pub fn index_name(&mut self, index_name: String) -> (ret: &mut IvfPQIndexBuilder)
        ensures
            sets_index_name(*old(self), index_name, *ret),
            *final(self) == *final(ret),
    {
        self.index_name = Some(index_name);
        self
    }

    /// Stores a metric type, overwriting any prior value, and returns the
    /// builder for chaining. The stored value is readable back from the
    /// field but does not enter the resolved pipeline, whose metric type
    /// comes from the resolved PQ record alone.
    pub fn metric_type(&mut self, metric_type: MetricType) -> (ret: &mut IvfPQIndexBuilder)
        ensures
            sets_metric_type(*old(self), metric_type, *ret),
            *final(self) == *final(ret),
    {
        self.metric_type = Some(metric_type);
        self
    }

    /// Replaces the entire IVF record (last write wins, no merging) and
    /// returns the builder for chaining.
    pub fn ivf_params(&mut self, ivf_params: IvfBuildParams) -> (ret: &mut IvfPQIndexBuilder)
        ensures
            sets_ivf_params(*old(self), ivf_params, *ret),
            *final(self) == *final(ret),
    {
        self.ivf_params = Some(ivf_params);
        self
    }

    /// Replaces the entire PQ record (last write wins, no merging) and
    /// returns the builder for chaining.
    pub fn pq_params(&mut self, pq_params: PQBuildParams) -> (ret: &mut IvfPQIndexBuilder)
        ensures
            sets_pq_params(*old(self), pq_params, *ret),
            *final(self) == *final(ret),
    {
        self.pq_params = Some(pq_params);
        self
    }

    /// Sets the replace flag and returns the builder for chaining.
    pub fn replace(&mut self, replace: bool) -> (ret: &mut IvfPQIndexBuilder)
        ensures
            sets_replace(*old(self), replace, *ret),
            *final(self) == *final(ret),
    {
        self.replace = replace;
        self
    }
}

impl VectorIndexBuilder for IvfPQIndexBuilder {
    open spec fn spec_column(&self) -> Option<Seq<char>> {
        self.column.deep_view()
    }

    open spec fn spec_index_name(&self) -> Option<Seq<char>> {
        self.index_name.deep_view()
    }

    open spec fn spec_replace(&self) -> bool {
        self.replace
    }

    open spec fn spec_stages(&self) -> Seq<StageParams> {
        seq![StageParams::Ivf(self.resolved_ivf()), StageParams::PQ(self.resolved_pq())]
    }

    open spec fn spec_metric_type(&self) -> MetricType {
        self.resolved_pq().metric_type
    }

    fn get_column(&self) -> (r: Option<String>) {
        match &self.column {
            Some(s) => Some(s.clone()),
            None => None,
        }
    }

    fn get_index_name(&self) -> (r: Option<String>) {
        match &self.index_name {
            Some(s) => Some(s.clone()),
            None => None,
        }
    }

    fn build(&self) -> (r: VectorIndexParams) {
        let ivf_params = match self.ivf_params {
            Some(p) => p,
            None => IvfBuildParams::default(),
        };
        let pq_params = match self.pq_params {
            Some(p) => p,
            None => PQBuildParams::default(),
        };

        VectorIndexParams::with_ivf_pq_params(pq_params.metric_type, ivf_params, pq_params)
    }

    fn get_replace(&self) -> (r: bool) {
        self.replace
    }
}

/// Law: building is idempotent. `build` reads the builder and nothing else,
/// so any two results of building the same unchanged builder — here
/// constrained exactly by `build`'s postcondition — are structurally equal.
/// This holds for every implementer of [`VectorIndexBuilder`].
pub proof fn lemma_build_idempotent<B: VectorIndexBuilder>(
    b: &B,
    r1: VectorIndexParams,
    r2: VectorIndexParams,
)
    requires
        r1.stages@ == b.spec_stages(),
        r1.metric_type == b.spec_metric_type(),
        r2.stages@ == b.spec_stages(),
        r2.metric_type == b.spec_metric_type(),
    ensures
        r1.stages@ == r2.stages@,
        r1.metric_type == r2.metric_type,
{
}

/// Law: getter independence. Each getter's result is a function of the
/// builder's stored fields alone, and `build` borrows the builder immutably
/// and so cannot change them; hence a build between two getter calls — each
/// result constrained exactly by its getter's postcondition — cannot change
/// what the getters return. This holds for every implementer of
/// [`VectorIndexBuilder`].
pub proof fn lemma_getters_independent_of_build<B: VectorIndexBuilder>(
    b: &B,
    column_before: Option<String>,
    column_after: Option<String>,
    index_name_before: Option<String>,
    index_name_after: Option<String>,
    replace_before: bool,
    replace_after: bool,
)
    requires
        column_before.deep_view() == b.spec_column(),
        column_after.deep_view() == b.spec_column(),
        index_name_before.deep_view() == b.spec_index_name(),
        index_name_after.deep_view() == b.spec_index_name(),
        replace_before == b.spec_replace(),
        replace_after == b.spec_replace(),
    ensures
        column_before.deep_view() == column_after.deep_view(),
        index_name_before.deep_view() == index_name_after.deep_view(),
        replace_before == replace_after,
{
}

/// Law: default resolution. A builder that holds no stage overrides builds
/// exactly two stages, the IVF default record followed by the PQ default
/// record, and the pipeline's metric type is the PQ default's.
pub proof fn lemma_default_resolution(b: IvfPQIndexBuilder, r: VectorIndexParams)
    requires
        b.ivf_params is None,
        b.pq_params is None,
        r.stages@ == b.spec_stages(),
        r.metric_type == b.spec_metric_type(),
    ensures
        r.stages@ == seq![
            StageParams::Ivf(IvfBuildParams::spec_default()),
            StageParams::PQ(PQBuildParams::spec_default()),
        ],
        r.metric_type == PQBuildParams::spec_default().metric_type,
{
}

/// Law: override propagation. Whatever stage records the builder holds when
/// it is built land in the pipeline whole, field for field — stage one the
/// IVF record, stage two the PQ record — and the pipeline's metric type is
/// the supplied PQ record's.
pub proof fn lemma_override_propagation(
    b: IvfPQIndexBuilder,
    ivf: IvfBuildParams,
    pq: PQBuildParams,
    r: VectorIndexParams,
)
    requires
        b.ivf_params == Some(ivf),
        b.pq_params == Some(pq),
        r.stages@ == b.spec_stages(),
        r.metric_type == b.spec_metric_type(),
    ensures
        r.stages@ == seq![StageParams::Ivf(ivf), StageParams::PQ(pq)],
        r.metric_type == pq.metric_type,
{
}

/// Law: last write wins. Setting the IVF record twice in a row leaves only
/// the second record in the builder, and a build then carries that record —
/// never a merge of the two — as its first stage. `b1` and `b2` are the
/// builder after the first and second setter call, constrained exactly by
/// the setter's postcondition, and `r` is a build of `b2`.
pub proof fn lemma_ivf_params_last_write_wins(
    b0: IvfPQIndexBuilder,
    b1: IvfPQIndexBuilder,
    b2: IvfPQIndexBuilder,
    first: IvfBuildParams,
    last: IvfBuildParams,
    r: VectorIndexParams,
)
    requires
        sets_ivf_params(b0, first, b1),
        sets_ivf_params(b1, last, b2),
        r.stages@ == b2.spec_stages(),
    ensures
        b2.ivf_params == Some(last),
        r.stages@.len() == 2,
        r.stages@[0] == StageParams::Ivf(last),
{
}

} // verus!

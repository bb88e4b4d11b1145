//! Payload types for Gnosis: the built payload, the outcome of a build
//! attempt, and the conversions of a built payload into the engine-API
//! envelopes.
//!
//! The sealed block is carried as an opaque `B`; the engine-API execution
//! payload that is derived from it is carried as an opaque `E`, produced from
//! the block by the caller and handed to the conversions.

use vstd::prelude::*;
use crate::u256::U256;

verus! {

/// An eight-byte payload identifier.
#[derive(Clone, Copy, Debug, PartialEq, Eq)]
pub struct PayloadId(pub [u8; 8]);

impl PayloadId {
    /// The all-zero identifier (the default one).
    pub fn zero() -> (r: PayloadId)
        ensures
            forall|i: int| 0 <= i < 8 ==> r.0[i] == 0,
    {
        PayloadId([0, 0, 0, 0, 0, 0, 0, 0])
    }
}

/// A 48-byte KZG commitment or proof.
pub type Bytes48 = [u8; 48];

/// A blob of an EIP-4844 transaction.
pub type Blob = Vec<u8>;

/// The sidecar of an EIP-4844 blob transaction: blobs, their commitments
/// and one proof per blob.
#[derive(Debug)]
pub struct BlobTransactionSidecar {
    pub blobs: Vec<Blob>,
    pub commitments: Vec<Bytes48>,
    pub proofs: Vec<Bytes48>,
}

/// The sidecar of an EIP-7594 blob transaction: blobs, their commitments
/// and the cell proofs.
#[derive(Debug)]
pub struct BlobTransactionSidecarEip7594 {
    pub blobs: Vec<Blob>,
    pub commitments: Vec<Bytes48>,
    pub cell_proofs: Vec<Bytes48>,
}

/// The blob sidecars that a built payload carries.
#[derive(Debug)]
pub enum BlobSidecars {
    /// No sidecars.
    Empty,
    /// Sidecars in the EIP-4844 format.
    Eip4844(Vec<BlobTransactionSidecar>),
    /// Sidecars in the EIP-7594 format.
    Eip7594(Vec<BlobTransactionSidecarEip7594>),
}

/// EIP-7685 execution-layer requests, each an opaque byte string.
#[derive(Debug)]
pub struct Requests(pub Vec<Vec<u8>>);

impl Requests {
    /// No requests (the default).
    pub fn empty() -> (r: Requests)
        ensures
            r.0@.len() == 0,
    {
        Requests(Vec::new())
    }
}

/// A built payload as the upstream Ethereum builder produces it: its
/// identifier, the sealed block, the fees it pays, its blob sidecars and
/// its execution requests.
#[derive(Debug)]
pub struct EthBuiltPayload<B> {
    id: PayloadId,
    block: B,
    fees: U256,
    sidecars: BlobSidecars,
    requests: Option<Requests>,
}

impl<B> EthBuiltPayload<B> {
    pub closed spec fn id_view(&self) -> PayloadId {
        self.id
    }

    pub closed spec fn block_view(&self) -> B {
        self.block
    }

    pub closed spec fn fees_view(&self) -> U256 {
        self.fees
    }

    pub closed spec fn sidecars_view(&self) -> BlobSidecars {
        self.sidecars
    }

    pub closed spec fn requests_view(&self) -> Option<Requests> {
        self.requests
    }

    /// A payload without blob sidecars.
    pub fn new(id: PayloadId, block: B, fees: U256, requests: Option<Requests>) -> (r: Self)
        ensures
            r.id_view() == id,
            r.block_view() == block,
            r.fees_view() == fees,
            r.sidecars_view() == BlobSidecars::Empty,
            r.requests_view() == requests,
    {
        EthBuiltPayload { id, block, fees, sidecars: BlobSidecars::Empty, requests }
    }

    /// The payload's identifier.
    pub fn id(&self) -> (r: PayloadId)
        ensures
            r == self.id_view(),
    {
        self.id
    }

    /// The sealed block.
    pub fn block(&self) -> (r: &B)
        ensures
            *r == self.block_view(),
    {
        &self.block
    }

    /// The fees the block pays to its beneficiary.
    pub fn fees(&self) -> (r: U256)
        ensures
            r == self.fees_view(),
    {
        self.fees
    }

    /// The blob sidecars.
    pub fn sidecars(&self) -> (r: &BlobSidecars)
        ensures
            *r == self.sidecars_view(),
    {
        &self.sidecars
    }

    /// The same payload with its sidecars replaced.
    pub fn with_sidecars(self, sidecars: BlobSidecars) -> (r: Self)
        ensures
            r.id_view() == self.id_view(),
            r.block_view() == self.block_view(),
            r.fees_view() == self.fees_view(),
            r.sidecars_view() == sidecars,
            r.requests_view() == self.requests_view(),
    {
        EthBuiltPayload { sidecars, ..self }
    }

    /// Takes the payload apart: block, fees, sidecars, requests.
    pub fn into_parts(self) -> (r: (B, U256, BlobSidecars, Option<Requests>))
        ensures
            r.0 == self.block_view(),
            r.1 == self.fees_view(),
            r.2 == self.sidecars_view(),
            r.3 == self.requests_view(),
    {
        (self.block, self.fees, self.sidecars, self.requests)
    }
}

/// A built Gnosis payload: the upstream built payload, carried as is.
#[derive(Debug)]
pub struct GnosisBuiltPayload<B>(pub EthBuiltPayload<B>);

impl<B> GnosisBuiltPayload<B> {
    /// A payload without blob sidecars.
    pub fn new(id: PayloadId, block: B, fees: U256, requests: Option<Requests>) -> (r: Self)
        ensures
            r.0.id_view() == id,
            r.0.block_view() == block,
            r.0.fees_view() == fees,
            r.0.sidecars_view() == BlobSidecars::Empty,
            r.0.requests_view() == requests,
    {
        GnosisBuiltPayload(EthBuiltPayload::new(id, block, fees, requests))
    }

    /// The payload's identifier.
    pub fn id(&self) -> (r: PayloadId)
        ensures
            r == self.0.id_view(),
    {
        self.0.id()
    }

    /// The sealed block.
    pub fn block(&self) -> (r: &B)
        ensures
            *r == self.0.block_view(),
    {
        self.0.block()
    }

    /// The blob sidecars.
    pub fn sidecars(&self) -> (r: &BlobSidecars)
        ensures
            *r == self.0.sidecars_view(),
    {
        self.0.sidecars()
    }

    /// The same payload with its sidecars replaced.
    pub fn with_sidecars(self, sidecars: BlobSidecars) -> (r: Self)
        ensures
            r.0.id_view() == self.0.id_view(),
            r.0.block_view() == self.0.block_view(),
            r.0.fees_view() == self.0.fees_view(),
            r.0.sidecars_view() == sidecars,
            r.0.requests_view() == self.0.requests_view(),
    {
        GnosisBuiltPayload(self.0.with_sidecars(sidecars))
    }

    /// The fees the block pays to its beneficiary.
    pub fn fees(&self) -> (r: U256)
        ensures
            r == self.0.fees_view(),
    {
        self.0.fees()
    }

    /// The execution requests.
    pub fn requests(&self) -> (r: &Option<Requests>)
        ensures
            *r == self.0.requests_view(),
    {
        &self.0.requests
    }
}

impl<B: Default> Default for GnosisBuiltPayload<B> {
    /// The zero identifier, the default block, no fees, no sidecars, no
    /// requests.
    fn default() -> (r: Self)
        ensures
            forall|i: int| 0 <= i < 8 ==> r.0.id_view().0[i] == 0,
            call_ensures(B::default, (), r.0.block_view()),
            r.0.fees_view().value() == 0,
            r.0.sidecars_view() == BlobSidecars::Empty,
            r.0.requests_view() == None::<Requests>,
    {
        GnosisBuiltPayload(EthBuiltPayload::new(PayloadId::zero(), B::default(), U256::zero(), None))
    }
}

/// The outcome of one attempt to build a payload.
#[derive(Debug)]
pub enum BuildOutcome<P, R> {
    /// A payload better than the best one so far was built.
    Better { payload: P, cached_reads: R },
    /// The attempt was aborted: the payload would not have paid more fees.
    Aborted { fees: U256, cached_reads: R },
    /// The attempt was cancelled.
    Cancelled,
    /// The payload is final: no further attempts are needed.
    Freeze(P),
}

/// The outcome with each upstream payload wrapped as a Gnosis payload.
pub open spec fn wrapped_outcome<B, R>(
    outcome: BuildOutcome<EthBuiltPayload<B>, R>,
) -> BuildOutcome<GnosisBuiltPayload<B>, R> {
    match outcome {
        BuildOutcome::Better { payload, cached_reads } => BuildOutcome::Better {
            payload: GnosisBuiltPayload(payload),
            cached_reads,
        },
        BuildOutcome::Aborted { fees, cached_reads } => BuildOutcome::Aborted { fees, cached_reads },
        BuildOutcome::Cancelled => BuildOutcome::Cancelled,
        BuildOutcome::Freeze(payload) => BuildOutcome::Freeze(GnosisBuiltPayload(payload)),
    }
}

/// Turns the outcome of the upstream builder into the outcome of the Gnosis
/// builder: the same variant, each payload wrapped, everything else kept.
pub fn map_outcome<B, R>(outcome: BuildOutcome<EthBuiltPayload<B>, R>) -> (r: BuildOutcome<GnosisBuiltPayload<B>, R>)
    ensures
        r == wrapped_outcome(outcome),
        (outcome matches BuildOutcome::Better { payload, cached_reads } ==> (r == (BuildOutcome::<GnosisBuiltPayload<B>, R>::Better {
            payload: GnosisBuiltPayload(payload),
            cached_reads,
        }))),
        (outcome matches BuildOutcome::Aborted { fees, cached_reads } ==> (r == (BuildOutcome::<GnosisBuiltPayload<B>, R>::Aborted {
            fees,
            cached_reads,
        }))),
        (outcome is Cancelled) ==> (r is Cancelled),
        (outcome matches BuildOutcome::Freeze(payload) ==> (r == BuildOutcome::<GnosisBuiltPayload<B>, R>::Freeze(GnosisBuiltPayload(payload)))),
{
    match outcome {
        BuildOutcome::Better { payload, cached_reads } => BuildOutcome::Better {
            payload: GnosisBuiltPayload(payload),
            cached_reads,
        },
        BuildOutcome::Aborted { fees, cached_reads } => BuildOutcome::Aborted { fees, cached_reads },
        BuildOutcome::Cancelled => BuildOutcome::Cancelled,
        BuildOutcome::Freeze(payload) => BuildOutcome::Freeze(GnosisBuiltPayload(payload)),
    }
}

// === Blob bundles ===

/// The commitments of a list of EIP-4844 sidecars, one after the other.
pub open spec fn sidecar_commitments(s: Seq<BlobTransactionSidecar>) -> Seq<Bytes48> {
    s.map_values(|x: BlobTransactionSidecar| x.commitments@).flatten()
}

/// The proofs of a list of EIP-4844 sidecars, one after the other.
pub open spec fn sidecar_proofs(s: Seq<BlobTransactionSidecar>) -> Seq<Bytes48> {
    s.map_values(|x: BlobTransactionSidecar| x.proofs@).flatten()
}

/// The blobs of a list of EIP-4844 sidecars, one after the other.
pub open spec fn sidecar_blobs(s: Seq<BlobTransactionSidecar>) -> Seq<Blob> {
    s.map_values(|x: BlobTransactionSidecar| x.blobs@).flatten()
}

/// The commitments of a list of EIP-7594 sidecars, one after the other.
pub open spec fn cell_sidecar_commitments(s: Seq<BlobTransactionSidecarEip7594>) -> Seq<Bytes48> {
    s.map_values(|x: BlobTransactionSidecarEip7594| x.commitments@).flatten()
}

/// The cell proofs of a list of EIP-7594 sidecars, one after the other.
pub open spec fn cell_sidecar_proofs(s: Seq<BlobTransactionSidecarEip7594>) -> Seq<Bytes48> {
    s.map_values(|x: BlobTransactionSidecarEip7594| x.cell_proofs@).flatten()
}

/// The blobs of a list of EIP-7594 sidecars, one after the other.
pub open spec fn cell_sidecar_blobs(s: Seq<BlobTransactionSidecarEip7594>) -> Seq<Blob> {
    s.map_values(|x: BlobTransactionSidecarEip7594| x.blobs@).flatten()
}

/// The commitments, proofs and blobs of an EIP-4844 sidecar.
fn split_sidecar(x: BlobTransactionSidecar) -> (r: (Vec<Bytes48>, Vec<Bytes48>, Vec<Blob>))
    ensures
        r.0@ == x.commitments@,
        r.1@ == x.proofs@,
        r.2@ == x.blobs@,
{
    (x.commitments, x.proofs, x.blobs)
}

/// The commitments, cell proofs and blobs of an EIP-7594 sidecar.
fn split_cell_sidecar(x: BlobTransactionSidecarEip7594) -> (r: (Vec<Bytes48>, Vec<Bytes48>, Vec<Blob>))
    ensures
        r.0@ == x.commitments@,
        r.1@ == x.cell_proofs@,
        r.2@ == x.blobs@,
{
    (x.commitments, x.cell_proofs, x.blobs)
}

/// Splits each item into three lists and concatenates the lists of each
/// kind, in the order of the items.
fn gather_parts<S, A, B, C, F: Fn(S) -> (Vec<A>, Vec<B>, Vec<C>)>(
    items: Vec<S>,
    split: F,
    Ghost(fa): Ghost<spec_fn(S) -> Seq<A>>,
    Ghost(fb): Ghost<spec_fn(S) -> Seq<B>>,
    Ghost(fc): Ghost<spec_fn(S) -> Seq<C>>,
) -> (r: (Vec<A>, Vec<B>, Vec<C>))
    requires
        forall|x: S| split.requires((x,)),
        forall|x: S, p: (Vec<A>, Vec<B>, Vec<C>)|
            split.ensures((x,), p) ==> p.0@ == fa(x) && p.1@ == fb(x) && p.2@ == fc(x),
    ensures
        r.0@ == items@.map_values(fa).flatten(),
        r.1@ == items@.map_values(fb).flatten(),
        r.2@ == items@.map_values(fc).flatten(),
{
    let ghost all = items@;
    let n = items.len();
    let mut rest = items;
    let mut xs: Vec<A> = Vec::new();
    let mut ys: Vec<B> = Vec::new();
    let mut zs: Vec<C> = Vec::new();
    let mut k: usize = 0;
    assert(all.take(0) =~= Seq::<S>::empty());
    while rest.len() > 0
        invariant
            forall|x: S| split.requires((x,)),
            forall|x: S, p: (Vec<A>, Vec<B>, Vec<C>)|
                split.ensures((x,), p) ==> p.0@ == fa(x) && p.1@ == fb(x) && p.2@ == fc(x),
            k <= all.len(),
            all.len() == n,
            rest@ == all.skip(k as int),
            xs@ == all.take(k as int).map_values(fa).flatten(),
            ys@ == all.take(k as int).map_values(fb).flatten(),
            zs@ == all.take(k as int).map_values(fc).flatten(),
        decreases rest.len(),
    {
        let item = rest.remove(0);
        let ghost prefix = all.take(k as int);
        proof {
            assert(all.take(k + 1) =~= prefix.push(all[k as int]));
            assert(item == all[k as int]);
            assert(prefix.push(item).map_values(fa) =~= prefix.map_values(fa).push(fa(item)));
            assert(prefix.push(item).map_values(fb) =~= prefix.map_values(fb).push(fb(item)));
            assert(prefix.push(item).map_values(fc) =~= prefix.map_values(fc).push(fc(item)));
            prefix.map_values(fa).lemma_flatten_push(fa(item));
            prefix.map_values(fb).lemma_flatten_push(fb(item));
            prefix.map_values(fc).lemma_flatten_push(fc(item));
        }
        let (mut a, mut b, mut c) = split(item);
        xs.append(&mut a);
        ys.append(&mut b);
        zs.append(&mut c);
        k = k + 1;
        proof {
            assert(rest@ =~= all.skip(k as int));
        }
    }
    assert(all.take(k as int) =~= all);
    (xs, ys, zs)
}

/// The blobs bundle of an engine-API V3/V4 envelope.
#[derive(Debug)]
pub struct BlobsBundleV1 {
    pub commitments: Vec<Bytes48>,
    pub proofs: Vec<Bytes48>,
    pub blobs: Vec<Blob>,
}

impl BlobsBundleV1 {
    /// A bundle without blobs.
    pub fn empty() -> (r: BlobsBundleV1)
        ensures
            r.commitments@.len() == 0,
            r.proofs@.len() == 0,
            r.blobs@.len() == 0,
    {
        BlobsBundleV1 { commitments: Vec::new(), proofs: Vec::new(), blobs: Vec::new() }
    }

    /// Gathers the commitments, proofs and blobs of the sidecars, in order.
    pub fn from_sidecars(sidecars: Vec<BlobTransactionSidecar>) -> (r: BlobsBundleV1)
        ensures
            r.commitments@ == sidecar_commitments(sidecars@),
            r.proofs@ == sidecar_proofs(sidecars@),
            r.blobs@ == sidecar_blobs(sidecars@),
    {
        let (commitments, proofs, blobs) = gather_parts(
            sidecars,
            split_sidecar,
            Ghost(|x: BlobTransactionSidecar| x.commitments@),
            Ghost(|x: BlobTransactionSidecar| x.proofs@),
            Ghost(|x: BlobTransactionSidecar| x.blobs@),
        );
        BlobsBundleV1 { commitments, proofs, blobs }
    }
}

/// The blobs bundle of an engine-API V5 envelope.
#[derive(Debug)]
pub struct BlobsBundleV2 {
    pub commitments: Vec<Bytes48>,
    pub proofs: Vec<Bytes48>,
    pub blobs: Vec<Blob>,
}

impl BlobsBundleV2 {
    /// A bundle without blobs.
    pub fn empty() -> (r: BlobsBundleV2)
        ensures
            r.commitments@.len() == 0,
            r.proofs@.len() == 0,
            r.blobs@.len() == 0,
    {
        BlobsBundleV2 { commitments: Vec::new(), proofs: Vec::new(), blobs: Vec::new() }
    }

    /// Gathers the commitments, cell proofs and blobs of the sidecars, in order.
    pub fn from_sidecars(sidecars: Vec<BlobTransactionSidecarEip7594>) -> (r: BlobsBundleV2)
        ensures
            r.commitments@ == cell_sidecar_commitments(sidecars@),
            r.proofs@ == cell_sidecar_proofs(sidecars@),
            r.blobs@ == cell_sidecar_blobs(sidecars@),
    {
        let (commitments, proofs, blobs) = gather_parts(
            sidecars,
            split_cell_sidecar,
            Ghost(|x: BlobTransactionSidecarEip7594| x.commitments@),
            Ghost(|x: BlobTransactionSidecarEip7594| x.cell_proofs@),
            Ghost(|x: BlobTransactionSidecarEip7594| x.blobs@),
        );
        BlobsBundleV2 { commitments, proofs, blobs }
    }
}

// === Engine-API envelope conversions ===

/// Why a built payload cannot become a given envelope.
#[derive(Debug, Clone, Copy, PartialEq, Eq, Structural)]
pub enum BuiltPayloadConversionError {
    /// EIP-4844 sidecars where the envelope holds EIP-7594 ones.
    UnexpectedEip4844Sidecars,
    /// EIP-7594 sidecars where the envelope holds EIP-4844 ones.
    UnexpectedEip7594Sidecars,
}

/// The engine-API V2 envelope.
#[derive(Debug)]
pub struct ExecutionPayloadEnvelopeV2<E> {
    pub execution_payload: E,
    pub block_value: U256,
}

/// The engine-API V3 envelope.
#[derive(Debug)]
pub struct ExecutionPayloadEnvelopeV3<E> {
    pub execution_payload: E,
    pub block_value: U256,
    pub should_override_builder: bool,
    pub blobs_bundle: BlobsBundleV1,
}

/// The engine-API V4 envelope: a V3 envelope and the execution requests.
#[derive(Debug)]
pub struct ExecutionPayloadEnvelopeV4<E> {
    pub envelope_inner: ExecutionPayloadEnvelopeV3<E>,
    pub execution_requests: Requests,
}

/// The engine-API V5 envelope.
#[derive(Debug)]
pub struct ExecutionPayloadEnvelopeV5<E> {
    pub execution_payload: E,
    pub block_value: U256,
    pub should_override_builder: bool,
    pub blobs_bundle: BlobsBundleV2,
    pub execution_requests: Requests,
}

/// The V1 bundle holds exactly the blobs of the sidecars: none for no
/// sidecars, those of the EIP-4844 sidecars in order.
pub open spec fn bundle_v1_of(bundle: BlobsBundleV1, sidecars: BlobSidecars) -> bool {
    match sidecars {
        BlobSidecars::Eip4844(v) => {
            &&& bundle.commitments@ == sidecar_commitments(v@)
            &&& bundle.proofs@ == sidecar_proofs(v@)
            &&& bundle.blobs@ == sidecar_blobs(v@)
        },
        _ => {
            &&& bundle.commitments@.len() == 0
            &&& bundle.proofs@.len() == 0
            &&& bundle.blobs@.len() == 0
        },
    }
}

/// The V2 bundle holds exactly the blobs of the sidecars: none for no
/// sidecars, those of the EIP-7594 sidecars in order.
pub open spec fn bundle_v2_of(bundle: BlobsBundleV2, sidecars: BlobSidecars) -> bool {
    match sidecars {
        BlobSidecars::Eip7594(v) => {
            &&& bundle.commitments@ == cell_sidecar_commitments(v@)
            &&& bundle.proofs@ == cell_sidecar_proofs(v@)
            &&& bundle.blobs@ == cell_sidecar_blobs(v@)
        },
        _ => {
            &&& bundle.commitments@.len() == 0
            &&& bundle.proofs@.len() == 0
            &&& bundle.blobs@.len() == 0
        },
    }
}

/// The requests an envelope carries: those of the payload, or none.
pub open spec fn requests_of(envelope_requests: Requests, requests: Option<Requests>) -> bool {
    match requests {
        Some(q) => envelope_requests == q,
        None => envelope_requests.0@.len() == 0,
    }
}

/// The error of a conversion into an envelope with EIP-4844 bundles (V3, V4),
/// if any.
pub open spec fn v3_error(sidecars: BlobSidecars) -> Option<BuiltPayloadConversionError> {
    match sidecars {
        BlobSidecars::Eip7594(_) => Some(BuiltPayloadConversionError::UnexpectedEip7594Sidecars),
        _ => None,
    }
}

/// The error of a conversion into an envelope with EIP-7594 bundles (V5),
/// if any.
pub open spec fn v5_error(sidecars: BlobSidecars) -> Option<BuiltPayloadConversionError> {
    match sidecars {
        BlobSidecars::Eip4844(_) => Some(BuiltPayloadConversionError::UnexpectedEip4844Sidecars),
        _ => None,
    }
}

/// The V3 envelope of a payload whose sidecars allow it.
pub open spec fn is_v3_envelope_of<B, E>(
    env: ExecutionPayloadEnvelopeV3<E>,
    value: GnosisBuiltPayload<B>,
    execution_payload: E,
) -> bool {
    &&& env.execution_payload == execution_payload
    &&& env.block_value == value.0.fees_view()
    &&& !env.should_override_builder
    &&& bundle_v1_of(env.blobs_bundle, value.0.sidecars_view())
}

/// The V2 envelope of a payload: its execution payload and its fees.
pub fn envelope_v2<B, E>(value: GnosisBuiltPayload<B>, execution_payload: E) -> (r: ExecutionPayloadEnvelopeV2<E>)
    ensures
        r.execution_payload == execution_payload,
        r.block_value == value.0.fees_view(),
{
    ExecutionPayloadEnvelopeV2 { execution_payload, block_value: value.fees() }
}

/// The V3 envelope of a payload: its execution payload, its fees as the
/// block value, no builder override, and a V1 bundle of its blobs. Fails
/// for EIP-7594 sidecars.
pub fn try_envelope_v3<B, E>(value: GnosisBuiltPayload<B>, execution_payload: E) -> (r: Result<ExecutionPayloadEnvelopeV3<E>, BuiltPayloadConversionError>)
    ensures
        r is Err <==> v3_error(value.0.sidecars_view()) is Some,
        r matches Err(e) ==> v3_error(value.0.sidecars_view()) == Some(e),
        r matches Ok(env) ==> is_v3_envelope_of(env, value, execution_payload),
        r matches Ok(env) ==> (value.0.sidecars_view() matches BlobSidecars::Eip4844(v) ==> {
            &&& env.blobs_bundle.commitments@ == v@.map_values(|x: BlobTransactionSidecar| x.commitments@).flatten()
            &&& env.blobs_bundle.proofs@ == v@.map_values(|x: BlobTransactionSidecar| x.proofs@).flatten()
            &&& env.blobs_bundle.blobs@ == v@.map_values(|x: BlobTransactionSidecar| x.blobs@).flatten()
        }),
        r matches Ok(env) ==> (value.0.sidecars_view() is Empty ==> env.blobs_bundle.blobs@.len() == 0
            && env.blobs_bundle.commitments@.len() == 0 && env.blobs_bundle.proofs@.len() == 0),
        r matches Ok(env) ==> env.block_value == value.0.fees_view() && env.execution_payload == execution_payload
            && !env.should_override_builder,
{
    let block_value = value.fees();
    let (_, _, sidecars, _) = value.0.into_parts();
    let blobs_bundle = match sidecars {
        BlobSidecars::Empty => BlobsBundleV1::empty(),
        BlobSidecars::Eip4844(list) => BlobsBundleV1::from_sidecars(list),
        BlobSidecars::Eip7594(_) => {
            return Err(BuiltPayloadConversionError::UnexpectedEip7594Sidecars);
        },
    };
    Ok(ExecutionPayloadEnvelopeV3 {
        execution_payload,
        block_value,
        should_override_builder: false,
        blobs_bundle,
    })
}

/// The V4 envelope of a payload: its V3 envelope and its execution requests
/// (none where it has none). Fails where the V3 envelope fails.
pub fn try_envelope_v4<B, E>(value: GnosisBuiltPayload<B>, execution_payload: E) -> (r: Result<ExecutionPayloadEnvelopeV4<E>, BuiltPayloadConversionError>)
    ensures
        r is Err <==> v3_error(value.0.sidecars_view()) is Some,
        r matches Err(e) ==> v3_error(value.0.sidecars_view()) == Some(e),
        r matches Ok(env) ==> {
            &&& is_v3_envelope_of(env.envelope_inner, value, execution_payload)
            &&& requests_of(env.execution_requests, value.0.requests_view())
        },
        r matches Ok(env) ==> (value.0.sidecars_view() matches BlobSidecars::Eip4844(v) ==> {
            &&& env.envelope_inner.blobs_bundle.commitments@ == v@.map_values(|x: BlobTransactionSidecar| x.commitments@).flatten()
            &&& env.envelope_inner.blobs_bundle.proofs@ == v@.map_values(|x: BlobTransactionSidecar| x.proofs@).flatten()
            &&& env.envelope_inner.blobs_bundle.blobs@ == v@.map_values(|x: BlobTransactionSidecar| x.blobs@).flatten()
        }),
        r matches Ok(env) ==> (value.0.sidecars_view() is Empty ==> env.envelope_inner.blobs_bundle.blobs@.len() == 0
            && env.envelope_inner.blobs_bundle.commitments@.len() == 0 && env.envelope_inner.blobs_bundle.proofs@.len() == 0),
        r matches Ok(env) ==> env.envelope_inner.block_value == value.0.fees_view() && env.envelope_inner.execution_payload == execution_payload
            && !env.envelope_inner.should_override_builder,
        r matches Ok(env) ==> (value.0.requests_view() matches Some(q) ==> env.execution_requests.0@ == q.0@),
        r matches Ok(env) ==> (value.0.requests_view() is None ==> env.execution_requests.0@.len() == 0),
{
    let id = value.id();
    let (block, fees, sidecars, requests) = value.0.into_parts();
    let execution_requests = match requests {
        Some(q) => q,
        None => Requests::empty(),
    };
    let rebuilt = GnosisBuiltPayload(EthBuiltPayload { id, block, fees, sidecars, requests: None });
    match try_envelope_v3(rebuilt, execution_payload) {
        Ok(envelope_inner) => Ok(ExecutionPayloadEnvelopeV4 { envelope_inner, execution_requests }),
        Err(e) => Err(e),
    }
}

/// The V5 envelope of a payload: its execution payload, its fees as the
/// block value, no builder override, a V2 bundle of its blobs and its
/// execution requests (none where it has none). Fails for EIP-4844 sidecars.
pub fn try_envelope_v5<B, E>(value: GnosisBuiltPayload<B>, execution_payload: E) -> (r: Result<ExecutionPayloadEnvelopeV5<E>, BuiltPayloadConversionError>)
    ensures
        r is Err <==> v5_error(value.0.sidecars_view()) is Some,
        r matches Err(e) ==> v5_error(value.0.sidecars_view()) == Some(e),
        r matches Ok(env) ==> {
            &&& env.execution_payload == execution_payload
            &&& env.block_value == value.0.fees_view()
            &&& !env.should_override_builder
            &&& bundle_v2_of(env.blobs_bundle, value.0.sidecars_view())
            &&& requests_of(env.execution_requests, value.0.requests_view())
        },
        r matches Ok(env) ==> (value.0.sidecars_view() matches BlobSidecars::Eip7594(v) ==> {
            &&& env.blobs_bundle.commitments@ == v@.map_values(|x: BlobTransactionSidecarEip7594| x.commitments@).flatten()
            &&& env.blobs_bundle.proofs@ == v@.map_values(|x: BlobTransactionSidecarEip7594| x.cell_proofs@).flatten()
            &&& env.blobs_bundle.blobs@ == v@.map_values(|x: BlobTransactionSidecarEip7594| x.blobs@).flatten()
        }),
        r matches Ok(env) ==> (value.0.sidecars_view() is Empty ==> env.blobs_bundle.blobs@.len() == 0
            && env.blobs_bundle.commitments@.len() == 0 && env.blobs_bundle.proofs@.len() == 0),
        r matches Ok(env) ==> (value.0.requests_view() matches Some(q) ==> env.execution_requests.0@ == q.0@),
        r matches Ok(env) ==> (value.0.requests_view() is None ==> env.execution_requests.0@.len() == 0),
{
    let block_value = value.fees();
    let (_, _, sidecars, requests) = value.0.into_parts();
    let execution_requests = match requests {
        Some(q) => q,
        None => Requests::empty(),
    };
    let blobs_bundle = match sidecars {
        BlobSidecars::Empty => BlobsBundleV2::empty(),
        BlobSidecars::Eip7594(list) => BlobsBundleV2::from_sidecars(list),
        BlobSidecars::Eip4844(_) => {
            return Err(BuiltPayloadConversionError::UnexpectedEip4844Sidecars);
        },
    };
    Ok(ExecutionPayloadEnvelopeV5 {
        execution_payload,
        block_value,
        should_override_builder: false,
        blobs_bundle,
        execution_requests,
    })
}

/// Whatever its sidecars, a payload converts into the V3 (and V4) envelope
/// or into the V5 envelope: the two conversions never both fail.
pub proof fn lemma_some_envelope_accepts(sidecars: BlobSidecars)
    ensures
        v3_error(sidecars) is None || v5_error(sidecars) is None,
{
}

/// A V1 bundle of EIP-4844 sidecars holds every sidecar's commitments,
/// proofs and blobs, all sidecars in order, and nothing else.
pub proof fn lemma_bundle_v1_holds_every_sidecar(bundle: BlobsBundleV1, v: Vec<BlobTransactionSidecar>)
    requires
        bundle_v1_of(bundle, BlobSidecars::Eip4844(v)),
    ensures
        bundle.commitments@ == v@.map_values(|x: BlobTransactionSidecar| x.commitments@).flatten(),
        bundle.proofs@ == v@.map_values(|x: BlobTransactionSidecar| x.proofs@).flatten(),
        bundle.blobs@ == v@.map_values(|x: BlobTransactionSidecar| x.blobs@).flatten(),
{
}

/// A V2 bundle of EIP-7594 sidecars holds every sidecar's commitments, cell
/// proofs and blobs, all sidecars in order, and nothing else.
pub proof fn lemma_bundle_v2_holds_every_sidecar(bundle: BlobsBundleV2, v: Vec<BlobTransactionSidecarEip7594>)
    requires
        bundle_v2_of(bundle, BlobSidecars::Eip7594(v)),
    ensures
        bundle.commitments@ == v@.map_values(|x: BlobTransactionSidecarEip7594| x.commitments@).flatten(),
        bundle.proofs@ == v@.map_values(|x: BlobTransactionSidecarEip7594| x.cell_proofs@).flatten(),
        bundle.blobs@ == v@.map_values(|x: BlobTransactionSidecarEip7594| x.blobs@).flatten(),
{
}

/// An envelope's requests are the payload's, entry for entry, or none where
/// the payload has none.
pub proof fn lemma_requests_kept_entry_for_entry(envelope_requests: Requests, requests: Option<Requests>)
    requires
        requests_of(envelope_requests, requests),
    ensures
        requests matches Some(q) ==> envelope_requests.0@ == q.0@,
        requests is None ==> envelope_requests.0@.len() == 0,
{
}

/// Mapping an outcome keeps its variant and everything it carries: a better
/// payload stays better with its cached reads, an abort keeps its fees and
/// reads, a cancellation stays one, a frozen payload stays frozen.
pub proof fn lemma_outcome_keeps_variant<B, R>(outcome: BuildOutcome<EthBuiltPayload<B>, R>)
    ensures
        (outcome matches BuildOutcome::Better { payload, cached_reads } ==> (wrapped_outcome(outcome) == (BuildOutcome::<GnosisBuiltPayload<B>, R>::Better {
            payload: GnosisBuiltPayload(payload),
            cached_reads,
        }))),
        (outcome matches BuildOutcome::Aborted { fees, cached_reads } ==> (wrapped_outcome(outcome) == (BuildOutcome::<GnosisBuiltPayload<B>, R>::Aborted {
            fees,
            cached_reads,
        }))),
        (outcome is Cancelled) ==> (wrapped_outcome(outcome) is Cancelled),
        (outcome matches BuildOutcome::Freeze(payload) ==> (wrapped_outcome(outcome) == BuildOutcome::<GnosisBuiltPayload<B>, R>::Freeze(GnosisBuiltPayload(payload)))),
{
}

/// A payload without sidecars (as `new` makes it) converts into every
/// envelope.
pub proof fn lemma_no_sidecars_convert_everywhere()
    ensures
        v3_error(BlobSidecars::Empty) is None,
        v5_error(BlobSidecars::Empty) is None,
{
}

} // verus!

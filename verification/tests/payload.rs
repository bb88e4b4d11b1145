use reth_gnosis::payload::{
    envelope_v2, map_outcome, try_envelope_v3, try_envelope_v4, try_envelope_v5,
    BlobSidecars, BlobTransactionSidecar, BlobTransactionSidecarEip7594, BlobsBundleV1,
    BlobsBundleV2, BuildOutcome, BuiltPayloadConversionError, EthBuiltPayload,
    GnosisBuiltPayload, PayloadId, Requests,
};
use reth_gnosis::u256::U256;

fn payload(sidecars: BlobSidecars, requests: Option<Requests>) -> GnosisBuiltPayload<&'static str> {
    GnosisBuiltPayload::new(PayloadId([1, 2, 3, 4, 5, 6, 7, 8]), "block", U256::from_u64(77), requests)
        .with_sidecars(sidecars)
}

fn sidecar(tag: u8, blobs: usize) -> BlobTransactionSidecar {
    BlobTransactionSidecar {
        blobs: (0..blobs).map(|i| vec![tag, i as u8]).collect(),
        commitments: (0..blobs).map(|i| [tag.wrapping_add(i as u8); 48]).collect(),
        proofs: (0..blobs).map(|i| [tag.wrapping_mul(2).wrapping_add(i as u8); 48]).collect(),
    }
}

fn cell_sidecar(tag: u8, blobs: usize) -> BlobTransactionSidecarEip7594 {
    BlobTransactionSidecarEip7594 {
        blobs: (0..blobs).map(|i| vec![tag, i as u8]).collect(),
        commitments: (0..blobs).map(|i| [tag.wrapping_add(i as u8); 48]).collect(),
        cell_proofs: (0..blobs * 2).map(|i| [tag.wrapping_mul(3).wrapping_add(i as u8); 48]).collect(),
    }
}

#[test]
fn new_payload_has_no_sidecars() {
    let p = GnosisBuiltPayload::new(PayloadId([9; 8]), 5u64, U256::from_u64(3), None);
    assert_eq!(p.id(), PayloadId([9; 8]));
    assert_eq!(*p.block(), 5);
    assert_eq!(p.fees(), U256::from_u64(3));
    assert!(matches!(p.sidecars(), BlobSidecars::Empty));
    assert!(p.requests().is_none());
}

#[test]
fn with_sidecars_replaces_only_sidecars() {
    let p = GnosisBuiltPayload::new(PayloadId([9; 8]), 5u64, U256::from_u64(3), Some(Requests(vec![vec![1]])))
        .with_sidecars(BlobSidecars::Eip4844(vec![sidecar(1, 1)]));
    assert_eq!(p.id(), PayloadId([9; 8]));
    assert_eq!(*p.block(), 5);
    assert_eq!(p.fees(), U256::from_u64(3));
    assert!(matches!(p.sidecars(), BlobSidecars::Eip4844(v) if v.len() == 1));
    assert_eq!(p.requests().as_ref().map(|r| r.0.clone()), Some(vec![vec![1]]));
}

#[test]
fn default_payload_is_empty() {
    let p: GnosisBuiltPayload<u64> = GnosisBuiltPayload::default();
    assert_eq!(p.id(), PayloadId([0; 8]));
    assert_eq!(*p.block(), 0);
    assert_eq!(p.fees(), U256::zero());
    assert!(matches!(p.sidecars(), BlobSidecars::Empty));
    assert!(p.requests().is_none());
}

#[test]
fn map_outcome_wraps_payloads() {
    let eth = EthBuiltPayload::new(PayloadId([2; 8]), 11u64, U256::from_u64(4), None);
    match map_outcome(BuildOutcome::Better { payload: eth, cached_reads: "reads" }) {
        BuildOutcome::Better { payload, cached_reads } => {
            assert_eq!(payload.id(), PayloadId([2; 8]));
            assert_eq!(*payload.block(), 11);
            assert_eq!(cached_reads, "reads");
        }
        other => panic!("unexpected outcome {other:?}"),
    }

    let eth = EthBuiltPayload::new(PayloadId([3; 8]), 12u64, U256::from_u64(4), None);
    match map_outcome(BuildOutcome::<_, ()>::Freeze(eth)) {
        BuildOutcome::Freeze(payload) => assert_eq!(*payload.block(), 12),
        other => panic!("unexpected outcome {other:?}"),
    }

    let aborted: BuildOutcome<EthBuiltPayload<u64>, u8> =
        BuildOutcome::Aborted { fees: U256::from_u64(6), cached_reads: 7 };
    match map_outcome(aborted) {
        BuildOutcome::Aborted { fees, cached_reads } => {
            assert_eq!(fees, U256::from_u64(6));
            assert_eq!(cached_reads, 7);
        }
        other => panic!("unexpected outcome {other:?}"),
    }

    let cancelled: BuildOutcome<EthBuiltPayload<u64>, u8> = BuildOutcome::Cancelled;
    assert!(matches!(map_outcome(cancelled), BuildOutcome::Cancelled));
}

#[test]
fn bundle_v1_gathers_sidecars_in_order() {
    let bundle = BlobsBundleV1::from_sidecars(vec![sidecar(1, 2), sidecar(10, 1)]);
    assert_eq!(bundle.blobs, vec![vec![1, 0], vec![1, 1], vec![10, 0]]);
    assert_eq!(bundle.commitments, vec![[1; 48], [2; 48], [10; 48]]);
    assert_eq!(bundle.proofs, vec![[2; 48], [3; 48], [20; 48]]);
    let empty = BlobsBundleV1::empty();
    assert!(empty.blobs.is_empty() && empty.commitments.is_empty() && empty.proofs.is_empty());
}

#[test]
fn bundle_v2_gathers_cell_proofs() {
    let bundle = BlobsBundleV2::from_sidecars(vec![cell_sidecar(1, 1), cell_sidecar(5, 1)]);
    assert_eq!(bundle.blobs, vec![vec![1, 0], vec![5, 0]]);
    assert_eq!(bundle.commitments, vec![[1; 48], [5; 48]]);
    assert_eq!(bundle.proofs, vec![[3; 48], [4; 48], [15; 48], [16; 48]]);
}

#[test]
fn envelope_v2_carries_fees() {
    let env = envelope_v2(payload(BlobSidecars::Empty, None), "execution payload");
    assert_eq!(env.execution_payload, "execution payload");
    assert_eq!(env.block_value, U256::from_u64(77));
}

#[test]
fn envelope_v3_without_sidecars() {
    let env = try_envelope_v3(payload(BlobSidecars::Empty, None), 1u8).unwrap();
    assert_eq!(env.execution_payload, 1);
    assert_eq!(env.block_value, U256::from_u64(77));
    assert!(!env.should_override_builder);
    assert!(env.blobs_bundle.blobs.is_empty());
}

#[test]
fn envelope_v3_with_eip4844_sidecars() {
    let env = try_envelope_v3(payload(BlobSidecars::Eip4844(vec![sidecar(1, 2)]), None), 1u8).unwrap();
    assert_eq!(env.blobs_bundle.blobs, vec![vec![1, 0], vec![1, 1]]);
    assert_eq!(env.blobs_bundle.commitments, vec![[1; 48], [2; 48]]);
}

#[test]
fn envelope_v3_rejects_eip7594_sidecars() {
    let err = try_envelope_v3(payload(BlobSidecars::Eip7594(vec![cell_sidecar(1, 1)]), None), 1u8).unwrap_err();
    assert_eq!(err, BuiltPayloadConversionError::UnexpectedEip7594Sidecars);
}

#[test]
fn envelope_v4_adds_requests() {
    let env = try_envelope_v4(payload(BlobSidecars::Empty, Some(Requests(vec![vec![0xaa, 0xbb]]))), 2u8).unwrap();
    assert_eq!(env.execution_requests.0, vec![vec![0xaa, 0xbb]]);
    assert_eq!(env.envelope_inner.execution_payload, 2);
    assert_eq!(env.envelope_inner.block_value, U256::from_u64(77));

    let env = try_envelope_v4(payload(BlobSidecars::Eip4844(vec![sidecar(4, 1)]), None), 2u8).unwrap();
    assert!(env.execution_requests.0.is_empty());
    assert_eq!(env.envelope_inner.blobs_bundle.blobs, vec![vec![4, 0]]);
}

#[test]
fn envelope_v4_rejects_eip7594_sidecars() {
    let err = try_envelope_v4(payload(BlobSidecars::Eip7594(vec![]), Some(Requests(vec![]))), 2u8).unwrap_err();
    assert_eq!(err, BuiltPayloadConversionError::UnexpectedEip7594Sidecars);
}

#[test]
fn envelope_v5_with_eip7594_sidecars() {
    let env = try_envelope_v5(
        payload(BlobSidecars::Eip7594(vec![cell_sidecar(1, 1)]), Some(Requests(vec![vec![7]]))),
        3u8,
    )
    .unwrap();
    assert_eq!(env.execution_payload, 3);
    assert_eq!(env.block_value, U256::from_u64(77));
    assert!(!env.should_override_builder);
    assert_eq!(env.blobs_bundle.blobs, vec![vec![1, 0]]);
    assert_eq!(env.blobs_bundle.proofs, vec![[3; 48], [4; 48]]);
    assert_eq!(env.execution_requests.0, vec![vec![7]]);
}

#[test]
fn envelope_v5_without_sidecars() {
    let env = try_envelope_v5(payload(BlobSidecars::Empty, None), 3u8).unwrap();
    assert!(env.blobs_bundle.blobs.is_empty());
    assert!(env.execution_requests.0.is_empty());
}

#[test]
fn envelope_v5_rejects_eip4844_sidecars() {
    let err = try_envelope_v5(payload(BlobSidecars::Eip4844(vec![sidecar(1, 1)]), None), 3u8).unwrap_err();
    assert_eq!(err, BuiltPayloadConversionError::UnexpectedEip4844Sidecars);
}

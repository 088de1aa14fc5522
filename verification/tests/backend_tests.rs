use dory_pcs::gpu_ntt::{ZkMetalError, ZkMetalNttEngine, MAX_NTT_LOG_SIZE};
use dory_pcs::hybrid::GPU_MSM_THRESHOLD;
use dory_pcs::prime_proof::DoryPrimeProof;

#[test]
fn test_gpu_threshold_constant() {
    assert!(GPU_MSM_THRESHOLD >= 256, "Threshold should be at least 256");
    assert!(GPU_MSM_THRESHOLD <= 4096, "Threshold should be at most 4096");
}

#[test]
fn zkmetal_engine_sizes() {
    let _small = ZkMetalNttEngine::new(0);
    let _large = ZkMetalNttEngine::new(MAX_NTT_LOG_SIZE);
    assert_eq!(MAX_NTT_LOG_SIZE, 26);
    let e = ZkMetalError::FeatureNotEnabled;
    assert!(matches!(e, ZkMetalError::FeatureNotEnabled));
}

#[test]
fn prime_proof_size() {
    let proof = DoryPrimeProof::new((), 10, 5);
    assert_eq!(proof.sigma, 10);
    assert_eq!(proof.nu, 5);
    assert_eq!(proof.serialized_size(), 32 + 640 + 160);
    assert_eq!(DoryPrimeProof::new(0u8, 0, 0).serialized_size(), 32);
}

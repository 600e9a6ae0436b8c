use haversine_gen::params::{parse_distribution, parse_u64, start_generate_data, PointsDistribution};

fn args(v: &[&str]) -> Vec<String> {
    v.iter().map(|s| s.to_string()).collect()
}

#[test]
fn parse_valid_uniform_args() {
    let r = start_generate_data(&args(&["uniform", "42", "100"])).unwrap();
    assert_eq!(r.distribution, PointsDistribution::Uniform);
    assert_eq!(r.random_seed, 42);
    assert_eq!(r.pair_count, 100);
}

#[test]
fn parse_valid_cluster_args() {
    let r = start_generate_data(&args(&["cluster", "7", "32"])).unwrap();
    assert_eq!(r.distribution, PointsDistribution::Cluster);
    assert_eq!(r.random_seed, 7);
    assert_eq!(r.pair_count, 32);
}

#[test]
fn parse_rejects_unknown_mode() {
    assert!(start_generate_data(&args(&["spiral", "42", "100"])).is_none());
    assert!(start_generate_data(&args(&["Uniform", "42", "100"])).is_none());
    assert!(start_generate_data(&args(&["", "42", "100"])).is_none());
}

#[test]
fn parse_rejects_missing_arguments() {
    assert!(start_generate_data(&args(&[])).is_none());
    assert!(start_generate_data(&args(&["uniform"])).is_none());
    assert!(start_generate_data(&args(&["uniform", "42"])).is_none());
}

#[test]
fn parse_rejects_non_numeric() {
    assert!(start_generate_data(&args(&["uniform", "4x2", "100"])).is_none());
    assert!(start_generate_data(&args(&["uniform", "42", "-1"])).is_none());
    assert!(start_generate_data(&args(&["uniform", "", "100"])).is_none());
    assert!(start_generate_data(&args(&["uniform", "4.2", "100"])).is_none());
}

#[test]
fn parse_extra_arguments_ignored() {
    let r = start_generate_data(&args(&["cluster", "1", "2", "3", "4"])).unwrap();
    assert_eq!(r.distribution, PointsDistribution::Cluster);
    assert_eq!(r.random_seed, 1);
    assert_eq!(r.pair_count, 2);
}

#[test]
fn parse_accepts_zero_pair_count() {
    let r = start_generate_data(&args(&["uniform", "5", "0"])).unwrap();
    assert_eq!(r.pair_count, 0);
}

#[test]
fn parse_u64_values() {
    assert_eq!(parse_u64("0"), Some(0));
    assert_eq!(parse_u64("007"), Some(7));
    assert_eq!(parse_u64("1234567890"), Some(1234567890));
    assert_eq!(parse_u64("18446744073709551615"), Some(u64::MAX));
}

#[test]
fn parse_u64_rejects_overflow_and_garbage() {
    assert_eq!(parse_u64("18446744073709551616"), None);
    assert_eq!(parse_u64("99999999999999999999999"), None);
    assert_eq!(parse_u64(""), None);
    assert_eq!(parse_u64(" 1"), None);
    assert_eq!(parse_u64("1 "), None);
    assert_eq!(parse_u64("+1"), None);
}

#[test]
fn parse_distribution_tokens() {
    assert_eq!(
        parse_distribution(&"uniform".to_string()),
        Some(PointsDistribution::Uniform)
    );
    assert_eq!(
        parse_distribution(&"cluster".to_string()),
        Some(PointsDistribution::Cluster)
    );
    assert_eq!(parse_distribution(&"clusterx".to_string()), None);
    assert_eq!(parse_distribution(&"unifor".to_string()), None);
}

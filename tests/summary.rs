use fastdigest::summary::summary_text;

#[test]
fn summary_of_small_digest() {
    assert_eq!(summary_text(5, 5), "Digest(n_values=5, n_centroids=5)");
}

#[test]
fn summary_writes_multi_digit_counts() {
    assert_eq!(summary_text(100, 42), "Digest(n_values=100, n_centroids=42)");
}

#[test]
fn summary_writes_zero_and_largest() {
    assert_eq!(
        summary_text(0, 0),
        "Digest(n_values=0, n_centroids=0)"
    );
    assert_eq!(
        summary_text(u64::MAX, 3),
        "Digest(n_values=18446744073709551615, n_centroids=3)"
    );
}

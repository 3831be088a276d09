use soldier_core::risk::exposure_budget::CorrelationBucket;

#[test]
fn test_correlation_bucket_classification() {
    assert_eq!(
        CorrelationBucket::classify("BTC-PERP"),
        CorrelationBucket::Btc
    );
    assert_eq!(
        CorrelationBucket::classify("BTC-25JAN25"),
        CorrelationBucket::Btc
    );
    assert_eq!(
        CorrelationBucket::classify("ETH-PERP"),
        CorrelationBucket::Eth
    );
    assert_eq!(
        CorrelationBucket::classify("ETH-25JAN25"),
        CorrelationBucket::Eth
    );
    assert_eq!(
        CorrelationBucket::classify("SOL-PERP"),
        CorrelationBucket::Alts
    );
    assert_eq!(
        CorrelationBucket::classify("DOGE-PERP"),
        CorrelationBucket::Alts
    );
}

#[test]
fn classification_ignores_case_and_accepts_underscore_and_bare_symbol() {
    // Lower-case ids are upper-cased before matching.
    assert_eq!(CorrelationBucket::classify("btc-perp"), CorrelationBucket::Btc);
    assert_eq!(CorrelationBucket::classify("eth_usdc"), CorrelationBucket::Eth);
    assert_eq!(CorrelationBucket::classify("btc"), CorrelationBucket::Btc);
    assert_eq!(CorrelationBucket::classify("ETH"), CorrelationBucket::Eth);
    // A prefix without separator is not enough.
    assert_eq!(CorrelationBucket::classify("BTCX-PERP"), CorrelationBucket::Alts);
    assert_eq!(CorrelationBucket::classify_upper("ETH-1"), CorrelationBucket::Eth);
    assert_eq!(CorrelationBucket::classify_upper("eth-1"), CorrelationBucket::Alts);
}

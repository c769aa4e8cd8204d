use stats_db::codec::{check_finite_bits, encode_score_bits};

fn token(v: f64) -> String {
    encode_score_bits(v.to_bits())
}

#[test]
fn known_tokens() {
    assert_eq!(token(1.0), "bff0000000000000");
    assert_eq!(token(2.0), "c000000000000000");
    assert_eq!(token(-1.0), "400fffffffffffff");
    assert_eq!(token(0.0), "8000000000000000");
    assert_eq!(token(-0.0), "7fffffffffffffff");
}

#[test]
fn known_tokens_are_ordered() {
    let neg_one = token(-1.0);
    let neg_zero = token(-0.0);
    let zero = token(0.0);
    let one = token(1.0);
    let two = token(2.0);
    assert!(neg_one < neg_zero);
    assert!(neg_zero < zero);
    assert!(zero < one);
    assert!(one < two);
}

#[test]
fn token_width_is_sixteen() {
    let samples = [
        0.0,
        -0.0,
        1.0,
        -1.0,
        f64::MAX,
        f64::MIN,
        f64::MIN_POSITIVE,
        -f64::MIN_POSITIVE,
        1e300,
        -1e300,
        0.1,
        -0.1,
        42.0,
    ];
    for v in samples {
        assert_eq!(token(v).len(), 16);
    }
}

#[test]
fn token_order_matches_numeric_order() {
    let mut samples = vec![
        0.0,
        -0.0,
        1.0,
        2.0,
        -1.0,
        -2.0,
        0.5,
        -0.5,
        1.5,
        100.0,
        -100.0,
        1e-10,
        -1e-10,
        1e10,
        -1e10,
        f64::MAX,
        f64::MIN,
        f64::MIN_POSITIVE,
        -f64::MIN_POSITIVE,
        0.1,
        0.2,
        0.3,
        123456.789,
        -123456.789,
    ];
    for a in samples.clone() {
        for b in samples.clone() {
            if a < b {
                assert!(token(a) < token(b), "tokens out of order for {a} < {b}");
            }
        }
    }
    // sorting by token sorts numerically
    let mut by_token = samples.clone();
    by_token.sort_by(|x, y| token(*x).cmp(&token(*y)));
    samples.sort_by(|x, y| x.total_cmp(y));
    assert_eq!(by_token, samples);
}

#[test]
fn finiteness_check_matches_f64() {
    assert!(check_finite_bits(1.0f64.to_bits()));
    assert!(check_finite_bits((-1.5f64).to_bits()));
    assert!(check_finite_bits(0.0f64.to_bits()));
    assert!(check_finite_bits(f64::MAX.to_bits()));
    assert!(!check_finite_bits(f64::NAN.to_bits()));
    assert!(!check_finite_bits(f64::INFINITY.to_bits()));
    assert!(!check_finite_bits(f64::NEG_INFINITY.to_bits()));
}

use scx_horoscope::bignum::{div_limb, limbs_to_u64, mul_limb};

#[test]
fn limbs_multiply_and_divide() {
    // (2^64 - 1)^2 = 2^128 - 2^65 + 1: limbs [1, 2^64 - 2].
    let sq = mul_limb(&vec![u64::MAX], u64::MAX);
    assert_eq!(sq, vec![1, u64::MAX - 1]);
    let (q, r) = div_limb(&sq, u64::MAX);
    assert_eq!((limbs_to_u64(&q), r), (Some(u64::MAX), 0));
    // 10^30 / 10^12 = 10^18.
    let mut big = vec![1];
    for _ in 0..3 {
        big = mul_limb(&big, 10_000_000_000);
    }
    let (q, r) = div_limb(&mul_limb(&big, 1), 1_000_000_000_000);
    assert_eq!((limbs_to_u64(&q), r), (Some(1_000_000_000_000_000_000), 0));
    assert_eq!(limbs_to_u64(&big), None);
    assert_eq!(limbs_to_u64(&vec![]), Some(0));
    assert_eq!(limbs_to_u64(&vec![5, 0, 0]), Some(5));
    assert_eq!(mul_limb(&vec![5, 0], 0), vec![0, 0]);
}

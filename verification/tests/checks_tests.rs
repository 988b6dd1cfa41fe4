use blackwell::checks::{check_img_or_video_size, is_gmail_address, is_hex};
use blackwell::ratelimiter::{
    ActionRateLimiter, ContactRateLimiter, GenericRateLimiter, IndexRateLimiter, LoginRateLimiter,
    QueueRateLimiter, QuotaPeriod, RegisterRateLimiter, UnregisterRateLimiter, VerifyRateLimiter,
};
use blackwell::text::{str_ends_with, str_eq};
use blackwell::verification::{
    expired_at, gen_random_six_number, new_account_id, verification_code, verification_expired,
    DATE_FORMAT, VERIFICATION_MINUTES,
};

#[test]
fn str_eq_compares_characters() {
    assert!(str_eq("add", "add"));
    assert!(!str_eq("add", "ad"));
    assert!(!str_eq("add", "adD"));
    assert!(str_eq("", ""));
    assert!(str_eq("ñandú", "ñandú"));
}

#[test]
fn str_ends_with_checks_suffix() {
    assert!(str_ends_with("kevin@gmail.com", "@gmail.com"));
    assert!(str_ends_with("@gmail.com", "@gmail.com"));
    assert!(!str_ends_with("gmail.com", "@gmail.com"));
    assert!(!str_ends_with("kevin@gmail.co", "@gmail.com"));
    assert!(str_ends_with("anything", ""));
}

#[test]
fn is_hex_accepts_hex_strings_only() {
    assert!(is_hex("0123456789abcdefABCDEF"));
    assert!(is_hex("f"));
    assert!(!is_hex(""));
    assert!(!is_hex("12g4"));
    assert!(!is_hex("ab cd"));
    assert!(!is_hex("abcd\n"));
    assert!(!is_hex("0x1f"));
}

#[test]
fn profile_size_rounds_to_nearest_mebibyte() {
    assert!(check_img_or_video_size(&[]));
    assert!(check_img_or_video_size(&vec![0u8; 5 * 1048576]));
    assert!(check_img_or_video_size(&vec![0u8; 5767167]));
    assert!(!check_img_or_video_size(&vec![0u8; 5767168]));
    assert!(!check_img_or_video_size(&vec![0u8; 6 * 1048576]));
}

#[test]
fn profile_size_agrees_with_float_rounding() {
    for len in [0usize, 1, 524287, 524288, 1048576, 5242880, 5767167, 5767168, 5767169, 7340032] {
        let expected = (len as f64 / 1048576.0).round() <= 5.0;
        assert_eq!(check_img_or_video_size(&vec![0u8; len]), expected, "len {}", len);
    }
}

#[test]
fn gmail_addresses_are_recognised() {
    assert!(is_gmail_address("someone@gmail.com"));
    assert!(!is_gmail_address("someone@outlook.com"));
    assert!(!is_gmail_address("someone@gmail.com "));
    assert!(!is_gmail_address(""));
}

#[test]
fn verification_code_writes_both_halves() {
    assert_eq!(verification_code(1234, 5678), "12345678");
    assert_eq!(verification_code(1000, 9999), "10009999");
    assert_eq!(verification_code(9090, 1001), "90901001");
}

#[test]
fn random_codes_have_eight_digits_in_range() {
    for _ in 0..50 {
        let code = gen_random_six_number();
        assert_eq!(code.len(), 8);
        assert!(code.chars().all(|c| c.is_ascii_digit()));
        let first: u32 = code[..4].parse().unwrap();
        let second: u32 = code[4..].parse().unwrap();
        assert!((1000..=9999).contains(&first));
        assert!((1000..=9999).contains(&second));
    }
}

#[test]
fn account_ids_are_v4_uuids() {
    let id = new_account_id();
    assert_eq!(id.len(), 36);
    for (i, c) in id.chars().enumerate() {
        if [8, 13, 18, 23].contains(&i) {
            assert_eq!(c, '-');
        } else {
            assert!(c.is_ascii_hexdigit() && !c.is_ascii_uppercase());
        }
    }
    assert_eq!(id.chars().nth(14), Some('4'));
    assert_ne!(new_account_id(), id);
}

#[test]
fn expiry_compares_instants() {
    assert!(expired_at((10, 0), (10, 0)));
    assert!(expired_at((9, 999), (10, 0)));
    assert!(!expired_at((10, 1), (10, 0)));
    assert!(!expired_at((11, 0), (10, 5)));
}

#[test]
fn verification_expires_at_its_deadline() {
    assert_eq!(verification_expired("2024-01-01 00:03:00", "2024-01-01 00:03:00"), Some(true));
    assert_eq!(verification_expired("2024-01-01 00:03:00", "2024-01-01 00:05:10"), Some(true));
    assert_eq!(verification_expired("2024-01-01 00:03:00", "2024-01-01 00:02:59"), Some(false));
    assert_eq!(verification_expired("2024-01-02 00:00:00", "2024-01-01 23:59:59"), Some(false));
    assert_eq!(verification_expired("not a date", "2024-01-01 00:02:59"), None);
    assert_eq!(verification_expired("2024-01-01 00:03:00", "01/01/2024"), None);
}

#[test]
fn expiry_is_lasting() {
    let deadline = "2024-03-01 10:00:00";
    for now in ["2024-03-01 10:00:00", "2024-03-01 10:00:01", "2025-01-01 00:00:00"] {
        assert_eq!(verification_expired(deadline, now), Some(true));
    }
}

#[test]
fn date_constants() {
    assert_eq!(DATE_FORMAT, "%Y-%m-%d %H:%M:%S");
    assert_eq!(VERIFICATION_MINUTES, 3);
}

#[test]
fn rate_limits() {
    let minute = |q: blackwell::ratelimiter::RateQuota| (q.period, q.burst);
    assert_eq!(minute(IndexRateLimiter::quota()), (QuotaPeriod::Minute, 10));
    assert_eq!(minute(RegisterRateLimiter::quota()), (QuotaPeriod::Minute, 30));
    assert_eq!(minute(VerifyRateLimiter::quota()), (QuotaPeriod::Minute, 30));
    assert_eq!(minute(UnregisterRateLimiter::quota()), (QuotaPeriod::Minute, 50));
    assert_eq!(minute(LoginRateLimiter::quota()), (QuotaPeriod::Minute, 30));
    assert_eq!(minute(ActionRateLimiter::quota()), (QuotaPeriod::Minute, 50));
    assert_eq!(minute(QueueRateLimiter::quota()), (QuotaPeriod::Minute, 50));
    assert_eq!(minute(ContactRateLimiter::quota()), (QuotaPeriod::Minute, 50));
    assert_eq!(minute(GenericRateLimiter::quota()), (QuotaPeriod::Second, 1));
}

#[test]
fn smaller_profiles_are_accepted_whenever_larger_ones_are() {
    let accepted = 5767000usize;
    assert!(check_img_or_video_size(&vec![0u8; accepted]));
    for smaller in [0usize, 1, 1048575, 3000000, accepted - 1] {
        assert!(check_img_or_video_size(&vec![0u8; smaller]));
    }
}

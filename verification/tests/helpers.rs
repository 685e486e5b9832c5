use spacies::auth::{create_token, decode_token, parse_user_id, token_claims, validate_token, Claims};
use spacies::datetime::{date_at_midnight, dt_not_after, is_valid_date, unix_seconds, DateTime};
use spacies::helpers::bcrypt::{compare_password, encrypt_password};
use spacies::helpers::schedule::delay_millis;
use spacies::helpers::email_template::{added_user, forgot_password_email, invite_user, verification_email};
use spacies::helpers::encrypt::{decrypt, encrypt};
use spacies::helpers::socket::{
    channel_chat_channel, decimal_string, natural_string, thread_chat_channel, user_chat_channel,
};
use spacies::helpers::uploads::{
    bucket_link, file_size_refusal, image_size_refusal, temp_file_name, temp_file_path,
};
use spacies::paginate::{count_pages, paginate};
use spacies::text::{ilike_holds, ilike_match, ilike_pattern_valid, same_ignore_case, LikeResult};
use spacies::types::{OptionalResponse, Response, ResponseError};

fn dt(year: i32, month: u32, day: u32, hour: u32) -> DateTime {
    DateTime { year, month, day, hour, minute: 0, second: 0, nanosecond: 0 }
}

#[test]
fn ilike_matching() {
    assert!(ilike_holds("Acme Space", "acme%"));
    assert!(ilike_holds("Acme", "ACME"));
    assert!(ilike_holds("abc", "a_c"));
    assert!(!ilike_holds("abcd", "a_c"));
    assert!(ilike_holds("50%", "50\\%"));
    assert!(!ilike_holds("500", "50\\%"));
    assert!(ilike_holds("", "%"));
    assert!(!ilike_holds("x", ""));
    assert!(matches!(ilike_match("a\\", "a\\"), LikeResult::BadPattern));
    assert!(!ilike_pattern_valid("ab\\"));
    assert!(ilike_pattern_valid("ab\\\\"));
    assert!(same_ignore_case("ÄBC", "äbc"));
}

#[test]
fn date_validity_and_order() {
    assert!(is_valid_date(2000, 2, 29));
    assert!(!is_valid_date(1900, 2, 29));
    assert!(!is_valid_date(2023, 4, 31));
    assert!(!is_valid_date(2023, 0, 1));
    let m = date_at_midnight(2023, 12, 31).unwrap();
    assert_eq!((m.hour, m.minute), (0, 0));
    assert!(date_at_midnight(262143, 1, 1).is_none());
    assert!(dt_not_after(&dt(2023, 1, 1, 5), &dt(2023, 1, 1, 6)));
    assert!(!dt_not_after(&dt(2024, 1, 1, 0), &dt(2023, 12, 31, 23)));
}

#[test]
fn decimal_writing() {
    assert_eq!(decimal_string(0), "0");
    assert_eq!(decimal_string(-42), "-42");
    assert_eq!(decimal_string(i64::MIN), "-9223372036854775808");
    assert_eq!(natural_string(u128::MAX), u128::MAX.to_string());
    assert_eq!(user_chat_channel(3, 10), "user-chat-3-10");
    assert_eq!(thread_chat_channel(7, -1), "thread-chat-7--1");
    assert_eq!(channel_chat_channel(&"Acme".to_string(), &"Ops".to_string()), "Acme-Ops");
}

#[test]
fn user_ids_are_parsed_like_str_parse() {
    for s in ["0", "17", "-5", "+8", "2147483647", "-2147483648", "", "-", "+", "12a", " 1", "2147483648", "-2147483649", "99999999999999999999"] {
        assert_eq!(parse_user_id(s), s.parse::<i32>().ok(), "input {:?}", s);
    }
}

#[test]
fn token_claims_expire_whole_seconds_later() {
    let now = DateTime { year: 2023, month: 12, day: 31, hour: 23, minute: 59, second: 58, nanosecond: 123_456_789 };
    let c = token_claims(&"12".to_string(), now, 30).unwrap();
    assert_eq!(c.sub, "user");
    assert_eq!(c.company, "12");
    assert_eq!(c.exp, DateTime { year: 2024, month: 1, day: 30, hour: 23, minute: 59, second: 58, nanosecond: 0 });
    assert!(token_claims(&"12".to_string(), now, i64::MAX).is_none());
    let d = Claims::new("a".to_string(), "b".to_string(), now);
    assert_eq!(d.exp.nanosecond, 0);
    assert_eq!(d.exp.second, 58);
}

#[test]
fn mail_templates() {
    assert_eq!(
        verification_email(&"T0K".to_string()),
        "\n    <h1>Welcome to Spaces</h1>\n    Click the link to verify account<br/>\n    <a href='http://localhost:5000/user/verify?token=T0K'>click</a>\n    "
    );
    assert_eq!(
        forgot_password_email(&"pw".to_string()),
        "<h1>Password Reset</h1>\n        \n        Your new password has been set to <b>pw</b>\n        Do well to change the password as soon as possible\n        "
    );
    assert_eq!(
        invite_user(&"Acme".to_string(), &"t".to_string()),
        "\n    <h1>You have been invited to Acme Space</h1>\n    Follow the link to complete registration<br/>\n    <a href='http://localhost:5000/spacies/invitepage?token=t'>click</a>\n    "
    );
    assert_eq!(added_user(&"Acme".to_string()), "\n    <h1>You have been added to Acme space</h1>\n    ");
}

#[test]
fn secrets_round_trip() {
    let key = "space-key".to_string();
    let sealed = encrypt(&"hunter2".to_string(), &key);
    assert_ne!(sealed, "hunter2");
    assert_eq!(decrypt(&sealed, &key), Some("hunter2".to_string()));
    assert_eq!(decrypt(&"not base64!".to_string(), &key), None);
}

#[test]
fn password_hashes_verify() {
    let h = encrypt_password(&"secret1".to_string()).unwrap();
    assert_ne!(h, "secret1");
    assert_eq!(compare_password(&h, &"secret1".to_string()), Some(true));
    assert_eq!(compare_password(&h, &"Secret1".to_string()), Some(false));
    assert_eq!(compare_password(&"plain".to_string(), &"secret1".to_string()), None);
}

#[test]
fn upload_names_paths_and_links() {
    assert_eq!(temp_file_name(1700000000000000, "a b.png"), "1700000000000000-a b.png");
    assert_eq!(temp_file_path("../../etc/passwd"), "./tmp/....etcpasswd");
    assert_eq!(temp_file_path("x?.txt"), "./tmp/x.txt");
    assert_eq!(bucket_link("1-a.png"), "https://val-mxo.s3.eu-central-1.amazonaws.com/1-a.png");
    assert!(image_size_refusal(5_000_000).is_none());
    let r = image_size_refusal(5_000_001).unwrap();
    assert_eq!((r.success, r.message.as_str()), (false, "file should not be larger than 5 MB"));
    assert!(file_size_refusal(10_000_000).is_none());
    assert_eq!(file_size_refusal(10_000_001).unwrap().message, "file should not be larger than 10 MB");
}

#[test]
fn pagination_formula() {
    let rows: Vec<spacies::model::UserTask> = (1..=5).map(|i| spacies::model::UserTask { id: i, user_id: 1, task_id: 1 }).collect();
    let (p, total) = paginate(&rows, 2, 2).unwrap();
    assert_eq!(p.iter().map(|r| r.id).collect::<Vec<_>>(), vec![3, 4]);
    assert_eq!(total, 5);
    let (p, total) = paginate(&rows, 3, 2).unwrap();
    assert_eq!((p.len(), total), (1, 5));
    let (p, total) = paginate(&rows, 4, 2).unwrap();
    assert_eq!((p.len(), total), (0, 0));
    assert!(paginate(&rows, 0, 2).is_err());
    assert!(paginate(&rows, 1, -1).is_err());
    assert!(paginate(&rows, i64::MAX, 2).is_err());
    assert_eq!(count_pages(5, 2), 3);
    assert_eq!(count_pages(4, 2), 2);
    assert_eq!(count_pages(0, 2), 0);
    assert_eq!(count_pages(5, 0), 0);
}

#[test]
fn response_envelopes() {
    let r = Response::new(true, 3);
    assert_eq!((r.success, r.message), (true, 3));
    let o: OptionalResponse<String, i32> = OptionalResponse::new(false, Some("m".to_string()), None);
    assert_eq!((o.success, o.message, o.value), (false, Some("m".to_string()), None));
    let e = ResponseError::new(false, "jwt error".to_string());
    assert_eq!(e.error, "jwt error");
}

#[test]
fn unix_seconds_agree_with_chrono() {
    let cases = [
        DateTime { year: 1970, month: 1, day: 1, hour: 0, minute: 0, second: 0, nanosecond: 0 },
        DateTime { year: 2023, month: 12, day: 31, hour: 23, minute: 59, second: 58, nanosecond: 9 },
        DateTime { year: 2000, month: 2, day: 29, hour: 12, minute: 0, second: 1, nanosecond: 0 },
        DateTime { year: 1969, month: 7, day: 20, hour: 20, minute: 17, second: 40, nanosecond: 0 },
        DateTime { year: -44, month: 3, day: 15, hour: 0, minute: 0, second: 0, nanosecond: 0 },
    ];
    for t in cases {
        let expected = chrono::NaiveDate::from_ymd_opt(t.year, t.month, t.day)
            .unwrap()
            .and_hms_opt(t.hour, t.minute, t.second)
            .unwrap()
            .and_utc()
            .timestamp();
        assert_eq!(unix_seconds(t), Some(expected));
    }
    assert_eq!(unix_seconds(DateTime { year: 1970, month: 1, day: 2, hour: 0, minute: 0, second: 0, nanosecond: 0 }), Some(86_400));
}

#[test]
fn tokens_read_back_with_their_secret_only() {
    let issued = DateTime { year: 2099, month: 6, day: 1, hour: 8, minute: 0, second: 0, nanosecond: 5 };
    let secret = "s3cret".to_string();
    let t = create_token(&"42".to_string(), issued, 30, &secret).unwrap();
    assert_eq!(t.matches('.').count(), 2);
    assert_eq!(decode_token(&t, &secret), Some("42".to_string()));
    assert!(validate_token(&t, &secret));
    assert_eq!(decode_token(&t, &"other".to_string()), None);
    assert!(!validate_token(&t, &"other".to_string()));
    assert!(!validate_token(&"not.a.token".to_string(), &secret));
    // A token that expired long ago no longer validates.
    let old = DateTime { year: 2001, month: 1, day: 1, hour: 0, minute: 0, second: 0, nanosecond: 0 };
    let stale = create_token(&"42".to_string(), old, 1, &secret).unwrap();
    assert_eq!(decode_token(&stale, &secret), None);
    assert!(create_token(&"42".to_string(), issued, i64::MAX, &secret).is_none());
}

#[test]
fn stored_hashes_are_bcrypt_cost_eight() {
    let h = encrypt_password(&"secret1".to_string()).unwrap();
    assert_eq!(h.len(), 60);
    assert_eq!(&h[..7], "$2b$08$");
    let again = encrypt_password(&"secret1".to_string()).unwrap();
    assert_ne!(h, again);
    assert_eq!(compare_password(&again, &"secret1".to_string()), Some(true));
}

/// Decodes unpadded base64url text.
fn base64url(s: &str) -> Vec<u8> {
    let value = |c: u8| -> u32 {
        match c {
            b'A'..=b'Z' => (c - b'A') as u32,
            b'a'..=b'z' => (c - b'a') as u32 + 26,
            b'0'..=b'9' => (c - b'0') as u32 + 52,
            b'-' => 62,
            b'_' => 63,
            _ => panic!("not base64url"),
        }
    };
    let mut out = Vec::new();
    let (mut acc, mut bits) = (0u32, 0u32);
    for c in s.bytes() {
        acc = (acc << 6) | value(c);
        bits += 6;
        if bits >= 8 {
            bits -= 8;
            out.push((acc >> bits) as u8);
            acc &= (1 << bits) - 1;
        }
    }
    out
}

#[test]
fn token_payload_lists_subject_id_and_expiry_in_order() {
    let issued = DateTime { year: 2099, month: 6, day: 1, hour: 8, minute: 0, second: 0, nanosecond: 5 };
    let t = create_token(&"42".to_string(), issued, 1, &"s3cret".to_string()).unwrap();
    let payload = t.split('.').nth(1).unwrap();
    let text = String::from_utf8(base64url(payload)).unwrap();
    let expiry = chrono::NaiveDate::from_ymd_opt(2099, 6, 2).unwrap().and_hms_opt(8, 0, 0).unwrap().and_utc().timestamp();
    assert_eq!(text, format!("{{\"sub\":\"user\",\"company\":\"42\",\"exp\":{}}}", expiry));
}

#[test]
fn delay_counts_whole_milliseconds_to_the_next_run() {
    assert_eq!(delay_millis(100, 0, 160, 0), 60_000);
    // 9.9995 s truncate to 9999 ms.
    assert_eq!(delay_millis(10, 500_000, 20, 0), 9_999);
    assert_eq!(delay_millis(0, 999_999, 0, 2_000_000), 1);
    // A next run in the past wraps around, as a cast to u64 does.
    assert_eq!(delay_millis(20, 0, 10, 500_000), (-9_999i64) as u64);
    assert_eq!(delay_millis(5, 0, 5, 0), 0);
}

use channel_nest::common::{encode_query, stable_hash, stable_label_fragment, task_suffix};
use channel_nest::count::parse_count_string;
use channel_nest::number::{i64_to_string, parse_i64_str, parse_u64_str, u64_to_string};
use channel_nest::order::{sorted_unique, str_lt};
use channel_nest::text::{lower_str, split_once_str, split_str, strip_leading_str, trim_str};

fn fnv(value: &str, seed: u64) -> u64 {
    let mut hash = seed;
    for byte in value.as_bytes() {
        hash = (hash ^ (*byte as u64)).wrapping_mul(0x100000001b3);
    }
    hash
}

#[test]
fn count_text_with_units() {
    assert_eq!(parse_count_string("1.2万"), Some(12000));
    assert_eq!(parse_count_string("3,456"), Some(3456));
    assert_eq!(parse_count_string("1.5k"), Some(1500));
    assert_eq!(parse_count_string("2亿"), Some(200_000_000));
    assert_eq!(parse_count_string("0.5"), Some(1));
    assert_eq!(parse_count_string(" 12 次 "), Some(12));
}

#[test]
fn count_text_without_a_number() {
    assert_eq!(parse_count_string(""), None);
    assert_eq!(parse_count_string("abc"), None);
    assert_eq!(parse_count_string(" , "), None);
}

#[test]
fn integers_to_text_and_back() {
    assert_eq!(u64_to_string(0), "0");
    assert_eq!(u64_to_string(18446744073709551615), "18446744073709551615");
    assert_eq!(i64_to_string(-42), "-42");
    assert_eq!(i64_to_string(i64::MIN), "-9223372036854775808");
    assert_eq!(parse_i64_str("+7"), Some(7));
    assert_eq!(parse_i64_str("-9223372036854775808"), Some(i64::MIN));
    assert_eq!(parse_i64_str("9223372036854775808"), None);
    assert_eq!(parse_u64_str("-1"), None);
    assert_eq!(parse_u64_str(""), None);
    assert_eq!(parse_u64_str("007"), Some(7));
}

#[test]
fn text_helpers_match_std() {
    assert_eq!(split_str("a;b;;c", ';'), vec!["a", "b", "", "c"]);
    assert_eq!(split_str("", ';'), vec![""]);
    assert_eq!(split_once_str("k=v=w", '='), Some(("k".to_string(), "v=w".to_string())));
    assert_eq!(split_once_str("kv", '='), None);
    assert_eq!(trim_str("\u{3000} x \n"), "x");
    assert_eq!(lower_str("AbC-Ä"), "abc-Ä");
    assert_eq!(strip_leading_str("//a/b", '/'), "a/b");
}

#[test]
fn stable_hash_is_fnv1a() {
    assert_eq!(stable_hash("", 5), 5);
    assert_eq!(stable_hash("abc", 0xcbf29ce484222325), fnv("abc", 0xcbf29ce484222325));
    assert_eq!(stable_label_fragment("user-1"), format!("{:016x}", fnv("user-1", 0xcbf29ce484222325)));
    assert_eq!(stable_label_fragment("").len(), 16);
}

#[test]
fn task_suffix_takes_eight_characters() {
    assert_eq!(task_suffix("abcdefghijk"), "abcdefgh");
    assert_eq!(task_suffix("任务一二三四五六七"), "任务一二三四五六");
    assert_eq!(task_suffix("abc"), "abc");
}

#[test]
fn query_values_are_form_encoded() {
    assert_eq!(encode_query("a b&c"), "a+b%26c");
    assert_eq!(encode_query("小"), "%E5%B0%8F");
    assert_eq!(encode_query("A-z_0.9*~"), "A-z_0.9*%7E");
}

#[test]
fn strings_sort_as_std_does() {
    assert!(str_lt("a", "b"));
    assert!(str_lt("ab", "abc"));
    assert!(!str_lt("b", "a"));
    assert!(!str_lt("a", "a"));
    let mut expected = vec!["私密".to_string(), "b".to_string(), "a".to_string(), "置顶".to_string(), "a".to_string()];
    let got = sorted_unique(expected.clone());
    expected.sort();
    expected.dedup();
    assert_eq!(got, expected);
}

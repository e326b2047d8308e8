use sheepit_manager::hardware::get_nvidia_gpus;
use sheepit_manager::hardware::shorten_gpu_name;
use sheepit_manager::text::bool_str;
use sheepit_manager::text::dec_u64;
use sheepit_manager::text::hex_digit_str;
use sheepit_manager::text::str_eq;

#[test]
fn decimal_rendering_matches_the_usual_one() {
    assert_eq!(dec_u64(0), "0");
    assert_eq!(dec_u64(7), "7");
    assert_eq!(dec_u64(10), "10");
    assert_eq!(dec_u64(409), "409");
    assert_eq!(dec_u64(65535), "65535");
    assert_eq!(dec_u64(u64::MAX), "18446744073709551615");
}

#[test]
fn bool_rendering() {
    assert_eq!(bool_str(true), "true");
    assert_eq!(bool_str(false), "false");
}

#[test]
fn hex_digits() {
    assert_eq!(hex_digit_str(0), "0");
    assert_eq!(hex_digit_str(9), "9");
    assert_eq!(hex_digit_str(10), "a");
    assert_eq!(hex_digit_str(15), "f");
}

#[test]
fn string_equality_is_by_content() {
    assert!(str_eq("", ""));
    assert!(str_eq("abc", "abc"));
    assert!(!str_eq("abc", "abd"));
    assert!(!str_eq("abc", "ab"));
    assert!(str_eq("wörker", "wörker"));
    assert!(!str_eq("wörker", "worker"));
}

#[test]
fn gpu_names_shorten_like_the_configuration_expects() {
    assert_eq!(shorten_gpu_name("NVIDIA GeForce RTX 3080"), "3080");
    assert_eq!(shorten_gpu_name("NVIDIA GeForce RTX 3080 Ti"), "3080ti");
    assert_eq!(shorten_gpu_name("NVIDIA GeForce GTX 1070"), "1070");
    assert_eq!(shorten_gpu_name("Tesla C2070"), "teslac2070");
    assert_eq!(shorten_gpu_name("NVIDIA RTX A4000"), "nvidiartxa4000");
    assert_eq!(shorten_gpu_name(""), "");
}

#[test]
fn gpu_enumeration_reports_consistent_entries() {
    // On machines without the NVIDIA driver this errors, which is fine;
    // when it succeeds, every entry must agree with the shortening rule.
    if let Ok(gpus) = get_nvidia_gpus() {
        for (i, gpu) in gpus.iter().enumerate() {
            assert_eq!(gpu.index as usize, i);
            assert_eq!(gpu.short_name, shorten_gpu_name(&gpu.gpu_name));
        }
    }
}

//! PowerShell escaping and the speech-rate conversion formulas.
use aoe4_overlay::platform::escape_powershell;

#[test]
fn test_escape_powershell_basic() {
    assert_eq!(escape_powershell("hello"), "hello");
    assert_eq!(escape_powershell(""), "");
}

#[test]
fn test_escape_powershell_single_quotes() {
    assert_eq!(escape_powershell("it's"), "it''s");
    assert_eq!(escape_powershell(&"'".repeat(3)), "'".repeat(6));
}

#[test]
fn test_escape_powershell_special_chars() {
    assert_eq!(escape_powershell("$var"), "`$var");
    assert_eq!(escape_powershell("`backtick"), "``backtick");
    assert_eq!(escape_powershell("test\"quote"), "test`\"quote");
    assert_eq!(escape_powershell("back\\slash"), "back`\\slash");
}

#[test]
fn test_escape_powershell_whitespace() {
    assert_eq!(escape_powershell("line\nbreak"), "line`nbreak");
    assert_eq!(escape_powershell("tab\there"), "tab`there");
    assert_eq!(escape_powershell("\r"), "`r");
}

#[test]
fn test_escape_powershell_null_byte() {
    assert_eq!(escape_powershell("null\0byte"), "nullbyte");
}

#[test]
fn platform_test_escape_powershell_unicode() {
    assert_eq!(escape_powershell("hello world"), "hello world");
    assert_eq!(escape_powershell("日本語"), "日本語");
}

#[test]
fn test_escape_powershell_path_injection() {
    let malicious = "'; Remove-Item -Recurse C:\\; '";
    let escaped = escape_powershell(malicious);
    // The single quotes are doubled, preventing breakout of the quoted string.
    assert!(escaped.contains("''"));
    assert!(escaped.starts_with("'';"));
}

#[test]
fn test_escape_powershell() {
    assert_eq!(escape_powershell("hello"), "hello");
    assert_eq!(escape_powershell("it's"), "it''s");
    assert_eq!(escape_powershell("$var"), "`$var");
    assert_eq!(escape_powershell("`backtick"), "``backtick");
    assert_eq!(escape_powershell("line\nbreak"), "line`nbreak");
    assert_eq!(escape_powershell("test\"quote"), "test`\"quote");
    assert_eq!(escape_powershell("back\\slash"), "back`\\slash");
    assert_eq!(escape_powershell("tab\there"), "tab`there");
    assert_eq!(escape_powershell("null\0byte"), "nullbyte");
}

#[test]
fn test_escape_powershell_empty_string() {
    assert_eq!(escape_powershell(""), "");
}

#[test]
fn tts_test_escape_powershell_unicode() {
    assert_eq!(escape_powershell("hello world"), "hello world");
    assert_eq!(escape_powershell("émojis"), "émojis");
    assert_eq!(escape_powershell("日本語"), "日本語");
}

#[test]
fn test_escape_powershell_multiple_special_chars() {
    assert_eq!(escape_powershell("$a$b$c"), "`$a`$b`$c");
    assert_eq!(escape_powershell(&"'".repeat(3)), "'".repeat(6));
    assert_eq!(escape_powershell("\n\r\t"), "`n`r`t");
}

#[test]
fn test_escape_powershell_carriage_return() {
    assert_eq!(escape_powershell("\r"), "`r");
    assert_eq!(escape_powershell("line\r\nend"), "line`r`nend");
}

#[test]
fn test_rate_clamping() {
    // Rate should be clamped to reasonable SAPI values (-10 to 10)
    let low_rate = ((0.0_f32 - 1.0) * 5.0).clamp(-10.0, 10.0) as i32;
    assert_eq!(low_rate, -5);

    let normal_rate = ((1.0_f32 - 1.0) * 5.0).clamp(-10.0, 10.0) as i32;
    assert_eq!(normal_rate, 0);

    let high_rate = ((3.0_f32 - 1.0) * 5.0).clamp(-10.0, 10.0) as i32;
    assert_eq!(high_rate, 10);

    let extreme_high = ((10.0_f32 - 1.0) * 5.0).clamp(-10.0, 10.0) as i32;
    assert_eq!(extreme_high, 10);
}

#[test]
fn test_rate_clamping_negative_extreme() {
    let extreme_low = ((-5.0_f32 - 1.0) * 5.0).clamp(-10.0, 10.0) as i32;
    assert_eq!(extreme_low, -10);
}

#[test]
fn test_rate_clamping_boundary() {
    let at_lower_bound = ((-1.0_f32 - 1.0) * 5.0).clamp(-10.0, 10.0) as i32;
    assert_eq!(at_lower_bound, -10);

    let at_upper_bound = ((3.0_f32 - 1.0) * 5.0).clamp(-10.0, 10.0) as i32;
    assert_eq!(at_upper_bound, 10);
}

#[test]
fn test_macos_wpm_calculation() {
    // The macOS speech rate is WPM = rate * 200
    let slow_wpm = (0.5_f32 * 200.0) as i32;
    assert_eq!(slow_wpm, 100);

    let normal_wpm = (1.0_f32 * 200.0) as i32;
    assert_eq!(normal_wpm, 200);

    let fast_wpm = (2.0_f32 * 200.0) as i32;
    assert_eq!(fast_wpm, 400);
}

#[test]
fn test_macos_wpm_edge_cases() {
    let very_slow = (0.1_f32 * 200.0) as i32;
    assert_eq!(very_slow, 20);

    let very_fast = (5.0_f32 * 200.0) as i32;
    assert_eq!(very_fast, 1000);

    let zero = (0.0_f32 * 200.0) as i32;
    assert_eq!(zero, 0);
}

#[test]
fn test_rate_to_sapi_conversion() {
    let normal = ((1.0_f32 - 1.0) * 5.0) as i32;
    assert_eq!(normal, 0);

    let double_speed = ((2.0_f32 - 1.0) * 5.0) as i32;
    assert_eq!(double_speed, 5);

    let half_speed = ((0.5_f32 - 1.0) * 5.0) as i32;
    assert_eq!(half_speed, -2);
}

#[test]
fn test_rate_negative_value() {
    let negative_rate = ((-2.0_f32 - 1.0) * 5.0).clamp(-10.0, 10.0) as i32;
    assert_eq!(negative_rate, -10);
}

#[test]
fn test_rate_fractional_values() {
    let rate_1_25 = ((1.25_f32 - 1.0) * 5.0).clamp(-10.0, 10.0) as i32;
    assert_eq!(rate_1_25, 1);

    let rate_1_5 = ((1.5_f32 - 1.0) * 5.0).clamp(-10.0, 10.0) as i32;
    assert_eq!(rate_1_5, 2);

    let rate_0_75 = ((0.75_f32 - 1.0) * 5.0).clamp(-10.0, 10.0) as i32;
    assert_eq!(rate_0_75, -1);
}

#[test]
fn test_rate_very_large() {
    let huge_rate = ((100.0_f32 - 1.0) * 5.0).clamp(-10.0, 10.0) as i32;
    assert_eq!(huge_rate, 10);
}

#[test]
fn test_macos_wpm_negative_rate() {
    let negative_wpm = (-1.0_f32 * 200.0) as i32;
    assert_eq!(negative_wpm, -200);
}

#[test]
fn test_macos_wpm_fractional_rate() {
    let wpm_1_5 = (1.5_f32 * 200.0) as i32;
    assert_eq!(wpm_1_5, 300);

    let wpm_0_25 = (0.25_f32 * 200.0) as i32;
    assert_eq!(wpm_0_25, 50);
}

#[test]
fn test_escape_powershell_all_special_chars_combined() {
    // Every escapable character in one string (dollar, backtick, double
    // quote, single quote, backslash, newline, carriage return, tab) plus
    // a removed null byte, given by character codes.
    let input: String = [36u8, 96, 34, 39, 92, 10, 13, 9, 0]
        .iter()
        .map(|&b| b as char)
        .collect();
    let expected: String = [
        96u8, 36, 96, 96, 96, 34, 39, 39, 96, 92, 96, 110, 96, 114, 96, 116,
    ]
    .iter()
    .map(|&b| b as char)
    .collect();
    assert_eq!(escape_powershell(&input), expected);
}

#[test]
fn test_escape_powershell_long_string() {
    let long_text = "a".repeat(1000);
    let result = escape_powershell(&long_text);
    assert_eq!(result.len(), 1000);
}

#[test]
fn test_escape_powershell_single_quotes_sequence() {
    assert_eq!(escape_powershell(&"'".repeat(4)), "'".repeat(8));
}

#[test]
fn test_escape_powershell_mixed_escapes() {
    let text = "Build 5 villagers! Then say: \"Go!\"";
    let result = escape_powershell(text);
    assert!(result.contains("`\""));
    assert!(!result.contains("\n"));
}

#[test]
fn test_sapi_rate_precision() {
    let rate_1_1 = ((1.1_f32 - 1.0) * 5.0).clamp(-10.0, 10.0) as i32;
    assert_eq!(rate_1_1, 0);

    let rate_1_2 = ((1.2_f32 - 1.0) * 5.0).clamp(-10.0, 10.0) as i32;
    assert_eq!(rate_1_2, 1);
}

#[test]
fn test_sapi_rate_at_clamp_boundaries() {
    let at_min = ((-1.0_f32 - 1.0) * 5.0).clamp(-10.0, 10.0) as i32;
    assert_eq!(at_min, -10);

    let at_max = ((3.0_f32 - 1.0) * 5.0).clamp(-10.0, 10.0) as i32;
    assert_eq!(at_max, 10);
}

//! Tests of the report parsers against real-shaped control-program
//! output.

use ogage::parse::{brightness_report_value, volume_report_value};

#[test]
fn brightness_report_fourth_field() {
    let out = b"gpio-backlight,backlight,160,63%,255\n";
    assert_eq!(brightness_report_value(out), Some(63));
}

#[test]
fn brightness_report_with_spaces() {
    let out = b"dev,backlight,1, 7 %,255\n";
    assert_eq!(brightness_report_value(out), Some(7));
}

#[test]
fn brightness_report_short_reads_as_fallback() {
    assert_eq!(brightness_report_value(b"nothing useful\n"), Some(50));
    assert_eq!(brightness_report_value(b"a,b,c"), Some(50));
    assert_eq!(brightness_report_value(b""), Some(50));
}

#[test]
fn brightness_report_bad_number_is_an_error() {
    assert_eq!(brightness_report_value(b"a,b,c,xx,255\n"), None);
    assert_eq!(brightness_report_value(b"a,b,c,,255\n"), None);
    assert_eq!(brightness_report_value(b"a,b,c,99999999999,z\n"), None);
}

#[test]
fn brightness_report_accepts_a_plus_sign() {
    assert_eq!(brightness_report_value(b"a,b,c,+42,z\n"), Some(42));
    assert_eq!(brightness_report_value(b"a,b,c,+,z\n"), None);
}

#[test]
fn volume_report_last_line_bracket_token() {
    let out = b"Simple mixer control 'Playback',0\n\
  Capabilities: pvolume pswitch\n\
  Front Left: Playback 255 [100%] [0.00dB] [on]\n\
  Mono: Playback 191 [75%] [-20.25dB] [on]\n";
    assert_eq!(volume_report_value(out), Some(75));
}

#[test]
fn volume_report_skips_decibel_tokens() {
    let out = b"x\n  Mono: [-20.25dB] [75%] [on]\n";
    assert_eq!(volume_report_value(out), Some(75));
}

#[test]
fn volume_report_without_brackets_reads_as_fallback() {
    assert_eq!(volume_report_value(b"no volume here\n"), Some(50));
    assert_eq!(volume_report_value(b"\n"), Some(50));
}

#[test]
fn volume_report_empty_output_is_an_error() {
    assert_eq!(volume_report_value(b""), None);
}

#[test]
fn volume_report_non_numeric_token_is_an_error() {
    // A bracketed switch state before the percentage is taken first and
    // fails the number parse: the daemon treats that as fatal.
    assert_eq!(volume_report_value(b"x\n  Mono: Playback [on] [75%]\n"), None);
}

#[test]
fn volume_report_reads_only_the_last_line() {
    let out = b"  Front Left: Playback 255 [100%] [on]\n  Mono: Playback 0 [0%] [off]\n";
    assert_eq!(volume_report_value(out), Some(0));
}

#[test]
fn volume_report_handles_crlf() {
    let out = b"header\r\n  Mono: Playback 128 [50%] [on]\r\n";
    assert_eq!(volume_report_value(out), Some(50));
}

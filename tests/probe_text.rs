use zkom_client::{
    cpu_serial_from_cpuinfo, cuda_version_from_nvcc, lines_of, parse_reading, parse_small_reading, parse_u64,
    trim_text, words_of,
};

#[test]
fn trims_unicode_whitespace() {
    assert_eq!(trim_text("  42 \n"), "42");
    assert_eq!(trim_text("\u{3000}x y\u{a0}"), "x y");
    assert_eq!(trim_text(" \t\r\n"), "");
    assert_eq!(trim_text(""), "");
}

#[test]
fn parses_like_str_parse() {
    assert_eq!(parse_u64("0"), Some(0));
    assert_eq!(parse_u64("+17"), Some(17));
    assert_eq!(parse_u64("18446744073709551615"), Some(u64::MAX));
    assert_eq!(parse_u64("18446744073709551616"), None);
    assert_eq!(parse_u64(""), None);
    assert_eq!(parse_u64("+"), None);
    assert_eq!(parse_u64("-1"), None);
    assert_eq!(parse_u64("12a"), None);
    assert_eq!(parse_u64(" 1"), None);
    for s in ["0", "+17", "18446744073709551616", "", "+", "-1", "12a", "007"] {
        assert_eq!(parse_u64(s), s.parse::<u64>().ok(), "{}", s);
    }
}

#[test]
fn gpu_readings() {
    assert_eq!(parse_reading("24576\n"), Some(24576));
    assert_eq!(parse_small_reading(" 87 \n"), Some(87));
    assert_eq!(parse_small_reading("256\n"), None);
    assert_eq!(parse_small_reading("[N/A]\n"), None);
}

#[test]
fn lines_match_str_lines() {
    for s in ["", "a", "a\n", "a\r\nb", "a\r\nb\r", "\n", "x\n\ny\n"] {
        let expected: Vec<String> = s.lines().map(|l| l.to_string()).collect();
        assert_eq!(lines_of(s), expected, "{:?}", s);
    }
}

#[test]
fn words_match_split_whitespace() {
    for s in ["", "  ", "a", " a  bb\tc ", "Cuda compilation tools, release 12.2, V12.2.140"] {
        let expected: Vec<String> = s.split_whitespace().map(|w| w.to_string()).collect();
        assert_eq!(words_of(s), expected, "{:?}", s);
    }
}

#[test]
fn cpu_serial_lookup() {
    let info = "processor\t: 0\nHardware\t: BCM2835\nSerial\t\t: 00000000abcdef01\nModel\t: Pi\n";
    assert_eq!(cpu_serial_from_cpuinfo(info), "00000000abcdef01");
    assert_eq!(cpu_serial_from_cpuinfo("processor : 0\nmodel name : x\n"), "unknown");
    assert_eq!(cpu_serial_from_cpuinfo("Serial number\n"), "unknown");
    assert_eq!(cpu_serial_from_cpuinfo("Serial : a : b\n"), "a");
}

#[test]
fn cuda_version_lookup() {
    let out = "nvcc: NVIDIA (R) Cuda compiler driver\nCopyright (c) 2005-2023 NVIDIA Corporation\nCuda compilation tools, release 12.2, V12.2.140\nBuild cuda_12.2\n";
    assert_eq!(cuda_version_from_nvcc(out).as_deref(), Some("V12.2.140"));
    assert_eq!(cuda_version_from_nvcc("no such line\n"), None);
    assert_eq!(cuda_version_from_nvcc("release 1\n"), None);
}

use zoh_monitor::hardware::{
    counter_text, get_gpu_name_fallback, get_gpu_usage_fallback, get_vram_total_fallback,
    get_wifi_signal, gpu_name, nvidia_reading, vram_total, wifi_signal, NvidiaReading,
};

#[test]
fn wifi_signal_is_the_number_behind_the_last_colon() {
    let text = "\r\n    Name                   : Wi-Fi\r\n    State                  : connected\r\n    Signal                 : 87%\r\n    Profile : x\r\n";
    assert_eq!(wifi_signal(text), 87);
    assert_eq!(get_wifi_signal(Some(text.as_bytes())), 87);
}

#[test]
fn wifi_signal_skips_lines_without_a_number() {
    assert_eq!(wifi_signal("Signal strength\nSignal : ?\nSignal : 41%%\nSignal : 12%"), 41);
    assert_eq!(wifi_signal("signal : 50%"), 0);
    assert_eq!(wifi_signal("Signal : 4294967296%"), 0);
    assert_eq!(get_wifi_signal(None), 0);
    assert_eq!(get_wifi_signal(Some(b"")), 0);
}

#[test]
fn wifi_signal_survives_invalid_bytes() {
    assert_eq!(get_wifi_signal(Some(b"\xff\xfe\nSignal : 9%\n")), 9);
}

#[test]
fn gpu_name_is_the_first_line_behind_the_heading() {
    assert_eq!(gpu_name("Name                     \r\r\nNVIDIA GeForce RTX 3070  \r\r\n\r\r\n"), "NVIDIA GeForce RTX 3070");
    assert_eq!(get_gpu_name_fallback(Some(b"Name\nIntel UHD\nOther\n")), "Intel UHD");
    assert_eq!(gpu_name("Name\n\n"), "N/A");
    assert_eq!(get_gpu_name_fallback(None), "N/A");
}

#[test]
fn vram_is_the_first_line_with_a_number() {
    assert_eq!(vram_total("AdapterRAM  \r\n4293918720  \r\n\r\n"), 4293918720);
    assert_eq!(vram_total("AdapterRAM\nmany\n12\n13\n"), 12);
    assert_eq!(get_vram_total_fallback(Some(b"AdapterRAM\n")), 0);
    assert_eq!(get_vram_total_fallback(None), 0);
}

#[test]
fn nvidia_reports_load_and_memory() {
    assert_eq!(
        nvidia_reading("35, 2048\n"),
        NvidiaReading::Present { usage: "35".to_string(), vram: 2048 * 1024 * 1024 }
    );
    assert_eq!(
        get_gpu_usage_fallback(Some(b" 5 , [N/A], x")),
        NvidiaReading::Present { usage: "5".to_string(), vram: 0 }
    );
}

#[test]
fn nvidia_with_two_cards_counts_no_memory() {
    assert_eq!(
        nvidia_reading("5, 300\n7, 400\n"),
        NvidiaReading::Present { usage: "5".to_string(), vram: 0 }
    );
}

#[test]
fn nvidia_without_a_reading() {
    assert_eq!(nvidia_reading("no devices were found"), NvidiaReading::Absent);
    assert_eq!(get_gpu_usage_fallback(None), NvidiaReading::Absent);
    assert_eq!(nvidia_reading("1, 17592186044416"), NvidiaReading::OutOfRange);
    assert_eq!(
        nvidia_reading("1, 17592186044415"),
        NvidiaReading::Present { usage: "1".to_string(), vram: 17592186044415 * 1048576 }
    );
}

#[test]
fn counters_are_trimmed() {
    assert_eq!(counter_text(Some(b" 12.5\r\n")), Some("12.5".to_string()));
    assert_eq!(counter_text(None), None);
}

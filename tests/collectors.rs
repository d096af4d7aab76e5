use rushfetch::collectors::{
    default_route_interface, detect_gpu, detect_gpu_pci, disk_usage, gpu_from_ids, is_card_entry,
    memory_figures, meminfo_totals, parse_u64, public_ip_from_response, read_cpu_model,
    read_kernel_version, read_meminfo, shell_name, uevent_has_pci_id,
};
use rushfetch::config::Config;
use rushfetch::plan::requests_field;
use rushfetch::registry::InfoField;
use rushfetch::scan::{join_words, split_words, trim};

#[test]
fn parse_u64_like_std() {
    for t in ["0", "42", "+7", "", "+", "-1", "12a", "18446744073709551615", "18446744073709551616", "007", " 1"] {
        assert_eq!(parse_u64(t), t.parse::<u64>().ok(), "text {:?}", t);
    }
}

#[test]
fn words_and_trim_like_std() {
    for t in ["", "  a  b\tc\n", "x", "\u{3000}wide\u{A0}space ", "   "] {
        let expected: Vec<String> = t.split_whitespace().map(String::from).collect();
        assert_eq!(split_words(t, false), expected);
        let ascii: Vec<String> = t.split_ascii_whitespace().map(String::from).collect();
        assert_eq!(split_words(t, true), ascii);
        assert_eq!(trim(t), t.trim());
    }
    assert_eq!(join_words(&vec!["a".to_string(), "b".to_string(), "c".to_string()]), "a b c");
    assert_eq!(join_words(&vec![]), "");
}

#[test]
fn kernel_version() {
    let t = "Linux version 6.9.3-arch1-1 (linux@archlinux) (gcc 14.1.1) #1 SMP\n";
    assert_eq!(read_kernel_version(t), Some("6.9.3-arch1-1".to_string()));
    assert_eq!(read_kernel_version("FreeBSD 14"), None);
    assert_eq!(read_kernel_version("Linux version    "), None);
}

#[test]
fn cpu_model_from_x86_cpuinfo() {
    let t = "processor\t: 0\nvendor_id\t: AuthenticAMD\nmodel name\t: AMD  Ryzen 7   5800X 8-Core Processor  \nprocessor\t: 1\nmodel name\t: other\n";
    assert_eq!(read_cpu_model(t), Some("AMD Ryzen 7 5800X 8-Core Processor".to_string()));
}

#[test]
fn cpu_model_from_arm_cpuinfo() {
    let t = "processor : 0\nmodel name :   \nHardware : BCM2835 board \n";
    assert_eq!(read_cpu_model(t), Some("BCM2835 board".to_string()));
    assert_eq!(read_cpu_model("processor : 0\n"), None);
}

#[test]
fn pci_display_controllers() {
    let devices = "0000\t80862918\t0\n0010\t030010de\t11\n";
    assert_eq!(detect_gpu_pci(devices), Some("(detected, install lspci for details)".to_string()));
    assert_eq!(detect_gpu_pci("0000\t0302abcd"), Some("(detected, install lspci for details)".to_string()));
    assert_eq!(detect_gpu_pci("0000\t02001234\n0300\n"), None);
    assert_eq!(detect_gpu(Some("0x10de 0x2484".to_string()), Some(devices)), Some("0x10de 0x2484".to_string()));
    assert_eq!(detect_gpu(None, None), None);
    assert!(detect_gpu(None, Some(devices)).is_some());
}

#[test]
fn drm_decisions() {
    assert!(is_card_entry("card0"));
    assert!(!is_card_entry("card0-HDMI-A-1"));
    assert!(!is_card_entry("renderD128"));
    assert_eq!(gpu_from_ids("0x10de\n", " 0x2484\n"), Some("0x10de 0x2484".to_string()));
    assert_eq!(gpu_from_ids("0x10de", "  \n"), None);
    assert!(uevent_has_pci_id("DRIVER=nvidia\nPCI_ID=10DE:2484\n"));
    assert!(!uevent_has_pci_id("DRIVER=simpledrm\n"));
}

#[test]
fn meminfo_figures() {
    let t = "MemTotal:       16303428 kB\nMemFree:         1000000 kB\nMemAvailable:    8151714 kB\nSwapTotal:       2097148 kB\nSwapFree:        1048574 kB\n";
    assert_eq!(meminfo_totals(t), (16303428, 8151714, 2097148, 1048574));
    assert_eq!(read_meminfo(t), (7960, 15921, 1023, 2047));
    assert_eq!(read_meminfo(""), (0, 0, 0, 0));
    assert_eq!(meminfo_totals("MemTotal: x kB\nSwapTotal:\n"), (0, 0, 0, 0));
    assert_eq!(memory_figures(100, 5000, 0, 0), (0, 0, 0, 0));
}

#[test]
fn disk_figures() {
    let gib = 1u64 << 30;
    assert_eq!(disk_usage(100 * gib / 4096, 40 * gib / 4096, 4096), (60, 100));
    assert_eq!(disk_usage(0, 0, 4096), (0, 0));
}

#[test]
fn default_route() {
    let t = "Iface\tDestination\tGateway\nwlan0\t0010A8C0\t00000000\neth0\t00000000\t0101A8C0\nwg0\t00000000\t0\n";
    assert_eq!(default_route_interface(t), Some("eth0".to_string()));
    assert_eq!(default_route_interface("Iface\tDestination\n"), None);
    assert_eq!(default_route_interface(""), None);
    assert_eq!(default_route_interface("eth0 00000000\n"), None);
}

#[test]
fn public_ip_body() {
    let r = "HTTP/1.1 200 OK\r\nContent-Type: text/plain\r\n\r\n203.0.113.7\n";
    assert_eq!(public_ip_from_response(r), Some("203.0.113.7".to_string()));
    assert_eq!(public_ip_from_response("HTTP/1.1 200 OK\r\n"), None);
    assert_eq!(public_ip_from_response("a\r\n\r\n b \r\n\r\nc"), Some("b".to_string()));
}

#[test]
fn shell_names() {
    assert_eq!(shell_name(Some("/usr/bin/zsh")), Some("zsh".to_string()));
    assert_eq!(shell_name(Some("fish")), Some("fish".to_string()));
    assert_eq!(shell_name(Some("/bin/")), Some(String::new()));
    assert_eq!(shell_name(None), None);
}

#[test]
fn lazy_fields_are_requested_only_when_shown() {
    let mut c = Config::default();
    assert!(requests_field(&c, InfoField::Gpu));
    assert!(!requests_field(&c, InfoField::PublicIp));
    c.categories[4].enabled = true;
    assert!(requests_field(&c, InfoField::PublicIp));
    c.categories[1].fields = vec![InfoField::Cpu];
    assert!(!requests_field(&c, InfoField::Gpu));
}

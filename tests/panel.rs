use rushfetch::art::{art_for_id, art_kind, builtin_ascii, load_ascii_art, ArtKind};
use rushfetch::config::{
    default_accent_color, default_ascii_width, default_categories, default_true, AsciiConfig,
    CategoryConfig, Config, CustomField, Theme,
};
use rushfetch::facts::{decimal_string, format_uptime, SysData};
use rushfetch::lines::{dot_label, Span};
use rushfetch::localization::{category_icon, localize_category, localize_field};
use rushfetch::plan::{build_plan, custom_value, resolve_fields, PlanRow};
use rushfetch::registry::{default_fields, BuiltinCategory, InfoField, Language};
use rushfetch::release::{get_os_release_id, read_os_pretty_name};
use rushfetch::render::Renderer;
use rushfetch::style::color_name;
use rushfetch::width::unicode_str_width;

fn sample_data() -> SysData {
    SysData {
        os: Some("Arch Linux".to_string()),
        kernel: Some("6.9.1".to_string()),
        arch: "x86_64",
        host: Some("box".to_string()),
        cpu: Some("AMD Ryzen".to_string()),
        gpu: None,
        memory_used_mb: 1024,
        memory_total_mb: 16000,
        swap_used_mb: 0,
        swap_total_mb: 0,
        disk_used_gb: 40,
        disk_total_gb: 512,
        uptime_secs: 90061,
        shell: Some("zsh".to_string()),
        terminal: None,
        de: None,
        local_ip: None,
        public_ip: None,
    }
}

fn hidden_config() -> Config {
    let mut c = Config::default();
    for cat in c.categories.iter_mut() {
        cat.enabled = false;
    }
    c.ascii.enabled = false;
    c
}

#[test]
fn defaults_are_as_documented() {
    assert!(default_true());
    assert_eq!(default_ascii_width(), 20);
    assert_eq!(default_accent_color(), "bright_cyan");
    let cats = default_categories();
    let order: Vec<BuiltinCategory> = cats.iter().map(|c| c.category).collect();
    assert_eq!(
        order,
        vec![
            BuiltinCategory::System,
            BuiltinCategory::Hardware,
            BuiltinCategory::Res,
            BuiltinCategory::Env,
            BuiltinCategory::Net
        ]
    );
    assert_eq!(cats.iter().filter(|c| c.enabled).count(), 4);
    assert!(!cats[4].enabled);
    let c = Config::default();
    assert_eq!(c.language, Language::English);
    assert!(c.show_icons);
    assert_eq!(c.ascii.width, 20);
    assert_eq!(c.theme.primary, "bright_yellow");
    assert_eq!(c.theme.separator, "bright_black");
    assert_eq!(Language::default(), Language::English);
    assert_eq!(Theme::default().accent, "bright_magenta");
    assert_eq!(AsciiConfig::default().color, "bright_cyan");
}

#[test]
fn category_defaults() {
    assert_eq!(default_fields(BuiltinCategory::System), vec![InfoField::Os, InfoField::Kernel, InfoField::Arch]);
    assert_eq!(default_fields(BuiltinCategory::Hardware), vec![InfoField::Host, InfoField::Cpu, InfoField::Gpu]);
    assert_eq!(default_fields(BuiltinCategory::Env).len(), 4);
    assert_eq!(default_fields(BuiltinCategory::Net), vec![InfoField::LocalIp, InfoField::PublicIp]);
}

#[test]
fn override_order_is_kept() {
    let c = CategoryConfig {
        category: BuiltinCategory::Hardware,
        enabled: true,
        fields: vec![InfoField::Cpu, InfoField::Os],
    };
    assert_eq!(resolve_fields(&c), vec![InfoField::Cpu, InfoField::Os]);
    let d = CategoryConfig { category: BuiltinCategory::Hardware, enabled: true, fields: vec![] };
    assert_eq!(resolve_fields(&d), vec![InfoField::Host, InfoField::Cpu, InfoField::Gpu]);
}

#[test]
fn labels_and_icons() {
    assert_eq!(localize_category(BuiltinCategory::Res, Language::English), "Resources");
    assert_eq!(localize_category(BuiltinCategory::Net, Language::Russian), "Сеть");
    assert_eq!(localize_field(InfoField::De, Language::English), "DE / WM");
    assert_eq!(localize_field(InfoField::Memory, Language::Russian), "Память");
    assert_eq!(category_icon(BuiltinCategory::System), "󰍛 ");
}

#[test]
fn decimal_and_uptime() {
    assert_eq!(decimal_string(0), "0");
    assert_eq!(decimal_string(1907), "1907");
    assert_eq!(decimal_string(u64::MAX), u64::MAX.to_string());
    assert_eq!(format_uptime(0), "0h 0m");
    assert_eq!(format_uptime(3661), "1h 1m");
    assert_eq!(format_uptime(90061), "1d 1h 1m");
    assert_eq!(format_uptime(86399), "23h 59m");
}

#[test]
fn zero_swap_reads_na() {
    let d = sample_data();
    assert_eq!(d.get(InfoField::Swap), Some("N/A".to_string()));
    let mut e = sample_data();
    e.swap_total_mb = 2048;
    e.swap_used_mb = 12;
    assert_eq!(e.get(InfoField::Swap), Some("12 MB / 2048 MB".to_string()));
}

#[test]
fn facts_lookup() {
    let d = sample_data();
    assert_eq!(d.get(InfoField::Memory), Some("1024 MB / 16000 MB".to_string()));
    assert_eq!(d.get(InfoField::Disk), Some("40 GB / 512 GB".to_string()));
    assert_eq!(d.get(InfoField::Uptime), Some("1d 1h 1m".to_string()));
    assert_eq!(d.get(InfoField::Arch), Some("x86_64".to_string()));
    assert_eq!(d.get(InfoField::Terminal), None);
    assert_eq!(d.get(InfoField::Os), Some("Arch Linux".to_string()));
}

#[test]
fn hidden_categories_give_empty_plan() {
    let c = hidden_config();
    let plan = build_plan(&c, &sample_data(), &vec![]);
    assert!(plan.is_empty());
    let data = sample_data();
    let r = Renderer::new(&c, &data, None, None);
    let info = r.styled_info("me@box", &vec![]);
    assert_eq!(info.len(), 3);
    assert_eq!(info[0][0].text, "me@box");
    assert_eq!(info[1][0].text, "──────");
    assert!(info[2].is_empty());
    let out = r.render("me@box", &vec![]);
    assert_eq!(out.len(), 5);
    assert_eq!(out[0], "");
    assert_eq!(out[4], "");
}

#[test]
fn plan_skips_unknown_facts() {
    let mut c = hidden_config();
    c.categories[3].enabled = true;
    let plan = build_plan(&c, &sample_data(), &vec![]);
    assert_eq!(plan.len(), 4);
    assert!(matches!(plan[0], PlanRow::Category(BuiltinCategory::Env)));
    assert!(matches!(&plan[1], PlanRow::Field(InfoField::Uptime, v) if v == "1d 1h 1m"));
    assert!(matches!(&plan[2], PlanRow::Field(InfoField::Shell, v) if v == "zsh"));
    assert!(matches!(plan[3], PlanRow::Blank));
}

#[test]
fn plan_keeps_configuration_order() {
    let mut c = hidden_config();
    c.categories = vec![
        CategoryConfig { category: BuiltinCategory::Res, enabled: true, fields: vec![InfoField::Swap] },
        CategoryConfig { category: BuiltinCategory::Hardware, enabled: true, fields: vec![InfoField::Cpu, InfoField::Os] },
    ];
    let plan = build_plan(&c, &sample_data(), &vec![]);
    assert_eq!(plan.len(), 7);
    assert!(matches!(plan[0], PlanRow::Category(BuiltinCategory::Res)));
    assert!(matches!(&plan[1], PlanRow::Field(InfoField::Swap, v) if v == "N/A"));
    assert!(matches!(plan[3], PlanRow::Category(BuiltinCategory::Hardware)));
    assert!(matches!(&plan[4], PlanRow::Field(InfoField::Cpu, v) if v == "AMD Ryzen"));
    assert!(matches!(&plan[5], PlanRow::Field(InfoField::Os, v) if v == "Arch Linux"));
}

#[test]
fn custom_field_without_output_reads_na() {
    assert_eq!(custom_value(None), "N/A");
    assert_eq!(custom_value(Some(String::new())), "N/A");
    assert_eq!(custom_value(Some("42".to_string())), "42");
    let mut c = hidden_config();
    c.custom_fields = vec![
        CustomField { label: "Empty".to_string(), command: "true".to_string() },
        CustomField { label: "Echo".to_string(), command: "echo hi".to_string() },
        CustomField { label: "Missing".to_string(), command: "x".to_string() },
    ];
    let plan = build_plan(&c, &sample_data(), &vec![None, Some("hi".to_string())]);
    assert_eq!(plan.len(), 5);
    assert!(matches!(plan[0], PlanRow::CustomHeader));
    assert!(matches!(&plan[1], PlanRow::Custom(l, v) if l == "Empty" && v == "N/A"));
    assert!(matches!(&plan[2], PlanRow::Custom(l, v) if l == "Echo" && v == "hi"));
    assert!(matches!(&plan[3], PlanRow::Custom(l, v) if l == "Missing" && v == "N/A"));
    assert!(matches!(plan[4], PlanRow::Blank));
}

#[test]
fn field_line_spans() {
    let mut c = hidden_config();
    c.categories[0].enabled = true;
    c.categories[0].fields = vec![InfoField::Cpu];
    let data = sample_data();
    let r = Renderer::new(&c, &data, None, None);
    let info = r.styled_info("u@h", &vec![]);
    assert_eq!(info.len(), 6);
    let header: &Vec<Span> = &info[3];
    assert_eq!(header[0].text, "󰍛 ");
    assert_eq!(header[1].text, "System");
    assert!(header[1].bold);
    let row = &info[4];
    assert_eq!(row[0].text, "  ");
    assert_eq!(row[1].text, "CPU ..........");
    assert_eq!(row[1].color.as_deref(), Some("bright_cyan"));
    assert_eq!(row[3].text, "AMD Ryzen");
    assert_eq!(row[3].color.as_deref(), Some("bright_white"));
    c.show_icons = false;
    let r = Renderer::new(&c, &data, None, None);
    assert_eq!(r.styled_info("u@h", &vec![])[3][0].text, "");
}

#[test]
fn dotted_labels() {
    assert_eq!(dot_label("CPU", 14), "CPU ..........");
    assert_eq!(dot_label("CPU", 14).chars().count(), 14);
    assert_eq!(dot_label("Архитектура", 14).chars().count(), 14);
    assert_eq!(dot_label("A very long label", 14), "A very long label ");
    assert_eq!(dot_label("Mine", 16), "Mine ...........");
}

#[test]
fn color_names() {
    assert_eq!(color_name("bright_black"), "bright black");
    assert_eq!(color_name("red"), "red");
    assert_eq!(color_name("chartreuse"), "white");
    assert_eq!(color_name(""), "white");
}

#[test]
fn os_release_parsing() {
    let t = "NAME=\"Arch Linux\"\nPRETTY_NAME=\"Arch Linux\"\nID=Arch\nID_LIKE=x\n";
    assert_eq!(read_os_pretty_name(t), Some("Arch Linux".to_string()));
    assert_eq!(get_os_release_id(t), Some("arch".to_string()));
    assert_eq!(get_os_release_id("NAME=x\n"), None);
    assert_eq!(read_os_pretty_name(""), None);
    assert_eq!(read_os_pretty_name("PRETTY_NAME=\"\"\"\n"), Some(String::new()));
}

#[test]
fn builtin_art_is_normalized() {
    let a = builtin_ascii(20, Some("EndeavourOS"), None);
    assert_eq!(a.len(), 21);
    let w = unicode_str_width(&a[0]);
    assert!(a.iter().all(|l| unicode_str_width(l) == w));
    assert_eq!(a, art_for_id("arch"));
    let apple = builtin_ascii(20, None, Some("ID=macos\n"));
    assert_eq!(apple.len(), 19);
    let other = builtin_ascii(20, None, None);
    assert_eq!(other.len(), 20);
    assert_eq!(other.last().unwrap().trim(), "why do I need Linux?");
    assert_eq!(art_for_id("arch-mini").len(), 11);
}

#[test]
fn art_file_is_fitted() {
    let mut cfg = AsciiConfig::default();
    cfg.file = Some("/art.txt".to_string());
    cfg.width = 6;
    let a = load_ascii_art(&cfg, Some("ab\r\ncd ef gh\n"), None);
    assert_eq!(a, vec!["ab      ".to_string(), "cd ef gh".to_string()]);
    let b = load_ascii_art(&cfg, None, None);
    assert_eq!(b.len(), 20);
    cfg.enabled = false;
    assert!(load_ascii_art(&cfg, Some("x"), None).is_empty());
}

#[test]
fn render_with_art_is_as_tall_as_taller_column() {
    let mut c = hidden_config();
    c.ascii.enabled = true;
    c.ascii.distro = Some("arch-mini".to_string());
    let data = sample_data();
    let r = Renderer::new(&c, &data, None, None);
    let out = r.render("u@h", &vec![]);
    assert_eq!(out.len(), 11 + 2);
    let info = r.build_info_lines("u@h", &vec![]);
    assert_eq!(info.len(), 3);
}

#[test]
fn every_field_has_one_default_category() {
    let cats = [
        BuiltinCategory::System,
        BuiltinCategory::Hardware,
        BuiltinCategory::Res,
        BuiltinCategory::Env,
        BuiltinCategory::Net,
    ];
    let fields = [
        InfoField::Kernel, InfoField::Os, InfoField::Arch, InfoField::Host, InfoField::Memory,
        InfoField::Swap, InfoField::Disk, InfoField::Terminal, InfoField::Shell, InfoField::De,
        InfoField::PublicIp, InfoField::LocalIp, InfoField::Cpu, InfoField::Gpu, InfoField::Uptime,
    ];
    for f in fields {
        let homes = cats.iter().filter(|c| default_fields(**c).contains(&f)).count();
        assert_eq!(homes, 1, "{:?}", f);
    }
}

#[test]
fn art_ids() {
    assert_eq!(art_kind("arch"), ArtKind::Arch);
    assert_eq!(art_kind("endeavouros"), ArtKind::Arch);
    assert_eq!(art_kind("arch-mini"), ArtKind::ArchMini);
    assert_eq!(art_kind("yablocoder"), ArtKind::Apple);
    assert_eq!(art_kind("Arch"), ArtKind::Fallback);
    assert_eq!(art_kind(""), ArtKind::Fallback);
}

#[test]
fn colored_text_forms() {
    use_colors(true);
    assert_eq!(rushfetch::style::colorize("abc", "red"), "\x1b[31mabc\x1b[0m");
    assert_eq!(rushfetch::style::colorize_bold("ab", "bright_blue"), "\x1b[1;94mab\x1b[0m");
    assert_eq!(rushfetch::style::colorize("x", "nonsense"), "\x1b[37mx\x1b[0m");
    assert_eq!(
        rushfetch::style::colorize("a\x1b[0mb", "red"),
        "\x1b[31ma\x1b[0m\x1b[31mb\x1b[0m"
    );
    let spans = vec![
        Span { text: "  ".to_string(), color: None, bold: false },
        Span { text: "v".to_string(), color: Some("green".to_string()), bold: true },
    ];
    assert_eq!(rushfetch::lines::paint_line(&spans), "  \x1b[1;32mv\x1b[0m");
}

#[test]
fn plain_text_when_colors_are_off() {
    use_colors(false);
    assert_eq!(rushfetch::style::colorize("abc", "red"), "abc");
    let c = {
        let mut c = hidden_config();
        c.categories[2].enabled = true;
        c.categories[2].fields = vec![InfoField::Swap];
        c
    };
    let data = sample_data();
    let r = Renderer::new(&c, &data, None, None);
    let out = r.render("u@h", &vec![]);
    assert_eq!(
        out,
        vec![
            String::new(),
            " u@h".to_string(),
            " ───".to_string(),
            " ".to_string(),
            " 󰓅 Resources".to_string(),
            format!("   {:.<14} N/A", "Swap "),
            " ".to_string(),
            String::new(),
        ]
    );
}

#[test]
fn rendered_rows_with_art_and_colors_off() {
    use_colors(false);
    let mut c = hidden_config();
    c.ascii.enabled = true;
    c.ascii.file = Some("/art.txt".to_string());
    let data = sample_data();
    let r = Renderer::new(&c, &data, Some("ab\ncd"), None);
    let out = r.render("u@h", &vec![]);
    let w = 20 + 1;
    assert_eq!(out.len(), 5);
    assert_eq!(out[1], format!(" {:<w$}  u@h", "ab", w = w));
    assert_eq!(out[2], format!(" {:<w$}  ───", "cd", w = w));
    assert_eq!(out[3], format!(" {:<w$}  ", "", w = w));
}

fn use_colors(on: bool) {
    colored::control::set_override(on);
}

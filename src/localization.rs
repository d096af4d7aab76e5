use vstd::prelude::*;

use crate::registry::{BuiltinCategory, InfoField, Language};

verus! {

/// The header shown for a category in a language.
pub open spec fn category_label(category: BuiltinCategory, lang: Language) -> Seq<char> {
    match lang {
        Language::English => match category {
            BuiltinCategory::System => "System"@,
            BuiltinCategory::Hardware => "Hardware"@,
            BuiltinCategory::Res => "Resources"@,
            BuiltinCategory::Env => "Environment"@,
            BuiltinCategory::Net => "Network"@,
        },
        Language::Russian => match category {
            BuiltinCategory::System => "Система"@,
            BuiltinCategory::Hardware => "Железо"@,
            BuiltinCategory::Res => "Ресурсы"@,
            BuiltinCategory::Env => "Окружение"@,
            BuiltinCategory::Net => "Сеть"@,
        },
    }
}

/// The label shown for a field in a language.
pub open spec fn field_label(field: InfoField, lang: Language) -> Seq<char> {
    match lang {
        Language::English => match field {
            InfoField::Os => "OS"@,
            InfoField::Kernel => "Kernel"@,
            InfoField::Arch => "Arch"@,
            InfoField::Host => "Host"@,
            InfoField::Cpu => "CPU"@,
            InfoField::Gpu => "GPU"@,
            InfoField::Memory => "RAM"@,
            InfoField::Swap => "Swap"@,
            InfoField::Disk => "Disk"@,
            InfoField::Uptime => "Uptime"@,
            InfoField::Shell => "Shell"@,
            InfoField::Terminal => "Terminal"@,
            InfoField::De => "DE / WM"@,
            InfoField::LocalIp => "Local IP"@,
            InfoField::PublicIp => "Public IP"@,
        },
        Language::Russian => match field {
            InfoField::Os => "ОС"@,
            InfoField::Kernel => "Ядро"@,
            InfoField::Arch => "Архитектура"@,
            InfoField::Host => "Имя ПК"@,
            InfoField::Cpu => "Проц"@,
            InfoField::Gpu => "Гпу"@,
            InfoField::Memory => "Память"@,
            InfoField::Swap => "Своп"@,
            InfoField::Disk => "Диск"@,
            InfoField::Uptime => "Аптайм"@,
            InfoField::Shell => "Шелл"@,
            InfoField::Terminal => "Терминал"@,
            InfoField::De => "ДЕ / ВМ"@,
            InfoField::LocalIp => "Локал IP"@,
            InfoField::PublicIp => "Внешний IP"@,
        },
    }
}

/// The glyph drawn before a category header when icons are shown.
pub open spec fn icon_of(category: BuiltinCategory) -> Seq<char> {
    match category {
        BuiltinCategory::System => "󰍛 "@,
        BuiltinCategory::Hardware => "󰘚 "@,
        BuiltinCategory::Res => "󰓅 "@,
        BuiltinCategory::Env => "󰆍 "@,
        BuiltinCategory::Net => "󰀂 "@,
    }
}

/// The header of a category in a language.
pub fn localize_category(category: BuiltinCategory, lang: Language) -> (r: &'static str)
    ensures
        r@ == category_label(category, lang),
{
    match lang {
        Language::English => match category {
            BuiltinCategory::System => "System",
            BuiltinCategory::Hardware => "Hardware",
            BuiltinCategory::Res => "Resources",
            BuiltinCategory::Env => "Environment",
            BuiltinCategory::Net => "Network",
        },
        Language::Russian => match category {
            BuiltinCategory::System => "Система",
            BuiltinCategory::Hardware => "Железо",
            BuiltinCategory::Res => "Ресурсы",
            BuiltinCategory::Env => "Окружение",
            BuiltinCategory::Net => "Сеть",
        },
    }
}

/// The label of a field in a language.
pub fn localize_field(field: InfoField, lang: Language) -> (r: &'static str)
    ensures
        r@ == field_label(field, lang),
{
    match lang {
        Language::English => match field {
            InfoField::Os => "OS",
            InfoField::Kernel => "Kernel",
            InfoField::Arch => "Arch",
            InfoField::Host => "Host",
            InfoField::Cpu => "CPU",
            InfoField::Gpu => "GPU",
            InfoField::Memory => "RAM",
            InfoField::Swap => "Swap",
            InfoField::Disk => "Disk",
            InfoField::Uptime => "Uptime",
            InfoField::Shell => "Shell",
            InfoField::Terminal => "Terminal",
            InfoField::De => "DE / WM",
            InfoField::LocalIp => "Local IP",
            InfoField::PublicIp => "Public IP",
        },
        Language::Russian => match field {
            InfoField::Os => "ОС",
            InfoField::Kernel => "Ядро",
            InfoField::Arch => "Архитектура",
            InfoField::Host => "Имя ПК",
            InfoField::Cpu => "Проц",
            InfoField::Gpu => "Гпу",
            InfoField::Memory => "Память",
            InfoField::Swap => "Своп",
            InfoField::Disk => "Диск",
            InfoField::Uptime => "Аптайм",
            InfoField::Shell => "Шелл",
            InfoField::Terminal => "Терминал",
            InfoField::De => "ДЕ / ВМ",
            InfoField::LocalIp => "Локал IP",
            InfoField::PublicIp => "Внешний IP",
        },
    }
}

/// The glyph drawn before a category header.
pub fn category_icon(category: BuiltinCategory) -> (r: &'static str)
    ensures
        r@ == icon_of(category),
{
    match category {
        BuiltinCategory::System => "󰍛 ",
        BuiltinCategory::Hardware => "󰘚 ",
        BuiltinCategory::Res => "󰓅 ",
        BuiltinCategory::Env => "󰆍 ",
        BuiltinCategory::Net => "󰀂 ",
    }
}

} // verus!

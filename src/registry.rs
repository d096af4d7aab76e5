use vstd::prelude::*;

verus! {

/// A fixed piece of system information that can be shown.
#[derive(Debug, Clone, Copy, PartialEq, Eq, Structural)]
pub enum InfoField {
    Kernel,
    Os,
    Arch,
    Host,
    Memory,
    Swap,
    Disk,
    Terminal,
    Shell,
    De,
    PublicIp,
    LocalIp,
    Cpu,
    Gpu,
    Uptime,
}

/// A group of fields shown under one header.
#[derive(Debug, Clone, Copy, PartialEq, Eq, Structural)]
pub enum BuiltinCategory {
    System,
    Hardware,
    Res,
    Env,
    Net,
}

/// The language of labels and headers.
#[derive(Debug, Clone, Copy, PartialEq, Eq, Structural)]
pub enum Language {
    English,
    Russian,
}

impl Default for Language {
    fn default() -> (r: Self)
        ensures
            r == Language::English,
    {
        Language::English
    }
}

/// The fields a category shows when its configuration names none.
pub open spec fn default_fields_spec(category: BuiltinCategory) -> Seq<InfoField> {
    match category {
        BuiltinCategory::System => seq![InfoField::Os, InfoField::Kernel, InfoField::Arch],
        BuiltinCategory::Hardware => seq![InfoField::Host, InfoField::Cpu, InfoField::Gpu],
        BuiltinCategory::Res => seq![InfoField::Memory, InfoField::Swap, InfoField::Disk],
        BuiltinCategory::Env => seq![
            InfoField::Uptime,
            InfoField::Shell,
            InfoField::Terminal,
            InfoField::De,
        ],
        BuiltinCategory::Net => seq![InfoField::LocalIp, InfoField::PublicIp],
    }
}

/// The category a field belongs to by default.
pub open spec fn home_category(field: InfoField) -> BuiltinCategory {
    match field {
        InfoField::Os | InfoField::Kernel | InfoField::Arch => BuiltinCategory::System,
        InfoField::Host | InfoField::Cpu | InfoField::Gpu => BuiltinCategory::Hardware,
        InfoField::Memory | InfoField::Swap | InfoField::Disk => BuiltinCategory::Res,
        InfoField::Uptime | InfoField::Shell | InfoField::Terminal | InfoField::De => BuiltinCategory::Env,
        InfoField::LocalIp | InfoField::PublicIp => BuiltinCategory::Net,
    }
}

/// The fields a category shows when its configuration names none.
pub fn default_fields(category: BuiltinCategory) -> (r: &'static [InfoField])
    ensures
        r@ == default_fields_spec(category),
{
    match category {
        BuiltinCategory::System => &[InfoField::Os, InfoField::Kernel, InfoField::Arch],
        BuiltinCategory::Hardware => &[InfoField::Host, InfoField::Cpu, InfoField::Gpu],
        BuiltinCategory::Res => &[InfoField::Memory, InfoField::Swap, InfoField::Disk],
        BuiltinCategory::Env => &[
            InfoField::Uptime,
            InfoField::Shell,
            InfoField::Terminal,
            InfoField::De,
        ],
        BuiltinCategory::Net => &[InfoField::LocalIp, InfoField::PublicIp],
    }
}

/// Every field is among the default fields of exactly one category: its home.
pub proof fn lemma_every_field_has_one_home(field: InfoField, category: BuiltinCategory)
    ensures
        default_fields_spec(category).contains(field) <==> category == home_category(field),
{
    let s = default_fields_spec(category);
    if category == home_category(field) {
        match field {
            InfoField::Os | InfoField::Host | InfoField::Memory | InfoField::Uptime | InfoField::LocalIp => assert(s[0] == field),
            InfoField::Kernel | InfoField::Cpu | InfoField::Swap | InfoField::Shell | InfoField::PublicIp => assert(s[1] == field),
            InfoField::Arch | InfoField::Gpu | InfoField::Disk | InfoField::Terminal => assert(s[2] == field),
            InfoField::De => assert(s[3] == field),
        }
    }
}

} // verus!

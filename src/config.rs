use vstd::prelude::*;

use crate::registry::{BuiltinCategory, InfoField, Language};

verus! {

/// Whether a category is shown, and which fields it shows; an empty field
/// list stands for the category's defaults.
#[derive(Debug, Clone)]
pub struct CategoryConfig {
    pub category: BuiltinCategory,
    pub enabled: bool,
    pub fields: Vec<InfoField>,
}

/// A field of the user's own: a label and the shell command that gives its value.
#[derive(Debug, Clone)]
pub struct CustomField {
    pub label: String,
    pub command: String,
}

/// Where the logo comes from and how it is drawn.
#[derive(Debug, Clone)]
pub struct AsciiConfig {
    pub file: Option<String>,
    pub distro: Option<String>,
    pub enabled: bool,
    pub width: usize,
    pub color: String,
}

/// The color names used for the parts of the panel.
#[derive(Debug, Clone)]
pub struct Theme {
    pub primary: String,
    pub secondary: String,
    pub accent: String,
    pub text: String,
    pub separator: String,
}

/// Everything the user can configure.
#[derive(Debug, Clone)]
pub struct Config {
    pub language: Language,
    pub theme: Theme,
    pub ascii: AsciiConfig,
    pub custom_fields: Vec<CustomField>,
    pub show_icons: bool,
    pub categories: Vec<CategoryConfig>,
}

/// The default of the on/off options.
pub fn default_true() -> (r: bool)
    ensures
        r,
{
    true
}

/// The default minimum width of an art file, in columns.
pub fn default_ascii_width() -> (r: usize)
    ensures
        r == 20,
{
    20
}

/// The default color of the logo.
pub fn default_accent_color() -> (r: String)
    ensures
        r@ == "bright_cyan"@,
{
    String::from_str("bright_cyan")
}

/// The built-in category list: every category in declaration order, with
/// its default fields, all shown but the network one.
pub open spec fn is_default_categories(v: Seq<CategoryConfig>) -> bool {
    &&& v.len() == 5
    &&& v[0].category == BuiltinCategory::System
    &&& v[1].category == BuiltinCategory::Hardware
    &&& v[2].category == BuiltinCategory::Res
    &&& v[3].category == BuiltinCategory::Env
    &&& v[4].category == BuiltinCategory::Net
    &&& forall|i: int| 0 <= i < 4 ==> (#[trigger] v[i]).enabled
    &&& !v[4].enabled
    &&& forall|i: int| 0 <= i < 5 ==> (#[trigger] v[i]).fields@.len() == 0
}

fn category_entry(category: BuiltinCategory, enabled: bool) -> (r: CategoryConfig)
    ensures
        r.category == category,
        r.enabled == enabled,
        r.fields@.len() == 0,
{
    CategoryConfig { category, enabled, fields: Vec::new() }
}

/// The category list used when the configuration gives none.
pub fn default_categories() -> (r: Vec<CategoryConfig>)
    ensures
        is_default_categories(r@),
{
    let mut v: Vec<CategoryConfig> = Vec::new();
    v.push(category_entry(BuiltinCategory::System, true));
    v.push(category_entry(BuiltinCategory::Hardware, true));
    v.push(category_entry(BuiltinCategory::Res, true));
    v.push(category_entry(BuiltinCategory::Env, true));
    v.push(category_entry(BuiltinCategory::Net, false));
    v
}

impl Default for Theme {
    fn default() -> (r: Self)
        ensures
            r.primary@ == "bright_yellow"@,
            r.secondary@ == "bright_cyan"@,
            r.accent@ == "bright_magenta"@,
            r.text@ == "bright_white"@,
            r.separator@ == "bright_black"@,
    {
        Theme {
            primary: String::from_str("bright_yellow"),
            secondary: String::from_str("bright_cyan"),
            accent: String::from_str("bright_magenta"),
            text: String::from_str("bright_white"),
            separator: String::from_str("bright_black"),
        }
    }
}

impl Default for AsciiConfig {
    fn default() -> (r: Self)
        ensures
            r.enabled,
            r.file.is_none(),
            r.distro.is_none(),
            r.width == 20,
            r.color@ == "bright_cyan"@,
    {
        AsciiConfig {
            enabled: true,
            file: None,
            distro: None,
            width: 20,
            color: String::from_str("bright_cyan"),
        }
    }
}

impl Default for Config {
    fn default() -> (r: Self)
        ensures
            r.language == Language::English,
            r.theme.primary@ == "bright_yellow"@,
            r.theme.secondary@ == "bright_cyan"@,
            r.theme.accent@ == "bright_magenta"@,
            r.theme.text@ == "bright_white"@,
            r.theme.separator@ == "bright_black"@,
            r.ascii.enabled,
            r.ascii.file.is_none(),
            r.ascii.distro.is_none(),
            r.ascii.width == 20,
            r.ascii.color@ == "bright_cyan"@,
            r.show_icons,
            is_default_categories(r.categories@),
            r.custom_fields@.len() == 0,
    {
        Config {
            language: Language::default(),
            theme: Theme::default(),
            ascii: AsciiConfig::default(),
            show_icons: true,
            categories: default_categories(),
            custom_fields: Vec::new(),
        }
    }
}

} // verus!

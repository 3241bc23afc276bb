use std::rc::Rc;
use std::str::FromStr;
use theme::{ColorTokens, CustomTheme, Theme, ThemeRegistry};

fn tokens(primary: &str, secondary: &str, background: &str, text: &str) -> ColorTokens {
    ColorTokens {
        primary: primary.to_string(),
        secondary: secondary.to_string(),
        background: background.to_string(),
        text: text.to_string(),
        error: None,
        warning: None,
        success: None,
    }
}

fn custom(name: &str, tokens: ColorTokens, base: Option<&str>) -> Theme {
    Theme::Custom(Rc::new(CustomTheme {
        name: name.to_string(),
        tokens,
        base: base.map(|b| b.to_string()),
    }))
}

fn light() -> ColorTokens {
    tokens("#ffffff", "#f0f0f0", "#ffffff", "#000000")
}

fn dark() -> ColorTokens {
    tokens("#000000", "#1a1a1a", "#000000", "#ffffff")
}

#[test]
fn from_str_reads_the_built_in_names() {
    assert_eq!(Theme::from_str("light"), Ok(Theme::Light));
    assert_eq!(Theme::from_str("dark"), Ok(Theme::Dark));
    assert_eq!(Theme::from_str("system"), Ok(Theme::System));
}

#[test]
fn from_str_ignores_case() {
    assert_eq!(Theme::from_str("LIGHT"), Ok(Theme::Light));
    assert_eq!(Theme::from_str("Light"), Ok(Theme::Light));
    assert_eq!(Theme::from_str("lIgHt"), Ok(Theme::Light));
    assert_eq!(Theme::from_str("DARK"), Ok(Theme::Dark));
    assert_eq!(Theme::from_str("Dark"), Ok(Theme::Dark));
    assert_eq!(Theme::from_str("SYSTEM"), Ok(Theme::System));
    assert_eq!(Theme::from_str("System"), Ok(Theme::System));
    assert_eq!(Theme::from_str("sYsTeM"), Ok(Theme::System));
}

#[test]
fn from_str_refuses_everything_else() {
    assert_eq!(Theme::from_str(""), Err(()));
    assert_eq!(Theme::from_str("brand"), Err(()));
    assert_eq!(Theme::from_str("lights"), Err(()));
    assert_eq!(Theme::from_str("ligh"), Err(()));
    assert_eq!(Theme::from_str(" light"), Err(()));
    assert_eq!(Theme::from_str("light "), Err(()));
    assert_eq!(Theme::from_str("darkk"), Err(()));
    assert_eq!(Theme::from_str("auto"), Err(()));
    assert_eq!(Theme::from_str("dar\u{212a}"), Err(()));
}

#[test]
fn str_parse_reads_a_theme() {
    assert_eq!("light".parse::<Theme>(), Ok(Theme::Light));
    assert_eq!("DARK".parse::<Theme>(), Ok(Theme::Dark));
    assert_eq!("System".parse::<Theme>(), Ok(Theme::System));
    assert_eq!("brand".parse::<Theme>(), Err(()));
}

#[test]
fn as_str_of_built_in_themes_is_lower_case() {
    assert_eq!(Theme::Light.as_str(), "light");
    assert_eq!(Theme::Dark.as_str(), "dark");
    assert_eq!(Theme::System.as_str(), "system");
}

#[test]
fn as_str_of_a_custom_theme_is_its_name() {
    assert_eq!(custom("Brand Blue", light(), None).as_str(), "Brand Blue");
    assert_eq!(custom("", light(), None).as_str(), "");
    assert_eq!(custom("LIGHT", light(), None).as_str(), "LIGHT");
}

#[test]
fn built_in_themes_round_trip() {
    assert_eq!(Theme::from_str(&Theme::Light.as_str()), Ok(Theme::Light));
    assert_eq!(Theme::from_str(&Theme::Dark.as_str()), Ok(Theme::Dark));
    assert_eq!(Theme::from_str(&Theme::System.as_str()), Ok(Theme::System));
}

#[test]
fn custom_themes_do_not_round_trip() {
    assert_eq!(Theme::from_str(&custom("brand", light(), None).as_str()), Err(()));
    assert_eq!(Theme::from_str(&custom("Dark", light(), None).as_str()), Ok(Theme::Dark));
}

#[test]
fn is_dark_of_built_in_themes() {
    assert!(Theme::Dark.is_dark(None));
    assert!(Theme::Dark.is_dark(Some(false)));
    assert!(!Theme::Light.is_dark(None));
    assert!(!Theme::Light.is_dark(Some(true)));
}

#[test]
fn is_dark_of_the_system_theme_goes_by_the_fallback() {
    assert!(!Theme::System.is_dark(None));
    assert!(Theme::System.is_dark(Some(true)));
    assert!(!Theme::System.is_dark(Some(false)));
}

#[test]
fn is_dark_of_a_custom_theme_goes_by_its_background() {
    assert!(!custom("a", tokens("#000", "#000", "#FFFFFF", "#000"), None).is_dark(None));
    assert!(!custom("a", tokens("#000", "#000", "#ffffff", "#000"), None).is_dark(Some(true)));
    assert!(!custom("a", tokens("#000", "#000", "#FfFfFf", "#000"), None).is_dark(None));
    assert!(custom("a", tokens("#fff", "#fff", "#000000", "#fff"), None).is_dark(None));
    assert!(custom("a", tokens("#fff", "#fff", "#fffffe", "#fff"), None).is_dark(Some(false)));
    assert!(custom("a", tokens("#fff", "#fff", "#fff", "#fff"), None).is_dark(None));
    assert!(custom("a", tokens("#fff", "#fff", "ffffff", "#fff"), None).is_dark(None));
    assert!(custom("a", tokens("#fff", "#fff", "", "#fff"), None).is_dark(None));
    assert!(custom("a", tokens("#fff", "#fff", "#ffffff ", "#fff"), None).is_dark(None));
}

#[test]
fn is_dark_of_a_custom_theme_agrees_with_lowercasing() {
    let samples = ["#FFFFFF", "#ffffff", "#FFFfff", "#000000", "", "#fff", "#FFFFFG", "\u{ff03}ffffff"];
    for background in samples {
        let theme = custom("a", tokens("#000", "#000", background, "#000"), None);
        assert_eq!(theme.is_dark(None), background.to_lowercase() != "#ffffff", "on {:?}", background);
    }
}

#[test]
fn colors_of_the_light_theme() {
    let colors = Theme::Light.colors(None);
    assert_eq!(colors.primary, "#ffffff");
    assert_eq!(colors.secondary, "#f0f0f0");
    assert_eq!(colors.background, "#ffffff");
    assert_eq!(colors.text, "#000000");
    assert_eq!(colors.error, None);
    assert_eq!(colors.warning, None);
    assert_eq!(colors.success, None);
}

#[test]
fn colors_of_the_dark_theme() {
    let colors = Theme::Dark.colors(None);
    assert_eq!(colors.primary, "#000000");
    assert_eq!(colors.secondary, "#1a1a1a");
    assert_eq!(colors.background, "#000000");
    assert_eq!(colors.text, "#ffffff");
    assert_eq!(colors.error, None);
    assert_eq!(colors.warning, None);
    assert_eq!(colors.success, None);
}

#[test]
fn colors_of_the_system_theme_are_the_light_palette() {
    assert_eq!(Theme::System.colors(None), light());
    assert_eq!(Theme::System.colors(Some(&ThemeRegistry::new())), light());
}

#[test]
fn colors_of_built_in_themes_do_not_depend_on_the_registry() {
    let mut registry = ThemeRegistry::new();
    registry.register(Rc::new(CustomTheme {
        name: "light".to_string(),
        tokens: tokens("#123", "#123", "#123", "#123"),
        base: None,
    }));
    assert_eq!(Theme::Light.colors(Some(&registry)), light());
    assert_eq!(Theme::Dark.colors(Some(&registry)), dark());
}

#[test]
fn built_in_palettes_are_valid() {
    assert_eq!(Theme::Light.colors(None).validate(), Ok(()));
    assert_eq!(Theme::Dark.colors(None).validate(), Ok(()));
}

#[test]
fn colors_of_a_custom_theme_without_registry_are_its_own() {
    let theme = custom("child", tokens("#111", "#222", "#333", "#444"), Some("corp"));
    assert_eq!(theme.colors(None), tokens("#111", "#222", "#333", "#444"));
}

#[test]
fn colors_of_a_custom_theme_without_base_are_its_own() {
    let theme = custom("brand", tokens("#111", "#222", "#333", "#444"), None);
    assert_eq!(theme.colors(Some(&ThemeRegistry::new())), tokens("#111", "#222", "#333", "#444"));
}

#[test]
fn colors_of_a_custom_theme_lie_over_its_base() {
    let mut base = tokens("#000", "#000", "#000", "#000");
    base.error = Some("#f00".to_string());
    let mut registry = ThemeRegistry::new();
    registry.register(Rc::new(CustomTheme { name: "corp".to_string(), tokens: base, base: None }));
    let theme = custom("child", tokens("#111", "#222", "#333", "#444"), Some("corp"));
    let mut expected = tokens("#111", "#222", "#333", "#444");
    expected.error = Some("#f00".to_string());
    assert_eq!(theme.colors(Some(&registry)), expected);
}

#[test]
fn colors_of_a_custom_theme_with_missing_base_are_its_own() {
    let theme = custom("child", tokens("#111", "#222", "#333", "#444"), Some("ghost"));
    assert_eq!(theme.colors(Some(&ThemeRegistry::new())), tokens("#111", "#222", "#333", "#444"));
}

#[test]
fn default_theme_is_system() {
    assert_eq!(Theme::default(), Theme::System);
}

#[test]
fn clone_of_a_built_in_theme() {
    assert_eq!(Theme::Light.clone(), Theme::Light);
    assert_eq!(Theme::Dark.clone(), Theme::Dark);
    assert_eq!(Theme::System.clone(), Theme::System);
}

#[test]
fn clone_of_a_custom_theme_shares_the_theme() {
    let inner = Rc::new(CustomTheme {
        name: "brand".to_string(),
        tokens: tokens("#111", "#222", "#333", "#444"),
        base: None,
    });
    let theme = Theme::Custom(inner.clone());
    assert_eq!(Rc::strong_count(&inner), 2);
    let copy = theme.clone();
    assert_eq!(copy, theme);
    assert_eq!(Rc::strong_count(&inner), 3);
    match &copy {
        Theme::Custom(shared) => assert!(Rc::ptr_eq(shared, &inner)),
        _ => panic!("a custom theme is cloned as a custom theme"),
    }
    drop(copy);
    assert_eq!(Rc::strong_count(&inner), 2);
}

#[test]
fn lowercasing_reaches_white_from_ascii_only() {
    let mut code: u32 = 0;
    while code <= 0x10FFFF {
        if let Some(c) = char::from_u32(code) {
            let lowered: String = c.to_lowercase().collect();
            if lowered.chars().all(|l| l == '#' || l == 'f') {
                assert!(c == '#' || c == 'f' || c == 'F', "at {:#x}", code);
            }
        }
        code += 1;
    }
}

#[test]
fn is_dark_of_every_casing_of_white() {
    for mask in 0..64u32 {
        let mut background = String::from("#");
        for bit in 0..6 {
            background.push(if mask & (1 << bit) == 0 { 'f' } else { 'F' });
        }
        let theme = custom("a", tokens("#000", "#000", &background, "#000"), None);
        assert!(!theme.is_dark(None), "on {}", background);
        assert!(!theme.is_dark(Some(true)), "on {}", background);
    }
}

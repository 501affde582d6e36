use bearcove::site::site_typography;
use bearcove::style::{push_decimal, push_rem, render_stylesheet, FontRule, Typography, PHONE_MAX_WIDTH, TABLET_MAX_WIDTH};

fn rem(h: u32) -> String {
    let mut s = String::new();
    push_rem(&mut s, h);
    s
}

#[test]
fn rem_lengths_are_written_without_trailing_zeros() {
    assert_eq!(rem(300), "3rem");
    assert_eq!(rem(250), "2.5rem");
    assert_eq!(rem(175), "1.75rem");
    assert_eq!(rem(105), "1.05rem");
    assert_eq!(rem(90), "0.9rem");
    assert_eq!(rem(0), "0rem");
    assert_eq!(rem(1234), "12.34rem");
}

#[test]
fn decimals() {
    let mut s = String::new();
    push_decimal(&mut s, 0);
    push_decimal(&mut s, 768);
    push_decimal(&mut s, u32::MAX);
    assert_eq!(s, format!("0768{}", u32::MAX));
}

#[test]
fn breakpoints_shrink_logo_and_headings() {
    let t = site_typography();
    let logo = ".logo".to_string();
    let h2 = ".section h2".to_string();
    assert_eq!(TABLET_MAX_WIDTH, 768);
    assert_eq!(PHONE_MAX_WIDTH, 480);
    assert_eq!(t.font_size(&logo, 1200), Some(300));
    assert_eq!(t.font_size(&logo, 769), Some(300));
    assert_eq!(t.font_size(&logo, 768), Some(250));
    assert_eq!(t.font_size(&logo, 481), Some(250));
    assert_eq!(t.font_size(&logo, 480), Some(200));
    assert_eq!(t.font_size(&logo, 0), Some(200));
    assert_eq!(t.font_size(&h2, 1200), Some(200));
    assert_eq!(t.font_size(&h2, 768), Some(175));
    assert_eq!(t.font_size(&h2, 480), Some(150));
}

#[test]
fn missing_breakpoint_keeps_wider_size() {
    let t = site_typography();
    assert_eq!(t.font_size(&".tagline".to_string(), 700), Some(110));
    assert_eq!(t.font_size(&".tagline".to_string(), 400), Some(100));
    assert_eq!(t.font_size(&".footer".to_string(), 300), Some(90));
    assert_eq!(t.font_size(&".nav".to_string(), 300), None);
    let r = FontRule { selector: "p".to_string(), desktop: 100, tablet: Some(90), phone: None };
    assert_eq!(r.size_at(400), 90);
    assert_eq!(r.size_at(800), 100);
}

#[test]
fn later_rule_for_a_selector_wins() {
    let t = Typography {
        rules: vec![
            FontRule { selector: ".x".to_string(), desktop: 100, tablet: None, phone: None },
            FontRule { selector: ".x".to_string(), desktop: 120, tablet: None, phone: None },
        ],
    };
    assert_eq!(t.font_size(&".x".to_string(), 1000), Some(120));
    let empty = Typography { rules: vec![] };
    assert_eq!(empty.font_size(&".x".to_string(), 1000), None);
}

#[test]
fn stylesheet_holds_type_scale() {
    let css = render_stylesheet(&site_typography());
    assert!(css.contains(".project-list.inactive li {"));
    assert!(css.contains(".logo { font-size: 3rem; }\n.tagline { font-size: 1.1rem; }\n"));
    assert!(css.contains("@media (max-width: 768px) {\n.logo { font-size: 2.5rem; }\n.hero-text { font-size: 1.1rem; }\n.section h2 { font-size: 1.75rem; }\n}\n"));
    assert!(css.ends_with("@media (max-width: 480px) {\n.logo { font-size: 2rem; }\n.tagline { font-size: 1rem; }\n.hero-text { font-size: 1rem; }\n.section h2 { font-size: 1.5rem; }\n}\n"));
    assert_eq!(css, render_stylesheet(&site_typography()));
}

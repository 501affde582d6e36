use vstd::prelude::*;
use crate::model::views;

verus! {

/// Largest viewport width, in CSS pixels, at which the tablet rules apply.
pub const TABLET_MAX_WIDTH: u32 = 768;

/// Largest viewport width, in CSS pixels, at which the phone rules apply.
pub const PHONE_MAX_WIDTH: u32 = 480;

/// The viewport classes that the stylesheet tells apart.
#[derive(Clone, Copy, PartialEq, Eq, Structural)]
pub enum Viewport {
    Desktop,
    Tablet,
    Phone,
}

/// The font size of one selector, in hundredths of a rem, by viewport.
/// A missing tablet or phone size keeps the size of the wider viewport.
pub struct FontRule {
    pub selector: String,
    pub desktop: u32,
    pub tablet: Option<u32>,
    pub phone: Option<u32>,
}

pub struct FontRuleView {
    pub selector: Seq<char>,
    pub desktop: u32,
    pub tablet: Option<u32>,
    pub phone: Option<u32>,
}

impl View for FontRule {
    type V = FontRuleView;

    open spec fn view(&self) -> FontRuleView {
        FontRuleView {
            selector: self.selector@,
            desktop: self.desktop,
            tablet: self.tablet,
            phone: self.phone,
        }
    }
}

/// The size that `r` declares for one viewport class, if it declares one.
pub open spec fn declared_size(r: FontRuleView, v: Viewport) -> Option<u32> {
    match v {
        Viewport::Desktop => Some(r.desktop),
        Viewport::Tablet => r.tablet,
        Viewport::Phone => r.phone,
    }
}

/// The size in effect at a viewport `width` pixels wide: the narrowest
/// applicable media rule that declares a size wins, as in the cascade.
pub open spec fn size_at(r: FontRuleView, width: nat) -> u32 {
    if width <= PHONE_MAX_WIDTH && r.phone is Some {
        r.phone->0
    } else if width <= TABLET_MAX_WIDTH && r.tablet is Some {
        r.tablet->0
    } else {
        r.desktop
    }
}

impl FontRule {
    /// The size in effect at a viewport `width` pixels wide.
    pub fn size_at(&self, width: u32) -> (r: u32)
        ensures
            r == size_at(self@, width as nat),
    {
        if width <= PHONE_MAX_WIDTH {
            if let Some(s) = self.phone {
                return s;
            }
        }
        if width <= TABLET_MAX_WIDTH {
            if let Some(s) = self.tablet {
                return s;
            }
        }
        self.desktop
    }
}

/// The type scale of a page: one font rule per selector.
pub struct Typography {
    pub rules: Vec<FontRule>,
}

impl View for Typography {
    type V = Seq<FontRuleView>;

    open spec fn view(&self) -> Seq<FontRuleView> {
        views(self.rules@)
    }
}

/// The last rule for `selector`, which is the one the cascade keeps.
pub open spec fn rule_for(rules: Seq<FontRuleView>, selector: Seq<char>) -> Option<FontRuleView>
    decreases rules.len(),
{
    if rules.len() == 0 {
        None
    } else if rules.last().selector == selector {
        Some(rules.last())
    } else {
        rule_for(rules.drop_last(), selector)
    }
}

impl Typography {
    /// The font size of `selector` at a viewport `width` pixels wide, or
    /// `None` where no rule names that selector.
    pub fn font_size(&self, selector: &String, width: u32) -> (r: Option<u32>)
        ensures
            r == (match rule_for(self@, selector@) {
                Some(rule) => Some(size_at(rule, width as nat)),
                None => None::<u32>,
            }),
    {
        let mut i: usize = self.rules.len();
        assert(self@.take(i as int) =~= self@);
        while i > 0
            invariant
                i <= self.rules@.len(),
                rule_for(self@, selector@) == rule_for(self@.take(i as int), selector@),
            decreases i,
        {
            assert(self@.take(i as int).drop_last() =~= self@.take(i - 1));
            assert(self@.take(i as int).last() == self.rules@[i - 1]@);
            if self.rules[i - 1].selector == *selector {
                return Some(self.rules[i - 1].size_at(width));
            }
            i = i - 1;
        }
        None
    }
}

/// The decimal digit `d` as text.
pub open spec fn digit_text(d: nat) -> Seq<char> {
    if d == 0 {
        "0"@
    } else if d == 1 {
        "1"@
    } else if d == 2 {
        "2"@
    } else if d == 3 {
        "3"@
    } else if d == 4 {
        "4"@
    } else if d == 5 {
        "5"@
    } else if d == 6 {
        "6"@
    } else if d == 7 {
        "7"@
    } else if d == 8 {
        "8"@
    } else {
        "9"@
    }
}

/// `n` in decimal, without leading zeros.
pub open spec fn decimal(n: nat) -> Seq<char>
    decreases n,
{
    if n < 10 {
        digit_text(n)
    } else {
        decimal(n / 10) + digit_text(n % 10)
    }
}

/// A length of `h` hundredths of a rem, written with no trailing zeros.
pub open spec fn rem_text(h: nat) -> Seq<char> {
    let frac = h % 100;
    decimal(h / 100) + (if frac == 0 {
        Seq::empty()
    } else if frac % 10 == 0 {
        "."@ + digit_text(frac / 10)
    } else {
        "."@ + digit_text(frac / 10) + digit_text(frac % 10)
    }) + "rem"@
}

pub fn push_digit(out: &mut String, d: u32)
    requires
        d < 10,
    ensures
        final(out)@ == old(out)@ + digit_text(d as nat),
{
    let s = match d {
        0 => "0",
        1 => "1",
        2 => "2",
        3 => "3",
        4 => "4",
        5 => "5",
        6 => "6",
        7 => "7",
        8 => "8",
        _ => "9",
    };
    out.append(s);
}

pub fn push_decimal(out: &mut String, n: u32)
    ensures
        final(out)@ == old(out)@ + decimal(n as nat),
    decreases n,
{
    if n < 10 {
        push_digit(out, n);
    } else {
        let ghost start = out@;
        push_decimal(out, n / 10);
        push_digit(out, n % 10);
        assert(out@ =~= start + decimal(n as nat));
    }
}

pub fn push_rem(out: &mut String, h: u32)
    ensures
        final(out)@ == old(out)@ + rem_text(h as nat),
{
    let ghost start = out@;
    push_decimal(out, h / 100);
    let ghost mid = out@;
    let frac = h % 100;
    if frac != 0 {
        out.append(".");
        push_digit(out, frac / 10);
        if frac % 10 != 0 {
            push_digit(out, frac % 10);
        }
    }
    assert(out@ =~= mid + (if frac == 0 {
        Seq::empty()
    } else if frac % 10 == 0 {
        "."@ + digit_text((frac / 10) as nat)
    } else {
        "."@ + digit_text((frac / 10) as nat) + digit_text((frac % 10) as nat)
    }));
    out.append("rem");
    assert(out@ =~= start + rem_text(h as nat));
}

/// One CSS rule that sets the font size of `selector`.
pub open spec fn font_rule_text(selector: Seq<char>, h: nat) -> Seq<char> {
    selector + " { font-size: "@ + rem_text(h) + "; }\n"@
}

/// The font rules that apply to viewport class `v`, in table order.
pub open spec fn viewport_rules_text(rules: Seq<FontRuleView>, v: Viewport) -> Seq<char>
    decreases rules.len(),
{
    if rules.len() == 0 {
        Seq::empty()
    } else {
        viewport_rules_text(rules.drop_last(), v) + match declared_size(rules.last(), v) {
            Some(h) => font_rule_text(rules.last().selector, h as nat),
            None => Seq::empty(),
        }
    }
}

/// The full stylesheet: the fixed layout rules, the desktop sizes, then one
/// media block per narrower viewport, tablet before phone.
pub open spec fn stylesheet_text(t: Seq<FontRuleView>) -> Seq<char> {
    LAYOUT_CSS@ + viewport_rules_text(t, Viewport::Desktop) + "@media (max-width: "@ + decimal(
        TABLET_MAX_WIDTH as nat,
    ) + "px) {\n"@ + viewport_rules_text(t, Viewport::Tablet) + "}\n@media (max-width: "@
        + decimal(PHONE_MAX_WIDTH as nat) + "px) {\n"@ + viewport_rules_text(t, Viewport::Phone)
        + "}\n"@
}

pub fn push_viewport_rules(out: &mut String, t: &Typography, v: Viewport)
    ensures
        final(out)@ == old(out)@ + viewport_rules_text(t@, v),
{
    let ghost start = out@;
    let mut i: usize = 0;
    while i < t.rules.len()
        invariant
            i <= t.rules@.len(),
            out@ == start + viewport_rules_text(t@.take(i as int), v),
        decreases t.rules@.len() - i,
    {
        let rule = &t.rules[i];
        let size = match v {
            Viewport::Desktop => Some(rule.desktop),
            Viewport::Tablet => rule.tablet,
            Viewport::Phone => rule.phone,
        };
        let ghost before = out@;
        if let Some(h) = size {
            out.append(rule.selector.as_str());
            out.append(" { font-size: ");
            push_rem(out, h);
            out.append("; }\n");
            assert(out@ =~= before + font_rule_text(rule.selector@, h as nat));
        }
        proof {
            assert(t@.take(i + 1).drop_last() =~= t@.take(i as int));
            assert(t@.take(i + 1).last() == rule@);
            assert(out@ =~= start + viewport_rules_text(t@.take(i + 1), v));
        }
        i = i + 1;
    }
    assert(t@.take(i as int) =~= t@);
}

/// The stylesheet of a page whose type scale is `t`.
pub fn render_stylesheet(t: &Typography) -> (r: String)
    ensures
        r@ == stylesheet_text(t@),
{
    let mut out = String::new();
    out.append(LAYOUT_CSS);
    push_viewport_rules(&mut out, t, Viewport::Desktop);
    out.append("@media (max-width: ");
    push_decimal(&mut out, TABLET_MAX_WIDTH);
    out.append("px) {\n");
    push_viewport_rules(&mut out, t, Viewport::Tablet);
    out.append("}\n@media (max-width: ");
    push_decimal(&mut out, PHONE_MAX_WIDTH);
    out.append("px) {\n");
    push_viewport_rules(&mut out, t, Viewport::Phone);
    out.append("}\n");
    assert(out@ =~= stylesheet_text(t@));
    out
}

/// Layout, colour and spacing rules; font sizes come from the type scale.
pub const LAYOUT_CSS: &'static str = r#"
* {
    margin: 0;
    padding: 0;
    box-sizing: border-box;
}

body {
    font-family: 'Inter', -apple-system, BlinkMacSystemFont, 'Segoe UI', Roboto, Oxygen, Ubuntu, Cantarell, sans-serif;
    line-height: 1.6;
    color: #333;
    background-color: #fafafa;
}

.container {
    max-width: 800px;
    margin: 0 auto;
    padding: 0 20px;
    min-height: 100vh;
    display: flex;
    flex-direction: column;
}

.header {
    padding: 60px 0 40px;
    text-align: center;
    border-bottom: 1px solid #e1e5e9;
    margin-bottom: 40px;
}

.logo {
    font-weight: 700;
    color: #2d3748;
    margin-bottom: 8px;
    letter-spacing: -0.025em;
}

.tagline {
    color: #718096;
    font-weight: 400;
}

.main-content {
    flex: 1;
}

.hero {
    margin-bottom: 60px;
}

.hero-text {
    line-height: 1.7;
    margin-bottom: 40px;
    color: #4a5568;
}

.hero-text strong {
    color: #2d3748;
    font-weight: 600;
}

.video-container {
    position: relative;
    width: 100%;
    height: 0;
    padding-bottom: 56.25%; /* 16:9 aspect ratio */
    margin-bottom: 20px;
    border-radius: 8px;
    overflow: hidden;
    box-shadow: 0 10px 25px rgba(0, 0, 0, 0.1);
}

.video-container iframe {
    position: absolute;
    top: 0;
    left: 0;
    width: 100%;
    height: 100%;
    border: none;
}

.section {
    margin-bottom: 50px;
}

.section h2 {
    font-weight: 600;
    color: #2d3748;
    margin-bottom: 20px;
    border-bottom: 2px solid #e2e8f0;
    padding-bottom: 8px;
}

.section p {
    margin-bottom: 16px;
    color: #4a5568;
}

.project-list, .content-list {
    list-style: none;
    margin: 20px 0;
}

.project-list li, .content-list li {
    margin-bottom: 12px;
    padding-left: 20px;
    position: relative;
    color: #4a5568;
}

.project-list li::before, .content-list li::before {
    content: "•";
    color: #718096;
    position: absolute;
    left: 0;
    font-weight: bold;
}

.project-list.inactive li {
    opacity: 0.7;
}

.project-list.inactive li::before {
    content: "○";
}

a {
    color: #3182ce;
    text-decoration: none;
    transition: color 0.2s ease;
}

a:hover {
    color: #2c5282;
    text-decoration: underline;
}

.legal {
    background-color: #f7fafc;
    padding: 30px;
    border-radius: 8px;
    border-left: 4px solid #e2e8f0;
}

.address {
    background-color: #edf2f7;
    padding: 20px;
    border-left: 4px solid #cbd5e0;
    font-style: italic;
    color: #4a5568;
    margin: 20px 0;
    line-height: 1.8;
}

.footer {
    margin-top: 60px;
    padding: 30px 0;
    border-top: 1px solid #e1e5e9;
    text-align: center;
    color: #718096;
}

/* Responsive design */
@media (max-width: 768px) {
    .container {
        padding: 0 16px;
    }

    .header {
        padding: 40px 0 30px;
    }

    .legal {
        padding: 20px;
    }
}

"#;

} // verus!

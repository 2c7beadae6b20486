use crossfont::FontDesc;
use crossfont::Slant;
use crossfont::Style;
use crossfont::Weight;

#[test]
fn font_desc_equal_iff_name_and_style_equal() {
    let a = FontDesc::new(String::from("Menlo"), Style::Specific(String::from("Regular")));
    let b = FontDesc::new(String::from("Menlo"), Style::Specific(String::from("Regular")));
    assert_eq!(a, b);

    let other_name = FontDesc::new(String::from("Monaco"), Style::Specific(String::from("Regular")));
    assert_ne!(a, other_name);

    let other_style = FontDesc::new(String::from("Menlo"), Style::Specific(String::from("Bold")));
    assert_ne!(a, other_style);
}

#[test]
fn description_never_equals_specific() {
    let described = Style::Description { slant: Slant::Italic, weight: Weight::Bold };
    let named = Style::Specific(String::from("Italic Bold"));
    assert_ne!(described, named);
    assert_ne!(named, described);

    let a = FontDesc::new(String::from("Menlo"), described);
    let b = FontDesc::new(String::from("Menlo"), named);
    assert_ne!(a, b);
}

#[test]
fn style_description_equality_by_fields() {
    let a = Style::Description { slant: Slant::Italic, weight: Weight::Bold };
    let b = Style::Description { slant: Slant::Italic, weight: Weight::Bold };
    let c = Style::Description { slant: Slant::Oblique, weight: Weight::Bold };
    let d = Style::Description { slant: Slant::Italic, weight: Weight::Normal };
    assert_eq!(a, b);
    assert_ne!(a, c);
    assert_ne!(a, d);
}

#[test]
fn style_display_text() {
    let named = Style::Specific(String::from("Retina"));
    assert_eq!(named.display_string().as_str(), "Retina");

    let described = Style::Description { slant: Slant::Italic, weight: Weight::Bold };
    assert_eq!(described.display_string().as_str(), "slant=Italic, weight=Bold");

    let plain = Style::Description { slant: Slant::Normal, weight: Weight::Normal };
    assert_eq!(plain.display_string().as_str(), "slant=Normal, weight=Normal");
}

#[test]
fn font_desc_display_text() {
    let desc = FontDesc::new(String::from("Menlo"), Style::Specific(String::from("Regular")));
    assert_eq!(desc.display_string().as_str(), "Menlo - Regular");
    assert_eq!(desc.family_name().as_str(), "Menlo");
}

#[test]
fn cloned_desc_equals_original() {
    let desc = FontDesc::new(
        String::from("Menlo"),
        Style::Description { slant: Slant::Oblique, weight: Weight::Bold },
    );
    assert_eq!(desc.clone(), desc);
}

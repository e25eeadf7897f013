//! The font family matcher: nearest-neighbour selection, stable ties,
//! class mappings and case-insensitive family lookup.

use uxui::error::ErrorKind;
use uxui::font::{
    find_best_font, BestFontQuery, Font, FontCache, FontFamily, FontQuery, FontStyle, FontType,
    FontWeight, FontWidth,
};

fn style(weight: FontWeight) -> FontStyle {
    FontStyle { weight, width: FontWidth::Normal, type_: FontType::Normal }
}

fn family_of(name: &str, weights: &[FontWeight]) -> FontFamily {
    let mut family = FontFamily::new(name);
    for (i, w) in weights.iter().enumerate() {
        family.add_font(Font::new(&format!("{}-{}.ttf", name, i), style(*w)));
    }
    family
}

#[test]
fn matcher_picks_the_nearest_weight() {
    // Variants of weight 400 and 700, query 500: the 400 variant is at
    // embedded distance 5, the 700 one at 15; the 400 wins.
    let family = family_of("Inter", &[FontWeight::Normal, FontWeight::Bold]);
    let best = family.find_best_match(style(FontWeight::Medium)).unwrap();
    assert_eq!(best.style.weight, FontWeight::Normal);
}

#[test]
fn matcher_prefers_exact_style() {
    let mut family = FontFamily::new("Inter");
    family.add_font(Font::new("inter-regular.ttf", style(FontWeight::Normal)));
    family.add_font(Font::new(
        "inter-italic.ttf",
        FontStyle { weight: FontWeight::Normal, width: FontWidth::Normal, type_: FontType::Italic },
    ));
    let wanted = FontStyle {
        weight: FontWeight::Normal,
        width: FontWidth::Normal,
        type_: FontType::Italic,
    };
    let best = family.find_best_match(wanted).unwrap();
    assert_eq!(best.style.type_, FontType::Italic);
}

#[test]
fn matcher_resolves_ties_to_the_first_candidate() {
    // Weights 300 and 500 sit at the same distance from 400; the
    // earlier registration wins.
    let family = family_of("Inter", &[FontWeight::Light, FontWeight::Medium]);
    let best = family.find_best_match(style(FontWeight::Normal)).unwrap();
    assert_eq!(best.style.weight, FontWeight::Light);
}

#[test]
fn empty_family_has_no_match() {
    let family = FontFamily::new("Ghost");
    let err = family.find_best_match(style(FontWeight::Normal)).unwrap_err();
    assert_eq!(err, ErrorKind::NoMatch);
}

#[test]
fn lookup_ignores_ascii_case() {
    let mut cache = FontCache::new();
    cache.add_family(family_of("Segoe UI", &[FontWeight::Normal]));
    let query = BestFontQuery {
        query: FontQuery::FamilyName(String::from("sEgOe ui")),
        style: style(FontWeight::Normal),
    };
    let best = find_best_font(&cache, &query).unwrap();
    assert_eq!(best.path, "Segoe UI-0.ttf");
}

#[test]
fn lookup_of_unknown_family_fails() {
    let mut cache = FontCache::new();
    cache.add_family(family_of("Inter", &[FontWeight::Normal]));
    let query = BestFontQuery {
        query: FontQuery::FamilyName(String::from("Helvetica")),
        style: style(FontWeight::Normal),
    };
    assert_eq!(find_best_font(&cache, &query).unwrap_err(), ErrorKind::NoMatch);
}

#[test]
fn lookup_takes_the_first_registered_family() {
    let mut cache = FontCache::new();
    cache.add_family(family_of("Inter", &[FontWeight::Normal]));
    cache.add_family(family_of("INTER", &[FontWeight::Bold]));
    let query = BestFontQuery {
        query: FontQuery::FamilyName(String::from("inter")),
        style: style(FontWeight::Bold),
    };
    // Both families answer to the name; the first registered shadows
    // the second, so the lookup sees only the Normal face.
    let best = find_best_font(&cache, &query).unwrap();
    assert_eq!(best.style.weight, FontWeight::Normal);
}

#[test]
fn weight_classes_round_trip() {
    assert_eq!(FontWeight::Normal.class(), 400);
    assert_eq!(FontWeight::Bold.class(), 700);
    assert_eq!(FontWeight::from_class(420), FontWeight::Normal);
    assert_eq!(FontWeight::from_class(149), FontWeight::Thin);
    assert_eq!(FontWeight::from_class(850), FontWeight::Black);
    assert_eq!(FontWeight::from_class(2000), FontWeight::Black);
}

#[test]
fn width_classes_round_trip() {
    assert_eq!(FontWidth::Normal.class(), 5);
    assert_eq!(FontWidth::from_class(0), FontWidth::UltraCondensed);
    assert_eq!(FontWidth::from_class(7), FontWidth::Expanded);
    assert_eq!(FontWidth::from_class(200), FontWidth::UltraExpanded);
}

#[test]
fn align_size_rounds_up_to_the_alignment() {
    assert_eq!(uxui::font::align_size(0, 256), 0);
    assert_eq!(uxui::font::align_size(1, 256), 256);
    assert_eq!(uxui::font::align_size(256, 256), 256);
    assert_eq!(uxui::font::align_size(257, 256), 512);
    assert_eq!(uxui::font::align_size(1000, 4), 1000);
}

#[test]
fn family_reports_its_name_and_faces() {
    let family = family_of("Inter", &[FontWeight::Normal, FontWeight::Bold]);
    assert_eq!(family.name(), "Inter");
    assert_eq!(family.fonts().len(), 2);
}

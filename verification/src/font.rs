//! Font family matching: a three-axis style descriptor with a fixed
//! embedding, and nearest-neighbour selection of the best variant in a
//! family. Loading and rasterizing the faces belongs to the host; the
//! library only decides which face fits a requested style best.

use vstd::prelude::*;

use crate::error::ErrorKind;
use vstd::string::StringSliceAdditionalSpecFns;
use vstd::utf8::encode_utf8;

verus! {

/// A size rounded up to the next multiple of `alignment`, as row
/// pitches of glyph textures require.
pub open spec fn spec_align_size(size: int, alignment: int) -> int {
    if size % alignment == 0 {
        size
    } else {
        size / alignment * alignment + alignment
    }
}

/// Round `size` up to the next multiple of `alignment`.
pub fn align_size(size: usize, alignment: usize) -> (r: usize)
    requires
        alignment > 0,
        size + alignment <= usize::MAX,
    ensures
        r == spec_align_size(size as int, alignment as int),
        r % alignment == 0,
        size <= r < size + alignment,
{
    proof {
        let sz = size as int;
        let al = alignment as int;
        assert((sz / al) * al <= sz && sz < (sz / al) * al + al && ((sz / al) * al) % al == 0 && ((
        sz / al) * al + al) % al == 0) by (nonlinear_arith)
            requires
                al > 0,
                sz >= 0,
        ;
    }
    if size % alignment == 0 {
        size
    } else {
        size / alignment * alignment + alignment
    }
}

/// A coarse classification of a family's look.
#[derive(Clone, Copy, Debug, PartialEq, Eq, Structural)]
pub enum FontCatagory {
    Serif,
    SansSerif,
    Monospace,
}

/// Upright, italic or oblique letterforms.
#[derive(Clone, Copy, Debug, PartialEq, Eq, Structural)]
pub enum FontType {
    Normal,
    Italic,
    Oblique,
}

impl Default for FontType {
    fn default() -> (t: FontType)
        ensures
            t == FontType::Normal,
    {
        FontType::Normal
    }
}

/// Stroke weight, on the usual hundred-per-step scale from thin (100)
/// to extra-black (1000).
#[derive(Clone, Copy, Debug, PartialEq, Eq, Structural)]
pub enum FontWeight {
    Thin,
    ExtraLight,
    Light,
    Normal,
    Medium,
    SemiBold,
    Bold,
    ExtraBold,
    Black,
    ExtraBlack,
}

impl Default for FontWeight {
    fn default() -> (w: FontWeight)
        ensures
            w == FontWeight::Normal,
    {
        FontWeight::Normal
    }
}

/// The weight class a value stands for, in hundreds: thin is 1, normal
/// is 4, extra-black is 10.
pub open spec fn spec_weight_steps(w: FontWeight) -> int {
    match w {
        FontWeight::Thin => 1,
        FontWeight::ExtraLight => 2,
        FontWeight::Light => 3,
        FontWeight::Normal => 4,
        FontWeight::Medium => 5,
        FontWeight::SemiBold => 6,
        FontWeight::Bold => 7,
        FontWeight::ExtraBold => 8,
        FontWeight::Black => 9,
        FontWeight::ExtraBlack => 10,
    }
}

impl FontWeight {
    /// The numeric weight class, 100 to 1000.
    pub fn class(&self) -> (v: u16)
        ensures
            v as int == 100 * spec_weight_steps(*self),
    {
        match self {
            FontWeight::Thin => 100,
            FontWeight::ExtraLight => 200,
            FontWeight::Light => 300,
            FontWeight::Normal => 400,
            FontWeight::Medium => 500,
            FontWeight::SemiBold => 600,
            FontWeight::Bold => 700,
            FontWeight::ExtraBold => 800,
            FontWeight::Black => 900,
            FontWeight::ExtraBlack => 1000,
        }
    }

    /// The weight a face's numeric weight class maps to, nearest step
    /// winning; classes of 850 and above all read as black.
    pub fn from_class(value: u16) -> (w: FontWeight)
        ensures
            w == spec_weight_from_class(value as int),
    {
        if value <= 149 {
            FontWeight::Thin
        } else if value <= 249 {
            FontWeight::ExtraLight
        } else if value <= 349 {
            FontWeight::Light
        } else if value <= 449 {
            FontWeight::Normal
        } else if value <= 549 {
            FontWeight::Medium
        } else if value <= 649 {
            FontWeight::SemiBold
        } else if value <= 749 {
            FontWeight::Bold
        } else if value <= 849 {
            FontWeight::ExtraBold
        } else {
            FontWeight::Black
        }
    }
}

pub open spec fn spec_weight_from_class(value: int) -> FontWeight {
    if value <= 149 {
        FontWeight::Thin
    } else if value <= 249 {
        FontWeight::ExtraLight
    } else if value <= 349 {
        FontWeight::Light
    } else if value <= 449 {
        FontWeight::Normal
    } else if value <= 549 {
        FontWeight::Medium
    } else if value <= 649 {
        FontWeight::SemiBold
    } else if value <= 749 {
        FontWeight::Bold
    } else if value <= 849 {
        FontWeight::ExtraBold
    } else {
        FontWeight::Black
    }
}

/// Horizontal compression or expansion of the letterforms, ultra
/// condensed (1) to ultra expanded (9).
#[derive(Clone, Copy, Debug, PartialEq, Eq, Structural)]
pub enum FontWidth {
    UltraCondensed,
    ExtraCondensed,
    Condensed,
    SemiCondensed,
    Normal,
    SemiExpanded,
    Expanded,
    ExtraExpanded,
    UltraExpanded,
}

impl Default for FontWidth {
    fn default() -> (w: FontWidth)
        ensures
            w == FontWidth::Normal,
    {
        FontWidth::Normal
    }
}

pub open spec fn spec_width_class(w: FontWidth) -> int {
    match w {
        FontWidth::UltraCondensed => 1,
        FontWidth::ExtraCondensed => 2,
        FontWidth::Condensed => 3,
        FontWidth::SemiCondensed => 4,
        FontWidth::Normal => 5,
        FontWidth::SemiExpanded => 6,
        FontWidth::Expanded => 7,
        FontWidth::ExtraExpanded => 8,
        FontWidth::UltraExpanded => 9,
    }
}

impl FontWidth {
    /// The numeric width class, 1 to 9.
    pub fn class(&self) -> (v: u16)
        ensures
            v as int == spec_width_class(*self),
    {
        match self {
            FontWidth::UltraCondensed => 1,
            FontWidth::ExtraCondensed => 2,
            FontWidth::Condensed => 3,
            FontWidth::SemiCondensed => 4,
            FontWidth::Normal => 5,
            FontWidth::SemiExpanded => 6,
            FontWidth::Expanded => 7,
            FontWidth::ExtraExpanded => 8,
            FontWidth::UltraExpanded => 9,
        }
    }

    /// The width a face's numeric width class maps to; out-of-range
    /// classes clamp to the ends of the scale.
    pub fn from_class(value: u16) -> (w: FontWidth)
        ensures
            spec_width_class(w) == if value < 1 {
                1
            } else if value > 9 {
                9
            } else {
                value as int
            },
    {
        if value <= 1 {
            FontWidth::UltraCondensed
        } else if value == 2 {
            FontWidth::ExtraCondensed
        } else if value == 3 {
            FontWidth::Condensed
        } else if value == 4 {
            FontWidth::SemiCondensed
        } else if value == 5 {
            FontWidth::Normal
        } else if value == 6 {
            FontWidth::SemiExpanded
        } else if value == 7 {
            FontWidth::Expanded
        } else if value == 8 {
            FontWidth::ExtraExpanded
        } else {
            FontWidth::UltraExpanded
        }
    }
}

pub open spec fn spec_type_ordinal(t: FontType) -> int {
    match t {
        FontType::Normal => 0,
        FontType::Italic => 1,
        FontType::Oblique => 2,
    }
}

/// A three-axis style descriptor.
#[derive(Clone, Copy, Debug, PartialEq, Eq, Structural)]
pub struct FontStyle {
    pub weight: FontWeight,
    pub width: FontWidth,
    pub type_: FontType,
}

impl Default for FontStyle {
    fn default() -> (s: FontStyle)
        ensures
            s == (FontStyle {
                weight: FontWeight::Normal,
                width: FontWidth::Normal,
                type_: FontType::Normal,
            }),
    {
        FontStyle { weight: FontWeight::Normal, width: FontWidth::Normal, type_: FontType::Normal }
    }
}

/// The squared distance between two styles under the fixed embedding
/// `((width - normal) * 11, type * 7, (weight - normal) / 100 * 5)`:
/// per-axis weights tuned to perceived visual distance. Squaring keeps
/// the comparison exact; the order is the Euclidean one.
pub open spec fn spec_style_distance_sq(a: FontStyle, b: FontStyle) -> int {
    let dw = (spec_width_class(a.width) - spec_width_class(b.width)) * 11;
    let dt = (spec_type_ordinal(a.type_) - spec_type_ordinal(b.type_)) * 7;
    let dh = (spec_weight_steps(a.weight) - spec_weight_steps(b.weight)) * 5;
    dw * dw + dt * dt + dh * dh
}

/// The squared embedding distance between two styles.
pub fn style_distance_sq(a: FontStyle, b: FontStyle) -> (d: i64)
    ensures
        d as int == spec_style_distance_sq(a, b),
{
    proof {
        assert(1 <= spec_width_class(a.width) <= 9);
        assert(1 <= spec_width_class(b.width) <= 9);
        assert(1 <= spec_weight_steps(a.weight) <= 10);
        assert(1 <= spec_weight_steps(b.weight) <= 10);
        assert(0 <= spec_type_ordinal(a.type_) <= 2);
        assert(0 <= spec_type_ordinal(b.type_) <= 2);
    }
    let dw = a.width.class() as i64 * 11 - b.width.class() as i64 * 11;
    let dt = type_ordinal(a.type_) * 7 - type_ordinal(b.type_) * 7;
    let dh = (a.weight.class() / 100) as i64 * 5 - (b.weight.class() / 100) as i64 * 5;
    proof {
        assert(0 <= dw * dw <= 7744 && 0 <= dt * dt <= 196 && 0 <= dh * dh <= 2025)
            by (nonlinear_arith)
            requires
                -88 <= dw <= 88,
                -14 <= dt <= 14,
                -45 <= dh <= 45,
        ;
    }
    dw * dw + dt * dt + dh * dh
}

fn type_ordinal(t: FontType) -> (v: i64)
    ensures
        v as int == spec_type_ordinal(t),
{
    match t {
        FontType::Normal => 0,
        FontType::Italic => 1,
        FontType::Oblique => 2,
    }
}

/// One loadable face: where the host can find it, and the style the
/// matcher weighs it by.
#[derive(Clone, Debug, PartialEq)]
pub struct Font {
    pub path: String,
    pub style: FontStyle,
}

impl Font {
    pub fn new(path: &str, style: FontStyle) -> (f: Font)
        ensures
            f.path@ == path@,
            f.style == style,
    {
        Font { path: path.to_owned(), style }
    }
}

/// The index the matcher picks among the first `n` fonts: the smallest
/// squared distance to the query, the earliest candidate winning ties.
pub open spec fn best_in_prefix(s: Seq<Font>, query: FontStyle, n: int) -> int
    decreases n,
{
    if n <= 1 {
        0
    } else {
        let prev = best_in_prefix(s, query, n - 1);
        if spec_style_distance_sq(query, s[n - 1].style) < spec_style_distance_sq(
            query,
            s[prev].style,
        ) {
            n - 1
        } else {
            prev
        }
    }
}

/// The index the matcher picks in a whole (non-empty) family.
pub open spec fn best_font_index(s: Seq<Font>, query: FontStyle) -> int {
    best_in_prefix(s, query, s.len() as int)
}

/// The matcher is a nearest-neighbour search with stable ties: the
/// chosen font's distance is minimal, and every earlier candidate is
/// strictly farther.
pub proof fn lemma_best_font_is_nearest(s: Seq<Font>, query: FontStyle, n: int)
    requires
        1 <= n <= s.len(),
    ensures
        0 <= best_in_prefix(s, query, n) < n,
        forall|j: int|
            0 <= j < n ==> spec_style_distance_sq(
                query,
                s[best_in_prefix(s, query, n)].style,
            ) <= spec_style_distance_sq(query, #[trigger] s[j].style),
        forall|j: int|
            0 <= j < best_in_prefix(s, query, n) ==> spec_style_distance_sq(
                query,
                #[trigger] s[j].style,
            ) > spec_style_distance_sq(query, s[best_in_prefix(s, query, n)].style),
    decreases n,
{
    if n > 1 {
        lemma_best_font_is_nearest(s, query, n - 1);
    }
}

/// A named collection of faces sharing a design.
#[derive(Clone, Debug, PartialEq)]
pub struct FontFamily {
    pub name: String,
    pub fonts: Vec<Font>,
}

impl FontFamily {
    /// An empty family under a name.
    pub fn new(name: &str) -> (f: FontFamily)
        ensures
            f.name@ == name@,
            f.fonts@ == Seq::<Font>::empty(),
    {
        FontFamily { name: name.to_owned(), fonts: Vec::new() }
    }

    pub fn name(&self) -> (name: &str)
        ensures
            name@ == self.name@,
    {
        self.name.as_str()
    }

    pub fn fonts(&self) -> (fonts: &Vec<Font>)
        ensures
            fonts == &self.fonts,
    {
        &self.fonts
    }

    /// Register one more face under this family.
    pub fn add_font(&mut self, font: Font)
        ensures
            final(self).name == old(self).name,
            final(self).fonts@ == old(self).fonts@.push(font),
    {
        self.fonts.push(font);
    }

    /// The registered face nearest the requested style, the earliest
    /// winning ties; a family with no faces has no match to offer.
    pub fn find_best_match(&self, query: FontStyle) -> (best: Result<&Font, ErrorKind>)
        ensures
            self.fonts@.len() == 0 <==> best == Err::<&Font, ErrorKind>(ErrorKind::NoMatch),
            self.fonts@.len() > 0 <==> (best matches Ok(f) && *f == self.fonts@[best_font_index(
                self.fonts@,
                query,
            )]),
    {
        let n = self.fonts.len();
        if n == 0 {
            return Err(ErrorKind::NoMatch);
        }
        let mut best_index: usize = 0;
        let mut best_distance: i64 = style_distance_sq(query, self.fonts[0].style);
        let mut i: usize = 1;
        while i < n
            invariant
                1 <= i <= n,
                n == self.fonts@.len(),
                0 <= best_index < i,
                best_index as int == best_in_prefix(self.fonts@, query, i as int),
                best_distance as int == spec_style_distance_sq(
                    query,
                    self.fonts@[best_index as int].style,
                ),
            decreases n - i,
        {
            let d = style_distance_sq(query, self.fonts[i].style);
            if d < best_distance {
                best_index = i;
                best_distance = d;
            }
            i = i + 1;
        }
        Ok(&self.fonts[best_index])
    }
}

/// A request for a face: which family (or classification) to search,
/// and the style wanted.
#[derive(Clone, Debug, PartialEq)]
pub enum FontQuery {
    FamilyName(String),
    FontType(FontCatagory),
    FamilyWithFallback(String, FontCatagory),
}

/// A query together with the style to match.
#[derive(Clone, Debug, PartialEq)]
pub struct BestFontQuery {
    pub query: FontQuery,
    pub style: FontStyle,
}

/// An ASCII letter folded to lower case; everything else unchanged.
pub open spec fn spec_lower_byte(b: u8) -> u8 {
    if 65 <= b <= 90 {
        (b + 32) as u8
    } else {
        b
    }
}

/// Byte strings equal up to ASCII case.
pub open spec fn bytes_ci_equal(a: Seq<u8>, b: Seq<u8>) -> bool {
    a.len() == b.len() && forall|i: int|
        0 <= i < a.len() ==> spec_lower_byte(#[trigger] a[i]) == spec_lower_byte(b[i])
}

/// Whether a family answers to `name`, comparing the UTF-8 bytes of the
/// two names up to ASCII case.
pub open spec fn family_answers_to(fam: FontFamily, name: Seq<char>) -> bool {
    bytes_ci_equal(encode_utf8(fam.name@), encode_utf8(name))
}

/// The first family answering to `name`, or -1 when none does.
pub open spec fn spec_find_family(s: Seq<FontFamily>, name: Seq<char>) -> int
    decreases s.len(),
{
    if s.len() == 0 {
        -1
    } else if family_answers_to(s[0], name) {
        0
    } else {
        let rest = spec_find_family(s.drop_first(), name);
        if rest < 0 {
            -1
        } else {
            rest + 1
        }
    }
}

/// `spec_find_family` names the first match: it is -1 exactly when no
/// family answers, and otherwise a valid index whose predecessors all
/// fail to answer.
pub proof fn lemma_find_family_first(s: Seq<FontFamily>, name: Seq<char>)
    ensures
        spec_find_family(s, name) == -1 <==> forall|j: int|
            0 <= j < s.len() ==> !family_answers_to(#[trigger] s[j], name),
        spec_find_family(s, name) != -1 ==> {
            let idx = spec_find_family(s, name);
            &&& 0 <= idx < s.len()
            &&& family_answers_to(s[idx], name)
            &&& forall|j: int| 0 <= j < idx ==> !family_answers_to(#[trigger] s[j], name)
        },
    decreases s.len(),
{
    if s.len() > 0 {
        lemma_find_family_first(s.drop_first(), name);
        if !family_answers_to(s[0], name) {
            let rest = spec_find_family(s.drop_first(), name);
            if rest >= 0 {
                assert(s.drop_first()[rest] == s[rest + 1]);
                assert forall|j: int| 0 <= j < rest + 1 implies !family_answers_to(
                    #[trigger] s[j],
                    name,
                ) by {
                    if j > 0 {
                        assert(s.drop_first()[j - 1] == s[j]);
                    }
                }
            } else {
                assert forall|j: int| 0 <= j < s.len() implies !family_answers_to(
                    #[trigger] s[j],
                    name,
                ) by {
                    if j > 0 {
                        assert(s.drop_first()[j - 1] == s[j]);
                    }
                }
            }
        }
    }
}

/// The font registry: the families the host has loaded, searched in
/// registration order. The host fills it at startup; injecting it keeps
/// the matcher free of process-wide state.
#[derive(Clone, Debug, PartialEq)]
pub struct FontCache {
    pub families: Vec<FontFamily>,
}

impl FontCache {
    pub fn new() -> (cache: FontCache)
        ensures
            cache.families@ == Seq::<FontFamily>::empty(),
    {
        FontCache { families: Vec::new() }
    }

    /// Register a family; a family registered earlier shadows a later
    /// one of the same name.
    pub fn add_family(&mut self, family: FontFamily)
        ensures
            final(self).families@ == old(self).families@.push(family),
    {
        self.families.push(family);
    }
}

/// Whether `a` and `b` are equal up to ASCII case.
fn ascii_ci_eq(a: &str, b: &str) -> (eq: bool)
    ensures
        eq == bytes_ci_equal(a.spec_bytes(), b.spec_bytes()),
{
    let ab = a.as_bytes();
    let bb = b.as_bytes();
    if ab.len() != bb.len() {
        return false;
    }
    let n = ab.len();
    let mut i: usize = 0;
    while i < n
        invariant
            i <= n,
            n == ab@.len(),
            n == bb@.len(),
            ab@ == a.spec_bytes(),
            bb@ == b.spec_bytes(),
            forall|j: int|
                0 <= j < i ==> spec_lower_byte(#[trigger] ab@[j]) == spec_lower_byte(bb@[j]),
        decreases n - i,
    {
        if lower_byte(ab[i]) != lower_byte(bb[i]) {
            return false;
        }
        i = i + 1;
    }
    true
}

fn lower_byte(b: u8) -> (r: u8)
    ensures
        r == spec_lower_byte(b),
{
    if 65 <= b && b <= 90 {
        b + 32
    } else {
        b
    }
}

/// Look a face up by family name (matched up to ASCII case, first
/// registered family winning) and style. Fails with `NoMatch` when no
/// family answers to the name, or the family has no faces registered.
pub fn find_best_font<'a>(cache: &'a FontCache, query: &BestFontQuery) -> (best: Result<
    &'a Font,
    ErrorKind,
>)
    requires
        query.query matches FontQuery::FamilyName(_),
    ensures
        query.query matches FontQuery::FamilyName(name) ==> {
            let idx = spec_find_family(cache.families@, name@);
            if idx < 0 {
                best == Err::<&'a Font, ErrorKind>(ErrorKind::NoMatch)
            } else {
                let fam = cache.families@[idx];
                if fam.fonts@.len() == 0 {
                    best == Err::<&'a Font, ErrorKind>(ErrorKind::NoMatch)
                } else {
                    best matches Ok(f) && *f == fam.fonts@[best_font_index(
                        fam.fonts@,
                        query.style,
                    )]
                }
            }
        },
{
    let name: &str = match &query.query {
        FontQuery::FamilyName(n) => n.as_str(),
        _ => {
            proof {
                assert(false);
            }
            ""
        },
    };
    let ghost name_chars = name@;
    let n = cache.families.len();
    let mut i: usize = 0;
    while i < n
        invariant
            i <= n,
            n == cache.families@.len(),
            name@ == name_chars,
            query.query matches FontQuery::FamilyName(q) && q@ == name_chars,
            forall|j: int|
                0 <= j < i ==> !family_answers_to(#[trigger] cache.families@[j], name_chars),
        decreases n - i,
    {
        if ascii_ci_eq(cache.families[i].name.as_str(), name) {
            proof {
                lemma_find_family_first(cache.families@, name_chars);
                assert(family_answers_to(cache.families@[i as int], name_chars));
                let idx = spec_find_family(cache.families@, name_chars);
                assert(idx != -1);
                assert(!(idx < i as int));
                assert(!(idx > i as int)) by {
                    if idx > i as int {
                        assert(!family_answers_to(cache.families@[i as int], name_chars));
                    }
                }
                assert(idx == i as int);
            }
            return cache.families[i].find_best_match(query.style);
        }
        i = i + 1;
    }
    proof {
        lemma_find_family_first(cache.families@, name_chars);
    }
    Err(ErrorKind::NoMatch)
}

} // verus!

//! The heuristic scanner: fixed keyword patterns matched against the raw
//! text of a STEP file, without any schema-aware parse.
//!
//! Keyword co-occurrence is taken as evidence of a feature. In particular the
//! fillet indicator fires when an edge-curve marker is followed by a circle
//! marker on the same line, or a B-spline-curve marker appears anywhere,
//! whether or not the markers belong to the same entity. The indicator is reported as its own field so that a
//! caller can override it.
use vstd::prelude::*;
use regex::Regex;
use crate::numeral::{decimal_literal, is_decimal_literal};
use crate::text::{char_vec, contains_chars, occurs_in};

verus! {

/// A point entity: its label, then three comma-separated numeric fields.
pub const POINT_PATTERN: &'static str = "CARTESIAN_POINT\\s*\\(\\s*'[^']*'\\s*,\\s*\\(\\s*([-\\d.E+]+)\\s*,\\s*([-\\d.E+]+)\\s*,\\s*([-\\d.E+]+)\\s*\\)";

pub const CIRCLE_PATTERN: &'static str = "CIRCLE\\s*\\(";

pub const CYLINDER_PATTERN: &'static str = "CYLINDRICAL_SURFACE\\s*\\(";

pub const FILLET_PATTERN: &'static str = "EDGE_CURVE.*CIRCLE|B_SPLINE_CURVE";

pub const FACE_PATTERN: &'static str = "ADVANCED_FACE\\s*\\(";

pub const PRODUCT_PATTERN: &'static str = "PRODUCT\\s*\\(";

pub const CHAMFER_UPPER: &'static str = "CHAMFER";

pub const CHAMFER_LOWER: &'static str = "chamfer";

/// `regex::Regex`, carried opaquely inside a `Pattern`.
#[verifier::external_type_specification]
#[verifier::external_body]
pub struct ExRegex(Regex);

/// Whether `regex::Regex::new` accepts the pattern.
pub uninterp spec fn regex_compiles(pattern: Seq<char>) -> bool;

/// The number of successive non-overlapping matches of the pattern in the text.
pub uninterp spec fn regex_match_count(pattern: Seq<char>, text: Seq<char>) -> nat;

/// Whether the pattern matches somewhere in the text.
pub uninterp spec fn regex_is_match(pattern: Seq<char>, text: Seq<char>) -> bool;

/// For each successive non-overlapping match of the pattern in the text, the
/// text of each capture group in order (group 0 being the whole match), or
/// `None` for a group that took no part in the match.
pub uninterp spec fn regex_captures(pattern: Seq<char>, text: Seq<char>) -> Seq<
    Seq<Option<Seq<char>>>,
>;

/// A compiled regular expression, kept with the pattern it was compiled from.
/// Only `compile` builds one, so `re` is always the compilation of `source`.
pub struct Pattern {
    source: String,
    re: Regex,
}

impl Pattern {
    pub closed spec fn source(&self) -> Seq<char> {
        self.source@
    }
}

/// Relies on `regex::Regex::new`: whether it succeeds depends on the pattern alone.
#[verifier::external_body]
fn compile(pattern: &str) -> (r: Option<Pattern>)
    ensures
        r.is_some() == regex_compiles(pattern@),
        r matches Some(p) ==> p.source() == pattern@,
{
    Regex::new(pattern).ok().map(|re| Pattern { source: pattern.to_string(), re })
}

/// Relies on `regex::Regex::find_iter`, counted: the number of matches.
#[verifier::external_body]
fn match_count(p: &Pattern, text: &str) -> (r: usize)
    ensures
        r as nat == regex_match_count(p.source(), text@),
{
    p.re.find_iter(text).count()
}

/// Relies on `regex::Regex::is_match`: whether the pattern matches anywhere.
#[verifier::external_body]
fn is_match(p: &Pattern, text: &str) -> (r: bool)
    ensures
        r == regex_is_match(p.source(), text@),
{
    p.re.is_match(text)
}

/// Relies on `regex::Regex::captures_iter`: the groups of each match, as text.
#[verifier::external_body]
fn captures(p: &Pattern, text: &str) -> (r: Vec<Vec<Option<String>>>)
    ensures
        r.deep_view() == regex_captures(p.source(), text@),
{
    p.re.captures_iter(text).map(|c| c.iter().map(|g| g.map(|m| m.as_str().to_string())).collect()).collect()
}

/// `p` holds a compilation of `source` exactly when that compiles.
pub open spec fn compiled_from(p: Option<Pattern>, source: Seq<char>) -> bool {
    &&& p.is_some() == regex_compiles(source)
    &&& p matches Some(q) ==> q.source() == source
}

/// Matches of `pattern` in `text`; none where the pattern does not compile.
pub open spec fn counted(pattern: Seq<char>, text: Seq<char>) -> nat {
    if regex_compiles(pattern) {
        regex_match_count(pattern, text)
    } else {
        0
    }
}

/// `pattern` compiles and matches somewhere in `text`.
pub open spec fn found(pattern: Seq<char>, text: Seq<char>) -> bool {
    regex_compiles(pattern) && regex_is_match(pattern, text)
}

/// The groups of each point-entity match in `text`.
pub open spec fn point_matches(text: Seq<char>) -> Seq<Seq<Option<Seq<char>>>> {
    if regex_compiles(POINT_PATTERN@) {
        regex_captures(POINT_PATTERN@, text)
    } else {
        Seq::empty()
    }
}

/// The three coordinate fields of a point-entity match, where all three are
/// present and each is a decimal literal.
pub open spec fn point_of(groups: Seq<Option<Seq<char>>>) -> Option<(Seq<char>, Seq<char>, Seq<char>)> {
    if groups.len() > 3 && groups[1] is Some && groups[2] is Some && groups[3] is Some
        && decimal_literal(groups[1]->0) && decimal_literal(groups[2]->0) && decimal_literal(
        groups[3]->0,
    ) {
        Some((groups[1]->0, groups[2]->0, groups[3]->0))
    } else {
        None
    }
}

/// The coordinate fields of the matches that give a point, in order.
pub open spec fn valid_points(matches: Seq<Seq<Option<Seq<char>>>>) -> Seq<
    (Seq<char>, Seq<char>, Seq<char>),
>
    decreases matches.len(),
{
    if matches.len() == 0 {
        Seq::empty()
    } else {
        let earlier = valid_points(matches.drop_last());
        match point_of(matches.last()) {
            Some(t) => earlier.push(t),
            None => earlier,
        }
    }
}

/// Some point is found among `matches` exactly when one of them gives a point.
pub proof fn lemma_valid_points_nonempty(matches: Seq<Seq<Option<Seq<char>>>>)
    ensures
        valid_points(matches).len() > 0 <==> exists|i: int|
            0 <= i < matches.len() && (#[trigger] point_of(matches[i])) is Some,
    decreases matches.len(),
{
    if matches.len() > 0 {
        let earlier = matches.drop_last();
        lemma_valid_points_nonempty(earlier);
        if point_of(matches.last()) is None {
            if exists|i: int| 0 <= i < matches.len() && (#[trigger] point_of(matches[i])) is Some {
                let i = choose|i: int|
                    0 <= i < matches.len() && (#[trigger] point_of(matches[i])) is Some;
                assert(i < matches.len() - 1);
                assert(earlier[i] == matches[i]);
            }
            if exists|i: int| 0 <= i < earlier.len() && (#[trigger] point_of(earlier[i])) is Some {
                let i = choose|i: int|
                    0 <= i < earlier.len() && (#[trigger] point_of(earlier[i])) is Some;
                assert(earlier[i] == matches[i]);
            }
        } else {
            assert(point_of(matches[matches.len() - 1]) is Some);
        }
    }
}

/// The points that a scan of `text` yields.
pub open spec fn scanned_points(text: Seq<char>) -> Seq<(Seq<char>, Seq<char>, Seq<char>)> {
    valid_points(point_matches(text))
}

/// The chamfer keyword occurs in `text`, in upper or in lower case.
pub open spec fn mentions_chamfer(text: Seq<char>) -> bool {
    occurs_in(text, CHAMFER_UPPER@) || occurs_in(text, CHAMFER_LOWER@)
}


/// The three coordinate fields of one point entity, as they stand in the text.
#[derive(Debug, Clone)]
pub struct PointText {
    pub x: String,
    pub y: String,
    pub z: String,
}

impl View for PointText {
    type V = (Seq<char>, Seq<char>, Seq<char>);

    open spec fn view(&self) -> (Seq<char>, Seq<char>, Seq<char>) {
        (self.x@, self.y@, self.z@)
    }
}

/// What one scan of a file's text found.
#[derive(Debug, Clone)]
pub struct ScanReport {
    /// The points whose three fields are all decimal literals, in text order.
    pub points: Vec<PointText>,
    pub circle_count: usize,
    pub has_cylindrical_surface: bool,
    /// The fillet indicator (a co-occurrence heuristic, see the module notes).
    pub has_fillet_indicator: bool,
    pub advanced_face_count: usize,
    pub product_count: usize,
    pub has_chamfer_token: bool,
}

impl ScanReport {
    /// The report is the one that scanning `text` gives.
    pub open spec fn describes(&self, text: Seq<char>) -> bool {
        &&& self.points@.map_values(|p: PointText| p@) == scanned_points(text)
        &&& self.circle_count as nat == counted(CIRCLE_PATTERN@, text)
        &&& self.has_cylindrical_surface == found(CYLINDER_PATTERN@, text)
        &&& self.has_fillet_indicator == found(FILLET_PATTERN@, text)
        &&& self.advanced_face_count as nat == counted(FACE_PATTERN@, text)
        &&& self.product_count as nat == counted(PRODUCT_PATTERN@, text)
        &&& self.has_chamfer_token == mentions_chamfer(text)
    }
}

/// The point entity that one match's groups describe, if its fields are valid.
fn point_from(groups: &Vec<Option<String>>) -> (r: Option<PointText>)
    ensures
        r is Some <==> point_of(groups.deep_view()) is Some,
        r matches Some(p) ==> Some(p@) == point_of(groups.deep_view()),
{
    let ghost g = groups.deep_view();
    if groups.len() <= 3 {
        return None;
    }
    assert(g[1] == groups@[1].deep_view());
    assert(g[2] == groups@[2].deep_view());
    assert(g[3] == groups@[3].deep_view());
    match (&groups[1], &groups[2], &groups[3]) {
        (Some(x), Some(y), Some(z)) => {
            if is_decimal_literal(x.as_str()) && is_decimal_literal(y.as_str())
                && is_decimal_literal(z.as_str()) {
                Some(PointText { x: x.clone(), y: y.clone(), z: z.clone() })
            } else {
                None
            }
        },
        _ => None,
    }
}

/// The scanner: the keyword patterns, compiled once.
pub struct HeuristicScanner {
    point: Option<Pattern>,
    circle: Option<Pattern>,
    cylinder: Option<Pattern>,
    fillet: Option<Pattern>,
    face: Option<Pattern>,
    product: Option<Pattern>,
}

impl HeuristicScanner {
    /// Each field holds its keyword pattern, compiled, exactly when it compiles.
    #[verifier::type_invariant]
    spec fn inv(self) -> bool {
        &&& compiled_from(self.point, POINT_PATTERN@)
        &&& compiled_from(self.circle, CIRCLE_PATTERN@)
        &&& compiled_from(self.cylinder, CYLINDER_PATTERN@)
        &&& compiled_from(self.fillet, FILLET_PATTERN@)
        &&& compiled_from(self.face, FACE_PATTERN@)
        &&& compiled_from(self.product, PRODUCT_PATTERN@)
    }

    /// Compiles the keyword patterns.
    pub fn new() -> (r: HeuristicScanner) {
        HeuristicScanner {
            point: compile(POINT_PATTERN),
            circle: compile(CIRCLE_PATTERN),
            cylinder: compile(CYLINDER_PATTERN),
            fillet: compile(FILLET_PATTERN),
            face: compile(FACE_PATTERN),
            product: compile(PRODUCT_PATTERN),
        }
    }

    /// The points of `text`, in order.
    fn scan_points(&self, text: &str) -> (r: Vec<PointText>)
        ensures
            r@.map_values(|p: PointText| p@) == scanned_points(text@),
    {
        proof {
            use_type_invariant(self);
        }
        let mut points: Vec<PointText> = Vec::new();
        match &self.point {
            None => {
                assert(points@.map_values(|p: PointText| p@) =~= Seq::empty());
                points
            },
            Some(p) => {
                let groups = captures(p, text);
                let ghost all = groups.deep_view();
                let mut i: usize = 0;
                while i < groups.len()
                    invariant
                        i <= groups.len(),
                        all == groups.deep_view(),
                        all == point_matches(text@),
                        points@.map_values(|p: PointText| p@) == valid_points(all.take(i as int)),
                    decreases groups.len() - i,
                {
                    let found = point_from(&groups[i]);
                    proof {
                        assert(all.take(i + 1).drop_last() =~= all.take(i as int));
                        assert(all.take(i + 1).last() == groups@[i as int].deep_view());
                    }
                    match found {
                        Some(pt) => {
                            points.push(pt);
                            assert(points@.map_values(|p: PointText| p@) =~= valid_points(
                                all.take(i as int),
                            ).push(points@.last()@));
                        },
                        None => {},
                    }
                    i = i + 1;
                }
                assert(all.take(i as int) =~= all);
                points
            },
        }
    }

    /// Matches of `p` in `text`, or none where `p` did not compile.
    fn count_in(p: &Option<Pattern>, text: &str) -> (r: usize)
        ensures
            p matches Some(q) ==> r as nat == regex_match_count(q.source(), text@),
            p is None ==> r == 0,
    {
        match p {
            Some(q) => match_count(q, text),
            None => 0,
        }
    }

    /// Whether `p` compiled and matches somewhere in `text`.
    fn found_in(p: &Option<Pattern>, text: &str) -> (r: bool)
        ensures
            r == (p matches Some(q) && regex_is_match(q.source(), text@)),
    {
        match p {
            Some(q) => is_match(q, text),
            None => false,
        }
    }

    /// Scans `text` for every keyword pattern.
    pub fn scan(&self, text: &str) -> (r: ScanReport)
        ensures
            r.describes(text@),
    {
        proof {
            use_type_invariant(self);
        }
        let chars = char_vec(text);
        let upper = char_vec(CHAMFER_UPPER);
        let lower = char_vec(CHAMFER_LOWER);
        ScanReport {
            points: self.scan_points(text),
            circle_count: Self::count_in(&self.circle, text),
            has_cylindrical_surface: Self::found_in(&self.cylinder, text),
            has_fillet_indicator: Self::found_in(&self.fillet, text),
            advanced_face_count: Self::count_in(&self.face, text),
            product_count: Self::count_in(&self.product, text),
            has_chamfer_token: contains_chars(&chars, &upper) || contains_chars(&chars, &lower),
        }
    }
}

} // verus!

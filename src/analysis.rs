//! Feature classification and result assembly.
use vstd::prelude::*;
use crate::scanner::{
    counted, found, lemma_valid_points_nonempty, mentions_chamfer, point_matches, point_of,
    scanned_points,
    HeuristicScanner, PointText, ScanReport, CIRCLE_PATTERN, CYLINDER_PATTERN, FACE_PATTERN,
    FILLET_PATTERN, PRODUCT_PATTERN,
};

verus! {

/// The message of a failed analysis.
pub const NO_GEOMETRY_ERROR: &'static str = "No geometry data found in STEP file";

/// The manufacturing features found in a file.
#[derive(Debug, Clone, Copy, PartialEq, Eq)]
pub struct FeatureInfo {
    pub has_holes: bool,
    pub has_fillets: bool,
    pub has_chamfers: bool,
    pub hole_count: usize,
    pub surface_count: usize,
}

/// The feature summary of the given scanner counts: a hole for each circle,
/// and holes present also where a cylindrical surface is.
pub open spec fn features_from(
    hole_count: usize,
    has_cylindrical_surface: bool,
    has_fillets: bool,
    has_chamfers: bool,
    surface_count: usize,
) -> FeatureInfo {
    FeatureInfo {
        has_holes: hole_count > 0 || has_cylindrical_surface,
        has_fillets,
        has_chamfers,
        hole_count,
        surface_count,
    }
}

/// The number of parts for a count of product entities: at least one.
pub open spec fn parts_for(product_count: nat) -> nat {
    if product_count == 0 {
        1
    } else {
        product_count
    }
}

/// Turns the scanner's findings into the feature summary.
pub fn classify_features(report: &ScanReport) -> (r: FeatureInfo)
    ensures
        r == features_from(
            report.circle_count,
            report.has_cylindrical_surface,
            report.has_fillet_indicator,
            report.has_chamfer_token,
            report.advanced_face_count,
        ),
        r.has_holes == (r.hole_count > 0 || report.has_cylindrical_surface),
{
    FeatureInfo {
        has_holes: report.circle_count > 0 || report.has_cylindrical_surface,
        has_fillets: report.has_fillet_indicator,
        has_chamfers: report.has_chamfer_token,
        hole_count: report.circle_count,
        surface_count: report.advanced_face_count,
    }
}

/// The number of parts for a count of product entities: a file without any
/// is taken to describe one implicit part.
pub fn parts_count(product_count: usize) -> (r: usize)
    ensures
        r as nat == parts_for(product_count as nat),
        r >= 1,
{
    if product_count == 0 {
        1
    } else {
        product_count
    }
}

/// The outcome of an analysis; the bounding box is taken over `points`.
#[derive(Debug)]
pub struct StepSummary {
    pub success: bool,
    pub error: Option<String>,
    pub filename: Option<String>,
    /// The coordinate fields of every point found, in text order.
    pub points: Vec<PointText>,
    pub parts_count: usize,
    pub features: Option<FeatureInfo>,
}

impl StepSummary {
    /// Exactly one of the two outcomes: success, with features and no error;
    /// or failure, with an error, no features, no points and no parts.
    pub open spec fn is_consistent(&self) -> bool {
        if self.success {
            &&& self.error is None
            &&& self.features is Some
            &&& self.points.len() > 0
            &&& self.parts_count >= 1
        } else {
            &&& self.error is Some
            &&& self.features is None
            &&& self.points.len() == 0
            &&& self.parts_count == 0
        }
    }

    /// The summary of the given findings for the file named `filename`.
    pub open spec fn summarizes(
        &self,
        points: Seq<(Seq<char>, Seq<char>, Seq<char>)>,
        features: FeatureInfo,
        product_count: nat,
        filename: Seq<char>,
    ) -> bool {
        &&& self.success == (points.len() > 0)
        &&& self.filename matches Some(f) && f@ == filename
        &&& if self.success {
            &&& self.error is None
            &&& self.points@.map_values(|p: PointText| p@) == points
            &&& self.parts_count as nat == parts_for(product_count)
            &&& self.features == Some(features)
        } else {
            &&& self.error matches Some(e) && e@ == NO_GEOMETRY_ERROR@
            &&& self.points.len() == 0
            &&& self.parts_count == 0
            &&& self.features is None
        }
    }
}

/// Combines a scan into a result: success exactly when a point was found.
pub fn assemble(report: ScanReport, filename: String) -> (r: StepSummary)
    ensures
        r.summarizes(
            report.points@.map_values(|p: PointText| p@),
            features_from(
                report.circle_count,
                report.has_cylindrical_surface,
                report.has_fillet_indicator,
                report.has_chamfer_token,
                report.advanced_face_count,
            ),
            report.product_count as nat,
            filename@,
        ),
        r.is_consistent(),
{
    if report.points.len() == 0 {
        return StepSummary {
            success: false,
            error: Some(NO_GEOMETRY_ERROR.to_string()),
            filename: Some(filename),
            points: Vec::new(),
            parts_count: 0,
            features: None,
        };
    }
    let features = classify_features(&report);
    let parts = parts_count(report.product_count);
    StepSummary {
        success: true,
        error: None,
        filename: Some(filename),
        points: report.points,
        parts_count: parts,
        features: Some(features),
    }
}


/// The feature summary that the text of a file gives.
pub open spec fn features_in(text: Seq<char>) -> FeatureInfo {
    features_from(
        counted(CIRCLE_PATTERN@, text) as usize,
        found(CYLINDER_PATTERN@, text),
        found(FILLET_PATTERN@, text),
        mentions_chamfer(text),
        counted(FACE_PATTERN@, text) as usize,
    )
}

/// Analyzes the text of a STEP file: its points, parts and features.
pub fn analyze_step_content(content: String, filename: String) -> (r: StepSummary)
    ensures
        r.summarizes(
            scanned_points(content@),
            features_in(content@),
            counted(PRODUCT_PATTERN@, content@),
            filename@,
        ),
        r.is_consistent(),
        r.success <==> exists|i: int|
            0 <= i < point_matches(content@).len() && (#[trigger] point_of(
                point_matches(content@)[i],
            )) is Some,
        r.success ==> r.parts_count >= 1,
        r.success && counted(PRODUCT_PATTERN@, content@) >= 1 ==> r.parts_count as nat == counted(
            PRODUCT_PATTERN@,
            content@,
        ),
        r.features matches Some(f) ==> f.has_holes == (f.hole_count > 0 || found(
            CYLINDER_PATTERN@,
            content@,
        )),
        r.features matches Some(f) ==> f.has_chamfers == mentions_chamfer(content@),
{
    let scanner = HeuristicScanner::new();
    let report = scanner.scan(content.as_str());
    proof {
        lemma_valid_points_nonempty(point_matches(content@));
    }
    assemble(report, filename)
}

} // verus!

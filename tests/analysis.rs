use step_geometry::{
    analyze_step_content, assemble, classify_features, is_decimal_literal, parts_count,
    FeatureInfo, HeuristicScanner, PointText, ScanReport, StepSummary, NO_GEOMETRY_ERROR,
};

const TWO_POINTS: &str = "CARTESIAN_POINT('',(0.0,0.0,0.0))CARTESIAN_POINT('',(10.0,5.0,2.0))";

fn analyze(content: &str) -> StepSummary {
    analyze_step_content(content.to_string(), "part.step".to_string())
}

fn fields(p: &PointText) -> (&str, &str, &str) {
    (p.x.as_str(), p.y.as_str(), p.z.as_str())
}

fn features(s: &StepSummary) -> FeatureInfo {
    s.features.expect("a successful analysis has features")
}

#[test]
fn two_points_give_a_box_and_no_holes() {
    let r = analyze(TWO_POINTS);
    assert!(r.success);
    assert_eq!(r.error, None);
    assert_eq!(r.filename.as_deref(), Some("part.step"));
    assert_eq!(r.points.len(), 2);
    assert_eq!(fields(&r.points[0]), ("0.0", "0.0", "0.0"));
    assert_eq!(fields(&r.points[1]), ("10.0", "5.0", "2.0"));
    assert_eq!(r.parts_count, 1);
    let f = features(&r);
    assert_eq!(f.hole_count, 0);
    assert!(!f.has_holes);
    assert!(!f.has_fillets);
    assert!(!f.has_chamfers);
    assert_eq!(f.surface_count, 0);
}

#[test]
fn circles_and_cylinder_give_holes() {
    let content = format!("{}CIRCLE('',#1,2.0);CIRCLE('',#2,3.0);CYLINDRICAL_SURFACE('',#3,1.0);", TWO_POINTS);
    let r = analyze(&content);
    assert!(r.success);
    let f = features(&r);
    assert_eq!(f.hole_count, 2);
    assert!(f.has_holes);
}

#[test]
fn no_point_is_a_failure() {
    let r = analyze("ADVANCED_FACE('',(#1),#2,.T.);PRODUCT('p','p','',(#3));");
    assert!(!r.success);
    assert_eq!(r.error.as_deref(), Some("No geometry data found in STEP file"));
    assert_eq!(r.error.as_deref(), Some(NO_GEOMETRY_ERROR));
    assert_eq!(r.filename.as_deref(), Some("part.step"));
    assert_eq!(r.parts_count, 0);
    assert!(r.features.is_none());
    assert!(r.points.is_empty());
}

#[test]
fn lower_case_chamfer_word_counts() {
    let r = analyze("/* chamfer feature */ CARTESIAN_POINT('',(1.0,2.0,3.0));");
    assert!(r.success);
    assert!(features(&r).has_chamfers);
}

#[test]
fn upper_case_chamfer_entity_counts() {
    let r = analyze("CHAMFER(#1,#2);CARTESIAN_POINT('',(1.0,2.0,3.0));");
    assert!(features(&r).has_chamfers);
}

#[test]
fn mixed_case_chamfer_does_not_count() {
    let r = analyze("Chamfer;CARTESIAN_POINT('',(1.0,2.0,3.0));");
    assert!(!features(&r).has_chamfers);
}

#[test]
fn empty_text_is_a_failure() {
    let r = analyze("");
    assert!(!r.success);
    assert!(r.error.is_some());
    assert!(r.features.is_none());
    assert_eq!(r.parts_count, 0);
}

#[test]
fn malformed_triple_is_skipped() {
    let r = analyze("CARTESIAN_POINT('',(1.0.0,2.0,3.0));CARTESIAN_POINT('',(1E,2,3));");
    assert!(!r.success);
    let r = analyze("CARTESIAN_POINT('',(1.0.0,2.0,3.0));CARTESIAN_POINT('',(4,5,6));");
    assert!(r.success);
    assert_eq!(r.points.len(), 1);
    assert_eq!(fields(&r.points[0]), ("4", "5", "6"));
}

#[test]
fn exponent_sign_and_spacing_are_accepted() {
    let r = analyze("CARTESIAN_POINT ( 'origin' , ( 1.5E+2 , -3. , +.5 ) ) ;");
    assert!(r.success);
    assert_eq!(fields(&r.points[0]), ("1.5E+2", "-3.", "+.5"));
}

#[test]
fn product_entities_count_as_parts() {
    let content = format!("PRODUCT('a','a','',(#1));PRODUCT ('b','b','',(#1));PRODUCT_DEFINITION('d','',#2,#3);{}", TWO_POINTS);
    assert_eq!(analyze(&content).parts_count, 2);
    assert_eq!(analyze(TWO_POINTS).parts_count, 1);
}

#[test]
fn cylinder_alone_sets_holes_without_count() {
    let content = format!("CYLINDRICAL_SURFACE('',#3,1.0);{}", TWO_POINTS);
    let f = features(&analyze(&content));
    assert!(f.has_holes);
    assert_eq!(f.hole_count, 0);
}

#[test]
fn fillet_indicator_follows_markers() {
    let same_line = format!("EDGE_CURVE('',#1,#2,#3,.T.); #3=CIRCLE('',#4,1.0);\n{}", TWO_POINTS);
    assert!(features(&analyze(&same_line)).has_fillets);
    let spline = format!("B_SPLINE_CURVE_WITH_KNOTS('',3,(#1));\n{}", TWO_POINTS);
    assert!(features(&analyze(&spline)).has_fillets);
    let apart = format!("EDGE_CURVE('',#1,#2,#3,.T.);\n#3=CIRCLE('',#4,1.0);\n{}", TWO_POINTS);
    assert!(!features(&analyze(&apart)).has_fillets);
}

#[test]
fn advanced_faces_are_surfaces() {
    let content = format!("ADVANCED_FACE('',(#1),#2,.T.);ADVANCED_FACE('',(#5),#6,.F.);{}", TWO_POINTS);
    assert_eq!(features(&analyze(&content)).surface_count, 2);
}

#[test]
fn scanner_reports_raw_findings() {
    let scanner = HeuristicScanner::new();
    let r = scanner.scan("CIRCLE(#1);CIRCLE (#2);CIRCLE(#3);PRODUCT(#4);CARTESIAN_POINT('',(1,2,3));chamfer");
    assert_eq!(r.circle_count, 3);
    assert_eq!(r.product_count, 1);
    assert_eq!(r.advanced_face_count, 0);
    assert!(!r.has_cylindrical_surface);
    assert!(!r.has_fillet_indicator);
    assert!(r.has_chamfer_token);
    assert_eq!(r.points.len(), 1);
    assert_eq!(fields(&r.points[0]), ("1", "2", "3"));
}

#[test]
fn decimal_literals() {
    for s in ["0", "1.", ".5", "-2.25", "+7", "1E5", "1e-5", "2.5E+10", "00.00"] {
        assert!(is_decimal_literal(s), "{}", s);
    }
    for s in ["", ".", "+", "-", "1E", "E5", "1.0.0", "1E+", "--1", "1-", "\u{663}", "1 "] {
        assert!(!is_decimal_literal(s), "{}", s);
    }
}

#[test]
fn classification_is_a_relabelling() {
    let report = ScanReport {
        points: Vec::new(),
        circle_count: 0,
        has_cylindrical_surface: true,
        has_fillet_indicator: true,
        advanced_face_count: 4,
        product_count: 0,
        has_chamfer_token: false,
    };
    let f = classify_features(&report);
    assert_eq!(
        f,
        FeatureInfo { has_holes: true, has_fillets: true, has_chamfers: false, hole_count: 0, surface_count: 4 }
    );
}

#[test]
fn parts_count_has_a_floor_of_one() {
    assert_eq!(parts_count(0), 1);
    assert_eq!(parts_count(1), 1);
    assert_eq!(parts_count(5), 5);
}

#[test]
fn assembly_of_a_report() {
    let point = PointText { x: "1".to_string(), y: "2".to_string(), z: "3".to_string() };
    let report = ScanReport {
        points: vec![point],
        circle_count: 3,
        has_cylindrical_surface: false,
        has_fillet_indicator: false,
        advanced_face_count: 1,
        product_count: 0,
        has_chamfer_token: true,
    };
    let r = assemble(report.clone(), "a.stp".to_string());
    assert!(r.success);
    assert_eq!(r.parts_count, 1);
    assert_eq!(r.features.map(|f| (f.has_holes, f.hole_count, f.has_chamfers)), Some((true, 3, true)));
    let empty = ScanReport { points: Vec::new(), ..report };
    let r = assemble(empty, "b.stp".to_string());
    assert!(!r.success);
    assert_eq!(r.parts_count, 0);
    assert_eq!(r.filename.as_deref(), Some("b.stp"));
}

//! Geometry-feature extraction for STEP (ISO 10303-21) exchange files: the
//! points, part count and manufacturing features of a file's raw text.

pub mod analysis;
pub mod messages;
pub mod numeral;
pub mod scanner;
pub mod text;

pub use analysis::{analyze_step_content, assemble, classify_features, parts_count};
pub use analysis::{FeatureInfo, StepSummary, NO_GEOMETRY_ERROR};
pub use messages::{ClaudeMessage, ClaudeRequest, TitleBlock};
pub use numeral::is_decimal_literal;
pub use scanner::{HeuristicScanner, PointText, ScanReport};

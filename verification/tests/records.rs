use hilaw::models::{
    default_format, default_preview_height, default_preview_width, default_quality, EditParams,
    ExportFormat, ExportRequest, ImageRecord, Timestamp,
};
use hilaw::storage::sort_newest_first;

fn edits(exposure: Option<f64>, wb: Option<f64>, rotation: Option<u32>, crop: Option<[f64; 4]>) -> EditParams {
    EditParams {
        exposure: exposure.map(f64::to_bits),
        white_balance: wb.map(f64::to_bits),
        rotation,
        crop: crop.map(|c| c.map(f64::to_bits)),
    }
}

#[test]
fn merge_overrides_only_set_fields() {
    let mut stored = edits(Some(1.0), Some(5500.0), Some(90), None);
    let incoming = edits(Some(-0.5), None, None, Some([0.1, 0.2, 0.5, 0.5]));
    stored.merge(&incoming);
    assert_eq!(stored, edits(Some(-0.5), Some(5500.0), Some(90), Some([0.1, 0.2, 0.5, 0.5])));
}

#[test]
fn merge_with_default_changes_nothing() {
    let mut stored = edits(Some(2.0), None, Some(180), None);
    let before = stored;
    stored.merge(&EditParams::default());
    assert_eq!(stored, before);
}

#[test]
fn merge_onto_default_takes_incoming() {
    let incoming = edits(None, Some(6500.0), Some(270), None);
    let mut stored = EditParams::default();
    stored.merge(&incoming);
    assert_eq!(stored, incoming);
}

#[test]
fn merge_is_associative_on_example() {
    let a = edits(Some(1.0), Some(4000.0), None, None);
    let b = edits(None, Some(4500.0), Some(90), None);
    let c = edits(Some(-1.0), None, None, Some([0.0, 0.0, 1.0, 1.0]));
    let mut left = a;
    left.merge(&b);
    left.merge(&c);
    let mut bc = b;
    bc.merge(&c);
    let mut right = a;
    right.merge(&bc);
    assert_eq!(left, right);
    let mut twice = left;
    twice.merge(&c);
    assert_eq!(twice, left);
}

#[test]
fn default_edits_are_empty() {
    assert_eq!(EditParams::default(), edits(None, None, None, None));
}

#[test]
fn export_defaults_and_headers() {
    assert_eq!(default_format(), ExportFormat::Jpeg);
    assert_eq!(default_quality(), 92);
    assert_eq!(default_preview_width(), 800);
    assert_eq!(default_preview_height(), 600);
    assert_eq!(ExportFormat::Jpeg.content_type(), "image/jpeg");
    assert_eq!(ExportFormat::Png.content_type(), "image/png");
    assert_eq!(ExportFormat::Jpeg.file_extension(), "jpg");
    assert_eq!(ExportFormat::Png.content_disposition(), "attachment; filename=\"export.png\"");
    assert_eq!(ExportFormat::Jpeg.content_disposition(), "attachment; filename=\"export.jpg\"");
}

#[test]
fn export_dimensions_default_to_unbounded() {
    let req = ExportRequest { format: ExportFormat::Png, quality: 92, width: Some(1920), height: None };
    assert_eq!(req.max_dimensions(), (1920, 0));
    let req = ExportRequest { format: ExportFormat::Jpeg, quality: 50, width: None, height: None };
    assert_eq!(req.max_dimensions(), (0, 0));
}

fn record(id: &str, secs: i64, nanos: u32) -> ImageRecord {
    ImageRecord {
        id: id.to_string(),
        filename: format!("{id}.nef"),
        extension: "nef".to_string(),
        size_bytes: 1,
        created_at: Timestamp { secs, nanos },
    }
}

fn ids(v: &[ImageRecord]) -> Vec<&str> {
    v.iter().map(|r| r.id.as_str()).collect()
}

#[test]
fn newest_first_orders_by_creation() {
    let input = vec![record("a", 10, 0), record("b", 30, 0), record("c", 20, 5), record("d", 20, 7)];
    let out = sort_newest_first(input);
    assert_eq!(ids(&out), vec!["b", "d", "c", "a"]);
}

#[test]
fn newest_first_keeps_order_of_equal_instants() {
    let input = vec![
        record("x1", 5, 0), record("y", 9, 0), record("x2", 5, 0), record("z", -3, 0), record("x3", 5, 0),
    ];
    let out = sort_newest_first(input.clone());
    assert_eq!(ids(&out), vec!["y", "x1", "x2", "x3", "z"]);
    let mut expected = input;
    expected.sort_by(|a, b| (b.created_at.secs, b.created_at.nanos).cmp(&(a.created_at.secs, a.created_at.nanos)));
    assert_eq!(out, expected);
}

#[test]
fn newest_first_empty_and_single() {
    assert!(sort_newest_first(Vec::new()).is_empty());
    assert_eq!(ids(&sort_newest_first(vec![record("only", 0, 0)])), vec!["only"]);
}

#[test]
fn timestamps_compare_seconds_then_nanos() {
    let a = Timestamp { secs: 1, nanos: 999_999_999 };
    let b = Timestamp { secs: 2, nanos: 0 };
    assert!(b.is_later_than(&a));
    assert!(!a.is_later_than(&b));
    assert!(!a.is_later_than(&a));
}

use fastdigest::error::{DigestError, Field, Violation};
use fastdigest::state::{export_state, import_state, CentroidRecord, DigestState};

fn record(m: Option<f64>, c: Option<f64>) -> CentroidRecord<f64> {
    CentroidRecord { m, c }
}

#[test]
fn import_empty_centroids_is_invalid_argument() {
    let state: DigestState<f64> = DigestState { centroids: Some(Vec::new()) };
    assert_eq!(
        import_state(&state),
        Err(DigestError::InvalidArgument(Violation::EmptyCentroids))
    );
}

#[test]
fn import_missing_weight_is_missing_field() {
    let state = DigestState { centroids: Some(vec![record(Some(1.0), None)]) };
    assert_eq!(import_state(&state), Err(DigestError::MissingField(Field::Weight)));
}

#[test]
fn import_missing_mean_is_missing_field() {
    let state = DigestState { centroids: Some(vec![record(None, Some(2.0))]) };
    assert_eq!(import_state(&state), Err(DigestError::MissingField(Field::Mean)));
}

#[test]
fn import_missing_both_reports_mean_first() {
    let state = DigestState { centroids: Some(vec![record(None, None)]) };
    assert_eq!(import_state(&state), Err(DigestError::MissingField(Field::Mean)));
}

#[test]
fn import_missing_container_is_missing_field() {
    let state: DigestState<f64> = DigestState { centroids: None };
    assert_eq!(import_state(&state), Err(DigestError::MissingField(Field::Centroids)));
}

#[test]
fn import_reports_first_incomplete_record() {
    let state = DigestState {
        centroids: Some(vec![
            record(Some(1.0), Some(1.0)),
            record(Some(2.0), None),
            record(None, Some(3.0)),
        ]),
    };
    assert_eq!(import_state(&state), Err(DigestError::MissingField(Field::Weight)));
}

#[test]
fn import_keeps_record_order() {
    let state = DigestState {
        centroids: Some(vec![
            record(Some(3.0), Some(1.0)),
            record(Some(1.0), Some(2.5)),
            record(Some(2.0), Some(4.0)),
        ]),
    };
    assert_eq!(import_state(&state), Ok(vec![(3.0, 1.0), (1.0, 2.5), (2.0, 4.0)]));
}

#[test]
fn export_writes_one_record_per_centroid() {
    let pairs = vec![(1.0, 1.0), (2.5, 3.0)];
    let state = export_state(&pairs);
    let recs = state.centroids.expect("exported state has centroids");
    assert_eq!(recs.len(), 2);
    assert_eq!(recs[0].m, Some(1.0));
    assert_eq!(recs[0].c, Some(1.0));
    assert_eq!(recs[1].m, Some(2.5));
    assert_eq!(recs[1].c, Some(3.0));
}

#[test]
fn export_then_import_round_trips() {
    let pairs = vec![(-4.0, 1.0), (0.5, 2.0), (0.5, 7.0), (10.0, 1.0)];
    let state = export_state(&pairs);
    assert_eq!(import_state(&state), Ok(pairs));
}

#[test]
fn messages_name_the_constraint() {
    assert_eq!(
        DigestError::MissingField(Field::Weight).message(),
        "Centroid missing 'c' key"
    );
    assert_eq!(
        DigestError::InvalidArgument(Violation::EmptyCentroids).message(),
        "Centroids list cannot be empty"
    );
    assert_eq!(
        DigestError::InvalidArgument(Violation::QuantileRange).message(),
        "q must be between 0 and 1."
    );
}

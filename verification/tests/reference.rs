use mulder::simulation::reference::{
    missing_energy, reference_keyword, table_file, table_file_shape, table_shape,
    ReferenceKeyword, TableShape, HEADER_SIZE,
};
use mulder::utils::error::ErrorKind;

fn header(n_k: i64, n_c: i64, n_h: i64) -> Vec<u8> {
    let mut bytes = Vec::new();
    for n in [n_k, n_c, n_h] {
        bytes.extend_from_slice(&n.to_le_bytes());
    }
    for x in [1.0_f64, 10.0, 0.0, 1.0, 0.0, 0.0] {
        bytes.extend_from_slice(&x.to_le_bytes());
    }
    bytes
}

fn bad_format(path: &str) -> Result<TableShape, (ErrorKind, String)> {
    Err((ErrorKind::ValueError, format!("{}: bad table format)", path)))
}

#[test]
fn table_file_shapes() {
    let mut bytes = header(3, 2, 1);
    assert_eq!(bytes.len(), HEADER_SIZE);
    bytes.extend(std::iter::repeat(0u8).take(4 * 12));
    assert_eq!(
        table_file_shape("flux.table", &bytes),
        Ok(TableShape { n_h: 1, n_c: 2, n_k: 3, values: 12 }),
    );
    bytes.push(0);
    assert_eq!(
        table_file_shape("flux.table", &bytes),
        Ok(TableShape { n_h: 1, n_c: 2, n_k: 3, values: 12 }),
    );
    bytes.truncate(HEADER_SIZE + 4 * 12 - 1);
    assert_eq!(table_file_shape("flux.table", &bytes), bad_format("flux.table"));
}

#[test]
fn table_file_bad_headers() {
    let bytes = header(3, 2, 1);
    assert_eq!(table_file_shape("a.table", &bytes[..HEADER_SIZE - 1]), bad_format("a.table"));
    assert_eq!(table_file_shape("a.table", &[]), bad_format("a.table"));
    let mut bytes = header(-1, 2, 1);
    bytes.extend(std::iter::repeat(0u8).take(64));
    assert_eq!(table_file_shape("a.table", &bytes), bad_format("a.table"));
    let bytes = header(1 << 62, 4, 1);
    assert_eq!(table_file_shape("a.table", &bytes), bad_format("a.table"));
}

#[test]
fn table_file_empty() {
    let bytes = header(5, 7, 0);
    assert_eq!(
        table_file_shape("a.table", &bytes),
        Ok(TableShape { n_h: 0, n_c: 7, n_k: 5, values: 0 }),
    );
}

#[test]
fn table_array_shapes() {
    assert_eq!(table_shape(false, &vec![4, 5]), Ok(TableShape { n_h: 1, n_c: 4, n_k: 5, values: 40 }));
    assert_eq!(
        table_shape(true, &vec![2, 3, 4]),
        Ok(TableShape { n_h: 2, n_c: 3, n_k: 4, values: 48 }),
    );
    assert_eq!(
        table_shape(true, &vec![4, 5]),
        Err((ErrorKind::TypeError, "bad grid (expected a 3d array, found 2d)".to_string())),
    );
    assert_eq!(
        table_shape(false, &vec![1, 2, 3]),
        Err((ErrorKind::TypeError, "bad grid (expected a 2d array, found 3d)".to_string())),
    );
}

#[test]
fn reference_keywords() {
    assert_eq!(reference_keyword("altitude"), Ok(ReferenceKeyword::Altitude));
    assert_eq!(reference_keyword("cos_theta"), Ok(ReferenceKeyword::CosTheta));
    assert_eq!(reference_keyword("energy"), Ok(ReferenceKeyword::Energy));
    assert_eq!(
        reference_keyword("elevation"),
        Err((ErrorKind::TypeError, "bad kwargs (invalid keyword argument 'elevation')".to_string())),
    );
    assert_eq!(
        missing_energy(),
        (ErrorKind::TypeError, "bad reference (missing energy range)".to_string()),
    );
}

#[test]
fn reference_table_files() {
    assert_eq!(table_file("flux.table", Some("table")), Ok(()));
    assert_eq!(
        table_file("flux.txt", Some("txt")),
        Err((ErrorKind::TypeError, "bad model (flux.txt: unsupported format (.txt))".to_string())),
    );
    assert_eq!(
        table_file("flux", None),
        Err((ErrorKind::TypeError, "bad model (flux: missing format)".to_string())),
    );
}

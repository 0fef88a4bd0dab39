use science::formatter::DatapointsFormatter;
use science::models::Datapoint;

fn dp(id: i64, description: &str, sha: &str, status: &str) -> Datapoint {
    Datapoint {
        id,
        description: String::from(description),
        experiment_id: 1,
        sha: String::from(sha),
        status: String::from(status),
    }
}

#[test]
fn empty_table() {
    assert_eq!(DatapointsFormatter::from_datapoints(&vec![]).format(), "");
}

#[test]
fn columns_are_padded_to_widest_cell() {
    let dps = vec![dp(1, "a", "abcdef", "passing"), dp(12, "longer", "ab", "ok")];
    assert_eq!(
        DatapointsFormatter::from_datapoints(&dps).format(),
        "1  | a      | abcdef | passing\n12 | longer | ab     | ok     "
    );
}

#[test]
fn width_counts_bytes() {
    let dps = vec![dp(1, "é", "s", "x"), dp(2, "ab", "s", "x")];
    assert_eq!(
        DatapointsFormatter::from_datapoints(&dps).format(),
        "1 | é | s | x\n2 | ab | s | x"
    );
}

use conspire::Layer;
use conspire::data::MatrixData;
use conspire::data::Plottable;
use conspire::data::VectorData;
use conspire::data::fmt_quant_i64;
use conspire::data::fmt_quant_u64;
use conspire::data::fmt_u64;

fn quant_texts(d: &VectorData) -> &Vec<String> {
    match d {
        VectorData::Quantitative(v) => v,
        VectorData::Categorical(_) => panic!("expected a quantitative series"),
    }
}

fn cat_texts(d: &VectorData) -> &Vec<String> {
    match d {
        VectorData::Categorical(v) => v,
        VectorData::Quantitative(_) => panic!("expected a categorical series"),
    }
}

#[test]
fn decimal_formatting_exact() {
    assert_eq!(fmt_u64(0).as_str(), "0");
    assert_eq!(fmt_u64(7).as_str(), "7");
    assert_eq!(fmt_u64(42).as_str(), "42");
    assert_eq!(fmt_u64(1200).as_str(), "1200");
    assert_eq!(fmt_u64(u64::MAX).as_str(), "18446744073709551615");
}

#[test]
fn quant_numeral_formatting_exact() {
    assert_eq!(fmt_quant_u64(3).as_str(), "3.0");
    assert_eq!(fmt_quant_i64(-7).as_str(), "-7.0");
    assert_eq!(fmt_quant_i64(0).as_str(), "0.0");
    assert_eq!(fmt_quant_i64(i64::from(i32::MIN)).as_str(), "-2147483648.0");
}

#[test]
fn numeral_matches_native_float_rendering() {
    // The numeral text of a widened integer is the text the native float
    // renders to.
    for value in [0i32, 1, -5, 120, 98765, -98765] {
        let native = format!("{:?}", f64::from(value));
        assert_eq!(fmt_quant_i64(i64::from(value)).as_str(), native.as_str());
    }
}

#[test]
fn unsigned_bytes_normalize_quantitative() {
    let d = vec![1u8, 2, 255].to_conspire_data();
    assert_eq!(quant_texts(&d), &vec!["1.0".to_string(), "2.0".to_string(), "255.0".to_string()]);
}

#[test]
fn signed_bytes_normalize_quantitative() {
    let d = vec![-1i8, 0, 127].to_conspire_data();
    assert_eq!(quant_texts(&d), &vec!["-1.0".to_string(), "0.0".to_string(), "127.0".to_string()]);
}

#[test]
fn unsigned_words_normalize_quantitative() {
    let d = vec![4000000000u32].to_conspire_data();
    assert_eq!(quant_texts(&d), &vec!["4000000000.0".to_string()]);
}

#[test]
fn signed_words_normalize_quantitative() {
    let d = vec![1i32, -2, 3].to_conspire_data();
    assert_eq!(quant_texts(&d), &vec!["1.0".to_string(), "-2.0".to_string(), "3.0".to_string()]);
}

#[test]
fn owned_strings_normalize_categorical() {
    let d = vec!["a".to_string(), "b".to_string()].to_conspire_data();
    assert_eq!(cat_texts(&d), &vec!["a".to_string(), "b".to_string()]);
}

#[test]
fn borrowed_strs_normalize_categorical() {
    let d = vec!["x", "y"].to_conspire_data();
    assert_eq!(cat_texts(&d), &vec!["x".to_string(), "y".to_string()]);
}

#[test]
fn single_str_normalizes_to_one_element_categorical() {
    let d = "legend".to_conspire_data();
    assert_eq!(cat_texts(&d), &vec!["legend".to_string()]);
}

#[test]
fn integer_grid_normalizes_quantitative_matrix() {
    let d = vec![vec![1i32, 2], vec![3, 4]].to_conspire_data();
    let MatrixData::Quantitative(rows) = d;
    assert_eq!(
        rows,
        vec![
            vec!["1.0".to_string(), "2.0".to_string()],
            vec!["3.0".to_string(), "4.0".to_string()],
        ]
    );
}

#[test]
fn empty_input_normalizes_to_empty_series() {
    let d = Vec::<i32>::new().to_conspire_data();
    assert_eq!(quant_texts(&d).len(), 0);
    let d = Vec::<String>::new().to_conspire_data();
    assert_eq!(cat_texts(&d).len(), 0);
}

#[test]
fn series_and_matrix_length() {
    let d = vec![1i32, 2, 3].to_conspire_data();
    assert_eq!(d.len(), 3);
    let m = vec![vec![1i32], vec![2], vec![3], vec![4]].to_conspire_data();
    assert_eq!(m.len(), 4);
}

#[test]
fn clone_keeps_every_text() {
    let d = vec![1i32, -2].to_conspire_data();
    let c = d.clone();
    assert_eq!(quant_texts(&c), quant_texts(&d));
    let m: MatrixData = vec![vec![1i32, 2], vec![3, 4]].to_conspire_data();
    let MatrixData::Quantitative(rows) = m.clone();
    assert_eq!(rows[1][0].as_str(), "3.0");
}

#[test]
fn layer_bindings_store_and_replace() {
    let layer: Layer<VectorData> = Layer::new();
    assert!(layer.get_x().is_none());
    assert!(layer.get_y().is_none());
    assert!(layer.get_color().is_none());
    assert!(layer.get_size().is_none());
    assert!(layer.get_name().is_none());

    let layer = layer.x(vec![1i32, 2]).y(vec![3i32]).color(vec!["red"]).size(vec![9u8]).name("n");
    assert_eq!(quant_texts(layer.get_x().as_ref().unwrap()).len(), 2);
    assert_eq!(quant_texts(layer.get_y().as_ref().unwrap()).len(), 1);
    assert_eq!(cat_texts(layer.get_color().as_ref().unwrap()).len(), 1);
    assert_eq!(quant_texts(layer.get_size().as_ref().unwrap()), &vec!["9.0".to_string()]);
    assert_eq!(layer.get_name().as_ref().unwrap().as_str(), "n");

    // Binding a channel again replaces the earlier value: last write wins.
    let layer = layer.x(vec![7i32]).name("m");
    assert_eq!(quant_texts(layer.get_x().as_ref().unwrap()), &vec!["7.0".to_string()]);
    assert_eq!(layer.get_name().as_ref().unwrap().as_str(), "m");
}

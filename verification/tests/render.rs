use conspire::Backend;
use conspire::Layer;
use conspire::Plot;
use conspire::PlotBuilder;
use conspire::Renderable;
use conspire::backends::plotly::Plotly;
use conspire::backends::plotly::markers_to_string;
use conspire::backends::plotly::matrix_text;
use conspire::backends::plotly::name_to_string;
use conspire::backends::plotly::series_text;
use conspire::channels::PositionX;
use conspire::channels::PositionY;
use conspire::data::VectorData;

fn float_series(values: &[f64]) -> VectorData {
    VectorData::quantitative(values.iter().map(|v| format!("{:?}", v)).collect())
}

#[test]
fn single_element_series_renders_scalar() {
    let d = VectorData::quantitative(vec!["1.0".to_string()]);
    assert_eq!(series_text(&d).as_str(), "1.0");
    let d = VectorData::categorical(vec!["a".to_string()]);
    assert_eq!(series_text(&d).as_str(), "'a'");
}

#[test]
fn multi_element_series_renders_array_in_order() {
    let d = VectorData::quantitative(vec!["1.0".to_string(), "2.0".to_string(), "3.0".to_string()]);
    assert_eq!(series_text(&d).as_str(), "[1.0, 2.0, 3.0]");
    let d = VectorData::categorical(vec!["a".to_string(), "b".to_string()]);
    assert_eq!(series_text(&d).as_str(), "['a', 'b']");
}

#[test]
fn empty_series_renders_empty_array() {
    let d = VectorData::quantitative(Vec::new());
    assert_eq!(series_text(&d).as_str(), "[]");
}

#[test]
fn single_row_matrix_collapses_to_row_array() {
    let d = conspire::data::MatrixData::quantitative(vec![
        vec!["1.0".to_string(), "2.0".to_string()],
    ]);
    assert_eq!(matrix_text(&d).as_str(), "[1.0, 2.0]");
}

#[test]
fn multi_row_matrix_renders_nested_arrays() {
    let d = conspire::data::MatrixData::quantitative(vec![
        vec!["1.0".to_string(), "2.0".to_string()],
        vec!["3.0".to_string(), "4.0".to_string()],
    ]);
    assert_eq!(matrix_text(&d).as_str(), "[[1.0, 2.0], [3.0, 4.0]]");
}

#[test]
fn absent_channels_contribute_no_attribute_text() {
    let none: Option<VectorData> = None;
    assert_eq!(markers_to_string(&none, &none).as_str(), ",");
    assert_eq!(name_to_string(&None).as_str(), "");
}

#[test]
fn present_channels_contribute_one_pair_each() {
    let color = Some(VectorData::categorical(vec!["red".to_string()]));
    let size = Some(VectorData::quantitative(vec!["2.0".to_string()]));
    let none: Option<VectorData> = None;
    assert_eq!(markers_to_string(&color, &none).as_str(), "color: 'red',,");
    assert_eq!(markers_to_string(&color, &size).as_str(), "color: 'red', size: 2.0,,");
    assert_eq!(name_to_string(&Some("cats".to_string())).as_str(), "name: 'cats'");
}

#[test]
fn trace_names_are_positional() {
    assert_eq!(Plotly::name(0).as_str(), "trace0,");
    assert_eq!(Plotly::name(12).as_str(), "trace12,");
}

#[test]
fn scenario_scatter_three_points() {
    let layer: Layer<VectorData> = Layer::new();
    let layer = PositionX::x(layer, float_series(&[1.0, 2.0, 3.0]));
    let layer = PositionY::y(layer, float_series(&[4.0, 5.0, 6.0]));
    let plot = Plot::scatter(layer).unwrap();
    let system = PlotBuilder::new(Backend::Plotly).add_layer(plot).build().unwrap();
    let html = system.render().unwrap();
    assert!(html.contains("x: [1.0, 2.0, 3.0],"));
    assert!(html.contains("y: [4.0, 5.0, 6.0],"));
    assert!(html.contains("mode: 'markers', type: 'scatter'"));
    // No color or size was bound, so the decoration block is empty.
    assert!(!html.contains("color"));
    assert!(!html.contains("size"));
    assert!(!html.contains("name:"));
}

#[test]
fn scenario_pie_categories_with_name() {
    let layer = Layer::new().x(vec!["a", "b", "c"]).name("cats");
    let plot = Plot::pie(layer).unwrap();
    let system = PlotBuilder::new(Backend::Plotly).add_layer(plot).build().unwrap();
    let html = system.render().unwrap();
    assert!(html.contains("values: ['a', 'b', 'c'],"));
    assert!(html.contains("type: 'pie'"));
    assert!(html.contains("name: 'cats'"));
}

#[test]
fn scenario_single_point_box_renders_scalar() {
    let layer: Layer<VectorData> = Layer::new();
    let layer = PositionX::x(layer, float_series(&[1.0]));
    let plot = Plot::boxplot(layer).unwrap();
    let system = PlotBuilder::new(Backend::Plotly).add_layer(plot).build().unwrap();
    let html = system.render().unwrap();
    assert!(html.contains("x: 1.0,"));
    assert!(!html.contains("x: [1.0],"));
    assert!(html.contains("type: 'box', boxpoints: 'Outliers'"));
}

#[test]
fn scenario_two_traces_in_order() {
    let scatter = Plot::scatter(Layer::new().x(vec![1i32]).y(vec![2i32])).unwrap();
    let line = Plot::line(Layer::new().x(vec![3i32]).y(vec![4i32])).unwrap();
    let system = PlotBuilder::new(Backend::Plotly)
        .add_layer(scatter)
        .add_layer(line)
        .build()
        .unwrap();
    let html = system.render().unwrap();
    let first = html.find("let trace0 = {").expect("first trace declared");
    let second = html.find("let trace1 = {").expect("second trace declared");
    assert!(first < second);
    assert!(html.contains("let data = [trace0,trace1,]; Plotly.newPlot('myDiv', data);"));
    assert!(html.contains("mode: 'markers', type: 'scatter'"));
    assert!(html.contains("mode: 'lines', type: 'scatter'"));
}

#[test]
fn scenario_heatmap_matrix() {
    let layer = Layer::new().x(vec![vec![1i32, 2], vec![3, 4]]);
    let plot = Plot::heatmap(layer).unwrap();
    let system = PlotBuilder::new(Backend::Plotly).add_layer(plot).build().unwrap();
    let html = system.render().unwrap();
    assert!(html.contains("z: [[1.0, 2.0], [3.0, 4.0]],"));
    assert!(html.contains("type: 'heatmap'"));
}

#[test]
fn artifact_is_a_document_with_the_fixed_shell() {
    let plot = Plot::boxplot(Layer::new().x(vec![5i32])).unwrap();
    let system = PlotBuilder::new(Backend::Plotly).add_layer(plot).build().unwrap();
    let html = system.render().unwrap();
    assert!(html.starts_with("<head>"));
    assert!(html.contains("https://cdn.plot.ly/plotly-latest.min.js"));
    assert!(html.contains("<div id=\"myDiv\"></div>"));
    assert!(html.trim_end().ends_with("</body>"));
}

#[test]
fn render_through_the_backend_contract() {
    let plot = Plot::bar(Layer::new().x(vec!["a"]).y(vec![2i32])).unwrap();
    let backend = Plotly {};
    let direct = backend.render(&vec![plot], false).unwrap();
    assert!(direct.contains("type: 'bar'"));
    assert!(direct.contains("x: 'a',"));
    assert!(direct.contains("y: 2.0,"));
}

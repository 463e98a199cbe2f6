use conspire::AssemblyError;
use conspire::Backend;
use conspire::DimensionError;
use conspire::Layer;
use conspire::Plot;
use conspire::PlotBuilder;
use conspire::data::MatrixData;
use conspire::data::VectorData;

fn xy_layer() -> Layer<VectorData> {
    Layer::new().x(vec![1i32, 2, 3]).y(vec![4i32, 5, 6])
}

#[test]
fn scatter_requires_x() {
    let r = Plot::scatter(Layer::new().y(vec![1i32]));
    assert!(matches!(r, Err(DimensionError::NoX)));
}

#[test]
fn scatter_requires_y() {
    let r = Plot::scatter(Layer::new().x(vec![1i32]));
    assert!(matches!(r, Err(DimensionError::NoY)));
}

#[test]
fn scatter_succeeds_with_required_only() {
    let r = Plot::scatter(xy_layer());
    assert!(matches!(r, Ok(Plot::Scatter { .. })));
}

#[test]
fn scatter_succeeds_with_all_optionals() {
    let layer = xy_layer().color(vec![1u8, 2, 3]).size(vec![4u8, 5, 6]).name("s");
    let r = Plot::scatter(layer);
    match r {
        Ok(Plot::Scatter { color, size, name, .. }) => {
            assert!(color.is_some());
            assert!(size.is_some());
            assert_eq!(name.unwrap().as_str(), "s");
        },
        _ => panic!("expected a scatter variant"),
    }
}

#[test]
fn empty_required_series_counts_as_absent() {
    let r = Plot::scatter(Layer::new().x(Vec::<i32>::new()).y(vec![1i32]));
    assert!(matches!(r, Err(DimensionError::NoX)));
    let r = Plot::scatter(Layer::new().x(vec![1i32]).y(Vec::<i32>::new()));
    assert!(matches!(r, Err(DimensionError::NoY)));
}

#[test]
fn empty_optional_series_is_dropped() {
    let r = Plot::scatter(xy_layer().color(Vec::<i32>::new()));
    match r {
        Ok(Plot::Scatter { color, .. }) => assert!(color.is_none()),
        _ => panic!("expected a scatter variant"),
    }
}

#[test]
fn line_requires_both_axes() {
    assert!(matches!(Plot::line(Layer::new()), Err(DimensionError::NoX)));
    assert!(matches!(Plot::line(Layer::new().x(vec![1i32])), Err(DimensionError::NoY)));
    assert!(matches!(Plot::line(xy_layer()), Ok(Plot::Line { .. })));
}

#[test]
fn bar_requires_both_axes() {
    assert!(matches!(Plot::bar(Layer::new()), Err(DimensionError::NoX)));
    assert!(matches!(Plot::bar(Layer::new().x(vec![1i32])), Err(DimensionError::NoY)));
    assert!(matches!(Plot::bar(xy_layer()), Ok(Plot::Bar { .. })));
}

#[test]
fn horizontal_bar_requires_both_axes() {
    assert!(matches!(Plot::horizontal_bar(Layer::new()), Err(DimensionError::NoX)));
    assert!(matches!(
        Plot::horizontal_bar(Layer::new().x(vec![1i32])),
        Err(DimensionError::NoY)
    ));
    assert!(matches!(Plot::horizontal_bar(xy_layer()), Ok(Plot::HorizontalBar { .. })));
}

#[test]
fn pie_requires_only_x() {
    assert!(matches!(Plot::pie(Layer::new()), Err(DimensionError::NoX)));
    // Omitting Y never blocks a pie: Y is not among its required channels.
    assert!(matches!(Plot::pie(Layer::new().x(vec!["a", "b"])), Ok(Plot::Pie { .. })));
}

#[test]
fn boxplot_requires_only_x() {
    assert!(matches!(Plot::boxplot(Layer::new()), Err(DimensionError::NoX)));
    assert!(matches!(Plot::boxplot(Layer::new().x(vec![1i32])), Ok(Plot::BoxPlot { .. })));
}

#[test]
fn heatmap_requires_matrix() {
    let empty: Layer<MatrixData> = Layer::new();
    assert!(matches!(Plot::heatmap(empty), Err(DimensionError::NoX)));
    let bound: Layer<MatrixData> = Layer::new().x(vec![vec![1i32, 2], vec![3, 4]]);
    assert!(matches!(Plot::heatmap(bound), Ok(Plot::SimpleHeatmap { .. })));
}

#[test]
fn build_with_zero_variants_fails() {
    let r = PlotBuilder::new(Backend::Plotly).build();
    assert!(matches!(r, Err(AssemblyError::EmptyAssembly)));
}

#[test]
fn build_preserves_insertion_order() {
    let scatter = Plot::scatter(xy_layer()).unwrap();
    let line = Plot::line(xy_layer()).unwrap();
    let system = PlotBuilder::new(Backend::Plotly)
        .add_layer(scatter)
        .add_layer(line)
        .build()
        .unwrap();
    let variants = system.variants();
    assert_eq!(variants.len(), 2);
    assert!(matches!(variants[0], Plot::Scatter { .. }));
    assert!(matches!(variants[1], Plot::Line { .. }));
}

#[test]
fn builder_settings_carry_through() {
    let scatter = Plot::scatter(xy_layer()).unwrap();
    let system = PlotBuilder::new(Backend::Plotly)
        .display(true)
        .backend(Backend::Plotly)
        .add_layer(scatter)
        .build()
        .unwrap();
    assert!(system.should_display());
}

#[test]
fn error_messages_name_the_failure() {
    assert_eq!(DimensionError::NoX.message(), "Missing X dimension");
    assert_eq!(DimensionError::NoY.message(), "Missing Y dimension");
    assert_eq!(AssemblyError::EmptyAssembly.message(), "Cannot make a plot without data");
}

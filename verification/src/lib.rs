//! Conspire: a declarative plotting library.
//!
//! Callers build [`Layer`]s by binding normalized data to visual channels,
//! convert each layer into a validated chart variant ([`Plot`]), accumulate
//! variants into a [`PlotBuilder`], and finalize into a [`PlotSystem`] that a
//! backend serializes into a renderable textual artifact.
//!
//! Validation happens at the earliest possible stage: a chart variant cannot
//! be constructed without its required channels, and an assembly cannot be
//! finalized without at least one variant, so a backend always receives
//! validated data. The reference backend serializes each variant into one
//! positionally named trace and embeds the traces in a static document
//! shell; every byte of that artifact is pinned by the contracts in
//! [`backends::plotly`].

use vstd::prelude::*;

pub mod backends;
pub mod channels;
pub mod data;
pub mod error;
pub mod layer;

pub use backends::Backend;
pub use backends::Renderable;

pub use error::AssemblyError;
pub use error::DimensionError;
pub use error::RenderError;
pub use layer::Layer;

use data::MatrixData;
use data::VectorData;

verus! {

/// Whether an optional series channel is present: bound and non-empty. A
/// bound-but-empty series is equivalent to absent for all downstream logic.
pub open spec fn series_present(o: Option<VectorData>) -> bool {
    o matches Some(d) && d.spec_len() > 0
}

/// Whether an optional matrix channel is present: bound with at least one row.
pub open spec fn matrix_present(o: Option<MatrixData>) -> bool {
    o matches Some(d) && d.spec_len() > 0
}

/// An optional series channel with a bound-but-empty series demoted to absent.
pub open spec fn settled_series(o: Option<VectorData>) -> Option<VectorData> {
    if series_present(o) {
        o
    } else {
        None
    }
}

/// An optional matrix channel with a bound-but-empty matrix demoted to absent.
pub open spec fn settled_matrix(o: Option<MatrixData>) -> Option<MatrixData> {
    if matrix_present(o) {
        o
    } else {
        None
    }
}

/// Demotes a bound-but-empty series to absent before it is stored in a
/// chart variant.
fn settle_series(o: Option<VectorData>) -> (r: Option<VectorData>)
    ensures
        r == settled_series(o),
{
    match o {
        Some(d) => {
            if d.len() > 0 {
                Some(d)
            } else {
                None
            }
        },
        None => None,
    }
}

/// Demotes a bound-but-empty matrix to absent before it is stored in a
/// chart variant.
fn settle_matrix(o: Option<MatrixData>) -> (r: Option<MatrixData>)
    ensures
        r == settled_matrix(o),
{
    match o {
        Some(d) => {
            if d.len() > 0 {
                Some(d)
            } else {
                None
            }
        },
        None => None,
    }
}

/// A validated, kind-specific selection of channels ready for serialization.
/// Each variant stores copies of only the channels it uses; construction
/// fails unless every required channel is present, so every later stage may
/// assume the required channels without re-checking.
#[allow(inconsistent_fields)]
pub enum Plot {
    Scatter {
        x: VectorData,
        y: VectorData,
        color: Option<VectorData>,
        size: Option<VectorData>,
        name: Option<String>,
    },
    Line {
        x: VectorData,
        y: VectorData,
        color: Option<VectorData>,
        size: Option<VectorData>,
        name: Option<String>,
    },
    Bar { x: VectorData, y: VectorData, color: Option<VectorData>, name: Option<String> },
    Pie { x: VectorData, color: Option<VectorData>, name: Option<String> },
    HorizontalBar { x: VectorData, y: VectorData, color: Option<VectorData>, name: Option<String> },
    BoxPlot { x: VectorData, color: Option<VectorData>, name: Option<String> },
    SimpleHeatmap { z: MatrixData, color: Option<MatrixData>, name: Option<String> },
}

impl Plot {
    /// Well-formedness: every required channel is non-empty and every stored
    /// optional channel is present (never bound-but-empty). The validating
    /// constructors establish this.
    pub open spec fn wf(&self) -> bool {
        match *self {
            Plot::Scatter { x, y, color, size, name } => {
                &&& x.spec_len() > 0
                &&& y.spec_len() > 0
                &&& (color is Some ==> series_present(color))
                &&& (size is Some ==> series_present(size))
            },
            Plot::Line { x, y, color, size, name } => {
                &&& x.spec_len() > 0
                &&& y.spec_len() > 0
                &&& (color is Some ==> series_present(color))
                &&& (size is Some ==> series_present(size))
            },
            Plot::Bar { x, y, color, name } => {
                &&& x.spec_len() > 0
                &&& y.spec_len() > 0
                &&& (color is Some ==> series_present(color))
            },
            Plot::Pie { x, color, name } => {
                &&& x.spec_len() > 0
                &&& (color is Some ==> series_present(color))
            },
            Plot::HorizontalBar { x, y, color, name } => {
                &&& x.spec_len() > 0
                &&& y.spec_len() > 0
                &&& (color is Some ==> series_present(color))
            },
            Plot::BoxPlot { x, color, name } => {
                &&& x.spec_len() > 0
                &&& (color is Some ==> series_present(color))
            },
            Plot::SimpleHeatmap { z, color, name } => {
                &&& z.spec_len() > 0
                &&& (color is Some ==> matrix_present(color))
            },
        }
    }

    /// Converts a layer into a scatter plot. Requires the X and Y channels;
    /// color, size and name are optional.
    pub fn scatter(layer: Layer<VectorData>) -> (r: Result<Plot, DimensionError>)
        ensures
            !series_present(layer.spec_x()) ==> r == Err::<Plot, _>(DimensionError::NoX),
            series_present(layer.spec_x()) && !series_present(layer.spec_y()) ==> r == Err::<
                Plot,
                _,
            >(DimensionError::NoY),
            series_present(layer.spec_x()) && series_present(layer.spec_y()) ==> r == Ok::<_, DimensionError>(
                Plot::Scatter {
                    x: layer.spec_x()->Some_0,
                    y: layer.spec_y()->Some_0,
                    color: settled_series(layer.spec_color()),
                    size: settled_series(layer.spec_size()),
                    name: layer.spec_name(),
                },
            ),
            r matches Ok(p) ==> p.wf(),
    {
        let (x, y, color, size, name) = layer.into_parts();
        let x = match settle_series(x) {
            Some(d) => d,
            None => {
                return Err(DimensionError::NoX);
            },
        };
        let y = match settle_series(y) {
            Some(d) => d,
            None => {
                return Err(DimensionError::NoY);
            },
        };
        Ok(Plot::Scatter { x, y, color: settle_series(color), size: settle_series(size), name })
    }

    /// Converts a layer into a line plot. Requires the X and Y channels;
    /// color, size and name are optional.
    pub fn line(layer: Layer<VectorData>) -> (r: Result<Plot, DimensionError>)
        ensures
            !series_present(layer.spec_x()) ==> r == Err::<Plot, _>(DimensionError::NoX),
            series_present(layer.spec_x()) && !series_present(layer.spec_y()) ==> r == Err::<
                Plot,
                _,
            >(DimensionError::NoY),
            series_present(layer.spec_x()) && series_present(layer.spec_y()) ==> r == Ok::<_, DimensionError>(
                Plot::Line {
                    x: layer.spec_x()->Some_0,
                    y: layer.spec_y()->Some_0,
                    color: settled_series(layer.spec_color()),
                    size: settled_series(layer.spec_size()),
                    name: layer.spec_name(),
                },
            ),
            r matches Ok(p) ==> p.wf(),
    {
        let (x, y, color, size, name) = layer.into_parts();
        let x = match settle_series(x) {
            Some(d) => d,
            None => {
                return Err(DimensionError::NoX);
            },
        };
        let y = match settle_series(y) {
            Some(d) => d,
            None => {
                return Err(DimensionError::NoY);
            },
        };
        Ok(Plot::Line { x, y, color: settle_series(color), size: settle_series(size), name })
    }

    /// Converts a layer into a bar chart. Requires the X and Y channels;
    /// color and name are optional.
    pub fn bar(layer: Layer<VectorData>) -> (r: Result<Plot, DimensionError>)
        ensures
            !series_present(layer.spec_x()) ==> r == Err::<Plot, _>(DimensionError::NoX),
            series_present(layer.spec_x()) && !series_present(layer.spec_y()) ==> r == Err::<
                Plot,
                _,
            >(DimensionError::NoY),
            series_present(layer.spec_x()) && series_present(layer.spec_y()) ==> r == Ok::<_, DimensionError>(
                Plot::Bar {
                    x: layer.spec_x()->Some_0,
                    y: layer.spec_y()->Some_0,
                    color: settled_series(layer.spec_color()),
                    name: layer.spec_name(),
                },
            ),
            r matches Ok(p) ==> p.wf(),
    {
        let (x, y, color, _size, name) = layer.into_parts();
        let x = match settle_series(x) {
            Some(d) => d,
            None => {
                return Err(DimensionError::NoX);
            },
        };
        let y = match settle_series(y) {
            Some(d) => d,
            None => {
                return Err(DimensionError::NoY);
            },
        };
        Ok(Plot::Bar { x, y, color: settle_series(color), name })
    }

    /// Converts a layer into a pie chart. Requires only the X channel; color
    /// and name are optional, and Y never blocks construction.
    pub fn pie(layer: Layer<VectorData>) -> (r: Result<Plot, DimensionError>)
        ensures
            !series_present(layer.spec_x()) ==> r == Err::<Plot, _>(DimensionError::NoX),
            series_present(layer.spec_x()) ==> r == Ok::<_, DimensionError>(
                Plot::Pie {
                    x: layer.spec_x()->Some_0,
                    color: settled_series(layer.spec_color()),
                    name: layer.spec_name(),
                },
            ),
            r matches Ok(p) ==> p.wf(),
    {
        let (x, _y, color, _size, name) = layer.into_parts();
        let x = match settle_series(x) {
            Some(d) => d,
            None => {
                return Err(DimensionError::NoX);
            },
        };
        Ok(Plot::Pie { x, color: settle_series(color), name })
    }

    /// Converts a layer into a horizontal bar chart. Requires the X and Y
    /// channels; color and name are optional.
    pub fn horizontal_bar(layer: Layer<VectorData>) -> (r: Result<Plot, DimensionError>)
        ensures
            !series_present(layer.spec_x()) ==> r == Err::<Plot, _>(DimensionError::NoX),
            series_present(layer.spec_x()) && !series_present(layer.spec_y()) ==> r == Err::<
                Plot,
                _,
            >(DimensionError::NoY),
            series_present(layer.spec_x()) && series_present(layer.spec_y()) ==> r == Ok::<_, DimensionError>(
                Plot::HorizontalBar {
                    x: layer.spec_x()->Some_0,
                    y: layer.spec_y()->Some_0,
                    color: settled_series(layer.spec_color()),
                    name: layer.spec_name(),
                },
            ),
            r matches Ok(p) ==> p.wf(),
    {
        let (x, y, color, _size, name) = layer.into_parts();
        let x = match settle_series(x) {
            Some(d) => d,
            None => {
                return Err(DimensionError::NoX);
            },
        };
        let y = match settle_series(y) {
            Some(d) => d,
            None => {
                return Err(DimensionError::NoY);
            },
        };
        Ok(Plot::HorizontalBar { x, y, color: settle_series(color), name })
    }

    /// Converts a layer into a box plot. Requires only the X channel; color
    /// and name are optional.
    pub fn boxplot(layer: Layer<VectorData>) -> (r: Result<Plot, DimensionError>)
        ensures
            !series_present(layer.spec_x()) ==> r == Err::<Plot, _>(DimensionError::NoX),
            series_present(layer.spec_x()) ==> r == Ok::<_, DimensionError>(
                Plot::BoxPlot {
                    x: layer.spec_x()->Some_0,
                    color: settled_series(layer.spec_color()),
                    name: layer.spec_name(),
                },
            ),
            r matches Ok(p) ==> p.wf(),
    {
        let (x, _y, color, _size, name) = layer.into_parts();
        let x = match settle_series(x) {
            Some(d) => d,
            None => {
                return Err(DimensionError::NoX);
            },
        };
        Ok(Plot::BoxPlot { x, color: settle_series(color), name })
    }

    /// Converts a matrix-oriented layer into a heatmap. The matrix bound to
    /// the X channel becomes the required Z data; color and name are optional.
    pub fn heatmap(layer: Layer<MatrixData>) -> (r: Result<Plot, DimensionError>)
        ensures
            !matrix_present(layer.spec_x()) ==> r == Err::<Plot, _>(DimensionError::NoX),
            matrix_present(layer.spec_x()) ==> r == Ok::<_, DimensionError>(
                Plot::SimpleHeatmap {
                    z: layer.spec_x()->Some_0,
                    color: settled_matrix(layer.spec_color()),
                    name: layer.spec_name(),
                },
            ),
            r matches Ok(p) ==> p.wf(),
    {
        let (z, _y, color, _size, name) = layer.into_parts();
        let z = match settle_matrix(z) {
            Some(d) => d,
            None => {
                return Err(DimensionError::NoX);
            },
        };
        Ok(Plot::SimpleHeatmap { z, color: settle_matrix(color), name })
    }
}

/// A plot under construction: an ordered accumulation of chart variants, a
/// chosen backend and a display flag. Insertion order is rendering order.
pub struct PlotBuilder {
    backend: Backend,
    display: bool,
    data: Vec<Plot>,
}

impl PlotBuilder {
    /// The chosen backend identifier.
    pub closed spec fn spec_backend(&self) -> Backend {
        self.backend
    }

    /// Whether the finished artifact should be handed to a viewer.
    pub closed spec fn spec_display(&self) -> bool {
        self.display
    }

    /// The accumulated chart variants, in insertion order.
    pub closed spec fn spec_data(&self) -> Seq<Plot> {
        self.data@
    }

    /// Creates a builder for the given backend with no variants and the
    /// display flag cleared.
    pub fn new(backend: Backend) -> (r: Self)
        ensures
            r.spec_backend() == backend,
            r.spec_display() == false,
            r.spec_data() == Seq::<Plot>::empty(),
    {
        let r = Self { backend, display: false, data: Vec::new() };
        proof {
            assert(r.spec_data() =~= Seq::<Plot>::empty());
        }
        r
    }

    /// Replaces the chosen backend.
    pub fn backend(self, backend: Backend) -> (r: Self)
        ensures
            r.spec_backend() == backend,
            r.spec_display() == self.spec_display(),
            r.spec_data() == self.spec_data(),
    {
        Self { backend, ..self }
    }

    /// Appends one chart variant; insertion order is preserved through
    /// serialization.
    pub fn add_layer(self, data: Plot) -> (r: Self)
        ensures
            r.spec_data() == self.spec_data().push(data),
            r.spec_backend() == self.spec_backend(),
            r.spec_display() == self.spec_display(),
    {
        let mut rest = self.data;
        rest.push(data);
        Self { data: rest, ..self }
    }

    /// Sets whether the finished artifact should be displayed.
    pub fn display(self, should_display: bool) -> (r: Self)
        ensures
            r.spec_display() == should_display,
            r.spec_backend() == self.spec_backend(),
            r.spec_data() == self.spec_data(),
    {
        Self { display: should_display, ..self }
    }

    /// Finalizes the assembly. Fails with [`AssemblyError::EmptyAssembly`]
    /// when no variant was added — an empty chart has no defined rendering —
    /// and otherwise yields an immutable system holding the variants in
    /// insertion order.
    pub fn build(self) -> (r: Result<PlotSystem, AssemblyError>)
        ensures
            self.spec_data().len() == 0 ==> r == Err::<PlotSystem, _>(AssemblyError::EmptyAssembly),
            self.spec_data().len() > 0 ==> (r matches Ok(s) && s.spec_backend()
                == self.spec_backend() && s.spec_display() == self.spec_display() && s.spec_data()
                == self.spec_data()),
    {
        if self.data.len() < 1 {
            return Err(AssemblyError::EmptyAssembly);
        }
        Ok(PlotSystem { backend: self.backend, display: self.display, data: self.data })
    }
}

/// A finalized, immutable assembly: at least one chart variant, a backend,
/// and a display flag.
pub struct PlotSystem {
    backend: Backend,
    display: bool,
    data: Vec<Plot>,
}

impl PlotSystem {
    /// The chosen backend identifier.
    pub closed spec fn spec_backend(&self) -> Backend {
        self.backend
    }

    /// Whether the finished artifact should be handed to a viewer.
    pub closed spec fn spec_display(&self) -> bool {
        self.display
    }

    /// The finalized chart variants, in insertion order.
    pub closed spec fn spec_data(&self) -> Seq<Plot> {
        self.data@
    }

    /// The finalized variant sequence, in insertion order.
    pub fn variants(&self) -> (r: &Vec<Plot>)
        ensures
            r@ == self.spec_data(),
    {
        &self.data
    }

    /// Whether the finished artifact should be handed to a viewer.
    pub fn should_display(&self) -> (r: bool)
        ensures
            r == self.spec_display(),
    {
        self.display
    }

    /// Dispatches the finalized variant sequence and display flag to the
    /// chosen backend and returns its artifact. The reference backend
    /// implements every variant, so it always produces the artifact.
    pub fn render(&self) -> (r: Result<String, RenderError>)
        ensures
            self.spec_backend() == Backend::Plotly ==> (r matches Ok(s) && s@
                == backends::plotly::html_model(backends::plotly::script_model(self.spec_data()))),
    {
        let backend = self.backend.clone();
        backend.to_struct().render(&self.data, self.display)
    }
}

} // verus!
